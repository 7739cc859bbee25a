//! Dedup-filter behaviour on concrete candidate and item sets.

use drive_sync::data::{LocalCandidate, RemoteItem};
use drive_sync::dedup::{contains_name, filter_download_items, filter_upload_candidates};

fn candidate(name: &str, ext: Option<&str>, size: u64) -> LocalCandidate {
    LocalCandidate {
        path: format!("/tmp/in/{}", name),
        name: name.to_string(),
        extension: ext.map(|e| e.to_string()),
        size,
    }
}

fn item(id: &str, name: Option<&str>, mime: Option<&str>, size: Option<i64>) -> RemoteItem {
    RemoteItem {
        id: Some(id.to_string()),
        name: name.map(|n| n.to_string()),
        mime_type: mime.map(|m| m.to_string()),
        size,
    }
}

#[test]
fn upload_filter_excludes_existing_names() {
    // A candidate whose name is already remote is never turned into a
    // task, whatever its extension.
    let cands = vec![
        candidate("a.pdf", Some("pdf"), 10),
        candidate("d.pdf", Some("pdf"), 20),
    ];
    let existing = vec!["d.pdf".to_string()];
    let kept = filter_upload_candidates(cands, &existing);
    assert_eq!(kept.len(), 1);
    assert_eq!(kept[0].name, "a.pdf");
}

#[test]
fn upload_filter_excludes_unsupported_extensions() {
    let cands = vec![
        candidate("a.pdf", Some("pdf"), 10),
        candidate("b.exe", Some("exe"), 10),
        candidate("noext", None, 10),
    ];
    let existing: Vec<String> = vec![];
    let kept = filter_upload_candidates(cands, &existing);
    assert_eq!(kept.len(), 1);
    assert_eq!(kept[0].name, "a.pdf");
}

#[test]
fn upload_filter_matches_extension_case_insensitively() {
    let cands = vec![
        candidate("c.PDF", Some("PDF"), 10),
        candidate("d.TxT", Some("TxT"), 10),
    ];
    let existing: Vec<String> = vec![];
    let kept = filter_upload_candidates(cands, &existing);
    assert_eq!(kept.len(), 2);
}

#[test]
fn upload_runs_twice_transfers_nothing_the_second_time() {
    // Idempotence: after a run whose selected names all reached the
    // remote folder, a re-run over the same directory selects nothing.
    let make = || {
        vec![
            candidate("a.pdf", Some("pdf"), 10),
            candidate("b.txt", Some("txt"), 20),
            candidate("c.exe", Some("exe"), 30),
        ]
    };
    let existing: Vec<String> = vec![];
    let first = filter_upload_candidates(make(), &existing);
    assert_eq!(first.len(), 2);

    let mut existing_after = existing.clone();
    for c in &first {
        existing_after.push(c.name.clone());
    }
    let second = filter_upload_candidates(make(), &existing_after);
    assert_eq!(second.len(), 0);
}

#[test]
fn download_filter_excludes_existing_local_names() {
    // The local target directory already holds report.pdf; the remote
    // folder also has it: that item is excluded from the task set.
    let items = vec![
        item("id1", Some("report.pdf"), Some("application/pdf"), Some(100)),
        item("id2", Some("new.pdf"), Some("application/pdf"), Some(200)),
    ];
    let existing = vec!["report.pdf".to_string()];
    let kept = filter_download_items(items, &existing);
    assert_eq!(kept.len(), 1);
    assert_eq!(kept[0].name.as_deref(), Some("new.pdf"));
}

#[test]
fn download_filter_excludes_folders_and_unnamed_items() {
    let items = vec![
        item("id1", Some("sub"), Some("application/vnd.google-apps.folder"), None),
        item("id2", None, Some("application/pdf"), Some(5)),
        item("id3", Some("kept.bin"), None, Some(5)),
    ];
    let existing: Vec<String> = vec![];
    let kept = filter_download_items(items, &existing);
    assert_eq!(kept.len(), 1);
    assert_eq!(kept[0].name.as_deref(), Some("kept.bin"));
}

#[test]
fn contains_name_is_exact_string_match() {
    let names = vec!["a.pdf".to_string(), "b.txt".to_string()];
    assert!(contains_name(&names, &"a.pdf".to_string()));
    assert!(!contains_name(&names, &"A.pdf".to_string()));
    assert!(!contains_name(&names, &"c.zip".to_string()));
}
