//! Run planning, MIME lookup, scanner tally and lister behaviour on
//! concrete inputs.

use std::collections::HashSet;

use drive_sync::data::{Direction, LocalCandidate, RemoteItem};
use drive_sync::engine::{plan_download, plan_upload};
use drive_sync::lister::{listing_entries, names_of_items, ListAccumulator};
use drive_sync::mime_map::{get_mime_type, is_supported_extension};
use drive_sync::scanner::count_by_extension;

fn candidate(name: &str, ext: Option<&str>, size: u64) -> LocalCandidate {
    LocalCandidate {
        path: format!("/tmp/in/{}", name),
        name: name.to_string(),
        extension: ext.map(|e| e.to_string()),
        size,
    }
}

fn item(id: &str, name: Option<&str>, mime: Option<&str>, size: Option<i64>) -> RemoteItem {
    RemoteItem {
        id: Some(id.to_string()),
        name: name.map(|n| n.to_string()),
        mime_type: mime.map(|m| m.to_string()),
        size,
    }
}

#[test]
fn mime_lookup_is_exact() {
    assert_eq!(get_mime_type(Some("pdf")), "application/pdf");
    assert_eq!(get_mime_type(Some("doc")), "application/msword");
    assert_eq!(
        get_mime_type(Some("docx")),
        "application/vnd.openxmlformats-officedocument.wordprocessingml.document"
    );
    assert_eq!(get_mime_type(Some("xls")), "application/vnd.ms-excel");
    assert_eq!(
        get_mime_type(Some("xlsx")),
        "application/vnd.openxmlformats-officedocument.spreadsheetml.sheet"
    );
    assert_eq!(get_mime_type(Some("ppt")), "application/vnd.ms-powerpoint");
    assert_eq!(
        get_mime_type(Some("pptx")),
        "application/vnd.openxmlformats-officedocument.presentationml.presentation"
    );
    assert_eq!(get_mime_type(Some("txt")), "text/plain");
    assert_eq!(get_mime_type(Some("jpg")), "image/jpeg");
    assert_eq!(get_mime_type(Some("jpeg")), "image/jpeg");
    assert_eq!(get_mime_type(Some("png")), "image/png");
    assert_eq!(get_mime_type(Some("gif")), "image/gif");
    assert_eq!(get_mime_type(Some("mp4")), "video/mp4");
    assert_eq!(get_mime_type(Some("mp3")), "audio/mpeg");
    assert_eq!(get_mime_type(Some("zip")), "application/zip");
    // The lookup is case-sensitive, and anything else is generic.
    assert_eq!(get_mime_type(Some("PDF")), "application/octet-stream");
    assert_eq!(get_mime_type(Some("exe")), "application/octet-stream");
    assert_eq!(get_mime_type(None), "application/octet-stream");
}

#[test]
fn allowlist_ignores_ascii_case() {
    assert!(is_supported_extension("pdf"));
    assert!(is_supported_extension("PDF"));
    assert!(is_supported_extension("PdF"));
    assert!(is_supported_extension("jpeg"));
    assert!(!is_supported_extension("exe"));
    assert!(!is_supported_extension(""));
    assert!(!is_supported_extension("pdf "));
}

#[test]
fn upload_plan_builds_tasks_for_new_files_only() {
    let cands = vec![
        candidate("a.pdf", Some("pdf"), 500_000),
        candidate("b.txt", Some("txt"), 500_000),
        candidate("dup.pdf", Some("pdf"), 500_000),
    ];
    let existing = vec!["dup.pdf".to_string()];
    let folder = "folder123".to_string();
    let p = plan_upload(cands, &existing, &folder, 1000);
    assert_eq!(p.tasks.len(), 2);
    assert_eq!(p.tasks[0].name, "a.pdf");
    assert_eq!(p.tasks[0].source, "/tmp/in/a.pdf");
    assert_eq!(p.tasks[0].destination, "folder123");
    assert_eq!(p.tasks[0].direction, Direction::Upload);
    assert!(p.tasks[0].identifier.is_none());
    assert_eq!(p.tasks[1].name, "b.txt");
    assert_eq!(p.total_bytes, 1_000_000);
    assert_eq!(p.concurrency, 100);
}

#[test]
fn download_plan_excludes_present_and_folders() {
    let items = vec![
        item("id1", Some("report.pdf"), Some("application/pdf"), Some(100)),
        item("id2", Some("sub"), Some("application/vnd.google-apps.folder"), None),
        item("id3", Some("new.bin"), Some("application/octet-stream"), Some(5_000_000)),
    ];
    let existing = vec!["report.pdf".to_string()];
    let folder = "folderX".to_string();
    let target = "/tmp/out".to_string();
    let p = plan_download(items, &existing, &folder, &target, 1000);
    assert_eq!(p.tasks.len(), 1);
    assert_eq!(p.tasks[0].name, "new.bin");
    assert_eq!(p.tasks[0].identifier.as_deref(), Some("id3"));
    assert_eq!(p.tasks[0].source, "folderX");
    assert_eq!(p.tasks[0].destination, "/tmp/out");
    assert_eq!(p.tasks[0].direction, Direction::Download);
    assert_eq!(p.total_bytes, 5_000_000);
    // One selected item of 5 MB: the download mid tier, 30.
    assert_eq!(p.concurrency, 30);
}

#[test]
fn download_plan_counts_missing_and_negative_sizes_as_zero() {
    let items = vec![
        item("id1", Some("a.bin"), None, None),
        item("id2", Some("b.bin"), None, Some(-5)),
    ];
    let existing: Vec<String> = vec![];
    let folder = "f".to_string();
    let target = "/tmp/out".to_string();
    let p = plan_download(items, &existing, &folder, &target, 1000);
    assert_eq!(p.tasks.len(), 2);
    assert_eq!(p.total_bytes, 0);
    assert_eq!(p.concurrency, 50);
}

#[test]
fn extension_tally_is_exact_and_keyed_by_raw_extension() {
    let cands = vec![
        candidate("a.pdf", Some("pdf"), 1),
        candidate("b.txt", Some("txt"), 1),
        candidate("c.pdf", Some("pdf"), 1),
        candidate("noext", None, 1),
        candidate("d.TXT", Some("TXT"), 1),
    ];
    let tally = count_by_extension(&cands);
    assert_eq!(tally.len(), 3);
    let lookup = |k: &str| tally.iter().find(|p| p.0 == k).map(|p| p.1);
    assert_eq!(lookup("pdf"), Some(2));
    assert_eq!(lookup("txt"), Some(1));
    assert_eq!(lookup("TXT"), Some(1));
}

#[test]
fn three_pages_accumulate_every_item_once() {
    // 2500 items over three pages of at most 1000: the listing holds
    // exactly 2500 names, none duplicated.
    let mut acc = ListAccumulator::new();
    let page = |lo: usize, hi: usize| -> Vec<RemoteItem> {
        (lo..hi)
            .map(|k| {
                item(
                    &format!("id{}", k),
                    Some(&format!("file{}.pdf", k)),
                    Some("application/pdf"),
                    Some(1),
                )
            })
            .collect()
    };
    acc.absorb_page(page(0, 1000), &Some("tok1".to_string()));
    assert!(acc.has_more());
    acc.absorb_page(page(1000, 2000), &Some("tok2".to_string()));
    assert!(acc.has_more());
    acc.absorb_page(page(2000, 2500), &None);
    assert!(!acc.has_more());
    assert_eq!(acc.len(), 2500);

    let items = acc.into_items();
    assert_eq!(items.len(), 2500);
    let names = names_of_items(&items);
    assert_eq!(names.len(), 2500);
    let distinct: HashSet<&String> = names.iter().collect();
    assert_eq!(distinct.len(), 2500);
}

#[test]
fn name_extraction_skips_unnamed_items() {
    let items = vec![
        item("id1", Some("a.pdf"), None, None),
        item("id2", None, None, None),
        item("id3", Some("b.pdf"), None, None),
    ];
    let names = names_of_items(&items);
    assert_eq!(names, vec!["a.pdf".to_string(), "b.pdf".to_string()]);
}

#[test]
fn listing_shows_missing_fields_as_empty() {
    let items = vec![
        item("id1", Some("a.pdf"), Some("application/pdf"), None),
        item("id2", None, None, None),
    ];
    let entries = listing_entries(&items);
    assert_eq!(entries.len(), 2);
    assert_eq!(entries[0], ("a.pdf".to_string(), "application/pdf".to_string()));
    assert_eq!(entries[1], (String::new(), String::new()));
}
