//! Dedup filter: the set difference between intended transfers and
//! items already present at the destination.
//!
//! Matching is by exact name string; no content hashing or size
//! comparison is performed, so a same-named-but-different file is
//! treated as already present and skipped. This is a documented
//! limitation, not a correctness guarantee against concurrent writers.

use vstd::prelude::*;
use crate::data::{LocalCandidate, RemoteItem};
use crate::mime_map::{is_supported_extension, spec_supported_extension};
use crate::text::string_eq;

verus! {

/// The MIME type that marks a remote item as a folder; container
/// objects are never transferred as files.
pub open spec fn spec_folder_mime() -> Seq<char> {
    "application/vnd.google-apps.folder"@
}

/// A name occurs in a list of existing names.
pub open spec fn spec_in_names(existing: Seq<String>, n: Seq<char>) -> bool {
    exists|i: int| 0 <= i < existing.len() && #[trigger] existing[i]@ == n
}

/// Whether this name is already present in the given list.
pub fn contains_name(existing: &Vec<String>, name: &String) -> (r: bool)
    ensures
        r == spec_in_names(existing@, name@),
{
    let mut i: usize = 0;
    while i < existing.len()
        invariant
            0 <= i <= existing@.len(),
            forall|j: int| 0 <= j < i ==> #[trigger] existing@[j]@ != name@,
        decreases existing@.len() - i,
    {
        if string_eq(&existing[i], name) {
            return true;
        }
        i = i + 1;
    }
    false
}

/// A local candidate is taken up for upload: it has an extension on the
/// allowlist and its name is not already present remotely.
pub open spec fn spec_upload_eligible(c: LocalCandidate, existing: Seq<String>) -> bool {
    match c.extension {
        Some(e) => spec_supported_extension(e@) && !spec_in_names(existing, c.name@),
        None => false,
    }
}

/// The candidates that the upload dedup filter keeps, in order.
pub open spec fn spec_upload_selection(cands: Seq<LocalCandidate>, existing: Seq<String>) -> Seq<
    LocalCandidate,
>
    decreases cands.len(),
{
    if cands.len() == 0 {
        Seq::empty()
    } else if spec_upload_eligible(cands[0], existing) {
        seq![cands[0]] + spec_upload_selection(cands.drop_first(), existing)
    } else {
        spec_upload_selection(cands.drop_first(), existing)
    }
}

/// Upload half of the dedup filter: keeps the candidates whose
/// extension is supported and whose name is absent from the remote
/// folder's snapshot.
pub fn filter_upload_candidates(candidates: Vec<LocalCandidate>, existing: &Vec<String>) -> (r:
    Vec<LocalCandidate>)
    ensures
        r@ == spec_upload_selection(candidates@, existing@),
{
    let ghost orig = candidates@;
    let mut rest = candidates;
    let mut r: Vec<LocalCandidate> = Vec::new();
    while rest.len() > 0
        invariant
            spec_upload_selection(orig, existing@) == r@ + spec_upload_selection(
                rest@,
                existing@,
            ),
        decreases rest@.len(),
    {
        let c = rest.remove(0);
        let eligible = match &c.extension {
            Some(e) => is_supported_extension(e.as_str()) && !contains_name(existing, &c.name),
            None => false,
        };
        if eligible {
            r.push(c);
        }
    }
    assert(spec_upload_selection(rest@, existing@) =~= Seq::<LocalCandidate>::empty());
    assert(r@ =~= r@ + Seq::<LocalCandidate>::empty());
    r
}

/// A remote item is taken up for download: it is not a folder and it
/// carries a name that is not already present locally.
pub open spec fn spec_download_eligible(item: RemoteItem, existing: Seq<String>) -> bool {
    &&& match item.mime_type {
        Some(m) => m@ != spec_folder_mime(),
        None => true,
    }
    &&& match item.name {
        Some(n) => !spec_in_names(existing, n@),
        None => false,
    }
}

/// The remote items that the download dedup filter keeps, in order.
pub open spec fn spec_download_selection(items: Seq<RemoteItem>, existing: Seq<String>) -> Seq<
    RemoteItem,
>
    decreases items.len(),
{
    if items.len() == 0 {
        Seq::empty()
    } else if spec_download_eligible(items[0], existing) {
        seq![items[0]] + spec_download_selection(items.drop_first(), existing)
    } else {
        spec_download_selection(items.drop_first(), existing)
    }
}

/// Download half of the dedup filter: drops folders, items without a
/// name, and items whose name is already present in the local target
/// directory.
pub fn filter_download_items(items: Vec<RemoteItem>, existing: &Vec<String>) -> (r: Vec<
    RemoteItem,
>)
    ensures
        r@ == spec_download_selection(items@, existing@),
{
    let ghost orig = items@;
    let mut rest = items;
    let mut r: Vec<RemoteItem> = Vec::new();
    while rest.len() > 0
        invariant
            spec_download_selection(orig, existing@) == r@ + spec_download_selection(
                rest@,
                existing@,
            ),
        decreases rest@.len(),
    {
        let item = rest.remove(0);
        let not_folder = match &item.mime_type {
            Some(m) => !string_eq(m, &folder_mime_string()),
            None => true,
        };
        let is_new = match &item.name {
            Some(n) => !contains_name(existing, n),
            None => false,
        };
        if not_folder && is_new {
            r.push(item);
        }
    }
    assert(spec_download_selection(rest@, existing@) =~= Seq::<RemoteItem>::empty());
    assert(r@ =~= r@ + Seq::<RemoteItem>::empty());
    r
}

/// The folder marker as an owned string.
fn folder_mime_string() -> (r: String)
    ensures
        r@ == spec_folder_mime(),
{
    "application/vnd.google-apps.folder".to_owned()
}

/// No task the upload filter keeps bears a name that was already
/// present in the remote snapshot taken before the scan.
pub proof fn lemma_upload_dedup(cands: Seq<LocalCandidate>, existing: Seq<String>)
    ensures
        forall|i: int|
            0 <= i < spec_upload_selection(cands, existing).len()
                ==> !spec_in_names(existing, #[trigger] spec_upload_selection(cands, existing)[i].name@),
    decreases cands.len(),
{
    if cands.len() > 0 {
        lemma_upload_dedup(cands.drop_first(), existing);
    }
}

/// No item the download filter keeps bears a name already present in
/// the local target directory, and none is a folder.
pub proof fn lemma_download_dedup(items: Seq<RemoteItem>, existing: Seq<String>)
    ensures
        forall|i: int|
            0 <= i < spec_download_selection(items, existing).len()
                ==> spec_download_eligible(
                #[trigger] spec_download_selection(items, existing)[i],
                existing,
            ),
    decreases items.len(),
{
    if items.len() > 0 {
        lemma_download_dedup(items.drop_first(), existing);
        let sel = spec_download_selection(items, existing);
        let tail_sel = spec_download_selection(items.drop_first(), existing);
        if spec_download_eligible(items[0], existing) {
            assert(sel[0] == items[0]);
            assert(forall|i: int| 0 <= i < tail_sel.len() ==> #[trigger] tail_sel[i] == sel[i + 1]);
        } else {
            assert(forall|i: int| 0 <= i < tail_sel.len() ==> #[trigger] tail_sel[i] == sel[i]);
        }
    }
}

/// Idempotence of the upload run: if the remote folder afterwards holds
/// every name it held before together with every name the first run
/// selected, then a second scan over the same candidates selects
/// nothing.
pub proof fn lemma_upload_idempotent(
    cands: Seq<LocalCandidate>,
    existing: Seq<String>,
    existing_after: Seq<String>,
)
    requires
        forall|n: Seq<char>| spec_in_names(existing, n) ==> spec_in_names(existing_after, n),
        forall|i: int|
            0 <= i < spec_upload_selection(cands, existing).len()
                ==> spec_in_names(
                existing_after,
                #[trigger] spec_upload_selection(cands, existing)[i].name@,
            ),
    ensures
        spec_upload_selection(cands, existing_after) =~= Seq::<LocalCandidate>::empty(),
    decreases cands.len(),
{
    if cands.len() > 0 {
        let sel = spec_upload_selection(cands, existing);
        let tail_sel = spec_upload_selection(cands.drop_first(), existing);
        if spec_upload_eligible(cands[0], existing) {
            assert(sel[0] == cands[0]);
            assert(forall|i: int|
                0 <= i < tail_sel.len() ==> #[trigger] tail_sel[i] == sel[i + 1]);
            lemma_upload_idempotent(cands.drop_first(), existing, existing_after);
            assert(spec_in_names(existing_after, cands[0].name@));
        } else {
            assert(forall|i: int| 0 <= i < tail_sel.len() ==> #[trigger] tail_sel[i] == sel[i]);
            lemma_upload_idempotent(cands.drop_first(), existing, existing_after);
            match cands[0].extension {
                Some(e) => {
                    if spec_supported_extension(e@) {
                        assert(spec_in_names(existing, cands[0].name@));
                        assert(spec_in_names(existing_after, cands[0].name@));
                    }
                },
                None => {},
            }
        }
    }
}

} // verus!
