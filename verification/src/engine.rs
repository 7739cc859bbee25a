//! Run planning: the compute spine of one upload or download run.
//!
//! A plan takes the scanned candidates (or the enumerated remote
//! items) together with the destination's name snapshot, applies the
//! dedup filter, sizes the concurrency from the selected set, and
//! builds the transfer tasks the scheduler will fan out.

use vstd::prelude::*;
use crate::data::{Direction, LocalCandidate, RemoteItem, TransferTask, opt_str_view};
use crate::dedup::{
    filter_download_items, filter_upload_candidates, spec_download_eligible,
    spec_download_selection, spec_upload_eligible, spec_upload_selection,
};
use crate::tuner::{
    calculate_download_concurrency, calculate_optimal_concurrency, lemma_sum_nonneg,
    lemma_sum_unfold_front, spec_average, spec_clamp, spec_download_tier, spec_sum,
    spec_upload_tier, sum_sizes,
};

verus! {

/// The sizes of local candidates, in order.
pub open spec fn spec_candidate_sizes(cands: Seq<LocalCandidate>) -> Seq<u64> {
    cands.map_values(|c: LocalCandidate| c.size)
}

/// A remote item's size as the tuner sees it: an absent or negative
/// size counts as zero.
pub open spec fn spec_item_size(item: RemoteItem) -> u64 {
    match item.size {
        Some(s) => if s < 0 {
            0u64
        } else {
            s as u64
        },
        None => 0u64,
    }
}

/// The sizes of remote items, in order.
pub open spec fn spec_item_sizes(items: Seq<RemoteItem>) -> Seq<u64> {
    items.map_values(|it: RemoteItem| spec_item_size(it))
}

/// Filtering the candidate set never raises its total size.
pub proof fn lemma_upload_selection_sum_le(cands: Seq<LocalCandidate>, existing: Seq<String>)
    ensures
        spec_sum(spec_candidate_sizes(spec_upload_selection(cands, existing))) <= spec_sum(
            spec_candidate_sizes(cands),
        ),
    decreases cands.len(),
{
    if cands.len() == 0 {
        assert(spec_upload_selection(cands, existing) =~= cands);
    } else {
        lemma_upload_selection_sum_le(cands.drop_first(), existing);
        let sel = spec_upload_selection(cands, existing);
        let tail_sel = spec_upload_selection(cands.drop_first(), existing);
        assert(spec_candidate_sizes(cands).drop_first() =~= spec_candidate_sizes(
            cands.drop_first(),
        ));
        lemma_sum_unfold_front(spec_candidate_sizes(cands));
        if spec_upload_eligible(cands[0], existing) {
            assert(sel == seq![cands[0]] + tail_sel);
            assert(spec_candidate_sizes(sel).drop_first() =~= spec_candidate_sizes(tail_sel));
            assert(spec_candidate_sizes(sel)[0] == cands[0].size);
            lemma_sum_unfold_front(spec_candidate_sizes(sel));
        } else {
            assert(sel == tail_sel);
            lemma_sum_nonneg(spec_candidate_sizes(tail_sel));
        }
    }
}

/// Filtering the remote item set never raises its total size.
pub proof fn lemma_download_selection_sum_le(items: Seq<RemoteItem>, existing: Seq<String>)
    ensures
        spec_sum(spec_item_sizes(spec_download_selection(items, existing))) <= spec_sum(
            spec_item_sizes(items),
        ),
    decreases items.len(),
{
    if items.len() == 0 {
        assert(spec_download_selection(items, existing) =~= items);
    } else {
        lemma_download_selection_sum_le(items.drop_first(), existing);
        let sel = spec_download_selection(items, existing);
        let tail_sel = spec_download_selection(items.drop_first(), existing);
        assert(spec_item_sizes(items).drop_first() =~= spec_item_sizes(items.drop_first()));
        lemma_sum_unfold_front(spec_item_sizes(items));
        if spec_download_eligible(items[0], existing) {
            assert(sel == seq![items[0]] + tail_sel);
            assert(spec_item_sizes(sel).drop_first() =~= spec_item_sizes(tail_sel));
            assert(spec_item_sizes(sel)[0] == spec_item_size(items[0]));
            lemma_sum_unfold_front(spec_item_sizes(sel));
        } else {
            assert(sel == tail_sel);
            lemma_sum_nonneg(spec_item_sizes(tail_sel));
        }
    }
}

/// An upload task built from this candidate: same name, sourced at the
/// candidate's path, destined for the given remote folder.
pub open spec fn spec_upload_task_for(t: TransferTask, c: LocalCandidate, folder: Seq<char>) -> bool {
    &&& t.identifier is None
    &&& t.name@ == c.name@
    &&& t.direction is Upload
    &&& t.source@ == c.path@
    &&& t.destination@ == folder
}

/// Builds one upload task per selected candidate, in order.
pub fn make_upload_tasks(selected: Vec<LocalCandidate>, folder_id: &String) -> (tasks: Vec<
    TransferTask,
>)
    ensures
        tasks@.len() == selected@.len(),
        forall|i: int|
            0 <= i < selected@.len() ==> spec_upload_task_for(
                #[trigger] tasks@[i],
                selected@[i],
                folder_id@,
            ),
{
    let ghost orig = selected@;
    let mut rest = selected;
    let mut tasks: Vec<TransferTask> = Vec::new();
    while rest.len() > 0
        invariant
            tasks@.len() + rest@.len() == orig.len(),
            rest@ =~= orig.skip(tasks@.len() as int),
            forall|i: int|
                0 <= i < tasks@.len() ==> spec_upload_task_for(
                    #[trigger] tasks@[i],
                    orig[i],
                    folder_id@,
                ),
        decreases rest@.len(),
    {
        let ghost k = tasks@.len() as int;
        let c = rest.remove(0);
        assert(c == orig[k]);
        tasks.push(
            TransferTask {
                identifier: None,
                name: c.name,
                direction: Direction::Upload,
                source: c.path,
                destination: folder_id.clone(),
            },
        );
        assert(rest@ =~= orig.skip(k + 1));
    }
    tasks
}

/// A download task built from this remote item: the item's id and
/// name (a missing name shown as `unknown`), sourced in the given
/// remote folder, destined for the local target directory.
pub open spec fn spec_download_task_for(
    t: TransferTask,
    item: RemoteItem,
    folder: Seq<char>,
    target: Seq<char>,
) -> bool {
    &&& opt_str_view(t.identifier) == opt_str_view(item.id)
    &&& t.name@ == match item.name {
        Some(n) => n@,
        None => "unknown"@,
    }
    &&& t.direction is Download
    &&& t.source@ == folder
    &&& t.destination@ == target
}

/// Builds one download task per selected remote item, in order.
pub fn make_download_tasks(
    selected: Vec<RemoteItem>,
    folder_id: &String,
    target_dir: &String,
) -> (tasks: Vec<TransferTask>)
    ensures
        tasks@.len() == selected@.len(),
        forall|i: int|
            0 <= i < selected@.len() ==> spec_download_task_for(
                #[trigger] tasks@[i],
                selected@[i],
                folder_id@,
                target_dir@,
            ),
{
    let ghost orig = selected@;
    let mut rest = selected;
    let mut tasks: Vec<TransferTask> = Vec::new();
    while rest.len() > 0
        invariant
            tasks@.len() + rest@.len() == orig.len(),
            rest@ =~= orig.skip(tasks@.len() as int),
            forall|i: int|
                0 <= i < tasks@.len() ==> spec_download_task_for(
                    #[trigger] tasks@[i],
                    orig[i],
                    folder_id@,
                    target_dir@,
                ),
        decreases rest@.len(),
    {
        let ghost k = tasks@.len() as int;
        let item = rest.remove(0);
        assert(item == orig[k]);
        let name = match item.name {
            Some(n) => n,
            None => "unknown".to_owned(),
        };
        tasks.push(
            TransferTask {
                identifier: item.id,
                name,
                direction: Direction::Download,
                source: folder_id.clone(),
                destination: target_dir.clone(),
            },
        );
        assert(rest@ =~= orig.skip(k + 1));
    }
    tasks
}

/// Everything one upload run needs before dispatch: its tasks, the
/// tuned concurrency, and the total bytes it will move.
pub struct UploadPlan {
    pub tasks: Vec<TransferTask>,
    pub concurrency: usize,
    pub total_bytes: u64,
}

/// Plans one upload run: filters the candidates against the remote
/// name snapshot, sizes the concurrency from the selected set, and
/// builds the tasks.
pub fn plan_upload(
    candidates: Vec<LocalCandidate>,
    existing: &Vec<String>,
    folder_id: &String,
    ceiling: usize,
) -> (p: UploadPlan)
    requires
        spec_sum(spec_candidate_sizes(candidates@)) <= u64::MAX,
    ensures
        ({
            let sel = spec_upload_selection(candidates@, existing@);
            &&& p.tasks@.len() == sel.len()
            &&& forall|i: int|
                0 <= i < sel.len() ==> spec_upload_task_for(
                    #[trigger] p.tasks@[i],
                    sel[i],
                    folder_id@,
                )
            &&& p.total_bytes == spec_sum(spec_candidate_sizes(sel))
            &&& p.concurrency == spec_clamp(
                ceiling as int,
                spec_upload_tier(spec_average(spec_candidate_sizes(sel))),
            )
        }),
{
    proof {
        lemma_upload_selection_sum_le(candidates@, existing@);
    }
    let selected = filter_upload_candidates(candidates, existing);
    let mut sizes: Vec<u64> = Vec::new();
    let mut i: usize = 0;
    while i < selected.len()
        invariant
            0 <= i <= selected@.len(),
            sizes@ =~= spec_candidate_sizes(selected@.take(i as int)),
        decreases selected@.len() - i,
    {
        sizes.push(selected[i].size);
        proof {
            assert(spec_candidate_sizes(selected@.take(i + 1)) =~= spec_candidate_sizes(
                selected@.take(i as int),
            ).push(selected@[i as int].size));
        }
        i = i + 1;
    }
    proof {
        assert(selected@.take(selected@.len() as int) =~= selected@);
    }
    let concurrency = calculate_optimal_concurrency(&sizes, ceiling);
    let total_bytes = sum_sizes(&sizes);
    let tasks = make_upload_tasks(selected, folder_id);
    UploadPlan { tasks, concurrency, total_bytes }
}

/// Everything one download run needs before dispatch.
pub struct DownloadPlan {
    pub tasks: Vec<TransferTask>,
    pub concurrency: usize,
    pub total_bytes: u64,
}

/// Plans one download run: drops folders and items already present
/// locally, sizes the concurrency from the selected set, and builds
/// the tasks.
pub fn plan_download(
    items: Vec<RemoteItem>,
    existing_local: &Vec<String>,
    folder_id: &String,
    target_dir: &String,
    ceiling: usize,
) -> (p: DownloadPlan)
    requires
        spec_sum(spec_item_sizes(items@)) <= u64::MAX,
    ensures
        ({
            let sel = spec_download_selection(items@, existing_local@);
            &&& p.tasks@.len() == sel.len()
            &&& forall|i: int|
                0 <= i < sel.len() ==> spec_download_task_for(
                    #[trigger] p.tasks@[i],
                    sel[i],
                    folder_id@,
                    target_dir@,
                )
            &&& p.total_bytes == spec_sum(spec_item_sizes(sel))
            &&& p.concurrency == spec_clamp(
                ceiling as int,
                spec_download_tier(spec_average(spec_item_sizes(sel))),
            )
        }),
{
    proof {
        lemma_download_selection_sum_le(items@, existing_local@);
    }
    let selected = filter_download_items(items, existing_local);
    let mut sizes: Vec<u64> = Vec::new();
    let mut i: usize = 0;
    while i < selected.len()
        invariant
            0 <= i <= selected@.len(),
            sizes@ =~= spec_item_sizes(selected@.take(i as int)),
        decreases selected@.len() - i,
    {
        let sz: u64 = match &selected[i].size {
            Some(s) => if *s < 0 {
                0
            } else {
                *s as u64
            },
            None => 0,
        };
        sizes.push(sz);
        proof {
            assert(spec_item_sizes(selected@.take(i + 1)) =~= spec_item_sizes(
                selected@.take(i as int),
            ).push(spec_item_size(selected@[i as int])));
        }
        i = i + 1;
    }
    proof {
        assert(selected@.take(selected@.len() as int) =~= selected@);
    }
    let concurrency = calculate_download_concurrency(&sizes, ceiling);
    let total_bytes = sum_sizes(&sizes);
    let tasks = make_download_tasks(selected, folder_id, target_dir);
    DownloadPlan { tasks, concurrency, total_bytes }
}

} // verus!
