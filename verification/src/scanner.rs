//! Local directory scanner support: the per-extension tally shown to
//! the operator. The tally is informational only — it never steers
//! control flow.

use vstd::prelude::*;
use crate::data::LocalCandidate;
use crate::text::string_eq;

verus! {

/// How many of the candidates carry exactly this extension.
pub open spec fn spec_ext_count(cands: Seq<LocalCandidate>, e: Seq<char>) -> int
    decreases cands.len(),
{
    if cands.len() == 0 {
        0
    } else {
        spec_ext_count(cands.drop_last(), e) + match cands.last().extension {
            Some(x) => if x@ == e {
                1int
            } else {
                0int
            },
            None => 0int,
        }
    }
}

proof fn lemma_ext_count_take_step(cands: Seq<LocalCandidate>, e: Seq<char>, i: int)
    requires
        0 <= i < cands.len(),
    ensures
        spec_ext_count(cands.take(i + 1), e) == spec_ext_count(cands.take(i), e) + match cands[i].extension {
            Some(x) => if x@ == e {
                1int
            } else {
                0int
            },
            None => 0int,
        },
{
    assert(cands.take(i + 1).drop_last() =~= cands.take(i));
    assert(cands.take(i + 1).last() == cands[i]);
}

proof fn lemma_ext_count_bound(cands: Seq<LocalCandidate>, e: Seq<char>)
    ensures
        0 <= spec_ext_count(cands, e) <= cands.len(),
    decreases cands.len(),
{
    if cands.len() > 0 {
        lemma_ext_count_bound(cands.drop_last(), e);
    }
}

/// Counts the candidates that carry exactly the given extension.
pub fn count_with_extension(cands: &Vec<LocalCandidate>, e: &String) -> (count: usize)
    ensures
        count == spec_ext_count(cands@, e@),
{
    let mut count: usize = 0;
    let mut i: usize = 0;
    while i < cands.len()
        invariant
            0 <= i <= cands@.len(),
            count == spec_ext_count(cands@.take(i as int), e@),
            count <= i,
        decreases cands@.len() - i,
    {
        proof {
            lemma_ext_count_take_step(cands@, e@, i as int);
            lemma_ext_count_bound(cands@.take(i as int), e@);
        }
        let matches = match &cands[i].extension {
            Some(x) => string_eq(x, e),
            None => false,
        };
        if matches {
            count = count + 1;
        }
        i = i + 1;
    }
    proof {
        assert(cands@.take(cands@.len() as int) =~= cands@);
    }
    count
}

fn key_present(tally: &Vec<(String, usize)>, e: &String) -> (r: bool)
    ensures
        r == exists|j: int| 0 <= j < tally@.len() && #[trigger] tally@[j].0@ == e@,
{
    let mut i: usize = 0;
    while i < tally.len()
        invariant
            0 <= i <= tally@.len(),
            forall|j: int| 0 <= j < i ==> #[trigger] tally@[j].0@ != e@,
        decreases tally@.len() - i,
    {
        if string_eq(&tally[i].0, e) {
            return true;
        }
        i = i + 1;
    }
    false
}

/// The per-extension tally of the candidate set: one entry per
/// distinct extension that occurs, with its exact count.
pub fn count_by_extension(cands: &Vec<LocalCandidate>) -> (tally: Vec<(String, usize)>)
    ensures
        forall|j: int|
            0 <= j < tally@.len() ==> #[trigger] tally@[j].1 == spec_ext_count(
                cands@,
                tally@[j].0@,
            ),
        forall|j: int, k: int|
            0 <= j < k < tally@.len() ==> tally@[j].0@ != tally@[k].0@,
        forall|i: int|
            0 <= i < cands@.len() ==> match (#[trigger] cands@[i]).extension {
                Some(x) => exists|j: int| 0 <= j < tally@.len() && #[trigger] tally@[j].0@ == x@,
                None => true,
            },
{
    let mut tally: Vec<(String, usize)> = Vec::new();
    let mut i: usize = 0;
    while i < cands.len()
        invariant
            0 <= i <= cands@.len(),
            forall|j: int|
                0 <= j < tally@.len() ==> #[trigger] tally@[j].1 == spec_ext_count(
                    cands@,
                    tally@[j].0@,
                ),
            forall|j: int, k: int|
                0 <= j < k < tally@.len() ==> tally@[j].0@ != tally@[k].0@,
            forall|i2: int|
                0 <= i2 < i ==> match (#[trigger] cands@[i2]).extension {
                    Some(x) => exists|j: int|
                        0 <= j < tally@.len() && #[trigger] tally@[j].0@ == x@,
                    None => true,
                },
        decreases cands@.len() - i,
    {
        match &cands[i].extension {
            Some(x) => {
                if !key_present(&tally, x) {
                    let count = count_with_extension(cands, x);
                    let ghost prev = tally@;
                    tally.push((x.clone(), count));
                    assert(forall|j: int|
                        0 <= j < prev.len() ==> tally@[j] == #[trigger] prev[j]);
                    assert(tally@[prev.len() as int].0@ == x@);
                }
            },
            None => {},
        }
        i = i + 1;
    }
    tally
}

} // verus!
