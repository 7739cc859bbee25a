//! Remote lister support: accumulates the pages of a paginated folder
//! enumeration, and extracts the name snapshot that the dedup filter
//! works against.
//!
//! Enumeration is strictly sequential — a page is absorbed, and only
//! the presence of a continuation token asks for the next one. A
//! failed page aborts the whole enumeration; no partial result is
//! kept by the caller.

use vstd::prelude::*;
use crate::data::RemoteItem;

verus! {

/// Accumulator for one folder enumeration: the items of the pages seen
/// so far, and whether the service has reported the end.
pub struct ListAccumulator {
    items: Vec<RemoteItem>,
    finished: bool,
}

impl ListAccumulator {
    /// The items of all absorbed pages, in arrival order.
    pub closed spec fn items_seq(self) -> Seq<RemoteItem> {
        self.items@
    }

    /// Whether the service reported no continuation token.
    pub closed spec fn is_finished(self) -> bool {
        self.finished
    }

    /// An empty enumeration, expecting its first page.
    pub fn new() -> (a: ListAccumulator)
        ensures
            a.items_seq() == Seq::<RemoteItem>::empty(),
            !a.is_finished(),
    {
        ListAccumulator { items: Vec::new(), finished: false }
    }

    /// Absorbs one page: its items are appended to the accumulator,
    /// and the enumeration ends exactly when the page carried no
    /// continuation token.
    pub fn absorb_page(&mut self, page: Vec<RemoteItem>, next_token: &Option<String>)
        requires
            !old(self).is_finished(),
        ensures
            final(self).items_seq() == old(self).items_seq() + page@,
            final(self).is_finished() == (next_token is None),
    {
        let mut page = page;
        self.items.append(&mut page);
        self.finished = match next_token {
            Some(_) => false,
            None => true,
        };
    }

    /// Whether another page must be requested.
    pub fn has_more(&self) -> (r: bool)
        ensures
            r == !self.is_finished(),
    {
        !self.finished
    }

    /// How many items have arrived so far.
    pub fn len(&self) -> (n: usize)
        ensures
            n == self.items_seq().len(),
    {
        self.items.len()
    }

    /// The complete enumeration, once the last page is absorbed.
    pub fn into_items(self) -> (r: Vec<RemoteItem>)
        requires
            self.is_finished(),
        ensures
            r@ == self.items_seq(),
    {
        self.items
    }
}

/// The names carried by the items, in order, skipping items without
/// one. This is the destination snapshot the dedup filter excludes
/// against.
pub open spec fn spec_present_names(items: Seq<RemoteItem>) -> Seq<Seq<char>>
    decreases items.len(),
{
    if items.len() == 0 {
        Seq::empty()
    } else {
        match items.last().name {
            Some(n) => spec_present_names(items.drop_last()).push(n@),
            None => spec_present_names(items.drop_last()),
        }
    }
}

/// Extracts the names of the items that carry one, in order.
pub fn names_of_items(items: &Vec<RemoteItem>) -> (r: Vec<String>)
    ensures
        r@.map_values(|s: String| s@) == spec_present_names(items@),
{
    let mut r: Vec<String> = Vec::new();
    let mut i: usize = 0;
    while i < items.len()
        invariant
            0 <= i <= items@.len(),
            r@.map_values(|s: String| s@) == spec_present_names(items@.take(i as int)),
        decreases items@.len() - i,
    {
        proof {
            assert(items@.take(i + 1).drop_last() =~= items@.take(i as int));
            assert(items@.take(i + 1).last() == items@[i as int]);
        }
        match &items[i].name {
            Some(n) => {
                let ghost prev = r@;
                r.push(n.clone());
                proof {
                    assert(r@.map_values(|s: String| s@) =~= prev.map_values(
                        |s: String| s@,
                    ).push(r@.last()@));
                }
            },
            None => {},
        }
        i = i + 1;
    }
    proof {
        assert(items@.take(items@.len() as int) =~= items@);
    }
    r
}

/// The listing as the operator sees it: each item's name and MIME
/// type, an absent field shown as the empty string.
pub open spec fn spec_listing(items: Seq<RemoteItem>) -> Seq<(Seq<char>, Seq<char>)>
    decreases items.len(),
{
    if items.len() == 0 {
        Seq::empty()
    } else {
        let name = match items.last().name {
            Some(n) => n@,
            None => Seq::empty(),
        };
        let mime = match items.last().mime_type {
            Some(m) => m@,
            None => Seq::empty(),
        };
        spec_listing(items.drop_last()).push((name, mime))
    }
}

/// Renders every item as a name/MIME pair for display, an absent
/// field as the empty string.
pub fn listing_entries(items: &Vec<RemoteItem>) -> (r: Vec<(String, String)>)
    ensures
        r@.map_values(|p: (String, String)| (p.0@, p.1@)) == spec_listing(items@),
{
    let mut r: Vec<(String, String)> = Vec::new();
    let mut i: usize = 0;
    while i < items.len()
        invariant
            0 <= i <= items@.len(),
            r@.map_values(|p: (String, String)| (p.0@, p.1@)) == spec_listing(
                items@.take(i as int),
            ),
        decreases items@.len() - i,
    {
        proof {
            assert(items@.take(i + 1).drop_last() =~= items@.take(i as int));
            assert(items@.take(i + 1).last() == items@[i as int]);
        }
        let name = match &items[i].name {
            Some(n) => n.clone(),
            None => String::new(),
        };
        let mime = match &items[i].mime_type {
            Some(m) => m.clone(),
            None => String::new(),
        };
        let ghost prev = r@;
        r.push((name, mime));
        proof {
            assert(r@.map_values(|p: (String, String)| (p.0@, p.1@)) =~= prev.map_values(
                |p: (String, String)| (p.0@, p.1@),
            ).push((r@.last().0@, r@.last().1@)));
        }
        i = i + 1;
    }
    proof {
        assert(items@.take(items@.len() as int) =~= items@);
    }
    r
}

} // verus!
