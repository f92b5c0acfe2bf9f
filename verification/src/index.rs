//! The index resolver: a logical index is either an absolute offset from the
//! start or an offset counted backward from one-past-the-end. `FromEnd(0)`
//! denotes one-past-the-end (an exclusive upper bound); `FromEnd(1)` denotes
//! the last element. The same resolver serves the entry log, the owner
//! history and the permission history.

use vstd::prelude::*;

verus! {

/// A relative-or-absolute logical index into a sequence of a given length.
#[derive(Copy, Clone, PartialEq, Eq, Structural, PartialOrd, Ord, Hash, Debug)]
pub enum Index {
    /// An absolute offset from the start.
    FromStart(u64),
    /// An offset counted backward from one-past-the-end.
    FromEnd(u64),
}

/// The concrete offset an index denotes against a sequence of `count`
/// elements: `FromStart(i)` is valid iff `i <= count` and denotes `i`;
/// `FromEnd(i)` is valid iff `i <= count` and denotes `count - i`.
pub open spec fn spec_resolve_index(index: Index, count: int) -> Option<int> {
    match index {
        Index::FromStart(i) => if i <= count {
            Some(i as int)
        } else {
            None
        },
        Index::FromEnd(i) => if i <= count {
            Some(count - i)
        } else {
            None
        },
    }
}

/// The half-open range `[start, end)` a pair of indices denotes: both ends
/// must resolve and the resolved start may not exceed the resolved end.
pub open spec fn spec_resolve_range(start: Index, end: Index, count: int) -> Option<(int, int)> {
    match (spec_resolve_index(start, count), spec_resolve_index(end, count)) {
        (Some(s), Some(e)) => if s <= e {
            Some((s, e))
        } else {
            None
        },
        _ => None,
    }
}

/// Resolves an index against a sequence of `count` elements.
pub fn to_absolute_index(index: Index, count: usize) -> (r: Option<usize>)
    ensures
        r is Some <==> spec_resolve_index(index, count as int) is Some,
        r is Some ==> r->0 as int == spec_resolve_index(index, count as int)->0,
{
    match index {
        Index::FromStart(i) => if i <= count as u64 {
            Some(i as usize)
        } else {
            None
        },
        Index::FromEnd(i) => if i <= count as u64 {
            Some(count - i as usize)
        } else {
            None
        },
    }
}

/// Resolves a half-open range against a sequence of `count` elements.
pub fn to_absolute_range(start: Index, end: Index, count: usize) -> (r: Option<(usize, usize)>)
    ensures
        r is Some <==> spec_resolve_range(start, end, count as int) is Some,
        r matches Some(p) ==> (p.0 as int, p.1 as int)
            == spec_resolve_range(start, end, count as int)->0,
        r matches Some(p) ==> p.0 <= p.1 <= count,
{
    let s = match to_absolute_index(start, count) {
        Some(s) => s,
        None => return None,
    };
    let e = match to_absolute_index(end, count) {
        Some(e) => e,
        None => return None,
    };
    if s <= e {
        Some((s, e))
    } else {
        None
    }
}

/// Law: for any `count`, an in-bounds `FromStart(i)` resolves to `i` and an
/// in-bounds `FromEnd(i)` resolves to `count - i`; every out-of-bounds value
/// fails to resolve.
pub proof fn lemma_index_resolution(i: u64, count: u64)
    ensures
        i <= count ==> spec_resolve_index(Index::FromStart(i), count as int) == Some(i as int),
        i <= count ==> spec_resolve_index(Index::FromEnd(i), count as int)
            == Some(count - i),
        i > count ==> spec_resolve_index(Index::FromStart(i), count as int) is None,
        i > count ==> spec_resolve_index(Index::FromEnd(i), count as int) is None,
{
}

/// The triple of current counts: entries, owner records, permission
/// snapshots. A cheap derived snapshot, never stored independently of the
/// histories themselves.
#[derive(Copy, Clone, PartialEq, Eq, Structural, PartialOrd, Ord, Hash, Debug)]
pub struct Indices {
    pub entries_index: u64,
    pub owners_index: u64,
    pub permissions_index: u64,
}

impl Indices {
    /// Builds the triple from its three counts.
    pub fn new(entries_index: u64, owners_index: u64, permissions_index: u64) -> (r: Self)
        ensures
            r == (Indices { entries_index, owners_index, permissions_index }),
    {
        Indices { entries_index, owners_index, permissions_index }
    }

    /// The current entry count.
    pub fn entries_index(&self) -> (r: u64)
        ensures
            r == self.entries_index,
    {
        self.entries_index
    }

    /// The current owner-history length.
    pub fn owners_index(&self) -> (r: u64)
        ensures
            r == self.owners_index,
    {
        self.owners_index
    }

    /// The current permission-history length.
    pub fn permissions_index(&self) -> (r: u64)
        ensures
            r == self.permissions_index,
    {
        self.permissions_index
    }
}

/// An absolute offset converts to an index counted from the start.
impl From<u64> for Index {
    fn from(index: u64) -> (r: Self) {
        Index::FromStart(index)
    }
}

impl vstd::std_specs::convert::FromSpecImpl<u64> for Index {
    open spec fn obeys_from_spec() -> bool {
        true
    }

    open spec fn from_spec(index: u64) -> Self {
        Index::FromStart(index)
    }
}

} // verus!
