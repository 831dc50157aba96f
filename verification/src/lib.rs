//! Recovery of stored Wi-Fi credentials from the wireless service's profile store.
//!
//! The crate holds the decisions of the recovery: how a reply of the wireless
//! service becomes a result or a failure, how a profile name is read out of a
//! fixed-capacity wide-character buffer, how a field is found in a parsed profile
//! document, and how the document's security block becomes an
//! [`wlan::Authentication`]. Talking to the service and parsing the markup are
//! left to the caller, who hands the replies in as plain values.

use vstd::prelude::*;

pub mod error;
pub mod safe_windows;
pub mod wlan;
pub mod xml;

pub use crate::error::{AnyResult, WlanError};

verus! {

/// Index of the first zero unit of `units`, if there is one.
pub open spec fn terminator_index(units: Seq<u16>) -> Option<int>
    decreases units.len(),
{
    if units.len() == 0 {
        None
    } else if units[0] == 0 {
        Some(0)
    } else {
        match terminator_index(units.drop_first()) {
            Some(i) => Some(i + 1),
            None => None,
        }
    }
}

/// The text that a wide-character buffer holds: the units in front of its
/// first terminator. A buffer without a terminator holds no text.
pub open spec fn terminated_text(units: Seq<u16>) -> Option<Seq<u16>> {
    match terminator_index(units) {
        Some(i) => Some(units.take(i)),
        None => None,
    }
}

/// View of an optional wide string.
pub open spec fn wide_view(text: Option<Vec<u16>>) -> Option<Seq<u16>> {
    match text {
        Some(units) => Some(units@),
        None => None,
    }
}

/// `terminator_index` finds the first zero and nothing else: it answers `Some(i)`
/// exactly when `units[i]` is zero and no earlier unit is, and `None` exactly when
/// no unit is zero.
pub proof fn lemma_terminator_index(units: Seq<u16>)
    ensures
        match terminator_index(units) {
            Some(i) => {
                &&& 0 <= i < units.len()
                &&& units[i] == 0
                &&& forall|j: int| 0 <= j < i ==> units[j] != 0
            },
            None => forall|j: int| 0 <= j < units.len() ==> units[j] != 0,
        },
    decreases units.len(),
{
    if units.len() != 0 && units[0] != 0 {
        let rest = units.drop_first();
        lemma_terminator_index(rest);
        match terminator_index(rest) {
            Some(i) => {
                assert forall|j: int| 0 <= j < i + 1 implies units[j] != 0 by {
                    if j > 0 {
                        assert(units[j] == rest[j - 1]);
                    }
                }
                assert(units[i + 1] == rest[i]);
            },
            None => {
                assert forall|j: int| 0 <= j < units.len() implies units[j] != 0 by {
                    if j > 0 {
                        assert(units[j] == rest[j - 1]);
                    }
                }
            },
        }
    }
}

/// The text of a buffer is the part of the buffer in front of a zero, and holds
/// no zero itself.
pub proof fn lemma_terminated_text(units: Seq<u16>)
    ensures
        terminated_text(units) matches Some(text) ==> {
            &&& text.len() < units.len()
            &&& text == units.take(text.len() as int)
            &&& units[text.len() as int] == 0
            &&& forall|j: int| 0 <= j < text.len() ==> text[j] != 0
        },
        terminated_text(units) is None <==> forall|j: int| 0 <= j < units.len() ==> units[j] != 0,
{
    lemma_terminator_index(units);
}

/// A zero at `i` with none in front of it is the terminator.
pub proof fn lemma_terminator_at(units: Seq<u16>, i: int)
    requires
        0 <= i < units.len(),
        units[i] == 0,
        forall|j: int| 0 <= j < i ==> units[j] != 0,
    ensures
        terminator_index(units) == Some(i),
{
    lemma_terminator_index(units);
}

/// A buffer without any zero has no terminator.
pub proof fn lemma_no_terminator(units: Seq<u16>)
    requires
        forall|j: int| 0 <= j < units.len() ==> units[j] != 0,
    ensures
        terminator_index(units) is None,
{
    lemma_terminator_index(units);
}

/// Reads the text out of a wide-character buffer: the units in front of the
/// first terminator, copied. Answers `None` when the buffer holds no terminator.
pub fn os_string_from_utf16_slice(slice: &[u16]) -> (text: Option<Vec<u16>>)
    ensures
        wide_view(text) == terminated_text(slice@),
{
    let mut end: usize = 0;
    while end < slice.len() && slice[end] != 0
        invariant
            end <= slice@.len(),
            forall|j: int| 0 <= j < end ==> slice@[j] != 0,
        decreases slice@.len() - end,
    {
        end = end + 1;
    }
    if end == slice.len() {
        proof {
            lemma_no_terminator(slice@);
        }
        return None;
    }
    proof {
        lemma_terminator_at(slice@, end as int);
    }
    let mut units: Vec<u16> = Vec::new();
    let mut i: usize = 0;
    while i < end
        invariant
            i <= end < slice@.len(),
            units@ == slice@.take(i as int),
        decreases end - i,
    {
        units.push(slice[i]);
        i = i + 1;
        assert(units@ =~= slice@.take(i as int));
    }
    Some(units)
}

} // verus!
