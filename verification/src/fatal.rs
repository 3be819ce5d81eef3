//! The kernel's last words.
//!
//! When the kernel meets a condition it cannot recover from, it prints one
//! line that says where and why, and halts the machine. This module composes
//! that line; printing it and halting are the caller's part.

use vstd::prelude::*;
use crate::location::{optional_view, Location, LocationView};
use crate::text::occurs_at;

verus! {

/// The line printed for an unrecoverable condition: the kernel's tag, the
/// place where the condition was detected if it is known, and the cause.
pub open spec fn panic_text(cause: Seq<char>, location: Option<LocationView>) -> Seq<char> {
    match location {
        Some(place) => "[kernel] Panicked at "@ + place.text() + " "@ + cause,
        None => "[kernel] Panicked: "@ + cause,
    }
}

/// Composes the line that reports `cause`, detected at `location`.
pub fn panic_line(cause: &str, location: Option<Location<'_>>) -> (line: String)
    ensures
        line@ == panic_text(cause@, optional_view(location)),
{
    match location {
        Some(place) => {
            let mut line = String::from_str("[kernel] Panicked at ");
            place.append_to(&mut line);
            line.append(" ");
            line.append(cause);
            line
        },
        None => {
            let mut line = String::from_str("[kernel] Panicked: ");
            line.append(cause);
            line
        },
    }
}

/// Every line opens with the kernel's tag and closes with the cause, whole.
/// Where the place is known, the line holds it, as it is printed, between the
/// two.
pub proof fn lemma_panic_text_shape(cause: Seq<char>, location: Option<LocationView>)
    ensures
        ({
            let line = panic_text(cause, location);
            &&& occurs_at(line, "[kernel] Panicked"@, 0)
            &&& occurs_at(line, cause, line.len() - cause.len())
            &&& location matches Some(place) ==> exists|at: int|
                {
                    &&& #[trigger] occurs_at(line, place.text(), at)
                    &&& "[kernel] Panicked"@.len() <= at
                    &&& at + place.text().len() < line.len() - cause.len()
                }
        }),
{
    reveal_strlit("[kernel] Panicked");
    reveal_strlit("[kernel] Panicked at ");
    reveal_strlit("[kernel] Panicked: ");
    reveal_strlit(" ");
    let line = panic_text(cause, location);
    let tag = "[kernel] Panicked"@;
    assert(line.subrange(0, tag.len() as int) =~= tag);
    assert(line.subrange(line.len() - cause.len(), line.len() as int) =~= cause);
    match location {
        Some(place) => {
            let at: int = "[kernel] Panicked at "@.len() as int;
            assert(line.subrange(at, at + place.text().len()) =~= place.text());
            assert(occurs_at(line, place.text(), at));
        },
        None => {},
    }
}

} // verus!
