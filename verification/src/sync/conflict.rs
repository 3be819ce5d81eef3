//! What is known when a request for exclusive access meets a cell whose value
//! is lent already, and the words in which the kernel reports it.

use vstd::prelude::*;
use crate::fatal::{panic_line, panic_text};
use crate::location::{optional_view, Location, LocationView};
use crate::text::occurs_at;

verus! {

/// A conflict as contracts speak of it.
pub struct ConflictView {
    /// Where the live handle was acquired, if the cell recorded it.
    pub owner: Option<LocationView>,
    /// Where the request that failed was made.
    pub requester: LocationView,
}

impl ConflictView {
    /// The diagnostic: the owner's location, then the requester's. Where the
    /// owner is unknown the message says so and names no location at all.
    pub open spec fn message(self) -> Seq<char> {
        match self.owner {
            Some(owner) => "UPSafeCell: already borrowed! \n  -> Current Owner: "@ + owner.text()
                + " \n  -> New Request: "@ + self.requester.text(),
            None => "UPSafeCell: already borrowed (No trace info)!"@,
        }
    }

    /// The line with which the kernel halts: the diagnostic as the cause,
    /// detected where the failed request was made.
    pub open spec fn fatal_line(self) -> Seq<char> {
        panic_text(self.message(), Some(self.requester))
    }
}

/// A request for exclusive access that met a cell whose value was lent
/// already. It is a defect of the calling code and cannot be recovered from:
/// whoever receives one reports it and halts.
#[derive(Clone, Copy, Debug)]
pub struct BorrowConflict {
    /// Where the live handle was acquired, if the cell recorded it.
    pub owner: Option<Location<'static>>,
    /// Where the request that failed was made.
    pub requester: Location<'static>,
}

impl View for BorrowConflict {
    type V = ConflictView;

    open spec fn view(&self) -> ConflictView {
        ConflictView { owner: optional_view(self.owner), requester: self.requester@ }
    }
}

impl BorrowConflict {
    /// The diagnostic for this conflict.
    pub fn message(&self) -> (message: String)
        ensures
            message@ == self@.message(),
    {
        match self.owner {
            Some(owner) => {
                let mut message = String::from_str(
                    "UPSafeCell: already borrowed! \n  -> Current Owner: ",
                );
                owner.append_to(&mut message);
                message.append(" \n  -> New Request: ");
                self.requester.append_to(&mut message);
                message
            },
            None => String::from_str("UPSafeCell: already borrowed (No trace info)!"),
        }
    }

    /// The line with which the kernel halts on this conflict.
    pub fn fatal_line(&self) -> (line: String)
        ensures
            line@ == self@.fatal_line(),
    {
        let message = self.message();
        panic_line(message.as_str(), Some(self.requester))
    }
}

/// With the owner on record, the diagnostic holds the owner's location and the
/// requester's, each as it is printed, the owner's first; the requester's
/// location ends the message.
pub proof fn lemma_message_names_owner_then_requester(owner: LocationView, requester: LocationView)
    ensures
        ({
            let message = (ConflictView { owner: Some(owner), requester }).message();
            exists|i: int, j: int|
                {
                    &&& #[trigger] occurs_at(message, owner.text(), i)
                    &&& #[trigger] occurs_at(message, requester.text(), j)
                    &&& i + owner.text().len() <= j
                    &&& j + requester.text().len() == message.len()
                }
        }),
{
    let head = "UPSafeCell: already borrowed! \n  -> Current Owner: "@;
    let middle = " \n  -> New Request: "@;
    let message = (ConflictView { owner: Some(owner), requester }).message();
    let i: int = head.len() as int;
    let j: int = i + owner.text().len() + middle.len();
    assert(message.subrange(i, i + owner.text().len()) =~= owner.text());
    assert(message.subrange(j, j + requester.text().len()) =~= requester.text());
    assert(occurs_at(message, owner.text(), i));
    assert(occurs_at(message, requester.text(), j));
}

/// With no owner on record, the diagnostic is one fixed sentence: it depends
/// on no location, and so it can name none.
pub proof fn lemma_message_without_provenance(requester: LocationView)
    ensures
        (ConflictView { owner: None, requester }).message()
            == "UPSafeCell: already borrowed (No trace info)!"@,
{
}

} // verus!
