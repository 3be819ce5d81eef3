//! A cell that lends its value to one holder at a time.
//!
//! The kernel keeps its shared state in such cells. Whoever needs the state
//! asks the cell for exclusive access and gets a handle that holds the value;
//! the value returns to the cell when the handle is released. A request made
//! while a handle is live is a defect of the calling code. The cell detects it
//! at run time and reports where the live handle was acquired and where the
//! second request came from.
//!
//! The cell gives no exclusion between cores: it is for a kernel in which one
//! thread of control runs at a time.

use vstd::prelude::*;
use crate::location::{optional_view, Location, LocationView};
use crate::sync::conflict::{BorrowConflict, ConflictView};

verus! {

/// The state of a cell as contracts speak of it.
pub enum CellState<T> {
    /// No handle is live; the value rests in the cell.
    NotBorrowed { value: T },
    /// A handle is live and holds the value. `owner` is the provenance record:
    /// where that handle was acquired.
    BorrowedExclusively { owner: Option<LocationView> },
}

/// What a request for exclusive access leads to.
pub enum Access<T> {
    /// The value leaves the cell, which is in state `next` from then on.
    Granted { value: T, next: CellState<T> },
    /// The value was lent already. The cell stays as it is, and the kernel
    /// halts.
    Fatal { conflict: ConflictView },
}

impl<T> CellState<T> {
    /// A handle is live.
    pub open spec fn is_borrowed(self) -> bool {
        self is BorrowedExclusively
    }

    /// Where the live handle was acquired; nothing while no handle is live.
    pub open spec fn provenance(self) -> Option<LocationView> {
        match self {
            CellState::NotBorrowed { .. } => None,
            CellState::BorrowedExclusively { owner } => owner,
        }
    }

    /// The provenance record is there exactly while a handle is live.
    pub open spec fn well_formed(self) -> bool {
        self.is_borrowed() <==> self.provenance() is Some
    }

    /// A request for exclusive access, made at `requester`.
    pub open spec fn request(self, requester: LocationView) -> Access<T> {
        match self {
            CellState::NotBorrowed { value } => Access::Granted {
                value,
                next: CellState::BorrowedExclusively { owner: Some(requester) },
            },
            CellState::BorrowedExclusively { owner } => Access::Fatal {
                conflict: ConflictView { owner, requester },
            },
        }
    }

    /// The release of a handle that holds `value`.
    pub open spec fn release(self, value: T) -> CellState<T> {
        CellState::NotBorrowed { value }
    }
}

/// The single live borrow of a cell's value. It holds the value itself, so
/// that nothing else can reach the value while the handle lives; it reads and
/// writes it by dereference. The borrow ends when the handle is given back to
/// [`UPSafeCell::release`]: a handle that is dropped instead takes the value
/// with it and leaves the cell borrowed for good.
#[derive(Debug)]
#[must_use]
pub struct AccessHandle<T> {
    value: T,
}

impl<T> View for AccessHandle<T> {
    type V = T;

    closed spec fn view(&self) -> T {
        self.value
    }
}

impl<T> core::ops::Deref for AccessHandle<T> {
    type Target = T;

    fn deref(&self) -> (value: &T)
        ensures
            *value == self@,
    {
        &self.value
    }
}

impl<T> core::ops::DerefMut for AccessHandle<T> {
    fn deref_mut(&mut self) -> (value: &mut T)
        ensures
            *value == old(self)@,
            final(self)@ == *final(value),
    {
        &mut self.value
    }
}

/// A cell that wraps one value of the kernel's state and lends it to one
/// holder at a time.
///
/// A cell is made once, when the kernel starts, and lives as long as the
/// kernel does. It must be used from one thread of control only.
#[derive(Debug)]
pub struct UPSafeCell<T> {
    /// The value, while no handle holds it.
    inner: Option<T>,
    /// Where the live handle was acquired.
    trace: Option<Location<'static>>,
}

impl<T> View for UPSafeCell<T> {
    type V = CellState<T>;

    closed spec fn view(&self) -> CellState<T> {
        match self.inner {
            Some(value) => CellState::NotBorrowed { value },
            None => CellState::BorrowedExclusively { owner: optional_view(self.trace) },
        }
    }
}

impl<T> UPSafeCell<T> {
    #[verifier::type_invariant]
    spec fn provenance_follows_borrow(self) -> bool {
        self.inner is None <==> self.trace is Some
    }

    /// A cell that holds `value`, with no handle live.
    pub fn new(value: T) -> (cell: Self)
        ensures
            cell@ == (CellState::NotBorrowed { value }),
    {
        UPSafeCell { inner: Some(value), trace: None }
    }

    /// Whether a handle is live.
    pub fn is_borrowed(&self) -> (borrowed: bool)
        ensures
            borrowed == self@.is_borrowed(),
            self@.well_formed(),
    {
        proof {
            use_type_invariant(self);
        }
        self.inner.is_none()
    }

    /// Where the live handle was acquired; `None` while no handle is live.
    pub fn provenance(&self) -> (owner: Option<Location<'static>>)
        ensures
            optional_view(owner) == self@.provenance(),
            self@.well_formed(),
    {
        proof {
            use_type_invariant(self);
        }
        self.trace
    }

    /// Takes exclusive access to the value for the caller at line `line` of
    /// file `file`, which the cell records as the owner. Kernel code passes
    /// `file!()` and `line!()`.
    ///
    /// No handle may be live. A caller that cannot show this asks through
    /// [`UPSafeCell::try_exclusive_access`].
    pub fn exclusive_access(&mut self, file: &'static str, line: u32) -> (handle: AccessHandle<T>)
        requires
            !old(self)@.is_borrowed(),
        ensures
            old(self)@.request(LocationView { file: file@, line: line as nat }) == (Access::Granted {
                value: handle@,
                next: final(self)@,
            }),
    {
        let mut lent = UPSafeCell { inner: None, trace: Some(Location::new(file, line)) };
        core::mem::swap(self, &mut lent);
        AccessHandle { value: lent.inner.unwrap() }
    }

    /// Asks for exclusive access to the value for the caller at line `line` of
    /// file `file`.
    ///
    /// While a handle is live the request fails and leaves the cell as it is.
    /// The conflict that comes back is not an error to handle: the caller
    /// reports it and halts.
    pub fn try_exclusive_access(&mut self, file: &'static str, line: u32) -> (result: Result<
        AccessHandle<T>,
        BorrowConflict,
    >)
        ensures
            match old(self)@.request(LocationView { file: file@, line: line as nat }) {
                Access::Granted { value, next } => {
                    &&& result matches Ok(handle)
                    &&& handle@ == value
                    &&& final(self)@ == next
                },
                Access::Fatal { conflict } => {
                    &&& result matches Err(found)
                    &&& found@ == conflict
                    &&& final(self)@ == old(self)@
                },
            },
            final(self)@.well_formed(),
    {
        proof {
            use_type_invariant(&*self);
        }
        if self.inner.is_some() {
            Ok(self.exclusive_access(file, line))
        } else {
            Err(BorrowConflict { owner: self.trace, requester: Location::new(file, line) })
        }
    }

    /// Ends the borrow: the value that `handle` holds returns to the cell, and
    /// the provenance record is cleared. This holds whatever was done to the
    /// value while it was lent, and whatever state the cell was in.
    pub fn release(&mut self, handle: AccessHandle<T>)
        ensures
            final(self)@ == old(self)@.release(handle@),
    {
        *self = UPSafeCell { inner: Some(handle.value), trace: None };
    }
}

/// A request is granted exactly when no handle is live. A request that is not
/// granted is fatal, and its conflict holds the provenance record as it stands
/// and the place of the request.
pub proof fn lemma_request_granted_iff_not_borrowed<T>(state: CellState<T>, requester: LocationView)
    ensures
        state.request(requester) is Granted <==> !state.is_borrowed(),
        state.request(requester) is Fatal <==> state.is_borrowed(),
        state.request(requester) is Fatal ==> state.request(requester)->conflict == (ConflictView {
            owner: state.provenance(),
            requester,
        }),
{
}

/// A cell that was just made grants the first request, and hands out the value
/// it was made with.
pub proof fn lemma_new_cell_grants_access<T>(value: T, requester: LocationView)
    ensures
        (CellState::NotBorrowed { value }).request(requester) == (Access::Granted {
            value,
            next: CellState::BorrowedExclusively { owner: Some(requester) },
        }),
{
}

/// While the handle of a granted request is live, every further request is
/// fatal. The conflict names the place of the granted request as the owner.
pub proof fn lemma_second_request_is_fatal<T>(
    state: CellState<T>,
    first: LocationView,
    second: LocationView,
)
    requires
        state.request(first) is Granted,
    ensures
        state.request(first)->next.request(second) == (Access::<T>::Fatal {
            conflict: ConflictView { owner: Some(first), requester: second },
        }),
{
}

/// After a release the next request is granted, and hands out the value that
/// was released.
pub proof fn lemma_request_after_release<T>(
    state: CellState<T>,
    value: T,
    requester: LocationView,
)
    ensures
        state.release(value).request(requester) == (Access::Granted {
            value,
            next: CellState::BorrowedExclusively { owner: Some(requester) },
        }),
{
}

/// One release leaves the cell not borrowed and without provenance, whatever
/// its state was and whatever value comes back; a second release of the same
/// value changes nothing.
pub proof fn lemma_release_is_idempotent<T>(state: CellState<T>, value: T)
    ensures
        !state.release(value).is_borrowed(),
        state.release(value).provenance() is None,
        state.release(value).release(value) == state.release(value),
{
}

/// No step breaks the rule that the provenance record is there exactly while
/// a handle is live: it holds of a new cell, after a granted request, and
/// after a release.
pub proof fn lemma_steps_keep_well_formed<T>(state: CellState<T>, value: T, requester: LocationView)
    ensures
        (CellState::NotBorrowed { value }).well_formed(),
        state.request(requester) is Granted ==> state.request(requester)->next.well_formed(),
        state.release(value).well_formed(),
{
}

} // verus!
