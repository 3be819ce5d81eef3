//! Run-time guarded exclusive access to the shared state of a kernel that runs
//! on one core, and the last line such a kernel prints.
//!
//! * [`sync::up`] holds the cell: it lends its value to one holder at a time
//!   and records where the holder asked for it.
//! * [`sync::conflict`] holds what the cell knows when a second request meets
//!   a live handle, and the diagnostic made of it.
//! * [`fatal`] composes the line that the kernel prints before it halts.
//! * [`location`] and [`text`] hold source locations and the text they are
//!   printed as.
//!
//! The library decides and composes; it prints nothing and halts nothing.
//! Whoever calls it sends the line to the console and shuts the machine down.

pub mod fatal;
pub mod location;
pub mod sync;
pub mod text;
