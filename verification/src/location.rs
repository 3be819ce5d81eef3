//! Source locations.
//!
//! A location is a file name and a line number. In every diagnostic of this
//! crate it appears as `file:line`, the line as a decimal numeral.

use vstd::prelude::*;
use crate::text::{append_decimal, decimal};

verus! {

/// A place in the kernel's source text: a file and a line in it.
#[derive(Clone, Copy, Debug)]
pub struct Location<'a> {
    pub file: &'a str,
    pub line: u32,
}

/// A location as contracts speak of it.
pub struct LocationView {
    pub file: Seq<char>,
    pub line: nat,
}

impl LocationView {
    /// The location as it is printed: `file:line`.
    pub open spec fn text(self) -> Seq<char> {
        self.file + seq![':'] + decimal(self.line)
    }
}

impl<'a> View for Location<'a> {
    type V = LocationView;

    open spec fn view(&self) -> LocationView {
        LocationView { file: self.file@, line: self.line as nat }
    }
}

/// The view of a location that may be absent.
pub open spec fn optional_view(location: Option<Location<'_>>) -> Option<LocationView> {
    match location {
        Some(place) => Some(place@),
        None => None,
    }
}

impl<'a> Location<'a> {
    /// The location of line `line` in file `file`.
    pub fn new(file: &'a str, line: u32) -> (location: Location<'a>)
        ensures
            location@ == (LocationView { file: file@, line: line as nat }),
    {
        Location { file, line }
    }

    /// Appends the location, printed as `file:line`, to `out`.
    pub fn append_to(&self, out: &mut String)
        ensures
            final(out)@ == old(out)@ + self@.text(),
    {
        out.append(self.file);
        out.append(":");
        append_decimal(out, self.line);
        proof {
            reveal_strlit(":");
            assert(":"@ =~= seq![':']);
            assert(((old(out)@ + self.file@) + seq![':']) + decimal(self.line as nat) =~= old(
                out,
            )@ + self@.text());
        }
    }

    /// The location printed as `file:line`.
    pub fn to_text(&self) -> (text: String)
        ensures
            text@ == self@.text(),
    {
        let mut text = String::new();
        self.append_to(&mut text);
        assert(Seq::<char>::empty() + self@.text() =~= self@.text());
        text
    }
}

} // verus!
