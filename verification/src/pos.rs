//! Source positions.

use vstd::prelude::*;

use crate::name::str_eq;

verus! {

/// A position in the source code is tracked for each abstract syntax tree
/// node. This allows diagnostics and debug information to point to relevant
/// places in the source code.
///
/// The `file` field is a view into an externally supplied path; this layer
/// never opens, reads, or validates files.
#[derive(Clone, Copy, Debug, Hash)]
pub struct Pos<'a> {
    pub file: &'a str,
    pub line: usize,
}

impl<'a> View for Pos<'a> {
    type V = (Seq<char>, int);

    open spec fn view(&self) -> (Seq<char>, int) {
        (self.file@, self.line as int)
    }
}

impl<'a> PartialEq for Pos<'a> {
    fn eq(&self, other: &Pos<'a>) -> bool {
        str_eq(self.file, other.file) && self.line == other.line
    }
}

impl<'a> Eq for Pos<'a> {}

impl<'a> vstd::std_specs::cmp::PartialEqSpecImpl for Pos<'a> {
    open spec fn obeys_eq_spec() -> bool {
        true
    }

    open spec fn eq_spec(&self, other: &Pos<'a>) -> bool {
        self@ == other@
    }
}

} // verus!
