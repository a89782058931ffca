use vstd::prelude::*;

use crate::value::ObjectKind;

verus! {

/// A region of source text: `length` bytes starting at byte `start`.
#[derive(Clone, Copy, Debug, PartialEq, Eq, Structural)]
pub struct TextSpan {
    pub start: usize,
    pub length: usize,
}

impl TextSpan {
    /// One past the last byte of the span.
    pub open spec fn end_spec(&self) -> int {
        self.start + self.length
    }

    /// The span covering `start .. end`.
    pub fn from_bounds(start: usize, end: usize) -> (r: TextSpan)
        requires
            start <= end,
        ensures
            r.start == start,
            r.end_spec() == end,
    {
        TextSpan { start, length: end - start }
    }

    pub fn end(&self) -> (r: usize)
        requires
            self.end_spec() <= usize::MAX,
        ensures
            r == self.end_spec(),
    {
        self.start + self.length
    }
}

/// A declared variable: its name, whether it may be reassigned, and the
/// kind of value it holds.  Symbols are immutable once created.
#[derive(Clone, Debug, PartialEq)]
pub struct VariableSymbol {
    pub name: String,
    pub is_read_only: bool,
    pub kind: ObjectKind,
}

impl VariableSymbol {
    /// An exact copy.  The derived `Clone` promises nothing to the verifier,
    /// so the copy is built field by field.
    pub fn duplicate(&self) -> (r: Self)
        ensures
            r == *self,
    {
        VariableSymbol {
            name: self.name.clone(),
            is_read_only: self.is_read_only,
            kind: self.kind,
        }
    }
}

} // verus!
