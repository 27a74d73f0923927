//! The error model: a closed set of failure kinds, each carrying the byte
//! offset at which the failure was detected. Extraction is fail-fast: the
//! first error aborts the whole call.

use vstd::prelude::*;

verus! {

/// The first error encountered while extracting a documentation block.
#[derive(Debug, Clone, Copy, PartialEq, Eq, Structural)]
pub enum ParseError {
    /// The document is empty or does not begin with a paragraph.
    MissingTeaser(usize),
    /// An unexpected event shape between the teaser and the first heading.
    MalformedDescription(usize),
    /// A recognized section's body does not match its expected shape.
    MalformedSection(usize),
    /// Any other structural mismatch the grammar does not anticipate.
    UnexpectedToken(usize),
}

impl ParseError {
    /// The byte offset at which the failure was detected.
    pub fn offset(&self) -> (o: usize)
        ensures
            o == self.spec_offset(),
    {
        match self {
            ParseError::MissingTeaser(o) => *o,
            ParseError::MalformedDescription(o) => *o,
            ParseError::MalformedSection(o) => *o,
            ParseError::UnexpectedToken(o) => *o,
        }
    }

    /// Spec-level projection of the carried offset.
    pub open spec fn spec_offset(&self) -> usize {
        match self {
            ParseError::MissingTeaser(o) => *o,
            ParseError::MalformedDescription(o) => *o,
            ParseError::MalformedSection(o) => *o,
            ParseError::UnexpectedToken(o) => *o,
        }
    }
}

} // verus!
