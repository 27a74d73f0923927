//! The section grammar model: the shapes a parsed documentation block is
//! made of, and their spec-level views.

use vstd::prelude::*;

verus! {

/// A value paired with the byte offset in the source text where it begins.
#[derive(Debug, Clone, PartialEq, Eq)]
pub struct WithOffset<T> {
    /// The carried value.
    pub value: T,
    /// Byte offset in the source text at which the value begins.
    pub offset: usize,
}

/// Spec-level counterpart of [`WithOffset`].
pub struct WithOffsetView<T> {
    /// View of the carried value.
    pub value: T,
    /// The offset, as an unbounded natural.
    pub offset: nat,
}

impl<T: View> View for WithOffset<T> {
    type V = WithOffsetView<T::V>;

    open spec fn view(&self) -> WithOffsetView<T::V> {
        WithOffsetView { value: self.value@, offset: self.offset as nat }
    }
}

impl<T> WithOffset<T> {
    /// Pair `value` with the source offset it begins at.
    pub fn new(value: T, offset: usize) -> (r: WithOffset<T>)
        ensures
            r.value == value,
            r.offset == offset,
    {
        WithOffset { value, offset }
    }
}

/// One heading-delimited section of a documentation block.
#[derive(Debug, Clone, PartialEq, Eq)]
pub enum DocSection {
    /// A recognized `Parameters` section: `(name, description)` pairs, in
    /// list order.
    Parameters(Vec<(String, String)>),
    /// A section with an unrecognized label: the label and the body text,
    /// kept verbatim.
    Custom(String, String),
}

/// Spec-level counterpart of [`DocSection`].
pub enum DocSectionView {
    /// View of a `Parameters` section.
    Parameters(Seq<(Seq<char>, Seq<char>)>),
    /// View of a custom section: label and verbatim body.
    Custom(Seq<char>, Seq<char>),
}

impl View for DocSection {
    type V = DocSectionView;

    open spec fn view(&self) -> DocSectionView {
        match self {
            DocSection::Parameters(ps) => DocSectionView::Parameters(
                ps@.map_values(|p: (String, String)| (p.0@, p.1@)),
            ),
            DocSection::Custom(label, body) => DocSectionView::Custom(label@, body@),
        }
    }
}

/// A fully parsed documentation block.
#[derive(Debug, Clone, PartialEq, Eq)]
pub struct DocBlock {
    /// The first paragraph: a short summary. Always present.
    pub teaser: WithOffset<String>,
    /// The second paragraph, present only if text stands between the teaser
    /// and the first heading.
    pub description: Option<WithOffset<String>>,
    /// The sections, in the order their headings appear in the source.
    pub sections: Vec<WithOffset<DocSection>>,
}

/// Spec-level counterpart of [`DocBlock`].
pub struct DocBlockView {
    /// View of the teaser.
    pub teaser: WithOffsetView<Seq<char>>,
    /// View of the description, if present.
    pub description: Option<WithOffsetView<Seq<char>>>,
    /// Views of the sections, in source order.
    pub sections: Seq<WithOffsetView<DocSectionView>>,
}

impl View for DocBlock {
    type V = DocBlockView;

    open spec fn view(&self) -> DocBlockView {
        DocBlockView {
            teaser: self.teaser@,
            description: match self.description {
                Some(d) => Some(d@),
                None => None,
            },
            sections: self.sections@.map_values(|s: WithOffset<DocSection>| s@),
        }
    }
}

} // verus!
