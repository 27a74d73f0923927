//! Extract structured data from documentation strings.
//!
//! A documentation block is Markdown text of a fixed shape: a mandatory
//! first paragraph (the "teaser"), an optional second paragraph (the
//! "description"), and zero or more heading-delimited sections. A
//! `# Parameters` section is parsed into `(name, description)` pairs; a
//! section with any other label is kept verbatim as a custom section.

use vstd::prelude::*;

pub mod errors;
pub mod events;
pub mod extract;
pub mod laws;
pub mod offsets;
pub mod types;

pub use errors::ParseError;
pub use events::md_events;
pub use events::EventView;
pub use events::MdEvent;
pub use extract::result_view;
pub use extract::spec_extract;
pub use types::DocBlock;
pub use types::DocBlockView;
pub use types::DocSection;
pub use types::DocSectionView;
pub use types::WithOffset;
pub use types::WithOffsetView;

verus! {

/// What `parse_md_docblock` returns for a given text: exactly what the
/// grammar interpreter says of the tokenizer's event stream for that text.
pub open spec fn parse_post(text: Seq<char>, r: Result<DocBlock, ParseError>) -> bool {
    extract::result_view(r) == extract::spec_extract(events::md_events(text))
}

/// Parse a documentation string and extract its structured data.
///
/// The text is tokenized by the external Markdown tokenizer; the verified
/// engine then consumes the offset-tagged event stream in three phases
/// (teaser, description, sections) and returns either the structured block
/// or the first error encountered, tagged with the offset at which it was
/// detected. An empty text has no leading paragraph, so it fails with the
/// missing-teaser error at offset 0.
pub fn parse_md_docblock(md: &str) -> (r: Result<DocBlock, ParseError>)
    ensures
        parse_post(md@, r),
        md@.len() == 0 ==> r == Err::<DocBlock, ParseError>(ParseError::MissingTeaser(0)),
        r matches Ok(b) ==> laws::block_offsets_monotone(b@),
{
    let events = events::tokenize(md);
    let t = offsets::Tokens::new(events);
    let r = extract::extract_block(&t);
    proof {
        if md@.len() == 0 {
            assert(t.evs() =~= Seq::<EventView>::empty());
        }
        laws::lemma_block_offsets_monotone(t.evs());
    }
    r
}

} // verus!
