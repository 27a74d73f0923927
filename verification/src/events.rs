//! The markup event model, and the trusted boundary to the external
//! Markdown tokenizer.
//!
//! The tokenizer emits a stream of events (block start/end markers and
//! runs of literal text) and exposes no positions. This module converts
//! that stream into the crate's own event type, [`MdEvent`], whose values
//! are plain and can be reasoned about; everything downstream of
//! [`tokenize`] is verified.

use vstd::prelude::*;

use pulldown_cmark::Event;
use pulldown_cmark::Tag;
use pulldown_cmark::TagEnd;

verus! {

/// One markup event, as the extraction engine sees it.
///
/// Structural constructs the grammar does not care about are collapsed
/// into [`MdEvent::Other`].
#[derive(Debug, Clone, PartialEq, Eq)]
pub enum MdEvent {
    /// Start of a paragraph.
    ParagraphStart,
    /// End of a paragraph.
    ParagraphEnd,
    /// Start of a heading, with its level (1 to 6).
    HeadingStart(u32),
    /// End of a heading.
    HeadingEnd,
    /// Start of a bullet or ordered list.
    ListStart,
    /// End of a list.
    ListEnd,
    /// Start of a list item.
    ItemStart,
    /// End of a list item.
    ItemEnd,
    /// A run of literal text.
    Text(String),
    /// An inline code span (without its backticks).
    Code(String),
    /// A soft line break inside a block.
    SoftBreak,
    /// A hard line break inside a block.
    HardBreak,
    /// Any other markup construct.
    Other,
}

/// Spec-level counterpart of [`MdEvent`].
pub enum EventView {
    /// Start of a paragraph.
    ParagraphStart,
    /// End of a paragraph.
    ParagraphEnd,
    /// Start of a heading, with its level.
    HeadingStart(u32),
    /// End of a heading.
    HeadingEnd,
    /// Start of a list.
    ListStart,
    /// End of a list.
    ListEnd,
    /// Start of a list item.
    ItemStart,
    /// End of a list item.
    ItemEnd,
    /// A run of literal text.
    Text(Seq<char>),
    /// An inline code span.
    Code(Seq<char>),
    /// A soft line break.
    SoftBreak,
    /// A hard line break.
    HardBreak,
    /// Any other markup construct.
    Other,
}

impl View for MdEvent {
    type V = EventView;

    open spec fn view(&self) -> EventView {
        match self {
            MdEvent::ParagraphStart => EventView::ParagraphStart,
            MdEvent::ParagraphEnd => EventView::ParagraphEnd,
            MdEvent::HeadingStart(l) => EventView::HeadingStart(*l),
            MdEvent::HeadingEnd => EventView::HeadingEnd,
            MdEvent::ListStart => EventView::ListStart,
            MdEvent::ListEnd => EventView::ListEnd,
            MdEvent::ItemStart => EventView::ItemStart,
            MdEvent::ItemEnd => EventView::ItemEnd,
            MdEvent::Text(s) => EventView::Text(s@),
            MdEvent::Code(s) => EventView::Code(s@),
            MdEvent::SoftBreak => EventView::SoftBreak,
            MdEvent::HardBreak => EventView::HardBreak,
            MdEvent::Other => EventView::Other,
        }
    }
}

/// The view of a whole event sequence.
pub open spec fn events_view(evs: Seq<MdEvent>) -> Seq<EventView> {
    evs.map_values(|e: MdEvent| e@)
}

/// The event stream the external tokenizer produces for a given text.
///
/// The tokenizer is deterministic: the stream is a function of the text
/// alone, so the stream can be given a name without stating its pages-long
/// definition.
pub uninterp spec fn md_events(text: Seq<char>) -> Seq<EventView>;

#[verifier::external_type_specification]
#[verifier::external_body]
/// The external tokenizer's event type, declared so that it can appear in
/// the signature of [`convert_event`]. Opaque to the verifier.
pub struct ExEvent<'a>(Event<'a>);

/// Relies on `pulldown_cmark::Event`: maps each variant of the external
/// event type onto [`MdEvent`], one arm each, moving the text content only.
#[verifier::external_body]
fn convert_event<'a>(ev: Event<'a>) -> MdEvent {
    match ev {
        Event::Start(Tag::Paragraph) => MdEvent::ParagraphStart,
        Event::Start(Tag::Heading { level, .. }) => MdEvent::HeadingStart(level as u32),
        Event::Start(Tag::List(_)) => MdEvent::ListStart,
        Event::Start(Tag::Item) => MdEvent::ItemStart,
        Event::End(TagEnd::Paragraph) => MdEvent::ParagraphEnd,
        Event::End(TagEnd::Heading(_)) => MdEvent::HeadingEnd,
        Event::End(TagEnd::List(_)) => MdEvent::ListEnd,
        Event::End(TagEnd::Item) => MdEvent::ItemEnd,
        Event::Text(s) => MdEvent::Text(s.into_string()),
        Event::Code(s) => MdEvent::Code(s.into_string()),
        Event::SoftBreak => MdEvent::SoftBreak,
        Event::HardBreak => MdEvent::HardBreak,
        _ => MdEvent::Other,
    }
}

/// Relies on `pulldown_cmark::Parser::new`: tokenizes `text` with default
/// options into the finite event stream named by [`md_events`]. The parser
/// is documented to emit balanced start/end events and, on empty input,
/// emits nothing.
#[verifier::external_body]
pub(crate) fn tokenize(text: &str) -> (r: Vec<MdEvent>)
    ensures
        events_view(r@) == md_events(text@),
        text@.len() == 0 ==> r@.len() == 0,
{
    let mut out = Vec::new();
    for ev in pulldown_cmark::Parser::new(text) {
        out.push(convert_event(ev));
    }
    out
}

} // verus!
