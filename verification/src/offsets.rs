//! The token offset tracker.
//!
//! The external tokenizer exposes no positions, so offsets are
//! reconstructed by cumulative bookkeeping: every run of literal text
//! advances the running offset by its own length, and every structural
//! event advances it by the length of the syntactic marker the tokenizer
//! consumed for it (heading markers, list bullets, paragraph separators).
//! The offsets are exact at the start of each literal-text run for
//! canonical Markdown, best-effort otherwise, and always monotonically
//! non-decreasing. Sums saturate at `usize::MAX` instead of overflowing.

use vstd::prelude::*;

use crate::events::events_view;
use crate::events::EventView;
use crate::events::MdEvent;

verus! {

/// Addition on naturals, saturating at `usize::MAX`.
pub open spec fn sat(n: nat) -> nat {
    if n > usize::MAX as nat {
        usize::MAX as nat
    } else {
        n
    }
}

/// How many source bytes an event advances the running offset by: the
/// length of its text for literal runs, the length of its syntactic
/// marker for structural events.
pub open spec fn event_cost(e: EventView) -> nat {
    match e {
        EventView::Text(s) => sat(s.len()),
        EventView::Code(s) => sat(s.len() + 2),
        EventView::ParagraphStart => 0,
        EventView::ParagraphEnd => 2,
        EventView::HeadingStart(l) => sat(l as nat + 1),
        EventView::HeadingEnd => 2,
        EventView::ListStart => 0,
        EventView::ListEnd => 0,
        EventView::ItemStart => 2,
        EventView::ItemEnd => 1,
        EventView::SoftBreak => 1,
        EventView::HardBreak => 1,
        EventView::Other => 0,
    }
}

/// The reconstructed offset at which event `i` of the stream begins: the
/// saturating sum of the costs of all events before it.
pub open spec fn offset_at(evs: Seq<EventView>, i: int) -> nat
    decreases i,
{
    if i <= 0 {
        0
    } else {
        sat(offset_at(evs, i - 1) + event_cost(evs[i - 1]))
    }
}

/// Every reconstructed offset fits in `usize`.
pub proof fn lemma_offset_le_max(evs: Seq<EventView>, i: int)
    ensures
        offset_at(evs, i) <= usize::MAX as nat,
    decreases i,
{
    if i > 0 {
        lemma_offset_le_max(evs, i - 1);
    }
}

/// Reconstructed offsets are monotonically non-decreasing along the stream.
pub proof fn lemma_offset_mono(evs: Seq<EventView>, i: int, j: int)
    requires
        i <= j,
    ensures
        offset_at(evs, i) <= offset_at(evs, j),
    decreases j - i,
{
    if i < j {
        lemma_offset_mono(evs, i, j - 1);
        lemma_offset_le_max(evs, j - 1);
    }
}

/// Saturating addition on `usize`.
fn sat_add(a: usize, b: usize) -> (c: usize)
    ensures
        c as nat == sat(a as nat + b as nat),
{
    if a > usize::MAX - b {
        usize::MAX
    } else {
        a + b
    }
}

/// The cost of one event, computed executably.
fn event_cost_exec(e: &MdEvent) -> (c: usize)
    ensures
        c as nat == event_cost(e@),
{
    match e {
        MdEvent::Text(s) => s.as_str().unicode_len(),
        MdEvent::Code(s) => sat_add(s.as_str().unicode_len(), 2),
        MdEvent::ParagraphStart => 0,
        MdEvent::ParagraphEnd => 2,
        MdEvent::HeadingStart(l) => sat_add(*l as usize, 1),
        MdEvent::HeadingEnd => 2,
        MdEvent::ListStart => 0,
        MdEvent::ListEnd => 0,
        MdEvent::ItemStart => 2,
        MdEvent::ItemEnd => 1,
        MdEvent::SoftBreak => 1,
        MdEvent::HardBreak => 1,
        MdEvent::Other => 0,
    }
}

/// An event stream paired with the reconstructed offset at which each
/// event begins. `offsets` has one entry per event plus a final entry for
/// the offset at which the stream ends.
pub struct Tokens {
    /// The events, in stream order.
    pub events: Vec<MdEvent>,
    /// `offsets[i]` is the reconstructed offset of event `i`; the last
    /// entry is the offset at the end of the stream.
    pub offsets: Vec<usize>,
}

impl Tokens {
    /// The spec-level event stream.
    pub open spec fn evs(&self) -> Seq<EventView> {
        events_view(self.events@)
    }

    /// The offsets agree with [`offset_at`] everywhere.
    pub open spec fn wf(&self) -> bool {
        &&& self.offsets@.len() == self.events@.len() + 1
        &&& forall|i: int|
            0 <= i <= self.events@.len() ==> (#[trigger] self.offsets@[i]) as nat == offset_at(
                self.evs(),
                i,
            )
    }

    /// Pair each event of the stream with its reconstructed offset.
    pub fn new(events: Vec<MdEvent>) -> (t: Tokens)
        ensures
            t.wf(),
            t.evs() == events_view(events@),
            t.events == events,
    {
        let ghost evs = events_view(events@);
        let mut offsets: Vec<usize> = Vec::new();
        let mut cur: usize = 0;
        offsets.push(0);
        let mut i: usize = 0;
        while i < events.len()
            invariant
                i <= events.len(),
                offsets@.len() == i + 1,
                evs == events_view(events@),
                cur as nat == offset_at(evs, i as int),
                forall|j: int| 0 <= j <= i ==> (#[trigger] offsets@[j]) as nat == offset_at(evs, j),
            decreases events.len() - i,
        {
            assert(evs[i as int] == events@[i as int]@);
            cur = sat_add(cur, event_cost_exec(&events[i]));
            offsets.push(cur);
            i = i + 1;
        }
        Tokens { events, offsets }
    }
}

} // verus!
