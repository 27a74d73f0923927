//! Laws of the extraction grammar, stated and proved once over the
//! spec-level interpreter: every result of `parse_md_docblock` satisfies
//! them, by its contract.

use vstd::prelude::*;

use crate::errors::ParseError;
use crate::events::EventView;
use crate::extract::off;
use crate::extract::result_view;
use crate::extract::spec_collect_inline;
use crate::extract::spec_custom_body;
use crate::extract::spec_description;
use crate::extract::spec_extract;
use crate::extract::spec_param_items;
use crate::extract::spec_params;
use crate::extract::spec_section;
use crate::extract::spec_sections;
use crate::extract::spec_teaser;
use crate::extract::trim_newlines;
use crate::offsets::lemma_offset_mono;
use crate::offsets::offset_at;
use crate::types::DocBlock;
use crate::types::DocBlockView;
use crate::types::DocSectionView;
use crate::types::WithOffsetView;

verus! {

/// A successful inline collection stops past its start and within the
/// stream.
pub proof fn lemma_collect_bounds(evs: Seq<EventView>, pos: int, heading: bool)
    requires
        0 <= pos <= evs.len(),
    ensures
        spec_collect_inline(evs, pos, heading) matches Ok(p) ==> pos < p.1 <= evs.len(),
    decreases evs.len() - pos,
{
    if pos < evs.len() {
        lemma_collect_bounds(evs, pos + 1, heading);
    }
}

/// A successful item collection stops past its start and within the
/// stream.
pub proof fn lemma_param_items_bounds(evs: Seq<EventView>, pos: int)
    requires
        0 <= pos <= evs.len(),
    ensures
        spec_param_items(evs, pos) matches Ok(p) ==> pos < p.1 <= evs.len(),
    decreases evs.len() - pos,
{
    if pos + 4 <= evs.len() {
        lemma_param_items_bounds(evs, pos + 4);
    }
}

/// A successful `Parameters` body stops past its start and within the
/// stream.
pub proof fn lemma_params_bounds(evs: Seq<EventView>, pos: int)
    requires
        0 <= pos <= evs.len(),
    ensures
        spec_params(evs, pos) matches Ok(p) ==> pos < p.1 <= evs.len(),
{
    if pos < evs.len() {
        lemma_param_items_bounds(evs, pos + 1);
    }
}

/// A custom body stops at or past its start and within the stream.
pub proof fn lemma_custom_bounds(evs: Seq<EventView>, pos: int)
    requires
        0 <= pos <= evs.len(),
    ensures
        pos <= spec_custom_body(evs, pos).1 <= evs.len(),
    decreases evs.len() - pos,
{
    if pos < evs.len() && !(evs[pos] is HeadingStart) {
        lemma_custom_bounds(evs, pos + 1);
    }
}

/// A successfully parsed section advances the position, and is tagged with
/// the offset of its heading-start event.
pub proof fn lemma_section_advances(evs: Seq<EventView>, pos: int)
    requires
        0 <= pos <= evs.len(),
    ensures
        spec_section(evs, pos) matches Ok(p) ==> pos < p.1 <= evs.len() && p.0.offset
            == offset_at(evs, pos),
{
    if pos < evs.len() && evs[pos] is HeadingStart {
        lemma_collect_bounds(evs, pos + 1, true);
        match spec_collect_inline(evs, pos + 1, true) {
            Ok((label, q)) => {
                lemma_params_bounds(evs, q);
                lemma_custom_bounds(evs, q);
            },
            Err(_) => {},
        }
    }
}

/// The sections of a successful sections phase carry offsets that are
/// monotonically non-decreasing, and none earlier than the offset at which
/// the phase began.
pub proof fn lemma_sections_sorted(evs: Seq<EventView>, pos: int)
    requires
        0 <= pos <= evs.len(),
    ensures
        spec_sections(evs, pos) matches Ok(p) ==> {
            &&& forall|k: int|
                0 <= k < p.0.len() ==> offset_at(evs, pos) <= (#[trigger] p.0[k]).offset
            &&& forall|k1: int, k2: int|
                #![trigger p.0[k1], p.0[k2]]
                0 <= k1 <= k2 < p.0.len() ==> p.0[k1].offset <= p.0[k2].offset
        },
    decreases evs.len() - pos,
{
    if pos < evs.len() {
        lemma_section_advances(evs, pos);
        match spec_section(evs, pos) {
            Ok((sec, q)) => {
                if pos < q <= evs.len() {
                    lemma_sections_sorted(evs, q);
                    lemma_offset_mono(evs, pos, q);
                    match spec_sections(evs, q) {
                        Ok((rest, r2)) => {
                            let ss = seq![sec] + rest;
                            assert forall|k: int| 0 <= k < ss.len() implies offset_at(evs, pos)
                                <= (#[trigger] ss[k]).offset by {
                                if k > 0 {
                                    assert(ss[k] == rest[k - 1]);
                                }
                            }
                            assert forall|k1: int, k2: int|
                                #![trigger ss[k1], ss[k2]]
                                0 <= k1 <= k2 < ss.len() implies ss[k1].offset
                                <= ss[k2].offset by {
                                if k1 > 0 {
                                    assert(ss[k1] == rest[k1 - 1]);
                                }
                                if k2 > 0 {
                                    assert(ss[k2] == rest[k2 - 1]);
                                }
                            }
                        },
                        Err(_) => {},
                    }
                }
            },
            Err(_) => {},
        }
    }
}

/// Offsets are monotonically non-decreasing across the teaser, the
/// description, and each entry of the sections, matching their order of
/// appearance in the source.
pub open spec fn block_offsets_monotone(b: DocBlockView) -> bool {
    &&& (b.description matches Some(d) ==> b.teaser.offset <= d.offset)
    &&& forall|k: int|
        0 <= k < b.sections.len() ==> b.teaser.offset <= (#[trigger] b.sections[k]).offset
    &&& (b.description matches Some(d) ==> forall|k: int|
        0 <= k < b.sections.len() ==> d.offset <= (#[trigger] b.sections[k]).offset)
    &&& forall|k1: int, k2: int|
        #![trigger b.sections[k1], b.sections[k2]]
        0 <= k1 <= k2 < b.sections.len() ==> b.sections[k1].offset <= b.sections[k2].offset
}

/// Every successfully extracted block has monotone offsets.
pub proof fn lemma_block_offsets_monotone(evs: Seq<EventView>)
    ensures
        spec_extract(evs) matches Ok(b) ==> block_offsets_monotone(b),
{
    match spec_teaser(evs) {
        Ok((tz, p1)) => {
            lemma_collect_bounds(evs, 1, false);
            match spec_description(evs, p1) {
                Ok((d, p2)) => {
                    if p1 < evs.len() && evs[p1] is ParagraphStart {
                        lemma_collect_bounds(evs, p1 + 1, false);
                    }
                    lemma_sections_sorted(evs, p2);
                    match d {
                        Some(_) => {
                            lemma_offset_mono(evs, p1 + 1, p2);
                        },
                        None => {},
                    }
                },
                Err(_) => {},
            }
        },
        Err(_) => {},
    }
}

/// A stream consisting of one paragraph alone yields that paragraph's text
/// as the teaser, at offset 0, with no description and no sections.
pub proof fn lemma_single_paragraph(t: Seq<char>)
    ensures
        spec_extract(
            seq![EventView::ParagraphStart, EventView::Text(t), EventView::ParagraphEnd],
        ) == Ok::<DocBlockView, ParseError>(
            DocBlockView {
                teaser: WithOffsetView { value: t, offset: 0 },
                description: None,
                sections: Seq::empty(),
            },
        ),
{
    let evs = seq![EventView::ParagraphStart, EventView::Text(t), EventView::ParagraphEnd];
    assert(spec_collect_inline(evs, 2, false) == Ok::<(Seq<char>, int), ParseError>(
        (Seq::empty(), 3),
    ));
    assert(t + Seq::<char>::empty() =~= t);
    assert(spec_collect_inline(evs, 1, false) == Ok::<(Seq<char>, int), ParseError>((t, 3)));
}

/// A heading with an unrecognized label yields a custom section that
/// preserves the label and the re-rendered body text, tagged with the
/// offset of the heading-start event.
pub proof fn lemma_custom_section(evs: Seq<EventView>, pos: int, label: Seq<char>, q: int)
    requires
        0 <= pos < evs.len(),
        evs[pos] is HeadingStart,
        spec_collect_inline(evs, pos + 1, true) == Ok::<(Seq<char>, int), ParseError>((label, q)),
        label != "Parameters"@,
    ensures
        spec_section(evs, pos) == Ok::<(WithOffsetView<DocSectionView>, int), ParseError>(
            (
                WithOffsetView {
                    value: DocSectionView::Custom(label, trim_newlines(spec_custom_body(evs, q).0)),
                    offset: offset_at(evs, pos),
                },
                spec_custom_body(evs, q).1,
            ),
        ),
{
}

/// A recognized `Parameters` heading whose body does not begin with a list
/// fails with the malformed-section error at the offending event's offset.
pub proof fn lemma_params_need_list(evs: Seq<EventView>, pos: int, label: Seq<char>, q: int)
    requires
        0 <= pos < evs.len(),
        evs[pos] is HeadingStart,
        spec_collect_inline(evs, pos + 1, true) == Ok::<(Seq<char>, int), ParseError>((label, q)),
        label == "Parameters"@,
        0 <= q < evs.len(),
        !(evs[q] is ListStart),
    ensures
        spec_section(evs, pos) == Err::<(WithOffsetView<DocSectionView>, int), ParseError>(
            ParseError::MalformedSection(off(evs, q)),
        ),
{
}

/// A list item that does not have the shape `code-span name, text
/// `: description`, item-end` fails with the malformed-section error at
/// that item's offset.
pub proof fn lemma_param_item_malformed(evs: Seq<EventView>, pos: int)
    requires
        0 <= pos < evs.len(),
        evs[pos] is ItemStart,
        !(pos + 4 <= evs.len() && evs[pos + 1] is Code && evs[pos + 2] is Text
            && crate::extract::param_text_ok(evs[pos + 2]->Text_0) && evs[pos + 3] is ItemEnd),
    ensures
        spec_param_items(evs, pos) == Err::<(Seq<(Seq<char>, Seq<char>)>, int), ParseError>(
            ParseError::MalformedSection(off(evs, pos)),
        ),
{
}

/// Extraction is a function of the text alone: two results that both meet
/// the contract of `parse_md_docblock` on the same text are structurally
/// equal.
pub proof fn lemma_extract_deterministic(
    text: Seq<char>,
    r1: Result<DocBlock, ParseError>,
    r2: Result<DocBlock, ParseError>,
)
    requires
        crate::parse_post(text, r1),
        crate::parse_post(text, r2),
    ensures
        result_view(r1) == result_view(r2),
{
}

} // verus!
