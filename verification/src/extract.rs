//! The extraction engine.
//!
//! The grammar is stated once, as a family of spec-level functions that
//! interpret an offset-tagged event stream ([`spec_extract`] and its
//! helpers); the executable engine below is proved to return exactly what
//! the interpreter says, for every stream. Three ordered phases consume
//! the stream: teaser, description, sections.

use vstd::prelude::*;
use vstd::string::StrSliceExecFns;
use vstd::string::StringExecFns;

use crate::errors::ParseError;
use crate::events::EventView;
use crate::events::MdEvent;
use crate::offsets::offset_at;
use crate::offsets::Tokens;
use crate::types::DocBlock;
use crate::types::DocBlockView;
use crate::types::DocSection;
use crate::types::DocSectionView;
use crate::types::WithOffset;
use crate::types::WithOffsetView;

verus! {

/// The reconstructed offset of event `pos`, as the error type carries it.
/// Saturation keeps every offset within `usize`, so the cast is exact.
pub open spec fn off(evs: Seq<EventView>, pos: int) -> usize {
    offset_at(evs, pos) as usize
}

/// A code span, as it stands in the source: the text between backticks.
pub open spec fn backticked(s: Seq<char>) -> Seq<char> {
    "`"@ + s + "`"@
}

/// Prepend `s` to the text of a successful inline collection.
pub open spec fn prepend(s: Seq<char>, r: Result<(Seq<char>, int), ParseError>) -> Result<
    (Seq<char>, int),
    ParseError,
> {
    match r {
        Ok((t, q)) => Ok((s + t, q)),
        Err(e) => Err(e),
    }
}

/// Collect the inline content of a paragraph (`heading == false`) or of a
/// heading (`heading == true`) into one string, starting at `pos` and
/// stopping right after the matching end event. Fails on any structural
/// event the grammar does not anticipate inside inline content.
pub open spec fn spec_collect_inline(evs: Seq<EventView>, pos: int, heading: bool) -> Result<
    (Seq<char>, int),
    ParseError,
>
    decreases evs.len() - pos,
{
    if pos < 0 || pos >= evs.len() {
        Err(ParseError::UnexpectedToken(off(evs, evs.len() as int)))
    } else {
        match evs[pos] {
            EventView::ParagraphEnd => if !heading {
                Ok((Seq::empty(), pos + 1))
            } else {
                Err(ParseError::UnexpectedToken(off(evs, pos)))
            },
            EventView::HeadingEnd => if heading {
                Ok((Seq::empty(), pos + 1))
            } else {
                Err(ParseError::UnexpectedToken(off(evs, pos)))
            },
            EventView::Text(s) => prepend(s, spec_collect_inline(evs, pos + 1, heading)),
            EventView::Code(s) => prepend(
                backticked(s),
                spec_collect_inline(evs, pos + 1, heading),
            ),
            EventView::SoftBreak => prepend("\n"@, spec_collect_inline(evs, pos + 1, heading)),
            EventView::HardBreak => prepend("\n"@, spec_collect_inline(evs, pos + 1, heading)),
            _ => Err(ParseError::UnexpectedToken(off(evs, pos))),
        }
    }
}

/// The teaser phase: the stream must begin with a paragraph, whose inline
/// content becomes the teaser. The teaser begins at offset 0.
pub open spec fn spec_teaser(evs: Seq<EventView>) -> Result<
    (WithOffsetView<Seq<char>>, int),
    ParseError,
> {
    if evs.len() == 0 || !(evs[0] is ParagraphStart) {
        Err(ParseError::MissingTeaser(0))
    } else {
        match spec_collect_inline(evs, 1, false) {
            Ok((t, q)) => Ok((WithOffsetView { value: t, offset: 0 }, q)),
            Err(e) => Err(e),
        }
    }
}

/// The description phase: a heading or the end of the stream means there
/// is no description; a paragraph becomes the description; anything else
/// is malformed. The description begins where its paragraph's content
/// begins.
pub open spec fn spec_description(evs: Seq<EventView>, pos: int) -> Result<
    (Option<WithOffsetView<Seq<char>>>, int),
    ParseError,
> {
    if pos >= evs.len() {
        Ok((None, pos))
    } else {
        match evs[pos] {
            EventView::HeadingStart(_) => Ok((None, pos)),
            EventView::ParagraphStart => match spec_collect_inline(evs, pos + 1, false) {
                Ok((t, q)) => Ok(
                    (Some(WithOffsetView { value: t, offset: offset_at(evs, pos + 1) }), q),
                ),
                Err(e) => Err(e),
            },
            _ => Err(ParseError::MalformedDescription(off(evs, pos))),
        }
    }
}

/// Whether a list item's trailing text has the `: description` shape.
pub open spec fn param_text_ok(s: Seq<char>) -> bool {
    s.len() >= 1 && s[0] == ':'
}

/// The description carried by a list item's trailing text: everything
/// after the colon, with one leading space stripped if present.
pub open spec fn param_desc(s: Seq<char>) -> Seq<char> {
    let t = s.skip(1);
    if t.len() >= 1 && t[0] == ' ' {
        t.skip(1)
    } else {
        t
    }
}

/// Prepend one `(name, description)` pair to a successful item collection.
pub open spec fn prepend_pair(
    p: (Seq<char>, Seq<char>),
    r: Result<(Seq<(Seq<char>, Seq<char>)>, int), ParseError>,
) -> Result<(Seq<(Seq<char>, Seq<char>)>, int), ParseError> {
    match r {
        Ok((rest, q)) => Ok((seq![p] + rest, q)),
        Err(e) => Err(e),
    }
}

/// Collect the items of a `Parameters` list, each of the exact shape
/// item-start, code span (the name), text `: description`, item-end.
/// Any deviation is malformed, tagged with the offending item's offset.
pub open spec fn spec_param_items(evs: Seq<EventView>, pos: int) -> Result<
    (Seq<(Seq<char>, Seq<char>)>, int),
    ParseError,
>
    decreases evs.len() - pos,
{
    if pos < 0 || pos >= evs.len() {
        Err(ParseError::MalformedSection(off(evs, evs.len() as int)))
    } else {
        match evs[pos] {
            EventView::ListEnd => Ok((Seq::empty(), pos + 1)),
            EventView::ItemStart => if pos + 4 <= evs.len() && evs[pos + 1] is Code && evs[pos
                + 2] is Text && param_text_ok(evs[pos + 2]->Text_0) && evs[pos + 3] is ItemEnd {
                prepend_pair(
                    (evs[pos + 1]->Code_0, param_desc(evs[pos + 2]->Text_0)),
                    spec_param_items(evs, pos + 4),
                )
            } else {
                Err(ParseError::MalformedSection(off(evs, pos)))
            },
            _ => Err(ParseError::MalformedSection(off(evs, pos))),
        }
    }
}

/// The body of a recognized `Parameters` section: exactly one list.
pub open spec fn spec_params(evs: Seq<EventView>, pos: int) -> Result<
    (Seq<(Seq<char>, Seq<char>)>, int),
    ParseError,
> {
    if pos < 0 || pos >= evs.len() {
        Err(ParseError::MalformedSection(off(evs, evs.len() as int)))
    } else if evs[pos] is ListStart {
        spec_param_items(evs, pos + 1)
    } else {
        Err(ParseError::MalformedSection(off(evs, pos)))
    }
}

/// How one event of a custom section's body is re-rendered into text.
pub open spec fn render_block(e: EventView) -> Seq<char> {
    match e {
        EventView::Text(s) => s,
        EventView::Code(s) => backticked(s),
        EventView::SoftBreak => "\n"@,
        EventView::HardBreak => "\n"@,
        EventView::ParagraphEnd => "\n\n"@,
        EventView::ItemStart => "- "@,
        EventView::ItemEnd => "\n"@,
        _ => Seq::empty(),
    }
}

/// The body of a custom section: everything up to the next heading or the
/// end of the stream, re-rendered as one string. Total: never fails.
pub open spec fn spec_custom_body(evs: Seq<EventView>, pos: int) -> (Seq<char>, int)
    decreases evs.len() - pos,
{
    if pos < 0 || pos >= evs.len() {
        (Seq::empty(), pos)
    } else if evs[pos] is HeadingStart {
        (Seq::empty(), pos)
    } else {
        let (rest, q) = spec_custom_body(evs, pos + 1);
        (render_block(evs[pos]) + rest, q)
    }
}

/// Drop trailing newlines left over from re-rendering block separators.
pub open spec fn trim_newlines(s: Seq<char>) -> Seq<char>
    decreases s.len(),
{
    if s.len() > 0 && s[s.len() - 1] == '\n' {
        trim_newlines(s.drop_last())
    } else {
        s
    }
}

/// One section: a heading, whose label dispatches (case-sensitively) to
/// the recognized `Parameters` parser or to the custom fallback. The
/// section is tagged with the offset of its heading-start event.
pub open spec fn spec_section(evs: Seq<EventView>, pos: int) -> Result<
    (WithOffsetView<DocSectionView>, int),
    ParseError,
> {
    if pos < 0 || pos >= evs.len() {
        Err(ParseError::UnexpectedToken(off(evs, evs.len() as int)))
    } else if !(evs[pos] is HeadingStart) {
        Err(ParseError::UnexpectedToken(off(evs, pos)))
    } else {
        match spec_collect_inline(evs, pos + 1, true) {
            Err(e) => Err(e),
            Ok((label, q)) => if label == "Parameters"@ {
                match spec_params(evs, q) {
                    Ok((pairs, r)) => Ok(
                        (
                            WithOffsetView {
                                value: DocSectionView::Parameters(pairs),
                                offset: offset_at(evs, pos),
                            },
                            r,
                        ),
                    ),
                    Err(e) => Err(e),
                }
            } else {
                let (body, r) = spec_custom_body(evs, q);
                Ok(
                    (
                        WithOffsetView {
                            value: DocSectionView::Custom(label, trim_newlines(body)),
                            offset: offset_at(evs, pos),
                        },
                        r,
                    ),
                )
            },
        }
    }
}

/// Prepend one section to a successful section collection.
pub open spec fn prepend_section(
    s: WithOffsetView<DocSectionView>,
    r: Result<(Seq<WithOffsetView<DocSectionView>>, int), ParseError>,
) -> Result<(Seq<WithOffsetView<DocSectionView>>, int), ParseError> {
    match r {
        Ok((rest, q)) => Ok((seq![s] + rest, q)),
        Err(e) => Err(e),
    }
}

/// The sections phase: sections, one per heading, until the stream is
/// exhausted. The bounds check on the returned position exists only for
/// the termination measure; a successful section parse always advances
/// (see `lemma_section_advances`), so the error branch is never taken.
pub open spec fn spec_sections(evs: Seq<EventView>, pos: int) -> Result<
    (Seq<WithOffsetView<DocSectionView>>, int),
    ParseError,
>
    decreases evs.len() - pos,
{
    if pos < 0 || pos >= evs.len() {
        Ok((Seq::empty(), pos))
    } else {
        match spec_section(evs, pos) {
            Err(e) => Err(e),
            Ok((sec, q)) => if pos < q <= evs.len() {
                prepend_section(sec, spec_sections(evs, q))
            } else {
                Err(ParseError::UnexpectedToken(0))
            },
        }
    }
}

/// The whole extraction: the three phases in order, fail-fast.
pub open spec fn spec_extract(evs: Seq<EventView>) -> Result<DocBlockView, ParseError> {
    match spec_teaser(evs) {
        Err(e) => Err(e),
        Ok((teaser, p1)) => match spec_description(evs, p1) {
            Err(e) => Err(e),
            Ok((description, p2)) => match spec_sections(evs, p2) {
                Err(e) => Err(e),
                Ok((sections, _)) => Ok(DocBlockView { teaser, description, sections }),
            },
        },
    }
}

/// The view of an extraction result.
pub open spec fn result_view(r: Result<DocBlock, ParseError>) -> Result<
    DocBlockView,
    ParseError,
> {
    match r {
        Ok(b) => Ok(b@),
        Err(e) => Err(e),
    }
}

/// The view of an optional positioned string.
pub open spec fn opt_view(o: Option<WithOffset<String>>) -> Option<WithOffsetView<Seq<char>>> {
    match o {
        Some(w) => Some(w@),
        None => None,
    }
}

/// The view of a sequence of `(name, description)` pairs.
pub open spec fn pairs_view(v: Seq<(String, String)>) -> Seq<(Seq<char>, Seq<char>)> {
    v.map_values(|p: (String, String)| (p.0@, p.1@))
}

/// The view of a sequence of positioned sections.
pub open spec fn sections_view(v: Seq<WithOffset<DocSection>>) -> Seq<
    WithOffsetView<DocSectionView>,
> {
    v.map_values(|s: WithOffset<DocSection>| s@)
}

/// Collect inline content, executably. Mirrors [`spec_collect_inline`].
fn collect_inline(t: &Tokens, pos: usize, heading: bool) -> (r: Result<
    (String, usize),
    ParseError,
>)
    requires
        t.wf(),
        pos <= t.events@.len(),
    ensures
        match r {
            Ok(p) => spec_collect_inline(t.evs(), pos as int, heading) == Ok::<
                (Seq<char>, int),
                ParseError,
            >((p.0@, p.1 as int)) && pos < p.1 <= t.events@.len(),
            Err(e) => spec_collect_inline(t.evs(), pos as int, heading) == Err::<
                (Seq<char>, int),
                ParseError,
            >(e),
        },
    decreases t.events@.len() - pos,
{
    if pos == t.events.len() {
        return Err(ParseError::UnexpectedToken(t.offsets[pos]));
    }
    assert(t.evs()[pos as int] == t.events@[pos as int]@);
    match &t.events[pos] {
        MdEvent::ParagraphEnd => {
            if !heading {
                Ok((String::new(), pos + 1))
            } else {
                Err(ParseError::UnexpectedToken(t.offsets[pos]))
            }
        },
        MdEvent::HeadingEnd => {
            if heading {
                Ok((String::new(), pos + 1))
            } else {
                Err(ParseError::UnexpectedToken(t.offsets[pos]))
            }
        },
        MdEvent::Text(s) => {
            match collect_inline(t, pos + 1, heading) {
                Ok((rest, q)) => Ok((s.clone().concat(rest.as_str()), q)),
                Err(e) => Err(e),
            }
        },
        MdEvent::Code(s) => {
            match collect_inline(t, pos + 1, heading) {
                Ok((rest, q)) => {
                    let mut out: String = "`".to_owned();
                    out.append(s.as_str());
                    out.append("`");
                    out.append(rest.as_str());
                    Ok((out, q))
                },
                Err(e) => Err(e),
            }
        },
        MdEvent::SoftBreak | MdEvent::HardBreak => {
            match collect_inline(t, pos + 1, heading) {
                Ok((rest, q)) => {
                    let mut out: String = "\n".to_owned();
                    out.append(rest.as_str());
                    Ok((out, q))
                },
                Err(e) => Err(e),
            }
        },
        _ => Err(ParseError::UnexpectedToken(t.offsets[pos])),
    }
}

/// The teaser phase, executably. Mirrors [`spec_teaser`].
fn teaser(t: &Tokens) -> (r: Result<(WithOffset<String>, usize), ParseError>)
    requires
        t.wf(),
    ensures
        match r {
            Ok(p) => spec_teaser(t.evs()) == Ok::<
                (WithOffsetView<Seq<char>>, int),
                ParseError,
            >((p.0@, p.1 as int)) && p.1 <= t.events@.len(),
            Err(e) => spec_teaser(t.evs()) == Err::<
                (WithOffsetView<Seq<char>>, int),
                ParseError,
            >(e),
        },
{
    if t.events.len() == 0 {
        return Err(ParseError::MissingTeaser(0));
    }
    assert(t.evs()[0] == t.events@[0]@);
    match &t.events[0] {
        MdEvent::ParagraphStart => {},
        _ => {
            return Err(ParseError::MissingTeaser(0));
        },
    }
    match collect_inline(t, 1, false) {
        Ok((text, q)) => Ok((WithOffset::new(text, 0), q)),
        Err(e) => Err(e),
    }
}

/// The description phase, executably. Mirrors [`spec_description`].
fn description(t: &Tokens, pos: usize) -> (r: Result<
    (Option<WithOffset<String>>, usize),
    ParseError,
>)
    requires
        t.wf(),
        pos <= t.events@.len(),
    ensures
        match r {
            Ok(p) => spec_description(t.evs(), pos as int) == Ok::<
                (Option<WithOffsetView<Seq<char>>>, int),
                ParseError,
            >((opt_view(p.0), p.1 as int)) && pos <= p.1 <= t.events@.len(),
            Err(e) => spec_description(t.evs(), pos as int) == Err::<
                (Option<WithOffsetView<Seq<char>>>, int),
                ParseError,
            >(e),
        },
{
    if pos == t.events.len() {
        return Ok((None, pos));
    }
    assert(t.evs()[pos as int] == t.events@[pos as int]@);
    match &t.events[pos] {
        MdEvent::HeadingStart(_) => Ok((None, pos)),
        MdEvent::ParagraphStart => {
            match collect_inline(t, pos + 1, false) {
                Ok((text, q)) => Ok((Some(WithOffset::new(text, t.offsets[pos + 1])), q)),
                Err(e) => Err(e),
            }
        },
        _ => Err(ParseError::MalformedDescription(t.offsets[pos])),
    }
}

/// Join already-collected pairs with the rest of an item collection.
pub open spec fn pairs_join(
    acc: Seq<(Seq<char>, Seq<char>)>,
    r: Result<(Seq<(Seq<char>, Seq<char>)>, int), ParseError>,
) -> Result<(Seq<(Seq<char>, Seq<char>)>, int), ParseError> {
    match r {
        Ok((rest, q)) => Ok((acc + rest, q)),
        Err(e) => Err(e),
    }
}

/// Collect the items of a `Parameters` list, executably. Mirrors
/// [`spec_param_items`].
fn param_items(t: &Tokens, pos: usize) -> (r: Result<(Vec<(String, String)>, usize), ParseError>)
    requires
        t.wf(),
        pos <= t.events@.len(),
    ensures
        match r {
            Ok(p) => spec_param_items(t.evs(), pos as int) == Ok::<
                (Seq<(Seq<char>, Seq<char>)>, int),
                ParseError,
            >((pairs_view(p.0@), p.1 as int)) && pos < p.1 <= t.events@.len(),
            Err(e) => spec_param_items(t.evs(), pos as int) == Err::<
                (Seq<(Seq<char>, Seq<char>)>, int),
                ParseError,
            >(e),
        },
{
    let mut acc: Vec<(String, String)> = Vec::new();
    let mut i: usize = pos;
    loop
        invariant
            t.wf(),
            pos <= i <= t.events@.len(),
            pairs_join(pairs_view(acc@), spec_param_items(t.evs(), i as int))
                == spec_param_items(t.evs(), pos as int),
        decreases t.events@.len() - i,
    {
        if i == t.events.len() {
            return Err(ParseError::MalformedSection(t.offsets[i]));
        }
        assert(t.evs()[i as int] == t.events@[i as int]@);
        let io = t.offsets[i];
        match &t.events[i] {
            MdEvent::ListEnd => {
                proof {
                    assert(pairs_view(acc@) + Seq::<(Seq<char>, Seq<char>)>::empty() =~= pairs_view(
                        acc@,
                    ));
                }
                return Ok((acc, i + 1));
            },
            MdEvent::ItemStart => {
                if t.events.len() - i < 4 {
                    return Err(ParseError::MalformedSection(io));
                }
                assert(t.evs()[i as int + 1] == t.events@[i as int + 1]@);
                assert(t.evs()[i as int + 2] == t.events@[i as int + 2]@);
                assert(t.evs()[i as int + 3] == t.events@[i as int + 3]@);
                match (&t.events[i + 1], &t.events[i + 2], &t.events[i + 3]) {
                    (MdEvent::Code(name), MdEvent::Text(s), MdEvent::ItemEnd) => {
                        let ulen = s.as_str().unicode_len();
                        if ulen >= 1 && s.as_str().get_char(0) == ':' {
                            let d1 = s.as_str().substring_char(1, ulen);
                            let d1len = ulen - 1;
                            proof {
                                assert(d1@ =~= s@.skip(1));
                            }
                            let desc: String = if d1len >= 1 && d1.get_char(0) == ' ' {
                                proof {
                                    assert(d1@.subrange(1, d1len as int) =~= d1@.skip(1));
                                }
                                d1.substring_char(1, d1len).to_owned()
                            } else {
                                d1.to_owned()
                            };
                            let ghost i0 = i as int;
                            let ghost pv0 = pairs_view(acc@);
                            let ghost pairg = (name@, desc@);
                            acc.push((name.clone(), desc));
                            i = i + 4;
                            proof {
                                let evs = t.evs();
                                assert(desc@ == param_desc(s@));
                                assert(spec_param_items(evs, i0) == prepend_pair(
                                    pairg,
                                    spec_param_items(evs, i as int),
                                ));
                                assert(pairs_view(acc@) =~= pv0 + seq![pairg]);
                                if let Ok((rest, q)) = spec_param_items(evs, i as int) {
                                    assert((pv0 + seq![pairg]) + rest =~= pv0 + (seq![pairg]
                                        + rest));
                                }
                            }
                        } else {
                            return Err(ParseError::MalformedSection(io));
                        }
                    },
                    _ => {
                        return Err(ParseError::MalformedSection(io));
                    },
                }
            },
            _ => {
                return Err(ParseError::MalformedSection(io));
            },
        }
    }
}

/// The body of a recognized `Parameters` section, executably. Mirrors
/// [`spec_params`].
fn params(t: &Tokens, pos: usize) -> (r: Result<(Vec<(String, String)>, usize), ParseError>)
    requires
        t.wf(),
        pos <= t.events@.len(),
    ensures
        match r {
            Ok(p) => spec_params(t.evs(), pos as int) == Ok::<
                (Seq<(Seq<char>, Seq<char>)>, int),
                ParseError,
            >((pairs_view(p.0@), p.1 as int)) && pos < p.1 <= t.events@.len(),
            Err(e) => spec_params(t.evs(), pos as int) == Err::<
                (Seq<(Seq<char>, Seq<char>)>, int),
                ParseError,
            >(e),
        },
{
    if pos == t.events.len() {
        return Err(ParseError::MalformedSection(t.offsets[pos]));
    }
    assert(t.evs()[pos as int] == t.events@[pos as int]@);
    match &t.events[pos] {
        MdEvent::ListStart => param_items(t, pos + 1),
        _ => Err(ParseError::MalformedSection(t.offsets[pos])),
    }
}

/// How one event of a custom section's body is re-rendered, executably.
fn render_block_exec(e: &MdEvent) -> (r: String)
    ensures
        r@ == render_block(e@),
{
    match e {
        MdEvent::Text(s) => s.clone(),
        MdEvent::Code(s) => {
            let mut out: String = "`".to_owned();
            out.append(s.as_str());
            out.append("`");
            out
        },
        MdEvent::SoftBreak | MdEvent::HardBreak | MdEvent::ItemEnd => "\n".to_owned(),
        MdEvent::ParagraphEnd => "\n\n".to_owned(),
        MdEvent::ItemStart => "- ".to_owned(),
        _ => String::new(),
    }
}

/// The body of a custom section, executably. Mirrors [`spec_custom_body`].
fn custom_body(t: &Tokens, pos: usize) -> (r: (String, usize))
    requires
        t.wf(),
        pos <= t.events@.len(),
    ensures
        spec_custom_body(t.evs(), pos as int) == (r.0@, r.1 as int),
        pos <= r.1 <= t.events@.len(),
    decreases t.events@.len() - pos,
{
    if pos == t.events.len() {
        return (String::new(), pos);
    }
    assert(t.evs()[pos as int] == t.events@[pos as int]@);
    match &t.events[pos] {
        MdEvent::HeadingStart(_) => (String::new(), pos),
        _ => {
            let piece = render_block_exec(&t.events[pos]);
            let (rest, q) = custom_body(t, pos + 1);
            (piece.concat(rest.as_str()), q)
        },
    }
}

/// The length of `s` once trailing newlines among its first `k` characters
/// are dropped.
fn trimmed_len(s: &str, k: usize) -> (r: usize)
    requires
        k <= s@.len(),
    ensures
        r <= k,
        s@.take(r as int) == trim_newlines(s@.take(k as int)),
    decreases k,
{
    if k == 0 {
        proof {
            assert(s@.take(0) =~= Seq::<char>::empty());
        }
        0
    } else if s.get_char(k - 1) == '\n' {
        proof {
            assert(s@.take(k as int).drop_last() =~= s@.take(k as int - 1));
        }
        trimmed_len(s, k - 1)
    } else {
        k
    }
}

/// Drop trailing newlines, executably. Mirrors [`trim_newlines`].
fn trim_newlines_exec(s: &str) -> (r: String)
    ensures
        r@ == trim_newlines(s@),
{
    let n = s.unicode_len();
    proof {
        assert(s@.take(n as int) =~= s@);
    }
    let k = trimmed_len(s, n);
    let out = s.substring_char(0, k).to_owned();
    proof {
        assert(out@ =~= s@.take(k as int));
    }
    out
}

/// One section, executably. Mirrors [`spec_section`].
fn section(t: &Tokens, pos: usize) -> (r: Result<(WithOffset<DocSection>, usize), ParseError>)
    requires
        t.wf(),
        pos <= t.events@.len(),
    ensures
        match r {
            Ok(p) => spec_section(t.evs(), pos as int) == Ok::<
                (WithOffsetView<DocSectionView>, int),
                ParseError,
            >((p.0@, p.1 as int)) && pos < p.1 <= t.events@.len(),
            Err(e) => spec_section(t.evs(), pos as int) == Err::<
                (WithOffsetView<DocSectionView>, int),
                ParseError,
            >(e),
        },
{
    if pos == t.events.len() {
        return Err(ParseError::UnexpectedToken(t.offsets[pos]));
    }
    assert(t.evs()[pos as int] == t.events@[pos as int]@);
    match &t.events[pos] {
        MdEvent::HeadingStart(_) => {},
        _ => {
            return Err(ParseError::UnexpectedToken(t.offsets[pos]));
        },
    }
    match collect_inline(t, pos + 1, true) {
        Err(e) => Err(e),
        Ok((label, q)) => {
            let recognized: String = "Parameters".to_owned();
            if label == recognized {
                match params(t, q) {
                    Ok((pairs, r2)) => Ok(
                        (WithOffset::new(DocSection::Parameters(pairs), t.offsets[pos]), r2),
                    ),
                    Err(e) => Err(e),
                }
            } else {
                let (body, r2) = custom_body(t, q);
                let trimmed = trim_newlines_exec(body.as_str());
                Ok((WithOffset::new(DocSection::Custom(label, trimmed), t.offsets[pos]), r2))
            }
        },
    }
}

/// Join already-collected sections with the rest of a section collection.
pub open spec fn sections_join(
    acc: Seq<WithOffsetView<DocSectionView>>,
    r: Result<(Seq<WithOffsetView<DocSectionView>>, int), ParseError>,
) -> Result<(Seq<WithOffsetView<DocSectionView>>, int), ParseError> {
    match r {
        Ok((rest, q)) => Ok((acc + rest, q)),
        Err(e) => Err(e),
    }
}

/// The sections phase, executably. Mirrors [`spec_sections`].
fn sections(t: &Tokens, pos: usize) -> (r: Result<
    (Vec<WithOffset<DocSection>>, usize),
    ParseError,
>)
    requires
        t.wf(),
        pos <= t.events@.len(),
    ensures
        match r {
            Ok(p) => spec_sections(t.evs(), pos as int) == Ok::<
                (Seq<WithOffsetView<DocSectionView>>, int),
                ParseError,
            >((sections_view(p.0@), p.1 as int)),
            Err(e) => spec_sections(t.evs(), pos as int) == Err::<
                (Seq<WithOffsetView<DocSectionView>>, int),
                ParseError,
            >(e),
        },
{
    let mut acc: Vec<WithOffset<DocSection>> = Vec::new();
    let mut i: usize = pos;
    loop
        invariant
            t.wf(),
            pos <= i <= t.events@.len(),
            sections_join(sections_view(acc@), spec_sections(t.evs(), i as int))
                == spec_sections(t.evs(), pos as int),
        decreases t.events@.len() - i,
    {
        if i == t.events.len() {
            proof {
                assert(sections_view(acc@) + Seq::<WithOffsetView<DocSectionView>>::empty()
                    =~= sections_view(acc@));
            }
            return Ok((acc, i));
        }
        match section(t, i) {
            Err(e) => {
                return Err(e);
            },
            Ok((sec, q)) => {
                let ghost i0 = i as int;
                let ghost sv0 = sections_view(acc@);
                let ghost secg = sec@;
                acc.push(sec);
                i = q;
                proof {
                    let evs = t.evs();
                    assert(spec_sections(evs, i0) == prepend_section(
                        secg,
                        spec_sections(evs, i as int),
                    ));
                    assert(sections_view(acc@) =~= sv0 + seq![secg]);
                    if let Ok((rest, r2)) = spec_sections(evs, i as int) {
                        assert((sv0 + seq![secg]) + rest =~= sv0 + (seq![secg] + rest));
                    }
                }
            },
        }
    }
}

/// Run the three phases, in order, over an offset-tagged event stream.
pub fn extract_block(t: &Tokens) -> (r: Result<DocBlock, ParseError>)
    requires
        t.wf(),
    ensures
        result_view(r) == spec_extract(t.evs()),
{
    let (tz, p1) = match teaser(t) {
        Ok(p) => p,
        Err(e) => {
            return Err(e);
        },
    };
    let (ds, p2) = match description(t, p1) {
        Ok(p) => p,
        Err(e) => {
            return Err(e);
        },
    };
    let (ss, _p3) = match sections(t, p2) {
        Ok(p) => p,
        Err(e) => {
            return Err(e);
        },
    };
    Ok(DocBlock { teaser: tz, description: ds, sections: ss })
}

} // verus!
