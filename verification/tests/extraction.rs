//! End-to-end tests of `parse_md_docblock` against the real Markdown
//! tokenizer.

use docstrings::parse_md_docblock;
use docstrings::DocBlock;
use docstrings::DocSection;
use docstrings::ParseError;
use docstrings::WithOffset;

#[test]
fn single_paragraph_is_teaser_only() {
    let r = parse_md_docblock("Hello world.").unwrap();
    assert_eq!(r.teaser, WithOffset::new("Hello world.".to_string(), 0));
    assert_eq!(r.description, None);
    assert!(r.sections.is_empty());
}

#[test]
fn full_block_with_parameters_section() {
    let r = parse_md_docblock(
        "Lorem ipsum\n\nDolor sit amet.\n\n# Parameters\n\n- `param1`: Foo\n- `param2`: Bar\n",
    )
    .unwrap();
    assert_eq!(
        r,
        DocBlock {
            teaser: WithOffset::new("Lorem ipsum".to_string(), 0),
            description: Some(WithOffset::new("Dolor sit amet.".to_string(), 13)),
            sections: vec![WithOffset::new(
                DocSection::Parameters(vec![
                    ("param1".to_string(), "Foo".to_string()),
                    ("param2".to_string(), "Bar".to_string()),
                ]),
                30,
            )],
        }
    );
}

#[test]
fn unrecognized_heading_becomes_custom_section() {
    let r = parse_md_docblock("p1\n\np2\n\n# Heading\n\n- `a`: b").unwrap();
    assert_eq!(r.teaser, WithOffset::new("p1".to_string(), 0));
    assert_eq!(r.description, Some(WithOffset::new("p2".to_string(), 4)));
    assert_eq!(
        r.sections,
        vec![WithOffset::new(
            DocSection::Custom("Heading".to_string(), "- `a`: b".to_string()),
            8,
        )]
    );
}

#[test]
fn custom_section_preserves_paragraph_body() {
    let r = parse_md_docblock("T\n\n# Notes\n\nSome body text.").unwrap();
    assert_eq!(r.description, None);
    assert_eq!(
        r.sections,
        vec![WithOffset::new(
            DocSection::Custom("Notes".to_string(), "Some body text.".to_string()),
            3,
        )]
    );
}

#[test]
fn empty_input_is_missing_teaser_at_zero() {
    assert_eq!(parse_md_docblock(""), Err(ParseError::MissingTeaser(0)));
}

#[test]
fn leading_heading_is_missing_teaser() {
    assert_eq!(
        parse_md_docblock("# Heading"),
        Err(ParseError::MissingTeaser(0))
    );
}

#[test]
fn parameters_body_must_be_a_list() {
    // The offending paragraph begins at offset 22.
    assert_eq!(
        parse_md_docblock("Teaser\n\n# Parameters\n\nNot a list"),
        Err(ParseError::MalformedSection(22))
    );
}

#[test]
fn parameter_item_needs_code_span() {
    // The offending item begins at offset 22.
    assert_eq!(
        parse_md_docblock("Teaser\n\n# Parameters\n\n- no code"),
        Err(ParseError::MalformedSection(22))
    );
}

#[test]
fn parameter_item_needs_colon() {
    // The offending item begins at offset 22.
    assert_eq!(
        parse_md_docblock("Teaser\n\n# Parameters\n\n- `a` b"),
        Err(ParseError::MalformedSection(22))
    );
}

#[test]
fn parameter_description_without_space_after_colon() {
    let r = parse_md_docblock("T\n\n# Parameters\n\n- `a`:b").unwrap();
    assert_eq!(
        r.sections,
        vec![WithOffset::new(
            DocSection::Parameters(vec![("a".to_string(), "b".to_string())]),
            3,
        )]
    );
}

#[test]
fn list_between_teaser_and_heading_is_malformed_description() {
    // The offending list begins at offset 3.
    assert_eq!(
        parse_md_docblock("T\n\n- list"),
        Err(ParseError::MalformedDescription(3))
    );
}

#[test]
fn emphasis_in_teaser_is_unexpected_token() {
    // The emphasis marker begins at offset 6.
    assert_eq!(
        parse_md_docblock("Hello *world*"),
        Err(ParseError::UnexpectedToken(6))
    );
}

#[test]
fn soft_break_in_teaser_becomes_newline() {
    let r = parse_md_docblock("line one\nline two").unwrap();
    assert_eq!(
        r.teaser,
        WithOffset::new("line one\nline two".to_string(), 0)
    );
}

#[test]
fn inline_code_in_teaser_keeps_backticks() {
    let r = parse_md_docblock("Use `foo` now").unwrap();
    assert_eq!(r.teaser, WithOffset::new("Use `foo` now".to_string(), 0));
}

#[test]
fn sections_keep_source_order_and_offsets_grow() {
    let r = parse_md_docblock("T\n\n# One\n\nalpha\n\n# Two\n\nbeta").unwrap();
    assert_eq!(r.sections.len(), 2);
    assert_eq!(
        r.sections[0],
        WithOffset::new(DocSection::Custom("One".to_string(), "alpha".to_string()), 3)
    );
    assert_eq!(
        r.sections[1],
        WithOffset::new(DocSection::Custom("Two".to_string(), "beta".to_string()), 17)
    );
    assert!(r.teaser.offset <= r.sections[0].offset);
    assert!(r.sections[0].offset < r.sections[1].offset);
}

#[test]
fn offsets_non_decreasing_across_block() {
    let r = parse_md_docblock(
        "Lorem ipsum\n\nDolor sit amet.\n\n# Parameters\n\n- `param1`: Foo\n\n# Notes\n\nbody",
    )
    .unwrap();
    let d = r.description.as_ref().unwrap();
    assert!(r.teaser.offset <= d.offset);
    let mut last = d.offset;
    for s in &r.sections {
        assert!(last <= s.offset);
        last = s.offset;
    }
}

#[test]
fn deeper_heading_marker_counts_toward_offsets() {
    let r = parse_md_docblock("T\n\n## Deep\n\nbody").unwrap();
    assert_eq!(
        r.sections,
        vec![WithOffset::new(
            DocSection::Custom("Deep".to_string(), "body".to_string()),
            3,
        )]
    );
}

#[test]
fn hard_break_in_teaser_becomes_newline() {
    let r = parse_md_docblock("a\\\nb").unwrap();
    assert_eq!(r.teaser, WithOffset::new("a\nb".to_string(), 0));
}

#[test]
fn extraction_is_idempotent() {
    let text = "p1\n\np2\n\n# Parameters\n\n- `a`: b\n\n# Heading\n\nbody";
    let first = parse_md_docblock(text);
    let second = parse_md_docblock(text);
    assert_eq!(first, second);
}

#[test]
fn error_offset_accessor_matches_payload() {
    match parse_md_docblock("") {
        Err(e) => assert_eq!(e.offset(), 0),
        Ok(_) => panic!("empty input must not parse"),
    }
}
