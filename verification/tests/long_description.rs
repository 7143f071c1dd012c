use nxpkgr::error::ResolveError;
use nxpkgr::sources::{
    extract_long_description, get_long_description, long_description, MarkdownEvent, Reply,
};

#[test]
fn first_paragraph_after_the_title_is_the_description() {
    let text = "# Title\n\nBody text here.\n\n## Next section";
    assert_eq!(long_description(text), "Body text here.");
}

#[test]
fn text_without_headings_has_no_description() {
    assert_eq!(long_description("Just a paragraph.\n\nAnd another one."), "");
    assert_eq!(long_description(""), "");
}

#[test]
fn extraction_is_repeatable() {
    let text = "Intro\n\n# Title\n\nFirst line\nsecond line\n\nMore.";
    let once = long_description(text);
    let twice = long_description(text);
    assert_eq!(once, twice);
    assert_eq!(once, "First line\nsecond line");
}

#[test]
fn a_paragraph_before_the_first_heading_is_not_read() {
    let text = "Badges and such.\n\n# Title\n\nThe description.\n";
    assert_eq!(long_description(text), "The description.");
}

#[test]
fn a_heading_right_after_the_title_is_skipped_over() {
    let text = "# Title\n\n## Section\n\nSection text.\n\nMore text.";
    assert_eq!(long_description(text), "Section text.");
}

#[test]
fn inline_markup_keeps_its_text_only() {
    let text = "# Title\n\nSome *emphasised* and `coded` words.\n";
    assert_eq!(long_description(text), "Some emphasised and  words.");
}

#[test]
fn a_heading_while_reading_ends_the_description() {
    let events = vec![
        MarkdownEvent::HeadingStart,
        MarkdownEvent::Text(String::from("Title")),
        MarkdownEvent::Other,
        MarkdownEvent::ParagraphStart,
        MarkdownEvent::Text(String::from("one")),
        MarkdownEvent::SoftBreak,
        MarkdownEvent::Text(String::from("two")),
        MarkdownEvent::HeadingStart,
        MarkdownEvent::Text(String::from("ignored")),
    ];
    assert_eq!(extract_long_description(&events), "one\ntwo");
}

#[test]
fn events_after_the_paragraph_end_are_ignored() {
    let events = vec![
        MarkdownEvent::HeadingStart,
        MarkdownEvent::ParagraphStart,
        MarkdownEvent::Text(String::from("kept")),
        MarkdownEvent::ParagraphEnd,
        MarkdownEvent::ParagraphStart,
        MarkdownEvent::Text(String::from("dropped")),
        MarkdownEvent::ParagraphEnd,
    ];
    assert_eq!(extract_long_description(&events), "kept");
}

#[test]
fn no_events_no_description() {
    assert_eq!(extract_long_description(&Vec::new()), "");
    let events = vec![
        MarkdownEvent::ParagraphStart,
        MarkdownEvent::Text(String::from("no heading before")),
        MarkdownEvent::ParagraphEnd,
    ];
    assert_eq!(extract_long_description(&events), "");
}

#[test]
fn malformed_markdown_does_not_fail() {
    assert_eq!(long_description("#"), "");
    assert_eq!(long_description("# \n\n***\n\n[x]: <"), "[x]: <");
    assert_eq!(long_description("# T\n\n```unclosed"), "");
    assert_eq!(long_description("# T\n\n[broken](link\n\n```unclosed"), "[broken](link");
    assert_eq!(long_description("\u{0}# \u{fffd}\n\n<<<>>>"), "");
}

#[test]
fn a_failed_fetch_carries_its_status() {
    let reply = Reply::Answered { status: 500, body: Some(String::from("# T\n\nbody")) };
    assert_eq!(get_long_description(reply), Err(ResolveError::UpstreamStatus(500)));
    let reply = Reply::Answered { status: 404, body: None };
    assert_eq!(get_long_description(reply), Err(ResolveError::UpstreamStatus(404)));
    let reply = Reply::Answered { status: 199, body: Some(String::new()) };
    assert_eq!(get_long_description(reply), Err(ResolveError::UpstreamStatus(199)));
    let reply = Reply::Answered { status: 300, body: Some(String::new()) };
    assert_eq!(get_long_description(reply), Err(ResolveError::UpstreamStatus(300)));
}

#[test]
fn an_unreachable_or_undecodable_readme_is_an_error() {
    assert_eq!(get_long_description(Reply::Unreachable), Err(ResolveError::Unreachable));
    let reply = Reply::Answered { status: 200, body: None };
    assert_eq!(get_long_description(reply), Err(ResolveError::UnparsableResponse));
}

#[test]
fn a_successful_fetch_is_extracted() {
    let reply = Reply::Answered { status: 200, body: Some(String::from("# T\n\nbody")) };
    assert_eq!(get_long_description(reply), Ok(String::from("body")));
    let reply = Reply::Answered { status: 299, body: Some(String::from("no heading")) };
    assert_eq!(get_long_description(reply), Ok(String::new()));
}
