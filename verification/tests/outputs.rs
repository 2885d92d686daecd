use firecrawl_command::output::{assemble, fits_range, Range};

#[test]
fn section_spans_the_whole_text() {
    let out = assemble("URL: u\nHello".to_string(), "Title", "u");
    assert_eq!(out.text, "URL: u\nHello");
    assert_eq!(out.sections.len(), 1);
    assert_eq!(out.sections[0].range, Range { start: 0, end: 12 });
}

#[test]
fn section_end_counts_bytes() {
    let text = "h\u{e9}llo \u{1f600}";
    let out = assemble(text.to_string(), "t", "u");
    assert_eq!(text.chars().count(), 7);
    assert_eq!(out.sections[0].range.start, 0);
    assert_eq!(out.sections[0].range.end, 11);
    assert_eq!(out.sections[0].range.end as usize, out.text.len());
}

#[test]
fn empty_text_has_an_empty_section() {
    let out = assemble(String::new(), "", "");
    assert_eq!(out.text, "");
    assert_eq!(out.sections.len(), 1);
    assert_eq!(out.sections[0].range, Range { start: 0, end: 0 });
    assert_eq!(out.sections[0].label, " (  )");
}

#[test]
fn label_is_title_and_address() {
    let out = assemble("x".to_string(), "Example", "https://example.com");
    assert_eq!(out.sections[0].label, "Example ( https://example.com )");
    let out = assemble("x".to_string(), "A (B)", "http://c");
    assert_eq!(out.sections[0].label, "A (B) ( http://c )");
}

#[test]
fn ordinary_texts_fit() {
    assert!(fits_range(""));
    assert!(fits_range("URL: https://example.com\nHello\nWorld"));
}
