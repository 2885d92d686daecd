use firecrawl_command::normalize::{normalize, strip_chars};
use firecrawl_command::text::{from_chars, to_chars};

fn strip(text: &str) -> String {
    strip_chars(&text.chars().collect()).into_iter().collect()
}

#[test]
fn spaces_before_a_line_break_are_dropped() {
    assert_eq!(strip("Hello   \nWorld"), "Hello\nWorld");
    assert_eq!(strip("a \nb  \nc"), "a\nb\nc");
    assert_eq!(strip("a \n"), "a\n");
}

#[test]
fn lines_of_spaces_alone_are_removed() {
    assert_eq!(strip("a\n   \nb"), "a\nb");
    assert_eq!(strip(" \n"), "");
    assert_eq!(strip("  \n \nx"), "x");
    assert_eq!(strip("a\n \n \n"), "a\n");
}

#[test]
fn empty_lines_stay() {
    assert_eq!(strip("a\n\nb"), "a\n\nb");
    assert_eq!(strip("\n"), "\n");
    assert_eq!(strip("\n\n\n"), "\n\n\n");
    assert_eq!(strip(""), "");
}

#[test]
fn spaces_inside_and_in_front_of_a_line_stay() {
    assert_eq!(strip("a  b\n  c d\n"), "a  b\n  c d\n");
    assert_eq!(strip("  x \n"), "  x\n");
}

#[test]
fn what_follows_the_last_line_break_stays() {
    assert_eq!(strip("a\nb   "), "a\nb   ");
    assert_eq!(strip("   "), "   ");
    assert_eq!(strip("a \n  "), "a\n  ");
}

#[test]
fn other_white_space_is_no_space() {
    assert_eq!(strip("a\t\nb"), "a\t\nb");
    assert_eq!(strip("\t\n"), "\t\n");
    assert_eq!(strip("a \t\n"), "a \t\n");
    assert_eq!(strip("a \r\n"), "a \r\n");
    assert_eq!(strip("a\u{a0}\n"), "a\u{a0}\n");
}

#[test]
fn characters_of_several_bytes_are_kept() {
    assert_eq!(strip("h\u{e9}llo  \nw\u{f6}rld \u{1f600} \n"), "h\u{e9}llo\nw\u{f6}rld \u{1f600}\n");
}

#[test]
fn stripping_twice_is_stripping_once() {
    for text in ["Hello   \nWorld", "a\n   \nb", " \n \n", "x  \n\n  \ny ", "", "\n", " a \n b \n"] {
        let once = strip(text);
        assert_eq!(strip(&once), once);
    }
}

#[test]
fn tidy_text_comes_back_behind_the_header() {
    for text in ["Hello\nWorld", "", "a\n\nb\n", "  indented\nlast  "] {
        assert_eq!(normalize(text, "https://example.com"), format!("URL: https://example.com\n{}", text));
    }
}

#[test]
fn header_names_the_page() {
    assert_eq!(
        normalize("Hello   \nWorld", "https://example.com"),
        "URL: https://example.com\nHello\nWorld"
    );
    assert_eq!(normalize("", ""), "URL: \n");
    assert_eq!(normalize(" \n", "u"), "URL: u\n");
}

#[test]
fn address_in_the_header_is_not_tidied() {
    assert_eq!(normalize("x \ny", "http://a \nb"), "URL: http://a \nb\nx\ny");
}

#[test]
fn normalizing_again_adds_a_second_header() {
    let once = normalize("a  \n \nb", "https://example.com");
    assert_eq!(once, "URL: https://example.com\na\nb");
    assert_eq!(
        normalize(&once, "https://example.com"),
        "URL: https://example.com\nURL: https://example.com\na\nb"
    );
}

#[test]
fn characters_round_trip() {
    let text = "a\u{e9}\u{1f600} z\n";
    let chars = to_chars(text);
    assert_eq!(chars, text.chars().collect::<Vec<char>>());
    assert_eq!(from_chars(&chars, 0, chars.len()), text);
    assert_eq!(from_chars(&chars, 1, 3), "\u{e9}\u{1f600}");
    assert_eq!(from_chars(&chars, 2, 2), "");
}
