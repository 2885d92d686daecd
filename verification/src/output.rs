//! Packaging the text of a page as the command's output.

use vstd::prelude::*;
use vstd::string::{StringExecFns, StringSliceAdditionalSpecFns};
use vstd::utf8::encode_utf8;

verus! {

/// A stretch of the output text, in bytes: `start` is its first byte, `end`
/// the byte behind its last.
#[derive(Debug, Clone, Copy, PartialEq, Eq, Structural)]
pub struct Range {
    pub start: u32,
    pub end: u32,
}

/// A labelled stretch of the output text.
#[derive(Debug, Clone, PartialEq, Eq)]
pub struct OutputSection {
    pub range: Range,
    pub label: String,
}

/// What the command hands back: a text and its labelled sections.
#[derive(Debug, Clone, PartialEq, Eq)]
pub struct Output {
    pub text: String,
    pub sections: Vec<OutputSection>,
}

/// The number of bytes that `text` takes in UTF-8.
pub open spec fn byte_len(text: Seq<char>) -> nat {
    encode_utf8(text).len()
}

/// The label of a page: its title, then its address in parentheses.
pub open spec fn label_spec(title: Seq<char>, source_url: Seq<char>) -> Seq<char> {
    title + " ( "@ + source_url + " )"@
}

impl Output {
    /// The invariant of an output: it has a single section, and that section
    /// spans the whole text, from byte 0 to the text's length in bytes.
    pub open spec fn spans_whole_text(&self) -> bool {
        &&& self.sections@.len() == 1
        &&& self.sections@[0].range.start == 0
        &&& self.sections@[0].range.end == byte_len(self.text@)
    }
}

/// The largest text, in bytes, that a section can span.
pub const MAX_TEXT_BYTES: usize = 4294967295;

/// Tells whether a section can span `text`, that is, whether the text's
/// length in bytes fits the 32 bits of a range's end.
pub fn fits_range(text: &str) -> (b: bool)
    ensures
        b == (byte_len(text@) <= u32::MAX),
{
    text.as_bytes().len() <= MAX_TEXT_BYTES
}

/// Wraps `text` into an output with one section that spans all of it and is
/// labelled with the page's title and address.
///
/// The end of the section is the length of `text` in bytes, not in
/// characters.
pub fn assemble(text: String, title: &str, source_url: &str) -> (out: Output)
    requires
        byte_len(text@) <= u32::MAX,
    ensures
        out.text@ == text@,
        out.spans_whole_text(),
        out.sections@[0].label@ == label_spec(title@, source_url@),
{
    let label = String::from_str(title).concat(" ( ").concat(source_url).concat(" )");
    let end = text.as_str().len() as u32;
    let mut sections: Vec<OutputSection> = Vec::new();
    sections.push(OutputSection { range: Range { start: 0, end }, label });
    Output { text, sections }
}

} // verus!
