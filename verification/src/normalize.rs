//! Tidying the markdown that the service returns.
//!
//! Rendered pages tend to carry spaces at the end of lines, and lines that
//! hold nothing but spaces. Both are noise in a text block: the spaces in
//! front of a line break are dropped, and a line made of spaces alone is
//! dropped together with its line break. Nothing else is touched: spaces
//! inside a line, empty lines, and whatever follows the last line break.

use vstd::prelude::*;
use vstd::string::StringExecFns;
use crate::text::{from_chars, to_chars};

verus! {

/// The number of characters in front of the first line break of `text`, or
/// the length of `text` if it holds none.
pub open spec fn line_end(text: Seq<char>) -> int
    decreases text.len(),
{
    if text.len() == 0 || text[0] == '\n' {
        0
    } else {
        1 + line_end(text.drop_first())
    }
}

/// The length of `line` without the spaces at its end.
pub open spec fn kept_len(line: Seq<char>) -> int
    decreases line.len(),
{
    if line.len() > 0 && line.last() == ' ' {
        kept_len(line.drop_last())
    } else {
        line.len() as int
    }
}

/// What becomes of one line that ends in a line break; `line` is the line
/// without that break. A line of spaces alone vanishes; any other line loses
/// the spaces at its end and keeps its break.
pub open spec fn tidy_line(line: Seq<char>) -> Seq<char> {
    let kept = kept_len(line);
    if kept == 0 && line.len() > 0 {
        Seq::empty()
    } else {
        line.take(kept).push('\n')
    }
}

/// `text` with every line that ends in a line break tidied; what follows the
/// last line break stays as it is.
pub open spec fn strip_trailing_spaces(text: Seq<char>) -> Seq<char>
    decreases text.len(),
{
    let k = line_end(text);
    if 0 <= k < text.len() {
        tidy_line(text.take(k)) + strip_trailing_spaces(text.skip(k + 1))
    } else {
        text
    }
}

/// Whether no space in `text` stands directly in front of a line break.
pub open spec fn free_of_trailing_spaces(text: Seq<char>) -> bool {
    forall|i: int| 0 <= i && i + 1 < text.len() && text[i] == ' ' ==> #[trigger] text[i + 1] != '\n'
}

/// The line that names the page in front of its text.
pub open spec fn header_spec(source_url: Seq<char>) -> Seq<char> {
    "URL: "@ + source_url + "\n"@
}

/// The text shown for a page: the header line, then the tidied markdown.
pub open spec fn normalize_spec(raw_markdown: Seq<char>, source_url: Seq<char>) -> Seq<char> {
    header_spec(source_url) + strip_trailing_spaces(raw_markdown)
}

/// A position with no line break in front of it, which holds one or is the
/// end of the text, is `line_end`.
pub proof fn lemma_line_end_is(text: Seq<char>, k: int)
    requires
        0 <= k <= text.len(),
        forall|j: int| 0 <= j < k ==> text[j] != '\n',
        k < text.len() ==> text[k] == '\n',
    ensures
        line_end(text) == k,
    decreases k,
{
    if k > 0 {
        let tail = text.drop_first();
        assert forall|j: int| 0 <= j < k - 1 implies tail[j] != '\n' by {
            assert(tail[j] == text[j + 1]);
        }
        lemma_line_end_is(tail, k - 1);
    }
}

/// A position behind which the line holds spaces only, and in front of which
/// stands no space, is `kept_len`.
pub proof fn lemma_kept_len_is(line: Seq<char>, t: int)
    requires
        0 <= t <= line.len(),
        forall|j: int| t <= j < line.len() ==> line[j] == ' ',
        t > 0 ==> line[t - 1] != ' ',
    ensures
        kept_len(line) == t,
    decreases line.len() - t,
{
    if t < line.len() {
        lemma_kept_len_is(line.drop_last(), t);
    }
}

/// Appends `src[from..to]` to `out`.
fn extend_from(out: &mut Vec<char>, src: &Vec<char>, from: usize, to: usize)
    requires
        from <= to <= src.len(),
    ensures
        final(out)@ == old(out)@ + src@.subrange(from as int, to as int),
{
    let mut i: usize = from;
    while i < to
        invariant
            from <= i <= to <= src.len(),
            out@ == old(out)@ + src@.subrange(from as int, i as int),
        decreases to - i,
    {
        out.push(src[i]);
        i += 1;
        assert(out@ =~= old(out)@ + src@.subrange(from as int, i as int));
    }
    assert(out@ =~= old(out)@ + src@.subrange(from as int, to as int));
}

/// Tidies a text given as characters: see `strip_trailing_spaces`.
pub fn strip_chars(text: &Vec<char>) -> (out: Vec<char>)
    ensures
        out@ == strip_trailing_spaces(text@),
{
    let n = text.len();
    let mut out: Vec<char> = Vec::new();
    let mut start: usize = 0;
    let mut done = false;
    assert(text@.skip(0) =~= text@);
    assert(out@ + strip_trailing_spaces(text@) =~= strip_trailing_spaces(text@));
    while !done
        invariant
            n == text.len(),
            start <= n,
            !done ==> strip_trailing_spaces(text@) == out@ + strip_trailing_spaces(
                text@.skip(start as int),
            ),
            done ==> out@ == strip_trailing_spaces(text@),
        decreases (n - start) + (if done { 0int } else { 1int }),
    {
        let ghost rest = text@.skip(start as int);
        let mut k: usize = start;
        while k < n && text[k] != '\n'
            invariant
                n == text.len(),
                start <= k <= n,
                forall|j: int| start <= j < k ==> text@[j] != '\n',
            decreases n - k,
        {
            k += 1;
        }
        proof {
            assert forall|j: int| 0 <= j < k - start implies rest[j] != '\n' by {
                assert(rest[j] == text@[start + j]);
            }
            lemma_line_end_is(rest, k - start);
        }
        if k == n {
            extend_from(&mut out, text, start, n);
            proof {
                assert(text@.subrange(start as int, n as int) =~= rest);
            }
            done = true;
        } else {
            let mut t: usize = k;
            while t > start && text[t - 1] == ' '
                invariant
                    n == text.len(),
                    start <= t <= k < n,
                    forall|j: int| t <= j < k ==> text@[j] == ' ',
                decreases t,
            {
                t -= 1;
            }
            let ghost line = rest.take(k - start);
            proof {
                assert forall|j: int| t - start <= j < line.len() implies line[j] == ' ' by {
                    assert(line[j] == text@[start + j]);
                }
                if t > start {
                    assert(line[t - start - 1] == text@[t - 1]);
                }
                lemma_kept_len_is(line, t - start);
            }
            let ghost before = out@;
            if !(t == start && k > start) {
                extend_from(&mut out, text, start, t);
                out.push('\n');
                proof {
                    assert(text@.subrange(start as int, t as int) =~= line.take(t - start));
                }
            }
            proof {
                assert(out@ =~= before + tidy_line(line));
                assert(rest.skip(k - start + 1) =~= text@.skip(k + 1));
                assert(before + (tidy_line(line) + strip_trailing_spaces(text@.skip(k + 1)))
                    =~= (before + tidy_line(line)) + strip_trailing_spaces(text@.skip(k + 1)));
            }
            start = k + 1;
        }
    }
    out
}

/// Prepares the markdown of a page for display.
///
/// The result is the header line `URL: ` followed by `source_url` and a line
/// break, then `raw_markdown` with the spaces in front of line breaks
/// dropped and the lines of spaces alone removed.
pub fn normalize(raw_markdown: &str, source_url: &str) -> (text: String)
    ensures
        text@ == normalize_spec(raw_markdown@, source_url@),
{
    let chars = to_chars(raw_markdown);
    let cleaned = strip_chars(&chars);
    let body = from_chars(&cleaned, 0, cleaned.len());
    assert(cleaned@.subrange(0, cleaned.len() as int) =~= cleaned@);
    let text = String::from_str("URL: ").concat(source_url).concat("\n").concat(body.as_str());
    text
}

} // verus!
