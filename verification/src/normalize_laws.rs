//! What holds of the normalizer on every text.

use vstd::prelude::*;
use crate::normalize::{
    free_of_trailing_spaces, header_spec, kept_len, lemma_kept_len_is, lemma_line_end_is,
    line_end, normalize_spec, strip_trailing_spaces, tidy_line,
};

verus! {

/// `line_end` is the position of the first line break.
pub proof fn lemma_line_end_props(text: Seq<char>)
    ensures
        0 <= line_end(text) <= text.len(),
        forall|j: int| 0 <= j < line_end(text) ==> text[j] != '\n',
        line_end(text) < text.len() ==> text[line_end(text)] == '\n',
    decreases text.len(),
{
    if text.len() == 0 || text[0] == '\n' {
    } else {
        let tail = text.drop_first();
        lemma_line_end_props(tail);
        assert forall|j: int| 0 <= j < line_end(text) implies text[j] != '\n' by {
            if j > 0 {
                assert(text[j] == tail[j - 1]);
            }
        }
    }
}

/// `kept_len` is where the spaces at the end of the line begin.
pub proof fn lemma_kept_len_props(line: Seq<char>)
    ensures
        0 <= kept_len(line) <= line.len(),
        forall|j: int| kept_len(line) <= j < line.len() ==> line[j] == ' ',
        kept_len(line) > 0 ==> line[kept_len(line) - 1] != ' ',
    decreases line.len(),
{
    if line.len() > 0 && line.last() == ' ' {
        let front = line.drop_last();
        lemma_kept_len_props(front);
        assert forall|j: int| kept_len(line) <= j < line.len() implies line[j] == ' ' by {
            if j < front.len() {
                assert(line[j] == front[j]);
            }
        }
        if kept_len(line) > 0 {
            assert(line[kept_len(line) - 1] == front[kept_len(line) - 1]);
        }
    }
}

/// A text in which no space stands in front of a line break is left as it is.
pub proof fn lemma_strip_keeps_clean_text(text: Seq<char>)
    requires
        free_of_trailing_spaces(text),
    ensures
        strip_trailing_spaces(text) == text,
    decreases text.len(),
{
    lemma_line_end_props(text);
    let k = line_end(text);
    if 0 <= k < text.len() {
        let line = text.take(k);
        let rest = text.skip(k + 1);
        assert forall|i: int|
            0 <= i && i + 1 < rest.len() && rest[i] == ' ' implies #[trigger] rest[i + 1]
            != '\n' by {
            assert(text[(i + k + 1) + 1] != '\n');
        }
        lemma_strip_keeps_clean_text(rest);
        if k > 0 {
            assert(text[(k - 1) + 1] == '\n');
        }
        lemma_kept_len_is(line, k);
        assert(line.take(k) =~= line);
        assert(line.push('\n') + rest =~= text);
    }
}

/// Tidying leaves no space in front of a line break.
pub proof fn lemma_strip_is_clean(text: Seq<char>)
    ensures
        free_of_trailing_spaces(strip_trailing_spaces(text)),
    decreases text.len(),
{
    lemma_line_end_props(text);
    let k = line_end(text);
    if 0 <= k < text.len() {
        let line = text.take(k);
        let rest = text.skip(k + 1);
        lemma_strip_is_clean(rest);
        lemma_kept_len_props(line);
        let kept = kept_len(line);
        let a = tidy_line(line);
        let z = strip_trailing_spaces(rest);
        let whole = a + z;
        assert forall|i: int|
            0 <= i && i + 1 < whole.len() && whole[i] == ' ' implies #[trigger] whole[i + 1]
            != '\n' by {
            if i >= a.len() {
                assert(whole[i] == z[i - a.len()]);
                assert(whole[i + 1] == z[(i - a.len()) + 1]);
            } else {
                assert(a == line.take(kept).push('\n'));
                assert(whole[i] == a[i]);
                if i + 1 < kept {
                    assert(whole[i + 1] == text[i + 1]);
                } else if i + 1 == kept {
                    assert(a[i] == line[kept - 1]);
                }
            }
        }
    }
}

/// The texts with no space in front of a line break are exactly the texts
/// that tidying leaves as they are.
pub proof fn lemma_clean_iff_unchanged(text: Seq<char>)
    ensures
        free_of_trailing_spaces(text) <==> strip_trailing_spaces(text) == text,
{
    if free_of_trailing_spaces(text) {
        lemma_strip_keeps_clean_text(text);
    }
    lemma_strip_is_clean(text);
}

/// Tidying is idempotent: a text that was tidied once is left as it is.
pub proof fn lemma_strip_idempotent(text: Seq<char>)
    ensures
        strip_trailing_spaces(strip_trailing_spaces(text)) == strip_trailing_spaces(text),
{
    lemma_strip_is_clean(text);
    lemma_strip_keeps_clean_text(strip_trailing_spaces(text));
}

/// Tidying a text that follows a line break does not depend on what stands
/// in front of that break.
pub proof fn lemma_strip_concat(front: Seq<char>, back: Seq<char>)
    requires
        front.len() > 0,
        front.last() == '\n',
    ensures
        strip_trailing_spaces(front + back) == strip_trailing_spaces(front)
            + strip_trailing_spaces(back),
    decreases front.len(),
{
    let whole = front + back;
    lemma_line_end_props(front);
    let k = line_end(front);
    assert forall|j: int| 0 <= j < k implies whole[j] != '\n' by {
        assert(whole[j] == front[j]);
    }
    assert(whole[k] == front[k]);
    lemma_line_end_is(whole, k);
    assert(whole.take(k) =~= front.take(k));
    let first = tidy_line(front.take(k));
    let front_rest = front.skip(k + 1);
    let tidy_back = strip_trailing_spaces(back);
    assert(whole.skip(k + 1) =~= front_rest + back);
    if front_rest.len() > 0 {
        assert(front_rest.last() == front.last());
        lemma_strip_concat(front_rest, back);
        let tidy_rest = strip_trailing_spaces(front_rest);
        assert(first + (tidy_rest + tidy_back) =~= (first + tidy_rest) + tidy_back);
    } else {
        assert(front_rest + back =~= back);
        assert(strip_trailing_spaces(front_rest) =~= Seq::<char>::empty());
        assert(first + tidy_back =~= (first + Seq::<char>::empty()) + tidy_back);
    }
}

/// The normalizer on tidy input: a markdown text in which no space stands in
/// front of a line break comes back unchanged behind the header line.
pub proof fn lemma_normalize_keeps_clean_text(raw_markdown: Seq<char>, source_url: Seq<char>)
    requires
        free_of_trailing_spaces(raw_markdown),
    ensures
        normalize_spec(raw_markdown, source_url) == header_spec(source_url) + raw_markdown,
{
    lemma_strip_keeps_clean_text(raw_markdown);
}

/// Normalizing is idempotent on the markdown: markdown that was tidied
/// once, normalized for the same page, gives the same text again.
pub proof fn lemma_normalize_idempotent_on_markdown(
    raw_markdown: Seq<char>,
    source_url: Seq<char>,
)
    ensures
        normalize_spec(strip_trailing_spaces(raw_markdown), source_url) == normalize_spec(
            raw_markdown,
            source_url,
        ),
{
    lemma_strip_idempotent(raw_markdown);
}

/// Normalizing the whole result a second time puts a second header line in
/// front of it and changes nothing else, as long as the header line itself
/// holds no space in front of a line break.
pub proof fn lemma_normalize_twice(raw_markdown: Seq<char>, source_url: Seq<char>)
    requires
        free_of_trailing_spaces(header_spec(source_url)),
    ensures
        normalize_spec(normalize_spec(raw_markdown, source_url), source_url) == header_spec(
            source_url,
        ) + normalize_spec(raw_markdown, source_url),
{
    reveal_strlit("\n");
    let header = header_spec(source_url);
    assert(header.last() == '\n');
    lemma_strip_idempotent(raw_markdown);
    lemma_strip_concat(header, strip_trailing_spaces(raw_markdown));
    lemma_strip_keeps_clean_text(header);
}

} // verus!
