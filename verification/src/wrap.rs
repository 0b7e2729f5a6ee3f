//! Line wrapping with a maximum line count.
//!
//! Text is wrapped at word boundaries by the `textwrap` engine, packing words
//! greedily (first-fit) with word breaking disabled, so a single word longer
//! than the width budget overflows its own line rather than being hard-split.
//! If the natural wrapping
//! produces more lines than allowed, the output is cut to the maximum and the
//! last kept line is replaced by a trimmed prefix plus a three-dot ellipsis.
#![allow(unused_imports)]
use vstd::prelude::*;
use vstd::string::StrSliceExecFns;
use vstd::string::StringExecFns;

verus! {

/// The lines that `textwrap::wrap` (ASCII-space word separation, hyphenation
/// disabled, word breaking disabled, greedy first-fit) produces for a text at
/// a display-width budget. The engine's exact behaviour is not restated here;
/// it is a pure function of its two arguments.
pub uninterp spec fn wrapped_lines(text: Seq<char>, width: int) -> Seq<Seq<char>>;

/// A printable ASCII character; for these, one character is one column of
/// display width.
pub open spec fn ascii_printable_char(c: char) -> bool {
    ' ' <= c <= '~'
}

pub open spec fn ascii_printable_text(s: Seq<char>) -> bool {
    forall|i: int| 0 <= i < s.len() ==> ascii_printable_char(#[trigger] s[i])
}

/// Some position of `s` within `width + 1` places starting at `a` holds a
/// space.
pub open spec fn window_has_space(s: Seq<char>, a: int, width: int) -> bool {
    exists|k: int| a <= k <= a + width && #[trigger] s[k] == ' '
}

/// Every space-free run of `s` spans at most `width` characters: every window
/// of `width + 1` characters contains a space. Under this premise the
/// wrapping engine never needs to place an over-long word on a line.
pub open spec fn space_free_runs_fit(s: Seq<char>, width: int) -> bool {
    forall|a: int| 0 <= a && a + width < s.len() ==> #[trigger] window_has_space(s, a, width)
}

/// A character at which the wrapping engine separates text: the ASCII space
/// between words, and the line ending.
pub open spec fn is_word_separator(c: char) -> bool {
    c == ' ' || c == '\n' || c == '\r'
}

/// A non-empty text with no separator in it: the engine treats it as one
/// unbreakable word.
pub open spec fn unbreakable_token(s: Seq<char>) -> bool {
    s.len() > 0 && forall|i: int| 0 <= i < s.len() ==> !is_word_separator(#[trigger] s[i])
}

/// The separator-delimited words of a text, in order.
pub open spec fn words_of(s: Seq<char>) -> Seq<Seq<char>>
    decreases s.len(),
{
    if s.len() == 0 {
        Seq::empty()
    } else if is_word_separator(s.first()) {
        words_of(s.drop_first())
    } else {
        let rest = words_of(s.drop_first());
        if s.len() == 1 || is_word_separator(s[1]) {
            seq![seq![s.first()]] + rest
        } else {
            seq![seq![s.first()] + rest.first()] + rest.drop_first()
        }
    }
}

/// All words of a sequence of lines, in order.
pub open spec fn words_of_lines(lines: Seq<Seq<char>>) -> Seq<Seq<char>>
    decreases lines.len(),
{
    if lines.len() == 0 {
        Seq::empty()
    } else {
        words_of(lines.first()) + words_of_lines(lines.drop_first())
    }
}

/// Relies on `textwrap::wrap` called with `Options::new(width)`, the ASCII
/// space word separator, hyphenation disabled, word breaking disabled and the
/// greedy first-fit algorithm: it splits each line-ending-delimited segment
/// into words on runs of `' '` alone, never splits a word (not even at a
/// hyphen; only a single over-wide word overflows its own line), packs the
/// words first-fit, starting a new line as soon as the next word would not
/// fit, drops only separator characters (line endings, inter-word and
/// trailing spaces), and returns slices of the input. The clauses state, in
/// order: the result is a pure function of the arguments; when the text is
/// printable ASCII (one column per character) and every space-free run fits
/// the budget, no word can overflow and each line fits the budget; each line
/// is a contiguous subrange of the text; a single separator-free word is
/// returned as the one line, whole; and the words of the lines are exactly
/// the words of the text, in order.
#[verifier::external_body]
fn textwrap_wrap(text: &str, width: usize) -> (r: Vec<String>)
    ensures
        r.deep_view() == wrapped_lines(text@, width as int),
        (ascii_printable_text(text@) && space_free_runs_fit(text@, width as int)) ==> forall|
            i: int,
        | 0 <= i < r@.len() ==> (#[trigger] r@[i])@.len() <= width as int,
        forall|i: int|
            0 <= i < r@.len() ==> exists|a: int, b: int|
                0 <= a <= b <= text@.len() && (#[trigger] r@[i])@ == text@.subrange(a, b),
        unbreakable_token(text@) ==> r.deep_view() == seq![text@],
        words_of_lines(r.deep_view()) == words_of(text@),
{
    let options = textwrap::Options::new(width)
        .word_separator(textwrap::WordSeparator::AsciiSpace)
        .word_splitter(textwrap::WordSplitter::NoHyphenation)
        .break_words(false)
        .wrap_algorithm(textwrap::WrapAlgorithm::FirstFit);
    textwrap::wrap(text, options).into_iter().map(|line| line.into_owned()).collect()
}

/// Whitespace removed from the end of a kept line before the ellipsis is
/// attached.
pub open spec fn is_trim_char(c: char) -> bool {
    c == ' ' || c == '\t' || c == '\n' || c == '\r'
}

/// `s` with trailing whitespace removed.
pub open spec fn trimmed_end(s: Seq<char>) -> Seq<char>
    decreases s.len(),
{
    if s.len() == 0 {
        s
    } else if is_trim_char(s.last()) {
        trimmed_end(s.drop_last())
    } else {
        s
    }
}

/// The three-character ellipsis marker.
pub open spec fn ellipsis() -> Seq<char> {
    seq!['.', '.', '.']
}

/// The replacement for the last kept line when truncation triggers: the line
/// is right-trimmed; if it would not fit together with the ellipsis, it is cut
/// to the first `width - 3` characters (zero when `width < 3`); the ellipsis
/// is appended.
pub open spec fn truncated_last(line: Seq<char>, width: int) -> Seq<char> {
    let t = trimmed_end(line);
    let keep = if width >= 3 {
        width - 3
    } else {
        0
    };
    if t.len() + 3 > width {
        t.take(keep) + ellipsis()
    } else {
        t + ellipsis()
    }
}

/// The wrapped and truncated block for a text: empty text gives no lines;
/// otherwise the natural wrapping is kept whole if it fits the line budget,
/// and cut to exactly `max_lines` lines ending in an ellipsis otherwise.
pub open spec fn wrap_model(text: Seq<char>, width: int, max_lines: int) -> Seq<Seq<char>> {
    if text.len() == 0 {
        Seq::empty()
    } else {
        let natural = wrapped_lines(text, width);
        if natural.len() <= max_lines {
            natural
        } else {
            natural.subrange(0, max_lines - 1).push(
                truncated_last(natural[max_lines - 1], width),
            )
        }
    }
}

proof fn lemma_trimmed_end_len(s: Seq<char>)
    ensures
        trimmed_end(s).len() <= s.len(),
    decreases s.len(),
{
    if s.len() > 0 && is_trim_char(s.last()) {
        lemma_trimmed_end_len(s.drop_last());
    }
}

/// Right-trim ASCII whitespace.
fn trim_end(s: &str) -> (r: String)
    ensures
        r@ == trimmed_end(s@),
{
    let n = s.unicode_len();
    let mut end: usize = 0;
    proof {
        assert(s@.take(0) =~= Seq::<char>::empty());
    }
    for i in 0..n
        invariant
            n == s@.len(),
            end <= i,
            trimmed_end(s@.take(i as int)) == s@.take(end as int),
    {
        let c = s.get_char(i);
        proof {
            assert(s@.take(i + 1).drop_last() =~= s@.take(i as int));
            assert(s@.take(i + 1).last() == s@[i as int]);
        }
        if !(c == ' ' || c == '\t' || c == '\n' || c == '\r') {
            end = i + 1;
        }
    }
    proof {
        assert(s@.take(n as int) =~= s@);
    }
    s.substring_char(0, end).to_owned()
}

/// Replace a kept line by its truncated form with the ellipsis marker.
fn truncate_line(line: &str, max_width: usize) -> (r: String)
    ensures
        r@ == truncated_last(line@, max_width as int),
{
    let t = trim_end(line);
    let tlen = t.as_str().unicode_len();
    proof {
        reveal_strlit("...");
        assert("..."@ =~= ellipsis());
    }
    let mut r: String;
    if max_width < 3 || tlen > max_width - 3 {
        let keep = if max_width >= 3 {
            max_width - 3
        } else {
            0
        };
        r = t.as_str().substring_char(0, keep).to_owned();
    } else {
        r = t;
    }
    r.append("...");
    r
}

proof fn lemma_truncated_last_len(line: Seq<char>, width: int)
    requires
        width >= 3,
    ensures
        truncated_last(line, width).len() <= width,
{
    lemma_trimmed_end_len(line);
}

/// Wrap `text` at word boundaries into lines of at most `max_width` display
/// columns, keeping at most `max_lines` lines; when the natural wrapping is
/// longer, the last kept line is replaced by a trimmed prefix plus `"..."`.
/// The third clause is the width bound: for printable-ASCII text whose
/// space-free runs fit the budget, every produced line fits the budget. The
/// fourth is the unbreakable-word law: a single separator-free word is
/// returned as its own (possibly overflowing) line, never hard-split. The
/// fifth is word preservation: when no truncation triggers, the words of the
/// result are exactly the words of the text, in order.
pub fn wrap_text(text: &str, max_width: usize, max_lines: usize) -> (r: Vec<String>)
    requires
        max_width >= 1,
        max_lines >= 1,
    ensures
        r.deep_view() == wrap_model(text@, max_width as int, max_lines as int),
        r@.len() <= max_lines,
        (ascii_printable_text(text@) && space_free_runs_fit(text@, max_width as int) && max_width
            >= 3) ==> forall|i: int|
            0 <= i < r@.len() ==> (#[trigger] r@[i])@.len() <= max_width as int,
        unbreakable_token(text@) ==> r.deep_view() == seq![text@],
        wrapped_lines(text@, max_width as int).len() <= max_lines as int ==> words_of_lines(
            r.deep_view(),
        ) == words_of(text@),
{
    if text.is_empty() {
        let r: Vec<String> = Vec::new();
        proof {
            assert(r.deep_view() =~= Seq::<Seq<char>>::empty());
        }
        return r;
    }
    let mut lines = textwrap_wrap(text, max_width);
    let ghost natural = wrapped_lines(text@, max_width as int);
    proof {
        if natural.len() <= max_lines as int {
            lemma_wrap_idempotence(text@, max_width as int, max_lines as int);
        } else {
            lemma_wrap_truncation(text@, max_width as int, max_lines as int);
        }
    }
    let ghost first = lines;
    proof {
        assert forall|i: int| 0 <= i < natural.len() implies first@[i]@ == natural[i] by {
            assert(first.deep_view()[i] == first@[i].deep_view());
        }
    }
    if lines.len() > max_lines {
        lines.truncate(max_lines);
        let last = truncate_line(lines[max_lines - 1].as_str(), max_width);
        lines.set(max_lines - 1, last);
        proof {
            let model = wrap_model(text@, max_width as int, max_lines as int);
            assert(lines@.len() == max_lines);
            assert forall|i: int| 0 <= i < max_lines as int implies lines.deep_view()[i]
                == model[i] by {
                assert(lines.deep_view()[i] == lines@[i].deep_view());
                if i < max_lines as int - 1 {
                    assert(lines@[i] == first@[i]);
                }
            }
            assert(lines.deep_view() =~= model);
            if max_width >= 3 {
                lemma_truncated_last_len(natural[max_lines - 1], max_width as int);
            }
        }
    }
    lines
}

/// Law: wrapping is the plain word-wrap when the natural line count fits the
/// budget — no truncation and no ellipsis. (Stated for non-empty text: empty
/// text produces no lines at all.)
pub proof fn lemma_wrap_idempotence(text: Seq<char>, width: int, max_lines: int)
    requires
        text.len() > 0,
        wrapped_lines(text, width).len() <= max_lines,
    ensures
        wrap_model(text, width, max_lines) == wrapped_lines(text, width),
{
}

/// A sequence of characters ends with the three-dot ellipsis marker.
pub open spec fn ends_with_ellipsis(s: Seq<char>) -> bool {
    s.len() >= 3 && s.subrange(s.len() - 3, s.len() as int) == ellipsis()
}

/// Law: when the natural wrapping exceeds the line budget, the result has
/// exactly `max_lines` lines, the last of which ends with `"..."` and, for
/// budgets of at least three columns, spans at most `max_width` characters.
pub proof fn lemma_wrap_truncation(text: Seq<char>, width: int, max_lines: int)
    requires
        text.len() > 0,
        max_lines >= 1,
        wrapped_lines(text, width).len() > max_lines,
    ensures
        wrap_model(text, width, max_lines).len() == max_lines,
        ends_with_ellipsis(wrap_model(text, width, max_lines).last()),
        width >= 3 ==> wrap_model(text, width, max_lines).last().len() <= width,
{
    let natural = wrapped_lines(text, width);
    let last = truncated_last(natural[max_lines - 1], width);
    assert(wrap_model(text, width, max_lines).last() == last);
    assert(last.subrange(last.len() - 3, last.len() as int) =~= ellipsis());
    if width >= 3 {
        lemma_truncated_last_len(natural[max_lines - 1], width);
    }
}

/// Law: a larger line budget never yields fewer lines — the line count of the
/// wrapped block is monotone in `max_lines`.
pub proof fn lemma_line_budget_monotone(text: Seq<char>, width: int, m1: int, m2: int)
    requires
        1 <= m1 <= m2,
    ensures
        wrap_model(text, width, m1).len() <= wrap_model(text, width, m2).len(),
        wrap_model(text, width, m1).len() <= m1,
{
}

} // verus!
