//! Tests for the line wrapper: natural wrapping, truncation with the ellipsis
//! marker, width compliance, and the edge cases.

use og_image::wrap::wrap_text;

fn owned(lines: &[&str]) -> Vec<String> {
    lines.iter().map(|s| s.to_string()).collect()
}

#[test]
fn short_text_wraps_plainly() {
    // Natural line count is within the budget: the plain word-wrap result,
    // no ellipsis anywhere.
    let lines = wrap_text("Memory safety without garbage collection.", 15, 3);
    assert_eq!(lines, owned(&["Memory safety", "without garbage", "collection."]));
    for line in &lines {
        assert!(!line.ends_with("..."));
    }
}

#[test]
fn single_line_fits() {
    let lines = wrap_text("hello world", 33, 3);
    assert_eq!(lines, owned(&["hello world"]));
}

#[test]
fn truncation_replaces_last_line() {
    // Natural wrapping gives three lines; the budget is two; the second kept
    // line "without garbage" (15 columns) cannot fit together with the
    // ellipsis, so it is cut to the first 12 characters.
    let lines = wrap_text("Memory safety without garbage collection.", 15, 2);
    assert_eq!(lines, owned(&["Memory safety", "without garb..."]));
}

#[test]
fn truncation_keeps_whole_line_when_it_fits() {
    // One word per line; the last kept line "b" fits with the ellipsis.
    let lines = wrap_text("aaaaa b ccccc ddddd", 5, 2);
    assert_eq!(lines.len(), 2);
    assert_eq!(lines[0], "aaaaa");
    assert_eq!(lines[1], "b...");
}

#[test]
fn truncation_exact_line_count_and_marker() {
    let lines = wrap_text("aaaa bbbb cccc dddd", 4, 2);
    assert_eq!(lines, owned(&["aaaa", "b..."]));
}

#[test]
fn empty_text_gives_no_lines() {
    let lines = wrap_text("", 10, 3);
    assert!(lines.is_empty());
}

#[test]
fn long_word_overflows_instead_of_splitting() {
    // A single word longer than the width occupies its own overflowing line.
    let lines = wrap_text("abcdefghij", 3, 5);
    assert_eq!(lines, owned(&["abcdefghij"]));
}

#[test]
fn narrow_width_clamps_truncation_prefix() {
    // With a width budget below the ellipsis length the kept prefix is empty.
    let lines = wrap_text("aa bb cc", 2, 2);
    assert_eq!(lines, owned(&["aa", "..."]));
}

#[test]
fn produced_lines_respect_width() {
    // Width monotonicity on ASCII text whose words all fit the budget: every
    // produced line's display width stays within the requested maximum.
    let text = "The quick brown fox jumps over the lazy dog again and again";
    for max_lines in [1usize, 2, 3, 10] {
        let lines = wrap_text(text, 10, max_lines);
        assert!(lines.len() <= max_lines);
        for line in &lines {
            assert!(textwrap::core::display_width(line) <= 10);
        }
    }
}

#[test]
fn wrapping_is_greedy_first_fit() {
    // Greedy packing accumulates words until the next one no longer fits; it
    // never shortens an earlier line to even out the margin.
    let lines = wrap_text("To be, or not to be: that is the question", 10, 10);
    assert_eq!(lines, owned(&["To be, or", "not to be:", "that is", "the", "question"]));
}

#[test]
fn no_overflow_when_every_word_fits() {
    // A short word followed by one that exactly fills the budget: greedy
    // packing breaks between them rather than overflowing the first line.
    let long_word = "x".repeat(50);
    let text = format!("foo {long_word}");
    let lines = wrap_text(&text, 53, 10);
    assert_eq!(lines, owned(&["foo", &long_word]));
    for line in &lines {
        assert!(textwrap::core::display_width(line) <= 53);
    }
}

#[test]
fn words_are_space_delimited_even_before_punctuation() {
    // A lone punctuation word after a space is a word of its own: the break
    // before it is taken when the budget demands it, so every line fits.
    let lines = wrap_text("foo !", 3, 5);
    assert_eq!(lines, owned(&["foo", "!"]));
    for line in &lines {
        assert!(textwrap::core::display_width(line) <= 3);
    }
}

#[test]
fn hyphenated_words_are_never_split() {
    let lines = wrap_text("foo bar-baz", 8, 5);
    assert_eq!(lines, owned(&["foo", "bar-baz"]));
}

#[test]
fn single_separator_free_word_is_kept_whole() {
    let lines = wrap_text("bar-baz/qux,quux!", 4, 5);
    assert_eq!(lines, owned(&["bar-baz/qux,quux!"]));
}

#[test]
fn wrapping_preserves_words_in_order() {
    let text = "alpha beta  gamma\ndelta epsilon zeta eta theta";
    let lines = wrap_text(text, 13, 20);
    let rejoined: Vec<&str> = lines.iter().flat_map(|l| l.split(' ')).filter(|w| !w.is_empty()).collect();
    let original: Vec<&str> = text.split([' ', '\n']).filter(|w| !w.is_empty()).collect();
    assert_eq!(rejoined, original);
}

#[test]
fn wrapping_counts_display_width_not_bytes() {
    // Accented characters take several bytes but one display column each.
    let lines = wrap_text("héllo wörld", 6, 5);
    assert_eq!(lines, owned(&["héllo", "wörld"]));
}

#[test]
fn truncated_output_respects_width() {
    let lines = wrap_text("Memory safety without garbage collection.", 15, 2);
    for line in &lines {
        assert!(textwrap::core::display_width(line) <= 15);
    }
}
