//! Tests for the markup composer: substitution, escaping, and the shared line
//! budget between the post title and the post description.

use og_image::compose::generate_svg;
use og_image::compose::MAX_TOTAL_LINES;

const TITLE_TSPAN: &str = "<tspan x=\"60\" dy=\"64\">";
const DESC_TSPAN: &str = "<tspan x=\"60\" dy=\"44\">";

fn count_occurrences(haystack: &str, needle: &str) -> usize {
    haystack.matches(needle).count()
}

#[test]
fn document_contains_fixed_frame_and_texts() {
    let doc = generate_svg("Example Site", "A Short Title", "A short description.");
    assert!(doc.starts_with("<svg "));
    assert!(doc.ends_with("</svg>"));
    assert!(doc.contains("width=\"1200\" height=\"630\""));
    assert!(doc.contains("devil.svg"));
    assert!(doc.contains("Noto Sans"));
    assert!(doc.contains("Example Site"));
    assert!(doc.contains("A Short Title"));
    assert!(doc.contains("A short description."));
    // Short inputs: one title line and one description line.
    assert_eq!(count_occurrences(&doc, TITLE_TSPAN), 1);
    assert_eq!(count_occurrences(&doc, DESC_TSPAN), 1);
}

#[test]
fn dynamic_text_is_escaped() {
    let doc = generate_svg("A&B <i>\"q\"", "it's", "1 > 0");
    assert!(doc.contains("A&amp;B &lt;i&gt;&quot;q&quot;"));
    assert!(doc.contains("it&#x27;s"));
    assert!(doc.contains("1 &gt; 0"));
    assert!(!doc.contains("A&B"));
}

#[test]
fn empty_inputs_compose() {
    let doc = generate_svg("", "", "");
    assert!(doc.starts_with("<svg "));
    assert_eq!(count_occurrences(&doc, TITLE_TSPAN), 0);
    assert_eq!(count_occurrences(&doc, DESC_TSPAN), 0);
}

#[test]
fn title_cap_is_three_lines_with_ellipsis() {
    // A title that would wrap far past the three-line cap: exactly three
    // title lines, the last of which ends with the ellipsis marker.
    let title = "abcdefghijklmnopqrstuvwxyzabcdefg ".repeat(6);
    let doc = generate_svg("site", &title, "desc");
    assert_eq!(count_occurrences(&doc, TITLE_TSPAN), 3);
    let last_title = doc
        .split(TITLE_TSPAN)
        .nth(3)
        .unwrap()
        .split("</tspan>")
        .next()
        .unwrap();
    assert!(last_title.ends_with("..."));
}

#[test]
fn description_budget_shrinks_with_title_length() {
    // One word of exactly the description width per line, far more lines than
    // the budget allows: the description fills whatever the title left over.
    let desc_word = "a".repeat(34);
    let desc = vec![desc_word; 20].join(" ");

    let doc_short_title = generate_svg("site", "short", &desc);
    let short_title_lines = count_occurrences(&doc_short_title, TITLE_TSPAN);
    let short_desc_lines = count_occurrences(&doc_short_title, DESC_TSPAN);

    let long_title = "abcdefghijklmnopqrstuvwxyzabcdefg ".repeat(6);
    let doc_long_title = generate_svg("site", &long_title, &desc);
    let long_title_lines = count_occurrences(&doc_long_title, TITLE_TSPAN);
    let long_desc_lines = count_occurrences(&doc_long_title, DESC_TSPAN);

    assert_eq!(short_title_lines, 1);
    assert_eq!(long_title_lines, 3);
    // More title lines never means more description lines.
    assert!(long_desc_lines <= short_desc_lines);
    // The shared total is never exceeded, and here it is fully used.
    assert_eq!(short_desc_lines, MAX_TOTAL_LINES - 1);
    assert_eq!(long_desc_lines, MAX_TOTAL_LINES - 3);
    assert!(short_title_lines + short_desc_lines <= MAX_TOTAL_LINES);
    assert!(long_title_lines + long_desc_lines <= MAX_TOTAL_LINES);
}
