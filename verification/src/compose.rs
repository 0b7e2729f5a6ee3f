//! Markup composition: substitutes the site title and the wrapped post title
//! and description into a fixed vector-markup template.
//!
//! The template describes a fixed 1200 x 630 canvas with a decorative image
//! referenced by logical name and an embedded font family referenced by name.
//! All dynamic text is XML-escaped before substitution.
#![allow(unused_imports)]
use vstd::prelude::*;
use vstd::string::StrSliceExecFns;
use vstd::string::StringExecFns;

use crate::wrap::wrap_model;
use crate::wrap::wrap_text;
use crate::wrap::lemma_line_budget_monotone;

verus! {

/// Display-width budget for post-title lines, tuned to the template's title
/// font size and text area.
pub const POST_TITLE_WIDTH: usize = 33;

/// Display-width budget for post-description lines.
pub const POST_DESCRIPTION_WIDTH: usize = 34;

/// Maximum number of post-title lines.
pub const MAX_POST_TITLE_LINES: usize = 3;

/// Maximum total number of text lines shared between the post title and the
/// post description.
pub const MAX_TOTAL_LINES: usize = 13;

/// The XML escape of one character.
pub open spec fn escaped_char(c: char) -> Seq<char> {
    if c == '&' {
        "&amp;"@
    } else if c == '<' {
        "&lt;"@
    } else if c == '>' {
        "&gt;"@
    } else if c == '"' {
        "&quot;"@
    } else if c == '\'' {
        "&#x27;"@
    } else {
        seq![c]
    }
}

/// The XML escape of a text.
pub open spec fn escaped(s: Seq<char>) -> Seq<char>
    decreases s.len(),
{
    if s.len() == 0 {
        Seq::empty()
    } else {
        escaped(s.drop_last()) + escaped_char(s.last())
    }
}

/// Relies on `String::push` of std: appends exactly one character.
#[verifier::external_body]
fn push_char(out: &mut String, c: char)
    ensures
        final(out)@ == old(out)@.push(c),
{
    out.push(c);
}

/// Append the XML escape of `s` to `out`.
fn append_escaped(out: &mut String, s: &str)
    ensures
        final(out)@ == old(out)@ + escaped(s@),
{
    let n = s.unicode_len();
    proof {
        assert(s@.take(0) =~= Seq::<char>::empty());
        assert(out@ =~= out@ + escaped(s@.take(0)));
    }
    for i in 0..n
        invariant
            n == s@.len(),
            out@ == old(out)@ + escaped(s@.take(i as int)),
    {
        let c = s.get_char(i);
        proof {
            assert(s@.take(i + 1).drop_last() =~= s@.take(i as int));
            assert(s@.take(i + 1).last() == s@[i as int]);
        }
        if c == '&' {
            out.append("&amp;");
        } else if c == '<' {
            out.append("&lt;");
        } else if c == '>' {
            out.append("&gt;");
        } else if c == '"' {
            out.append("&quot;");
        } else if c == '\'' {
            out.append("&#x27;");
        } else {
            push_char(out, c);
            proof {
                assert(escaped_char(c) =~= seq![c]);
                assert(out@ =~= old(out)@ + escaped(s@.take(i + 1)));
            }
        }
    }
    proof {
        assert(s@.take(n as int) =~= s@);
    }
}

/// One text block rendered as a run of `tspan` elements: each line is escaped
/// and placed between the block's fixed opening tag and the closing tag.
pub open spec fn tspan_block(lines: Seq<Seq<char>>, open_tag: Seq<char>) -> Seq<char>
    decreases lines.len(),
{
    if lines.len() == 0 {
        Seq::empty()
    } else {
        tspan_block(lines.drop_last(), open_tag) + open_tag + escaped(lines.last())
            + "</tspan>"@
    }
}

/// Append a run of `tspan` elements, one per line.
fn append_tspans(out: &mut String, lines: &Vec<String>, open_tag: &str)
    ensures
        final(out)@ == old(out)@ + tspan_block(lines.deep_view(), open_tag@),
{
    let n = lines.len();
    proof {
        assert(lines.deep_view().take(0) =~= Seq::<Seq<char>>::empty());
        assert(out@ =~= out@ + tspan_block(lines.deep_view().take(0), open_tag@));
    }
    for i in 0..n
        invariant
            n == lines@.len(),
            out@ == old(out)@ + tspan_block(lines.deep_view().take(i as int), open_tag@),
    {
        out.append(open_tag);
        append_escaped(out, lines[i].as_str());
        out.append("</tspan>");
        proof {
            let dv = lines.deep_view();
            assert(dv.take(i + 1).drop_last() =~= dv.take(i as int));
            assert(dv.take(i + 1).last() == lines@[i as int]@);
            assert(out@ =~= old(out)@ + tspan_block(dv.take(i + 1), open_tag@));
        }
    }
    proof {
        assert(lines.deep_view().take(n as int) =~= lines.deep_view());
    }
}

/// The wrapped post-title block.
pub open spec fn spec_title_lines(post_title: Seq<char>) -> Seq<Seq<char>> {
    wrap_model(post_title, POST_TITLE_WIDTH as int, MAX_POST_TITLE_LINES as int)
}

/// The wrapped post-description block: its line budget is what the title left
/// over from the shared total.
pub open spec fn spec_desc_lines(post_title: Seq<char>, post_description: Seq<char>) -> Seq<
    Seq<char>,
> {
    wrap_model(
        post_description,
        POST_DESCRIPTION_WIDTH as int,
        MAX_TOTAL_LINES as int - spec_title_lines(post_title).len(),
    )
}

/// The complete markup document for the given site title and wrapped blocks:
/// a fixed canvas with a background, the decorative image reference, the site
/// title, and the two `tspan` runs.
pub open spec fn svg_document(
    site: Seq<char>,
    title_lines: Seq<Seq<char>>,
    desc_lines: Seq<Seq<char>>,
) -> Seq<char> {
    "<svg xmlns=\"http://www.w3.org/2000/svg\" xmlns:xlink=\"http://www.w3.org/1999/xlink\" width=\"1200\" height=\"630\" viewBox=\"0 0 1200 630\">"@
        + "<rect width=\"1200\" height=\"630\" fill=\"#1b1f2a\"/>"@
        + "<image xlink:href=\"devil.svg\" x=\"940\" y=\"370\" width=\"200\" height=\"200\"/>"@
        + "<text x=\"60\" y=\"80\" font-family=\"Noto Sans\" font-size=\"30\" fill=\"#9aa4b2\">"@
        + escaped(site) + "</text>"@
        + "<text x=\"60\" y=\"110\" font-family=\"Noto Sans\" font-size=\"52\" font-weight=\"bold\" fill=\"#ffffff\">"@
        + tspan_block(title_lines, "<tspan x=\"60\" dy=\"64\">"@) + "</text>"@
        + "<text x=\"60\" y=\"330\" font-family=\"Noto Sans\" font-size=\"34\" fill=\"#c5ccd6\">"@
        + tspan_block(desc_lines, "<tspan x=\"60\" dy=\"44\">"@) + "</text>"@ + "</svg>"@
}

/// Compose the markup document for a title card. Wraps the post title to its
/// own budget, gives the description the lines the title left over, escapes
/// everything and substitutes it into the fixed template. Total over its
/// inputs: composition cannot fail.
pub fn generate_svg(site_title: &str, post_title: &str, post_description: &str) -> (r: String)
    ensures
        r@ == svg_document(
            site_title@,
            spec_title_lines(post_title@),
            spec_desc_lines(post_title@, post_description@),
        ),
{
    let title_lines = wrap_text(post_title, POST_TITLE_WIDTH, MAX_POST_TITLE_LINES);
    proof {
        lemma_description_budget(post_title@, post_title@, post_description@);
    }
    let desc_lines = wrap_text(
        post_description,
        POST_DESCRIPTION_WIDTH,
        MAX_TOTAL_LINES - title_lines.len(),
    );
    let mut out = String::new();
    out.append(
        "<svg xmlns=\"http://www.w3.org/2000/svg\" xmlns:xlink=\"http://www.w3.org/1999/xlink\" width=\"1200\" height=\"630\" viewBox=\"0 0 1200 630\">",
    );
    out.append("<rect width=\"1200\" height=\"630\" fill=\"#1b1f2a\"/>");
    out.append(
        "<image xlink:href=\"devil.svg\" x=\"940\" y=\"370\" width=\"200\" height=\"200\"/>",
    );
    out.append("<text x=\"60\" y=\"80\" font-family=\"Noto Sans\" font-size=\"30\" fill=\"#9aa4b2\">");
    append_escaped(&mut out, site_title);
    out.append("</text>");
    out.append(
        "<text x=\"60\" y=\"110\" font-family=\"Noto Sans\" font-size=\"52\" font-weight=\"bold\" fill=\"#ffffff\">",
    );
    append_tspans(&mut out, &title_lines, "<tspan x=\"60\" dy=\"64\">");
    out.append("</text>");
    out.append("<text x=\"60\" y=\"330\" font-family=\"Noto Sans\" font-size=\"34\" fill=\"#c5ccd6\">");
    append_tspans(&mut out, &desc_lines, "<tspan x=\"60\" dy=\"44\">");
    out.append("</text>");
    out.append("</svg>");
    proof {
        assert(title_lines.deep_view() == spec_title_lines(post_title@));
        assert(desc_lines.deep_view() == spec_desc_lines(post_title@, post_description@));
        assert(out@ =~= svg_document(
            site_title@,
            spec_title_lines(post_title@),
            spec_desc_lines(post_title@, post_description@),
        ));
    }
    out
}

/// Law: with a fixed description, a post title that consumes at least as many
/// lines never yields more description lines, and the title and description
/// lines together never exceed the shared total budget.
pub proof fn lemma_description_budget(
    post_title1: Seq<char>,
    post_title2: Seq<char>,
    desc: Seq<char>,
)
    requires
        spec_title_lines(post_title1).len() <= spec_title_lines(post_title2).len(),
    ensures
        spec_desc_lines(post_title2, desc).len() <= spec_desc_lines(post_title1, desc).len(),
        spec_title_lines(post_title2).len() + spec_desc_lines(post_title2, desc).len()
            <= MAX_TOTAL_LINES as int,
{
    lemma_line_budget_monotone(
        post_title1,
        POST_TITLE_WIDTH as int,
        MAX_POST_TITLE_LINES as int,
        MAX_POST_TITLE_LINES as int,
    );
    lemma_line_budget_monotone(
        post_title2,
        POST_TITLE_WIDTH as int,
        MAX_POST_TITLE_LINES as int,
        MAX_POST_TITLE_LINES as int,
    );
    let t1 = spec_title_lines(post_title1).len() as int;
    let t2 = spec_title_lines(post_title2).len() as int;
    lemma_line_budget_monotone(
        desc,
        POST_DESCRIPTION_WIDTH as int,
        MAX_TOTAL_LINES as int - t2,
        MAX_TOTAL_LINES as int - t1,
    );
    lemma_line_budget_monotone(
        desc,
        POST_DESCRIPTION_WIDTH as int,
        MAX_TOTAL_LINES as int - t2,
        MAX_TOTAL_LINES as int - t2,
    );
}

} // verus!
