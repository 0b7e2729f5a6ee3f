//! Deterministic generation of social-preview title cards for blog posts.
//!
//! The pipeline turns three pieces of text (a site title, a post title and a
//! post description) into a lossless bitmap: the text is word-wrapped and
//! truncated to a fixed line budget, substituted into a fixed vector-markup
//! template, rasterized against an in-memory asset table, and encoded as an
//! optimized bitmap byte stream.
#![allow(unused_imports)]
use vstd::prelude::*;

pub mod assets;
pub mod compose;
pub mod encode;
pub mod render;
pub mod wrap;

use crate::assets::AssetTable;
use crate::compose::generate_svg;
use crate::compose::spec_desc_lines;
use crate::compose::spec_title_lines;
use crate::compose::svg_document;
use crate::render::error_identity;
use crate::render::raster_of;
use crate::render::render_svg;
use crate::render::spec_render;

verus! {

/// Failures of the title-card pipeline. Missing assets are not failures: the
/// rasterizer degrades gracefully when a referenced asset is absent.
#[derive(Debug, Clone, Copy, PartialEq, Eq, Structural)]
pub enum OgError {
    /// The composed markup failed to parse into a scene tree.
    Parse,
    /// The rendering engine failed during rasterization.
    Raster,
    /// The bitmap optimizer failed.
    Encode,
}

impl OgError {
    /// A human-readable description of the failure.
    pub fn describe(&self) -> (r: &'static str)
        ensures
            *self == OgError::Parse ==> r@ == "the composed markup failed to parse"@,
            *self == OgError::Raster ==> r@ == "the rendering engine failed during rasterization"@,
            *self == OgError::Encode ==> r@ == "the bitmap optimizer failed"@,
    {
        match self {
            OgError::Parse => "the composed markup failed to parse",
            OgError::Raster => "the rendering engine failed during rasterization",
            OgError::Encode => "the bitmap optimizer failed",
        }
    }
}

/// The markup document that the pipeline composes for the three text inputs.
pub open spec fn spec_markup(site: Seq<char>, title: Seq<char>, desc: Seq<char>) -> Seq<char> {
    svg_document(site, spec_title_lines(title), spec_desc_lines(title, desc))
}

/// Whether the pipeline succeeds for the given inputs and asset table, and
/// the bytes it then returns.
pub open spec fn spec_generate(
    site: Seq<char>,
    title: Seq<char>,
    desc: Seq<char>,
    images: Seq<(Seq<char>, Seq<u8>)>,
    fonts: Seq<Seq<u8>>,
) -> (bool, Seq<u8>) {
    spec_render(spec_markup(site, title, desc), images, fonts)
}

/// `out` is the pipeline's output for the given inputs and asset table.
pub open spec fn og_image_output(
    site: Seq<char>,
    title: Seq<char>,
    desc: Seq<char>,
    images: Seq<(Seq<char>, Seq<u8>)>,
    fonts: Seq<Seq<u8>>,
    out: Seq<u8>,
) -> bool {
    spec_generate(site, title, desc, images, fonts).0 && out == spec_generate(
        site,
        title,
        desc,
        images,
        fonts,
    ).1
}

/// Generate a title-card image against an explicit asset table: compose the
/// markup from the wrapped texts, rasterize it, and encode the pixels. The
/// third clause pins which error comes back: the first failing stage's,
/// unchanged, with no retry and no partial output. The last clause carries
/// the missing-asset resilience law to the entry point: whether the composed
/// document rasterizes does not depend on the table.
pub fn generate_og_image_internal(
    site_title: &str,
    post_title: &str,
    post_description: &str,
    assets: &AssetTable,
) -> (r: Result<Vec<u8>, OgError>)
    ensures
        (r is Ok) == spec_generate(
            site_title@,
            post_title@,
            post_description@,
            assets.spec_images(),
            assets.spec_fonts(),
        ).0,
        r matches Ok(b) ==> og_image_output(
            site_title@,
            post_title@,
            post_description@,
            assets.spec_images(),
            assets.spec_fonts(),
            b@,
        ),
        error_identity(
            spec_markup(site_title@, post_title@, post_description@),
            assets.spec_images(),
            assets.spec_fonts(),
            r,
        ),
        raster_of(
            spec_markup(site_title@, post_title@, post_description@),
            assets.spec_images(),
            assets.spec_fonts(),
        ).0 == raster_of(
            spec_markup(site_title@, post_title@, post_description@),
            Seq::<(Seq<char>, Seq<u8>)>::empty(),
            Seq::<Seq<u8>>::empty(),
        ).0,
{
    let markup = generate_svg(site_title, post_title, post_description);
    render_svg(markup.as_str(), assets)
}

/// Generate a title-card image with an empty asset table: the decorative
/// image and font references in the template then resolve to nothing and are
/// dropped, which degrades the visual content but never the pipeline. The
/// last clause pins which error comes back: the first failing stage's,
/// unchanged.
pub fn generate_og_image(site_title: &str, post_title: &str, post_description: &str) -> (r:
    Result<Vec<u8>, OgError>)
    ensures
        (r is Ok) == spec_generate(
            site_title@,
            post_title@,
            post_description@,
            Seq::empty(),
            Seq::empty(),
        ).0,
        r matches Ok(b) ==> og_image_output(
            site_title@,
            post_title@,
            post_description@,
            Seq::empty(),
            Seq::empty(),
            b@,
        ),
        error_identity(
            spec_markup(site_title@, post_title@, post_description@),
            Seq::empty(),
            Seq::empty(),
            r,
        ),
{
    let assets = AssetTable::new();
    generate_og_image_internal(site_title, post_title, post_description, &assets)
}

/// Law: the pipeline is deterministic — two outputs produced for identical
/// inputs and identical asset tables are byte-identical, because every stage's
/// result is a pure function of its inputs.
pub proof fn lemma_pipeline_deterministic(
    site: Seq<char>,
    title: Seq<char>,
    desc: Seq<char>,
    images: Seq<(Seq<char>, Seq<u8>)>,
    fonts: Seq<Seq<u8>>,
    out1: Seq<u8>,
    out2: Seq<u8>,
)
    requires
        og_image_output(site, title, desc, images, fonts, out1),
        og_image_output(site, title, desc, images, fonts, out2),
    ensures
        out1 == out2,
{
}

} // verus!
