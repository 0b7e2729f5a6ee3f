//! Rasterization: parse a markup document into a scene tree, resolving
//! referenced assets against the in-memory table and registering the embedded
//! fonts, then rasterize the tree into a pre-multiplied RGBA pixel buffer of
//! the tree's intrinsic size, and encode that buffer as an optimized bitmap.
#![allow(unused_imports)]
use vstd::prelude::*;

use resvg::usvg::ImageKind;
use resvg::usvg::Options;
use resvg::usvg::Tree;
use tiny_skia::Pixmap;
use tiny_skia::Transform;

use crate::OgError;
use crate::assets::AssetTable;
use crate::assets::ResolvedAsset;
use crate::assets::resolve_asset;
use crate::encode::PixelBuffer;
use crate::encode::pixmap_to_optimized_png;
use crate::encode::spec_encode;

verus! {

#[verifier::external_type_specification]
#[verifier::external_body]
pub struct ExImageKind(ImageKind);

/// Relies on `usvg::ImageKind` and `usvg::Tree::from_data`: converts a
/// resolved asset into the parser's image kind — raster content is passed
/// through for the renderer to decode, vector content is parsed as a nested
/// scene (unparsable vector content resolves to nothing, as a missing asset
/// does).
#[verifier::external_body]
fn to_image_kind(asset: Option<ResolvedAsset>) -> Option<ImageKind> {
    match asset {
        Some(ResolvedAsset::Bitmap(data)) => Some(ImageKind::PNG(std::sync::Arc::new(data))),
        Some(ResolvedAsset::Vector(data)) => Tree::from_data(&data, &Options::default())
            .ok()
            .map(ImageKind::SVG),
        None => None,
    }
}

/// What parsing and rasterizing a markup document against an asset table
/// produces: whether it succeeds, the canvas width and height, and the
/// pre-multiplied RGBA bytes. Parsing, layout and rasterization read nothing
/// but the document, the named assets and the fonts, so the outcome is a pure
/// function of them.
pub uninterp spec fn raster_of(
    markup: Seq<char>,
    images: Seq<(Seq<char>, Seq<u8>)>,
    fonts: Seq<Seq<u8>>,
) -> (bool, int, int, Seq<u8>);

/// Relies on `usvg::Tree::from_data` (parses the markup with the font
/// database filled from the table and the asset resolver installed; the
/// resolver closure only hands the verified `resolve_asset` policy's result to
/// `to_image_kind`), `usvg::Size::to_int_size` (the intrinsic size rounded to
/// at least one pixel each way), `tiny_skia::Pixmap::new` (a buffer of
/// exactly width x height x 4 bytes) and `resvg::render` (rasterization with
/// the identity transform). The second clause states that success does not
/// depend on the table: parsing fails only on the document itself (a resolver
/// miss resolves to absent content and fonts affect shaping, never success),
/// and the pixel-buffer refusal depends only on the document's intrinsic
/// size.
#[verifier::external_body]
fn rasterize_markup(markup: &str, assets: &AssetTable) -> (r: Result<PixelBuffer, OgError>)
    ensures
        (r is Ok) == raster_of(markup@, assets.spec_images(), assets.spec_fonts()).0,
        (r is Ok) == raster_of(
            markup@,
            Seq::<(Seq<char>, Seq<u8>)>::empty(),
            Seq::<Seq<u8>>::empty(),
        ).0,
        r matches Ok(p) ==> ({
            let ras = raster_of(markup@, assets.spec_images(), assets.spec_fonts());
            &&& p.width as int == ras.1
            &&& p.height as int == ras.2
            &&& p.data@ == ras.3
            &&& p.wf()
        }),
        r matches Err(e) ==> (e == OgError::Parse || e == OgError::Raster),
{
    let mut opt = Options::default();
    opt.image_href_resolver.resolve_string = Box::new(
        |href, _| to_image_kind(resolve_asset(assets, href)),
    );
    for font in assets.fonts.iter() {
        opt.fontdb_mut().load_font_data(font.clone());
    }
    let tree = Tree::from_data(markup.as_bytes(), &opt).map_err(|_| OgError::Parse)?;
    let size = tree.size().to_int_size();
    let mut pixmap = Pixmap::new(size.width(), size.height()).ok_or(OgError::Raster)?;
    resvg::render(&tree, Transform::default(), &mut pixmap.as_mut());
    Ok(PixelBuffer { width: size.width(), height: size.height(), data: pixmap.take() })
}

/// What rendering and encoding a markup document produces: whether the whole
/// stage succeeds, and the encoded bitmap bytes.
pub open spec fn spec_render(
    markup: Seq<char>,
    images: Seq<(Seq<char>, Seq<u8>)>,
    fonts: Seq<Seq<u8>>,
) -> (bool, Seq<u8>) {
    let ras = raster_of(markup, images, fonts);
    let enc = spec_encode(ras.1, ras.2, ras.3);
    (ras.0 && enc.0, enc.1)
}

/// The first failing stage's error reaches the caller unchanged: when the
/// raster stage fails, the result is that stage's parse or raster error, and
/// an error after a successful raster stage can only be the encoder's.
pub open spec fn error_identity(
    markup: Seq<char>,
    images: Seq<(Seq<char>, Seq<u8>)>,
    fonts: Seq<Seq<u8>>,
    r: Result<Vec<u8>, OgError>,
) -> bool {
    &&& !raster_of(markup, images, fonts).0 ==> (r matches Err(e) && (e == OgError::Parse || e
        == OgError::Raster))
    &&& raster_of(markup, images, fonts).0 ==> (r matches Err(e) ==> e == OgError::Encode)
}

/// Rasterize a markup document against the asset table and encode the pixel
/// buffer as an optimized lossless bitmap. The third clause pins which error
/// comes back: the first failing stage's, unchanged. The last clause is the
/// missing-asset resilience law: whether the document rasterizes does not
/// depend on the asset table, so a document referencing names absent from the
/// table rasterizes exactly when it would with every asset present — the
/// reference is simply dropped, never an error.
pub fn render_svg(markup: &str, assets: &AssetTable) -> (r: Result<Vec<u8>, OgError>)
    ensures
        (r is Ok) == spec_render(markup@, assets.spec_images(), assets.spec_fonts()).0,
        r matches Ok(b) ==> b@ == spec_render(
            markup@,
            assets.spec_images(),
            assets.spec_fonts(),
        ).1,
        error_identity(markup@, assets.spec_images(), assets.spec_fonts(), r),
        raster_of(markup@, assets.spec_images(), assets.spec_fonts()).0 == raster_of(
            markup@,
            Seq::<(Seq<char>, Seq<u8>)>::empty(),
            Seq::<Seq<u8>>::empty(),
        ).0,
{
    match rasterize_markup(markup, assets) {
        Err(e) => Err(e),
        Ok(pixmap) => pixmap_to_optimized_png(pixmap),
    }
}

} // verus!
