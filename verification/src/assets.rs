//! The in-memory asset table and the asset-resolution policy.
//!
//! The rasterizer runs without a filesystem: every external reference in the
//! markup is resolved against a read-only table of named binary entries plus a
//! list of font binaries. A name with a recognized vector-image extension
//! resolves to nested vector content, one with a recognized bitmap extension
//! to embedded raster content, and anything else — unknown extension or
//! missing entry — resolves to nothing, which degrades gracefully instead of
//! failing the whole document.
#![allow(unused_imports)]
use vstd::prelude::*;
use vstd::string::StrSliceExecFns;
use vstd::string::StringExecFns;

verus! {

/// One named binary asset.
pub struct AssetEntry {
    pub name: String,
    pub data: Vec<u8>,
}

/// The read-only table of named assets and embedded font binaries.
pub struct AssetTable {
    pub images: Vec<AssetEntry>,
    pub fonts: Vec<Vec<u8>>,
}

impl AssetTable {
    /// The named entries as (name, content) pairs.
    pub open spec fn spec_images(&self) -> Seq<(Seq<char>, Seq<u8>)> {
        self.images@.map_values(|e: AssetEntry| (e.name@, e.data@))
    }

    /// The font binaries.
    pub open spec fn spec_fonts(&self) -> Seq<Seq<u8>> {
        self.fonts.deep_view()
    }

    /// An empty table: every reference resolves to nothing.
    pub fn new() -> (r: AssetTable)
        ensures
            r.spec_images() =~= Seq::<(Seq<char>, Seq<u8>)>::empty(),
            r.spec_fonts() =~= Seq::<Seq<u8>>::empty(),
    {
        AssetTable { images: Vec::new(), fonts: Vec::new() }
    }

    /// Add a named asset.
    pub fn add_image(&mut self, name: String, data: Vec<u8>)
        ensures
            final(self).spec_images() =~= old(self).spec_images().push((name@, data@)),
            final(self).spec_fonts() =~= old(self).spec_fonts(),
    {
        self.images.push(AssetEntry { name, data });
    }

    /// Add a font binary.
    pub fn add_font(&mut self, data: Vec<u8>)
        ensures
            final(self).spec_fonts() =~= old(self).spec_fonts().push(data@),
            final(self).spec_images() =~= old(self).spec_images(),
    {
        let ghost prior = *self;
        self.fonts.push(data);
        proof {
            assert(self.fonts.deep_view() =~~= prior.fonts.deep_view().push(data@));
        }
    }
}

/// A resolved asset: raster content to be decoded by the renderer, or vector
/// content to be parsed as a nested scene.
pub enum ResolvedAsset {
    Bitmap(Vec<u8>),
    Vector(Vec<u8>),
}

/// The content of the first entry named `name`, if any.
pub open spec fn spec_lookup(images: Seq<(Seq<char>, Seq<u8>)>, name: Seq<char>) -> Option<
    Seq<u8>,
>
    decreases images.len(),
{
    if images.len() == 0 {
        None
    } else if images.first().0 == name {
        Some(images.first().1)
    } else {
        spec_lookup(images.drop_first(), name)
    }
}

/// `s` ends with `suffix`.
pub open spec fn has_suffix(s: Seq<char>, suffix: Seq<char>) -> bool {
    s.len() >= suffix.len() && s.subrange(s.len() - suffix.len(), s.len() as int) == suffix
}

/// The recognized bitmap extension.
pub open spec fn bitmap_name(name: Seq<char>) -> bool {
    has_suffix(name, seq!['.', 'p', 'n', 'g'])
}

/// The recognized vector extension.
pub open spec fn vector_name(name: Seq<char>) -> bool {
    has_suffix(name, seq!['.', 's', 'v', 'g'])
}

/// What resolving `name` against `images` must produce, at the level of the
/// table's and the result's contents.
pub open spec fn resolution(
    images: Seq<(Seq<char>, Seq<u8>)>,
    name: Seq<char>,
    r: Option<ResolvedAsset>,
) -> bool {
    match spec_lookup(images, name) {
        Option::None => r is None,
        Option::Some(data) => {
            if bitmap_name(name) {
                r matches Option::Some(ResolvedAsset::Bitmap(d)) && d@ == data
            } else if vector_name(name) {
                r matches Option::Some(ResolvedAsset::Vector(d)) && d@ == data
            } else {
                r is None
            }
        },
    }
}

/// `s` ends with the four given characters.
fn ends_with_4(s: &str, c0: char, c1: char, c2: char, c3: char) -> (r: bool)
    ensures
        r == has_suffix(s@, seq![c0, c1, c2, c3]),
{
    let n = s.unicode_len();
    if n < 4 {
        return false;
    }
    let r = s.get_char(n - 4) == c0 && s.get_char(n - 3) == c1 && s.get_char(n - 2) == c2
        && s.get_char(n - 1) == c3;
    proof {
        let suf = seq![c0, c1, c2, c3];
        let tail = s@.subrange(s@.len() - 4, s@.len() as int);
        assert(tail.len() == 4);
        assert(tail[0] == s@[s@.len() - 4]);
        assert(tail[1] == s@[s@.len() - 3]);
        assert(tail[2] == s@[s@.len() - 2]);
        assert(tail[3] == s@[s@.len() - 1]);
        if r {
            assert(tail =~= suf);
        } else {
            assert(tail != suf);
        }
    }
    r
}

/// Copy a byte vector element by element.
fn copy_bytes(data: &Vec<u8>) -> (r: Vec<u8>)
    ensures
        r@ == data@,
{
    let mut out: Vec<u8> = Vec::new();
    let n = data.len();
    for i in 0..n
        invariant
            n == data@.len(),
            out@ =~= data@.take(i as int),
    {
        out.push(data[i]);
    }
    proof {
        assert(data@.take(n as int) =~= data@);
    }
    out
}

/// Resolve a referenced asset name against the table: the first entry with a
/// matching name wins; the extension decides how its content is to be used;
/// unknown extensions and missing entries resolve to nothing.
pub fn resolve_asset(table: &AssetTable, name: &str) -> (r: Option<ResolvedAsset>)
    ensures
        resolution(table.spec_images(), name@, r),
{
    let key: String = name.to_owned();
    let n = table.images.len();
    let mut idx: usize = 0;
    let mut found = false;
    proof {
        assert(table.spec_images().skip(0) =~= table.spec_images());
    }
    for i in 0..n
        invariant
            n == table.images@.len(),
            !found ==> spec_lookup(table.spec_images(), name@) == spec_lookup(
                table.spec_images().skip(i as int),
                name@,
            ),
            found ==> idx < i && spec_lookup(table.spec_images(), name@) == Some(
                table.images@[idx as int].data@,
            ),
            key@ == name@,
    {
        if !found && table.images[i].name == key {
            found = true;
            idx = i;
            proof {
                let imgs = table.spec_images();
                assert(imgs.skip(i as int).first() == imgs[i as int]);
                assert(imgs[i as int].0 == table.images@[i as int].name@);
            }
        } else {
            proof {
                if !found {
                    let imgs = table.spec_images();
                    assert(imgs.skip(i as int).first() == imgs[i as int]);
                    assert(imgs[i as int].0 == table.images@[i as int].name@);
                    assert(imgs.skip(i as int).drop_first() =~= imgs.skip(i + 1));
                }
            }
        }
    }
    if !found {
        proof {
            assert(table.spec_images().skip(n as int) =~= Seq::<(Seq<char>, Seq<u8>)>::empty());
        }
        return None;
    }
    let data = copy_bytes(&table.images[idx].data);
    if ends_with_4(name, '.', 'p', 'n', 'g') {
        Some(ResolvedAsset::Bitmap(data))
    } else if ends_with_4(name, '.', 's', 'v', 'g') {
        Some(ResolvedAsset::Vector(data))
    } else {
        None
    }
}

} // verus!
