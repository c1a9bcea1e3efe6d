//! Asset cache: a name-keyed store of decoded images, loaded eagerly at
//! startup and queried by name during pipeline bootstrap.
//!
//! Entries hold tightly packed pixel buffers, one byte per channel and
//! three channels per pixel, stored vertically flipped relative to file
//! storage so that they match the graphics coordinate convention.
//! Loading under an existing name overwrites the prior entry; looking up
//! an unknown name is a reportable error, never a crash.

use vstd::prelude::*;
use vstd::hash_map::StringHashMap;
use vstd::string::StringExecFns;

verus! {

/// The pixel contents of a decoded image, as a mathematical value:
/// dimensions and the packed byte sequence of its three channels.
pub ghost struct ImageView {
    pub width: int,
    pub height: int,
    pub texels: Seq<u8>,
}

impl ImageView {
    /// A well-formed image: dimensions fit the platform's texture sizes
    /// and the buffer holds exactly three bytes per pixel.
    pub open spec fn wf(&self) -> bool {
        &&& 0 <= self.width <= u32::MAX
        &&& 0 <= self.height <= u32::MAX
        &&& self.texels.len() == 3 * self.width * self.height
    }
}

/// A decoded image: width, height, and a tightly packed pixel buffer of
/// three bytes per pixel, already vertically flipped.
pub struct DecodedImage {
    pub width: u32,
    pub height: u32,
    pub texels: Vec<u8>,
}

impl View for DecodedImage {
    type V = ImageView;

    open spec fn view(&self) -> ImageView {
        ImageView { width: self.width as int, height: self.height as int, texels: self.texels@ }
    }
}

/// Where the byte at output position `i` of a vertically flipped image
/// comes from in the source buffer: same offset within the row, rows
/// mirrored top to bottom.
pub open spec fn flip_index(width: int, height: int, i: int) -> int {
    let stride = 3 * width;
    let row = i / stride;
    let off = i % stride;
    stride * (height - 1 - row) + off
}

/// A pixel buffer with its rows mirrored top to bottom. Channels and the
/// order of bytes within one row are untouched.
pub open spec fn flipped(width: int, height: int, texels: Seq<u8>) -> Seq<u8> {
    Seq::new(texels.len(), |i: int| texels[flip_index(width, height, i)])
}

/// Mirror the rows of a packed three-channel pixel buffer top to bottom.
#[verifier::loop_isolation(false)]
pub fn flip_vertical(width: u32, height: u32, texels: &Vec<u8>) -> (r: Vec<u8>)
    requires
        texels@.len() == 3 * width * height,
    ensures
        r@ == flipped(width as int, height as int, texels@),
{
    let ghost w: int = width as int;
    let ghost h: int = height as int;
    let mut out: Vec<u8> = Vec::new();
    if width == 0 || height == 0 {
        proof {
            assert(3 * w * h == 0) by (nonlinear_arith)
                requires
                    w == 0 || h == 0,
            ;
            assert(out@ =~= flipped(w, h, texels@));
        }
        return out;
    }
    let total: usize = texels.len();
    proof {
        assert(3 * w <= 3 * w * h) by (nonlinear_arith)
            requires
                1 <= h,
                0 <= w,
        ;
    }
    let stride: usize = 3 * (width as usize);
    let mut y: u32 = 0;
    while y < height
        invariant
            1 <= height <= u32::MAX,
            1 <= width <= u32::MAX,
            w == width as int,
            h == height as int,
            stride == 3 * w,
            texels@.len() == 3 * w * h,
            y <= height,
            out@.len() == y * stride,
            forall|i: int|
                0 <= i < out@.len() ==> out@[i] == texels@[flip_index(w, h, i)],
        decreases height - y,
    {
        proof {
            assert((h - 1 - y) * stride + stride <= 3 * w * h) by (nonlinear_arith)
                requires
                    0 <= y < h,
                    stride == 3 * w,
                    0 <= w,
            ;
        }
        let src_row: usize = ((height - 1 - y) as usize) * stride;
        let mut k: usize = 0;
        while k < stride
            invariant
                1 <= height <= u32::MAX,
                w == width as int,
                h == height as int,
                stride == 3 * w,
                texels@.len() == 3 * w * h,
                y < height,
                src_row == (h - 1 - y) * stride,
                src_row + stride <= texels@.len(),
                k <= stride,
                out@.len() == y * stride + k,
                forall|i: int|
                    0 <= i < out@.len() ==> out@[i] == texels@[flip_index(w, h, i)],
            decreases stride - k,
        {
            let ghost i: int = y * stride + k;
            out.push(texels[src_row + k]);
            proof {
                let s: int = stride as int;
                vstd::arithmetic::div_mod::lemma_fundamental_div_mod_converse(
                    i,
                    s,
                    y as int,
                    k as int,
                );
                assert(s * (h - 1 - y) == (h - 1 - y) * s) by (nonlinear_arith);
                assert(flip_index(w, h, i) == src_row + k);
            }
            k += 1;
        }
        proof {
            assert((y + 1) * stride == y * stride + stride) by (nonlinear_arith);
        }
        y += 1;
    }
    proof {
        assert(h * stride == 3 * w * h) by (nonlinear_arith)
            requires
                stride == 3 * w,
        ;
        assert(out@ =~= flipped(w, h, texels@));
    }
    out
}

/// An error produced by the image decoder of the `image` crate, carried
/// through unchanged so that a load failure keeps its underlying cause.
#[verifier::external_type_specification]
#[verifier::external_body]
pub struct ExImageError(image::ImageError);

/// Why a preload failed: the named file would not decode, or a texture
/// was requested under a name that was never loaded.
#[derive(Debug)]
pub enum PreloadError {
    /// The data for `path` could not be decoded as an image.
    Load(String, image::ImageError),
    /// No texture was loaded under this name.
    NotFound(String),
}

/// What the image decoder makes of a byte blob: `None` when the bytes do
/// not form a decodable image, else the width, height and packed RGB
/// bytes, top row first. The result depends on the bytes alone.
pub uninterp spec fn decoded_rgb(data: Seq<u8>) -> Option<(u32, u32, Seq<u8>)>;

/// The cache entry that a successfully decoded blob produces: the decoded
/// pixels, vertically flipped.
pub open spec fn decoded_view(data: Seq<u8>) -> ImageView {
    match decoded_rgb(data) {
        Some(t) => ImageView {
            width: t.0 as int,
            height: t.1 as int,
            texels: flipped(t.0 as int, t.1 as int, t.2),
        },
        None => ImageView { width: 0, height: 0, texels: Seq::empty() },
    }
}

/// Relies on image::load_from_memory and image::DynamicImage::to_rgb8:
/// decodes a byte blob into a packed RGB buffer of three bytes per pixel
/// and length width * height * 3, deterministically in the bytes alone.
#[verifier::external_body]
fn decode_rgb(data: &Vec<u8>) -> (r: Result<(u32, u32, Vec<u8>), image::ImageError>)
    ensures
        match r {
            Ok(t) => decoded_rgb(data@) == Some((t.0, t.1, t.2@))
                && t.2@.len() == 3 * t.0 * t.1,
            Err(_) => decoded_rgb(data@) is None,
        },
{
    let img = image::load_from_memory(data)?.to_rgb8();
    let (width, height) = img.dimensions();
    Ok((width, height, img.into_raw()))
}

/// Read-only access to named textures, as the pipelines see it at
/// bootstrap time: a borrowed view of a decoded image, never ownership.
pub trait AssetLoader {
    /// The cache contents as a mathematical map from name to image.
    spec fn assets(&self) -> Map<Seq<char>, ImageView>;

    /// Fetch the named texture, if available.
    fn get_texture(&self, name: &str) -> (r: Result<&DecodedImage, PreloadError>)
        ensures
            match r {
                Ok(img) => self.assets().contains_key(name@) && img@ == self.assets()[name@],
                Err(e) => !self.assets().contains_key(name@)
                    && (e matches PreloadError::NotFound(n) && n@ == name@),
            },
    ;
}

/// The name-keyed store of decoded images. Loaded eagerly at startup;
/// single-threaded use only.
pub struct PreloadedImages {
    images: StringHashMap<DecodedImage>,
}

impl PreloadedImages {
    /// The cache contents: a map from asset name to decoded image, every
    /// entry well formed.
    pub closed spec fn view_map(&self) -> Map<Seq<char>, ImageView> {
        self.images@.map_values(|img: DecodedImage| img@)
    }

    /// Every stored image is well formed: three bytes per pixel.
    pub closed spec fn wf(&self) -> bool {
        forall|name: Seq<char>|
            self.images@.contains_key(name) ==> (#[trigger] self.images@[name])@.wf()
    }

    pub fn new() -> (r: Self)
        ensures
            r.view_map() == Map::<Seq<char>, ImageView>::empty(),
            r.wf(),
    {
        let r = PreloadedImages { images: StringHashMap::new() };
        proof {
            assert(r.view_map() =~= Map::<Seq<char>, ImageView>::empty());
        }
        r
    }

    /// Decode `data` (the contents of the image file at `path`), flip it
    /// vertically, and store it under `name`, overwriting any prior entry
    /// of the same name. On a decode failure the cache is unchanged and
    /// the error reports the path together with the decoder's cause.
    pub fn load_file(&mut self, name: &str, path: &str, data: &Vec<u8>) -> (r: Result<
        (),
        PreloadError,
    >)
        requires
            old(self).wf(),
        ensures
            final(self).wf(),
            r is Ok <==> decoded_rgb(data@) is Some,
            r is Ok ==> final(self).view_map() == old(self).view_map().insert(
                name@,
                decoded_view(data@),
            ),
            r is Err ==> final(self).view_map() == old(self).view_map() && (r matches Err(e)
                && e matches PreloadError::Load(p, _) && p@ == path@),
    {
        match decode_rgb(data) {
            Ok((width, height, texels)) => {
                let flipped_texels = flip_vertical(width, height, &texels);
                let img = DecodedImage { width, height, texels: flipped_texels };
                proof {
                    assert(img@ == decoded_view(data@));
                    assert(img@.wf());
                }
                self.images.insert(String::from_str(name), img);
                proof {
                    assert(self.view_map() =~= old(self).view_map().insert(
                        name@,
                        decoded_view(data@),
                    ));
                    assert(self.wf());
                }
                Ok(())
            },
            Err(cause) => Err(PreloadError::Load(String::from_str(path), cause)),
        }
    }

    /// Load every `(name, path, data)` entry in order, stopping at the
    /// first decode failure and reporting it. Entries already inserted
    /// before the failure stay in the cache: there is no rollback.
    #[verifier::loop_isolation(false)]
    pub fn load_files(&mut self, files: &Vec<(String, String, Vec<u8>)>) -> (r: Result<
        (),
        PreloadError,
    >)
        requires
            old(self).wf(),
        ensures
            final(self).wf(),
            r is Ok <==> (forall|j: int|
                0 <= j < files@.len() ==> decoded_rgb(#[trigger] files@[j].2@) is Some),
            r is Ok ==> final(self).view_map() == loaded_upto(
                old(self).view_map(),
                files@,
                files@.len() as int,
            ),
            r is Err ==> exists|i: int|
                0 <= i < files@.len() && decoded_rgb(#[trigger] files@[i].2@) is None && (
                forall|j: int| 0 <= j < i ==> decoded_rgb(#[trigger] files@[j].2@) is Some) && (
                r matches Err(e) && e matches PreloadError::Load(p, _) && p@ == files@[i].1@)
                && final(self).view_map() == loaded_upto(old(self).view_map(), files@, i),
    {
        let ghost pre = *self;
        let mut idx: usize = 0;
        while idx < files.len()
            invariant
                self.wf(),
                idx <= files@.len(),
                pre.wf(),
                forall|j: int| 0 <= j < idx ==> decoded_rgb(#[trigger] files@[j].2@) is Some,
                self.view_map() == loaded_upto(pre.view_map(), files@, idx as int),
            decreases files@.len() - idx,
        {
            let entry = &files[idx];
            match self.load_file(entry.0.as_str(), entry.1.as_str(), &entry.2) {
                Ok(()) => {},
                Err(e) => {
                    proof {
                        let i: int = idx as int;
                        assert(decoded_rgb(files@[i].2@) is None);
                        assert(forall|j: int|
                            0 <= j < i ==> decoded_rgb(#[trigger] files@[j].2@) is Some);
                        assert(e matches PreloadError::Load(p, _) && p@ == files@[i].1@);
                    }
                    return Err(e);
                },
            }
            idx += 1;
        }
        Ok(())
    }
}

/// The cache contents after the first `n` entries of `files` have been
/// decoded, flipped and inserted in order.
pub open spec fn loaded_upto(
    m: Map<Seq<char>, ImageView>,
    files: Seq<(String, String, Vec<u8>)>,
    n: int,
) -> Map<Seq<char>, ImageView>
    decreases n,
{
    if n <= 0 {
        m
    } else {
        loaded_upto(m, files, n - 1).insert(files[n - 1].0@, decoded_view(files[n - 1].2@))
    }
}

impl AssetLoader for PreloadedImages {
    open spec fn assets(&self) -> Map<Seq<char>, ImageView> {
        self.view_map()
    }

    fn get_texture(&self, name: &str) -> (r: Result<&DecodedImage, PreloadError>) {
        match self.images.get(name) {
            Some(img) => Ok(img),
            None => Err(PreloadError::NotFound(String::from_str(name))),
        }
    }
}

/// Law: a well-formed cache hands out only well-formed images — every
/// entry of the public view holds exactly three bytes per pixel. `new`
/// establishes `wf` and the load operations keep it, so this holds of
/// every cache a caller can build.
pub proof fn lemma_cache_images_well_formed(cache: &PreloadedImages)
    requires
        cache.wf(),
    ensures
        forall|name: Seq<char>|
            cache.view_map().contains_key(name) ==> (#[trigger] cache.view_map()[name]).wf(),
{
    assert forall|name: Seq<char>|
        cache.view_map().contains_key(name) implies (#[trigger] cache.view_map()[name]).wf() by {
        assert(cache.images@.contains_key(name));
        assert(cache.view_map()[name] == cache.images@[name]@);
    }
}

/// Law: loading two images under the same name leaves only the second
/// retrievable — in any cache state, inserting twice under one name is
/// the same as inserting the second image alone.
pub proof fn lemma_cache_overwrite(
    m: Map<Seq<char>, ImageView>,
    name: Seq<char>,
    first: ImageView,
    second: ImageView,
)
    ensures
        m.insert(name, first).insert(name, second) == m.insert(name, second),
{
    assert(m.insert(name, first).insert(name, second) =~= m.insert(name, second));
}

} // verus!
