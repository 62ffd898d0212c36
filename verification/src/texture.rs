//! The texture on its way to the device: decoded pixels, and their rows packed to
//! the pitch that a texture copy asks for.

use crate::alignment::{
    alignmented_size, lemma_round_up_bounds, lemma_round_up_least, round_up,
};
use vstd::arithmetic::div_mod::lemma_fundamental_div_mod_converse;
use vstd::arithmetic::power::{lemma_pow_positive, pow};
use vstd::arithmetic::power2::{is_pow2, is_pow2_equiv, is_pow2_exists, lemma2_to64};
use vstd::prelude::*;
use vstd::slice::slice_subrange;

verus! {

/// Bytes in one pixel: red, green, blue, alpha, one byte each.
pub const BYTES_PER_PIXEL: usize = 4;

/// The multiple of bytes that each row of a texture copy starts on.
pub const PITCH_ALIGNMENT: usize = 256;

/// The widest image whose padded row still fits the 32-bit row pitch of a copy
/// footprint.
pub const MAX_WIDTH: u32 = 0x3FFF_FFC0;

/// What an image is: its size in pixels and its bytes, row by row from the top,
/// four bytes to the pixel.
pub struct ImageModel {
    pub width: nat,
    pub height: nat,
    pub pixels: Seq<u8>,
}

impl ImageModel {
    /// The bytes are exactly those of `width * height` pixels.
    pub open spec fn wf(self) -> bool {
        self.pixels.len() == 4 * self.width * self.height
    }

    /// The bytes in one row of pixels.
    pub open spec fn row_bytes(self) -> int {
        4 * (self.width as int)
    }

    /// The bytes from one row's start to the next in the packed copy.
    pub open spec fn row_pitch(self) -> int {
        round_up(4 * (self.width as int), PITCH_ALIGNMENT as int)
    }

    /// The bytes of row `row`.
    pub open spec fn row(self, row: int) -> Seq<u8> {
        self.pixels.subrange(row * self.row_bytes(), (row + 1) * self.row_bytes())
    }
}

/// Why a texture could not be prepared.
#[derive(Clone, Copy, Debug, PartialEq, Eq, Structural)]
pub enum TextureError {
    /// The bytes are no image that the decoder reads.
    Undecodable,
    /// The padded rows do not fit the copy footprint or the address space.
    TooLarge,
}

/// A decoded image, eight bits to the channel, in red, green, blue, alpha order.
#[derive(Debug)]
pub struct RgbaImage {
    width: u32,
    height: u32,
    pixels: Vec<u8>,
}

impl View for RgbaImage {
    type V = ImageModel;

    closed spec fn view(&self) -> ImageModel {
        ImageModel {
            width: self.width as nat,
            height: self.height as nat,
            pixels: self.pixels@,
        }
    }
}

impl RgbaImage {
    #[verifier::type_invariant]
    spec fn inv(self) -> bool {
        self.pixels@.len() == 4 * self.width * self.height
    }

    /// An image of `width` by `height` pixels over `pixels`, or `None` where
    /// `pixels` is not exactly four bytes for each of them.
    pub fn new(width: u32, height: u32, pixels: Vec<u8>) -> (image: Option<RgbaImage>)
        ensures
            image is Some <==> pixels@.len() == 4 * width * height,
            image matches Some(img) ==> img@ == (ImageModel {
                width: width as nat,
                height: height as nat,
                pixels: pixels@,
            }),
    {
        assert(width * height <= 0xFFFF_FFFF * 0xFFFF_FFFF) by (nonlinear_arith)
            requires
                width <= 0xFFFF_FFFF,
                height <= 0xFFFF_FFFF,
        ;
        let area: u64 = width as u64 * height as u64;
        assert(4 * width * height == 4 * area) by (nonlinear_arith)
            requires
                area == width * height,
        ;
        let len: usize = pixels.len();
        let fits = match area.checked_mul(4) {
            Some(n) => len as u64 == n,
            None => false,
        };
        if fits {
            Some(RgbaImage { width, height, pixels })
        } else {
            None
        }
    }

    /// The width in pixels.
    pub fn width(&self) -> (w: u32)
        ensures
            w == self@.width,
    {
        self.width
    }

    /// The height in pixels.
    pub fn height(&self) -> (h: u32)
        ensures
            h == self@.height,
    {
        self.height
    }

    /// The bytes, row by row from the top.
    pub fn pixels(&self) -> (p: &Vec<u8>)
        ensures
            p@ == self@.pixels,
            self@.wf(),
    {
        proof {
            use_type_invariant(self);
        }
        &self.pixels
    }
}

/// What the decoder makes of `bytes`: the width, the height and the bytes of the
/// image it reads in them, converted to eight-bit red, green, blue, alpha; or
/// `None` where it reads no image.
pub uninterp spec fn decoded_rgba8(bytes: Seq<u8>) -> Option<(u32, u32, Seq<u8>)>;

#[verifier::external_type_specification]
#[verifier::external_body]
pub struct ExImageError(image::ImageError);

/// Calls `image::load_from_memory` on `bytes` and, where that gives an image,
/// `DynamicImage::to_rgba8` on it, and moves the width, the height and the samples
/// of the converted buffer into an `RgbaImage`.
///
/// Not proved: that the outcome is the one named `decoded_rgba8`, which says no
/// more than that equal bytes decode alike; and that the buffer holds exactly four
/// samples for each pixel, as `to_rgba8` allocates it.
#[verifier::external_body]
fn decode_rgba8(bytes: &[u8]) -> (decoded: Result<RgbaImage, image::ImageError>)
    ensures
        match decoded {
            Ok(img) => decoded_rgba8(bytes@) == Some((img.width, img.height, img.pixels@))
                && img.pixels@.len() == 4 * img.width * img.height,
            Err(_) => decoded_rgba8(bytes@) is None,
        },
{
    match image::load_from_memory(bytes) {
        Ok(loaded) => {
            let rgba = loaded.to_rgba8();
            Ok(RgbaImage { width: rgba.width(), height: rgba.height(), pixels: rgba.into_raw() })
        },
        Err(error) => Err(error),
    }
}

/// The image that the decoder names for `bytes`, as a model.
pub open spec fn decoded_model(bytes: Seq<u8>) -> Option<ImageModel> {
    match decoded_rgba8(bytes) {
        Some((width, height, pixels)) => Some(
            ImageModel { width: width as nat, height: height as nat, pixels },
        ),
        None => None,
    }
}

/// Decodes an encoded image, such as a PNG file's bytes, to eight-bit RGBA.
///
/// Gives the decoder's image where it reads one, and `Undecodable` exactly where
/// it reads none.
pub fn decode(bytes: &[u8]) -> (decoded: Result<RgbaImage, TextureError>)
    ensures
        match decoded_model(bytes@) {
            Some(model) => decoded matches Ok(img) && img@ == model && model.wf(),
            None => decoded matches Err(e) && e == TextureError::Undecodable,
        },
{
    match decode_rgba8(bytes) {
        Ok(img) => Ok(img),
        Err(_) => Err(TextureError::Undecodable),
    }
}

/// Byte `index` of the packed copy of `image`: the image's byte in that row and
/// column where the column lies within the row's pixels, zero in the padding.
pub open spec fn packed_byte(image: ImageModel, index: int) -> u8 {
    let row = index / image.row_pitch();
    let column = index % image.row_pitch();
    if column < image.row_bytes() {
        image.pixels[row * image.row_bytes() + column]
    } else {
        0u8
    }
}

/// The packed copy of `image`: its rows from the top, each padded with zeros to
/// the row pitch.
pub open spec fn packed_rows(image: ImageModel) -> Seq<u8> {
    Seq::new((image.row_pitch() * image.height) as nat, |index: int| packed_byte(image, index))
}

/// The padded rows of `image` fit: the pitch in the 32 bits of a copy footprint,
/// the whole copy in the address space.
pub open spec fn fits(image: ImageModel) -> bool {
    image.row_pitch() <= u32::MAX && image.row_pitch() * image.height <= usize::MAX
}

/// What a staged texture is: the image's size, the pitch of its padded rows, and
/// the bytes to put in the upload buffer.
pub struct StagedModel {
    pub width: nat,
    pub height: nat,
    pub row_pitch: nat,
    pub data: Seq<u8>,
}

/// The staged form of `image`.
pub open spec fn staged(image: ImageModel) -> StagedModel {
    StagedModel {
        width: image.width,
        height: image.height,
        row_pitch: image.row_pitch() as nat,
        data: packed_rows(image),
    }
}

/// A texture ready for upload: the contents of the upload buffer and the footprint
/// that describes them to the copy.
#[derive(Debug)]
pub struct StagedTexture {
    width: u32,
    height: u32,
    row_pitch: u32,
    data: Vec<u8>,
}

impl View for StagedTexture {
    type V = StagedModel;

    closed spec fn view(&self) -> StagedModel {
        StagedModel {
            width: self.width as nat,
            height: self.height as nat,
            row_pitch: self.row_pitch as nat,
            data: self.data@,
        }
    }
}

impl StagedTexture {
    #[verifier::type_invariant]
    spec fn inv(self) -> bool {
        &&& self.row_pitch == round_up(4 * self.width, PITCH_ALIGNMENT as int)
        &&& self.data@.len() == self.row_pitch * self.height
    }

    /// The width of the texture in pixels.
    pub fn width(&self) -> (w: u32)
        ensures
            w == self@.width,
    {
        self.width
    }

    /// The height of the texture in pixels, which is the number of rows in the
    /// buffer.
    pub fn height(&self) -> (h: u32)
        ensures
            h == self@.height,
    {
        self.height
    }

    /// The bytes from one row's start to the next: the row's bytes rounded up to
    /// the pitch alignment.
    pub fn row_pitch(&self) -> (pitch: u32)
        ensures
            pitch == self@.row_pitch,
            pitch == round_up(4 * (self@.width as int), PITCH_ALIGNMENT as int),
    {
        proof {
            use_type_invariant(self);
        }
        self.row_pitch
    }

    /// The contents of the upload buffer, `row_pitch` bytes for each row.
    pub fn data(&self) -> (bytes: &Vec<u8>)
        ensures
            bytes@ == self@.data,
            bytes@.len() == self@.row_pitch * self@.height,
    {
        proof {
            use_type_invariant(self);
        }
        &self.data
    }
}

/// 256 is a power of two.
pub proof fn lemma_pitch_alignment_is_pow2()
    ensures
        is_pow2(PITCH_ALIGNMENT as int),
{
    lemma2_to64();
    lemma_pow_positive(2, 8);
    assert(pow(2, 8) == 256);
    assert(is_pow2_exists(256));
    is_pow2_equiv(256);
}

/// The padded row of an image fits 32 bits exactly where the image is no wider
/// than `MAX_WIDTH`.
pub proof fn lemma_pitch_fits_u32(image: ImageModel)
    ensures
        image.row_pitch() <= u32::MAX <==> image.width <= MAX_WIDTH,
        image.row_bytes() <= image.row_pitch(),
        image.row_pitch() % 256 == 0,
{
    lemma_round_up_bounds(image.row_bytes(), 256);
    if image.width <= MAX_WIDTH {
        lemma_round_up_least(image.row_bytes(), 256, 0xFFFF_FF00);
    }
}

/// Place `row * pitch + column` of a sequence of rows lies in row `row`, at
/// column `column`.
proof fn lemma_place(pitch: int, row: int, column: int)
    requires
        0 <= column < pitch,
    ensures
        (row * pitch + column) / pitch == row,
        (row * pitch + column) % pitch == column,
{
    lemma_fundamental_div_mod_converse(row * pitch + column, pitch, row, column);
}

/// Packs the rows of `image` for upload: each row's bytes, then zeros up to the
/// next multiple of `PITCH_ALIGNMENT`.
///
/// Fails with `TooLarge` exactly where the padded rows do not fit.
pub fn stage_texture(image: &RgbaImage) -> (staged_texture: Result<StagedTexture, TextureError>)
    ensures
        fits(image@) ==> (staged_texture matches Ok(t) && t@ == staged(image@)),
        !fits(image@) ==> (staged_texture matches Err(e) && e == TextureError::TooLarge),
        staged_texture matches Ok(t) ==> t@.row_pitch == round_up(
            4 * (image@.width as int),
            PITCH_ALIGNMENT as int,
        ) && t@.data.len() == t@.row_pitch * image@.height,
{
    let width = image.width();
    let height = image.height();
    let pixels = image.pixels();
    proof {
        lemma_pitch_fits_u32(image@);
        lemma_pitch_alignment_is_pow2();
    }
    if width > MAX_WIDTH {
        return Err(TextureError::TooLarge);
    }
    let row_bytes: usize = BYTES_PER_PIXEL * (width as usize);
    let pitch: usize = alignmented_size(row_bytes, PITCH_ALIGNMENT);
    let total: usize = match pitch.checked_mul(height as usize) {
        Some(total) => total,
        None => {
            return Err(TextureError::TooLarge);
        },
    };
    let mut data: Vec<u8> = Vec::with_capacity(total);
    if pitch == 0 {
        assert(data@ =~= packed_rows(image@));
        return Ok(StagedTexture { width, height, row_pitch: 0, data });
    }
    assert(pixels@.len() == row_bytes * height) by (nonlinear_arith)
        requires
            pixels@.len() == 4 * width * height,
            row_bytes == 4 * width,
    ;
    let available: usize = pixels.len();
    let mut row: usize = 0;
    let mut source: usize = 0;
    let mut filled: usize = 0;
    while row < height as usize
        invariant
            row <= height,
            available == pixels@.len(),
            source == row * row_bytes,
            filled == row * pitch,
            data@.len() == filled,
            forall|i: int| 0 <= i < filled ==> data@[i] == packed_byte(image@, i),
            pixels@ == image@.pixels,
            pixels@.len() == row_bytes * height,
            total == pitch * height,
            pitch == image@.row_pitch(),
            row_bytes == image@.row_bytes(),
            row_bytes <= pitch,
            pitch > 0,
        decreases height - row,
    {
        assert((row + 1) * row_bytes <= height * row_bytes && (row + 1) * row_bytes == row
            * row_bytes + row_bytes) by (nonlinear_arith)
            requires
                row + 1 <= height,
        ;
        assert((row + 1) * pitch <= height * pitch && (row + 1) * pitch == row * pitch + pitch
            && height * pitch == pitch * height) by (nonlinear_arith)
            requires
                row + 1 <= height,
        ;
        assert(height * row_bytes == row_bytes * height) by (nonlinear_arith);
        let next: usize = source + row_bytes;
        let line = slice_subrange(pixels.as_slice(), source, next);
        let ghost before = data@;
        data.extend_from_slice(line);
        let ghost copied = data@;
        filled = filled + pitch;
        data.resize(filled, 0u8);
        proof {
            assert forall|i: int| 0 <= i < filled implies data@[i] == packed_byte(image@, i) by {
                if i < before.len() {
                    assert(copied[i] == before[i]);
                    assert(data@.subrange(0, copied.len() as int)[i] == data@[i]);
                } else {
                    let column = i - row * pitch;
                    lemma_place(pitch as int, row as int, column);
                    if column < row_bytes {
                        assert(copied[i] == line@[column]);
                        assert(data@.subrange(0, copied.len() as int)[i] == data@[i]);
                    }
                }
            }
        }
        source = next;
        row = row + 1;
    }
    assert(height * pitch == pitch * height) by (nonlinear_arith);
    assert(data@ =~= packed_rows(image@));
    Ok(StagedTexture { width, height, row_pitch: pitch as u32, data })
}

/// Decodes an encoded image and packs its rows for upload.
///
/// `Undecodable` where the decoder reads no image in `bytes`; otherwise what
/// `stage_texture` gives for the decoded image.
pub fn load_texture(bytes: &[u8]) -> (texture: Result<StagedTexture, TextureError>)
    ensures
        match decoded_model(bytes@) {
            None => texture matches Err(e) && e == TextureError::Undecodable,
            Some(model) => {
                &&& fits(model) ==> (texture matches Ok(t) && t@ == staged(model))
                &&& !fits(model) ==> (texture matches Err(e) && e == TextureError::TooLarge)
            },
        },
{
    match decode(bytes) {
        Ok(img) => stage_texture(&img),
        Err(error) => Err(error),
    }
}

/// The packed copy holds `row_pitch` bytes for each row of the image. Each row of
/// it starts with the bytes of that row of the image, in their order, and is zero
/// from there to the pitch.
pub proof fn lemma_packed_rows(image: ImageModel, row: int)
    requires
        image.wf(),
        0 <= row < image.height,
    ensures
        packed_rows(image).len() == image.row_pitch() * image.height,
        image.row_bytes() <= image.row_pitch(),
        (row + 1) * image.row_pitch() <= packed_rows(image).len(),
        packed_rows(image).subrange(
            row * image.row_pitch(),
            row * image.row_pitch() + image.row_bytes(),
        ) == image.row(row),
        packed_rows(image).subrange(
            row * image.row_pitch() + image.row_bytes(),
            (row + 1) * image.row_pitch(),
        ) == Seq::new((image.row_pitch() - image.row_bytes()) as nat, |i: int| 0u8),
{
    let pitch = image.row_pitch();
    let row_bytes = image.row_bytes();
    let packed = packed_rows(image);
    lemma_pitch_fits_u32(image);
    assert(pitch * image.height >= 0 && (row + 1) * pitch <= pitch * image.height && (row + 1)
        * pitch == row * pitch + pitch && row * pitch >= 0) by (nonlinear_arith)
        requires
            0 <= row < image.height,
            pitch >= 0,
    ;
    assert((row + 1) * row_bytes <= 4 * image.width * image.height && (row + 1) * row_bytes
        == row * row_bytes + row_bytes && row * row_bytes >= 0) by (nonlinear_arith)
        requires
            0 <= row < image.height,
            row_bytes == 4 * image.width,
    ;
    let head = packed.subrange(row * pitch, row * pitch + row_bytes);
    assert forall|c: int| 0 <= c < row_bytes implies head[c] == image.row(row)[c] by {
        lemma_place(pitch, row, c);
    }
    assert(head =~= image.row(row));
    let rest = packed.subrange(row * pitch + row_bytes, (row + 1) * pitch);
    assert forall|c: int| 0 <= c < pitch - row_bytes implies rest[c] == 0u8 by {
        lemma_place(pitch, row, row_bytes + c);
    }
    assert(rest =~= Seq::new((pitch - row_bytes) as nat, |i: int| 0u8));
}

} // verus!
