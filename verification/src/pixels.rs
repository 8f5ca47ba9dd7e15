//! The raster that the viewer hands to the display: width, height and the
//! RGBA8 bytes, four to a pixel, row by row.
//!
//! Decoding a file's contents is the `image` crate's work and building the
//! toolkit's image is `slint`'s; both are called here through functions marked
//! `external_body`, which are trusted and not proved.

use vstd::prelude::*;

verus! {

/// What a pixel buffer holds.
pub ghost struct Raster {
    pub width: nat,
    pub height: nat,
    pub bytes: Seq<u8>,
}

impl Raster {
    /// Whether there are exactly four bytes for each of the `width * height`
    /// pixels.
    pub open spec fn fits(self) -> bool {
        self.bytes.len() == 4 * self.width * self.height
    }
}

/// A decoded image: 8 bits per channel, four channels per pixel.
///
/// Every buffer holds exactly `4 * width * height` bytes; no buffer of another
/// size can be made.
pub struct PixelBuffer {
    width: u32,
    height: u32,
    data: Vec<u8>,
}

impl View for PixelBuffer {
    type V = Raster;

    closed spec fn view(&self) -> Raster {
        Raster { width: self.width as nat, height: self.height as nat, bytes: self.data@ }
    }
}

/// `slint::Image`, the toolkit's image; opaque to the verifier.
#[verifier::external_type_specification]
#[verifier::external_body]
pub struct ExImage(slint::Image);

/// What the `image` crate decodes from `contents`, the bytes of the file at
/// `path`: the width, the height and the raw RGBA8 buffer, or `None` where it
/// reports an error. The format is the one that the extension of `path`
/// stands for.
pub uninterp spec fn decoded_rgba8(path: Seq<char>, contents: Seq<u8>) -> Option<
    (u32, u32, Seq<u8>),
>;

/// The RGBA8 bytes of the pixels that a toolkit image holds, row by row, as
/// `slint::Image::to_rgba8` hands them out.
pub uninterp spec fn image_bytes(image: slint::Image) -> Seq<u8>;

/// The width and the height of a toolkit image in pixels, as
/// `slint::Image::size` reports them.
pub uninterp spec fn image_size(image: slint::Image) -> (nat, nat);

/// What a decoder's answer holds, the buffer taken as a sequence.
pub open spec fn raw_of(decoded: Option<(u32, u32, Vec<u8>)>) -> Option<(u32, u32, Seq<u8>)> {
    match decoded {
        Some((width, height, data)) => Some((width, height, data@)),
        None => None,
    }
}

/// The raster that a decoder's answer makes: its width, height and bytes
/// where it gave four bytes for each pixel, and none otherwise.
pub open spec fn raster_of(decoded: Option<(u32, u32, Seq<u8>)>) -> Option<Raster> {
    match decoded {
        Some((width, height, bytes)) => if bytes.len() == 4 * width * height {
            Some(Raster { width: width as nat, height: height as nat, bytes })
        } else {
            None
        },
        None => None,
    }
}

/// What an optional buffer holds.
pub open spec fn raster_view(buffer: Option<PixelBuffer>) -> Option<Raster> {
    match buffer {
        Some(buffer) => Some(buffer@),
        None => None,
    }
}

/// Decodes `contents` as `image::open` decodes the file they were read from:
/// `image::ImageFormat::from_path` picks the format by the extension of
/// `path`, `image::load_from_memory_with_format` decodes, and
/// `image::DynamicImage::to_rgba8` converts; the result is the width, the
/// height and the raw buffer. `None` on any error. Trusted: the result is what
/// the crate decodes from these bytes under this path, which depends on
/// nothing else.
#[verifier::external_body]
fn decode_rgba8(path: &str, contents: &[u8]) -> (decoded: Option<(u32, u32, Vec<u8>)>)
    ensures
        raw_of(decoded) == decoded_rgba8(path@, contents@),
{
    let format = image::ImageFormat::from_path(path).ok()?;
    let rgba = image::load_from_memory_with_format(contents, format).ok()?.to_rgba8();
    Some((rgba.width(), rgba.height(), rgba.into_raw()))
}

/// Builds the toolkit's image with `slint::SharedPixelBuffer::clone_from_slice`
/// and `slint::Image::from_rgba8`. Trusted: the first copies the pixels of the
/// slice into a buffer of the given width and height, and panics unless the
/// slice covers the pixels exactly, which the precondition demands; the second
/// makes an image that holds that buffer.
#[verifier::external_body]
fn rgba8_image(width: u32, height: u32, data: &[u8]) -> (image: slint::Image)
    requires
        data@.len() == 4 * width * height,
    ensures
        image_size(image) == (width as nat, height as nat),
        image_bytes(image) == data@,
{
    slint::Image::from_rgba8(slint::SharedPixelBuffer::clone_from_slice(data, width, height))
}

impl PixelBuffer {
    #[verifier::type_invariant]
    spec fn sized(&self) -> bool {
        self@.fits()
    }

    /// Makes a buffer of `width * height` pixels out of `data`, if `data`
    /// holds exactly four bytes for each pixel.
    pub fn from_raw(width: u32, height: u32, data: Vec<u8>) -> (buffer: Option<PixelBuffer>)
        ensures
            buffer is Some <==> data@.len() == 4 * width * height,
            buffer matches Some(b) ==> b@ == (Raster {
                width: width as nat,
                height: height as nat,
                bytes: data@,
            }),
    {
        assert(width * height <= 0xffff_ffff * 0xffff_ffff && 4 * width * height == 4 * (width
            * height)) by (nonlinear_arith)
            requires
                width <= 0xffff_ffff,
                height <= 0xffff_ffff,
        ;
        let pixels: u64 = width as u64 * height as u64;
        let wanted: u128 = 4 * (pixels as u128);
        if data.len() as u128 == wanted {
            Some(PixelBuffer { width, height, data })
        } else {
            None
        }
    }

    /// The width in pixels.
    pub fn width(&self) -> (width: u32)
        ensures
            width == self@.width,
    {
        self.width
    }

    /// The height in pixels.
    pub fn height(&self) -> (height: u32)
        ensures
            height == self@.height,
    {
        self.height
    }

    /// The bytes, four to a pixel.
    pub fn data(&self) -> (data: &Vec<u8>)
        ensures
            data@ == self@.bytes,
            self@.fits(),
    {
        proof {
            use_type_invariant(self);
        }
        &self.data
    }

    /// The buffer as an image of the toolkit: an image of the same width and
    /// height that holds the same pixels.
    pub fn to_image(&self) -> (image: slint::Image)
        ensures
            image_size(image) == (self@.width, self@.height),
            image_bytes(image) == self@.bytes,
    {
        proof {
            use_type_invariant(self);
        }
        rgba8_image(self.width, self.height, self.data.as_slice())
    }
}

/// Makes a pixel buffer of what the decoder gave, if it gave anything and
/// gave four bytes for each pixel.
pub fn buffer_of(decoded: Option<(u32, u32, Vec<u8>)>) -> (buffer: Option<PixelBuffer>)
    ensures
        raster_view(buffer) == raster_of(raw_of(decoded)),
        buffer matches Some(b) ==> b@.fits(),
{
    match decoded {
        Some((width, height, data)) => PixelBuffer::from_raw(width, height, data),
        None => None,
    }
}

/// Decodes the contents of the image file at `path` into a pixel buffer.
/// The format is judged by the extension of `path`. `None` where the contents
/// cannot be decoded.
pub fn decode(path: &str, contents: &[u8]) -> (buffer: Option<PixelBuffer>)
    ensures
        raster_view(buffer) == raster_of(decoded_rgba8(path@, contents@)),
        buffer matches Some(b) ==> b@.fits(),
{
    buffer_of(decode_rgba8(path, contents))
}

} // verus!
