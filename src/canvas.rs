use vstd::prelude::*;
use crate::model::Rgba;

verus! {

/// Widest canvas that can be held: four bytes per pixel must fit in an `i32` row.
pub const MAX_CANVAS_WIDTH: u32 = 536_870_911;

/// Tallest canvas that can be held.
pub const MAX_CANVAS_HEIGHT: u32 = 2_147_483_647;

/// Alpha of the black overlay that darkens the background.
pub const OVERLAY_ALPHA: u8 = 50;

/// Why a canvas could not be built or encoded.
#[derive(Debug, Clone, Copy, PartialEq, Eq, Structural)]
pub enum CanvasError {
    /// The background is not a readable image or has no pixels.
    Decode,
    /// The image is too large for a pixel buffer.
    Allocation,
    /// The canvas could not be encoded as PNG.
    Encode,
}

/// What decoding `bytes` as an image gives: width, height and RGBA bytes,
/// or nothing when the bytes are not a readable image.
pub uninterp spec fn decoded_rgba(bytes: Seq<u8>) -> Option<(u32, u32, Seq<u8>)>;

/// The premultiplied RGBA bytes of a `width` by `height` canvas after one
/// source-over fill of the whole canvas with the color `(r, g, b, a)`.
pub uninterp spec fn filled_over(pixels: Seq<u8>, width: u32, height: u32, r: u8, g: u8, b: u8, a: u8) -> Seq<u8>;

/// The PNG encoding of a `width` by `height` premultiplied RGBA canvas, or
/// nothing when the encoder fails.
pub uninterp spec fn png_encoded(pixels: Seq<u8>, width: u32, height: u32) -> Option<Seq<u8>>;

/// Relies on `image::load_from_memory` (format guessed from the bytes),
/// `DynamicImage::to_rgba8`, `ImageBuffer::dimensions` and
/// `ImageBuffer::into_raw`: the result depends on the bytes alone.
#[verifier::external_body]
fn decode_rgba(bytes: &[u8]) -> (r: Option<(u32, u32, Vec<u8>)>)
    ensures
        match r {
            Some(t) => decoded_rgba(bytes@) == Some((t.0, t.1, t.2@)),
            None => decoded_rgba(bytes@) is None,
        },
{
    match image::load_from_memory(bytes) {
        Ok(img) => {
            let rgba = img.to_rgba8();
            let (w, h) = rgba.dimensions();
            Some((w, h, rgba.into_raw()))
        },
        Err(_) => None,
    }
}

/// Relies on `tiny_skia::Pixmap::fill_rect` with the default paint set to
/// one color: the pixmap is filled in place, its data keeps its length.
/// `Pixmap::from_vec` accepts the data because its length is
/// `width * height * 4` and `width * 4` fits in an `i32`; `IntRect::from_xywh`
/// accepts the rectangle because both sides fit in an `i32`.
#[verifier::external_body]
fn fill_over(pixels: Vec<u8>, width: u32, height: u32, color: Rgba) -> (r: Vec<u8>)
    requires
        0 < width <= MAX_CANVAS_WIDTH,
        0 < height <= MAX_CANVAS_HEIGHT,
        pixels@.len() == width * height * 4,
    ensures
        r@ == filled_over(pixels@, width, height, color.r, color.g, color.b, color.a),
        r@.len() == pixels@.len(),
{
    let size = tiny_skia::IntSize::from_wh(width, height).unwrap();
    let mut pixmap = tiny_skia::Pixmap::from_vec(pixels, size).unwrap();
    let rect = tiny_skia::IntRect::from_xywh(0, 0, width, height).unwrap().to_rect();
    let mut paint = tiny_skia::Paint::default();
    paint.set_color(tiny_skia::Color::from_rgba8(color.r, color.g, color.b, color.a));
    pixmap.fill_rect(rect, &paint, tiny_skia::Transform::identity(), None);
    pixmap.take()
}

/// Relies on `tiny_skia::PixmapRef::encode_png`: the result depends on the
/// pixels and the size alone. `PixmapRef::from_bytes` accepts the data for
/// the same reasons as `Pixmap::from_vec`.
#[verifier::external_body]
fn encode_png_bytes(pixels: &[u8], width: u32, height: u32) -> (r: Option<Vec<u8>>)
    requires
        0 < width <= MAX_CANVAS_WIDTH,
        0 < height <= MAX_CANVAS_HEIGHT,
        pixels@.len() == width * height * 4,
    ensures
        match r {
            Some(b) => png_encoded(pixels@, width, height) == Some(b@),
            None => png_encoded(pixels@, width, height) is None,
        },
{
    tiny_skia::PixmapRef::from_bytes(pixels, width, height).unwrap().encode_png().ok()
}

/// `pixels` darkened by one pass of the overlay.
pub open spec fn overlaid(pixels: Seq<u8>, width: u32, height: u32) -> Seq<u8> {
    filled_over(pixels, width, height, 0, 0, 0, 50)
}

/// A size that a canvas can have.
pub open spec fn size_ok(width: u32, height: u32) -> bool {
    0 < width <= MAX_CANVAS_WIDTH && 0 < height <= MAX_CANVAS_HEIGHT
}

/// One color channel scaled by its alpha and rounded, as
/// `tiny_skia::premultiply_u8` does: `(p + p / 256) / 256` with `p = c * a + 128`.
pub open spec fn premultiply_channel(c: u8, a: u8) -> u8 {
    let p = c as int * a as int + 128;
    ((p + p / 256) / 256) as u8
}

/// Straight RGBA bytes made premultiplied: each color channel is scaled by
/// the alpha of its pixel; alpha bytes stay as they are.
pub open spec fn premultiplied_of(pixels: Seq<u8>) -> Seq<u8> {
    Seq::new(
        pixels.len(),
        |i: int|
            if i % 4 == 3 {
                pixels[i]
            } else {
                premultiply_channel(pixels[i], pixels[i - i % 4 + 3])
            },
    )
}

/// Premultiplying an opaque pixel leaves it as it is.
pub proof fn opaque_pixel_kept(c: u8)
    ensures
        premultiply_channel(c, 255) == c,
{
    let p = c as int * 255 + 128;
    if c <= 128 {
        assert(p / 256 == c as int) by (nonlinear_arith)
            requires
                p == c as int * 255 + 128,
                0 <= c <= 128;
    } else {
        assert(p / 256 == c as int - 1) by (nonlinear_arith)
            requires
                p == c as int * 255 + 128,
                128 < c <= 255;
    }
    assert((p + p / 256) / 256 == c as int) by (nonlinear_arith)
        requires
            p == c as int * 255 + 128,
            0 <= c <= 255,
            c <= 128 ==> p / 256 == c as int,
            c > 128 ==> p / 256 == c as int - 1;
}

/// Why a decoded image cannot become a canvas, if it cannot.
pub open spec fn canvas_refusal(width: u32, height: u32, pixels: Seq<u8>) -> Option<CanvasError> {
    if width == 0 || height == 0 {
        Some(CanvasError::Decode)
    } else if width > MAX_CANVAS_WIDTH || height > MAX_CANVAS_HEIGHT {
        Some(CanvasError::Allocation)
    } else if pixels.len() != width * height * 4 {
        Some(CanvasError::Decode)
    } else {
        None
    }
}

/// A grid of `width` by `height` premultiplied RGBA pixels, row by row,
/// four bytes per pixel.
pub struct PixelCanvas {
    width: u32,
    height: u32,
    pixels: Vec<u8>,
}

impl PixelCanvas {
    pub closed spec fn spec_width(&self) -> u32 {
        self.width
    }

    pub closed spec fn spec_height(&self) -> u32 {
        self.height
    }

    pub closed spec fn spec_pixels(&self) -> Seq<u8> {
        self.pixels@
    }

    /// The buffer holds exactly `width * height` pixels.
    pub closed spec fn wf(&self) -> bool {
        &&& size_ok(self.width, self.height)
        &&& self.pixels@.len() == self.width * self.height * 4
    }

    pub fn width(&self) -> (r: u32)
        ensures
            r == self.spec_width(),
    {
        self.width
    }

    pub fn height(&self) -> (r: u32)
        ensures
            r == self.spec_height(),
    {
        self.height
    }

    pub fn pixels(&self) -> (r: &Vec<u8>)
        ensures
            r@ == self.spec_pixels(),
    {
        &self.pixels
    }

    /// Hands the pixel bytes back.
    pub fn into_pixels(self) -> (r: Vec<u8>)
        ensures
            r@ == self.spec_pixels(),
    {
        self.pixels
    }

    /// A canvas over premultiplied RGBA bytes, as they stand: `None` when
    /// the size cannot be held or the byte count is not `width * height * 4`.
    pub fn from_premultiplied(width: u32, height: u32, pixels: Vec<u8>) -> (r: Option<PixelCanvas>)
        ensures
            match r {
                Some(c) => size_ok(width, height) && pixels@.len() == width * height * 4 && c.wf()
                    && c.spec_width() == width && c.spec_height() == height && c.spec_pixels()
                    == pixels@,
                None => !(size_ok(width, height) && pixels@.len() == width * height * 4),
            },
    {
        if width == 0 || height == 0 || width > MAX_CANVAS_WIDTH || height > MAX_CANVAS_HEIGHT {
            return None;
        }
        if pixels.len() as u64 != byte_count(width, height) {
            return None;
        }
        Some(PixelCanvas { width, height, pixels })
    }

    /// Darkens the whole canvas by source-over blending black at alpha 50.
    /// Each call stacks one more layer.
    pub fn apply_overlay(&mut self)
        requires
            old(self).wf(),
        ensures
            final(self).wf(),
            final(self).spec_width() == old(self).spec_width(),
            final(self).spec_height() == old(self).spec_height(),
            final(self).spec_pixels() == overlaid(old(self).spec_pixels(), old(self).spec_width(), old(self).spec_height()),
    {
        let mut pixels: Vec<u8> = Vec::new();
        std::mem::swap(&mut pixels, &mut self.pixels);
        let color = Rgba { r: 0, g: 0, b: 0, a: OVERLAY_ALPHA };
        self.pixels = fill_over(pixels, self.width, self.height, color);
    }

    /// Serializes the canvas as PNG.
    pub fn encode_png(&self) -> (r: Result<Vec<u8>, CanvasError>)
        requires
            self.wf(),
        ensures
            match png_encoded(self.spec_pixels(), self.spec_width(), self.spec_height()) {
                Some(b) => r == Ok::<Vec<u8>, CanvasError>(r->Ok_0) && r->Ok_0@ == b,
                None => r == Err::<Vec<u8>, CanvasError>(CanvasError::Encode),
            },
    {
        match encode_png_bytes(self.pixels.as_slice(), self.width, self.height) {
            Some(b) => Ok(b),
            None => Err(CanvasError::Encode),
        }
    }
}

/// Number of bytes of a canvas of the given size.
fn byte_count(width: u32, height: u32) -> (r: u64)
    requires
        size_ok(width, height),
    ensures
        r == width * height * 4,
{
    assert(width as int * height as int * 4 <= 0x4000_0000_0000_0000) by (nonlinear_arith)
        requires
            0 <= width <= 536_870_911,
            0 <= height <= 2_147_483_647;
    width as u64 * height as u64 * 4
}

/// `premultiply_channel`, computed.
fn premultiply(c: u8, a: u8) -> (r: u8)
    ensures
        r == premultiply_channel(c, a),
{
    assert(c as int * a as int <= 65025) by (nonlinear_arith)
        requires
            0 <= c <= 255,
            0 <= a <= 255;
    let p: u32 = c as u32 * a as u32 + 128;
    ((p + p / 256) / 256) as u8
}

/// Rewrites straight RGBA bytes as premultiplied RGBA.
fn premultiply_all(pixels: &mut Vec<u8>)
    requires
        old(pixels)@.len() % 4 == 0,
    ensures
        final(pixels)@ == premultiplied_of(old(pixels)@),
{
    let ghost orig = pixels@;
    let len: usize = pixels.len();
    let n: usize = len / 4;
    let mut p: usize = 0;
    while p < n
        invariant
            len == pixels@.len(),
            len == orig.len(),
            n == len / 4,
            len % 4 == 0,
            0 <= p <= n,
            forall|i: int| 0 <= i < 4 * p ==> pixels@[i] == #[trigger] premultiplied_of(orig)[i],
            forall|i: int| 4 * p <= i < len ==> pixels@[i] == #[trigger] orig[i],
        decreases n - p,
    {
        assert(4 * p + 3 < len) by (nonlinear_arith)
            requires
                p < n,
                n == len / 4,
                len % 4 == 0;
        let i: usize = 4 * p;
        let a = pixels[i + 3];
        let r = premultiply(pixels[i], a);
        pixels.set(i, r);
        let g = premultiply(pixels[i + 1], a);
        pixels.set(i + 1, g);
        let b = premultiply(pixels[i + 2], a);
        pixels.set(i + 2, b);
        proof {
            assert forall|k: int| 0 <= k < 4 * (p + 1) implies pixels@[k] == #[trigger] premultiplied_of(orig)[k] by {
                if k >= 4 * p {
                    let j = k - 4 * p;
                    assert(k % 4 == j && k - k % 4 + 3 == i + 3) by (nonlinear_arith)
                        requires
                            k == 4 * p + j,
                            0 <= j < 4,
                            i == 4 * p;
                }
            }
        }
        p = p + 1;
    }
    assert(pixels@ =~= premultiplied_of(orig));
}

/// Builds a canvas from decoded straight RGBA pixels: each pixel is made
/// premultiplied (an opaque pixel is copied verbatim), then the canvas is
/// darkened with one pass of the overlay. Fails as `canvas_refusal` says.
pub fn canvas_from_rgba(width: u32, height: u32, pixels: Vec<u8>) -> (r: Result<PixelCanvas, CanvasError>)
    ensures
        match canvas_refusal(width, height, pixels@) {
            Some(e) => r == Err::<PixelCanvas, CanvasError>(e),
            None => r is Ok && r->Ok_0.wf() && r->Ok_0.spec_width() == width && r->Ok_0.spec_height()
                == height && r->Ok_0.spec_pixels().len() == width * height * 4
                && r->Ok_0.spec_pixels() == overlaid(premultiplied_of(pixels@), width, height),
        },
{
    if width == 0 || height == 0 {
        return Err(CanvasError::Decode);
    }
    if width > MAX_CANVAS_WIDTH || height > MAX_CANVAS_HEIGHT {
        return Err(CanvasError::Allocation);
    }
    if pixels.len() as u64 != byte_count(width, height) {
        return Err(CanvasError::Decode);
    }
    let mut pixels = pixels;
    premultiply_all(&mut pixels);
    let mut canvas = PixelCanvas { width, height, pixels };
    canvas.apply_overlay();
    Ok(canvas)
}

/// What `build_canvas` gives for background bytes, over the decoded image.
pub open spec fn canvas_outcome_is(r: Result<PixelCanvas, CanvasError>, bytes: Seq<u8>) -> bool {
    match decoded_rgba(bytes) {
        None => r == Err::<PixelCanvas, CanvasError>(CanvasError::Decode),
        Some((w, h, px)) => match canvas_refusal(w, h, px) {
            Some(e) => r == Err::<PixelCanvas, CanvasError>(e),
            None => r is Ok && r->Ok_0.wf() && r->Ok_0.spec_width() == w && r->Ok_0.spec_height() == h
                && r->Ok_0.spec_pixels() == overlaid(premultiplied_of(px), w, h),
        },
    }
}

/// Decodes a background image and builds its darkened canvas.
pub fn build_canvas(background: &[u8]) -> (r: Result<PixelCanvas, CanvasError>)
    ensures
        canvas_outcome_is(r, background@),
{
    match decode_rgba(background) {
        None => Err(CanvasError::Decode),
        Some((width, height, pixels)) => canvas_from_rgba(width, height, pixels),
    }
}

} // verus!
