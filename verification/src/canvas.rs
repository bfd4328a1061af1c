//! An RGBA pixel canvas backed by the `image` crate's `RgbaImage`.
use vstd::prelude::*;

verus! {

/// A pixel colour: red, green, blue, alpha.
pub type Px = (u8, u8, u8, u8);

/// An RGBA image held by the `image` crate; the pixels are stored row by
/// row, four bytes each.
#[verifier::external_body]
pub struct RgbaCanvas {
    img: image::RgbaImage,
}

/// The pixels of a canvas, row by row (pixel `(x, y)` at `y * width + x`).
pub uninterp spec fn canvas_pixels(c: RgbaCanvas) -> Seq<Px>;

/// The width and height the canvas was made with.
pub uninterp spec fn canvas_dims(c: RgbaCanvas) -> (u32, u32);

impl RgbaCanvas {
    /// `ImageBuffer::new`: a `width` x `height` image whose bytes are all zero.
    /// It panics when `4 * width * height` overflows `usize`, which `requires`
    /// leaves out.
    #[verifier::external_body]
    pub(crate) fn new(width: u32, height: u32) -> (c: Self)
        requires
            4 * width * height <= usize::MAX,
        ensures
            canvas_dims(c) == (width, height),
            canvas_pixels(c) == Seq::new((width * height) as nat, |i: int| (0u8, 0u8, 0u8, 0u8)),
    {
        RgbaCanvas { img: image::ImageBuffer::new(width, height) }
    }

    /// `ImageBuffer::put_pixel`: overwrite the pixel at `(x, y)`. It panics
    /// outside the image, which `requires` leaves out.
    #[verifier::external_body]
    pub(crate) fn put_pixel(&mut self, x: u32, y: u32, color: Px)
        requires
            x < canvas_dims(*old(self)).0,
            y < canvas_dims(*old(self)).1,
        ensures
            canvas_dims(*final(self)) == canvas_dims(*old(self)),
            canvas_pixels(*final(self)) == canvas_pixels(*old(self)).update(
                y * canvas_dims(*old(self)).0 + x,
                color,
            ),
    {
        self.img.put_pixel(x, y, image::Rgba([color.0, color.1, color.2, color.3]));
    }

    /// `ImageBuffer::width`.
    #[verifier::external_body]
    pub(crate) fn width(&self) -> (r: u32)
        ensures
            r == canvas_dims(*self).0,
    {
        self.img.width()
    }

    /// `ImageBuffer::height`.
    #[verifier::external_body]
    pub(crate) fn height(&self) -> (r: u32)
        ensures
            r == canvas_dims(*self).1,
    {
        self.img.height()
    }

    /// `ImageBuffer::into_raw`: the bytes, four per pixel in R, G, B, A order.
    #[verifier::external_body]
    pub(crate) fn into_raw(self) -> (r: Vec<u8>)
        ensures
            r@ == raw_bytes(canvas_pixels(self)),
    {
        self.img.into_raw()
    }
}

/// Pixels laid out as bytes: four per pixel, in R, G, B, A order.
pub open spec fn raw_bytes(p: Seq<Px>) -> Seq<u8> {
    Seq::new(
        4 * p.len(),
        |i: int|
            {
                let q = p[i / 4];
                if i % 4 == 0 {
                    q.0
                } else if i % 4 == 1 {
                    q.1
                } else if i % 4 == 2 {
                    q.2
                } else {
                    q.3
                }
            },
    )
}

} // verus!
