//! The RGBA image buffer of the `image` crate, as the icon code uses it.
//!
//! The buffer is opaque to the verifier; what it holds is named by
//! `rgba_bytes` (the raw channel bytes, row by row, four per pixel) and its
//! size by `rgba_width` and `rgba_height`.

use vstd::prelude::*;

verus! {

/// An RGBA image of the `image` crate (`image::RgbaImage`). The `image`
/// crate's buffer type cannot be declared to the verifier (its pixel
/// parameter is bound by an outside trait), so it is held here, hidden.
#[verifier::external_body]
pub struct RgbaCanvas {
    img: image::RgbaImage,
}

/// The channel bytes an RGBA image holds: pixel `(x, y)` takes the four
/// bytes from `(y * width + x) * 4` on, red, green, blue, alpha.
pub uninterp spec fn rgba_bytes(img: RgbaCanvas) -> Seq<u8>;

/// The width an RGBA image was made with.
pub uninterp spec fn rgba_width(img: RgbaCanvas) -> u32;

/// The height an RGBA image was made with.
pub uninterp spec fn rgba_height(img: RgbaCanvas) -> u32;

/// Index of the first byte of pixel `(x, y)` in an image `width` pixels wide.
pub open spec fn pixel_offset(width: u32, x: u32, y: u32) -> int {
    (y * width + x) * 4
}

/// `ImageBuffer::from_pixel`: an image of `width` x `height` pixels, all of
/// them `px`. It panics when the byte count overflows `usize`, which the
/// `requires` leaves out.
#[verifier::external_body]
pub(crate) fn rgba_from_pixel(width: u32, height: u32, px: [u8; 4]) -> (img: RgbaCanvas)
    requires
        width * height * 4 <= usize::MAX,
    ensures
        rgba_width(img) == width,
        rgba_height(img) == height,
        rgba_bytes(img) == Seq::new((width * height * 4) as nat, |i: int| px@[i % 4]),
{
    RgbaCanvas { img: image::ImageBuffer::from_pixel(width, height, image::Rgba(px)) }
}

/// `ImageBuffer::put_pixel`: pixel `(x, y)` becomes `px`, every other byte
/// stays. It panics outside the image, which the `requires` leaves out.
#[verifier::external_body]
pub(crate) fn rgba_put_pixel(
    img: &mut RgbaCanvas,
    x: u32,
    y: u32,
    px: [u8; 4],
)
    requires
        x < rgba_width(*old(img)),
        y < rgba_height(*old(img)),
    ensures
        rgba_width(*final(img)) == rgba_width(*old(img)),
        rgba_height(*final(img)) == rgba_height(*old(img)),
        rgba_bytes(*final(img)).len() == rgba_bytes(*old(img)).len(),
        forall|i: int|
            0 <= i < rgba_bytes(*old(img)).len() ==> #[trigger] rgba_bytes(*final(img))[i] == {
                let o = pixel_offset(rgba_width(*old(img)), x, y);
                if o <= i < o + 4 { px@[i - o] } else { rgba_bytes(*old(img))[i] }
            },
{
    img.img.put_pixel(x, y, image::Rgba(px));
}

/// `ImageBuffer::get_pixel`: the four bytes of pixel `(x, y)`. It panics
/// outside the image, which the `requires` leaves out.
#[verifier::external_body]
pub(crate) fn rgba_get_pixel(img: &RgbaCanvas, x: u32, y: u32) -> (px: [u8; 4])
    requires
        x < rgba_width(*img),
        y < rgba_height(*img),
    ensures
        forall|k: int| 0 <= k < 4 ==> #[trigger] px@[k] == rgba_bytes(*img)[pixel_offset(rgba_width(*img), x, y) + k],
{
    img.img.get_pixel(x, y).0
}

/// `ImageBuffer::into_raw`: the channel bytes.
#[verifier::external_body]
pub(crate) fn rgba_into_raw(img: RgbaCanvas) -> (v: Vec<u8>)
    ensures
        v@ == rgba_bytes(img),
{
    img.img.into_raw()
}

} // verus!
