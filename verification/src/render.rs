//! PNG encoding of freshly rendered pixel buffers, and the fixed-size
//! thumbnail policy.
//!
//! The rendering library composes pages and image objects into RGBA
//! pixel buffers, one per payload or thumbnail read; this module turns
//! such a buffer into the single documented output encoding (a PNG byte
//! stream) and decides the dimensions a page thumbnail is rendered at.

use vstd::prelude::*;
use crate::model::{Bitmap, MAX_DIM_MILLIPOINTS};
use crate::value::TableError;

verus! {

/// The PNG byte stream encoding an RGBA pixel buffer: a function of the
/// dimensions and pixels alone.
pub uninterp spec fn png_of(width: u32, height: u32, rgba: Seq<u8>) -> Seq<u8>;

/// Relies on image's PNG encoder (`RgbaImage::from_raw` plus `write_to`
/// with the PNG format): for a buffer that matches its nonzero
/// dimensions, encoding to an in-memory stream succeeds, produces a
/// nonempty stream, and depends on the dimensions and pixels alone.
#[verifier::external_body]
fn encode_png(width: u32, height: u32, rgba: &Vec<u8>) -> (r: Vec<u8>)
    requires
        1 <= width,
        1 <= height,
        rgba@.len() == 4 * width * height,
    ensures
        r@ == png_of(width, height, rgba@),
        r@.len() > 0,
{
    let img = image::RgbaImage::from_raw(width, height, rgba.clone())
        .expect("buffer matches dimensions");
    let mut cursor = std::io::Cursor::new(Vec::new());
    img.write_to(&mut cursor, image::ImageOutputFormat::Png)
        .expect("in-memory png encoding of a well-formed buffer");
    cursor.into_inner()
}

/// Encode one freshly rendered pixel buffer — an image object's
/// composited pixels, or a page thumbnail — as the payload's PNG byte
/// stream. A buffer that does not match its declared dimensions is the
/// renderer misbehaving: the read it belongs to fails with an error,
/// never a silent null.
pub fn encode_payload_png(bmp: &Bitmap) -> (r: Result<Vec<u8>, TableError>)
    ensures
        match r {
            Ok(b) => bmp.wf() && b@ == png_of(bmp.width, bmp.height, bmp.rgba@) && b@.len() > 0,
            Err(e) => e == TableError::MalformedBitmap && !bmp.wf(),
        },
{
    if !bmp.is_wf() {
        return Err(TableError::MalformedBitmap);
    }
    Ok(encode_png(bmp.width, bmp.height, &bmp.rgba))
}

/// The target length of the short side when the long side is scaled to
/// 256: proportional, but never rounded down to nothing.
pub open spec fn thumb_side(short: int, long: int) -> int {
    let s = 256 * short / long;
    if s < 1 {
        1
    } else {
        s
    }
}

/// The fixed thumbnail policy: scale a page's declared geometry so that
/// its longest dimension becomes exactly 256 pixels, the other side
/// proportionally (at least one pixel).
pub fn thumbnail_dimensions(width: i64, height: i64) -> (r: (u32, u32))
    requires
        0 < width <= MAX_DIM_MILLIPOINTS,
        0 < height <= MAX_DIM_MILLIPOINTS,
    ensures
        width >= height ==> r.0 == 256 && r.1 == thumb_side(height as int, width as int),
        width < height ==> r.1 == 256 && r.0 == thumb_side(width as int, height as int),
        1 <= r.0 <= 256,
        1 <= r.1 <= 256,
        r.0 == 256 || r.1 == 256,
{
    if width >= height {
        let s: i64 = 256 * height / width;
        proof {
            assert(0 <= 256 * (height as int) / (width as int) <= 256) by (nonlinear_arith)
                requires
                    0 < height <= width,
            ;
        }
        let side: u32 = if s < 1 {
            1
        } else {
            s as u32
        };
        (256, side)
    } else {
        let s: i64 = 256 * width / height;
        proof {
            assert(0 <= 256 * (width as int) / (height as int) <= 256) by (nonlinear_arith)
                requires
                    0 < width <= height,
            ;
        }
        let side: u32 = if s < 1 {
            1
        } else {
            s as u32
        };
        (side, 256)
    }
}

/// Payloads and thumbnails are deterministic in the rendered pixels: two
/// encodings of the same pixel buffer are byte-identical.
pub proof fn thumbnail_deterministic(bmp: Bitmap, b1: Seq<u8>, b2: Seq<u8>)
    requires
        b1 == png_of(bmp.width, bmp.height, bmp.rgba@),
        b2 == png_of(bmp.width, bmp.height, bmp.rgba@),
    ensures
        b1 == b2,
{
}

} // verus!
