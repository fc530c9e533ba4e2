use crate::error::NokhwaError;
use crate::format::FrameFormat;
use vstd::prelude::*;

verus! {

/// `x` clamped into `0..=255`.
pub open spec fn clamp_byte(x: int) -> u8 {
    if x < 0 {
        0
    } else if x > 255 {
        255
    } else {
        x as u8
    }
}

/// Red of the BT.601 conversion: `clamp((298 (y - 16) + 409 (v - 128) + 128) >> 8)`.
pub open spec fn red_of(y: int, u: int, v: int) -> u8 {
    clamp_byte((298 * (y - 16) + 409 * (v - 128) + 128) / 256)
}

/// Green of the BT.601 conversion.
pub open spec fn green_of(y: int, u: int, v: int) -> u8 {
    clamp_byte((298 * (y - 16) - 100 * (u - 128) - 208 * (v - 128) + 128) / 256)
}

/// Blue of the BT.601 conversion.
pub open spec fn blue_of(y: int, u: int, v: int) -> u8 {
    clamp_byte((298 * (y - 16) + 516 * (u - 128) + 128) / 256)
}

/// `x >> 8`, clamped into a byte.
fn shift_clamp(x: i64) -> (r: u8)
    ensures
        r == clamp_byte(x as int / 256),
{
    if x < 0 {
        proof {
            assert(x as int / 256 < 0) by (nonlinear_arith)
                requires
                    x < 0,
            ;
        }
        0
    } else {
        let q: u64 = (x as u64) / 256;
        if q > 255 {
            255
        } else {
            q as u8
        }
    }
}

/// Converts one YCbCr 4:4:4 sample to RGB888 with the BT.601 integer constants.
pub fn yuyv444_to_rgb888(y: i32, u: i32, v: i32) -> (r: [u8; 3])
    ensures
        r@ == seq![red_of(y as int, u as int, v as int), green_of(y as int, u as int, v as int), blue_of(y as int, u as int, v as int)],
{
    let c298: i64 = (y as i64 - 16) * 298;
    let d: i64 = u as i64 - 128;
    let e: i64 = v as i64 - 128;
    let r = shift_clamp(c298 + 409 * e + 128);
    let g = shift_clamp(c298 - 100 * d - 208 * e + 128);
    let b = shift_clamp(c298 + 516 * d + 128);
    [r, g, b]
}

/// Channel `c` (0 red, 1 green, 2 blue) of the RGB888 pixel for a YCbCr sample.
pub open spec fn channel_of(c: int, y: int, u: int, v: int) -> u8 {
    if c == 0 {
        red_of(y, u, v)
    } else if c == 1 {
        green_of(y, u, v)
    } else {
        blue_of(y, u, v)
    }
}

/// Byte `i` of the RGB888 stream for a YUYV 4:2:2 stream: each 4-byte group `Y1 U Y2 V`
/// gives the two pixels `(Y1, U, V)` and `(Y2, U, V)`.
pub open spec fn yuyv422_byte(data: Seq<u8>, i: int) -> u8 {
    let g = i / 6;
    let j = i % 6;
    let y = if j < 3 { data[4 * g] } else { data[4 * g + 2] };
    channel_of(j % 3, y as int, data[4 * g + 1] as int, data[4 * g + 3] as int)
}

/// The RGB888 stream that a YUYV 4:2:2 stream of whole groups converts to.
pub open spec fn yuyv422_rgb(data: Seq<u8>) -> Seq<u8> {
    Seq::new((data.len() / 4 * 6) as nat, |i: int| yuyv422_byte(data, i))
}

/// A 4-byte group `Y1 U Y2 V` converts to exactly two RGB888 pixels, 6 bytes: `(Y1, U, V)`
/// then `(Y2, U, V)`, the chroma shared by both.
pub proof fn yuyv422_group_law(data: Seq<u8>)
    requires
        data.len() == 4,
    ensures
        yuyv422_rgb(data).len() == 6,
        yuyv422_rgb(data) == seq![
            red_of(data[0] as int, data[1] as int, data[3] as int),
            green_of(data[0] as int, data[1] as int, data[3] as int),
            blue_of(data[0] as int, data[1] as int, data[3] as int),
            red_of(data[2] as int, data[1] as int, data[3] as int),
            green_of(data[2] as int, data[1] as int, data[3] as int),
            blue_of(data[2] as int, data[1] as int, data[3] as int),
        ],
{
    assert(yuyv422_rgb(data) =~= seq![
        red_of(data[0] as int, data[1] as int, data[3] as int),
        green_of(data[0] as int, data[1] as int, data[3] as int),
        blue_of(data[0] as int, data[1] as int, data[3] as int),
        red_of(data[2] as int, data[1] as int, data[3] as int),
        green_of(data[2] as int, data[1] as int, data[3] as int),
        blue_of(data[2] as int, data[1] as int, data[3] as int),
    ]);
}

/// Converts a YUYV 4:2:2 stream to RGB888 (`R, G, B, R, G, B, ...`).
///
/// # Errors
/// A stream whose length is not a multiple of 4 is refused with a `ProcessFrameError`.
pub fn yuyv422_to_rgb888(data: &[u8]) -> (r: Result<Vec<u8>, NokhwaError>)
    ensures
        r is Ok <==> data@.len() % 4 == 0,
        r matches Ok(rgb) ==> rgb@ == yuyv422_rgb(data@),
        r matches Err(e) ==> e matches NokhwaError::ProcessFrameError { src, destination, .. } && src == FrameFormat::YUYV
            && destination@ == "RGB888"@,
{
    if data.len() % 4 != 0 {
        return Err(
            NokhwaError::ProcessFrameError {
                src: FrameFormat::YUYV,
                destination: String::from_str("RGB888"),
                error: String::from_str("the YUYV stream is not 4:2:2 (its length is not a multiple of 4)"),
            },
        );
    }
    let groups: usize = data.len() / 4;
    let mut rgb: Vec<u8> = Vec::new();
    let mut k: usize = 0;
    while k < groups
        invariant
            groups == data@.len() / 4,
            4 * groups <= data@.len() <= usize::MAX,
            k <= groups,
            rgb@.len() == 6 * k,
            forall|i: int| 0 <= i < 6 * k ==> rgb@[i] == #[trigger] yuyv422_byte(data@, i),
        decreases groups - k,
    {
        let base: usize = 4 * k;
        let y1 = data[base];
        let u = data[base + 1];
        let y2 = data[base + 2];
        let v = data[base + 3];
        let first_px = yuyv444_to_rgb888(y1 as i32, u as i32, v as i32);
        let second_px = yuyv444_to_rgb888(y2 as i32, u as i32, v as i32);
        rgb.push(first_px[0]);
        rgb.push(first_px[1]);
        rgb.push(first_px[2]);
        rgb.push(second_px[0]);
        rgb.push(second_px[1]);
        rgb.push(second_px[2]);
        proof {
            assert forall|i: int| 6 * k <= i < 6 * k + 6 implies rgb@[i] == #[trigger] yuyv422_byte(data@, i) by {
                assert(i / 6 == k as int);
                assert(i % 6 == i - 6 * k);
            }
        }
        k = k + 1;
    }
    assert(rgb@ =~= yuyv422_rgb(data@));
    Ok(rgb)
}

/// The RGB888 stream of an RGBA8888 stream of whole pixels: each pixel loses its alpha byte.
pub open spec fn rgba_to_rgb(rgba: Seq<u8>) -> Seq<u8> {
    Seq::new((rgba.len() / 4 * 3) as nat, |i: int| rgba[(i / 3) * 4 + i % 3])
}

/// Converts RGBA8888 to RGB888 by dropping each pixel's alpha byte.
pub fn rgba_to_rgb888(rgba: &[u8]) -> (r: Vec<u8>)
    ensures
        r@ == rgba_to_rgb(rgba@),
{
    let pixels: usize = rgba.len() / 4;
    let mut rgb: Vec<u8> = Vec::new();
    let mut p: usize = 0;
    while p < pixels
        invariant
            pixels == rgba@.len() / 4,
            4 * pixels <= rgba@.len() <= usize::MAX,
            p <= pixels,
            rgb@.len() == 3 * p,
            forall|i: int| 0 <= i < 3 * p ==> rgb@[i] == #[trigger] rgba@[(i / 3) * 4 + i % 3],
        decreases pixels - p,
    {
        let base: usize = 4 * p;
        rgb.push(rgba[base]);
        rgb.push(rgba[base + 1]);
        rgb.push(rgba[base + 2]);
        proof {
            assert forall|i: int| 3 * p <= i < 3 * p + 3 implies rgb@[i] == #[trigger] rgba@[(i / 3) * 4 + i % 3] by {
                assert(i / 3 == p as int);
                assert(i % 3 == i - 3 * p);
            }
        }
        p = p + 1;
    }
    assert(rgb@ =~= rgba_to_rgb(rgba@));
    rgb
}

/// The RGB888 stream of a sequence of RGB pixels, packed one after another.
pub open spec fn packed_pixels(pixels: Seq<[u8; 3]>) -> Seq<u8> {
    Seq::new(3 * pixels.len(), |i: int| pixels[i / 3]@[i % 3])
}

/// Packs the pixels that a JPEG decoder read, scanline after scanline, into one RGB888 stream;
/// a decoder failure, with its message, becomes a `ProcessFrameError` from MJPEG to RGB888.
pub fn rgb888_from_scanlines(decoded: Result<Vec<[u8; 3]>, String>) -> (r: Result<Vec<u8>, NokhwaError>)
    ensures
        r is Ok <==> decoded is Ok,
        r matches Ok(rgb) ==> rgb@ == packed_pixels(decoded->Ok_0@),
        r matches Err(e) ==> e matches NokhwaError::ProcessFrameError { src, destination, error } && src == FrameFormat::MJPEG
            && destination@ == "RGB888"@ && error@ == decoded->Err_0@,
{
    let pixels = match decoded {
        Ok(pixels) => pixels,
        Err(why) => {
            return Err(
                NokhwaError::ProcessFrameError {
                    src: FrameFormat::MJPEG,
                    destination: String::from_str("RGB888"),
                    error: why,
                },
            );
        },
    };
    let mut rgb: Vec<u8> = Vec::new();
    let mut p: usize = 0;
    while p < pixels.len()
        invariant
            p <= pixels@.len(),
            rgb@.len() == 3 * p,
            forall|i: int| 0 <= i < 3 * p ==> rgb@[i] == #[trigger] pixels@[i / 3]@[i % 3],
        decreases pixels@.len() - p,
    {
        let px = pixels[p];
        rgb.push(px[0]);
        rgb.push(px[1]);
        rgb.push(px[2]);
        proof {
            assert forall|i: int| 3 * p <= i < 3 * p + 3 implies rgb@[i] == #[trigger] pixels@[i / 3]@[i % 3] by {
                assert(i / 3 == p as int);
                assert(i % 3 == i - 3 * p);
            }
        }
        p = p + 1;
    }
    assert(rgb@ =~= packed_pixels(pixels@));
    Ok(rgb)
}

} // verus!
