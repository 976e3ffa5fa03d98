//! The tray icon: a dark disc on a transparent square, crossed by a white
//! waveform. The waveform's shape is a floating-point curve that the caller
//! samples into a per-pixel mask; this module decides everything else.
use vstd::prelude::*;

verus! {

/// Width and height of the icon in pixels.
pub const ICON_SIDE: u32 = 32;

/// Number of pixels in the icon.
pub const ICON_PIXELS: usize = 1024;

/// Number of bytes in the icon's RGBA buffer.
pub const ICON_BYTES: usize = 4096;

/// Whether pixel `(x, y)` lies on the dark disc: within 15 pixels of the
/// centre `(16, 16)`.
pub open spec fn in_disc(x: int, y: int) -> bool {
    (x - 16) * (x - 16) + (y - 16) * (y - 16) <= 225
}

/// Whether column `x` lies inside the waveform's horizontal padding
/// (four pixels kept clear on each side).
pub open spec fn in_wave_columns(x: int) -> bool {
    4 <= x <= 28
}

/// Whether the caller's mask marks pixel `(x, y)` as touched by the waveform;
/// a mask too short to hold the pixel marks nothing there.
pub open spec fn wave_marks(wave: Seq<bool>, x: int, y: int) -> bool {
    let i = y * 32 + x;
    0 <= i < wave.len() && wave[i]
}

/// Whether pixel `(x, y)` is painted white.
pub open spec fn is_wave_pixel(wave: Seq<bool>, x: int, y: int) -> bool {
    in_disc(x, y) && in_wave_columns(x) && wave_marks(wave, x, y)
}

/// Channel `c` (0 red, 1 green, 2 blue, 3 alpha) of pixel `(x, y)`.
pub open spec fn icon_channel(wave: Seq<bool>, x: int, y: int, c: int) -> u8 {
    if !in_disc(x, y) {
        0u8
    } else if is_wave_pixel(wave, x, y) {
        255u8
    } else if c == 3 {
        255u8
    } else {
        15u8
    }
}

/// The whole RGBA buffer, row by row, four bytes per pixel.
pub open spec fn icon_bytes(wave: Seq<bool>) -> Seq<u8> {
    Seq::new(4096, |i: int| icon_channel(wave, (i / 4) % 32, (i / 4) / 32, i % 4))
}

fn disc_contains(x: u32, y: u32) -> (b: bool)
    requires
        x < 32,
        y < 32,
    ensures
        b == in_disc(x as int, y as int),
{
    let dx: i32 = x as i32 - 16;
    let dy: i32 = y as i32 - 16;
    assert(0 <= dx * dx <= 256 && 0 <= dy * dy <= 256) by (nonlinear_arith)
        requires
            -16 <= dx <= 15,
            -16 <= dy <= 15,
    ;
    dx * dx + dy * dy <= 225
}

/// Builds the tray icon's RGBA buffer with its width and height.
///
/// `wave[y * 32 + x]` says whether the waveform passes through pixel
/// `(x, y)`; it is only consulted inside the disc and the padded columns.
pub fn create_tray_icon_rgba(wave: &Vec<bool>) -> (res: (Vec<u8>, u32, u32))
    ensures
        res.1 == ICON_SIDE,
        res.2 == ICON_SIDE,
        res.0@.len() == res.1 * res.2 * 4,
        res.0@ == icon_bytes(wave@),
{
    let mut rgba: Vec<u8> = Vec::with_capacity(ICON_BYTES);
    let mut p: usize = 0;
    while p < ICON_PIXELS
        invariant
            p <= 1024,
            rgba@.len() == 4 * p,
            forall|i: int| 0 <= i < 4 * p ==> rgba@[i] == #[trigger] icon_bytes(wave@)[i],
        decreases 1024 - p,
    {
        let x: u32 = (p % 32) as u32;
        let y: u32 = (p / 32) as u32;
        let (r, g, b, a): (u8, u8, u8, u8) = if !disc_contains(x, y) {
            (0, 0, 0, 0)
        } else {
            let idx: usize = p;
            let marked = idx < wave.len() && wave[idx];
            if 4 <= x && x <= 28 && marked {
                (255, 255, 255, 255)
            } else {
                (15, 15, 15, 255)
            }
        };
        proof {
            assert(p as int == y * 32 + x);
        }
        rgba.push(r);
        rgba.push(g);
        rgba.push(b);
        rgba.push(a);
        proof {
            assert forall|i: int| 0 <= i < 4 * (p + 1) implies rgba@[i] == #[trigger] icon_bytes(
                wave@,
            )[i] by {
                if i >= 4 * p {
                    assert(i / 4 == p as int);
                }
            }
        }
        p = p + 1;
    }
    (rgba, ICON_SIDE, ICON_SIDE)
}

/// Byte `c` of pixel `(x, y)` in the icon's buffer is that pixel's channel `c`.
pub proof fn icon_pixel_channel(wave: Seq<bool>, x: int, y: int, c: int)
    requires
        0 <= x < 32,
        0 <= y < 32,
        0 <= c < 4,
    ensures
        0 <= (y * 32 + x) * 4 + c < 4096,
        icon_bytes(wave)[(y * 32 + x) * 4 + c] == icon_channel(wave, x, y, c),
{
    let i = (y * 32 + x) * 4 + c;
    assert(i / 4 == y * 32 + x);
    assert(i % 4 == c);
    assert((y * 32 + x) % 32 == x);
    assert((y * 32 + x) / 32 == y);
}

/// A pixel is opaque exactly when it lies on the disc, and fully
/// transparent (all four bytes zero) everywhere else.
pub proof fn icon_opaque_exactly_on_disc(wave: Seq<bool>, x: int, y: int)
    requires
        0 <= x < 32,
        0 <= y < 32,
    ensures
        icon_bytes(wave)[(y * 32 + x) * 4 + 3] == (if in_disc(x, y) { 255u8 } else { 0u8 }),
        !in_disc(x, y) ==> forall|c: int|
            0 <= c < 4 ==> #[trigger] icon_bytes(wave)[(y * 32 + x) * 4 + c] == 0,
{
    icon_pixel_channel(wave, x, y, 3);
    assert forall|c: int| 0 <= c < 4 implies #[trigger] icon_bytes(wave)[(y * 32 + x) * 4 + c]
        == icon_channel(wave, x, y, c) by {
        icon_pixel_channel(wave, x, y, c);
    }
}

/// The four corners of the icon are transparent.
pub proof fn icon_corners_transparent(wave: Seq<bool>)
    ensures
        icon_bytes(wave)[3] == 0,
        icon_bytes(wave)[127] == 0,
        icon_bytes(wave)[3971] == 0,
        icon_bytes(wave)[4095] == 0,
{
    assert(!in_disc(0, 0) && !in_disc(31, 0) && !in_disc(0, 31) && !in_disc(31, 31)) by (nonlinear_arith);
    icon_pixel_channel(wave, 0, 0, 3);
    icon_pixel_channel(wave, 31, 0, 3);
    icon_pixel_channel(wave, 0, 31, 3);
    icon_pixel_channel(wave, 31, 31, 3);
}

/// Every pixel is transparent, dark or white; a white pixel lies on the
/// disc, inside the padded columns, where the mask marks the waveform.
pub proof fn icon_palette(wave: Seq<bool>, x: int, y: int)
    requires
        0 <= x < 32,
        0 <= y < 32,
    ensures
        ({
            let p = (y * 32 + x) * 4;
            let px = (icon_bytes(wave)[p], icon_bytes(wave)[p + 1], icon_bytes(wave)[p + 2], icon_bytes(wave)[p + 3]);
            ||| px == (0u8, 0u8, 0u8, 0u8) && !in_disc(x, y)
            ||| px == (15u8, 15u8, 15u8, 255u8) && in_disc(x, y) && !is_wave_pixel(wave, x, y)
            ||| px == (255u8, 255u8, 255u8, 255u8) && in_disc(x, y) && in_wave_columns(x) && wave_marks(wave, x, y)
        }),
{
    icon_pixel_channel(wave, x, y, 0);
    icon_pixel_channel(wave, x, y, 1);
    icon_pixel_channel(wave, x, y, 2);
    icon_pixel_channel(wave, x, y, 3);
}

/// The icon depends on the waveform mask only where the waveform can be
/// drawn: two masks that agree on the disc's padded columns give the same
/// icon.
pub proof fn icon_ignores_mask_outside_band(w1: Seq<bool>, w2: Seq<bool>)
    requires
        forall|x: int, y: int|
            0 <= x < 32 && 0 <= y < 32 && in_disc(x, y) && in_wave_columns(x) ==> wave_marks(w1, x, y)
                == wave_marks(w2, x, y),
    ensures
        icon_bytes(w1) == icon_bytes(w2),
{
    assert forall|i: int| 0 <= i < 4096 implies #[trigger] icon_bytes(w1)[i] == icon_bytes(w2)[i] by {
        let x = (i / 4) % 32;
        let y = (i / 4) / 32;
        assert(0 <= x < 32 && 0 <= y < 32);
        assert(wave_marks(w1, x, y) == wave_marks(w2, x, y) || !(in_disc(x, y) && in_wave_columns(x)));
    }
    assert(icon_bytes(w1) =~= icon_bytes(w2));
}

/// Every pixel of the icon, stated from its coordinates and the mask alone:
/// a pixel within 15 of the centre (16, 16), in columns 4..=28, whose mask
/// entry `wave[y * 32 + x]` is set is white (255, 255, 255, 255), whatever its
/// row; any other pixel within 15 of the centre is dark (15, 15, 15, 255);
/// every pixel farther out is transparent (0, 0, 0, 0).
pub proof fn icon_pixels_from_coordinates(wave: Seq<bool>, x: int, y: int)
    requires
        0 <= x < 32,
        0 <= y < 32,
    ensures
        ({
            let p = (y * 32 + x) * 4;
            let bytes = icon_bytes(wave);
            let on_disc = (x - 16) * (x - 16) + (y - 16) * (y - 16) <= 225;
            let marked = 4 <= x <= 28 && y * 32 + x < wave.len() && wave[y * 32 + x];
            &&& bytes.len() == 4096
            &&& on_disc && marked ==> bytes[p] == 255 && bytes[p + 1] == 255 && bytes[p + 2] == 255
                && bytes[p + 3] == 255
            &&& on_disc && !marked ==> bytes[p] == 15 && bytes[p + 1] == 15 && bytes[p + 2] == 15
                && bytes[p + 3] == 255
            &&& !on_disc ==> bytes[p] == 0 && bytes[p + 1] == 0 && bytes[p + 2] == 0 && bytes[p + 3]
                == 0
        }),
{
    icon_pixel_channel(wave, x, y, 0);
    icon_pixel_channel(wave, x, y, 1);
    icon_pixel_channel(wave, x, y, 2);
    icon_pixel_channel(wave, x, y, 3);
}

/// Every marked pixel of the disc's padded columns is white, in every row
/// of the icon: the waveform is drawn whole, above and below the centre.
pub proof fn icon_marked_pixels_are_white(wave: Seq<bool>)
    ensures
        forall|x: int, y: int, c: int|
            0 <= x < 32 && 0 <= y < 32 && 0 <= c < 4 && (x - 16) * (x - 16) + (y - 16) * (y - 16)
                <= 225 && 4 <= x <= 28 && y * 32 + x < wave.len() && wave[y * 32 + x] ==> #[trigger] icon_bytes(
                wave,
            )[(y * 32 + x) * 4 + c] == 255,
{
    assert forall|x: int, y: int, c: int|
        0 <= x < 32 && 0 <= y < 32 && 0 <= c < 4 && (x - 16) * (x - 16) + (y - 16) * (y - 16) <= 225
            && 4 <= x <= 28 && y * 32 + x < wave.len() && wave[y * 32 + x] implies #[trigger] icon_bytes(
        wave,
    )[(y * 32 + x) * 4 + c] == 255 by {
        icon_pixel_channel(wave, x, y, c);
    }
}

} // verus!
