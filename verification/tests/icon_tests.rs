use flow_dictation::icon::create_tray_icon_rgba;

fn pixel(rgba: &[u8], x: usize, y: usize) -> [u8; 4] {
    let i = (y * 32 + x) * 4;
    [rgba[i], rgba[i + 1], rgba[i + 2], rgba[i + 3]]
}

const DARK: [u8; 4] = [15, 15, 15, 255];
const WHITE: [u8; 4] = [255, 255, 255, 255];
const CLEAR: [u8; 4] = [0, 0, 0, 0];

#[test]
fn icon_has_square_rgba_layout() {
    let (rgba, w, h) = create_tray_icon_rgba(&vec![false; 1024]);
    assert_eq!(w, 32);
    assert_eq!(h, 32);
    assert_eq!(rgba.len(), (w * h * 4) as usize);
}

#[test]
fn icon_corners_are_transparent() {
    let (rgba, _, _) = create_tray_icon_rgba(&vec![true; 1024]);
    assert_eq!(pixel(&rgba, 0, 0), CLEAR);
    assert_eq!(pixel(&rgba, 31, 0), CLEAR);
    assert_eq!(pixel(&rgba, 0, 31), CLEAR);
    assert_eq!(pixel(&rgba, 31, 31), CLEAR);
}

#[test]
fn icon_disc_edge() {
    let (rgba, _, _) = create_tray_icon_rgba(&vec![false; 1024]);
    // Distance exactly 15 from the centre lies on the disc.
    assert_eq!(pixel(&rgba, 16, 1), DARK);
    assert_eq!(pixel(&rgba, 1, 16), DARK);
    assert_eq!(pixel(&rgba, 31, 16), DARK);
    assert_eq!(pixel(&rgba, 16, 31), DARK);
    // Distance 16 does not.
    assert_eq!(pixel(&rgba, 16, 0), CLEAR);
    assert_eq!(pixel(&rgba, 0, 16), CLEAR);
    // (25, 28): 81 + 144 = 225 is on the disc, (26, 28): 100 + 144 = 244 is off.
    assert_eq!(pixel(&rgba, 25, 28), DARK);
    assert_eq!(pixel(&rgba, 26, 28), CLEAR);
    assert_eq!(pixel(&rgba, 16, 16), DARK);
}

#[test]
fn icon_counts_opaque_pixels_of_the_disc() {
    let (rgba, _, _) = create_tray_icon_rgba(&vec![false; 1024]);
    let opaque = rgba.chunks(4).filter(|p| p[3] == 255).count();
    let mut expected = 0;
    for y in 0i32..32 {
        for x in 0i32..32 {
            if (x - 16) * (x - 16) + (y - 16) * (y - 16) <= 225 {
                expected += 1;
            }
        }
    }
    assert_eq!(opaque, expected);
    assert_eq!(opaque, 709);
}

#[test]
fn icon_draws_wave_only_in_padded_columns_on_the_disc() {
    let (rgba, _, _) = create_tray_icon_rgba(&vec![true; 1024]);
    assert_eq!(pixel(&rgba, 4, 16), WHITE);
    assert_eq!(pixel(&rgba, 28, 16), WHITE);
    assert_eq!(pixel(&rgba, 16, 16), WHITE);
    // Columns 1..=3 and 29..=31 are padding.
    assert_eq!(pixel(&rgba, 3, 16), DARK);
    assert_eq!(pixel(&rgba, 29, 16), DARK);
    // Off the disc the mask is ignored.
    assert_eq!(pixel(&rgba, 4, 4), CLEAR);
}

#[test]
fn icon_wave_follows_the_mask() {
    let mut wave = vec![false; 1024];
    wave[10 * 32 + 12] = true;
    let (rgba, _, _) = create_tray_icon_rgba(&wave);
    assert_eq!(pixel(&rgba, 12, 10), WHITE);
    assert_eq!(pixel(&rgba, 13, 10), DARK);
    assert_eq!(pixel(&rgba, 12, 11), DARK);
    let whites = rgba.chunks(4).filter(|p| p[0] == 255).count();
    assert_eq!(whites, 1);
}

#[test]
fn icon_short_mask_marks_nothing_beyond_it() {
    let (rgba, _, _) = create_tray_icon_rgba(&vec![true; 16 * 32]);
    assert_eq!(pixel(&rgba, 16, 15), WHITE);
    assert_eq!(pixel(&rgba, 16, 16), DARK);
    let (empty, _, _) = create_tray_icon_rgba(&Vec::new());
    assert_eq!(pixel(&empty, 16, 16), DARK);
}

#[test]
fn icon_ignores_mask_outside_band() {
    let mut a = vec![false; 1024];
    let mut b = vec![false; 1024];
    a[16 * 32 + 2] = true;
    b[0] = true;
    let (ra, _, _) = create_tray_icon_rgba(&a);
    let (rb, _, _) = create_tray_icon_rgba(&b);
    let (rn, _, _) = create_tray_icon_rgba(&vec![false; 1024]);
    assert_eq!(ra, rn);
    assert_eq!(rb, rn);
}
