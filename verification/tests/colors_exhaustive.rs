use alacritty_tabs::color::Rgb;
use alacritty_tabs::tab::TabBarColors;

/// The colour derivation in single-precision floating point, the way the
/// renderer writes it.
fn float_colors(bg: Rgb) -> TabBarColors {
    let lighten = |c: Rgb, amount: f32| -> Rgb {
        let r = (c.r as f32 + amount).clamp(0.0, 255.0) as u8;
        let g = (c.g as f32 + amount).clamp(0.0, 255.0) as u8;
        let b = (c.b as f32 + amount).clamp(0.0, 255.0) as u8;
        Rgb::new(r, g, b)
    };
    let luminance = 0.299 * bg.r as f32 + 0.587 * bg.g as f32 + 0.114 * bg.b as f32;
    let is_dark = luminance < 128.0;
    let (inactive_offset, text_brightness) = if is_dark { (25.0, 200) } else { (-25.0, 55) };
    let text_color = Rgb::new(text_brightness, text_brightness, text_brightness);
    let active_text = if is_dark { Rgb::new(255, 255, 255) } else { Rgb::new(0, 0, 0) };
    TabBarColors {
        bar_bg: lighten(bg, inactive_offset * 0.5),
        inactive_bg: lighten(bg, inactive_offset),
        active_bg: bg,
        text: text_color,
        active_text,
        close_button: Rgb::new(180, 60, 60),
    }
}

fn compare_reds(reds: std::ops::Range<u16>) {
    for r in reds {
        for g in 0..=255u8 {
            for b in 0..=255u8 {
                let bg = Rgb::new(r as u8, g, b);
                assert_eq!(TabBarColors::from_background(bg), float_colors(bg), "background {:?}", bg);
            }
        }
    }
}

#[test]
fn colors_match_single_precision_reds_0_to_63() {
    compare_reds(0..64);
}

#[test]
fn colors_match_single_precision_reds_64_to_127() {
    compare_reds(64..128);
}

#[test]
fn colors_match_single_precision_reds_128_to_191() {
    compare_reds(128..192);
}

#[test]
fn colors_match_single_precision_reds_192_to_255() {
    compare_reds(192..256);
}
