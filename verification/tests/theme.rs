use orbit::theme::{
    accent_foreground, adjust_color, colour_cuts_character, css_palette, generate_css,
    hex_to_rgb, hex_to_rgba, rgb_is_dark, rgb_is_light, theme_colors_from, theme_default_colors,
    ThemeOverrides,
};

fn luminance(r: u8, g: u8, b: u8) -> f32 {
    (0.299 * r as f32 + 0.587 * g as f32 + 0.114 * b as f32) / 255.0
}

fn reference_adjust(hex: &str, factor: f32) -> String {
    let (r, g, b) = hex_to_rgb(hex);
    let is_light = luminance(r, g, b) > 0.5;
    let f = if is_light { 1.0 - factor } else { 1.0 + factor };
    let nr = (r as f32 * f).clamp(0.0, 255.0) as u8;
    let ng = (g as f32 * f).clamp(0.0, 255.0) as u8;
    let nb = (b as f32 * f).clamp(0.0, 255.0) as u8;
    format!("#{:02x}{:02x}{:02x}", nr, ng, nb)
}

#[test]
fn brightness_matches_single_precision_formula_for_every_colour() {
    for r in 0..=255u8 {
        for g in 0..=255u8 {
            for b in 0..=255u8 {
                let l = luminance(r, g, b);
                assert_eq!(rgb_is_dark((r, g, b)), l < 0.5, "{} {} {}", r, g, b);
                assert_eq!(rgb_is_light((r, g, b)), l > 0.5, "{} {} {}", r, g, b);
            }
        }
    }
}

#[test]
fn colour_shifts_match_single_precision_scaling() {
    let mut r = 0u32;
    while r <= 255 {
        let mut g = 0u32;
        while g <= 255 {
            let mut b = 0u32;
            while b <= 255 {
                let hex = format!("#{:02x}{:02x}{:02x}", r, g, b);
                assert_eq!(adjust_color(&hex, 20), reference_adjust(&hex, 0.2), "{}", hex);
                assert_eq!(adjust_color(&hex, 15), reference_adjust(&hex, 0.15), "{}", hex);
                b += 3;
            }
            g += 7;
        }
        r += 5;
    }
}

#[test]
fn colour_parsing() {
    assert_eq!(hex_to_rgb("#8b5cf6"), (139, 92, 246));
    assert_eq!(hex_to_rgb("##FFffFF"), (255, 255, 255));
    assert_eq!(hex_to_rgb("#fff"), (0, 0, 0));
    assert_eq!(hex_to_rgb("#zz0000"), (0, 0, 0));
    assert_eq!(hex_to_rgb("#+f+f+f"), (15, 15, 15));
    assert!(colour_cuts_character("#aé000"));
    assert!(!colour_cuts_character("#aabbcc"));
    assert!(!colour_cuts_character("#é"));
}

#[test]
fn accent_text_colour() {
    assert_eq!(accent_foreground("#8b5cf6"), "#ffffff");
    assert_eq!(accent_foreground("#f5f5f5"), "#1a1a1a");
    assert_eq!(accent_foreground("bad"), "#ffffff");
}

#[test]
fn default_theme_and_overrides() {
    let d = theme_default_colors();
    assert_eq!(d.accent_primary, "#8b5cf6");
    assert_eq!(d.accent_primary_foreground, "#ffffff");
    assert_eq!(d.background, "#1e1e2e");
    let light_accent = ThemeOverrides {
        accent_primary: Some("#fde047".to_string()),
        accent_secondary: None,
        accent_primary_foreground: None,
        background: None,
        foreground: None,
        destructive: Some("#dc2626".to_string()),
    };
    let t = theme_colors_from(&light_accent);
    assert_eq!(t.accent_primary, "#fde047");
    assert_eq!(t.accent_primary_foreground, "#1a1a1a");
    assert_eq!(t.destructive, "#dc2626");
    assert_eq!(t.accent_secondary, "#06b6d4");
    let forced = ThemeOverrides { accent_primary_foreground: Some("#000000".to_string()), ..light_accent };
    assert_eq!(theme_colors_from(&forced).accent_primary_foreground, "#000000");
}

#[test]
fn palette_and_style_sheet() {
    let t = theme_default_colors();
    let p = css_palette(&t, "0.91");
    assert_eq!(p.panel_bg, "rgba(30, 30, 46, 0.91)");
    assert_eq!(p.section_bg, "rgba(36, 36, 55, 0.94)");
    assert_eq!(p.opaque_bg, "rgba(30, 30, 46, 0.99)");
    assert_eq!(p.card_bg, "rgba(255, 255, 255, 0.08)");
    assert_eq!(p.separator, "rgba(139, 92, 246, 0.3)");
    assert_eq!(p.connected_hover_separator, "rgba(139, 92, 246, 0.4)");
    assert_eq!(p.accent_hover, "#9f69ff");
    assert_eq!(p.destructive_hover, "#ff4e4e");
    assert_eq!(hex_to_rgba("#ffffff", "0.5"), "rgba(255, 255, 255, 0.5)");
    let css = generate_css(&p);
    assert!(css.contains(".orbit-panel {\n    background-color: rgba(30, 30, 46, 0.91);"));
    assert!(css.contains("color: #d4d4d8;"));
    let light = theme_colors_from(&ThemeOverrides {
        accent_primary: None,
        accent_secondary: None,
        accent_primary_foreground: None,
        background: Some("#fafafa".to_string()),
        foreground: None,
        destructive: None,
    });
    let lp = css_palette(&light, "1");
    assert_eq!(lp.card_bg, "rgba(0, 0, 0, 0.04)");
    assert_eq!(lp.card_hover_bg, "rgba(0, 0, 0, 0.1)");
    assert_eq!(lp.section_bg, "rgba(200, 200, 200, 0.94)");
}
