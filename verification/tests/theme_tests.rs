use opal_player::theme::{color_text_safe, overrides_safe, parse_color, OpalineTheme, Rgb};

fn rgb(r: u8, g: u8, b: u8) -> Rgb {
    Rgb { r, g, b }
}

#[test]
fn preset_palettes() {
    let o = OpalineTheme::opaline();
    assert_eq!(o.bg, rgb(0x1a, 0x1b, 0x26));
    assert_eq!(o.primary, rgb(0xf0, 0xc0, 0xc0));
    assert_eq!(OpalineTheme::nord().text, rgb(0xe5, 0xe9, 0xf0));
    assert_eq!(OpalineTheme::dracula().accent, rgb(0xff, 0x79, 0xc6));
    assert_eq!(OpalineTheme::one_dark().highlight_bg, rgb(0x2c, 0x32, 0x3c));
    assert_eq!(OpalineTheme::catppuccin().surface, rgb(0x31, 0x32, 0x44));
    assert_eq!(OpalineTheme::default(), o);
}

#[test]
fn presets_by_name_in_any_case() {
    assert_eq!(OpalineTheme::from_preset("NORD"), Some(OpalineTheme::nord()));
    assert_eq!(OpalineTheme::from_preset("one_dark"), Some(OpalineTheme::one_dark()));
    assert_eq!(OpalineTheme::from_preset("Catppuccin"), Some(OpalineTheme::catppuccin()));
    assert_eq!(OpalineTheme::from_preset("solarized"), None);
    assert_eq!(OpalineTheme::preset_names(), vec!["opaline", "catppuccin", "nord", "dracula", "one_dark"]);
}

#[test]
fn colour_texts() {
    assert_eq!(parse_color("#F0c0C0"), Some(rgb(240, 192, 192)));
    assert_eq!(parse_color("  ##abcdef "), Some(rgb(0xab, 0xcd, 0xef)));
    assert_eq!(parse_color("b4f9f8"), Some(rgb(0xb4, 0xf9, 0xf8)));
    assert_eq!(parse_color("+f+f+f"), Some(rgb(15, 15, 15)));
    assert_eq!(parse_color("abc"), None);
    assert_eq!(parse_color("zzzzzz"), None);
    assert_eq!(parse_color("12345g"), None);
    assert_eq!(parse_color("-12345"), None);
    assert_eq!(parse_color("1234567"), None);
}

#[test]
fn colour_texts_that_would_split_a_character() {
    assert!(!color_text_safe("aé€"));
    assert!(color_text_safe("ééab"));
    assert_eq!(parse_color("ééab"), None);
    assert!(color_text_safe("abcdef"));
    assert!(color_text_safe("ab"));
}

#[test]
fn overrides_apply_on_the_preset() {
    let ov = vec![
        ("primary".to_string(), "ffffff".to_string()),
        ("bogus".to_string(), "000000".to_string()),
        ("bg".to_string(), "nothex".to_string()),
        ("text".to_string(), "#010203".to_string()),
    ];
    assert!(overrides_safe(&ov));
    let t = OpalineTheme::from_config("dracula", &ov);
    let d = OpalineTheme::dracula();
    assert_eq!(t.primary, rgb(255, 255, 255));
    assert_eq!(t.text, rgb(1, 2, 3));
    assert_eq!(t.bg, d.bg);
    assert_eq!(t.accent, d.accent);
}

#[test]
fn unknown_preset_uses_opaline_and_last_override_wins() {
    let ov = vec![("accent".to_string(), "111111".to_string()), ("accent".to_string(), "222222".to_string())];
    let t = OpalineTheme::from_config("nope", &ov);
    assert_eq!(t.accent, rgb(0x22, 0x22, 0x22));
    assert_eq!(t.bg, OpalineTheme::opaline().bg);
    let none: Vec<(String, String)> = Vec::new();
    assert_eq!(OpalineTheme::from_config("nord", &none), OpalineTheme::nord());
}

#[test]
fn unsafe_override_detected() {
    let ov = vec![("bg".to_string(), "aé€".to_string())];
    assert!(!overrides_safe(&ov));
}
