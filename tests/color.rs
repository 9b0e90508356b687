use leptonic::color::{darken, derive_text_color, mix, resolve_color, Color};

#[test]
fn mixing_a_color_with_itself_keeps_it() {
    let c = Color::new(12, 200, 99, 180);
    for percent in 0..=100u8 {
        assert_eq!(mix(&c, &c, percent), c);
    }
}

#[test]
fn mixing_moves_linearly_towards_the_target() {
    let white = Color::rgb(255, 255, 255);
    let mid = Color::rgb(128, 128, 128);
    assert_eq!(mix(&white, &mid, 40), Color::rgb(204, 204, 204));
    assert_eq!(mix(&white, &mid, 0), white);
    assert_eq!(mix(&white, &mid, 100), mid);
}

#[test]
fn darken_endpoints() {
    let c = Color::new(40, 81, 255, 255);
    assert_eq!(darken(&c, 0), c);
    assert_eq!(darken(&c, 100), Color::rgb(0, 0, 0));
    let translucent = Color::new(10, 20, 30, 100);
    assert_eq!(darken(&translucent, 100), Color::new(0, 0, 0, 100));
}

#[test]
fn darken_by_five_percent() {
    let c = Color::rgb(40, 81, 255);
    assert_eq!(darken(&c, 5), Color::rgb(38, 77, 242));
    assert_eq!(darken(&c, 8), Color::rgb(37, 75, 235));
}

#[test]
fn text_color_threshold_is_strict() {
    let white = Color::rgb(255, 255, 255);
    let black = Color::rgb(0, 0, 0);
    // average intensity about 0.59
    assert_eq!(derive_text_color(&Color::rgb(150, 150, 151)), white);
    // average intensity exactly 0.6
    assert_eq!(derive_text_color(&Color::rgb(153, 153, 153)), black);
    // one step below 0.6
    assert_eq!(derive_text_color(&Color::rgb(153, 153, 152)), white);
    // average intensity about 0.61
    assert_eq!(derive_text_color(&Color::rgb(156, 155, 156)), black);
}

#[test]
fn hex_notation() {
    assert_eq!(Color::rgb(40, 81, 255).to_hex_string(), "#2851ff");
    assert_eq!(Color::new(0, 0, 0, 0).to_hex_string(), "#00000000");
    assert_eq!(Color::new(255, 1, 16, 128).to_hex_string(), "#ff011080");
}

#[test]
fn css_color_strings_resolve_or_fall_back() {
    let fallback = Color::rgb(1, 2, 3);
    assert_eq!(resolve_color("#ff0", &fallback), Color::rgb(255, 255, 0));
    assert_eq!(resolve_color(" #102030 ", &fallback), Color::rgb(16, 32, 48));
    assert_eq!(resolve_color("", &fallback), fallback);
    assert_eq!(resolve_color("not a color", &fallback), fallback);
}
