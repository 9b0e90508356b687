use leptonic::color::Color;
use leptonic::lifecycle::StyleSheets;
use leptonic::style::{style_variables, theme_style_variables};
use leptonic::theme::{ColorMode, Theme};

fn lookup<'a>(vars: &'a [(String, String)], name: &str) -> &'a str {
    vars.iter().find(|(n, _)| n == name).map(|(_, v)| v.as_str()).unwrap()
}

#[test]
fn default_theme_values() {
    let t = Theme::default();
    assert_eq!(t.color_mode, ColorMode::Dark);
    assert!(t.color_mode.is_dark());
    assert!(!t.color_mode.is_light());
    assert_eq!(t.primary_color, Color::rgb(40, 81, 255));
    assert_eq!(t.secondary_color, Color::rgb(90, 92, 95));
    assert_eq!(t.danger_color, Color::rgb(175, 0, 0));
    assert_eq!(t.error_color, Color::rgb(207, 0, 0));
    assert!(t.fonts.is_empty());
    assert_eq!(ColorMode::default(), ColorMode::Dark);
}

#[test]
fn builders_and_setters() {
    let t = Theme::default()
        .light_mode()
        .primary_color(Color::rgb(105, 40, 255))
        .fonts(&["Inter", "Arial"])
        .font("Mono");
    assert_eq!(t.color_mode, ColorMode::Light);
    assert_eq!(t.primary_color, Color::rgb(105, 40, 255));
    assert_eq!(t.fonts, vec!["Inter".to_string(), "Arial".to_string(), "Mono".to_string()]);
    let mut u = t;
    u.set_dark_mode();
    u.set_secondary_color(Color::rgb(1, 2, 3));
    u.set_fonts(&["Serif"]);
    u.add_font("Other");
    assert_eq!(u.color_mode, ColorMode::Dark);
    assert_eq!(u.secondary_color, Color::rgb(1, 2, 3));
    assert_eq!(u.fonts, vec!["Serif".to_string(), "Other".to_string()]);
}

#[test]
fn default_theme_variables() {
    let vars = style_variables(
        &Theme::default(),
        &Color::rgb(128, 128, 128),
        &Color::new(0, 0, 0, 0),
    );
    assert_eq!(vars.len(), 48);
    assert_eq!(vars[0].0, "--leptonic-fonts");
    assert_eq!(
        vars[0].1,
        "system-ui, -apple-system, BlinkMacSystemFont, \"Segoe UI\", Roboto, Oxygen, Ubuntu, Cantarell, \"Open Sans\", \"Helvetica Neue\", sans-serif"
    );
    assert_eq!(lookup(&vars, "--leptonic-background-color-1"), "#1a1c1f");
    assert_eq!(lookup(&vars, "--leptonic-background-color-6"), "#2e3033");
    assert_eq!(lookup(&vars, "--leptonic-text-color"), "#ffffff");
    assert_eq!(lookup(&vars, "--leptonic-text-color-disabled"), "#cccccc");
    assert_eq!(lookup(&vars, "--leptonic-border-color"), "#4a4c4f");
    assert_eq!(lookup(&vars, "--leptonic-primary-color"), "#2851ff");
    assert_eq!(lookup(&vars, "--leptonic-primary-color-hover"), "#264df2");
    assert_eq!(lookup(&vars, "--leptonic-primary-text-color"), "#ffffff");
    assert_eq!(lookup(&vars, "--leptonic-primary-text-label-color-1"), "#a6a6a6");
    assert_eq!(lookup(&vars, "--leptonic-transparent-color-hover"), "#00000000");
    assert_eq!(lookup(&vars, "--leptonic-danger-color"), "#af0000");
    assert_eq!(lookup(&vars, "--leptonic-error-color"), "#cf0000");
    assert_eq!(vars[47].0, "--leptonic-error-color");
}

#[test]
fn light_mode_and_light_role_colors() {
    let theme = Theme::default().light_mode().secondary_color(Color::rgb(240, 240, 240));
    let vars = style_variables(&theme, &Color::rgb(128, 128, 128), &Color::new(0, 0, 0, 0));
    assert_eq!(lookup(&vars, "--leptonic-background-color-3"), "#ffffff");
    assert_eq!(lookup(&vars, "--leptonic-text-color"), "#000000");
    assert_eq!(lookup(&vars, "--leptonic-secondary-text-color"), "#000000");
    assert_eq!(lookup(&vars, "--leptonic-transparent-text-color"), "#000000");
    assert_eq!(lookup(&vars, "--leptonic-focus-border-color"), "#909295");
}

#[test]
fn equal_themes_give_equal_variables() {
    let a = Theme::default().danger_color(Color::rgb(9, 9, 9)).font("A");
    let mut b = Theme::default();
    b.add_font("A");
    b.set_danger_color(Color::rgb(9, 9, 9));
    assert_eq!(theme_style_variables(&a, "", ""), theme_style_variables(&b, "", ""));
}

#[test]
fn document_colors_override_defaults() {
    let theme = Theme::default();
    let with_defaults = theme_style_variables(&theme, "", "garbage");
    let explicit = style_variables(&theme, &Color::rgb(128, 128, 128), &Color::new(0, 0, 0, 0));
    assert_eq!(with_defaults, explicit);
    let black_mid = theme_style_variables(&theme, "#000000", "");
    assert_eq!(lookup(&black_mid, "--leptonic-text-color-disabled"), "#999999");
}

#[test]
fn activating_twice_injects_once() {
    let mut doc = StyleSheets::observed(false);
    assert!(doc.activate());
    assert!(!doc.activate());
    assert_eq!(doc, StyleSheets { sheets: 1, teardowns: 1 });
    doc.dispose();
    assert_eq!(doc, StyleSheets { sheets: 0, teardowns: 0 });
}

#[test]
fn a_present_stylesheet_is_left_alone() {
    let mut doc = StyleSheets::observed(true);
    assert!(!doc.activate());
    doc.dispose();
    assert_eq!(doc, StyleSheets { sheets: 1, teardowns: 0 });
}
