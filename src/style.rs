//! Deriving the named style variables of a theme: background ramp, text
//! and border colors, hover, active and disabled variants of each role
//! color, readable text colors with their label ramps, and the font stack.
use vstd::prelude::*;
use vstd::string::*;
use crate::color::{
    Color, black, darken, derive_text_color, hex_text, mix, resolve_color, spec_darken, spec_mix,
    spec_resolve_color, spec_text_color, white,
};
use crate::number::{format_integer, integer_text};
use crate::text::{join, join_with, views};
use crate::theme::{ColorMode, Theme, ThemeView};

verus! {

/// The full name of a style variable.
pub open spec fn var_name(key: Seq<char>) -> Seq<char> {
    "--leptonic-"@ + key
}

/// A style variable: its full name and its value.
pub open spec fn entry(key: Seq<char>, value: Seq<char>) -> (Seq<char>, Seq<char>) {
    (var_name(key), value)
}

/// The views of a list of name and value pairs.
pub open spec fn pair_views(v: Seq<(String, String)>) -> Seq<(Seq<char>, Seq<char>)> {
    v.map_values(|p: (String, String)| (p.0@, p.1@))
}

/// Fonts that always follow the theme's own.
pub open spec fn spec_fallback_fonts() -> Seq<Seq<char>> {
    seq![
        "system-ui"@,
        "-apple-system"@,
        "BlinkMacSystemFont"@,
        "\"Segoe UI\""@,
        "Roboto"@,
        "Oxygen"@,
        "Ubuntu"@,
        "Cantarell"@,
        "\"Open Sans\""@,
        "\"Helvetica Neue\""@,
        "sans-serif"@,
    ]
}

/// The font-family value: the theme's fonts, then the fallback fonts,
/// separated by a comma and a space.
pub open spec fn font_stack(fonts: Seq<Seq<char>>) -> Seq<char> {
    join(fonts + spec_fallback_fonts(), ", "@)
}

/// Step `i` (from 0) of the six-step background ramp: in dark mode a
/// near-black gray that brightens by 4 per step from `(26, 28, 31)`; in
/// light mode white throughout.
pub open spec fn background_color(mode: ColorMode, i: int) -> Color {
    match mode {
        ColorMode::Dark => Color {
            r: (26 + 4 * i) as u8,
            g: (28 + 4 * i) as u8,
            b: (31 + 4 * i) as u8,
            a: 255,
        },
        ColorMode::Light => white(),
    }
}

/// The base text color: white in dark mode, black in light mode.
pub open spec fn mode_text_color(mode: ColorMode) -> Color {
    match mode {
        ColorMode::Dark => white(),
        ColorMode::Light => black(),
    }
}

/// The standard border color.
pub open spec fn border_color(mode: ColorMode) -> Color {
    match mode {
        ColorMode::Dark => Color { r: 74, g: 76, b: 79, a: 255 },
        ColorMode::Light => Color { r: 176, g: 178, b: 181, a: 255 },
    }
}

/// The border color of a focused element.
pub open spec fn focus_border_color(mode: ColorMode) -> Color {
    match mode {
        ColorMode::Dark => Color { r: 106, g: 108, b: 111, a: 255 },
        ColorMode::Light => Color { r: 144, g: 146, b: 149, a: 255 },
    }
}

/// The filter that shows an SVG in the text color.
pub open spec fn svg_filter(mode: ColorMode) -> Seq<char> {
    match mode {
        ColorMode::Dark => "invert(100%) sepia(100%) saturate(0%) hue-rotate(288deg) brightness(102%) contrast(102%)"@,
        ColorMode::Light => "invert(0%) sepia(0%) saturate(0%) hue-rotate(320deg) brightness(96%) contrast(104%)"@,
    }
}

/// The filter that shows an SVG in the disabled text color.
pub open spec fn svg_filter_disabled(mode: ColorMode) -> Seq<char> {
    match mode {
        ColorMode::Dark => "invert(91%) sepia(9%) saturate(0%) hue-rotate(170deg) brightness(90%) contrast(89%)"@,
        ColorMode::Light => "invert(18%) sepia(5%) saturate(0%) hue-rotate(253deg) brightness(96%) contrast(92%)"@,
    }
}

/// The neutral gray that derived colors are mixed towards, where the
/// document does not set one.
pub open spec fn default_mid_color() -> Color {
    Color { r: 128, g: 128, b: 128, a: 255 }
}

/// The base of transparent elements, where the document does not set one.
pub open spec fn default_transparent_color() -> Color {
    Color { r: 0, g: 0, b: 0, a: 0 }
}

/// The text color of a role with its disabled variant (40% towards `mid`)
/// and three label steps (70%, 60% and 50% towards `mid`).
#[verifier::opaque]
pub open spec fn text_variables(role: Seq<char>, text: Color, mid: Color) -> Seq<
    (Seq<char>, Seq<char>),
> {
    seq![
        entry(role + "-text-color"@, hex_text(text)),
        entry(role + "-text-color-disabled"@, hex_text(spec_mix(text, mid, 40))),
        entry(role + "-text-label-color-1"@, hex_text(spec_mix(text, mid, 70))),
        entry(role + "-text-label-color-2"@, hex_text(spec_mix(text, mid, 60))),
        entry(role + "-text-label-color-3"@, hex_text(spec_mix(text, mid, 50))),
    ]
}

/// A role color with its hover (5% darker), active (8% darker) and
/// disabled (`disabled` percent towards `mid`) variants, then the text
/// variables of the text color chosen for it.
#[verifier::opaque]
pub open spec fn role_variables(role: Seq<char>, color: Color, mid: Color, disabled: nat) -> Seq<
    (Seq<char>, Seq<char>),
> {
    seq![
        entry(role + "-color"@, hex_text(color)),
        entry(role + "-color-hover"@, hex_text(spec_darken(color, 5))),
        entry(role + "-color-active"@, hex_text(spec_darken(color, 8))),
        entry(role + "-color-disabled"@, hex_text(spec_mix(color, mid, disabled))),
    ] + text_variables(role, spec_text_color(color), mid)
}

/// The six background ramp variables, numbered from 1.
pub open spec fn background_variables(mode: ColorMode) -> Seq<(Seq<char>, Seq<char>)> {
    Seq::new(
        6,
        |i: int|
            entry(
                "background-color-"@ + integer_text(i + 1),
                hex_text(background_color(mode, i)),
            ),
    )
}

/// The variables that follow from the font list and the color mode.
#[verifier::opaque]
pub open spec fn mode_variables(t: ThemeView, mid: Color) -> Seq<(Seq<char>, Seq<char>)> {
    seq![entry("fonts"@, font_stack(t.fonts))] + background_variables(t.color_mode) + seq![
        entry("text-color"@, hex_text(mode_text_color(t.color_mode))),
        entry("primary-svg-filter"@, svg_filter(t.color_mode)),
        entry("primary-svg-filter-disabled"@, svg_filter_disabled(t.color_mode)),
        entry("border-color"@, hex_text(border_color(t.color_mode))),
        entry("focus-border-color"@, hex_text(focus_border_color(t.color_mode))),
        entry("text-color-disabled"@, hex_text(spec_mix(mode_text_color(t.color_mode), mid, 40))),
    ]
}

/// The variables of transparent elements: hover and active variants of
/// the transparent base, and the text variables of the base text color.
#[verifier::opaque]
pub open spec fn transparent_variables(mode: ColorMode, mid: Color, transparent: Color) -> Seq<
    (Seq<char>, Seq<char>),
> {
    seq![
        entry("transparent-color-hover"@, hex_text(spec_darken(transparent, 5))),
        entry("transparent-color-active"@, hex_text(spec_darken(transparent, 8))),
    ] + text_variables("transparent"@, mode_text_color(mode), mid)
}

/// Every style variable of a theme, in the order they are written.
pub open spec fn spec_style_variables(t: ThemeView, mid: Color, transparent: Color) -> Seq<
    (Seq<char>, Seq<char>),
> {
    mode_variables(t, mid) + role_variables("primary"@, t.primary_color, mid, 30)
        + role_variables("secondary"@, t.secondary_color, mid, 50) + transparent_variables(
        t.color_mode,
        mid,
        transparent,
    ) + role_variables("danger"@, t.danger_color, mid, 50) + seq![
        entry("error-color"@, hex_text(t.error_color)),
    ]
}

/// Appends the variable `--leptonic-<key>`.
fn push_var(vars: &mut Vec<(String, String)>, key: &str, value: String)
    ensures
        pair_views(final(vars)@) == pair_views(old(vars)@).push(entry(key@, value@)),
{
    let name = String::from_str("--leptonic-").concat(key);
    let ghost v = value@;
    let ghost before = vars@;
    vars.push((name, value));
    assert(pair_views(vars@) =~= pair_views(before).push(entry(key@, v)));
}

/// Appends the variable `--leptonic-<role><suffix>`.
fn push_role_var(vars: &mut Vec<(String, String)>, role: &str, suffix: &str, value: String)
    ensures
        pair_views(final(vars)@) == pair_views(old(vars)@).push(entry(role@ + suffix@, value@)),
{
    let name = String::from_str("--leptonic-").concat(role).concat(suffix);
    assert(name@ =~= var_name(role@ + suffix@));
    let ghost v = value@;
    let ghost before = vars@;
    vars.push((name, value));
    assert(pair_views(vars@) =~= pair_views(before).push(entry(role@ + suffix@, v)));
}

fn push_text_variables(vars: &mut Vec<(String, String)>, role: &str, text: &Color, mid: &Color)
    ensures
        pair_views(final(vars)@) == pair_views(old(vars)@) + text_variables(role@, *text, *mid),
{
    reveal(text_variables);
    let ghost start = pair_views(vars@);
    push_role_var(vars, role, "-text-color", text.to_hex_string());
    push_role_var(vars, role, "-text-color-disabled", mix(text, mid, 40).to_hex_string());
    push_role_var(vars, role, "-text-label-color-1", mix(text, mid, 70).to_hex_string());
    push_role_var(vars, role, "-text-label-color-2", mix(text, mid, 60).to_hex_string());
    push_role_var(vars, role, "-text-label-color-3", mix(text, mid, 50).to_hex_string());
    assert(pair_views(vars@) =~= start + text_variables(role@, *text, *mid));
}

fn push_role_variables(
    vars: &mut Vec<(String, String)>,
    role: &str,
    color: &Color,
    mid: &Color,
    disabled: u8,
)
    requires
        disabled <= 100,
    ensures
        pair_views(final(vars)@) == pair_views(old(vars)@) + role_variables(
            role@,
            *color,
            *mid,
            disabled as nat,
        ),
{
    reveal(role_variables);
    let ghost start = pair_views(vars@);
    push_role_var(vars, role, "-color", color.to_hex_string());
    push_role_var(vars, role, "-color-hover", darken(color, 5).to_hex_string());
    push_role_var(vars, role, "-color-active", darken(color, 8).to_hex_string());
    push_role_var(vars, role, "-color-disabled", mix(color, mid, disabled).to_hex_string());
    let text = derive_text_color(color);
    push_text_variables(vars, role, &text, mid);
    assert(pair_views(vars@) =~= start + role_variables(role@, *color, *mid, disabled as nat));
}

/// The fonts that always follow the theme's own.
fn fallback_fonts() -> (r: Vec<String>)
    ensures
        views(r@) == spec_fallback_fonts(),
{
    let mut r: Vec<String> = Vec::new();
    r.push(String::from_str("system-ui"));
    r.push(String::from_str("-apple-system"));
    r.push(String::from_str("BlinkMacSystemFont"));
    r.push(String::from_str("\"Segoe UI\""));
    r.push(String::from_str("Roboto"));
    r.push(String::from_str("Oxygen"));
    r.push(String::from_str("Ubuntu"));
    r.push(String::from_str("Cantarell"));
    r.push(String::from_str("\"Open Sans\""));
    r.push(String::from_str("\"Helvetica Neue\""));
    r.push(String::from_str("sans-serif"));
    assert(views(r@) =~= spec_fallback_fonts());
    r
}

/// The font-family value for a font list.
fn font_stack_text(fonts: &Vec<String>) -> (r: String)
    ensures
        r@ == font_stack(views(fonts@)),
{
    let mut all: Vec<String> = Vec::new();
    let mut i: usize = 0;
    while i < fonts.len()
        invariant
            i <= fonts@.len(),
            views(all@) =~= views(fonts@).subrange(0, i as int),
        decreases fonts@.len() - i,
    {
        let ghost before = all@;
        all.push(fonts[i].clone());
        assert(views(all@) =~= views(before).push(fonts@[i as int]@));
        i = i + 1;
    }
    let fallback = fallback_fonts();
    let mut j: usize = 0;
    let ghost own = views(all@);
    while j < fallback.len()
        invariant
            j <= fallback@.len(),
            own == views(fonts@),
            views(fallback@) == spec_fallback_fonts(),
            views(all@) =~= own + views(fallback@).subrange(0, j as int),
        decreases fallback@.len() - j,
    {
        let ghost before = all@;
        all.push(fallback[j].clone());
        assert(views(all@) =~= views(before).push(fallback@[j as int]@));
        j = j + 1;
    }
    assert(views(fallback@).subrange(0, fallback@.len() as int) =~= views(fallback@));
    join_with(&all, ", ")
}

fn background_color_of(mode: ColorMode, i: u8) -> (c: Color)
    requires
        i < 6,
    ensures
        c == background_color(mode, i as int),
{
    match mode {
        ColorMode::Dark => Color { r: 26 + 4 * i, g: 28 + 4 * i, b: 31 + 4 * i, a: 255 },
        ColorMode::Light => Color { r: 255, g: 255, b: 255, a: 255 },
    }
}

fn mode_text_color_of(mode: ColorMode) -> (c: Color)
    ensures
        c == mode_text_color(mode),
{
    match mode {
        ColorMode::Dark => Color { r: 255, g: 255, b: 255, a: 255 },
        ColorMode::Light => Color { r: 0, g: 0, b: 0, a: 255 },
    }
}

fn border_color_of(mode: ColorMode) -> (c: Color)
    ensures
        c == border_color(mode),
{
    match mode {
        ColorMode::Dark => Color { r: 74, g: 76, b: 79, a: 255 },
        ColorMode::Light => Color { r: 176, g: 178, b: 181, a: 255 },
    }
}

fn focus_border_color_of(mode: ColorMode) -> (c: Color)
    ensures
        c == focus_border_color(mode),
{
    match mode {
        ColorMode::Dark => Color { r: 106, g: 108, b: 111, a: 255 },
        ColorMode::Light => Color { r: 144, g: 146, b: 149, a: 255 },
    }
}

fn svg_filter_of(mode: ColorMode) -> (r: &'static str)
    ensures
        r@ == svg_filter(mode),
{
    match mode {
        ColorMode::Dark => "invert(100%) sepia(100%) saturate(0%) hue-rotate(288deg) brightness(102%) contrast(102%)",
        ColorMode::Light => "invert(0%) sepia(0%) saturate(0%) hue-rotate(320deg) brightness(96%) contrast(104%)",
    }
}

fn svg_filter_disabled_of(mode: ColorMode) -> (r: &'static str)
    ensures
        r@ == svg_filter_disabled(mode),
{
    match mode {
        ColorMode::Dark => "invert(91%) sepia(9%) saturate(0%) hue-rotate(170deg) brightness(90%) contrast(89%)",
        ColorMode::Light => "invert(18%) sepia(5%) saturate(0%) hue-rotate(253deg) brightness(96%) contrast(92%)",
    }
}

fn push_mode_variables(vars: &mut Vec<(String, String)>, theme: &Theme, mid: &Color)
    ensures
        pair_views(final(vars)@) == pair_views(old(vars)@) + mode_variables(theme@, *mid),
{
    reveal(mode_variables);
    let ghost start = pair_views(vars@);
    let mode = theme.color_mode;
    push_var(vars, "fonts", font_stack_text(&theme.fonts));
    let ghost after_fonts = pair_views(vars@);
    let mut i: u8 = 0;
    while i < 6
        invariant
            i <= 6,
            mode == theme.color_mode,
            pair_views(vars@) == after_fonts + background_variables(mode).subrange(0, i as int),
        decreases 6 - i,
    {
        let number = format_integer(i as i128 + 1);
        push_role_var(
            vars,
            "background-color-",
            number.as_str(),
            background_color_of(mode, i).to_hex_string(),
        );
        assert(background_variables(mode).subrange(0, i + 1) =~= background_variables(
            mode,
        ).subrange(0, i as int).push(background_variables(mode)[i as int]));
        i = i + 1;
    }
    assert(background_variables(mode).subrange(0, 6) =~= background_variables(mode));
    let text = mode_text_color_of(mode);
    push_var(vars, "text-color", text.to_hex_string());
    push_var(vars, "primary-svg-filter", String::from_str(svg_filter_of(mode)));
    push_var(vars, "primary-svg-filter-disabled", String::from_str(svg_filter_disabled_of(mode)));
    push_var(vars, "border-color", border_color_of(mode).to_hex_string());
    push_var(vars, "focus-border-color", focus_border_color_of(mode).to_hex_string());
    push_var(vars, "text-color-disabled", mix(&text, mid, 40).to_hex_string());
    assert(pair_views(vars@) =~= start + mode_variables(theme@, *mid));
}

fn push_transparent_variables(
    vars: &mut Vec<(String, String)>,
    mode: ColorMode,
    mid: &Color,
    transparent: &Color,
)
    ensures
        pair_views(final(vars)@) == pair_views(old(vars)@) + transparent_variables(
            mode,
            *mid,
            *transparent,
        ),
{
    reveal(transparent_variables);
    let ghost start = pair_views(vars@);
    push_var(vars, "transparent-color-hover", darken(transparent, 5).to_hex_string());
    push_var(vars, "transparent-color-active", darken(transparent, 8).to_hex_string());
    let text = mode_text_color_of(mode);
    push_text_variables(vars, "transparent", &text, mid);
    assert(pair_views(vars@) =~= start + transparent_variables(mode, *mid, *transparent));
}

/// Every style variable of `theme`, as `(name, value)` pairs in the order
/// they are written, with `mid` as the neutral gray that derived colors
/// are mixed towards and `transparent` as the base of transparent
/// elements.
pub fn style_variables(theme: &Theme, mid: &Color, transparent: &Color) -> (r: Vec<
    (String, String),
>)
    ensures
        pair_views(r@) == spec_style_variables(theme@, *mid, *transparent),
{
    let mut vars: Vec<(String, String)> = Vec::new();
    assert(pair_views(vars@) =~= Seq::<(Seq<char>, Seq<char>)>::empty());
    push_mode_variables(&mut vars, theme, mid);
    push_role_variables(&mut vars, "primary", &theme.primary_color, mid, 30);
    push_role_variables(&mut vars, "secondary", &theme.secondary_color, mid, 50);
    push_transparent_variables(&mut vars, theme.color_mode, mid, transparent);
    push_role_variables(&mut vars, "danger", &theme.danger_color, mid, 50);
    push_var(&mut vars, "error-color", theme.error_color.to_hex_string());
    assert(pair_views(vars@) =~= spec_style_variables(theme@, *mid, *transparent));
    vars
}

/// Every style variable of `theme`, with the neutral gray and the
/// transparent base read from the CSS color strings the document holds
/// for them; where one does not parse as a color, its default stands in.
pub fn theme_style_variables(theme: &Theme, mid_css: &str, transparent_css: &str) -> (r: Vec<
    (String, String),
>)
    ensures
        pair_views(r@) == spec_style_variables(
            theme@,
            spec_resolve_color(mid_css@, default_mid_color()),
            spec_resolve_color(transparent_css@, default_transparent_color()),
        ),
{
    let mid = resolve_color(mid_css, &Color { r: 128, g: 128, b: 128, a: 255 });
    let transparent = resolve_color(transparent_css, &Color { r: 0, g: 0, b: 0, a: 0 });
    style_variables(theme, &mid, &transparent)
}

/// The variables are a function of the theme's value alone: two themes
/// with the same color mode, colors and fonts give the same variables.
pub proof fn lemma_style_variables_determined(a: &Theme, b: &Theme, mid: Color, transparent: Color)
    requires
        a@ == b@,
    ensures
        spec_style_variables(a@, mid, transparent) == spec_style_variables(b@, mid, transparent),
{
}

} // verus!
