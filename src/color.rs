//! Colors with eight-bit channels, linear mixing, luminance-based text
//! color selection, and CSS hex serialization.
use vstd::prelude::*;

verus! {

/// An RGBA color. Each channel `x` stands for the intensity `x / 255`.
#[derive(Debug, Clone, Copy, PartialEq, Eq, Structural)]
pub struct Color {
    pub r: u8,
    pub g: u8,
    pub b: u8,
    pub a: u8,
}

/// Opaque white.
pub open spec fn white() -> Color {
    Color { r: 255, g: 255, b: 255, a: 255 }
}

/// Opaque black.
pub open spec fn black() -> Color {
    Color { r: 0, g: 0, b: 0, a: 255 }
}

/// One channel of `mix`: `x + percent% * (y - x)`, rounded half up.
pub open spec fn mix_channel(x: u8, y: u8, percent: nat) -> int {
    (x * (100 - percent) + y * percent + 50) / 100
}

/// Linear interpolation in RGB space from `source` towards `target`;
/// `percent` 0 keeps `source`, 100 gives `target`.
pub open spec fn spec_mix(source: Color, target: Color, percent: nat) -> Color {
    Color {
        r: mix_channel(source.r, target.r, percent) as u8,
        g: mix_channel(source.g, target.g, percent) as u8,
        b: mix_channel(source.b, target.b, percent) as u8,
        a: mix_channel(source.a, target.a, percent) as u8,
    }
}

/// Mixing towards black with the alpha channel kept.
pub open spec fn spec_darken(color: Color, percent: nat) -> Color {
    spec_mix(color, Color { r: 0, g: 0, b: 0, a: color.a }, percent)
}

/// The average of the red, green and blue intensities is below 0.6:
/// `(r + g + b) / (3 * 255) < 3 / 5`.
pub open spec fn is_dark_color(c: Color) -> bool {
    5 * (c.r + c.g + c.b) < 9 * 255
}

/// Readable text color on a background: white on dark, black on light.
pub open spec fn spec_text_color(background: Color) -> Color {
    if is_dark_color(background) {
        white()
    } else {
        black()
    }
}

impl Color {
    /// A color from its four channels.
    pub fn new(r: u8, g: u8, b: u8, a: u8) -> (c: Color)
        ensures
            c == (Color { r, g, b, a }),
    {
        Color { r, g, b, a }
    }

    /// An opaque color from its three color channels.
    pub fn rgb(r: u8, g: u8, b: u8) -> (c: Color)
        ensures
            c == (Color { r, g, b, a: 255 }),
    {
        Color { r, g, b, a: 255 }
    }
}

proof fn lemma_mix_channel_bounds(x: u8, y: u8, percent: nat)
    requires
        percent <= 100,
    ensures
        0 <= mix_channel(x, y, percent) <= 255,
        percent == 0 ==> mix_channel(x, y, percent) == x,
        percent == 100 ==> mix_channel(x, y, percent) == y,
        x == y ==> mix_channel(x, y, percent) == x,
{
    let p = percent as int;
    assert(0 <= x * (100 - p) <= 255 * (100 - p)) by (nonlinear_arith)
        requires
            0 <= x <= 255,
            0 <= p <= 100,
    ;
    assert(0 <= y * p <= 255 * p) by (nonlinear_arith)
        requires
            0 <= y <= 255,
            0 <= p <= 100,
    ;
    assert(x * (100 - p) + x * p == 100 * x) by (nonlinear_arith);
}

fn mix_channel_exec(x: u8, y: u8, percent: u8) -> (r: u8)
    requires
        percent <= 100,
    ensures
        r == mix_channel(x, y, percent as nat),
{
    proof {
        lemma_mix_channel_bounds(x, y, percent as nat);
    }
    let xs = x as u32;
    let ys = y as u32;
    let p = percent as u32;
    assert(xs * (100 - p) <= 25500) by (nonlinear_arith)
        requires
            xs <= 255,
            p <= 100,
    ;
    assert(ys * p <= 25500) by (nonlinear_arith)
        requires
            ys <= 255,
            p <= 100,
    ;
    ((xs * (100 - p) + ys * p + 50) / 100) as u8
}

/// Mixes `source` towards `target` by `percent` percent: 0 keeps `source`,
/// 100 gives `target`, in between each channel moves linearly.
pub fn mix(source: &Color, target: &Color, percent: u8) -> (c: Color)
    requires
        percent <= 100,
    ensures
        c == spec_mix(*source, *target, percent as nat),
{
    Color {
        r: mix_channel_exec(source.r, target.r, percent),
        g: mix_channel_exec(source.g, target.g, percent),
        b: mix_channel_exec(source.b, target.b, percent),
        a: mix_channel_exec(source.a, target.a, percent),
    }
}

/// Darkens a color by `percent` percent: mixes it towards black of the
/// same alpha.
pub fn darken(color: &Color, percent: u8) -> (c: Color)
    requires
        percent <= 100,
    ensures
        c == spec_darken(*color, percent as nat),
{
    let black_of_alpha = Color { r: 0, g: 0, b: 0, a: color.a };
    mix(color, &black_of_alpha, percent)
}

/// Chooses the text color for a background: white where the average of
/// the three color intensities is below 0.6, black otherwise.
pub fn derive_text_color(background: &Color) -> (c: Color)
    ensures
        c == spec_text_color(*background),
{
    let sum = background.r as u32 + background.g as u32 + background.b as u32;
    if 5 * sum < 9 * 255 {
        Color { r: 255, g: 255, b: 255, a: 255 }
    } else {
        Color { r: 0, g: 0, b: 0, a: 255 }
    }
}

/// Mixing a color with itself gives that color, whatever the ratio.
pub proof fn lemma_mix_with_itself(c: Color, percent: nat)
    requires
        percent <= 100,
    ensures
        spec_mix(c, c, percent) == c,
{
    lemma_mix_channel_bounds(c.r, c.r, percent);
    lemma_mix_channel_bounds(c.g, c.g, percent);
    lemma_mix_channel_bounds(c.b, c.b, percent);
    lemma_mix_channel_bounds(c.a, c.a, percent);
}

/// Darkening by nothing keeps the color; darkening fully gives black of
/// the same alpha.
pub proof fn lemma_darken_endpoints(c: Color)
    ensures
        spec_darken(c, 0) == c,
        spec_darken(c, 100) == (Color { r: 0, g: 0, b: 0, a: c.a }),
        c.a == 255 ==> spec_darken(c, 100) == black(),
{
    lemma_mix_channel_bounds(c.r, 0, 0);
    lemma_mix_channel_bounds(c.g, 0, 0);
    lemma_mix_channel_bounds(c.b, 0, 0);
    lemma_mix_channel_bounds(c.a, c.a, 0);
    lemma_mix_channel_bounds(c.r, 0, 100);
    lemma_mix_channel_bounds(c.g, 0, 100);
    lemma_mix_channel_bounds(c.b, 0, 100);
    lemma_mix_channel_bounds(c.a, c.a, 100);
}

/// Text color selection is monotonic in brightness: a background whose
/// channel sum is at least that of one that gets black text gets black
/// text too, and one whose sum is at most that of one that gets white text
/// gets white text.
pub proof fn lemma_text_color_monotonic(darker: Color, lighter: Color)
    requires
        darker.r + darker.g + darker.b <= lighter.r + lighter.g + lighter.b,
    ensures
        spec_text_color(darker) == black() ==> spec_text_color(lighter) == black(),
        spec_text_color(lighter) == white() ==> spec_text_color(darker) == white(),
{
}

/// The threshold is strict: an average intensity of exactly 0.6 (channel
/// sum 459 of 765) gives black text, one step below gives white text.
pub proof fn lemma_text_color_threshold(c: Color)
    ensures
        c.r + c.g + c.b == 459 ==> spec_text_color(c) == black(),
        c.r + c.g + c.b == 458 ==> spec_text_color(c) == white(),
        c.r + c.g + c.b < 459 <==> spec_text_color(c) == white(),
{
}


/// A hexadecimal digit in lower case, for a value below sixteen.
pub open spec fn hex_digit(n: int) -> char {
    if n < 10 {
        crate::number::digit_char(n as nat)
    } else if n == 10 {
        'a'
    } else if n == 11 {
        'b'
    } else if n == 12 {
        'c'
    } else if n == 13 {
        'd'
    } else if n == 14 {
        'e'
    } else {
        'f'
    }
}

/// Two hexadecimal digits of a byte, high digit first.
pub open spec fn hex_pair(x: u8) -> Seq<char> {
    seq![hex_digit(x as int / 16), hex_digit(x as int % 16)]
}

/// The CSS hex notation of a color: `#rrggbb`, followed by `aa` where the
/// color is not fully opaque.
pub open spec fn hex_text(c: Color) -> Seq<char> {
    seq!['#'] + hex_pair(c.r) + hex_pair(c.g) + hex_pair(c.b) + if c.a < 255 {
        hex_pair(c.a)
    } else {
        Seq::<char>::empty()
    }
}

/// What `csscolorparser::parse` makes of a CSS color string, as eight-bit
/// channels `(r, g, b, a)`; `None` where it does not parse.
pub uninterp spec fn css_color_of(s: Seq<char>) -> Option<(u8, u8, u8, u8)>;

/// Relies on csscolorparser's `Color::from_rgba8` and
/// `Color::to_hex_string`: `#`, then two lower-case hex digits for each of
/// red, green and blue, then two for alpha only where it is below 255.
#[verifier::external_body]
fn hex_string(c: &Color) -> (r: String)
    ensures
        r@ == hex_text(*c),
{
    csscolorparser::Color::from_rgba8(c.r, c.g, c.b, c.a).to_hex_string()
}

/// Relies on `csscolorparser::parse` to read a CSS color string, and on
/// `Color::to_rgba8` for its eight-bit channels; the result depends on the
/// string alone.
#[verifier::external_body]
fn parse_css_color(s: &str) -> (r: Option<(u8, u8, u8, u8)>)
    ensures
        r == css_color_of(s@),
{
    match csscolorparser::parse(s) {
        Ok(c) => {
            let [r, g, b, a] = c.to_rgba8();
            Some((r, g, b, a))
        },
        Err(_) => None,
    }
}

/// The color a CSS color string gives, or `fallback` where it does not
/// parse as one.
pub open spec fn spec_resolve_color(s: Seq<char>, fallback: Color) -> Color {
    match css_color_of(s) {
        Some(q) => Color { r: q.0, g: q.1, b: q.2, a: q.3 },
        None => fallback,
    }
}

impl Color {
    /// The CSS hex notation of the color.
    pub fn to_hex_string(&self) -> (r: String)
        ensures
            r@ == hex_text(*self),
    {
        hex_string(self)
    }
}

/// Reads a CSS color string; where it is not a color, `fallback` stands
/// in.
pub fn resolve_color(s: &str, fallback: &Color) -> (c: Color)
    ensures
        c == spec_resolve_color(s@, *fallback),
{
    match parse_css_color(s) {
        Some(q) => Color { r: q.0, g: q.1, b: q.2, a: q.3 },
        None => *fallback,
    }
}

} // verus!
