//! The styling theme: a color mode, four seed colors and a font list.
use vstd::prelude::*;
use crate::color::Color;
use crate::text::views;

verus! {

/// The color mode. Dark by default.
#[derive(Debug, Clone, Copy, PartialEq, Eq, Structural)]
pub enum ColorMode {
    Dark,
    Light,
}

impl ColorMode {
    /// Is this dark mode?
    pub fn is_dark(&self) -> (r: bool)
        ensures
            r == (*self == ColorMode::Dark),
    {
        match self {
            ColorMode::Dark => true,
            ColorMode::Light => false,
        }
    }

    /// Is this light mode?
    pub fn is_light(&self) -> (r: bool)
        ensures
            r == (*self == ColorMode::Light),
    {
        match self {
            ColorMode::Dark => false,
            ColorMode::Light => true,
        }
    }
}

impl Default for ColorMode {
    fn default() -> (r: Self)
        ensures
            r == ColorMode::Dark,
    {
        ColorMode::Dark
    }
}

/// The default primary color.
pub open spec fn default_primary_color() -> Color {
    Color { r: 40, g: 81, b: 255, a: 255 }
}

/// The default secondary color.
pub open spec fn default_secondary_color() -> Color {
    Color { r: 90, g: 92, b: 95, a: 255 }
}

/// The default danger color.
pub open spec fn default_danger_color() -> Color {
    Color { r: 175, g: 0, b: 0, a: 255 }
}

/// The default color of error text.
pub open spec fn default_error_color() -> Color {
    Color { r: 207, g: 0, b: 0, a: 255 }
}

/// Everything a theme decides, as one value: the color mode, the primary,
/// secondary, danger and error colors, and the fonts in order.
pub ghost struct ThemeView {
    pub color_mode: ColorMode,
    pub primary_color: Color,
    pub secondary_color: Color,
    pub danger_color: Color,
    pub error_color: Color,
    pub fonts: Seq<Seq<char>>,
}

/// The default theme: dark, with the default colors and no fonts of its
/// own.
pub open spec fn default_theme() -> ThemeView {
    ThemeView {
        color_mode: ColorMode::Dark,
        primary_color: default_primary_color(),
        secondary_color: default_secondary_color(),
        danger_color: default_danger_color(),
        error_color: default_error_color(),
        fonts: Seq::empty(),
    }
}

/// A styling theme.
#[derive(Clone)]
pub struct Theme {
    /// The theme's color mode.
    pub color_mode: ColorMode,
    /// The primary color.
    pub primary_color: Color,
    /// The secondary color.
    pub secondary_color: Color,
    /// The danger color.
    pub danger_color: Color,
    /// The error text color.
    pub error_color: Color,
    /// The fonts to be applied to all elements, most preferred first.
    pub fonts: Vec<String>,
}

impl View for Theme {
    type V = ThemeView;

    open spec fn view(&self) -> ThemeView {
        ThemeView {
            color_mode: self.color_mode,
            primary_color: self.primary_color,
            secondary_color: self.secondary_color,
            danger_color: self.danger_color,
            error_color: self.error_color,
            fonts: views(self.fonts@),
        }
    }
}

impl Default for Theme {
    fn default() -> (r: Self)
        ensures
            r@ == default_theme(),
    {
        let r = Theme {
            color_mode: ColorMode::Dark,
            primary_color: Color { r: 40, g: 81, b: 255, a: 255 },
            secondary_color: Color { r: 90, g: 92, b: 95, a: 255 },
            danger_color: Color { r: 175, g: 0, b: 0, a: 255 },
            error_color: Color { r: 207, g: 0, b: 0, a: 255 },
            fonts: Vec::new(),
        };
        assert(r@.fonts =~= Seq::<Seq<char>>::empty());
        r
    }
}

impl Theme {
    /// Sets the color mode.
    pub fn set_color_mode(&mut self, color_mode: ColorMode)
        ensures
            final(self)@ == (ThemeView { color_mode, ..old(self)@ }),
    {
        self.color_mode = color_mode;
    }

    /// Sets the color mode to dark mode.
    pub fn set_dark_mode(&mut self)
        ensures
            final(self)@ == (ThemeView { color_mode: ColorMode::Dark, ..old(self)@ }),
    {
        self.color_mode = ColorMode::Dark;
    }

    /// Sets the color mode to light mode.
    pub fn set_light_mode(&mut self)
        ensures
            final(self)@ == (ThemeView { color_mode: ColorMode::Light, ..old(self)@ }),
    {
        self.color_mode = ColorMode::Light;
    }

    /// Sets the primary color.
    pub fn set_primary_color(&mut self, primary_color: Color)
        ensures
            final(self)@ == (ThemeView { primary_color, ..old(self)@ }),
    {
        self.primary_color = primary_color;
    }

    /// Sets the secondary color.
    pub fn set_secondary_color(&mut self, secondary_color: Color)
        ensures
            final(self)@ == (ThemeView { secondary_color, ..old(self)@ }),
    {
        self.secondary_color = secondary_color;
    }

    /// Sets the danger color.
    pub fn set_danger_color(&mut self, danger_color: Color)
        ensures
            final(self)@ == (ThemeView { danger_color, ..old(self)@ }),
    {
        self.danger_color = danger_color;
    }

    /// Sets the error text color.
    pub fn set_error_color(&mut self, error_color: Color)
        ensures
            final(self)@ == (ThemeView { error_color, ..old(self)@ }),
    {
        self.error_color = error_color;
    }

    /// Replaces the list of fonts.
    pub fn set_fonts(&mut self, fonts: &[&str])
        ensures
            final(self)@ == (ThemeView {
                fonts: fonts@.map_values(|f: &str| f@),
                ..old(self)@
            }),
    {
        let mut list: Vec<String> = Vec::new();
        let mut i: usize = 0;
        while i < fonts.len()
            invariant
                i <= fonts@.len(),
                views(list@) =~= fonts@.subrange(0, i as int).map_values(|f: &str| f@),
            decreases fonts@.len() - i,
        {
            let f: &str = fonts[i];
            let owned = f.to_owned();
            let ghost before = list@;
            list.push(owned);
            assert(views(list@) =~= views(before).push(f@));
            assert(fonts@.subrange(0, i + 1) =~= fonts@.subrange(0, i as int).push(f));
            i = i + 1;
        }
        assert(fonts@.subrange(0, fonts@.len() as int) =~= fonts@);
        self.fonts = list;
    }

    /// Adds a font at the end of the font list.
    pub fn add_font(&mut self, font: &str)
        ensures
            final(self)@ == (ThemeView { fonts: old(self)@.fonts.push(font@), ..old(self)@ }),
    {
        let ghost before = self.fonts@;
        self.fonts.push(font.to_owned());
        assert(views(self.fonts@) =~= views(before).push(font@));
    }

    /// Sets the color mode.
    pub fn color_mode(self, color_mode: ColorMode) -> (r: Self)
        ensures
            r@ == (ThemeView { color_mode, ..self@ }),
    {
        let mut t = self;
        t.set_color_mode(color_mode);
        t
    }

    /// Sets the color mode to dark mode.
    pub fn dark_mode(self) -> (r: Self)
        ensures
            r@ == (ThemeView { color_mode: ColorMode::Dark, ..self@ }),
    {
        let mut t = self;
        t.set_dark_mode();
        t
    }

    /// Sets the color mode to light mode.
    pub fn light_mode(self) -> (r: Self)
        ensures
            r@ == (ThemeView { color_mode: ColorMode::Light, ..self@ }),
    {
        let mut t = self;
        t.set_light_mode();
        t
    }

    /// Sets the primary color.
    pub fn primary_color(self, primary_color: Color) -> (r: Self)
        ensures
            r@ == (ThemeView { primary_color, ..self@ }),
    {
        let mut t = self;
        t.set_primary_color(primary_color);
        t
    }

    /// Sets the secondary color.
    pub fn secondary_color(self, secondary_color: Color) -> (r: Self)
        ensures
            r@ == (ThemeView { secondary_color, ..self@ }),
    {
        let mut t = self;
        t.set_secondary_color(secondary_color);
        t
    }

    /// Sets the danger color.
    pub fn danger_color(self, danger_color: Color) -> (r: Self)
        ensures
            r@ == (ThemeView { danger_color, ..self@ }),
    {
        let mut t = self;
        t.set_danger_color(danger_color);
        t
    }

    /// Sets the error text color.
    pub fn error_color(self, error_color: Color) -> (r: Self)
        ensures
            r@ == (ThemeView { error_color, ..self@ }),
    {
        let mut t = self;
        t.set_error_color(error_color);
        t
    }

    /// Replaces the list of fonts.
    pub fn fonts(self, fonts: &[&str]) -> (r: Self)
        ensures
            r@ == (ThemeView { fonts: fonts@.map_values(|f: &str| f@), ..self@ }),
    {
        let mut t = self;
        t.set_fonts(fonts);
        t
    }

    /// Adds a font at the end of the font list.
    pub fn font(self, font: &str) -> (r: Self)
        ensures
            r@ == (ThemeView { fonts: self@.fonts.push(font@), ..self@ }),
    {
        let mut t = self;
        t.add_font(font);
        t
    }
}

} // verus!
