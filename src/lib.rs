//! Building blocks of a widget library: class lists, numeric text shaping,
//! and a theme engine that derives a palette of style variables from a
//! few seed colors.
pub mod classes;
pub mod color;
pub mod lifecycle;
pub mod number;
pub mod number_input;
pub mod style;
pub mod text;
pub mod theme;
pub mod widgets;
