//! Options of the widget shells, with the names their class lists and
//! attributes use.
use vstd::prelude::*;

verus! {

/// The style of a button.
#[derive(Debug, Clone, Copy, PartialEq, Eq, Structural)]
pub enum ButtonStyle {
    Primary,
    Secondary,
    Transparent,
    Danger,
}

impl ButtonStyle {
    /// Gets the name of the button style.
    pub fn style_name(&self) -> (r: &'static str)
        ensures
            r@ == match *self {
                ButtonStyle::Primary => "primary"@,
                ButtonStyle::Secondary => "secondary"@,
                ButtonStyle::Transparent => "transparent"@,
                ButtonStyle::Danger => "danger"@,
            },
    {
        match self {
            ButtonStyle::Primary => "primary",
            ButtonStyle::Secondary => "secondary",
            ButtonStyle::Transparent => "transparent",
            ButtonStyle::Danger => "danger",
        }
    }
}

impl Default for ButtonStyle {
    fn default() -> (r: Self)
        ensures
            r == ButtonStyle::Primary,
    {
        ButtonStyle::Primary
    }
}

/// The type of an input element.
#[derive(Debug, Clone, Copy, PartialEq, Eq, Structural)]
pub enum InputType {
    Text,
    Email,
    Tel,
    Url,
    Password,
}

impl InputType {
    /// Gets the HTML input element type of this input type.
    pub fn html_input_type(&self) -> (r: &'static str)
        ensures
            r@ == match *self {
                InputType::Text => "text"@,
                InputType::Email => "email"@,
                InputType::Tel => "tel"@,
                InputType::Url => "url"@,
                InputType::Password => "password"@,
            },
    {
        match self {
            InputType::Text => "text",
            InputType::Email => "email",
            InputType::Tel => "tel",
            InputType::Url => "url",
            InputType::Password => "password",
        }
    }
}

impl Default for InputType {
    fn default() -> (r: Self)
        ensures
            r == InputType::Text,
    {
        InputType::Text
    }
}

/// Textarea resize options.
#[derive(Debug, Clone, Copy, PartialEq, Eq, Structural)]
pub enum TextAreaResize {
    NoResize,
    Horizontal,
    Vertical,
    Both,
}

impl TextAreaResize {
    /// Gets the name of the resize option.
    pub fn resize_option_name(&self) -> (r: &'static str)
        ensures
            r@ == match *self {
                TextAreaResize::NoResize => "none"@,
                TextAreaResize::Horizontal => "horizontal"@,
                TextAreaResize::Vertical => "vertical"@,
                TextAreaResize::Both => "both"@,
            },
    {
        match self {
            TextAreaResize::NoResize => "none",
            TextAreaResize::Horizontal => "horizontal",
            TextAreaResize::Vertical => "vertical",
            TextAreaResize::Both => "both",
        }
    }
}

impl Default for TextAreaResize {
    fn default() -> (r: Self)
        ensures
            r == TextAreaResize::NoResize,
    {
        TextAreaResize::NoResize
    }
}

/// The size of an error message.
#[derive(Debug, Clone, Copy, PartialEq, Eq, Structural)]
pub enum ErrorSize {
    Smaller,
    Small,
    Medium,
    Large,
    Larger,
}

impl ErrorSize {
    /// Gets the name of the size.
    pub fn size_name(&self) -> (r: &'static str)
        ensures
            r@ == match *self {
                ErrorSize::Smaller => "smaller"@,
                ErrorSize::Small => "small"@,
                ErrorSize::Medium => "medium"@,
                ErrorSize::Large => "large"@,
                ErrorSize::Larger => "larger"@,
            },
    {
        match self {
            ErrorSize::Smaller => "smaller",
            ErrorSize::Small => "small",
            ErrorSize::Medium => "medium",
            ErrorSize::Large => "large",
            ErrorSize::Larger => "larger",
        }
    }
}

impl Default for ErrorSize {
    fn default() -> (r: Self)
        ensures
            r == ErrorSize::Medium,
    {
        ErrorSize::Medium
    }
}

} // verus!
