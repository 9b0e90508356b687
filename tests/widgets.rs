use leptonic::widgets::{ButtonStyle, ErrorSize, InputType, TextAreaResize};

#[test]
fn option_names() {
    assert_eq!(ButtonStyle::Transparent.style_name(), "transparent");
    assert_eq!(ButtonStyle::default(), ButtonStyle::Primary);
    assert_eq!(InputType::Password.html_input_type(), "password");
    assert_eq!(InputType::default().html_input_type(), "text");
    assert_eq!(TextAreaResize::NoResize.resize_option_name(), "none");
    assert_eq!(TextAreaResize::default(), TextAreaResize::NoResize);
    assert_eq!(TextAreaResize::Both.resize_option_name(), "both");
    assert_eq!(ErrorSize::default().size_name(), "medium");
    assert_eq!(ErrorSize::Larger.size_name(), "larger");
}
