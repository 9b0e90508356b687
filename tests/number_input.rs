use leptonic::number_input::{
    count_trailing_zeros, parse_number, parse_number_value, shorten_to, transform_number,
    NumberState,
};

#[test]
fn clamps_to_max() {
    assert_eq!(parse_number::<u16>("150", 0, 100), Some((100, true)));
}

#[test]
fn clamps_to_min() {
    assert_eq!(parse_number::<i32>("-7", -5, 5), Some((-5, true)));
    assert_eq!(parse_number::<i32>("3", -5, 5), Some((3, false)));
}

#[test]
fn empty_text_is_default_zero_flagged() {
    assert_eq!(parse_number::<u8>("", 10, 20), Some((0, true)));
}

#[test]
fn unparseable_text_gives_nothing() {
    assert_eq!(parse_number::<u16>("abc", 0, 100), None);
    assert_eq!(parse_number::<u16>("-3", 0, 100), None);
    assert_eq!(parse_number::<u8>("256", 0, 255), None);
    assert_eq!(parse_number::<i8>("-129", -128, 127), None);
    assert_eq!(parse_number::<i64>("+", -1, 1), None);
    assert_eq!(parse_number::<u32>("5.", 0, 10), None);
    assert_eq!(parse_number_value::<u32>("", 0, 10), None);
}

#[test]
fn plus_sign_and_extremes_parse() {
    assert_eq!(parse_number::<u16>("+42", 0, 100), Some((42, false)));
    assert_eq!(parse_number::<i8>("-128", -128, 127), Some((-128, false)));
    assert_eq!(
        parse_number::<u64>("18446744073709551615", 0, u64::MAX),
        Some((u64::MAX, false))
    );
    assert_eq!(
        parse_number::<i64>("99999999999999999999999999999999", 0, 10),
        None
    );
}

#[test]
fn toggling_the_sign_of_minus_zero() {
    assert_eq!(transform_number("-0-", 2), "0");
}

#[test]
fn transform_rules() {
    assert_eq!(transform_number("-", 2), "");
    assert_eq!(transform_number("5-", 2), "-5");
    assert_eq!(transform_number("-5-", 2), "5");
    assert_eq!(transform_number("--", 2), "");
    assert_eq!(transform_number("1.2345", 2), "1.23");
    assert_eq!(transform_number("1.2345", 0), "1.");
    assert_eq!(transform_number("007", 2), "07");
    assert_eq!(transform_number("0.5", 2), "0.5");
    assert_eq!(transform_number("0", 2), "0");
    assert_eq!(transform_number("-05", 2), "-5");
    assert_eq!(transform_number("-0.5", 2), "-0.5");
    assert_eq!(transform_number("-0", 2), "-0");
    assert_eq!(transform_number("05-", 2), "-5");
}

#[test]
fn shortening_cuts_without_rounding() {
    assert_eq!(shorten_to("9.999", 1), "9.9");
    assert_eq!(shorten_to("9.9", 5), "9.9");
    assert_eq!(shorten_to("99", 0), "99");
}

#[test]
fn trailing_zeros_of_the_fraction() {
    assert_eq!(count_trailing_zeros("1.50"), 1);
    assert_eq!(count_trailing_zeros("1.500"), 2);
    assert_eq!(count_trailing_zeros("1.00"), 2);
    assert_eq!(count_trailing_zeros("100"), 0);
    assert_eq!(count_trailing_zeros("1."), 0);
}

#[test]
fn integer_text_round_trips() {
    let typed = transform_number("42", 2);
    let (value, moved) = parse_number::<i32>(&typed, -100, 100).unwrap();
    assert_eq!((value, moved), (42, false));
    let again = transform_number(&value.to_string(), 2);
    assert_eq!(again, "42");
    assert_eq!(parse_number::<i32>(&again, -100, 100), Some((42, false)));
}

#[test]
fn state_keeps_typed_text_or_canonical_clamp() {
    let mut state = NumberState::<u16>::new(5, 0, 100, 2);
    assert_eq!(state.to_string(), "5");
    assert_eq!(state.get(), 5);
    state.set("42");
    assert_eq!(state.text(), "42");
    assert_eq!(state.get(), 42);
    state.set("150");
    assert_eq!(state.text(), "100");
    assert_eq!(state.get(), 100);
    state.set("abc");
    assert_eq!(state.text(), "100");
    state.set("");
    assert_eq!(state.text(), "0");
    assert_eq!(state.get(), 0);
}

#[test]
fn state_sign_toggle_and_zero_cleanup() {
    let mut state = NumberState::<i16>::new(0, -50, 50, 0);
    state.set("7-");
    assert_eq!(state.text(), "-7");
    assert_eq!(state.get(), -7);
    state.set("-7-");
    assert_eq!(state.text(), "7");
    state.set("012");
    assert_eq!(state.text(), "12");
}

#[test]
fn empty_state_spans_the_kind() {
    let mut state = NumberState::<i8>::default();
    assert_eq!(state.to_string(), "0");
    assert_eq!(state.get(), 0);
    state.set("127");
    assert_eq!(state.get(), 127);
    state.set("-128");
    assert_eq!(state.get(), -128);
}

#[test]
fn display_puts_pending_point_and_zeros_back() {
    let state = NumberState::<u32>::new(1, 0, 10, 2);
    assert_eq!(state.display_text(false, 0), "1");
    assert_eq!(state.display_text(true, 0), "1.");
    assert_eq!(state.display_text(false, 2), "1.00");
    assert_eq!(state.display_text(true, 1), "1.0");
}
