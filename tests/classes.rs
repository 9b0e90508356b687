use leptonic::classes::Classes;

fn classes_of(items: Vec<Classes>) -> String {
    let mut classes = Classes::new();
    for item in items {
        classes.extend(item);
    }
    classes.to_string()
}

#[test]
fn heterogeneous_inputs_join_in_order() {
    let list = classes_of(vec![
        Classes::from_str("a"),
        Classes::from_option(None),
        Classes::from_vec(vec![Classes::from_str("b"), Classes::from_str("c")]),
        Classes::from_fn(|| Classes::from_str("d")),
    ]);
    assert_eq!(list, "a b c d");
}

#[test]
fn no_classes_give_empty_string() {
    assert_eq!(Classes::new().to_string(), "");
    assert_eq!(classes_of(vec![Classes::from_option(None), Classes::from_vec(vec![])]), "");
}

#[test]
fn repeats_are_kept() {
    let list = classes_of(vec![
        Classes::from_str("x"),
        Classes::from_string("x".to_string()),
        Classes::from_option(Some(Classes::from_str("y"))),
    ]);
    assert_eq!(list, "x x y");
}

#[test]
fn a_name_with_spaces_stays_one_token() {
    let list = classes_of(vec![Classes::from_str("p q"), Classes::from_str("r")]);
    assert_eq!(list, "p q r");
}
