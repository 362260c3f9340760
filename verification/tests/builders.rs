use number_input::{NumberInput, Size};
use regex::Regex;

const PLACEHOLDER: &str = "Enter a number";
const PATTERN: &str = "^[0-9]{0,3}$";
const VALUE: &str = "42";

fn widget() -> NumberInput {
    NumberInput::new().expect("the default pattern compiles")
}

fn apply(input: NumberInput, step: usize) -> NumberInput {
    match step {
        0 => input.placeholder(PLACEHOLDER),
        1 => input.pattern(Regex::new(PATTERN).unwrap()),
        _ => {
            let mut input = input;
            input.set_value(VALUE);
            input
        }
    }
}

fn configuration(input: &NumberInput) -> (String, String, String, bool, Size, bool) {
    let field = input.input();
    (
        field.text().to_string(),
        field.placeholder().to_string(),
        field.validation_pattern().map(|re| re.as_str().to_string()).unwrap_or_default(),
        field.disabled(),
        field.size(),
        field.has_appearance(),
    )
}

#[test]
fn builders_in_any_order_give_the_same_field() {
    let orders = [[0, 1, 2], [0, 2, 1], [1, 0, 2], [1, 2, 0], [2, 0, 1], [2, 1, 0]];
    let expected = (
        VALUE.to_string(),
        PLACEHOLDER.to_string(),
        PATTERN.to_string(),
        false,
        Size::Medium,
        false,
    );
    for order in orders {
        let mut input = widget();
        for step in order {
            input = apply(input, step);
        }
        assert_eq!(configuration(&input), expected, "order {:?}", order);
    }
}

#[test]
fn a_new_widget_holds_an_empty_enabled_field_without_frame() {
    let input = widget();
    assert_eq!(
        configuration(&input),
        (
            String::new(),
            String::new(),
            r"^-?(\d+)?\.?(\d+)?$".to_string(),
            false,
            Size::Medium,
            false
        )
    );
}

#[test]
fn placeholder_builder_and_setter_agree() {
    let built = widget().placeholder("Amount");
    let mut set = widget();
    set.set_placeholder("Amount");
    assert_eq!(configuration(&built), configuration(&set));
    assert_eq!(built.input().placeholder(), "Amount");
}

#[test]
fn the_last_placeholder_wins() {
    let mut input = widget().placeholder("first");
    input.set_placeholder("second");
    assert_eq!(input.input().placeholder(), "second");
}

#[test]
fn set_value_replaces_the_text() {
    let mut input = widget();
    input.set_value("1");
    input.set_value("-2.5");
    assert_eq!(input.input().text(), "-2.5");
}

#[test]
fn set_disabled_reaches_the_field() {
    let mut input = widget();
    assert!(!input.input().disabled());
    input.set_disabled(true);
    assert!(input.input().disabled());
    input.set_disabled(false);
    assert!(!input.input().disabled());
}

#[test]
fn with_size_changes_nothing_but_the_size() {
    let before = configuration(&widget());
    let input = widget().with_size(Size::XSmall);
    assert_eq!(input.size(), Size::XSmall);
    assert_eq!(configuration(&input), before);
}
