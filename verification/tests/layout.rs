use number_input::{
    Button, Child, IconName, Layout, NumberInput, Size, StepAction, BUTTON_OFFSET, KEY_CONTEXT,
};

fn widget() -> NumberInput {
    NumberInput::new().expect("the default pattern compiles")
}

fn buttons(layout: &Layout) -> (Button, Button) {
    match (layout.children[0], layout.children[2]) {
        (Child::Button(left), Child::Button(right)) => (left, right),
        other => panic!("the row starts and ends with a button, not {:?}", other),
    }
}

#[test]
fn the_row_is_minus_field_plus() {
    let layout = widget().render(false);
    assert_eq!(layout.children.len(), 3);
    assert_eq!(
        layout.children,
        vec![
            Child::Button(Button {
                id: "minus",
                size: Size::Small,
                icon: IconName::Minus,
                margin_left: -3,
                margin_right: 0,
                on_click: StepAction::Decrement,
            }),
            Child::Input,
            Child::Button(Button {
                id: "plus",
                size: Size::Small,
                icon: IconName::Plus,
                margin_left: 0,
                margin_right: -3,
                on_click: StepAction::Increment,
            }),
        ]
    );
}

#[test]
fn the_row_is_outlined_exactly_when_focused() {
    let mut input = widget();
    assert!(input.render(true).outlined);
    assert!(!input.render(false).outlined);
    assert!(input.render(true).outlined);
}

#[test]
fn the_row_takes_keys_in_the_widget_context() {
    let layout = widget().render(false);
    assert_eq!(layout.key_context, "NumberInput");
    assert_eq!(layout.key_context, KEY_CONTEXT);
    assert_eq!(layout.actions, vec![StepAction::Increment, StepAction::Decrement]);
}

#[test]
fn the_row_has_the_size_of_the_widget() {
    for size in [Size::XSmall, Size::Small, Size::Medium, Size::Large] {
        let layout = widget().with_size(size).render(false);
        assert_eq!(layout.size, size);
    }
}

#[test]
fn small_tiers_get_the_smallest_buttons() {
    for size in [Size::XSmall, Size::Small] {
        let layout = widget().with_size(size).render(false);
        let (left, right) = buttons(&layout);
        assert_eq!(left.size, Size::XSmall);
        assert_eq!(right.size, Size::XSmall);
    }
}

#[test]
fn other_tiers_get_small_buttons() {
    for size in [Size::Medium, Size::Large] {
        let layout = widget().with_size(size).render(false);
        let (left, right) = buttons(&layout);
        assert_eq!(left.size, Size::Small);
        assert_eq!(right.size, Size::Small);
    }
}

#[test]
fn button_size_of_each_tier() {
    assert_eq!(Size::XSmall.button_size(), Size::XSmall);
    assert_eq!(Size::Small.button_size(), Size::XSmall);
    assert_eq!(Size::Medium.button_size(), Size::Small);
    assert_eq!(Size::Large.button_size(), Size::Small);
}

#[test]
fn buttons_follow_a_later_set_size() {
    let mut input = widget();
    input.render(false);
    input.set_size(Size::XSmall);
    let layout = input.render(false);
    assert_eq!(layout.size, Size::XSmall);
    assert_eq!(buttons(&layout).0.size, Size::XSmall);
}

#[test]
fn each_button_reaches_over_its_own_edge() {
    assert_eq!(BUTTON_OFFSET, -3);
    let minus = Button::minus(Size::Small);
    assert_eq!((minus.margin_left, minus.margin_right), (-3, 0));
    let plus = Button::plus(Size::Small);
    assert_eq!((plus.margin_left, plus.margin_right), (0, -3));
}

#[test]
fn a_click_on_a_button_asks_for_its_step() {
    let mut input = widget();
    let layout = input.render(false);
    let (left, right) = buttons(&layout);
    assert_eq!(
        input.on_step(left.on_click),
        Some(number_input::NumberInputEvent::Step(StepAction::Decrement))
    );
    assert_eq!(
        input.on_step(right.on_click),
        Some(number_input::NumberInputEvent::Step(StepAction::Increment))
    );
}

#[test]
fn layout_new_is_what_render_gives() {
    let mut input = widget().with_size(Size::Large);
    assert_eq!(input.render(true), Layout::new(Size::Large, true));
}
