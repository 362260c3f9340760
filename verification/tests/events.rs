use number_input::{InputEvent, NumberInput, NumberInputEvent, StepAction};

fn widget() -> NumberInput {
    NumberInput::new().expect("the default pattern compiles")
}

#[test]
fn a_change_is_handed_on_with_its_text() {
    let input = widget();
    assert_eq!(
        input.on_input_event(InputEvent::Change("12.5".to_string())),
        NumberInputEvent::Input(InputEvent::Change("12.5".to_string()))
    );
}

#[test]
fn every_kind_of_field_event_is_handed_on() {
    let input = widget();
    assert_eq!(
        input.on_input_event(InputEvent::PressEnter),
        NumberInputEvent::Input(InputEvent::PressEnter)
    );
    assert_eq!(input.on_input_event(InputEvent::Focus), NumberInputEvent::Input(InputEvent::Focus));
    assert_eq!(input.on_input_event(InputEvent::Blur), NumberInputEvent::Input(InputEvent::Blur));
}

#[test]
fn a_disabled_widget_still_hands_field_events_on() {
    let mut input = widget();
    input.set_disabled(true);
    assert_eq!(
        input.on_input_event(InputEvent::Change("1".to_string())),
        NumberInputEvent::Input(InputEvent::Change("1".to_string()))
    );
}

#[test]
fn a_handed_on_event_is_no_step() {
    let input = widget();
    let event = input.on_input_event(InputEvent::Change("1".to_string()));
    assert_ne!(event, NumberInputEvent::Step(StepAction::Increment));
    assert_ne!(event, NumberInputEvent::Input(InputEvent::Change("2".to_string())));
}

#[test]
fn change_holds_the_given_text() {
    assert_eq!(InputEvent::change("-.5"), InputEvent::Change("-.5".to_string()));
}
