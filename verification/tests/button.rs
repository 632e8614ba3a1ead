use ultraviolet::button::{Button, ButtonState, Level, BUTTON_COUNT};

const ALL: [Button; 8] = [
    Button::Select,
    Button::Back,
    Button::Two,
    Button::Three,
    Button::Up,
    Button::Down,
    Button::Left,
    Button::Right,
];

#[test]
fn button_indices_follow_declaration_order() {
    for (i, b) in ALL.iter().enumerate() {
        let index: usize = (*b).into();
        assert_eq!(index, i);
    }
}

#[test]
fn button_index_roundtrip() {
    for b in ALL {
        let index: usize = b.into();
        assert_eq!(Button::try_from(index), Ok(b));
    }
}

#[test]
fn button_try_from_out_of_range_fails() {
    assert_eq!(Button::try_from(BUTTON_COUNT), Err(()));
    assert_eq!(Button::try_from(9usize), Err(()));
    assert_eq!(Button::try_from(usize::MAX), Err(()));
}

#[test]
fn button_try_from_each_index() {
    assert_eq!(Button::try_from(0usize), Ok(Button::Select));
    assert_eq!(Button::try_from(4usize), Ok(Button::Up));
    assert_eq!(Button::try_from(7usize), Ok(Button::Right));
}

#[test]
fn button_state_to_bool() {
    let down: bool = ButtonState::Down.into();
    let up: bool = ButtonState::Up.into();
    assert!(down);
    assert!(!up);
}

#[test]
fn level_to_button_state() {
    assert_eq!(ButtonState::from(Level::High), ButtonState::Down);
    assert_eq!(ButtonState::from(Level::Low), ButtonState::Up);
}
