use vstd::prelude::*;
use vstd::std_specs::convert::FromSpecImpl;
use vstd::std_specs::convert::TryFromSpecImpl;

verus! {

/// The eight push buttons of the device, in the order of their indices.
#[derive(Debug, Clone, Copy, PartialEq, Eq, Structural)]
pub enum Button {
    Select,
    Back,
    Two,
    Three,
    Up,
    Down,
    Left,
    Right,
}

/// Whether a button is held down or released.
#[derive(Debug, Clone, Copy, PartialEq, Eq, Structural)]
pub enum ButtonState {
    Up,
    Down,
}

/// The logic level read from a button's input pin (pulled down, so a held
/// button reads high).
#[derive(Debug, Clone, Copy, PartialEq, Eq, Structural)]
pub enum Level {
    Low,
    High,
}

/// The number of buttons.
pub const BUTTON_COUNT: usize = 8;

/// Index of a button in the button array: its position in [`Button`]'s declaration.
pub open spec fn button_index(b: Button) -> nat {
    match b {
        Button::Select => 0,
        Button::Back => 1,
        Button::Two => 2,
        Button::Three => 3,
        Button::Up => 4,
        Button::Down => 5,
        Button::Left => 6,
        Button::Right => 7,
    }
}

/// The button at index `i`, if `i` is the index of one.
pub open spec fn button_at(i: int) -> Option<Button> {
    if i == 0 {
        Some(Button::Select)
    } else if i == 1 {
        Some(Button::Back)
    } else if i == 2 {
        Some(Button::Two)
    } else if i == 3 {
        Some(Button::Three)
    } else if i == 4 {
        Some(Button::Up)
    } else if i == 5 {
        Some(Button::Down)
    } else if i == 6 {
        Some(Button::Left)
    } else if i == 7 {
        Some(Button::Right)
    } else {
        None
    }
}

/// A held button counts as `true`, a released one as `false`.
pub open spec fn is_pressed(s: ButtonState) -> bool {
    s == ButtonState::Down
}

/// A high pin level means the button is held down.
pub open spec fn state_of_level(l: Level) -> ButtonState {
    match l {
        Level::High => ButtonState::Down,
        Level::Low => ButtonState::Up,
    }
}

impl From<Button> for usize {
    fn from(val: Button) -> (r: usize)
        ensures
            r == button_index(val),
    {
        match val {
            Button::Select => 0,
            Button::Back => 1,
            Button::Two => 2,
            Button::Three => 3,
            Button::Up => 4,
            Button::Down => 5,
            Button::Left => 6,
            Button::Right => 7,
        }
    }
}

impl FromSpecImpl<Button> for usize {
    open spec fn obeys_from_spec() -> bool {
        true
    }

    open spec fn from_spec(v: Button) -> usize {
        button_index(v) as usize
    }
}

impl TryFrom<usize> for Button {
    type Error = ();

    fn try_from(value: usize) -> (r: Result<Self, Self::Error>)
        ensures
            r == (match button_at(value as int) {
                Some(b) => Ok(b),
                None => Err(()),
            }),
    {
        match value {
            0 => Ok(Self::Select),
            1 => Ok(Self::Back),
            2 => Ok(Self::Two),
            3 => Ok(Self::Three),
            4 => Ok(Self::Up),
            5 => Ok(Self::Down),
            6 => Ok(Self::Left),
            7 => Ok(Self::Right),
            _ => Err(()),
        }
    }
}

impl TryFromSpecImpl<usize> for Button {
    open spec fn obeys_try_from_spec() -> bool {
        true
    }

    open spec fn try_from_spec(v: usize) -> Result<Self, Self::Error> {
        match button_at(v as int) {
            Some(b) => Ok(b),
            None => Err(()),
        }
    }
}

impl From<ButtonState> for bool {
    fn from(val: ButtonState) -> (r: bool)
        ensures
            r == is_pressed(val),
    {
        match val {
            ButtonState::Up => false,
            ButtonState::Down => true,
        }
    }
}

impl FromSpecImpl<ButtonState> for bool {
    open spec fn obeys_from_spec() -> bool {
        true
    }

    open spec fn from_spec(v: ButtonState) -> bool {
        is_pressed(v)
    }
}

impl From<Level> for ButtonState {
    fn from(value: Level) -> (r: ButtonState)
        ensures
            r == state_of_level(value),
    {
        match value {
            Level::High => Self::Down,
            Level::Low => Self::Up,
        }
    }
}

impl FromSpecImpl<Level> for ButtonState {
    open spec fn obeys_from_spec() -> bool {
        true
    }

    open spec fn from_spec(v: Level) -> ButtonState {
        state_of_level(v)
    }
}

/// Every button's index is below the button count, and the index leads back
/// to the same button.
pub proof fn lemma_button_index_roundtrip(b: Button)
    ensures
        button_index(b) < BUTTON_COUNT,
        button_at(button_index(b) as int) == Some(b),
{
}

/// An index names a button exactly when it is below the button count, and
/// that button's index is the index itself.
pub proof fn lemma_button_at_index(i: int)
    ensures
        button_at(i) is Some <==> 0 <= i < BUTTON_COUNT,
        button_at(i) matches Some(b) ==> button_index(b) == i,
{
}

/// Distinct buttons have distinct indices.
pub proof fn lemma_button_index_injective(a: Button, b: Button)
    ensures
        button_index(a) == button_index(b) <==> a == b,
{
}


/// The buttons are numbered in the order Select, Back, Two, Three, Up, Down,
/// Left, Right, from 0.
pub proof fn lemma_button_numbering()
    ensures
        button_index(Button::Select) == 0,
        button_index(Button::Back) == 1,
        button_index(Button::Two) == 2,
        button_index(Button::Three) == 3,
        button_index(Button::Up) == 4,
        button_index(Button::Down) == 5,
        button_index(Button::Left) == 6,
        button_index(Button::Right) == 7,
{
}

/// A held button is `true` and a released one `false`; a high pin reads as
/// held and a low pin as released.
pub proof fn lemma_button_state_meaning()
    ensures
        is_pressed(ButtonState::Down),
        !is_pressed(ButtonState::Up),
        state_of_level(Level::High) == ButtonState::Down,
        state_of_level(Level::Low) == ButtonState::Up,
{
}

} // verus!
