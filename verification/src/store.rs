use vstd::prelude::*;

use crate::button::{button_index, is_pressed, Button, ButtonState, BUTTON_COUNT};

verus! {

/// An event for the [`Store`].
#[derive(Debug, Clone, Copy, PartialEq, Eq)]
pub enum Action {
    /// A new battery reading: the bit pattern of the `f32` voltage.
    BatteryVoltage(u32),
    /// A button was pressed or released.
    ButtonPressed(Button, ButtonState),
}

/// The screen of the [`Store`]: the button debugger, with one flag per button.
#[derive(Debug, Clone, Copy, PartialEq, Eq)]
pub enum Route {
    ButtonDebugger([bool; 8]),
}

/// The state that the reducer keeps and the screen shows.
///
/// The battery voltage is kept as the bit pattern of the `f32` reading, in
/// volts; nothing here computes with it.
#[derive(Debug, Clone, Copy, PartialEq, Eq)]
pub struct Store {
    pub battery_voltage_bits: u32,
    pub route: Route,
}

/// The model of a [`Store`]: the battery reading and the debugger's flags.
pub struct StoreView {
    pub battery_voltage_bits: u32,
    pub buttons: Seq<bool>,
}

impl View for Store {
    type V = StoreView;

    open spec fn view(&self) -> StoreView {
        match self.route {
            Route::ButtonDebugger(buttons) => StoreView {
                battery_voltage_bits: self.battery_voltage_bits,
                buttons: buttons@,
            },
        }
    }
}

/// The new flag of a button whose flag was `value`, after an event in which
/// the button is `pressed` or released: a press sets a clear flag, every
/// other event leaves the flag clear.
pub open spec fn next_flag(value: bool, pressed: bool) -> bool {
    pressed && !value
}

/// The store after `action`.
pub open spec fn store_next(store: StoreView, action: Action) -> StoreView {
    match action {
        Action::BatteryVoltage(voltage_bits) => StoreView { battery_voltage_bits: voltage_bits, ..store },
        Action::ButtonPressed(button, state) => {
            let i = button_index(button) as int;
            StoreView {
                buttons: store.buttons.update(i, next_flag(store.buttons[i], is_pressed(state))),
                ..store
            }
        },
    }
}

impl Store {
    /// Applies one action to the store.
    pub fn next(&mut self, action: Action)
        ensures
            final(self)@ == store_next(old(self)@, action),
            action matches Action::BatteryVoltage(v) ==> final(self)@.battery_voltage_bits == v
                && final(self)@.buttons == old(self)@.buttons,
            action matches Action::ButtonPressed(b, s) ==> final(self)@.battery_voltage_bits
                == old(self)@.battery_voltage_bits && final(self)@.buttons.len() == 8 && (forall|
                i: int,
            |
                0 <= i < 8 ==> #[trigger] final(self)@.buttons[i] == (if i == button_index(b) {
                    s == ButtonState::Down && !old(self)@.buttons[i]
                } else {
                    old(self)@.buttons[i]
                })),
    {
        match action {
            Action::BatteryVoltage(voltage) => {
                self.battery_voltage_bits = voltage;
            },
            Action::ButtonPressed(button, state) => match self {
                Self { battery_voltage_bits: _, route: Route::ButtonDebugger(buttons) } => {
                    let index: usize = button.into();
                    let value = buttons[index];
                    let new_value: bool = state.into();

                    if value != new_value {
                        buttons[index] = new_value
                    } else {
                        buttons[index] = false
                    }
                },
            },
        }
    }
}

/// Releasing a button always clears its flag, and no button event changes
/// the battery reading or another button's flag.
pub proof fn lemma_store_release_clears(store: StoreView, button: Button)
    requires
        store.buttons.len() == BUTTON_COUNT,
    ensures
        store_next(store, Action::ButtonPressed(button, ButtonState::Up)).buttons[button_index(
            button,
        ) as int] == false,
        store_next(store, Action::ButtonPressed(button, ButtonState::Up)).buttons.len()
            == BUTTON_COUNT,
        store_next(store, Action::ButtonPressed(button, ButtonState::Up)).battery_voltage_bits
            == store.battery_voltage_bits,
        forall|i: int|
            0 <= i < BUTTON_COUNT && i != button_index(button) ==> store_next(
                store,
                Action::ButtonPressed(button, ButtonState::Up),
            ).buttons[i] == store.buttons[i],
{
}

/// Pressing a button toggles its flag.
pub proof fn lemma_store_press_toggles(store: StoreView, button: Button)
    requires
        store.buttons.len() == BUTTON_COUNT,
    ensures
        store_next(store, Action::ButtonPressed(button, ButtonState::Down)).buttons[button_index(
            button,
        ) as int] == !store.buttons[button_index(button) as int],
{
}

/// Pressing and then releasing a released button gives back the store as it
/// was.
pub proof fn lemma_store_press_release_restores(store: StoreView, button: Button)
    requires
        store.buttons.len() == BUTTON_COUNT,
        !store.buttons[button_index(button) as int],
    ensures
        store_next(
            store_next(store, Action::ButtonPressed(button, ButtonState::Down)),
            Action::ButtonPressed(button, ButtonState::Up),
        ) == store,
{
    let after = store_next(
        store_next(store, Action::ButtonPressed(button, ButtonState::Down)),
        Action::ButtonPressed(button, ButtonState::Up),
    );
    assert(after.buttons =~= store.buttons);
}


/// A battery reading replaces the one the store held, whatever the two
/// values, and leaves every flag alone.
pub proof fn lemma_store_reading_replaces(store: StoreView, voltage_bits: u32)
    ensures
        store_next(store, Action::BatteryVoltage(voltage_bits)).battery_voltage_bits
            == voltage_bits,
        store_next(store, Action::BatteryVoltage(voltage_bits)).buttons == store.buttons,
{
}

/// A button event, press or release, changes only the flag of its own
/// button: the new flag is set exactly when the event is a press and the
/// flag was clear. The battery reading stays as it was.
pub proof fn lemma_store_event_touches_own_flag(
    store: StoreView,
    button: Button,
    state: ButtonState,
    i: int,
)
    requires
        store.buttons.len() == 8,
        0 <= i < 8,
    ensures
        store_next(store, Action::ButtonPressed(button, state)).buttons.len() == 8,
        store_next(store, Action::ButtonPressed(button, state)).battery_voltage_bits
            == store.battery_voltage_bits,
        i != button_index(button) ==> store_next(store, Action::ButtonPressed(button, state)).buttons[i]
            == store.buttons[i],
        i == button_index(button) ==> store_next(store, Action::ButtonPressed(button, state)).buttons[i]
            == (state == ButtonState::Down && !store.buttons[i]),
{
}

} // verus!
