use vstd::prelude::*;

use crate::button::{Button, ButtonState};
use crate::route::{next_route, Home, Route, RouteView};

verus! {

/// The application state.
///
/// The battery voltage is kept as the bit pattern of the `f32` reading, in
/// volts; nothing here computes with it.
#[derive(Debug, Clone, Copy, PartialEq, Eq)]
pub struct State {
    pub battery_voltage_bits: u32,
    pub route: Route,
}

/// The model of a [`State`].
pub struct StateView {
    pub battery_voltage_bits: u32,
    pub route: RouteView,
}

impl View for State {
    type V = StateView;

    open spec fn view(&self) -> StateView {
        StateView { battery_voltage_bits: self.battery_voltage_bits, route: self.route@ }
    }
}

} // verus!

verus! {

/// An event for the application state.
#[derive(Debug, Clone, Copy, PartialEq, Eq)]
pub enum Action {
    /// A new battery reading: the bit pattern of the `f32` voltage.
    BatteryVoltage { voltage_bits: u32 },
    /// A button was pressed or released.
    ButtonPressed { button: Button, button_state: ButtonState },
}

/// The state the application starts in: no battery reading yet (0.0 V) and
/// the home menu with Statistics highlighted.
pub open spec fn initial_state() -> StateView {
    StateView { battery_voltage_bits: 0, route: RouteView::Home(Home::Statistics) }
}

/// The state after `action` is applied to `state`.
pub open spec fn apply_action(state: StateView, action: Action) -> StateView {
    match action {
        Action::BatteryVoltage { voltage_bits } => StateView { battery_voltage_bits: voltage_bits, ..state },
        Action::ButtonPressed { button, button_state } => StateView {
            route: next_route(state.route, button, button_state),
            ..state
        },
    }
}

impl State {
    /// The state the application starts in.
    pub fn new() -> (s: Self)
        ensures
            s@ == initial_state(),
            s.battery_voltage_bits == 0,
            s@.route == RouteView::Home(Home::Statistics),
    {
        Self { battery_voltage_bits: 0, route: Route::Home(Home::Statistics) }
    }

    /// Handles one button event on the current route.
    pub fn handle_button_pressed(&mut self, button: Button, button_state: ButtonState)
        ensures
            final(self)@ == apply_action(old(self)@, Action::ButtonPressed { button, button_state }),
    {
        Route::handle_button_pressed(self, button, button_state);
    }

    /// Records a new battery reading.
    pub fn handle_battery_voltage(&mut self, voltage_bits: u32)
        ensures
            final(self)@ == apply_action(old(self)@, Action::BatteryVoltage { voltage_bits }),
            final(self)@.battery_voltage_bits == voltage_bits,
            final(self)@.route == old(self)@.route,
    {
        self.battery_voltage_bits = voltage_bits;
    }
}

/// Applies one action to the state, by the handler that the action names.
pub fn reducer(state: &mut State, action: Action)
    ensures
        final(state)@ == apply_action(old(state)@, action),
        action matches Action::BatteryVoltage { voltage_bits } ==> final(state)@.battery_voltage_bits
            == voltage_bits && final(state)@.route == old(state)@.route,
        action is ButtonPressed ==> final(state)@.battery_voltage_bits
            == old(state)@.battery_voltage_bits,
{
    match action {
        Action::BatteryVoltage { voltage_bits } => state.handle_battery_voltage(voltage_bits),
        Action::ButtonPressed { button, button_state } => state.handle_button_pressed(button, button_state),
    }
}

/// A battery reading and a button event touch different parts of the state,
/// so applying them in either order gives the same state.
pub proof fn lemma_actions_commute(
    state: StateView,
    voltage_bits: u32,
    button: Button,
    button_state: ButtonState,
)
    ensures
        apply_action(
            apply_action(state, Action::BatteryVoltage { voltage_bits }),
            Action::ButtonPressed { button, button_state },
        ) == apply_action(
            apply_action(state, Action::ButtonPressed { button, button_state }),
            Action::BatteryVoltage { voltage_bits },
        ),
        apply_action(state, Action::BatteryVoltage { voltage_bits }).route == state.route,
        apply_action(state, Action::ButtonPressed { button, button_state }).battery_voltage_bits
            == state.battery_voltage_bits,
{
}


/// A battery reading replaces the one the state held, whatever the two
/// values, and leaves the route alone.
pub proof fn lemma_battery_reading_replaces(state: StateView, voltage_bits: u32)
    ensures
        apply_action(state, Action::BatteryVoltage { voltage_bits }).battery_voltage_bits
            == voltage_bits,
        apply_action(state, Action::BatteryVoltage { voltage_bits }).route == state.route,
{
}

} // verus!
