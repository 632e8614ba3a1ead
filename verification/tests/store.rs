use ultraviolet::button::{Button, ButtonState};
use ultraviolet::store::{Action, Route, Store};

fn released() -> Store {
    Store { battery_voltage_bits: 0, route: Route::ButtonDebugger([false; 8]) }
}

#[test]
fn store_battery_voltage() {
    let mut s = released();
    s.next(Action::BatteryVoltage(4.1f32.to_bits()));
    assert_eq!(f32::from_bits(s.battery_voltage_bits), 4.1f32);
    assert_eq!(s.route, Route::ButtonDebugger([false; 8]));
}

#[test]
fn store_press_sets_and_release_clears() {
    let mut s = released();
    s.next(Action::ButtonPressed(Button::Two, ButtonState::Down));
    assert_eq!(s.route, Route::ButtonDebugger([false, false, true, false, false, false, false, false]));
    s.next(Action::ButtonPressed(Button::Two, ButtonState::Up));
    assert_eq!(s, released());
}

#[test]
fn store_press_toggles() {
    let mut s = released();
    s.next(Action::ButtonPressed(Button::Down, ButtonState::Down));
    s.next(Action::ButtonPressed(Button::Down, ButtonState::Down));
    assert_eq!(s, released());
}

#[test]
fn store_release_of_released_stays_clear() {
    let mut s = Store { battery_voltage_bits: 9, route: Route::ButtonDebugger([true; 8]) };
    s.next(Action::ButtonPressed(Button::Select, ButtonState::Up));
    s.next(Action::ButtonPressed(Button::Select, ButtonState::Up));
    assert_eq!(s.route, Route::ButtonDebugger([false, true, true, true, true, true, true, true]));
    assert_eq!(s.battery_voltage_bits, 9);
}
