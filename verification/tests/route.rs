use ultraviolet::button::{Button, ButtonState};
use ultraviolet::route::{ButtonDebugger, HandleButtonPressed, Home, Route, Statistics};
use ultraviolet::state::{reducer, Action, State};

fn press(state: &mut State, button: Button) {
    state.handle_button_pressed(button, ButtonState::Down);
}

fn release(state: &mut State, button: Button) {
    state.handle_button_pressed(button, ButtonState::Up);
}

#[test]
fn new_state_is_home_statistics() {
    let s = State::new();
    assert_eq!(s.route, Route::Home(Home::Statistics));
    assert_eq!(s.battery_voltage_bits, 0);
    assert_eq!(f32::from_bits(s.battery_voltage_bits), 0.0f32);
}

#[test]
fn home_up_then_down_returns() {
    let mut s = State::new();
    press(&mut s, Button::Up);
    assert_eq!(s.route, Route::Home(Home::ButtonDebugger));
    press(&mut s, Button::Down);
    assert_eq!(s.route, Route::Home(Home::Statistics));
}

#[test]
fn home_down_then_up_returns() {
    let mut s = State { battery_voltage_bits: 0, route: Route::Home(Home::ButtonDebugger) };
    press(&mut s, Button::Down);
    assert_eq!(s.route, Route::Home(Home::Statistics));
    press(&mut s, Button::Up);
    assert_eq!(s.route, Route::Home(Home::ButtonDebugger));
}

#[test]
fn statistics_open_and_back() {
    let mut s = State::new();
    press(&mut s, Button::Select);
    assert_eq!(s.route, Route::Statistics(Statistics));
    press(&mut s, Button::Select);
    assert_eq!(s.route, Route::Statistics(Statistics));
    press(&mut s, Button::Back);
    assert_eq!(s.route, Route::Home(Home::Statistics));
}

#[test]
fn menu_ignores_releases_and_unused_buttons() {
    let mut s = State::new();
    release(&mut s, Button::Select);
    release(&mut s, Button::Up);
    press(&mut s, Button::Left);
    press(&mut s, Button::Down);
    assert_eq!(s.route, Route::Home(Home::Statistics));
    let mut t = State { battery_voltage_bits: 7, route: Route::Statistics(Statistics) };
    release(&mut t, Button::Back);
    press(&mut t, Button::Select);
    assert_eq!(t.route, Route::Statistics(Statistics));
    assert_eq!(t.battery_voltage_bits, 7);
}

#[test]
fn debugger_opens_released_and_records() {
    let mut s = State { battery_voltage_bits: 0, route: Route::Home(Home::ButtonDebugger) };
    press(&mut s, Button::Select);
    assert_eq!(s.route, Route::ButtonDebugger(ButtonDebugger([false; 8])));
    // Select is still held when the debugger opens; its release is recorded.
    release(&mut s, Button::Select);
    press(&mut s, Button::Three);
    press(&mut s, Button::Right);
    assert_eq!(
        s.route,
        Route::ButtonDebugger(ButtonDebugger([false, false, false, true, false, false, false, true]))
    );
    release(&mut s, Button::Three);
    press(&mut s, Button::Back);
    assert_eq!(
        s.route,
        Route::ButtonDebugger(ButtonDebugger([false, true, false, false, false, false, false, true]))
    );
}

#[test]
fn trait_handlers_match_route_handler() {
    let mut s = State::new();
    Home::Statistics.handle_button_pressed(&mut s, Button::Up, ButtonState::Down);
    assert_eq!(s.route, Route::Home(Home::ButtonDebugger));
    let mut t = State { battery_voltage_bits: 3, route: Route::Statistics(Statistics) };
    Statistics.handle_button_pressed(&mut t, Button::Back, ButtonState::Down);
    assert_eq!(t.route, Route::Home(Home::Statistics));
    let mut u = State::new();
    ButtonDebugger([true; 8]).handle_button_pressed(&mut u, Button::Left, ButtonState::Up);
    assert_eq!(
        u.route,
        Route::ButtonDebugger(ButtonDebugger([true, true, true, true, true, true, false, true]))
    );
    let mut w = State::new();
    Route::handle_button_pressed(&mut w, Button::Select, ButtonState::Down);
    assert_eq!(w.route, Route::Statistics(Statistics));
}

#[test]
fn reducer_applies_actions() {
    let mut s = State::new();
    let volts = 3.7f32;
    reducer(&mut s, Action::BatteryVoltage { voltage_bits: volts.to_bits() });
    assert_eq!(f32::from_bits(s.battery_voltage_bits), 3.7f32);
    assert_eq!(s.route, Route::Home(Home::Statistics));
    reducer(&mut s, Action::ButtonPressed { button: Button::Select, button_state: ButtonState::Down });
    assert_eq!(s.route, Route::Statistics(Statistics));
    assert_eq!(f32::from_bits(s.battery_voltage_bits), 3.7f32);
}

#[test]
fn reducer_actions_commute() {
    let mut a = State::new();
    reducer(&mut a, Action::BatteryVoltage { voltage_bits: 42 });
    reducer(&mut a, Action::ButtonPressed { button: Button::Up, button_state: ButtonState::Down });
    let mut b = State::new();
    reducer(&mut b, Action::ButtonPressed { button: Button::Up, button_state: ButtonState::Down });
    reducer(&mut b, Action::BatteryVoltage { voltage_bits: 42 });
    assert_eq!(a, b);
}
