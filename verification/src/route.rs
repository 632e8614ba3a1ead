use vstd::prelude::*;

use crate::button::{button_index, is_pressed, Button, ButtonState, BUTTON_COUNT};
use crate::state::State;

verus! {

/// A screen that reacts to button events by moving the application to a new
/// route.
pub trait HandleButtonPressed {
    /// The route the application is on after this screen handled the event,
    /// starting from the route `current`.
    spec fn route_after(&self, current: RouteView, button: Button, button_state: ButtonState) -> RouteView;

    /// Handles one button event: the route becomes [`Self::route_after`], and
    /// the battery reading is left as it was.
    fn handle_button_pressed(&self, state: &mut State, button: Button, button_state: ButtonState)
        ensures
            final(state)@.route == self.route_after(old(state)@.route, button, button_state),
            final(state)@.battery_voltage_bits == old(state)@.battery_voltage_bits,
    ;
}

/// The items of the home menu; the one named is the one highlighted.
#[derive(Debug, Clone, Copy, PartialEq, Eq, Structural)]
pub enum Home {
    ButtonDebugger,
    Statistics,
}

/// The statistics screen.
#[derive(Debug, Clone, Copy, PartialEq, Eq, Structural)]
pub struct Statistics;

/// The button debugger screen, with one flag per button telling whether the
/// last event of that button was a press.
#[derive(Debug, Clone, Copy, PartialEq, Eq)]
pub struct ButtonDebugger(pub [bool; 8]);

/// The screen the application shows.
#[derive(Debug, Clone, Copy, PartialEq, Eq)]
pub enum Route {
    Home(Home),
    Statistics(Statistics),
    ButtonDebugger(ButtonDebugger),
}

/// The model of a [`Route`]: the button debugger's flags as a sequence.
pub enum RouteView {
    Home(Home),
    Statistics,
    ButtonDebugger(Seq<bool>),
}

impl View for ButtonDebugger {
    type V = Seq<bool>;

    open spec fn view(&self) -> Seq<bool> {
        self.0@
    }
}

impl View for Route {
    type V = RouteView;

    open spec fn view(&self) -> RouteView {
        match self {
            Route::Home(home) => RouteView::Home(*home),
            Route::Statistics(_) => RouteView::Statistics,
            Route::ButtonDebugger(debugger) => RouteView::ButtonDebugger(debugger@),
        }
    }
}

/// The flags of a freshly opened button debugger: no button pressed.
pub open spec fn all_released() -> Seq<bool> {
    Seq::new(BUTTON_COUNT as nat, |i: int| false)
}

/// Whether an event is the press (not the release) of `b`.
pub open spec fn is_press_of(button: Button, button_state: ButtonState, b: Button) -> bool {
    button == b && button_state == ButtonState::Down
}

/// The route after one button event on route `route`.
///
/// On the home menu, Select opens the highlighted item, Down highlights
/// Statistics and Up highlights the button debugger. On the statistics
/// screen, Back returns to the home menu with Statistics highlighted. Only
/// presses count there; releases change nothing. The button debugger
/// records, for the button of the event, whether it is now held.
pub open spec fn next_route(route: RouteView, button: Button, button_state: ButtonState) -> RouteView {
    match route {
        RouteView::Home(Home::ButtonDebugger) => {
            if is_press_of(button, button_state, Button::Select) {
                RouteView::ButtonDebugger(all_released())
            } else if is_press_of(button, button_state, Button::Down) {
                RouteView::Home(Home::Statistics)
            } else {
                route
            }
        },
        RouteView::Home(Home::Statistics) => {
            if is_press_of(button, button_state, Button::Select) {
                RouteView::Statistics
            } else if is_press_of(button, button_state, Button::Up) {
                RouteView::Home(Home::ButtonDebugger)
            } else {
                route
            }
        },
        RouteView::Statistics => {
            if is_press_of(button, button_state, Button::Back) {
                RouteView::Home(Home::Statistics)
            } else {
                route
            }
        },
        RouteView::ButtonDebugger(flags) => {
            RouteView::ButtonDebugger(flags.update(button_index(button) as int, is_pressed(button_state)))
        },
    }
}

impl HandleButtonPressed for Home {
    open spec fn route_after(&self, current: RouteView, button: Button, button_state: ButtonState) -> RouteView {
        match self {
            Home::ButtonDebugger => {
                if is_press_of(button, button_state, Button::Select) {
                    RouteView::ButtonDebugger(all_released())
                } else if is_press_of(button, button_state, Button::Down) {
                    RouteView::Home(Home::Statistics)
                } else {
                    current
                }
            },
            Home::Statistics => {
                if is_press_of(button, button_state, Button::Select) {
                    RouteView::Statistics
                } else if is_press_of(button, button_state, Button::Up) {
                    RouteView::Home(Home::ButtonDebugger)
                } else {
                    current
                }
            },
        }
    }

    fn handle_button_pressed(&self, state: &mut State, button: Button, button_state: ButtonState) {
        match self {
            Home::ButtonDebugger => {
                if button == Button::Select && button_state == ButtonState::Down {
                    let released: [bool; 8] = [false; 8];
                    proof {
                        broadcast use vstd::array::group_array_axioms;
                        assert(released@ =~= all_released());
                    }
                    state.route = Route::ButtonDebugger(ButtonDebugger(released));
                }
                if button == Button::Down && button_state == ButtonState::Down {
                    state.route = Route::Home(Home::Statistics)
                }
            },
            Home::Statistics => {
                if button == Button::Select && button_state == ButtonState::Down {
                    state.route = Route::Statistics(Statistics)
                }
                if button == Button::Up && button_state == ButtonState::Down {
                    state.route = Route::Home(Home::ButtonDebugger)
                }
            },
        }
    }
}

impl HandleButtonPressed for Statistics {
    open spec fn route_after(&self, current: RouteView, button: Button, button_state: ButtonState) -> RouteView {
        if is_press_of(button, button_state, Button::Back) {
            RouteView::Home(Home::Statistics)
        } else {
            current
        }
    }

    fn handle_button_pressed(&self, state: &mut State, button: Button, button_state: ButtonState) {
        if button == Button::Back && button_state == ButtonState::Down {
            state.route = Route::Home(Home::Statistics)
        }
    }
}

impl HandleButtonPressed for ButtonDebugger {
    open spec fn route_after(&self, current: RouteView, button: Button, button_state: ButtonState) -> RouteView {
        RouteView::ButtonDebugger(self@.update(button_index(button) as int, is_pressed(button_state)))
    }

    fn handle_button_pressed(&self, state: &mut State, button: Button, button_state: ButtonState) {
        let index: usize = button.into();
        let mut buttons = self.0.clone();

        buttons[index] = button_state.into();
        state.route = Route::ButtonDebugger(ButtonDebugger(buttons));
    }
}

impl Route {
    /// Lets the screen of the current route handle one button event.
    pub fn handle_button_pressed(state: &mut State, button: Button, button_state: ButtonState)
        ensures
            final(state)@.route == next_route(old(state)@.route, button, button_state),
            final(state)@.battery_voltage_bits == old(state)@.battery_voltage_bits,
            old(state)@.route is Home && button == Button::Up && button_state == ButtonState::Down
                ==> final(state)@.route == RouteView::Home(Home::ButtonDebugger),
            old(state)@.route is Home && button == Button::Down && button_state == ButtonState::Down
                ==> final(state)@.route == RouteView::Home(Home::Statistics),
            old(state)@.route is Statistics && button == Button::Back && button_state
                == ButtonState::Down ==> final(state)@.route == RouteView::Home(Home::Statistics),
    {
        match state.route.clone() {
            Route::Home(home) => home.handle_button_pressed(state, button, button_state),
            Route::Statistics(statistics) => {
                statistics.handle_button_pressed(state, button, button_state)
            },
            Route::ButtonDebugger(button_debugger) => {
                button_debugger.handle_button_pressed(state, button, button_state)
            },
        }
    }
}

/// On the home menu, Down then Up brings the highlight back to the button
/// debugger, and Up then Down brings it back to Statistics.
pub proof fn lemma_home_navigation_undoes()
    ensures
        next_route(
            next_route(RouteView::Home(Home::ButtonDebugger), Button::Down, ButtonState::Down),
            Button::Up,
            ButtonState::Down,
        ) == RouteView::Home(Home::ButtonDebugger),
        next_route(
            next_route(RouteView::Home(Home::Statistics), Button::Up, ButtonState::Down),
            Button::Down,
            ButtonState::Down,
        ) == RouteView::Home(Home::Statistics),
{
}

/// Opening the statistics screen from the home menu and pressing Back returns
/// to the home menu with Statistics highlighted.
pub proof fn lemma_statistics_back_returns()
    ensures
        next_route(
            next_route(RouteView::Home(Home::Statistics), Button::Select, ButtonState::Down),
            Button::Back,
            ButtonState::Down,
        ) == RouteView::Home(Home::Statistics),
{
}

/// Opening the button debugger shows every button released.
pub proof fn lemma_debugger_opens_released()
    ensures
        next_route(RouteView::Home(Home::ButtonDebugger), Button::Select, ButtonState::Down)
            == RouteView::ButtonDebugger(all_released()),
{
}

/// Outside the button debugger, releasing a button changes nothing, and so
/// does pressing a button other than Select, Back, Up and Down.
pub proof fn lemma_menu_ignores_releases(route: RouteView, button: Button)
    requires
        !(route is ButtonDebugger),
    ensures
        next_route(route, button, ButtonState::Up) == route,
        button != Button::Select && button != Button::Back && button != Button::Up && button
            != Button::Down ==> next_route(route, button, ButtonState::Down) == route,
{
}

/// The button debugger never leaves itself: every event sets the flag of its
/// button to whether the button is held, and keeps all other flags.
pub proof fn lemma_debugger_records(flags: Seq<bool>, button: Button, button_state: ButtonState)
    requires
        flags.len() == BUTTON_COUNT,
    ensures
        next_route(RouteView::ButtonDebugger(flags), button, button_state) matches RouteView::ButtonDebugger(
            after,
        ) && after.len() == BUTTON_COUNT && after[button_index(button) as int] == is_pressed(
            button_state,
        ) && (forall|i: int|
            0 <= i < BUTTON_COUNT && i != button_index(button) ==> after[i] == flags[i]),
{
}


/// On the home menu, whichever item is highlighted, a press of Up highlights
/// the button debugger and a press of Down highlights Statistics; so Up on
/// the button debugger item and Down on the Statistics item change nothing.
pub proof fn lemma_home_up_down_highlight(h: Home)
    ensures
        next_route(RouteView::Home(h), Button::Up, ButtonState::Down) == RouteView::Home(
            Home::ButtonDebugger,
        ),
        next_route(RouteView::Home(h), Button::Down, ButtonState::Down) == RouteView::Home(
            Home::Statistics,
        ),
{
}

/// On the home menu a press of Select opens the highlighted item: the button
/// debugger with no flag set, or the statistics screen.
pub proof fn lemma_home_select_opens(h: Home)
    ensures
        h == Home::ButtonDebugger ==> (next_route(
            RouteView::Home(h),
            Button::Select,
            ButtonState::Down,
        ) matches RouteView::ButtonDebugger(flags) && flags.len() == 8 && (forall|i: int|
            0 <= i < 8 ==> !flags[i])),
        h == Home::Statistics ==> next_route(RouteView::Home(h), Button::Select, ButtonState::Down)
            == RouteView::Statistics,
{
}

/// On the home menu only presses of Select, Up and Down do anything; on the
/// statistics screen only a press of Back does, and it leads to the home menu
/// with Statistics highlighted.
pub proof fn lemma_menu_reacts_only_to_its_buttons(
    route: RouteView,
    button: Button,
    button_state: ButtonState,
)
    ensures
        route is Home && !(button_state == ButtonState::Down && (button == Button::Select
            || button == Button::Up || button == Button::Down)) ==> next_route(
            route,
            button,
            button_state,
        ) == route,
        route is Statistics ==> next_route(route, button, button_state) == (if button
            == Button::Back && button_state == ButtonState::Down {
            RouteView::Home(Home::Statistics)
        } else {
            route
        }),
{
}

/// In the button debugger, an event sets the flag of its own button to
/// whether the event is a press, and leaves every other flag as it was.
pub proof fn lemma_debugger_flags(flags: Seq<bool>, button: Button, button_state: ButtonState, i: int)
    requires
        flags.len() == 8,
        0 <= i < 8,
    ensures
        next_route(RouteView::ButtonDebugger(flags), button, button_state) matches RouteView::ButtonDebugger(
            after,
        ) && after.len() == 8 && after[i] == (if i == button_index(button) {
            button_state == ButtonState::Down
        } else {
            flags[i]
        }),
{
}

} // verus!
