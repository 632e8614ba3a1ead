# ultraviolet

Firmware logic for a small nRF52840 board with eight buttons and an SSD1306
screen, as a library verified with Verus.

- `src/button.rs`: the buttons, their states and pin levels, and the
  conversions between them and indices and flags.
- `src/route.rs`: the screens (home menu, statistics, button debugger) and
  how each handles a button event.
- `src/state.rs`: the application state, its actions and the reducer.
- `src/store.rs`: the button-debugger store and its reducer step.
- `src/screen.rs`: the integer layout of the debugger indicators and the
  battery gauge.
- `app/`: the embassy tasks that read the buttons and the battery, run the
  reducer loops and draw the screen. They use the nRF HAL and executor,
  which build only for the board.
