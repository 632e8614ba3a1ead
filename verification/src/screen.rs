use vstd::prelude::*;

verus! {

/// One circle of the button debugger screen: its top-left corner, its
/// diameter, and whether the button it stands for is held.
#[derive(Debug, Clone, Copy, PartialEq, Eq, Structural)]
pub struct Indicator {
    pub x: i32,
    pub y: i32,
    pub diameter: u32,
    pub pressed: bool,
}

/// Horizontal position of the indicator column.
pub const INDICATOR_X: i32 = 24;

/// Diameter of an indicator, which is also the vertical distance between two.
pub const INDICATOR_DIAMETER: u32 = 16;

/// The indicator drawn in row `row` for flags `buttons`: rows run from the
/// last button at the top to the first button at the bottom.
pub open spec fn indicator_at(buttons: Seq<bool>, row: int) -> Indicator {
    Indicator {
        x: INDICATOR_X,
        y: (16 * row) as i32,
        diameter: INDICATOR_DIAMETER,
        pressed: buttons[buttons.len() - 1 - row],
    }
}

/// The indicators of the button debugger screen, top to bottom: one per
/// button, the last button first.
pub fn button_indicators(buttons: &[bool; 8]) -> (r: Vec<Indicator>)
    ensures
        r@.len() == 8,
        forall|row: int| 0 <= row < 8 ==> #[trigger] r@[row] == indicator_at(buttons@, row),
        forall|row: int|
            0 <= row < 8 ==> (#[trigger] r@[row]).pressed == buttons@[7 - row] && r@[row].y == 16
                * row && r@[row].x == 24 && r@[row].diameter == 16,
{
    let mut r: Vec<Indicator> = Vec::new();
    let mut index: usize = 0;
    while index < 8
        invariant
            index <= 8,
            r@.len() == index,
            forall|row: int| 0 <= row < index ==> #[trigger] r@[row] == indicator_at(buttons@, row),
        decreases 8 - index,
    {
        let button = buttons[7 - index];
        let y: i32 = 16 * (index as i32);
        r.push(Indicator { x: INDICATOR_X, y, diameter: INDICATOR_DIAMETER, pressed: button });
        index = index + 1;
    }
    r
}

/// Left edge of the battery outline: the outline is 16 pixels wide and ends
/// at the right edge of the 64-pixel-wide screen.
pub const BATTERY_OUTLINE_X: i32 = 64 - 16;

/// Widest the battery fill bar can be, in pixels.
pub const BATTERY_FILL_MAX_WIDTH: i32 = 14;

/// Left edge of the battery fill bar of width `fill_width`, as the screen
/// computes it: one pixel inside the outline, moved right by what the bar
/// lacks of its full width.
pub open spec fn battery_fill_x_spec(fill_width: int) -> int {
    BATTERY_OUTLINE_X + 1 - (fill_width - BATTERY_FILL_MAX_WIDTH)
}

/// Left edge of the battery fill bar of width `fill_width`.
pub fn battery_fill_x(fill_width: i32) -> (x: i32)
    requires
        fill_width - BATTERY_FILL_MAX_WIDTH >= i32::MIN,
        battery_fill_x_spec(fill_width as int) <= i32::MAX,
    ensures
        x == battery_fill_x_spec(fill_width as int),
        x == 63 - fill_width,
{
    BATTERY_OUTLINE_X + 1 - (fill_width - BATTERY_FILL_MAX_WIDTH)
}


/// Row `r` of the indicator column shows button `7 - r`: the last button at
/// the top, the first at the bottom, rows 16 pixels apart at x = 24.
pub proof fn lemma_indicator_rows(buttons: Seq<bool>, r: int)
    requires
        buttons.len() == 8,
        0 <= r < 8,
    ensures
        indicator_at(buttons, r).pressed == buttons[7 - r],
        indicator_at(buttons, r).y == 16 * r,
        indicator_at(buttons, r).x == 24,
        indicator_at(buttons, r).diameter == 16,
{
}


/// The fill bar's left edge moves one pixel left per pixel of width: a full
/// bar starts at x = 49 and an empty one at x = 63, the screen's last column.
pub proof fn lemma_battery_fill_edge(fill_width: int)
    ensures
        battery_fill_x_spec(fill_width) == 63 - fill_width,
        battery_fill_x_spec(fill_width) + fill_width == 63,
{
}

} // verus!
