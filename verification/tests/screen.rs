use ultraviolet::screen::{battery_fill_x, button_indicators, Indicator};

#[test]
fn indicators_last_button_on_top() {
    let v = button_indicators(&[true, false, false, false, false, false, true, false]);
    assert_eq!(v.len(), 8);
    assert_eq!(v[0], Indicator { x: 24, y: 0, diameter: 16, pressed: false });
    assert_eq!(v[1], Indicator { x: 24, y: 16, diameter: 16, pressed: true });
    assert_eq!(v[7], Indicator { x: 24, y: 112, diameter: 16, pressed: true });
    for (row, ind) in v.iter().enumerate() {
        assert_eq!(ind.y, 16 * row as i32);
    }
}

#[test]
fn battery_fill_x_values() {
    assert_eq!(battery_fill_x(14), 49);
    assert_eq!(battery_fill_x(0), 63);
    assert_eq!(battery_fill_x(7), 56);
    assert_eq!(battery_fill_x(-3), 66);
}
