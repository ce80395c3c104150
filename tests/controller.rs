use umesen_core::{Button, Controller};

#[test]
fn read_correct() {
    let mut con = Controller::default();
    con.write_u8(1);
    assert_eq!(con.read_u8(), 0);
    con.state.0 |= Button::A;
    assert_eq!(con.read_u8(), 1);

    con.state.0 |= Button::SELECT;
    con.write_u8(0);
    con.state.0 |= Button::B;
    let mut out = 0;
    for i in 0..10 {
        out |= (con.read_u8() as u16) << i;
    }
    assert_eq!(out, 0b11_0000_0101);
}

#[test]
fn opposite_directions_are_refused() {
    let mut con = Controller::default();
    con.set(Button(Button::LEFT), true, false);
    con.set(Button(Button::RIGHT), true, false);
    assert_eq!(con.state.0, Button::LEFT);
    con.set(Button(Button::RIGHT), true, true);
    assert_eq!(con.state.0, Button::LEFT | Button::RIGHT);
    con.set(Button(Button::LEFT), false, false);
    assert_eq!(con.state.0, Button::RIGHT);
}

#[test]
fn button_names() {
    assert_eq!(Button(Button::START).name(), "Start");
    assert_eq!(Button(Button::DOWN).name(), "Down");
}
