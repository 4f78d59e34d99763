use nes::controller::{Button, Controller};

const ORDER: [Button; 8] = [
    Button::A,
    Button::B,
    Button::Select,
    Button::Start,
    Button::Up,
    Button::Down,
    Button::Left,
    Button::Right,
];

#[test]
fn new_controller_is_zeroed() {
    let c = Controller::new();
    assert!(!c.strobe);
    assert_eq!(c.shifter, 0);
    assert_eq!(c.state, 0);
}

#[test]
fn set_button_touches_one_bit() {
    let mut c = Controller::new();
    c.set_button(Button::Start, true);
    assert_eq!(c.state, 0b0000_1000);
    c.set_button(Button::Right, true);
    assert_eq!(c.state, 0b1000_1000);
    c.set_button(Button::Start, false);
    assert_eq!(c.state, 0b1000_0000);
    c.set_button(Button::Right, true);
    assert_eq!(c.state, 0b1000_0000);
    for (i, b) in ORDER.iter().enumerate() {
        let mut d = Controller::new();
        d.set_button(*b, true);
        assert_eq!(d.state, 1u8 << i);
    }
}

#[test]
fn latch_then_read_reports_buttons_in_order() {
    let mut c = Controller::new();
    c.set_button(Button::A, true);
    c.set_button(Button::Select, true);
    c.set_button(Button::Down, true);
    c.set_button(Button::Right, true);
    c.write_reg(0x01);
    c.write_reg(0x00);
    let got: Vec<u8> = (0..8).map(|_| c.read_reg()).collect();
    assert_eq!(got, vec![1, 0, 1, 0, 0, 1, 0, 1]);
    for _ in 0..20 {
        assert_eq!(c.read_reg(), 1);
    }
}

#[test]
fn relatch_restarts_the_sequence() {
    let mut c = Controller::new();
    c.set_button(Button::B, true);
    c.write_reg(1);
    c.write_reg(0);
    for _ in 0..10 {
        c.read_reg();
    }
    c.write_reg(1);
    c.write_reg(0);
    assert_eq!(c.read_reg(), 0);
    assert_eq!(c.read_reg(), 1);
    assert_eq!(c.read_reg(), 0);
}

#[test]
fn strobe_high_reads_live_a() {
    let mut c = Controller::new();
    c.write_reg(1);
    assert_eq!(c.read_reg(), 0);
    c.set_button(Button::A, true);
    assert_eq!(c.read_reg(), 1);
    assert_eq!(c.read_reg(), 1);
    c.set_button(Button::A, false);
    assert_eq!(c.read_reg(), 0);
    assert_eq!(c.shifter, 0);
}

#[test]
fn write_without_falling_edge_does_not_latch() {
    let mut c = Controller::new();
    c.set_button(Button::Up, true);
    c.write_reg(0);
    assert_eq!(c.shifter, 0);
    c.write_reg(0x03);
    assert!(c.strobe);
    assert_eq!(c.shifter, 0);
    c.write_reg(0x02);
    assert!(!c.strobe);
    assert_eq!(c.shifter, 0b0001_0000);
}

#[test]
fn unlatched_reads_shift_in_ones() {
    let mut c = Controller::new();
    assert_eq!(c.read_reg(), 0);
    assert_eq!(c.shifter, 0x80);
    assert_eq!(c.read_reg(), 0);
    assert_eq!(c.shifter, 0xC0);
}

#[test]
fn button_names() {
    assert_eq!(Button::A.name(), "A");
    assert_eq!(Button::Select.name(), "Select");
    assert_eq!(Button::Right.name(), "Right");
    assert_eq!(Button::Left.bit(), 6);
}
