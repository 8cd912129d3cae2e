//! Joypad tests against the controller itself, outside the bus.

use lynes::input::{ButtonState, Controller};

#[test]
fn button_state_packs_lsb_first() {
    let mut state = ButtonState::default();
    assert_eq!(state.bits(), 0);
    state.a = true;
    assert_eq!(state.bits(), 0x01);
    state.b = true;
    assert_eq!(state.bits(), 0x03);
    state.select = true;
    state.start = true;
    state.up = true;
    state.down = true;
    state.left = true;
    state.right = true;
    assert_eq!(state.bits(), 0xFF);
}

#[test]
fn controller_snapshots_on_strobe() {
    let mut controller = Controller::new();
    controller.button_state.b = true;

    controller.write(1);
    controller.write(0);
    // Buttons pressed after the strobe dropped do not enter the snapshot.
    controller.button_state.a = true;

    assert_eq!(controller.read(), 0);
    assert_eq!(controller.read(), 1);
    for _ in 0..6 {
        assert_eq!(controller.read(), 0);
    }
    assert_eq!(controller.read(), 1);
}

#[test]
fn controller_index_holds_while_strobed() {
    let mut controller = Controller::new();
    controller.button_state.a = true;
    controller.write(1);
    assert_eq!(controller.read(), 1);
    assert_eq!(controller.read(), 1);
    controller.write(0);
    assert_eq!(controller.read(), 1);
    assert_eq!(controller.read(), 0);
}
