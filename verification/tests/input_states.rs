use magnidraw::{
    AnyAxis, AxisDirection, ButtonStates, Controller, ControllerAxis, ControllerButton, PadButton,
    PadSnapshot, polled_axis, polled_button,
};

fn pad(id: usize, pressed: &[usize]) -> PadSnapshot {
    let mut v = vec![false; 19];
    for &i in pressed {
        v[i] = true;
    }
    PadSnapshot { id, pressed: v }
}

fn button(id: usize, b: PadButton) -> ControllerButton {
    ControllerButton { button: b, on: Controller { id } }
}

#[test]
fn polled_buttons_in_order() {
    assert_eq!(polled_button(0), PadButton::South);
    assert_eq!(polled_button(4), PadButton::C);
    assert_eq!(polled_button(9), PadButton::RightTrigger2);
    assert_eq!(polled_button(18), PadButton::DPadRight);
    assert_eq!(polled_axis(0), AnyAxis::LeftStickX);
    assert_eq!(polled_axis(7), AnyAxis::DPadY);
}

#[test]
fn axis_direction_sign() {
    assert_eq!(AxisDirection::Neg.sign(), -1);
    assert_eq!(AxisDirection::Pos.sign(), 1);
}

#[test]
fn inverse_flips_direction_only() {
    let c = Controller { id: 3 };
    let a = ControllerAxis::new(c, AnyAxis::LeftStickX, AxisDirection::Neg);
    let b = a.inverse();
    assert_eq!(b.direction, AxisDirection::Pos);
    assert_eq!(b.axis, AnyAxis::LeftStickX);
    assert_eq!(b.on, c);
    assert_eq!(b.inverse(), a);
}

#[test]
fn first_frame_press_is_just_pressed() {
    let s0 = ButtonStates::new();
    let s1 = s0.next_frame(&vec![pad(0, &[0, 3])]);
    let south = button(0, PadButton::South);
    let west = button(0, PadButton::West);
    let east = button(0, PadButton::East);
    assert!(s1.button_pressed(south));
    assert!(s1.button_pressed(west));
    assert!(!s1.button_pressed(east));
    assert!(s1.button_released(east));
    assert!(s1.button_just_pressed(south));
    assert!(!s1.button_just_released(south));
    assert_eq!(s1.controllers(), &[Controller { id: 0 }]);
}

#[test]
fn held_button_is_not_just_pressed_next_frame() {
    let frame = vec![pad(0, &[0])];
    let s2 = ButtonStates::new().next_frame(&frame).next_frame(&frame);
    let south = button(0, PadButton::South);
    assert!(s2.button_pressed(south));
    assert!(!s2.button_just_pressed(south));
    assert!(!s2.button_just_released(south));
}

#[test]
fn let_go_is_just_released() {
    let s1 = ButtonStates::new().next_frame(&vec![pad(2, &[5])]);
    let s2 = s1.next_frame(&vec![pad(2, &[])]);
    let z = button(2, PadButton::Z);
    assert!(!s2.button_pressed(z));
    assert!(s2.button_just_released(z));
    assert!(!s2.button_just_pressed(z));
}

#[test]
fn buttons_are_per_controller() {
    let s1 = ButtonStates::new().next_frame(&vec![pad(0, &[1]), pad(1, &[])]);
    assert!(s1.button_pressed(button(0, PadButton::East)));
    assert!(!s1.button_pressed(button(1, PadButton::East)));
    assert_eq!(s1.controllers(), &[Controller { id: 0 }, Controller { id: 1 }]);
}

#[test]
fn short_snapshot_reads_missing_buttons_as_released() {
    let s1 = ButtonStates::new().next_frame(&vec![PadSnapshot { id: 0, pressed: vec![true] }]);
    assert!(s1.button_pressed(button(0, PadButton::South)));
    assert!(!s1.button_pressed(button(0, PadButton::East)));
}

#[test]
fn disconnected_controller_releases_its_buttons() {
    let s1 = ButtonStates::new().next_frame(&vec![pad(4, &[2])]);
    let s2 = s1.next_frame(&vec![]);
    let north = button(4, PadButton::North);
    assert!(s2.button_just_released(north));
    assert!(s2.controllers().is_empty());
}
