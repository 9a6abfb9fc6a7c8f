use libds::joystick::Joystick;

#[test]
fn new_joystick_has_the_given_counts() {
    let stick = Joystick::new(10, 4, 2);
    assert_eq!(stick.num_buttons(), 10);
    assert_eq!(stick.num_axes(), 4);
    assert_eq!(stick.num_povs(), 2);
}

#[test]
fn new_joystick_is_at_rest() {
    let stick = Joystick::new(10, 2, 1);
    assert_eq!(stick.udp_tag(), vec![2, 0, 0, 10, 0x00, 0x00, 1, 0xff, 0xff]);
}

#[test]
fn joystick_without_inputs_is_three_counts() {
    let stick = Joystick::new(0, 0, 0);
    assert_eq!(stick.udp_tag(), vec![0, 0, 0]);
}

#[test]
fn ten_buttons_pack_into_two_bytes() {
    let mut stick = Joystick::new(10, 0, 0);
    let pattern = [true, false, true, false, false, false, false, false, true, false];
    for (index, pressed) in pattern.iter().enumerate() {
        assert_eq!(stick.set_button(index as u8, *pressed), Ok(()));
    }
    assert_eq!(stick.udp_tag(), vec![0, 10, 0b1010_0000, 0b1000_0000, 0]);
}

#[test]
fn eight_buttons_pack_into_one_byte() {
    let mut stick = Joystick::new(8, 0, 0);
    assert_eq!(stick.set_button(7, true), Ok(()));
    assert_eq!(stick.set_button(1, true), Ok(()));
    assert_eq!(stick.udp_tag(), vec![0, 8, 0b0100_0001, 0]);
}

#[test]
fn nine_buttons_flush_a_second_byte() {
    let stick = Joystick::new(9, 0, 0);
    assert_eq!(stick.udp_tag(), vec![0, 9, 0, 0, 0]);
}

#[test]
fn each_button_has_its_own_bit() {
    let masks = [0x80u8, 0x40, 0x20, 0x10, 0x08, 0x04, 0x02, 0x01];
    for index in 0..16u8 {
        let mut stick = Joystick::new(16, 0, 0);
        assert_eq!(stick.set_button(index, true), Ok(()));
        let tag = stick.udp_tag();
        let mut packed = [0u8, 0u8];
        packed[(index / 8) as usize] = masks[(index % 8) as usize];
        assert_eq!(tag, vec![0, 16, packed[0], packed[1], 0]);
    }
}

#[test]
fn most_buttons_pack_into_32_bytes() {
    let mut stick = Joystick::new(255, 0, 0);
    assert_eq!(stick.set_button(254, true), Ok(()));
    let tag = stick.udp_tag();
    assert_eq!(tag.len(), 3 + 32);
    assert_eq!(tag[1], 255);
    assert_eq!(tag[2 + 31], 0b0000_0010);
}

#[test]
fn button_can_be_released_again() {
    let mut stick = Joystick::new(3, 0, 0);
    assert_eq!(stick.set_button(2, true), Ok(()));
    assert_eq!(stick.udp_tag(), vec![0, 3, 0b0010_0000, 0]);
    assert_eq!(stick.set_button(2, false), Ok(()));
    assert_eq!(stick.udp_tag(), vec![0, 3, 0, 0]);
}

#[test]
fn set_button_refuses_an_index_out_of_range() {
    let mut stick = Joystick::new(10, 2, 1);
    let before = stick.udp_tag();
    assert_eq!(stick.set_button(10, true), Err(()));
    assert_eq!(stick.set_button(255, true), Err(()));
    assert_eq!(stick.udp_tag(), before);
    assert_eq!(stick.set_button(9, true), Ok(()));
}

#[test]
fn set_button_on_a_joystick_without_buttons_is_refused() {
    let mut stick = Joystick::new(0, 1, 1);
    assert_eq!(stick.set_button(0, true), Err(()));
}

#[test]
fn axes_are_twos_complement_bytes() {
    let mut stick = Joystick::new(0, 4, 0);
    assert_eq!(stick.set_axis(0, -1), Ok(()));
    assert_eq!(stick.set_axis(1, 127), Ok(()));
    assert_eq!(stick.set_axis(2, -128), Ok(()));
    assert_eq!(stick.udp_tag(), vec![4, 0xff, 0x7f, 0x80, 0x00, 0, 0]);
}

#[test]
fn set_axis_refuses_an_index_out_of_range() {
    let mut stick = Joystick::new(1, 2, 1);
    let before = stick.udp_tag();
    assert_eq!(stick.set_axis(2, 5), Err(()));
    assert_eq!(stick.udp_tag(), before);
    assert_eq!(stick.set_axis(1, 5), Ok(()));
}

#[test]
fn povs_are_big_endian_signed() {
    let mut stick = Joystick::new(0, 0, 3);
    assert_eq!(stick.set_pov(0, 90), Ok(()));
    assert_eq!(stick.set_pov(1, 0x1234), Ok(()));
    assert_eq!(stick.udp_tag(), vec![0, 0, 3, 0x00, 0x5a, 0x12, 0x34, 0xff, 0xff]);
    assert_eq!(stick.set_pov(2, i16::MIN), Ok(()));
    assert_eq!(stick.udp_tag(), vec![0, 0, 3, 0x00, 0x5a, 0x12, 0x34, 0x80, 0x00]);
}

#[test]
fn set_pov_refuses_an_index_out_of_range() {
    let mut stick = Joystick::new(1, 1, 1);
    let before = stick.udp_tag();
    assert_eq!(stick.set_pov(1, 180), Err(()));
    assert_eq!(stick.udp_tag(), before);
    assert_eq!(stick.set_pov(0, 180), Ok(()));
}

#[test]
fn tag_holds_axes_then_buttons_then_povs() {
    let mut stick = Joystick::new(3, 2, 1);
    assert_eq!(stick.set_axis(1, 100), Ok(()));
    assert_eq!(stick.set_button(0, true), Ok(()));
    assert_eq!(stick.set_pov(0, 270), Ok(()));
    assert_eq!(stick.udp_tag(), vec![2, 0, 100, 3, 0b1000_0000, 1, 0x01, 0x0e]);
}

#[test]
fn clone_holds_the_same_inputs() {
    let mut stick = Joystick::new(4, 2, 1);
    assert_eq!(stick.set_button(3, true), Ok(()));
    assert_eq!(stick.set_axis(0, -7), Ok(()));
    let copy = stick.clone();
    assert_eq!(copy.udp_tag(), stick.udp_tag());
    assert_eq!(stick.set_button(0, true), Ok(()));
    assert_ne!(copy.udp_tag(), stick.udp_tag());
}
