use touch_panel::buttons::{bit_check, bit_clear, bit_set, bit_toggle, Buttons};

#[test]
fn bit_check_reads_each_bit() {
    let byte: u8 = 0b1010_0101;
    let expected = [true, false, true, false, false, true, false, true];
    for n in 0..8u8 {
        assert_eq!(bit_check(byte, n), expected[n as usize]);
    }
}

#[test]
fn bit_set_sets_one_bit() {
    let mut b: u8 = 5;
    bit_set(&mut b, 1);
    assert_eq!(b, 7);
    bit_set(&mut b, 7);
    assert_eq!(b, 0b1000_0111);
}

#[test]
fn bit_set_on_set_bit_changes_nothing() {
    let mut b: u8 = 0b0001_0000;
    bit_set(&mut b, 4);
    assert_eq!(b, 0b0001_0000);
}

#[test]
fn bit_clear_clears_one_bit() {
    let mut b: u8 = 0xff;
    bit_clear(&mut b, 0);
    assert_eq!(b, 0xfe);
    bit_clear(&mut b, 7);
    assert_eq!(b, 0x7e);
    bit_clear(&mut b, 7);
    assert_eq!(b, 0x7e);
}

#[test]
fn bit_toggle_flips_and_twice_restores() {
    let mut b: u8 = 0b0011_0011;
    bit_toggle(&mut b, 2);
    assert_eq!(b, 0b0011_0111);
    bit_toggle(&mut b, 2);
    assert_eq!(b, 0b0011_0011);
    bit_toggle(&mut b, 0);
    assert_eq!(b, 0b0011_0010);
}

#[test]
fn bit_writes_commute() {
    let mut a: u8 = 0x5a;
    bit_set(&mut a, 0);
    bit_clear(&mut a, 3);
    let mut b: u8 = 0x5a;
    bit_clear(&mut b, 3);
    bit_set(&mut b, 0);
    assert_eq!(a, b);
    assert_eq!(a, 0x53);
}

#[test]
fn buttons_start_released() {
    let buttons = Buttons::new([0u8, 1, 2, 3, 4, 5, 6, 7]);
    assert_eq!(buttons.get_full_cached_status(), [false; 8]);
    for i in 0..8 {
        assert!(!buttons.get_cached_button_status(i));
    }
}

#[test]
fn buttons_set_then_get() {
    let mut buttons = Buttons::new([(); 8]);
    buttons.set_cached_button_status(3, true);
    assert!(buttons.get_cached_button_status(3));
    assert_eq!(
        buttons.get_full_cached_status(),
        [false, false, false, true, false, false, false, false]
    );
    buttons.set_cached_button_status(3, false);
    assert!(!buttons.get_cached_button_status(3));
    assert_eq!(buttons.get_full_cached_status(), [false; 8]);
}

#[test]
fn buttons_index_is_narrowed_to_a_byte() {
    let mut buttons = Buttons::new([(); 8]);
    buttons.set_cached_button_status(256 + 5, true);
    assert!(buttons.get_cached_button_status(5));
    assert!(buttons.get_cached_button_status(512 + 5));
    buttons.toggle_cached_button_status(256 + 5);
    assert!(!buttons.get_cached_button_status(5));
}

#[test]
fn buttons_toggle_twice_restores() {
    let mut buttons = Buttons::new([(); 8]);
    buttons.set_cached_button_status(0, true);
    buttons.toggle_cached_button_status(6);
    assert_eq!(
        buttons.get_full_cached_status(),
        [true, false, false, false, false, false, true, false]
    );
    buttons.toggle_cached_button_status(6);
    assert_eq!(
        buttons.get_full_cached_status(),
        [true, false, false, false, false, false, false, false]
    );
}

#[test]
fn buttons_update_stores_low_level_as_pressed() {
    let mut buttons = Buttons::new([(); 8]);
    buttons.update_button_status(7, true);
    buttons.update_button_status(1, true);
    buttons.update_button_status(1, false);
    assert_eq!(
        buttons.get_full_cached_status(),
        [false, false, false, false, false, false, false, true]
    );
}

#[test]
fn buttons_pins_are_handed_out_by_index() {
    let mut buttons = Buttons::new([10u8, 11, 12, 13, 14, 15, 16, 17]);
    assert_eq!(*buttons.button_mut(4), 14);
    *buttons.button_mut(4) = 40;
    assert_eq!(*buttons.button_mut(4), 40);
    assert_eq!(*buttons.button_mut(5), 15);
}
