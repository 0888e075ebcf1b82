use touch_panel::buttons::bit_check;
use touch_panel::interrupts::{exti15_10_due, exti9_5_due, EXTI4_BUTTON};
use touch_panel::models::{Buttons, PinCall};

fn model() -> Buttons<u8, u16, u32, u64, i8, i16, i32, i64> {
    Buttons {
        button_0: 0,
        button_1: 1,
        button_2: 2,
        button_3: 3,
        button_4: 4,
        button_5: 5,
        button_6: 6,
        button_7: 7,
        state: 0,
    }
}

#[test]
fn enabling_asks_to_disable_the_pin_interrupt() {
    let b = model();
    assert_eq!(b.set_interrupt_enabled(3), Some(PinCall::DisableInterrupt(3)));
    assert_eq!(b.set_interrupt_disabled(3), Some(PinCall::EnableInterrupt(3)));
    assert_eq!(b.set_interrupt_capability(7, true), Some(PinCall::DisableInterrupt(7)));
    assert_eq!(b.set_interrupt_enabled(8), None);
    assert_eq!(b.set_interrupt_disabled(200), None);
}

#[test]
fn clear_pending_names_the_pin() {
    let b = model();
    assert_eq!(b.clear_pending_interrupt_bit(0), Some(PinCall::ClearPendingBit(0)));
    assert_eq!(b.clear_pending_interrupt_bit(7), Some(PinCall::ClearPendingBit(7)));
    assert_eq!(b.clear_pending_interrupt_bit(8), None);
}

#[test]
fn read_to_status_sets_and_clears() {
    let mut b = model();
    b.read_to_status(2, true);
    b.read_to_status(5, true);
    assert_eq!(b.state, 0b0010_0100);
    b.read_to_status(2, false);
    assert_eq!(b.state, 0b0010_0000);
    b.read_to_status(9, true);
    assert_eq!(b.state, 0b0010_0000);
    assert_eq!(b.button_2, 2);
}

#[test]
fn exti9_5_lines_to_buttons() {
    assert_eq!(exti9_5_due(false, false, false, false, false), 0);
    assert_eq!(exti9_5_due(true, false, false, false, false), 0b1000_0000);
    assert_eq!(exti9_5_due(false, true, false, false, false), 0b0010_0000);
    assert_eq!(exti9_5_due(false, false, true, false, false), 0b0000_1000);
    assert_eq!(exti9_5_due(false, false, false, true, false), 0b0000_0001);
    assert_eq!(exti9_5_due(false, false, false, false, true), 0b0000_0010);
    assert_eq!(exti9_5_due(true, true, true, true, true), 0b1010_1011);
}

#[test]
fn exti15_10_lines_to_buttons() {
    assert_eq!(exti15_10_due(false, false), 0);
    assert_eq!(exti15_10_due(true, false), 0b0001_0000);
    assert_eq!(exti15_10_due(false, true), 0b0000_0100);
    assert_eq!(exti15_10_due(true, true), 0b0001_0100);
}

#[test]
fn every_button_on_exactly_one_line() {
    let a = exti9_5_due(true, true, true, true, true);
    let b = exti15_10_due(true, true);
    for i in 0..8u8 {
        let count = [i as usize == EXTI4_BUTTON, bit_check(a, i), bit_check(b, i)]
            .iter()
            .filter(|x| **x)
            .count();
        assert_eq!(count, 1);
    }
}
