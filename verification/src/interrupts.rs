//! Which buttons a shared external interrupt line reports.
//!
//! The buttons sit on pins 4 to 10 and 15 of one port. Line 4 has an
//! interrupt of its own; lines 5 to 9 share one, and lines 10 to 15 share
//! another. A shared handler reads the pending flags of its lines and
//! gathers the buttons that are due into one byte, button `i` in bit `i`.
use vstd::prelude::*;
use crate::buttons::{bits, bit_set, lemma_bits_of_zero};

verus! {

/// The button on line 4.
pub const EXTI4_BUTTON: usize = 6;

/// The buttons due on lines 5 to 9, from the pending flags of those lines:
/// line 5 is button 7, line 6 button 5, line 7 button 3, line 8 button 0
/// and line 9 button 1.
pub open spec fn exti9_5_buttons(pr5: bool, pr6: bool, pr7: bool, pr8: bool, pr9: bool) -> Seq<
    bool,
> {
    seq![pr8, pr9, false, pr7, false, pr6, false, pr5]
}

/// The buttons due on lines 10 to 15, from the pending flags of the two
/// lines with a button: line 10 is button 4 and line 15 button 2.
pub open spec fn exti15_10_buttons(pr10: bool, pr15: bool) -> Seq<bool> {
    seq![false, false, pr15, false, pr10, false, false, false]
}

/// The byte of buttons due on lines 5 to 9.
pub fn exti9_5_due(pr5: bool, pr6: bool, pr7: bool, pr8: bool, pr9: bool) -> (due: u8)
    ensures
        bits(due) == exti9_5_buttons(pr5, pr6, pr7, pr8, pr9),
        bits(due)[0] == pr8,
        bits(due)[1] == pr9,
        bits(due)[3] == pr7,
        bits(due)[5] == pr6,
        bits(due)[7] == pr5,
        !bits(due)[2] && !bits(due)[4] && !bits(due)[6],
{
    let mut due: u8 = 0;
    proof {
        lemma_bits_of_zero();
    }
    if pr5 {
        bit_set(&mut due, 7);
    }
    if pr6 {
        bit_set(&mut due, 5);
    }
    if pr7 {
        bit_set(&mut due, 3);
    }
    if pr8 {
        bit_set(&mut due, 0);
    }
    if pr9 {
        bit_set(&mut due, 1);
    }
    assert(bits(due) =~= exti9_5_buttons(pr5, pr6, pr7, pr8, pr9));
    due
}

/// The byte of buttons due on lines 10 to 15.
pub fn exti15_10_due(pr10: bool, pr15: bool) -> (due: u8)
    ensures
        bits(due) == exti15_10_buttons(pr10, pr15),
        bits(due)[2] == pr15,
        bits(due)[4] == pr10,
        !bits(due)[0] && !bits(due)[1] && !bits(due)[3],
        !bits(due)[5] && !bits(due)[6] && !bits(due)[7],
{
    let mut due: u8 = 0;
    proof {
        lemma_bits_of_zero();
    }
    if pr10 {
        bit_set(&mut due, 4);
    }
    if pr15 {
        bit_set(&mut due, 2);
    }
    assert(bits(due) =~= exti15_10_buttons(pr10, pr15));
    due
}

/// Each of lines 5 to 9 is reported on its own: its button is due exactly
/// when its own flag is pending, whatever the other lines show, and no
/// other button is reported.
pub proof fn lemma_exti9_5_lines_independent(
    pr5: bool,
    pr6: bool,
    pr7: bool,
    pr8: bool,
    pr9: bool,
)
    ensures
        exti9_5_buttons(pr5, pr6, pr7, pr8, pr9).len() == 8,
        exti9_5_buttons(pr5, pr6, pr7, pr8, pr9)[7] == pr5,
        exti9_5_buttons(pr5, pr6, pr7, pr8, pr9)[5] == pr6,
        exti9_5_buttons(pr5, pr6, pr7, pr8, pr9)[3] == pr7,
        exti9_5_buttons(pr5, pr6, pr7, pr8, pr9)[0] == pr8,
        exti9_5_buttons(pr5, pr6, pr7, pr8, pr9)[1] == pr9,
        !exti9_5_buttons(pr5, pr6, pr7, pr8, pr9)[2],
        !exti9_5_buttons(pr5, pr6, pr7, pr8, pr9)[4],
        !exti9_5_buttons(pr5, pr6, pr7, pr8, pr9)[6],
{
}

/// Lines 10 and 15 are reported on their own: button 4 is due exactly when
/// line 10 is pending and button 2 exactly when line 15 is, and no other
/// button is reported.
pub proof fn lemma_exti15_10_lines_independent(pr10: bool, pr15: bool)
    ensures
        exti15_10_buttons(pr10, pr15).len() == 8,
        exti15_10_buttons(pr10, pr15)[4] == pr10,
        exti15_10_buttons(pr10, pr15)[2] == pr15,
        forall|i: int| 0 <= i < 8 && i != 2 && i != 4 ==> !exti15_10_buttons(pr10, pr15)[i],
{
}

/// Every button is reported by exactly one interrupt line: line 4 for
/// button 6, one of lines 5 to 9, or one of lines 10 and 15.
pub proof fn lemma_each_button_on_one_line(button: int)
    requires
        0 <= button < 8,
    ensures
        button == EXTI4_BUTTON as int || exti9_5_buttons(true, true, true, true, true)[button]
            || exti15_10_buttons(true, true)[button],
        !(button == EXTI4_BUTTON as int && exti9_5_buttons(true, true, true, true, true)[button]),
        !(button == EXTI4_BUTTON as int && exti15_10_buttons(true, true)[button]),
        !(exti9_5_buttons(true, true, true, true, true)[button] && exti15_10_buttons(
            true,
            true,
        )[button]),
{
}

} // verus!
