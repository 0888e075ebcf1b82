//! Eight buttons, each on a pin of its own type, with their cached status.
//!
//! The pins are driven by the caller; this type keeps the status byte and
//! decides which pin a request concerns and what is done to it.
use vstd::prelude::*;
use crate::buttons::{bits, bit_set, bit_clear};

verus! {

/// An operation on the pin of one button, by the button's index.
#[derive(PartialEq, Eq, Structural, Clone, Copy, Debug)]
pub enum PinCall {
    /// Let the pin raise interrupts.
    EnableInterrupt(u8),
    /// Stop the pin from raising interrupts.
    DisableInterrupt(u8),
    /// Clear the pin's pending interrupt.
    ClearPendingBit(u8),
}

/// The pin operation asked for by a change of interrupt capability of
/// button `button`: asking to enable it disables the pin's interrupt, and
/// asking to disable it enables the pin's interrupt. There is no pin for an
/// index past 7.
pub open spec fn capability_call(button: u8, enable: bool) -> Option<PinCall> {
    if button >= 8 {
        None
    } else if enable {
        Some(PinCall::DisableInterrupt(button))
    } else {
        Some(PinCall::EnableInterrupt(button))
    }
}

/// Enabling and disabling the interrupt of a button ask for opposite
/// operations on the same pin, and only for buttons 0 to 7.
pub proof fn lemma_enable_disable_opposite(button: u8)
    ensures
        button < 8 ==> capability_call(button, true) == Some(PinCall::DisableInterrupt(button))
            && capability_call(button, false) == Some(PinCall::EnableInterrupt(button)),
        button >= 8 ==> capability_call(button, true) is None && capability_call(
            button,
            false,
        ) is None,
{
}

/// Eight buttons on pins `button_0` to `button_7`, and their cached status,
/// button `i` in bit `i` of `state`.
pub struct Buttons<BTN0, BTN1, BTN2, BTN3, BTN4, BTN5, BTN6, BTN7> {
    pub button_0: BTN0,
    pub button_1: BTN1,
    pub button_2: BTN2,
    pub button_3: BTN3,
    pub button_4: BTN4,
    pub button_5: BTN5,
    pub button_6: BTN6,
    pub button_7: BTN7,
    pub state: u8,
}

impl<BTN0, BTN1, BTN2, BTN3, BTN4, BTN5, BTN6, BTN7> Buttons<
    BTN0,
    BTN1,
    BTN2,
    BTN3,
    BTN4,
    BTN5,
    BTN6,
    BTN7,
> {
    /// The pin operation that enabling the interrupt of button `button`
    /// comes to.
    pub fn set_interrupt_enabled(&self, button: u8) -> (r: Option<PinCall>)
        ensures
            r == capability_call(button, true),
    {
        self.set_interrupt_capability(button, true)
    }

    /// The pin operation that disabling the interrupt of button `button`
    /// comes to.
    pub fn set_interrupt_disabled(&self, button: u8) -> (r: Option<PinCall>)
        ensures
            r == capability_call(button, false),
    {
        self.set_interrupt_capability(button, false)
    }

    /// The pin operation that a change of interrupt capability of button
    /// `button` comes to.
    pub fn set_interrupt_capability(&self, button: u8, enable: bool) -> (r: Option<PinCall>)
        ensures
            r == capability_call(button, enable),
    {
        if button >= 8 {
            None
        } else if enable {
            Some(PinCall::DisableInterrupt(button))
        } else {
            Some(PinCall::EnableInterrupt(button))
        }
    }

    /// The pin operation that clears the pending interrupt of button
    /// `button`; there is none for an index past 7.
    pub fn clear_pending_interrupt_bit(&self, button: u8) -> (r: Option<PinCall>)
        ensures
            r == (if button < 8 {
                Some(PinCall::ClearPendingBit(button))
            } else {
                None
            }),
    {
        if button < 8 {
            Some(PinCall::ClearPendingBit(button))
        } else {
            None
        }
    }

    /// Stores the level just read from the pin of button `button`: a low
    /// level means pressed. An index past 7 names no button and changes
    /// nothing.
    pub fn read_to_status(&mut self, button: u8, is_low: bool)
        ensures
            button < 8 ==> bits(final(self).state) == bits(old(self).state).update(
                button as int,
                is_low,
            ),
            button >= 8 ==> final(self).state == old(self).state,
            final(self).button_0 == old(self).button_0,
            final(self).button_1 == old(self).button_1,
            final(self).button_2 == old(self).button_2,
            final(self).button_3 == old(self).button_3,
            final(self).button_4 == old(self).button_4,
            final(self).button_5 == old(self).button_5,
            final(self).button_6 == old(self).button_6,
            final(self).button_7 == old(self).button_7,
    {
        if button >= 8 {
            return ;
        }
        if is_low {
            bit_set(&mut self.state, button);
        } else {
            bit_clear(&mut self.state, button);
        }
    }
}

} // verus!
