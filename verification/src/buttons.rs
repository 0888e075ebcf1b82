//! Single-bit operations on a byte, and the cached status of eight buttons.
use vstd::prelude::*;
use vstd::arithmetic::power2::{pow2, lemma2_to64};
use crate::flags::{flags8_items, flags8_new, flags8_push, flags8_into_inner};

verus! {

/// Bit `n` of `byte`: its `n`-th binary digit, counted from the least
/// significant one.
pub open spec fn bit_of(byte: u8, n: int) -> bool {
    (byte as int / pow2(n as nat) as int) % 2 == 1
}

/// The eight bits of a byte, least significant first.
pub open spec fn bits(byte: u8) -> Seq<bool> {
    Seq::new(8, |i: int| bit_of(byte, i))
}

/// Ties the shift-and-mask test of a bit to its arithmetic definition.
proof fn lemma_shift_bit(byte: u8, n: u8)
    requires
        n < 8,
    ensures
        ((byte >> n) & 1u8 == 1u8) == bit_of(byte, n as int),
{
    lemma2_to64();
    if n == 0 {
        assert(((byte >> 0u8) & 1u8 == 1u8) == ((byte / 1) % 2 == 1)) by (bit_vector);
    } else if n == 1 {
        assert(((byte >> 1u8) & 1u8 == 1u8) == ((byte / 2) % 2 == 1)) by (bit_vector);
    } else if n == 2 {
        assert(((byte >> 2u8) & 1u8 == 1u8) == ((byte / 4) % 2 == 1)) by (bit_vector);
    } else if n == 3 {
        assert(((byte >> 3u8) & 1u8 == 1u8) == ((byte / 8) % 2 == 1)) by (bit_vector);
    } else if n == 4 {
        assert(((byte >> 4u8) & 1u8 == 1u8) == ((byte / 16) % 2 == 1)) by (bit_vector);
    } else if n == 5 {
        assert(((byte >> 5u8) & 1u8 == 1u8) == ((byte / 32) % 2 == 1)) by (bit_vector);
    } else if n == 6 {
        assert(((byte >> 6u8) & 1u8 == 1u8) == ((byte / 64) % 2 == 1)) by (bit_vector);
    } else {
        assert(((byte >> 7u8) & 1u8 == 1u8) == ((byte / 128) % 2 == 1)) by (bit_vector);
    }
}

/// Tells whether bit `n` of `byte` is set.
pub fn bit_check(byte: u8, n: u8) -> (r: bool)
    requires
        n < 8,
    ensures
        r == bits(byte)[n as int],
{
    proof {
        lemma_shift_bit(byte, n);
    }
    (byte >> n) & 1 == 1
}


proof fn lemma_or_bit(byte: u8, n: u8, i: u8)
    by (bit_vector)
    requires
        n < 8,
        i < 8,
    ensures
        (((byte | (1u8 << n)) >> i) & 1u8 == 1u8) == (i == n || (byte >> i) & 1u8 == 1u8),
{
}

proof fn lemma_and_not_bit(byte: u8, n: u8, i: u8)
    by (bit_vector)
    requires
        n < 8,
        i < 8,
    ensures
        (((byte & !(1u8 << n)) >> i) & 1u8 == 1u8) == (i != n && (byte >> i) & 1u8 == 1u8),
{
}

proof fn lemma_xor_bit(byte: u8, n: u8, i: u8)
    by (bit_vector)
    requires
        n < 8,
        i < 8,
    ensures
        (((byte ^ (1u8 << n)) >> i) & 1u8 == 1u8) == (if i == n {
            (byte >> i) & 1u8 != 1u8
        } else {
            (byte >> i) & 1u8 == 1u8
        }),
{
}

proof fn lemma_bytes_equal_by_shifts(a: u8, b: u8)
    by (bit_vector)
    requires
        (a >> 0u8) & 1u8 == (b >> 0u8) & 1u8,
        (a >> 1u8) & 1u8 == (b >> 1u8) & 1u8,
        (a >> 2u8) & 1u8 == (b >> 2u8) & 1u8,
        (a >> 3u8) & 1u8 == (b >> 3u8) & 1u8,
        (a >> 4u8) & 1u8 == (b >> 4u8) & 1u8,
        (a >> 5u8) & 1u8 == (b >> 5u8) & 1u8,
        (a >> 6u8) & 1u8 == (b >> 6u8) & 1u8,
        (a >> 7u8) & 1u8 == (b >> 7u8) & 1u8,
    ensures
        a == b,
{
}

proof fn lemma_bit_values(x: u8, i: u8)
    by (bit_vector)
    ensures
        (x >> i) & 1u8 == 0u8 || (x >> i) & 1u8 == 1u8,
{
}

proof fn lemma_same_bit_test(a: u8, b: u8, i: u8)
    by (bit_vector)
    requires
        ((a >> i) & 1u8 == 1u8) == ((b >> i) & 1u8 == 1u8),
    ensures
        (a >> i) & 1u8 == (b >> i) & 1u8,
{
}

/// A byte is determined by its eight bits: two bytes with the same bits are
/// the same byte.
pub proof fn lemma_bits_determine_byte(a: u8, b: u8)
    requires
        bits(a) == bits(b),
    ensures
        a == b,
{
    assert forall|i: u8| i < 8 implies (a >> i) & 1u8 == (b >> i) & 1u8 by {
        lemma_shift_bit(a, i);
        lemma_shift_bit(b, i);
        assert(bits(a)[i as int] == bits(b)[i as int]);
        assert(bits(a)[i as int] == bit_of(a, i as int));
        assert(bits(b)[i as int] == bit_of(b, i as int));
        assert(((a >> i) & 1u8 == 1u8) == bit_of(a, i as int));
        lemma_same_bit_test(a, b, i);
    }
    assert((a >> 0u8) & 1u8 == (b >> 0u8) & 1u8);
    assert((a >> 1u8) & 1u8 == (b >> 1u8) & 1u8);
    assert((a >> 2u8) & 1u8 == (b >> 2u8) & 1u8);
    assert((a >> 3u8) & 1u8 == (b >> 3u8) & 1u8);
    assert((a >> 4u8) & 1u8 == (b >> 4u8) & 1u8);
    assert((a >> 5u8) & 1u8 == (b >> 5u8) & 1u8);
    assert((a >> 6u8) & 1u8 == (b >> 6u8) & 1u8);
    assert((a >> 7u8) & 1u8 == (b >> 7u8) & 1u8);
    lemma_bytes_equal_by_shifts(a, b);
}

/// Sets bit `n` of `byte`, leaving the other bits as they were.
pub fn bit_set(byte: &mut u8, n: u8)
    requires
        n < 8,
    ensures
        bits(*final(byte)) == bits(*old(byte)).update(n as int, true),
{
    let ghost before = *byte;
    *byte |= 1 << n;
    proof {
        assert forall|i: int| 0 <= i < 8 implies bits(*byte)[i] == bits(before).update(
            n as int,
            true,
        )[i] by {
            lemma_or_bit(before, n, i as u8);
            lemma_shift_bit(before, i as u8);
            lemma_shift_bit(*byte, i as u8);
        }
        assert(bits(*byte) =~= bits(before).update(n as int, true));
    }
}

/// Clears bit `n` of `byte`, leaving the other bits as they were.
pub fn bit_clear(byte: &mut u8, n: u8)
    requires
        n < 8,
    ensures
        bits(*final(byte)) == bits(*old(byte)).update(n as int, false),
{
    let ghost before = *byte;
    *byte &= !(1 << n);
    proof {
        assert forall|i: int| 0 <= i < 8 implies bits(*byte)[i] == bits(before).update(
            n as int,
            false,
        )[i] by {
            lemma_and_not_bit(before, n, i as u8);
            lemma_shift_bit(before, i as u8);
            lemma_shift_bit(*byte, i as u8);
        }
        assert(bits(*byte) =~= bits(before).update(n as int, false));
    }
}

/// Flips bit `n` of `byte`, leaving the other bits as they were.
pub fn bit_toggle(byte: &mut u8, n: u8)
    requires
        n < 8,
    ensures
        bits(*final(byte)) == bits(*old(byte)).update(n as int, !bits(*old(byte))[n as int]),
{
    let ghost before = *byte;
    *byte ^= 1 << n;
    proof {
        let expected = bits(before).update(n as int, !bits(before)[n as int]);
        assert forall|i: int| 0 <= i < 8 implies bits(*byte)[i] == expected[i] by {
            lemma_xor_bit(before, n, i as u8);
            lemma_shift_bit(before, i as u8);
            lemma_shift_bit(*byte, i as u8);
            lemma_bit_values(before, i as u8);
        }
        assert(bits(*byte) =~= expected);
    }
}

/// All eight bits of zero are clear.
pub proof fn lemma_bits_of_zero()
    ensures
        bits(0u8) == Seq::new(8, |i: int| false),
{
    lemma2_to64();
    assert(bits(0u8) =~= Seq::new(8, |i: int| false));
}

/// Writing bit `n` of a byte and then reading it gives back what was
/// written, and the other bits keep their values.
pub proof fn lemma_read_after_write(before: u8, after: u8, n: u8, value: bool)
    requires
        n < 8,
        bits(after) == bits(before).update(n as int, value),
    ensures
        bits(after)[n as int] == value,
        forall|i: int| 0 <= i < 8 && i != n ==> bits(after)[i] == bits(before)[i],
{
}

/// Writing a bit with the value it already has leaves the byte as it was:
/// setting a set bit, or clearing a clear one, changes nothing.
pub proof fn lemma_write_same_value(before: u8, after: u8, n: u8)
    requires
        n < 8,
        bits(after) == bits(before).update(n as int, bits(before)[n as int]),
    ensures
        after == before,
{
    assert(bits(after) =~= bits(before));
    lemma_bits_determine_byte(after, before);
}

/// Flipping the same bit twice gives back the byte it started from.
pub proof fn lemma_toggle_twice(first: u8, second: u8, third: u8, n: u8)
    requires
        n < 8,
        bits(second) == bits(first).update(n as int, !bits(first)[n as int]),
        bits(third) == bits(second).update(n as int, !bits(second)[n as int]),
    ensures
        third == first,
{
    assert(bits(third) =~= bits(first));
    lemma_bits_determine_byte(third, first);
}

/// Writes to two different bits give the same byte in either order.
pub proof fn lemma_writes_commute(
    start: u8,
    n_first: u8,
    m_then: u8,
    m_first: u8,
    n_then: u8,
    n: u8,
    m: u8,
    v: bool,
    w: bool,
)
    requires
        n < 8,
        m < 8,
        n != m,
        bits(n_first) == bits(start).update(n as int, v),
        bits(m_then) == bits(n_first).update(m as int, w),
        bits(m_first) == bits(start).update(m as int, w),
        bits(n_then) == bits(m_first).update(n as int, v),
    ensures
        m_then == n_then,
{
    assert(bits(m_then) =~= bits(n_then));
    lemma_bits_determine_byte(m_then, n_then);
}

/// The cached status of eight buttons, one bit each, together with the
/// eight pins they are wired to.
pub struct Buttons<BTN> {
    buttons: [BTN; 8],
    state: u8,
}

impl<BTN> Buttons<BTN> {
    /// The cached status of the buttons, button `i` at index `i`.
    pub closed spec fn cached(&self) -> Seq<bool> {
        bits(self.state)
    }

    /// The pins, button `i` at index `i`.
    pub closed spec fn pins(&self) -> Seq<BTN> {
        self.buttons@
    }

    /// There are always eight buttons: eight cached states and eight pins.
    pub proof fn lemma_eight_buttons(&self)
        ensures
            self.cached().len() == 8,
            self.pins().len() == 8,
    {
    }

    /// Storing a status for a button and then reading that button gives the
    /// stored status back, and the other buttons keep theirs.
    pub proof fn lemma_get_after_set(before: Self, after: Self, button: int, value: bool)
        requires
            0 <= button < 8,
            after.cached() == before.cached().update(button, value),
        ensures
            after.cached()[button] == value,
            forall|i: int| 0 <= i < 8 && i != button ==> after.cached()[i] == before.cached()[i],
    {
        before.lemma_eight_buttons();
    }

    /// Takes the eight pins; every button starts out released.
    pub fn new(buttons: [BTN; 8]) -> (r: Self)
        ensures
            r.pins() == buttons@,
            r.cached() == Seq::new(8, |i: int| false),
    {
        proof {
            lemma_bits_of_zero();
        }
        Buttons { buttons, state: 0 }
    }

    /// The pin of button `button`, to be driven by the caller.
    pub fn button_mut(&mut self, button: usize) -> (r: &mut BTN)
        requires
            button < 8,
        ensures
            *r == old(self).pins()[button as int],
            final(self).pins() == old(self).pins().update(button as int, *final(r)),
            final(self).cached() == old(self).cached(),
    {
        &mut self.buttons[button]
    }

    /// Records whether button `button` is pressed. Like every index of the
    /// cached status, `button` is narrowed to a byte before it is used.
    pub fn set_cached_button_status(&mut self, button: usize, value: bool)
        requires
            button % 256 < 8,
        ensures
            final(self).cached() == old(self).cached().update((button % 256) as int, value),
            final(self).pins() == old(self).pins(),
    {
        let n = narrow(button);
        if value {
            bit_set(&mut self.state, n);
        } else {
            bit_clear(&mut self.state, n);
        }
    }

    /// Whether button `button` is cached as pressed.
    pub fn get_cached_button_status(&self, button: usize) -> (r: bool)
        requires
            button % 256 < 8,
        ensures
            r == self.cached()[(button % 256) as int],
    {
        bit_check(self.state, narrow(button))
    }

    /// Flips the cached status of button `button`.
    pub fn toggle_cached_button_status(&mut self, button: usize)
        requires
            button % 256 < 8,
        ensures
            final(self).cached() == old(self).cached().update(
                (button % 256) as int,
                !old(self).cached()[(button % 256) as int],
            ),
            final(self).pins() == old(self).pins(),
    {
        bit_toggle(&mut self.state, narrow(button))
    }

    /// Stores the level just read from the pin of button `button`: a low
    /// level means pressed.
    pub fn update_button_status(&mut self, button: usize, is_low: bool)
        requires
            button < 8,
        ensures
            final(self).cached() == old(self).cached().update(button as int, is_low),
            final(self).pins() == old(self).pins(),
    {
        self.set_cached_button_status(button, is_low);
    }

    /// The cached status of all eight buttons, button `i` at index `i`.
    pub fn get_full_cached_status(&self) -> (r: [bool; 8])
        ensures
            r@ == self.cached(),
    {
        let mut status = flags8_new();
        let mut i: u8 = 0;
        while i < 8
            invariant
                i <= 8,
                flags8_items(status) == self.cached().subrange(0, i as int),
            decreases 8 - i,
        {
            let b = bit_check(self.state, i);
            flags8_push(&mut status, b);
            proof {
                assert(self.cached().subrange(0, i as int).push(b) =~= self.cached().subrange(
                    0,
                    i + 1,
                ));
            }
            i = i + 1;
        }
        proof {
            assert(self.cached().subrange(0, 8) =~= self.cached());
        }
        match flags8_into_inner(status) {
            Ok(a) => a,
            Err(_) => vstd::pervasive::unreached(),
        }
    }
}

/// Flipping the cached status of a button twice gives back the status the
/// buttons started with.
pub proof fn lemma_toggle_button_twice<BTN>(
    first: Buttons<BTN>,
    second: Buttons<BTN>,
    third: Buttons<BTN>,
    button: int,
)
    requires
        0 <= button < 8,
        second.cached() == first.cached().update(button, !first.cached()[button]),
        third.cached() == second.cached().update(button, !second.cached()[button]),
    ensures
        third.cached() == first.cached(),
{
    assert(third.cached() =~= first.cached());
}

/// An index narrowed to a byte, as a cast to `u8` does.
fn narrow(i: usize) -> (r: u8)
    ensures
        r == i % 256,
{
    assert((i as u8) as int == i % 256) by (bit_vector);
    i as u8
}

} // verus!
