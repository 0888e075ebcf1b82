//! Eight distance sensors whose readings become virtual buttons.
//!
//! Each reading, in millimetres, has the sensor's offset taken off and is
//! then sorted into one of three height sections above the panel. A hand in
//! the lowest section over sensor `i` presses virtual button `i`, one in the
//! second section presses button `i + 8`, and a hand in the third section
//! over at least two of the sensors that count for it presses button 16.
use vstd::prelude::*;

verus! {

/// The number of distance sensors.
pub const SIZE: usize = 8;

/// The I2C address that the sensors answer on after a reset.
pub const ADDRESS_DEFAULT: u8 = 0x29;

/// The millimetres that sensor `i` reads beyond the true distance.
pub open spec fn sensor_offset(i: int) -> int {
    if i == 0 {
        10
    } else if i == 1 {
        13
    } else if i == 2 {
        6
    } else if i == 3 {
        3
    } else if i == 4 {
        6
    } else if i == 5 {
        13
    } else {
        16
    }
}

/// A raw reading of sensor `i` with the offset taken off; a reading below
/// the offset counts as zero.
pub open spec fn corrected_milli(i: int, raw: u16) -> int {
    if raw >= sensor_offset(i) {
        raw - sensor_offset(i)
    } else {
        0
    }
}

/// The height section that a distance in millimetres falls into, if any.
pub open spec fn section_of(milli: int) -> Option<usize> {
    if milli <= 120 {
        Some(0)
    } else if milli <= 212 {
        Some(1)
    } else if milli <= 330 {
        Some(2)
    } else {
        None
    }
}

/// Whether sensor `i` counts toward the middle button. Sensors 2 and 6 see
/// a little too high and are left out.
pub open spec fn counts_for_middle(i: int) -> bool {
    i != 2 && i != 6
}

/// How many of the first `n` sensors count toward the middle button and
/// read the third section.
pub open spec fn middle_votes(reads: Seq<Option<usize>>, n: int) -> int
    decreases n,
{
    if n <= 0 {
        0
    } else {
        middle_votes(reads, n - 1) + if counts_for_middle(n - 1) && reads[n - 1] == Some(
            2usize,
        ) {
            1int
        } else {
            0int
        }
    }
}

/// The seventeen virtual buttons that the sections of the eight sensors press.
pub open spec fn virtual_buttons(reads: Seq<Option<usize>>) -> Seq<bool> {
    Seq::new(
        17,
        |k: int|
            if k < 8 {
                reads[k] == Some(0usize)
            } else if k < 16 {
                reads[k - 8] == Some(1usize)
            } else {
                middle_votes(reads, 8) >= 2
            },
    )
}

/// A corrected reading never exceeds the raw reading, and is the raw
/// reading less the offset whenever the raw reading reaches the offset.
pub proof fn lemma_corrected_bounds(i: int, raw: u16)
    ensures
        0 <= corrected_milli(i, raw) <= raw,
        raw >= sensor_offset(i) ==> corrected_milli(i, raw) == raw - sensor_offset(i),
{
}

/// The offsets of the eight sensors, in millimetres: 10, 13, 6, 3, 6, 13,
/// 16 and 16; and a reading below its offset counts as zero.
pub proof fn lemma_offsets(raw: u16)
    ensures
        sensor_offset(0) == 10,
        sensor_offset(1) == 13,
        sensor_offset(2) == 6,
        sensor_offset(3) == 3,
        sensor_offset(4) == 6,
        sensor_offset(5) == 13,
        sensor_offset(6) == 16,
        sensor_offset(7) == 16,
        forall|i: int| 0 <= i < 8 && raw < sensor_offset(i) ==> corrected_milli(i, raw) == 0,
{
}

/// The three sections cover distances up to 120, from 121 to 212 and from
/// 213 to 330 millimetres; anything farther is in no section.
pub proof fn lemma_section_boundaries(milli: int)
    ensures
        section_of(milli) == Some(0usize) <==> milli <= 120,
        section_of(milli) == Some(1usize) <==> 121 <= milli <= 212,
        section_of(milli) == Some(2usize) <==> 213 <= milli <= 330,
        section_of(milli) is None <==> milli > 330,
{
}

/// A nearer hand is never in a higher section: if a distance falls into a
/// section, every shorter distance falls into that section or a lower one.
pub proof fn lemma_sections_monotone(near: int, far: int)
    requires
        near <= far,
        section_of(far) is Some,
    ensures
        section_of(near) is Some,
        section_of(near).unwrap() <= section_of(far).unwrap(),
{
}

/// Each sensor presses at most one of its two virtual buttons.
pub proof fn lemma_one_button_per_sensor(reads: Seq<Option<usize>>, i: int)
    requires
        reads.len() == 8,
        0 <= i < 8,
    ensures
        !(virtual_buttons(reads)[i] && virtual_buttons(reads)[i + 8]),
{
}

proof fn lemma_votes_ignore(reads: Seq<Option<usize>>, j: int, x: Option<usize>, n: int)
    requires
        !counts_for_middle(j),
        0 <= j < reads.len(),
        n <= reads.len(),
    ensures
        middle_votes(reads.update(j, x), n) == middle_votes(reads, n),
    decreases n,
{
    if n > 0 {
        lemma_votes_ignore(reads, j, x, n - 1);
    }
}

/// Sensors 2 and 6 have no say in the middle button: whatever they read,
/// it is pressed or not as before.
pub proof fn lemma_middle_ignores_sensors_2_and_6(
    reads: Seq<Option<usize>>,
    j: int,
    x: Option<usize>,
)
    requires
        reads.len() == 8,
        j == 2 || j == 6,
    ensures
        virtual_buttons(reads.update(j, x))[16] == virtual_buttons(reads)[16],
{
    lemma_votes_ignore(reads, j, x, 8);
}

/// Sensor `i` alone decides its two low virtual buttons: button `i` is
/// pressed exactly when sensor `i` reads the lowest section, and button
/// `i + 8` exactly when it reads the second.
pub proof fn lemma_low_buttons_follow_their_sensor(reads: Seq<Option<usize>>)
    requires
        reads.len() == 8,
    ensures
        forall|i: int|
            0 <= i < 8 ==> (virtual_buttons(reads)[i] <==> reads[i] == Some(0usize)) && (
            virtual_buttons(reads)[i + 8] <==> reads[i] == Some(1usize)),
{
}

/// The middle button is pressed exactly when at least two of sensors 0, 1,
/// 3, 4, 5 and 7 read the third section; no other reading has a say.
pub proof fn lemma_middle_button_votes(reads: Seq<Option<usize>>)
    requires
        reads.len() == 8,
    ensures
        virtual_buttons(reads)[16] <==> (if reads[0] == Some(2usize) { 1int } else { 0int }) + (if reads[1] == Some(
            2usize,
        ) { 1int } else { 0int }) + (if reads[3] == Some(2usize) { 1int } else { 0int }) + (
        if reads[4] == Some(2usize) { 1int } else { 0int }) + (if reads[5] == Some(2usize) {
            1int
        } else {
            0int
        }) + (if reads[7] == Some(2usize) { 1int } else { 0int }) >= 2,
{
    reveal_with_fuel(middle_votes, 9);
}

/// With no sensor in the third section the middle button is not pressed.
pub proof fn lemma_middle_needs_third_section(reads: Seq<Option<usize>>)
    requires
        reads.len() == 8,
        forall|i: int| 0 <= i < 8 ==> reads[i] != Some(2usize),
    ensures
        !virtual_buttons(reads)[16],
{
    lemma_middle_button_votes(reads);
}

/// More hands in the third section never release the middle button: moving
/// any sensor's reading into the third section keeps it pressed.
pub proof fn lemma_middle_button_monotone(reads: Seq<Option<usize>>, j: int)
    requires
        reads.len() == 8,
        0 <= j < 8,
        virtual_buttons(reads)[16],
    ensures
        virtual_buttons(reads.update(j, Some(2usize)))[16],
{
    lemma_middle_button_votes(reads);
    lemma_middle_button_votes(reads.update(j, Some(2usize)));
}

/// Every sensor other than 2 and 6 can tip the middle button: with one
/// other counting sensor in the third section, moving sensor `j` into or
/// out of the third section presses or releases it.
pub proof fn lemma_counting_sensor_decides(reads: Seq<Option<usize>>, j: int, k: int)
    requires
        reads.len() == 8,
        0 <= j < 8,
        0 <= k < 8,
        j != 2 && j != 6,
        k != 2 && k != 6,
        j != k,
        reads[k] == Some(2usize),
        forall|i: int| 0 <= i < 8 && i != j && i != k ==> reads[i] != Some(2usize),
    ensures
        virtual_buttons(reads.update(j, Some(2usize)))[16],
        !virtual_buttons(reads.update(j, None::<usize>))[16],
{
    lemma_middle_button_votes(reads.update(j, Some(2usize)));
    lemma_middle_button_votes(reads.update(j, None::<usize>));
}

/// The offset of sensor `index`.
fn offset(index: usize) -> (r: u16)
    requires
        index < SIZE,
    ensures
        r == sensor_offset(index as int),
{
    match index {
        0 => 10,
        1 => 13,
        2 => 6,
        3 => 3,
        4 => 6,
        5 => 13,
        _ => 16,
    }
}

/// Whether sensor `index` counts toward the middle button.
fn is_middle_sensor(index: usize) -> (r: bool)
    ensures
        r == counts_for_middle(index as int),
{
    index != 2 && index != 6
}

/// The address that the sensor behind reset line `index` is moved to, so
/// that all eight can share one bus.
pub fn sensor_address(index: usize) -> (r: u8)
    requires
        index < SIZE,
    ensures
        r == ADDRESS_DEFAULT + index + 10,
{
    ADDRESS_DEFAULT + (index as u8) + 10
}

/// The sensors, and the section each one read last.
pub struct DistanceMeasurement<S> {
    sensors: [S; SIZE],
    reads: [Option<usize>; SIZE],
}

impl<S> DistanceMeasurement<S> {
    /// The section that each sensor read last, sensor `i` at index `i`.
    pub closed spec fn readings(&self) -> Seq<Option<usize>> {
        self.reads@
    }

    /// The sensors, sensor `i` at index `i`.
    pub closed spec fn sensors(&self) -> Seq<S> {
        self.sensors@
    }

    /// There are always eight sensors, and a reading slot for each.
    pub proof fn lemma_eight_sensors(&self)
        ensures
            self.readings().len() == 8,
            self.sensors().len() == 8,
    {
    }

    /// Takes the eight started sensors; none has a reading yet.
    pub fn new(sensors: [S; SIZE]) -> (r: Self)
        ensures
            r.sensors() == sensors@,
            r.readings() == Seq::new(8, |i: int| None::<usize>),
    {
        let r = DistanceMeasurement { sensors, reads: [None, None, None, None, None, None, None, None] };
        assert(r.reads@ =~= Seq::new(8, |i: int| None::<usize>));
        r
    }

    /// Sensor `index`, to be read by the caller.
    pub fn sensor_mut(&mut self, index: usize) -> (r: &mut S)
        requires
            index < SIZE,
        ensures
            *r == old(self).sensors()[index as int],
            final(self).sensors() == old(self).sensors().update(index as int, *final(r)),
            final(self).readings() == old(self).readings(),
    {
        &mut self.sensors[index]
    }

    /// The distance that sensor `index` measures, given its raw reading `raw`
    /// in millimetres. There are only eight sensors: a larger index is an
    /// error.
    pub fn read_milli(&self, index: usize, raw: u16) -> (r: Result<u16, ()>)
        ensures
            r is Ok <==> index < SIZE,
            r matches Ok(v) ==> v == corrected_milli(index as int, raw),
    {
        if index >= SIZE {
            return Err(());
        }
        let off = offset(index);
        let taken = if off < raw {
            off
        } else {
            raw
        };
        Ok(raw - taken)
    }

    /// The section that sensor `index` sees a hand in, given its raw
    /// reading `raw`, or `None` when nothing is near enough.
    pub fn read_section(&self, index: usize, raw: u16) -> (r: Result<Option<usize>, ()>)
        ensures
            r is Ok <==> index < SIZE,
            r matches Ok(s) ==> s == section_of(corrected_milli(index as int, raw)),
    {
        let x = self.read_milli(index, raw)?;
        Ok(
            if x <= 120 {
                Some(0)
            } else if x <= 212 {
                Some(1)
            } else if x <= 330 {
                Some(2)
            } else {
                None
            },
        )
    }

    /// Stores the sections of one raw reading of every sensor, sensor `i`
    /// at index `i` of `raw`. The sections are all worked out before any is
    /// stored.
    pub fn update_read_all(&mut self, raw: &[u16; SIZE]) -> (r: Result<(), ()>)
        ensures
            r is Ok,
            final(self).readings() == Seq::new(
                8,
                |i: int| section_of(corrected_milli(i, raw@[i])),
            ),
            final(self).sensors() == old(self).sensors(),
    {
        let mut values: [Option<usize>; SIZE] = [None, None, None, None, None, None, None, None];
        let mut i: usize = 0;
        while i < SIZE
            invariant
                i <= SIZE,
                values@.len() == SIZE,
                forall|k: int| 0 <= k < i ==> values@[k] == section_of(corrected_milli(k, raw@[k])),
            decreases SIZE - i,
        {
            let v = self.read_section(i, raw[i])?;
            values[i] = v;
            i = i + 1;
        }
        self.reads = values;
        assert(self.reads@ =~= Seq::new(8, |i: int| section_of(corrected_milli(i, raw@[i]))));
        Ok(())
    }

    /// The seventeen virtual buttons that the stored sections press.
    pub fn get_cached_buttons(&self) -> (r: [bool; 17])
        ensures
            r@ == virtual_buttons(self.readings()),
            forall|i: int|
                0 <= i < 8 ==> (r@[i] <==> self.readings()[i] == Some(0usize)) && (r@[i + 8]
                    <==> self.readings()[i] == Some(1usize)),
            r@[16] <==> (if self.readings()[0] == Some(2usize) { 1int } else { 0int }) + (if self.readings()[1] == Some(
            2usize,
        ) { 1int } else { 0int }) + (if self.readings()[3] == Some(2usize) { 1int } else { 0int }) + (
        if self.readings()[4] == Some(2usize) { 1int } else { 0int }) + (if self.readings()[5] == Some(2usize) {
            1int
        } else {
            0int
        }) + (if self.readings()[7] == Some(2usize) { 1int } else { 0int }) >= 2,
    {
        proof {
            lemma_low_buttons_follow_their_sensor(self.reads@);
            lemma_middle_button_votes(self.reads@);
        }
        let mut buttons = [false; 17];
        let mut mid: usize = 0;
        let mut i: usize = 0;
        while i < SIZE
            invariant
                i <= SIZE,
                buttons@.len() == 17,
                self.reads@.len() == SIZE,
                mid == middle_votes(self.reads@, i as int),
                mid <= i,
                forall|k: int| 0 <= k < i ==> buttons@[k] == (self.reads@[k] == Some(0usize)),
                forall|k: int|
                    8 <= k < 8 + i ==> buttons@[k] == (self.reads@[k - 8] == Some(1usize)),
                forall|k: int| i <= k < SIZE ==> !buttons@[k],
                forall|k: int| 8 + i <= k < 16 ==> !buttons@[k],
                !buttons@[16],
            decreases SIZE - i,
        {
            match self.reads[i] {
                Some(0) => {
                    buttons[i] = true;
                },
                Some(1) => {
                    buttons[i + 8] = true;
                },
                Some(2) => {
                    if is_middle_sensor(i) {
                        mid += 1;
                    }
                },
                _ => {},
            }
            i = i + 1;
        }
        if mid >= 2 {
            buttons[16] = true;
        }
        assert(buttons@ =~= virtual_buttons(self.reads@));
        buttons
    }
}

} // verus!
