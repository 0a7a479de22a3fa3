//! Screen brightness: the level a request lands on, and the writer's
//! bookkeeping.
//!
//! Requests are quantised to steps of ten and written by a worker that only
//! ever writes the latest target. While a write is under way a shared counter
//! is raised, so the monitor of outside changes does not mistake the app's own
//! write for the user moving the slider.

use vstd::prelude::*;

verus! {

/// No level the writer can be asked for: the writer starts from it, so its
/// first target is always written.
pub const NO_LEVEL_WRITTEN: u8 = 101;

/// `level` rounded to the nearest multiple of ten, halves rounding up.
pub open spec fn spec_discrete_level(level: int) -> int {
    (level + 5) / 10 * 10
}

/// The level the screen is set to for a request of `new_level`.
pub fn discrete_level(new_level: u8) -> (level: u8)
    requires
        new_level <= 254,
    ensures
        level == spec_discrete_level(new_level as int),
        level % 10 == 0,
        new_level - 5 <= level <= new_level + 5,
{
    let rounded: u16 = (new_level as u16 + 5) / 10 * 10;
    rounded as u8
}

/// `value` held within `0..=100`.
pub open spec fn clamp_percent(value: int) -> int {
    if value < 0 {
        0
    } else if value > 100 {
        100
    } else {
        value
    }
}

/// The target as the signed byte the change is added to: targets above 127
/// read as negative, as a two's-complement cast makes them.
pub open spec fn as_signed(current: u8) -> int {
    if current > 127 { current - 256 } else { current as int }
}

/// The level a relative change of `change` asks for, from a target of
/// `current`, held within `0..=100` before it is quantised.
pub fn adjusted_level(current: u8, change: i8) -> (level: u8)
    requires
        -128 <= as_signed(current) + change <= 127,
    ensures
        level == clamp_percent(as_signed(current) + change),
{
    let signed: i8 = current as i8;
    assert(signed == as_signed(current)) by (bit_vector)
        requires
            signed == current as i8,
    ;
    let sum: i8 = signed + change;
    if sum < 0 {
        0
    } else if sum > 100 {
        100
    } else {
        sum as u8
    }
}

/// The worker's memory of the last level it wrote.
#[derive(Clone, Copy, Debug, PartialEq, Eq, Structural)]
pub struct BrightnessWriter {
    pub last_written: u8,
}

impl BrightnessWriter {
    pub fn new() -> (writer: Self)
        ensures
            writer.last_written == NO_LEVEL_WRITTEN,
    {
        BrightnessWriter { last_written: NO_LEVEL_WRITTEN }
    }

    /// Woken with the latest target: returns the level to write, or `None`
    /// when it is the level last written, which is then skipped.
    pub fn next_write(&mut self, target: u8) -> (write: Option<u8>)
        ensures
            write == (if target == old(self).last_written {
                None::<u8>
            } else {
                Some(target)
            }),
            final(self).last_written == target,
    {
        if target == self.last_written {
            None
        } else {
            self.last_written = target;
            Some(target)
        }
    }
}

/// How many brightness writes of the app's own are under way.
#[derive(Clone, Copy, Debug, Default, PartialEq, Eq, Structural)]
pub struct AdjustingCounter {
    pub count: u32,
}

/// Held for the length of one hardware write.
#[derive(Debug, PartialEq, Eq, Structural)]
pub struct BrightnessAdjustmentGuard {
    pub entered_from: u32,
}

impl AdjustingCounter {
    pub fn new() -> (counter: Self)
        ensures
            counter.count == 0,
    {
        AdjustingCounter { count: 0 }
    }

    pub fn value(&self) -> (count: u32)
        ensures
            count == self.count,
    {
        self.count
    }
}

impl BrightnessAdjustmentGuard {
    /// Raises the counter for the write about to start.
    pub fn new(counter: &mut AdjustingCounter) -> (guard: Self)
        ensures
            final(counter).count == old(counter).count.wrapping_add(1),
            guard.entered_from == old(counter).count,
    {
        let entered_from = counter.count;
        counter.count = counter.count.wrapping_add(1);
        BrightnessAdjustmentGuard { entered_from }
    }

    /// Lowers the counter again once the write is over.
    pub fn release(self, counter: &mut AdjustingCounter)
        ensures
            final(counter).count == old(counter).count.wrapping_sub(1),
    {
        counter.count = counter.count.wrapping_sub(1);
    }
}

/// Raising the counter for a write and lowering it afterwards leaves it where
/// it was, whatever it held, wrap-around included.
pub proof fn a_released_guard_restores_the_counter(count: u32)
    ensures
        count.wrapping_add(1).wrapping_sub(1) == count,
{
}

} // verus!
