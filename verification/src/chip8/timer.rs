//! The CHIP-8 delay timer: a byte the program sets, counting down at 60 Hz
//! until it reaches zero.
use vstd::prelude::*;

use super::SnapshotError;

verus! {

/// Version of the timer's snapshot format.
pub const TIMER_SNAPSHOT_VERSION: u32 = 0;

/// The delay timer.
#[derive(Debug)]
pub struct Chip8Timer {
    timer: u8,
}

/// Value of a timer after `ticks` sixtieths of a second.
pub open spec fn counted_down(value: u8, ticks: nat) -> u8 {
    if value >= ticks {
        (value - ticks) as u8
    } else {
        0
    }
}

impl Chip8Timer {
    /// Current value of the timer.
    pub closed spec fn value(&self) -> u8 {
        self.timer
    }

    /// Sets the timer; the program does this with `LD DT, Vx`.
    pub fn set(&mut self, value: u8)
        ensures
            final(self).value() == value,
    {
        self.timer = value;
    }

    /// Reads the timer; the program does this with `LD Vx, DT`.
    pub fn get(&self) -> (r: u8)
        ensures
            r == self.value(),
    {
        self.timer
    }

    /// One sixtieth of a second passes: the timer counts down, stopping at zero.
    pub fn tick(&mut self)
        ensures
            final(self).value() == counted_down(old(self).value(), 1),
    {
        self.timer = self.timer.saturating_sub(1);
    }

    /// `ticks` sixtieths of a second pass, one tick after the other.
    pub fn synchronize(&mut self, ticks: u64)
        ensures
            final(self).value() == counted_down(old(self).value(), ticks as nat),
    {
        let mut done: u64 = 0;
        while done < ticks
            invariant
                done <= ticks,
                self.value() == counted_down(old(self).value(), done as nat),
            decreases ticks - done,
        {
            self.tick();
            done = done + 1;
        }
    }

    /// The timer's state as stored in a snapshot: its one byte.
    pub fn store_snapshot(&self) -> (r: Vec<u8>)
        ensures
            r@ == seq![self.value()],
    {
        let mut out: Vec<u8> = Vec::new();
        out.push(self.timer);
        out
    }

    /// Restores the timer from a snapshot of version `version`, whose first
    /// byte is the timer; refused when the snapshot is empty.
    pub fn load_snapshot(&mut self, version: u32, snapshot: &[u8]) -> (r: Result<(), SnapshotError>)
        requires
            version == TIMER_SNAPSHOT_VERSION,
        ensures
            r is Ok <==> snapshot@.len() >= 1,
            r is Ok ==> final(self).value() == snapshot@[0],
            r is Err ==> final(self).value() == old(self).value(),
    {
        if snapshot.len() >= 1 {
            self.timer = snapshot[0];
            Ok(())
        } else {
            Err(SnapshotError::Truncated)
        }
    }
}

/// Builds the delay timer.
#[derive(Debug, Default)]
pub struct Chip8TimerConfig;

impl Chip8TimerConfig {
    /// The timer starts at zero.
    pub fn build_component(self) -> (r: Chip8Timer)
        ensures
            r.value() == 0,
    {
        Chip8Timer { timer: 0 }
    }
}

/// The timer only ever goes down, and a timer at zero stays there.
pub proof fn lemma_timer_monotone(value: u8, ticks: nat)
    ensures
        counted_down(value, ticks) <= value,
        value == 0 ==> counted_down(value, ticks) == 0,
        ticks >= value ==> counted_down(value, ticks) == 0,
{
}

/// Counting down `a` ticks and then `b` more is counting down `a + b`.
pub proof fn lemma_timer_ticks_add(value: u8, a: nat, b: nat)
    ensures
        counted_down(counted_down(value, a), b) == counted_down(value, a + b),
{
}

} // verus!
