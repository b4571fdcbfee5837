//! The speed control: a multiplier on a doubling ladder between a minimum
//! and a maximum. Each press either doubles or halves it exactly, or does
//! nothing at the boundary.

use vstd::prelude::*;

verus! {

/// `value` lies on the doubling ladder that starts at `base`: it equals
/// `base` times some power of two.
pub open spec fn on_ladder(base: nat, value: nat) -> bool
    decreases value,
{
    if value == base {
        true
    } else if value < base {
        false
    } else if value % 2 == 0 {
        on_ladder(base, value / 2)
    } else {
        false
    }
}

/// Everything on the ladder sits at or above its base.
pub proof fn lemma_ladder_at_least(base: nat, value: nat)
    requires
        on_ladder(base, value),
    ensures
        value >= base,
    decreases value,
{
    if value != base {
        lemma_ladder_at_least(base, value / 2);
    }
}

/// Between two ladder values there is room to double: the larger one is an
/// even value at least twice the smaller, and its half is still on the
/// ladder, at or above the smaller.
pub proof fn lemma_ladder_gap(base: nat, a: nat, b: nat)
    requires
        on_ladder(base, a),
        on_ladder(base, b),
        a < b,
    ensures
        2 * a <= b,
        b % 2 == 0,
        on_ladder(base, b / 2),
        a <= b / 2,
    decreases b,
{
    lemma_ladder_at_least(base, a);
    if a < b / 2 {
        lemma_ladder_gap(base, a, b / 2);
    } else if a > b / 2 {
        lemma_ladder_gap(base, b / 2, a);
        assert(false);
    }
}

/// The speed control: its screen rectangle and label size, which only the
/// renderer reads, and the multiplier ladder.
pub struct Speed {
    pub x: u32,
    pub y: u32,
    pub width: u32,
    pub height: u32,
    pub speed: usize,
    pub min: usize,
    pub max: usize,
    pub font_size: u32,
}

impl Speed {
    /// The multiplier stays on the ladder between its bounds at all times.
    pub open spec fn wf(self) -> bool {
        &&& 1 <= self.min
        &&& self.min <= self.speed
        &&& self.speed <= self.max
        &&& on_ladder(self.min as nat, self.speed as nat)
        &&& on_ladder(self.min as nat, self.max as nat)
    }

    pub fn new(
        x: u32,
        y: u32,
        width: u32,
        height: u32,
        speed: usize,
        min: usize,
        max: usize,
        font_size: u32,
    ) -> (r: Speed)
        requires
            1 <= min,
            speed <= max,
            on_ladder(min as nat, speed as nat),
            on_ladder(min as nat, max as nat),
        ensures
            r.wf(),
            r.speed == speed,
            r.min == min,
            r.max == max,
            r.x == x,
            r.y == y,
            r.width == width,
            r.height == height,
            r.font_size == font_size,
    {
        proof {
            lemma_ladder_at_least(min as nat, speed as nat);
        }
        Speed { x, y, width, height, speed, min, max, font_size }
    }

    /// Doubles the multiplier, unless it already sits at the maximum; at
    /// the maximum nothing changes.
    pub fn increase(&mut self)
        requires
            old(self).wf(),
        ensures
            final(self).wf(),
            final(self).min == old(self).min,
            final(self).max == old(self).max,
            final(self).x == old(self).x,
            final(self).y == old(self).y,
            final(self).width == old(self).width,
            final(self).height == old(self).height,
            final(self).font_size == old(self).font_size,
            old(self).speed == old(self).max ==> final(self).speed == old(self).speed,
            old(self).speed < old(self).max ==> final(self).speed == 2 * old(self).speed,
    {
        if self.speed < self.max {
            proof {
                lemma_ladder_gap(self.min as nat, self.speed as nat, self.max as nat);
            }
            self.speed = self.speed * 2;
        }
    }

    /// Halves the multiplier, unless it already sits at the minimum; at the
    /// minimum nothing changes.
    pub fn decrease(&mut self)
        requires
            old(self).wf(),
        ensures
            final(self).wf(),
            final(self).min == old(self).min,
            final(self).max == old(self).max,
            final(self).x == old(self).x,
            final(self).y == old(self).y,
            final(self).width == old(self).width,
            final(self).height == old(self).height,
            final(self).font_size == old(self).font_size,
            old(self).speed == old(self).min ==> final(self).speed == old(self).speed,
            old(self).speed > old(self).min ==> final(self).speed == old(self).speed / 2,
    {
        if self.speed > self.min {
            proof {
                lemma_ladder_at_least(self.min as nat, (self.speed / 2) as nat);
            }
            self.speed = self.speed / 2;
        }
    }
}

} // verus!
