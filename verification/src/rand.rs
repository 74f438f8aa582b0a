//! Deterministic pseudorandom generator: a 16-bit linear congruential
//! generator, small enough for a microcontroller. The generator is an
//! explicit handle threaded through every component that draws from it, so a
//! run is replayable from its seed.

use vstd::prelude::*;

verus! {

/// Multiplier of the linear congruential step.
pub const RNG_A: u16 = 25173;
/// Increment of the linear congruential step.
pub const RNG_C: u16 = 13849;

/// The generator state after one step from `state`.
pub open spec fn spec_next(state: u16) -> u16 {
    ((RNG_A as int * state as int + RNG_C as int) % 0x10000) as u16
}

/// Reinterpret a byte as a signed byte (two's complement).
pub open spec fn spec_u8_as_i8(b: u8) -> i8 {
    if b < 128 {
        b as i8
    } else {
        (b as int - 256) as i8
    }
}

/// The signed byte drawn by one step from `state`: the top byte of the
/// stepped state, reinterpreted.
pub open spec fn spec_draw_i8(state: u16) -> i8 {
    spec_u8_as_i8((spec_next(state) / 256) as u8)
}

/// The byte in `[min, max]` drawn by one step from `state`; when
/// `min >= max` the draw is skipped and the result is `min`.
pub open spec fn spec_draw_range_u8(state: u16, min: u8, max: u8) -> u8 {
    if min >= max {
        min
    } else {
        (min as int + (spec_next(state) as int / 256) % (max as int - min as int + 1)) as u8
    }
}

/// The generator state after drawing a byte in `[min, max]`: unchanged when
/// `min >= max`, else stepped once.
pub open spec fn spec_range_next(state: u16, min: u8, max: u8) -> u16 {
    if min >= max {
        state
    } else {
        spec_next(state)
    }
}

/// Pseudorandom generator handle. Every draw steps the state by the linear
/// congruential rule, so two handles seeded alike produce the same stream.
pub struct Rand {
    state: u16,
}

impl Rand {
    /// The current generator state.
    pub closed spec fn state(&self) -> u16 {
        self.state
    }

    /// Generate the next raw 16-bit state.
    fn next(&mut self) -> (r: u16)
        ensures
            r == spec_next(old(self).state()),
            final(self).state() == spec_next(old(self).state()),
    {
        assert(RNG_A as u32 * (self.state as u32) <= 25173u32 * 65535u32) by (nonlinear_arith)
            requires
                self.state <= 65535,
        ;
        let wide: u32 = RNG_A as u32 * self.state as u32 + RNG_C as u32;
        self.state = (wide % 0x10000) as u16;
        self.state
    }

    /// Generate a random signed byte: the top byte of the next state.
    pub fn i8(&mut self) -> (r: i8)
        ensures
            r == spec_draw_i8(old(self).state()),
            final(self).state() == spec_next(old(self).state()),
    {
        let val: u16 = self.next();
        let top: u8 = (val / 256) as u8;
        if top < 128 {
            top as i8
        } else {
            ((top as i16) - 256) as i8
        }
    }

    /// Generate a random byte in the inclusive range `[min, max]`;
    /// `min >= max` forces the result to `min` without drawing.
    pub fn range_u8(&mut self, min: u8, max: u8) -> (r: u8)
        ensures
            r == spec_draw_range_u8(old(self).state(), min, max),
            final(self).state() == spec_range_next(old(self).state(), min, max),
            min <= max ==> min <= r <= max,
            min >= max ==> r == min,
    {
        if min >= max {
            return min;
        }
        let range: u16 = (max - min) as u16 + 1;
        let val: u8 = (self.next() / 256) as u8;
        min + (val as u16 % range) as u8
    }
}

/// Create a generator from a seed. Seeding twice with the same value replays
/// the same stream of draws.
pub fn seed(value: u16) -> (r: Rand)
    ensures
        r.state() == value,
{
    Rand { state: value }
}

} // verus!
