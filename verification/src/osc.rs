//! Oscillators: stateful single-channel signal generators over signed bytes,
//! composable through wrapping and saturating operators.
//!
//! Every oscillator separates `tick` (advance one step) from `get` (read the
//! current signal). The pseudorandom generator is an explicit handle passed
//! to both, so each oscillator's behavior is a function of its own state and
//! the generator state; the spec functions of the [`Oscillator`] trait state
//! that function exactly.

pub mod math;

use crate::rand::Rand;
use crate::rand::spec_draw_i8;
use crate::rand::spec_draw_range_u8;
use crate::rand::spec_next;
use crate::rand::spec_range_next;
use vstd::prelude::*;

pub use math::Add;
pub use math::Div;
pub use math::Max;
pub use math::Min;
pub use math::Mul;
pub use math::Rem;
pub use math::SaturatingAdd;
pub use math::SaturatingDiv;
pub use math::SaturatingMul;
pub use math::SaturatingSub;
pub use math::Sub;

verus! {

/// The signal domain: one signed byte.
pub type Value = i8;

/// Clamp a mathematical integer into the signal domain.
pub open spec fn sat_i8(x: int) -> i8 {
    if x > 127 {
        127i8
    } else if x < -128 {
        -128i8
    } else {
        x as i8
    }
}

/// Reinterpret a signal as an unsigned byte (two's complement).
pub open spec fn i8_as_u8(v: i8) -> u8 {
    if v >= 0 {
        v as u8
    } else {
        (v + 256) as u8
    }
}

/// Truncated division of signals, made total: a zero divisor yields 0, and
/// the one overflowing case (`-128 / -1`) wraps to `-128`.
pub open spec fn spec_div_i8(a: i8, b: i8) -> i8 {
    if b == 0 {
        0i8
    } else if a == -128 && b == -1 {
        -128i8
    } else {
        let q = (if a < 0 {
            -(a as int)
        } else {
            a as int
        }) / (if b < 0 {
            -(b as int)
        } else {
            b as int
        });
        if (a < 0) != (b < 0) {
            (-q) as i8
        } else {
            q as i8
        }
    }
}

/// Truncated division of signals, saturating: a zero divisor yields 0, and
/// `-128 / -1` saturates to `127`.
pub open spec fn spec_sat_div_i8(a: i8, b: i8) -> i8 {
    if a == -128 && b == -1 {
        127i8
    } else {
        spec_div_i8(a, b)
    }
}

/// Remainder of truncated division, made total: a zero divisor yields 0. The
/// result carries the dividend's sign, as Rust's `%` does.
pub open spec fn spec_rem_i8(a: i8, b: i8) -> i8 {
    if b == 0 {
        0i8
    } else {
        let m = (if a < 0 {
            -(a as int)
        } else {
            a as int
        }) % (if b < 0 {
            -(b as int)
        } else {
            b as int
        });
        if a < 0 {
            (-m) as i8
        } else {
            m as i8
        }
    }
}

/// Negate a signal without trapping: the minimum maps to the maximum.
pub open spec fn spec_neg_i8(v: i8) -> i8 {
    if v == -128 {
        127i8
    } else {
        (-v) as i8
    }
}

/// Reinterpret a signal as an unsigned byte.
pub fn signal_to_u8(v: i8) -> (r: u8)
    ensures
        r == i8_as_u8(v),
{
    if v >= 0 {
        v as u8
    } else {
        ((v as i16) + 256) as u8
    }
}

/// Reinterpret an unsigned byte as a signal (two's complement).
pub fn signal_from_u8(v: u8) -> (r: i8)
    ensures
        r == crate::rand::spec_u8_as_i8(v),
{
    if v < 128 {
        v as i8
    } else {
        ((v as i16) - 256) as i8
    }
}

/// A stateful signal generator.
///
/// `tick` advances one step; `get` reads the current signal without changing
/// the oscillator. Both take the pseudorandom generator handle: the spec
/// functions pin down, for every implementation, exactly which value is read
/// and how the oscillator and generator states evolve, so purity (a `get`
/// that leaves the generator alone and reads the same value twice) is visible
/// in the contract of each deterministic oscillator.
pub trait Oscillator: Sized {
    /// Structural well-formedness, established by constructors and preserved
    /// by ticking.
    spec fn wf(&self) -> bool;

    /// The signal `get` returns when the generator is in state `s`.
    spec fn value(&self, s: u16) -> i8;

    /// The generator state after `get`, when it started in state `s`.
    spec fn state_after_get(&self, s: u16) -> u16;

    /// The oscillator after one `tick`, when the generator started in state
    /// `s`.
    spec fn stepped(&self, s: u16) -> Self;

    /// The generator state after one `tick`, when it started in state `s`.
    spec fn state_after_tick(&self, s: u16) -> u16;

    /// Advance the oscillator by one step.
    fn tick(&mut self, rng: &mut Rand)
        requires
            old(self).wf(),
        ensures
            final(self).wf(),
            *final(self) == old(self).stepped(old(rng).state()),
            final(rng).state() == old(self).state_after_tick(old(rng).state()),
    ;

    /// Read the current signal.
    fn get(&self, rng: &mut Rand) -> (v: Value)
        requires
            self.wf(),
        ensures
            v == self.value(old(rng).state()),
            final(rng).state() == self.state_after_get(old(rng).state()),
    ;
}

/// A constant signal; ticking does nothing.
#[derive(Clone, Copy, Debug, PartialEq, Eq, Structural)]
pub struct Constant {
    pub value: Value,
}

impl Constant {
    /// Create a constant oscillator.
    pub fn new(value: Value) -> (r: Constant)
        ensures
            r == (Constant { value }),
    {
        Constant { value }
    }
}

impl Oscillator for Constant {
    open spec fn wf(&self) -> bool {
        true
    }

    open spec fn value(&self, s: u16) -> i8 {
        self.value
    }

    open spec fn state_after_get(&self, s: u16) -> u16 {
        s
    }

    open spec fn stepped(&self, s: u16) -> Self {
        *self
    }

    open spec fn state_after_tick(&self, s: u16) -> u16 {
        s
    }

    fn tick(&mut self, rng: &mut Rand) {
    }

    fn get(&self, rng: &mut Rand) -> (v: Value) {
        self.value
    }
}

/// A plain signal value acts as a constant oscillator.
impl Oscillator for Value {
    open spec fn wf(&self) -> bool {
        true
    }

    open spec fn value(&self, s: u16) -> i8 {
        *self
    }

    open spec fn state_after_get(&self, s: u16) -> u16 {
        s
    }

    open spec fn stepped(&self, s: u16) -> Self {
        *self
    }

    open spec fn state_after_tick(&self, s: u16) -> u16 {
        s
    }

    fn tick(&mut self, rng: &mut Rand) {
    }

    fn get(&self, rng: &mut Rand) -> (v: Value) {
        *self
    }
}

/// Create a triangle oscillator starting at 0 and counting up.
pub fn triangle() -> (r: Triangle)
    ensures
        r == (Triangle { counter: 0i8, direction: true }),
{
    Triangle::new()
}

/// Ping-pongs over the full signal range, flipping direction exactly at the
/// extremes.
#[derive(Clone, Copy, Debug, PartialEq, Eq, Structural)]
pub struct Triangle {
    pub counter: Value,
    pub direction: bool,
}

impl Triangle {
    /// Create a triangle oscillator starting at 0 and counting up.
    pub fn new() -> (r: Triangle)
        ensures
            r == (Triangle { counter: 0i8, direction: true }),
    {
        Triangle { counter: 0, direction: true }
    }
}

impl Oscillator for Triangle {
    open spec fn wf(&self) -> bool {
        true
    }

    open spec fn value(&self, s: u16) -> i8 {
        self.counter
    }

    open spec fn state_after_get(&self, s: u16) -> u16 {
        s
    }

    open spec fn stepped(&self, s: u16) -> Self {
        if self.direction {
            let c = self.counter.wrapping_add(1);
            Triangle { counter: c, direction: c != 127 }
        } else {
            let c = self.counter.wrapping_sub(1);
            Triangle { counter: c, direction: c == -128 }
        }
    }

    open spec fn state_after_tick(&self, s: u16) -> u16 {
        s
    }

    fn tick(&mut self, rng: &mut Rand) {
        if self.direction {
            self.counter = self.counter.wrapping_add(1);
            if self.counter == 127 {
                self.direction = false;
            }
        } else {
            self.counter = self.counter.wrapping_sub(1);
            if self.counter == -128 {
                self.direction = true;
            }
        }
    }

    fn get(&self, rng: &mut Rand) -> (v: Value) {
        self.counter
    }
}

/// Create a sawtooth oscillator starting at 0.
pub fn sawtooth() -> (r: Sawtooth)
    ensures
        r == (Sawtooth { counter: 0i8 }),
{
    Sawtooth::new()
}

/// Increments every tick and wraps around the signal range.
#[derive(Clone, Copy, Debug, PartialEq, Eq, Structural)]
pub struct Sawtooth {
    pub counter: Value,
}

impl Sawtooth {
    /// Create a sawtooth oscillator starting at 0.
    pub fn new() -> (r: Sawtooth)
        ensures
            r == (Sawtooth { counter: 0i8 }),
    {
        Sawtooth { counter: 0 }
    }
}

impl Oscillator for Sawtooth {
    open spec fn wf(&self) -> bool {
        true
    }

    open spec fn value(&self, s: u16) -> i8 {
        self.counter
    }

    open spec fn state_after_get(&self, s: u16) -> u16 {
        s
    }

    open spec fn stepped(&self, s: u16) -> Self {
        Sawtooth { counter: self.counter.wrapping_add(1) }
    }

    open spec fn state_after_tick(&self, s: u16) -> u16 {
        s
    }

    fn tick(&mut self, rng: &mut Rand) {
        self.counter = self.counter.wrapping_add(1);
    }

    fn get(&self, rng: &mut Rand) -> (v: Value) {
        self.counter
    }
}

/// Create a square oscillator over the given duty-cycle oscillator.
pub fn square<D: Oscillator>(duty_cycle: D) -> (r: Square<D>)
    ensures
        r.counter == 0i8,
        r.duty_cycle == duty_cycle,
{
    Square::new(duty_cycle)
}

/// Emits the minimum signal while an internal wrapping counter is below the
/// duty-cycle oscillator's signal, and the maximum signal otherwise.
#[derive(Clone, Copy, Debug)]
pub struct Square<D> {
    pub counter: Value,
    pub duty_cycle: D,
}

impl<D: Oscillator> Square<D> {
    /// Create a square oscillator starting its counter at 0.
    pub fn new(duty_cycle: D) -> (r: Square<D>)
        ensures
            r.counter == 0i8,
            r.duty_cycle == duty_cycle,
    {
        Square { counter: 0, duty_cycle }
    }
}

impl<D: Oscillator> Oscillator for Square<D> {
    open spec fn wf(&self) -> bool {
        self.duty_cycle.wf()
    }

    open spec fn value(&self, s: u16) -> i8 {
        if self.counter < self.duty_cycle.value(s) {
            -128i8
        } else {
            127i8
        }
    }

    open spec fn state_after_get(&self, s: u16) -> u16 {
        self.duty_cycle.state_after_get(s)
    }

    open spec fn stepped(&self, s: u16) -> Self {
        Square { counter: self.counter.wrapping_add(1), duty_cycle: self.duty_cycle.stepped(s) }
    }

    open spec fn state_after_tick(&self, s: u16) -> u16 {
        self.duty_cycle.state_after_tick(s)
    }

    fn tick(&mut self, rng: &mut Rand) {
        self.counter = self.counter.wrapping_add(1);
        self.duty_cycle.tick(rng);
    }

    fn get(&self, rng: &mut Rand) -> (v: Value) {
        let duty = self.duty_cycle.get(rng);
        if self.counter < duty {
            -128
        } else {
            127
        }
    }
}

/// Create a sine oscillator starting at phase 0.
pub fn sine() -> (r: Sine)
    ensures
        r == (Sine { counter: 0u8 }),
{
    Sine::new()
}

/// Approximates one sine cycle over a 256-step counter, from a 64-entry
/// quarter-wave table reflected and negated across the other quadrants.
#[derive(Clone, Copy, Debug, PartialEq, Eq, Structural)]
pub struct Sine {
    pub counter: u8,
}

impl Sine {
    /// Create a sine oscillator starting at phase 0.
    pub fn new() -> (r: Sine)
        ensures
            r == (Sine { counter: 0u8 }),
    {
        Sine { counter: 0 }
    }

    /// Create a sine oscillator starting at the given phase.
    pub fn phase(counter: u8) -> (r: Sine)
        ensures
            r == (Sine { counter }),
    {
        Sine { counter }
    }
}

/// The sine signal at a counter position: the quarter-wave table entry for
/// the first quadrant, reflected over the second, and negated over the second
/// half of the cycle.
pub open spec fn spec_sine(counter: u8) -> i8 {
    if counter < 64 {
        sine_entry(counter as int)
    } else if counter < 128 {
        sine_entry(127 - counter as int)
    } else if counter < 192 {
        (-sine_entry(counter as int - 128)) as i8
    } else {
        (-sine_entry(255 - counter as int)) as i8
    }
}

impl Oscillator for Sine {
    open spec fn wf(&self) -> bool {
        true
    }

    open spec fn value(&self, s: u16) -> i8 {
        spec_sine(self.counter)
    }

    open spec fn state_after_get(&self, s: u16) -> u16 {
        s
    }

    open spec fn stepped(&self, s: u16) -> Self {
        Sine { counter: if self.counter == 255 { 0u8 } else { (self.counter + 1) as u8 } }
    }

    open spec fn state_after_tick(&self, s: u16) -> u16 {
        s
    }

    fn tick(&mut self, rng: &mut Rand) {
        self.counter = if self.counter == 255 {
            0
        } else {
            self.counter + 1
        };
    }

    fn get(&self, rng: &mut Rand) -> (v: Value) {
        if self.counter < 64 {
            sine_sample(self.counter)
        } else if self.counter < 128 {
            sine_sample(127 - self.counter)
        } else if self.counter < 192 {
            let e = sine_sample(self.counter - 128);
            assert(e >= 0);
            -e
        } else {
            let e = sine_sample(255 - self.counter);
            assert(e >= 0);
            -e
        }
    }
}

/// Negates an inner oscillator's signal, mapping the minimum to the maximum
/// so negation never traps.
#[derive(Clone, Copy, Debug)]
pub struct Neg<O> {
    pub inner: O,
}

impl<O> Neg<O> {
    /// Wrap an oscillator so its signal is read negated.
    pub fn new(inner: O) -> (r: Neg<O>)
        ensures
            r.inner == inner,
    {
        Neg { inner }
    }
}

impl<O: Oscillator> Oscillator for Neg<O> {
    open spec fn wf(&self) -> bool {
        self.inner.wf()
    }

    open spec fn value(&self, s: u16) -> i8 {
        spec_neg_i8(self.inner.value(s))
    }

    open spec fn state_after_get(&self, s: u16) -> u16 {
        self.inner.state_after_get(s)
    }

    open spec fn stepped(&self, s: u16) -> Self {
        Neg { inner: self.inner.stepped(s) }
    }

    open spec fn state_after_tick(&self, s: u16) -> u16 {
        self.inner.state_after_tick(s)
    }

    fn tick(&mut self, rng: &mut Rand) {
        self.inner.tick(rng);
    }

    fn get(&self, rng: &mut Rand) -> (v: Value) {
        let value = self.inner.get(rng);
        if value == -128 {
            127
        } else {
            -value
        }
    }
}

/// Create the pseudorandom oscillator.
pub fn rng() -> (r: Rng)
    ensures
        r == (Rng {  }),
{
    Rng {  }
}

/// Draws a fresh pseudorandom signal from the generator on every `get`;
/// ticking does nothing.
#[derive(Clone, Copy, Debug, PartialEq, Eq, Structural)]
pub struct Rng;

impl Oscillator for Rng {
    open spec fn wf(&self) -> bool {
        true
    }

    open spec fn value(&self, s: u16) -> i8 {
        spec_draw_i8(s)
    }

    open spec fn state_after_get(&self, s: u16) -> u16 {
        spec_next(s)
    }

    open spec fn stepped(&self, s: u16) -> Self {
        *self
    }

    open spec fn state_after_tick(&self, s: u16) -> u16 {
        s
    }

    fn tick(&mut self, rng: &mut Rand) {
    }

    fn get(&self, rng: &mut Rand) -> (v: Value) {
        rng.i8()
    }
}


/// The quarter-wave sine table: entry `i` is the sine of `i/128` half-turns,
/// scaled to the signal range and rounded.
pub open spec fn sine_entry(i: int) -> i8 {
    if i == 0 {
        0i8
    } else if i == 1 {
        3i8
    } else if i == 2 {
        6i8
    } else if i == 3 {
        9i8
    } else if i == 4 {
        12i8
    } else if i == 5 {
        16i8
    } else if i == 6 {
        19i8
    } else if i == 7 {
        22i8
    } else if i == 8 {
        25i8
    } else if i == 9 {
        28i8
    } else if i == 10 {
        31i8
    } else if i == 11 {
        34i8
    } else if i == 12 {
        37i8
    } else if i == 13 {
        40i8
    } else if i == 14 {
        43i8
    } else if i == 15 {
        46i8
    } else if i == 16 {
        49i8
    } else if i == 17 {
        51i8
    } else if i == 18 {
        54i8
    } else if i == 19 {
        57i8
    } else if i == 20 {
        60i8
    } else if i == 21 {
        63i8
    } else if i == 22 {
        65i8
    } else if i == 23 {
        68i8
    } else if i == 24 {
        71i8
    } else if i == 25 {
        73i8
    } else if i == 26 {
        76i8
    } else if i == 27 {
        78i8
    } else if i == 28 {
        81i8
    } else if i == 29 {
        83i8
    } else if i == 30 {
        85i8
    } else if i == 31 {
        88i8
    } else if i == 32 {
        90i8
    } else if i == 33 {
        92i8
    } else if i == 34 {
        94i8
    } else if i == 35 {
        96i8
    } else if i == 36 {
        98i8
    } else if i == 37 {
        100i8
    } else if i == 38 {
        102i8
    } else if i == 39 {
        104i8
    } else if i == 40 {
        106i8
    } else if i == 41 {
        107i8
    } else if i == 42 {
        109i8
    } else if i == 43 {
        111i8
    } else if i == 44 {
        112i8
    } else if i == 45 {
        113i8
    } else if i == 46 {
        115i8
    } else if i == 47 {
        116i8
    } else if i == 48 {
        117i8
    } else if i == 49 {
        118i8
    } else if i == 50 {
        120i8
    } else if i == 51 {
        121i8
    } else if i == 52 {
        122i8
    } else if i == 53 {
        122i8
    } else if i == 54 {
        123i8
    } else if i == 55 {
        124i8
    } else if i == 56 {
        125i8
    } else if i == 57 {
        125i8
    } else if i == 58 {
        126i8
    } else if i == 59 {
        126i8
    } else if i == 60 {
        126i8
    } else if i == 61 {
        127i8
    } else if i == 62 {
        127i8
    } else {
        127i8
    }
}

/// Look up a quarter-wave sine table entry.
fn sine_sample(i: u8) -> (v: i8)
    requires
        i < 64,
    ensures
        v == sine_entry(i as int),
        v >= 0,
{
    match i {
        0u8 => 0i8,
        1u8 => 3i8,
        2u8 => 6i8,
        3u8 => 9i8,
        4u8 => 12i8,
        5u8 => 16i8,
        6u8 => 19i8,
        7u8 => 22i8,
        8u8 => 25i8,
        9u8 => 28i8,
        10u8 => 31i8,
        11u8 => 34i8,
        12u8 => 37i8,
        13u8 => 40i8,
        14u8 => 43i8,
        15u8 => 46i8,
        16u8 => 49i8,
        17u8 => 51i8,
        18u8 => 54i8,
        19u8 => 57i8,
        20u8 => 60i8,
        21u8 => 63i8,
        22u8 => 65i8,
        23u8 => 68i8,
        24u8 => 71i8,
        25u8 => 73i8,
        26u8 => 76i8,
        27u8 => 78i8,
        28u8 => 81i8,
        29u8 => 83i8,
        30u8 => 85i8,
        31u8 => 88i8,
        32u8 => 90i8,
        33u8 => 92i8,
        34u8 => 94i8,
        35u8 => 96i8,
        36u8 => 98i8,
        37u8 => 100i8,
        38u8 => 102i8,
        39u8 => 104i8,
        40u8 => 106i8,
        41u8 => 107i8,
        42u8 => 109i8,
        43u8 => 111i8,
        44u8 => 112i8,
        45u8 => 113i8,
        46u8 => 115i8,
        47u8 => 116i8,
        48u8 => 117i8,
        49u8 => 118i8,
        50u8 => 120i8,
        51u8 => 121i8,
        52u8 => 122i8,
        53u8 => 122i8,
        54u8 => 123i8,
        55u8 => 124i8,
        56u8 => 125i8,
        57u8 => 125i8,
        58u8 => 126i8,
        59u8 => 126i8,
        60u8 => 126i8,
        61u8 => 127i8,
        62u8 => 127i8,
        63u8 => 127i8,
        _ => 0i8,
    }
}


/// Create a random-pulse oscillator; construction performs one initial tick,
/// drawing the first countdown from the generator.
pub fn random_pulse<Min: Oscillator, Max: Oscillator>(
    min_count: Min,
    max_count: Max,
    rng: &mut Rand,
) -> (r: RandomPulse<Min, Max>)
    requires
        min_count.wf(),
        max_count.wf(),
    ensures
        r.wf(),
        r == (RandomPulse { counter: 0u8, min_count, max_count }).stepped(old(rng).state()),
        final(rng).state() == (RandomPulse {
            counter: 0u8,
            min_count,
            max_count,
        }).state_after_tick(old(rng).state()),
{
    RandomPulse::new(min_count, max_count, rng)
}

/// Counts down an interval drawn from the generator between the two bound
/// oscillators' signals; emits the maximum signal exactly when the countdown
/// reaches zero, and the minimum signal otherwise.
#[derive(Clone, Copy, Debug)]
pub struct RandomPulse<Min, Max> {
    pub counter: u8,
    pub min_count: Min,
    pub max_count: Max,
}

impl<Min: Oscillator, Max: Oscillator> RandomPulse<Min, Max> {
    /// Create a random-pulse oscillator; construction performs one initial
    /// tick, drawing the first countdown from the generator.
    pub fn new(min_count: Min, max_count: Max, rng: &mut Rand) -> (r: RandomPulse<Min, Max>)
        requires
            min_count.wf(),
            max_count.wf(),
        ensures
            r.wf(),
            r == (RandomPulse { counter: 0u8, min_count, max_count }).stepped(old(rng).state()),
            final(rng).state() == (RandomPulse {
                counter: 0u8,
                min_count,
                max_count,
            }).state_after_tick(old(rng).state()),
    {
        let mut osc = RandomPulse { counter: 0, min_count, max_count };
        osc.tick(rng);
        osc
    }
}

impl<Min: Oscillator, Max: Oscillator> Oscillator for RandomPulse<Min, Max> {
    open spec fn wf(&self) -> bool {
        self.min_count.wf() && self.max_count.wf()
    }

    open spec fn value(&self, s: u16) -> i8 {
        if self.counter == 0 {
            127i8
        } else {
            -128i8
        }
    }

    open spec fn state_after_get(&self, s: u16) -> u16 {
        s
    }

    open spec fn stepped(&self, s: u16) -> Self {
        let min2 = self.min_count.stepped(s);
        let s1 = self.min_count.state_after_tick(s);
        let max2 = self.max_count.stepped(s1);
        let s2 = self.max_count.state_after_tick(s1);
        if self.counter > 0 {
            RandomPulse { counter: (self.counter - 1) as u8, min_count: min2, max_count: max2 }
        } else {
            let lo = i8_as_u8(min2.value(s2));
            let s3 = min2.state_after_get(s2);
            let hi = i8_as_u8(max2.value(s3));
            let s4 = max2.state_after_get(s3);
            RandomPulse {
                counter: spec_draw_range_u8(s4, lo, hi),
                min_count: min2,
                max_count: max2,
            }
        }
    }

    open spec fn state_after_tick(&self, s: u16) -> u16 {
        let min2 = self.min_count.stepped(s);
        let s1 = self.min_count.state_after_tick(s);
        let max2 = self.max_count.stepped(s1);
        let s2 = self.max_count.state_after_tick(s1);
        if self.counter > 0 {
            s2
        } else {
            let lo = i8_as_u8(min2.value(s2));
            let s3 = min2.state_after_get(s2);
            let hi = i8_as_u8(max2.value(s3));
            let s4 = max2.state_after_get(s3);
            spec_range_next(s4, lo, hi)
        }
    }

    fn tick(&mut self, rng: &mut Rand) {
        self.min_count.tick(rng);
        self.max_count.tick(rng);

        if self.counter > 0 {
            self.counter = self.counter - 1;
        } else {
            let lo = signal_to_u8(self.min_count.get(rng));
            let hi = signal_to_u8(self.max_count.get(rng));
            self.counter = rng.range_u8(lo, hi);
        }
    }

    fn get(&self, rng: &mut Rand) -> (v: Value) {
        if self.counter == 0 {
            127
        } else {
            -128
        }
    }
}

/// The oscillator and generator state after `n` ticks of `o`, starting from
/// generator state `s`.
pub open spec fn spec_tick_n<O: Oscillator>(o: O, s: u16, n: nat) -> (O, u16)
    decreases n,
{
    if n == 0 {
        (o, s)
    } else {
        let prev = spec_tick_n(o, s, (n - 1) as nat);
        (prev.0.stepped(prev.1), prev.0.state_after_tick(prev.1))
    }
}

/// The phase increment that a frequency signal selects, in the clock's 4.4
/// fixed-point format: 16 is the base rate, positive signals scale linearly
/// up to 64 (four times the rate), negative ones down to 4 (a quarter).
/// Meaningful for a nonzero frequency; a zero frequency bypasses the clock.
pub open spec fn spec_clock_increment(freq: i8) -> u8 {
    if freq > 0 {
        (16 + (freq as int) * 48 / 127) as u8
    } else {
        (16 - ((-(freq as int)) * 12) / 128) as u8
    }
}

/// How many inner ticks the clock releases on one outer tick, given its
/// fractional accumulator and the frequency signal.
pub open spec fn spec_clock_ticks(frac: u8, freq: i8) -> u8 {
    if freq == 0 {
        1u8
    } else {
        ((frac + spec_clock_increment(freq)) / 16) as u8
    }
}

/// The clock's fractional accumulator after one outer tick.
pub open spec fn spec_clock_frac(frac: u8, freq: i8) -> u8 {
    if freq == 0 {
        frac
    } else {
        ((frac + spec_clock_increment(freq)) % 16) as u8
    }
}

/// A 4.4 fixed-point phase accumulator translating a frequency signal into a
/// number of inner ticks per outer tick: frequency 0 is the base rate,
/// positive frequencies scale linearly to four times it, negative ones down
/// to a quarter, and fractional ticks accumulate across calls.
#[derive(Clone, Copy, Debug, PartialEq, Eq, Structural)]
pub struct FrequencyClock {
    pub frac: u8,
}

impl Default for FrequencyClock {
    /// A clock with an empty accumulator.
    fn default() -> (r: Self)
        ensures
            r == (FrequencyClock { frac: 0u8 }),
    {
        FrequencyClock { frac: 0 }
    }
}

impl FrequencyClock {
    /// Advance the clock one outer tick under the given frequency signal and
    /// return how many inner ticks it releases: between 0 and 4.
    pub fn tick(&mut self, freq: Value) -> (ticks: u8)
        requires
            old(self).frac < 16,
        ensures
            ticks == spec_clock_ticks(old(self).frac, freq),
            final(self).frac == spec_clock_frac(old(self).frac, freq),
            final(self).frac < 16,
            ticks <= 4,
    {
        if freq == 0 {
            return 1;
        }

        let is_positive = freq > 0;
        let freq_abs: u8 = signal_to_u8(if freq == -128 {
            -128
        } else if freq < 0 {
            -freq
        } else {
            freq
        });

        let increment: u8 = if is_positive {
            let scale = (freq_abs as u16 * 48 / 127) as u8;
            16 + scale
        } else {
            let scale = (freq_abs as u16 * 12 / 128) as u8;
            16 - scale
        };

        let accumulated = self.frac + increment;
        let ticks = accumulated / 16;
        self.frac = accumulated % 16;
        ticks
    }
}

/// Scales an inner oscillator's tick rate by a frequency oscillator's signal
/// through a [`FrequencyClock`].
#[derive(Clone, Copy, Debug)]
pub struct WithFrequency<O, V> {
    pub inner: O,
    pub frequency: V,
    pub clock: FrequencyClock,
}

impl<O, V> WithFrequency<O, V> {
    /// Wrap an oscillator so it ticks at a scaled rate.
    pub fn new(inner: O, frequency: V) -> (r: WithFrequency<O, V>)
        ensures
            r.inner == inner,
            r.frequency == frequency,
            r.clock == (FrequencyClock { frac: 0u8 }),
    {
        WithFrequency { inner, frequency, clock: FrequencyClock { frac: 0 } }
    }
}

impl<O: Oscillator, V: Oscillator> Oscillator for WithFrequency<O, V> {
    open spec fn wf(&self) -> bool {
        self.inner.wf() && self.frequency.wf() && self.clock.frac < 16
    }

    open spec fn value(&self, s: u16) -> i8 {
        self.inner.value(s)
    }

    open spec fn state_after_get(&self, s: u16) -> u16 {
        self.inner.state_after_get(s)
    }

    open spec fn stepped(&self, s: u16) -> Self {
        let freq2 = self.frequency.stepped(s);
        let s1 = self.frequency.state_after_tick(s);
        let f = freq2.value(s1);
        let s2 = freq2.state_after_get(s1);
        let n = spec_clock_ticks(self.clock.frac, f);
        WithFrequency {
            inner: spec_tick_n(self.inner, s2, n as nat).0,
            frequency: freq2,
            clock: FrequencyClock { frac: spec_clock_frac(self.clock.frac, f) },
        }
    }

    open spec fn state_after_tick(&self, s: u16) -> u16 {
        let freq2 = self.frequency.stepped(s);
        let s1 = self.frequency.state_after_tick(s);
        let f = freq2.value(s1);
        let s2 = freq2.state_after_get(s1);
        let n = spec_clock_ticks(self.clock.frac, f);
        spec_tick_n(self.inner, s2, n as nat).1
    }

    fn tick(&mut self, rng: &mut Rand) {
        let ghost self0 = *self;
        let ghost s0 = rng.state();
        self.frequency.tick(rng);
        let f = self.frequency.get(rng);
        let ticks = self.clock.tick(f);

        let ghost inner0 = self.inner;
        let ghost s2 = rng.state();
        proof {
            assert(self.frequency == self0.frequency.stepped(s0));
            assert(s2 == self0.frequency.stepped(s0).state_after_get(
                self0.frequency.state_after_tick(s0),
            ));
            assert(ticks == spec_clock_ticks(self0.clock.frac, f));
            assert(self.clock.frac == spec_clock_frac(self0.clock.frac, f));
        }
        let mut i: u8 = 0;
        while i < ticks
            invariant
                i <= ticks,
                inner0.wf(),
                self.inner.wf(),
                self.frequency == self0.frequency.stepped(s0),
                self.clock.frac == spec_clock_frac(self0.clock.frac, f),
                (self.inner, rng.state()) == spec_tick_n(inner0, s2, i as nat),
            decreases ticks - i,
        {
            self.inner.tick(rng);
            i = i + 1;
            assert((self.inner, rng.state()) == spec_tick_n(inner0, s2, i as nat));
        }
        assert(*self == self0.stepped(s0));
        assert(rng.state() == self0.state_after_tick(s0));
    }

    fn get(&self, rng: &mut Rand) -> (v: Value) {
        self.inner.get(rng)
    }
}


/// Builder methods available on every oscillator, composing it with another
/// into the combinators of this module.
pub trait OscillatorExt: Oscillator {
    /// Wrapping addition with another oscillator's signal.
    fn add<R: Oscillator>(self, rhs: R) -> (r: Add<Self, R>)
        ensures
            r.0 == self,
            r.1 == rhs,
    ;
    /// Saturating addition with another oscillator's signal.
    fn saturating_add<R: Oscillator>(self, rhs: R) -> (r: SaturatingAdd<Self, R>)
        ensures
            r.0 == self,
            r.1 == rhs,
    ;
    /// Wrapping subtraction with another oscillator's signal.
    fn sub<R: Oscillator>(self, rhs: R) -> (r: Sub<Self, R>)
        ensures
            r.0 == self,
            r.1 == rhs,
    ;
    /// Saturating subtraction with another oscillator's signal.
    fn saturating_sub<R: Oscillator>(self, rhs: R) -> (r: SaturatingSub<Self, R>)
        ensures
            r.0 == self,
            r.1 == rhs,
    ;
    /// Wrapping multiplication with another oscillator's signal.
    fn mul<R: Oscillator>(self, rhs: R) -> (r: Mul<Self, R>)
        ensures
            r.0 == self,
            r.1 == rhs,
    ;
    /// Saturating multiplication with another oscillator's signal.
    fn saturating_mul<R: Oscillator>(self, rhs: R) -> (r: SaturatingMul<Self, R>)
        ensures
            r.0 == self,
            r.1 == rhs,
    ;
    /// Total truncated division with another oscillator's signal.
    fn div<R: Oscillator>(self, rhs: R) -> (r: Div<Self, R>)
        ensures
            r.0 == self,
            r.1 == rhs,
    ;
    /// Total saturating division with another oscillator's signal.
    fn saturating_div<R: Oscillator>(self, rhs: R) -> (r: SaturatingDiv<Self, R>)
        ensures
            r.0 == self,
            r.1 == rhs,
    ;
    /// Total remainder with another oscillator's signal.
    fn rem<R: Oscillator>(self, rhs: R) -> (r: Rem<Self, R>)
        ensures
            r.0 == self,
            r.1 == rhs,
    ;
    /// Maximum with another oscillator's signal.
    fn max<R: Oscillator>(self, rhs: R) -> (r: Max<Self, R>)
        ensures
            r.0 == self,
            r.1 == rhs,
    ;
    /// Minimum with another oscillator's signal.
    fn min<R: Oscillator>(self, rhs: R) -> (r: Min<Self, R>)
        ensures
            r.0 == self,
            r.1 == rhs,
    ;
    /// Negate this oscillator's signal; the minimum maps to the maximum.
    fn neg(self) -> (r: Neg<Self>)
        ensures
            r.inner == self,
    ;
    /// Scale this oscillator's tick rate by a frequency oscillator's signal.
    fn freq<R: Oscillator>(self, rhs: R) -> (r: WithFrequency<Self, R>)
        ensures
            r.inner == self,
            r.frequency == rhs,
            r.clock == (FrequencyClock { frac: 0u8 }),
    ;
}

impl<T: Oscillator> OscillatorExt for T {
    fn add<R: Oscillator>(self, rhs: R) -> (r: Add<Self, R>) {
        Add(self, rhs)
    }
    fn saturating_add<R: Oscillator>(self, rhs: R) -> (r: SaturatingAdd<Self, R>) {
        SaturatingAdd(self, rhs)
    }
    fn sub<R: Oscillator>(self, rhs: R) -> (r: Sub<Self, R>) {
        Sub(self, rhs)
    }
    fn saturating_sub<R: Oscillator>(self, rhs: R) -> (r: SaturatingSub<Self, R>) {
        SaturatingSub(self, rhs)
    }
    fn mul<R: Oscillator>(self, rhs: R) -> (r: Mul<Self, R>) {
        Mul(self, rhs)
    }
    fn saturating_mul<R: Oscillator>(self, rhs: R) -> (r: SaturatingMul<Self, R>) {
        SaturatingMul(self, rhs)
    }
    fn div<R: Oscillator>(self, rhs: R) -> (r: Div<Self, R>) {
        Div(self, rhs)
    }
    fn saturating_div<R: Oscillator>(self, rhs: R) -> (r: SaturatingDiv<Self, R>) {
        SaturatingDiv(self, rhs)
    }
    fn rem<R: Oscillator>(self, rhs: R) -> (r: Rem<Self, R>) {
        Rem(self, rhs)
    }
    fn max<R: Oscillator>(self, rhs: R) -> (r: Max<Self, R>) {
        Max(self, rhs)
    }
    fn min<R: Oscillator>(self, rhs: R) -> (r: Min<Self, R>) {
        Min(self, rhs)
    }
    fn neg(self) -> (r: Neg<Self>) {
        Neg { inner: self }
    }
    fn freq<R: Oscillator>(self, rhs: R) -> (r: WithFrequency<Self, R>) {
        WithFrequency { inner: self, frequency: rhs, clock: FrequencyClock { frac: 0 } }
    }
}


/// Law: at the extreme frequency signals the clock hits its documented
/// rates exactly. At the maximum positive signal it releases four inner
/// ticks on every outer tick, its accumulator unchanged; at the most
/// negative signal the increment is four sixteenths, so one inner tick is
/// released on exactly every fourth outer tick and none otherwise.
pub proof fn lemma_clock_extremes(frac: u8)
    requires
        frac < 16,
    ensures
        spec_clock_ticks(frac, 127) == 4,
        spec_clock_frac(frac, 127) == frac,
        spec_clock_increment(-128i8) == 4,
        spec_clock_ticks(frac, -128i8) == if frac >= 12 {
            1u8
        } else {
            0u8
        },
        spec_clock_frac(frac, -128i8) == (frac + 4) % 16,
{
}

/// Law: a sawtooth inside a frequency wrapper advances by exactly four
/// steps per outer tick at the maximum positive frequency, and by one step
/// on every fourth outer tick (none otherwise) at the most negative one.
pub proof fn lemma_with_frequency_extremes(o: WithFrequency<Sawtooth, Constant>, s: u16)
    requires
        o.wf(),
    ensures
        o.frequency.value == 127 ==> o.stepped(s).inner.counter == o.inner.counter.wrapping_add(4)
            && o.stepped(s).clock.frac == o.clock.frac,
        o.frequency.value == -128 ==> o.stepped(s).clock.frac == (o.clock.frac + 4) % 16
            && o.stepped(s).inner.counter == (if o.clock.frac >= 12 {
            o.inner.counter.wrapping_add(1)
        } else {
            o.inner.counter
        }),
{
    lemma_clock_extremes(o.clock.frac);
    reveal_with_fuel(spec_tick_n, 6);
    if o.frequency.value == 127 {
        assert(spec_tick_n(o.inner, s, 4).0.counter == o.inner.counter.wrapping_add(1).wrapping_add(
            1,
        ).wrapping_add(1).wrapping_add(1));
    }
}

} // verus!
