//! Binary oscillator combinators: wrapping and saturating arithmetic,
//! maximum and minimum. Each ticks both children every outer tick and derives
//! its signal purely from the children's current signals.

use super::Oscillator;
use super::Value;
use super::sat_i8;
use super::spec_div_i8;
use super::spec_rem_i8;
use super::spec_sat_div_i8;
use crate::rand::Rand;
use vstd::prelude::*;

verus! {

/// Truncated division of signals, total (a zero divisor yields 0) and
/// wrapping on the one overflowing case.
pub fn div_signal(a: i8, b: i8) -> (r: i8)
    ensures
        r == spec_div_i8(a, b),
{
    if b == 0 {
        return 0;
    }
    if a == -128 && b == -1 {
        return -128;
    }
    let ua: u8 = if a < 0 {
        (-(a as i16)) as u8
    } else {
        a as u8
    };
    let ub: u8 = if b < 0 {
        (-(b as i16)) as u8
    } else {
        b as u8
    };
    let q: u8 = ua / ub;
    assert(q <= ua) by (nonlinear_arith)
        requires
            ub >= 1 && q == ua / ub,
    ;
    if (a < 0) != (b < 0) {
        (-(q as i16)) as i8
    } else {
        assert(q <= 127) by {
            if ua == 128 {
                assert(a == -128);
                assert(b < 0 && b != -1);
                assert(ub >= 2);
                assert(128u8 / ub <= 64) by (nonlinear_arith)
                    requires
                        ub >= 2,
                ;
            }
        }
        q as i8
    }
}

/// Remainder of truncated division of signals, total (a zero divisor yields
/// 0).
pub fn rem_signal(a: i8, b: i8) -> (r: i8)
    ensures
        r == spec_rem_i8(a, b),
{
    if b == 0 {
        return 0;
    }
    let ua: u8 = if a < 0 {
        (-(a as i16)) as u8
    } else {
        a as u8
    };
    let ub: u8 = if b < 0 {
        (-(b as i16)) as u8
    } else {
        b as u8
    };
    let m: u8 = ua % ub;
    assert(m < ub) by (nonlinear_arith)
        requires
            ub >= 1 && m == ua % ub,
    ;
    if a < 0 {
        (-(m as i16)) as i8
    } else {
        m as i8
    }
}

/// Wrapping addition of two oscillators' signals.
///
/// Ticks both children each outer tick; its signal is derived purely from
/// the children's current signals.
#[derive(Clone, Copy, Debug)]
pub struct Add<A, B>(pub A, pub B);

impl<A, B> Add<A, B> {
    /// Combine two oscillators.
    pub fn new(a: A, b: B) -> (r: Add<A, B>)
        ensures
            r.0 == a,
            r.1 == b,
    {
        Add(a, b)
    }
}

impl<A: Oscillator, B: Oscillator> Oscillator for Add<A, B> {
    open spec fn wf(&self) -> bool {
        self.0.wf() && self.1.wf()
    }

    open spec fn value(&self, s: u16) -> i8 {
        let x = self.0.value(s);
        let y = self.1.value(self.0.state_after_get(s));
        x.wrapping_add(y)
    }

    open spec fn state_after_get(&self, s: u16) -> u16 {
        self.1.state_after_get(self.0.state_after_get(s))
    }

    open spec fn stepped(&self, s: u16) -> Self {
        Add(self.0.stepped(s), self.1.stepped(self.0.state_after_tick(s)))
    }

    open spec fn state_after_tick(&self, s: u16) -> u16 {
        self.1.state_after_tick(self.0.state_after_tick(s))
    }

    fn tick(&mut self, rng: &mut Rand) {
        self.0.tick(rng);
        self.1.tick(rng);
    }

    fn get(&self, rng: &mut Rand) -> (v: Value) {
        let a = self.0.get(rng);
        let b = self.1.get(rng);
        a.wrapping_add(b)
    }
}

/// Saturating addition of two oscillators' signals.
///
/// Ticks both children each outer tick; its signal is derived purely from
/// the children's current signals.
#[derive(Clone, Copy, Debug)]
pub struct SaturatingAdd<A, B>(pub A, pub B);

impl<A, B> SaturatingAdd<A, B> {
    /// Combine two oscillators.
    pub fn new(a: A, b: B) -> (r: SaturatingAdd<A, B>)
        ensures
            r.0 == a,
            r.1 == b,
    {
        SaturatingAdd(a, b)
    }
}

impl<A: Oscillator, B: Oscillator> Oscillator for SaturatingAdd<A, B> {
    open spec fn wf(&self) -> bool {
        self.0.wf() && self.1.wf()
    }

    open spec fn value(&self, s: u16) -> i8 {
        let x = self.0.value(s);
        let y = self.1.value(self.0.state_after_get(s));
        sat_i8(x as int + y as int)
    }

    open spec fn state_after_get(&self, s: u16) -> u16 {
        self.1.state_after_get(self.0.state_after_get(s))
    }

    open spec fn stepped(&self, s: u16) -> Self {
        SaturatingAdd(self.0.stepped(s), self.1.stepped(self.0.state_after_tick(s)))
    }

    open spec fn state_after_tick(&self, s: u16) -> u16 {
        self.1.state_after_tick(self.0.state_after_tick(s))
    }

    fn tick(&mut self, rng: &mut Rand) {
        self.0.tick(rng);
        self.1.tick(rng);
    }

    fn get(&self, rng: &mut Rand) -> (v: Value) {
        let a = self.0.get(rng);
        let b = self.1.get(rng);
        let s16: i16 = a as i16 + b as i16;
        if s16 > 127 {
            127
        } else if s16 < -128 {
            -128
        } else {
            s16 as i8
        }
    }
}

/// Wrapping subtraction of two oscillators' signals.
///
/// Ticks both children each outer tick; its signal is derived purely from
/// the children's current signals.
#[derive(Clone, Copy, Debug)]
pub struct Sub<A, B>(pub A, pub B);

impl<A, B> Sub<A, B> {
    /// Combine two oscillators.
    pub fn new(a: A, b: B) -> (r: Sub<A, B>)
        ensures
            r.0 == a,
            r.1 == b,
    {
        Sub(a, b)
    }
}

impl<A: Oscillator, B: Oscillator> Oscillator for Sub<A, B> {
    open spec fn wf(&self) -> bool {
        self.0.wf() && self.1.wf()
    }

    open spec fn value(&self, s: u16) -> i8 {
        let x = self.0.value(s);
        let y = self.1.value(self.0.state_after_get(s));
        x.wrapping_sub(y)
    }

    open spec fn state_after_get(&self, s: u16) -> u16 {
        self.1.state_after_get(self.0.state_after_get(s))
    }

    open spec fn stepped(&self, s: u16) -> Self {
        Sub(self.0.stepped(s), self.1.stepped(self.0.state_after_tick(s)))
    }

    open spec fn state_after_tick(&self, s: u16) -> u16 {
        self.1.state_after_tick(self.0.state_after_tick(s))
    }

    fn tick(&mut self, rng: &mut Rand) {
        self.0.tick(rng);
        self.1.tick(rng);
    }

    fn get(&self, rng: &mut Rand) -> (v: Value) {
        let a = self.0.get(rng);
        let b = self.1.get(rng);
        a.wrapping_sub(b)
    }
}

/// Saturating subtraction of two oscillators' signals.
///
/// Ticks both children each outer tick; its signal is derived purely from
/// the children's current signals.
#[derive(Clone, Copy, Debug)]
pub struct SaturatingSub<A, B>(pub A, pub B);

impl<A, B> SaturatingSub<A, B> {
    /// Combine two oscillators.
    pub fn new(a: A, b: B) -> (r: SaturatingSub<A, B>)
        ensures
            r.0 == a,
            r.1 == b,
    {
        SaturatingSub(a, b)
    }
}

impl<A: Oscillator, B: Oscillator> Oscillator for SaturatingSub<A, B> {
    open spec fn wf(&self) -> bool {
        self.0.wf() && self.1.wf()
    }

    open spec fn value(&self, s: u16) -> i8 {
        let x = self.0.value(s);
        let y = self.1.value(self.0.state_after_get(s));
        sat_i8(x as int - y as int)
    }

    open spec fn state_after_get(&self, s: u16) -> u16 {
        self.1.state_after_get(self.0.state_after_get(s))
    }

    open spec fn stepped(&self, s: u16) -> Self {
        SaturatingSub(self.0.stepped(s), self.1.stepped(self.0.state_after_tick(s)))
    }

    open spec fn state_after_tick(&self, s: u16) -> u16 {
        self.1.state_after_tick(self.0.state_after_tick(s))
    }

    fn tick(&mut self, rng: &mut Rand) {
        self.0.tick(rng);
        self.1.tick(rng);
    }

    fn get(&self, rng: &mut Rand) -> (v: Value) {
        let a = self.0.get(rng);
        let b = self.1.get(rng);
        let s16: i16 = a as i16 - b as i16;
        if s16 > 127 {
            127
        } else if s16 < -128 {
            -128
        } else {
            s16 as i8
        }
    }
}

/// Wrapping multiplication of two oscillators' signals.
///
/// Ticks both children each outer tick; its signal is derived purely from
/// the children's current signals.
#[derive(Clone, Copy, Debug)]
pub struct Mul<A, B>(pub A, pub B);

impl<A, B> Mul<A, B> {
    /// Combine two oscillators.
    pub fn new(a: A, b: B) -> (r: Mul<A, B>)
        ensures
            r.0 == a,
            r.1 == b,
    {
        Mul(a, b)
    }
}

impl<A: Oscillator, B: Oscillator> Oscillator for Mul<A, B> {
    open spec fn wf(&self) -> bool {
        self.0.wf() && self.1.wf()
    }

    open spec fn value(&self, s: u16) -> i8 {
        let x = self.0.value(s);
        let y = self.1.value(self.0.state_after_get(s));
        x.wrapping_mul(y)
    }

    open spec fn state_after_get(&self, s: u16) -> u16 {
        self.1.state_after_get(self.0.state_after_get(s))
    }

    open spec fn stepped(&self, s: u16) -> Self {
        Mul(self.0.stepped(s), self.1.stepped(self.0.state_after_tick(s)))
    }

    open spec fn state_after_tick(&self, s: u16) -> u16 {
        self.1.state_after_tick(self.0.state_after_tick(s))
    }

    fn tick(&mut self, rng: &mut Rand) {
        self.0.tick(rng);
        self.1.tick(rng);
    }

    fn get(&self, rng: &mut Rand) -> (v: Value) {
        let a = self.0.get(rng);
        let b = self.1.get(rng);
        a.wrapping_mul(b)
    }
}

/// Saturating multiplication of two oscillators' signals.
///
/// Ticks both children each outer tick; its signal is derived purely from
/// the children's current signals.
#[derive(Clone, Copy, Debug)]
pub struct SaturatingMul<A, B>(pub A, pub B);

impl<A, B> SaturatingMul<A, B> {
    /// Combine two oscillators.
    pub fn new(a: A, b: B) -> (r: SaturatingMul<A, B>)
        ensures
            r.0 == a,
            r.1 == b,
    {
        SaturatingMul(a, b)
    }
}

impl<A: Oscillator, B: Oscillator> Oscillator for SaturatingMul<A, B> {
    open spec fn wf(&self) -> bool {
        self.0.wf() && self.1.wf()
    }

    open spec fn value(&self, s: u16) -> i8 {
        let x = self.0.value(s);
        let y = self.1.value(self.0.state_after_get(s));
        sat_i8(x as int * y as int)
    }

    open spec fn state_after_get(&self, s: u16) -> u16 {
        self.1.state_after_get(self.0.state_after_get(s))
    }

    open spec fn stepped(&self, s: u16) -> Self {
        SaturatingMul(self.0.stepped(s), self.1.stepped(self.0.state_after_tick(s)))
    }

    open spec fn state_after_tick(&self, s: u16) -> u16 {
        self.1.state_after_tick(self.0.state_after_tick(s))
    }

    fn tick(&mut self, rng: &mut Rand) {
        self.0.tick(rng);
        self.1.tick(rng);
    }

    fn get(&self, rng: &mut Rand) -> (v: Value) {
        let a = self.0.get(rng);
        let b = self.1.get(rng);
        assert(-16256 <= a as i16 * (b as i16) <= 16384) by (nonlinear_arith)
            requires
                -128 <= a <= 127 && -128 <= b <= 127,
        ;
        let s16: i16 = a as i16 * b as i16;
        if s16 > 127 {
            127
        } else if s16 < -128 {
            -128
        } else {
            s16 as i8
        }
    }
}

/// Truncated division of two oscillators' signals, total: a zero divisor yields 0, and `-128 / -1` wraps.
///
/// Ticks both children each outer tick; its signal is derived purely from
/// the children's current signals.
#[derive(Clone, Copy, Debug)]
pub struct Div<A, B>(pub A, pub B);

impl<A, B> Div<A, B> {
    /// Combine two oscillators.
    pub fn new(a: A, b: B) -> (r: Div<A, B>)
        ensures
            r.0 == a,
            r.1 == b,
    {
        Div(a, b)
    }
}

impl<A: Oscillator, B: Oscillator> Oscillator for Div<A, B> {
    open spec fn wf(&self) -> bool {
        self.0.wf() && self.1.wf()
    }

    open spec fn value(&self, s: u16) -> i8 {
        let x = self.0.value(s);
        let y = self.1.value(self.0.state_after_get(s));
        spec_div_i8(x, y)
    }

    open spec fn state_after_get(&self, s: u16) -> u16 {
        self.1.state_after_get(self.0.state_after_get(s))
    }

    open spec fn stepped(&self, s: u16) -> Self {
        Div(self.0.stepped(s), self.1.stepped(self.0.state_after_tick(s)))
    }

    open spec fn state_after_tick(&self, s: u16) -> u16 {
        self.1.state_after_tick(self.0.state_after_tick(s))
    }

    fn tick(&mut self, rng: &mut Rand) {
        self.0.tick(rng);
        self.1.tick(rng);
    }

    fn get(&self, rng: &mut Rand) -> (v: Value) {
        let a = self.0.get(rng);
        let b = self.1.get(rng);
        div_signal(a, b)
    }
}

/// Truncated division of two oscillators' signals, total and saturating: a zero divisor yields 0, and `-128 / -1` saturates to 127.
///
/// Ticks both children each outer tick; its signal is derived purely from
/// the children's current signals.
#[derive(Clone, Copy, Debug)]
pub struct SaturatingDiv<A, B>(pub A, pub B);

impl<A, B> SaturatingDiv<A, B> {
    /// Combine two oscillators.
    pub fn new(a: A, b: B) -> (r: SaturatingDiv<A, B>)
        ensures
            r.0 == a,
            r.1 == b,
    {
        SaturatingDiv(a, b)
    }
}

impl<A: Oscillator, B: Oscillator> Oscillator for SaturatingDiv<A, B> {
    open spec fn wf(&self) -> bool {
        self.0.wf() && self.1.wf()
    }

    open spec fn value(&self, s: u16) -> i8 {
        let x = self.0.value(s);
        let y = self.1.value(self.0.state_after_get(s));
        spec_sat_div_i8(x, y)
    }

    open spec fn state_after_get(&self, s: u16) -> u16 {
        self.1.state_after_get(self.0.state_after_get(s))
    }

    open spec fn stepped(&self, s: u16) -> Self {
        SaturatingDiv(self.0.stepped(s), self.1.stepped(self.0.state_after_tick(s)))
    }

    open spec fn state_after_tick(&self, s: u16) -> u16 {
        self.1.state_after_tick(self.0.state_after_tick(s))
    }

    fn tick(&mut self, rng: &mut Rand) {
        self.0.tick(rng);
        self.1.tick(rng);
    }

    fn get(&self, rng: &mut Rand) -> (v: Value) {
        let a = self.0.get(rng);
        let b = self.1.get(rng);
        if a == -128 && b == -1 {
            127
        } else {
            div_signal(a, b)
        }
    }
}

/// Remainder of the two oscillators' signals under truncated division, total: a zero divisor yields 0.
///
/// Ticks both children each outer tick; its signal is derived purely from
/// the children's current signals.
#[derive(Clone, Copy, Debug)]
pub struct Rem<A, B>(pub A, pub B);

impl<A, B> Rem<A, B> {
    /// Combine two oscillators.
    pub fn new(a: A, b: B) -> (r: Rem<A, B>)
        ensures
            r.0 == a,
            r.1 == b,
    {
        Rem(a, b)
    }
}

impl<A: Oscillator, B: Oscillator> Oscillator for Rem<A, B> {
    open spec fn wf(&self) -> bool {
        self.0.wf() && self.1.wf()
    }

    open spec fn value(&self, s: u16) -> i8 {
        let x = self.0.value(s);
        let y = self.1.value(self.0.state_after_get(s));
        spec_rem_i8(x, y)
    }

    open spec fn state_after_get(&self, s: u16) -> u16 {
        self.1.state_after_get(self.0.state_after_get(s))
    }

    open spec fn stepped(&self, s: u16) -> Self {
        Rem(self.0.stepped(s), self.1.stepped(self.0.state_after_tick(s)))
    }

    open spec fn state_after_tick(&self, s: u16) -> u16 {
        self.1.state_after_tick(self.0.state_after_tick(s))
    }

    fn tick(&mut self, rng: &mut Rand) {
        self.0.tick(rng);
        self.1.tick(rng);
    }

    fn get(&self, rng: &mut Rand) -> (v: Value) {
        let a = self.0.get(rng);
        let b = self.1.get(rng);
        rem_signal(a, b)
    }
}

/// The greater of two oscillators' signals.
///
/// Ticks both children each outer tick; its signal is derived purely from
/// the children's current signals.
#[derive(Clone, Copy, Debug)]
pub struct Max<A, B>(pub A, pub B);

impl<A, B> Max<A, B> {
    /// Combine two oscillators.
    pub fn new(a: A, b: B) -> (r: Max<A, B>)
        ensures
            r.0 == a,
            r.1 == b,
    {
        Max(a, b)
    }
}

impl<A: Oscillator, B: Oscillator> Oscillator for Max<A, B> {
    open spec fn wf(&self) -> bool {
        self.0.wf() && self.1.wf()
    }

    open spec fn value(&self, s: u16) -> i8 {
        let x = self.0.value(s);
        let y = self.1.value(self.0.state_after_get(s));
        if x > y {
            x
        } else {
            y
        }
    }

    open spec fn state_after_get(&self, s: u16) -> u16 {
        self.1.state_after_get(self.0.state_after_get(s))
    }

    open spec fn stepped(&self, s: u16) -> Self {
        Max(self.0.stepped(s), self.1.stepped(self.0.state_after_tick(s)))
    }

    open spec fn state_after_tick(&self, s: u16) -> u16 {
        self.1.state_after_tick(self.0.state_after_tick(s))
    }

    fn tick(&mut self, rng: &mut Rand) {
        self.0.tick(rng);
        self.1.tick(rng);
    }

    fn get(&self, rng: &mut Rand) -> (v: Value) {
        let a = self.0.get(rng);
        let b = self.1.get(rng);
        if a > b {
            a
        } else {
            b
        }
    }
}

/// The lesser of two oscillators' signals.
///
/// Ticks both children each outer tick; its signal is derived purely from
/// the children's current signals.
#[derive(Clone, Copy, Debug)]
pub struct Min<A, B>(pub A, pub B);

impl<A, B> Min<A, B> {
    /// Combine two oscillators.
    pub fn new(a: A, b: B) -> (r: Min<A, B>)
        ensures
            r.0 == a,
            r.1 == b,
    {
        Min(a, b)
    }
}

impl<A: Oscillator, B: Oscillator> Oscillator for Min<A, B> {
    open spec fn wf(&self) -> bool {
        self.0.wf() && self.1.wf()
    }

    open spec fn value(&self, s: u16) -> i8 {
        let x = self.0.value(s);
        let y = self.1.value(self.0.state_after_get(s));
        if x < y {
            x
        } else {
            y
        }
    }

    open spec fn state_after_get(&self, s: u16) -> u16 {
        self.1.state_after_get(self.0.state_after_get(s))
    }

    open spec fn stepped(&self, s: u16) -> Self {
        Min(self.0.stepped(s), self.1.stepped(self.0.state_after_tick(s)))
    }

    open spec fn state_after_tick(&self, s: u16) -> u16 {
        self.1.state_after_tick(self.0.state_after_tick(s))
    }

    fn tick(&mut self, rng: &mut Rand) {
        self.0.tick(rng);
        self.1.tick(rng);
    }

    fn get(&self, rng: &mut Rand) -> (v: Value) {
        let a = self.0.get(rng);
        let b = self.1.get(rng);
        if a < b {
            a
        } else {
            b
        }
    }
}

} // verus!
