//! Traveling "comet" streaks: bit-packed fixed-point state, a spawner that
//! overlays up to eight streaks on an inner pattern, and a single circular
//! streak specialization for the arcs.

use crate::color::Hsv;
use crate::osc;
use crate::osc::Oscillator as OscNode;
use crate::pattern::Index;
use crate::pattern::Pattern;
use crate::rand::Rand;
use crate::slotmap::SlotMap;
use crate::slotmap::slot_bit;
use vstd::prelude::*;

verus! {

/// A streak's state in two bytes: a 7.1 fixed-point head position (7 integer
/// bits, 1 fractional bit), and a second byte packing a 5-bit length with a
/// 3-bit velocity code.
#[derive(Clone, Copy, Debug, PartialEq, Eq, Structural)]
pub struct StreakState {
    /// Head position in 7.1 fixed point.
    pub pos: u8,
    /// Length (high 5 bits) packed with the velocity code (low 3 bits).
    pub len_vel: u8,
}

impl Default for StreakState {
    /// A streak at position 0 with length 0 and velocity code 0.
    fn default() -> (r: Self)
        ensures
            r.spec_position_fixed() == 0,
            r.spec_length() == 0,
            r.spec_velocity() == 0,
    {
        StreakState { pos: 0, len_vel: 0 }
    }
}

impl StreakState {
    /// The head position in 7.1 fixed point.
    pub open spec fn spec_position_fixed(&self) -> u8 {
        self.pos
    }

    /// The integer part of the head position.
    pub open spec fn spec_position(&self) -> u8 {
        (self.spec_position_fixed() / 2) as u8
    }

    /// The streak length, 0 to 31.
    pub open spec fn spec_length(&self) -> u8 {
        self.len_vel / 8
    }

    /// The velocity code, 0 to 7.
    pub open spec fn spec_velocity(&self) -> u8 {
        self.len_vel % 8
    }

    /// The state after one tick: the head advances by the velocity
    /// multiplier, saturating at the top of the 7.1 range.
    pub open spec fn spec_tick(&self) -> StreakState {
        StreakState {
            pos: if self.spec_position_fixed() + spec_velocity_multiplier(self.spec_velocity())
                > 255 {
                255u8
            } else {
                (self.spec_position_fixed() + spec_velocity_multiplier(self.spec_velocity())) as u8
            },
            len_vel: self.len_vel,
        }
    }

    /// Create a streak at position 0 with the given length (5 bits) and
    /// velocity code (3 bits).
    pub fn new(length: u8, velocity: u8) -> (r: StreakState)
        requires
            length <= 31,
            velocity <= 7,
        ensures
            r.spec_position_fixed() == 0,
            r.spec_position() == 0,
            r.spec_length() == length,
            r.spec_velocity() == velocity,
    {
        StreakState { pos: 0, len_vel: length * 8 + velocity }
    }

    /// The head position in 7.1 fixed point.
    pub fn position_fixed(&self) -> (r: u8)
        ensures
            r == self.spec_position_fixed(),
    {
        self.pos
    }

    /// Set the head position, in 7.1 fixed point.
    pub fn set_position(&mut self, pos: u8)
        ensures
            final(self).spec_position_fixed() == pos,
            final(self).spec_length() == old(self).spec_length(),
            final(self).spec_velocity() == old(self).spec_velocity(),
    {
        self.pos = pos;
    }

    /// The integer part of the head position, 0 to 127.
    pub fn position(&self) -> (r: u8)
        ensures
            r == self.spec_position(),
    {
        self.pos / 2
    }

    /// The streak length, 0 to 31.
    pub fn length(&self) -> (r: u8)
        ensures
            r == self.spec_length(),
            r <= 31,
    {
        self.len_vel / 8
    }

    /// The velocity code, 0 to 7.
    pub fn velocity_multiplier(&self) -> (r: u8)
        ensures
            r == self.spec_velocity(),
            r <= 7,
    {
        self.len_vel % 8
    }

    /// Advance the head by the velocity multiplier, saturating at the top of
    /// the 7.1 range.
    pub fn tick(&mut self)
        ensures
            *final(self) == old(self).spec_tick(),
    {
        let vel_mult = velocity_to_multiplier(self.velocity_multiplier());
        let new_pos = if self.pos > 255 - vel_mult {
            255
        } else {
            self.pos + vel_mult
        };
        self.set_position(new_pos);
    }
}

/// Quantize a signal to 5 bits: shift it into `0..=255` and divide by 8,
/// giving `0..=31`.
pub open spec fn spec_map_i8_to_5bit(value: i8) -> u8 {
    (osc::i8_as_u8(value).wrapping_add(128) / 8) as u8
}

/// Quantize a signal to 3 bits: shift it into `0..=255` and divide by 32,
/// giving `0..=7`.
pub open spec fn spec_map_i8_to_3bit(value: i8) -> u8 {
    (osc::i8_as_u8(value).wrapping_add(128) / 32) as u8
}

/// The 7.1 fixed-point per-tick increment a velocity code selects:
/// `1 + code * 3 / 7`, mapping codes 0 to 7 linearly onto increments 1 to 4
/// (half to double the base rate).
pub open spec fn spec_velocity_multiplier(code: u8) -> u8 {
    (1 + (code as int) * 3 / 7) as u8
}

/// Quantize a signal to a 5-bit streak length.
pub fn map_i8_to_5bit(value: i8) -> (r: u8)
    ensures
        r == spec_map_i8_to_5bit(value),
        r <= 31,
{
    let shifted = osc::signal_to_u8(value).wrapping_add(128);
    let r = shifted / 8;
    if r > 31 {
        31
    } else {
        r
    }
}

/// Quantize a signal to a 3-bit velocity code.
pub fn map_i8_to_3bit(value: i8) -> (r: u8)
    ensures
        r == spec_map_i8_to_3bit(value),
        r <= 7,
{
    let shifted = osc::signal_to_u8(value).wrapping_add(128);
    let r = shifted / 32;
    if r > 7 {
        7
    } else {
        r
    }
}

/// The 7.1 fixed-point per-tick increment for a velocity code, 1 to 4.
pub fn velocity_to_multiplier(velocity_3bit: u8) -> (r: u8)
    requires
        velocity_3bit <= 7,
    ensures
        r == spec_velocity_multiplier(velocity_3bit),
        1 <= r <= 4,
{
    1 + (velocity_3bit * 3) / 7
}

/// The falloff brightness a single streak contributes to the LED at integer
/// position `led`: 255 at the head, decreasing linearly to 0 over `length`
/// positions behind it, 0 outside that span.
pub open spec fn spec_streak_brightness(st: StreakState, led: u8) -> u8 {
    let head = st.spec_position();
    let length = st.spec_length();
    if head == led {
        255u8
    } else if head > led && head - led <= length {
        (((length - (head - led)) * 255) / (length as int)) as u8
    } else {
        0u8
    }
}

/// The brightness of the LED at integer position `led` under the streaks in
/// the occupied slots below `n`: the maximum single-streak contribution, or 0
/// when no streak covers the LED.
pub open spec fn spec_max_brightness(mask: u8, vals: Seq<StreakState>, led: u8, n: nat) -> u8
    decreases n,
{
    if n == 0 {
        0u8
    } else {
        let rest = spec_max_brightness(mask, vals, led, (n - 1) as nat);
        let here = if slot_bit(mask, (n - 1) as u8) {
            spec_streak_brightness(vals[n - 1], led)
        } else {
            0u8
        };
        if here > rest {
            here
        } else {
            rest
        }
    }
}

/// The falloff brightness one streak contributes to an LED.
fn streak_brightness(st: &StreakState, led: u8) -> (r: u8)
    ensures
        r == spec_streak_brightness(*st, led),
{
    let head = st.position();
    let length = st.length();
    if head == led {
        return 255;
    }
    if head > led && head - led <= length {
        let distance = head - led;
        let wide = (length - distance) as u16 * 255;
        proof {
            assert((length - distance) * 255 / (length as int) <= 255) by (nonlinear_arith)
                requires
                    1 <= distance <= length <= 31,
            ;
        }
        (wide / length as u16) as u8
    } else {
        0
    }
}

/// Whether a streak, after advancing, is still visible within a strip of
/// `total` LEDs: its tail (head minus length, not below zero) has not left
/// the strip.
pub open spec fn streak_survives(st: StreakState, total: u8) -> bool {
    (if st.spec_position() > st.spec_length() {
        st.spec_position() - st.spec_length()
    } else {
        0int
    }) < total
}

/// Every streak stored in an occupied slot has a strictly positive length:
/// a spawn that quantizes to length zero is discarded, never stored.
pub open spec fn live_lengths_positive(mask: u8, vals: Seq<StreakState>) -> bool {
    forall|i: u8|
        i < 8 && #[trigger] slot_bit(mask, i) ==> vals[i as int].spec_length() >= 1
}

/// Law: a linear streak's head never moves backward; one tick advances the
/// 7.1 fixed-point position by the velocity multiplier, saturating at the
/// top of the range, and leaves length and velocity untouched.
pub proof fn lemma_streak_head_monotonic(st: StreakState)
    ensures
        st.spec_tick().spec_position_fixed() >= st.spec_position_fixed(),
        st.spec_tick().spec_position() >= st.spec_position(),
        st.spec_tick().spec_length() == st.spec_length(),
        st.spec_tick().spec_velocity() == st.spec_velocity(),
{
}

/// Overlays traveling streaks on an inner pattern.
///
/// Each tick: every oscillator and the inner pattern advance; a new streak
/// spawns when the spawn oscillator's signal is strictly positive and a slot
/// is free, with its length and velocity quantized from the length and
/// velocity oscillators (a zero quantized length silently aborts the spawn,
/// consuming no slot); then every live streak advances and is culled once its
/// tail passes the re-sampled total-length oscillator's value. Color queries
/// answer the inner pattern's color with the value channel replaced by the
/// streak falloff brightness.
pub struct StreakSpawner<Spawner, Length, Velocity, TotalLeds, Inner> where
    Spawner: OscNode,
    Length: OscNode,
    Velocity: OscNode,
    TotalLeds: OscNode,
    Inner: Pattern,
 {
    pub spawner: Spawner,
    pub length: Length,
    pub velocity: Velocity,
    pub total_leds: TotalLeds,
    pub inner: Inner,
    pub streaks: SlotMap<StreakState, Vec<StreakState>, 8>,
}

impl<Spawner, Length, Velocity, TotalLeds, Inner> StreakSpawner<
    Spawner,
    Length,
    Velocity,
    TotalLeds,
    Inner,
> where
    Spawner: OscNode,
    Length: OscNode,
    Velocity: OscNode,
    TotalLeds: OscNode,
    Inner: Pattern,
 {
    /// Create a spawner over an inner pattern, with the given backing slots
    /// (eight of them) all unoccupied.
    pub fn new(
        spawner: Spawner,
        length: Length,
        velocity: Velocity,
        total_leds: TotalLeds,
        inner: Inner,
        streaks: Vec<StreakState>,
    ) -> (r: StreakSpawner<Spawner, Length, Velocity, TotalLeds, Inner>)
        requires
            streaks@.len() == 8,
        ensures
            r.spawner == spawner,
            r.length == length,
            r.velocity == velocity,
            r.total_leds == total_leds,
            r.inner == inner,
            r.streaks.occupied_mask() == 0,
            r.streaks.values() == streaks@,
            spawner.wf() && length.wf() && velocity.wf() && total_leds.wf() && inner.wf()
                ==> r.wf(),
    {
        StreakSpawner {
            spawner,
            length,
            velocity,
            total_leds,
            inner,
            streaks: SlotMap::new(streaks),
        }
    }

    /// The slotmap occupancy, the slot values, the sampled total strip
    /// length, and the generator state, all as they stand after the tick's
    /// spawn phase and before its cull phase, when the tick starts from
    /// generator state `s`.
    pub open spec fn pre_cull(&self, s: u16) -> (u8, Seq<StreakState>, u8, u16) {
        let sp1 = self.spawner.stepped(s);
        let s1 = self.spawner.state_after_tick(s);
        let l1 = self.length.stepped(s1);
        let s2 = self.length.state_after_tick(s1);
        let v1 = self.velocity.stepped(s2);
        let s3 = self.velocity.state_after_tick(s2);
        let t1 = self.total_leds.stepped(s3);
        let s4 = self.total_leds.state_after_tick(s3);
        let s5 = self.inner.state_after_tick(s4);
        let spval = sp1.value(s5);
        let s6 = sp1.state_after_get(s5);
        let mask = self.streaks.occupied_mask();
        let vals = self.streaks.values();
        if spval > 0 && !self.streaks.spec_is_full() {
            let lv = spec_map_i8_to_5bit(l1.value(s6));
            let s7 = l1.state_after_get(s6);
            if lv > 0 {
                let vv = spec_map_i8_to_3bit(v1.value(s7));
                let s8 = v1.state_after_get(s7);
                let ff = self.streaks.spec_first_free().unwrap();
                let nm = mask | (1u8 << ff);
                let nv = vals.update(ff as int, StreakState { pos: 0, len_vel: (lv * 8 + vv) as u8 });
                (nm, nv, osc::i8_as_u8(t1.value(s8)), t1.state_after_get(s8))
            } else {
                (mask, vals, osc::i8_as_u8(t1.value(s7)), t1.state_after_get(s7))
            }
        } else {
            (mask, vals, osc::i8_as_u8(t1.value(s6)), t1.state_after_get(s6))
        }
    }

    /// The streak falloff brightness at an integer LED position: the maximum
    /// over the live streaks, 0 when none covers the LED.
    fn calculate_streak_brightness(&self, led: Index) -> (r: u8)
        requires
            self.streaks.inv(),
        ensures
            r == spec_max_brightness(
                self.streaks.occupied_mask(),
                self.streaks.values(),
                led.index,
                8,
            ),
    {
        let mut max_brightness: u8 = 0;
        let mut i: u8 = 0;
        while i < 8
            invariant
                self.streaks.inv(),
                i <= 8,
                max_brightness == spec_max_brightness(
                    self.streaks.occupied_mask(),
                    self.streaks.values(),
                    led.index,
                    i as nat,
                ),
            decreases 8 - i,
        {
            if self.streaks.occupied(i) {
                let b = streak_brightness(self.streaks.get(i), led.index);
                if b > max_brightness {
                    max_brightness = b;
                }
            }
            i = i + 1;
        }
        max_brightness
    }

    /// Replace a color's value channel with the streak brightness at `led`.
    fn calculate_streak_color(&self, color: Hsv, led: Index) -> (c: Hsv)
        requires
            self.streaks.inv(),
        ensures
            c == (Hsv {
                h: color.h,
                s: color.s,
                v: spec_max_brightness(
                    self.streaks.occupied_mask(),
                    self.streaks.values(),
                    led.index,
                    8,
                ),
            }),
    {
        let brightness = self.calculate_streak_brightness(led);
        Hsv { h: color.h, s: color.s, v: brightness }
    }


    /// The spawn oscillator's signal as the tick samples it, after all the
    /// frame's oscillator and inner-pattern ticks.
    pub open spec fn spawn_signal(&self, s: u16) -> i8 {
        let sp1 = self.spawner.stepped(s);
        let s1 = self.spawner.state_after_tick(s);
        let s2 = self.length.state_after_tick(s1);
        let s3 = self.velocity.state_after_tick(s2);
        let s4 = self.total_leds.state_after_tick(s3);
        let s5 = self.inner.state_after_tick(s4);
        sp1.value(s5)
    }

    /// The quantized streak length a triggering tick would store, sampled
    /// from the length oscillator after the spawn signal.
    pub open spec fn spawn_length(&self, s: u16) -> u8 {
        let sp1 = self.spawner.stepped(s);
        let s1 = self.spawner.state_after_tick(s);
        let l1 = self.length.stepped(s1);
        let s2 = self.length.state_after_tick(s1);
        let s3 = self.velocity.state_after_tick(s2);
        let s4 = self.total_leds.state_after_tick(s3);
        let s5 = self.inner.state_after_tick(s4);
        let s6 = sp1.state_after_get(s5);
        spec_map_i8_to_5bit(l1.value(s6))
    }

    /// The quantized velocity code a triggering tick would store, sampled
    /// from the velocity oscillator after the length.
    pub open spec fn spawn_velocity(&self, s: u16) -> u8 {
        let sp1 = self.spawner.stepped(s);
        let s1 = self.spawner.state_after_tick(s);
        let l1 = self.length.stepped(s1);
        let s2 = self.length.state_after_tick(s1);
        let v1 = self.velocity.stepped(s2);
        let s3 = self.velocity.state_after_tick(s2);
        let s4 = self.total_leds.state_after_tick(s3);
        let s5 = self.inner.state_after_tick(s4);
        let s6 = sp1.state_after_get(s5);
        let s7 = l1.state_after_get(s6);
        spec_map_i8_to_3bit(v1.value(s7))
    }

    /// Law: the spawn trigger. On a tick whose spawn signal is strictly
    /// positive and whose quantized length is nonzero, starting from an
    /// empty allocator, exactly one streak enters the spawn phase: slot 0
    /// (the lowest free slot), fresh at position 0 with the sampled length
    /// and velocity. No other slot is touched.
    pub proof fn lemma_spawn_on_trigger(self, s: u16)
        requires
            self.wf(),
            self.streaks.occupied_mask() == 0,
            self.spawn_signal(s) > 0,
            self.spawn_length(s) >= 1,
        ensures
            slot_bit(self.pre_cull(s).0, 0),
            forall|j: u8| 0 < j < 8 ==> !(#[trigger] slot_bit(self.pre_cull(s).0, j)),
            self.pre_cull(s).1[0].spec_position_fixed() == 0,
            self.pre_cull(s).1[0].spec_length() == self.spawn_length(s),
            self.pre_cull(s).1[0].spec_velocity() == self.spawn_velocity(s),
    {
        assert(!slot_bit(0u8, 0u8)) by (bit_vector);
        assert(!self.streaks.spec_is_full());
        assert(self.streaks.spec_first_free() == Some(0u8));
        let lv = self.spawn_length(s);
        let vv = self.spawn_velocity(s);
        assert(vv <= 7);
        assert(forall|j: u8|
            j < 8 ==> #[trigger] slot_bit(0u8 | (1u8 << 0u8), j) == (j == 0)) by (bit_vector);
        assert((lv * 8 + vv) / 8 == lv && (lv * 8 + vv) % 8 == vv);
    }

    /// Law: streak lifecycle over one tick. A streak standing in slot `i`
    /// after the spawn phase (a live one, or the one just spawned into the
    /// lowest free slot) is advanced once and then kept exactly as long as
    /// its tail is still inside the strip: it is culled on precisely the
    /// tick where its advanced integer head minus its length reaches the
    /// total-length oscillator's sampled value.
    pub proof fn lemma_cull_exact(self, s: u16, post: Self, i: u8)
        requires
            self.ticked(s, post),
            i < 8,
        ensures
            slot_bit(post.streaks.occupied_mask(), i) <==> {
                let moved = self.pre_cull(s).1[i as int].spec_tick();
                let total = self.pre_cull(s).2;
                let tail = if moved.spec_position() > moved.spec_length() {
                    moved.spec_position() - moved.spec_length()
                } else {
                    0int
                };
                slot_bit(self.pre_cull(s).0, i) && tail < total
            },
            slot_bit(self.pre_cull(s).0, i) ==> post.streaks.values()[i as int] == self.pre_cull(
                s,
            ).1[i as int].spec_tick(),
    {
    }
}

impl<Spawner, Length, Velocity, TotalLeds, Inner> Pattern for StreakSpawner<
    Spawner,
    Length,
    Velocity,
    TotalLeds,
    Inner,
> where
    Spawner: OscNode,
    Length: OscNode,
    Velocity: OscNode,
    TotalLeds: OscNode,
    Inner: Pattern,
 {
    open spec fn wf(&self) -> bool {
        &&& self.spawner.wf()
        &&& self.length.wf()
        &&& self.velocity.wf()
        &&& self.total_leds.wf()
        &&& self.inner.wf()
        &&& self.streaks.inv()
        &&& self.streaks.values().len() == 8
        &&& live_lengths_positive(self.streaks.occupied_mask(), self.streaks.values())
    }

    open spec fn spine_ok(&self, spine: Index, led: Index) -> bool {
        self.inner.spine_ok(spine, led)
    }

    open spec fn tip_ok(&self, spine: Index, led: Index) -> bool {
        self.inner.tip_ok(spine, led)
    }

    open spec fn arc_ok(&self, arc: Index, led: Index) -> bool {
        self.inner.arc_ok(arc, led)
    }

    open spec fn spine_q(&self, spine: Index, led: Index, s: u16) -> (Hsv, u16) {
        let iq = self.inner.spine_q(spine, led, s);
        (
            Hsv {
                h: iq.0.h,
                s: iq.0.s,
                v: spec_max_brightness(
                    self.streaks.occupied_mask(),
                    self.streaks.values(),
                    led.index,
                    8,
                ),
            },
            iq.1,
        )
    }

    open spec fn tip_q(&self, spine: Index, led: Index, s: u16) -> (Hsv, u16) {
        let iq = self.inner.tip_q(spine, led, s);
        (
            Hsv {
                h: iq.0.h,
                s: iq.0.s,
                v: spec_max_brightness(
                    self.streaks.occupied_mask(),
                    self.streaks.values(),
                    led.index,
                    8,
                ),
            },
            iq.1,
        )
    }

    open spec fn arc_q(&self, arc: Index, led: Index, s: u16) -> (Hsv, u16) {
        let iq = self.inner.arc_q(arc, led, s);
        (
            Hsv {
                h: iq.0.h,
                s: iq.0.s,
                v: spec_max_brightness(
                    self.streaks.occupied_mask(),
                    self.streaks.values(),
                    led.index,
                    8,
                ),
            },
            iq.1,
        )
    }

    open spec fn ticked(&self, s: u16, post: Self) -> bool {
        let s1 = self.spawner.state_after_tick(s);
        let s2 = self.length.state_after_tick(s1);
        let s3 = self.velocity.state_after_tick(s2);
        let s4 = self.total_leds.state_after_tick(s3);
        let pc = self.pre_cull(s);
        &&& post.spawner == self.spawner.stepped(s)
        &&& post.length == self.length.stepped(s1)
        &&& post.velocity == self.velocity.stepped(s2)
        &&& post.total_leds == self.total_leds.stepped(s3)
        &&& self.inner.ticked(s4, post.inner)
        &&& post.streaks.values().len() == 8
        &&& forall|i: u8|
            i < 8 ==> #[trigger] slot_bit(post.streaks.occupied_mask(), i) == (slot_bit(pc.0, i)
                && streak_survives(pc.1[i as int].spec_tick(), pc.2))
        &&& forall|i: int|
            0 <= i < 8 ==> #[trigger] post.streaks.values()[i] == (if slot_bit(pc.0, i as u8) {
                pc.1[i].spec_tick()
            } else {
                pc.1[i]
            })
    }

    open spec fn state_after_tick(&self, s: u16) -> u16 {
        self.pre_cull(s).3
    }

    proof fn ticked_preserves_queries(&self, s: u16, post: Self, e: Index, led: Index) {
        let s1 = self.spawner.state_after_tick(s);
        let s2 = self.length.state_after_tick(s1);
        let s3 = self.velocity.state_after_tick(s2);
        let s4 = self.total_leds.state_after_tick(s3);
        self.inner.ticked_preserves_queries(s4, post.inner, e, led);
    }

    fn tick(&mut self, rng: &mut Rand) {
        let ghost self0 = *self;
        let ghost s0 = rng.state();
        self.spawner.tick(rng);
        self.length.tick(rng);
        self.velocity.tick(rng);
        self.total_leds.tick(rng);
        self.inner.tick(rng);

        let sp = self.spawner.get(rng);
        if sp > 0 && !self.streaks.is_full() {
            let len5 = map_i8_to_5bit(self.length.get(rng));
            if len5 > 0 {
                let vel3 = map_i8_to_3bit(self.velocity.get(rng));
                let st = StreakState::new(len5, vel3);
                self.streaks.insert(st);
            }
        }
        let total = osc::signal_to_u8(self.total_leds.get(rng));
        proof {
            assert(self.streaks.values() =~= self0.pre_cull(s0).1);
            assert(self.streaks.occupied_mask() == self0.pre_cull(s0).0);
            assert(total == self0.pre_cull(s0).2);
            assert(rng.state() == self0.pre_cull(s0).3);
        }

        let ghost mid = *self;
        let ghost mask_a = self0.pre_cull(s0).0;
        let ghost vals_a = self0.pre_cull(s0).1;
        let mut i: u8 = 0;
        while i < 8
            invariant
                self.streaks.inv(),
                self.streaks.values().len() == 8,
                vals_a.len() == 8,
                i <= 8,
                total == self0.pre_cull(s0).2,
                self.spawner == mid.spawner,
                self.length == mid.length,
                self.velocity == mid.velocity,
                self.total_leds == mid.total_leds,
                self.inner == mid.inner,
                rng.state() == self0.pre_cull(s0).3,
                forall|j: u8|
                    i <= j < 8 ==> #[trigger] slot_bit(self.streaks.occupied_mask(), j) == slot_bit(
                        mask_a,
                        j,
                    ),
                forall|j: int| i <= j < 8 ==> #[trigger] self.streaks.values()[j] == vals_a[j],
                forall|j: u8|
                    j < i ==> #[trigger] slot_bit(self.streaks.occupied_mask(), j) == (slot_bit(
                        mask_a,
                        j,
                    ) && streak_survives(vals_a[j as int].spec_tick(), total)),
                forall|j: int|
                    0 <= j < i ==> #[trigger] self.streaks.values()[j] == (if slot_bit(
                        mask_a,
                        j as u8,
                    ) {
                        vals_a[j].spec_tick()
                    } else {
                        vals_a[j]
                    }),
            decreases 8 - i,
        {
            if self.streaks.occupied(i) {
                let mut st = *self.streaks.get(i);
                st.tick();
                self.streaks.set(i, st);
                let head = st.position();
                let len = st.length();
                let tail = if head > len {
                    head - len
                } else {
                    0
                };
                if !(tail < total) {
                    self.streaks.remove(i);
                }
            }
            i = i + 1;
        }
    }

    fn spine_color_at(&self, spine: Index, led: Index, rng: &mut Rand) -> (c: Hsv) {
        let base = self.inner.spine_color_at(spine, led, rng);
        self.calculate_streak_color(base, led)
    }

    fn spine_tip_color_at(&self, spine: Index, led: Index, rng: &mut Rand) -> (c: Hsv) {
        let base = self.inner.spine_tip_color_at(spine, led, rng);
        self.calculate_streak_color(base, led)
    }

    fn arc_color_at(&self, arc: Index, led: Index, rng: &mut Rand) -> (c: Hsv) {
        let base = self.inner.arc_color_at(arc, led, rng);
        self.calculate_streak_color(base, led)
    }
}


/// The wraparound distance from a streak head to an LED over a circular
/// strip of `total` positions: straight when the head is at or ahead of the
/// LED, else wrapping past the end of the strip.
pub open spec fn spec_arc_distance(head: u8, led: u8, total: u8) -> int {
    if head >= led {
        head - led
    } else {
        (total - led) + head
    }
}

/// A single circular streak traveling over the arcs, with `TOTAL_ARCS` arcs
/// of `ARC_LEN` LEDs each. Its 7.1 fixed-point position wraps modulo the
/// total fixed-point arc length; spine and tip queries answer black, arc
/// queries the inner pattern's color with the value channel replaced by the
/// wraparound falloff.
pub struct ArcStreak<Length, Velocity, Inner, const ARC_LEN: u8, const TOTAL_ARCS: u8> where
    Length: OscNode,
    Velocity: OscNode,
    Inner: Pattern,
 {
    /// Head position in 7.1 fixed point, always below the fixed-point total.
    pub position: u8,
    pub length: Length,
    pub velocity: Velocity,
    pub inner: Inner,
}

impl<Length, Velocity, Inner, const ARC_LEN: u8, const TOTAL_ARCS: u8> ArcStreak<
    Length,
    Velocity,
    Inner,
    ARC_LEN,
    TOTAL_ARCS,
> where Length: OscNode, Velocity: OscNode, Inner: Pattern {
    /// The circular strip's dimensions fit the 7.1 fixed-point byte: at
    /// least one arc of at least one LED, and twice the total LED count at
    /// most 255.
    pub open spec fn dims_ok() -> bool {
        &&& ARC_LEN >= 1
        &&& TOTAL_ARCS >= 1
        &&& 2 * Self::spec_total_leds() <= 255
    }

    /// The total LED count of the circular strip.
    pub open spec fn spec_total_leds() -> int {
        (ARC_LEN as int) * (TOTAL_ARCS as int)
    }

    /// The integer LED position of the streak head.
    pub open spec fn spec_head_global(&self) -> u8 {
        (self.position / 2) as u8
    }

    /// Create an arc streak at position 0.
    pub fn new(length: Length, velocity: Velocity, inner: Inner) -> (r: ArcStreak<
        Length,
        Velocity,
        Inner,
        ARC_LEN,
        TOTAL_ARCS,
    >)
        requires
            Self::dims_ok(),
        ensures
            r.position == 0,
            r.length == length,
            r.velocity == velocity,
            r.inner == inner,
            length.wf() && velocity.wf() && inner.wf() ==> r.wf(),
    {
        proof {
            assert((ARC_LEN as int) * (TOTAL_ARCS as int) >= 1) by (nonlinear_arith)
                requires
                    ARC_LEN >= 1 && TOTAL_ARCS >= 1,
            ;
        }
        ArcStreak { position: 0, length, velocity, inner }
    }

    /// The total LED count of the circular strip.
    fn total_leds() -> (r: u8)
        requires
            Self::dims_ok(),
        ensures
            r as int == Self::spec_total_leds(),
            r >= 1,
    {
        proof {
            assert((ARC_LEN as int) * (TOTAL_ARCS as int) >= 1) by (nonlinear_arith)
                requires
                    ARC_LEN >= 1 && TOTAL_ARCS >= 1,
            ;
        }
        ((ARC_LEN as u16) * (TOTAL_ARCS as u16)) as u8
    }

    /// The total LED count in 7.1 fixed point.
    fn total_led_fixed() -> (r: u8)
        requires
            Self::dims_ok(),
        ensures
            r as int == 2 * Self::spec_total_leds(),
            r >= 2,
    {
        2 * Self::total_leds()
    }

    /// The streak head's arc coordinates: the arc it is on and the LED
    /// within that arc.
    fn head_position(&self) -> (r: (u8, u8))
        requires
            Self::dims_ok(),
            (self.position as int) < 2 * Self::spec_total_leds(),
        ensures
            r.0 as int == self.spec_head_global() as int / ARC_LEN as int,
            r.1 as int == self.spec_head_global() as int % ARC_LEN as int,
            r.0 as int * ARC_LEN as int + r.1 as int == self.spec_head_global() as int,
    {
        let pos_int = self.position / 2;
        proof {
            assert(pos_int / ARC_LEN * ARC_LEN + pos_int % ARC_LEN == pos_int && pos_int / ARC_LEN
                * ARC_LEN <= pos_int) by (nonlinear_arith)
                requires
                    ARC_LEN >= 1,
            ;
        }
        (pos_int / ARC_LEN, pos_int % ARC_LEN)
    }

    /// The global LED index of an arc coordinate.
    fn global_led_index(spine: u8, led: u8) -> (r: u8)
        requires
            spine as int * ARC_LEN as int + led as int <= 255,
        ensures
            r as int == spine as int * ARC_LEN as int + led as int,
    {
        ((spine as u16) * (ARC_LEN as u16) + led as u16) as u8
    }
}

impl<Length, Velocity, Inner, const ARC_LEN: u8, const TOTAL_ARCS: u8> Pattern for ArcStreak<
    Length,
    Velocity,
    Inner,
    ARC_LEN,
    TOTAL_ARCS,
> where Length: OscNode, Velocity: OscNode, Inner: Pattern {
    open spec fn wf(&self) -> bool {
        &&& Self::dims_ok()
        &&& (self.position as int) < 2 * Self::spec_total_leds()
        &&& self.length.wf()
        &&& self.velocity.wf()
        &&& self.inner.wf()
    }

    open spec fn spine_ok(&self, spine: Index, led: Index) -> bool {
        true
    }

    open spec fn tip_ok(&self, spine: Index, led: Index) -> bool {
        true
    }

    open spec fn arc_ok(&self, arc: Index, led: Index) -> bool {
        arc.index < TOTAL_ARCS && led.index < ARC_LEN && self.inner.arc_ok(arc, led)
    }

    open spec fn spine_q(&self, spine: Index, led: Index, s: u16) -> (Hsv, u16) {
        (Hsv { h: 0, s: 0, v: 0 }, s)
    }

    open spec fn tip_q(&self, spine: Index, led: Index, s: u16) -> (Hsv, u16) {
        (Hsv { h: 0, s: 0, v: 0 }, s)
    }

    open spec fn arc_q(&self, arc: Index, led: Index, s: u16) -> (Hsv, u16) {
        let iq = self.inner.arc_q(arc, led, s);
        let lv = spec_map_i8_to_5bit(self.length.value(iq.1));
        let s2 = self.length.state_after_get(iq.1);
        if lv == 0 {
            (Hsv { h: iq.0.h, s: iq.0.s, v: 0 }, s2)
        } else {
            let led_global = arc.index as int * ARC_LEN as int + led.index as int;
            let d = spec_arc_distance(
                self.spec_head_global(),
                led_global as u8,
                (Self::spec_total_leds()) as u8,
            );
            if d <= lv {
                (Hsv { h: iq.0.h, s: iq.0.s, v: (((lv - d) * 255) / (lv as int)) as u8 }, s2)
            } else {
                (Hsv { h: iq.0.h, s: iq.0.s, v: 0 }, s2)
            }
        }
    }

    open spec fn ticked(&self, s: u16, post: Self) -> bool {
        let s1 = self.length.state_after_tick(s);
        let s2 = self.velocity.state_after_tick(s1);
        let s3 = self.inner.state_after_tick(s2);
        let v1 = self.velocity.stepped(s1);
        let vv = spec_map_i8_to_3bit(v1.value(s3));
        let mult = spec_velocity_multiplier(vv);
        &&& post.length == self.length.stepped(s)
        &&& post.velocity == v1
        &&& self.inner.ticked(s2, post.inner)
        &&& post.position as int == (self.position + mult) % (2 * Self::spec_total_leds())
    }

    open spec fn state_after_tick(&self, s: u16) -> u16 {
        let s1 = self.length.state_after_tick(s);
        let s2 = self.velocity.state_after_tick(s1);
        let s3 = self.inner.state_after_tick(s2);
        let v1 = self.velocity.stepped(s1);
        v1.state_after_get(s3)
    }

    proof fn ticked_preserves_queries(&self, s: u16, post: Self, e: Index, led: Index) {
        let s1 = self.length.state_after_tick(s);
        let s2 = self.velocity.state_after_tick(s1);
        self.inner.ticked_preserves_queries(s2, post.inner, e, led);
    }

    fn tick(&mut self, rng: &mut Rand) {
        self.length.tick(rng);
        self.velocity.tick(rng);
        self.inner.tick(rng);

        let velocity = map_i8_to_3bit(self.velocity.get(rng));
        let vel_mult = velocity_to_multiplier(velocity);
        let new_pos = self.position as u16 + vel_mult as u16;
        self.position = (new_pos % Self::total_led_fixed() as u16) as u8;
    }

    fn spine_color_at(&self, spine: Index, led: Index, rng: &mut Rand) -> (c: Hsv) {
        Hsv::new(0, 0, 0)
    }

    fn spine_tip_color_at(&self, spine: Index, led: Index, rng: &mut Rand) -> (c: Hsv) {
        Hsv::new(0, 0, 0)
    }

    fn arc_color_at(&self, arc: Index, led: Index, rng: &mut Rand) -> (c: Hsv) {
        let mut color = self.inner.arc_color_at(arc, led, rng);

        let length = map_i8_to_5bit(self.length.get(rng));
        if length == 0 {
            color.v = 0;
            return color;
        }

        let (head_spine, head_led) = self.head_position();
        let head_global = Self::global_led_index(head_spine, head_led);
        let led_global = {
            proof {
                assert(arc.index as int * ARC_LEN as int + led.index as int <= (ARC_LEN as int)
                    * (TOTAL_ARCS as int) - 1 && (ARC_LEN as int) * (TOTAL_ARCS as int) <= 127) by (nonlinear_arith)
                    requires
                        arc.index < TOTAL_ARCS && led.index < ARC_LEN && ARC_LEN >= 1 && 2 * (
                        (ARC_LEN as int) * (TOTAL_ARCS as int)) <= 255,
                ;
            }
            Self::global_led_index(arc.index, led.index)
        };
        let total = Self::total_leds();

        let distance = if head_global >= led_global {
            head_global - led_global
        } else {
            (total - led_global) + head_global
        };

        if distance <= length {
            let remaining = length - distance;
            proof {
                assert((remaining as int) * 255 / (length as int) <= 255) by (nonlinear_arith)
                    requires
                        remaining <= length && 1 <= length,
                ;
            }
            let brightness = ((remaining as u16 * 255) / length as u16) as u8;
            color.v = brightness;
        } else {
            color.v = 0;
        }

        color
    }
}

} // verus!
