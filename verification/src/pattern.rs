//! Pattern composition: a tree of color-producing nodes addressed by an
//! entity index (spine or arc) and a within-entity LED index. A pattern is
//! ticked once per frame; between ticks its three color queries answer for
//! spine, spine-tip and arc LEDs.

use crate::color::Hsv;
use crate::osc;
use crate::osc::Oscillator as OscNode;
use crate::rand::Rand;
use vstd::prelude::*;

verus! {

/// A location within an entity: the position, and the entity's total count.
#[derive(Clone, Copy, Debug, PartialEq, Eq, Structural)]
pub struct Index {
    pub index: u8,
    pub total: u8,
}

/// A color-producing node.
///
/// `tick` advances the node's internal oscillators and streaks once per
/// frame; the three queries read a color for one LED and are answered between
/// ticks. The `*_q` spec functions give, for each query, the color returned
/// and the generator state after the call, so a node whose queries leave the
/// generator alone is visibly pure in its contract. The `*_ok` predicates are
/// the query preconditions (an entity index within the node's backing array);
/// the traversal engine is the caller that upholds them.
pub trait Pattern: Sized {
    /// Structural well-formedness, established at construction and preserved
    /// by ticking.
    spec fn wf(&self) -> bool;

    /// Whether a spine query at these indices is in range.
    spec fn spine_ok(&self, spine: Index, led: Index) -> bool;

    /// Whether a tip query at these indices is in range.
    spec fn tip_ok(&self, spine: Index, led: Index) -> bool;

    /// Whether an arc query at these indices is in range.
    spec fn arc_ok(&self, arc: Index, led: Index) -> bool;

    /// The color a spine query returns and the generator state it leaves,
    /// given the generator state it starts from.
    spec fn spine_q(&self, spine: Index, led: Index, s: u16) -> (Hsv, u16);

    /// The color a tip query returns and the generator state it leaves.
    spec fn tip_q(&self, spine: Index, led: Index, s: u16) -> (Hsv, u16);

    /// The color an arc query returns and the generator state it leaves.
    spec fn arc_q(&self, arc: Index, led: Index, s: u16) -> (Hsv, u16);

    /// How one tick transforms the node, given the generator state it starts
    /// from.
    spec fn ticked(&self, s: u16, post: Self) -> bool;

    /// The generator state after one tick.
    spec fn state_after_tick(&self, s: u16) -> u16;

    /// Ticking never changes which queries are in range: the traversal
    /// engine may keep querying the same index ranges frame after frame.
    /// Every implementation proves this of its own `ticked` relation.
    proof fn ticked_preserves_queries(&self, s: u16, post: Self, e: Index, led: Index)
        requires
            self.ticked(s, post),
        ensures
            post.spine_ok(e, led) == self.spine_ok(e, led),
            post.tip_ok(e, led) == self.tip_ok(e, led),
            post.arc_ok(e, led) == self.arc_ok(e, led),
    ;

    /// Advance the node by one frame.
    fn tick(&mut self, rng: &mut Rand)
        requires
            old(self).wf(),
        ensures
            final(self).wf(),
            old(self).ticked(old(rng).state(), *final(self)),
            final(rng).state() == old(self).state_after_tick(old(rng).state()),
    ;

    /// The color of a spine LED, outward or mirrored back.
    fn spine_color_at(&self, spine: Index, led: Index, rng: &mut Rand) -> (c: Hsv)
        requires
            self.wf(),
            self.spine_ok(spine, led),
        ensures
            c == self.spine_q(spine, led, old(rng).state()).0,
            final(rng).state() == self.spine_q(spine, led, old(rng).state()).1,
    ;

    /// The color of a spine-tip LED.
    fn spine_tip_color_at(&self, spine: Index, led: Index, rng: &mut Rand) -> (c: Hsv)
        requires
            self.wf(),
            self.tip_ok(spine, led),
        ensures
            c == self.tip_q(spine, led, old(rng).state()).0,
            final(rng).state() == self.tip_q(spine, led, old(rng).state()).1,
    ;

    /// The color of an arc LED.
    fn arc_color_at(&self, arc: Index, led: Index, rng: &mut Rand) -> (c: Hsv)
        requires
            self.wf(),
            self.arc_ok(arc, led),
        ensures
            c == self.arc_q(arc, led, old(rng).state()).0,
            final(rng).state() == self.arc_q(arc, led, old(rng).state()).1,
    ;
}

/// A constant color is the simplest pattern: every query answers the color
/// itself, and ticking does nothing.
impl Pattern for Hsv {
    open spec fn wf(&self) -> bool {
        true
    }

    open spec fn spine_ok(&self, spine: Index, led: Index) -> bool {
        true
    }

    open spec fn tip_ok(&self, spine: Index, led: Index) -> bool {
        true
    }

    open spec fn arc_ok(&self, arc: Index, led: Index) -> bool {
        true
    }

    open spec fn spine_q(&self, spine: Index, led: Index, s: u16) -> (Hsv, u16) {
        (*self, s)
    }

    open spec fn tip_q(&self, spine: Index, led: Index, s: u16) -> (Hsv, u16) {
        (*self, s)
    }

    open spec fn arc_q(&self, arc: Index, led: Index, s: u16) -> (Hsv, u16) {
        (*self, s)
    }

    open spec fn ticked(&self, s: u16, post: Self) -> bool {
        post == *self
    }

    open spec fn state_after_tick(&self, s: u16) -> u16 {
        s
    }

    proof fn ticked_preserves_queries(&self, s: u16, post: Self, e: Index, led: Index) {
    }

    fn tick(&mut self, rng: &mut Rand) {
    }

    fn spine_color_at(&self, spine: Index, led: Index, rng: &mut Rand) -> (c: Hsv) {
        *self
    }

    fn spine_tip_color_at(&self, spine: Index, led: Index, rng: &mut Rand) -> (c: Hsv) {
        *self
    }

    fn arc_color_at(&self, arc: Index, led: Index, rng: &mut Rand) -> (c: Hsv) {
        *self
    }
}

/// Three independent sub-patterns, one per region: spine queries go to the
/// first, tip queries to the second, arc queries to the third. All three are
/// ticked each frame, in that order.
pub struct Compound<Spine, Tip, Arc> where Spine: Pattern, Tip: Pattern, Arc: Pattern {
    pub spine: Spine,
    pub tip: Tip,
    pub arc: Arc,
}

impl<Spine: Pattern, Tip: Pattern, Arc: Pattern> Pattern for Compound<Spine, Tip, Arc> {
    open spec fn wf(&self) -> bool {
        self.spine.wf() && self.tip.wf() && self.arc.wf()
    }

    open spec fn spine_ok(&self, spine: Index, led: Index) -> bool {
        self.spine.spine_ok(spine, led)
    }

    open spec fn tip_ok(&self, spine: Index, led: Index) -> bool {
        self.tip.tip_ok(spine, led)
    }

    open spec fn arc_ok(&self, arc: Index, led: Index) -> bool {
        self.arc.arc_ok(arc, led)
    }

    open spec fn spine_q(&self, spine: Index, led: Index, s: u16) -> (Hsv, u16) {
        self.spine.spine_q(spine, led, s)
    }

    open spec fn tip_q(&self, spine: Index, led: Index, s: u16) -> (Hsv, u16) {
        self.tip.tip_q(spine, led, s)
    }

    open spec fn arc_q(&self, arc: Index, led: Index, s: u16) -> (Hsv, u16) {
        self.arc.arc_q(arc, led, s)
    }

    open spec fn ticked(&self, s: u16, post: Self) -> bool {
        let s1 = self.spine.state_after_tick(s);
        let s2 = self.tip.state_after_tick(s1);
        &&& self.spine.ticked(s, post.spine)
        &&& self.tip.ticked(s1, post.tip)
        &&& self.arc.ticked(s2, post.arc)
    }

    open spec fn state_after_tick(&self, s: u16) -> u16 {
        self.arc.state_after_tick(self.tip.state_after_tick(self.spine.state_after_tick(s)))
    }

    proof fn ticked_preserves_queries(&self, s: u16, post: Self, e: Index, led: Index) {
        let s1 = self.spine.state_after_tick(s);
        let s2 = self.tip.state_after_tick(s1);
        self.spine.ticked_preserves_queries(s, post.spine, e, led);
        self.tip.ticked_preserves_queries(s1, post.tip, e, led);
        self.arc.ticked_preserves_queries(s2, post.arc, e, led);
    }

    fn tick(&mut self, rng: &mut Rand) {
        self.spine.tick(rng);
        self.tip.tick(rng);
        self.arc.tick(rng);
    }

    fn spine_color_at(&self, spine: Index, led: Index, rng: &mut Rand) -> (c: Hsv) {
        self.spine.spine_color_at(spine, led, rng)
    }

    fn spine_tip_color_at(&self, spine: Index, led: Index, rng: &mut Rand) -> (c: Hsv) {
        self.tip.spine_tip_color_at(spine, led, rng)
    }

    fn arc_color_at(&self, arc: Index, led: Index, rng: &mut Rand) -> (c: Hsv) {
        self.arc.arc_color_at(arc, led, rng)
    }
}

/// The generator state before the sub-pattern at slot `i` is ticked, when
/// the slots below it have been ticked in ascending order from state `s`.
pub open spec fn tick_chain_state<P: Pattern>(vals: Seq<P>, s: u16, i: int) -> u16
    decreases i,
{
    if i <= 0 {
        s
    } else {
        vals[i - 1].state_after_tick(tick_chain_state(vals, s, i - 1))
    }
}

/// One sub-pattern per spine slot. Spine and tip queries dispatch by the
/// spine index, arc queries by the arc index, over the same backing array —
/// which assumes the layout has as many arcs as spines.
pub struct PerSpine<P> where P: Pattern {
    pub values: Vec<P>,
}

impl<P: Pattern> PerSpine<P> {
    /// Create a per-spine pattern over one sub-pattern per spine slot.
    pub fn new(values: Vec<P>) -> (r: PerSpine<P>)
        ensures
            r.values == values,
    {
        PerSpine { values }
    }
}

impl<P: Pattern> Pattern for PerSpine<P> {
    open spec fn wf(&self) -> bool {
        &&& self.values@.len() <= 255
        &&& forall|i: int| 0 <= i < self.values@.len() ==> (#[trigger] self.values@[i]).wf()
    }

    open spec fn spine_ok(&self, spine: Index, led: Index) -> bool {
        spine.index < self.values@.len() && self.values@[spine.index as int].spine_ok(spine, led)
    }

    open spec fn tip_ok(&self, spine: Index, led: Index) -> bool {
        spine.index < self.values@.len() && self.values@[spine.index as int].tip_ok(spine, led)
    }

    open spec fn arc_ok(&self, arc: Index, led: Index) -> bool {
        arc.index < self.values@.len() && self.values@[arc.index as int].arc_ok(arc, led)
    }

    open spec fn spine_q(&self, spine: Index, led: Index, s: u16) -> (Hsv, u16) {
        self.values@[spine.index as int].spine_q(spine, led, s)
    }

    open spec fn tip_q(&self, spine: Index, led: Index, s: u16) -> (Hsv, u16) {
        self.values@[spine.index as int].tip_q(spine, led, s)
    }

    open spec fn arc_q(&self, arc: Index, led: Index, s: u16) -> (Hsv, u16) {
        self.values@[arc.index as int].arc_q(arc, led, s)
    }

    open spec fn ticked(&self, s: u16, post: Self) -> bool {
        &&& post.values@.len() == self.values@.len()
        &&& forall|i: int|
            0 <= i < self.values@.len() ==> (#[trigger] self.values@[i]).ticked(
                tick_chain_state(self.values@, s, i),
                post.values@[i],
            )
    }

    open spec fn state_after_tick(&self, s: u16) -> u16 {
        tick_chain_state(self.values@, s, self.values@.len() as int)
    }

    proof fn ticked_preserves_queries(&self, s: u16, post: Self, e: Index, led: Index) {
        if e.index < self.values@.len() {
            let i = e.index as int;
            assert(self.values@[i].ticked(tick_chain_state(self.values@, s, i), post.values@[i]));
            self.values@[i].ticked_preserves_queries(
                tick_chain_state(self.values@, s, i),
                post.values@[i],
                e,
                led,
            );
        }
    }

    fn tick(&mut self, rng: &mut Rand) {
        let ghost vals0 = self.values@;
        let ghost s0 = rng.state();
        let n = self.values.len();
        let mut i: usize = 0;
        while i < n
            invariant
                n == vals0.len() <= 255,
                i <= n,
                self.values@.len() == vals0.len(),
                forall|j: int| 0 <= j < vals0.len() ==> (#[trigger] vals0[j]).wf(),
                forall|j: int| i <= j < vals0.len() ==> self.values@[j] == vals0[j],
                forall|j: int| 0 <= j < vals0.len() ==> (#[trigger] self.values@[j]).wf(),
                forall|j: int|
                    0 <= j < i ==> (#[trigger] vals0[j]).ticked(
                        tick_chain_state(vals0, s0, j),
                        self.values@[j],
                    ),
                rng.state() == tick_chain_state(vals0, s0, i as int),
            decreases n - i,
        {
            assert(self.values@[i as int] == vals0[i as int]);
            let elem = vstd::std_specs::vec::vec_index_mut(&mut self.values, i);
            elem.tick(rng);
            i = i + 1;
        }
    }

    fn spine_color_at(&self, spine: Index, led: Index, rng: &mut Rand) -> (c: Hsv) {
        self.values[spine.index as usize].spine_color_at(spine, led, rng)
    }

    fn spine_tip_color_at(&self, spine: Index, led: Index, rng: &mut Rand) -> (c: Hsv) {
        self.values[spine.index as usize].spine_tip_color_at(spine, led, rng)
    }

    fn arc_color_at(&self, arc: Index, led: Index, rng: &mut Rand) -> (c: Hsv) {
        self.values[arc.index as usize].arc_color_at(arc, led, rng)
    }
}

/// Scale a signal into an unsigned color channel by shifting its midpoint:
/// the signal reinterpreted as a byte, plus 128, wrapping.
pub open spec fn spec_channel(v: i8) -> u8 {
    osc::i8_as_u8(v).wrapping_add(128)
}

/// An HSV color built live from three oscillators, one per channel, ignoring
/// the queried position. Each channel is the oscillator's signal mapped from
/// the signed domain to an unsigned byte.
pub struct Oscillator<H, S, V> {
    pub h: H,
    pub s: S,
    pub v: V,
}

impl<H: OscNode, S: OscNode, V: OscNode> Oscillator<H, S, V> {
    /// The color all three queries answer, and the generator state after.
    pub open spec fn color_q(&self, s: u16) -> (Hsv, u16) {
        let hv = self.h.value(s);
        let s1 = self.h.state_after_get(s);
        let sv = self.s.value(s1);
        let s2 = self.s.state_after_get(s1);
        let vv = self.v.value(s2);
        let s3 = self.v.state_after_get(s2);
        (Hsv { h: spec_channel(hv), s: spec_channel(sv), v: spec_channel(vv) }, s3)
    }

    /// Read the current color from the three channel oscillators.
    fn get(&self, rng: &mut Rand) -> (c: Hsv)
        requires
            self.h.wf(),
            self.s.wf(),
            self.v.wf(),
        ensures
            c == self.color_q(old(rng).state()).0,
            final(rng).state() == self.color_q(old(rng).state()).1,
    {
        let h = osc::signal_to_u8(self.h.get(rng)).wrapping_add(128);
        let s = osc::signal_to_u8(self.s.get(rng)).wrapping_add(128);
        let v = osc::signal_to_u8(self.v.get(rng)).wrapping_add(128);
        Hsv { h, s, v }
    }
}

impl<H: OscNode, S: OscNode, V: OscNode> Pattern for Oscillator<H, S, V> {
    open spec fn wf(&self) -> bool {
        self.h.wf() && self.s.wf() && self.v.wf()
    }

    open spec fn spine_ok(&self, spine: Index, led: Index) -> bool {
        true
    }

    open spec fn tip_ok(&self, spine: Index, led: Index) -> bool {
        true
    }

    open spec fn arc_ok(&self, arc: Index, led: Index) -> bool {
        true
    }

    open spec fn spine_q(&self, spine: Index, led: Index, s: u16) -> (Hsv, u16) {
        self.color_q(s)
    }

    open spec fn tip_q(&self, spine: Index, led: Index, s: u16) -> (Hsv, u16) {
        self.color_q(s)
    }

    open spec fn arc_q(&self, arc: Index, led: Index, s: u16) -> (Hsv, u16) {
        self.color_q(s)
    }

    open spec fn ticked(&self, s: u16, post: Self) -> bool {
        let s1 = self.h.state_after_tick(s);
        let s2 = self.s.state_after_tick(s1);
        &&& post.h == self.h.stepped(s)
        &&& post.s == self.s.stepped(s1)
        &&& post.v == self.v.stepped(s2)
    }

    open spec fn state_after_tick(&self, s: u16) -> u16 {
        self.v.state_after_tick(self.s.state_after_tick(self.h.state_after_tick(s)))
    }

    proof fn ticked_preserves_queries(&self, s: u16, post: Self, e: Index, led: Index) {
    }

    fn tick(&mut self, rng: &mut Rand) {
        self.h.tick(rng);
        self.s.tick(rng);
        self.v.tick(rng);
    }

    fn spine_color_at(&self, spine: Index, led: Index, rng: &mut Rand) -> (c: Hsv) {
        self.get(rng)
    }

    fn spine_tip_color_at(&self, spine: Index, led: Index, rng: &mut Rand) -> (c: Hsv) {
        self.get(rng)
    }

    fn arc_color_at(&self, arc: Index, led: Index, rng: &mut Rand) -> (c: Hsv) {
        self.get(rng)
    }
}


/// A diagnostic pattern that encodes the queried coordinates in the color,
/// for checking a wiring layout: spine queries answer the spine index as hue
/// and the position as saturation at full value; tip queries mark themselves
/// with saturation 255 and value 128; arc queries with value 64. It never
/// ticks and never touches the generator.
#[derive(Clone, Copy, Debug, PartialEq, Eq, Structural)]
pub struct Probe;

impl Pattern for Probe {
    open spec fn wf(&self) -> bool {
        true
    }

    open spec fn spine_ok(&self, spine: Index, led: Index) -> bool {
        true
    }

    open spec fn tip_ok(&self, spine: Index, led: Index) -> bool {
        true
    }

    open spec fn arc_ok(&self, arc: Index, led: Index) -> bool {
        true
    }

    open spec fn spine_q(&self, spine: Index, led: Index, s: u16) -> (Hsv, u16) {
        (Hsv { h: spine.index, s: led.index, v: 255 }, s)
    }

    open spec fn tip_q(&self, spine: Index, led: Index, s: u16) -> (Hsv, u16) {
        (Hsv { h: spine.index, s: 255, v: 128 }, s)
    }

    open spec fn arc_q(&self, arc: Index, led: Index, s: u16) -> (Hsv, u16) {
        (Hsv { h: arc.index, s: led.index, v: 64 }, s)
    }

    open spec fn ticked(&self, s: u16, post: Self) -> bool {
        post == *self
    }

    open spec fn state_after_tick(&self, s: u16) -> u16 {
        s
    }

    proof fn ticked_preserves_queries(&self, s: u16, post: Self, e: Index, led: Index) {
    }

    fn tick(&mut self, rng: &mut Rand) {
    }

    fn spine_color_at(&self, spine: Index, led: Index, rng: &mut Rand) -> (c: Hsv) {
        Hsv { h: spine.index, s: led.index, v: 255 }
    }

    fn spine_tip_color_at(&self, spine: Index, led: Index, rng: &mut Rand) -> (c: Hsv) {
        Hsv { h: spine.index, s: 255, v: 128 }
    }

    fn arc_color_at(&self, arc: Index, led: Index, rng: &mut Rand) -> (c: Hsv) {
        Hsv { h: arc.index, s: led.index, v: 64 }
    }
}

} // verus!
