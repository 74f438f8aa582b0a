//! Star layout traversal: a restartable cursor that enumerates every
//! physical LED of the sculpture in strict wiring order. For each spine in
//! turn: the outward run, the tip (if any), the mirrored back run, then the
//! connecting arc (if any); a zero-length phase is skipped and never emits.
//! The traversal emits exactly the layout's declared LED count, and reports
//! the exact remaining count at every step.

use crate::color::Hsv;
use crate::pattern::Index;
use crate::pattern::Pattern;
use crate::rand::Rand;
use vstd::prelude::*;

verus! {

/// A static description of the sculpture's wiring: how many spines and arcs,
/// the total LED count, and the per-spine lengths of the outward run, the
/// tip, and the arc.
pub trait Layout: Sized {
    /// The number of spines.
    spec fn spec_spines(&self) -> u8;

    /// The number of arcs.
    spec fn spec_arcs(&self) -> u8;

    /// The declared total LED count.
    spec fn spec_leds(&self) -> u16;

    /// The outward-run length of a spine.
    spec fn spec_spine_len(&self, index: u8) -> u8;

    /// The tip length of a spine.
    spec fn spec_tip_len(&self, index: u8) -> u8;

    /// The arc length following a spine.
    spec fn spec_arc_len(&self, index: u8) -> u8;

    /// The number of spines.
    fn spines(&self) -> (r: u8)
        ensures
            r == self.spec_spines(),
    ;

    /// The number of arcs.
    fn arcs(&self) -> (r: u8)
        ensures
            r == self.spec_arcs(),
    ;

    /// The declared total LED count.
    fn leds(&self) -> (r: u16)
        ensures
            r == self.spec_leds(),
    ;

    /// The outward-run length of a spine.
    fn spine_len_at(&self, index: u8) -> (r: u8)
        ensures
            r == self.spec_spine_len(index),
    ;

    /// The tip length of a spine.
    fn tip_len_at(&self, index: u8) -> (r: u8)
        ensures
            r == self.spec_tip_len(index),
    ;

    /// The arc length following a spine.
    fn arc_len_at(&self, index: u8) -> (r: u8)
        ensures
            r == self.spec_arc_len(index),
    ;
}

/// The LEDs one spine contributes in wiring order: the outward run, the tip,
/// the mirrored back run, and the arc.
pub open spec fn spine_total<L: Layout>(l: &L, i: u8) -> int {
    2 * l.spec_spine_len(i) + l.spec_tip_len(i) + l.spec_arc_len(i)
}

/// The number of LEDs emitted before spine `i` in wiring order.
pub open spec fn leds_before<L: Layout>(l: &L, i: int) -> int
    decreases i,
{
    if i <= 0 {
        0
    } else {
        leds_before(l, i - 1) + spine_total(l, (i - 1) as u8)
    }
}

/// A layout is consistent when its declared LED count equals the sum of its
/// per-spine runs: doubled spine lengths, plus tips, plus arcs.
pub open spec fn layout_consistent<L: Layout>(l: &L) -> bool {
    l.spec_leds() == leds_before(l, l.spec_spines() as int)
}

/// The emitted-before count never decreases along the wiring order.
proof fn lemma_leds_before_mono<L: Layout>(l: &L, i: int, j: int)
    requires
        0 <= i <= j,
    ensures
        leds_before(l, i) <= leds_before(l, j),
    decreases j - i,
{
    if i < j {
        lemma_leds_before_mono(l, i, j - 1);
    }
}

/// Every query the traversal can pose is in range for the pattern: for each
/// spine, spine queries over the outward run's positions, tip queries over
/// the tip's, and arc queries over the arc's.
pub open spec fn queries_ok<L: Layout, P: Pattern>(l: &L, p: &P) -> bool {
    &&& forall|i: u8, pos: u8|
        i < l.spec_spines() && pos < l.spec_spine_len(i) ==> #[trigger] p.spine_ok(
            Index { index: i, total: l.spec_spines() },
            Index { index: pos, total: l.spec_spine_len(i) },
        )
    &&& forall|i: u8, pos: u8|
        i < l.spec_spines() && pos < l.spec_tip_len(i) ==> #[trigger] p.tip_ok(
            Index { index: i, total: l.spec_spines() },
            Index { index: pos, total: l.spec_tip_len(i) },
        )
    &&& forall|i: u8, pos: u8|
        i < l.spec_spines() && pos < l.spec_arc_len(i) ==> #[trigger] p.arc_ok(
            Index { index: i, total: l.spec_spines() },
            Index { index: pos, total: l.spec_arc_len(i) },
        )
}

/// The traversal phase within one spine.
#[derive(Clone, Copy, Debug, PartialEq, Eq, Structural)]
pub enum Position {
    /// The outward run.
    SpineOut,
    /// The tip, present on odd-length spines.
    SpineTip,
    /// The mirrored run back toward the center.
    SpineBack,
    /// The connecting arc to the next spine.
    Arc,
}

/// The length of a cursor's current phase under a layout.
pub open spec fn phase_len<L: Layout>(l: &L, spine: u8, phase: Position) -> int {
    match phase {
        Position::SpineOut => l.spec_spine_len(spine) as int,
        Position::SpineTip => l.spec_tip_len(spine) as int,
        Position::SpineBack => l.spec_spine_len(spine) as int,
        Position::Arc => l.spec_arc_len(spine) as int,
    }
}

/// How many LEDs of the cursor's spine come before its current position.
pub open spec fn phase_offset<L: Layout>(l: &L, spine: u8, phase: Position, offset: u8) -> int {
    match phase {
        Position::SpineOut => offset as int,
        Position::SpineTip => l.spec_spine_len(spine) + offset,
        Position::SpineBack => l.spec_spine_len(spine) + l.spec_tip_len(spine) + offset,
        Position::Arc => 2 * l.spec_spine_len(spine) + l.spec_tip_len(spine) + offset,
    }
}

/// A traversal cursor: the current spine, the phase within it, the offset
/// within the phase, and how many LEDs have been emitted so far.
#[derive(Clone, Copy, Debug, PartialEq, Eq, Structural)]
pub struct StarIter {
    pub current_spine: u8,
    pub current_position: Position,
    pub position_offset: u8,
    pub emitted: u16,
}

impl StarIter {
    /// A cursor is either finished (every LED emitted, the spine index one
    /// past the last) or parked on an emittable LED: a spine in range, an
    /// offset strictly inside a nonempty phase, and an emitted count that
    /// equals the LEDs wired before that position.
    pub open spec fn wf<L: Layout>(&self, l: &L) -> bool {
        if self.emitted == l.spec_leds() {
            self.current_spine == l.spec_spines()
        } else {
            &&& self.current_spine < l.spec_spines()
            &&& (self.position_offset as int) < phase_len(l, self.current_spine,
            self.current_position)
            &&& self.emitted as int == leds_before(l, self.current_spine as int) + phase_offset(
                l,
                self.current_spine,
                self.current_position,
                self.position_offset,
            )
        }
    }
}

/// The color one cursor position reads from a pattern, and the generator
/// state the query leaves: outward and back runs query the spine color (the
/// back run with the mirrored position), tips the tip color, arcs the arc
/// color.
pub open spec fn emit_q<L: Layout, P: Pattern>(l: &L, p: &P, it: StarIter, s: u16) -> (Hsv, u16) {
    let spine = Index { index: it.current_spine, total: l.spec_spines() };
    match it.current_position {
        Position::SpineOut => p.spine_q(
            spine,
            Index { index: it.position_offset, total: l.spec_spine_len(it.current_spine) },
            s,
        ),
        Position::SpineTip => p.tip_q(
            spine,
            Index { index: it.position_offset, total: l.spec_tip_len(it.current_spine) },
            s,
        ),
        Position::SpineBack => p.spine_q(
            spine,
            Index {
                index: (l.spec_spine_len(it.current_spine) - 1 - it.position_offset) as u8,
                total: l.spec_spine_len(it.current_spine),
            },
            s,
        ),
        Position::Arc => p.arc_q(
            spine,
            Index { index: it.position_offset, total: l.spec_arc_len(it.current_spine) },
            s,
        ),
    }
}

/// One normalization micro-step of an exhausted cursor phase: to the next
/// phase of the same spine in wiring order, or from the arc to the next
/// spine's outward run. The emitted count is untouched.
pub open spec fn phase_step(it: StarIter) -> StarIter {
    match it.current_position {
        Position::SpineOut => StarIter {
            current_position: Position::SpineTip,
            position_offset: 0,
            ..it
        },
        Position::SpineTip => StarIter {
            current_position: Position::SpineBack,
            position_offset: 0,
            ..it
        },
        Position::SpineBack => StarIter { current_position: Position::Arc, position_offset: 0, ..it },
        Position::Arc => StarIter {
            current_spine: (it.current_spine + 1) as u8,
            current_position: Position::SpineOut,
            position_offset: 0,
            ..it
        },
    }
}

/// Where the cursor parks: unchanged if it is finished or strictly inside a
/// nonempty phase, else stepped past the exhausted phase and normalized
/// again.
pub open spec fn spec_normalize<L: Layout>(l: &L, it: StarIter) -> StarIter
    decreases
            l.spec_spines() - it.current_spine,
            (match it.current_position {
                Position::SpineOut => 3int,
                Position::SpineTip => 2int,
                Position::SpineBack => 1int,
                Position::Arc => 0int,
            }),
{
    if it.current_spine >= l.spec_spines() {
        it
    } else if (it.position_offset as int) < phase_len(l, it.current_spine, it.current_position) {
        it
    } else {
        spec_normalize(l, phase_step(it))
    }
}

/// The cursor after one emission: offset and emitted count up one, then
/// normalized to the next emittable LED.
pub open spec fn spec_advance<L: Layout>(l: &L, it: StarIter) -> StarIter {
    spec_normalize(
        l,
        StarIter {
            position_offset: (it.position_offset + 1) as u8,
            emitted: (it.emitted + 1) as u16,
            ..it
        },
    )
}

/// The cursor at the start of the wiring order: spine 0's outward run,
/// normalized past any leading empty phases.
pub open spec fn spec_start<L: Layout>(l: &L) -> StarIter {
    spec_normalize(
        l,
        StarIter {
            current_spine: 0,
            current_position: Position::SpineOut,
            position_offset: 0,
            emitted: 0,
        },
    )
}

/// The next `n` colors a traversal emits from cursor `it`, with the
/// generator starting in state `s`: each step reads the color under the
/// cursor and advances it, threading the generator state through the
/// queries.
pub open spec fn frame_from<L: Layout, P: Pattern>(
    l: &L,
    p: &P,
    it: StarIter,
    s: u16,
    n: nat,
) -> Seq<Hsv>
    decreases n,
{
    if n == 0 {
        Seq::empty()
    } else {
        let q = emit_q(l, p, it, s);
        seq![q.0] + frame_from(l, p, spec_advance(l, it), q.1, (n - 1) as nat)
    }
}

/// A star sculpture: a wiring layout and the pattern that colors it. Ticking
/// advances the pattern one frame; a cursor then reads the frame's colors in
/// wiring order.
pub struct Star<L, P> where L: Layout, P: Pattern {
    pub layout: L,
    pub pattern: P,
}

impl<L, P> Star<L, P> where L: Layout, P: Pattern {
    /// The star is usable: the pattern is well-formed, the layout's declared
    /// LED count matches its runs, and every traversal query is in range for
    /// the pattern.
    pub open spec fn wf(&self) -> bool {
        &&& self.pattern.wf()
        &&& layout_consistent(&self.layout)
        &&& queries_ok(&self.layout, &self.pattern)
    }

    /// Combine a layout and a pattern.
    pub fn new(layout: L, pattern: P) -> (r: Star<L, P>)
        ensures
            r.layout == layout,
            r.pattern == pattern,
    {
        Star { layout, pattern }
    }

    /// Advance the pattern by one frame.
    pub fn tick(&mut self, rng: &mut Rand)
        requires
            old(self).wf(),
        ensures
            final(self).wf(),
            final(self).layout == old(self).layout,
            old(self).pattern.ticked(old(rng).state(), final(self).pattern),
            final(rng).state() == old(self).pattern.state_after_tick(old(rng).state()),
    {
        let ghost pre = self.pattern;
        let ghost s0 = rng.state();
        self.pattern.tick(rng);
        proof {
            assert forall|i: u8, pos: u8|
                i < self.layout.spec_spines() && pos < self.layout.spec_spine_len(i) implies
                    #[trigger] self.pattern.spine_ok(
                Index { index: i, total: self.layout.spec_spines() },
                Index { index: pos, total: self.layout.spec_spine_len(i) },
            ) by {
                pre.ticked_preserves_queries(
                    s0,
                    self.pattern,
                    Index { index: i, total: self.layout.spec_spines() },
                    Index { index: pos, total: self.layout.spec_spine_len(i) },
                );
            }
            assert forall|i: u8, pos: u8|
                i < self.layout.spec_spines() && pos < self.layout.spec_tip_len(i) implies
                    #[trigger] self.pattern.tip_ok(
                Index { index: i, total: self.layout.spec_spines() },
                Index { index: pos, total: self.layout.spec_tip_len(i) },
            ) by {
                pre.ticked_preserves_queries(
                    s0,
                    self.pattern,
                    Index { index: i, total: self.layout.spec_spines() },
                    Index { index: pos, total: self.layout.spec_tip_len(i) },
                );
            }
            assert forall|i: u8, pos: u8|
                i < self.layout.spec_spines() && pos < self.layout.spec_arc_len(i) implies
                    #[trigger] self.pattern.arc_ok(
                Index { index: i, total: self.layout.spec_spines() },
                Index { index: pos, total: self.layout.spec_arc_len(i) },
            ) by {
                pre.ticked_preserves_queries(
                    s0,
                    self.pattern,
                    Index { index: i, total: self.layout.spec_spines() },
                    Index { index: pos, total: self.layout.spec_arc_len(i) },
                );
            }
        }
    }

    /// Skip the cursor past exhausted and empty phases, in phase order and
    /// then spine order, until it parks on an emittable LED or finishes.
    fn normalize(&self, it: &mut StarIter)
        requires
            self.wf(),
            old(it).current_spine <= self.layout.spec_spines(),
            old(it).current_spine == self.layout.spec_spines() ==> old(it).emitted
                == self.layout.spec_leds(),
            old(it).current_spine < self.layout.spec_spines() ==> {
                &&& old(it).position_offset as int <= phase_len(
                    &self.layout,
                    old(it).current_spine,
                    old(it).current_position,
                )
                &&& old(it).emitted as int == leds_before(
                    &self.layout,
                    old(it).current_spine as int,
                ) + phase_offset(
                    &self.layout,
                    old(it).current_spine,
                    old(it).current_position,
                    old(it).position_offset,
                )
            },
        ensures
            final(it).wf(self.layout_ref()),
            final(it).emitted == old(it).emitted,
            *final(it) == spec_normalize(self.layout_ref(), *old(it)),
    {
        loop
            invariant
                self.wf(),
                it.current_spine <= self.layout.spec_spines(),
                it.emitted == old(it).emitted,
                spec_normalize(self.layout_ref(), *it) == spec_normalize(
                    self.layout_ref(),
                    *old(it),
                ),
                it.current_spine == self.layout.spec_spines() ==> it.emitted
                    == self.layout.spec_leds(),
                it.current_spine < self.layout.spec_spines() ==> {
                    &&& it.position_offset as int <= phase_len(
                        &self.layout,
                        it.current_spine,
                        it.current_position,
                    )
                    &&& it.emitted as int == leds_before(&self.layout, it.current_spine as int)
                        + phase_offset(
                        &self.layout,
                        it.current_spine,
                        it.current_position,
                        it.position_offset,
                    )
                },
            decreases
                    self.layout.spec_spines() - it.current_spine,
                    4int - (match it.current_position {
                        Position::SpineOut => 0int,
                        Position::SpineTip => 1int,
                        Position::SpineBack => 2int,
                        Position::Arc => 3int,
                    }),
        {
            if it.current_spine >= self.layout.spines() {
                proof {
                    lemma_leds_before_mono(
                        &self.layout,
                        it.current_spine as int,
                        self.layout.spec_spines() as int,
                    );
                }
                return ;
            }
            let len: u8 = match it.current_position {
                Position::SpineOut => self.layout.spine_len_at(it.current_spine),
                Position::SpineTip => self.layout.tip_len_at(it.current_spine),
                Position::SpineBack => self.layout.spine_len_at(it.current_spine),
                Position::Arc => self.layout.arc_len_at(it.current_spine),
            };
            if it.position_offset < len {
                proof {
                    lemma_leds_before_mono(
                        &self.layout,
                        it.current_spine as int + 1,
                        self.layout.spec_spines() as int,
                    );
                }
                return ;
            }
            match it.current_position {
                Position::SpineOut => {
                    it.current_position = Position::SpineTip;
                    it.position_offset = 0;
                },
                Position::SpineTip => {
                    it.current_position = Position::SpineBack;
                    it.position_offset = 0;
                },
                Position::SpineBack => {
                    it.current_position = Position::Arc;
                    it.position_offset = 0;
                },
                Position::Arc => {
                    it.current_spine = it.current_spine + 1;
                    it.current_position = Position::SpineOut;
                    it.position_offset = 0;
                },
            }
        }
    }

    /// The layout, as a reference for spec use.
    #[verifier::inline]
    pub open spec fn layout_ref(&self) -> &L {
        &self.layout
    }

    /// Create a cursor at the start of the wiring order.
    pub fn iter(&self) -> (it: StarIter)
        requires
            self.wf(),
        ensures
            it.wf(self.layout_ref()),
            it.emitted == 0,
            it == spec_start(self.layout_ref()),
    {
        let mut it = StarIter {
            current_spine: 0,
            current_position: Position::SpineOut,
            position_offset: 0,
            emitted: 0,
        };
        proof {
            if self.layout.spec_spines() == 0 {
                assert(leds_before(&self.layout, 0) == 0);
            }
        }
        self.normalize(&mut it);
        it
    }

    /// How many LEDs the cursor has yet to emit: the declared total minus
    /// the emitted count.
    pub fn remaining(&self, it: &StarIter) -> (r: u16)
        requires
            self.wf(),
            it.wf(self.layout_ref()),
        ensures
            r == self.layout.spec_leds() - it.emitted,
    {
        proof {
            if it.emitted != self.layout.spec_leds() {
                lemma_leds_before_mono(
                    &self.layout,
                    it.current_spine as int + 1,
                    self.layout.spec_spines() as int,
                );
            }
        }
        self.layout.leds() - it.emitted
    }

    /// Read the color under the cursor and advance it one LED. Returns
    /// `Some` exactly as long as LEDs remain: the traversal emits exactly
    /// the layout's declared count, never more or fewer.
    pub fn next(&self, it: &mut StarIter, rng: &mut Rand) -> (c: Option<Hsv>)
        requires
            self.wf(),
            old(it).wf(self.layout_ref()),
        ensures
            final(it).wf(self.layout_ref()),
            old(it).emitted < self.layout.spec_leds() ==> {
                &&& c == Some(emit_q(&self.layout, &self.pattern, *old(it), old(rng).state()).0)
                &&& final(rng).state() == emit_q(
                    &self.layout,
                    &self.pattern,
                    *old(it),
                    old(rng).state(),
                ).1
                &&& final(it).emitted == old(it).emitted + 1
                &&& *final(it) == spec_advance(self.layout_ref(), *old(it))
            },
            old(it).emitted == self.layout.spec_leds() ==> {
                &&& c is None
                &&& *final(it) == *old(it)
                &&& *final(rng) == *old(rng)
            },
    {
        proof {
            if it.emitted != self.layout.spec_leds() {
                lemma_leds_before_mono(
                    &self.layout,
                    it.current_spine as int + 1,
                    self.layout.spec_spines() as int,
                );
            }
        }
        if it.current_spine >= self.layout.spines() {
            return None;
        }

        let spine_index = Index { index: it.current_spine, total: self.layout.spines() };

        let color = match it.current_position {
            Position::SpineOut => {
                let spine_len = self.layout.spine_len_at(it.current_spine);
                let led_index = Index { index: it.position_offset, total: spine_len };
                self.pattern.spine_color_at(spine_index, led_index, rng)
            },
            Position::SpineTip => {
                let tip_len = self.layout.tip_len_at(it.current_spine);
                let led_index = Index { index: it.position_offset, total: tip_len };
                self.pattern.spine_tip_color_at(spine_index, led_index, rng)
            },
            Position::SpineBack => {
                let spine_len = self.layout.spine_len_at(it.current_spine);
                let led_index = Index {
                    index: spine_len - 1 - it.position_offset,
                    total: spine_len,
                };
                self.pattern.spine_color_at(spine_index, led_index, rng)
            },
            Position::Arc => {
                let arc_len = self.layout.arc_len_at(it.current_spine);
                let led_index = Index { index: it.position_offset, total: arc_len };
                self.pattern.arc_color_at(spine_index, led_index, rng)
            },
        };

        it.position_offset = it.position_offset + 1;
        it.emitted = it.emitted + 1;
        self.normalize(it);
        Some(color)
    }

    /// Read one whole frame: every LED's color, in wiring order. The result
    /// holds exactly the layout's declared LED count.
    pub fn colors(&self, rng: &mut Rand) -> (v: Vec<Hsv>)
        requires
            self.wf(),
        ensures
            v@.len() == self.layout.spec_leds(),
            v@ == frame_from(
                &self.layout,
                &self.pattern,
                spec_start(self.layout_ref()),
                old(rng).state(),
                self.layout.spec_leds() as nat,
            ),
    {
        let ghost s0 = rng.state();
        let mut out: Vec<Hsv> = Vec::new();
        let mut it = self.iter();
        loop
            invariant
                self.wf(),
                it.wf(self.layout_ref()),
                s0 == old(rng).state(),
                out@.len() == it.emitted,
                it.emitted <= self.layout.spec_leds(),
                out@ + frame_from(
                    &self.layout,
                    &self.pattern,
                    it,
                    rng.state(),
                    (self.layout.spec_leds() - it.emitted) as nat,
                ) == frame_from(
                    &self.layout,
                    &self.pattern,
                    spec_start(self.layout_ref()),
                    s0,
                    self.layout.spec_leds() as nat,
                ),
            decreases self.layout.spec_leds() - it.emitted,
        {
            proof {
                if it.emitted != self.layout.spec_leds() {
                    lemma_leds_before_mono(
                        &self.layout,
                        it.current_spine as int + 1,
                        self.layout.spec_spines() as int,
                    );
                    assert(it.emitted < self.layout.spec_leds());
                }
            }
            let ghost pre_it = it;
            let ghost pre_s = rng.state();
            let ghost pre_out = out@;
            let c = self.next(&mut it, rng);
            match c {
                Some(color) => {
                    out.push(color);
                    proof {
                        assert(frame_from(
                            &self.layout,
                            &self.pattern,
                            pre_it,
                            pre_s,
                            (self.layout.spec_leds() - pre_it.emitted) as nat,
                        ) == seq![color] + frame_from(
                            &self.layout,
                            &self.pattern,
                            it,
                            rng.state(),
                            (self.layout.spec_leds() - it.emitted) as nat,
                        ));
                        assert(out@ + frame_from(
                            &self.layout,
                            &self.pattern,
                            it,
                            rng.state(),
                            (self.layout.spec_leds() - it.emitted) as nat,
                        ) =~= (pre_out + frame_from(
                            &self.layout,
                            &self.pattern,
                            pre_it,
                            pre_s,
                            (self.layout.spec_leds() - pre_it.emitted) as nat,
                        )));
                    }
                },
                None => {
                    proof {
                        assert(s0 == old(rng).state());
                        assert(it.emitted == self.layout.spec_leds());
                        assert(out@ =~= out@ + frame_from(
                            &self.layout,
                            &self.pattern,
                            it,
                            rng.state(),
                            (self.layout.spec_leds() - it.emitted) as nat,
                        ));
                        assert(out@ == frame_from(
                            &self.layout,
                            &self.pattern,
                            spec_start(self.layout_ref()),
                            s0,
                            self.layout.spec_leds() as nat,
                        ));
                    }
                    return out;
                },
            }
        }
    }
}


/// For a layout whose per-spine lengths are uniform, the LEDs before spine
/// `i` are `i` times one spine's total.
pub proof fn lemma_uniform_leds_before<L: Layout>(l: &L, sl: u8, tl: u8, al: u8, i: int)
    requires
        0 <= i,
        forall|j: u8| #[trigger] l.spec_spine_len(j) == sl,
        forall|j: u8| #[trigger] l.spec_tip_len(j) == tl,
        forall|j: u8| #[trigger] l.spec_arc_len(j) == al,
    ensures
        leds_before(l, i) == i * (2 * sl + tl + al),
    decreases i,
{
    if i <= 0 {
        assert(i * (2 * sl + tl + al) == 0) by (nonlinear_arith)
            requires
                i == 0,
        ;
    } else {
        lemma_uniform_leds_before(l, sl, tl, al, i - 1);
        assert((i - 1) * (2 * sl + tl + al) + (2 * sl + tl + al) == i * (2 * sl + tl + al))
            by (nonlinear_arith);
    }
}

/// A layout whose spines all share one outward length, one tip length, and
/// one arc length.
#[derive(Clone, Copy, Debug, PartialEq, Eq, Structural)]
pub struct FixedLayout {
    pub spines: u8,
    pub arcs: u8,
    pub leds: u16,
    pub spine_len: u8,
    pub tip_len: u8,
    pub arc_len: u8,
}

impl FixedLayout {
    /// Recompute the declared LED count from the per-spine lengths: doubled
    /// spine runs, plus arcs, plus tips. With as many arcs as spines, the
    /// result is consistent with the traversal order.
    pub fn update_led_count(&mut self)
        requires
            old(self).spines as int * old(self).spine_len as int * 2 + old(self).arcs as int * old(
                self,
            ).arc_len as int + old(self).spines as int * old(self).tip_len as int <= 65535,
        ensures
            final(self).leds as int == final(self).spines as int * final(self).spine_len as int * 2
                + final(self).arcs as int * final(self).arc_len as int + final(self).spines as int
                * final(self).tip_len as int,
            final(self).spines == old(self).spines,
            final(self).arcs == old(self).arcs,
            final(self).spine_len == old(self).spine_len,
            final(self).tip_len == old(self).tip_len,
            final(self).arc_len == old(self).arc_len,
            final(self).arcs == final(self).spines ==> layout_consistent(final(self)),
    {
        let ghost pre = *old(self);
        proof {
            assert(pre.spines as int * pre.spine_len as int <= 255 * 255 && pre.arcs as int
                * pre.arc_len as int <= 255 * 255 && pre.spines as int * pre.tip_len as int <= 255
                * 255) by (nonlinear_arith)
                requires
                    pre.spines <= 255 && pre.spine_len <= 255 && pre.arcs <= 255 && pre.arc_len
                        <= 255 && pre.tip_len <= 255,
            ;
        }
        let spines = self.spines as u32 * self.spine_len as u32 * 2;
        let arcs = self.arcs as u32 * self.arc_len as u32;
        let tip_len = self.spines as u32 * self.tip_len as u32;
        self.leds = (spines + arcs + tip_len) as u16;
        proof {
            if self.arcs == self.spines {
                lemma_uniform_leds_before(
                    self,
                    self.spine_len,
                    self.tip_len,
                    self.arc_len,
                    self.spines as int,
                );
                assert(self.spines as int * (2 * self.spine_len + self.tip_len + self.arc_len)
                    == self.spines as int * self.spine_len as int * 2 + self.spines as int
                    * self.arc_len as int + self.spines as int * self.tip_len as int)
                    by (nonlinear_arith);
            }
        }
    }
}

impl Layout for FixedLayout {
    open spec fn spec_spines(&self) -> u8 {
        self.spines
    }

    open spec fn spec_arcs(&self) -> u8 {
        self.arcs
    }

    open spec fn spec_leds(&self) -> u16 {
        self.leds
    }

    open spec fn spec_spine_len(&self, index: u8) -> u8 {
        self.spine_len
    }

    open spec fn spec_tip_len(&self, index: u8) -> u8 {
        self.tip_len
    }

    open spec fn spec_arc_len(&self, index: u8) -> u8 {
        self.arc_len
    }

    fn spines(&self) -> (r: u8) {
        self.spines
    }

    fn arcs(&self) -> (r: u8) {
        self.arcs
    }

    fn leds(&self) -> (r: u16) {
        self.leds
    }

    fn spine_len_at(&self, index: u8) -> (r: u8) {
        self.spine_len
    }

    fn tip_len_at(&self, index: u8) -> (r: u8) {
        self.tip_len
    }

    fn arc_len_at(&self, index: u8) -> (r: u8) {
        self.arc_len
    }
}

/// The LEDs contributed by the first `i` spines of a layout given by three
/// per-spine length sequences.
pub open spec fn varied_total(sp: Seq<u8>, tp: Seq<u8>, ar: Seq<u8>, i: int) -> int
    decreases i,
{
    if i <= 0 {
        0
    } else {
        varied_total(sp, tp, ar, i - 1) + 2 * sp[i - 1] + tp[i - 1] + ar[i - 1]
    }
}

/// A layout with independent per-spine lengths, one vector entry per spine.
/// There are as many arcs as spines; the declared LED count is fixed at
/// construction.
pub struct VariedLayout {
    spine_lens: Vec<u8>,
    tip_lens: Vec<u8>,
    arc_lens: Vec<u8>,
    leds: u16,
}

impl VariedLayout {
    /// The per-spine outward lengths.
    pub closed spec fn spec_spine_lens(&self) -> Seq<u8> {
        self.spine_lens@
    }

    /// The per-spine tip lengths.
    pub closed spec fn spec_tip_lens(&self) -> Seq<u8> {
        self.tip_lens@
    }

    /// The per-spine arc lengths.
    pub closed spec fn spec_arc_lens(&self) -> Seq<u8> {
        self.arc_lens@
    }

    /// Build a layout from per-spine lengths, computing the total LED count.
    pub fn new(spine_lens: Vec<u8>, tip_lens: Vec<u8>, arc_lens: Vec<u8>) -> (r: VariedLayout)
        requires
            spine_lens@.len() == tip_lens@.len(),
            spine_lens@.len() == arc_lens@.len(),
            spine_lens@.len() <= 255,
            varied_total(spine_lens@, tip_lens@, arc_lens@, spine_lens@.len() as int) <= 65535,
        ensures
            r.spec_spine_lens() == spine_lens@,
            r.spec_tip_lens() == tip_lens@,
            r.spec_arc_lens() == arc_lens@,
            r.spec_spines() as int == spine_lens@.len(),
            layout_consistent(&r),
    {
        let n = spine_lens.len();
        let mut total: u32 = 0;
        let mut i: usize = 0;
        while i < n
            invariant
                n == spine_lens@.len(),
                n == tip_lens@.len(),
                n == arc_lens@.len(),
                n <= 255,
                i <= n,
                varied_total(spine_lens@, tip_lens@, arc_lens@, n as int) <= 65535,
                total as int == varied_total(spine_lens@, tip_lens@, arc_lens@, i as int),
                total <= 65535,
            decreases n - i,
        {
            proof {
                lemma_varied_total_mono(spine_lens@, tip_lens@, arc_lens@, i as int + 1, n as int);
            }
            total = total + 2 * spine_lens[i] as u32 + tip_lens[i] as u32 + arc_lens[i] as u32;
            i = i + 1;
        }
        let r = VariedLayout { spine_lens, tip_lens, arc_lens, leds: total as u16 };
        proof {
            lemma_varied_leds_before(&r, n as int);
        }
        r
    }
}

/// The per-spine sum never decreases as more spines are included.
proof fn lemma_varied_total_mono(sp: Seq<u8>, tp: Seq<u8>, ar: Seq<u8>, i: int, j: int)
    requires
        0 <= i <= j,
    ensures
        varied_total(sp, tp, ar, i) <= varied_total(sp, tp, ar, j),
    decreases j - i,
{
    if i < j {
        lemma_varied_total_mono(sp, tp, ar, i, j - 1);
    }
}

/// On a varied layout, the traversal's emitted-before count equals the
/// per-spine sum.
proof fn lemma_varied_leds_before(l: &VariedLayout, i: int)
    requires
        0 <= i <= l.spec_spine_lens().len(),
        l.spec_spine_lens().len() == l.spec_tip_lens().len(),
        l.spec_spine_lens().len() == l.spec_arc_lens().len(),
        l.spec_spine_lens().len() <= 255,
    ensures
        leds_before(l, i) == varied_total(l.spec_spine_lens(), l.spec_tip_lens(), l.spec_arc_lens(), i),
    decreases i,
{
    if i > 0 {
        lemma_varied_leds_before(l, i - 1);
    }
}

impl Layout for VariedLayout {
    open spec fn spec_spines(&self) -> u8 {
        if self.spec_spine_lens().len() <= 255 {
            self.spec_spine_lens().len() as u8
        } else {
            0
        }
    }

    open spec fn spec_arcs(&self) -> u8 {
        if self.spec_arc_lens().len() <= 255 {
            self.spec_arc_lens().len() as u8
        } else {
            0
        }
    }

    closed spec fn spec_leds(&self) -> u16 {
        self.leds
    }

    open spec fn spec_spine_len(&self, index: u8) -> u8 {
        if index < self.spec_spine_lens().len() {
            self.spec_spine_lens()[index as int]
        } else {
            0
        }
    }

    open spec fn spec_tip_len(&self, index: u8) -> u8 {
        if index < self.spec_tip_lens().len() {
            self.spec_tip_lens()[index as int]
        } else {
            0
        }
    }

    open spec fn spec_arc_len(&self, index: u8) -> u8 {
        if index < self.spec_arc_lens().len() {
            self.spec_arc_lens()[index as int]
        } else {
            0
        }
    }

    fn spines(&self) -> (r: u8) {
        if self.spine_lens.len() <= 255 {
            self.spine_lens.len() as u8
        } else {
            0
        }
    }

    fn arcs(&self) -> (r: u8) {
        if self.arc_lens.len() <= 255 {
            self.arc_lens.len() as u8
        } else {
            0
        }
    }

    fn leds(&self) -> (r: u16) {
        self.leds
    }

    fn spine_len_at(&self, index: u8) -> (r: u8) {
        if (index as usize) < self.spine_lens.len() {
            self.spine_lens[index as usize]
        } else {
            0
        }
    }

    fn tip_len_at(&self, index: u8) -> (r: u8) {
        if (index as usize) < self.tip_lens.len() {
            self.tip_lens[index as usize]
        } else {
            0
        }
    }

    fn arc_len_at(&self, index: u8) -> (r: u8) {
        if (index as usize) < self.arc_lens.len() {
            self.arc_lens[index as usize]
        } else {
            0
        }
    }
}


/// A pattern is position-pure for spine queries: the color a spine query
/// answers depends only on the queried indices, never on the generator
/// state.
pub open spec fn spine_query_pure<P: Pattern>(p: &P) -> bool {
    forall|e: Index, led: Index, s1: u16, s2: u16|
        (#[trigger] p.spine_q(e, led, s1)).0 == (#[trigger] p.spine_q(e, led, s2)).0
}

/// Law: the back run mirrors the outward run. On any spine of length `L`,
/// the cursor at outward offset `k` and the cursor at back offset `L - 1 - k`
/// address the same LED, so a pattern whose spine colors depend only on
/// position answers the same color at both.
pub proof fn lemma_mirrored_emissions<L: Layout, P: Pattern>(
    l: &L,
    p: &P,
    out_it: StarIter,
    back_it: StarIter,
    s1: u16,
    s2: u16,
)
    requires
        spine_query_pure(p),
        out_it.current_position == Position::SpineOut,
        back_it.current_position == Position::SpineBack,
        back_it.current_spine == out_it.current_spine,
        out_it.position_offset < l.spec_spine_len(out_it.current_spine),
        back_it.position_offset as int == l.spec_spine_len(out_it.current_spine) - 1
            - out_it.position_offset,
    ensures
        emit_q(l, p, out_it, s1).0 == emit_q(l, p, back_it, s2).0,
{
    let spine = Index { index: out_it.current_spine, total: l.spec_spines() };
    let led = Index {
        index: out_it.position_offset,
        total: l.spec_spine_len(out_it.current_spine),
    };
    assert(emit_q(l, p, out_it, s1).0 == p.spine_q(spine, led, s1).0);
    assert(emit_q(l, p, back_it, s2).0 == p.spine_q(spine, led, s2).0);
}


/// Law: mirroring over a whole traversal. On a star of a single spine of
/// length `L` with no tip and no arc, and a pattern whose spine colors
/// depend only on position, the `k`-th emission (on the outward run) and
/// the `2L-1-k`-th emission (its mirror on the back run) carry the same
/// color: `out[k] == back[L-1-k]`. The cursors are any well-formed cursors
/// parked at those emission counts — exactly what `next` produces.
pub proof fn lemma_mirrored_traversal<L: Layout, P: Pattern>(
    l: &L,
    p: &P,
    out_it: StarIter,
    back_it: StarIter,
    s1: u16,
    s2: u16,
    k: u8,
)
    requires
        spine_query_pure(p),
        layout_consistent(l),
        l.spec_spines() == 1,
        l.spec_tip_len(0) == 0,
        l.spec_arc_len(0) == 0,
        out_it.wf(l),
        back_it.wf(l),
        (k as int) < l.spec_spine_len(0),
        out_it.emitted == k,
        back_it.emitted as int == 2 * l.spec_spine_len(0) - 1 - k,
    ensures
        emit_q(l, p, out_it, s1).0 == emit_q(l, p, back_it, s2).0,
{
    let len = l.spec_spine_len(0) as int;
    assert(leds_before(l, 1) == spine_total(l, 0));
    assert(l.spec_leds() == 2 * len);

    assert(out_it.current_spine == 0 && out_it.current_position == Position::SpineOut
        && out_it.position_offset == k) by {
        assert(out_it.emitted < l.spec_leds());
        assert(leds_before(l, 0) == 0);
    }
    assert(back_it.current_spine == 0 && back_it.current_position == Position::SpineBack
        && back_it.position_offset as int == len - 1 - k) by {
        assert(back_it.emitted < l.spec_leds());
        assert(leds_before(l, 0) == 0);
    }
    lemma_mirrored_emissions(l, p, out_it, back_it, s1, s2);
}

} // verus!
