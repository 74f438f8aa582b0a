//! The sculpture's start-up configuration: its fixed wiring layout (twelve
//! spines of 35 LEDs each, no tips, twelve five-LED arcs) and the pattern
//! tree built once at start-up — per-spine streak spawners over hue-rotating
//! oscillators, and a single arc streak circling the inner sphere.

use crate::color::Hsv;
use crate::osc::Add;
use crate::osc::Constant;
use crate::osc::Max;
use crate::osc::Oscillator;
use crate::osc::OscillatorExt;
use crate::osc::RandomPulse;
use crate::osc::Rng;
use crate::osc::Sawtooth;
use crate::osc::Triangle;
use crate::osc::random_pulse;
use crate::osc::rng;
use crate::osc::sawtooth;
use crate::osc::signal_from_u8;
use crate::osc::triangle;
use crate::pattern;
use crate::pattern::Pattern;
use crate::pattern::Compound;
use crate::pattern::PerSpine;
use crate::rand::Rand;
use crate::rand::spec_u8_as_i8;
use crate::star::layout_consistent;
use crate::star::lemma_uniform_leds_before;
use crate::star::queries_ok;
use crate::streak::ArcStreak;
use crate::streak::StreakSpawner;
use crate::streak::StreakState;
use vstd::prelude::*;

verus! {

/// LEDs on one spine's outward run.
pub const SPINE_LEN: u8 = 70 / 2;

/// LEDs on one spine's tip.
pub const TIP_LEN: u8 = 0;

/// LEDs on one connecting arc.
pub const ARC_LEN: u8 = 5;

/// Number of spines.
pub const SPINE_COUNT: u8 = 12;

/// Number of arcs.
pub const ARC_COUNT: u8 = 12;

/// Total LEDs: doubled spine runs, plus arcs, plus tips.
pub const LED_COUNT: u16 = 900;

/// The sculpture's wiring description.
#[derive(Clone, Copy, Debug, PartialEq, Eq, Structural)]
pub struct Layout;

impl crate::star::Layout for Layout {
    open spec fn spec_spines(&self) -> u8 {
        SPINE_COUNT
    }

    open spec fn spec_arcs(&self) -> u8 {
        ARC_COUNT
    }

    open spec fn spec_leds(&self) -> u16 {
        LED_COUNT
    }

    open spec fn spec_spine_len(&self, index: u8) -> u8 {
        SPINE_LEN
    }

    open spec fn spec_tip_len(&self, index: u8) -> u8 {
        TIP_LEN
    }

    open spec fn spec_arc_len(&self, index: u8) -> u8 {
        ARC_LEN
    }

    fn spines(&self) -> (r: u8) {
        SPINE_COUNT
    }

    fn arcs(&self) -> (r: u8) {
        ARC_COUNT
    }

    fn leds(&self) -> (r: u16) {
        LED_COUNT
    }

    fn spine_len_at(&self, index: u8) -> (r: u8) {
        SPINE_LEN
    }

    fn tip_len_at(&self, index: u8) -> (r: u8) {
        TIP_LEN
    }

    fn arc_len_at(&self, index: u8) -> (r: u8) {
        ARC_LEN
    }
}

/// The oscillator triple coloring one spine: hue rotating around the wheel
/// with a per-spine phase, saturation swinging on a triangle, full value.
pub type SpineColor = pattern::Oscillator<Add<Sawtooth, i8>, Triangle, i8>;

/// One spine's pattern: randomly spawned streaks of random length and
/// velocity, overlaid on the spine's color oscillators.
pub type SpinePattern = StreakSpawner<
    RandomPulse<Constant, Constant>,
    Max<Rng, Constant>,
    Rng,
    Constant,
    SpineColor,
>;

/// The arcs' pattern: a hue-rotating oscillator under a single circular
/// streak.
pub type ArcPattern = ArcStreak<
    Constant,
    Constant,
    pattern::Oscillator<Sawtooth, Constant, Constant>,
    ARC_LEN,
    ARC_COUNT,
>;

/// The whole sculpture's pattern tree.
pub type StarPattern = Compound<PerSpine<SpinePattern>, Hsv, ArcPattern>;


/// The spawn-pulse oscillator of a spine, as built and before its
/// construction tick: a random pulse whose interval floor is five ticks and
/// whose ceiling oscillator reads as the widest byte.
pub open spec fn spec_spawn_pulse() -> RandomPulse<Constant, Constant> {
    RandomPulse {
        counter: 0u8,
        min_count: Constant { value: 5i8 },
        max_count: Constant { value: -128i8 },
    }
}

/// The hue phase of a spine: its index scaled onto the color wheel.
pub open spec fn spec_spine_phase(spine: u8) -> i8 {
    spec_u8_as_i8((spine as int * (255int / SPINE_COUNT as int)) as u8)
}

/// The color oscillators of a spine: phased hue rotation, triangle-swung
/// saturation, full value.
pub open spec fn spec_spine_color(spine: u8) -> SpineColor {
    pattern::Oscillator {
        h: Add(Sawtooth { counter: 0i8 }, spec_spine_phase(spine)),
        s: Triangle { counter: 0i8, direction: true },
        v: 127i8,
    }
}

/// Everything `spine_pattern` builds for a spine, given the generator state
/// at its construction tick: the spawner already ticked once, the random
/// length and velocity oscillators, the spine's total length, the phased
/// color oscillators, and an allocator of eight unoccupied zeroed slots.
pub open spec fn spine_pattern_built(r: SpinePattern, spine: u8, s: u16) -> bool {
    &&& r.spawner == spec_spawn_pulse().stepped(s)
    &&& r.length == (Max(Rng, Constant { value: 2i8 }))
    &&& r.velocity == (Rng)
    &&& r.total_leds == (Constant { value: SPINE_LEN as i8 })
    &&& r.inner == spec_spine_color(spine)
    &&& r.streaks.occupied_mask() == 0
    &&& r.streaks.values().len() == 8
    &&& forall|i: int|
        0 <= i < 8 ==> r.streaks.values()[i] == (StreakState { pos: 0u8, len_vel: 0u8 })
}

/// The spine a slot of the per-spine array is phased for: the staggering
/// that puts related hues on opposite spines.
pub open spec fn spec_spine_index(i: int) -> u8 {
    ((i + SPINE_COUNT as int / 2 - 1) % (SPINE_COUNT as int)) as u8
}

/// The generator state after the first `i` spine patterns are built: each
/// construction draws once through its spawn pulse's initial tick.
pub open spec fn spec_spines_rand(s: u16, i: int) -> u16
    decreases i,
{
    if i <= 0 {
        s
    } else {
        spec_spawn_pulse().state_after_tick(spec_spines_rand(s, i - 1))
    }
}

/// The sculpture's wiring layout.
pub fn layout() -> (r: Layout)
    ensures
        layout_consistent(&r),
{
    let r = Layout;
    proof {
        lemma_uniform_leds_before(&r, SPINE_LEN, TIP_LEN, ARC_LEN, SPINE_COUNT as int);
    }
    r
}

/// The pattern tree built at start-up: per-spine streak spawners, black
/// tips, and the arc streak.
pub fn pattern(rand: &mut Rand) -> (r: StarPattern)
    ensures
        r.wf(),
        queries_ok(&(Layout {  }), &r),
        r.spine.values@.len() == SPINE_COUNT,
        forall|i: int|
            0 <= i < SPINE_COUNT ==> #[trigger] spine_pattern_built(
                r.spine.values@[i],
                spec_spine_index(i),
                spec_spines_rand(old(rand).state(), i),
            ),
        r.tip == (Hsv { h: 0, s: 0, v: 0 }),
        r.arc.position == 0,
        r.arc.length == (Constant { value: 64i8 }),
        r.arc.velocity == (Constant { value: 0i8 }),
        r.arc.inner == (pattern::Oscillator {
            h: (Sawtooth { counter: 0i8 }),
            s: (Constant { value: 127i8 }),
            v: (Constant { value: 127i8 }),
        }),
        final(rand).state() == spec_spines_rand(old(rand).state(), SPINE_COUNT as int),
{
    Compound { spine: spines(rand), tip: Hsv::new(0, 0, 0), arc: arc_pattern() }
}

/// The arcs' pattern: a slowly hue-rotating base under one circular streak
/// of fixed length and base velocity.
pub fn arc_pattern() -> (r: ArcPattern)
    ensures
        r.wf(),
        r.position == 0,
        r.length == (Constant { value: 64i8 }),
        r.velocity == (Constant { value: 0i8 }),
        r.inner == (pattern::Oscillator {
            h: (Sawtooth { counter: 0i8 }),
            s: (Constant { value: 127i8 }),
            v: (Constant { value: 127i8 }),
        }),
{
    let osc = pattern::Oscillator {
        h: sawtooth(),
        s: Constant::new(127),
        v: Constant::new(127),
    };

    ArcStreak::<_, _, _, ARC_LEN, ARC_COUNT>::new(
        Constant::new(64),  // length oscillator: about 20 LEDs
        Constant::new(0),  // velocity oscillator: base speed
        osc,
    )
}

/// One spine's pattern: hue rotated by a per-spine phase so the twelve
/// spines spread around the color wheel, with randomly spawned streaks.
pub fn spine_pattern(spine: u8, rand: &mut Rand) -> (r: SpinePattern)
    requires
        spine < SPINE_COUNT,
    ensures
        r.wf(),
        spine_pattern_built(r, spine, old(rand).state()),
        final(rand).state() == spec_spawn_pulse().state_after_tick(old(rand).state()),
{
    let values_per_spine: u8 = 255 / SPINE_COUNT;
    assert(spine * values_per_spine < 256) by (nonlinear_arith)
        requires
            spine < 12 && values_per_spine == 21,
    ;
    let phase: i8 = signal_from_u8(spine * values_per_spine);

    let osc = pattern::Oscillator {
        // rotate the hue around the color wheel
        h: sawtooth().add(phase),
        // oscillate the saturation
        s: triangle(),
        // max value by default
        v: 127i8,
    };

    let mut streaks: Vec<StreakState> = Vec::new();
    let mut i: u8 = 0;
    while i < 8
        invariant
            streaks@.len() == i,
            i <= 8,
            forall|j: int|
                0 <= j < i ==> streaks@[j] == (StreakState { pos: 0u8, len_vel: 0u8 }),
        decreases 8 - i,
    {
        streaks.push(StreakState::default());
        i = i + 1;
    }

    StreakSpawner::new(
        // randomly spawn streaks
        random_pulse(Constant::new(5), Constant::new(-128), rand),
        // randomize lengths
        rng().max(Constant::new(2)),
        // randomize velocities
        rng(),
        // total LEDs in the spine
        Constant::new(SPINE_LEN as i8),
        osc,
        streaks,
    )
}

/// One pattern per spine, phases staggered so that opposite spines carry
/// related hues.
pub fn spines(rand: &mut Rand) -> (r: PerSpine<SpinePattern>)
    ensures
        r.wf(),
        r.values@.len() == SPINE_COUNT,
        forall|i: int|
            0 <= i < SPINE_COUNT ==> #[trigger] spine_pattern_built(
                r.values@[i],
                spec_spine_index(i),
                spec_spines_rand(old(rand).state(), i),
            ),
        final(rand).state() == spec_spines_rand(old(rand).state(), SPINE_COUNT as int),
{
    let ghost s0 = rand.state();
    let mut values: Vec<SpinePattern> = Vec::new();
    let mut v: u8 = 0;
    while v < SPINE_COUNT
        invariant
            s0 == old(rand).state(),
            values@.len() == v,
            v <= SPINE_COUNT,
            rand.state() == spec_spines_rand(s0, v as int),
            forall|j: int| 0 <= j < v ==> (#[trigger] values@[j]).wf(),
            forall|j: int|
                0 <= j < v ==> #[trigger] spine_pattern_built(
                    values@[j],
                    spec_spine_index(j),
                    spec_spines_rand(s0, j),
                ),
        decreases SPINE_COUNT - v,
    {
        let idx = (v + SPINE_COUNT / 2 - 1) % SPINE_COUNT;
        assert(idx == spec_spine_index(v as int));
        values.push(spine_pattern(idx, rand));
        v = v + 1;
    }
    PerSpine::new(values)
}

} // verus!
