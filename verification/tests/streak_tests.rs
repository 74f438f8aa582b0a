use led_star::color::Hsv;
use led_star::osc::Constant;
use led_star::osc::OscillatorExt;
use led_star::osc::sawtooth;
use led_star::pattern::Index;
use led_star::pattern::Pattern;
use led_star::rand::seed;
use led_star::streak::ArcStreak;
use led_star::streak::StreakSpawner;
use led_star::streak::StreakState;
use led_star::streak::map_i8_to_3bit;
use led_star::streak::map_i8_to_5bit;
use led_star::streak::velocity_to_multiplier;

#[test]
fn test_streak_state_new() {
    let state = StreakState::new(10, 5);
    assert_eq!(state.position_fixed(), 0);
    assert_eq!(state.position(), 0);
    assert_eq!(state.length(), 10);
    assert_eq!(state.velocity_multiplier(), 5);
}

#[test]
fn test_streak_state_position() {
    let mut state = StreakState::new(0, 0);

    // Set position to 8 in fixed-point (4.0 in 7.1 format)
    state.set_position(8);
    assert_eq!(state.position(), 4);
    assert_eq!(state.position_fixed(), 8);

    // Set position to 255 (maximum)
    state.set_position(255);
    assert_eq!(state.position(), 127); // Top 7 bits
    assert_eq!(state.position_fixed(), 255);
}

#[test]
fn test_map_i8_to_5bit() {
    assert_eq!(map_i8_to_5bit(-128), 0);
    assert_eq!(map_i8_to_5bit(0), 16); // (0+128) / 8 = 128 / 8 = 16
    assert_eq!(map_i8_to_5bit(127), 31);
}

#[test]
fn test_map_i8_to_3bit() {
    assert_eq!(map_i8_to_3bit(-128), 0);
    assert_eq!(map_i8_to_3bit(0), 4); // (0+128) / 32 = 128 / 32 = 4
    assert_eq!(map_i8_to_3bit(127), 7);
}

#[test]
fn test_velocity_to_multiplier() {
    assert_eq!(velocity_to_multiplier(0), 1); // 0.5x in 7.1
    assert_eq!(velocity_to_multiplier(7), 4); // 2.0x in 7.1
}

fn brightness_row<P: Pattern>(pattern: &P, leds: u8) -> Vec<u8> {
    let mut r = seed(1);
    let mut row = Vec::new();
    for led in 0..leds {
        let color = pattern.spine_color_at(
            Index { index: 0, total: leds },
            Index { index: led, total: leds },
            &mut r,
        );
        row.push(color.v);
    }
    row
}

#[test]
fn test_streak_spawner_basic() {
    let mut r = seed(1);
    let mut pattern = StreakSpawner::new(
        sawtooth().saturating_sub(126), // spawn once per peak
        Constant::new(64),              // mid-range length (24)
        Constant::new(64),              // mid-range velocity (1.5x)
        Constant::new(8),               // 8 LEDs total
        Hsv::new(0, 0, 255),
        vec![StreakState::default(); 8],
    );

    // No streak until the spawn oscillator's peak: every LED stays dark.
    for _ in 0..126 {
        pattern.tick(&mut r);
        assert_eq!(brightness_row(&pattern, 8), vec![0; 8]);
    }

    // The triggering tick spawns one streak; it advances 3 half-steps on
    // that same tick, putting its head on LED 1 at full brightness, with
    // LED 0 one step into the falloff: (24-1)*255/24 = 244.
    pattern.tick(&mut r);
    let row = brightness_row(&pattern, 8);
    assert_eq!(row[1], 255);
    assert_eq!(row[0], 244);
    assert_eq!(&row[2..], &[0; 6]);

    // The streak is culled once its tail leaves the 8-LED strip; well after
    // that (and before the next peak) everything is dark again.
    for _ in 0..40 {
        pattern.tick(&mut r);
    }
    assert_eq!(brightness_row(&pattern, 8), vec![0; 8]);
}

#[test]
fn test_streak_spawner_slow() {
    let mut r = seed(1);
    let mut pattern = StreakSpawner::new(
        sawtooth().saturating_sub(126), // spawn once per peak
        Constant::new(64),              // mid-range length (24)
        Constant::new(-64),             // slow velocity (0.5x)
        Constant::new(16),              // 16 LEDs total
        Hsv::new(0, 0, 255),
        vec![StreakState::default(); 8],
    );

    for _ in 0..126 {
        pattern.tick(&mut r);
        assert_eq!(brightness_row(&pattern, 16), vec![0; 16]);
    }

    // At half speed the head moves one half-step per tick: still on LED 0
    // on the triggering tick, on LED 1 a tick later.
    pattern.tick(&mut r);
    let row = brightness_row(&pattern, 16);
    assert_eq!(row[0], 255);
    assert_eq!(&row[1..], &[0; 15]);

    pattern.tick(&mut r);
    let row = brightness_row(&pattern, 16);
    assert_eq!(row[1], 255);
    assert_eq!(row[0], 244); // (24-1)*255/24
    assert_eq!(&row[2..], &[0; 14]);
}

#[test]
fn test_streak_lifecycle() {
    // Spawn trigger fires exactly once per sawtooth cycle; length quantizes
    // to 8, the total-length oscillator holds 12, velocity is the fastest
    // (two LEDs per tick). The streak appears on the triggering tick and is
    // removed exactly when floor(head) - length >= total.
    let mut r = seed(1);
    let mut pattern = StreakSpawner::new(
        sawtooth().saturating_sub(126),
        Constant::new(-64), // quantizes to length 8
        Constant::new(127), // velocity code 7: 2 LEDs per tick
        Constant::new(12),  // total length 12
        Hsv::new(0, 0, 255),
        vec![StreakState::default(); 8],
    );

    for t in 1..=150 {
        pattern.tick(&mut r);
        // Head position after tick t >= 127 is 2*(t-126) LEDs; the streak
        // lives while head - 8 < 12, i.e. through t = 135.
        let expected = if (127..=135).contains(&t) { 1 } else { 0 };
        assert_eq!(pattern.streaks.len(), expected, "at tick {}", t);
    }
}

#[test]
fn test_arc_streak_wraparound() {
    // Three arcs of four LEDs each: twelve positions around the circle.
    // The head sits at global position 4; a query behind it measures the
    // straight distance, one ahead of it wraps around the end of the strip.
    let streak: ArcStreak<Constant, Constant, Hsv, 4, 3> = ArcStreak {
        position: 8, // 7.1 fixed point: head at global LED 4
        length: Constant::new(127), // quantizes to length 31
        velocity: Constant::new(0),
        inner: Hsv::new(9, 10, 255),
    };
    let mut r = seed(1);

    // Arc 0, LED 1: global 1, behind the head: distance 3.
    let c = streak.arc_color_at(
        Index { index: 0, total: 3 },
        Index { index: 1, total: 4 },
        &mut r,
    );
    assert_eq!(c.h, 9);
    assert_eq!(c.s, 10);
    assert_eq!(c.v as u16, (31 - 3) * 255 / 31);

    // Arc 2, LED 2: global 10, ahead of the head: distance wraps to
    // (12 - 10) + 4 = 6.
    let c = streak.arc_color_at(
        Index { index: 2, total: 3 },
        Index { index: 2, total: 4 },
        &mut r,
    );
    assert_eq!(c.v as u16, (31 - 6) * 255 / 31);

    // Spine and tip queries are untouched by the arc streak: black.
    let c = streak.spine_color_at(
        Index { index: 0, total: 3 },
        Index { index: 0, total: 4 },
        &mut r,
    );
    assert_eq!((c.h, c.s, c.v), (0, 0, 0));
}
