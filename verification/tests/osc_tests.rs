use led_star::osc::Add;
use led_star::osc::Constant;
use led_star::osc::FrequencyClock;
use led_star::osc::Mul;
use led_star::osc::Neg;
use led_star::osc::Oscillator;
use led_star::osc::Rng;
use led_star::osc::RandomPulse;
use led_star::osc::Sawtooth;
use led_star::osc::Sine;
use led_star::osc::Square;
use led_star::osc::Sub;
use led_star::osc::Triangle;
use led_star::osc::Value;
use led_star::osc::WithFrequency;
use led_star::rand::seed;

#[test]
fn test_constant() {
    let mut r = seed(1);
    let mut osc = Constant::new(42);
    assert_eq!(osc.get(&mut r), 42);
    osc.tick(&mut r);
    assert_eq!(osc.get(&mut r), 42);
}

#[test]
fn test_value_oscillator() {
    let mut r = seed(1);
    let mut osc: Value = 10;
    assert_eq!(osc.get(&mut r), 10);
    osc.tick(&mut r);
    assert_eq!(osc.get(&mut r), 10);
}

#[test]
fn test_triangle() {
    let mut r = seed(1);
    let mut tri = Triangle::new();

    // Start at 0
    assert_eq!(tri.get(&mut r), 0);

    // Should count up
    tri.tick(&mut r);
    assert_eq!(tri.get(&mut r), 1);
    tri.tick(&mut r);
    assert_eq!(tri.get(&mut r), 2);

    // Continue to max
    for _ in 0..125 {
        tri.tick(&mut r);
    }
    assert_eq!(tri.get(&mut r), 127);

    // At max, direction reverses - should count back down
    tri.tick(&mut r);
    assert_eq!(tri.get(&mut r), 126);
    tri.tick(&mut r);
    assert_eq!(tri.get(&mut r), 125);

    // Continue down to min
    for _ in 0..253 {
        tri.tick(&mut r);
    }
    assert_eq!(tri.get(&mut r), -128);

    // At min, direction reverses - should count back up
    tri.tick(&mut r);
    assert_eq!(tri.get(&mut r), -127);
    tri.tick(&mut r);
    assert_eq!(tri.get(&mut r), -126);
}

#[test]
fn test_sawtooth() {
    let mut r = seed(1);
    let mut saw = Sawtooth { counter: 0 };

    assert_eq!(saw.get(&mut r), 0);
    saw.tick(&mut r);
    assert_eq!(saw.get(&mut r), 1);

    // Should count up continuously
    for i in 2..=127 {
        saw.tick(&mut r);
        assert_eq!(saw.get(&mut r), i);
    }

    // Wrap around
    saw.tick(&mut r);
    assert_eq!(saw.get(&mut r), -128);
}

#[test]
fn test_square() {
    let mut r = seed(1);
    let mut sq = Square { counter: 0, duty_cycle: Constant::new(0) };

    // With duty cycle at 0, should always be MAX
    assert_eq!(sq.get(&mut r), i8::MAX);
    sq.tick(&mut r);
    assert_eq!(sq.get(&mut r), i8::MAX);

    let mut sq = Square { counter: 0, duty_cycle: Constant::new(64) };

    // First half should be MIN
    assert_eq!(sq.get(&mut r), i8::MIN);
    for _ in 0..63 {
        sq.tick(&mut r);
        assert_eq!(sq.get(&mut r), i8::MIN);
    }

    // Second half should be MAX
    sq.tick(&mut r);
    assert_eq!(sq.get(&mut r), i8::MAX);
}

#[test]
fn test_sine() {
    let mut r = seed(1);
    let mut sine = Sine { counter: 0 };

    // At 0 degrees, sine should be 0
    assert_eq!(sine.get(&mut r), 0);

    // At 64 (90 degrees), should be at max
    for _ in 0..64 {
        sine.tick(&mut r);
    }
    assert_eq!(sine.get(&mut r), 127);

    // At 128 (180 degrees), should be back to 0
    for _ in 0..64 {
        sine.tick(&mut r);
    }
    assert_eq!(sine.get(&mut r), 0);

    // At 192 (270 degrees), should be at min
    for _ in 0..64 {
        sine.tick(&mut r);
    }
    assert_eq!(sine.get(&mut r), -127);
}

#[test]
fn test_sine_multiple_cycles_calculated() {
    let mut r = seed(1);
    let mut sine = Sine::new();

    // Test 3 complete cycles
    for cycle in 0..3 {
        for step in 0..256 {
            let actual = sine.get(&mut r);

            // Calculate the expected value using f32
            // counter ranges from 0-255, representing 0-360 degrees
            let angle = (step as f32 / 256.0) * 2.0 * std::f32::consts::PI;
            let sine_value = angle.sin();
            let expected = (sine_value * 127.0).round() as i8;

            // Allow for quantization error from the 64-entry LUT
            let diff = (actual - expected).abs();
            assert!(
                diff <= 4,
                "Cycle {}, step {}: expected {} (angle: {:.2}°), got {} (diff: {})",
                cycle,
                step,
                expected,
                step as f32 * 360.0 / 256.0,
                actual,
                diff
            );

            sine.tick(&mut r);
        }
    }

    // Verify the oscillator wrapped correctly back to start
    assert_eq!(sine.get(&mut r), 0, "After 3 complete cycles, should be back at 0");
}

#[test]
fn test_neg() {
    let mut r = seed(1);
    let mut inv = Neg { inner: Constant::new(42) };

    assert_eq!(inv.get(&mut r), -42);
    inv.tick(&mut r);
    assert_eq!(inv.get(&mut r), -42);

    let mut inv = Neg { inner: Sawtooth { counter: 10 } };

    assert_eq!(inv.get(&mut r), -10);
    inv.tick(&mut r);
    assert_eq!(inv.get(&mut r), -11);
}

#[test]
fn test_neg_minimum() {
    // Negating the minimum signal yields the maximum, never a trap.
    let mut r = seed(1);
    let inv = Neg { inner: Constant::new(-128) };
    assert_eq!(inv.get(&mut r), 127);
}

#[test]
fn test_add() {
    let mut r = seed(1);
    let mut add = Add(Constant::new(10), Constant::new(20));

    assert_eq!(add.get(&mut r), 30);
    add.tick(&mut r);
    assert_eq!(add.get(&mut r), 30);

    // Test wrapping
    let add = Add(Constant::new(100), Constant::new(100));
    assert_eq!(add.get(&mut r), -56); // 200 wraps to -56
}

#[test]
fn test_sub() {
    let mut r = seed(1);
    let sub = Sub(Constant::new(50), Constant::new(20));

    assert_eq!(sub.get(&mut r), 30);
}

#[test]
fn test_mul() {
    let mut r = seed(1);
    let mul = Mul(Constant::new(10), Constant::new(5));

    assert_eq!(mul.get(&mut r), 50);
}

#[test]
fn test_frequency_clock_zero() {
    let mut clock = FrequencyClock::default();

    // At frequency 0, should tick once per call
    assert_eq!(clock.tick(0), 1);
    assert_eq!(clock.tick(0), 1);
    assert_eq!(clock.tick(0), 1);
}

#[test]
fn test_frequency_clock_positive() {
    let mut clock = FrequencyClock::default();

    // At max positive frequency (127), should tick ~4x per call
    let mut total_ticks: u32 = 0;
    for _ in 0..10 {
        total_ticks += clock.tick(i8::MAX) as u32;
    }

    // Should be close to 40 ticks (4x speed over 10 calls)
    assert!(total_ticks >= 38 && total_ticks <= 42, "Got {} ticks", total_ticks);
}

#[test]
fn test_frequency_clock_negative() {
    let mut clock = FrequencyClock::default();

    // At max negative frequency (-128), should tick ~0.25x per call
    let mut total_ticks: u32 = 0;
    for _ in 0..100 {
        total_ticks += clock.tick(i8::MIN) as u32;
    }

    // Should be close to 25 ticks (0.25x speed over 100 calls)
    assert!(total_ticks >= 23 && total_ticks <= 27, "Got {} ticks", total_ticks);
}

#[test]
fn test_frequency_clock_mid_positive() {
    let mut clock = FrequencyClock::default();

    // At mid-range positive frequency (64), should tick ~2.5x per call
    let mut total_ticks: u32 = 0;
    for _ in 0..10 {
        total_ticks += clock.tick(64) as u32;
    }

    // Should be close to 25 ticks (2.5x speed over 10 calls)
    assert!(total_ticks >= 23 && total_ticks <= 27, "Got {} ticks", total_ticks);
}

#[test]
fn test_frequency_clock_mid_negative() {
    let mut clock = FrequencyClock::default();

    // At mid-range negative frequency (-64), should tick ~0.625x per call
    let mut total_ticks: u32 = 0;
    for _ in 0..100 {
        total_ticks += clock.tick(-64) as u32;
    }

    // Should be close to 62-63 ticks (0.625x speed over 100 calls)
    assert!(total_ticks >= 60 && total_ticks <= 65, "Got {} ticks", total_ticks);
}

#[test]
fn test_with_frequency() {
    let mut r = seed(1);
    let mut osc = WithFrequency::new(Sawtooth { counter: 0 }, Constant::new(0));

    // At frequency 0, should advance normally
    assert_eq!(osc.get(&mut r), 0);
    osc.tick(&mut r);
    assert_eq!(osc.get(&mut r), 1);
    osc.tick(&mut r);
    assert_eq!(osc.get(&mut r), 2);
}

#[test]
fn test_with_frequency_fast() {
    let mut r = seed(1);
    let mut osc = WithFrequency::new(Sawtooth { counter: 0 }, Constant::new(127));

    // At max frequency, should advance 4x faster
    for _ in 0..256 {
        let before = osc.get(&mut r);
        osc.tick(&mut r);
        let after = osc.get(&mut r);
        assert_eq!(after, before.wrapping_add(4));
    }
}

#[test]
fn test_with_frequency_slow() {
    let mut r = seed(1);
    let mut osc = WithFrequency::new(Sawtooth { counter: 0 }, Constant::new(-128));

    // At min frequency, should advance at 0.25x speed
    for i in 0..(256 * 5) {
        let before = osc.get(&mut r);
        osc.tick(&mut r);
        let after = osc.get(&mut r);
        if i % 4 == 3 {
            assert_eq!(after, before.wrapping_add(1));
        } else {
            assert_eq!(after, before);
        }
    }
}

#[test]
fn test_rng() {
    let mut r = seed(42);
    let mut rng = Rng;

    // Should produce different values
    let a = rng.get(&mut r);
    let b = rng.get(&mut r);
    let c = rng.get(&mut r);

    // Very unlikely to get three identical values
    assert!(a != b || b != c);

    // tick() should be a no-op
    rng.tick(&mut r);
    let d = rng.get(&mut r);
    assert!(d != c); // Still producing different values
}

#[test]
fn test_random_pulse() {
    let mut r = seed(123);
    let mut pulse = RandomPulse::new(5, 10, &mut r);

    let mut pulse_count: u32 = 0;
    let mut min_count: u32 = 0;

    // Run for several cycles
    for _ in 0..100 {
        let val = pulse.get(&mut r);
        if val == 127 {
            pulse_count += 1;
        } else if val == -128 {
            min_count += 1;
        }
        pulse.tick(&mut r);
    }

    // Should have emitted some pulses
    assert!(pulse_count > 0);
    assert!(min_count > 0);
    // Most ticks should be at the minimum (counting down)
    assert!(min_count > pulse_count);
}
