use led_star::color::Hsv;
use led_star::pattern::Probe;
use led_star::rand::seed;
use led_star::star::Layout;
use led_star::star::Star;
use led_star::star::VariedLayout;

fn collect(star: &Star<VariedLayout, Probe>) -> Vec<Hsv> {
    let mut r = seed(1);
    star.colors(&mut r)
}

#[test]
fn test_even_spine_no_tip() {
    // Single spine with an even number of LEDs (no tip)
    let layout = VariedLayout::new(vec![3], vec![0], vec![1]);
    let star = Star::new(layout, Probe);

    // Should have: 3 out + 0 tip + 3 back + 1 arc = 7 LEDs
    assert_eq!(star.layout.leds(), 7);

    let colors = collect(&star);
    assert_eq!(colors.len(), 7, "Should have exactly 7 LEDs");

    // Check spine out (0, 1, 2)
    assert_eq!(colors[0], Hsv::new(0, 0, 255)); // Spine 0, LED 0
    assert_eq!(colors[1], Hsv::new(0, 1, 255)); // Spine 0, LED 1
    assert_eq!(colors[2], Hsv::new(0, 2, 255)); // Spine 0, LED 2

    // Check spine back (2, 1, 0) - mirrored
    assert_eq!(colors[3], Hsv::new(0, 2, 255)); // Spine 0, LED 2 (mirrored)
    assert_eq!(colors[4], Hsv::new(0, 1, 255)); // Spine 0, LED 1 (mirrored)
    assert_eq!(colors[5], Hsv::new(0, 0, 255)); // Spine 0, LED 0 (mirrored)

    // Check arc
    assert_eq!(colors[6], Hsv::new(0, 0, 64)); // Arc LED
}

#[test]
fn test_odd_spine_with_tip() {
    // Single spine with an odd config (has tip)
    let layout = VariedLayout::new(vec![2], vec![1], vec![2]);
    let star = Star::new(layout, Probe);

    // Should have: 2 out + 1 tip + 2 back + 2 arc = 7 LEDs
    assert_eq!(star.layout.leds(), 7);

    let colors = collect(&star);
    assert_eq!(colors.len(), 7, "Should have exactly 7 LEDs");

    // Check spine out
    assert_eq!(colors[0], Hsv::new(0, 0, 255)); // LED 0
    assert_eq!(colors[1], Hsv::new(0, 1, 255)); // LED 1

    // Check tip (special marker: v=128)
    assert_eq!(colors[2], Hsv::new(0, 255, 128)); // Tip LED

    // Check spine back (mirrored)
    assert_eq!(colors[3], Hsv::new(0, 1, 255)); // LED 1
    assert_eq!(colors[4], Hsv::new(0, 0, 255)); // LED 0

    // Check arc
    assert_eq!(colors[5], Hsv::new(0, 0, 64)); // Arc LED 0
    assert_eq!(colors[6], Hsv::new(0, 1, 64)); // Arc LED 1
}

#[test]
fn test_multiple_spines() {
    // Multiple spines with different lengths
    let layout = VariedLayout::new(vec![2, 3], vec![0, 0], vec![1, 1]);
    let star = Star::new(layout, Probe);

    // Spine 0: 2 out + 2 back + 1 arc = 5
    // Spine 1: 3 out + 3 back + 1 arc = 7
    // Total: 12
    assert_eq!(star.layout.leds(), 12);

    let colors = collect(&star);
    assert_eq!(colors.len(), 12);

    // Spine 0 out
    assert_eq!(colors[0], Hsv::new(0, 0, 255));
    assert_eq!(colors[1], Hsv::new(0, 1, 255));

    // Spine 0 back
    assert_eq!(colors[2], Hsv::new(0, 1, 255));
    assert_eq!(colors[3], Hsv::new(0, 0, 255));

    // Arc 0
    assert_eq!(colors[4], Hsv::new(0, 0, 64));

    // Spine 1 out
    assert_eq!(colors[5], Hsv::new(1, 0, 255));
    assert_eq!(colors[6], Hsv::new(1, 1, 255));
    assert_eq!(colors[7], Hsv::new(1, 2, 255));

    // Spine 1 back
    assert_eq!(colors[8], Hsv::new(1, 2, 255));
    assert_eq!(colors[9], Hsv::new(1, 1, 255));
    assert_eq!(colors[10], Hsv::new(1, 0, 255));

    // Arc 1
    assert_eq!(colors[11], Hsv::new(1, 0, 64));
}

#[test]
fn test_varied_spine_configurations() {
    // Mix of even, odd, and different arc lengths
    let layout = VariedLayout::new(vec![1, 2, 3], vec![1, 0, 1], vec![2, 1, 3]);
    let star = Star::new(layout, Probe);

    // Spine 0: 1 out + 1 tip + 1 back + 2 arc = 5
    // Spine 1: 2 out + 0 tip + 2 back + 1 arc = 5
    // Spine 2: 3 out + 1 tip + 3 back + 3 arc = 10
    // Total: 20
    assert_eq!(star.layout.leds(), 20);

    let colors = collect(&star);
    assert_eq!(colors.len(), 20, "Should have exactly 20 LEDs");
}

#[test]
fn test_iterator_exact_size() {
    let layout = VariedLayout::new(vec![5, 5, 5], vec![0, 0, 0], vec![2, 2, 2]);
    let star = Star::new(layout, Probe);

    let it = star.iter();

    // The remaining count is exact before any step
    assert_eq!(star.remaining(&it), 36); // (5*2 + 2) * 3 = 36

    let colors = collect(&star);
    assert_eq!(colors.len(), 36);
}

#[test]
fn test_no_leds_consumed_twice() {
    // Ensure the traversal never produces more LEDs than declared
    let layout = VariedLayout::new(vec![10], vec![1], vec![3]);
    let star = Star::new(layout, Probe);

    let expected = star.layout.leds() as usize;
    let mut it = star.iter();
    let mut r = seed(1);

    let mut count: usize = 0;
    while star.next(&mut it, &mut r).is_some() {
        count += 1;
        assert!(count <= expected, "Traversal produced more LEDs than expected!");
    }

    assert_eq!(count, expected, "Traversal produced exactly the expected number of LEDs");
}

#[test]
fn test_remaining_counts_down() {
    // The remaining count at step i is exactly leds() - i.
    let layout = VariedLayout::new(vec![2, 1], vec![1, 0], vec![0, 2]);
    let star = Star::new(layout, Probe);
    let total = star.layout.leds();
    let mut it = star.iter();
    let mut r = seed(1);

    for i in 0..total {
        assert_eq!(star.remaining(&it), total - i);
        assert!(star.next(&mut it, &mut r).is_some());
    }
    assert_eq!(star.remaining(&it), 0);
    assert!(star.next(&mut it, &mut r).is_none());
}

#[test]
fn test_mirroring_symmetry() {
    // Verify that spine out and back have symmetric LED indices
    let layout = VariedLayout::new(vec![5], vec![0], vec![0]);
    let star = Star::new(layout, Probe);

    let colors = collect(&star);

    // Spine out: 0, 1, 2, 3, 4
    // Spine back: 4, 3, 2, 1, 0 (should mirror)
    for i in 0..5 {
        assert_eq!(
            colors[i].s,     // LED index going out
            colors[9 - i].s, // LED index coming back (mirrored)
            "LED at position {} out should match position {} back",
            i,
            9 - i
        );
    }
}

#[test]
fn test_empty_arc() {
    // Test with no arc LEDs
    let layout = VariedLayout::new(vec![3, 3], vec![0, 0], vec![0, 0]);
    let star = Star::new(layout, Probe);

    // Should have: (3*2) * 2 = 12 LEDs total
    assert_eq!(star.layout.leds(), 12);

    let colors = collect(&star);
    assert_eq!(colors.len(), 12);

    // All should be spine LEDs (v=255), no arc LEDs (v=64)
    assert!(colors.iter().all(|c| c.v == 255));
}

#[test]
fn test_single_led_spine() {
    // Edge case: spine with just 1 LED
    let layout = VariedLayout::new(vec![1], vec![0], vec![1]);
    let star = Star::new(layout, Probe);

    // 1 out + 1 back + 1 arc = 3
    assert_eq!(star.layout.leds(), 3);

    let colors = collect(&star);
    assert_eq!(colors.len(), 3);

    // Both out and back should reference LED 0
    assert_eq!(colors[0], Hsv::new(0, 0, 255)); // Out
    assert_eq!(colors[1], Hsv::new(0, 0, 255)); // Back (same LED)
    assert_eq!(colors[2], Hsv::new(0, 0, 64)); // Arc
}

#[test]
fn test_empty_spine_skipped() {
    // A zero-length spine contributes nothing and is skipped entirely.
    let layout = VariedLayout::new(vec![0, 2], vec![0, 0], vec![0, 1]);
    let star = Star::new(layout, Probe);

    assert_eq!(star.layout.leds(), 5);
    let colors = collect(&star);
    assert_eq!(colors.len(), 5);
    // Everything emitted belongs to spine 1.
    assert!(colors.iter().all(|c| c.h == 1));
}

#[test]
fn test_config_star_frame() {
    // The shipped configuration: twelve spines of 35 LEDs, no tips, twelve
    // five-LED arcs — 900 LEDs per frame, exactly.
    let mut r = seed(7);
    let layout = led_star::config::layout();
    let pattern = led_star::config::pattern(&mut r);
    let mut star = Star::new(layout, pattern);

    for _ in 0..3 {
        star.tick(&mut r);
        let colors = star.colors(&mut r);
        assert_eq!(colors.len(), 900);
    }
}
