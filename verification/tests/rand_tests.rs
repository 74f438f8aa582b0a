use led_star::rand::seed;

#[test]
fn test_seed_deterministic() {
    let mut r = seed(12345);
    let a = r.i8();
    let b = r.i8();

    let mut r = seed(12345);
    let c = r.i8();
    let d = r.i8();

    assert_eq!(a, c);
    assert_eq!(b, d);
}

#[test]
fn test_range_u8() {
    let mut r = seed(42);
    for _ in 0..100 {
        let val = r.range_u8(10, 20);
        assert!((10..=20).contains(&val));
    }
}

#[test]
fn test_range_u8_single() {
    let mut r = seed(1);
    let val = r.range_u8(5, 5);
    assert_eq!(val, 5);
}
