use led_star::color::Hsv;
use led_star::color::scale8;

#[test]
fn test_hsv_to_rgb_grayscale() {
    // Zero saturation should produce grayscale
    // Note: scale8(200, 255) = 199 due to the fast approximation
    let hsv = Hsv::new(128, 0, 200);
    let rgb = hsv.to_rgb();
    assert_eq!(rgb.r, 199);
    assert_eq!(rgb.g, 199);
    assert_eq!(rgb.b, 199);
}

#[test]
fn test_hsv_to_rgb_pure_red() {
    // Pure red: h=0, full saturation and value
    // Note: the scale8 fast approximation produces 254 for 255*255
    let hsv = Hsv::new(0, 255, 255);
    let rgb = hsv.to_rgb();
    assert!(rgb.r >= 254); // Fast approximation
    assert!(rgb.g < 10); // Should be very close to 0
    assert_eq!(rgb.b, 0);
}

#[test]
fn test_hsv_to_rgb_pure_green() {
    // Pure green: h≈85 (256/6 * 2), full saturation and value
    let hsv = Hsv::new(85, 255, 255);
    let rgb = hsv.to_rgb();
    assert!(rgb.r < 10);
    assert!(rgb.g >= 254); // Fast approximation
    assert_eq!(rgb.b, 0);
}

#[test]
fn test_hsv_to_rgb_pure_blue() {
    // Pure blue: h≈170 (256/6 * 4), full saturation and value
    let hsv = Hsv::new(170, 255, 255);
    let rgb = hsv.to_rgb();
    assert_eq!(rgb.r, 0);
    assert!(rgb.g < 10);
    assert!(rgb.b >= 254); // Fast approximation
}

#[test]
fn test_hsv_to_rgb_with_brightness() {
    // Test brightness scaling
    let hsv = Hsv::new(0, 255, 255);
    let rgb = hsv.to_rgb_with_brightness(128);
    // Should be roughly half brightness
    assert!(rgb.r >= 127 && rgb.r <= 128);
    assert!(rgb.g < 5);
    assert_eq!(rgb.b, 0);
}

#[test]
fn test_hsv_to_rgb_black() {
    // Zero value should produce black
    let hsv = Hsv::new(128, 255, 0);
    let rgb = hsv.to_rgb();
    assert_eq!(rgb.r, 0);
    assert_eq!(rgb.g, 0);
    assert_eq!(rgb.b, 0);
}

#[test]
fn test_scale8() {
    // The scale8 function uses a fast approximation: (v * s + 1) / 256
    assert_eq!(scale8(255, 255), 254); // (255*255+1)/256 = 254
    assert_eq!(scale8(255, 128), 127);
    assert_eq!(scale8(128, 128), 64); // (128*128+1)/256 = 64
    assert_eq!(scale8(255, 0), 0);
    assert_eq!(scale8(0, 255), 0);
}
