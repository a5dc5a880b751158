use isletmap::gate::{gate, Pixel};

fn uniform(red: u16, green: u16, blue: u16, count: usize) -> Vec<Pixel> {
    vec![Pixel { red, green, blue }; count]
}

#[test]
fn too_red_is_rejected() {
    // Averaged channels (0.9, 0.2, 0.5): red is not below 0.7.
    let pixels = uniform(900, 200, 500, 4);
    assert!(!gate(&pixels));
}

#[test]
fn bluish_dark_image_is_accepted() {
    // Averaged channels (0.3, 0.3, 0.6): red and green below 0.7, blue above 0.4.
    let pixels = uniform(300, 300, 600, 4);
    assert!(gate(&pixels));
}

#[test]
fn not_blue_enough_is_rejected() {
    // Averaged channels (0.3, 0.3, 0.3): blue is not above 0.4.
    let pixels = uniform(300, 300, 300, 4);
    assert!(!gate(&pixels));
}

#[test]
fn red_threshold_is_strict() {
    // Averaged red exactly 0.7 fails the strict "below 0.7" test.
    let pixels = uniform(700, 0, 500, 3);
    assert!(!gate(&pixels));
}

#[test]
fn blue_threshold_is_strict() {
    // Averaged blue exactly 0.4 fails the strict "above 0.4" test.
    let pixels = uniform(0, 0, 400, 3);
    assert!(!gate(&pixels));
}

#[test]
fn averaging_spans_all_pixels() {
    // Half the pixels are pure red, half are pure blue: the average is
    // (0.5, 0.0, 0.5), which passes every threshold.
    let mut pixels = uniform(1000, 0, 0, 2);
    pixels.extend(uniform(0, 0, 1000, 2));
    assert!(gate(&pixels));
}

#[test]
fn single_pixel_image() {
    let accepted = gate(&vec![Pixel { red: 0, green: 0, blue: 1000 }]);
    assert!(accepted);
    let rejected = gate(&vec![Pixel { red: 1000, green: 0, blue: 1000 }]);
    assert!(!rejected);
}
