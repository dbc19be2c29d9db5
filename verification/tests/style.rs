use embedded_term::util::interpolate_8bit_values;

#[test]
fn test_interpolate_color_values() {
    // Edge cases
    assert_eq!(interpolate_8bit_values(0, 0, 0), 0, "0% between 0 and 0");
    assert_eq!(
        interpolate_8bit_values(255, 255, 255),
        255,
        "100% between 255 and 255"
    );
    assert_eq!(
        interpolate_8bit_values(0, 255, 0),
        0,
        "0% between bg:0 and fg:255"
    );
    assert_eq!(
        interpolate_8bit_values(0, 255, 255),
        255,
        "100% between bg:0 and fg:255"
    );

    // 50% interpolation
    assert_eq!(
        interpolate_8bit_values(0, 255, 128),
        128,
        "50% between bg:0 and fg:255"
    );
    assert_eq!(
        interpolate_8bit_values(255, 0, 128),
        127,
        "50% between bg:255 and fg:0"
    );

    // 25% and 75% interpolation
    assert_eq!(
        interpolate_8bit_values(0, 255, 64),
        64,
        "25% between bg:0 and fg:255"
    );
    assert_eq!(
        interpolate_8bit_values(0, 255, 192),
        192,
        "75% between bg:0 and fg:255"
    );

    // Arbitrary values
    assert_eq!(
        interpolate_8bit_values(100, 200, 128),
        150,
        "50% between bg:100 and fg:200"
    );
    assert_eq!(
        interpolate_8bit_values(50, 150, 128),
        100,
        "50% between bg:50 and fg:150"
    );
}

#[test]
fn interpolation_stays_between_its_ends() {
    for (a, b) in [(0u8, 255u8), (255, 0), (10, 20), (200, 3), (7, 7)] {
        assert_eq!(interpolate_8bit_values(a, b, 0), a);
        assert_eq!(interpolate_8bit_values(a, b, 255), b);
        for value in 0..=255u8 {
            let r = interpolate_8bit_values(a, b, value);
            assert!(a.min(b) <= r && r <= a.max(b));
        }
    }
    assert_eq!(interpolate_8bit_values(10, 20, 128), 15);
    assert_eq!(interpolate_8bit_values(20, 10, 128), 15);
    assert_eq!(interpolate_8bit_values(0, 3, 127), 1);
    assert_eq!(interpolate_8bit_values(0, 3, 43), 1);
    assert_eq!(interpolate_8bit_values(0, 3, 42), 0);
}
