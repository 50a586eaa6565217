use canvas_backend::color::alpha_string;
use canvas_backend::color::dec_string;
use canvas_backend::color::rgba_string;
use canvas_backend::color::Color;
use canvas_backend::color::ALPHA_OPAQUE;

#[test]
fn decimal_rendering() {
    assert_eq!(dec_string(0), "0");
    assert_eq!(dec_string(9), "9");
    assert_eq!(dec_string(10), "10");
    assert_eq!(dec_string(42), "42");
    assert_eq!(dec_string(255), "255");
    assert_eq!(dec_string(1000), "1000");
    assert_eq!(dec_string(u32::MAX), "4294967295");
}

#[test]
fn alpha_rendering_edges() {
    assert_eq!(alpha_string(0), "0");
    assert_eq!(alpha_string(ALPHA_OPAQUE), "1");
}

#[test]
fn alpha_rendering_trims_trailing_zeros() {
    assert_eq!(alpha_string(500), "0.5");
    assert_eq!(alpha_string(700), "0.7");
    assert_eq!(alpha_string(250), "0.25");
    assert_eq!(alpha_string(50), "0.05");
    assert_eq!(alpha_string(123), "0.123");
    assert_eq!(alpha_string(5), "0.005");
    assert_eq!(alpha_string(999), "0.999");
    assert_eq!(alpha_string(1), "0.001");
}

#[test]
fn rgba_string_is_closed_and_exact() {
    let c = Color::new(0, 0, 0, 500);
    assert_eq!(rgba_string(&c), "rgba(0,0,0,0.5)");
    let c = Color::new(255, 128, 7, ALPHA_OPAQUE);
    assert_eq!(rgba_string(&c), "rgba(255,128,7,1)");
    let c = Color::new(1, 2, 3, 0);
    assert_eq!(rgba_string(&c), "rgba(1,2,3,0)");
    let c = Color::new(10, 20, 30, 125);
    assert_eq!(rgba_string(&c), "rgba(10,20,30,0.125)");
}
