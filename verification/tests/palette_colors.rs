use mandelbrot::color::{Color, BLEND_ONE};
use mandelbrot::palette::Palette;

#[test]
fn color_new_keeps_channels() {
    let c = Color::new(1, 2, 3);
    assert_eq!(c.red, 1);
    assert_eq!(c.green, 2);
    assert_eq!(c.blue, 3);
}

#[test]
fn as_slice_is_rgba_with_opaque_alpha() {
    let c = Color::new(10, 20, 30);
    assert_eq!(c.as_slice(), [10, 20, 30, 0xFF]);
}

#[test]
fn palette_is_deterministic() {
    let a = Palette::generate(32);
    let b = Palette::generate(32);
    assert_eq!(a.colors.len(), 32);
    assert_eq!(b.colors.len(), 32);
    for i in 0..32 {
        assert_eq!(a.get_color(i), b.get_color(i));
    }
    assert_eq!(a.max_color, b.max_color);
}

#[test]
fn palette_interior_color_is_black() {
    let p = Palette::generate(8);
    assert_eq!(p.max_color, Color::new(0, 0, 0));
}

#[test]
fn gradient_first_entry_is_start_color() {
    for size in [1usize, 2, 32, 1000] {
        let p = Palette::generate(size);
        assert_eq!(*p.get_color(0), Color::new(0x00, 0x00, 0x55));
    }
}

#[test]
fn gradient_last_entry_approaches_white() {
    let p = Palette::generate(510);
    assert_eq!(*p.get_color(509), Color::new(0xFF, 0xFF, 0xFF));
    let p = Palette::generate(1024);
    assert_eq!(*p.get_color(1023), Color::new(0xFF, 0xFF, 0xFF));
    let p = Palette::generate(32);
    assert_eq!(*p.get_color(31), Color::new(247, 247, 250));
}

#[test]
fn gradient_middle_entry_exact() {
    let p = Palette::generate(32);
    // round(255 * 16 / 32) = 128; round(0x55 + (255 - 0x55) * 16 / 32) = 170
    assert_eq!(*p.get_color(16), Color::new(128, 128, 170));
}

#[test]
fn empty_palette_has_no_entries() {
    let p = Palette::generate(0);
    assert_eq!(p.colors.len(), 0);
    assert_eq!(p.max_color, Color::new(0, 0, 0));
}

#[test]
fn interpolate_at_zero_returns_self() {
    let a = Color::new(12, 200, 7);
    let b = Color::new(255, 0, 99);
    assert_eq!(a.interpolate(&b, 0), a);
}

#[test]
fn interpolate_at_one_returns_other() {
    let a = Color::new(12, 200, 7);
    let b = Color::new(255, 0, 99);
    assert_eq!(a.interpolate(&b, BLEND_ONE), b);
}

#[test]
fn interpolate_midpoint_rounds_half_up() {
    let a = Color::new(10, 20, 30);
    let b = Color::new(20, 10, 40);
    // the midpoint of each channel pair is exact: 15, 15 and 35
    assert_eq!(a.interpolate(&b, BLEND_ONE / 2), Color::new(15, 15, 35));
}

#[test]
fn interpolate_is_monotonic_per_channel() {
    let a = Color::new(0, 100, 255);
    let b = Color::new(255, 0, 0);
    let mut prev = a.interpolate(&b, 0);
    let mut t = 0u32;
    while t <= BLEND_ONE {
        let cur = a.interpolate(&b, t);
        assert!(cur.red >= prev.red);
        assert!(cur.green <= prev.green);
        assert!(cur.blue <= prev.blue);
        prev = cur;
        t += 1024;
    }
}
