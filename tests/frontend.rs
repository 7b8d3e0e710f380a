use kitty_shm::audio::{score_config, select_output_config, ConfigRange, SampleKind, TARGET_SAMPLE_RATE};
use kitty_shm::display::{map_button, JoypadButton, NativeDisplay, VideoFilterMode};

#[test]
fn new_display_is_black_frame() {
    let d = NativeDisplay::new();
    let mut out = vec![7u8; 256 * 240 * 3 + 2];
    d.copy_to_rgba_pixels(&mut out);
    assert!(out[..256 * 240 * 3].iter().all(|b| *b == 0));
    assert_eq!(out[256 * 240 * 3], 7);
}

#[test]
fn render_pixel_splits_colour() {
    let mut d = NativeDisplay::new();
    d.render_pixel(255, 239, 0x00C0_FFEE);
    d.render_pixel(256, 0, 0x00FF_FFFF);
    d.render_pixel(0, 240, 0x00FF_FFFF);
    let mut out = vec![0u8; 256 * 240 * 3];
    d.copy_to_rgba_pixels(&mut out);
    let base = (239 * 256 + 255) * 3;
    assert_eq!(&out[base..base + 3], &[0xEE, 0xFF, 0xC0]);
    assert_eq!(out.iter().filter(|b| **b != 0).count(), 3);
}

#[test]
fn copy_into_short_buffer() {
    let mut d = NativeDisplay::new();
    d.render_pixel(1, 0, 0x0003_0201);
    let mut out = vec![9u8; 5];
    d.copy_to_rgba_pixels(&mut out);
    assert_eq!(out, vec![0, 0, 0, 1, 2]);
}

#[test]
fn button_codes() {
    assert_eq!(map_button(0), Some(JoypadButton::Select));
    assert_eq!(map_button(1), Some(JoypadButton::Start));
    assert_eq!(map_button(2), Some(JoypadButton::A));
    assert_eq!(map_button(3), Some(JoypadButton::B));
    assert_eq!(map_button(4), Some(JoypadButton::Up));
    assert_eq!(map_button(5), Some(JoypadButton::Down));
    assert_eq!(map_button(6), Some(JoypadButton::Left));
    assert_eq!(map_button(7), Some(JoypadButton::Right));
    assert_eq!(map_button(8), None);
    assert_eq!(map_button(255), None);
}

#[test]
fn filter_codes() {
    assert_eq!(VideoFilterMode::from_code(0), VideoFilterMode::Off);
    assert_eq!(VideoFilterMode::from_code(1), VideoFilterMode::NtscComposite);
    assert_eq!(VideoFilterMode::from_code(2), VideoFilterMode::NtscSvideo);
    assert_eq!(VideoFilterMode::from_code(3), VideoFilterMode::NtscRgb);
    assert_eq!(VideoFilterMode::from_code(4), VideoFilterMode::Off);
}

fn range(kind: SampleKind, channels: u16, min_rate: u32, max_rate: u32) -> ConfigRange {
    ConfigRange { kind, channels, min_rate, max_rate }
}

#[test]
fn scores() {
    assert_eq!(score_config(&range(SampleKind::F32, 2, 0, 0)), 110);
    assert_eq!(score_config(&range(SampleKind::I16, 1, 0, 0)), 60);
    assert_eq!(score_config(&range(SampleKind::U16, 6, 0, 0)), 60);
    assert_eq!(score_config(&range(SampleKind::Other, 1, 0, 0)), 0);
}

#[test]
fn selects_first_best_supported_range() {
    let t = TARGET_SAMPLE_RATE;
    let configs = vec![
        range(SampleKind::F32, 2, 48_000, 96_000),
        range(SampleKind::I16, 2, 8_000, 48_000),
        range(SampleKind::F32, 1, t, t),
        range(SampleKind::F32, 2, 8_000, 192_000),
        range(SampleKind::F32, 2, 44_100, 44_100),
    ];
    assert_eq!(select_output_config(&configs), Some(3));
}

#[test]
fn no_range_admits_target_rate() {
    let configs = vec![range(SampleKind::F32, 2, 48_000, 96_000)];
    assert_eq!(select_output_config(&configs), None);
    assert_eq!(select_output_config(&Vec::new()), None);
}
