use stream_encoder::text::{has_prefix, has_suffix, parse_frame, render_decimal, same_text};

#[test]
fn frame_line_plain() {
    assert_eq!(parse_frame("frame=12"), Some(12));
}

#[test]
fn frame_line_with_padding_and_more_fields() {
    assert_eq!(parse_frame("frame=   42 fps=30.0 q=28.0"), Some(42));
    assert_eq!(parse_frame("frame=7\n"), Some(7));
}

#[test]
fn frame_line_unicode_space_is_skipped() {
    assert_eq!(parse_frame("frame=\u{3000}9"), Some(9));
}

#[test]
fn frame_line_plus_sign() {
    assert_eq!(parse_frame("frame=+5"), Some(5));
    assert_eq!(parse_frame("frame=+"), None);
    assert_eq!(parse_frame("frame=-5"), None);
}

#[test]
fn frame_line_limits() {
    assert_eq!(parse_frame("frame=4294967295"), Some(u32::MAX));
    assert_eq!(parse_frame("frame=4294967296"), None);
    assert_eq!(parse_frame("frame=00000000000000000003"), Some(3));
}

#[test]
fn frame_line_rejects_other_lines() {
    assert_eq!(parse_frame("frame="), None);
    assert_eq!(parse_frame("frame=   "), None);
    assert_eq!(parse_frame("fps=30"), None);
    assert_eq!(parse_frame(" frame=3"), None);
    assert_eq!(parse_frame("frame=12a"), None);
    assert_eq!(parse_frame(""), None);
}

#[test]
fn decimal_rendering() {
    assert_eq!(render_decimal(0), "0");
    assert_eq!(render_decimal(7), "7");
    assert_eq!(render_decimal(10), "10");
    assert_eq!(render_decimal(1080), "1080");
    assert_eq!(render_decimal(u64::MAX), "18446744073709551615");
}

#[test]
fn text_comparisons() {
    assert!(same_text("mp4", "mp4"));
    assert!(!same_text("mp4", "mp"));
    assert!(!same_text("mp4", "mp3"));
    assert!(has_prefix("frame_00001.png", "frame_"));
    assert!(!has_prefix("fr", "frame_"));
    assert!(has_suffix("frame_00001.png", ".png"));
    assert!(!has_suffix("frame_00001.jpg", ".png"));
    assert!(has_suffix("x", ""));
}
