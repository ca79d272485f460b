use zencodec::{ImageFormat, ImageInfo, ImageSequence, LimitExceeded, ResourceLimits, ThreadingPolicy};

#[test]
fn default_has_no_limits() {
    let limits = ResourceLimits::none();
    assert!(!limits.has_any());
}

#[test]
fn builder_sets_limits() {
    let limits = ResourceLimits::none().with_max_pixels(1_000_000).with_max_memory(512 * 1024 * 1024);
    assert!(limits.has_any());
    assert_eq!(limits.max_pixels, Some(1_000_000));
    assert_eq!(limits.max_memory_bytes, Some(512 * 1024 * 1024));
    assert!(limits.max_output_bytes.is_none());
}

#[test]
fn animation_limits() {
    let limits = ResourceLimits::none().with_max_frames(100).with_max_animation_ms(30_000);
    assert!(limits.has_any());
    assert_eq!(limits.max_frames, Some(100));
    assert_eq!(limits.max_animation_ms, Some(30_000));
}

#[test]
fn has_any_includes_animation_fields() {
    let limits = ResourceLimits::none().with_max_frames(10);
    assert!(limits.has_any());
    let limits = ResourceLimits::none().with_max_animation_ms(5000);
    assert!(limits.has_any());
}

#[test]
fn threading_policy_default() {
    let limits = ResourceLimits::none();
    assert_eq!(limits.threading(), ThreadingPolicy::Unlimited);
    assert!(!limits.has_any());
}

#[test]
fn threading_policy_single_thread() {
    let limits = ResourceLimits::none().with_threading(ThreadingPolicy::SingleThread);
    assert!(limits.has_any());
    assert_eq!(limits.threading(), ThreadingPolicy::SingleThread);
}

#[test]
fn threading_policy_limit_or_single() {
    let limits = ResourceLimits::none().with_threading(ThreadingPolicy::LimitOrSingle { max_threads: 4 });
    assert!(limits.has_any());
    assert_eq!(limits.threading(), ThreadingPolicy::LimitOrSingle { max_threads: 4 });
}

#[test]
fn threading_policy_balanced() {
    let limits = ResourceLimits::none().with_threading(ThreadingPolicy::Balanced);
    assert!(limits.has_any());
}

#[test]
fn check_dimensions_pass() {
    let limits = ResourceLimits::none().with_max_width(1920).with_max_height(1080).with_max_pixels(2_073_600);
    assert!(limits.check_dimensions(1920, 1080).is_ok());
    assert!(limits.check_dimensions(100, 100).is_ok());
}

#[test]
fn check_dimensions_width_exceeded() {
    let limits = ResourceLimits::none().with_max_width(1920);
    let err = limits.check_dimensions(1921, 1080).unwrap_err();
    assert_eq!(err, LimitExceeded::Width { actual: 1921, max: 1920 });
}

#[test]
fn check_dimensions_height_exceeded() {
    let limits = ResourceLimits::none().with_max_height(1080);
    let err = limits.check_dimensions(1920, 1081).unwrap_err();
    assert_eq!(err, LimitExceeded::Height { actual: 1081, max: 1080 });
}

#[test]
fn check_dimensions_pixels_exceeded() {
    let limits = ResourceLimits::none().with_max_pixels(1_000_000);
    let err = limits.check_dimensions(1001, 1000).unwrap_err();
    assert_eq!(err, LimitExceeded::Pixels { actual: 1_001_000, max: 1_000_000 });
}

#[test]
fn check_dimensions_no_limits_always_passes() {
    let limits = ResourceLimits::none();
    assert!(limits.check_dimensions(100_000, 100_000).is_ok());
}

#[test]
fn check_memory_pass_and_fail() {
    let limits = ResourceLimits::none().with_max_memory(512 * 1024 * 1024);
    assert!(limits.check_memory(256 * 1024 * 1024).is_ok());
    let err = limits.check_memory(1024 * 1024 * 1024).unwrap_err();
    assert!(matches!(err, LimitExceeded::Memory { .. }));
}

#[test]
fn check_input_size_pass_and_fail() {
    let limits = ResourceLimits::none().with_max_input_bytes(10 * 1024 * 1024);
    assert!(limits.check_input_size(5 * 1024 * 1024).is_ok());
    let err = limits.check_input_size(20 * 1024 * 1024).unwrap_err();
    assert!(matches!(err, LimitExceeded::InputSize { .. }));
}

#[test]
fn check_output_size_pass_and_fail() {
    let limits = ResourceLimits::none().with_max_output(1024);
    assert!(limits.check_output_size(512).is_ok());
    let err = limits.check_output_size(2048).unwrap_err();
    assert!(matches!(err, LimitExceeded::OutputSize { .. }));
}

#[test]
fn check_frames_pass_and_fail() {
    let limits = ResourceLimits::none().with_max_frames(100);
    assert!(limits.check_frames(50).is_ok());
    let err = limits.check_frames(200).unwrap_err();
    assert_eq!(err, LimitExceeded::Frames { actual: 200, max: 100 });
}

#[test]
fn check_animation_ms_pass_and_fail() {
    let limits = ResourceLimits::none().with_max_animation_ms(30_000);
    assert!(limits.check_animation_ms(15_000).is_ok());
    let err = limits.check_animation_ms(60_000).unwrap_err();
    assert!(matches!(err, LimitExceeded::Duration { .. }));
}

#[test]
fn limit_exceeded_display() {
    let err = LimitExceeded::Width { actual: 5000, max: 4096 };
    assert_eq!(err.message(), "width 5000 exceeds limit 4096");

    let err = LimitExceeded::InputSize { actual: 20_000_000, max: 10_000_000 };
    assert_eq!(err.message(), "input size 20000000 bytes exceeds limit 10000000");

    let err = LimitExceeded::Duration { actual: 60_000, max: 30_000 };
    assert_eq!(err.message(), "duration 60000ms exceeds limit 30000ms");
}

#[test]
fn limit_exceeded_is_error() {
    let err = LimitExceeded::Width { actual: 5000, max: 4096 };
    assert!(!err.message().is_empty());
}

#[test]
fn limit_exceeded_messages_for_every_variant() {
    assert_eq!(LimitExceeded::Height { actual: 2, max: 1 }.message(), "height 2 exceeds limit 1");
    assert_eq!(LimitExceeded::Pixels { actual: 0, max: 0 }.message(), "pixel count 0 exceeds limit 0");
    assert_eq!(LimitExceeded::Memory { actual: 10, max: 9 }.message(), "memory 10 bytes exceeds limit 9");
    assert_eq!(
        LimitExceeded::OutputSize { actual: u64::MAX, max: 1 }.message(),
        "output size 18446744073709551615 bytes exceeds limit 1"
    );
    assert_eq!(LimitExceeded::Frames { actual: 200, max: 100 }.message(), "frame count 200 exceeds limit 100");
}

#[test]
fn check_order_width_before_height_before_pixels() {
    let limits = ResourceLimits::none().with_max_width(10).with_max_height(10).with_max_pixels(5);
    assert_eq!(limits.check_dimensions(11, 11), Err(LimitExceeded::Width { actual: 11, max: 10 }));
    assert_eq!(limits.check_dimensions(10, 11), Err(LimitExceeded::Height { actual: 11, max: 10 }));
    assert_eq!(limits.check_dimensions(3, 2), Err(LimitExceeded::Pixels { actual: 6, max: 5 }));
    assert_eq!(limits.check_dimensions(u32::MAX, u32::MAX).unwrap_err(), LimitExceeded::Width { actual: u32::MAX, max: 10 });
    let big = ResourceLimits::none().with_max_pixels(u64::MAX);
    assert!(big.check_dimensions(u32::MAX, u32::MAX).is_ok());
    assert_eq!(ResourceLimits::default(), ResourceLimits::none());
}

#[test]
fn check_image_info_dimensions_and_frames() {
    let limits = ResourceLimits::none().with_max_width(4096).with_max_pixels(16_000_000).with_max_frames(100);

    let info = ImageInfo::new(3840, 2160, ImageFormat::Avif).with_sequence(ImageSequence::Animation {
        frame_count: Some(50),
        loop_count: None,
        random_access: false,
    });
    assert!(limits.check_image_info(&info).is_ok());

    let big = ImageInfo::new(5000, 4000, ImageFormat::Jpeg);
    let err = limits.check_image_info(&big).unwrap_err();
    assert!(matches!(err, LimitExceeded::Width { .. }));

    let many_frames = ImageInfo::new(100, 100, ImageFormat::Gif).with_sequence(ImageSequence::Animation {
        frame_count: Some(200),
        loop_count: None,
        random_access: false,
    });
    let err = limits.check_image_info(&many_frames).unwrap_err();
    assert_eq!(err, LimitExceeded::Frames { actual: 200, max: 100 });
}
