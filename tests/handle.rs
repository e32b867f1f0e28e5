use xrandr::crtc::{Crtc, CrtcReply, Timestamp};
use xrandr::error::XrandrError;
use xrandr::handle::{ExtensionReply, SizeRangeReply, VersionReply, Xrandr};
use xrandr::rotation::{Rotation, RR_ROTATE_0, RR_ROTATE_180, RR_ROTATE_270, RR_ROTATE_90};

fn opened(major: i32, minor: i32) -> Xrandr {
    Xrandr::connect(Some(0))
        .unwrap()
        .negotiate(Some(VersionReply { status: 1, major, minor }))
        .unwrap()
        .probe(ExtensionReply { present: 1, event_base: 89, error_base: 147 })
        .unwrap()
}

fn reply(x: i32, y: i32, width: u32, height: u32, rotation: u16) -> CrtcReply {
    CrtcReply { x, y, width, height, rotation }
}

#[test]
fn it_works() {}

#[test]
fn unreachable_display_is_connection_error() {
    assert_eq!(Xrandr::connect(None).err(), Some(XrandrError::ConnectionError));
}

#[test]
fn missing_extension_library_is_unavailable() {
    let pending = Xrandr::connect(Some(0)).unwrap();
    assert_eq!(pending.negotiate(None).err(), Some(XrandrError::ExtensionUnavailable));
}

#[test]
fn failed_version_query_is_unavailable() {
    let pending = Xrandr::connect(Some(0)).unwrap();
    let r = pending.negotiate(Some(VersionReply { status: 0, major: 1, minor: 5 }));
    assert_eq!(r.err(), Some(XrandrError::ExtensionUnavailable));
}

#[test]
fn absent_extension_is_unavailable() {
    let pending = Xrandr::connect(Some(0))
        .unwrap()
        .negotiate(Some(VersionReply { status: 1, major: 1, minor: 5 }))
        .unwrap();
    let r = pending.probe(ExtensionReply { present: 0, event_base: 0, error_base: 0 });
    assert_eq!(r.err(), Some(XrandrError::ExtensionUnavailable));
}

#[test]
fn version_is_the_negotiated_one() {
    let h = opened(1, 6);
    assert_eq!(h.version(), (1, 6));
    assert_eq!(h.version(), (1, 6));
}

#[test]
fn screen_is_kept() {
    let h = Xrandr::connect(Some(2))
        .unwrap()
        .negotiate(Some(VersionReply { status: 1, major: 1, minor: 5 }))
        .unwrap()
        .probe(ExtensionReply { present: 1, event_base: 89, error_base: 147 })
        .unwrap();
    assert_eq!(h.screen(), 2);
    assert_eq!(h.event_base(), 89);
    assert_eq!(h.error_base(), 147);
}

#[test]
fn rotation_codes_decode() {
    assert_eq!(Rotation::from_code(RR_ROTATE_0), Some(Rotation::Rotate0));
    assert_eq!(Rotation::from_code(RR_ROTATE_90), Some(Rotation::Rotate90));
    assert_eq!(Rotation::from_code(RR_ROTATE_180), Some(Rotation::Rotate180));
    assert_eq!(Rotation::from_code(RR_ROTATE_270), Some(Rotation::Rotate270));
    assert_eq!(Rotation::from_code(1), Some(Rotation::Rotate0));
    assert_eq!(Rotation::from_code(8), Some(Rotation::Rotate270));
}

#[test]
fn unknown_rotation_codes_are_rejected() {
    for code in [0, 3, 5, 16, 17, -1, i32::MAX, i32::MIN] {
        assert_eq!(Rotation::from_code(code), None);
    }
}

#[test]
fn zero_crtcs_give_empty_sequence() {
    let h = opened(1, 5);
    assert_eq!(h.enumerate_crtcs(Some(Vec::new())), Ok(Vec::new()));
}

#[test]
fn missing_resources_are_query_error() {
    let h = opened(1, 5);
    assert_eq!(h.enumerate_crtcs(None), Err(XrandrError::QueryError));
}

#[test]
fn crtcs_keep_server_order_and_geometry() {
    let h = opened(1, 5);
    let replies = vec![
        Some(reply(0, 0, 1920, 1080, 1)),
        Some(reply(1920, -10, 1080, 1920, 2)),
        Some(reply(0, 0, 0, 0, 4)),
    ];
    let crtcs = h.enumerate_crtcs(Some(replies)).unwrap();
    assert_eq!(
        crtcs,
        vec![
            Crtc { x: 0, y: 0, width: 1920, height: 1080, rotation: Rotation::Rotate0 },
            Crtc { x: 1920, y: -10, width: 1080, height: 1920, rotation: Rotation::Rotate90 },
            Crtc { x: 0, y: 0, width: 0, height: 0, rotation: Rotation::Rotate180 },
        ]
    );
}

#[test]
fn failed_info_fetch_fails_whole_enumeration() {
    let h = opened(1, 5);
    let replies = vec![Some(reply(0, 0, 1920, 1080, 1)), None];
    assert_eq!(h.enumerate_crtcs(Some(replies)), Err(XrandrError::QueryError));
}

#[test]
fn unknown_rotation_fails_whole_enumeration() {
    let h = opened(1, 5);
    let replies = vec![Some(reply(0, 0, 1920, 1080, 1)), Some(reply(0, 0, 800, 600, 17))];
    assert_eq!(h.enumerate_crtcs(Some(replies)), Err(XrandrError::QueryError));
}

#[test]
fn repeated_enumeration_gives_same_geometry() {
    let h = opened(1, 5);
    let replies = vec![Some(reply(10, 20, 1280, 1024, 8)), Some(reply(1290, 0, 640, 480, 1))];
    let first = h.enumerate_crtcs(Some(replies.clone())).unwrap();
    let second = h.enumerate_crtcs(Some(replies)).unwrap();
    assert_eq!(first, second);
    assert_eq!((first[0].x, first[0].y, first[0].width, first[0].height), (10, 20, 1280, 1024));
}

#[test]
fn size_range_is_reported() {
    let h = opened(1, 5);
    let r = h.screen_size_range(SizeRangeReply {
        status: 1,
        min_width: 320,
        min_height: 200,
        max_width: 8192,
        max_height: 8192,
    });
    assert_eq!(r, Ok((320, 200, 8192, 8192)));
}

#[test]
fn size_range_equal_bounds_are_ordered() {
    let h = opened(1, 5);
    let r = h.screen_size_range(SizeRangeReply {
        status: 1,
        min_width: 1024,
        min_height: 768,
        max_width: 1024,
        max_height: 768,
    });
    assert_eq!(r, Ok((1024, 768, 1024, 768)));
}

#[test]
fn size_range_failed_query_is_query_error() {
    let h = opened(1, 5);
    let r = h.screen_size_range(SizeRangeReply {
        status: 0,
        min_width: 320,
        min_height: 200,
        max_width: 8192,
        max_height: 8192,
    });
    assert_eq!(r, Err(XrandrError::QueryError));
}

#[test]
fn size_range_inverted_bounds_are_query_error() {
    let h = opened(1, 5);
    let wide = SizeRangeReply { status: 1, min_width: 9000, min_height: 200, max_width: 8192, max_height: 8192 };
    let tall = SizeRangeReply { status: 1, min_width: 320, min_height: 9000, max_width: 8192, max_height: 8192 };
    assert_eq!(h.screen_size_range(wide), Err(XrandrError::QueryError));
    assert_eq!(h.screen_size_range(tall), Err(XrandrError::QueryError));
}

#[test]
fn timestamps_order_by_value() {
    assert!(Timestamp(5) < Timestamp(7));
    assert_eq!(Timestamp(7), Timestamp(7));
}
