use wrywebview::bounds::{make_bounds, Bounds, MIN_EXTENT};
use wrywebview::error::WebViewError;
use wrywebview::handle::{
    appkit_ns_view_from_handle, needs_inspection, raw_window_handle_from, resolve_inspected,
    AppKitProbe, NativeWindowRef, Platform,
};

fn window_probe(content_view: u64) -> AppKitProbe {
    AppKitProbe {
        window_class_known: true,
        view_class_known: true,
        is_window: true,
        content_view,
        is_view: false,
    }
}

fn view_probe() -> AppKitProbe {
    AppKitProbe {
        window_class_known: true,
        view_class_known: true,
        is_window: false,
        content_view: 0,
        is_view: true,
    }
}

#[test]
fn make_bounds_keeps_a_usable_rectangle() {
    assert_eq!(make_bounds(10, 20, 800, 600), Bounds { x: 10, y: 20, width: 800, height: 600 });
    assert_eq!(make_bounds(-5, -7, 1, 1), Bounds { x: -5, y: -7, width: 1, height: 1 });
}

#[test]
fn make_bounds_raises_empty_extents_to_one_pixel() {
    assert_eq!(MIN_EXTENT, 1);
    assert_eq!(make_bounds(0, 0, 0, 0), Bounds { x: 0, y: 0, width: 1, height: 1 });
    assert_eq!(make_bounds(3, 4, -100, 50), Bounds { x: 3, y: 4, width: 1, height: 50 });
    assert_eq!(make_bounds(3, 4, 50, i32::MIN), Bounds { x: 3, y: 4, width: 50, height: 1 });
    assert_eq!(
        make_bounds(i32::MAX, i32::MIN, i32::MAX, i32::MAX),
        Bounds { x: i32::MAX, y: i32::MIN, width: i32::MAX, height: i32::MAX }
    );
}

#[test]
fn clamp_is_idempotent() {
    let requested = Bounds { x: 1, y: 2, width: 0, height: -3 };
    let once = requested.clamp();
    assert_eq!(once, Bounds { x: 1, y: 2, width: 1, height: 1 });
    assert_eq!(once.clamp(), once);
}

#[test]
fn zero_handle_is_invalid_on_every_platform() {
    for platform in [Platform::Windows, Platform::MacOs, Platform::Linux, Platform::Other] {
        let r = raw_window_handle_from(platform, 0, |_| panic!("a zero handle is never inspected"));
        assert_eq!(r, Err(WebViewError::InvalidWindowHandle));
        assert_eq!(
            resolve_inspected(platform, 0, &view_probe()),
            Err(WebViewError::InvalidWindowHandle)
        );
    }
}

#[test]
fn linux_handle_is_the_x11_window() {
    let r = raw_window_handle_from(Platform::Linux, 0x2a0_0007, |_| {
        panic!("only macOS inspects the handle")
    });
    assert_eq!(r, Ok(NativeWindowRef::Xlib { window: 0x2a0_0007 }));
    let big = raw_window_handle_from(Platform::Linux, u64::MAX, |_| AppKitProbe::unexamined());
    assert_eq!(big, Ok(NativeWindowRef::Xlib { window: u64::MAX }));
}

#[test]
fn windows_handle_is_the_hwnd() {
    let r = raw_window_handle_from(Platform::Windows, 0x1234, |_| {
        panic!("only macOS inspects the handle")
    });
    assert_eq!(r, Ok(NativeWindowRef::Win32 { hwnd: 0x1234 }));
}

#[test]
fn unknown_platform_is_unsupported() {
    let r = raw_window_handle_from(Platform::Other, 5, |_| AppKitProbe::unexamined());
    assert_eq!(r, Err(WebViewError::UnsupportedPlatform));
}

#[test]
fn macos_window_is_narrowed_to_its_content_view() {
    let mut asked = Vec::new();
    let r = raw_window_handle_from(Platform::MacOs, 0x7000, |h| {
        asked.push(h);
        window_probe(0x7100)
    });
    assert_eq!(r, Ok(NativeWindowRef::AppKit { ns_view: 0x7100 }));
    assert_eq!(asked, vec![0x7000]);
    assert_eq!(appkit_ns_view_from_handle(0x7000, &window_probe(0x7100)), Ok(0x7100));
}

#[test]
fn macos_view_stands_for_itself() {
    let r = raw_window_handle_from(Platform::MacOs, 0x7000, |_| view_probe());
    assert_eq!(r, Ok(NativeWindowRef::AppKit { ns_view: 0x7000 }));
    assert_eq!(appkit_ns_view_from_handle(0x7000, &view_probe()), Ok(0x7000));
}

#[test]
fn macos_window_takes_precedence_over_view() {
    let both = AppKitProbe { is_view: true, ..window_probe(0x42) };
    assert_eq!(appkit_ns_view_from_handle(0x7000, &both), Ok(0x42));
}

#[test]
fn macos_rejects_what_is_neither_window_nor_view() {
    let neither = AppKitProbe { is_window: false, ..window_probe(0x42) };
    assert_eq!(
        appkit_ns_view_from_handle(0x7000, &neither),
        Err(WebViewError::InvalidWindowHandle)
    );
    let r = raw_window_handle_from(Platform::MacOs, 0x7000, |_| neither);
    assert_eq!(r, Err(WebViewError::InvalidWindowHandle));
    assert_eq!(
        appkit_ns_view_from_handle(0x7000, &AppKitProbe::unexamined()),
        Err(WebViewError::InvalidWindowHandle)
    );
}

#[test]
fn macos_rejects_a_window_without_content_view() {
    assert_eq!(
        appkit_ns_view_from_handle(0x7000, &window_probe(0)),
        Err(WebViewError::InvalidWindowHandle)
    );
    let hidden_view = AppKitProbe { is_view: true, ..window_probe(0) };
    assert_eq!(
        appkit_ns_view_from_handle(0x7000, &hidden_view),
        Err(WebViewError::InvalidWindowHandle)
    );
}

#[test]
fn macos_rejects_when_a_class_is_missing() {
    let no_window_class = AppKitProbe { window_class_known: false, ..view_probe() };
    let no_view_class = AppKitProbe { view_class_known: false, ..window_probe(0x42) };
    assert_eq!(
        appkit_ns_view_from_handle(0x7000, &no_window_class),
        Err(WebViewError::InvalidWindowHandle)
    );
    assert_eq!(
        appkit_ns_view_from_handle(0x7000, &no_view_class),
        Err(WebViewError::InvalidWindowHandle)
    );
    assert_eq!(
        appkit_ns_view_from_handle(0, &view_probe()),
        Err(WebViewError::InvalidWindowHandle)
    );
}

#[test]
fn inspection_is_needed_on_macos_for_nonzero_handles_only() {
    assert!(needs_inspection(Platform::MacOs, 1));
    assert!(!needs_inspection(Platform::MacOs, 0));
    assert!(!needs_inspection(Platform::Linux, 1));
    assert!(!needs_inspection(Platform::Windows, 1));
    assert!(!needs_inspection(Platform::Other, 1));
}
