use window_getter::Error;
use window_getter::Window;
use window_getter::platform_impl::PlatformError;
use window_getter::platform_impl::PlatformWindow;
use window_getter::platform_impl::macos::MacOSError;
use window_getter::platform_impl::macos::MacOSRect;
use window_getter::platform_impl::macos::MacOSWindow;
use window_getter::platform_impl::macos::WindowInfo;
use window_getter::platform_impl::windows::E_ACCESSDENIED;
use window_getter::platform_impl::windows::OpenQuery;
use window_getter::platform_impl::windows::OwnerQuery;
use window_getter::platform_impl::windows::PidQuery;
use window_getter::platform_impl::windows::RectQuery;
use window_getter::platform_impl::windows::S_OK;
use window_getter::platform_impl::windows::TextQuery;
use window_getter::platform_impl::windows::WindowsError;
use window_getter::platform_impl::windows::WindowsRect;
use window_getter::platform_impl::windows::WindowsWindow;

fn mac_window(info: WindowInfo) -> Window {
    Window::new(PlatformWindow::MacOS(MacOSWindow::new(info)))
}

fn handle_window(hwnd: u64) -> Window {
    Window::new(PlatformWindow::Windows(WindowsWindow::new(hwnd)))
}

fn text_query(length: u32, text: &str, status: i32) -> TextQuery {
    TextQuery { length, text: String::from(text), status }
}

fn successful_owner_query(pid: u32, name: &str) -> OwnerQuery {
    OwnerQuery {
        pid: PidQuery { thread: 77, pid, status: S_OK },
        process: OpenQuery { status: S_OK, handle: 0xbeef },
        name: text_query(name.len() as u32, name, S_OK),
    }
}

#[test]
fn snapshot_title_comes_from_the_record() {
    let info = WindowInfo::new(1, Some(String::from("Editor")), None, 10, None);
    let window = mac_window(info);
    assert_eq!(window.title(None).unwrap(), Some(String::from("Editor")));

    let untitled = mac_window(WindowInfo::new(2, None, None, 10, None));
    assert_eq!(untitled.title(None).unwrap(), None);
}

#[test]
fn handle_title_reads_the_query_text() {
    let window = handle_window(0x10);
    let result = window.title(Some(text_query(5, "Shell", S_OK)));
    assert_eq!(result.unwrap(), Some(String::from("Shell")));
}

#[test]
fn handle_title_empty_success_is_none() {
    let window = handle_window(0x10);
    let result = window.title(Some(text_query(0, "", S_OK)));
    assert_eq!(result.unwrap(), None);
}

#[test]
fn handle_title_denied_is_permission_denied() {
    let window = handle_window(0x10);
    let result = window.title(Some(text_query(0, "", E_ACCESSDENIED)));
    assert_eq!(
        result.unwrap_err(),
        Error::PermissionDenied(PlatformError::Windows(WindowsError::Status(E_ACCESSDENIED)))
    );
}

#[test]
fn handle_title_after_granting_is_never_denied_again() {
    let window = handle_window(0x10);
    let denied = window.title(Some(text_query(0, "", E_ACCESSDENIED)));
    assert!(matches!(denied, Err(Error::PermissionDenied(_))));

    let granted = window.title(Some(text_query(4, "Mail", S_OK)));
    assert_eq!(granted.unwrap(), Some(String::from("Mail")));

    let granted_empty = window.title(Some(text_query(0, "", S_OK)));
    assert_eq!(granted_empty.unwrap(), None);
}

#[test]
fn handle_title_other_failures_are_platform_specific() {
    let window = handle_window(0x10);
    let result = window.title(Some(text_query(0, "", 1400)));
    assert_eq!(
        result.unwrap_err(),
        Error::PlatformSpecificError(PlatformError::Windows(WindowsError::Status(1400)))
    );
}

#[test]
fn snapshot_bounds_convert_the_captured_rectangle() {
    let rect = MacOSRect { x: 10, y: 20, width: 300, height: 400 };
    let window = mac_window(WindowInfo::new(1, None, None, 10, Some(rect)));
    let bounds = window.bounds(None).unwrap();
    assert_eq!(bounds.x(), 10);
    assert_eq!(bounds.y(), 20);
    assert_eq!(bounds.width(), 300);
    assert_eq!(bounds.height(), 400);
}

#[test]
fn snapshot_bounds_missing_rectangle_is_invalid() {
    let window = mac_window(WindowInfo::new(1, None, None, 10, None));
    assert_eq!(
        window.bounds(None).unwrap_err(),
        Error::PlatformSpecificError(PlatformError::MacOS(MacOSError::InvalidWindowBounds))
    );
}

#[test]
fn snapshot_bounds_negative_extent_is_invalid() {
    let rect = MacOSRect { x: 0, y: 0, width: -10, height: 5 };
    let window = mac_window(WindowInfo::new(1, None, None, 10, Some(rect)));
    assert_eq!(
        window.bounds(None).unwrap_err(),
        Error::PlatformSpecificError(PlatformError::MacOS(MacOSError::InvalidWindowBounds))
    );
}

#[test]
fn handle_bounds_use_the_visible_frame() {
    let window = handle_window(0x10);
    let query = RectQuery {
        status: S_OK,
        rect: WindowsRect { left: 5, top: 6, right: 105, bottom: 56 },
    };
    let bounds = window.bounds(Some(query)).unwrap();
    assert_eq!(bounds.x(), 5);
    assert_eq!(bounds.y(), 6);
    assert_eq!(bounds.width(), 100);
    assert_eq!(bounds.height(), 50);
    assert!(bounds.width() >= 0 && bounds.height() >= 0);
}

#[test]
fn handle_bounds_failed_query_propagates() {
    let window = handle_window(0x10);
    let query = RectQuery {
        status: 87,
        rect: WindowsRect { left: 0, top: 0, right: 0, bottom: 0 },
    };
    assert_eq!(
        window.bounds(Some(query)).unwrap_err(),
        Error::PlatformSpecificError(PlatformError::Windows(WindowsError::Status(87)))
    );
}

#[test]
fn handle_bounds_degenerate_rectangle_is_an_error() {
    let window = handle_window(0x10);
    let query = RectQuery {
        status: S_OK,
        rect: WindowsRect { left: 100, top: 0, right: 0, bottom: 50 },
    };
    assert_eq!(
        window.bounds(Some(query)).unwrap_err(),
        Error::PlatformSpecificError(PlatformError::Windows(WindowsError::InvalidWindowBounds))
    );
}

#[test]
fn snapshot_owner_pid_is_infallible() {
    let window = mac_window(WindowInfo::new(1, None, None, 4242, None));
    assert_eq!(window.owner_pid(None).unwrap(), 4242);
}

#[test]
fn handle_owner_pid_reports_the_native_value() {
    let window = handle_window(0x10);
    let query = PidQuery { thread: 9, pid: 555, status: S_OK };
    assert_eq!(window.owner_pid(Some(query)).unwrap(), 555);
}

#[test]
fn handle_owner_pid_stale_window_is_an_error() {
    let window = handle_window(0x10);
    let query = PidQuery { thread: 0, pid: 555, status: 1400 };
    assert_eq!(
        window.owner_pid(Some(query)).unwrap_err(),
        Error::PlatformSpecificError(PlatformError::Windows(WindowsError::Status(1400)))
    );
}

#[test]
fn snapshot_owner_name_comes_from_the_record() {
    let info = WindowInfo::new(1, None, Some(String::from("Finder")), 10, None);
    assert_eq!(mac_window(info).owner_name(None).unwrap(), Some(String::from("Finder")));

    let info = WindowInfo::new(1, None, None, 10, None);
    assert_eq!(mac_window(info).owner_name(None).unwrap(), None);
}

#[test]
fn handle_owner_name_success_always_yields_a_name() {
    let window = handle_window(0x10);
    let result = window.owner_name(Some(successful_owner_query(555, "explorer.exe")));
    assert_eq!(result.unwrap(), Some(String::from("explorer.exe")));
}

#[test]
fn handle_owner_name_denied_open_is_permission_denied() {
    let window = handle_window(0x10);
    let mut query = successful_owner_query(555, "explorer.exe");
    query.process = OpenQuery { status: E_ACCESSDENIED, handle: 0 };
    assert_eq!(
        window.owner_name(Some(query)).unwrap_err(),
        Error::PermissionDenied(PlatformError::Windows(WindowsError::Status(E_ACCESSDENIED)))
    );
}

#[test]
fn handle_owner_name_fails_on_the_first_failing_step() {
    let window = handle_window(0x10);

    let mut query = successful_owner_query(555, "explorer.exe");
    query.pid = PidQuery { thread: 0, pid: 0, status: 6 };
    assert_eq!(
        window.owner_name(Some(query)).unwrap_err(),
        Error::PlatformSpecificError(PlatformError::Windows(WindowsError::Status(6)))
    );

    let mut query = successful_owner_query(555, "explorer.exe");
    query.name = TextQuery { length: 0, text: String::new(), status: 299 };
    assert_eq!(
        window.owner_name(Some(query)).unwrap_err(),
        Error::PlatformSpecificError(PlatformError::Windows(WindowsError::Status(299)))
    );
}

#[test]
fn handle_id_keeps_the_low_bits() {
    let window = handle_window(0x1_0000_0007);
    assert_eq!(window.id().as_u32(), 7);
    let window = handle_window(0x42);
    assert_eq!(window.id().as_u32(), 0x42);
}

#[test]
fn snapshot_id_is_the_window_number() {
    let window = mac_window(WindowInfo::new(31337, None, None, 1, None));
    assert_eq!(window.id().as_u32(), 31337);
}

#[test]
fn windows_window_exposes_its_handle() {
    let w = WindowsWindow::new(0x77);
    assert_eq!(w.hwnd(), 0x77);
    assert!(w.is_foreground(0x77));
    assert!(!w.is_foreground(0x78));
}

#[test]
fn windows_window_interprets_raw_and_extended_rects() {
    let w = WindowsWindow::new(0x77);
    let rect = WindowsRect { left: 1, top: 2, right: 3, bottom: 4 };
    assert_eq!(w.rect(RectQuery { status: S_OK, rect }).unwrap(), rect);
    assert_eq!(
        w.extended_frame_bounds(RectQuery { status: 5, rect }).unwrap_err(),
        WindowsError::Status(5)
    );
    let visible = w.visible_bounds(RectQuery { status: S_OK, rect }).unwrap();
    assert_eq!(visible.width(), 2);
    assert_eq!(visible.height(), 2);
}

#[test]
fn windows_window_owner_process_handle_chains() {
    let w = WindowsWindow::new(0x77);
    let pid = PidQuery { thread: 1, pid: 10, status: S_OK };
    let open = OpenQuery { status: S_OK, handle: 0xfeed };
    assert_eq!(w.owner_process_handle(pid, open).unwrap(), 0xfeed);

    let open_denied = OpenQuery { status: E_ACCESSDENIED, handle: 0 };
    assert_eq!(
        w.owner_process_handle(pid, open_denied).unwrap_err(),
        WindowsError::Status(E_ACCESSDENIED)
    );
}

#[test]
fn window_info_exposes_the_captured_fields() {
    let rect = MacOSRect { x: 1, y: 2, width: 3, height: 4 };
    let info = WindowInfo::new(
        12,
        Some(String::from("Doc")),
        Some(String::from("Pages")),
        900,
        Some(rect),
    );
    assert_eq!(info.number(), 12);
    assert_eq!(info.name(), Some(String::from("Doc")));
    assert_eq!(info.owner_name(), Some(String::from("Pages")));
    assert_eq!(info.owner_pid(), 900);
    assert_eq!(info.bounds(), Some(rect));

    let window = MacOSWindow::new(info);
    assert_eq!(window.id(), 12);
    assert_eq!(window.title(), Some(String::from("Doc")));
    assert_eq!(window.owner_name(), Some(String::from("Pages")));
    assert_eq!(window.owner_pid(), 900);
    assert_eq!(window.window_info().number(), 12);
    let bounds = window.bounds().unwrap();
    assert_eq!(bounds.width(), 3);
}

#[test]
fn platform_window_round_trips_through_the_facade() {
    let window = handle_window(0x55);
    match window.platform_window() {
        PlatformWindow::Windows(w) => assert_eq!(w.hwnd(), 0x55),
        PlatformWindow::MacOS(_) => panic!("expected a handle-platform window"),
    }
    match window.into_platform_window() {
        PlatformWindow::Windows(w) => assert_eq!(w.hwnd(), 0x55),
        PlatformWindow::MacOS(_) => panic!("expected a handle-platform window"),
    }
}
