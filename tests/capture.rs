use dsnap::{
    create_screenshot, greet, png_data_uri, screenshot_reply, Action, Backend, ErrorKind,
    Operation, Platform, PortalScreenshotImpl, Screenshot, ScreenshotError, ServiceReply,
};

fn is_plain_request(a: &Action) -> bool {
    matches!(a, Action::Request { interactive: false, modal: false })
}

fn failure(a: Action) -> ScreenshotError {
    match a {
        Action::Fail(e) => e,
        other => panic!("expected a failure, got {:?}", other),
    }
}

#[test]
fn portal_screen_capture_starts_with_plain_request() {
    let p = PortalScreenshotImpl;
    assert!(is_plain_request(&p.capture_screen()));
    assert!(is_plain_request(&p.capture_screen_to_file()));
}

#[test]
fn portal_area_capture_ignores_region() {
    let p = PortalScreenshotImpl;
    assert!(is_plain_request(&p.capture_area(10, 20, 300, 200)));
    assert!(is_plain_request(&p.capture_area(-5, 0, 0, 0)));
}

#[test]
fn located_file_uri_is_read_for_bytes() {
    let p = PortalScreenshotImpl;
    let a = p.on_reply(Operation::Screen, ServiceReply::Located("file:///tmp/shot.png".to_string()));
    match a {
        Action::ReadFile(path) => assert_eq!(path, b"/tmp/shot.png".to_vec()),
        other => panic!("unexpected step {:?}", other),
    }
}

#[test]
fn located_file_uri_is_the_result_for_path() {
    let p = PortalScreenshotImpl;
    let a = p.on_reply(
        Operation::ScreenToFile,
        ServiceReply::Located("file:///home/me/Pictures/Screenshot.png".to_string()),
    );
    match a {
        Action::Path(path) => assert_eq!(path, "/home/me/Pictures/Screenshot.png"),
        other => panic!("unexpected step {:?}", other),
    }
}

#[test]
fn located_uri_is_percent_decoded() {
    let p = PortalScreenshotImpl;
    let a = p.on_reply(
        Operation::ScreenToFile,
        ServiceReply::Located("file:///tmp/my%20shot.png".to_string()),
    );
    match a {
        Action::Path(path) => assert_eq!(path, "/tmp/my shot.png"),
        other => panic!("unexpected step {:?}", other),
    }
}

#[test]
fn non_local_uri_is_a_response_failure() {
    let p = PortalScreenshotImpl;
    let uri = "https://example.com/shot.png";
    let e = failure(p.on_reply(Operation::Screen, ServiceReply::Located(uri.to_string())));
    assert_eq!(e.kind(), ErrorKind::Response);
    assert_eq!(e.message(), &format!("无法将 URI 转换为文件路径: {}", uri));
}

#[test]
fn unparsable_uri_is_a_response_failure() {
    let p = PortalScreenshotImpl;
    let e = failure(p.on_reply(Operation::ScreenToFile, ServiceReply::Located("not a uri".to_string())));
    assert_eq!(e.kind(), ErrorKind::Response);
}

#[test]
fn non_unicode_path_is_a_response_failure() {
    let p = PortalScreenshotImpl;
    let e = failure(p.on_reply(
        Operation::ScreenToFile,
        ServiceReply::Located("file:///tmp/%FF.png".to_string()),
    ));
    assert_eq!(e.kind(), ErrorKind::Response);
    assert_eq!(e.message(), "文件路径包含无效字符");
}

#[test]
fn non_unicode_path_is_still_read_for_bytes() {
    let p = PortalScreenshotImpl;
    let a = p.on_reply(Operation::Screen, ServiceReply::Located("file:///tmp/%FF.png".to_string()));
    match a {
        Action::ReadFile(path) => assert_eq!(path, b"/tmp/\xFF.png".to_vec()),
        other => panic!("unexpected step {:?}", other),
    }
}

#[test]
fn file_capture_path_names_the_file_a_byte_capture_reads() {
    let p = PortalScreenshotImpl;
    let uri = "file:///home/me/%E6%88%AA%E5%9B%BE%201.png";
    let path = match p.on_reply(Operation::ScreenToFile, ServiceReply::Located(uri.to_string())) {
        Action::Path(t) => t,
        other => panic!("unexpected step {:?}", other),
    };
    assert_eq!(path, "/home/me/截图 1.png");
    match p.on_reply(Operation::Screen, ServiceReply::Located(uri.to_string())) {
        Action::ReadFile(b) => assert_eq!(b, path.as_bytes().to_vec()),
        other => panic!("unexpected step {:?}", other),
    }
}

#[test]
fn unreachable_service_is_a_request_failure() {
    let p = PortalScreenshotImpl;
    let e = failure(p.on_reply(
        Operation::Screen,
        ServiceReply::RequestFailed("service unavailable".to_string()),
    ));
    assert_eq!(e.kind(), ErrorKind::Request);
    assert_eq!(e.message(), "截图请求失败: service unavailable");
}

#[test]
fn bad_response_is_a_response_failure() {
    let p = PortalScreenshotImpl;
    let e = failure(p.on_reply(
        Operation::Area(dsnap::CaptureRegion { x: 0, y: 0, width: 1, height: 1 }),
        ServiceReply::ResponseFailed("cancelled".to_string()),
    ));
    assert_eq!(e.kind(), ErrorKind::Response);
    assert_eq!(e.message(), "获取截图响应失败: cancelled");
}

#[test]
fn read_bytes_become_the_image() {
    let p = PortalScreenshotImpl;
    match p.on_read(Ok(vec![0x89, b'P', b'N', b'G'])) {
        Action::Image(b) => assert_eq!(b, vec![0x89, b'P', b'N', b'G']),
        other => panic!("unexpected step {:?}", other),
    }
}

#[test]
fn empty_file_is_never_a_success() {
    let p = PortalScreenshotImpl;
    let e = failure(p.on_read(Ok(Vec::new())));
    assert_eq!(e.kind(), ErrorKind::Io);
    assert_eq!(e.message(), "读取截图文件失败: 文件为空");
}

#[test]
fn failed_read_is_an_io_failure() {
    let p = PortalScreenshotImpl;
    let e = failure(p.on_read(Err("permission denied".to_string())));
    assert_eq!(e.kind(), ErrorKind::Io);
    assert_eq!(e.message(), "读取截图文件失败: permission denied");
}

struct BytesOnly;

impl Screenshot for BytesOnly {
    fn capture_screen(&self) -> Action {
        Action::Image(vec![1])
    }
    fn capture_area(&self, _x: i32, _y: i32, _width: u32, _height: u32) -> Action {
        Action::Image(vec![1])
    }
    fn on_reply(&self, _op: Operation, _reply: ServiceReply) -> Action {
        Action::Image(vec![1])
    }
    fn on_read(&self, _read: Result<Vec<u8>, String>) -> Action {
        Action::Image(vec![1])
    }
}

#[test]
fn file_path_capture_is_unsupported_by_default() {
    let e = failure(BytesOnly.capture_screen_to_file());
    assert_eq!(e.kind(), ErrorKind::Unsupported);
    assert_eq!(e.message(), "此截图实现不支持直接返回文件路径");
}

#[test]
fn linux_selects_the_portal() {
    assert!(Platform::Linux.supports_capture());
    assert!(!Platform::Windows.supports_capture());
    assert!(!Platform::MacOs.supports_capture());
    assert!(!Platform::Other.supports_capture());
    let b = create_screenshot(Platform::Linux);
    assert!(matches!(b, Backend::Portal(_)));
    assert!(is_plain_request(&b.capture_screen()));
    assert!(is_plain_request(&b.capture_area(1, 2, 3, 4)));
    assert!(is_plain_request(&b.capture_screen_to_file()));
    match b.on_reply(Operation::ScreenToFile, ServiceReply::Located("file://localhost/tmp/a.png".to_string())) {
        Action::Path(p) => assert_eq!(p, "/tmp/a.png"),
        other => panic!("unexpected step {:?}", other),
    }
    assert!(matches!(b.on_read(Ok(vec![7])), Action::Image(_)));
}

#[test]
fn reply_carries_a_png_data_uri() {
    assert_eq!(screenshot_reply(Ok(vec![1, 2, 3])), Ok("data:image/png;base64,AQID".to_string()));
    assert_eq!(screenshot_reply(Ok(b"hi".to_vec())), Ok("data:image/png;base64,aGk=".to_string()));
    assert_eq!(png_data_uri("QUJD"), "data:image/png;base64,QUJD");
}

#[test]
fn reply_carries_the_error_text() {
    let e = ScreenshotError::new(ErrorKind::Request, "denied".to_string());
    assert_eq!(e.to_string(), "Screenshot error: denied");
    assert_eq!(screenshot_reply(Err(e)), Err("截图失败: Screenshot error: denied".to_string()));
}

#[test]
fn error_with_detail_joins_its_parts() {
    let e = ScreenshotError::with_detail(ErrorKind::Io, "read failed: ", "disk gone");
    assert_eq!(e.kind(), ErrorKind::Io);
    assert_eq!(e.message(), "read failed: disk gone");
}

#[test]
fn greeting_names_the_caller() {
    assert_eq!(greet("Ada"), "Hello, Ada! You've been greeted from Rust!");
}

#[test]
fn area_capture_continues_as_full_screen() {
    let p = PortalScreenshotImpl;
    let region = dsnap::CaptureRegion { x: 100, y: 50, width: 20, height: 10 };
    let uri = "file:///tmp/Screenshot%20from%20today.png";
    let from_area = p.on_reply(Operation::Area(region), ServiceReply::Located(uri.to_string()));
    let from_screen = p.on_reply(Operation::Screen, ServiceReply::Located(uri.to_string()));
    match (from_area, from_screen) {
        (Action::ReadFile(a), Action::ReadFile(s)) => {
            assert_eq!(a, b"/tmp/Screenshot from today.png".to_vec());
            assert_eq!(a, s);
        }
        other => panic!("unexpected steps {:?}", other),
    }
    let image = vec![1u8, 2, 3, 4, 5, 6, 7, 8];
    match p.on_read(Ok(image.clone())) {
        Action::Image(b) => assert_eq!(b, image),
        other => panic!("unexpected step {:?}", other),
    }
}
