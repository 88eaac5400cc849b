use vstd::prelude::*;

use crate::capture::{Action, CaptureRegion, Operation, Screenshot, ServiceReply};
use crate::error::{ErrorKind, ScreenshotError};

verus! {

/// The local file path that a URI resolves to, as its raw bytes and, where
/// those are valid Unicode, as text; `None` where the URI does not parse or
/// does not name a local file.
pub uninterp spec fn local_path_of(uri: Seq<char>) -> Option<(Seq<u8>, Option<Seq<char>>)>;

/// What a resolved path looks like in contracts.
pub open spec fn path_view(lookup: Option<(Vec<u8>, Option<String>)>) -> Option<(Seq<u8>, Option<Seq<char>>)> {
    match lookup {
        None => None,
        Some((bytes, None)) => Some((bytes@, None)),
        Some((bytes, Some(text))) => Some((bytes@, Some(text@))),
    }
}

/// Relies on `url::Url::parse` and `url::Url::to_file_path` to resolve a URI
/// to a local path (`Err` unless the host is empty or `localhost` and the URI
/// has path segments), and on std's `OsStr::as_encoded_bytes` and
/// `Path::to_str` for the path's bytes and text. On unix the path that
/// `to_file_path` builds starts with one `/` per path segment, and there is
/// at least one segment.
#[verifier::external_body]
fn resolve_local_path(uri: &str) -> (r: Option<(Vec<u8>, Option<String>)>)
    ensures
        path_view(r) == local_path_of(uri@),
        r matches Some((bytes, _)) ==> bytes@.len() > 0 && bytes@[0] == 0x2fu8,
        r matches Some((_, Some(text))) ==> text@.len() > 0 && text@[0] == '/',
        r matches Some((bytes, Some(text))) ==> bytes@ == vstd::utf8::encode_utf8(text@),
{
    match url::Url::parse(uri) {
        Ok(u) => match u.to_file_path() {
            Ok(path) => Some((
                path.as_os_str().as_encoded_bytes().to_vec(),
                path.to_str().map(|s| s.to_string()),
            )),
            Err(()) => None,
        },
        Err(_) => None,
    }
}

/// The first step of every portal capture: one request that neither asks the
/// user to pick a region nor blocks other windows.
pub open spec fn portal_request() -> Action {
    Action::Request { interactive: false, modal: false }
}

/// The step that follows a located capture, given what the locator resolved
/// to (as `local_path_of` gives it).
///
/// A byte capture reads any local path; a file capture hands the path out
/// and so needs it to be valid Unicode.
pub open spec fn located_step(
    op: Operation,
    uri: Seq<char>,
    lookup: Option<(Seq<u8>, Option<Seq<char>>)>,
    r: Action,
) -> bool {
    match lookup {
        None => r is Fail && r->Fail_0.spec_kind() == ErrorKind::Response
            && r->Fail_0.spec_message() == "无法将 URI 转换为文件路径: "@ + uri,
        Some((bytes, text)) => if op.wants_path() {
            match text {
                None => r is Fail && r->Fail_0.spec_kind() == ErrorKind::Response
                    && r->Fail_0.spec_message() == "文件路径包含无效字符"@,
                Some(t) => r is Path && r->Path_0@ == t,
            }
        } else {
            r is ReadFile && r->ReadFile_0@ == bytes
        },
    }
}

/// The step that follows a reply of the capture service; a located capture
/// goes by what the locator resolves to.
pub open spec fn reply_step(op: Operation, reply: ServiceReply, r: Action) -> bool {
    match reply {
        ServiceReply::RequestFailed(d) => r is Fail && r->Fail_0.spec_kind() == ErrorKind::Request
            && r->Fail_0.spec_message() == "截图请求失败: "@ + d@,
        ServiceReply::ResponseFailed(d) => r is Fail && r->Fail_0.spec_kind() == ErrorKind::Response
            && r->Fail_0.spec_message() == "获取截图响应失败: "@ + d@,
        ServiceReply::Located(uri) => located_step(op, uri@, local_path_of(uri@), r),
    }
}

/// What holds of a path that a step after `reply` carries: it is absolute,
/// and a path handed out as text names the very file whose bytes a byte
/// capture of the same reply reads.
pub open spec fn reply_path_facts(reply: ServiceReply, r: Action) -> bool {
    match r {
        Action::Path(t) => t@.len() > 0 && t@[0] == '/' && match reply {
            ServiceReply::Located(uri) => match local_path_of(uri@) {
                Some((bytes, _)) => bytes == vstd::utf8::encode_utf8(t@),
                None => false,
            },
            _ => false,
        },
        Action::ReadFile(b) => b@.len() > 0 && b@[0] == 0x2fu8,
        _ => true,
    }
}

/// The step that follows the read of the captured file.
pub open spec fn read_step(read: Result<Vec<u8>, String>, r: Action) -> bool {
    match read {
        Ok(b) => if b@.len() > 0 {
            r is Image && r->Image_0@ == b@
        } else {
            r is Fail && r->Fail_0.spec_kind() == ErrorKind::Io
                && r->Fail_0.spec_message() == "读取截图文件失败: "@ + "文件为空"@
        },
        Err(d) => r is Fail && r->Fail_0.spec_kind() == ErrorKind::Io
            && r->Fail_0.spec_message() == "读取截图文件失败: "@ + d@,
    }
}

/// The portal takes no rectangle, so a region capture runs exactly as a
/// full-screen capture: after every reply of the service it takes the same
/// step, whatever the region, and nothing is cropped.
pub proof fn lemma_area_runs_as_screen(region: CaptureRegion, reply: ServiceReply, r: Action)
    ensures
        reply_step(Operation::Area(region), reply, r) == reply_step(Operation::Screen, reply, r),
{
}

/// Capture through the desktop portal's screenshot service, which works the
/// same on Wayland and X11 and handles permissions itself.
///
/// The portal takes no rectangle: `capture_area` makes the same request as
/// `capture_screen`, and the region is ignored. This is the service's
/// limitation; the image is never cropped here.
#[derive(Clone, Copy, Debug)]
pub struct PortalScreenshotImpl;

impl PortalScreenshotImpl {
    /// The step after the service located the capture at `uri`, given what
    /// `uri` resolved to.
    pub fn resolve_located(op: Operation, uri: &str, lookup: Option<(Vec<u8>, Option<String>)>) -> (r: Action)
        ensures
            located_step(op, uri@, path_view(lookup), r),
            match lookup {
                Some((bytes, Some(text))) => bytes@.len() > 0 && text@.len() > 0 ==> r.wf(),
                Some((bytes, None)) => bytes@.len() > 0 ==> r.wf(),
                None => r.wf(),
            },
            r.ends_as(op),
    {
        match lookup {
            None => {
                proof {
                    reveal_strlit("无法将 URI 转换为文件路径: ");
                }
                Action::Fail(
                    ScreenshotError::with_detail(ErrorKind::Response, "无法将 URI 转换为文件路径: ", uri),
                )
            },
            Some((bytes, text)) => {
                if matches!(op, Operation::ScreenToFile) {
                    match text {
                        Some(path) => Action::Path(path),
                        None => {
                            proof {
                                reveal_strlit("文件路径包含无效字符");
                            }
                            Action::Fail(
                                ScreenshotError::new(
                                    ErrorKind::Response,
                                    String::from_str("文件路径包含无效字符"),
                                ),
                            )
                        },
                    }
                } else {
                    Action::ReadFile(bytes)
                }
            },
        }
    }
}

impl Screenshot for PortalScreenshotImpl {
    open spec fn supports_file_path(&self) -> bool {
        true
    }

    fn capture_screen(&self) -> (r: Action)
        ensures
            r == portal_request(),
    {
        Action::Request { interactive: false, modal: false }
    }

    fn capture_area(&self, x: i32, y: i32, width: u32, height: u32) -> (r: Action)
        ensures
            r == portal_request(),
    {
        self.capture_screen()
    }

    fn capture_screen_to_file(&self) -> (r: Action)
        ensures
            r == portal_request(),
    {
        Action::Request { interactive: false, modal: false }
    }

    fn on_reply(&self, op: Operation, reply: ServiceReply) -> (r: Action)
        ensures
            reply_step(op, reply, r),
            reply_path_facts(reply, r),
    {
        match reply {
            ServiceReply::RequestFailed(detail) => {
                proof {
                    reveal_strlit("截图请求失败: ");
                }
                Action::Fail(
                    ScreenshotError::with_detail(
                        ErrorKind::Request,
                        "截图请求失败: ",
                        detail.as_str(),
                    ),
                )
            },
            ServiceReply::ResponseFailed(detail) => {
                proof {
                    reveal_strlit("获取截图响应失败: ");
                }
                Action::Fail(
                    ScreenshotError::with_detail(
                        ErrorKind::Response,
                        "获取截图响应失败: ",
                        detail.as_str(),
                    ),
                )
            },
            ServiceReply::Located(uri) => {
                let lookup = resolve_local_path(uri.as_str());
                PortalScreenshotImpl::resolve_located(op, uri.as_str(), lookup)
            },
        }
    }

    fn on_read(&self, read: Result<Vec<u8>, String>) -> (r: Action)
        ensures
            read_step(read, r),
    {
        match read {
            Ok(bytes) => {
                if bytes.len() > 0 {
                    Action::Image(bytes)
                } else {
                    proof {
                        reveal_strlit("读取截图文件失败: ");
                    }
                    Action::Fail(
                        ScreenshotError::with_detail(ErrorKind::Io, "读取截图文件失败: ", "文件为空"),
                    )
                }
            },
            Err(detail) => {
                proof {
                    reveal_strlit("读取截图文件失败: ");
                }
                Action::Fail(
                    ScreenshotError::with_detail(
                        ErrorKind::Io,
                        "读取截图文件失败: ",
                        detail.as_str(),
                    ),
                )
            },
        }
    }
}

} // verus!
