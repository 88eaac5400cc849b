use vstd::prelude::*;

use crate::error::{ErrorKind, ScreenshotError};

verus! {

/// An axis-aligned rectangle in screen coordinates.
#[derive(Clone, Copy, Debug, PartialEq, Eq, Structural)]
pub struct CaptureRegion {
    pub x: i32,
    pub y: i32,
    pub width: u32,
    pub height: u32,
}

/// The capture that a caller asked for.
#[derive(Clone, Copy, Debug, PartialEq, Eq, Structural)]
pub enum Operation {
    /// The whole primary display, as image bytes.
    Screen,
    /// A part of the screen, as image bytes.
    Area(CaptureRegion),
    /// The whole primary display, as the path of a file that holds it.
    ScreenToFile,
}

impl Operation {
    /// Whether the caller wants a path rather than bytes.
    pub open spec fn wants_path(self) -> bool {
        self is ScreenToFile
    }
}

/// What the platform capture service answered to a request.
#[derive(Debug)]
pub enum ServiceReply {
    /// The capture was made; the locator (URI) of the image.
    Located(String),
    /// The request was refused or the service could not be reached.
    RequestFailed(String),
    /// The service answered, but without a usable response.
    ResponseFailed(String),
}

/// The next thing a capture needs: outside work for the host, or the end.
#[derive(Debug)]
pub enum Action {
    /// Send one request to the platform capture service.
    Request { interactive: bool, modal: bool },
    /// Read the whole file at this path, given as its raw bytes (a local
    /// path need not be valid Unicode).
    ReadFile(Vec<u8>),
    /// The capture is done: the encoded image.
    Image(Vec<u8>),
    /// The capture is done: the path of the file that holds the image.
    Path(String),
    /// The capture failed.
    Fail(ScreenshotError),
}

impl Action {
    /// No capture ends in empty data, and every error carries text.
    pub open spec fn wf(&self) -> bool {
        match self {
            Action::Request { .. } => true,
            Action::ReadFile(p) => p@.len() > 0,
            Action::Image(b) => b@.len() > 0,
            Action::Path(p) => p@.len() > 0,
            Action::Fail(e) => e.wf(),
        }
    }

    /// Whether the capture has ended, with a result or an error.
    pub open spec fn is_final(&self) -> bool {
        self is Image || self is Path || self is Fail
    }

    /// A result of the kind that `op` asked for, or an error.
    pub open spec fn ends_as(&self, op: Operation) -> bool {
        if op.wants_path() {
            !(self is Image)
        } else {
            !(self is Path)
        }
    }
}

/// The capability contract that every capture backend meets.
///
/// Each operation returns the first step of a capture; the host performs it
/// and hands the outcome to `on_reply` or `on_read`, until a final step. A
/// reply never leads to a second request, and a read always ends the capture.
/// Whatever a backend does inside, no step ends in empty data and every error
/// carries text.
pub trait Screenshot {
    /// Whether `capture_screen_to_file` can succeed on this backend; a
    /// backend that can hand out a path says so.
    open spec fn supports_file_path(&self) -> bool {
        false
    }

    /// Starts a capture of the whole primary display, as image bytes.
    fn capture_screen(&self) -> (r: Action)
        ensures
            r.wf(),
            r.ends_as(Operation::Screen),
    ;

    /// Starts a capture of `region`, as image bytes.
    fn capture_area(&self, x: i32, y: i32, width: u32, height: u32) -> (r: Action)
        ensures
            r.wf(),
            r.ends_as(Operation::Area(CaptureRegion { x, y, width, height })),
    ;

    /// Starts a capture of the whole display that ends in a file path.
    fn capture_screen_to_file(&self) -> (r: Action)
        ensures
            r.wf(),
            r.ends_as(Operation::ScreenToFile),
            !self.supports_file_path() ==> r is Fail && r->Fail_0.spec_kind() == ErrorKind::Unsupported
                && r->Fail_0.spec_message() == "此截图实现不支持直接返回文件路径"@,
    {
        Action::Fail(ScreenshotError::unsupported_file_path())
    }

    /// The step after the capture service answered a request made for `op`.
    fn on_reply(&self, op: Operation, reply: ServiceReply) -> (r: Action)
        ensures
            r.wf(),
            r.ends_as(op),
            !(r is Request),
    ;

    /// The step after the host read the file that a `ReadFile` step named.
    fn on_read(&self, read: Result<Vec<u8>, String>) -> (r: Action)
        ensures
            r.wf(),
            r.is_final(),
            !(r is Path),
    ;
}

} // verus!
