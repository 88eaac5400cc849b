use vstd::prelude::*;

use crate::capture::{Action, Operation, Screenshot, ServiceReply};
use crate::portal::{portal_request, read_step, reply_path_facts, reply_step, PortalScreenshotImpl};

verus! {

/// The operating system that the process runs on.
#[derive(Clone, Copy, Debug, PartialEq, Eq, Structural)]
pub enum Platform {
    Linux,
    Windows,
    MacOs,
    Other,
}

impl Platform {
    /// Whether some backend can capture the screen on this platform.
    pub open spec fn has_backend(self) -> bool {
        self is Linux
    }

    pub fn supports_capture(self) -> (r: bool)
        ensures
            r == self.has_backend(),
    {
        matches!(self, Platform::Linux)
    }
}

/// The backend that serves the process, chosen once by `create_screenshot`.
/// Callers use it through the `Screenshot` contract alone.
#[derive(Clone, Copy, Debug)]
pub enum Backend {
    /// The desktop portal, on Linux under Wayland or X11.
    Portal(PortalScreenshotImpl),
}

/// Chooses the backend for `platform`. There is no fallback: a platform
/// without a backend cannot offer captures at all, so callers ask
/// `Platform::supports_capture` first and stop at startup where it is false.
pub fn create_screenshot(platform: Platform) -> (r: Backend)
    requires
        platform.has_backend(),
    ensures
        r is Portal,
{
    Backend::Portal(PortalScreenshotImpl)
}

impl Screenshot for Backend {
    open spec fn supports_file_path(&self) -> bool {
        match self {
            Backend::Portal(p) => p.supports_file_path(),
        }
    }

    fn capture_screen(&self) -> (r: Action)
        ensures
            self is Portal ==> r == portal_request(),
    {
        match self {
            Backend::Portal(p) => p.capture_screen(),
        }
    }

    fn capture_area(&self, x: i32, y: i32, width: u32, height: u32) -> (r: Action)
        ensures
            self is Portal ==> r == portal_request(),
    {
        match self {
            Backend::Portal(p) => p.capture_area(x, y, width, height),
        }
    }

    fn capture_screen_to_file(&self) -> (r: Action)
        ensures
            self is Portal ==> r == portal_request(),
    {
        match self {
            Backend::Portal(p) => p.capture_screen_to_file(),
        }
    }

    fn on_reply(&self, op: Operation, reply: ServiceReply) -> (r: Action)
        ensures
            self is Portal ==> reply_step(op, reply, r) && reply_path_facts(reply, r),
    {
        match self {
            Backend::Portal(p) => p.on_reply(op, reply),
        }
    }

    fn on_read(&self, read: Result<Vec<u8>, String>) -> (r: Action)
        ensures
            self is Portal ==> read_step(read, r),
    {
        match self {
            Backend::Portal(p) => p.on_read(read),
        }
    }
}

} // verus!
