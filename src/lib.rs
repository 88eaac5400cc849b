//! Screenshot capture behind one capability contract.
//!
//! Backends decide; the host performs the outside work they ask for (a
//! request to the platform capture service, a file read) and reports back.
pub mod capture;
pub mod error;
pub mod portal;
pub mod reply;
pub mod select;

pub use error::{ErrorKind, ScreenshotError};
pub use capture::{Action, CaptureRegion, Operation, Screenshot, ServiceReply};
pub use portal::PortalScreenshotImpl;
pub use select::{create_screenshot, Backend, Platform};
pub use reply::{greet, png_data_uri, screenshot_reply};
