use vstd::prelude::*;

verus! {

/// What went wrong in a capture.
#[derive(Clone, Copy, Debug, PartialEq, Eq, Structural)]
pub enum ErrorKind {
    /// The capture service refused or could not process the request.
    Request,
    /// The service answered, but its answer cannot be used.
    Response,
    /// Reading the captured image failed.
    Io,
    /// The backend does not offer the operation.
    Unsupported,
}

/// The single error type of every backend: a kind and a readable message.
/// The message is never empty.
#[derive(Debug)]
pub struct ScreenshotError {
    kind: ErrorKind,
    message: String,
}

impl ScreenshotError {
    #[verifier::type_invariant]
    closed spec fn message_not_empty(&self) -> bool {
        self.message@.len() > 0
    }

    /// What went wrong.
    pub closed spec fn spec_kind(&self) -> ErrorKind {
        self.kind
    }

    /// The diagnostic text.
    pub closed spec fn spec_message(&self) -> Seq<char> {
        self.message@
    }

    /// An error always carries some diagnostic text.
    pub open spec fn wf(&self) -> bool {
        self.spec_message().len() > 0
    }

    pub fn new(kind: ErrorKind, message: String) -> (r: Self)
        requires
            message@.len() > 0,
        ensures
            r.spec_kind() == kind,
            r.spec_message() == message@,
            r.wf(),
    {
        ScreenshotError { kind, message }
    }

    /// An error of `kind` whose message is `prefix` followed by `detail`.
    pub fn with_detail(kind: ErrorKind, prefix: &str, detail: &str) -> (r: Self)
        requires
            prefix@.len() > 0,
        ensures
            r.spec_kind() == kind,
            r.spec_message() == prefix@ + detail@,
            r.wf(),
    {
        let mut message = String::from_str(prefix);
        message.append(detail);
        ScreenshotError { kind, message }
    }

    /// The error of a backend that cannot hand out a file path.
    pub fn unsupported_file_path() -> (r: Self)
        ensures
            r.spec_kind() == ErrorKind::Unsupported,
            r.spec_message() == "此截图实现不支持直接返回文件路径"@,
            r.wf(),
    {
        proof {
            reveal_strlit("此截图实现不支持直接返回文件路径");
        }
        ScreenshotError::new(
            ErrorKind::Unsupported,
            String::from_str("此截图实现不支持直接返回文件路径"),
        )
    }

    pub fn kind(&self) -> (r: ErrorKind)
        ensures
            r == self.spec_kind(),
    {
        self.kind
    }

    pub fn message(&self) -> (r: &String)
        ensures
            r@ == self.spec_message(),
            self.wf(),
    {
        proof {
            use_type_invariant(self);
        }
        &self.message
    }

    /// The text shown for this error.
    pub fn to_string(&self) -> (r: String)
        ensures
            r@ == "Screenshot error: "@ + self.spec_message(),
    {
        let mut text = String::from_str("Screenshot error: ");
        text.append(self.message.as_str());
        text
    }
}

} // verus!
