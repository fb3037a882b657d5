//! What an operation ends in, and the kinds of failure.

use vstd::prelude::*;

verus! {

/// Status of a request that was served.
pub const STATUS_OK: u16 = 200;

/// Status of a request whose body could not be read.
pub const STATUS_BAD_REQUEST: u16 = 400;

/// Status of a request for a path the server does not know.
pub const STATUS_NOT_FOUND: u16 = 404;

/// Status of a request whose script failed.
pub const STATUS_SCRIPT_FAILED: u16 = 500;

/// Status of a request that came before the window existed.
pub const STATUS_NOT_READY: u16 = 503;

/// Status of a request whose capture failed or did not complete in time.
pub const STATUS_CAPTURE_FAILED: u16 = 504;

/// The kinds of failure the server knows.
#[derive(Debug, Clone, Copy, PartialEq, Eq, Structural)]
pub enum ErrorKind {
    /// The window does not exist yet. Expected while the application starts.
    SurfaceNotYetAvailable,
    /// The body of the request could not be read as text.
    RequestBodyUnreadable,
    /// The window refused or failed to run the script.
    ScriptExecutionFailed,
    /// The capture was answered with a failure.
    CaptureFailed,
    /// The capture was not answered within the ceiling.
    CaptureTimeout,
    /// The server could not listen on the configured address.
    BindFailed,
}

impl ErrorKind {
    /// The status a failure of this kind is answered with. A failure to bind
    /// ends the worker before any request exists, so it has none.
    pub open spec fn status_of(self) -> Option<u16> {
        match self {
            ErrorKind::SurfaceNotYetAvailable => Some(STATUS_NOT_READY),
            ErrorKind::RequestBodyUnreadable => Some(STATUS_BAD_REQUEST),
            ErrorKind::ScriptExecutionFailed => Some(STATUS_SCRIPT_FAILED),
            ErrorKind::CaptureFailed => Some(STATUS_CAPTURE_FAILED),
            ErrorKind::CaptureTimeout => Some(STATUS_CAPTURE_FAILED),
            ErrorKind::BindFailed => None,
        }
    }

    /// Whether a failure of this kind ends the worker.
    pub open spec fn is_fatal(self) -> bool {
        self == ErrorKind::BindFailed
    }

    /// The status a failure of this kind is answered with.
    pub fn status(self) -> (code: Option<u16>)
        ensures
            code == self.status_of(),
            code is None <==> self.is_fatal(),
    {
        match self {
            ErrorKind::SurfaceNotYetAvailable => Some(STATUS_NOT_READY),
            ErrorKind::RequestBodyUnreadable => Some(STATUS_BAD_REQUEST),
            ErrorKind::ScriptExecutionFailed => Some(STATUS_SCRIPT_FAILED),
            ErrorKind::CaptureFailed => Some(STATUS_CAPTURE_FAILED),
            ErrorKind::CaptureTimeout => Some(STATUS_CAPTURE_FAILED),
            ErrorKind::BindFailed => None,
        }
    }
}

/// A failure that is told to no client: its kind, and a description for the
/// host.
#[derive(Debug, Clone, PartialEq, Eq)]
pub struct Failure {
    pub kind: ErrorKind,
    pub message: String,
}

/// A `Failure` as the values it holds.
pub struct FailureView {
    pub kind: ErrorKind,
    pub message: Seq<char>,
}

impl View for Failure {
    type V = FailureView;

    open spec fn view(&self) -> FailureView {
        FailureView { kind: self.kind, message: self.message@ }
    }
}

/// What an operation ends in.
#[derive(Debug, Clone, PartialEq, Eq)]
pub enum OperationResult {
    /// A capture, as the bytes of a PNG image.
    Image { bytes: Vec<u8> },
    /// The script ran and no capture was asked for.
    Acknowledged,
    /// The operation failed.
    Failed { kind: ErrorKind, message: String },
}

/// An `OperationResult` as the values it holds.
pub enum OperationResultView {
    Image { bytes: Seq<u8> },
    Acknowledged,
    Failed { kind: ErrorKind, message: Seq<char> },
}

impl View for OperationResult {
    type V = OperationResultView;

    open spec fn view(&self) -> OperationResultView {
        match self {
            OperationResult::Image { bytes } => OperationResultView::Image { bytes: bytes@ },
            OperationResult::Acknowledged => OperationResultView::Acknowledged,
            OperationResult::Failed { kind, message } => OperationResultView::Failed {
                kind: *kind,
                message: message@,
            },
        }
    }
}

} // verus!
