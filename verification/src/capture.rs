//! The capture bridge.
//!
//! A capture is asked of the window and answered later, on a thread the
//! platform chooses, through a callback that fires once. The worker that asked
//! waits for the answer, but never longer than the ceiling. `PendingCapture`
//! is the slot through which the answer passes; `CaptureOutcome` is what the
//! worker holds when its wait is over; `settle` says what that means for the
//! request.

use crate::result::{ErrorKind, OperationResult, OperationResultView};
use vstd::prelude::*;

verus! {

/// Longest time, in milliseconds, that the worker waits for a capture.
pub const CAPTURE_CEILING_MILLIS: u64 = 10_000;

/// How a capture ended, as the worker saw it.
#[derive(Debug, Clone, PartialEq, Eq)]
pub enum CaptureOutcome {
    /// The callback brought the bytes of a PNG image.
    Image(Vec<u8>),
    /// The callback brought a failure, described by the platform.
    Failed(String),
    /// The window would not take the request; no callback will come.
    NotIssued(String),
    /// The ceiling passed with no callback.
    TimedOut,
    /// This platform has no native capture.
    Unsupported,
}

/// A `CaptureOutcome` as the values it holds.
pub enum CaptureOutcomeView {
    Image(Seq<u8>),
    Failed(Seq<char>),
    NotIssued(Seq<char>),
    TimedOut,
    Unsupported,
}

impl View for CaptureOutcome {
    type V = CaptureOutcomeView;

    open spec fn view(&self) -> CaptureOutcomeView {
        match self {
            CaptureOutcome::Image(bytes) => CaptureOutcomeView::Image(bytes@),
            CaptureOutcome::Failed(message) => CaptureOutcomeView::Failed(message@),
            CaptureOutcome::NotIssued(message) => CaptureOutcomeView::NotIssued(message@),
            CaptureOutcome::TimedOut => CaptureOutcomeView::TimedOut,
            CaptureOutcome::Unsupported => CaptureOutcomeView::Unsupported,
        }
    }
}

/// What a client is told when the ceiling passed.
pub open spec fn timeout_text() -> Seq<char> {
    "capture did not complete within 10s"@
}

/// What a client is told when the window would not take the request.
pub open spec fn not_issued_text(reason: Seq<char>) -> Seq<char> {
    "with_webview: "@ + reason
}

/// What a client is told on a platform without native capture.
pub open spec fn unsupported_text() -> Seq<char> {
    "Native screenshots are only supported on macOS (WKWebView.takeSnapshot). On other platforms, use the WebDriver screenshot endpoint instead."@
}

/// What a capture that ended in `outcome` means for the request: the image,
/// or a failure with its kind and the text for the client.
pub open spec fn settled(outcome: CaptureOutcomeView) -> OperationResultView {
    match outcome {
        CaptureOutcomeView::Image(bytes) => OperationResultView::Image { bytes },
        CaptureOutcomeView::Failed(message) => OperationResultView::Failed {
            kind: ErrorKind::CaptureFailed,
            message,
        },
        CaptureOutcomeView::NotIssued(reason) => OperationResultView::Failed {
            kind: ErrorKind::CaptureFailed,
            message: not_issued_text(reason),
        },
        CaptureOutcomeView::TimedOut => OperationResultView::Failed {
            kind: ErrorKind::CaptureTimeout,
            message: timeout_text(),
        },
        CaptureOutcomeView::Unsupported => OperationResultView::Failed {
            kind: ErrorKind::CaptureFailed,
            message: unsupported_text(),
        },
    }
}

/// Turns the end of a capture into the result of the operation.
pub fn settle(outcome: CaptureOutcome) -> (result: OperationResult)
    ensures
        result@ == settled(outcome@),
        !(result is Acknowledged),
{
    match outcome {
        CaptureOutcome::Image(bytes) => OperationResult::Image { bytes },
        CaptureOutcome::Failed(message) => OperationResult::Failed {
            kind: ErrorKind::CaptureFailed,
            message,
        },
        CaptureOutcome::NotIssued(reason) => {
            let mut message = String::from_str("with_webview: ");
            message.append(reason.as_str());
            OperationResult::Failed { kind: ErrorKind::CaptureFailed, message }
        },
        CaptureOutcome::TimedOut => OperationResult::Failed {
            kind: ErrorKind::CaptureTimeout,
            message: String::from_str("capture did not complete within 10s"),
        },
        CaptureOutcome::Unsupported => OperationResult::Failed {
            kind: ErrorKind::CaptureFailed,
            message: String::from_str(
                "Native screenshots are only supported on macOS (WKWebView.takeSnapshot). On other platforms, use the WebDriver screenshot endpoint instead.",
            ),
        },
    }
}

/// The states of a completion slot.
#[derive(Debug, Clone, PartialEq, Eq)]
pub enum Slot {
    /// Nothing was written yet and the reader has not given up.
    Empty,
    /// The answer was written and waits to be read.
    Filled(CaptureOutcome),
    /// The reader has read the slot, or has given up on it.
    Closed,
}

/// A `Slot` as the values it holds.
pub enum SlotView {
    Empty,
    Filled(CaptureOutcomeView),
    Closed,
}

impl View for Slot {
    type V = SlotView;

    open spec fn view(&self) -> SlotView {
        match self {
            Slot::Empty => SlotView::Empty,
            Slot::Filled(outcome) => SlotView::Filled(outcome@),
            Slot::Closed => SlotView::Closed,
        }
    }
}

/// The slot after an answer is written to it: kept if the slot was empty,
/// dropped otherwise.
pub open spec fn after_complete(slot: SlotView, outcome: CaptureOutcomeView) -> SlotView {
    match slot {
        SlotView::Empty => SlotView::Filled(outcome),
        _ => slot,
    }
}

/// What a read of the slot gives: the answer if one is there, `TimedOut` if
/// none was written yet, and nothing if the slot was read before.
pub open spec fn claimed(slot: SlotView) -> Option<CaptureOutcomeView> {
    match slot {
        SlotView::Empty => Some(CaptureOutcomeView::TimedOut),
        SlotView::Filled(answer) => Some(answer),
        SlotView::Closed => None,
    }
}

/// The slot is written at most once: after a first answer, a second one
/// changes nothing, whether or not the first was read in between.
pub proof fn law_first_answer_wins(
    slot: SlotView,
    first: CaptureOutcomeView,
    second: CaptureOutcomeView,
)
    ensures
        after_complete(after_complete(slot, first), second) == after_complete(slot, first),
        after_complete(SlotView::Closed, second) == SlotView::Closed,
        claimed(after_complete(SlotView::Empty, first)) == Some(first),
{
}

/// An answer that comes after the reader has gone is discarded: the slot
/// stays closed, and a later read gives nothing.
pub proof fn law_late_answer_is_discarded(late: CaptureOutcomeView)
    ensures
        claimed(SlotView::Empty) == Some(CaptureOutcomeView::TimedOut),
        claimed(after_complete(SlotView::Closed, late)) is None,
{
}

/// The slot through which one capture is answered. It is written at most
/// once and read at most once, and each capture gets a slot of its own.
#[derive(Debug)]
pub struct PendingCapture {
    slot: Slot,
}

impl View for PendingCapture {
    type V = SlotView;

    closed spec fn view(&self) -> SlotView {
        self.slot@
    }
}

impl PendingCapture {
    /// A slot for a capture that is about to be asked for.
    pub fn new() -> (pending: PendingCapture)
        ensures
            pending@ == SlotView::Empty,
    {
        PendingCapture { slot: Slot::Empty }
    }

    /// Whether the slot still waits for its answer.
    pub fn is_waiting(&self) -> (waiting: bool)
        ensures
            waiting == (self@ is Empty),
    {
        match &self.slot {
            Slot::Empty => true,
            _ => false,
        }
    }

    /// Writes the answer. Only the first answer to an open slot is kept: a
    /// second one, or one that comes after the reader has gone, changes
    /// nothing.
    pub fn complete(&mut self, outcome: CaptureOutcome) -> (kept: bool)
        ensures
            kept == (old(self)@ is Empty),
            final(self)@ == after_complete(old(self)@, outcome@),
    {
        if self.is_waiting() {
            self.slot = Slot::Filled(outcome);
            true
        } else {
            false
        }
    }

    /// Reads the slot when the wait is over, and closes it. The first read
    /// gives the answer if one was written and `TimedOut` if none was; a
    /// later read gives nothing.
    pub fn claim(&mut self) -> (outcome: Option<CaptureOutcome>)
        ensures
            final(self)@ == SlotView::Closed,
            match outcome {
                Some(o) => claimed(old(self)@) == Some(o@),
                None => claimed(old(self)@) is None,
            },
    {
        let mut slot = Slot::Closed;
        std::mem::swap(&mut self.slot, &mut slot);
        match slot {
            Slot::Empty => Some(CaptureOutcome::TimedOut),
            Slot::Filled(answer) => Some(answer),
            Slot::Closed => None,
        }
    }
}

} // verus!
