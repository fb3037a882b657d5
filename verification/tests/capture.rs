use tauri_plugin_screenshot_hd::capture::{
    settle, CaptureOutcome, PendingCapture, CAPTURE_CEILING_MILLIS,
};
use tauri_plugin_screenshot_hd::result::{ErrorKind, OperationResult};

fn failed(kind: ErrorKind, message: &str) -> OperationResult {
    OperationResult::Failed { kind, message: message.to_string() }
}

#[test]
fn capture_ceiling_is_ten_seconds() {
    assert_eq!(CAPTURE_CEILING_MILLIS, 10_000);
}

#[test]
fn settle_passes_the_image_on_unchanged() {
    let bytes = vec![0x89, b'P', b'N', b'G', 0, 255, 13, 10];
    assert_eq!(
        settle(CaptureOutcome::Image(bytes.clone())),
        OperationResult::Image { bytes }
    );
    assert_eq!(settle(CaptureOutcome::Image(vec![])), OperationResult::Image { bytes: vec![] });
}

#[test]
fn settle_passes_the_native_message_on_unchanged() {
    assert_eq!(
        settle(CaptureOutcome::Failed("The view is not visible".to_string())),
        failed(ErrorKind::CaptureFailed, "The view is not visible")
    );
    assert_eq!(
        settle(CaptureOutcome::Failed("takeSnapshot failed".to_string())),
        failed(ErrorKind::CaptureFailed, "takeSnapshot failed")
    );
    assert_eq!(
        settle(CaptureOutcome::Failed(String::new())),
        failed(ErrorKind::CaptureFailed, "")
    );
}

#[test]
fn settle_names_a_request_that_was_not_issued() {
    assert_eq!(
        settle(CaptureOutcome::NotIssued("webview closed".to_string())),
        failed(ErrorKind::CaptureFailed, "with_webview: webview closed")
    );
}

#[test]
fn settle_tells_of_the_timeout() {
    assert_eq!(
        settle(CaptureOutcome::TimedOut),
        failed(ErrorKind::CaptureTimeout, "capture did not complete within 10s")
    );
}

#[test]
fn settle_tells_where_capture_is_supported() {
    assert_eq!(
        settle(CaptureOutcome::Unsupported),
        failed(
            ErrorKind::CaptureFailed,
            "Native screenshots are only supported on macOS (WKWebView.takeSnapshot). \
             On other platforms, use the WebDriver screenshot endpoint instead."
        )
    );
}

#[test]
fn pending_capture_starts_waiting() {
    let pending = PendingCapture::new();
    assert!(pending.is_waiting());
}

#[test]
fn pending_capture_yields_what_was_written() {
    let mut pending = PendingCapture::new();
    assert!(pending.complete(CaptureOutcome::Image(vec![1, 2, 3])));
    assert!(!pending.is_waiting());
    assert_eq!(pending.claim(), Some(CaptureOutcome::Image(vec![1, 2, 3])));
    assert!(!pending.is_waiting());
}

#[test]
fn pending_capture_yields_a_failure_that_was_written() {
    let mut pending = PendingCapture::new();
    assert!(pending.complete(CaptureOutcome::Failed("no".to_string())));
    assert_eq!(pending.claim(), Some(CaptureOutcome::Failed("no".to_string())));
}

#[test]
fn pending_capture_times_out_when_nothing_was_written() {
    let mut pending = PendingCapture::new();
    assert_eq!(pending.claim(), Some(CaptureOutcome::TimedOut));
    assert!(!pending.is_waiting());
}

#[test]
fn pending_capture_keeps_the_first_answer_only() {
    let mut pending = PendingCapture::new();
    assert!(pending.complete(CaptureOutcome::Image(vec![1])));
    assert!(!pending.complete(CaptureOutcome::Image(vec![2])));
    assert!(!pending.complete(CaptureOutcome::Failed("late".to_string())));
    assert_eq!(pending.claim(), Some(CaptureOutcome::Image(vec![1])));
}

#[test]
fn pending_capture_discards_an_answer_that_comes_after_the_timeout() {
    let mut pending = PendingCapture::new();
    assert_eq!(pending.claim(), Some(CaptureOutcome::TimedOut));
    assert!(!pending.complete(CaptureOutcome::Image(vec![9, 9])));
    assert!(!pending.is_waiting());
    assert_eq!(pending.claim(), None);
}

#[test]
fn pending_capture_is_read_at_most_once() {
    let mut pending = PendingCapture::new();
    assert!(pending.complete(CaptureOutcome::Image(vec![7])));
    assert_eq!(pending.claim(), Some(CaptureOutcome::Image(vec![7])));
    assert_eq!(pending.claim(), None);
    assert_eq!(pending.claim(), None);
}

#[test]
fn a_late_answer_does_not_reach_the_next_capture() {
    let mut first = PendingCapture::new();
    assert_eq!(first.claim(), Some(CaptureOutcome::TimedOut));
    let mut second = PendingCapture::new();
    assert!(!first.complete(CaptureOutcome::Image(vec![1])));
    assert!(second.is_waiting());
    assert!(second.complete(CaptureOutcome::Image(vec![2])));
    assert_eq!(second.claim(), Some(CaptureOutcome::Image(vec![2])));
}
