use tauri_plugin_screenshot_hd::capture::CaptureOutcome;
use tauri_plugin_screenshot_hd::operation::{
    advance, begin, Effect, Evaluation, Operation, Progress, Report, Stage,
};
use tauri_plugin_screenshot_hd::result::{ErrorKind, OperationResult};

/// Performs `operation` on a window that answers with `evaluation` and
/// `capture`, and gives the steps taken and the result.
fn perform(
    operation: Operation,
    evaluation: Evaluation,
    capture: CaptureOutcome,
) -> (Vec<Effect>, OperationResult) {
    let (mut stage, mut effect) = begin(operation);
    let mut steps = Vec::new();
    loop {
        steps.push(effect.clone());
        let report = match effect {
            Effect::Evaluate { .. } => Report::Evaluated(evaluation.clone()),
            Effect::Sleep { .. } => Report::Slept,
            Effect::Capture { .. } => Report::Captured(capture.clone()),
        };
        match advance(stage, report) {
            Some(Progress::Next { stage: later, effect: next }) => {
                stage = later;
                effect = next;
            }
            Some(Progress::Done(result)) => return (steps, result),
            None => panic!("the report answers the step"),
        }
    }
}

fn run_script(script: &str, wait: Option<u64>) -> Operation {
    Operation::RunScript { script: script.to_string(), wait }
}

fn evaluate(script: &str) -> Effect {
    Effect::Evaluate { script: script.to_string() }
}

const CAPTURE: Effect = Effect::Capture { ceiling_millis: 10_000 };

#[test]
fn capture_begins_with_the_capture() {
    assert_eq!(begin(Operation::Capture), (Stage::Capturing, CAPTURE));
}

#[test]
fn script_begins_with_the_script() {
    assert_eq!(
        begin(run_script("document.title = 'x'", Some(5))),
        (Stage::Evaluating { wait: Some(5) }, evaluate("document.title = 'x'"))
    );
    assert_eq!(begin(run_script("", None)), (Stage::Evaluating { wait: None }, evaluate("")));
}

#[test]
fn capture_ends_as_the_capture_does() {
    let (steps, result) =
        perform(Operation::Capture, Evaluation::Ran, CaptureOutcome::Image(vec![1, 2, 3]));
    assert_eq!(steps, vec![CAPTURE]);
    assert_eq!(result, OperationResult::Image { bytes: vec![1, 2, 3] });

    let (steps, result) = perform(Operation::Capture, Evaluation::Ran, CaptureOutcome::TimedOut);
    assert_eq!(steps, vec![CAPTURE]);
    assert_eq!(
        result,
        OperationResult::Failed {
            kind: ErrorKind::CaptureTimeout,
            message: "capture did not complete within 10s".to_string(),
        }
    );
}

#[test]
fn script_without_wait_is_acknowledged() {
    let (steps, result) =
        perform(run_script("1 + 1", None), Evaluation::Ran, CaptureOutcome::Image(vec![1]));
    assert_eq!(steps, vec![evaluate("1 + 1")]);
    assert_eq!(result, OperationResult::Acknowledged);
}

#[test]
fn script_with_wait_sleeps_then_captures() {
    let (steps, result) =
        perform(run_script("go()", Some(50)), Evaluation::Ran, CaptureOutcome::Image(vec![4, 2]));
    assert_eq!(steps, vec![evaluate("go()"), Effect::Sleep { millis: 50 }, CAPTURE]);
    assert_eq!(result, OperationResult::Image { bytes: vec![4, 2] });
}

#[test]
fn script_with_zero_wait_still_captures() {
    let (steps, result) =
        perform(run_script("go()", Some(0)), Evaluation::Ran, CaptureOutcome::Image(vec![]));
    assert_eq!(steps, vec![evaluate("go()"), Effect::Sleep { millis: 0 }, CAPTURE]);
    assert_eq!(result, OperationResult::Image { bytes: vec![] });
}

#[test]
fn script_with_wait_reports_a_failed_capture() {
    let (steps, result) = perform(
        run_script("go()", Some(u64::MAX)),
        Evaluation::Ran,
        CaptureOutcome::Failed("gone".to_string()),
    );
    assert_eq!(steps, vec![evaluate("go()"), Effect::Sleep { millis: u64::MAX }, CAPTURE]);
    assert_eq!(
        result,
        OperationResult::Failed { kind: ErrorKind::CaptureFailed, message: "gone".to_string() }
    );
}

#[test]
fn failed_script_is_never_captured() {
    for wait in [None, Some(0), Some(50)] {
        let (steps, result) = perform(
            run_script("boom()", wait),
            Evaluation::Failed("boom is not defined".to_string()),
            CaptureOutcome::Image(vec![1]),
        );
        assert_eq!(steps, vec![evaluate("boom()")]);
        assert_eq!(
            result,
            OperationResult::Failed {
                kind: ErrorKind::ScriptExecutionFailed,
                message: "eval error: boom is not defined".to_string(),
            }
        );
    }
}

#[test]
fn a_report_that_answers_another_step_is_refused() {
    let evaluating = Stage::Evaluating { wait: Some(1) };
    assert_eq!(advance(evaluating, Report::Slept), None);
    assert_eq!(advance(evaluating, Report::Captured(CaptureOutcome::TimedOut)), None);
    assert_eq!(advance(Stage::Sleeping, Report::Evaluated(Evaluation::Ran)), None);
    assert_eq!(advance(Stage::Sleeping, Report::Captured(CaptureOutcome::TimedOut)), None);
    assert_eq!(advance(Stage::Capturing, Report::Slept), None);
    assert_eq!(advance(Stage::Capturing, Report::Evaluated(Evaluation::Ran)), None);
}

#[test]
fn each_report_leads_to_the_next_step() {
    assert_eq!(
        advance(Stage::Evaluating { wait: Some(250) }, Report::Evaluated(Evaluation::Ran)),
        Some(Progress::Next { stage: Stage::Sleeping, effect: Effect::Sleep { millis: 250 } })
    );
    assert_eq!(
        advance(Stage::Sleeping, Report::Slept),
        Some(Progress::Next { stage: Stage::Capturing, effect: CAPTURE })
    );
    assert_eq!(
        advance(Stage::Capturing, Report::Captured(CaptureOutcome::Unsupported)),
        Some(Progress::Done(OperationResult::Failed {
            kind: ErrorKind::CaptureFailed,
            message: "Native screenshots are only supported on macOS (WKWebView.takeSnapshot). \
                      On other platforms, use the WebDriver screenshot endpoint instead."
                .to_string(),
        }))
    );
}
