//! Operations and the order of their steps.
//!
//! An operation is what one request asks of the window: a capture, or a script
//! that may be followed, after a delay, by a capture. The window is not reached
//! from here. `begin` and `advance` say which step comes next given how the
//! last one went; the worker performs each step and reports. `execute` and
//! `effects` say the same thing at once, for a window whose answers are known.

use crate::capture::{settle, settled, CaptureOutcome, CaptureOutcomeView, CAPTURE_CEILING_MILLIS};
use crate::result::{ErrorKind, OperationResult, OperationResultView};
use vstd::prelude::*;

verus! {

/// What a request asks of the window.
#[derive(Debug, Clone, PartialEq, Eq)]
pub enum Operation {
    /// Capture the window.
    Capture,
    /// Run `script` in the window. With a `wait`, let that many milliseconds
    /// pass after the script has run, then capture the window.
    RunScript { script: String, wait: Option<u64> },
}

/// An `Operation` as the values it holds.
pub enum OperationView {
    Capture,
    RunScript { script: Seq<char>, wait: Option<u64> },
}

impl View for Operation {
    type V = OperationView;

    open spec fn view(&self) -> OperationView {
        match self {
            Operation::Capture => OperationView::Capture,
            Operation::RunScript { script, wait } => OperationView::RunScript {
                script: script@,
                wait: *wait,
            },
        }
    }
}

/// A step the worker performs on the window for an operation.
#[derive(Debug, Clone, PartialEq, Eq)]
pub enum Effect {
    /// Run `script` in the window.
    Evaluate { script: String },
    /// Let `millis` milliseconds pass.
    Sleep { millis: u64 },
    /// Ask for a capture and wait for it, `ceiling_millis` at the longest.
    Capture { ceiling_millis: u64 },
}

/// An `Effect` as the values it holds.
pub enum EffectView {
    Evaluate { script: Seq<char> },
    Sleep { millis: u64 },
    Capture { ceiling_millis: u64 },
}

impl View for Effect {
    type V = EffectView;

    open spec fn view(&self) -> EffectView {
        match self {
            Effect::Evaluate { script } => EffectView::Evaluate { script: script@ },
            Effect::Sleep { millis } => EffectView::Sleep { millis: *millis },
            Effect::Capture { ceiling_millis } => EffectView::Capture {
                ceiling_millis: *ceiling_millis,
            },
        }
    }
}

/// How a script went: it ran, or it failed with the window's description.
#[derive(Debug, Clone, PartialEq, Eq)]
pub enum Evaluation {
    Ran,
    Failed(String),
}

/// An `Evaluation` as the values it holds.
pub enum EvaluationView {
    Ran,
    Failed(Seq<char>),
}

impl View for Evaluation {
    type V = EvaluationView;

    open spec fn view(&self) -> EvaluationView {
        match self {
            Evaluation::Ran => EvaluationView::Ran,
            Evaluation::Failed(reason) => EvaluationView::Failed(reason@),
        }
    }
}

/// What the worker reports when a step is over.
#[derive(Debug, Clone, PartialEq, Eq)]
pub enum Report {
    /// The script was handed to the window.
    Evaluated(Evaluation),
    /// The delay has passed.
    Slept,
    /// The wait for the capture is over.
    Captured(CaptureOutcome),
}

/// A `Report` as the values it holds.
pub enum ReportView {
    Evaluated(EvaluationView),
    Slept,
    Captured(CaptureOutcomeView),
}

impl View for Report {
    type V = ReportView;

    open spec fn view(&self) -> ReportView {
        match self {
            Report::Evaluated(evaluation) => ReportView::Evaluated(evaluation@),
            Report::Slept => ReportView::Slept,
            Report::Captured(outcome) => ReportView::Captured(outcome@),
        }
    }
}

/// The step of an operation that the worker is performing.
#[derive(Debug, Clone, Copy, PartialEq, Eq, Structural)]
pub enum Stage {
    /// The script runs; `wait` is the delay the request asked for.
    Evaluating { wait: Option<u64> },
    /// The delay passes.
    Sleeping,
    /// The capture is under way.
    Capturing,
}

/// Where an operation stands after a report.
#[derive(Debug, Clone, PartialEq, Eq)]
pub enum Progress {
    /// The operation goes on with `effect`, in `stage`.
    Next { stage: Stage, effect: Effect },
    /// The operation is over.
    Done(OperationResult),
}

/// A `Progress` as the values it holds.
pub enum ProgressView {
    Next { stage: Stage, effect: EffectView },
    Done(OperationResultView),
}

impl View for Progress {
    type V = ProgressView;

    open spec fn view(&self) -> ProgressView {
        match self {
            Progress::Next { stage, effect } => ProgressView::Next {
                stage: *stage,
                effect: effect@,
            },
            Progress::Done(result) => ProgressView::Done(result@),
        }
    }
}

/// The capture step, with the ceiling every capture has.
pub open spec fn capture_effect() -> EffectView {
    EffectView::Capture { ceiling_millis: CAPTURE_CEILING_MILLIS }
}

/// The text a client is told when its script failed.
pub open spec fn script_failed_text(reason: Seq<char>) -> Seq<char> {
    "eval error: "@ + reason
}

/// The first step of an operation.
pub open spec fn first_step(operation: OperationView) -> (Stage, EffectView) {
    match operation {
        OperationView::Capture => (Stage::Capturing, capture_effect()),
        OperationView::RunScript { script, wait } => (
            Stage::Evaluating { wait },
            EffectView::Evaluate { script },
        ),
    }
}

/// Whether `report` reports on the step performed in `stage`.
pub open spec fn fits(stage: Stage, report: ReportView) -> bool {
    match stage {
        Stage::Evaluating { .. } => report is Evaluated,
        Stage::Sleeping => report is Slept,
        Stage::Capturing => report is Captured,
    }
}

/// Where an operation in `stage` stands after `report`. A report that does
/// not answer the stage leads nowhere.
pub open spec fn next_step(stage: Stage, report: ReportView) -> Option<ProgressView> {
    match (stage, report) {
        (Stage::Evaluating { wait }, ReportView::Evaluated(EvaluationView::Ran)) => match wait {
            Some(millis) => Some(
                ProgressView::Next { stage: Stage::Sleeping, effect: EffectView::Sleep { millis } },
            ),
            None => Some(ProgressView::Done(OperationResultView::Acknowledged)),
        },
        (
            Stage::Evaluating { .. },
            ReportView::Evaluated(EvaluationView::Failed(reason)),
        ) => Some(
            ProgressView::Done(
                OperationResultView::Failed {
                    kind: ErrorKind::ScriptExecutionFailed,
                    message: script_failed_text(reason),
                },
            ),
        ),
        (Stage::Sleeping, ReportView::Slept) => Some(
            ProgressView::Next { stage: Stage::Capturing, effect: capture_effect() },
        ),
        (Stage::Capturing, ReportView::Captured(outcome)) => Some(
            ProgressView::Done(settled(outcome)),
        ),
        _ => None,
    }
}

/// What the window answers to the steps of one operation: how the script
/// goes if one is run, and how the capture ends if one is asked for.
pub struct Answers {
    pub evaluation: EvaluationView,
    pub capture: CaptureOutcomeView,
}

/// What an operation ends in on a window that answers as `on` says.
///
/// A capture ends as the capture does. A script without a delay is
/// acknowledged when it has run. A script with a delay ends as the capture
/// does when it has run. A script that fails ends in that failure, with or
/// without a delay.
pub open spec fn execute(operation: OperationView, on: Answers) -> OperationResultView {
    match operation {
        OperationView::Capture => settled(on.capture),
        OperationView::RunScript { script, wait } => match on.evaluation {
            EvaluationView::Failed(reason) => OperationResultView::Failed {
                kind: ErrorKind::ScriptExecutionFailed,
                message: script_failed_text(reason),
            },
            EvaluationView::Ran => match wait {
                Some(_) => settled(on.capture),
                None => OperationResultView::Acknowledged,
            },
        },
    }
}

/// The steps performed for an operation, in order, on a window that answers
/// as `on` says.
pub open spec fn effects(operation: OperationView, on: Answers) -> Seq<EffectView> {
    match operation {
        OperationView::Capture => seq![capture_effect()],
        OperationView::RunScript { script, wait } => match (on.evaluation, wait) {
            (EvaluationView::Ran, Some(millis)) => seq![
                EffectView::Evaluate { script },
                EffectView::Sleep { millis },
                capture_effect(),
            ],
            _ => seq![EffectView::Evaluate { script }],
        },
    }
}

/// The report of `effect` on a window that answers as `on` says.
pub open spec fn report_of(effect: EffectView, on: Answers) -> ReportView {
    match effect {
        EffectView::Evaluate { .. } => ReportView::Evaluated(on.evaluation),
        EffectView::Sleep { .. } => ReportView::Slept,
        EffectView::Capture { .. } => ReportView::Captured(on.capture),
    }
}

/// The steps that are performed from `effect` in `stage` on, and the result
/// they lead to, when each report is the window's answer. `fuel` bounds the
/// number of steps; three are enough for any operation.
pub open spec fn unfold(stage: Stage, effect: EffectView, on: Answers, fuel: nat) -> (
    Seq<EffectView>,
    Option<OperationResultView>,
)
    decreases fuel,
{
    if fuel == 0 {
        (seq![], None)
    } else {
        match next_step(stage, report_of(effect, on)) {
            Some(ProgressView::Done(result)) => (seq![effect], Some(result)),
            Some(ProgressView::Next { stage: later, effect: next }) => {
                let (rest, result) = unfold(later, next, on, (fuel - 1) as nat);
                (seq![effect] + rest, result)
            },
            None => (seq![effect], None),
        }
    }
}

/// Performing an operation step by step, each report being the window's
/// answer, takes exactly the steps of `effects` and ends in the result of
/// `execute`.
pub proof fn law_steps_agree_with_execute(operation: OperationView, on: Answers)
    ensures
        unfold(first_step(operation).0, first_step(operation).1, on, 3) == (
            effects(operation, on),
            Some(execute(operation, on)),
        ),
{
    reveal_with_fuel(unfold, 4);
    let (stage, effect) = first_step(operation);
    let (steps, result) = unfold(stage, effect, on, 3);
    assert(steps =~= effects(operation, on));
}

/// A script that fails is never followed by a capture, with or without a
/// delay.
pub proof fn law_failed_script_is_not_captured(
    script: Seq<char>,
    wait: Option<u64>,
    on: Answers,
)
    requires
        on.evaluation is Failed,
    ensures
        effects(OperationView::RunScript { script, wait }, on) == seq![
            EffectView::Evaluate { script },
        ],
        execute(OperationView::RunScript { script, wait }, on) matches OperationResultView::Failed {
            kind,
            ..
        } && kind == ErrorKind::ScriptExecutionFailed,
{
}

/// With a delay, the steps are the script, then the delay in full, then the
/// capture, in that order and nothing else.
pub proof fn law_delay_stands_between_script_and_capture(
    script: Seq<char>,
    millis: u64,
    on: Answers,
)
    requires
        on.evaluation is Ran,
    ensures
        effects(OperationView::RunScript { script, wait: Some(millis) }, on) == seq![
            EffectView::Evaluate { script },
            EffectView::Sleep { millis },
            capture_effect(),
        ],
        execute(OperationView::RunScript { script, wait: Some(millis) }, on) == settled(
            on.capture,
        ),
{
}

/// Starts an operation: gives its first step and the stage it is then in.
pub fn begin(operation: Operation) -> (start: (Stage, Effect))
    ensures
        (start.0, start.1@) == first_step(operation@),
{
    match operation {
        Operation::Capture => (
            Stage::Capturing,
            Effect::Capture { ceiling_millis: CAPTURE_CEILING_MILLIS },
        ),
        Operation::RunScript { script, wait } => (
            Stage::Evaluating { wait },
            Effect::Evaluate { script },
        ),
    }
}

/// Takes the report of the step performed in `stage` and gives the next step
/// or the result. A report that does not answer the stage gives nothing.
pub fn advance(stage: Stage, report: Report) -> (progress: Option<Progress>)
    ensures
        progress is Some <==> fits(stage, report@),
        match progress {
            Some(p) => next_step(stage, report@) == Some(p@),
            None => next_step(stage, report@) is None,
        },
{
    match stage {
        Stage::Evaluating { wait } => match report {
            Report::Evaluated(Evaluation::Ran) => match wait {
                Some(millis) => Some(
                    Progress::Next { stage: Stage::Sleeping, effect: Effect::Sleep { millis } },
                ),
                None => Some(Progress::Done(OperationResult::Acknowledged)),
            },
            Report::Evaluated(Evaluation::Failed(reason)) => {
                let mut message = String::from_str("eval error: ");
                message.append(reason.as_str());
                Some(
                    Progress::Done(
                        OperationResult::Failed { kind: ErrorKind::ScriptExecutionFailed, message },
                    ),
                )
            },
            _ => None,
        },
        Stage::Sleeping => match report {
            Report::Slept => Some(
                Progress::Next {
                    stage: Stage::Capturing,
                    effect: Effect::Capture { ceiling_millis: CAPTURE_CEILING_MILLIS },
                },
            ),
            _ => None,
        },
        Stage::Capturing => match report {
            Report::Captured(outcome) => Some(Progress::Done(settle(outcome))),
            _ => None,
        },
    }
}

} // verus!
