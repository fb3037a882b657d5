//! Core of a pixel-perfect screenshot server for desktop webview applications.
//!
//! The server answers three kinds of request on a local address:
//!
//! - `GET /screenshot` captures the window and returns a PNG image;
//! - `POST /eval` runs the body of the request as a script in the window;
//! - `POST /eval?wait=N` runs the script, lets `N` milliseconds pass, and
//!   returns a capture.
//!
//! This crate holds the decisions of that server: how a request target is
//! read, which operation it selects, in which order the steps of an operation
//! are taken, how the wait for a capture ends, and which reply each outcome
//! is given. It opens no socket and touches no window. A worker does that: it
//! performs what the [`Dispatcher`] asks for and tells it how that went.

pub mod binder;
pub mod capture;
pub mod config;
pub mod dispatch;
pub mod laws;
pub mod operation;
pub mod reply;
pub mod result;
pub mod route;
pub mod target;

pub use binder::SurfaceBinder;
pub use capture::{CaptureOutcome, PendingCapture};
pub use config::Config;
pub use dispatch::{Action, BodyRead, Dispatcher, Event, Phase};
pub use operation::{Effect, Evaluation, Operation, Report};
pub use reply::{Body, Reply};
pub use result::{ErrorKind, Failure, OperationResult};
pub use route::Route;
