//! Replies: the status and body a request is answered with.

use crate::result::{
    ErrorKind, OperationResult, OperationResultView, STATUS_NOT_FOUND, STATUS_OK,
};
use vstd::prelude::*;

verus! {

/// The body of a reply.
#[derive(Debug, Clone, PartialEq, Eq)]
pub enum Body {
    /// Plain text.
    Text(String),
    /// The bytes of a PNG image.
    Png(Vec<u8>),
}

/// A `Body` as the values it holds.
pub enum BodyView {
    Text(Seq<char>),
    Png(Seq<u8>),
}

impl View for Body {
    type V = BodyView;

    open spec fn view(&self) -> BodyView {
        match self {
            Body::Text(text) => BodyView::Text(text@),
            Body::Png(bytes) => BodyView::Png(bytes@),
        }
    }
}

/// What a request is answered with.
#[derive(Debug, Clone, PartialEq, Eq)]
pub struct Reply {
    pub status: u16,
    pub body: Body,
}

/// A `Reply` as the values it holds.
pub struct ReplyView {
    pub status: u16,
    pub body: BodyView,
}

impl View for Reply {
    type V = ReplyView;

    open spec fn view(&self) -> ReplyView {
        ReplyView { status: self.status, body: self.body@ }
    }
}

/// The body of the reply to a script that ran, when no capture was asked for.
pub open spec fn acknowledged_text() -> Seq<char> {
    "ok"@
}

/// The body of the reply to a request for an unknown path: what the server
/// offers.
pub open spec fn usage_text() -> Seq<char> {
    "tauri-plugin-screenshot-hd\n\nGET  /screenshot        — capture PNG\nPOST /eval              — run JS in webview\nPOST /eval?wait=<ms>    — run JS, wait, then capture PNG"@
}

/// The body of the reply to a request that came before the window named
/// `label` existed.
pub open spec fn not_ready_text(label: Seq<char>) -> Seq<char> {
    "window '"@ + label + "' not found yet — app may still be starting"@
}

/// The text a client is told when the body of its request could not be read.
pub open spec fn unreadable_text(reason: Seq<char>) -> Seq<char> {
    "read error: "@ + reason
}

/// The media type of a PNG image.
pub open spec fn png_media_type() -> Seq<char> {
    "image/png"@
}

/// The reply to a request for an unknown path.
pub open spec fn usage_reply() -> ReplyView {
    ReplyView { status: STATUS_NOT_FOUND, body: BodyView::Text(usage_text()) }
}

/// The failure of a request that came before the window named `label`
/// existed.
pub open spec fn not_ready(label: Seq<char>) -> OperationResultView {
    OperationResultView::Failed {
        kind: ErrorKind::SurfaceNotYetAvailable,
        message: not_ready_text(label),
    }
}

/// The failure of a request whose body could not be read.
pub open spec fn unreadable(reason: Seq<char>) -> OperationResultView {
    OperationResultView::Failed {
        kind: ErrorKind::RequestBodyUnreadable,
        message: unreadable_text(reason),
    }
}

/// The reply that tells a client of `result`: an image with status 200, the
/// text `ok` with status 200, or the text of a failure with the status of its
/// kind. A failure of a kind that has no status is told to no client.
pub open spec fn reply_to(result: OperationResultView) -> Option<ReplyView> {
    match result {
        OperationResultView::Image { bytes } => Some(
            ReplyView { status: STATUS_OK, body: BodyView::Png(bytes) },
        ),
        OperationResultView::Acknowledged => Some(
            ReplyView { status: STATUS_OK, body: BodyView::Text(acknowledged_text()) },
        ),
        OperationResultView::Failed { kind, message } => match kind.status_of() {
            Some(status) => Some(ReplyView { status, body: BodyView::Text(message) }),
            None => None,
        },
    }
}

/// Whether `result` can be told to a client.
pub open spec fn tellable(result: OperationResultView) -> bool {
    result matches OperationResultView::Failed { kind, .. } ==> !kind.is_fatal()
}

impl Reply {
    /// The reply to a request for an unknown path.
    pub fn usage() -> (reply: Reply)
        ensures
            reply@ == usage_reply(),
    {
        Reply {
            status: STATUS_NOT_FOUND,
            body: Body::Text(
                String::from_str(
                    "tauri-plugin-screenshot-hd\n\nGET  /screenshot        — capture PNG\nPOST /eval              — run JS in webview\nPOST /eval?wait=<ms>    — run JS, wait, then capture PNG",
                ),
            ),
        }
    }

    /// The reply that tells a client of `result`.
    pub fn to_result(result: OperationResult) -> (reply: Option<Reply>)
        ensures
            reply is Some <==> tellable(result@),
            match reply {
                Some(r) => reply_to(result@) == Some(r@),
                None => reply_to(result@) is None,
            },
    {
        match result {
            OperationResult::Image { bytes } => Some(
                Reply { status: STATUS_OK, body: Body::Png(bytes) },
            ),
            OperationResult::Acknowledged => Some(
                Reply { status: STATUS_OK, body: Body::Text(String::from_str("ok")) },
            ),
            OperationResult::Failed { kind, message } => match kind.status() {
                Some(status) => Some(Reply { status, body: Body::Text(message) }),
                None => None,
            },
        }
    }

    /// The media type to announce for the body, where the reply has to name
    /// one: an image is announced as `image/png`, text is left to the server's
    /// default for text.
    pub fn content_type(&self) -> (media: Option<&'static str>)
        ensures
            self@.body is Png ==> media is Some && media->0@ == png_media_type(),
            self@.body is Text ==> media is None,
    {
        match &self.body {
            Body::Png(_) => Some("image/png"),
            Body::Text(_) => None,
        }
    }
}

/// The failure of a request that came before the window named `label`
/// existed.
pub fn surface_not_ready(label: &str) -> (result: OperationResult)
    ensures
        result@ == not_ready(label@),
{
    let mut message = String::from_str("window '");
    message.append(label);
    message.append("' not found yet — app may still be starting");
    OperationResult::Failed { kind: ErrorKind::SurfaceNotYetAvailable, message }
}

/// The failure of a request whose body could not be read, for the reason the
/// reader gave.
pub fn body_unreadable(reason: &str) -> (result: OperationResult)
    ensures
        result@ == unreadable(reason@),
{
    let mut message = String::from_str("read error: ");
    message.append(reason);
    OperationResult::Failed { kind: ErrorKind::RequestBodyUnreadable, message }
}

} // verus!
