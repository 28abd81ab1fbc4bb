//! The inference gateway: what is asked of the endpoint, and what is made of
//! its answer.
//!
//! The gateway does no input or output itself. [`ask_ai_brain`] opens an
//! exchange and hands out the request to send. The caller sends it, reports
//! each thing that happens as an [`EndpointEvent`] to [`on_event`], and does
//! what the returned [`Directive`] says, until a result is delivered.
//!
//! Two kinds of failure are kept apart. A failure of the transport is
//! delivered as an error. A failure that the endpoint itself reports, by a
//! status other than success, is absorbed: the exchange then delivers a fixed
//! reply with a neutral mood, so that the conversation goes on.

use crate::context::{build_context, context_window, PromptTurn, PromptTurnView};
use crate::mood::{decimal_value, digits_end, parsed_reply};
use crate::profile::{Message, MessageView};
use vstd::prelude::*;

verus! {

/// The model that every request names.
pub const MODEL: &'static str = "mistral";

/// Where the endpoint listens unless configured otherwise.
pub const DEFAULT_ENDPOINT: &'static str = "http://localhost:11434/api/chat";

/// The reply that stands in for the endpoint's when it reports a failure.
pub const SOFT_FALLBACK: &'static str = "[MOOD:5] Je réfléchis...";

/// The mood that [`SOFT_FALLBACK`] carries.
pub const NEUTRAL_MOOD: i32 = 5;

/// The payload of one request. `stream` is always off: one complete reply is
/// asked for.
#[derive(Debug, PartialEq, Eq)]
pub struct ChatRequest {
    pub model: String,
    pub messages: Vec<PromptTurn>,
    pub stream: bool,
}

/// The mathematical value of a [`ChatRequest`].
pub struct ChatRequestView {
    pub model: Seq<char>,
    pub messages: Seq<PromptTurnView>,
    pub stream: bool,
}

impl View for ChatRequest {
    type V = ChatRequestView;

    open spec fn view(&self) -> ChatRequestView {
        ChatRequestView {
            model: self.model@,
            messages: self.messages.deep_view(),
            stream: self.stream,
        }
    }
}

/// Why no reply could be had from the endpoint.
#[derive(Debug, PartialEq, Eq)]
pub enum TransportError {
    /// The endpoint could not be reached, or the connection broke.
    Unreachable(String),
    /// The endpoint did not answer in time.
    TimedOut,
    /// The endpoint answered with success, but its body could not be read as
    /// a reply.
    Malformed(String),
    /// An event was reported that the exchange was not waiting for.
    OutOfOrder,
}

/// The mathematical value of a [`TransportError`].
pub enum TransportErrorView {
    Unreachable(Seq<char>),
    TimedOut,
    Malformed(Seq<char>),
    OutOfOrder,
}

impl View for TransportError {
    type V = TransportErrorView;

    open spec fn view(&self) -> TransportErrorView {
        match self {
            TransportError::Unreachable(reason) => TransportErrorView::Unreachable(reason@),
            TransportError::TimedOut => TransportErrorView::TimedOut,
            TransportError::Malformed(reason) => TransportErrorView::Malformed(reason@),
            TransportError::OutOfOrder => TransportErrorView::OutOfOrder,
        }
    }
}

impl TransportErrorView {
    /// The error in words: the reason that came with it, or a fixed text.
    pub open spec fn message(self) -> Seq<char> {
        match self {
            TransportErrorView::Unreachable(reason) => reason,
            TransportErrorView::TimedOut => "the inference endpoint did not answer in time"@,
            TransportErrorView::Malformed(reason) => reason,
            TransportErrorView::OutOfOrder => "the inference exchange was driven out of order"@,
        }
    }
}

impl TransportError {
    /// The error in words.
    pub fn message(&self) -> (text: String)
        ensures
            text@ == self@.message(),
    {
        match self {
            TransportError::Unreachable(reason) => reason.clone(),
            TransportError::TimedOut => "the inference endpoint did not answer in time".to_owned(),
            TransportError::Malformed(reason) => reason.clone(),
            TransportError::OutOfOrder => "the inference exchange was driven out of order"
                .to_owned(),
        }
    }
}

/// Where an exchange with the endpoint stands.
#[derive(Clone, Copy, Debug, PartialEq, Eq, Structural)]
pub enum Exchange {
    /// The request is out; the endpoint's status has not come yet.
    AwaitingResponse,
    /// A success status has come; the body has not been read yet.
    AwaitingBody,
    /// A result was delivered. Nothing more is expected.
    Closed,
}

/// What the caller reports of its dealings with the endpoint.
#[derive(Debug, PartialEq, Eq)]
pub enum EndpointEvent {
    /// The connection could not be made, or it broke.
    ConnectionFailed(String),
    /// The time allowed for the endpoint ran out.
    TimedOut,
    /// The endpoint answered with this HTTP status.
    Status(u16),
    /// The body was read; this is the content of the message in it.
    Body(String),
    /// The body could not be read as a reply.
    Undecodable(String),
}

/// The mathematical value of an [`EndpointEvent`].
pub enum EndpointEventView {
    ConnectionFailed(Seq<char>),
    TimedOut,
    Status(u16),
    Body(Seq<char>),
    Undecodable(Seq<char>),
}

impl View for EndpointEvent {
    type V = EndpointEventView;

    open spec fn view(&self) -> EndpointEventView {
        match self {
            EndpointEvent::ConnectionFailed(reason) => EndpointEventView::ConnectionFailed(
                reason@,
            ),
            EndpointEvent::TimedOut => EndpointEventView::TimedOut,
            EndpointEvent::Status(code) => EndpointEventView::Status(*code),
            EndpointEvent::Body(content) => EndpointEventView::Body(content@),
            EndpointEvent::Undecodable(reason) => EndpointEventView::Undecodable(reason@),
        }
    }
}

/// What the caller is to do next.
#[derive(Debug, PartialEq, Eq)]
pub enum Directive {
    /// Read the body of the response and report it.
    ReadBody,
    /// The exchange is over: hand this to whoever asked.
    Deliver(Result<String, TransportError>),
}

/// The mathematical value of a [`Directive`].
pub enum DirectiveView {
    ReadBody,
    Deliver(Result<Seq<char>, TransportErrorView>),
}

impl View for Directive {
    type V = DirectiveView;

    open spec fn view(&self) -> DirectiveView {
        match self {
            Directive::ReadBody => DirectiveView::ReadBody,
            Directive::Deliver(Ok(reply)) => DirectiveView::Deliver(Ok(reply@)),
            Directive::Deliver(Err(error)) => DirectiveView::Deliver(Err(error@)),
        }
    }
}

/// The request that asks for a reply to `user_input` after `history`.
pub open spec fn request_for(history: Seq<MessageView>, user_input: Seq<char>) -> ChatRequestView {
    ChatRequestView {
        model: MODEL@,
        messages: context_window(history, Some(user_input)),
        stream: false,
    }
}

/// A status from 200 to 299 is a success.
pub open spec fn is_success(code: u16) -> bool {
    200 <= code < 300
}

/// The delivery of a failure of the transport.
pub open spec fn failed(error: TransportErrorView) -> (Exchange, DirectiveView) {
    (Exchange::Closed, DirectiveView::Deliver(Err(error)))
}

/// The delivery of a reply.
pub open spec fn replied(reply: Seq<char>) -> (Exchange, DirectiveView) {
    (Exchange::Closed, DirectiveView::Deliver(Ok(reply)))
}

/// The state that follows `state` on `event`, and what the caller is told.
pub open spec fn next_step(state: Exchange, event: EndpointEventView) -> (Exchange, DirectiveView) {
    match (state, event) {
        (_, EndpointEventView::TimedOut) if state != Exchange::Closed => failed(
            TransportErrorView::TimedOut,
        ),
        (_, EndpointEventView::ConnectionFailed(reason)) if state != Exchange::Closed => failed(
            TransportErrorView::Unreachable(reason),
        ),
        (Exchange::AwaitingResponse, EndpointEventView::Status(code)) => if is_success(code) {
            (Exchange::AwaitingBody, DirectiveView::ReadBody)
        } else {
            replied(SOFT_FALLBACK@)
        },
        (Exchange::AwaitingBody, EndpointEventView::Body(content)) => replied(content),
        (Exchange::AwaitingBody, EndpointEventView::Undecodable(reason)) => failed(
            TransportErrorView::Malformed(reason),
        ),
        _ => failed(TransportErrorView::OutOfOrder),
    }
}

/// Calls `reqwest::StatusCode::is_success` on the status with this number,
/// so that the gateway and the HTTP client agree on what a success is. The
/// contract claims that it holds of the numbers from 200 to 299 and of no
/// other; a number that is no status at all is no success.
#[verifier::external_body]
fn status_is_success(code: u16) -> (success: bool)
    ensures
        success == is_success(code),
{
    match reqwest::StatusCode::from_u16(code) {
        Ok(status) => status.is_success(),
        Err(_) => false,
    }
}

/// Opens an exchange: builds the request that asks for a reply to
/// `user_input` after `history`. The request is sent once.
pub fn ask_ai_brain(history: &Vec<Message>, user_input: String) -> (opened: (
    Exchange,
    ChatRequest,
))
    ensures
        opened.0 == Exchange::AwaitingResponse,
        opened.1@ == request_for(history.deep_view(), user_input@),
{
    let messages = build_context(history, Some(user_input));
    let request = ChatRequest { model: MODEL.to_owned(), messages, stream: false };
    (Exchange::AwaitingResponse, request)
}

/// Takes one event of an exchange and says what follows. The content of a
/// body is delivered as it came.
pub fn on_event(state: Exchange, event: EndpointEvent) -> (step: (Exchange, Directive))
    ensures
        (step.0, step.1@) == next_step(state, event@),
{
    match (state, event) {
        (Exchange::Closed, _) => (
            Exchange::Closed,
            Directive::Deliver(Err(TransportError::OutOfOrder)),
        ),
        (_, EndpointEvent::TimedOut) => (
            Exchange::Closed,
            Directive::Deliver(Err(TransportError::TimedOut)),
        ),
        (_, EndpointEvent::ConnectionFailed(reason)) => (
            Exchange::Closed,
            Directive::Deliver(Err(TransportError::Unreachable(reason))),
        ),
        (Exchange::AwaitingResponse, EndpointEvent::Status(code)) => {
            if status_is_success(code) {
                (Exchange::AwaitingBody, Directive::ReadBody)
            } else {
                (Exchange::Closed, Directive::Deliver(Ok(SOFT_FALLBACK.to_owned())))
            }
        },
        (Exchange::AwaitingBody, EndpointEvent::Body(content)) => (
            Exchange::Closed,
            Directive::Deliver(Ok(content)),
        ),
        (Exchange::AwaitingBody, EndpointEvent::Undecodable(reason)) => (
            Exchange::Closed,
            Directive::Deliver(Err(TransportError::Malformed(reason))),
        ),
        _ => (Exchange::Closed, Directive::Deliver(Err(TransportError::OutOfOrder))),
    }
}

/// The fallback reply carries the neutral mood, and its text is what stands
/// behind the tag.
pub proof fn lemma_fallback_is_neutral()
    ensures
        parsed_reply(SOFT_FALLBACK@) == (Some(NEUTRAL_MOOD), "Je réfléchis..."@),
{
    reveal_strlit("[MOOD:5] Je réfléchis...");
    reveal_strlit("[MOOD:");
    reveal_strlit("Je réfléchis...");
    reveal_with_fuel(digits_end, 3);
    reveal_with_fuel(decimal_value, 3);
    let text = SOFT_FALLBACK@;
    assert(text.subrange(0, 6) =~= "[MOOD:"@);
}

/// A failure that the endpoint reports is never an error: whatever the
/// status, if it is no success the exchange ends with the fallback reply,
/// whose mood is neutral.
pub proof fn lemma_rejection_is_absorbed(code: u16)
    requires
        !is_success(code),
    ensures
        next_step(Exchange::AwaitingResponse, EndpointEventView::Status(code)) == replied(
            SOFT_FALLBACK@,
        ),
        parsed_reply(SOFT_FALLBACK@).0 == Some(NEUTRAL_MOOD),
{
    lemma_fallback_is_neutral();
}

/// The two kinds of failure are never taken for one another. A reply is
/// delivered in two cases only: the endpoint answered with a status that is
/// no success, and the reply is the fallback; or the body of a successful
/// answer was read, and the reply is its content as it came. Whatever else
/// ends an exchange is an error.
pub proof fn lemma_replies_have_two_sources(state: Exchange, event: EndpointEventView)
    ensures
        next_step(state, event).1 matches DirectiveView::Deliver(Ok(reply)) ==> {
            ||| {
                &&& state == Exchange::AwaitingResponse
                &&& event matches EndpointEventView::Status(code)
                &&& !is_success(code)
                &&& reply == SOFT_FALLBACK@
            }
            ||| {
                &&& state == Exchange::AwaitingBody
                &&& event == EndpointEventView::Body(reply)
            }
        },
        state != Exchange::Closed && (event is TimedOut || event is ConnectionFailed
            || event is Undecodable) ==> next_step(state, event).1 matches DirectiveView::Deliver(
            Err(_),
        ),
{
}

/// An exchange is over exactly when something is delivered, and it takes at
/// most two events from the request to get there.
pub proof fn lemma_exchange_closes(
    state: Exchange,
    first: EndpointEventView,
    second: EndpointEventView,
)
    ensures
        next_step(state, first).0 == Exchange::Closed <==> next_step(state, first).1 is Deliver,
        next_step(next_step(Exchange::AwaitingResponse, first).0, second).0 == Exchange::Closed,
{
}

} // verus!
