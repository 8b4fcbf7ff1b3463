//! Delivery of a message on q's main thread: the callback runs first, and the
//! message is acknowledged only if it succeeded.

use vstd::prelude::*;
use crate::console;
use crate::console::{LogLine, LogLineView};
use crate::outside;
use crate::plugin;
use crate::plugin::{Plugin, PluginView};

verus! {

/// A call of a q function with a message. `M` is the type of a message that
/// came through the pipe.
pub struct Invocation<M> {
    pub callback: String,
    pub message: M,
}

/// The mathematical content of an [`Invocation`].
pub struct InvocationView<M> {
    pub callback: Seq<char>,
    pub message: M,
}

impl<M> View for Invocation<M> {
    type V = InvocationView<M>;

    open spec fn view(&self) -> InvocationView<M> {
        InvocationView { callback: self.callback@, message: self.message }
    }
}

/// What the handler does when the pipe can be read.
pub enum HandlerStep<M> {
    /// Nothing came through: return.
    Ignore,
    /// Call the callback with the message, and go on with [`Invocation::returned`].
    Invoke(Invocation<M>),
    /// No callback is registered: abort with `reason`.
    Abort { reason: String },
}

/// What a [`HandlerStep`] asks for.
pub enum HandlerStepView<M> {
    Ignore,
    Invoke(InvocationView<M>),
    Abort { reason: Seq<char> },
}

impl<M> View for HandlerStep<M> {
    type V = HandlerStepView<M>;

    open spec fn view(&self) -> HandlerStepView<M> {
        match self {
            HandlerStep::Ignore => HandlerStepView::Ignore,
            HandlerStep::Invoke(invocation) => HandlerStepView::Invoke(invocation@),
            HandlerStep::Abort { reason } => HandlerStepView::Abort { reason: reason@ },
        }
    }
}

/// What the handler does in state `s` with what it read from the pipe.
pub open spec fn handler_step<A, M>(s: PluginView<A>, read: Option<M>) -> HandlerStepView<M> {
    match (read, s.callback) {
        (None, _) => HandlerStepView::Ignore,
        (Some(message), Some(callback)) => HandlerStepView::Invoke(
            InvocationView { callback, message },
        ),
        (Some(_), None) => HandlerStepView::Abort {
            reason: "[kdb-plugin] nats_msg_handler: no callback registered"@,
        },
    }
}

/// Handles what was read from the pipe: a message, or nothing.
pub fn nats_msg_handler<A, M>(plugin: &Plugin<A>, read: Option<M>) -> (step: HandlerStep<M>)
    ensures
        step@ == handler_step(plugin@, read),
{
    match read {
        None => HandlerStep::Ignore,
        Some(message) => match plugin.callback() {
            Some(callback) => HandlerStep::Invoke(
                Invocation { callback: callback.clone(), message },
            ),
            None => HandlerStep::Abort {
                reason: "[kdb-plugin] nats_msg_handler: no callback registered".to_string(),
            },
        },
    }
}

/// What the handler does once the callback returned.
pub enum CallbackStep<M> {
    /// Acknowledge `message`, and go on with [`ack_finished`].
    Ack { message: M },
    /// The callback failed: print `report`, and leave the message
    /// unacknowledged, so that the server delivers it again.
    Keep { report: LogLine },
}

/// What a [`CallbackStep`] asks for.
pub enum CallbackStepView<M> {
    Ack { message: M },
    Keep { report: LogLineView },
}

impl<M> View for CallbackStep<M> {
    type V = CallbackStepView<M>;

    open spec fn view(&self) -> CallbackStepView<M> {
        match self {
            CallbackStep::Ack { message } => CallbackStepView::Ack { message: *message },
            CallbackStep::Keep { report } => CallbackStepView::Keep { report: report@ },
        }
    }
}

/// The type of the object that stands for a q error.
pub open spec fn error_qtype() -> int {
    -128
}

/// What the handler does once the callback, called with `message`, returned an
/// object of type `qtype`, which holds the text `error` if it is an error with a
/// text.
pub open spec fn callback_step<M>(message: M, qtype: int, error: Option<Seq<char>>)
    -> CallbackStepView<M> {
    if qtype == error_qtype() {
        CallbackStepView::Keep {
            report: console::err_line(
                "[kdb-plugin] callback error: "@ + match error {
                    Some(text) => text,
                    None => "unknown"@,
                },
            ),
        }
    } else {
        CallbackStepView::Ack { message }
    }
}

impl<M> Invocation<M> {
    /// The callback returned an object of type `qtype`, which holds the text
    /// `error` if it is an error with a text.
    pub fn returned(self, qtype: i8, error: Option<String>) -> (step: CallbackStep<M>)
        ensures
            step@ == callback_step(self@.message, qtype as int, plugin::optional_text(error)),
    {
        if qtype == outside::error_qtype() {
            let mut text = "[kdb-plugin] callback error: ".to_string();
            match error {
                Some(e) => text.append(e.as_str()),
                None => text.append("unknown"),
            }
            CallbackStep::Keep { report: LogLine::to_stderr(text) }
        } else {
            CallbackStep::Ack { message: self.message }
        }
    }
}

/// What the handler prints once acknowledging ended with `outcome`.
pub open spec fn ack_line(outcome: Result<(), Seq<char>>) -> Option<LogLineView> {
    match outcome {
        Ok(_) => None,
        Err(e) => Some(console::err_line("[kdb-plugin] ack error: "@ + e)),
    }
}

/// The message was acknowledged, or could not be.
pub fn ack_finished(outcome: Result<(), String>) -> (report: Option<LogLine>)
    ensures
        console::report_view(report) == ack_line(console::outcome_view(outcome)),
{
    match outcome {
        Ok(()) => None,
        Err(e) => Some(
            LogLine::to_stderr("[kdb-plugin] ack error: ".to_string().concat(e.as_str())),
        ),
    }
}

} // verus!
