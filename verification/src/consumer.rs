//! The background consumer: it decodes each message and passes it on to q's
//! main thread, and leaves its acknowledgement to be decided there.

use vstd::prelude::*;
use crate::abort;
use crate::console;
use crate::console::{LogLine, LogLineView};
use crate::outside;
use crate::plugin;
use crate::policy;
use crate::policy::DeliverPolicy;

verus! {

/// What the consumer thread is started with.
pub struct ConsumerPlan {
    /// The stream to attach to; it has to exist.
    pub stream_name: String,
    /// The consumer to attach as, created unless the server has it already.
    pub consumer_name: String,
    /// The name under which the server remembers the consumer's position.
    pub durable_name: Option<String>,
    /// The subject that messages are filtered by.
    pub filter_subject: String,
    /// Where a new consumer starts.
    pub deliver_policy: DeliverPolicy,
    /// The end of the pipe to write to.
    pub write_fd: i32,
}

/// The mathematical content of a [`ConsumerPlan`].
pub struct ConsumerPlanView {
    pub stream_name: Seq<char>,
    pub consumer_name: Seq<char>,
    pub durable_name: Option<Seq<char>>,
    pub filter_subject: Seq<char>,
    pub deliver_policy: DeliverPolicy,
    pub write_fd: int,
}

impl View for ConsumerPlan {
    type V = ConsumerPlanView;

    open spec fn view(&self) -> ConsumerPlanView {
        ConsumerPlanView {
            stream_name: self.stream_name@,
            consumer_name: self.consumer_name@,
            durable_name: plugin::optional_text(self.durable_name),
            filter_subject: self.filter_subject@,
            deliver_policy: self.deliver_policy,
            write_fd: self.write_fd as int,
        }
    }
}

/// What the consumer thread does, one after the other, before it receives messages.
#[derive(Clone, Copy, Debug, PartialEq, Eq, Structural)]
pub enum AttachStage {
    /// Set up what drives the thread.
    Runtime,
    /// Find the stream.
    Stream,
    /// Get or create the consumer.
    Consumer,
    /// Open the consumer's messages.
    Messages,
}

/// The stage that the thread begins with.
pub open spec fn first_stage() -> AttachStage {
    AttachStage::Runtime
}

/// The stage that follows, if one does.
pub open spec fn next_stage(stage: AttachStage) -> Option<AttachStage> {
    match stage {
        AttachStage::Runtime => Some(AttachStage::Stream),
        AttachStage::Stream => Some(AttachStage::Consumer),
        AttachStage::Consumer => Some(AttachStage::Messages),
        AttachStage::Messages => None,
    }
}

impl AttachStage {
    /// The stage that the thread begins with.
    pub fn first() -> (stage: AttachStage)
        ensures
            stage == first_stage(),
    {
        AttachStage::Runtime
    }

    /// The stage that follows, if one does.
    pub fn next(self) -> (next: Option<AttachStage>)
        ensures
            next == next_stage(self),
    {
        match self {
            AttachStage::Runtime => Some(AttachStage::Stream),
            AttachStage::Stream => Some(AttachStage::Consumer),
            AttachStage::Consumer => Some(AttachStage::Messages),
            AttachStage::Messages => None,
        }
    }
}

/// What the thread does once a stage ended. `T` is what the stage yields.
pub enum AttachStep<T> {
    /// Print `report`, if there is one, and go on with `value`: to the stage
    /// `next`, or where there is none, to receiving messages.
    Next { value: T, report: Option<LogLine>, next: Option<AttachStage> },
    /// Abort with `message`.
    Abort { message: String },
}

/// What an [`AttachStep`] asks for.
pub enum AttachStepView<T> {
    Next { value: T, report: Option<LogLineView>, next: Option<AttachStage> },
    Abort { message: Seq<char> },
}

impl<T> View for AttachStep<T> {
    type V = AttachStepView<T>;

    open spec fn view(&self) -> AttachStepView<T> {
        match self {
            AttachStep::Next { value, report, next } => AttachStepView::Next {
                value: *value,
                report: console::report_view(*report),
                next: *next,
            },
            AttachStep::Abort { message } => AttachStepView::Abort { message: message@ },
        }
    }
}

/// What the thread prints once a stage succeeded.
pub open spec fn stage_line(plan: ConsumerPlanView, stage: AttachStage) -> Option<LogLineView> {
    match stage {
        AttachStage::Runtime => Some(
            console::out_line("[kdb-plugin] nats_subscribe | consumer thread started"@),
        ),
        AttachStage::Consumer => Some(
            console::out_line(
                "[kdb-plugin] nats_subscribe | stream="@ + plan.stream_name + " subject="@
                    + plan.filter_subject + " consumer="@ + plan.consumer_name + " policy="@
                    + policy::policy_name(plan.deliver_policy),
            ),
        ),
        _ => None,
    }
}

/// What the thread does once a stage ended with `outcome`: every stage has to succeed.
pub open spec fn attach_step<T>(
    plan: ConsumerPlanView,
    stage: AttachStage,
    outcome: Result<T, Seq<char>>,
) -> AttachStepView<T> {
    match outcome {
        Ok(value) => AttachStepView::Next {
            value,
            report: stage_line(plan, stage),
            next: next_stage(stage),
        },
        Err(e) => AttachStepView::Abort { message: abort::abort_text(e) },
    }
}

/// One thing for the consumer thread to do. `D` is the type of a decoded
/// message, together with the handle that acknowledges it.
pub enum ConsumerAction<D> {
    /// Lock q's table of symbols, so that this thread may add to it.
    PinSymbols,
    /// Decode `bytes`, and go on with [`ConsumerPlan::message_decoded`].
    Decode { bytes: Vec<u8> },
    /// Unlock q's table of symbols.
    UnpinSymbols,
    /// Write `value` to the pipe.
    Forward { write_fd: i32, value: D },
    /// Print `report`.
    Print { report: LogLine },
}

/// What a [`ConsumerAction`] asks for.
pub enum ConsumerActionView<D> {
    PinSymbols,
    Decode { bytes: Seq<u8> },
    UnpinSymbols,
    Forward { write_fd: int, value: D },
    Print { report: LogLineView },
}

impl<D> View for ConsumerAction<D> {
    type V = ConsumerActionView<D>;

    open spec fn view(&self) -> ConsumerActionView<D> {
        match self {
            ConsumerAction::PinSymbols => ConsumerActionView::PinSymbols,
            ConsumerAction::Decode { bytes } => ConsumerActionView::Decode { bytes: bytes@ },
            ConsumerAction::UnpinSymbols => ConsumerActionView::UnpinSymbols,
            ConsumerAction::Forward { write_fd, value } => ConsumerActionView::Forward {
                write_fd: *write_fd as int,
                value: *value,
            },
            ConsumerAction::Print { report } => ConsumerActionView::Print { report: report@ },
        }
    }
}

/// What a list of actions asks for, in order.
pub open spec fn actions_view<D>(actions: Seq<ConsumerAction<D>>) -> Seq<ConsumerActionView<D>> {
    actions.map_values(|action: ConsumerAction<D>| action@)
}

/// What the thread does when a message with `payload` arrives.
pub open spec fn arrival_actions<D>(payload: Seq<u8>) -> Seq<ConsumerActionView<D>> {
    seq![ConsumerActionView::PinSymbols, ConsumerActionView::Decode { bytes: payload }]
}

/// What the thread does once a message was decoded, or could not be: it passes
/// the value on, or reports the error and drops the message.
pub open spec fn decoded_actions<D>(write_fd: int, outcome: Result<D, Seq<char>>) -> Seq<
    ConsumerActionView<D>,
> {
    seq![
        ConsumerActionView::UnpinSymbols,
        match outcome {
            Ok(value) => ConsumerActionView::Forward { write_fd, value },
            Err(e) => ConsumerActionView::Print {
                report: console::err_line("[kdb-plugin] nats_subscribe | decode error: "@ + e),
            },
        },
    ]
}

/// What the thread does once it waited for a message. `H` is the type of the
/// handle that acknowledges it.
pub enum ReceiveStep<H, D> {
    /// No message will come any more: the thread ends.
    End,
    /// Perform `actions` in order, and then wait again.
    Deliver { handle: H, actions: Vec<ConsumerAction<D>> },
    /// Abort with `message`.
    Abort { message: String },
}

/// What a [`ReceiveStep`] asks for.
pub enum ReceiveStepView<H, D> {
    End,
    Deliver { handle: H, actions: Seq<ConsumerActionView<D>> },
    Abort { message: Seq<char> },
}

impl<H, D> View for ReceiveStep<H, D> {
    type V = ReceiveStepView<H, D>;

    open spec fn view(&self) -> ReceiveStepView<H, D> {
        match self {
            ReceiveStep::End => ReceiveStepView::End,
            ReceiveStep::Deliver { handle, actions } => ReceiveStepView::Deliver {
                handle: *handle,
                actions: actions_view(actions@),
            },
            ReceiveStep::Abort { message } => ReceiveStepView::Abort { message: message@ },
        }
    }
}

/// What receiving came to: the end, an error, or a payload and its handle.
pub open spec fn received_view<H>(received: Option<Result<(Vec<u8>, H), String>>) -> Option<
    Result<(Seq<u8>, H), Seq<char>>,
> {
    match received {
        None => None,
        Some(Ok((payload, handle))) => Some(Ok((payload@, handle))),
        Some(Err(e)) => Some(Err(e@)),
    }
}

/// What the thread does once it waited for a message.
pub open spec fn receive_step<H, D>(
    received: Option<Result<(Seq<u8>, H), Seq<char>>>,
) -> ReceiveStepView<H, D> {
    match received {
        None => ReceiveStepView::End,
        Some(Ok((payload, handle))) => ReceiveStepView::Deliver {
            handle,
            actions: arrival_actions(payload),
        },
        Some(Err(e)) => ReceiveStepView::Abort { message: abort::abort_text(e) },
    }
}

/// An outcome, with the text of its error.
pub open spec fn result_view<D>(outcome: Result<D, String>) -> Result<D, Seq<char>> {
    match outcome {
        Ok(value) => Ok(value),
        Err(e) => Err(e@),
    }
}

impl ConsumerPlan {
    /// A stage ended, with what it yields or with an error, told by its debug text.
    pub fn stage_ended<T>(&self, stage: AttachStage, outcome: Result<T, String>) -> (step:
        AttachStep<T>)
        ensures
            step@ == attach_step(self@, stage, result_view(outcome)),
    {
        match outcome {
            Err(e) => AttachStep::Abort { message: abort::abort_message(&e) },
            Ok(value) => {
                let report = match stage {
                    AttachStage::Runtime => {
                        let text = "[kdb-plugin] nats_subscribe | consumer thread started";
                        Some(LogLine::to_stdout(text.to_string()))
                    },
                    AttachStage::Consumer => {
                        let text = "[kdb-plugin] nats_subscribe | stream=".to_string().concat(
                            self.stream_name.as_str(),
                        ).concat(" subject=").concat(self.filter_subject.as_str()).concat(
                            " consumer=",
                        ).concat(self.consumer_name.as_str()).concat(" policy=").concat(
                            outside::policy_debug(self.deliver_policy).as_str(),
                        );
                        Some(LogLine::to_stdout(text))
                    },
                    AttachStage::Stream => None,
                    AttachStage::Messages => None,
                };
                AttachStep::Next { value, report, next: stage.next() }
            },
        }
    }

    /// The thread waited for a message: one came with its payload and its
    /// handle, or receiving failed with an error, told by its debug text, or
    /// none will come any more.
    pub fn message_received<H, D>(
        &self,
        received: Option<Result<(Vec<u8>, H), String>>,
    ) -> (step: ReceiveStep<H, D>)
        ensures
            step@ == receive_step::<H, D>(received_view(received)),
    {
        match received {
            None => ReceiveStep::End,
            Some(Ok((payload, handle))) => {
                let ghost bytes = payload@;
                let actions: Vec<ConsumerAction<D>> = vec![
                    ConsumerAction::PinSymbols,
                    ConsumerAction::Decode { bytes: payload },
                ];
                assert(actions_view(actions@) == arrival_actions::<D>(bytes));
                ReceiveStep::Deliver { handle, actions }
            },
            Some(Err(e)) => ReceiveStep::Abort { message: abort::abort_message(&e) },
        }
    }

    /// A message was decoded, or could not be.
    pub fn message_decoded<D>(&self, outcome: Result<D, String>) -> (actions: Vec<
        ConsumerAction<D>,
    >)
        ensures
            actions_view(actions@) == decoded_actions(self@.write_fd, result_view(outcome)),
    {
        match outcome {
            Ok(value) => vec![
                ConsumerAction::UnpinSymbols,
                ConsumerAction::Forward { write_fd: self.write_fd, value },
            ],
            Err(e) => {
                let text = "[kdb-plugin] nats_subscribe | decode error: ".to_string().concat(
                    e.as_str(),
                );
                vec![
                    ConsumerAction::UnpinSymbols,
                    ConsumerAction::Print { report: LogLine::to_stderr(text) },
                ]
            },
        }
    }
}

} // verus!
