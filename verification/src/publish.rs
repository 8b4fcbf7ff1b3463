//! Publishing a q object under a subject, in four modes.

use vstd::prelude::*;
use crate::acks;
use crate::connection;
use crate::connection::{ClientStep, ClientStepView};
use crate::console;
use crate::console::{LogLine, LogLineView};
use crate::plugin::{Plugin, PluginView};
use crate::refusal::Refusal;
use crate::value::{QValue, QValueView};

verus! {

/// How a message is published.
#[derive(Clone, Copy, Debug, PartialEq, Eq, Structural)]
pub enum PublishMode {
    /// To JetStream, waiting for the server's acknowledgement.
    Sync,
    /// Over core NATS, which knows no acknowledgement.
    Core,
    /// To JetStream, dropping the acknowledgement.
    Noack,
    /// To JetStream, queueing the acknowledgement to be awaited later.
    Async,
}

/// What carries a message to the server.
#[derive(Clone, Copy, Debug, PartialEq, Eq, Structural)]
pub enum Transport {
    Jetstream,
    CoreNats,
}

/// What becomes of the server's acknowledgement.
#[derive(Clone, Copy, Debug, PartialEq, Eq, Structural)]
pub enum AckUse {
    /// It is awaited before the call returns.
    Wait,
    /// There is none.
    Absent,
    /// It is not looked at.
    Drop,
    /// It is queued.
    Queue,
}

/// The version of the IPC encoding that payloads are serialised in.
pub const IPC_MODE: i32 = 3;

impl PublishMode {
    /// The name of the q function that publishes in this mode.
    pub open spec fn api_name(self) -> Seq<char> {
        match self {
            PublishMode::Sync => "nats_publish"@,
            PublishMode::Core => "nats_publish_core"@,
            PublishMode::Noack => "nats_publish_noack"@,
            PublishMode::Async => "nats_publish_async"@,
        }
    }

    /// The error where the subject is no symbol.
    pub open spec fn subject_refusal(self) -> Refusal {
        match self {
            PublishMode::Sync => Refusal::PublishSubject,
            PublishMode::Core => Refusal::PublishCoreSubject,
            PublishMode::Noack => Refusal::PublishNoackSubject,
            PublishMode::Async => Refusal::PublishAsyncSubject,
        }
    }

    /// What carries a message of this mode.
    pub open spec fn transport(self) -> Transport {
        if self == PublishMode::Core {
            Transport::CoreNats
        } else {
            Transport::Jetstream
        }
    }

    /// What becomes of the acknowledgement in this mode.
    pub open spec fn ack_use(self) -> AckUse {
        match self {
            PublishMode::Sync => AckUse::Wait,
            PublishMode::Core => AckUse::Absent,
            PublishMode::Noack => AckUse::Drop,
            PublishMode::Async => AckUse::Queue,
        }
    }

    /// The name of the q function that publishes in this mode.
    fn name(self) -> (text: &'static str)
        ensures
            text@ == self.api_name(),
    {
        match self {
            PublishMode::Sync => "nats_publish",
            PublishMode::Core => "nats_publish_core",
            PublishMode::Noack => "nats_publish_noack",
            PublishMode::Async => "nats_publish_async",
        }
    }
}

/// A publication whose subject was accepted and whose payload is to be encoded.
pub struct PublishJob {
    pub mode: PublishMode,
    pub subject: String,
}

/// The mathematical content of a [`PublishJob`].
pub struct PublishJobView {
    pub mode: PublishMode,
    pub subject: Seq<char>,
}

impl View for PublishJob {
    type V = PublishJobView;

    open spec fn view(&self) -> PublishJobView {
        PublishJobView { mode: self.mode, subject: self.subject@ }
    }
}

/// What a publishing call does first. `P` is the type of the q object to publish.
pub enum PublishStart<P> {
    /// Answer with the error.
    Refused(Refusal),
    /// Encode `payload` in version `ipc_mode`, and go on with [`PublishJob::encoded`].
    Encode { job: PublishJob, payload: P, ipc_mode: i32 },
}

/// What a [`PublishStart`] asks for.
pub enum PublishStartView<P> {
    Refused(Refusal),
    Encode { job: PublishJobView, payload: P, ipc_mode: int },
}

impl<P> View for PublishStart<P> {
    type V = PublishStartView<P>;

    open spec fn view(&self) -> PublishStartView<P> {
        match self {
            PublishStart::Refused(refusal) => PublishStartView::Refused(*refusal),
            PublishStart::Encode { job, payload, ipc_mode } => PublishStartView::Encode {
                job: job@,
                payload: *payload,
                ipc_mode: *ipc_mode as int,
            },
        }
    }
}

/// What publishing `payload` in mode `mode` does first: the subject has to be a symbol.
pub open spec fn publish_start<P>(mode: PublishMode, subject: QValueView, payload: P)
    -> PublishStartView<P> {
    match subject.as_symbol() {
        Some(text) => PublishStartView::Encode {
            job: PublishJobView { mode, subject: text },
            payload,
            ipc_mode: 3,
        },
        None => PublishStartView::Refused(mode.subject_refusal()),
    }
}

/// Starts to publish in mode `mode`.
fn start_publish<P>(mode: PublishMode, subject: &QValue, payload: P) -> (start: PublishStart<P>)
    ensures
        start@ == publish_start(mode, subject@, payload),
{
    match subject.get_symbol() {
        Some(text) => PublishStart::Encode {
            job: PublishJob { mode, subject: text.clone() },
            payload,
            ipc_mode: IPC_MODE,
        },
        None => PublishStart::Refused(
            match mode {
                PublishMode::Sync => Refusal::PublishSubject,
                PublishMode::Core => Refusal::PublishCoreSubject,
                PublishMode::Noack => Refusal::PublishNoackSubject,
                PublishMode::Async => Refusal::PublishAsyncSubject,
            },
        ),
    }
}

/// Publishes to JetStream and waits for the acknowledgement.
pub fn nats_publish<P>(subject: &QValue, payload: P) -> (start: PublishStart<P>)
    ensures
        start@ == publish_start(PublishMode::Sync, subject@, payload),
{
    start_publish(PublishMode::Sync, subject, payload)
}

/// Publishes over core NATS.
pub fn nats_publish_core<P>(subject: &QValue, payload: P) -> (start: PublishStart<P>)
    ensures
        start@ == publish_start(PublishMode::Core, subject@, payload),
{
    start_publish(PublishMode::Core, subject, payload)
}

/// Publishes to JetStream and drops the acknowledgement.
pub fn nats_publish_noack<P>(subject: &QValue, payload: P) -> (start: PublishStart<P>)
    ensures
        start@ == publish_start(PublishMode::Noack, subject@, payload),
{
    start_publish(PublishMode::Noack, subject, payload)
}

/// Publishes to JetStream and queues the acknowledgement for `nats_flush`.
pub fn nats_publish_async<P>(subject: &QValue, payload: P) -> (start: PublishStart<P>)
    ensures
        start@ == publish_start(PublishMode::Async, subject@, payload),
{
    start_publish(PublishMode::Async, subject, payload)
}

/// A message to send.
pub struct PublishRequest {
    pub subject: String,
    pub payload: Vec<u8>,
    pub transport: Transport,
    pub ack: AckUse,
}

/// The mathematical content of a [`PublishRequest`].
pub struct PublishRequestView {
    pub subject: Seq<char>,
    pub payload: Seq<u8>,
    pub transport: Transport,
    pub ack: AckUse,
}

impl View for PublishRequest {
    type V = PublishRequestView;

    open spec fn view(&self) -> PublishRequestView {
        PublishRequestView {
            subject: self.subject@,
            payload: self.payload@,
            transport: self.transport,
            ack: self.ack,
        }
    }
}

/// What a publishing call does once its payload was encoded.
pub enum PublishStep {
    /// The payload cannot be encoded: print `report` and return.
    Failed { report: LogLine },
    /// Come by the client and send `request`.
    Send { client: ClientStep, request: PublishRequest },
}

/// What a [`PublishStep`] asks for.
pub enum PublishStepView {
    Failed { report: LogLineView },
    Send { client: ClientStepView, request: PublishRequestView },
}

impl View for PublishStep {
    type V = PublishStepView;

    open spec fn view(&self) -> PublishStepView {
        match self {
            PublishStep::Failed { report } => PublishStepView::Failed { report: report@ },
            PublishStep::Send { client, request } => PublishStepView::Send {
                client: client@,
                request: request@,
            },
        }
    }
}

/// A failure on standard error: the q function, `what` failed, and the error.
pub open spec fn failure_line(mode: PublishMode, what: Seq<char>, error: Seq<char>)
    -> LogLineView {
    console::err_line("[kdb-plugin] "@ + mode.api_name() + what + error)
}

/// The report on a failure.
fn failure_report(mode: PublishMode, what: &str, error: &String) -> (report: LogLine)
    ensures
        report@ == failure_line(mode, what@, error@),
{
    let text = "[kdb-plugin] ".to_string().concat(mode.name()).concat(what).concat(
        error.as_str(),
    );
    LogLine::to_stderr(text)
}

/// The message that carries `payload` for `job`.
pub open spec fn publish_request(job: PublishJobView, payload: Seq<u8>) -> PublishRequestView {
    PublishRequestView {
        subject: job.subject,
        payload,
        transport: job.mode.transport(),
        ack: job.mode.ack_use(),
    }
}

/// What a publishing call does in state `s` once its payload came out as `bytes`.
pub open spec fn send_step<A>(s: PluginView<A>, job: PublishJobView, bytes: Seq<u8>)
    -> PublishStepView {
    PublishStepView::Send {
        client: connection::client_step(s),
        request: publish_request(job, bytes),
    }
}

impl PublishJob {
    /// Goes on once the payload was encoded, or could not be.
    pub fn encoded<A>(self, plugin: &Plugin<A>, outcome: Result<Vec<u8>, String>) -> (step:
        PublishStep)
        ensures
            step@ == match outcome {
                Ok(bytes) => send_step(plugin@, self@, bytes@),
                Err(e) => PublishStepView::Failed {
                    report: failure_line(self@.mode, " | encode error: "@, e@),
                },
            },
    {
        match outcome {
            Ok(payload) => {
                let transport = match self.mode {
                    PublishMode::Core => Transport::CoreNats,
                    _ => Transport::Jetstream,
                };
                let ack = match self.mode {
                    PublishMode::Sync => AckUse::Wait,
                    PublishMode::Core => AckUse::Absent,
                    PublishMode::Noack => AckUse::Drop,
                    PublishMode::Async => AckUse::Queue,
                };
                PublishStep::Send {
                    client: connection::nats_client(plugin),
                    request: PublishRequest { subject: self.subject, payload, transport, ack },
                }
            },
            Err(e) => PublishStep::Failed {
                report: failure_report(self.mode, " | encode error: ", &e),
            },
        }
    }
}

/// What comes before the error where sending failed.
pub open spec fn send_failure(mode: PublishMode) -> Seq<char> {
    if mode == PublishMode::Async {
        " | publish error: "@
    } else {
        " | error: "@
    }
}

/// What a publishing call prints where sending ended with `outcome`: nothing
/// where it succeeded.
pub open spec fn sent_line(mode: PublishMode, outcome: Result<(), Seq<char>>) -> Option<
    LogLineView,
> {
    match outcome {
        Ok(_) => None,
        Err(e) => Some(failure_line(mode, send_failure(mode), e)),
    }
}

/// Ends a publishing call that queues no acknowledgement: it sent its message,
/// or failed to.
pub fn publish_sent(mode: PublishMode, outcome: Result<(), String>) -> (report: Option<LogLine>)
    ensures
        console::report_view(report) == sent_line(mode, console::outcome_view(outcome)),
{
    match outcome {
        Ok(()) => None,
        Err(e) => match mode {
            PublishMode::Async => Some(failure_report(mode, " | publish error: ", &e)),
            _ => Some(failure_report(mode, " | error: ", &e)),
        },
    }
}

/// What `nats_publish_async` does once its message was sent.
pub enum QueueStep<A> {
    /// Nothing: the acknowledgement waits in the queue.
    Queued,
    /// Await all of `batch`, and print the [`acks::auto_flush_report`] of the outcomes.
    Flush { batch: Vec<A> },
    /// Sending failed: print `report`.
    Failed { report: LogLine },
}

/// Goes on with a call of `nats_publish_async`, which sent its message and got
/// an acknowledgement to await, or failed to send.
pub fn publish_async_sent<A>(plugin: &mut Plugin<A>, outcome: Result<A, String>) -> (step:
    QueueStep<A>)
    ensures
        old(plugin)@.wf() ==> final(plugin)@.wf(),
        match outcome {
            Ok(ack) => {
                &&& final(plugin)@ == acks::after_queue(old(plugin)@, ack)
                &&& match step {
                    QueueStep::Queued => !acks::flush_due(old(plugin)@),
                    QueueStep::Flush { batch } => {
                        &&& acks::flush_due(old(plugin)@)
                        &&& batch@ == acks::queue_batch(old(plugin)@, ack)
                    },
                    QueueStep::Failed { .. } => false,
                }
            },
            Err(e) => {
                &&& final(plugin)@ == old(plugin)@
                &&& step matches QueueStep::Failed { report }
                &&& Some(report@) == sent_line(PublishMode::Async, Err(e@))
            },
        },
{
    match outcome {
        Ok(ack) => match acks::queue_ack(plugin, ack) {
            Some(batch) => QueueStep::Flush { batch },
            None => QueueStep::Queued,
        },
        Err(e) => QueueStep::Failed {
            report: failure_report(PublishMode::Async, " | publish error: ", &e),
        },
    }
}

} // verus!
