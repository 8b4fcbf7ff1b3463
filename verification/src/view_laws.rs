//! What the contracts read of a value is what the value holds: nothing is left
//! out, cut short or exchanged.

use vstd::prelude::*;
use crate::connection::{ClientStep, ClientStepView, ConnectStep, ConnectStepView};
use crate::console;
use crate::console::{LogLine, Stream};
use crate::consumer;
use crate::consumer::{
    AttachStep, AttachStepView, ConsumerAction, ConsumerActionView, ConsumerPlan, ReceiveStep,
    ReceiveStepView,
};
use crate::handler::{
    CallbackStep, CallbackStepView, HandlerStep, HandlerStepView, Invocation,
};
use crate::jetstream;
use crate::jetstream::{InitStep, InitStepView, StreamRequest};
use crate::plugin;
use crate::publish::{
    PublishJob, PublishRequest, PublishStart, PublishStartView, PublishStep, PublishStepView,
};
use crate::subscribe::{
    PipeStep, PipeStepView, PipedSubscription, RegisterStep, RegisterStepView, SubscribeStep,
    SubscribeStepView, Subscription,
};
use crate::value::{QValue, QValueView};

verus! {

/// A q object is read as what it is, with its whole text or number.
pub proof fn law_value_read(v: QValue)
    ensures
        v matches QValue::Symbol(text) ==> v@ == QValueView::Symbol(text@),
        v matches QValue::Int(i) ==> v@ == QValueView::Int(i as int),
        v matches QValue::Long(j) ==> v@ == QValueView::Long(j as int),
        v is Other ==> v@ is Other,
{
}

/// A line is read as its stream and its text, and an optional one as a line if
/// there is one.
pub proof fn law_line_read(line: LogLine, text: Seq<char>)
    ensures
        line@.stream == line.stream,
        line@.text == line.text@,
        console::report_view(Some(line)) == Some(line@),
        console::report_view(None) is None,
        console::out_line(text).stream == Stream::Stdout,
        console::out_line(text).text == text,
        console::err_line(text).stream == Stream::Stderr,
        console::err_line(text).text == text,
{
}

/// An outcome is read as the value of a success or the text of an error.
pub proof fn law_outcome_read<D, H>(value: D, error: String, bytes: Vec<u8>, handle: H, line: LogLine)
    ensures
        console::outcome_view(Ok(())) is Ok,
        console::outcome_view(Err(error)) == Err::<(), Seq<char>>(error@),
        consumer::result_view(Ok(value)) == Ok::<D, Seq<char>>(value),
        consumer::result_view(Err::<D, String>(error)) == Err::<D, Seq<char>>(error@),
        consumer::received_view::<H>(None) is None,
        consumer::received_view::<H>(Some(Err(error))) == Some(
            Err::<(Seq<u8>, H), Seq<char>>(error@),
        ),
        consumer::received_view(Some(Ok((bytes, handle)))) == Some(
            Ok::<(Seq<u8>, H), Seq<char>>((bytes@, handle)),
        ),
        jetstream::end_view(Err(error)) is Err,
        jetstream::end_view(Err(error))->Err_0 == error@,
        jetstream::end_view(Ok(line)) is Ok,
        jetstream::end_view(Ok(line))->Ok_0 == line@,
        plugin::optional_text(None) is None,
        plugin::optional_text(Some(error)) == Some(error@),
{
}

/// The steps of the connection.
pub proof fn law_connection_steps_read(client: ClientStep, connect: ConnectStep)
    ensures
        client is Cached <==> client@ is Cached,
        client matches ClientStep::Dial { url: u, report: r } ==> (client@ matches
            ClientStepView::Dial { url, report } && url == u@ && report == r@),
        client matches ClientStep::Abort { message: m } ==> (client@ matches
            ClientStepView::Abort { message } && message == m@),
        connect matches ConnectStep::First { client: c, report: r } ==> (connect@ matches
            ConnectStepView::First { client: cv, report } && cv == c@ && report == r@),
        connect matches ConnectStep::Again { report: r } ==> (connect@ matches
            ConnectStepView::Again { report } && report == r@),
{
}

/// The steps of creating a stream.
pub proof fn law_init_read(request: StreamRequest, step: InitStep)
    ensures
        request@.name == request.name@,
        request@.subject == request.subject@,
        step matches InitStep::Refused(r) ==> step@ == InitStepView::Refused(r),
        step matches InitStep::Create { client: c, request: r } ==> (step@ matches
            InitStepView::Create { client, request: rv } && client == c@ && rv == r@),
{
}

/// The steps of publishing.
pub proof fn law_publication_read<P>(
    job: PublishJob,
    start: PublishStart<P>,
    request: PublishRequest,
    step: PublishStep,
)
    ensures
        job@.mode == job.mode,
        job@.subject == job.subject@,
        start matches PublishStart::Refused(r) ==> start@ == PublishStartView::<P>::Refused(r),
        start matches PublishStart::Encode { job: j, payload: p, ipc_mode: m } ==> (start@ matches
            PublishStartView::Encode { job: jv, payload, ipc_mode } && jv == j@ && payload == p
            && ipc_mode == m),
        request@.subject == request.subject@,
        request@.payload == request.payload@,
        request@.transport == request.transport,
        request@.ack == request.ack,
        step matches PublishStep::Failed { report: r } ==> (step@ matches PublishStepView::Failed {
            report,
        } && report == r@),
        step matches PublishStep::Send { client: c, request: r } ==> (step@ matches
            PublishStepView::Send { client, request: rv } && client == c@ && rv == r@),
{
}

/// The steps of subscribing.
pub proof fn law_subscription_read(
    sub: Subscription,
    first: SubscribeStep,
    piped: PipedSubscription,
    pipe: PipeStep,
    register: RegisterStep,
)
    ensures
        sub@.stream_name == sub.stream_name@,
        sub@.subject == sub.subject@,
        sub@.consumer_name == sub.consumer_name@,
        sub@.deliver_policy == sub.deliver_policy,
        sub@.callback == sub.callback@,
        first matches SubscribeStep::Refused(r) ==> first@ == SubscribeStepView::Refused(r),
        first matches SubscribeStep::Abort { message: m, rejected: c } ==> (first@ matches
            SubscribeStepView::Abort { message, rejected } && message == m@ && rejected == c@),
        first matches SubscribeStep::OpenPipe(x) ==> first@ == SubscribeStepView::OpenPipe(x@),
        piped@.subscription == piped.subscription@,
        piped@.read_fd == piped.read_fd,
        piped@.write_fd == piped.write_fd,
        pipe matches PipeStep::Refused(r) ==> pipe@ == PipeStepView::Refused(r),
        pipe matches PipeStep::Register(x) ==> pipe@ == PipeStepView::Register(x@),
        register matches RegisterStep::Refused(r) ==> register@ == RegisterStepView::Refused(r),
        register matches RegisterStep::Start { client: c, plan: p, report: r } ==> (
        register@ matches RegisterStepView::Start { client, plan, report } && client == c@ && plan
            == p@ && report == r@),
{
}

/// The consumer that the thread is started with.
pub proof fn law_plan_read(plan: ConsumerPlan)
    ensures
        plan@.stream_name == plan.stream_name@,
        plan@.consumer_name == plan.consumer_name@,
        plan.durable_name is None ==> plan@.durable_name is None,
        plan.durable_name matches Some(name) ==> plan@.durable_name == Some(name@),
        plan@.filter_subject == plan.filter_subject@,
        plan@.deliver_policy == plan.deliver_policy,
        plan@.write_fd == plan.write_fd,
{
}

/// The steps and actions of the consumer thread.
pub proof fn law_thread_steps_read<T, H, D>(
    attach: AttachStep<T>,
    action: ConsumerAction<D>,
    actions: Seq<ConsumerAction<D>>,
    receive: ReceiveStep<H, D>,
)
    ensures
        attach matches AttachStep::Next { value: v, report: r, next: n } ==> (attach@ matches
            AttachStepView::Next { value, report, next } && value == v && next == n && (
        r is None ==> report is None) && (r matches Some(line) ==> report == Some(line@))),
        attach matches AttachStep::Abort { message: m } ==> (attach@ matches
            AttachStepView::Abort { message } && message == m@),
        action is PinSymbols <==> action@ is PinSymbols,
        action is UnpinSymbols <==> action@ is UnpinSymbols,
        action matches ConsumerAction::Decode { bytes: b } ==> (action@ matches
            ConsumerActionView::Decode { bytes } && bytes == b@),
        action matches ConsumerAction::Forward { write_fd: fd, value: v } ==> (action@ matches
            ConsumerActionView::Forward { write_fd, value } && write_fd == fd && value == v),
        action matches ConsumerAction::Print { report: r } ==> (action@ matches
            ConsumerActionView::Print { report } && report == r@),
        consumer::actions_view(actions).len() == actions.len(),
        forall|i: int|
            0 <= i < actions.len() ==> #[trigger] consumer::actions_view(actions)[i]
                == actions[i]@,
        receive is End <==> receive@ is End,
        receive matches ReceiveStep::Deliver { handle: h, actions: a } ==> (receive@ matches
            ReceiveStepView::Deliver { handle, actions: av } && handle == h && av
            == consumer::actions_view(a@)),
        receive matches ReceiveStep::Abort { message: m } ==> (receive@ matches
            ReceiveStepView::Abort { message } && message == m@),
{
}

/// The steps of delivering a message.
pub proof fn law_delivery_steps_read<M>(
    invocation: Invocation<M>,
    step: HandlerStep<M>,
    end: CallbackStep<M>,
)
    ensures
        invocation@.callback == invocation.callback@,
        invocation@.message == invocation.message,
        step is Ignore <==> step@ is Ignore,
        step matches HandlerStep::Invoke(x) ==> step@ == HandlerStepView::Invoke(x@),
        step matches HandlerStep::Abort { reason: r } ==> (step@ matches HandlerStepView::Abort {
            reason,
        } && reason == r@),
        end matches CallbackStep::Ack { message: m } ==> end@ == (CallbackStepView::Ack {
            message: m,
        }),
        end matches CallbackStep::Keep { report: r } ==> (end@ matches CallbackStepView::Keep {
            report,
        } && report == r@),
{
}

} // verus!
