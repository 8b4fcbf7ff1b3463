//! What holds of the plugin over whole runs: of the connection, the queue of
//! acknowledgements, the subscription, and the delivery of messages.

use vstd::prelude::*;
use crate::acks;
use crate::connection;
use crate::connection::ClientStepView;
use crate::console::{LogLineView, Stream};
use crate::consumer;
use crate::consumer::{
    AttachStage, AttachStepView, ConsumerActionView, ConsumerPlanView, ReceiveStepView,
};
use crate::handler;
use crate::handler::{CallbackStepView, HandlerStepView, InvocationView};
use crate::jetstream;
use crate::jetstream::InitStepView;
use crate::plugin::PluginView;
use crate::publish;
use crate::publish::{PublishJobView, PublishMode, PublishStartView, PublishStepView};
use crate::subscribe;
use crate::subscribe::{PipedSubscriptionView, RegisterStepView, SubscribeArgs};
use crate::value::QValueView;

verus! {

/// Something that changes the state of the plugin.
pub enum Event<A> {
    /// A call of `nats_connect`.
    Connect { host: QValueView, port: QValueView },
    /// The end of an attempt to connect.
    Dialed { connected: bool },
    /// A call of `nats_set_flush_size`.
    SetFlushSize { n: QValueView },
    /// A call of `nats_publish_async` that sent its message.
    Queue { ack: A },
    /// A call of `nats_flush`.
    Flush,
    /// A call of `nats_subscribe`, with what opening the pipe comes to.
    Subscribe { args: SubscribeArgs, status: int, write_fd: int },
}

/// The state after one event.
pub open spec fn after<A>(s: PluginView<A>, event: Event<A>) -> PluginView<A> {
    match event {
        Event::Connect { host, port } => connection::after_connect(s, host, port),
        Event::Dialed { connected } => if connection::client_step(s) is Dial {
            connection::after_dial(s, connected)
        } else {
            s
        },
        Event::SetFlushSize { n } => acks::after_set_flush_size(s, n),
        Event::Queue { ack } => acks::after_queue(s, ack),
        Event::Flush => acks::after_flush(s),
        Event::Subscribe { args, status, write_fd } => if subscribe::subscribe_step(
            s,
            args,
        ) is OpenPipe {
            subscribe::after_pipe(subscribe::after_subscribe(s, args), status, write_fd)
        } else {
            subscribe::after_subscribe(s, args)
        },
    }
}

/// The state after a run of events.
pub open spec fn run<A>(s: PluginView<A>, events: Seq<Event<A>>) -> PluginView<A>
    decreases events.len(),
{
    if events.len() == 0 {
        s
    } else {
        after(run(s, events.drop_last()), events.last())
    }
}

/// The acknowledgements that one event hands out to be awaited.
pub open spec fn handed_out<A>(s: PluginView<A>, event: Event<A>) -> Seq<A> {
    match event {
        Event::Queue { ack } => acks::queue_batch(s, ack),
        Event::Flush => s.pending,
        _ => Seq::empty(),
    }
}

/// The acknowledgements that a run hands out to be awaited, in order.
pub open spec fn awaited<A>(s: PluginView<A>, events: Seq<Event<A>>) -> Seq<A>
    decreases events.len(),
{
    if events.len() == 0 {
        Seq::empty()
    } else {
        awaited(s, events.drop_last()) + handed_out(run(s, events.drop_last()), events.last())
    }
}

/// The acknowledgements that a run queues, in order.
pub open spec fn queued<A>(events: Seq<Event<A>>) -> Seq<A>
    decreases events.len(),
{
    if events.len() == 0 {
        Seq::empty()
    } else {
        match events.last() {
            Event::Queue { ack } => queued(events.drop_last()).push(ack),
            _ => queued(events.drop_last()),
        }
    }
}

/// Every run keeps the state well-formed.
pub proof fn law_runs_stay_well_formed<A>(s: PluginView<A>, events: Seq<Event<A>>)
    requires
        s.wf(),
    ensures
        run(s, events).wf(),
    decreases events.len(),
{
    if events.len() > 0 {
        law_runs_stay_well_formed(s, events.drop_last());
    }
}

/// The connection is made once: the first URL stays for the life of the
/// process, and once the connection stands, every call uses it.
pub proof fn law_connected_once<A>(s: PluginView<A>, events: Seq<Event<A>>)
    ensures
        s.url is Some ==> run(s, events).url == s.url,
        s.connected ==> run(s, events).connected && connection::client_step(run(s, events))
            == ClientStepView::Cached,
    decreases events.len(),
{
    if events.len() > 0 {
        law_connected_once(s, events.drop_last());
    }
}

/// Before `nats_connect` was called there is no client, and whatever needs one
/// aborts: creating a stream, sending a message, starting a consumer.
pub proof fn law_no_client_before_connect<A>(
    events: Seq<Event<A>>,
    stream_name: QValueView,
    subject: QValueView,
    job: PublishJobView,
    bytes: Seq<u8>,
    piped: PipedSubscriptionView,
)
    requires
        forall|i: int| 0 <= i < events.len() ==> !(#[trigger] events[i] is Connect),
    ensures
        ({
            let s = run(PluginView::<A>::fresh(), events);
            &&& connection::client_step(s) is Abort
            &&& jetstream::init_step(s, stream_name, subject) matches InitStepView::Create {
                client,
                ..
            } ==> client is Abort
            &&& publish::send_step(s, job, bytes) matches PublishStepView::Send { client, .. }
                && client is Abort
            &&& subscribe::register_step(s, piped, true) matches RegisterStepView::Start {
                client,
                ..
            } && client is Abort
        }),
    decreases events.len(),
{
    if events.len() > 0 {
        law_no_client_before_connect(
            events.drop_last(),
            stream_name,
            subject,
            job,
            bytes,
            piped,
        );
        assert(!(events[events.len() - 1] is Connect));
    }
}

/// Whether a call of `jetstream_init` creates its stream and returns normally,
/// where the server's answer, if it is asked, is `answer`.
pub open spec fn init_succeeds<A>(
    s: PluginView<A>,
    stream_name: QValueView,
    subject: QValueView,
    answer: Result<(), Seq<char>>,
) -> bool {
    &&& jetstream::init_step(s, stream_name, subject) matches InitStepView::Create {
        client,
        request,
    }
    &&& !(client is Abort)
    &&& jetstream::init_end(request, answer) is Ok
}

/// `jetstream_init` returns normally, neither refusing nor aborting, if and
/// only if both arguments are symbols, `nats_connect` was called, and the server
/// got or created the stream.
pub proof fn law_init_succeeds_only_with_stream<A>(
    s: PluginView<A>,
    stream_name: QValueView,
    subject: QValueView,
    answer: Result<(), Seq<char>>,
)
    requires
        s.wf(),
    ensures
        init_succeeds(s, stream_name, subject, answer) <==> stream_name.as_symbol() is Some
            && subject.as_symbol() is Some && s.url is Some && answer is Ok,
{
}

/// A process has one subscription: the first callback stays for the life of the
/// process, and a later `nats_subscribe` with good arguments aborts.
pub proof fn law_subscribed_once<A>(
    s: PluginView<A>,
    events: Seq<Event<A>>,
    args: SubscribeArgs,
)
    requires
        s.callback is Some,
    ensures
        run(s, events).callback == s.callback,
        run(s, events).pipe_write_fd == s.pipe_write_fd,
        subscribe::requested_subscription(args) is Ok ==> subscribe::subscribe_step(
            run(s, events),
            args,
        ) is Abort,
    decreases events.len(),
{
    if events.len() > 0 {
        law_subscribed_once(s, events.drop_last(), args);
    }
}

/// A call that is refused for its arguments changes nothing and does nothing
/// but answer: it creates no stream, encodes no payload and opens no pipe.
pub proof fn law_refused_calls_change_nothing<A, P>(
    s: PluginView<A>,
    args: SubscribeArgs,
    n: QValueView,
    mode: PublishMode,
    subject: QValueView,
    payload: P,
    stream_name: QValueView,
)
    ensures
        subject.as_symbol() is None ==> publish::publish_start(mode, subject, payload)
            == PublishStartView::<P>::Refused(mode.subject_refusal()),
        stream_name.as_symbol() is None || subject.as_symbol() is None ==> jetstream::init_step(
            s,
            stream_name,
            subject,
        ) is Refused,
        subscribe::requested_subscription(args) is Err ==> subscribe::after_subscribe(s, args)
            == s && subscribe::subscribe_step(s, args) is Refused,
        n.as_int() is None && n.as_long() is None ==> acks::after_set_flush_size(s, n) == s,
{
}

/// No acknowledgement is lost, awaited twice or overtaken: at any time, those
/// that were handed out to be awaited and then those still queued are the ones
/// queued at the start and then those queued since, in order.
pub proof fn law_acks_awaited_once<A>(s: PluginView<A>, events: Seq<Event<A>>)
    ensures
        awaited(s, events) + run(s, events).pending == s.pending + queued(events),
    decreases events.len(),
{
    if events.len() > 0 {
        let before = events.drop_last();
        law_acks_awaited_once(s, before);
        let mid = run(s, before);
        let total = s.pending + queued(before);
        match events.last() {
            Event::Queue { ack } => {
                assert(awaited(s, events) + run(s, events).pending == (awaited(s, before)
                    + mid.pending).push(ack));
                assert(total.push(ack) == s.pending + queued(events));
            },
            _ => {
                assert(awaited(s, events) + run(s, events).pending == awaited(s, before)
                    + mid.pending);
            },
        }
    }
}

/// A flush leaves nothing behind: once it was called, everything that was ever
/// queued has been handed out to be awaited.
pub proof fn law_flush_awaits_everything<A>(s: PluginView<A>, events: Seq<Event<A>>)
    ensures
        run(s, events.push(Event::Flush)).pending.len() == 0,
        awaited(s, events.push(Event::Flush)) == s.pending + queued(events),
{
    let all = events.push(Event::Flush);
    assert(all.drop_last() == events);
    law_acks_awaited_once(s, events);
}

/// The state after a run of acknowledgements was queued.
pub open spec fn after_queueing<A>(s: PluginView<A>, acks: Seq<A>) -> PluginView<A>
    decreases acks.len(),
{
    if acks.len() == 0 {
        s
    } else {
        acks::after_queue(after_queueing(s, acks.drop_last()), acks.last())
    }
}

/// The batches that a run of queued acknowledgements sets off.
pub open spec fn batches<A>(s: PluginView<A>, acks: Seq<A>) -> Seq<Seq<A>>
    decreases acks.len(),
{
    if acks.len() == 0 {
        Seq::empty()
    } else {
        let before = after_queueing(s, acks.drop_last());
        if acks::flush_due(before) {
            batches(s, acks.drop_last()).push(acks::queue_batch(before, acks.last()))
        } else {
            batches(s, acks.drop_last())
        }
    }
}

/// With a threshold of N, every N queued acknowledgements set off a flush: the
/// batches are the groups of N in order, and what is left over stays queued.
pub proof fn law_flush_every_n<A>(s: PluginView<A>, acks: Seq<A>)
    requires
        s.flush_size > 0,
        s.pending.len() == 0,
    ensures
        batches(s, acks).len() == acks.len() / s.flush_size,
        forall|i: int|
            0 <= i < acks.len() / s.flush_size ==> #[trigger] batches(s, acks)[i]
                == acks.subrange(i * s.flush_size, i * s.flush_size + s.flush_size),
        after_queueing(s, acks) == (PluginView {
            pending: acks.skip(((acks.len() / s.flush_size) * s.flush_size) as int),
            ..s
        }),
    decreases acks.len(),
{
    let n = s.flush_size as int;
    let k = acks.len() as int;
    if k == 0 {
        assert(k / n == 0) by (nonlinear_arith)
            requires
                k == 0,
                n > 0,
        ;
        assert(acks.skip(0) == s.pending);
    } else {
        let shorter = acks.drop_last();
        law_flush_every_n(s, shorter);
        let before = after_queueing(s, shorter);
        let q = (k - 1) / n;
        let r = (k - 1) % n;
        assert(k - 1 == q * n + r && 0 <= r < n) by (nonlinear_arith)
            requires
                q == (k - 1) / n,
                r == (k - 1) % n,
                n > 0,
        ;
        assert(before.pending.len() == r);
        if r + 1 == n {
            assert(k / n == q + 1 && (q + 1) * n == q * n + n) by (nonlinear_arith)
                requires
                    k == q * n + n,
                    n > 0,
            ;
            assert(before.pending.push(acks.last()) == acks.subrange(q * n, q * n + n));
            assert(acks.skip((q + 1) * n) == Seq::<A>::empty());
        } else {
            assert(k / n == q) by (nonlinear_arith)
                requires
                    k == q * n + r + 1,
                    0 <= r,
                    r + 1 < n,
            ;
            assert(before.pending.push(acks.last()) == acks.skip(q * n));
        }
        assert forall|i: int| 0 <= i < k / n implies #[trigger] batches(s, acks)[i]
            == acks.subrange(i * n, i * n + n) by {
            if i < q {
                assert(i * n + n <= q * n) by (nonlinear_arith)
                    requires
                        i < q,
                        n > 0,
                ;
                assert(0 <= i * n) by (nonlinear_arith)
                    requires
                        0 <= i,
                        n > 0,
                ;
                assert(batches(s, shorter)[i] == shorter.subrange(i * n, i * n + n));
                assert(shorter.subrange(i * n, i * n + n) == acks.subrange(i * n, i * n + n));
            }
        }
    }
}

/// A threshold that fits is taken as it is.
pub proof fn law_flush_size_taken(n: QValueView, size: nat)
    requires
        n == QValueView::Int(size as int) || n == QValueView::Long(size as int),
        size <= usize::MAX,
    ensures
        acks::requested_flush_size(n) == Some(size),
{
    let modulus: int = usize::MAX + 1;
    assert(size as int % modulus == size) by (nonlinear_arith)
        requires
            0 <= size < modulus,
    ;
}

/// With a threshold of 0, or one that the queue does not reach, nothing is
/// flushed but by hand: every acknowledgement stays queued.
pub proof fn law_no_flush_below_threshold<A>(s: PluginView<A>, acks: Seq<A>)
    requires
        s.flush_size == 0 || s.flush_size > s.pending.len() + acks.len(),
    ensures
        batches(s, acks).len() == 0,
        after_queueing(s, acks) == (PluginView { pending: s.pending + acks, ..s }),
    decreases acks.len(),
{
    if acks.len() == 0 {
        assert(s.pending + acks == s.pending);
    } else {
        law_no_flush_below_threshold(s, acks.drop_last());
        assert((s.pending + acks.drop_last()).push(acks.last()) == s.pending + acks);
    }
}

/// A negative threshold, be it an int or a long in the range of `isize` (as
/// every int is, and every long where `usize` has 64 bits), counts from the
/// upper end of the range of `usize`. No queue in memory reaches it: no call
/// sets off a flush, every acknowledgement is queued, and a flush by hand finds
/// them all.
pub proof fn law_negative_flush_size_never_flushes<A>(
    s: PluginView<A>,
    n: QValueView,
    i: int,
    acks: Seq<A>,
)
    requires
        n == QValueView::Int(i) || n == QValueView::Long(i),
        isize::MIN <= i < 0,
        s.pending.len() + acks.len() <= isize::MAX,
    ensures
        acks::requested_flush_size(n) == Some((usize::MAX + 1 + i) as nat),
        usize::MAX + 1 + i > isize::MAX,
        batches(acks::after_set_flush_size(s, n), acks).len() == 0,
        after_queueing(acks::after_set_flush_size(s, n), acks).pending == s.pending + acks,
        handed_out(
            after_queueing(acks::after_set_flush_size(s, n), acks),
            Event::Flush,
        ) == s.pending + acks,
{
    let modulus: int = usize::MAX + 1;
    assert(isize::MIN == -(isize::MAX + 1) && modulus == 2 * (isize::MAX + 1)) by {
        if usize::BITS == 64 {
            assert(usize::MAX == 0xffff_ffff_ffff_ffff);
        } else {
            assert(usize::MAX == 0xffff_ffff);
        }
    }
    assert(i % modulus == modulus + i) by (nonlinear_arith)
        requires
            -modulus <= i < 0,
    ;
    law_no_flush_below_threshold(acks::after_set_flush_size(s, n), acks);
}

/// A flush reports success on standard output, and an automatic flush keeps
/// silent, if and only if every acknowledgement was confirmed; and no more
/// failures are counted than there were acknowledgements.
pub proof fn law_no_failures_iff_all_confirmed(results: Seq<bool>)
    ensures
        acks::failures(results) == 0 <==> forall|i: int| 0 <= i < results.len() ==> results[i],
        acks::failures(results) <= results.len(),
        acks::flush_line(results).stream == Stream::Stdout <==> acks::failures(results) == 0,
        acks::auto_flush_line(results) is None <==> acks::failures(results) == 0,
    decreases results.len(),
{
    reveal(Seq::filter);
    if results.len() > 0 {
        let shorter = results.drop_last();
        law_no_failures_iff_all_confirmed(shorter);
        assert(forall|i: int| 0 <= i < shorter.len() ==> shorter[i] == results[i]);
        assert(results.last() == results[results.len() - 1]);
    }
}

/// The bytes that a payload was encoded to are the bytes that are sent, and the
/// bytes that arrive with a message are the bytes that are decoded.
pub proof fn law_payload_unchanged<A, D>(s: PluginView<A>, job: PublishJobView, bytes: Seq<u8>)
    ensures
        publish::send_step(s, job, bytes) matches PublishStepView::Send { request, .. }
            && request.payload == bytes && request.subject == job.subject
            && consumer::arrival_actions::<D>(request.payload).contains(
            ConsumerActionView::Decode { bytes },
        ),
{
    assert(consumer::arrival_actions::<D>(bytes)[1] == ConsumerActionView::<D>::Decode { bytes });
}

/// What becomes of one message: `outcome` is what decoding comes to, `qtype`
/// and `error` what the callback returns.
pub open spec fn acknowledged<A, D>(
    s: PluginView<A>,
    write_fd: int,
    outcome: Result<D, Seq<char>>,
    qtype: int,
    error: Option<Seq<char>>,
) -> bool {
    &&& consumer::decoded_actions(write_fd, outcome)[1] matches ConsumerActionView::Forward {
        value,
        ..
    }
    &&& handler::handler_step(s, Some(value)) is Invoke
    &&& handler::callback_step(value, qtype, error) is Ack
}

/// Delivery at least once: a message is acknowledged if and only if it was
/// decoded and the callback, which was called with it, returned no error.
pub proof fn law_acknowledged_iff_callback_succeeded<A, D>(
    s: PluginView<A>,
    write_fd: int,
    outcome: Result<D, Seq<char>>,
    qtype: int,
    error: Option<Seq<char>>,
)
    ensures
        acknowledged(s, write_fd, outcome, qtype, error) <==> outcome is Ok && s.callback is Some
            && qtype != handler::error_qtype(),
        acknowledged(s, write_fd, outcome, qtype, error) ==> handler::handler_step(
            s,
            Some(outcome->Ok_0),
        ) == HandlerStepView::Invoke(
            InvocationView { callback: s.callback->0, message: outcome->Ok_0 },
        ),
{
}

/// Something that happens on q's main thread to a message.
pub enum DeliveryEvent<M> {
    /// The callback is called with the message.
    Called { callback: Seq<char>, message: M },
    /// The callback, called with the message, returned an object of this type.
    Returned { message: M, qtype: int },
    /// The message is acknowledged.
    Acked { message: M },
    /// A line is printed.
    Printed { report: LogLineView },
}

/// One run of the handler: the state it finds, what it reads from the pipe, and
/// what the callback returns if it is called.
pub struct HandlerRun<A, M> {
    pub state: PluginView<A>,
    pub read: Option<M>,
    pub qtype: int,
    pub error: Option<Seq<char>>,
}

/// What happens in one run of the handler, in order.
pub open spec fn delivery<A, M>(run: HandlerRun<A, M>) -> Seq<DeliveryEvent<M>> {
    match handler::handler_step(run.state, run.read) {
        HandlerStepView::Invoke(InvocationView { callback, message }) => seq![
            DeliveryEvent::Called { callback, message },
            DeliveryEvent::Returned { message, qtype: run.qtype },
            match handler::callback_step(message, run.qtype, run.error) {
                CallbackStepView::Ack { message: acked } => DeliveryEvent::Acked {
                    message: acked,
                },
                CallbackStepView::Keep { report } => DeliveryEvent::Printed { report },
            },
        ],
        _ => Seq::empty(),
    }
}

/// What happens over the runs of the handler in the life of a process, in order.
pub open spec fn deliveries<A, M>(runs: Seq<HandlerRun<A, M>>) -> Seq<DeliveryEvent<M>>
    decreases runs.len(),
{
    if runs.len() == 0 {
        Seq::empty()
    } else {
        deliveries(runs.drop_last()) + delivery(runs.last())
    }
}

/// Whether the event at `i` has its place: an acknowledgement comes right after
/// the callback that was called with the same message returned no error.
pub open spec fn ack_in_place<M>(events: Seq<DeliveryEvent<M>>, i: int) -> bool {
    events[i] matches DeliveryEvent::Acked { message } ==> {
        &&& i >= 2
        &&& events[i - 2] matches DeliveryEvent::Called { message: called, .. }
        &&& called == message
        &&& events[i - 1] matches DeliveryEvent::Returned { message: returned, qtype }
        &&& returned == message
        &&& qtype != handler::error_qtype()
    }
}

/// Over the whole life of a process, no message is acknowledged before the
/// callback called with it has returned without error. So it is too if the
/// process dies at some point: what has happened by then is a part of the whole
/// from its beginning.
pub proof fn law_acknowledged_after_callback<A, M>(runs: Seq<HandlerRun<A, M>>, i: int)
    requires
        0 <= i < deliveries(runs).len(),
    ensures
        ack_in_place(deliveries(runs), i),
    decreases runs.len(),
{
    let before = deliveries(runs.drop_last());
    let last = delivery(runs.last());
    if i < before.len() {
        law_acknowledged_after_callback(runs.drop_last(), i);
        assert(forall|j: int| 0 <= j <= i ==> #[trigger] deliveries(runs)[j] == before[j]);
    } else {
        let start = before.len() as int;
        assert(last.len() == 3);
        assert(deliveries(runs)[start] == last[0]);
        assert(deliveries(runs)[start + 1] == last[1]);
        assert(deliveries(runs)[start + 2] == last[2]);
    }
}

/// The value that a callback is called with where `payload` was published by
/// one process and its message reaches another: through the encoding `encode`,
/// the bytes that are sent, the bytes that arrive, the decoding `decode`, and
/// the pipe.
pub open spec fn received<A, B, P>(
    publisher: PluginView<A>,
    subscriber: PluginView<B>,
    mode: PublishMode,
    subject: QValueView,
    payload: P,
    encode: spec_fn(P, int) -> Seq<u8>,
    decode: spec_fn(Seq<u8>) -> Result<P, Seq<char>>,
    write_fd: int,
) -> Option<P> {
    match publish::publish_start(mode, subject, payload) {
        PublishStartView::Encode { job, payload: encoded, ipc_mode } => match publish::send_step(
            publisher,
            job,
            encode(encoded, ipc_mode),
        ) {
            PublishStepView::Send { request, .. } => match consumer::receive_step::<(), P>(
                Some(Ok((request.payload, ()))),
            ) {
                ReceiveStepView::Deliver { actions, .. } => match actions[1] {
                    ConsumerActionView::Decode { bytes } => match consumer::decoded_actions(
                        write_fd,
                        decode(bytes),
                    )[1] {
                        ConsumerActionView::Forward { value, .. } => match handler::handler_step(
                            subscriber,
                            Some(value),
                        ) {
                            HandlerStepView::Invoke(invocation) => Some(invocation.message),
                            _ => None,
                        },
                        _ => None,
                    },
                    _ => None,
                },
                _ => None,
            },
            _ => None,
        },
        _ => None,
    }
}

/// Publishing and receiving adds nothing to the encoding and takes nothing from
/// it: in every mode, the callback is called with what decoding makes of the
/// encoded payload. Where decoding undoes encoding, that is the very value that
/// was published.
pub proof fn law_received_as_published<A, B, P>(
    publisher: PluginView<A>,
    subscriber: PluginView<B>,
    mode: PublishMode,
    subject: QValueView,
    payload: P,
    encode: spec_fn(P, int) -> Seq<u8>,
    decode: spec_fn(Seq<u8>) -> Result<P, Seq<char>>,
    write_fd: int,
)
    requires
        subject.as_symbol() is Some,
        subscriber.callback is Some,
    ensures
        received(publisher, subscriber, mode, subject, payload, encode, decode, write_fd)
            == match decode(encode(payload, 3)) {
            Ok(value) => Some(value),
            Err(_) => None,
        },
        decode(encode(payload, 3)) == Ok::<P, Seq<char>>(payload) ==> received(
            publisher,
            subscriber,
            mode,
            subject,
            payload,
            encode,
            decode,
            write_fd,
        ) == Some(payload),
{
}

/// Where the consumer thread stands.
pub enum ThreadPoint {
    /// In a stage of attaching.
    Attaching(AttachStage),
    /// Receiving messages.
    Receiving,
    /// Aborted.
    Aborted,
}

/// Where the thread stands once its stages so far ended with `outcomes`.
pub open spec fn thread_point<T>(
    plan: ConsumerPlanView,
    outcomes: Seq<Result<T, Seq<char>>>,
) -> ThreadPoint
    decreases outcomes.len(),
{
    if outcomes.len() == 0 {
        ThreadPoint::Attaching(consumer::first_stage())
    } else {
        match thread_point(plan, outcomes.drop_last()) {
            ThreadPoint::Attaching(stage) => match consumer::attach_step(
                plan,
                stage,
                outcomes.last(),
            ) {
                AttachStepView::Next { next: Some(following), .. } => ThreadPoint::Attaching(
                    following,
                ),
                AttachStepView::Next { next: None, .. } => ThreadPoint::Receiving,
                AttachStepView::Abort { .. } => ThreadPoint::Aborted,
            },
            point => point,
        }
    }
}

/// The stages of attaching, in order.
pub open spec fn stages() -> Seq<AttachStage> {
    seq![
        AttachStage::Runtime,
        AttachStage::Stream,
        AttachStage::Consumer,
        AttachStage::Messages,
    ]
}

/// The consumer thread goes through its stages in order: with every stage so far
/// successful it is in the next one, or receives messages after the last; with
/// one that failed it has aborted, and never receives a message.
pub proof fn law_thread_attaches_in_order<T>(
    plan: ConsumerPlanView,
    outcomes: Seq<Result<T, Seq<char>>>,
)
    requires
        outcomes.len() <= stages().len(),
    ensures
        thread_point(plan, outcomes) == if exists|i: int|
            0 <= i < outcomes.len() && #[trigger] outcomes[i] is Err {
            ThreadPoint::Aborted
        } else if outcomes.len() < stages().len() {
            ThreadPoint::Attaching(stages()[outcomes.len() as int])
        } else {
            ThreadPoint::Receiving
        },
    decreases outcomes.len(),
{
    if outcomes.len() > 0 {
        let before = outcomes.drop_last();
        law_thread_attaches_in_order(plan, before);
        let k = outcomes.len() - 1;
        assert(forall|i: int| 0 <= i < k ==> #[trigger] before[i] == outcomes[i]);
        assert(outcomes[k] == outcomes.last());
        if exists|i: int| 0 <= i < before.len() && #[trigger] before[i] is Err {
            let i = choose|i: int| 0 <= i < before.len() && #[trigger] before[i] is Err;
            assert(outcomes[i] is Err);
        } else {
            assert forall|i: int| 0 <= i < k implies !(#[trigger] outcomes[i] is Err) by {
                assert(!(before[i] is Err));
            }
        }
    }
}

/// What the consumer thread does over a run of messages: each has its payload
/// and what decoding it comes to.
pub open spec fn consumer_run<D>(
    write_fd: int,
    messages: Seq<(Seq<u8>, Result<D, Seq<char>>)>,
) -> Seq<ConsumerActionView<D>>
    decreases messages.len(),
{
    if messages.len() == 0 {
        Seq::empty()
    } else {
        consumer_run(write_fd, messages.drop_last()) + consumer::arrival_actions::<D>(
            messages.last().0,
        ) + consumer::decoded_actions(write_fd, messages.last().1)
    }
}

/// How often q's table of symbols was locked and not unlocked again.
pub open spec fn pins<D>(actions: Seq<ConsumerActionView<D>>) -> int
    decreases actions.len(),
{
    if actions.len() == 0 {
        0
    } else {
        pins(actions.drop_last()) + match actions.last() {
            ConsumerActionView::PinSymbols => 1int,
            ConsumerActionView::UnpinSymbols => -1int,
            _ => 0int,
        }
    }
}

/// The values that were written to the pipe, in order.
pub open spec fn forwarded<D>(actions: Seq<ConsumerActionView<D>>) -> Seq<D>
    decreases actions.len(),
{
    if actions.len() == 0 {
        Seq::empty()
    } else {
        match actions.last() {
            ConsumerActionView::Forward { value, .. } => forwarded(actions.drop_last()).push(
                value,
            ),
            _ => forwarded(actions.drop_last()),
        }
    }
}

/// The messages that could be decoded, in order.
pub open spec fn decodable<D>(messages: Seq<(Seq<u8>, Result<D, Seq<char>>)>) -> Seq<D>
    decreases messages.len(),
{
    if messages.len() == 0 {
        Seq::empty()
    } else {
        match messages.last().1 {
            Ok(value) => decodable(messages.drop_last()).push(value),
            Err(_) => decodable(messages.drop_last()),
        }
    }
}

/// Locks and writes of four further actions.
proof fn lemma_four_actions<D>(
    actions: Seq<ConsumerActionView<D>>,
    payload: Seq<u8>,
    write_fd: int,
    outcome: Result<D, Seq<char>>,
)
    ensures
        ({
            let more = actions + consumer::arrival_actions::<D>(payload)
                + consumer::decoded_actions(write_fd, outcome);
            &&& pins(more) == pins(actions)
            &&& forwarded(more) == match outcome {
                Ok(value) => forwarded(actions).push(value),
                Err(_) => forwarded(actions),
            }
        }),
{
    let arrival = consumer::arrival_actions::<D>(payload);
    let decoded = consumer::decoded_actions(write_fd, outcome);
    let a1 = actions.push(arrival[0]);
    let a2 = a1.push(arrival[1]);
    let a3 = a2.push(decoded[0]);
    let a4 = a3.push(decoded[1]);
    assert(a1.drop_last() == actions);
    assert(a2.drop_last() == a1);
    assert(a3.drop_last() == a2);
    assert(a4.drop_last() == a3);
    assert(actions + arrival + decoded == a4);
    assert(pins(a1) == pins(actions) + 1 && forwarded(a1) == forwarded(actions));
    assert(pins(a2) == pins(a1) && forwarded(a2) == forwarded(a1));
    assert(pins(a3) == pins(a2) - 1 && forwarded(a3) == forwarded(a2));
}

/// Each message that can be decoded is written to the pipe once, in the order
/// of arrival, and nothing else is; and whenever the thread waits for a
/// message, q's table of symbols is unlocked.
pub proof fn law_consumer_forwards_in_order<D>(
    write_fd: int,
    messages: Seq<(Seq<u8>, Result<D, Seq<char>>)>,
)
    ensures
        forwarded(consumer_run(write_fd, messages)) == decodable(messages),
        pins(consumer_run(write_fd, messages)) == 0,
    decreases messages.len(),
{
    if messages.len() > 0 {
        law_consumer_forwards_in_order(write_fd, messages.drop_last());
        lemma_four_actions(
            consumer_run(write_fd, messages.drop_last()),
            messages.last().0,
            write_fd,
            messages.last().1,
        );
    }
}

} // verus!
