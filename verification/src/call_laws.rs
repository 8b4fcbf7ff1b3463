//! What each call of the plugin does with what it is given: of every argument,
//! where it ends up.

use vstd::prelude::*;
use crate::abort;
use crate::acks;
use crate::connection;
use crate::connection::{ClientStepView, ConnectStepView};
use crate::console::Stream;
use crate::consumer;
use crate::consumer::{
    AttachStage, AttachStepView, ConsumerActionView, ConsumerPlanView, ReceiveStepView,
};
use crate::handler;
use crate::handler::{CallbackStepView, HandlerStepView};
use crate::jetstream;
use crate::jetstream::InitStepView;
use crate::laws;
use crate::numerals;
use crate::plugin::PluginView;
use crate::policy;
use crate::policy::DeliverPolicy;
use crate::publish;
use crate::publish::{
    AckUse, PublishJobView, PublishMode, PublishStartView, PublishStepView, Transport,
};
use crate::refusal;
use crate::refusal::Refusal;
use crate::subscribe;
use crate::subscribe::{
    PipeStepView, PipedSubscriptionView, RegisterStepView, SubscribeArgs, SubscribeStepView,
    SubscriptionView,
};
use crate::text;
use crate::value::QValueView;

verus! {

/// Each kind of q object yields its own value and no other.
pub proof fn law_values_read(v: QValueView)
    ensures
        v matches QValueView::Symbol(t) ==> v.as_symbol() == Some(t),
        v matches QValueView::Int(i) ==> v.as_int() == Some(i),
        v matches QValueView::Long(j) ==> v.as_long() == Some(j),
        !(v is Symbol) ==> v.as_symbol() is None,
        !(v is Int) ==> v.as_int() is None,
        !(v is Long) ==> v.as_long() is None,
        v matches QValueView::Symbol(t) ==> (v.wf() <==> !t.contains('\0')),
        !(v is Symbol) ==> v.wf(),
{
}

/// A process starts with no connection, no callback, no pipe, an empty queue,
/// and automatic flushing turned off.
pub proof fn law_fresh_process<A>(s: PluginView<A>)
    requires
        s == PluginView::<A>::fresh(),
    ensures
        s.url is None,
        !s.connected,
        s.callback is None,
        s.pipe_write_fd == -1,
        s.flush_size == 0,
        s.pending.len() == 0,
        s.wf(),
{
}

/// In every run of a process from its start, a connection has a URL that it was
/// made to, and a pipe has a callback that its messages are for.
pub proof fn law_connection_has_url<A>(events: Seq<laws::Event<A>>)
    ensures
        ({
            let s = laws::run(PluginView::<A>::fresh(), events);
            &&& s.connected ==> s.url is Some
            &&& s.pipe_write_fd != -1 ==> s.callback is Some
        }),
{
    laws::law_runs_stay_well_formed(PluginView::<A>::fresh(), events);
}

/// The URL after the first `nats_connect` reads back as what it was called
/// with: behind the seven characters of the scheme stands the whole host, and
/// behind the last colon the numeral of the port.
pub proof fn law_url_reads_back<A>(s: PluginView<A>, host: Seq<char>, port: int)
    requires
        s.url is None,
    ensures
        ({
            let url = connection::after_connect(
                s,
                QValueView::Symbol(host),
                QValueView::Int(port),
            ).url->0;
            let colon: int = 7 + host.len() as int;
            &&& connection::after_connect(
                s,
                QValueView::Symbol(host),
                QValueView::Int(port),
            ).url is Some
            &&& url.len() > colon + 1
            &&& url.subrange(0, 7) == seq!['n', 'a', 't', 's', ':', '/', '/']
            &&& url.subrange(7, colon) == host
            &&& url[colon] == ':'
            &&& forall|i: int| colon < i < url.len() ==> #[trigger] url[i] != ':'
            &&& numerals::is_integer_numeral(url.skip(colon + 1))
            &&& numerals::read_integer(url.skip(colon + 1)) == port
        }),
{
    reveal_strlit("nats://");
    reveal_strlit(":");
    let url = connection::server_url(QValueView::Symbol(host), QValueView::Int(port));
    let colon: int = 7 + host.len() as int;
    let digits = text::integer_text(port);
    numerals::law_integer_text_reads_back(port);
    assert(url.subrange(0, 7) =~= seq!['n', 'a', 't', 's', ':', '/', '/']);
    assert(url.subrange(7, colon) =~= host);
    assert(url.skip(colon + 1) =~= digits);
    assert forall|i: int| colon < i < url.len() implies #[trigger] url[i] != ':' by {
        let k = i - (colon + 1);
        assert(url[i] == digits[k]);
        if digits[0] == '-' && k > 0 && !numerals::is_numeral(digits) {
            assert(numerals::is_digit(digits.skip(1)[k - 1]));
        } else if numerals::is_numeral(digits) {
            assert(numerals::is_digit(digits[k]));
        }
    }
}

/// Different hosts or ports give different URLs.
pub proof fn law_urls_differ<A>(
    s: PluginView<A>,
    host1: Seq<char>,
    port1: int,
    host2: Seq<char>,
    port2: int,
)
    requires
        s.url is None,
    ensures
        connection::after_connect(s, QValueView::Symbol(host1), QValueView::Int(port1)).url
            == connection::after_connect(s, QValueView::Symbol(host2), QValueView::Int(port2)).url
            <==> host1 == host2 && port1 == port2,
{
    law_url_reads_back(s, host1, port1);
    law_url_reads_back(s, host2, port2);
    let url1 = connection::after_connect(
        s,
        QValueView::Symbol(host1),
        QValueView::Int(port1),
    ).url->0;
    let url2 = connection::after_connect(
        s,
        QValueView::Symbol(host2),
        QValueView::Int(port2),
    ).url->0;
    if url1 == url2 {
        assert(url1[7 + host1.len() as int] == ':');
        assert(url2[7 + host2.len() as int] == ':');
        assert(host1.len() == host2.len());
    }
}

/// A host that is no symbol is `localhost`, and a port that is no int is 4222:
/// the call is the same as one with these.
pub proof fn law_url_defaults<A>(s: PluginView<A>, host: QValueView, port: QValueView)
    ensures
        !(host is Symbol) ==> connection::after_connect(s, host, port)
            == connection::after_connect(s, QValueView::Symbol("localhost"@), port)
            && connection::connect_step(s, host, port) == connection::connect_step(
            s,
            QValueView::Symbol("localhost"@),
            port,
        ),
        !(port is Int) ==> connection::after_connect(s, host, port)
            == connection::after_connect(s, host, QValueView::Int(4222))
            && connection::connect_step(s, host, port) == connection::connect_step(
            s,
            host,
            QValueView::Int(4222),
        ),
{
}

/// The first `nats_connect` stores a URL, dials that very URL, reports it, and
/// changes nothing else; every later one changes nothing and says so.
pub proof fn law_connect_dials_what_it_stores<A>(
    s: PluginView<A>,
    host: QValueView,
    port: QValueView,
)
    ensures
        ({
            let next = connection::after_connect(s, host, port);
            let step = connection::connect_step(s, host, port);
            &&& next.url is Some
            &&& next == (PluginView { url: next.url, ..s })
            &&& s.url is None ==> {
                &&& step matches ConnectStepView::First { client, report }
                &&& client == connection::client_step(next)
                &&& !s.connected ==> (client matches ClientStepView::Dial { url, .. } && Some(url)
                    == next.url)
                &&& numerals::says(
                    report,
                    Stream::Stdout,
                    "[kdb-plugin] nats_connect | connected to "@,
                    next.url->0,
                )
            }
            &&& s.url is Some ==> {
                &&& next == s
                &&& step matches ConnectStepView::Again { report }
                &&& numerals::says(
                    report,
                    Stream::Stdout,
                    "[kdb-plugin] nats_connect | already connected (ignored)"@,
                    Seq::empty(),
                )
            }
        }),
{
}

/// A standing connection is used; without one the stored URL is dialed, whole;
/// and without a URL there is nothing to dial.
pub proof fn law_client_of_state<A>(s: PluginView<A>)
    ensures
        s.connected ==> connection::client_step(s) is Cached,
        !s.connected && s.url is Some ==> {
            &&& connection::client_step(s) matches ClientStepView::Dial { url, report }
            &&& Some(url) == s.url
            &&& numerals::says(
                report,
                Stream::Stdout,
                "[kdb-plugin] connecting to NATS at "@,
                url,
            )
        },
        !s.connected && s.url is None ==> {
            &&& connection::client_step(s) matches ClientStepView::Abort { message }
            &&& message
                == "[kdb-plugin] call nats_connect[host; port] before using NATS APIs"@
        },
{
}

/// A failed dial changes nothing; one that succeeds makes the connection stand
/// and changes nothing else.
pub proof fn law_dial_outcomes<A>(s: PluginView<A>)
    ensures
        connection::after_dial(s, false) == s,
        s.url is Some ==> connection::after_dial(s, true) == (PluginView { connected: true, ..s }),
        s.url is None ==> connection::after_dial(s, true) == s,
{
}

/// The stream that `jetstream_init` asks the server for has the whole first
/// argument as its name and the whole second as its subject, in every state;
/// and its report says the same two.
pub proof fn law_stream_is_named_by_the_arguments<A>(
    s: PluginView<A>,
    name: Seq<char>,
    subject: Seq<char>,
    error: Seq<char>,
)
    ensures
        ({
            &&& jetstream::init_step(
                s,
                QValueView::Symbol(name),
                QValueView::Symbol(subject),
            ) matches InitStepView::Create { client, request }
            &&& client == connection::client_step(s)
            &&& request.name == name
            &&& request.subject == subject
            &&& jetstream::init_end(request, Ok(())) matches Ok(report)
            &&& numerals::says(
                report,
                Stream::Stdout,
                "[kdb-plugin] jetstream_init | stream="@ + name + " subject="@,
                subject,
            )
            &&& jetstream::init_end(request, Err(error)) matches Err(message)
            &&& numerals::splits(
                message,
                "called `Result::unwrap()` on an `Err` value: "@,
                error,
            )
        }),
{
}

/// Two calls of `jetstream_init` ask for the same stream only if they were
/// called with the same name and the same subject.
pub proof fn law_streams_differ<A, B>(
    s1: PluginView<A>,
    name1: Seq<char>,
    subject1: Seq<char>,
    s2: PluginView<B>,
    name2: Seq<char>,
    subject2: Seq<char>,
)
    ensures
        ({
            &&& jetstream::init_step(
                s1,
                QValueView::Symbol(name1),
                QValueView::Symbol(subject1),
            ) matches InitStepView::Create { request: r1, .. }
            &&& jetstream::init_step(
                s2,
                QValueView::Symbol(name2),
                QValueView::Symbol(subject2),
            ) matches InitStepView::Create { request: r2, .. }
            &&& r1 == r2 <==> name1 == name2 && subject1 == subject2
        }),
{
}

/// `jetstream_init` is refused for the first argument that is no symbol, and
/// for nothing else.
pub proof fn law_init_refusals<A>(s: PluginView<A>, stream_name: QValueView, subject: QValueView)
    ensures
        jetstream::init_step(s, stream_name, subject) == InitStepView::Refused(
            Refusal::InitStreamName,
        ) <==> !(stream_name is Symbol),
        jetstream::init_step(s, stream_name, subject) == InitStepView::Refused(
            Refusal::InitSubject,
        ) <==> stream_name is Symbol && !(subject is Symbol),
        jetstream::init_step(s, stream_name, subject) is Refused <==> !(stream_name is Symbol
            && subject is Symbol),
{
}

/// A publication encodes the object that it was given, in version 3, and sends
/// all of the encoded bytes under the whole subject. What carries the message,
/// and what becomes of its acknowledgement, depend on the mode alone.
pub proof fn law_publication<A, P>(
    s: PluginView<A>,
    mode: PublishMode,
    subject: Seq<char>,
    payload: P,
    bytes: Seq<u8>,
)
    ensures
        ({
            &&& publish::publish_start(mode, QValueView::Symbol(subject), payload) matches
                PublishStartView::Encode { job, payload: encoded, ipc_mode }
            &&& encoded == payload
            &&& ipc_mode == 3
            &&& job.mode == mode
            &&& job.subject == subject
            &&& publish::send_step(s, job, bytes) matches PublishStepView::Send { client, request }
            &&& client == connection::client_step(s)
            &&& request.subject == subject
            &&& request.payload == bytes
            &&& mode == PublishMode::Sync ==> request.transport == Transport::Jetstream
                && request.ack == AckUse::Wait
            &&& mode == PublishMode::Core ==> request.transport == Transport::CoreNats
                && request.ack == AckUse::Absent
            &&& mode == PublishMode::Noack ==> request.transport == Transport::Jetstream
                && request.ack == AckUse::Drop
            &&& mode == PublishMode::Async ==> request.transport == Transport::Jetstream
                && request.ack == AckUse::Queue
        }),
{
}

/// Two publications in the same mode go the same way, whatever their state,
/// subject and payload; in different modes, their acknowledgements are used
/// differently.
pub proof fn law_mode_decides<A, B>(
    s1: PluginView<A>,
    job1: PublishJobView,
    bytes1: Seq<u8>,
    s2: PluginView<B>,
    job2: PublishJobView,
    bytes2: Seq<u8>,
)
    ensures
        ({
            &&& publish::send_step(s1, job1, bytes1) matches PublishStepView::Send {
                request: r1,
                ..
            }
            &&& publish::send_step(s2, job2, bytes2) matches PublishStepView::Send {
                request: r2,
                ..
            }
            &&& r1.ack == r2.ack <==> job1.mode == job2.mode
            &&& job1.mode == job2.mode ==> r1.transport == r2.transport
        }),
{
}

/// A publication is refused if and only if its subject is no symbol, with the
/// error of its own function.
pub proof fn law_publication_refusals<P>(mode: PublishMode, subject: QValueView, payload: P)
    ensures
        publish::publish_start(mode, subject, payload) is Refused <==> !(subject is Symbol),
        publish::publish_start(mode, subject, payload) matches PublishStartView::Refused(r) ==> {
            &&& r == Refusal::PublishSubject <==> mode == PublishMode::Sync
            &&& r == Refusal::PublishCoreSubject <==> mode == PublishMode::Core
            &&& r == Refusal::PublishNoackSubject <==> mode == PublishMode::Noack
            &&& r == Refusal::PublishAsyncSubject <==> mode == PublishMode::Async
        },
{
}

/// The text that a refused publication is answered with names the function that
/// was called.
pub proof fn law_publication_refusal_texts<P>(mode: PublishMode, subject: QValueView, payload: P)
    requires
        !(subject is Symbol),
    ensures
        publish::publish_start(mode, subject, payload) matches PublishStartView::Refused(r)
            && numerals::splits(
            refusal::refusal_text(r),
            match mode {
                PublishMode::Sync => "nats_publish"@,
                PublishMode::Core => "nats_publish_core"@,
                PublishMode::Noack => "nats_publish_noack"@,
                PublishMode::Async => "nats_publish_async"@,
            },
            ": subject is required\0"@,
        ),
{
    reveal_strlit("nats_publish");
    reveal_strlit("nats_publish_core");
    reveal_strlit("nats_publish_noack");
    reveal_strlit("nats_publish_async");
    reveal_strlit(": subject is required\0");
    reveal_strlit("nats_publish: subject is required\0");
    reveal_strlit("nats_publish_core: subject is required\0");
    reveal_strlit("nats_publish_noack: subject is required\0");
    reveal_strlit("nats_publish_async: subject is required\0");
}

/// What a failed publication prints names its function, says what failed, and
/// ends in the whole error; one that succeeds prints nothing.
pub proof fn law_publication_failures(mode: PublishMode, what: Seq<char>, error: Seq<char>)
    ensures
        ({
            let name = match mode {
                PublishMode::Sync => "[kdb-plugin] nats_publish"@,
                PublishMode::Core => "[kdb-plugin] nats_publish_core"@,
                PublishMode::Noack => "[kdb-plugin] nats_publish_noack"@,
                PublishMode::Async => "[kdb-plugin] nats_publish_async"@,
            };
            let failed = if mode == PublishMode::Async {
                " | publish error: "@
            } else {
                " | error: "@
            };
            &&& numerals::says(
                publish::failure_line(mode, what, error),
                Stream::Stderr,
                name + what,
                error,
            )
            &&& publish::sent_line(mode, Ok(())) is None
            &&& publish::sent_line(mode, Err(error)) is Some
            &&& numerals::says(
                publish::sent_line(mode, Err(error))->0,
                Stream::Stderr,
                name + failed,
                error,
            )
        }),
{
    reveal_strlit("[kdb-plugin] ");
    reveal_strlit("nats_publish");
    reveal_strlit("nats_publish_core");
    reveal_strlit("nats_publish_noack");
    reveal_strlit("nats_publish_async");
    reveal_strlit("[kdb-plugin] nats_publish");
    reveal_strlit("[kdb-plugin] nats_publish_core");
    reveal_strlit("[kdb-plugin] nats_publish_noack");
    reveal_strlit("[kdb-plugin] nats_publish_async");
    assert("[kdb-plugin] "@ + "nats_publish"@ =~= "[kdb-plugin] nats_publish"@);
    assert("[kdb-plugin] "@ + "nats_publish_core"@ =~= "[kdb-plugin] nats_publish_core"@);
    assert("[kdb-plugin] "@ + "nats_publish_noack"@ =~= "[kdb-plugin] nats_publish_noack"@);
    assert("[kdb-plugin] "@ + "nats_publish_async"@ =~= "[kdb-plugin] nats_publish_async"@);
}

/// A threshold from 0 to the largest `usize`, given as an int or a long, is
/// taken as it is, and nothing else changes. From an empty queue on, a threshold
/// of N > 0 then hands the acknowledgements out in groups of exactly N.
pub proof fn law_threshold_taken<A>(s: PluginView<A>, n: nat, given: QValueView, acks: Seq<A>)
    requires
        n <= usize::MAX,
        given == QValueView::Int(n as int) || given == QValueView::Long(n as int),
    ensures
        ({
            let next = acks::after_set_flush_size(s, given);
            &&& next.flush_size == n
            &&& next == (PluginView { flush_size: n, ..s })
            &&& n > 0 && s.pending.len() == 0 ==> {
                &&& laws::batches(next, acks).len() == acks.len() / n
                &&& forall|i: int|
                    0 <= i < acks.len() / n ==> #[trigger] laws::batches(next, acks)[i]
                        == acks.subrange(i * n, i * n + n)
                &&& laws::after_queueing(next, acks).pending.len() < n
            }
        }),
{
    laws::law_flush_size_taken(given, n);
    let next = acks::after_set_flush_size(s, given);
    if n > 0 && s.pending.len() == 0 {
        laws::law_flush_every_n(next, acks);
        let k = acks.len() as int;
        let m = n as int;
        assert(0 <= k - (k / m) * m < m) by (nonlinear_arith)
            requires
                m > 0,
                k >= 0,
        ;
    }
}

/// Any int or long gives a threshold in range that differs from it by a
/// multiple of the size of the range; anything else changes nothing.
pub proof fn law_threshold_wraps<A>(s: PluginView<A>, given: QValueView)
    ensures
        ({
            let next = acks::after_set_flush_size(s, given);
            &&& next == (PluginView { flush_size: next.flush_size, ..s })
            &&& given matches QValueView::Int(i) ==> next.flush_size <= usize::MAX && (
            next.flush_size - i) % (usize::MAX + 1) == 0
            &&& given matches QValueView::Long(j) ==> next.flush_size <= usize::MAX && (
            next.flush_size - j) % (usize::MAX + 1) == 0
            &&& given is Symbol || given is Other ==> next == s
        }),
{
    let modulus: int = usize::MAX + 1;
    let v = match given {
        QValueView::Int(i) => i,
        QValueView::Long(j) => j,
        _ => 0int,
    };
    assert(0 <= v % modulus < modulus && (v % modulus - v) % modulus == 0) by {
        vstd::arithmetic::div_mod::lemma_fundamental_div_mod(v, modulus);
        vstd::arithmetic::div_mod::lemma_mod_bound(v, modulus);
        let q = v / modulus;
        assert(v % modulus - v == (-q) * modulus) by (nonlinear_arith)
            requires
                v == modulus * q + v % modulus,
        ;
        vstd::arithmetic::div_mod::lemma_mod_multiples_basic(-q, modulus);
    }
}

/// The report on a threshold says the threshold that now holds, and that 0
/// turns flushing off.
pub proof fn law_threshold_report<A>(s: PluginView<A>, given: QValueView)
    ensures
        given is Int || given is Long ==> numerals::says(
            acks::flush_size_report(given),
            Stream::Stdout,
            "[kdb-plugin] nats_set_flush_size | auto-flush after "@ + text::natural_text(
                acks::after_set_flush_size(s, given).flush_size,
            ) + " acks"@,
            if acks::after_set_flush_size(s, given).flush_size == 0 {
                " (disabled)"@
            } else {
                Seq::empty()
            },
        ),
        given is Symbol || given is Other ==> numerals::says(
            acks::flush_size_report(given),
            Stream::Stderr,
            "[kdb-plugin] nats_set_flush_size | expected int or long"@,
            Seq::empty(),
        ),
{
}

/// Queueing hands out nothing, or the whole queue: nothing if and only if there
/// is no threshold or the queue is still below it, and whatever is not handed
/// out stays queued, in order.
pub proof fn law_queueing<A>(s: PluginView<A>, ack: A)
    ensures
        ({
            let next = acks::after_queue(s, ack);
            let batch = acks::queue_batch(s, ack);
            &&& next == (PluginView { pending: next.pending, ..s })
            &&& batch + next.pending == s.pending.push(ack)
            &&& batch.len() > 0 ==> next.pending.len() == 0
            &&& batch.len() > 0 <==> s.flush_size > 0 && s.pending.push(ack).len() >= s.flush_size
            &&& acks::flush_due(s) <==> batch.len() > 0
            &&& s.flush_size > 0 ==> next.pending.len() < s.flush_size
        }),
{
    assert(s.pending.push(ack) + Seq::<A>::empty() =~= s.pending.push(ack));
    assert(Seq::<A>::empty() + s.pending.push(ack) =~= s.pending.push(ack));
}

/// `nats_flush` empties the queue and changes nothing else.
pub proof fn law_flushing<A>(s: PluginView<A>)
    ensures
        acks::after_flush(s).pending.len() == 0,
        (PluginView { pending: s.pending, ..acks::after_flush(s) }) == s,
{
}

/// Failures are counted one by one: none at the start, one more for each
/// acknowledgement that failed, and none for one that was confirmed.
pub proof fn law_failures_counted(results: Seq<bool>)
    ensures
        acks::failures(Seq::<bool>::empty()) == 0,
        acks::failures(results.push(false)) == acks::failures(results) + 1,
        acks::failures(results.push(true)) == acks::failures(results),
{
    reveal(Seq::filter);
    assert(results.push(false).drop_last() =~= results);
    assert(results.push(true).drop_last() =~= results);
}

/// A flush reports how many acknowledgements were confirmed, or how many of how
/// many failed; an automatic one reports only the latter.
pub proof fn law_flush_reports(results: Seq<bool>)
    ensures
        ({
            let failed = acks::failures(results);
            let ratio = text::natural_text(failed) + "/"@ + text::natural_text(results.len());
            &&& failed == 0 ==> numerals::says(
                acks::flush_line(results),
                Stream::Stdout,
                "[kdb-plugin] nats_flush | "@ + text::natural_text(results.len()),
                " acks confirmed"@,
            ) && acks::auto_flush_line(results) is None
            &&& failed > 0 ==> numerals::says(
                acks::flush_line(results),
                Stream::Stderr,
                "[kdb-plugin] nats_flush | "@ + ratio,
                " acks failed"@,
            ) && acks::auto_flush_line(results) is Some && numerals::says(
                acks::auto_flush_line(results)->0,
                Stream::Stderr,
                "[kdb-plugin] nats_publish_async | auto-flush: "@ + ratio,
                " acks failed"@,
            )
        }),
{
    let a = text::natural_text(acks::failures(results));
    let b = text::natural_text(results.len());
    let p1 = "[kdb-plugin] nats_flush | "@;
    let p2 = "[kdb-plugin] nats_publish_async | auto-flush: "@;
    assert(p1 + a + "/"@ + b =~= p1 + (a + "/"@ + b));
    assert(p2 + a + "/"@ + b =~= p2 + (a + "/"@ + b));
}

/// The four symbols name the four policies, and nothing else names any.
pub proof fn law_policies_named(symbol: Seq<char>)
    ensures
        policy::named_policy(symbol) == Some(DeliverPolicy::All) <==> symbol == seq!['a', 'l', 'l'],
        policy::named_policy(symbol) == Some(DeliverPolicy::Last) <==> symbol == seq![
            'l',
            'a',
            's',
            't',
        ],
        policy::named_policy(symbol) == Some(DeliverPolicy::New) <==> symbol == seq!['n', 'e', 'w'],
        policy::named_policy(symbol) == Some(DeliverPolicy::LastPerSubject) <==> symbol
            == "last_per_subject"@,
{
    reveal_strlit("all");
    reveal_strlit("last");
    reveal_strlit("new");
    reveal_strlit("last_per_subject");
    assert("all"@ =~= seq!['a', 'l', 'l']);
    assert("last"@ =~= seq!['l', 'a', 's', 't']);
    assert("new"@ =~= seq!['n', 'e', 'w']);
    assert("all"@[0] != "new"@[0]);
    assert("last_per_subject"@.len() == 16);
}

/// The name of a policy in reports.
pub proof fn law_policy_names(policy: DeliverPolicy)
    ensures
        policy::policy_name(policy) == "All"@ <==> policy == DeliverPolicy::All,
        policy::policy_name(policy) == "Last"@ <==> policy == DeliverPolicy::Last,
        policy::policy_name(policy) == "New"@ <==> policy == DeliverPolicy::New,
        policy::policy_name(policy) == "LastPerSubject"@ <==> policy
            == DeliverPolicy::LastPerSubject,
{
    reveal_strlit("All");
    reveal_strlit("Last");
    reveal_strlit("New");
    reveal_strlit("LastPerSubject");
    assert("All"@[0] != "New"@[0]);
    assert("Last"@.len() == 4);
    assert("LastPerSubject"@.len() == 14);
}

/// An accepted `nats_subscribe`, from its five arguments to the consumer that is
/// started: the stream, the consumer, the filter and the policy are those of the
/// arguments, whole, and the consumer is durable under its own name, whatever
/// the policy. The callback that is stored is that of the arguments, and the
/// consumer writes to the end of the pipe whose other end is registered.
pub proof fn law_subscription<A>(
    s: PluginView<A>,
    stream: Seq<char>,
    subject: Seq<char>,
    consumer: Seq<char>,
    policy_text: Seq<char>,
    policy: DeliverPolicy,
    callback: Seq<char>,
    read_fd: int,
    write_fd: int,
)
    requires
        s.callback is None,
        match policy {
            DeliverPolicy::All => policy_text == "all"@,
            DeliverPolicy::Last => policy_text == "last"@,
            DeliverPolicy::New => policy_text == "new"@,
            DeliverPolicy::LastPerSubject => policy_text == "last_per_subject"@,
        },
    ensures
        ({
            let args = SubscribeArgs {
                stream_name: QValueView::Symbol(stream),
                subject: QValueView::Symbol(subject),
                consumer_name: QValueView::Symbol(consumer),
                deliver_policy: QValueView::Symbol(policy_text),
                callback: QValueView::Symbol(callback),
            };
            let called = subscribe::after_subscribe(s, args);
            let piped_state = subscribe::after_pipe(called, 0, write_fd);
            &&& called == (PluginView { callback: Some(callback), ..s })
            &&& piped_state == (PluginView { pipe_write_fd: write_fd, ..called })
            &&& subscribe::subscribe_step(s, args) matches SubscribeStepView::OpenPipe(sub)
            &&& subscribe::pipe_step(sub, 0, read_fd, write_fd) matches PipeStepView::Register(
                piped,
            )
            &&& piped.read_fd == read_fd
            &&& piped.write_fd == write_fd
            &&& subscribe::register_step(piped_state, piped, true) matches RegisterStepView::Start {
                client,
                plan,
                report,
            }
            &&& client == connection::client_step(s)
            &&& plan.stream_name == stream
            &&& plan.filter_subject == subject
            &&& plan.consumer_name == consumer
            &&& plan.durable_name == Some(consumer)
            &&& plan.deliver_policy == policy
            &&& plan.write_fd == write_fd
            &&& numerals::says(
                report,
                Stream::Stdout,
                "[kdb-plugin] nats_subscribe | callback=`"@,
                callback,
            )
        }),
{
    law_policies_named(policy_text);
    reveal_strlit("all");
    reveal_strlit("last");
    reveal_strlit("new");
    assert("all"@ =~= seq!['a', 'l', 'l']);
    assert("last"@ =~= seq!['l', 'a', 's', 't']);
    assert("new"@ =~= seq!['n', 'e', 'w']);
}

/// `nats_subscribe` is refused for the first argument that is no symbol, then
/// for a symbol that names no policy, and for no other reason; and a refused
/// call changes nothing.
pub proof fn law_subscription_refusals<A>(s: PluginView<A>, args: SubscribeArgs)
    ensures
        ({
            let step = subscribe::subscribe_step(s, args);
            let a = args.stream_name is Symbol;
            let b = a && args.subject is Symbol;
            let c = b && args.consumer_name is Symbol;
            let d = c && args.deliver_policy is Symbol;
            let e = d && args.callback is Symbol;
            let f = e && (args.deliver_policy matches QValueView::Symbol(p)
                && policy::named_policy(p) is Some);
            &&& step == SubscribeStepView::Refused(Refusal::SubscribeStreamName) <==> !a
            &&& step == SubscribeStepView::Refused(Refusal::SubscribeSubject) <==> a && !b
            &&& step == SubscribeStepView::Refused(Refusal::SubscribeConsumerName) <==> b && !c
            &&& step == SubscribeStepView::Refused(Refusal::SubscribeDeliverPolicy) <==> c && !d
            &&& step == SubscribeStepView::Refused(Refusal::SubscribeCallback) <==> d && !e
            &&& step == SubscribeStepView::Refused(Refusal::SubscribeUnknownPolicy) <==> e && !f
            &&& step is Refused <==> !f
            &&& step is Refused || step is Abort ==> subscribe::after_subscribe(s, args) == s
            &&& step is Abort <==> f && s.callback is Some
            &&& step matches SubscribeStepView::Abort { message, rejected } ==> {
                &&& message == "[kdb-plugin] nats_subscribe already called"@
                &&& args.callback == QValueView::Symbol(rejected)
            }
        }),
{
}

/// A pipe that does not open, or that q's event loop does not take, refuses the
/// subscription. One that opens keeps the subscription and both its ends, and its
/// writing end is stored, which changes nothing else.
pub proof fn law_pipe_outcomes<A>(
    s: PluginView<A>,
    sub: SubscriptionView,
    piped: PipedSubscriptionView,
    status: int,
    read_fd: int,
    write_fd: int,
)
    ensures
        status != 0 ==> subscribe::pipe_step(sub, status, read_fd, write_fd)
            == PipeStepView::Refused(Refusal::SubscribePipe) && subscribe::after_pipe(
            s,
            status,
            write_fd,
        ) == s,
        status == 0 ==> (subscribe::pipe_step(sub, status, read_fd, write_fd) matches
            PipeStepView::Register(p) && p.subscription == sub && p.read_fd == read_fd
            && p.write_fd == write_fd) && subscribe::after_pipe(s, status, write_fd) == (
        PluginView { pipe_write_fd: write_fd, ..s }),
        subscribe::register_step(s, piped, false) == RegisterStepView::Refused(
            Refusal::SubscribeRegister,
        ),
        subscribe::register_step(s, piped, true) matches RegisterStepView::Start { client, .. }
            && client == connection::client_step(s),
{
}

/// A stage of attaching that yields a value goes on with that value to the next
/// stage; one that fails aborts with the whole error. The thread's lines come
/// after the first stage and after the consumer was made, and the latter names
/// the stream, the filter, the consumer and the policy.
pub proof fn law_attaching<T>(
    plan: ConsumerPlanView,
    stage: AttachStage,
    value: T,
    error: Seq<char>,
)
    ensures
        ({
            &&& consumer::attach_step::<T>(plan, stage, Err(error)) matches AttachStepView::Abort {
                message,
            }
            &&& numerals::splits(
                message,
                "called `Result::unwrap()` on an `Err` value: "@,
                error,
            )
        }),
        ({
            &&& consumer::attach_step(plan, stage, Ok(value)) matches AttachStepView::Next {
                value: kept,
                report,
                next,
            }
            &&& kept == value
            &&& next == Some(AttachStage::Stream) <==> stage == AttachStage::Runtime
            &&& next == Some(AttachStage::Consumer) <==> stage == AttachStage::Stream
            &&& next == Some(AttachStage::Messages) <==> stage == AttachStage::Consumer
            &&& next is None <==> stage == AttachStage::Messages
            &&& report is Some <==> stage == AttachStage::Runtime || stage
                == AttachStage::Consumer
            &&& stage == AttachStage::Runtime ==> numerals::says(
                report->0,
                Stream::Stdout,
                "[kdb-plugin] nats_subscribe | consumer thread started"@,
                Seq::empty(),
            )
            &&& stage == AttachStage::Consumer ==> numerals::says(
                report->0,
                Stream::Stdout,
                "[kdb-plugin] nats_subscribe | stream="@ + plan.stream_name + " subject="@
                    + plan.filter_subject + " consumer="@ + plan.consumer_name + " policy="@,
                policy::policy_name(plan.deliver_policy),
            )
        }),
{
}

/// A message that arrives keeps its handle, and all of its payload is decoded,
/// under a lock; a failure to receive aborts with the whole error; and without
/// further messages the thread ends.
pub proof fn law_receiving<H, D>(payload: Seq<u8>, handle: H, error: Seq<char>)
    ensures
        consumer::receive_step::<H, D>(Some(Ok((payload, handle)))) matches
            ReceiveStepView::Deliver { handle: kept, actions } && kept == handle && actions.len()
            == 2 && actions[0] is PinSymbols && actions[1] == (ConsumerActionView::<D>::Decode {
            bytes: payload,
        }),
        consumer::receive_step::<H, D>(Some(Err(error))) matches ReceiveStepView::Abort {
            message,
        } && numerals::splits(message, "called `Result::unwrap()` on an `Err` value: "@, error),
        consumer::receive_step::<H, D>(None) is End,
{
}

/// A decoded value is written to the pipe of the plan, after the lock was given
/// back; a failure to decode is reported whole, and nothing is written.
pub proof fn law_decoding<D>(write_fd: int, value: D, error: Seq<char>)
    ensures
        consumer::decoded_actions::<D>(write_fd, Ok(value)).len() == 2,
        consumer::decoded_actions::<D>(write_fd, Ok(value))[0] is UnpinSymbols,
        consumer::decoded_actions::<D>(write_fd, Ok(value))[1] == (
        ConsumerActionView::<D>::Forward { write_fd, value }),
        consumer::decoded_actions::<D>(write_fd, Err(error)).len() == 2,
        consumer::decoded_actions::<D>(write_fd, Err(error))[0] is UnpinSymbols,
        consumer::decoded_actions::<D>(write_fd, Err(error))[1] matches ConsumerActionView::Print {
            report,
        } && numerals::says(
            report,
            Stream::Stderr,
            "[kdb-plugin] nats_subscribe | decode error: "@,
            error,
        ),
{
}

/// The handler calls the callback of the state, by its whole name, with the
/// message that it read; it does nothing where it read nothing, and aborts where
/// there is no callback.
pub proof fn law_handling<A, M>(s: PluginView<A>, message: M)
    ensures
        handler::handler_step::<A, M>(s, None) is Ignore,
        s.callback is Some ==> {
            &&& handler::handler_step(s, Some(message)) matches HandlerStepView::Invoke(invocation)
            &&& Some(invocation.callback) == s.callback
            &&& invocation.message == message
        },
        s.callback is None ==> {
            &&& handler::handler_step(s, Some(message)) matches HandlerStepView::Abort { reason }
            &&& reason == "[kdb-plugin] nats_msg_handler: no callback registered"@
        },
{
}

/// A callback that returned anything but an error has its message acknowledged,
/// that one and no other; an error is reported whole.
pub proof fn law_callback_outcomes<M>(message: M, qtype: int, error: Seq<char>)
    ensures
        qtype != -128 ==> handler::callback_step(message, qtype, None) == (CallbackStepView::Ack {
            message,
        }) && handler::callback_step(message, qtype, Some(error)) == (CallbackStepView::Ack {
            message,
        }),
        handler::callback_step(message, -128, Some(error)) matches CallbackStepView::Keep {
            report,
        } && numerals::says(report, Stream::Stderr, "[kdb-plugin] callback error: "@, error),
        handler::callback_step(message, -128, None) matches CallbackStepView::Keep { report }
            && numerals::says(
            report,
            Stream::Stderr,
            "[kdb-plugin] callback error: "@,
            "unknown"@,
        ),
{
}

/// A failed acknowledgement is reported whole, and a successful one not at all.
pub proof fn law_ack_outcomes(error: Seq<char>)
    ensures
        handler::ack_line(Ok(())) is None,
        handler::ack_line(Err(error)) is Some,
        numerals::says(
            handler::ack_line(Err(error))->0,
            Stream::Stderr,
            "[kdb-plugin] ack error: "@,
            error,
        ),
{
}

/// Every fatal outcome is told by a fixed beginning and the whole error.
pub proof fn law_abort_texts(error: Seq<char>)
    ensures
        numerals::splits(
            abort::abort_text(error),
            "called `Result::unwrap()` on an `Err` value: "@,
            error,
        ),
{
}

} // verus!
