//! The queue of acknowledgements that pipelined publishing leaves to be awaited.

use vstd::prelude::*;
use crate::console;
use crate::console::{LogLine, LogLineView};
use crate::plugin::{Plugin, PluginView};
use crate::text;
use crate::value::{QValue, QValueView};

verus! {

/// The threshold that the argument of `nats_set_flush_size` asks for: a long or
/// an int, reduced to the range of `usize`.
pub open spec fn requested_flush_size(n: QValueView) -> Option<nat> {
    match n {
        QValueView::Long(j) => Some((j % (usize::MAX + 1)) as nat),
        QValueView::Int(i) => Some((i % (usize::MAX + 1)) as nat),
        _ => None,
    }
}

/// The state after `nats_set_flush_size`.
pub open spec fn after_set_flush_size<A>(s: PluginView<A>, n: QValueView) -> PluginView<A> {
    match requested_flush_size(n) {
        Some(size) => PluginView { flush_size: size, ..s },
        None => s,
    }
}

/// What `nats_set_flush_size` prints.
pub open spec fn flush_size_report(n: QValueView) -> LogLineView {
    match requested_flush_size(n) {
        Some(size) => console::out_line(
            "[kdb-plugin] nats_set_flush_size | auto-flush after "@ + text::natural_text(size)
                + " acks"@ + if size == 0 {
                " (disabled)"@
            } else {
                Seq::<char>::empty()
            },
        ),
        None => console::err_line("[kdb-plugin] nats_set_flush_size | expected int or long"@),
    }
}

/// A cast from `i64` to `usize` keeps the value modulo the size of the range.
proof fn lemma_long_as_usize(v: i64)
    ensures
        (#[verifier::truncate] (v as usize)) as int == (v as int) % (usize::MAX + 1),
{
    let modulus: int = usize::MAX + 1;
    if usize::BITS == 64 {
        assert(v < 0 ==> (#[verifier::truncate] (v as usize)) == v + 0x1_0000_0000_0000_0000)
            by (bit_vector)
            requires
                usize::BITS == 64,
        ;
        assert(v as int % modulus == v as int % 0x1_0000_0000_0000_0000) by (nonlinear_arith)
            requires
                modulus == 0x1_0000_0000_0000_0000,
        ;
    } else {
        assert((#[verifier::truncate] (v as usize)) == v % 0x1_0000_0000) by (bit_vector)
            requires
                usize::BITS == 32,
        ;
        assert(v as int % modulus == v as int % 0x1_0000_0000) by (nonlinear_arith)
            requires
                modulus == 0x1_0000_0000,
        ;
    }
}

/// A cast from `i32` to `usize` keeps the value modulo the size of the range.
proof fn lemma_int_as_usize(v: i32)
    ensures
        (#[verifier::truncate] (v as usize)) as int == (v as int) % (usize::MAX + 1),
{
    let wide: i64 = v as i64;
    assert((#[verifier::truncate] (v as usize)) == (#[verifier::truncate] (wide as usize)))
        by (bit_vector)
        requires
            wide == v,
    ;
    lemma_long_as_usize(wide);
}

/// Sets how many queued acknowledgements set off a flush; 0 turns that off.
pub fn nats_set_flush_size<A>(plugin: &mut Plugin<A>, n: &QValue) -> (report: LogLine)
    ensures
        final(plugin)@ == after_set_flush_size(old(plugin)@, n@),
        old(plugin)@.wf() ==> final(plugin)@.wf(),
        report@ == flush_size_report(n@),
{
    let size: usize = match n.get_long() {
        Some(j) => {
            proof {
                lemma_long_as_usize(j);
            }
            #[verifier::truncate]
            (j as usize)
        },
        None => match n.get_int() {
            Some(i) => {
                proof {
                    lemma_int_as_usize(i);
                }
                #[verifier::truncate]
                (i as usize)
            },
            None => {
                let text = "[kdb-plugin] nats_set_flush_size | expected int or long".to_string();
                return LogLine::to_stderr(text);
            },
        },
    };
    plugin.set_flush_size(size);

    let mut text = "[kdb-plugin] nats_set_flush_size | auto-flush after ".to_string();
    text::append_natural(&mut text, size as u64);
    text.append(" acks");
    if size == 0 {
        text.append(" (disabled)");
    }
    assert(text@ + Seq::<char>::empty() == text@);
    LogLine::to_stdout(text)
}

/// Whether queueing one more acknowledgement sets off a flush.
pub open spec fn flush_due<A>(s: PluginView<A>) -> bool {
    s.flush_size > 0 && s.pending.len() + 1 >= s.flush_size
}

/// The state after `ack` was queued.
pub open spec fn after_queue<A>(s: PluginView<A>, ack: A) -> PluginView<A> {
    PluginView {
        pending: if flush_due(s) {
            Seq::empty()
        } else {
            s.pending.push(ack)
        },
        ..s
    }
}

/// The acknowledgements to await once `ack` was queued.
pub open spec fn queue_batch<A>(s: PluginView<A>, ack: A) -> Seq<A> {
    if flush_due(s) {
        s.pending.push(ack)
    } else {
        Seq::empty()
    }
}

/// Queues an acknowledgement. Where that fills the queue to the threshold, the
/// queue is emptied and its contents are handed out to be awaited.
pub fn queue_ack<A>(plugin: &mut Plugin<A>, ack: A) -> (batch: Option<Vec<A>>)
    ensures
        final(plugin)@ == after_queue(old(plugin)@, ack),
        old(plugin)@.wf() ==> final(plugin)@.wf(),
        batch is Some <==> flush_due(old(plugin)@),
        batch matches Some(acks) ==> acks@ == queue_batch(old(plugin)@, ack),
{
    plugin.push_pending(ack);
    if plugin.flush_size() > 0 && plugin.pending().len() >= plugin.flush_size() {
        Some(plugin.take_pending())
    } else {
        None
    }
}

/// What `nats_flush` does next.
pub enum FlushStep<A> {
    /// Nothing is queued: print `report`.
    Nothing { report: LogLine },
    /// Await all of `batch`, and print the [`flush_report`] of the outcomes.
    Await { batch: Vec<A> },
}

/// The state after `nats_flush`.
pub open spec fn after_flush<A>(s: PluginView<A>) -> PluginView<A> {
    PluginView { pending: Seq::empty(), ..s }
}

/// Empties the queue and hands its contents out to be awaited.
pub fn nats_flush<A>(plugin: &mut Plugin<A>, _dummy: &QValue) -> (step: FlushStep<A>)
    ensures
        final(plugin)@ == after_flush(old(plugin)@),
        old(plugin)@.wf() ==> final(plugin)@.wf(),
        match step {
            FlushStep::Nothing { report } => {
                &&& old(plugin)@.pending.len() == 0
                &&& report@ == console::out_line("[kdb-plugin] nats_flush | no pending acks"@)
            },
            FlushStep::Await { batch } => {
                &&& old(plugin)@.pending.len() > 0
                &&& batch@ == old(plugin)@.pending
            },
        },
{
    let batch = plugin.take_pending();
    if batch.len() == 0 {
        let text = "[kdb-plugin] nats_flush | no pending acks".to_string();
        FlushStep::Nothing { report: LogLine::to_stdout(text) }
    } else {
        FlushStep::Await { batch }
    }
}

/// How many of the awaited acknowledgements failed.
pub open spec fn failures(results: Seq<bool>) -> nat {
    results.filter(|ok: bool| !ok).len()
}

/// Counts the acknowledgements that failed.
pub fn count_failures(results: &Vec<bool>) -> (n: usize)
    ensures
        n == failures(results@),
        n <= results.len(),
{
    let mut n: usize = 0;
    let mut i: usize = 0;
    while i < results.len()
        invariant
            i <= results.len(),
            n <= i,
            n == failures(results@.take(i as int)),
        decreases results.len() - i,
    {
        proof {
            reveal(Seq::filter);
            assert(results@.take(i + 1).drop_last() == results@.take(i as int));
        }
        if !results[i] {
            n = n + 1;
        }
        i = i + 1;
    }
    assert(results@.take(i as int) == results@);
    n
}

/// Appends `failed/total acks failed` to `out`.
fn append_failures(out: &mut String, failed: usize, total: usize)
    ensures
        final(out)@ == old(out)@ + text::natural_text(failed as nat) + "/"@ + text::natural_text(
            total as nat,
        ) + " acks failed"@,
{
    text::append_natural(out, failed as u64);
    out.append("/");
    text::append_natural(out, total as u64);
    out.append(" acks failed");
}

/// What `nats_flush` prints once `results` came back.
pub open spec fn flush_line(results: Seq<bool>) -> LogLineView {
    if failures(results) == 0 {
        console::out_line(
            "[kdb-plugin] nats_flush | "@ + text::natural_text(results.len())
                + " acks confirmed"@,
        )
    } else {
        console::err_line(
            "[kdb-plugin] nats_flush | "@ + text::natural_text(failures(results)) + "/"@
                + text::natural_text(results.len()) + " acks failed"@,
        )
    }
}

/// The summary of a flush whose acknowledgements came out as `results`.
pub fn flush_report(results: &Vec<bool>) -> (report: LogLine)
    ensures
        report@ == flush_line(results@),
{
    let failed: usize = count_failures(results);
    let mut text = "[kdb-plugin] nats_flush | ".to_string();
    if failed == 0 {
        text::append_natural(&mut text, results.len() as u64);
        text.append(" acks confirmed");
        LogLine::to_stdout(text)
    } else {
        append_failures(&mut text, failed, results.len());
        LogLine::to_stderr(text)
    }
}

/// What an automatic flush prints once `results` came back: nothing where all
/// was confirmed.
pub open spec fn auto_flush_line(results: Seq<bool>) -> Option<LogLineView> {
    if failures(results) == 0 {
        None
    } else {
        Some(
            console::err_line(
                "[kdb-plugin] nats_publish_async | auto-flush: "@ + text::natural_text(
                    failures(results),
                ) + "/"@ + text::natural_text(results.len()) + " acks failed"@,
            ),
        )
    }
}

/// The report on an automatic flush whose acknowledgements came out as `results`.
pub fn auto_flush_report(results: &Vec<bool>) -> (report: Option<LogLine>)
    ensures
        console::report_view(report) == auto_flush_line(results@),
{
    let failed: usize = count_failures(results);
    if failed == 0 {
        None
    } else {
        let mut text = "[kdb-plugin] nats_publish_async | auto-flush: ".to_string();
        append_failures(&mut text, failed, results.len());
        Some(LogLine::to_stderr(text))
    }
}

} // verus!
