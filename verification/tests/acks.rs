use kdb_plugin::acks::{
    auto_flush_report, count_failures, flush_report, nats_flush, nats_set_flush_size, FlushStep,
};
use kdb_plugin::console::{LogLine, Stream};
use kdb_plugin::plugin::Plugin;
use kdb_plugin::publish::{publish_async_sent, QueueStep};
use kdb_plugin::value::QValue;

fn assert_line(line: &LogLine, stream: Stream, text: &str) {
    assert_eq!(line.stream, stream);
    assert_eq!(line.text, text);
}

/// Queues an acknowledgement; the batch that it sets off, if it does.
fn queue(plugin: &mut Plugin<u32>, ack: u32) -> Option<Vec<u32>> {
    match publish_async_sent(plugin, Ok(ack)) {
        QueueStep::Queued => None,
        QueueStep::Flush { batch } => Some(batch),
        QueueStep::Failed { .. } => panic!("expected to be queued"),
    }
}

/// Flushes; what was queued.
fn flush(plugin: &mut Plugin<u32>) -> Vec<u32> {
    match nats_flush(plugin, &QValue::Other) {
        FlushStep::Nothing { report } => {
            assert_line(&report, Stream::Stdout, "[kdb-plugin] nats_flush | no pending acks");
            Vec::new()
        }
        FlushStep::Await { batch } => {
            assert!(!batch.is_empty());
            batch
        }
    }
}

#[test]
fn flush_size_of_longs_and_ints() {
    let mut plugin: Plugin<u32> = Plugin::new();
    assert_eq!(plugin.flush_size(), 0);
    let report = nats_set_flush_size(&mut plugin, &QValue::Long(1000));
    assert_line(
        &report,
        Stream::Stdout,
        "[kdb-plugin] nats_set_flush_size | auto-flush after 1000 acks",
    );
    assert_eq!(plugin.flush_size(), 1000);
    nats_set_flush_size(&mut plugin, &QValue::Int(25));
    assert_eq!(plugin.flush_size(), 25);
    let report = nats_set_flush_size(&mut plugin, &QValue::Int(0));
    assert_line(
        &report,
        Stream::Stdout,
        "[kdb-plugin] nats_set_flush_size | auto-flush after 0 acks (disabled)",
    );
    assert_eq!(plugin.flush_size(), 0);
}

#[test]
fn negative_flush_size_wraps() {
    let mut plugin: Plugin<u32> = Plugin::new();
    nats_set_flush_size(&mut plugin, &QValue::Long(-1));
    assert_eq!(plugin.flush_size(), usize::MAX);
    nats_set_flush_size(&mut plugin, &QValue::Int(-2));
    assert_eq!(plugin.flush_size(), usize::MAX - 1);
    nats_set_flush_size(&mut plugin, &QValue::Long(i64::MIN));
    assert_eq!(plugin.flush_size(), i64::MIN as usize);
}

#[test]
fn negative_flush_size_never_flushes() {
    for n in [QValue::Int(-1), QValue::Int(i32::MIN), QValue::Long(-1), QValue::Long(-1000)] {
        let mut plugin: Plugin<u32> = Plugin::new();
        nats_set_flush_size(&mut plugin, &n);
        assert!(plugin.flush_size() > isize::MAX as usize);
        for i in 0..100 {
            assert_eq!(queue(&mut plugin, i), None);
        }
        assert_eq!(flush(&mut plugin), (0..100).collect::<Vec<u32>>());
    }
}

#[test]
fn flush_size_of_anything_else_is_refused() {
    let mut plugin: Plugin<u32> = Plugin::new();
    nats_set_flush_size(&mut plugin, &QValue::Int(5));
    for n in [QValue::Other, QValue::Symbol("7".to_string())] {
        let report = nats_set_flush_size(&mut plugin, &n);
        assert_line(
            &report,
            Stream::Stderr,
            "[kdb-plugin] nats_set_flush_size | expected int or long",
        );
        assert_eq!(plugin.flush_size(), 5);
    }
}

#[test]
fn every_third_ack_flushes() {
    let mut plugin: Plugin<u32> = Plugin::new();
    nats_set_flush_size(&mut plugin, &QValue::Int(3));
    let batches: Vec<Vec<u32>> = (0..8).filter_map(|i| queue(&mut plugin, i)).collect();
    assert_eq!(batches, vec![vec![0, 1, 2], vec![3, 4, 5]]);
    assert_eq!(*plugin.pending(), vec![6, 7]);
    assert_eq!(flush(&mut plugin), vec![6, 7]);
}

#[test]
fn threshold_of_one_flushes_each() {
    let mut plugin: Plugin<u32> = Plugin::new();
    nats_set_flush_size(&mut plugin, &QValue::Long(1));
    assert_eq!(queue(&mut plugin, 4), Some(vec![4]));
    assert_eq!(queue(&mut plugin, 5), Some(vec![5]));
}

#[test]
fn nothing_flushes_when_disabled() {
    let mut plugin: Plugin<u32> = Plugin::new();
    for i in 0..1000 {
        assert_eq!(queue(&mut plugin, i), None);
    }
    assert_eq!(flush(&mut plugin).len(), 1000);
    assert_eq!(flush(&mut plugin).len(), 0);
}

#[test]
fn lowered_threshold_flushes_all_that_waits() {
    let mut plugin: Plugin<u32> = Plugin::new();
    for i in 0..5 {
        queue(&mut plugin, i);
    }
    nats_set_flush_size(&mut plugin, &QValue::Int(2));
    assert_eq!(plugin.pending().len(), 5);
    assert_eq!(queue(&mut plugin, 5), Some(vec![0, 1, 2, 3, 4, 5]));
    assert!(plugin.pending().is_empty());
}

#[test]
fn each_ack_is_awaited_once_in_order() {
    let mut plugin: Plugin<u32> = Plugin::new();
    let mut awaited: Vec<u32> = Vec::new();
    for i in 0..20u32 {
        if i == 7 {
            nats_set_flush_size(&mut plugin, &QValue::Int(4));
        }
        if i == 13 {
            awaited.extend(flush(&mut plugin));
        }
        awaited.extend(queue(&mut plugin, i).unwrap_or_default());
    }
    awaited.extend(flush(&mut plugin));
    assert_eq!(awaited, (0..20).collect::<Vec<u32>>());
}

#[test]
fn failed_publish_queues_nothing() {
    let mut plugin: Plugin<u32> = Plugin::new();
    nats_set_flush_size(&mut plugin, &QValue::Int(1));
    match publish_async_sent(&mut plugin, Err("no responders".to_string())) {
        QueueStep::Failed { report } => assert_line(
            &report,
            Stream::Stderr,
            "[kdb-plugin] nats_publish_async | publish error: no responders",
        ),
        _ => panic!("expected to fail"),
    }
    assert!(plugin.pending().is_empty());
}

#[test]
fn flush_reports() {
    assert_line(
        &flush_report(&vec![true; 1000]),
        Stream::Stdout,
        "[kdb-plugin] nats_flush | 1000 acks confirmed",
    );
    assert_line(
        &flush_report(&vec![true, false, true, false, true]),
        Stream::Stderr,
        "[kdb-plugin] nats_flush | 2/5 acks failed",
    );
    assert_line(
        &flush_report(&vec![false]),
        Stream::Stderr,
        "[kdb-plugin] nats_flush | 1/1 acks failed",
    );
}

#[test]
fn auto_flush_reports_failures_only() {
    assert!(auto_flush_report(&vec![true, true]).is_none());
    assert_line(
        &auto_flush_report(&vec![false, true, true]).unwrap(),
        Stream::Stderr,
        "[kdb-plugin] nats_publish_async | auto-flush: 1/3 acks failed",
    );
}

#[test]
fn failures_are_counted() {
    assert_eq!(count_failures(&Vec::new()), 0);
    assert_eq!(count_failures(&vec![true, true, true]), 0);
    assert_eq!(count_failures(&vec![false, false]), 2);
    assert_eq!(count_failures(&vec![true, false, true]), 1);
}
