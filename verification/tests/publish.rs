use kdb_plugin::connection::{nats_connect, ClientStep};
use kdb_plugin::console::{LogLine, Stream};
use kdb_plugin::jetstream::{jetstream_init, InitStep};
use kdb_plugin::plugin::Plugin;
use kdb_plugin::publish::{
    nats_publish, nats_publish_async, nats_publish_core, nats_publish_noack, publish_sent, AckUse,
    PublishJob, PublishMode, PublishStart, PublishStep, Transport, IPC_MODE,
};
use kdb_plugin::refusal::Refusal;
use kdb_plugin::value::QValue;

fn symbol(text: &str) -> QValue {
    QValue::Symbol(text.to_string())
}

fn assert_err(line: &LogLine, text: &str) {
    assert_eq!(line.stream, Stream::Stderr);
    assert_eq!(line.text, text);
}

fn connected() -> Plugin<u32> {
    let mut plugin = Plugin::new();
    nats_connect(&mut plugin, &symbol("localhost"), &QValue::Int(4222));
    plugin.dialed(Ok(())).unwrap();
    plugin
}

fn job(start: PublishStart<u64>) -> PublishJob {
    match start {
        PublishStart::Encode { job, payload, ipc_mode } => {
            assert_eq!(payload, 42);
            assert_eq!(ipc_mode, 3);
            job
        }
        PublishStart::Refused(_) => panic!("expected to be accepted"),
    }
}

fn refusal(start: PublishStart<u64>) -> Refusal {
    match start {
        PublishStart::Refused(refusal) => refusal,
        PublishStart::Encode { .. } => panic!("expected to be refused"),
    }
}

#[test]
fn ipc_mode_is_three() {
    assert_eq!(IPC_MODE, 3);
}

#[test]
fn subject_has_to_be_a_symbol() {
    assert_eq!(
        refusal(nats_publish(&QValue::Other, 42)).message(),
        "nats_publish: subject is required\0"
    );
    assert_eq!(
        refusal(nats_publish_core(&QValue::Int(1), 42)).message(),
        "nats_publish_core: subject is required\0"
    );
    assert_eq!(
        refusal(nats_publish_noack(&QValue::Long(1), 42)).message(),
        "nats_publish_noack: subject is required\0"
    );
    assert_eq!(
        refusal(nats_publish_async(&QValue::Other, 42)).message(),
        "nats_publish_async: subject is required\0"
    );
}

#[test]
fn modes_of_publishing() {
    let subject = symbol("trades.tick");
    let cases = [
        (
            job(nats_publish(&subject, 42)),
            PublishMode::Sync,
            Transport::Jetstream,
            AckUse::Wait,
        ),
        (
            job(nats_publish_core(&subject, 42)),
            PublishMode::Core,
            Transport::CoreNats,
            AckUse::Absent,
        ),
        (
            job(nats_publish_noack(&subject, 42)),
            PublishMode::Noack,
            Transport::Jetstream,
            AckUse::Drop,
        ),
        (
            job(nats_publish_async(&subject, 42)),
            PublishMode::Async,
            Transport::Jetstream,
            AckUse::Queue,
        ),
    ];
    let plugin = connected();
    for (job, mode, transport, ack) in cases {
        assert_eq!(job.mode, mode);
        match job.encoded(&plugin, Ok(vec![1, 0, 255])) {
            PublishStep::Send { client, request } => {
                assert!(matches!(client, ClientStep::Cached));
                assert_eq!(request.subject, "trades.tick");
                assert_eq!(request.payload, vec![1, 0, 255]);
                assert_eq!(request.transport, transport);
                assert_eq!(request.ack, ack);
            }
            PublishStep::Failed { .. } => panic!("expected to send"),
        }
    }
}

#[test]
fn nothing_is_sent_without_connect() {
    let plugin: Plugin<u32> = Plugin::new();
    match job(nats_publish(&symbol("s"), 42)).encoded(&plugin, Ok(Vec::new())) {
        PublishStep::Send { client, .. } => assert!(matches!(client, ClientStep::Abort { .. })),
        PublishStep::Failed { .. } => panic!("expected to abort"),
    }
}

#[test]
fn encode_errors() {
    let plugin = connected();
    let subject = symbol("s");
    let cases = [
        (job(nats_publish(&subject, 42)), "[kdb-plugin] nats_publish | encode error: bad"),
        (
            job(nats_publish_core(&subject, 42)),
            "[kdb-plugin] nats_publish_core | encode error: bad",
        ),
        (
            job(nats_publish_noack(&subject, 42)),
            "[kdb-plugin] nats_publish_noack | encode error: bad",
        ),
        (
            job(nats_publish_async(&subject, 42)),
            "[kdb-plugin] nats_publish_async | encode error: bad",
        ),
    ];
    for (job, text) in cases {
        match job.encoded(&plugin, Err("bad".to_string())) {
            PublishStep::Failed { report } => assert_err(&report, text),
            PublishStep::Send { .. } => panic!("expected to fail"),
        }
    }
}

#[test]
fn send_errors() {
    let lost = || Err("lost".to_string());
    assert_err(
        &publish_sent(PublishMode::Sync, lost()).unwrap(),
        "[kdb-plugin] nats_publish | error: lost",
    );
    assert_err(
        &publish_sent(PublishMode::Core, lost()).unwrap(),
        "[kdb-plugin] nats_publish_core | error: lost",
    );
    assert_err(
        &publish_sent(PublishMode::Noack, lost()).unwrap(),
        "[kdb-plugin] nats_publish_noack | error: lost",
    );
    assert_err(
        &publish_sent(PublishMode::Async, lost()).unwrap(),
        "[kdb-plugin] nats_publish_async | publish error: lost",
    );
    assert!(publish_sent(PublishMode::Sync, Ok(())).is_none());
    assert!(publish_sent(PublishMode::Core, Ok(())).is_none());
    assert!(publish_sent(PublishMode::Noack, Ok(())).is_none());
}

#[test]
fn stream_is_created_for_one_subject() {
    match jetstream_init(&connected(), &symbol("TRADES"), &symbol("trades.tick")) {
        InitStep::Create { client, request } => {
            assert!(matches!(client, ClientStep::Cached));
            assert_eq!(request.name, "TRADES");
            assert_eq!(request.subject, "trades.tick");
            assert_eq!(request.subjects(), vec!["trades.tick".to_string()]);
            let report = request.created(Ok(())).unwrap();
            assert_eq!(report.stream, Stream::Stdout);
            assert_eq!(
                report.text,
                "[kdb-plugin] jetstream_init | stream=TRADES subject=trades.tick"
            );
        }
        InitStep::Refused(_) => panic!("expected to create"),
    }
}

#[test]
fn failing_to_create_the_stream_is_fatal() {
    match jetstream_init(&connected(), &symbol("TRADES"), &symbol("trades.tick")) {
        InitStep::Create { request, .. } => match request.created(Err("TimedOut".to_string())) {
            Err(message) => assert_eq!(
                message,
                "called `Result::unwrap()` on an `Err` value: TimedOut"
            ),
            Ok(_) => panic!("expected to abort"),
        },
        InitStep::Refused(_) => panic!("expected to create"),
    }
}

#[test]
fn stream_arguments_have_to_be_symbols() {
    let plugin = connected();
    let message = |name: &QValue, subject: &QValue| match jetstream_init(&plugin, name, subject) {
        InitStep::Refused(refusal) => refusal.message(),
        InitStep::Create { .. } => panic!("expected to be refused"),
    };
    let name_required = "jetstream_init: stream_name is required\0";
    assert_eq!(message(&QValue::Other, &symbol("s")), name_required);
    assert_eq!(message(&QValue::Other, &QValue::Other), name_required);
    assert_eq!(
        message(&symbol("S"), &QValue::Int(1)),
        "jetstream_init: subject is required\0"
    );
}

#[test]
fn stream_needs_connect() {
    let plugin: Plugin<u32> = Plugin::new();
    match jetstream_init(&plugin, &symbol("S"), &symbol("s")) {
        InitStep::Create { client, .. } => assert!(matches!(client, ClientStep::Abort { .. })),
        InitStep::Refused(_) => panic!("expected to abort"),
    }
}
