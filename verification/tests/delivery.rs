use kdb_plugin::connection::nats_connect;
use kdb_plugin::consumer::{ConsumerAction, ReceiveStep};
use kdb_plugin::handler::{nats_msg_handler, CallbackStep, HandlerStep};
use kdb_plugin::plugin::Plugin;
use kdb_plugin::publish::{
    nats_publish, nats_publish_async, nats_publish_core, nats_publish_noack, PublishStart,
    PublishStep,
};
use kdb_plugin::subscribe::{nats_subscribe, PipeStep, RegisterStep, SubscribeStep};
use kdb_plugin::value::QValue;

fn symbol(text: &str) -> QValue {
    QValue::Symbol(text.to_string())
}

fn connected() -> Plugin<u32> {
    let mut plugin = Plugin::new();
    nats_connect(&mut plugin, &symbol("localhost"), &QValue::Int(4222));
    plugin.dialed(Ok(())).unwrap();
    plugin
}

fn published_bytes(start: PublishStart<u64>) -> Vec<u8> {
    let (job, payload) = match start {
        PublishStart::Encode { job, payload, .. } => (job, payload),
        PublishStart::Refused(_) => panic!("expected to encode"),
    };
    match job.encoded(&connected(), Ok(payload.to_be_bytes().to_vec())) {
        PublishStep::Send { request, .. } => request.payload,
        PublishStep::Failed { .. } => panic!("expected to send"),
    }
}

/// Delivers the messages with these payloads; what happens to each, in order.
fn delivered(payloads: Vec<Vec<u8>>, qtype: i8) -> Vec<String> {
    let mut plugin = connected();
    let all = symbol("all");
    let step = nats_subscribe(&mut plugin, &all, &all, &all, &all, &symbol("on_trade"));
    let subscription = match step {
        SubscribeStep::OpenPipe(subscription) => subscription,
        _ => panic!("expected to open the pipe"),
    };
    let piped = match subscription.pipe_opened(&mut plugin, 0, 3, 4) {
        PipeStep::Register(piped) => piped,
        PipeStep::Refused(_) => panic!("expected to register"),
    };
    let plan = match piped.registered(&plugin, true) {
        RegisterStep::Start { plan, .. } => plan,
        RegisterStep::Refused(_) => panic!("expected to start"),
    };

    let mut events: Vec<String> = Vec::new();
    for payload in payloads {
        let actions = match plan.message_received::<(), u64>(Some(Ok((payload, ())))) {
            ReceiveStep::Deliver { actions, .. } => actions,
            _ => panic!("expected to deliver"),
        };
        let bytes = match &actions[1] {
            ConsumerAction::Decode { bytes } => bytes.clone(),
            _ => panic!("expected to decode"),
        };
        let value = u64::from_be_bytes(bytes.try_into().unwrap());
        let value = match plan.message_decoded(Ok(value)).pop() {
            Some(ConsumerAction::Forward { write_fd: 4, value }) => value,
            _ => panic!("expected to forward"),
        };
        let invocation = match nats_msg_handler(&plugin, Some(value)) {
            HandlerStep::Invoke(invocation) => invocation,
            _ => panic!("expected to call back"),
        };
        events.push(format!("{}[{}]", invocation.callback, invocation.message));
        if let CallbackStep::Ack { message } = invocation.returned(qtype, None) {
            events.push(format!("ack {}", message));
        }
    }
    events
}

#[test]
fn callback_receives_what_was_published() {
    let subject = symbol("trades.tick");
    let payloads = vec![
        published_bytes(nats_publish(&subject, 1)),
        published_bytes(nats_publish_core(&subject, u64::MAX)),
        published_bytes(nats_publish_noack(&subject, 0)),
        published_bytes(nats_publish_async(&subject, 0x0102_0304)),
    ];
    assert_eq!(
        delivered(payloads, kxkdb::qtype::ERROR),
        vec![
            "on_trade[1]",
            "on_trade[18446744073709551615]",
            "on_trade[0]",
            "on_trade[16909060]",
        ]
    );
}

#[test]
fn acknowledgement_follows_its_callback() {
    let payloads = vec![7u64.to_be_bytes().to_vec(), 8u64.to_be_bytes().to_vec()];
    assert_eq!(
        delivered(payloads, kxkdb::qtype::TABLE),
        vec!["on_trade[7]", "ack 7", "on_trade[8]", "ack 8"]
    );
}
