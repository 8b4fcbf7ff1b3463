use kdb_plugin::connection::{nats_connect, ClientStep};
use kdb_plugin::console::{LogLine, Stream};
use kdb_plugin::consumer::{
    AttachStage, AttachStep, ConsumerAction, ConsumerPlan, ReceiveStep,
};
use kdb_plugin::handler::{
    ack_finished, nats_msg_handler, CallbackStep, HandlerStep, Invocation,
};
use kdb_plugin::plugin::Plugin;
use kdb_plugin::policy::{parse_policy, DeliverPolicy};
use kdb_plugin::refusal::Refusal;
use kdb_plugin::subscribe::{
    nats_subscribe, PipeStep, PipedSubscription, RegisterStep, SubscribeStep, Subscription,
};
use kdb_plugin::value::QValue;

fn symbol(text: &str) -> QValue {
    QValue::Symbol(text.to_string())
}

fn assert_line(line: &LogLine, stream: Stream, text: &str) {
    assert_eq!(line.stream, stream);
    assert_eq!(line.text, text);
}

fn connected() -> Plugin<u32> {
    let mut plugin = Plugin::new();
    nats_connect(&mut plugin, &symbol("localhost"), &QValue::Int(4222));
    plugin.dialed(Ok(())).unwrap();
    plugin
}

fn call(plugin: &mut Plugin<u32>, policy: &str, callback: &str) -> SubscribeStep {
    nats_subscribe(
        plugin,
        &symbol("TRADES"),
        &symbol("trades.tick"),
        &symbol("my_consumer"),
        &symbol(policy),
        &symbol(callback),
    )
}

fn subscription(plugin: &mut Plugin<u32>, policy: &str) -> Subscription {
    match call(plugin, policy, "on_trade") {
        SubscribeStep::OpenPipe(subscription) => subscription,
        _ => panic!("expected to open the pipe"),
    }
}

fn piped(plugin: &mut Plugin<u32>, policy: &str) -> PipedSubscription {
    match subscription(plugin, policy).pipe_opened(plugin, 0, 8, 9) {
        PipeStep::Register(piped) => piped,
        PipeStep::Refused(_) => panic!("expected to register"),
    }
}

fn plan(policy: &str) -> ConsumerPlan {
    let mut plugin = connected();
    match piped(&mut plugin, policy).registered(&plugin, true) {
        RegisterStep::Start { plan, .. } => plan,
        RegisterStep::Refused(_) => panic!("expected to start"),
    }
}

#[test]
fn policies_of_symbols() {
    let policy = |text: &str| parse_policy(&text.to_string());
    assert_eq!(policy("all"), Some(DeliverPolicy::All));
    assert_eq!(policy("last"), Some(DeliverPolicy::Last));
    assert_eq!(policy("new"), Some(DeliverPolicy::New));
    assert_eq!(policy("last_per_subject"), Some(DeliverPolicy::LastPerSubject));
    assert_eq!(policy("All"), None);
    assert_eq!(policy("last "), None);
    assert_eq!(policy(""), None);
}

#[test]
fn arguments_have_to_be_symbols() {
    let messages = [
        "nats_subscribe: stream_name is required\0",
        "nats_subscribe: subject is required\0",
        "nats_subscribe: consumer_name is required\0",
        "nats_subscribe: deliver_policy is required (`all `last `new `last_per_subject)\0",
        "nats_subscribe: callback is required\0",
    ];
    for (i, message) in messages.iter().enumerate() {
        let mut plugin = connected();
        // The first argument that is no symbol is reported, whatever follows.
        let args: Vec<QValue> =
            (0..5).map(|j| if j < i { symbol("all") } else { QValue::Other }).collect();
        let step =
            nats_subscribe(&mut plugin, &args[0], &args[1], &args[2], &args[3], &args[4]);
        match step {
            SubscribeStep::Refused(refusal) => assert_eq!(refusal.message(), *message),
            _ => panic!("expected to be refused"),
        }
        assert!(plugin.callback().is_none());
    }
}

#[test]
fn unknown_policy_is_refused() {
    let mut plugin = connected();
    match call(&mut plugin, "first", "on_trade") {
        SubscribeStep::Refused(refusal) => {
            assert_eq!(refusal, Refusal::SubscribeUnknownPolicy);
            assert_eq!(
                refusal.message(),
                "nats_subscribe: unknown deliver_policy — use `all `last `new `last_per_subject\0"
            );
        }
        _ => panic!("expected to be refused"),
    }
    // Whatever the callback's name is.
    assert!(matches!(call(&mut plugin, "first", "on\0trade"), SubscribeStep::Refused(_)));
    assert!(plugin.callback().is_none());
    // The process may still subscribe.
    subscription(&mut plugin, "all");
}

#[test]
fn subscription_of_arguments() {
    let mut plugin = connected();
    let sub = subscription(&mut plugin, "last_per_subject");
    assert_eq!(sub.stream_name, "TRADES");
    assert_eq!(sub.subject, "trades.tick");
    assert_eq!(sub.consumer_name, "my_consumer");
    assert_eq!(sub.deliver_policy, DeliverPolicy::LastPerSubject);
    assert_eq!(sub.callback, "on_trade");
    assert_eq!(plugin.callback().unwrap(), "on_trade");
    assert_eq!(plugin.pipe_write_fd(), -1);
}

#[test]
fn second_subscription_aborts() {
    let mut plugin = connected();
    subscription(&mut plugin, "all");
    match call(&mut plugin, "new", "other") {
        SubscribeStep::Abort { message, rejected } => {
            assert_eq!(message, "[kdb-plugin] nats_subscribe already called");
            assert_eq!(rejected, "other");
        }
        _ => panic!("expected to abort"),
    }
    assert_eq!(plugin.callback().unwrap(), "on_trade");
    // Bad arguments are still refused.
    assert!(matches!(call(&mut plugin, "no", "other"), SubscribeStep::Refused(_)));
}

#[test]
fn failing_pipe_is_refused() {
    let mut plugin = connected();
    match subscription(&mut plugin, "all").pipe_opened(&mut plugin, -1, -1, -1) {
        PipeStep::Refused(refusal) => {
            assert_eq!(refusal.message(), "nats_subscribe: pipe() failed\0")
        }
        PipeStep::Register(_) => panic!("expected to be refused"),
    }
    assert_eq!(plugin.pipe_write_fd(), -1);
    // The callback was taken all the same.
    assert!(matches!(call(&mut plugin, "all", "on_trade"), SubscribeStep::Abort { .. }));
}

#[test]
fn pipe_ends() {
    let mut plugin = connected();
    let piped = piped(&mut plugin, "all");
    assert_eq!((piped.read_fd, piped.write_fd), (8, 9));
    assert_eq!(plugin.pipe_write_fd(), 9);
}

#[test]
fn failing_registration_is_refused() {
    let mut plugin = connected();
    match piped(&mut plugin, "all").registered(&plugin, false) {
        RegisterStep::Refused(refusal) => assert_eq!(
            refusal.message(),
            "nats_subscribe: register_callback (sd1) failed\0"
        ),
        RegisterStep::Start { .. } => panic!("expected to be refused"),
    }
}

#[test]
fn consumer_of_a_subscription() {
    let mut plugin = connected();
    match piped(&mut plugin, "new").registered(&plugin, true) {
        RegisterStep::Start { client, plan, report } => {
            assert!(matches!(client, ClientStep::Cached));
            assert_eq!(plan.stream_name, "TRADES");
            assert_eq!(plan.consumer_name, "my_consumer");
            assert_eq!(plan.durable_name.as_deref(), Some("my_consumer"));
            assert_eq!(plan.filter_subject, "trades.tick");
            assert_eq!(plan.deliver_policy, DeliverPolicy::New);
            assert_eq!(plan.write_fd, 9);
            assert_line(
                &report,
                Stream::Stdout,
                "[kdb-plugin] nats_subscribe | callback=`on_trade",
            );
        }
        RegisterStep::Refused(_) => panic!("expected to start"),
    }
}

/// What a stage that yields a value reports.
fn succeeded(plan: &ConsumerPlan, stage: AttachStage) -> Option<LogLine> {
    match plan.stage_ended(stage, Ok(31u64)) {
        AttachStep::Next { value, report, next } => {
            assert_eq!(value, 31);
            assert_eq!(next, stage.next());
            report
        }
        AttachStep::Abort { .. } => panic!("expected to go on"),
    }
}

#[test]
fn stages_in_order() {
    let plan = plan("all");
    let mut seen: Vec<AttachStage> = Vec::new();
    let mut stage = Some(AttachStage::first());
    while let Some(current) = stage {
        seen.push(current);
        stage = match plan.stage_ended(current, Ok(())) {
            AttachStep::Next { next, .. } => next,
            AttachStep::Abort { .. } => panic!("expected to go on"),
        };
    }
    assert_eq!(
        seen,
        vec![
            AttachStage::Runtime,
            AttachStage::Stream,
            AttachStage::Consumer,
            AttachStage::Messages,
        ]
    );
}

#[test]
fn stages_that_succeed() {
    let plan = plan("all");
    assert_line(
        &succeeded(&plan, AttachStage::Runtime).unwrap(),
        Stream::Stdout,
        "[kdb-plugin] nats_subscribe | consumer thread started",
    );
    assert!(succeeded(&plan, AttachStage::Stream).is_none());
    assert!(succeeded(&plan, AttachStage::Consumer).is_some());
    assert!(succeeded(&plan, AttachStage::Messages).is_none());
}

#[test]
fn stages_that_fail_are_fatal() {
    let stages = [
        AttachStage::Runtime,
        AttachStage::Stream,
        AttachStage::Consumer,
        AttachStage::Messages,
    ];
    for stage in stages {
        match plan("all").stage_ended::<u64>(stage, Err("NotFound".to_string())) {
            AttachStep::Abort { message } => assert_eq!(
                message,
                "called `Result::unwrap()` on an `Err` value: NotFound"
            ),
            AttachStep::Next { .. } => panic!("expected to abort"),
        }
    }
}

#[test]
fn thread_ends_with_the_messages() {
    let step = plan("all").message_received::<u64, u64>(None);
    assert!(matches!(step, ReceiveStep::End));
}

#[test]
fn failing_to_receive_is_fatal() {
    match plan("all").message_received::<u64, u64>(Some(Err("MissingHeartbeat".to_string()))) {
        ReceiveStep::Abort { message } => assert_eq!(
            message,
            "called `Result::unwrap()` on an `Err` value: MissingHeartbeat"
        ),
        _ => panic!("expected to abort"),
    }
}

/// What is done about a message that arrives with `payload`.
fn arrived(plan: &ConsumerPlan, payload: Vec<u8>) -> Vec<ConsumerAction<u64>> {
    match plan.message_received(Some(Ok((payload, 55u64)))) {
        ReceiveStep::Deliver { handle, actions } => {
            assert_eq!(handle, 55);
            actions
        }
        _ => panic!("expected to deliver"),
    }
}

#[test]
fn attached_line_names_the_policy() {
    let cases = [
        ("all", "All"),
        ("last", "Last"),
        ("new", "New"),
        ("last_per_subject", "LastPerSubject"),
    ];
    for (policy, name) in cases {
        let expected = format!(
            "[kdb-plugin] nats_subscribe | stream=TRADES subject=trades.tick \
             consumer=my_consumer policy={}",
            name
        );
        let report = succeeded(&plan(policy), AttachStage::Consumer).unwrap();
        assert_line(&report, Stream::Stdout, &expected);
    }
}

#[test]
fn consumer_needs_connect() {
    let mut plugin: Plugin<u32> = Plugin::new();
    match piped(&mut plugin, "all").registered(&plugin, true) {
        RegisterStep::Start { client, .. } => {
            assert!(matches!(client, ClientStep::Abort { .. }))
        }
        RegisterStep::Refused(_) => panic!("expected to abort"),
    }
}

#[test]
fn arriving_message_is_decoded_under_a_lock() {
    let actions = arrived(&plan("all"), vec![1, 2, 3]);
    assert_eq!(actions.len(), 2);
    assert!(matches!(actions[0], ConsumerAction::PinSymbols));
    match &actions[1] {
        ConsumerAction::Decode { bytes } => assert_eq!(*bytes, vec![1, 2, 3]),
        _ => panic!("expected to decode"),
    }
}

#[test]
fn decoded_message_is_forwarded() {
    let actions = plan("all").message_decoded(Ok(77u64));
    assert_eq!(actions.len(), 2);
    assert!(matches!(actions[0], ConsumerAction::UnpinSymbols));
    assert!(matches!(actions[1], ConsumerAction::Forward { write_fd: 9, value: 77 }));
}

#[test]
fn undecodable_message_is_reported() {
    let actions = plan("all").message_decoded::<u64>(Err("failed to decode".to_string()));
    assert_eq!(actions.len(), 2);
    assert!(matches!(actions[0], ConsumerAction::UnpinSymbols));
    match &actions[1] {
        ConsumerAction::Print { report } => assert_line(
            report,
            Stream::Stderr,
            "[kdb-plugin] nats_subscribe | decode error: failed to decode",
        ),
        _ => panic!("expected a report"),
    }
}

#[test]
fn forwards_keep_the_order() {
    let plan = plan("all");
    let outcomes = [Ok(1u64), Err("bad".to_string()), Ok(2), Ok(3), Err("bad".to_string())];
    let mut locks = 0;
    let mut values: Vec<u64> = Vec::new();
    for outcome in outcomes {
        let mut actions = arrived(&plan, Vec::new());
        actions.extend(plan.message_decoded(outcome));
        for action in actions {
            match action {
                ConsumerAction::PinSymbols => locks += 1,
                ConsumerAction::UnpinSymbols => locks -= 1,
                ConsumerAction::Decode { .. } => assert_eq!(locks, 1),
                ConsumerAction::Forward { value, .. } => values.push(value),
                ConsumerAction::Print { .. } => {}
            }
        }
        assert_eq!(locks, 0);
    }
    assert_eq!(values, vec![1, 2, 3]);
}

#[test]
fn handler_calls_the_registered_callback() {
    let mut plugin = connected();
    subscription(&mut plugin, "all");
    match nats_msg_handler(&plugin, Some(5u64)) {
        HandlerStep::Invoke(invocation) => {
            assert_eq!(invocation.callback, "on_trade");
            assert_eq!(invocation.message, 5);
            match invocation.returned(kxkdb::qtype::NULL, None) {
                CallbackStep::Ack { message } => assert_eq!(message, 5),
                CallbackStep::Keep { .. } => panic!("expected to acknowledge"),
            }
        }
        _ => panic!("expected to call back"),
    }
    assert!(matches!(nats_msg_handler::<u32, u64>(&plugin, None), HandlerStep::Ignore));
}

#[test]
fn handler_without_callback_aborts() {
    let plugin = connected();
    match nats_msg_handler(&plugin, Some(5u64)) {
        HandlerStep::Abort { reason } => {
            assert_eq!(reason, "[kdb-plugin] nats_msg_handler: no callback registered")
        }
        _ => panic!("expected to abort"),
    }
    assert!(matches!(nats_msg_handler::<u32, u64>(&plugin, None), HandlerStep::Ignore));
}

fn invocation() -> Invocation<u64> {
    Invocation { callback: "on_trade".to_string(), message: 5 }
}

#[test]
fn only_success_is_acknowledged() {
    for qtype in i8::MIN..=i8::MAX {
        let step = invocation().returned(qtype, None);
        assert_eq!(
            matches!(step, CallbackStep::Ack { message: 5 }),
            qtype != kxkdb::qtype::ERROR
        );
    }
}

#[test]
fn callback_errors_are_reported() {
    let text = |error: Option<&str>| {
        match invocation().returned(kxkdb::qtype::ERROR, error.map(|e| e.to_string())) {
            CallbackStep::Keep { report } => report,
            CallbackStep::Ack { .. } => panic!("expected to keep the message"),
        }
    };
    assert_line(&text(Some("type")), Stream::Stderr, "[kdb-plugin] callback error: type");
    assert_line(&text(None), Stream::Stderr, "[kdb-plugin] callback error: unknown");
}

#[test]
fn ack_errors_are_reported() {
    assert!(ack_finished(Ok(())).is_none());
    assert_line(
        &ack_finished(Err("gone".to_string())).unwrap(),
        Stream::Stderr,
        "[kdb-plugin] ack error: gone",
    );
}
