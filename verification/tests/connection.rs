use kdb_plugin::connection::{nats_client, nats_connect, ClientStep, ConnectStep};
use kdb_plugin::console::{LogLine, Stream};
use kdb_plugin::plugin::Plugin;
use kdb_plugin::value::QValue;

fn symbol(text: &str) -> QValue {
    QValue::Symbol(text.to_string())
}

fn assert_out(line: &LogLine, text: &str) {
    assert_eq!(line.stream, Stream::Stdout);
    assert_eq!(line.text, text);
}

fn first_url(host: &QValue, port: &QValue) -> String {
    let mut plugin: Plugin<u32> = Plugin::new();
    nats_connect(&mut plugin, host, port);
    plugin.url().unwrap().clone()
}

#[test]
fn urls_of_hosts_and_ports() {
    assert_eq!(first_url(&symbol("localhost"), &QValue::Int(4222)), "nats://localhost:4222");
    assert_eq!(
        first_url(&symbol("my-nats-server"), &QValue::Int(10)),
        "nats://my-nats-server:10"
    );
    assert_eq!(first_url(&symbol(""), &QValue::Int(0)), "nats://:0");
}

#[test]
fn url_defaults() {
    assert_eq!(first_url(&QValue::Other, &QValue::Other), "nats://localhost:4222");
    assert_eq!(first_url(&QValue::Int(7), &symbol("8222")), "nats://localhost:4222");
    // A long is no int.
    assert_eq!(first_url(&symbol("h"), &QValue::Long(8222)), "nats://h:4222");
}

#[test]
fn url_of_a_negative_port() {
    assert_eq!(first_url(&symbol("h"), &QValue::Int(-1)), "nats://h:-1");
    assert_eq!(first_url(&symbol("h"), &QValue::Int(i32::MIN)), "nats://h:-2147483648");
    assert_eq!(first_url(&symbol("h"), &QValue::Int(i32::MAX)), "nats://h:2147483647");
}

#[test]
fn first_connect_dials_at_once() {
    let mut plugin: Plugin<u32> = Plugin::new();
    let step = nats_connect(&mut plugin, &symbol("localhost"), &QValue::Int(4222));
    match step {
        ConnectStep::First { client: ClientStep::Dial { url, report: dialing }, report } => {
            assert_eq!(url, "nats://localhost:4222");
            assert_out(&dialing, "[kdb-plugin] connecting to NATS at nats://localhost:4222");
            assert_out(
                &report,
                "[kdb-plugin] nats_connect | connected to nats://localhost:4222",
            );
        }
        _ => panic!("expected to dial"),
    }
    assert!(!plugin.connected());
    assert!(plugin.dialed(Ok(())).is_ok());
    assert!(plugin.connected());
    assert!(matches!(nats_client(&plugin), ClientStep::Cached));
}

#[test]
fn second_connect_is_ignored() {
    let mut plugin: Plugin<u32> = Plugin::new();
    nats_connect(&mut plugin, &symbol("first"), &QValue::Int(1));
    plugin.dialed(Ok(())).unwrap();
    match nats_connect(&mut plugin, &symbol("second"), &QValue::Int(2)) {
        ConnectStep::Again { report } => {
            assert_out(&report, "[kdb-plugin] nats_connect | already connected (ignored)");
        }
        _ => panic!("expected to be ignored"),
    }
    assert_eq!(plugin.url().unwrap(), "nats://first:1");
    assert!(matches!(nats_client(&plugin), ClientStep::Cached));
}

#[test]
fn failing_to_connect_is_fatal() {
    let mut plugin: Plugin<u32> = Plugin::new();
    nats_connect(&mut plugin, &symbol("h"), &QValue::Int(1));
    assert_eq!(
        plugin.dialed(Err("Refused".to_string())),
        Err("[kdb-plugin] NATS connect failed: Refused".to_string())
    );
    assert!(!plugin.connected());
    assert!(matches!(nats_client(&plugin), ClientStep::Dial { .. }));
}

#[test]
fn no_connection_without_a_url() {
    let mut plugin: Plugin<u32> = Plugin::new();
    assert!(plugin.dialed(Ok(())).is_ok());
    assert!(!plugin.connected());
}

#[test]
fn no_client_without_connect() {
    let plugin: Plugin<u32> = Plugin::new();
    match nats_client(&plugin) {
        ClientStep::Abort { message } => assert_eq!(
            message,
            "[kdb-plugin] call nats_connect[host; port] before using NATS APIs"
        ),
        _ => panic!("expected to abort"),
    }
}
