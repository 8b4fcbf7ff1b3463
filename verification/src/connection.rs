//! The connection to the NATS server: made once, shared by every call.

use vstd::prelude::*;
use crate::console;
use crate::console::{LogLine, LogLineView};
use crate::plugin::{Plugin, PluginView};
use crate::text;
use crate::value::{QValue, QValueView};

verus! {

/// How to come by the client that a call needs.
pub enum ClientStep {
    /// Take the client of the standing connection.
    Cached,
    /// Print `report`, connect to `url`, and hand the outcome to [`Plugin::dialed`].
    Dial { url: String, report: LogLine },
    /// There is no server to connect to: abort with `message`.
    Abort { message: String },
}

/// What a [`ClientStep`] asks for.
pub enum ClientStepView {
    Cached,
    Dial { url: Seq<char>, report: LogLineView },
    Abort { message: Seq<char> },
}

impl View for ClientStep {
    type V = ClientStepView;

    open spec fn view(&self) -> ClientStepView {
        match self {
            ClientStep::Cached => ClientStepView::Cached,
            ClientStep::Dial { url, report } => ClientStepView::Dial {
                url: url@,
                report: report@,
            },
            ClientStep::Abort { message } => ClientStepView::Abort { message: message@ },
        }
    }
}

/// How a process in state `s` comes by the client.
pub open spec fn client_step<A>(s: PluginView<A>) -> ClientStepView {
    if s.connected {
        ClientStepView::Cached
    } else {
        match s.url {
            Some(url) => ClientStepView::Dial {
                url,
                report: console::out_line("[kdb-plugin] connecting to NATS at "@ + url),
            },
            None => ClientStepView::Abort {
                message: "[kdb-plugin] call nats_connect[host; port] before using NATS APIs"@,
            },
        }
    }
}

/// Says how to come by the client: it is connected on first use and kept.
pub fn nats_client<A>(plugin: &Plugin<A>) -> (step: ClientStep)
    ensures
        step@ == client_step(plugin@),
{
    if plugin.connected() {
        return ClientStep::Cached;
    }
    match plugin.url() {
        Some(url) => {
            let text = "[kdb-plugin] connecting to NATS at ".to_string().concat(url.as_str());
            ClientStep::Dial { url: url.clone(), report: LogLine::to_stdout(text) }
        },
        None => ClientStep::Abort {
            message: "[kdb-plugin] call nats_connect[host; port] before using NATS APIs".to_string(),
        },
    }
}

/// The state after an attempt to connect; there is none without a URL.
pub open spec fn after_dial<A>(s: PluginView<A>, connected: bool) -> PluginView<A> {
    PluginView { connected: s.connected || (connected && s.url is Some), ..s }
}

impl<A> Plugin<A> {
    /// Records the outcome of connecting to the URL; without one there is
    /// nothing to record. A failure, told by its debug text, is
    /// fatal: the error is what to abort with.
    pub fn dialed(&mut self, outcome: Result<(), String>) -> (result: Result<(), String>)
        ensures
            final(self)@ == after_dial(old(self)@, outcome is Ok),
            old(self)@.wf() ==> final(self)@.wf(),
            result is Ok <==> outcome is Ok,
            outcome matches Err(e) ==> result->Err_0@ == "[kdb-plugin] NATS connect failed: "@ + e@,
    {
        match outcome {
            Ok(()) => {
                if self.url().is_some() {
                    self.set_connected();
                }
                Ok(())
            },
            Err(e) => Err("[kdb-plugin] NATS connect failed: ".to_string().concat(e.as_str())),
        }
    }
}

/// The URL of the server at `host` and `port`. The host is `localhost` where
/// the argument is no symbol, and the port 4222 where it is no int.
pub open spec fn server_url(host: QValueView, port: QValueView) -> Seq<char> {
    let host_text = match host.as_symbol() {
        Some(text) => text,
        None => "localhost"@,
    };
    let port_number = match port.as_int() {
        Some(i) => i,
        None => 4222int,
    };
    "nats://"@ + host_text + ":"@ + text::integer_text(port_number)
}

/// The state after `nats_connect`: the first URL stays.
pub open spec fn after_connect<A>(s: PluginView<A>, host: QValueView, port: QValueView)
    -> PluginView<A> {
    PluginView {
        url: if s.url is None {
            Some(server_url(host, port))
        } else {
            s.url
        },
        ..s
    }
}

/// What `nats_connect` does next.
pub enum ConnectStep {
    /// Come by the client now, so that a failure shows at once; then print `report`.
    First { client: ClientStep, report: LogLine },
    /// The process has its server already: print `report`.
    Again { report: LogLine },
}

/// What a [`ConnectStep`] asks for.
pub enum ConnectStepView {
    First { client: ClientStepView, report: LogLineView },
    Again { report: LogLineView },
}

impl View for ConnectStep {
    type V = ConnectStepView;

    open spec fn view(&self) -> ConnectStepView {
        match self {
            ConnectStep::First { client, report } => ConnectStepView::First {
                client: client@,
                report: report@,
            },
            ConnectStep::Again { report } => ConnectStepView::Again { report: report@ },
        }
    }
}

/// What `nats_connect` does next when it is called in state `s`.
pub open spec fn connect_step<A>(s: PluginView<A>, host: QValueView, port: QValueView)
    -> ConnectStepView {
    if s.url is None {
        ConnectStepView::First {
            client: client_step(after_connect(s, host, port)),
            report: console::out_line(
                "[kdb-plugin] nats_connect | connected to "@ + server_url(host, port),
            ),
        }
    } else {
        ConnectStepView::Again {
            report: console::out_line(
                "[kdb-plugin] nats_connect | already connected (ignored)"@,
            ),
        }
    }
}

/// Establishes the connection. Every call after the first changes nothing.
pub fn nats_connect<A>(plugin: &mut Plugin<A>, host: &QValue, port: &QValue) -> (step: ConnectStep)
    ensures
        final(plugin)@ == after_connect(old(plugin)@, host@, port@),
        old(plugin)@.wf() ==> final(plugin)@.wf(),
        step@ == connect_step(old(plugin)@, host@, port@),
{
    let mut url = "nats://".to_string();
    match host.get_symbol() {
        Some(text) => url.append(text.as_str()),
        None => url.append("localhost"),
    }
    url.append(":");
    let port_number: i32 = match port.get_int() {
        Some(i) => i,
        None => 4222,
    };
    text::append_integer(&mut url, port_number);

    if plugin.url().is_none() {
        let text = "[kdb-plugin] nats_connect | connected to ".to_string().concat(url.as_str());
        plugin.set_url(url);
        ConnectStep::First { client: nats_client(plugin), report: LogLine::to_stdout(text) }
    } else {
        let text = "[kdb-plugin] nats_connect | already connected (ignored)".to_string();
        ConnectStep::Again { report: LogLine::to_stdout(text) }
    }
}

} // verus!
