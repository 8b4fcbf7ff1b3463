//! Creation of the JetStream stream that messages are kept in.

use vstd::prelude::*;
use crate::abort;
use crate::connection;
use crate::connection::{ClientStep, ClientStepView};
use crate::console;
use crate::console::{LogLine, LogLineView};
use crate::plugin::{Plugin, PluginView};
use crate::refusal::Refusal;
use crate::value::{QValue, QValueView};

verus! {

/// A stream to create.
pub struct StreamRequest {
    pub name: String,
    pub subject: String,
}

/// The mathematical content of a [`StreamRequest`].
pub struct StreamRequestView {
    pub name: Seq<char>,
    pub subject: Seq<char>,
}

impl View for StreamRequest {
    type V = StreamRequestView;

    open spec fn view(&self) -> StreamRequestView {
        StreamRequestView { name: self.name@, subject: self.subject@ }
    }
}

/// What `jetstream_init` does first.
pub enum InitStep {
    /// Answer with the error.
    Refused(Refusal),
    /// Come by the client, create the stream unless the server has it already,
    /// and go on with [`StreamRequest::created`].
    Create { client: ClientStep, request: StreamRequest },
}

/// What an [`InitStep`] asks for.
pub enum InitStepView {
    Refused(Refusal),
    Create { client: ClientStepView, request: StreamRequestView },
}

impl View for InitStep {
    type V = InitStepView;

    open spec fn view(&self) -> InitStepView {
        match self {
            InitStep::Refused(refusal) => InitStepView::Refused(*refusal),
            InitStep::Create { client, request } => InitStepView::Create {
                client: client@,
                request: request@,
            },
        }
    }
}

/// What `jetstream_init` does first when it is called in state `s`: both
/// arguments have to be symbols, and the first that is not is reported.
pub open spec fn init_step<A>(s: PluginView<A>, stream_name: QValueView, subject: QValueView)
    -> InitStepView {
    match (stream_name.as_symbol(), subject.as_symbol()) {
        (None, _) => InitStepView::Refused(Refusal::InitStreamName),
        (Some(_), None) => InitStepView::Refused(Refusal::InitSubject),
        (Some(name), Some(subj)) => InitStepView::Create {
            client: connection::client_step(s),
            request: StreamRequestView { name, subject: subj },
        },
    }
}

/// Sets out to create the stream if it does not exist on the server.
pub fn jetstream_init<A>(plugin: &Plugin<A>, stream_name: &QValue, subject: &QValue) -> (step:
    InitStep)
    ensures
        step@ == init_step(plugin@, stream_name@, subject@),
{
    let name = match stream_name.get_symbol() {
        Some(text) => text.clone(),
        None => return InitStep::Refused(Refusal::InitStreamName),
    };
    let subj = match subject.get_symbol() {
        Some(text) => text.clone(),
        None => return InitStep::Refused(Refusal::InitSubject),
    };
    InitStep::Create {
        client: connection::nats_client(plugin),
        request: StreamRequest { name, subject: subj },
    }
}

/// How `jetstream_init` ends once the server answered: it returns, with a line
/// to print, if the stream stands, and aborts with a text if it does not.
pub open spec fn init_end(request: StreamRequestView, answer: Result<(), Seq<char>>) -> Result<
    LogLineView,
    Seq<char>,
> {
    match answer {
        Ok(_) => Ok(
            console::out_line(
                "[kdb-plugin] jetstream_init | stream="@ + request.name + " subject="@
                    + request.subject,
            ),
        ),
        Err(e) => Err(abort::abort_text(e)),
    }
}

/// What the end of a call of `jetstream_init` says.
pub open spec fn end_view(end: Result<LogLine, String>) -> Result<LogLineView, Seq<char>> {
    match end {
        Ok(report) => Ok(report@),
        Err(text) => Err(text@),
    }
}

impl StreamRequest {
    /// The subjects that the stream keeps messages of.
    pub fn subjects(&self) -> (subjects: Vec<String>)
        ensures
            subjects@.map_values(|s: String| s@) == seq![self@.subject],
    {
        let subjects: Vec<String> = vec![self.subject.clone()];
        subjects
    }

    /// The server got or created the stream, or answered with an error, told by
    /// its debug text. The call returns normally on `Ok` alone, and prints the
    /// line; on `Err` it aborts with the text.
    pub fn created(self, answer: Result<(), String>) -> (end: Result<LogLine, String>)
        ensures
            end is Ok <==> answer is Ok,
            end_view(end) == init_end(self@, console::outcome_view(answer)),
    {
        match answer {
            Ok(()) => {
                let text = "[kdb-plugin] jetstream_init | stream=".to_string().concat(
                    self.name.as_str(),
                ).concat(" subject=").concat(self.subject.as_str());
                Ok(LogLine::to_stdout(text))
            },
            Err(e) => Err(abort::abort_message(&e)),
        }
    }
}

} // verus!
