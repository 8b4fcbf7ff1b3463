//! The state that the plugin keeps for the life of the q process.

use vstd::prelude::*;

verus! {

/// The state of the plugin. `A` is the type of a queued acknowledgement: what
/// is awaited to learn whether the server stored a message.
pub struct Plugin<A> {
    /// The server's URL, once `nats_connect` was called.
    url: Option<String>,
    /// Whether the connection stands.
    connected: bool,
    /// The q function that receives messages, once `nats_subscribe` got that far.
    callback: Option<String>,
    /// The end of the pipe that the consumer thread writes to; -1 before there is one.
    pipe_write_fd: i32,
    /// How many queued acknowledgements set off a flush; 0 for none.
    flush_size: usize,
    /// The acknowledgements that nothing awaits yet, oldest first.
    pending: Vec<A>,
}

/// The mathematical content of a [`Plugin`].
pub struct PluginView<A> {
    pub url: Option<Seq<char>>,
    pub connected: bool,
    pub callback: Option<Seq<char>>,
    pub pipe_write_fd: int,
    pub flush_size: nat,
    pub pending: Seq<A>,
}

/// The text of an optional string.
pub open spec fn optional_text(s: Option<String>) -> Option<Seq<char>> {
    match s {
        Some(text) => Some(text@),
        None => None,
    }
}

impl<A> View for Plugin<A> {
    type V = PluginView<A>;

    closed spec fn view(&self) -> PluginView<A> {
        PluginView {
            url: optional_text(self.url),
            connected: self.connected,
            callback: optional_text(self.callback),
            pipe_write_fd: self.pipe_write_fd as int,
            flush_size: self.flush_size as nat,
            pending: self.pending@,
        }
    }
}

impl<A> PluginView<A> {
    /// The state of a process that called nothing yet.
    pub open spec fn fresh() -> PluginView<A> {
        PluginView {
            url: None,
            connected: false,
            callback: None,
            pipe_write_fd: -1,
            flush_size: 0,
            pending: Seq::empty(),
        }
    }

    /// A connection has a URL that it was made to, and a pipe has a callback
    /// that its messages are for.
    pub open spec fn wf(self) -> bool {
        &&& self.connected ==> self.url is Some
        &&& self.pipe_write_fd != -1 ==> self.callback is Some
    }
}

impl<A> Plugin<A> {
    /// The state of a process that called nothing yet.
    pub fn new() -> (plugin: Plugin<A>)
        ensures
            plugin@ == PluginView::<A>::fresh(),
            plugin@.wf(),
    {
        Plugin {
            url: None,
            connected: false,
            callback: None,
            pipe_write_fd: -1,
            flush_size: 0,
            pending: Vec::new(),
        }
    }

    /// The server's URL, once `nats_connect` was called.
    pub fn url(&self) -> (url: Option<&String>)
        ensures
            url is Some <==> self@.url is Some,
            url matches Some(text) ==> self@.url == Some(text@),
    {
        match &self.url {
            Some(text) => Some(text),
            None => None,
        }
    }

    /// Whether the connection stands.
    pub fn connected(&self) -> (connected: bool)
        ensures
            connected == self@.connected,
    {
        self.connected
    }

    /// The q function that receives messages, once `nats_subscribe` got that far.
    pub fn callback(&self) -> (callback: Option<&String>)
        ensures
            callback is Some <==> self@.callback is Some,
            callback matches Some(text) ==> self@.callback == Some(text@),
    {
        match &self.callback {
            Some(text) => Some(text),
            None => None,
        }
    }

    /// The end of the pipe that the consumer thread writes to; -1 before there is one.
    pub fn pipe_write_fd(&self) -> (fd: i32)
        ensures
            fd == self@.pipe_write_fd,
    {
        self.pipe_write_fd
    }

    /// How many queued acknowledgements set off a flush; 0 for none.
    pub fn flush_size(&self) -> (size: usize)
        ensures
            size == self@.flush_size,
    {
        self.flush_size
    }

    /// The acknowledgements that nothing awaits yet, oldest first.
    pub fn pending(&self) -> (pending: &Vec<A>)
        ensures
            pending@ == self@.pending,
    {
        &self.pending
    }

    /// Records the server's URL.
    pub(crate) fn set_url(&mut self, url: String)
        ensures
            final(self)@ == (PluginView { url: Some(url@), ..old(self)@ }),
    {
        self.url = Some(url);
    }

    /// Records that the connection stands.
    pub(crate) fn set_connected(&mut self)
        ensures
            final(self)@ == (PluginView { connected: true, ..old(self)@ }),
    {
        self.connected = true;
    }

    /// Records the callback.
    pub(crate) fn set_callback(&mut self, callback: String)
        ensures
            final(self)@ == (PluginView { callback: Some(callback@), ..old(self)@ }),
    {
        self.callback = Some(callback);
    }

    /// Records the end of the pipe to write to.
    pub(crate) fn set_pipe_write_fd(&mut self, fd: i32)
        ensures
            final(self)@ == (PluginView { pipe_write_fd: fd as int, ..old(self)@ }),
    {
        self.pipe_write_fd = fd;
    }

    /// Records the threshold.
    pub(crate) fn set_flush_size(&mut self, size: usize)
        ensures
            final(self)@ == (PluginView { flush_size: size as nat, ..old(self)@ }),
    {
        self.flush_size = size;
    }

    /// Puts an acknowledgement at the end of the queue.
    pub(crate) fn push_pending(&mut self, ack: A)
        ensures
            final(self)@ == (PluginView { pending: old(self)@.pending.push(ack), ..old(self)@ }),
    {
        self.pending.push(ack);
    }

    /// Takes every queued acknowledgement out of the queue.
    pub(crate) fn take_pending(&mut self) -> (batch: Vec<A>)
        ensures
            batch@ == old(self)@.pending,
            final(self)@ == (PluginView { pending: Seq::<A>::empty(), ..old(self)@ }),
    {
        let mut batch: Vec<A> = Vec::new();
        std::mem::swap(&mut batch, &mut self.pending);
        batch
    }
}

} // verus!
