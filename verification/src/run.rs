//! One session channel that runs a command.
//!
//! A channel has a window in each direction.  Data that arrives takes from
//! the client's window; when less than a quarter of it is left, the client
//! grants the server the difference and the window is full again.  Data that
//! is sent takes from the server's window, and waits when it is used up.

use crate::channelrequest::{ChannelRequest, ChannelRequestView};
use crate::connection::{Connection, ConnectionView};
use crate::error::Error;
use crate::messages::{
    ChannelClose, ChannelData, ChannelDataView, ChannelOpen, ChannelOpenConfirmation,
    ChannelOpenView, ChannelWindowAdjust, Message, MessageView,
};
use crate::packets::{PacketWriter, WriterView};
use crate::parsedump::put_slice;
use vstd::arithmetic::div_mod::{lemma_div_plus_one, lemma_fundamental_div_mod_converse_div};
use vstd::prelude::*;
use vstd::slice::{slice_subrange, slice_to_vec};
use vstd::string::StringExecFns;

verus! {

/// The status with which a command ends.
pub type ExitStatus = u32;

/// The window that the client grants, and grants again.
pub const CLIENT_INITIAL_WINDOW_SIZE: u32 = 0xffff_ffff;

/// The client grants more once its window is below this: a quarter of the
/// full window.
pub const CLIENT_WIN_TELL_TRIGGER: u32 = 0x3fff_ffff;

/// The largest packet that the client takes.
pub const CLIENT_MAX_PACKET_SIZE: u32 = 0x4_0000;

/// How the server answered the request to run a command.
#[derive(Debug)]
pub enum RunResult<T> {
    /// The server refused.  The connection is still good.
    Refused,
    /// The command runs.
    Accepted(T),
}

/// What a turn of `poll` brought.
#[derive(Clone, Debug, PartialEq, Eq)]
pub enum RunEvent {
    /// Nothing for the caller.
    Nothing,
    /// Bytes from the command's standard output.
    Data(Vec<u8>),
    /// Bytes from the command's standard error.
    ExtDataStderr(Vec<u8>),
    /// The channel is closed; the exit status, where the server gave one.
    Stopped(Option<ExitStatus>),
}

/// What a `RunEvent` holds.
pub ghost enum RunEventView {
    Nothing,
    Data(Seq<u8>),
    ExtDataStderr(Seq<u8>),
    Stopped(Option<ExitStatus>),
}

impl View for RunEvent {
    type V = RunEventView;

    open spec fn view(&self) -> RunEventView {
        match self {
            RunEvent::Nothing => RunEventView::Nothing,
            RunEvent::Data(data) => RunEventView::Data(data@),
            RunEvent::ExtDataStderr(data) => RunEventView::ExtDataStderr(data@),
            RunEvent::Stopped(status) => RunEventView::Stopped(*status),
        }
    }
}

/// The request to open a session channel with the full window.
pub open spec fn spec_channel_open(client_channel: u32) -> ChannelOpenView {
    ChannelOpenView {
        channel_type: "session"@,
        client_channel,
        client_initial_window_size: CLIENT_INITIAL_WINDOW_SIZE,
        client_max_packet_size: CLIENT_MAX_PACKET_SIZE,
    }
}

/// Asks the server to open a session channel.  Returns the bytes to send.
pub fn open_channel(writer: &mut PacketWriter, client_channel: u32) -> (r: Result<Vec<u8>, Error>)
    requires
        old(writer).wf(),
    ensures
        final(writer).wf(),
        match old(writer)@.send_message::<ChannelOpen>(spec_channel_open(client_channel)) {
            Ok((wire, next)) => r matches Ok(v) && v@ == wire && final(writer)@ == next,
            Err(e) => r == Err::<Vec<u8>, Error>(e) && final(writer)@ == old(writer)@,
        },
{
    writer.send(
        &ChannelOpen {
            channel_type: String::from_str("session"),
            client_channel,
            client_initial_window_size: CLIENT_INITIAL_WINDOW_SIZE,
            client_max_packet_size: CLIENT_MAX_PACKET_SIZE,
        },
    )
}

impl Connection {
    /// Takes the number for a new channel and asks the server to open a
    /// session channel of that number.  Returns the number and the bytes to
    /// send.  Fails with `InvalidData` once the numbers are used up; on any
    /// failure the connection is unchanged.
    pub fn run(&mut self) -> (r: Result<(u32, Vec<u8>), Error>)
        requires
            old(self).wf(),
        ensures
            final(self).wf(),
            old(self)@.next_client_channel == u32::MAX ==> (r matches Err(e) && e == Error::InvalidData
                && final(self)@ == old(self)@),
            old(self)@.next_client_channel < u32::MAX ==> match old(self)@.writer.send_message::<ChannelOpen>(
                spec_channel_open(old(self)@.next_client_channel),
            ) {
                Ok((wire, writer)) => r matches Ok((channel, v)) && channel == old(self)@.next_client_channel
                    && v@ == wire && final(self)@ == (ConnectionView {
                    next_client_channel: (channel + 1) as u32,
                    writer,
                    ..old(self)@
                }),
                Err(e) => r matches Err(f) && f == e && final(self)@ == old(self)@,
            },
    {
        let channel = self.next_client_channel;
        if channel == u32::MAX {
            return Err(Error::InvalidData);
        }
        let wire = open_channel(&mut self.writer, channel)?;
        self.next_client_channel = channel + 1;
        Ok((channel, wire))
    }
}

/// One environment variable: a name and a value.
pub struct EnvVar {
    pub name: String,
    pub value: String,
}

/// The request to set one environment variable, with no reply wanted.
pub open spec fn spec_env_request(server_channel: u32, var: EnvVar) -> ChannelRequestView {
    ChannelRequestView::EnvironmentVariable {
        recipient_channel: server_channel,
        want_reply: false,
        name: var.name@,
        value: var.value@,
    }
}

/// The request to run a command, with a reply wanted.
pub open spec fn spec_exec_request(server_channel: u32, command: Seq<char>) -> ChannelRequestView {
    ChannelRequestView::Exec { recipient_channel: server_channel, want_reply: true, command }
}

/// What is sent to set the variables `env[from..]`, one request each, and
/// the writer after them.  The bytes of requests that were sent before one
/// failed are lost with the failure.
pub open spec fn spec_send_env(writer: WriterView, server_channel: u32, env: Seq<EnvVar>, from: int) -> Result<
    (Seq<u8>, WriterView),
    Error,
>
    decreases env.len() - from,
{
    if from < 0 || from >= env.len() {
        Ok((Seq::<u8>::empty(), writer))
    } else {
        match writer.send_message::<ChannelRequest>(spec_env_request(server_channel, env[from])) {
            Err(e) => Err(e),
            Ok((wire, next)) => match spec_send_env(next, server_channel, env, from + 1) {
                Err(e) => Err(e),
                Ok((more, last)) => Ok((wire + more, last)),
            },
        }
    }
}

/// What is sent to start a command: the requests for the variables, then
/// the request to run the command.
pub open spec fn spec_request_exec(
    writer: WriterView,
    server_channel: u32,
    command: Seq<char>,
    env: Seq<EnvVar>,
) -> Result<(Seq<u8>, WriterView), Error> {
    match spec_send_env(writer, server_channel, env, 0) {
        Err(e) => Err(e),
        Ok((wire, next)) => match next.send_message::<ChannelRequest>(spec_exec_request(server_channel, command)) {
            Err(e) => Err(e),
            Ok((more, last)) => Ok((wire + more, last)),
        },
    }
}

/// Asks the server to set the variables of `env` and to run `command` on
/// the channel that it opened.  Returns the bytes to send.
///
/// On failure nothing is to be sent; the writer may have counted requests
/// that went before the one that failed, so the connection is to be given
/// up.
pub fn request_exec(writer: &mut PacketWriter, server_channel: u32, command: &str, env: &[EnvVar]) -> (r: Result<
    Vec<u8>,
    Error,
>)
    requires
        old(writer).wf(),
    ensures
        final(writer).wf(),
        match spec_request_exec(old(writer)@, server_channel, command@, env@) {
            Ok((wire, next)) => r matches Ok(v) && v@ == wire && final(writer)@ == next,
            Err(e) => r == Err::<Vec<u8>, Error>(e),
        },
{
    let mut out: Vec<u8> = Vec::new();
    let mut i: usize = 0;
    while i < env.len()
        invariant
            i <= env.len(),
            writer.wf(),
            match spec_send_env(writer@, server_channel, env@, i as int) {
                Err(e) => spec_send_env(old(writer)@, server_channel, env@, 0) == Err::<
                    (Seq<u8>, WriterView),
                    Error,
                >(e),
                Ok((more, last)) => spec_send_env(old(writer)@, server_channel, env@, 0) == Ok::<
                    (Seq<u8>, WriterView),
                    Error,
                >((out@ + more, last)),
            },
        decreases env.len() - i,
    {
        let request = ChannelRequest::EnvironmentVariable {
            recipient_channel: server_channel,
            want_reply: false,
            name: env[i].name.clone(),
            value: env[i].value.clone(),
        };
        assert(request@ == spec_env_request(server_channel, env@[i as int]));
        let ghost before = writer@;
        let ghost sent = out@;
        let wire = writer.send(&request)?;
        put_slice(&mut out, wire.as_slice());
        i += 1;
        proof {
            match spec_send_env(writer@, server_channel, env@, i as int) {
                Ok((more, last)) => {
                    assert(sent + (wire@ + more) =~= out@ + more);
                },
                Err(_) => {},
            }
        }
    }
    assert(out@ + Seq::<u8>::empty() =~= out@);
    let request = ChannelRequest::Exec {
        recipient_channel: server_channel,
        want_reply: true,
        command: String::from_str(command),
    };
    let wire = writer.send(&request)?;
    put_slice(&mut out, wire.as_slice());
    Ok(out)
}

/// A channel on which a command runs.
pub struct Run {
    exit_status: Option<ExitStatus>,
    closed: bool,
    server_channel: u32,
    server_max_packet_size: u32,
    server_window: u64,
    client_window: u32,
    client_channel: u32,
}

/// What a `Run` holds.
pub ghost struct RunView {
    /// The exit status, once the server has reported it.
    pub exit_status: Option<ExitStatus>,
    /// Whether the server has closed the channel.
    pub closed: bool,
    /// The server's number for the channel.
    pub server_channel: u32,
    /// The largest chunk of data that the server takes in one message.
    pub server_max_packet_size: nat,
    /// How many bytes the client may still send.
    pub server_window: nat,
    /// How many bytes the server may still send.
    pub client_window: nat,
    /// The client's number for the channel.
    pub client_channel: u32,
}

impl View for Run {
    type V = RunView;

    closed spec fn view(&self) -> RunView {
        RunView {
            exit_status: self.exit_status,
            closed: self.closed,
            server_channel: self.server_channel,
            server_max_packet_size: self.server_max_packet_size as nat,
            server_window: self.server_window as nat,
            client_window: self.client_window as nat,
            client_channel: self.client_channel,
        }
    }
}

/// What one turn of `poll` gives: the event, the bytes to send, and the
/// channel and the writer after it.
pub ghost struct Polled {
    pub event: RunEventView,
    pub wire: Seq<u8>,
    pub run: RunView,
    pub writer: WriterView,
}

impl RunView {
    /// The channel right after the server accepted the command.
    pub open spec fn started(client_channel: u32, confirmation: ChannelOpenConfirmation) -> RunView {
        RunView {
            exit_status: None,
            closed: false,
            server_channel: confirmation.server_channel,
            server_max_packet_size: confirmation.server_max_packet_size as nat,
            server_window: confirmation.server_initial_window_size as nat,
            client_window: CLIENT_INITIAL_WINDOW_SIZE as nat,
            client_channel,
        }
    }

    /// The client's window never falls below the point at which it is filled
    /// up again, and the counters fit their fields.
    pub open spec fn wf(self) -> bool {
        &&& CLIENT_WIN_TELL_TRIGGER <= self.client_window <= CLIENT_INITIAL_WINDOW_SIZE
        &&& self.server_window <= u64::MAX
        &&& self.server_max_packet_size <= u32::MAX
    }

    /// What a turn of `poll` gives for the message that arrived, or for none
    /// where the read timed out.
    pub open spec fn poll(self, message: Option<MessageView>, writer: WriterView) -> Result<Polled, Error> {
        match message {
            None => Ok(Polled { event: RunEventView::Nothing, wire: Seq::<u8>::empty(), run: self, writer }),
            Some(MessageView::ChannelData(m)) => {
                if m.data.len() > self.client_window {
                    Err(Error::InvalidData)
                } else {
                    let left = (self.client_window - m.data.len()) as nat;
                    if left < CLIENT_WIN_TELL_TRIGGER {
                        match writer.send_message::<ChannelWindowAdjust>(
                            ChannelWindowAdjust {
                                recipient_channel: self.server_channel,
                                bytes_to_add: (CLIENT_INITIAL_WINDOW_SIZE - left) as u32,
                            },
                        ) {
                            Err(e) => Err(e),
                            Ok((wire, next)) => Ok(
                                Polled {
                                    event: RunEventView::Data(m.data),
                                    wire,
                                    run: RunView { client_window: CLIENT_INITIAL_WINDOW_SIZE as nat, ..self },
                                    writer: next,
                                },
                            ),
                        }
                    } else {
                        Ok(
                            Polled {
                                event: RunEventView::Data(m.data),
                                wire: Seq::<u8>::empty(),
                                run: RunView { client_window: left, ..self },
                                writer,
                            },
                        )
                    }
                }
            },
            Some(MessageView::ChannelExtendedData(m)) => Ok(
                Polled {
                    event: if m.data_type == 1 {
                        RunEventView::ExtDataStderr(m.data)
                    } else {
                        RunEventView::Nothing
                    },
                    wire: Seq::<u8>::empty(),
                    run: self,
                    writer,
                },
            ),
            Some(MessageView::ChannelWindowAdjust(m)) => {
                if self.server_window + m.bytes_to_add > u64::MAX {
                    Err(Error::InvalidData)
                } else {
                    Ok(
                        Polled {
                            event: RunEventView::Nothing,
                            wire: Seq::<u8>::empty(),
                            run: RunView { server_window: self.server_window + m.bytes_to_add as nat, ..self },
                            writer,
                        },
                    )
                }
            },
            Some(MessageView::ChannelRequest(ChannelRequestView::ExitStatus { exit_status, .. })) => Ok(
                Polled {
                    event: RunEventView::Nothing,
                    wire: Seq::<u8>::empty(),
                    run: RunView { exit_status: Some(exit_status), ..self },
                    writer,
                },
            ),
            Some(MessageView::ChannelEof(_)) => Ok(
                Polled { event: RunEventView::Nothing, wire: Seq::<u8>::empty(), run: self, writer },
            ),
            Some(MessageView::ChannelClose(_)) => match writer.send_message::<ChannelClose>(
                ChannelClose { recipient_channel: self.server_channel },
            ) {
                Err(e) => Err(e),
                Ok((wire, next)) => Ok(
                    Polled {
                        event: RunEventView::Stopped(self.exit_status),
                        wire,
                        run: RunView { closed: true, ..self },
                        writer: next,
                    },
                ),
            },
            Some(other) => Err(Error::UnexpectedMessageType(other.typ())),
        }
    }
}

impl Run {
    /// Reads the server's answer to the request to run a command.  A success
    /// gives the running channel, a failure is a refusal, and any other
    /// message is unexpected.
    pub fn start(reply: &Message, client_channel: u32, confirmation: &ChannelOpenConfirmation) -> (r: Result<
        RunResult<Run>,
        Error,
    >)
        ensures
            match reply@ {
                MessageView::ChannelSuccess(_) => r matches Ok(RunResult::Accepted(run)) && run@
                    == RunView::started(client_channel, *confirmation) && run@.wf(),
                MessageView::ChannelFailure(_) => r matches Ok(RunResult::Refused),
                other => r matches Err(e) && e == Error::UnexpectedMessageType(other.typ()),
            },
    {
        match reply {
            Message::ChannelSuccess(_) => Ok(
                RunResult::Accepted(
                    Run {
                        exit_status: None,
                        closed: false,
                        server_channel: confirmation.server_channel,
                        server_max_packet_size: confirmation.server_max_packet_size,
                        server_window: confirmation.server_initial_window_size as u64,
                        client_window: CLIENT_INITIAL_WINDOW_SIZE,
                        client_channel,
                    },
                ),
            ),
            Message::ChannelFailure(_) => Ok(RunResult::Refused),
            other => Err(Error::UnexpectedMessageType(other.typ())),
        }
    }

    /// The exit status, once the server has reported it.
    pub fn exit_status(&self) -> (status: Option<ExitStatus>)
        ensures
            status == self@.exit_status,
    {
        self.exit_status
    }

    /// Whether the server has closed the channel.
    pub fn is_closed(&self) -> (closed: bool)
        ensures
            closed == self@.closed,
    {
        self.closed
    }

    /// One turn of the channel: takes the message that arrived, or none
    /// where the read timed out, and returns the event for the caller and
    /// the bytes to send.  On failure the channel and the writer are
    /// unchanged.
    pub fn poll(&mut self, message: Option<Message>, writer: &mut PacketWriter) -> (r: Result<
        (RunEvent, Vec<u8>),
        Error,
    >)
        requires
            old(self)@.wf(),
            old(writer).wf(),
        ensures
            final(self)@.wf(),
            final(writer).wf(),
            match old(self)@.poll(
                match message {
                    Some(m) => Some(m@),
                    None => None,
                },
                old(writer)@,
            ) {
                Ok(polled) => r matches Ok((event, wire)) && event@ == polled.event && wire@ == polled.wire
                    && final(self)@ == polled.run && final(writer)@ == polled.writer,
                Err(e) => r == Err::<(RunEvent, Vec<u8>), Error>(e) && final(self)@ == old(self)@
                    && final(writer)@ == old(writer)@,
            },
    {
        let message = match message {
            None => return Ok((RunEvent::Nothing, Vec::new())),
            Some(message) => message,
        };
        match message {
            Message::ChannelData(m) => {
                if m.data.len() > self.client_window as usize {
                    return Err(Error::InvalidData);
                }
                let left: u32 = self.client_window - m.data.len() as u32;
                if left < CLIENT_WIN_TELL_TRIGGER {
                    let wire = writer.send(
                        &ChannelWindowAdjust {
                            recipient_channel: self.server_channel,
                            bytes_to_add: CLIENT_INITIAL_WINDOW_SIZE - left,
                        },
                    )?;
                    self.client_window = CLIENT_INITIAL_WINDOW_SIZE;
                    Ok((RunEvent::Data(m.data), wire))
                } else {
                    self.client_window = left;
                    Ok((RunEvent::Data(m.data), Vec::new()))
                }
            },
            Message::ChannelExtendedData(m) => {
                if m.data_type == 1 {
                    Ok((RunEvent::ExtDataStderr(m.data), Vec::new()))
                } else {
                    Ok((RunEvent::Nothing, Vec::new()))
                }
            },
            Message::ChannelWindowAdjust(m) => {
                if m.bytes_to_add as u64 > u64::MAX - self.server_window {
                    return Err(Error::InvalidData);
                }
                self.server_window = self.server_window + m.bytes_to_add as u64;
                Ok((RunEvent::Nothing, Vec::new()))
            },
            Message::ChannelRequest(ChannelRequest::ExitStatus { exit_status, .. }) => {
                self.exit_status = Some(exit_status);
                Ok((RunEvent::Nothing, Vec::new()))
            },
            Message::ChannelEof(_) => Ok((RunEvent::Nothing, Vec::new())),
            Message::ChannelClose(_) => {
                let wire = writer.send(&ChannelClose { recipient_channel: self.server_channel })?;
                self.closed = true;
                Ok((RunEvent::Stopped(self.exit_status), wire))
            },
            other => Err(Error::UnexpectedMessageType(other.typ())),
        }
    }
}

/// What a write gives: the bytes to send, how much of the data they carry,
/// in how many messages, the channel and the writer after them, and the
/// failure that ended the write early, if one did.
pub ghost struct Written {
    pub wire: Seq<u8>,
    pub taken: nat,
    pub messages: nat,
    pub run: RunView,
    pub writer: WriterView,
    pub error: Option<Error>,
}

impl RunView {
    /// The size of the next chunk of `remaining` bytes of data: no more
    /// than the server takes in one message, and no more than its window
    /// has room for.
    pub open spec fn chunk(self, remaining: nat) -> nat {
        let most = if self.server_max_packet_size < self.server_window {
            self.server_max_packet_size
        } else {
            self.server_window
        };
        if remaining < most {
            remaining
        } else {
            most
        }
    }

    /// The message that carries the next chunk of `data`.
    pub open spec fn chunk_message(self, data: Seq<u8>) -> ChannelDataView {
        ChannelDataView { recipient_channel: self.server_channel, data: data.take(self.chunk(data.len()) as int) }
    }

    /// What a write of `data` gives: chunk after chunk, until the data or
    /// the server's window is used up, or a send fails.
    pub open spec fn write(self, data: Seq<u8>, writer: WriterView) -> Written
        decreases data.len(),
    {
        let step = self.chunk(data.len());
        if step == 0 {
            Written { wire: Seq::<u8>::empty(), taken: 0, messages: 0, run: self, writer, error: None }
        } else {
            match writer.send_message::<ChannelData>(self.chunk_message(data)) {
                Err(e) => Written {
                    wire: Seq::<u8>::empty(),
                    taken: 0,
                    messages: 0,
                    run: self,
                    writer,
                    error: Some(e),
                },
                Ok((wire, next)) => {
                    let run = RunView { server_window: (self.server_window - step) as nat, ..self };
                    let rest = run.write(data.skip(step as int), next);
                    Written {
                        wire: wire + rest.wire,
                        taken: step + rest.taken,
                        messages: 1 + rest.messages,
                        run: rest.run,
                        writer: rest.writer,
                        error: rest.error,
                    }
                },
            }
        }
    }
}

/// The number of messages that carry `n` bytes in chunks of `m`: `n`
/// divided by `m`, rounded up.
pub open spec fn spec_chunks(n: nat, m: nat) -> nat {
    ((n + m - 1) / (m as int)) as nat
}

/// While the server's window has room for all of the data, a write that no
/// failure ends early sends all of it, in as many messages as it takes at
/// the most that the server takes in one.
pub proof fn lemma_write_count(run: RunView, writer: WriterView, data: Seq<u8>)
    requires
        run.server_max_packet_size > 0,
        run.server_window >= data.len(),
    ensures
        run.write(data, writer).error is None ==> run.write(data, writer).taken == data.len() && run.write(
            data,
            writer,
        ).messages == spec_chunks(data.len(), run.server_max_packet_size),
    decreases data.len(),
{
    let n = data.len() as int;
    let m = run.server_max_packet_size as int;
    let step = run.chunk(data.len());
    if step == 0 {
        assert(n == 0);
        lemma_fundamental_div_mod_converse_div(m - 1, m, 0, m - 1);
    } else {
        match writer.send_message::<ChannelData>(run.chunk_message(data)) {
            Err(_) => {},
            Ok((wire, next)) => {
                let after = RunView { server_window: (run.server_window - step) as nat, ..run };
                lemma_write_count(after, next, data.skip(step as int));
                if n <= m {
                    assert(step == n);
                    lemma_fundamental_div_mod_converse_div(m - 1, m, 0, m - 1);
                    lemma_fundamental_div_mod_converse_div(n + m - 1, m, 1, n - 1);
                } else {
                    assert(step == m);
                    lemma_div_plus_one(n - m + m - 1, m);
                }
            },
        }
    }
}

/// What a write did.
pub struct WriteOutcome {
    /// The bytes to send.
    pub wire: Vec<u8>,
    /// How many bytes of the data they carry.
    pub taken: usize,
    /// In how many messages.
    pub messages: usize,
    /// The failure that ended the write early, if one did.
    pub error: Option<Error>,
}

impl Run {
    /// Sends as much of `data` as the server's window has room for, in
    /// chunks no larger than the server takes.  Where less than all of the
    /// data was taken and no failure is reported, the caller polls until the
    /// server grants more window, and writes the rest.
    ///
    /// Fails with `ProcessHasExited`, and does nothing, on a closed channel.
    pub fn write(&mut self, data: &[u8], writer: &mut PacketWriter) -> (r: Result<WriteOutcome, Error>)
        requires
            old(self)@.wf(),
            old(writer).wf(),
        ensures
            final(self)@.wf(),
            final(writer).wf(),
            old(self)@.closed ==> (r matches Err(e) && e == Error::ProcessHasExited && final(self)@ == old(
                self,
            )@ && final(writer)@ == old(writer)@),
            !old(self)@.closed ==> ({
                let written = old(self)@.write(data@, old(writer)@);
                &&& r matches Ok(out)
                &&& out.wire@ == written.wire
                &&& out.taken == written.taken
                &&& out.messages == written.messages
                &&& out.error == written.error
                &&& final(self)@ == written.run
                &&& final(writer)@ == written.writer
            }),
    {
        if self.closed {
            return Err(Error::ProcessHasExited);
        }
        let mut out = WriteOutcome { wire: Vec::new(), taken: 0, messages: 0, error: None };
        let ghost start = self@;
        let ghost start_writer = writer@;
        proof {
            assert(data@.skip(0) =~= data@);
            let rest = self@.write(data@, writer@);
            assert(out.wire@ + rest.wire =~= rest.wire);
        }
        loop
            invariant
                start == old(self)@,
                start_writer == old(writer)@,
                !self@.closed,
                !start.closed,
                out.taken <= data@.len(),
                out.messages <= out.taken,
                out.error is None,
                self@.wf(),
                writer.wf(),
                ({
                    let whole = start.write(data@, start_writer);
                    let rest = self@.write(data@.skip(out.taken as int), writer@);
                    &&& whole.wire == out.wire@ + rest.wire
                    &&& whole.taken == out.taken + rest.taken
                    &&& whole.messages == out.messages + rest.messages
                    &&& whole.run == rest.run
                    &&& whole.writer == rest.writer
                    &&& whole.error == rest.error
                }),
            decreases data@.len() - out.taken,
        {
            let remaining = slice_subrange(data, out.taken, data.len());
            assert(remaining@ == data@.skip(out.taken as int));
            let most: u64 = if (self.server_max_packet_size as u64) < self.server_window {
                self.server_max_packet_size as u64
            } else {
                self.server_window
            };
            let step: usize = if (remaining.len() as u64) < most {
                remaining.len()
            } else {
                most as usize
            };
            assert(step == self@.chunk(remaining@.len()));
            if step == 0 {
                assert(out.wire@ + Seq::<u8>::empty() =~= out.wire@);
                return Ok(out);
            }
            let message = ChannelData {
                recipient_channel: self.server_channel,
                data: slice_to_vec(slice_subrange(remaining, 0, step)),
            };
            assert(message@.data =~= remaining@.take(step as int));
            assert(message@ == self@.chunk_message(remaining@));
            let ghost sent = out.wire@;
            match writer.send(&message) {
                Err(e) => {
                    out.error = Some(e);
                    assert(out.wire@ + Seq::<u8>::empty() =~= out.wire@);
                    return Ok(out);
                },
                Ok(wire) => {
                    put_slice(&mut out.wire, wire.as_slice());
                    self.server_window = self.server_window - step as u64;
                    out.taken = out.taken + step;
                    out.messages = out.messages + 1;
                    proof {
                        let rest = self@.write(data@.skip(out.taken as int), writer@);
                        assert(remaining@.skip(step as int) =~= data@.skip(out.taken as int));
                        assert(sent + (wire@ + rest.wire) =~= out.wire@ + rest.wire);
                    }
                },
            }
        }
    }

    /// Tells the server that the client is done with the channel, unless the
    /// server has closed it already.  Returns the bytes to send.
    pub fn close(&self, writer: &mut PacketWriter) -> (r: Result<Vec<u8>, Error>)
        requires
            old(writer).wf(),
        ensures
            final(writer).wf(),
            self@.closed ==> (r matches Ok(v) && v@.len() == 0 && final(writer)@ == old(writer)@),
            !self@.closed ==> match old(writer)@.send_message::<ChannelClose>(
                ChannelClose { recipient_channel: self@.server_channel },
            ) {
                Ok((wire, next)) => r matches Ok(v) && v@ == wire && final(writer)@ == next,
                Err(e) => r == Err::<Vec<u8>, Error>(e) && final(writer)@ == old(writer)@,
            },
    {
        if self.closed {
            return Ok(Vec::new());
        }
        writer.send(&ChannelClose { recipient_channel: self.server_channel })
    }
}

/// The rule of a half-duplex write: while it lasts, no event may arrive.
/// Fails with `UnexpectedEventDuringWrite` for any event but `Nothing`.
pub fn quiet(event: &RunEvent) -> (r: Result<(), Error>)
    ensures
        event@ is Nothing ==> r is Ok,
        !(event@ is Nothing) ==> r == Err::<(), Error>(Error::UnexpectedEventDuringWrite),
{
    match event {
        RunEvent::Nothing => Ok(()),
        _ => Err(Error::UnexpectedEventDuringWrite),
    }
}

/// After every turn of `poll` the client's window holds at least a quarter
/// of its full size: a turn that would leave less grants the server the
/// difference, in one message, and the window is full again.
pub proof fn lemma_window(run: RunView, message: Option<MessageView>, writer: WriterView)
    requires
        run.wf(),
    ensures
        run.poll(message, writer) matches Ok(polled) ==> ({
            &&& polled.run.wf()
            &&& polled.run.client_window >= CLIENT_INITIAL_WINDOW_SIZE / 4
            &&& message matches Some(MessageView::ChannelData(m)) ==> {
                let left = run.client_window - m.data.len();
                if left < CLIENT_WIN_TELL_TRIGGER {
                    &&& polled.run.client_window == CLIENT_INITIAL_WINDOW_SIZE
                    &&& writer.send_message::<ChannelWindowAdjust>(
                        ChannelWindowAdjust {
                            recipient_channel: run.server_channel,
                            bytes_to_add: (CLIENT_INITIAL_WINDOW_SIZE - left) as u32,
                        },
                    ) == Ok::<(Seq<u8>, WriterView), Error>((polled.wire, polled.writer))
                } else {
                    &&& polled.run.client_window == left
                    &&& polled.wire.len() == 0
                    &&& polled.writer == writer
                }
            }
        }),
{
}

} // verus!
