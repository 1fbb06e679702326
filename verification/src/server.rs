//! The server's decisions. The server itself listens, reads and starts
//! programs; what it does next, and with what, is decided here, one event at
//! a time: `Listening`, then per connection `Decoding` and `Dispatching`,
//! then `Listening` again. The host of a request is resolved in the step
//! that leads from `Decoding` to `Dispatching`: it takes no work from
//! outside, so the server never rests between the two.
//!
//! A frame that cannot be decoded ends the server, as does every failure of
//! the listener. Only a failure to start the editor is survived.

use crate::alias::{resolve_host_name_to_local_configured_name, resolved, AliasTable};
use crate::codec::{decode_from_stream, decoded};
use crate::config::CodeOpenConfig;
use crate::editor::{editor_command, open_vscode_command, EditorCommand, EditorCommandView};
use crate::envelope::ByteReader;
use crate::error::{DecodeError, Failure};
use crate::request::{CodeOpenRequest, RequestView};
use vstd::prelude::*;

verus! {

/// Seconds that a connection is given to deliver its frame, so that one
/// silent peer does not hold up all that come after it.
pub const READ_TIMEOUT_SECONDS: u64 = 30;

/// Where the server stands.
#[derive(Debug, Clone, Copy, PartialEq, Eq, Structural)]
pub enum ServerState {
    /// The listener is not bound yet.
    Starting,
    /// Waiting for the next connection.
    Listening,
    /// A connection was accepted and its frame is being read.
    Decoding,
    /// The editor is being started for the request of that connection.
    Dispatching,
    /// The server has come to its end.
    Stopped,
}

/// What happened to the server's last action.
#[derive(Debug)]
pub enum ServerEvent {
    /// The listener is bound.
    Bound,
    /// The listener could not be bound.
    BindFailed,
    /// A connection was accepted.
    Accepted,
    /// Waiting for a connection failed.
    AcceptFailed,
    /// The bytes that the connection delivered: one frame, or less where the
    /// connection ended early.
    Received(Vec<u8>),
    /// The editor was started.
    Spawned,
    /// The editor could not be started.
    SpawnFailed,
}

/// What the server is to do next.
#[derive(Debug)]
pub enum ServerAction {
    /// Bind the listener to this address and port.
    Bind { ip: String, port: u16 },
    /// Wait for the next connection.
    Accept,
    /// Read one frame from the accepted connection.
    Receive,
    /// Start this program and do not wait for it.
    Spawn(EditorCommand),
    /// End the server with this failure.
    Stop(Failure),
}

/// What a [`ServerAction`] holds, as plain text.
pub enum ServerActionView {
    Bind { ip: Seq<char>, port: u16 },
    Accept,
    Receive,
    Spawn(EditorCommandView),
    Stop(Failure),
}

impl View for ServerAction {
    type V = ServerActionView;

    open spec fn view(&self) -> ServerActionView {
        match self {
            ServerAction::Bind { ip, port } => ServerActionView::Bind { ip: ip@, port: *port },
            ServerAction::Accept => ServerActionView::Accept,
            ServerAction::Receive => ServerActionView::Receive,
            ServerAction::Spawn(command) => ServerActionView::Spawn(command@),
            ServerAction::Stop(failure) => ServerActionView::Stop(*failure),
        }
    }
}

/// The editor command that received bytes lead to: the request in the frame,
/// its host resolved against the table.
pub open spec fn dispatched(
    received: Seq<u8>,
    table: Map<Seq<char>, Seq<char>>,
    windows: bool,
) -> Result<EditorCommandView, DecodeError> {
    match decoded::<CodeOpenRequest>(received) {
        Ok(RequestView::Open(info)) => Ok(editor_command(resolved(info, table), windows)),
        Err(e) => Err(e),
    }
}

/// Decodes the one request that a connection delivered, resolves its host
/// and gives the editor command for it.
pub fn dispatch(received: Vec<u8>, table: &AliasTable, windows: bool) -> (result: Result<
    EditorCommand,
    DecodeError,
>)
    ensures
        match result {
            Ok(command) => dispatched(received@, table@, windows) == Ok::<
                EditorCommandView,
                DecodeError,
            >(command@),
            Err(e) => dispatched(received@, table@, windows) == Err::<
                EditorCommandView,
                DecodeError,
            >(e),
        },
{
    let mut reader = ByteReader::new(received);
    match decode_from_stream::<CodeOpenRequest>(&mut reader) {
        Ok(CodeOpenRequest::Open(code_open_info)) => {
            let code_open_info = resolve_host_name_to_local_configured_name(code_open_info, table);
            Ok(open_vscode_command(code_open_info, windows))
        },
        Err(e) => Err(e),
    }
}

/// The state that an event leads to. An event that the state does not wait
/// for ends the server, and so does every failure but that of starting the
/// editor, which costs only the request at hand.
pub open spec fn next_state(state: ServerState, event: ServerEvent) -> ServerState {
    match (state, event) {
        (ServerState::Starting, ServerEvent::Bound) => ServerState::Listening,
        (ServerState::Listening, ServerEvent::Accepted) => ServerState::Decoding,
        (ServerState::Decoding, ServerEvent::Received(bytes)) => if decoded::<CodeOpenRequest>(
            bytes@,
        ) is Ok {
            ServerState::Dispatching
        } else {
            ServerState::Stopped
        },
        (ServerState::Dispatching, ServerEvent::Spawned) => ServerState::Listening,
        (ServerState::Dispatching, ServerEvent::SpawnFailed) => ServerState::Listening,
        _ => ServerState::Stopped,
    }
}

/// The action that an event leads to.
pub open spec fn action_for(
    state: ServerState,
    event: ServerEvent,
    table: Map<Seq<char>, Seq<char>>,
    windows: bool,
) -> ServerActionView {
    match (state, event) {
        (ServerState::Starting, ServerEvent::Bound) => ServerActionView::Accept,
        (ServerState::Starting, ServerEvent::BindFailed) => ServerActionView::Stop(Failure::Bind),
        (ServerState::Listening, ServerEvent::Accepted) => ServerActionView::Receive,
        (ServerState::Listening, ServerEvent::AcceptFailed) => ServerActionView::Stop(
            Failure::Accept,
        ),
        (ServerState::Decoding, ServerEvent::Received(bytes)) => match dispatched(
            bytes@,
            table,
            windows,
        ) {
            Ok(command) => ServerActionView::Spawn(command),
            Err(e) => ServerActionView::Stop(Failure::Decode(e)),
        },
        (ServerState::Dispatching, ServerEvent::Spawned) => ServerActionView::Accept,
        (ServerState::Dispatching, ServerEvent::SpawnFailed) => ServerActionView::Accept,
        _ => ServerActionView::Stop(Failure::UnexpectedEvent),
    }
}

/// A server: its state, and the table and platform it was started with.
pub struct Server {
    state: ServerState,
    table: AliasTable,
    windows: bool,
}

impl Server {
    /// Where the server stands.
    pub closed spec fn state(&self) -> ServerState {
        self.state
    }

    /// The alias table of this run.
    pub closed spec fn table(&self) -> Map<Seq<char>, Seq<char>> {
        self.table@
    }

    /// Whether the editor is started as Windows starts it.
    pub closed spec fn windows(&self) -> bool {
        self.windows
    }

    /// Where the server stands.
    pub fn current_state(&self) -> (state: ServerState)
        ensures
            state == self.state(),
    {
        self.state
    }

    /// Takes note of `event` and says what to do next. The table stays as it
    /// was loaded.
    pub fn step(&mut self, event: ServerEvent) -> (action: ServerAction)
        ensures
            final(self).state() == next_state(old(self).state(), event),
            final(self).table() == old(self).table(),
            final(self).windows() == old(self).windows(),
            action@ == action_for(old(self).state(), event, old(self).table(), old(self).windows()),
    {
        let (state, action) = match self.state {
            ServerState::Starting => match event {
                ServerEvent::Bound => (ServerState::Listening, ServerAction::Accept),
                ServerEvent::BindFailed => (ServerState::Stopped, ServerAction::Stop(Failure::Bind)),
                _ => (ServerState::Stopped, ServerAction::Stop(Failure::UnexpectedEvent)),
            },
            ServerState::Listening => match event {
                ServerEvent::Accepted => (ServerState::Decoding, ServerAction::Receive),
                ServerEvent::AcceptFailed => (
                    ServerState::Stopped,
                    ServerAction::Stop(Failure::Accept),
                ),
                _ => (ServerState::Stopped, ServerAction::Stop(Failure::UnexpectedEvent)),
            },
            ServerState::Decoding => match event {
                ServerEvent::Received(bytes) => match dispatch(bytes, &self.table, self.windows) {
                    Ok(command) => (ServerState::Dispatching, ServerAction::Spawn(command)),
                    Err(e) => (ServerState::Stopped, ServerAction::Stop(Failure::Decode(e))),
                },
                _ => (ServerState::Stopped, ServerAction::Stop(Failure::UnexpectedEvent)),
            },
            ServerState::Dispatching => match event {
                ServerEvent::Spawned => (ServerState::Listening, ServerAction::Accept),
                ServerEvent::SpawnFailed => (ServerState::Listening, ServerAction::Accept),
                _ => (ServerState::Stopped, ServerAction::Stop(Failure::UnexpectedEvent)),
            },
            ServerState::Stopped => (
                ServerState::Stopped,
                ServerAction::Stop(Failure::UnexpectedEvent),
            ),
        };
        self.state = state;
        action
    }
}

/// A server that has yet to bind its listener, and the order to bind it
/// where the configuration says.
pub fn server_start(code_open_config: &CodeOpenConfig, table: AliasTable, windows: bool) -> (started:
    (Server, ServerAction))
    ensures
        started.0.state() == ServerState::Starting,
        started.0.table() == table@,
        started.0.windows() == windows,
        started.1@ == (ServerActionView::Bind {
            ip: code_open_config.ip@,
            port: code_open_config.port,
        }),
{
    let server = Server { state: ServerState::Starting, table, windows };
    let action = ServerAction::Bind {
        ip: code_open_config.ip.clone(),
        port: code_open_config.port,
    };
    (server, action)
}

/// The state after a run of events, from the start.
pub open spec fn state_after(events: Seq<ServerEvent>) -> ServerState
    decreases events.len(),
{
    if events.len() == 0 {
        ServerState::Starting
    } else {
        next_state(state_after(events.drop_last()), events.last())
    }
}

/// The event at `at` opens the decoding of a request: the server was
/// listening and a connection was accepted.
pub open spec fn begins_decoding(events: Seq<ServerEvent>, at: int) -> bool {
    &&& 0 <= at < events.len()
    &&& state_after(events.take(at)) == ServerState::Listening
    &&& events[at] is Accepted
}

/// The event at `at` closes a dispatch: the editor was being started, and
/// the server hears what became of it and listens again.
pub open spec fn completes_dispatch(events: Seq<ServerEvent>, at: int) -> bool {
    &&& 0 <= at < events.len()
    &&& state_after(events.take(at)) == ServerState::Dispatching
    &&& state_after(events.take(at + 1)) == ServerState::Listening
}

/// Requests are handled one after the other: between the moments at which
/// the decoding of two requests begins, the dispatch of the earlier one has
/// come to its end.
pub proof fn lemma_sequential_dispatch(events: Seq<ServerEvent>, earlier: int, later: int)
    requires
        earlier < later,
        begins_decoding(events, earlier),
        begins_decoding(events, later),
    ensures
        exists|between: int|
            earlier < between < later && #[trigger] completes_dispatch(events, between),
{
    // The server listens at `later`, so the event before it led there: it
    // closed a dispatch, as nothing else leads to listening but the bind,
    // and the bind is the first event of all.
    let last = later - 1;
    assert(events.take(later).drop_last() =~= events.take(last));
    assert(events.take(later).last() == events[last]);
    assert(last != earlier);
    assert(events.take(last).len() > 0);
    assert(events.take(last + 1) =~= events.take(later));
    assert(completes_dispatch(events, last));
}

/// Each action goes with the state that waits for its outcome: the server
/// stops exactly when it is told to, starts the editor exactly when it goes
/// on to dispatching, reads exactly when it goes on to decoding and waits
/// for a connection exactly when it goes on to listening.
pub proof fn lemma_action_matches_state(
    state: ServerState,
    event: ServerEvent,
    table: Map<Seq<char>, Seq<char>>,
    windows: bool,
)
    ensures
        action_for(state, event, table, windows) is Stop <==> next_state(state, event)
            == ServerState::Stopped,
        action_for(state, event, table, windows) is Spawn <==> next_state(state, event)
            == ServerState::Dispatching,
        action_for(state, event, table, windows) is Receive <==> next_state(state, event)
            == ServerState::Decoding,
        action_for(state, event, table, windows) is Accept <==> next_state(state, event)
            == ServerState::Listening,
        !(action_for(state, event, table, windows) is Bind),
{
}

} // verus!
