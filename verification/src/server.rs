//! The socket lifecycle and the accept loop.
//!
//! The responder's control flow is a state machine: create the socket,
//! bind it to the loopback address and the fixed port, listen, then
//! accept and serve one client at a time until an accept call fails.
//! Every operating-system call is performed by the caller, which feeds
//! the raw result back in as a [`ServerEvent`]; `server_step` is the
//! verified decision that maps the current state and that result to the
//! next state and the next action. Serving one accepted client is
//! modelled by `serve_connection`, which plays the seven segment
//! transmissions of the fixed response against scripted transports.

use crate::response::{response_bytes, response_segments, segment_bytes, SEGMENT_COUNT};
use crate::writer::{run_write, write_run_model, WriteResult};
use vstd::prelude::*;

verus! {

/// The failed operation behind a diagnostic or an exit.
#[derive(Clone, Copy, Debug, PartialEq, Eq, Structural)]
pub enum ServerError {
    /// The socket could not be created.
    SocketCreation,
    /// The socket could not be bound to the loopback address and port.
    Bind,
    /// The socket could not be marked listening.
    Listen,
    /// An accept call failed; it ends the serving loop.
    Accept,
}

/// Where the responder stands in its lifecycle.
#[derive(Clone, Copy, Debug, PartialEq, Eq, Structural)]
pub enum ServerState {
    /// No socket exists yet; a create call is outstanding.
    AwaitSocket,
    /// The socket exists; a bind call is outstanding.
    AwaitBind,
    /// The socket is bound; a listen call is outstanding.
    AwaitListen,
    /// The socket is listening; an accept call is outstanding.
    Accepting,
    /// A client is connected and is being served.
    Serving,
    /// The process is to exit with this code; no call is outstanding.
    Finished { exit_code: i32 },
}

/// The raw result of the one outstanding operating-system call, fed
/// back into the state machine. A negative value is a failure.
#[derive(Clone, Copy, Debug, PartialEq, Eq, Structural)]
pub enum ServerEvent {
    /// What the create call returned: a handle, or a negative value.
    SocketResult { ret: i64 },
    /// What the bind call returned.
    BindResult { ret: i64 },
    /// What the listen call returned.
    ListenResult { ret: i64 },
    /// What the accept call returned: a connection handle, or a
    /// negative value.
    AcceptResult { ret: i64 },
    /// The connected client was served and its handle closed.
    Served,
}

/// What the caller must do next.
#[derive(Clone, Copy, Debug, PartialEq, Eq, Structural)]
pub enum ServerAction {
    /// Request a stream-oriented IPv4 socket from the operating system.
    CreateSocket,
    /// Bind the socket to the loopback address and the fixed port.
    BindSocket,
    /// Mark the socket listening with the fixed backlog, and announce
    /// the port on the standard output stream.
    StartListening,
    /// Block until a client connects, discarding the peer address.
    AcceptConnection,
    /// Announce the client, transmit the seven response segments, then
    /// close the connection handle unconditionally — the write results
    /// are not inspected.
    ServeClient,
    /// Report the failed operation on the diagnostic stream, close the
    /// listening socket if `close_listener`, and exit with `exit_code`.
    Exit { error: ServerError, close_listener: bool, exit_code: i32 },
}

/// Whether `event` reports on the call that `state` has outstanding.
pub open spec fn step_expected(state: ServerState, event: ServerEvent) -> bool {
    match (state, event) {
        (ServerState::AwaitSocket, ServerEvent::SocketResult { .. }) => true,
        (ServerState::AwaitBind, ServerEvent::BindResult { .. }) => true,
        (ServerState::AwaitListen, ServerEvent::ListenResult { .. }) => true,
        (ServerState::Accepting, ServerEvent::AcceptResult { .. }) => true,
        (ServerState::Serving, ServerEvent::Served) => true,
        _ => false,
    }
}

/// The transition function of the responder. A failed create, bind or
/// listen is fatal at once and closes nothing; a failed accept is the
/// sole exit from the serving loop and closes the listening socket;
/// every exit carries code 1. A served connection leads straight back
/// to the next accept.
pub open spec fn step_spec(state: ServerState, event: ServerEvent) -> (
    ServerState,
    ServerAction,
) {
    match (state, event) {
        (ServerState::AwaitSocket, ServerEvent::SocketResult { ret }) => {
            if ret < 0 {
                (
                    ServerState::Finished { exit_code: 1 },
                    ServerAction::Exit {
                        error: ServerError::SocketCreation,
                        close_listener: false,
                        exit_code: 1,
                    },
                )
            } else {
                (ServerState::AwaitBind, ServerAction::BindSocket)
            }
        },
        (ServerState::AwaitBind, ServerEvent::BindResult { ret }) => {
            if ret < 0 {
                (
                    ServerState::Finished { exit_code: 1 },
                    ServerAction::Exit {
                        error: ServerError::Bind,
                        close_listener: false,
                        exit_code: 1,
                    },
                )
            } else {
                (ServerState::AwaitListen, ServerAction::StartListening)
            }
        },
        (ServerState::AwaitListen, ServerEvent::ListenResult { ret }) => {
            if ret < 0 {
                (
                    ServerState::Finished { exit_code: 1 },
                    ServerAction::Exit {
                        error: ServerError::Listen,
                        close_listener: false,
                        exit_code: 1,
                    },
                )
            } else {
                (ServerState::Accepting, ServerAction::AcceptConnection)
            }
        },
        (ServerState::Accepting, ServerEvent::AcceptResult { ret }) => {
            if ret < 0 {
                (
                    ServerState::Finished { exit_code: 1 },
                    ServerAction::Exit {
                        error: ServerError::Accept,
                        close_listener: true,
                        exit_code: 1,
                    },
                )
            } else {
                (ServerState::Serving, ServerAction::ServeClient)
            }
        },
        (ServerState::Serving, ServerEvent::Served) => {
            (ServerState::Accepting, ServerAction::AcceptConnection)
        },
        _ => (state, ServerAction::CreateSocket),
    }
}

/// The state the responder starts in, and the first action.
pub fn initial() -> (r: (ServerState, ServerAction))
    ensures
        r == (ServerState::AwaitSocket, ServerAction::CreateSocket),
{
    (ServerState::AwaitSocket, ServerAction::CreateSocket)
}

/// One step of the responder: from the current state and the raw result
/// of the outstanding call to the next state and the next action.
pub fn server_step(state: ServerState, event: ServerEvent) -> (r: (ServerState, ServerAction))
    requires
        step_expected(state, event),
    ensures
        r == step_spec(state, event),
{
    match (state, event) {
        (ServerState::AwaitSocket, ServerEvent::SocketResult { ret }) => {
            if ret < 0 {
                (
                    ServerState::Finished { exit_code: 1 },
                    ServerAction::Exit {
                        error: ServerError::SocketCreation,
                        close_listener: false,
                        exit_code: 1,
                    },
                )
            } else {
                (ServerState::AwaitBind, ServerAction::BindSocket)
            }
        },
        (ServerState::AwaitBind, ServerEvent::BindResult { ret }) => {
            if ret < 0 {
                (
                    ServerState::Finished { exit_code: 1 },
                    ServerAction::Exit {
                        error: ServerError::Bind,
                        close_listener: false,
                        exit_code: 1,
                    },
                )
            } else {
                (ServerState::AwaitListen, ServerAction::StartListening)
            }
        },
        (ServerState::AwaitListen, ServerEvent::ListenResult { ret }) => {
            if ret < 0 {
                (
                    ServerState::Finished { exit_code: 1 },
                    ServerAction::Exit {
                        error: ServerError::Listen,
                        close_listener: false,
                        exit_code: 1,
                    },
                )
            } else {
                (ServerState::Accepting, ServerAction::AcceptConnection)
            }
        },
        (ServerState::Accepting, ServerEvent::AcceptResult { ret }) => {
            if ret < 0 {
                (
                    ServerState::Finished { exit_code: 1 },
                    ServerAction::Exit {
                        error: ServerError::Accept,
                        close_listener: true,
                        exit_code: 1,
                    },
                )
            } else {
                (ServerState::Serving, ServerAction::ServeClient)
            }
        },
        (ServerState::Serving, ServerEvent::Served) => {
            (ServerState::Accepting, ServerAction::AcceptConnection)
        },
        _ => {
            proof {
                assert(false);
            }
            (state, ServerAction::CreateSocket)
        },
    }
}

/// Every exit of the responder carries process exit code 1: there is no
/// path that finishes with any other code.
pub proof fn lemma_exit_code_always_one(state: ServerState, event: ServerEvent)
    requires
        step_expected(state, event),
    ensures
        step_spec(state, event).0 matches ServerState::Finished { exit_code } ==> exit_code == 1,
        step_spec(state, event).1 matches ServerAction::Exit { exit_code, .. } ==> exit_code == 1,
{
}

/// A failed accept call terminates the serving loop: the next action
/// reports it, closes the listening socket, and exits with code 1.
pub proof fn lemma_accept_failure_shuts_down(ret: i64)
    requires
        ret < 0,
    ensures
        step_spec(ServerState::Accepting, ServerEvent::AcceptResult { ret }) == (
            ServerState::Finished { exit_code: 1 },
            ServerAction::Exit {
                error: ServerError::Accept,
                close_listener: true,
                exit_code: 1,
            },
        ),
{
}

/// A failed bind call is fatal at once: the process exits with code 1,
/// and no listening socket was ever set up, so none is left to close.
pub proof fn lemma_bind_failure_is_fatal(ret: i64)
    requires
        ret < 0,
    ensures
        step_spec(ServerState::AwaitBind, ServerEvent::BindResult { ret }) == (
            ServerState::Finished { exit_code: 1 },
            ServerAction::Exit {
                error: ServerError::Bind,
                close_listener: false,
                exit_code: 1,
            },
        ),
{
}

/// Once the responder is `Finished` no event applies: the machine has
/// no transition out of it, so a run that fails at startup — at the
/// create, bind or listen call — stops there and never reaches the
/// listening or serving states.
pub proof fn lemma_finished_is_terminal(exit_code: i32, event: ServerEvent)
    ensures
        !step_expected(ServerState::Finished { exit_code }, event),
{
}

/// The prefix of segment `i` of the response that the transport of
/// script `caps` accepted (see `write_run_model`): all of it when the
/// transmission completed, a proper prefix when it failed or stalled.
pub open spec fn segment_received(i: int, caps: Seq<i64>) -> Seq<u8> {
    segment_bytes(i).take(write_run_model(segment_bytes(i).len() as int, 0, caps).0)
}

/// The bytes the client of one served connection receives when the
/// seven segment transmissions are answered by the given scripts. A
/// failed or stalled segment contributes only its accepted prefix, and
/// serving goes on with the next segment regardless: the write results
/// are not inspected.
pub open spec fn connection_received(scripts: Seq<Seq<i64>>) -> Seq<u8> {
    segment_received(0, scripts[0]) + segment_received(1, scripts[1]) + segment_received(
        2,
        scripts[2],
    ) + segment_received(3, scripts[3]) + segment_received(4, scripts[4]) + segment_received(
        5,
        scripts[5],
    ) + segment_received(6, scripts[6])
}

/// Whether every one of the seven segment transmissions ran to
/// completion under the given scripts.
pub open spec fn all_segments_complete(scripts: Seq<Seq<i64>>) -> bool {
    forall|i: int|
        0 <= i < SEGMENT_COUNT ==> write_run_model(
            segment_bytes(i).len() as int,
            0,
            scripts[i],
        ).1 == WriteResult::Complete
}

/// Serves one accepted client against scripted transports, one script
/// per response segment: transmits the seven segments in order through
/// the reliable-write loop and returns the bytes the client received.
pub fn serve_connection(scripts: &Vec<Vec<i64>>) -> (received: Vec<u8>)
    requires
        scripts@.len() == SEGMENT_COUNT,
    ensures
        received@ == connection_received(scripts.deep_view()),
        all_segments_complete(scripts.deep_view()) ==> received@ == response_bytes(),
{
    proof {
        assert forall|i: int| 0 <= i < SEGMENT_COUNT implies scripts.deep_view()[i]
            == scripts@[i]@ by {
            assert(scripts@[i].deep_view() =~= scripts@[i]@);
        }
    }
    let segs = response_segments();
    let r0 = run_write(&segs[0], &scripts[0]);
    let mut received = r0.transmitted;
    let mut r1 = run_write(&segs[1], &scripts[1]);
    received.append(&mut r1.transmitted);
    let mut r2 = run_write(&segs[2], &scripts[2]);
    received.append(&mut r2.transmitted);
    let mut r3 = run_write(&segs[3], &scripts[3]);
    received.append(&mut r3.transmitted);
    let mut r4 = run_write(&segs[4], &scripts[4]);
    received.append(&mut r4.transmitted);
    let mut r5 = run_write(&segs[5], &scripts[5]);
    received.append(&mut r5.transmitted);
    let mut r6 = run_write(&segs[6], &scripts[6]);
    received.append(&mut r6.transmitted);
    proof {
        if all_segments_complete(scripts.deep_view()) {
            lemma_complete_connection_receives_response(scripts.deep_view());
        }
    }
    received
}

/// Every connection whose seven segment transmissions all complete
/// delivers to its client exactly the fixed response — the scripts, and
/// so the transport's chunking, make no difference to the bytes.
pub proof fn lemma_complete_connection_receives_response(scripts: Seq<Seq<i64>>)
    requires
        scripts.len() == SEGMENT_COUNT,
        all_segments_complete(scripts),
    ensures
        connection_received(scripts) == response_bytes(),
{
    assert forall|i: int| 0 <= i < SEGMENT_COUNT implies segment_received(i, scripts[i])
        == segment_bytes(i) by {
        crate::writer::lemma_run_bounds(segment_bytes(i).len() as int, 0, scripts[i]);
        assert(segment_bytes(i).take(segment_bytes(i).len() as int) =~= segment_bytes(i));
    }
}

/// Serving a connection after an earlier one has fully closed produces
/// an identical byte sequence: the response is a constant, and nothing
/// of one connection survives into the next.
pub proof fn lemma_successive_connections_identical(
    first: Seq<Seq<i64>>,
    second: Seq<Seq<i64>>,
)
    requires
        first.len() == SEGMENT_COUNT,
        second.len() == SEGMENT_COUNT,
        all_segments_complete(first),
        all_segments_complete(second),
    ensures
        connection_received(first) == connection_received(second),
{
    lemma_complete_connection_receives_response(first);
    lemma_complete_connection_receives_response(second);
}

/// The diagnostic prefix written before the operating-system error text
/// when the given operation fails.
pub open spec fn prefix_text(e: ServerError) -> Seq<char> {
    match e {
        ServerError::SocketCreation => "Could not create TCP socket: "@,
        ServerError::Bind => "Failed to bind to address: "@,
        ServerError::Listen => "Could not start listening: "@,
        ServerError::Accept => "Failed to accept connection: "@,
    }
}

impl ServerError {
    /// The diagnostic prefix for this failed operation; the reporter
    /// writes it, then the operating system's description of the error.
    pub fn prefix(&self) -> (r: &'static str)
        ensures
            r@ == prefix_text(*self),
    {
        match self {
            ServerError::SocketCreation => "Could not create TCP socket: ",
            ServerError::Bind => "Failed to bind to address: ",
            ServerError::Listen => "Could not start listening: ",
            ServerError::Accept => "Failed to accept connection: ",
        }
    }
}

/// The informational line announcing the listening port, written to the
/// standard output stream once the socket is listening.
pub fn listening_message() -> (r: &'static str)
    ensures
        r@ == "Listening on port: 6971"@,
{
    "Listening on port: 6971"
}

/// The informational line written for each accepted client.
pub fn connected_message() -> (r: &'static str)
    ensures
        r@ == "Connected to client"@,
{
    "Connected to client"
}

/// Serving a client leaves the responder exactly where a fresh listen
/// leaves it: in `Accepting`, about to accept. No state is carried from
/// one connection to the next.
pub proof fn lemma_serving_leaves_no_state()
    ensures
        step_spec(ServerState::Serving, ServerEvent::Served) == (
            ServerState::Accepting,
            ServerAction::AcceptConnection,
        ),
        forall|ret: i64|
            #![auto]
            step_spec(ServerState::Accepting, ServerEvent::AcceptResult { ret }) == step_spec(
                step_spec(ServerState::Serving, ServerEvent::Served).0,
                ServerEvent::AcceptResult { ret },
            ),
{
}

} // verus!
