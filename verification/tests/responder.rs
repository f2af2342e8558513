use htpt::net::{htons, BACKLOG, LOOPBACK_ADDR, PORT};
use htpt::response::{response, response_segments, SEGMENT_COUNT};
use htpt::server::{
    connected_message, initial, listening_message, serve_connection, server_step, ServerAction,
    ServerError, ServerEvent, ServerState,
};
use htpt::writer::{run_write, write_step, WriteResult};

const EXPECTED_RESPONSE: &[u8] = b"HTTP/1.1 200 OK\r\nServer: htpt\r\nContent-Type: text/html\r\nConnection: Closed\r\n\r\n<h1>Hello World!</h1>\n\r\n";

#[test]
fn network_constants() {
    assert_eq!(PORT, 6971);
    assert_eq!(BACKLOG, 5);
    assert_eq!(LOOPBACK_ADDR, 0x0100_007F);
}

#[test]
fn htons_swaps_bytes() {
    assert_eq!(htons(0x1234), 0x3412);
    assert_eq!(htons(6971), 0x3B1B);
    assert_eq!(htons(0), 0);
    assert_eq!(htons(0x00FF), 0xFF00);
    assert_eq!(htons(0xFF00), 0x00FF);
}

#[test]
fn htons_is_involutive() {
    for n in [0u16, 1, 255, 256, 6971, 0x1234, u16::MAX] {
        assert_eq!(htons(htons(n)), n);
    }
}

#[test]
fn response_is_the_expected_bytes() {
    assert_eq!(response(), EXPECTED_RESPONSE.to_vec());
}

#[test]
fn segments_concatenate_to_the_response() {
    let segments = response_segments();
    assert_eq!(segments.len(), SEGMENT_COUNT);
    let mut whole: Vec<u8> = Vec::new();
    for segment in &segments {
        assert!(!segment.is_empty());
        whole.extend_from_slice(segment);
    }
    assert_eq!(whole, response());
}

#[test]
fn write_step_tracks_progress() {
    let mut sent: usize = 0;
    assert_eq!(write_step(10, &mut sent, 4), WriteResult::Sending);
    assert_eq!(sent, 4);
    assert_eq!(write_step(10, &mut sent, 0), WriteResult::Sending);
    assert_eq!(sent, 4);
    assert_eq!(write_step(10, &mut sent, 6), WriteResult::Complete);
    assert_eq!(sent, 10);
}

#[test]
fn write_step_reports_the_error() {
    let mut sent: usize = 3;
    assert_eq!(write_step(10, &mut sent, -32), WriteResult::Failed { code: -32 });
    assert_eq!(sent, 3);
}

#[test]
fn single_byte_chunks_transmit_everything() {
    let buf: Vec<u8> = (0u8..=199).collect();
    let caps: Vec<i64> = vec![1; buf.len()];
    let run = run_write(&buf, &caps);
    assert_eq!(run.result, WriteResult::Complete);
    assert_eq!(run.sent, buf.len());
    assert_eq!(run.transmitted, buf);
}

#[test]
fn random_chunks_transmit_everything() {
    let buf: Vec<u8> = (0u8..=199).collect();
    let mut state: u64 = 0x2545_F491_4F6C_DD1D;
    let mut caps: Vec<i64> = Vec::new();
    let mut total: i64 = 0;
    while total < buf.len() as i64 {
        state = state
            .wrapping_mul(6364136223846793005)
            .wrapping_add(1442695040888963407);
        let cap: i64 = ((state >> 33) % 7 + 1) as i64;
        caps.push(cap);
        total += cap;
    }
    let run = run_write(&buf, &caps);
    assert_eq!(run.result, WriteResult::Complete);
    assert_eq!(run.transmitted, buf);
}

#[test]
fn oversized_chunks_are_clamped() {
    let buf: Vec<u8> = vec![9, 8, 7];
    let run = run_write(&buf, &vec![1000]);
    assert_eq!(run.result, WriteResult::Complete);
    assert_eq!(run.sent, 3);
    assert_eq!(run.transmitted, buf);
}

#[test]
fn empty_buffer_completes_at_once() {
    let run = run_write(&Vec::new(), &Vec::new());
    assert_eq!(run.result, WriteResult::Complete);
    assert_eq!(run.sent, 0);
    assert!(run.transmitted.is_empty());
}

#[test]
fn a_failing_write_stops_the_loop() {
    let buf: Vec<u8> = (10u8..20).collect();
    let run = run_write(&buf, &vec![3, -11, 50]);
    assert_eq!(run.result, WriteResult::Failed { code: -11 });
    assert_eq!(run.sent, 3);
    assert_eq!(run.transmitted, buf[..3].to_vec());
}

#[test]
fn an_exhausted_transport_leaves_a_prefix() {
    let buf: Vec<u8> = (0u8..5).collect();
    let run = run_write(&buf, &vec![0, 2, 0]);
    assert_eq!(run.result, WriteResult::Sending);
    assert_eq!(run.sent, 2);
    assert_eq!(run.transmitted, buf[..2].to_vec());
}

#[test]
fn a_served_connection_receives_the_response() {
    let scripts: Vec<Vec<i64>> = vec![vec![1024]; SEGMENT_COUNT];
    let received = serve_connection(&scripts);
    assert_eq!(received, EXPECTED_RESPONSE.to_vec());
}

#[test]
fn a_served_connection_under_adversarial_chunking() {
    let scripts: Vec<Vec<i64>> = vec![vec![1; 64]; SEGMENT_COUNT];
    let received = serve_connection(&scripts);
    assert_eq!(received, EXPECTED_RESPONSE.to_vec());
}

#[test]
fn a_failed_segment_is_abandoned_and_serving_goes_on() {
    let mut scripts: Vec<Vec<i64>> = vec![vec![1024]; SEGMENT_COUNT];
    scripts[0] = vec![4, -54];
    let received = serve_connection(&scripts);
    let mut expected: Vec<u8> = b"HTTP".to_vec();
    for segment in response_segments().iter().skip(1) {
        expected.extend_from_slice(segment);
    }
    assert_eq!(received, expected);
}

#[test]
fn two_connections_receive_identical_bytes() {
    let scripts: Vec<Vec<i64>> = vec![vec![1024]; SEGMENT_COUNT];
    let first = serve_connection(&scripts);
    let ragged: Vec<Vec<i64>> = vec![vec![3; 32]; SEGMENT_COUNT];
    let second = serve_connection(&ragged);
    assert_eq!(first, second);
    assert_eq!(second, EXPECTED_RESPONSE.to_vec());
}

#[test]
fn startup_succeeds_step_by_step() {
    let (state, action) = initial();
    assert_eq!(state, ServerState::AwaitSocket);
    assert_eq!(action, ServerAction::CreateSocket);
    let (state, action) = server_step(state, ServerEvent::SocketResult { ret: 3 });
    assert_eq!(state, ServerState::AwaitBind);
    assert_eq!(action, ServerAction::BindSocket);
    let (state, action) = server_step(state, ServerEvent::BindResult { ret: 0 });
    assert_eq!(state, ServerState::AwaitListen);
    assert_eq!(action, ServerAction::StartListening);
    let (state, action) = server_step(state, ServerEvent::ListenResult { ret: 0 });
    assert_eq!(state, ServerState::Accepting);
    assert_eq!(action, ServerAction::AcceptConnection);
}

#[test]
fn socket_failure_exits_with_code_one() {
    let (state, _) = initial();
    let (state, action) = server_step(state, ServerEvent::SocketResult { ret: -1 });
    assert_eq!(state, ServerState::Finished { exit_code: 1 });
    assert_eq!(
        action,
        ServerAction::Exit {
            error: ServerError::SocketCreation,
            close_listener: false,
            exit_code: 1
        }
    );
}

#[test]
fn bind_failure_exits_with_code_one_and_no_listener() {
    let (state, action) = server_step(ServerState::AwaitBind, ServerEvent::BindResult { ret: -1 });
    assert_eq!(state, ServerState::Finished { exit_code: 1 });
    assert_eq!(
        action,
        ServerAction::Exit { error: ServerError::Bind, close_listener: false, exit_code: 1 }
    );
}

#[test]
fn listen_failure_exits_with_code_one() {
    let (state, action) =
        server_step(ServerState::AwaitListen, ServerEvent::ListenResult { ret: -1 });
    assert_eq!(state, ServerState::Finished { exit_code: 1 });
    assert_eq!(
        action,
        ServerAction::Exit { error: ServerError::Listen, close_listener: false, exit_code: 1 }
    );
}

#[test]
fn accept_failure_closes_the_listener_and_exits_with_code_one() {
    let (state, action) =
        server_step(ServerState::Accepting, ServerEvent::AcceptResult { ret: -1 });
    assert_eq!(state, ServerState::Finished { exit_code: 1 });
    assert_eq!(
        action,
        ServerAction::Exit { error: ServerError::Accept, close_listener: true, exit_code: 1 }
    );
}

#[test]
fn serving_returns_to_accepting() {
    let (state, action) =
        server_step(ServerState::Accepting, ServerEvent::AcceptResult { ret: 4 });
    assert_eq!(state, ServerState::Serving);
    assert_eq!(action, ServerAction::ServeClient);
    let (state, action) = server_step(state, ServerEvent::Served);
    assert_eq!(state, ServerState::Accepting);
    assert_eq!(action, ServerAction::AcceptConnection);
}

#[test]
fn diagnostic_prefixes_name_the_operation() {
    assert_eq!(ServerError::SocketCreation.prefix(), "Could not create TCP socket: ");
    assert_eq!(ServerError::Bind.prefix(), "Failed to bind to address: ");
    assert_eq!(ServerError::Listen.prefix(), "Could not start listening: ");
    assert_eq!(ServerError::Accept.prefix(), "Failed to accept connection: ");
}

#[test]
fn informational_messages() {
    assert_eq!(listening_message(), "Listening on port: 6971");
    assert_eq!(connected_message(), "Connected to client");
}
