use uplink::enums::command::Command;
use uplink::enums::response::Response;
use uplink::handlers::response_handler::{accept_handshake, process_response, ResponseAction};
use uplink::handlers::rx_command_handler::{
    complete, Dispatch, Dropped, Received, RxCommandHandler, RxOutcome, RxStep, Task, TaskOutput,
};
use uplink::handlers::tx_command_handler::{TxCommandHandler, TxOutcome};
use uplink::shared_state::SharedState;
use uplink::transport::communication::{prepare_tx, FrameError};

const EXEC_DENIED: &str = "Peer has disabled executing commands.";
const TRANSFER_DENIED: &str = "Transfer is disallowed (--no-transfer flag).";

fn message(content: &str) -> Response {
    Response::Message { content: content.to_string() }
}

fn gated_by_exec() -> Vec<Command> {
    vec![
        Command::Info,
        Command::Whoami,
        Command::Pwd,
        Command::Users,
        Command::Netstat,
        Command::Network,
        Command::Execute { command: "uname -a".to_string() },
    ]
}

fn gated_by_transfer() -> Vec<Command> {
    vec![
        Command::ListFiles,
        Command::GetFile { remote_path: "a".to_string(), local_path: "b".to_string() },
        Command::PutFile { remote_path: "a".to_string(), up_path: "b".to_string(), data: vec![1] },
    ]
}

fn frame(outcome: TxOutcome) -> Vec<u8> {
    match outcome {
        TxOutcome::Send(frame) => frame,
        other => panic!("no frame in {:?}", other),
    }
}

#[test]
fn no_exec_refuses_every_command_that_runs_something() {
    let handler = RxCommandHandler::new("p".to_string(), true, false, true);
    let mut state = SharedState::new();
    for command in gated_by_exec() {
        assert_eq!(handler.handle_command(&mut state, command), Dispatch::Reply(message(EXEC_DENIED)));
    }
    for command in gated_by_transfer() {
        assert!(matches!(handler.handle_command(&mut state, command), Dispatch::Run(_)));
    }
}

#[test]
fn no_transfer_refuses_every_command_that_touches_files() {
    let handler = RxCommandHandler::new("p".to_string(), false, true, true);
    let mut state = SharedState::new();
    for command in gated_by_transfer() {
        assert_eq!(handler.handle_command(&mut state, command), Dispatch::Reply(message(TRANSFER_DENIED)));
    }
    assert_eq!(handler.handle_command(&mut state, Command::Pwd), Dispatch::Run(Task::Pwd));
}

#[test]
fn echo_is_always_allowed() {
    let handler = RxCommandHandler::new("p".to_string(), true, true, true);
    let mut state = SharedState::new();
    assert_eq!(
        handler.handle_command(&mut state, Command::Echo { message: "hello".to_string() }),
        Dispatch::ShowAndReply { text: "hello".to_string(), response: message("[+] hello") }
    );
}

#[test]
fn allowed_commands_become_tasks() {
    let handler = RxCommandHandler::new("p".to_string(), false, false, true);
    let mut state = SharedState::new();
    assert_eq!(handler.handle_command(&mut state, Command::Whoami), Dispatch::Run(Task::Whoami));
    assert_eq!(handler.handle_command(&mut state, Command::Users), Dispatch::Run(Task::Users));
    assert_eq!(handler.handle_command(&mut state, Command::ListFiles), Dispatch::Run(Task::ListFiles));
    assert_eq!(handler.handle_command(&mut state, Command::Info), Dispatch::Reply(message("NOT IMPLEMENTED")));
    assert_eq!(handler.handle_command(&mut state, Command::Netstat), Dispatch::Reply(message("NOT IMPLEMENTED")));
    assert_eq!(handler.handle_command(&mut state, Command::Network), Dispatch::Reply(message("NOT IMPLEMENTED")));
    assert_eq!(
        handler.handle_command(
            &mut state,
            Command::GetFile { remote_path: "r".to_string(), local_path: "l".to_string() }
        ),
        Dispatch::Run(Task::ReadFile { file_path: "r".to_string(), local_path: "l".to_string() })
    );
    assert_eq!(
        handler.handle_command(&mut state, Command::Execute { command: "id".to_string() }),
        Dispatch::Run(Task::RunShell { command: "id".to_string() })
    );
}

#[test]
fn tasks_complete_into_responses() {
    assert_eq!(complete(Task::Pwd, Ok(TaskOutput::Text("/home".to_string()))), message("/home"));
    assert_eq!(complete(Task::Whoami, Ok(TaskOutput::Text("root".to_string()))), message("root"));
    assert_eq!(
        complete(Task::Users, Ok(TaskOutput::Names(vec!["root".to_string()]))),
        Response::UserList { users: vec!["root".to_string()] }
    );
    assert_eq!(
        complete(Task::ListFiles, Ok(TaskOutput::Names(vec!["a".to_string()]))),
        Response::FileList { files: vec!["a".to_string()] }
    );
    assert_eq!(
        complete(
            Task::ReadFile { file_path: "r".to_string(), local_path: "l".to_string() },
            Ok(TaskOutput::Data(vec![1, 2]))
        ),
        Response::FileData { file_path: "l".to_string(), data: vec![1, 2] }
    );
    assert_eq!(
        complete(Task::RunShell { command: "uname".to_string() }, Ok(TaskOutput::Text("Linux\n".to_string()))),
        Response::CommandOutput { output: "Linux\n".to_string() }
    );
    assert_eq!(
        complete(
            Task::ReadFile { file_path: "r".to_string(), local_path: "l".to_string() },
            Err("No such file".to_string())
        ),
        message("Failed to read file: No such file")
    );
    assert_eq!(
        complete(
            Task::WriteFile { file_path: "a".to_string(), up_path: "b".to_string(), data: vec![] },
            Err("denied".to_string())
        ),
        message("Failed to write file: denied")
    );
    assert_eq!(
        complete(Task::RunShell { command: "x".to_string() }, Err("not found".to_string())),
        message("Failed to execute command: not found\n")
    );
    assert_eq!(complete(Task::ListFiles, Err("gone".to_string())), message("Failed to read directory: gone"));
    assert_eq!(complete(Task::Pwd, Err("gone".to_string())), message("gone"));
    assert_eq!(complete(Task::Pwd, Ok(TaskOutput::Done)), message("Unexpected result of the executor."));
}

#[test]
fn echo_round_trip_in_no_envelope_mode() {
    let a_tx = TxCommandHandler::new("p".to_string(), true);
    let a_rx = RxCommandHandler::new("p".to_string(), false, false, true);
    let b_rx = RxCommandHandler::new("p".to_string(), false, false, true);
    let mut a_state = SharedState::new();
    let mut b_state = SharedState::new();

    let sent = frame(a_tx.handle_command(&a_state, "ECHO hello"));
    let step = b_rx.handle_rx(&mut b_state, Received::Binary(sent));
    let response = match step {
        RxStep::Continue(RxOutcome::Command(Dispatch::ShowAndReply { text, response })) => {
            assert_eq!(text, "hello");
            response
        }
        other => panic!("unexpected step {:?}", other),
    };
    assert_eq!(response, message("[+] hello"));
    let reply = b_rx.send_response(&b_state, &response).unwrap();
    assert_eq!(
        a_rx.handle_rx(&mut a_state, Received::Binary(reply)),
        RxStep::Continue(RxOutcome::Response(ResponseAction::Print("Received message: [+] hello".to_string())))
    );
}

#[test]
fn list_files_with_no_transfer_on_the_receiver() {
    let a_tx = TxCommandHandler::new("p".to_string(), true);
    let b_rx = RxCommandHandler::new("p".to_string(), false, true, true);
    let mut state = SharedState::new();
    let sent = frame(a_tx.handle_command(&state, "LS"));
    assert_eq!(
        b_rx.handle_rx(&mut state, Received::Binary(sent)),
        RxStep::Continue(RxOutcome::Command(Dispatch::Reply(message(TRANSFER_DENIED))))
    );
}

#[test]
fn execute_with_no_exec_on_the_receiver() {
    let a_tx = TxCommandHandler::new("p".to_string(), true);
    let b_rx = RxCommandHandler::new("p".to_string(), true, false, true);
    let mut state = SharedState::new();
    let sent = frame(a_tx.handle_command(&state, "EXEC uname -a"));
    assert_eq!(
        b_rx.handle_rx(&mut state, Received::Binary(sent)),
        RxStep::Continue(RxOutcome::Command(Dispatch::Reply(message(EXEC_DENIED))))
    );
}

#[test]
fn put_file_writes_and_reports_the_upload() {
    let a_tx = TxCommandHandler::new("p".to_string(), true);
    let b_rx = RxCommandHandler::new("p".to_string(), false, false, true);
    let mut state = SharedState::new();
    let (file_path, file_up_path) = match a_tx.handle_command(&state, "U ./a.txt /tmp/a.txt") {
        TxOutcome::ReadFile { file_path, file_up_path } => (file_path, file_up_path),
        other => panic!("unexpected outcome {:?}", other),
    };
    let sent = a_tx.send_upload(&state, file_path, file_up_path, b"hi".to_vec()).unwrap();
    let task = match b_rx.handle_rx(&mut state, Received::Binary(sent)) {
        RxStep::Continue(RxOutcome::Command(Dispatch::Run(task))) => task,
        other => panic!("unexpected step {:?}", other),
    };
    assert_eq!(
        task,
        Task::WriteFile { file_path: "./a.txt".to_string(), up_path: "/tmp/a.txt".to_string(), data: b"hi".to_vec() }
    );
    assert_eq!(complete(task, Ok(TaskOutput::Done)), message("File ./a.txt uploaded successfully."));
}

#[test]
fn malformed_frames_are_dropped_and_the_receiver_goes_on() {
    let a_tx = TxCommandHandler::new("p".to_string(), true);
    let b_rx = RxCommandHandler::new("p".to_string(), false, false, true);
    let mut state = SharedState::new();
    assert_eq!(
        b_rx.handle_rx(&mut state, Received::Binary(vec![0x5a; 64])),
        RxStep::Continue(RxOutcome::Dropped(Dropped::Undecodable(FrameError::DecryptionFailure)))
    );
    assert_eq!(
        b_rx.handle_rx(&mut state, Received::Binary(vec![1, 2, 3])),
        RxStep::Continue(RxOutcome::Dropped(Dropped::Undecodable(FrameError::DecryptionFailure)))
    );
    let sent = frame(a_tx.handle_command(&state, "ECHO still here"));
    assert!(matches!(
        b_rx.handle_rx(&mut state, Received::Binary(sent)),
        RxStep::Continue(RxOutcome::Command(Dispatch::ShowAndReply { .. }))
    ));
}

#[test]
fn a_flipped_bit_is_a_decryption_failure() {
    let a_tx = TxCommandHandler::new("p".to_string(), true);
    let b_rx = RxCommandHandler::new("p".to_string(), false, false, true);
    let mut state = SharedState::new();
    let sent = frame(a_tx.handle_command(&state, "ECHO hello"));
    for position in [0, 11, 12, sent.len() - 1] {
        let mut flipped = sent.clone();
        flipped[position] ^= 0x01;
        assert_eq!(
            b_rx.handle_rx(&mut state, Received::Binary(flipped)),
            RxStep::Continue(RxOutcome::Dropped(Dropped::Undecodable(FrameError::DecryptionFailure)))
        );
    }
}

#[test]
fn frames_that_are_not_binary_are_dropped() {
    let b_rx = RxCommandHandler::new("p".to_string(), false, false, false);
    let mut state = SharedState::new();
    assert_eq!(
        b_rx.handle_rx(&mut state, Received::Text("hello".to_string())),
        RxStep::Continue(RxOutcome::Dropped(Dropped::TextFrame))
    );
    assert_eq!(
        b_rx.handle_rx(&mut state, Received::Other),
        RxStep::Continue(RxOutcome::Dropped(Dropped::NonBinaryFrame))
    );
    assert_eq!(b_rx.handle_rx(&mut state, Received::Failed), RxStep::Stop);
}

#[test]
fn payloads_of_unknown_format_are_dropped() {
    let b_rx = RxCommandHandler::new("p".to_string(), false, false, true);
    let mut state = SharedState::new();
    let sent = prepare_tx(b"neither one nor the other".to_vec(), "p").unwrap();
    assert_eq!(
        b_rx.handle_rx(&mut state, Received::Binary(sent)),
        RxStep::Continue(RxOutcome::Dropped(Dropped::UnknownFormat))
    );
    let not_gzip = uplink::crypto::aes::encrypt(b"plain", &uplink::crypto::aes::derive_key(b"p")).unwrap();
    assert_eq!(
        b_rx.handle_rx(&mut state, Received::Binary(not_gzip)),
        RxStep::Continue(RxOutcome::Dropped(Dropped::Undecodable(FrameError::DecompressionFailure)))
    );
}

#[test]
fn responses_are_acted_on() {
    let mut state = SharedState::new();
    assert_eq!(
        process_response(Response::CommandOutput { output: "x".to_string() }, &mut state),
        ResponseAction::Print("Command output:\nx".to_string())
    );
    assert_eq!(
        process_response(Response::FileList { files: vec!["a".to_string(), "b".to_string()] }, &mut state),
        ResponseAction::PrintLines(vec!["a".to_string(), "b".to_string()])
    );
    assert_eq!(
        process_response(Response::UserList { users: vec![] }, &mut state),
        ResponseAction::PrintLines(vec![])
    );
    assert_eq!(
        process_response(Response::FileData { file_path: "f".to_string(), data: vec![1] }, &mut state),
        ResponseAction::WriteFile { file_path: "f".to_string(), data: vec![1] }
    );
    assert_eq!(
        process_response(Response::Handshake { public_key_pem: b"garbage".to_vec() }, &mut state),
        ResponseAction::KeyRejected
    );
    assert!(state.peer_public_key.is_none());
    assert!(state.session_key.is_none());
    assert!(!accept_handshake(&mut state, vec![0xff], vec![0; 32]));
}

#[test]
fn a_response_under_a_session_key_is_read_with_that_key_only() {
    let b_rx = RxCommandHandler::new("p".to_string(), false, false, false);
    let a_rx = RxCommandHandler::new("p".to_string(), false, false, false);
    let mut b_state = SharedState::new();
    b_state.set_session_key(vec![4; 32]);
    let reply = b_rx.send_response(&b_state, &message("m")).unwrap();

    let mut a_state = SharedState::new();
    assert_eq!(
        a_rx.handle_rx(&mut a_state, Received::Binary(reply.clone())),
        RxStep::Continue(RxOutcome::Dropped(Dropped::Undecodable(FrameError::DecryptionFailure)))
    );
    a_state.set_session_key(vec![4; 32]);
    assert_eq!(
        a_rx.handle_rx(&mut a_state, Received::Binary(reply)),
        RxStep::Continue(RxOutcome::Response(ResponseAction::Print("Received message: m".to_string())))
    );

    b_state.set_session_key(vec![4; 31]);
    assert_eq!(b_rx.send_response(&b_state, &message("m")), Err(FrameError::InvalidSessionKey));
}
