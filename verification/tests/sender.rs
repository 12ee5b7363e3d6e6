use uplink::enums::command::Command;
use uplink::handlers::line::{is_whitespace, split_words};
use uplink::handlers::tx_command_handler::{
    parse_command, read_command, ParsedLine, TxCommandHandler, TxError, TxOutcome,
};
use uplink::shared_state::SharedState;
use uplink::transport::communication::prepare_rx;

fn send(command: Command) -> ParsedLine {
    ParsedLine::Send(command)
}

#[test]
fn white_space_is_what_the_standard_library_calls_white_space() {
    for code in 0u32..0x11_0000 {
        if let Some(c) = char::from_u32(code) {
            assert_eq!(is_whitespace(c), c.is_whitespace());
        }
    }
}

#[test]
fn words_are_split_as_the_standard_library_splits_them() {
    for line in ["", "   ", "a", " a  b\tc\n", "echo  hello   world ", "\u{a0}x\u{3000}y"] {
        let ours: Vec<String> = split_words(line).iter().map(|w| w.iter().collect()).collect();
        let theirs: Vec<String> = line.split_whitespace().map(|w| w.to_string()).collect();
        assert_eq!(ours, theirs);
    }
}

#[test]
fn empty_lines_parse_to_nothing() {
    assert_eq!(parse_command(""), ParsedLine::Empty);
    assert_eq!(parse_command("  \t "), ParsedLine::Empty);
}

#[test]
fn help_is_recognized() {
    assert_eq!(parse_command("h"), ParsedLine::Help);
    assert_eq!(parse_command("HELP"), ParsedLine::Help);
    assert_eq!(parse_command("Help me"), ParsedLine::Help);
}

#[test]
fn echo_takes_the_rest_of_the_line() {
    for verb in ["TEXT", "ECHO", "PRINT", "MSG", "T", "echo", "Msg"] {
        assert_eq!(
            parse_command(&format!("{} hello   big  world", verb)),
            send(Command::Echo { message: "hello big world".to_string() })
        );
    }
    assert_eq!(parse_command("echo"), send(Command::Echo { message: String::new() }));
}

#[test]
fn commands_without_arguments_have_their_aliases() {
    for verb in ["L", "LIST", "LS", "DIR", "ls"] {
        assert_eq!(parse_command(verb), send(Command::ListFiles));
    }
    for verb in ["ID", "WHOAMI", "WHO", "W", "whoami"] {
        assert_eq!(parse_command(verb), send(Command::Whoami));
    }
    for verb in ["PWD", "WHERE", "pwd"] {
        assert_eq!(parse_command(verb), send(Command::Pwd));
    }
    assert_eq!(parse_command("users"), send(Command::Users));
    assert_eq!(parse_command("NETSTAT"), send(Command::Netstat));
    for verb in ["N", "NETWORK", "IFCONFIG", "IPCONFIG"] {
        assert_eq!(parse_command(verb), send(Command::Network));
    }
    for verb in ["SYSTEM", "INFO", "SYSTEMINFO", "UNAME"] {
        assert_eq!(parse_command(verb), send(Command::Info));
    }
}

#[test]
fn execute_takes_the_rest_of_the_line() {
    for verb in ["E", "X", "SHELL", "EXEC", "RUN", "CMD", "exec"] {
        assert_eq!(
            parse_command(&format!("{} uname -a", verb)),
            send(Command::Execute { command: "uname -a".to_string() })
        );
    }
}

#[test]
fn download_takes_two_paths() {
    for verb in ["D", "GET", "DOWNLOAD", "get"] {
        assert_eq!(
            parse_command(&format!("{} /etc/hosts ./hosts", verb)),
            send(Command::GetFile { remote_path: "/etc/hosts".to_string(), local_path: "./hosts".to_string() })
        );
    }
    assert_eq!(
        parse_command("get a b c"),
        send(Command::GetFile { remote_path: "a".to_string(), local_path: "b c".to_string() })
    );
    assert_eq!(parse_command("get a"), ParsedLine::MissingArguments);
    assert_eq!(parse_command("get"), ParsedLine::MissingArguments);
}

#[test]
fn upload_takes_two_paths_and_asks_for_the_file() {
    for verb in ["U", "PUT", "UPLOAD", "u"] {
        assert_eq!(
            parse_command(&format!("{} ./a.txt /tmp/a.txt", verb)),
            ParsedLine::Upload { file_path: "./a.txt".to_string(), file_up_path: "/tmp/a.txt".to_string() }
        );
    }
    assert_eq!(parse_command("put a"), ParsedLine::MissingArguments);
}

#[test]
fn unknown_words_are_unknown() {
    assert_eq!(parse_command("frobnicate now"), ParsedLine::Unknown);
    assert_eq!(parse_command("PASSPHRASE x"), ParsedLine::Unknown);
    assert_eq!(parse_command("HANDSHAKE"), ParsedLine::Unknown);
}

#[test]
fn no_envelope_mode_sends_the_command_under_the_passphrase() {
    let handler = TxCommandHandler::new("p".to_string(), true);
    assert!(handler.is_connection_active());
    let state = SharedState::new();
    match handler.handle_command(&state, "ECHO hello") {
        TxOutcome::Send(frame) => {
            let payload = prepare_rx(frame, "p").unwrap();
            assert_eq!(payload, b"{\"Echo\":{\"message\":\"hello\"}}".to_vec());
        }
        other => panic!("unexpected outcome {:?}", other),
    }
    assert_eq!(handler.handle_command(&state, "  "), TxOutcome::Ignored);
    assert_eq!(handler.handle_command(&state, "help"), TxOutcome::Help);
    assert_eq!(handler.handle_command(&state, "what"), TxOutcome::Unknown);
    assert_eq!(handler.handle_command(&state, "get x"), TxOutcome::MissingArguments);
    assert_eq!(
        handler.handle_command(&state, "U ./a.txt /tmp/a.txt"),
        TxOutcome::ReadFile { file_path: "./a.txt".to_string(), file_up_path: "/tmp/a.txt".to_string() }
    );
}

#[test]
fn envelope_mode_without_keys_emits_only_a_handshake() {
    let handler = TxCommandHandler::new("p".to_string(), false);
    let state = SharedState::new();
    for line in ["ECHO world", "LS", "get a b", "put a b", "EXEC id", "users"] {
        match handler.handle_command(&state, line) {
            TxOutcome::Handshake(frame) => {
                assert_eq!(prepare_rx(frame, "p").unwrap(), b"\"Handshake\"".to_vec());
            }
            other => panic!("unexpected outcome {:?}", other),
        }
    }
    assert_eq!(handler.send_command(&state, &Command::Pwd), Err(TxError::NotReady));
    let frame = handler.send_command(&state, &Command::Handshake).unwrap();
    assert_eq!(prepare_rx(frame, "p").unwrap(), b"\"Handshake\"".to_vec());
}

#[test]
fn what_encodes_no_command_sends_nothing_in_any_state() {
    let state = SharedState::new();
    for no_envelope in [false, true] {
        let handler = TxCommandHandler::new("p".to_string(), no_envelope);
        assert_eq!(handler.handle_command(&state, ""), TxOutcome::Ignored);
        assert_eq!(handler.handle_command(&state, " \t "), TxOutcome::Ignored);
        assert_eq!(handler.handle_command(&state, "HELP"), TxOutcome::Help);
        assert_eq!(handler.handle_command(&state, "h"), TxOutcome::Help);
        assert_eq!(handler.handle_command(&state, "nonsense"), TxOutcome::Unknown);
        assert_eq!(handler.handle_command(&state, "get a"), TxOutcome::MissingArguments);
        assert_eq!(handler.handle_command(&state, "put a"), TxOutcome::MissingArguments);
    }
}

#[test]
fn words_are_read_under_the_upper_case_verb() {
    let line = split_words("whatever  ./a.txt   /tmp/a b");
    assert_eq!(read_command("USERS", &line), ParsedLine::Send(Command::Users));
    assert_eq!(read_command("LS", &line), ParsedLine::Send(Command::ListFiles));
    assert_eq!(read_command("HELP", &line), ParsedLine::Help);
    assert_eq!(
        read_command("ECHO", &line),
        ParsedLine::Send(Command::Echo { message: "./a.txt /tmp/a b".to_string() })
    );
    assert_eq!(
        read_command("GET", &line),
        ParsedLine::Send(Command::GetFile { remote_path: "./a.txt".to_string(), local_path: "/tmp/a b".to_string() })
    );
    assert_eq!(
        read_command("U", &line),
        ParsedLine::Upload { file_path: "./a.txt".to_string(), file_up_path: "/tmp/a b".to_string() }
    );
    assert_eq!(read_command("users", &line), ParsedLine::Unknown);
    assert_eq!(read_command("", &line), ParsedLine::Unknown);
    assert_eq!(read_command("ECHO", &Vec::new()), ParsedLine::Send(Command::Echo { message: String::new() }));
    assert_eq!(read_command("GET", &split_words("get a")), ParsedLine::MissingArguments);
}

#[test]
fn envelope_mode_with_only_a_session_key_is_not_ready() {
    let handler = TxCommandHandler::new("p".to_string(), false);
    let mut state = SharedState::new();
    state.set_session_key(vec![1; 32]);
    assert!(!state.is_ready());
    assert!(matches!(handler.handle_command(&state, "LS"), TxOutcome::Handshake(_)));
}

#[test]
fn upload_in_no_envelope_mode_carries_the_data() {
    let handler = TxCommandHandler::new("p".to_string(), true);
    let state = SharedState::new();
    let frame = handler.send_upload(&state, "./a.txt".to_string(), "/tmp/a.txt".to_string(), b"hi".to_vec()).unwrap();
    assert_eq!(
        Command::from_json(&prepare_rx(frame, "p").unwrap()),
        Some(Command::PutFile {
            remote_path: "./a.txt".to_string(),
            up_path: "/tmp/a.txt".to_string(),
            data: b"hi".to_vec()
        })
    );
}
