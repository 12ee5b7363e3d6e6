use serde_json::{Number, Value};
use uplink::crypto::envelope::Envelope;
use uplink::enums::command::Command;
use uplink::enums::response::Response;
use uplink::wire::classify::{classify, Incoming};
use uplink::wire::read::{read_bytes, read_string, read_strings};
use uplink::wire::text::{push_bytes, push_string, push_strings};

fn text(bytes: Vec<u8>) -> String {
    String::from_utf8(bytes).unwrap()
}

fn object(key: &str, value: Value) -> Value {
    let mut map = serde_json::Map::new();
    map.insert(key.to_string(), value);
    Value::Object(map)
}

fn numbers(data: &[u8]) -> Value {
    Value::Array(data.iter().map(|b| Value::Number(Number::from(*b))).collect())
}

#[test]
fn unit_commands_are_their_quoted_names() {
    assert_eq!(text(Command::ListFiles.to_json()), "\"ListFiles\"");
    assert_eq!(text(Command::Whoami.to_json()), "\"Whoami\"");
    assert_eq!(text(Command::Info.to_json()), "\"Info\"");
    assert_eq!(text(Command::Pwd.to_json()), "\"Pwd\"");
    assert_eq!(text(Command::Users.to_json()), "\"Users\"");
    assert_eq!(text(Command::Netstat.to_json()), "\"Netstat\"");
    assert_eq!(text(Command::Network.to_json()), "\"Network\"");
    assert_eq!(text(Command::Handshake.to_json()), "\"Handshake\"");
}

#[test]
fn commands_with_fields_are_externally_tagged() {
    assert_eq!(
        text(Command::Echo { message: "hello".to_string() }.to_json()),
        "{\"Echo\":{\"message\":\"hello\"}}"
    );
    assert_eq!(
        text(Command::Execute { command: "uname -a".to_string() }.to_json()),
        "{\"Execute\":{\"command\":\"uname -a\"}}"
    );
    assert_eq!(
        text(Command::GetFile { remote_path: "/etc/hosts".to_string(), local_path: "hosts".to_string() }.to_json()),
        "{\"GetFile\":{\"remote_path\":\"/etc/hosts\",\"local_path\":\"hosts\"}}"
    );
    assert_eq!(
        text(
            Command::PutFile {
                remote_path: "./a.txt".to_string(),
                up_path: "/tmp/a.txt".to_string(),
                data: b"hi".to_vec()
            }
            .to_json()
        ),
        "{\"PutFile\":{\"remote_path\":\"./a.txt\",\"up_path\":\"/tmp/a.txt\",\"data\":[104,105]}}"
    );
}

#[test]
fn responses_are_externally_tagged() {
    assert_eq!(
        text(Response::Message { content: "[+] hello".to_string() }.to_json()),
        "{\"Message\":{\"content\":\"[+] hello\"}}"
    );
    assert_eq!(
        text(Response::FileList { files: vec!["a".to_string(), "b c".to_string()] }.to_json()),
        "{\"FileList\":{\"files\":[\"a\",\"b c\"]}}"
    );
    assert_eq!(text(Response::UserList { users: vec![] }.to_json()), "{\"UserList\":{\"users\":[]}}");
    assert_eq!(
        text(Response::FileData { file_path: "f".to_string(), data: vec![0, 9, 10, 99, 100, 255] }.to_json()),
        "{\"FileData\":{\"file_path\":\"f\",\"data\":[0,9,10,99,100,255]}}"
    );
    assert_eq!(
        text(Response::CommandOutput { output: "Linux\n".to_string() }.to_json()),
        "{\"CommandOutput\":{\"output\":\"Linux\\n\"}}"
    );
    assert_eq!(
        text(Response::Handshake { public_key_pem: vec![45, 45] }.to_json()),
        "{\"Handshake\":{\"public_key_pem\":[45,45]}}"
    );
}

#[test]
fn envelope_is_an_object_of_two_byte_arrays() {
    let envelope = Envelope::new(vec![1, 2, 3], vec![]);
    assert_eq!(text(envelope.to_bytes()), "{\"encrypted_session_key\":[1,2,3],\"encrypted_command\":[]}");
}

#[test]
fn strings_are_escaped_as_serde_json_escapes_them() {
    let mut samples: Vec<String> = Vec::new();
    for code in 0u32..0x90 {
        samples.push(char::from_u32(code).unwrap().to_string());
    }
    samples.push("q\"uote\\back/slash".to_string());
    samples.push("tab\there\r\nline\u{8}\u{c}".to_string());
    samples.push("gr\u{fc}\u{df}e \u{4e16}\u{754c} \u{1f600}".to_string());
    samples.push(String::new());
    for sample in samples {
        let mut ours = Vec::new();
        push_string(&mut ours, &sample);
        let theirs = serde_json::to_vec(&Value::String(sample.clone())).unwrap();
        assert_eq!(ours, theirs);
        let (back, end) = read_string(&ours, 0).unwrap();
        assert_eq!(back, sample);
        assert_eq!(end, ours.len());
    }
}

#[test]
fn control_characters_use_short_escapes_or_four_hex_digits() {
    let mut out = Vec::new();
    push_string(&mut out, "\u{0}\u{8}\u{9}\u{a}\u{b}\u{c}\u{d}\u{1f}\u{7f}");
    assert_eq!(text(out), "\"\\u0000\\b\\t\\n\\u000b\\f\\r\\u001f\u{7f}\"");
}

#[test]
fn byte_arrays_are_written_as_serde_json_writes_them() {
    let all: Vec<u8> = (0..=255).collect();
    for data in [vec![], vec![0], vec![255], vec![7, 42, 200], all] {
        let mut ours = Vec::new();
        push_bytes(&mut ours, &data);
        assert_eq!(ours, serde_json::to_vec(&numbers(&data)).unwrap());
        let (back, end) = read_bytes(&ours, 0).unwrap();
        assert_eq!(back, data);
        assert_eq!(end, ours.len());
    }
}

#[test]
fn string_lists_are_written_as_serde_json_writes_them() {
    for list in [vec![], vec!["one".to_string()], vec!["a,b".to_string(), "]".to_string(), "\"".to_string()]] {
        let mut ours = Vec::new();
        push_strings(&mut ours, &list);
        let value = Value::Array(list.iter().map(|s| Value::String(s.clone())).collect());
        assert_eq!(ours, serde_json::to_vec(&value).unwrap());
        let (back, end) = read_strings(&ours, 0).unwrap();
        assert_eq!(back, list);
        assert_eq!(end, ours.len());
    }
}

#[test]
fn command_json_is_what_serde_json_reads_as_the_same_value() {
    let command = Command::PutFile {
        remote_path: "a \"b\"".to_string(),
        up_path: "c\\d".to_string(),
        data: vec![1, 22, 133],
    };
    let mut fields = serde_json::Map::new();
    fields.insert("remote_path".to_string(), Value::String("a \"b\"".to_string()));
    fields.insert("up_path".to_string(), Value::String("c\\d".to_string()));
    fields.insert("data".to_string(), numbers(&[1, 22, 133]));
    let expected = object("PutFile", Value::Object(fields));
    assert_eq!(serde_json::from_slice::<Value>(&command.to_json()).unwrap(), expected);
    assert_eq!(
        serde_json::from_slice::<Value>(&Command::Handshake.to_json()).unwrap(),
        Value::String("Handshake".to_string())
    );
}

#[test]
fn every_command_reads_back() {
    let commands = vec![
        Command::Echo { message: "hello \u{1f600} \"x\"\n".to_string() },
        Command::ListFiles,
        Command::Whoami,
        Command::Info,
        Command::Pwd,
        Command::Users,
        Command::Netstat,
        Command::Network,
        Command::Handshake,
        Command::GetFile { remote_path: "r".to_string(), local_path: "l l".to_string() },
        Command::PutFile { remote_path: "".to_string(), up_path: "u".to_string(), data: vec![0, 255] },
        Command::Execute { command: "ls -la | wc".to_string() },
    ];
    for command in commands {
        let json = command.to_json();
        assert_eq!(Command::from_json(&json), Some(command.clone()));
        assert_eq!(classify(&json), Incoming::Command(command));
    }
}

#[test]
fn every_response_reads_back() {
    let responses = vec![
        Response::Message { content: "m".to_string() },
        Response::FileList { files: vec!["a".to_string(), "".to_string()] },
        Response::UserList { users: vec!["root".to_string()] },
        Response::FileData { file_path: "p".to_string(), data: vec![1, 2, 3] },
        Response::CommandOutput { output: "".to_string() },
        Response::Handshake { public_key_pem: b"-----BEGIN".to_vec() },
    ];
    for response in responses {
        let json = response.to_json();
        assert_eq!(Response::from_json(&json), Some(response.clone()));
        assert_eq!(classify(&json), Incoming::Response(response));
    }
}

#[test]
fn envelope_reads_back_and_is_classified_first() {
    let envelope = Envelope::new(vec![9; 256], vec![0, 1, 2]);
    let json = envelope.to_bytes();
    assert_eq!(Envelope::from_bytes(&json), Some(envelope.clone()));
    assert_eq!(classify(&json), Incoming::Envelope(envelope));
}

#[test]
fn other_bytes_are_of_unknown_format() {
    assert_eq!(classify(b""), Incoming::Unknown);
    assert_eq!(classify(b"hello"), Incoming::Unknown);
    assert_eq!(classify(b"\"Shutdown\""), Incoming::Unknown);
    assert_eq!(classify(b"{\"Echo\":{\"message\":\"x\"}"), Incoming::Unknown);
    assert_eq!(classify(b"{\"Echo\":{\"message\":\"x\"}} "), Incoming::Unknown);
    assert_eq!(classify(b"{\"Echo\":{\"message\":\"\xff\"}}"), Incoming::Unknown);
    assert_eq!(classify(b"{\"FileData\":{\"file_path\":\"f\",\"data\":[256]}}"), Incoming::Unknown);
    assert_eq!(classify(b"{\"FileData\":{\"file_path\":\"f\",\"data\":[01]}}"), Incoming::Unknown);
    assert_eq!(classify(b"{\"Echo\":{\"message\":\"\\u0041\"}}"), Incoming::Unknown);
}

#[test]
fn a_response_handshake_is_no_command_handshake() {
    let json = Response::Handshake { public_key_pem: vec![] }.to_json();
    assert_eq!(Command::from_json(&json), None);
    assert_eq!(Response::from_json(&Command::Handshake.to_json()), None);
    assert_eq!(Envelope::from_bytes(&Command::Handshake.to_json()), None);
}
