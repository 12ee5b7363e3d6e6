use uplink::crypto::envelope::{Envelope, EnvelopeError};
use uplink::crypto::keys::{generate_key_pair, PublicKey};
use uplink::enums::command::Command;
use uplink::enums::response::Response;
use uplink::handlers::response_handler::ResponseAction;
use uplink::handlers::rx_command_handler::{
    Dispatch, Dropped, Received, RxCommandHandler, RxOutcome, RxStep,
};
use uplink::handlers::tx_command_handler::{TxCommandHandler, TxOutcome};
use uplink::shared_state::SharedState;
use uplink::transport::communication::prepare_rx;
use uplink::wire::classify::{classify, Incoming};

fn frame_of(outcome: TxOutcome) -> Vec<u8> {
    match outcome {
        TxOutcome::Send(frame) | TxOutcome::Handshake(frame) => frame,
        other => panic!("no frame in {:?}", other),
    }
}

fn outcome_of(step: RxStep) -> RxOutcome {
    match step {
        RxStep::Continue(outcome) => outcome,
        RxStep::Stop => panic!("the receiver stopped"),
    }
}

#[test]
fn a_key_pair_wraps_and_unwraps() {
    let (private_key, public_key) = generate_key_pair().unwrap();
    let pem = public_key.to_pkcs1_pem();
    assert!(pem.starts_with(b"-----BEGIN RSA PUBLIC KEY-----\n"));
    assert!(PublicKey::from_pkcs1_pem(pem).is_some());
    assert!(PublicKey::from_pkcs1_pem(b"not a key".to_vec()).is_none());
    assert!(PublicKey::from_pkcs1_pem(vec![0xff, 0xfe]).is_none());

    let wrapped = public_key.encrypt(&[7u8; 32]).unwrap();
    assert_eq!(wrapped.len(), 256);
    assert_ne!(wrapped, public_key.encrypt(&[7u8; 32]).unwrap());
    assert_eq!(private_key.decrypt(&wrapped), Some(vec![7u8; 32]));
    assert_eq!(private_key.decrypt(&[1, 2, 3]), None);
    assert_eq!(public_key.encrypt(&[0u8; 245]).unwrap().len(), 256);
    assert_eq!(public_key.encrypt(&[0u8; 246]), None);

    let session_key = vec![5u8; 32];
    let envelope = Envelope::create_encrypted_envelope(&public_key, b"\"Pwd\"", &session_key).unwrap();
    assert_eq!(envelope.encrypted_session_key.len(), 256);
    assert_eq!(envelope.encrypted_command.len(), 12 + 5 + 16);
    assert_eq!(private_key.decrypt(&envelope.encrypted_session_key), Some(session_key.clone()));
    assert_eq!(uplink::crypto::aes::decrypt(&envelope.encrypted_command, &session_key), Ok(b"\"Pwd\"".to_vec()));
    assert_eq!(
        Envelope::decrypt_envelope(&private_key, envelope.clone()),
        Ok((session_key.clone(), b"\"Pwd\"".to_vec()))
    );
    let mut bad = envelope.clone();
    let last = bad.encrypted_command.len() - 1;
    bad.encrypted_command[last] ^= 1;
    assert_eq!(Envelope::decrypt_envelope(&private_key, bad), Err(EnvelopeError::DecryptionFailure));
    let mut worse = envelope;
    worse.encrypted_session_key = vec![0; 256];
    assert_eq!(Envelope::decrypt_envelope(&private_key, worse), Err(EnvelopeError::KeyUnwrapFailure));
    assert_eq!(
        Envelope::create_encrypted_envelope(&public_key, b"x", &[1u8; 16]),
        Err(EnvelopeError::InvalidSessionKey)
    );
}

#[test]
fn handshake_then_echo_in_envelope_mode() {
    let a_tx = TxCommandHandler::new("p".to_string(), false);
    let a_rx = RxCommandHandler::new("p".to_string(), false, false, false);
    let b_rx = RxCommandHandler::new("p".to_string(), false, false, false);
    let mut a_state = SharedState::new();
    let mut b_state = SharedState::new();

    // A is not ready: only a handshake leaves, the echo is dropped.
    let first = a_tx.handle_command(&a_state, "ECHO world");
    assert!(matches!(first, TxOutcome::Handshake(_)));

    // B makes a key pair and answers with its public key.
    let dispatch = match outcome_of(b_rx.handle_rx(&mut b_state, Received::Binary(frame_of(first)))) {
        RxOutcome::Command(dispatch) => dispatch,
        other => panic!("unexpected outcome {:?}", other),
    };
    let response = match dispatch {
        Dispatch::Reply(response) => response,
        other => panic!("unexpected dispatch {:?}", other),
    };
    assert!(matches!(response, Response::Handshake { .. }));
    assert!(b_state.local_private_key.is_some());
    assert!(b_state.session_key.is_none());
    let reply = b_rx.send_response(&b_state, &response).unwrap();

    // A installs the public key and a fresh session key.
    assert_eq!(
        outcome_of(a_rx.handle_rx(&mut a_state, Received::Binary(reply))),
        RxOutcome::Response(ResponseAction::KeysInstalled)
    );
    assert!(a_state.is_ready());
    assert_eq!(a_state.session_key.as_ref().unwrap().len(), 32);

    // A sends the echo again: one frame, which holds an envelope sealed under
    // A's stored session key to B's key.
    let second = a_tx.handle_command(&a_state, "ECHO world");
    assert!(matches!(second, TxOutcome::Send(_)));
    let sealed = match classify(&prepare_rx(frame_of(second.clone()), "p").unwrap()) {
        Incoming::Envelope(envelope) => envelope,
        other => panic!("unexpected payload {:?}", other),
    };
    assert_eq!(sealed.encrypted_session_key.len(), 256);
    assert_eq!(
        Envelope::decrypt_envelope(b_state.local_private_key.as_ref().unwrap(), sealed),
        Ok((a_state.session_key.clone().unwrap(), Command::Echo { message: "world".to_string() }.to_json()))
    );

    // B adopts the session key.
    let dispatch = match outcome_of(b_rx.handle_rx(&mut b_state, Received::Binary(frame_of(second)))) {
        RxOutcome::Command(dispatch) => dispatch,
        other => panic!("unexpected outcome {:?}", other),
    };
    assert_eq!(b_state.session_key, a_state.session_key);
    let response = match dispatch {
        Dispatch::ShowAndReply { text, response } => {
            assert_eq!(text, "world");
            response
        }
        other => panic!("unexpected dispatch {:?}", other),
    };
    assert_eq!(response, Response::Message { content: "[+] world".to_string() });

    // B's answer travels under the session key as well; A shows it.
    let reply = b_rx.send_response(&b_state, &response).unwrap();
    assert_eq!(
        outcome_of(a_rx.handle_rx(&mut a_state, Received::Binary(reply))),
        RxOutcome::Response(ResponseAction::Print("Received message: [+] world".to_string()))
    );

    // A bare command that is no handshake is dropped in envelope mode.
    let plain = TxCommandHandler::new("p".to_string(), true);
    let bare = frame_of(plain.handle_command(&a_state, "PWD"));
    assert_eq!(
        outcome_of(b_rx.handle_rx(&mut b_state, Received::Binary(bare))),
        RxOutcome::Dropped(Dropped::UnexpectedCommand)
    );
}

#[test]
fn an_envelope_before_any_handshake_is_dropped() {
    let (_, public_key) = generate_key_pair().unwrap();
    let envelope = Envelope::create_encrypted_envelope(&public_key, b"\"Pwd\"", &[3u8; 32]).unwrap();
    let receiver = RxCommandHandler::new("p".to_string(), false, false, false);
    let mut state = SharedState::new();
    assert_eq!(
        receiver.process_decrypted_data(&mut state, envelope.to_bytes()),
        RxOutcome::Dropped(Dropped::NoPrivateKey)
    );
    assert!(state.session_key.is_none());
}

#[test]
fn envelopes_that_do_not_open_or_hold_no_command_are_dropped() {
    let receiver = RxCommandHandler::new("p".to_string(), false, false, false);
    let mut state = SharedState::new();
    let handshake = match receiver.handle_command(&mut state, Command::Handshake) {
        Dispatch::Reply(Response::Handshake { public_key_pem }) => public_key_pem,
        other => panic!("unexpected dispatch {:?}", other),
    };
    let public_key = PublicKey::from_pkcs1_pem(handshake).unwrap();

    // Sealed to another key: the session key does not unwrap.
    let (_, other_key) = generate_key_pair().unwrap();
    let foreign = Envelope::create_encrypted_envelope(&other_key, b"\"Pwd\"", &[1u8; 32]).unwrap();
    assert_eq!(
        receiver.process_decrypted_data(&mut state, foreign.to_bytes()),
        RxOutcome::Dropped(Dropped::Envelope(EnvelopeError::KeyUnwrapFailure))
    );
    assert!(state.session_key.is_none());

    // Sealed to this key, but what is inside is no command: the session key
    // is taken, the payload dropped.
    let odd = Envelope::create_encrypted_envelope(&public_key, b"{\"Message\":{\"content\":\"x\"}}", &[2u8; 32]).unwrap();
    assert_eq!(receiver.process_decrypted_data(&mut state, odd.to_bytes()), RxOutcome::Dropped(Dropped::BadCommand));
    assert_eq!(state.session_key, Some(vec![2u8; 32]));

    // A session key that is too long for the modulus cannot be wrapped.
    assert_eq!(
        Envelope::create_encrypted_envelope(&public_key, b"\"Pwd\"", &[0u8; 250]),
        Err(EnvelopeError::KeyWrapFailure)
    );

    // A sender whose session key is no key cannot seal.
    let sender = TxCommandHandler::new("p".to_string(), false);
    let mut sender_state = SharedState::new();
    sender_state.set_peer_public(public_key.duplicate());
    sender_state.set_session_key(vec![9u8; 31]);
    assert_eq!(
        sender.send_command(&sender_state, &Command::Pwd),
        Err(uplink::handlers::tx_command_handler::TxError::Envelope(EnvelopeError::InvalidSessionKey))
    );
    let (peer, session, private) = sender_state.snapshot();
    assert_eq!(peer.unwrap().to_pkcs1_pem(), public_key.to_pkcs1_pem());
    assert_eq!(session, Some(vec![9u8; 31]));
    assert!(private.is_none());
}

#[test]
fn a_handshake_is_answered_with_the_pair_that_was_made() {
    let receiver = RxCommandHandler::new("p".to_string(), false, false, false);
    let mut state = SharedState::new();
    state.set_session_key(vec![8u8; 32]);

    assert_eq!(receiver.answer_handshake(&mut state, None), Dispatch::KeyGenerationFailed);
    assert!(state.local_private_key.is_none());

    let (private_key, public_key) = generate_key_pair().unwrap();
    let pem = public_key.to_pkcs1_pem();
    let wrapped = public_key.encrypt(b"check").unwrap();
    assert_eq!(
        receiver.answer_handshake(&mut state, Some((private_key, public_key))),
        Dispatch::Reply(Response::Handshake { public_key_pem: pem })
    );
    assert_eq!(state.local_private_key.as_ref().unwrap().decrypt(&wrapped), Some(b"check".to_vec()));
    assert_eq!(state.session_key, Some(vec![8u8; 32]));
    assert!(state.peer_public_key.is_none());
}
