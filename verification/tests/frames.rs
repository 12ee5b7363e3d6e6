use uplink::crypto::aes::{decrypt, derive_key, encrypt, encrypt_with_nonce, generate_nonce, generate_session_key, CryptoError};
use uplink::transport::communication::{prepare_rx, prepare_tx, FrameError};
use uplink::transport::compression::{compress, decompress};
use uplink::transport::http::{inbound, is_websocket_upgrade_request, Inbound};

#[test]
fn derive_key_is_hkdf_sha256_of_the_passphrase() {
    // HKDF-SHA256 with no salt and empty info, 32 bytes of output.
    let expected: [u8; 32] = [
        141, 207, 209, 96, 111, 145, 78, 28, 126, 56, 3, 189, 104, 33, 17, 97, 253, 150, 238, 137, 125, 183, 68, 105,
        52, 138, 243, 81, 187, 6, 198, 40,
    ];
    assert_eq!(derive_key(b"default_passphrase"), expected);
    assert_ne!(derive_key(b"default_passphrasf"), expected);
}

#[test]
fn encryption_is_aes_256_gcm() {
    // AES-256-GCM of "hello" under a key of 32 sevens and a nonce of 12 nines.
    let sealed = [79, 224, 232, 248, 209, 252, 37, 255, 49, 105, 185, 167, 12, 7, 249, 23, 16, 51, 26, 14, 245];
    let blob = encrypt_with_nonce(b"hello", &[7u8; 32], &[9u8; 12]).unwrap();
    assert_eq!(&blob[12..], &sealed[..]);
}

#[test]
fn a_gzip_stream_of_another_writer_is_read() {
    let stream = [
        31, 139, 8, 0, 0, 0, 0, 0, 2, 255, 203, 72, 205, 201, 201, 87, 200, 64, 144, 0, 128, 136, 249, 229, 17, 0, 0, 0,
    ];
    assert_eq!(decompress(&stream).unwrap(), b"hello hello hello".to_vec());
    let mut corrupt = stream;
    corrupt[20] ^= 1;
    assert_eq!(decompress(&corrupt), None);
}

#[test]
fn encrypt_prepends_the_nonce() {
    let key = [7u8; 32];
    let nonce = [9u8; 12];
    let blob = encrypt_with_nonce(b"hello", &key, &nonce).unwrap();
    assert_eq!(&blob[..12], &nonce[..]);
    assert_eq!(blob.len(), 12 + 5 + 16);
    assert_eq!(decrypt(&blob, &key).unwrap(), b"hello".to_vec());
}

#[test]
fn frame_round_trip() {
    let wire = prepare_tx(b"payload".to_vec(), "p").unwrap();
    assert_eq!(prepare_rx(wire, "p").unwrap(), b"payload".to_vec());
}

#[test]
fn frame_under_another_passphrase_is_refused() {
    let wire = prepare_tx(b"payload".to_vec(), "p").unwrap();
    assert_eq!(prepare_rx(wire, "q"), Err(FrameError::DecryptionFailure));
}

#[test]
fn compression_round_trip() {
    let stream = compress(b"aaaaaaaaaaaaaaaaaaaaaaaaaaaaaaaa");
    assert_eq!(&stream[..2], &[0x1f, 0x8b]);
    assert_eq!(decompress(&stream).unwrap(), b"aaaaaaaaaaaaaaaaaaaaaaaaaaaaaaaa".to_vec());
    assert_eq!(decompress(b"not gzip"), None);
}

#[test]
fn short_blob_is_a_decryption_failure() {
    let key = generate_session_key();
    assert_eq!(key.len(), 32);
    assert_eq!(decrypt(&[1, 2, 3], &key), Err(CryptoError::DecryptionFailure));
    assert_eq!(encrypt(b"x", &[0u8; 16]), Err(CryptoError::InvalidKeyLength));
    assert_ne!(generate_nonce(), generate_nonce());
}

#[test]
fn first_bytes_of_a_connection_decide_what_it_gets() {
    let upgrade = b"GET /chat HTTP/1.1\r\nHost: x\r\nUpgrade: websocket\r\nConnection: Upgrade\r\n\r\n";
    assert_eq!(inbound(upgrade), Inbound::Upgrade);
    assert!(is_websocket_upgrade_request(upgrade));
    assert!(is_websocket_upgrade_request(b"Upgrade: websocket"));
    assert!(!is_websocket_upgrade_request(b"Upgrade: websocke"));
    assert!(!is_websocket_upgrade_request(b"upgrade: websocket"));
    assert_eq!(inbound(b"GET / HTTP/1.1\r\n\r\n"), Inbound::Page);
    assert_eq!(inbound(b"GET"), Inbound::Close);
    assert_eq!(inbound(b"POST / HTTP/1.1\r\n\r\n"), Inbound::Close);
    assert_eq!(inbound(b""), Inbound::Close);
}
