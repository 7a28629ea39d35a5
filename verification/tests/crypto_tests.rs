use lognarrator_client::crypto::{
    decrypt, encrypt, generate_keypair, hash_sha256, init, init_outcome, key_file_paths,
    load_keypair, sign,
    verify, BoxPublicKey, BoxSecretKey, CryptoError, SigningKey, VerifyKey,
};
use lognarrator_client::db::{cleanup_cutoff, mark_logs_sent_query};
use sodiumoxide::crypto::box_;

fn box_keys(pair: &(box_::PublicKey, box_::SecretKey)) -> (BoxPublicKey, BoxSecretKey) {
    (
        BoxPublicKey::from_bytes(pair.0.as_ref().to_vec()).unwrap(),
        BoxSecretKey::from_bytes(pair.1.as_ref().to_vec()).unwrap(),
    )
}

#[test]
fn test_encrypt_decrypt() {
    init().unwrap();

    let sender = box_keys(&box_::gen_keypair());
    let recipient = box_keys(&box_::gen_keypair());

    let data = b"This is a test message";

    let encrypted = encrypt(data, &recipient.0, &sender.1).unwrap();

    let decrypted = decrypt(&encrypted, &sender.0, &recipient.1).unwrap();

    assert_eq!(decrypted, data);
}

#[test]
fn encrypted_data_is_nonce_then_ciphertext() {
    init().unwrap();
    let sender = box_::gen_keypair();
    let recipient = box_::gen_keypair();
    let (recipient_pk, _) = box_keys(&recipient);
    let (_, sender_sk) = box_keys(&sender);
    let data = b"payload";
    let encrypted = encrypt(data, &recipient_pk, &sender_sk).unwrap();
    assert_eq!(encrypted.len(), 24 + data.len() + 16);
    let nonce = box_::Nonce::from_slice(&encrypted[..24]).unwrap();
    assert_eq!(box_::seal(data, &nonce, &recipient.0, &sender.1), &encrypted[24..]);
    let again = encrypt(data, &recipient_pk, &sender_sk).unwrap();
    assert_ne!(encrypted, again);
}

#[test]
fn decrypt_refuses_short_and_forged_data() {
    init().unwrap();
    let sender = box_keys(&box_::gen_keypair());
    let recipient = box_keys(&box_::gen_keypair());
    assert_eq!(decrypt(&[0u8; 23], &sender.0, &recipient.1), Err(CryptoError::TooShort));
    assert_eq!(decrypt(&[], &sender.0, &recipient.1), Err(CryptoError::TooShort));
    assert_eq!(decrypt(&[0u8; 24], &sender.0, &recipient.1), Err(CryptoError::DecryptionFailed));
    let mut encrypted = encrypt(b"secret", &recipient.0, &sender.1).unwrap();
    let last = encrypted.len() - 1;
    encrypted[last] ^= 1;
    assert_eq!(decrypt(&encrypted, &sender.0, &recipient.1), Err(CryptoError::DecryptionFailed));
}

#[test]
fn signed_message_is_signature_then_message() {
    init().unwrap();
    let (public_key, secret_key) = generate_keypair();
    let signed = sign(b"hello", &secret_key);
    assert_eq!(signed.len(), 64 + 5);
    assert_eq!(&signed[64..], b"hello");
    assert_eq!(sign(b"hello", &secret_key), signed);
    assert_eq!(verify(&signed, &public_key), Some(b"hello".to_vec()));
    assert_eq!(verify(b"short", &public_key), None);
    let other = sodiumoxide::crypto::sign::SecretKey::from_slice(secret_key.as_bytes()).unwrap();
    assert_eq!(sodiumoxide::crypto::sign::sign(b"hello", &other), signed);
}

#[test]
fn keys_have_the_length_of_their_kind() {
    assert!(SigningKey::from_bytes(vec![1u8; 64]).is_some());
    assert!(SigningKey::from_bytes(vec![1u8; 63]).is_none());
    assert!(SigningKey::from_bytes(vec![]).is_none());
    assert!(VerifyKey::from_bytes(vec![1u8; 32]).is_some());
    assert!(VerifyKey::from_bytes(vec![1u8; 64]).is_none());
    assert!(BoxPublicKey::from_bytes(vec![1u8; 32]).is_some());
    assert!(BoxPublicKey::from_bytes(vec![1u8; 31]).is_none());
    assert!(BoxSecretKey::from_bytes(vec![1u8; 32]).is_some());
    assert!(BoxSecretKey::from_bytes(vec![1u8; 33]).is_none());
    assert_eq!(SigningKey::from_bytes(vec![7u8; 64]).unwrap().as_bytes(), &vec![7u8; 64]);
    assert_eq!(VerifyKey::from_bytes(vec![7u8; 32]).unwrap().as_bytes(), &vec![7u8; 32]);
    init().unwrap();
    let (public_key, secret_key) = generate_keypair();
    assert_eq!(public_key.as_bytes().len(), 32);
    assert_eq!(secret_key.as_bytes().len(), 64);
}

#[test]
fn loaded_key_pair_keeps_the_stored_secret_key() {
    init().unwrap();
    let pair = load_keypair(vec![9u8; 32]).ok().unwrap();
    assert_eq!(pair.secret_key.as_bytes(), &vec![9u8; 32]);
    assert_eq!(pair.public_key.as_bytes().len(), 32);
    assert!(matches!(load_keypair(vec![9u8; 31]), Err(CryptoError::InvalidKey)));
}

#[test]
fn digest_in_hexadecimal() {
    assert_eq!(
        hash_sha256("abc"),
        "ddaf35a193617abacc417349ae20413112e6fa4e89a97ea20a9eeee64b55d39a\
         2192992a274fc1a836ba3c23a3feebbd454d4423643ce80e2a9ac94fa54ca49f"
    );
    assert_eq!(hash_sha256("").len(), 128);
}

#[test]
fn key_files_of_a_generated_pair() {
    assert_eq!(
        key_file_paths("/app/config/collector"),
        ("/app/config/collector.private".to_string(), "/app/config/collector.public".to_string())
    );
}

#[test]
fn statement_that_marks_rows_as_sent() {
    assert_eq!(mark_logs_sent_query(&[]), None);
    assert_eq!(
        mark_logs_sent_query(&[7]),
        Some("UPDATE logs SET sent = 1 WHERE id IN (7)".to_string())
    );
    assert_eq!(
        mark_logs_sent_query(&[1, -2, 300]),
        Some("UPDATE logs SET sent = 1 WHERE id IN (1,-2,300)".to_string())
    );
}

#[test]
fn cleanup_cutoff_lies_days_before_now() {
    assert_eq!(cleanup_cutoff(1_700_000_000, 0), 1_700_000_000);
    assert_eq!(cleanup_cutoff(1_700_000_000, 30), 1_700_000_000 - 30 * 86_400);
    assert_eq!(cleanup_cutoff(0, 1), -86_400);
    assert_eq!(cleanup_cutoff(0, u64::MAX), i64::MIN);
    assert_eq!(cleanup_cutoff(i64::MAX, 106_751_991_167_300), i64::MAX - 106_751_991_167_300 * 86_400);
    assert_eq!(cleanup_cutoff(i64::MIN, 1), i64::MIN);
    assert_eq!(cleanup_cutoff(i64::MAX, 213_503_982_334_601), -9_223_372_036_854_750_593);
    assert_eq!(cleanup_cutoff(-1, 213_503_982_334_601), i64::MIN);
}

#[test]
fn initialisation_outcome() {
    assert_eq!(init_outcome(true), Ok(()));
    assert_eq!(init_outcome(false), Err(CryptoError::InitializationFailed));
    assert_eq!(init(), Ok(()));
}
