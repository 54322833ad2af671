use transactions::blockchain::account::{Account, CredentialError, Locked};

fn to_hex(bytes: &[u8]) -> String {
    bytes.iter().map(|b| format!("{:02x}", b)).collect()
}

fn sample_key() -> Vec<u8> {
    (0u8..32).collect()
}

fn sample_iv() -> Vec<u8> {
    (100u8..116).collect()
}

fn key_hex() -> Vec<u8> {
    to_hex(&sample_key()).into_bytes()
}

fn encrypt_credential(key: &[u8], iv: &[u8], plaintext: &[u8]) -> Vec<u8> {
    let ciphertext = openssl::symm::encrypt(
        openssl::symm::Cipher::aes_256_cbc(),
        key,
        Some(iv),
        plaintext,
    )
    .expect("encryption with well-formed key and iv succeeds");
    format!("{}:{}", to_hex(iv), to_hex(&ciphertext)).into_bytes()
}

fn locked_account(credential: Vec<u8>) -> Account<Locked> {
    Account::<Locked>::new(
        vec![7u8; 20],
        42,
        5,
        (b"USDC".to_vec(), b"WETH".to_vec()),
        credential,
    )
}

#[test]
fn unlock_round_trips_the_plaintext() {
    let plaintext = b"4c0883a69102937d6231471b5dbb6204fe5129617082792ae468d01a3f362318";
    let credential = encrypt_credential(&sample_key(), &sample_iv(), plaintext);
    assert!(!credential.windows(plaintext.len()).any(|w| w == plaintext));
    let account = locked_account(credential);
    let unlocked = account.unlock(&key_hex()).expect("valid credential unlocks");
    assert_eq!(unlocked.private_key().as_slice(), plaintext);
}

#[test]
fn unlock_preserves_the_account_fields() {
    let credential = encrypt_credential(&sample_key(), &sample_iv(), b"secret");
    let account = locked_account(credential);
    let unlocked = account.unlock(&key_hex()).unwrap();
    assert_eq!(unlocked.address(), account.address());
    assert_eq!(unlocked.algorithm(), 42);
    assert_eq!(unlocked.interval(), 5);
    assert_eq!(unlocked.pair().0, b"USDC".to_vec());
    assert_eq!(unlocked.pair().1, b"WETH".to_vec());
}

#[test]
fn lock_then_unlock_round_trips() {
    let plaintext = b"another private key";
    let credential = encrypt_credential(&sample_key(), &sample_iv(), plaintext);
    let unlocked = locked_account(credential).unlock(&key_hex()).unwrap();
    let fresh_iv: Vec<u8> = (200u8..216).collect();
    let relocked = unlocked.lock(&key_hex(), &fresh_iv).expect("re-encryption succeeds");
    let unlocked_again = relocked.unlock(&key_hex()).expect("the re-encrypted form unlocks");
    assert_eq!(unlocked_again.private_key().as_slice(), plaintext);
}

#[test]
fn unlock_rejects_a_missing_separator() {
    let account = locked_account(b"00112233445566778899aabbccddeeff".to_vec());
    assert!(matches!(
        account.unlock(&key_hex()),
        Err(CredentialError::DecryptionFailure)
    ));
}

#[test]
fn unlock_rejects_too_many_separators() {
    let mut credential = encrypt_credential(&sample_key(), &sample_iv(), b"secret");
    credential.push(b':');
    credential.extend_from_slice(b"ff");
    let account = locked_account(credential);
    assert!(matches!(
        account.unlock(&key_hex()),
        Err(CredentialError::DecryptionFailure)
    ));
}

#[test]
fn unlock_rejects_a_non_hex_component() {
    let account = locked_account(b"zz112233445566778899aabbccddeeff:00112233".to_vec());
    assert!(matches!(
        account.unlock(&key_hex()),
        Err(CredentialError::DecryptionFailure)
    ));
}

#[test]
fn unlock_rejects_an_odd_length_component() {
    let account = locked_account(b"00112233445566778899aabbccddeef:00112233".to_vec());
    assert!(matches!(
        account.unlock(&key_hex()),
        Err(CredentialError::DecryptionFailure)
    ));
}

#[test]
fn unlock_rejects_a_wrong_length_key() {
    let short_key: Vec<u8> = (0u8..16).collect();
    let short_key_hex = to_hex(&short_key).into_bytes();
    let credential = encrypt_credential(&sample_key(), &sample_iv(), b"secret");
    let account = locked_account(credential);
    assert!(matches!(
        account.unlock(&short_key_hex),
        Err(CredentialError::DecryptionFailure)
    ));
}

#[test]
fn unlock_rejects_a_wrong_length_iv() {
    let ciphertext = openssl::symm::encrypt(
        openssl::symm::Cipher::aes_256_cbc(),
        &sample_key(),
        Some(&sample_iv()),
        b"secret",
    )
    .unwrap();
    let short_iv: Vec<u8> = (0u8..8).collect();
    let credential = format!("{}:{}", to_hex(&short_iv), to_hex(&ciphertext)).into_bytes();
    let account = locked_account(credential);
    assert!(matches!(
        account.unlock(&key_hex()),
        Err(CredentialError::DecryptionFailure)
    ));
}

#[test]
fn unlock_rejects_a_non_hex_wallet_secret() {
    let credential = encrypt_credential(&sample_key(), &sample_iv(), b"secret");
    let account = locked_account(credential);
    assert!(matches!(
        account.unlock(&b"not hexadecimal at all".to_vec()),
        Err(CredentialError::DecryptionFailure)
    ));
}

#[test]
fn unlock_with_the_wrong_key_never_leaks_the_plaintext() {
    let plaintext = b"the real secret";
    let credential = encrypt_credential(&sample_key(), &sample_iv(), plaintext);
    let account = locked_account(credential);
    let wrong_key: Vec<u8> = (50u8..82).collect();
    let wrong_key_hex = to_hex(&wrong_key).into_bytes();
    match account.unlock(&wrong_key_hex) {
        Err(e) => assert_eq!(e, CredentialError::DecryptionFailure),
        Ok(unlocked) => assert_ne!(unlocked.private_key().as_slice(), plaintext),
    }
}

#[test]
fn unlock_rejects_a_truncated_ciphertext() {
    // Valid hexadecimal, but not a whole number of cipher blocks.
    let credential = format!("{}:{}", to_hex(&sample_iv()), "00112233").into_bytes();
    let account = locked_account(credential);
    assert!(matches!(
        account.unlock(&key_hex()),
        Err(CredentialError::DecryptionFailure)
    ));
}

#[test]
fn lock_rejects_a_malformed_wallet_secret() {
    let credential = encrypt_credential(&sample_key(), &sample_iv(), b"secret");
    let unlocked = locked_account(credential).unlock(&key_hex()).unwrap();
    let iv = sample_iv();
    assert!(matches!(
        unlocked.lock(&b"abc".to_vec(), &iv),
        Err(CredentialError::EncryptionFailure)
    ));
    let short_iv: Vec<u8> = (0u8..4).collect();
    assert!(matches!(
        unlocked.lock(&key_hex(), &short_iv),
        Err(CredentialError::EncryptionFailure)
    ));
}
