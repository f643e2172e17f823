use rbw_agent::authorization::SshAuthorization;
use rbw_agent::cipher::{
    decrypt, decrypt_cipher, decrypt_cipher_with_keys, decrypt_ssh_cipher, encrypt,
    encrypt_with_key, Decrypt, DecryptCipher, DecryptCipherEvent, DecryptEvent, DecryptRequest,
    DecryptWithKeys, DecryptWithKeysEvent, Encrypt, EncryptEvent, EncryptWithKey,
    EncryptWithKeyEvent, SshDecryption,
};
use rbw_agent::db::OrgKeys;
use rbw_agent::error::Error;

/// Keys of a toy cipher that adds them to the bytes and remembers their sum.
type Keys = Vec<u8>;

#[derive(Debug, Clone, PartialEq)]
struct ToyCipher {
    tag: u32,
    bytes: Vec<u8>,
}

fn test_keys(seed: u8) -> Keys {
    (0..64).map(|i| seed.wrapping_add(i)).collect()
}

fn tag(keys: &Keys) -> u32 {
    keys.iter().enumerate().map(|(i, k)| (i as u32 + 1) * u32::from(*k)).sum()
}

fn toy_encrypt(keys: &Keys, plain: &[u8]) -> ToyCipher {
    let bytes = plain
        .iter()
        .enumerate()
        .map(|(i, b)| b.wrapping_add(keys[i % keys.len()]))
        .collect();
    ToyCipher { tag: tag(keys), bytes }
}

fn toy_text(cipher: &ToyCipher) -> String {
    let hex: String = cipher.bytes.iter().map(|b| format!("{:02x}", b)).collect();
    format!("{}.{}", cipher.tag, hex)
}

fn toy_parse(text: &str) -> Result<ToyCipher, String> {
    let (tag, hex) = text.split_once('.').ok_or("no dot".to_string())?;
    let tag = tag.parse().map_err(|_| "bad tag".to_string())?;
    let bytes = (0..hex.len() / 2)
        .map(|i| u8::from_str_radix(&hex[2 * i..2 * i + 2], 16).map_err(|_| "bad hex".to_string()))
        .collect::<Result<Vec<u8>, String>>()?;
    Ok(ToyCipher { tag, bytes })
}

fn toy_decrypt(
    cipher: &ToyCipher,
    keys: &Keys,
    entry_key: Option<&Keys>,
) -> Result<Vec<u8>, String> {
    let keys = entry_key.unwrap_or(keys);
    if cipher.tag != tag(keys) {
        return Err("wrong key".to_string());
    }
    Ok(cipher
        .bytes
        .iter()
        .enumerate()
        .map(|(i, b)| b.wrapping_sub(keys[i % keys.len()]))
        .collect())
}

/// Runs an encryption with the toy cipher.
fn run_encrypt(keys: &Keys, entry_key: Option<&str>, plaintext: &str) -> Result<String, Error<String>> {
    let mut state: EncryptWithKey<Keys, ToyCipher, String> = EncryptWithKey::start(
        keys.clone(),
        entry_key.map(|k| k.to_string()),
        plaintext.to_string(),
    );
    loop {
        let event = match &state {
            EncryptWithKey::ParseItemKey { entry_key, .. } => {
                EncryptWithKeyEvent::ItemKeyParsed(toy_parse(entry_key))
            }
            EncryptWithKey::DecryptItemKey { keys, key_cipher, .. } => {
                EncryptWithKeyEvent::ItemKeyDecrypted(toy_decrypt(key_cipher, keys, None))
            }
            EncryptWithKey::Encrypt { keys, plaintext } => EncryptWithKeyEvent::Encrypted(Ok(
                toy_text(&toy_encrypt(keys, plaintext.as_bytes())),
            )),
            EncryptWithKey::Done(_) => break,
        };
        state = encrypt_with_key(state, event);
    }
    match state {
        EncryptWithKey::Done(result) => result,
        other => panic!("{:?}", other),
    }
}

/// Runs a decryption with the toy cipher.
fn run_decrypt(keys: &Keys, cipherstring: &str, entry_key: Option<&str>) -> Result<String, Error<String>> {
    let mut state: DecryptWithKeys<Keys, ToyCipher, String> = DecryptWithKeys::start(
        keys.clone(),
        cipherstring.to_string(),
        entry_key.map(|k| k.to_string()),
    );
    loop {
        let event = match &state {
            DecryptWithKeys::ParseItemKey { entry_key, .. } => {
                DecryptWithKeysEvent::ItemKeyParsed(toy_parse(entry_key))
            }
            DecryptWithKeys::DecryptItemKey { keys, key_cipher, .. } => {
                DecryptWithKeysEvent::ItemKeyDecrypted(toy_decrypt(key_cipher, keys, None))
            }
            DecryptWithKeys::ParseSecret { cipherstring, .. } => {
                DecryptWithKeysEvent::SecretParsed(toy_parse(cipherstring))
            }
            DecryptWithKeys::DecryptSecret { keys, item_keys, cipher } => {
                DecryptWithKeysEvent::SecretDecrypted(toy_decrypt(cipher, keys, item_keys.as_ref()))
            }
            DecryptWithKeys::Done(_) => break,
        };
        state = decrypt_cipher_with_keys(state, event);
    }
    match state {
        DecryptWithKeys::Done(result) => result,
        other => panic!("{:?}", other),
    }
}

fn caused(error: Error<String>) -> (String, String) {
    match error {
        Error::Caused(failure, cause) => (failure.message(), cause),
        other => panic!("{:?}", other),
    }
}

#[test]
fn encrypt_with_item_key_roundtrip() {
    let master = test_keys(1);
    let item = test_keys(100);

    // the wrapped item key as stored in the cipher's `key` field
    let full_key = item.clone();
    let wrapped = toy_text(&toy_encrypt(&master, &full_key));

    // encrypt with the item key
    let ct = run_encrypt(&master, Some(&wrapped), "secret").unwrap();

    // decrypting with the item key succeeds
    let plain = toy_decrypt(&toy_parse(&ct).unwrap(), &master, Some(&item)).unwrap();
    assert_eq!(plain, b"secret");

    // decrypting with the master key fails
    assert!(toy_decrypt(&toy_parse(&ct).unwrap(), &master, None).is_err());

    assert_eq!(run_decrypt(&master, &ct, Some(&wrapped)).unwrap(), "secret");
}

#[test]
fn encrypt_without_item_key_uses_master_key() {
    let master = test_keys(2);
    let ct = run_encrypt(&master, None, "secret").unwrap();
    let plain = toy_decrypt(&toy_parse(&ct).unwrap(), &master, None).unwrap();
    assert_eq!(plain, b"secret");
}

#[test]
fn confirmed_ssh_authorization_uses_temporary_keys() {
    let authorization = SshAuthorization {
        keys: Some(test_keys(4)),
        org_keys: Some(OrgKeys::new()),
        lock_generation: 9,
    };
    let ciphertext = run_encrypt(authorization.key(None).unwrap(), None, "private key").unwrap();

    assert_eq!(
        run_decrypt(authorization.key(None).unwrap(), &ciphertext, None).unwrap(),
        "private key"
    );
    assert_eq!(authorization.lock_generation(), 9);
}

#[test]
fn text_beyond_ascii_comes_back() {
    let master = test_keys(3);
    let ct = run_encrypt(&master, None, "p\u{e4}\u{df}w\u{f6}rd \u{1f511}").unwrap();
    assert_eq!(run_decrypt(&master, &ct, None).unwrap(), "p\u{e4}\u{df}w\u{f6}rd \u{1f511}");
}

#[test]
fn failures_of_a_decryption_are_told_apart() {
    let master = test_keys(1);
    let good = toy_text(&toy_encrypt(&master, b"x"));
    let foreign = toy_text(&toy_encrypt(&test_keys(9), b"x"));
    assert_eq!(
        caused(run_decrypt(&master, &good, Some("junk")).unwrap_err()),
        ("failed to parse individual item encryption key".to_string(), "no dot".to_string())
    );
    assert_eq!(
        caused(run_decrypt(&master, &good, Some(&foreign)).unwrap_err()),
        ("failed to decrypt individual item encryption key".to_string(), "wrong key".to_string())
    );
    assert_eq!(
        caused(run_decrypt(&master, "junk", None).unwrap_err()),
        ("failed to parse encrypted secret".to_string(), "no dot".to_string())
    );
    assert_eq!(
        caused(run_decrypt(&master, &foreign, None).unwrap_err()),
        ("failed to decrypt encrypted secret".to_string(), "wrong key".to_string())
    );
    let binary = toy_text(&toy_encrypt(&master, &[b'a', 0xff]));
    match run_decrypt(&master, &binary, None).unwrap_err() {
        Error::Explained(failure, cause) => {
            assert_eq!(failure.message(), "failed to parse decrypted secret");
            assert_eq!(cause, "invalid utf-8 sequence of 1 bytes from index 1");
        }
        other => panic!("{:?}", other),
    }
}

#[test]
fn failures_of_an_encryption_are_told_apart() {
    let master = test_keys(1);
    assert_eq!(
        caused(run_encrypt(&master, Some("junk"), "x").unwrap_err()).0,
        "failed to parse individual item encryption key"
    );
    let foreign = toy_text(&toy_encrypt(&test_keys(9), b"x"));
    assert_eq!(
        caused(run_encrypt(&master, Some(&foreign), "x").unwrap_err()).0,
        "failed to decrypt individual item encryption key"
    );
    let state: EncryptWithKey<Keys, ToyCipher, String> =
        EncryptWithKey::start(master, None, "x".to_string());
    match encrypt_with_key(state, EncryptWithKeyEvent::Encrypted(Err("rng".to_string()))) {
        EncryptWithKey::Done(Err(error)) => {
            assert_eq!(
                caused(error),
                ("failed to encrypt plaintext secret".to_string(), "rng".to_string())
            );
        }
        other => panic!("{:?}", other),
    }
}

type State = DecryptCipher<Vec<i32>, i32, String>;
type Event = DecryptCipherEvent<Vec<i32>, i32, String>;

fn request(skip: bool, pinentry: Option<&str>) -> DecryptRequest {
    DecryptRequest {
        cipherstring: "abc".to_string(),
        entry_key: Some("entry".to_string()),
        org_id: Some("org".to_string()),
        skip_master_password_reprompt: skip,
        pinentry: pinentry.map(|p| p.to_string()),
    }
}

fn looking_up(skip: bool, pinentry: Option<&str>) -> State {
    decrypt_cipher(
        DecryptCipher::CheckReprompt { request: request(skip, pinentry) },
        Event::RepromptChecked(true),
    )
}

fn listed(pinentry: Option<&str>) -> State {
    let state = decrypt_cipher(
        looking_up(false, pinentry),
        Event::LookedUp { listed: true, lock_generation: 6 },
    );
    decrypt_cipher(state, Event::GateTaken)
}

const SHA256_ABC: [u8; 32] = [
    0xba, 0x78, 0x16, 0xbf, 0x8f, 0x01, 0xcf, 0xea, 0x41, 0x41, 0x40, 0xde, 0x5d, 0xae, 0x22, 0x23,
    0xb0, 0x03, 0x61, 0xa3, 0x96, 0x17, 0x7a, 0x9c, 0xb4, 0x10, 0xff, 0x61, 0xf2, 0x00, 0x15, 0xad,
];

#[test]
fn entries_are_looked_up_by_their_digest() {
    match looking_up(false, None) {
        DecryptCipher::LookUp { digest, .. } => assert_eq!(digest, SHA256_ABC),
        other => panic!("{:?}", other),
    }
}

#[test]
fn list_of_entries_is_filled_first() {
    let state: State = decrypt_cipher(
        DecryptCipher::CheckReprompt { request: request(false, None) },
        Event::RepromptChecked(false),
    );
    assert!(matches!(state, DecryptCipher::LoadEntries { .. }));
    let state = decrypt_cipher(state, Event::EntriesLoaded(Ok(vec![1, 2])));
    match &state {
        DecryptCipher::SetReprompt { entries, .. } => assert_eq!(entries, &vec![1, 2]),
        other => panic!("{:?}", other),
    }
    match decrypt_cipher(state, Event::RepromptSet) {
        DecryptCipher::LookUp { digest, .. } => assert_eq!(digest, SHA256_ABC),
        other => panic!("{:?}", other),
    }
}

#[test]
fn unmarked_entry_is_decrypted_without_a_dialogue() {
    let state = decrypt_cipher(
        looking_up(false, None),
        Event::LookedUp { listed: false, lock_generation: 6 },
    );
    assert!(matches!(state, DecryptCipher::FindKeys { lock_generation: 6, .. }));
    let state = decrypt_cipher(state, Event::KeysFound { generation: Ok(()), keys: Some(5) });
    match &state {
        DecryptCipher::Decrypt { keys, cipherstring, entry_key } => {
            assert_eq!(*keys, 5);
            assert_eq!(cipherstring, "abc");
            assert_eq!(entry_key.as_deref(), Some("entry"));
        }
        other => panic!("{:?}", other),
    }
    match decrypt_cipher(state, Event::Decrypted(Ok("plain".to_string()))) {
        DecryptCipher::Done(Ok(text)) => assert_eq!(text, "plain"),
        other => panic!("{:?}", other),
    }
}

#[test]
fn marked_entry_needs_the_password() {
    let state = decrypt_cipher(listed(Some("pin")), Event::GenerationChecked(Ok(())));
    match &state {
        DecryptCipher::Verify { pinentry, description, lock_generation, .. } => {
            assert_eq!(pinentry, "pin");
            assert_eq!(description, "Accessing this entry requires the master password");
            assert_eq!(*lock_generation, 6);
        }
        other => panic!("{:?}", other),
    }
    let state = decrypt_cipher(state, Event::Verified(Ok((1, OrgKeys::new()))));
    match state {
        DecryptCipher::FindKeys { request, lock_generation } => {
            assert_eq!(request.org_id.as_deref(), Some("org"));
            assert_eq!(lock_generation, 6);
        }
        other => panic!("{:?}", other),
    }
}

#[test]
fn marked_entry_can_be_read_where_the_prompt_is_skipped() {
    let state = decrypt_cipher(
        looking_up(true, None),
        Event::LookedUp { listed: true, lock_generation: 6 },
    );
    assert!(matches!(state, DecryptCipher::FindKeys { .. }));
}

#[test]
fn failures_of_an_entry_access_are_told_apart() {
    match decrypt_cipher(listed(None), Event::GenerationChecked(Ok(()))) {
        DecryptCipher::Done(Err(Error::Refused(failure))) => assert_eq!(
            failure.message(),
            "SSH key requires a master-password re-prompt; configure ssh_agent_pinentry"
        ),
        other => panic!("{:?}", other),
    }
    match decrypt_cipher(listed(None), Event::GenerationChecked(Err("l".to_string()))) {
        DecryptCipher::Done(Err(error)) => {
            assert_eq!(caused(error).0, "entry access invalidated before prompting");
        }
        other => panic!("{:?}", other),
    }
    match decrypt_cipher(listed(Some("pin")), Event::TimedOut("late".to_string())) {
        DecryptCipher::Done(Err(error)) => {
            assert_eq!(caused(error).0, "pinentry transaction timed out");
        }
        other => panic!("{:?}", other),
    }
    let finding = || {
        decrypt_cipher(
            looking_up(false, None),
            Event::LookedUp { listed: false, lock_generation: 6 },
        )
    };
    match decrypt_cipher(
        finding(),
        Event::KeysFound { generation: Err("l".to_string()), keys: Some(5) },
    ) {
        DecryptCipher::Done(Err(error)) => assert_eq!(caused(error).0, "entry access invalidated"),
        other => panic!("{:?}", other),
    }
    match decrypt_cipher(finding(), Event::KeysFound { generation: Ok(()), keys: None }) {
        DecryptCipher::Done(Err(Error::Refused(failure))) => {
            assert_eq!(failure.message(), "failed to find decryption keys in in-memory state");
        }
        other => panic!("{:?}", other),
    }
}

#[test]
fn decrypt_request_asks_with_the_configured_pinentry() {
    let state: Decrypt<String> = Decrypt::LoadPinentry {
        cipherstring: "c".to_string(),
        entry_key: None,
        org_id: None,
    };
    let state = decrypt(state, DecryptEvent::PinentryLoaded(Ok("pin".to_string())));
    match &state {
        Decrypt::Decrypt { request } => {
            assert_eq!(request.cipherstring, "c");
            assert_eq!(request.pinentry.as_deref(), Some("pin"));
            assert!(!request.skip_master_password_reprompt);
        }
        other => panic!("{:?}", other),
    }
    let state = decrypt(state, DecryptEvent::Decrypted(Ok("p".to_string())));
    match &state {
        Decrypt::Respond { plaintext } => assert_eq!(plaintext, "p"),
        other => panic!("{:?}", other),
    }
    assert!(matches!(decrypt(state, DecryptEvent::Responded(Ok(()))), Decrypt::Done(Ok(()))));
}

#[test]
fn encrypt_request_needs_keys() {
    let start = || Encrypt::<i32, String>::FindKeys {
        plaintext: "p".to_string(),
        org_id: None,
        entry_key: Some("k".to_string()),
    };
    match encrypt(start(), EncryptEvent::KeysFound(None)) {
        Encrypt::Done(Err(Error::Refused(failure))) => {
            assert_eq!(failure.message(), "failed to find encryption keys in in-memory state");
        }
        other => panic!("{:?}", other),
    }
    let state = encrypt(start(), EncryptEvent::KeysFound(Some(4)));
    match &state {
        Encrypt::Encrypt { keys, entry_key, plaintext } => {
            assert_eq!(*keys, 4);
            assert_eq!(entry_key.as_deref(), Some("k"));
            assert_eq!(plaintext, "p");
        }
        other => panic!("{:?}", other),
    }
    let state = encrypt(state, EncryptEvent::Encrypted(Ok("c".to_string())));
    match &state {
        Encrypt::Respond { cipherstring } => assert_eq!(cipherstring, "c"),
        other => panic!("{:?}", other),
    }
    match encrypt(state, EncryptEvent::Responded(Err("closed".to_string()))) {
        Encrypt::Done(Err(Error::Forwarded(cause))) => assert_eq!(cause, "closed"),
        other => panic!("{:?}", other),
    }
}

#[test]
fn permission_keys_come_before_those_of_the_agent() {
    let confirmed = SshAuthorization {
        keys: Some(3),
        org_keys: Some(OrgKeys::new()),
        lock_generation: 1,
    };
    match decrypt_ssh_cipher(&confirmed, Some("pin"), "c", None, None) {
        SshDecryption::WithKeys(keys) => assert_eq!(*keys, 3),
        other => panic!("{:?}", other),
    }
    match decrypt_ssh_cipher(&confirmed, Some("pin"), "c", Some("k"), Some("org")) {
        SshDecryption::WithRequest(request) => {
            assert_eq!(request.cipherstring, "c");
            assert_eq!(request.entry_key.as_deref(), Some("k"));
            assert_eq!(request.org_id.as_deref(), Some("org"));
            assert_eq!(request.pinentry.as_deref(), Some("pin"));
            assert!(!request.skip_master_password_reprompt);
        }
        other => panic!("{:?}", other),
    }
}
