use rbw_agent::authorization::SshAuthorization;
use rbw_agent::db::{Db, Entry, EntryData, OrgKeys};
use rbw_agent::error::{Error, Failure};
use rbw_agent::ssh_keys::key_fingerprint;
use rbw_agent::ssh_sign::{
    find_ssh_private_key, found_key, name_signature, sign, sign_data, FindPrivateKey,
    FindPrivateKeyEvent, Sign, SignEvent, SignRequest, SshPrivateKey, SshSignature,
    SSH_AGENT_RSA_SHA2_256, SSH_AGENT_RSA_SHA2_512,
};
use signature::Verifier;
use ssh_agent_lib::ssh_key;

fn ed25519_pair(seed: u8) -> ssh_key::private::Ed25519Keypair {
    ssh_key::private::Ed25519Keypair::from_seed(&[seed; 32])
}

fn ed25519_text(seed: u8) -> String {
    let key = ssh_key::PrivateKey::from(ed25519_pair(seed));
    key.to_openssh(ssh_key::LineEnding::LF).unwrap().to_string()
}

fn ed25519_public(seed: u8) -> ssh_key::PublicKey {
    ssh_key::PublicKey::from(ed25519_pair(seed).public)
}

/// The Mersenne prime of 607 bits.
fn prime_p() -> Vec<u8> {
    let mut bytes = vec![0xff; 76];
    bytes[0] = 0x7f;
    bytes
}

/// The Mersenne prime of 521 bits.
fn prime_q() -> Vec<u8> {
    let mut bytes = vec![0xff; 66];
    bytes[0] = 0x01;
    bytes
}

const EXPONENT: [u8; 3] = [1, 0, 1];

fn rsa_key() -> SshPrivateKey {
    SshPrivateKey::Rsa { p: prime_p(), q: prime_q(), e: EXPONENT.to_vec() }
}

fn rsa_public() -> rsa::RsaPublicKey {
    let n = rsa::BigUint::from_bytes_be(&prime_p()) * rsa::BigUint::from_bytes_be(&prime_q());
    rsa::RsaPublicKey::new(n, rsa::BigUint::from_bytes_be(&EXPONENT)).unwrap()
}

fn rsa_text() -> String {
    let mpint = |bytes: &[u8]| ssh_key::Mpint::from_positive_bytes(bytes).unwrap();
    let n = rsa::BigUint::from_bytes_be(&prime_p()) * rsa::BigUint::from_bytes_be(&prime_q());
    let pair = ssh_key::private::RsaKeypair {
        public: ssh_key::public::RsaPublicKey { e: mpint(&EXPONENT), n: mpint(&n.to_bytes_be()) },
        private: ssh_key::private::RsaPrivateKey {
            d: mpint(&[5]),
            iqmp: mpint(&[7]),
            p: mpint(&prime_p()),
            q: mpint(&prime_q()),
        },
    };
    let key = ssh_key::PrivateKey::new(ssh_key::private::KeypairData::Rsa(pair), "").unwrap();
    key.to_openssh(ssh_key::LineEnding::LF).unwrap().to_string()
}

type Search = FindPrivateKey<String>;
type SearchEvent = FindPrivateKeyEvent<u8, u16, String>;

fn find(state: Search, event: SearchEvent) -> Search {
    find_ssh_private_key(state, event)
}

fn entry(id: &str, private_key: Option<&str>) -> Entry {
    Entry {
        id: id.to_string(),
        org_id: None,
        key: Some(format!("key {}", id)),
        name: "n".to_string(),
        notes: None,
        data: EntryData::SshKey {
            private_key: private_key.map(|k| k.to_string()),
            public_key: Some(format!("public {}", id)),
        },
    }
}

fn database(entries: Vec<Entry>) -> Db<u8, u16, Vec<Entry>> {
    Db {
        access_token: None,
        refresh_token: None,
        kdf: None,
        iterations: None,
        memory: None,
        parallelism: None,
        protected_key: None,
        protected_private_key: None,
        protected_org_keys: 0,
        entries,
    }
}

fn confirmed() -> SshAuthorization<i32> {
    SshAuthorization { keys: Some(1), org_keys: Some(OrgKeys::new()), lock_generation: 2 }
}

fn searching(wanted: u8) -> Search {
    let state: Search = FindPrivateKey::start(
        &confirmed(),
        None,
        "work",
        ed25519_public(wanted).to_bytes().unwrap(),
    );
    find(
        state,
        SearchEvent::DbLoaded(Ok(database(vec![
            entry("a", Some("private a")),
            entry("b", Some("private b")),
            entry("c", None),
        ]))),
    )
}

fn public_text(seed: u8) -> SearchEvent {
    SearchEvent::Decrypted(Ok(ed25519_public(seed).to_openssh().unwrap()))
}

#[test]
fn private_key_of_the_matching_entry_is_found() {
    let state = searching(2);
    match &state {
        FindPrivateKey::DecryptPublicKey { key, .. } => assert_eq!(key.public_key, "public a"),
        _ => panic!("another state"),
    }
    let state = find(state, public_text(1));
    let state = find(state, public_text(2));
    match &state {
        FindPrivateKey::DecryptPrivateKey { private_key, entry_key, org_id } => {
            assert_eq!(private_key, "private b");
            assert_eq!(entry_key.as_deref(), Some("key b"));
            assert_eq!(*org_id, None);
        }
        _ => panic!("another state"),
    }
    match find(state, SearchEvent::Decrypted(Ok(ed25519_text(2)))) {
        FindPrivateKey::Done(Ok(SshPrivateKey::Ed25519(bytes))) => {
            assert_eq!(bytes, ed25519_pair(2).to_bytes());
        }
        _ => panic!("another state"),
    }
}

#[test]
fn rsa_key_is_read() {
    let state = find(searching(1), public_text(1));
    match find(state, SearchEvent::Decrypted(Ok(rsa_text()))) {
        FindPrivateKey::Done(Ok(SshPrivateKey::Rsa { p, q, e })) => {
            assert_eq!(rsa::BigUint::from_bytes_be(&p), rsa::BigUint::from_bytes_be(&prime_p()));
            assert_eq!(rsa::BigUint::from_bytes_be(&q), rsa::BigUint::from_bytes_be(&prime_q()));
            assert_eq!(e, EXPONENT.to_vec());
        }
        _ => panic!("another state"),
    }
}

#[test]
fn search_without_a_match_fails() {
    let mut state = searching(9);
    for seed in [1, 2, 3] {
        assert!(matches!(state, FindPrivateKey::DecryptPublicKey { .. }));
        state = find(state, public_text(seed));
    }
    match state {
        FindPrivateKey::Done(Err(Error::Refused(failure))) => {
            assert_eq!(failure.message(), "No matching private key found");
        }
        _ => panic!("another state"),
    }
}

#[test]
fn failures_of_a_search_are_told_apart() {
    let state = find(find(searching(3), public_text(1)), public_text(2));
    match find(state, public_text(3)) {
        FindPrivateKey::Done(Err(Error::Refused(failure))) => {
            assert_eq!(failure.message(), "Matching entry has no private key");
        }
        _ => panic!("another state"),
    }
    match find(searching(1), SearchEvent::Decrypted(Ok("junk".to_string()))) {
        FindPrivateKey::Done(Err(Error::Plain(message))) => {
            assert_eq!(message, ssh_key::PublicKey::from_openssh("junk").unwrap_err().to_string());
        }
        _ => panic!("another state"),
    }
    let state = find(searching(1), public_text(1));
    match find(state, SearchEvent::Decrypted(Ok("junk".to_string()))) {
        FindPrivateKey::Done(Err(Error::Plain(message))) => {
            assert_eq!(message, ssh_key::PrivateKey::from_openssh("junk").unwrap_err().to_string());
        }
        _ => panic!("another state"),
    }
    match found_key::<String>(Err("why".to_string())) {
        Err(Error::Plain(message)) => assert_eq!(message, "why"),
        _ => panic!("another state"),
    }
}

#[test]
fn locked_vault_is_unlocked_for_an_unconfirmed_request() {
    let unconfirmed: SshAuthorization<i32> = SshAuthorization::unconfirmed(2);
    let start = |pinentry: Option<&str>| -> Search {
        FindPrivateKey::start(&unconfirmed, pinentry.map(|p| p.to_string()), "work", vec![1])
    };
    match find(start(None), SearchEvent::LockChecked { needs_unlock: true }) {
        FindPrivateKey::Done(Err(Error::Refused(failure))) => assert_eq!(
            failure.message(),
            "Vault is locked; run `rbw unlock` or configure ssh_agent_pinentry"
        ),
        _ => panic!("another state"),
    }
    assert!(matches!(
        find(start(None), SearchEvent::LockChecked { needs_unlock: false }),
        FindPrivateKey::LoadDb { .. }
    ));
    let state = find(start(Some("pin")), SearchEvent::LockChecked { needs_unlock: true });
    let state = find(state, SearchEvent::TimeoutSet);
    match &state {
        FindPrivateKey::Unlock { unlock, .. } => {
            assert_eq!(unlock.pinentry, "pin");
            assert_eq!(unlock.description, "Unlock the local database for 'work'");
        }
        _ => panic!("another state"),
    }
    assert!(matches!(
        find(state, SearchEvent::Unlocked(Ok(()))),
        FindPrivateKey::LoadDb { .. }
    ));
}

#[test]
fn ed25519_signature_verifies() {
    let data = b"challenge".to_vec();
    let key = SshPrivateKey::Ed25519(ed25519_pair(5).to_bytes());
    assert!(key.signable());
    let made = sign_data(&key, &data, 0).unwrap();
    assert_eq!(made.algorithm, "ssh-ed25519");
    assert_eq!(made.data.len(), 64);
    let signature =
        ssh_key::Signature::new(ssh_key::Algorithm::Ed25519, made.data.clone()).unwrap();
    ed25519_public(5).key_data().verify(&data, &signature).unwrap();
    assert!(ed25519_public(6).key_data().verify(&data, &signature).is_err());
    assert_eq!(sign_data(&key, &data, 7).unwrap().data, made.data);
    let mut broken = ed25519_pair(5).to_bytes();
    broken[63] ^= 1;
    assert!(sign_data(&SshPrivateKey::Ed25519(broken), &data, 0).is_err());
}

#[test]
fn rsa_signature_by_sha512_verifies() {
    let data = b"challenge".to_vec();
    let made = sign_data(&rsa_key(), &data, SSH_AGENT_RSA_SHA2_512 | SSH_AGENT_RSA_SHA2_256).unwrap();
    assert_eq!(made.algorithm, "rsa-sha2-512");
    let verifier = rsa::pkcs1v15::VerifyingKey::<sha2::Sha512>::new(rsa_public());
    let signature = rsa::pkcs1v15::Signature::try_from(made.data.as_slice()).unwrap();
    verifier.verify(&data, &signature).unwrap();
    assert!(verifier.verify(b"other", &signature).is_err());
}

#[test]
fn rsa_signature_by_sha256_verifies() {
    let data = b"challenge".to_vec();
    let made = sign_data(&rsa_key(), &data, SSH_AGENT_RSA_SHA2_256 | 1).unwrap();
    assert_eq!(made.algorithm, "rsa-sha2-256");
    let verifier = rsa::pkcs1v15::VerifyingKey::<sha2::Sha256>::new(rsa_public());
    let signature = rsa::pkcs1v15::Signature::try_from(made.data.as_slice()).unwrap();
    verifier.verify(&data, &signature).unwrap();
}

#[test]
fn rsa_signature_in_the_old_way_is_refused() {
    assert!(sign_data(&rsa_key(), &b"challenge".to_vec(), 0).is_err());
    let named = name_signature("rsa-sha2-512", Ok(vec![1, 2])).unwrap();
    assert_eq!(named.algorithm, "rsa-sha2-512");
    assert_eq!(named.data, vec![1, 2]);
    assert!(name_signature("ssh-rsa", Ok(vec![1, 2])).is_err());
    assert_eq!(name_signature("ssh-rsa", Err("why".to_string())).unwrap_err(), "why");
}

/// The Mersenne prime of 127 bits.
fn short_prime() -> Vec<u8> {
    let mut bytes = vec![0xff; 16];
    bytes[0] = 0x7f;
    bytes
}

/// The padded form of a digest with its prefix, for a modulus of `len` bytes.
fn padded(encoded: &[u8], len: usize) -> Vec<u8> {
    let mut bytes = vec![0x00, 0x01];
    bytes.resize(len - encoded.len() - 1, 0xff);
    bytes.push(0x00);
    bytes.extend_from_slice(encoded);
    bytes
}

#[test]
fn power_of_an_rsa_signature_is_the_padded_digest() {
    let data = b"challenge".to_vec();
    let n = rsa::BigUint::from_bytes_be(&prime_p()) * rsa::BigUint::from_bytes_be(&prime_q());
    let e = rsa::BigUint::from_bytes_be(&EXPONENT);
    // 1128 bits
    let len = 141;

    let mut encoded = vec![
        0x30, 0x51, 0x30, 0x0d, 0x06, 0x09, 0x60, 0x86, 0x48, 0x01, 0x65, 0x03, 0x04, 0x02, 0x03,
        0x05, 0x00, 0x04, 0x40,
    ];
    encoded.extend_from_slice(&<sha2::Sha512 as sha2::Digest>::digest(&data));
    let made = sign_data(&rsa_key(), &data, SSH_AGENT_RSA_SHA2_512).unwrap().data;
    assert_eq!(made.len(), len);
    let power = rsa::BigUint::from_bytes_be(&made).modpow(&e, &n);
    assert_eq!(power, rsa::BigUint::from_bytes_be(&padded(&encoded, len)));

    let mut encoded = vec![
        0x30, 0x31, 0x30, 0x0d, 0x06, 0x09, 0x60, 0x86, 0x48, 0x01, 0x65, 0x03, 0x04, 0x02, 0x01,
        0x05, 0x00, 0x04, 0x20,
    ];
    encoded.extend_from_slice(&<sha2::Sha256 as sha2::Digest>::digest(&data));
    let made = sign_data(&rsa_key(), &data, SSH_AGENT_RSA_SHA2_256).unwrap().data;
    assert_eq!(made.len(), len);
    let power = rsa::BigUint::from_bytes_be(&made).modpow(&e, &n);
    assert_eq!(power, rsa::BigUint::from_bytes_be(&padded(&encoded, len)));
}

#[test]
fn changed_lock_generation_ends_the_request_whatever_the_key() {
    for key in [
        SshPrivateKey::Ed25519(ed25519_pair(2).to_bytes()),
        SshPrivateKey::Rsa { p: vec![0], q: vec![3], e: EXPONENT.to_vec() },
        SshPrivateKey::Other("Dsa(..)".to_string()),
    ] {
        let state: Sign<i32, String> =
            Sign::CheckGeneration { lock_generation: 4, key, data: vec![1], flags: 4 };
        match sign(state, SignEvent::GenerationChecked(Err("locked".to_string()))) {
            Sign::Done(Err(Error::Forwarded(error))) => assert_eq!(error, "locked"),
            _ => panic!("another state"),
        }
    }
}

#[test]
fn sound_rsa_key_always_signs() {
    for round in 0..8u8 {
        let data = vec![round; 5];
        assert!(sign_data(&rsa_key(), &data, SSH_AGENT_RSA_SHA2_512).is_ok());
        assert!(sign_data(&rsa_key(), &data, SSH_AGENT_RSA_SHA2_256).is_ok());
    }
}

#[test]
fn modulus_without_room_for_the_digest_does_not_sign() {
    let data = b"challenge".to_vec();
    // 648 bits: enough for SHA-256, not for SHA-512.
    let middle = SshPrivateKey::Rsa { p: prime_q(), q: short_prime(), e: EXPONENT.to_vec() };
    assert_eq!(
        sign_data(&middle, &data, SSH_AGENT_RSA_SHA2_512).unwrap_err(),
        "signature error: message too long"
    );
    let made = sign_data(&middle, &data, SSH_AGENT_RSA_SHA2_256).unwrap();
    assert_eq!(made.algorithm, "rsa-sha2-256");

    // 188 bits: enough for none, with the Mersenne prime of 61 bits.
    let mut least = vec![0xff; 8];
    least[0] = 0x1f;
    let short = SshPrivateKey::Rsa { p: short_prime(), q: least, e: EXPONENT.to_vec() };
    for flags in [SSH_AGENT_RSA_SHA2_512, SSH_AGENT_RSA_SHA2_256, 0] {
        assert_eq!(
            sign_data(&short, &data, flags).unwrap_err(),
            "signature error: message too long"
        );
    }
}

#[test]
fn composite_factor_gives_a_good_signature_or_an_internal_error() {
    let data = b"challenge".to_vec();
    let mut least = vec![0xff; 8];
    least[0] = 0x1f;
    let composite = rsa::BigUint::from_bytes_be(&short_prime()) * rsa::BigUint::from_bytes_be(&least);
    let n = rsa::BigUint::from_bytes_be(&prime_p()) * composite.clone();
    let public = rsa::RsaPublicKey::new(n, rsa::BigUint::from_bytes_be(&EXPONENT)).unwrap();
    let verifier = rsa::pkcs1v15::VerifyingKey::<sha2::Sha512>::new(public);
    let key = SshPrivateKey::Rsa {
        p: prime_p(),
        q: composite.to_bytes_be(),
        e: EXPONENT.to_vec(),
    };
    match sign_data(&key, &data, SSH_AGENT_RSA_SHA2_512) {
        Ok(made) => {
            let signature = rsa::pkcs1v15::Signature::try_from(made.data.as_slice()).unwrap();
            assert!(verifier.verify(&data, &signature).is_ok());
        }
        Err(message) => assert_eq!(message, "signature error: internal error"),
    }
}

#[test]
fn refused_rsa_numbers_are_explained() {
    let data = b"challenge".to_vec();
    let same = SshPrivateKey::Rsa { p: prime_p(), q: prime_p(), e: EXPONENT.to_vec() };
    for flags in [SSH_AGENT_RSA_SHA2_512, SSH_AGENT_RSA_SHA2_256, 0] {
        assert_eq!(sign_data(&same, &data, flags).unwrap_err(), "invalid prime value");
    }
}

#[test]
fn numbers_that_make_no_rsa_key_are_refused() {
    let same = SshPrivateKey::Rsa { p: prime_p(), q: prime_p(), e: EXPONENT.to_vec() };
    assert!(same.signable());
    assert!(sign_data(&same, &vec![], 4).is_err());
    let zero = SshPrivateKey::Rsa { p: vec![0], q: vec![], e: EXPONENT.to_vec() };
    assert!(zero.signable());
    assert!(sign_data(&zero, &vec![], 4).is_err());
    let half = SshPrivateKey::Rsa { p: vec![0, 0], q: vec![0, 3], e: EXPONENT.to_vec() };
    assert!(!half.signable());
}

#[test]
fn other_keys_do_not_sign() {
    let key = SshPrivateKey::Other("Dsa(..)".to_string());
    assert!(key.signable());
    assert_eq!(
        sign_data(&key, &vec![], 0).unwrap_err(),
        "Unsupported key type: Dsa(..)"
    );
}

fn request(seed: u8) -> SignRequest {
    SignRequest {
        pubkey: ed25519_public(seed).to_bytes().unwrap(),
        data: b"challenge".to_vec(),
        flags: 4,
    }
}

fn asked() -> Sign<i32, String> {
    Sign::start(Some("pin".to_string()), "ssh (pid 1)".to_string(), request(2))
}

#[test]
fn signature_needs_permission_key_and_unlocked_vault() {
    let state = asked();
    match &state {
        Sign::Authorize { wish, .. } => {
            assert_eq!(wish.pinentry.as_deref(), Some("pin"));
            assert_eq!(wish.requester, "ssh (pid 1)");
            assert_eq!(wish.key_fingerprint, key_fingerprint(&request(2).pubkey).unwrap());
        }
        _ => panic!("another state"),
    }
    let state = sign(state, SignEvent::Authorized(Ok(SshAuthorization::unconfirmed(11))));
    match &state {
        Sign::FindKey { authorization, request: r } => {
            assert_eq!(authorization.lock_generation(), 11);
            assert_eq!(r.pubkey, request(2).pubkey);
        }
        _ => panic!("another state"),
    }
    let key = SshPrivateKey::Ed25519(ed25519_pair(2).to_bytes());
    let state = sign(state, SignEvent::KeyFound(Ok(key)));
    assert!(matches!(state, Sign::CheckGeneration { lock_generation: 11, flags: 4, .. }));
    match sign(state, SignEvent::GenerationChecked(Ok(()))) {
        Sign::Done(Ok(SshSignature { algorithm, data })) => {
            assert_eq!(algorithm, "ssh-ed25519");
            let signature = ssh_key::Signature::new(ssh_key::Algorithm::Ed25519, data).unwrap();
            ed25519_public(2).key_data().verify(b"challenge", &signature).unwrap();
        }
        _ => panic!("another state"),
    }
}

#[test]
fn failures_of_a_signature_are_told_apart() {
    let state: Sign<i32, String> = Sign::start(
        None,
        "r".to_string(),
        SignRequest { pubkey: vec![1], data: vec![], flags: 0 },
    );
    assert!(matches!(state, Sign::Done(Err(Error::Plain(_)))));
    match sign(asked(), SignEvent::Authorized(Err(Error::Refused(Failure::MissingKdf)))) {
        Sign::Done(Err(Error::Refused(Failure::MissingKdf))) => {}
        _ => panic!("another state"),
    }
    let found = || {
        let state = sign(asked(), SignEvent::Authorized(Ok(SshAuthorization::unconfirmed(11))));
        sign(state, SignEvent::KeyFound(Ok(SshPrivateKey::Other("Dsa".to_string()))))
    };
    match sign(found(), SignEvent::GenerationChecked(Err("locked".to_string()))) {
        Sign::Done(Err(Error::Forwarded(cause))) => assert_eq!(cause, "locked"),
        _ => panic!("another state"),
    }
    match sign(found(), SignEvent::GenerationChecked(Ok(()))) {
        Sign::Done(Err(Error::Plain(message))) => assert_eq!(message, "Unsupported key type: Dsa"),
        _ => panic!("another state"),
    }
}
