use rbw_agent::db::{Db, Entry, EntryData};
use rbw_agent::error::{Error, Warning};
use rbw_agent::ssh_agent_cache::{load, Cache, CacheFile, CACHE_VERSION};
use rbw_agent::ssh_keys::{
    canonical_ssh_public_key, decrypt_ssh_public_keys, find_invalid, get_ssh_public_keys,
    identity_of, key_fingerprint, refresh_ssh_public_key_cache, request_identities,
    without_comment, DecryptPublicKeys, DecryptPublicKeysEvent, GetPublicKeys, GetPublicKeysEvent,
    RefreshCache, RefreshCacheEvent, SealedKeys, SshPublicKey,
};

const TEST_KEY: &str =
    "ssh-ed25519 AAAAC3NzaC1lZDI1NTE5AAAAIAAAAAAAAAAAAAAAAAAAAAAAAAAAAAAAAAAAAAAAAAAA";

fn blob(filler: u8) -> Vec<u8> {
    let mut bytes = vec![0, 0, 0, 11];
    bytes.extend_from_slice(b"ssh-ed25519");
    bytes.extend_from_slice(&[0, 0, 0, 32]);
    bytes.extend_from_slice(&[filler; 32]);
    bytes
}

fn openssh(filler: u8, comment: &str) -> String {
    let key = ssh_agent_lib::ssh_key::PublicKey::from_bytes(&blob(filler)).unwrap();
    ssh_agent_lib::ssh_key::PublicKey::new(key.key_data().clone(), comment).to_openssh().unwrap()
}

fn canonical(text: &str) -> Result<String, Error<String>> {
    canonical_ssh_public_key(text)
}

fn ssh_entry(id: &str, public_key: Option<&str>, private_key: Option<&str>) -> Entry {
    Entry {
        id: id.to_string(),
        org_id: Some(format!("org of {}", id)),
        key: Some(format!("key of {}", id)),
        name: "name".to_string(),
        notes: None,
        data: EntryData::SshKey {
            private_key: private_key.map(|k| k.to_string()),
            public_key: public_key.map(|k| k.to_string()),
        },
    }
}

fn entries() -> Vec<Entry> {
    let mut other = ssh_entry("c", None, None);
    other.data = EntryData::Other;
    vec![
        ssh_entry("a", Some("sealed a"), Some("private a")),
        ssh_entry("b", None, Some("private b")),
        other,
        ssh_entry("d", Some("sealed d"), None),
    ]
}

#[test]
fn canonical_public_key_removes_comment() {
    let with_comment = "ssh-ed25519 AAAAC3NzaC1lZDI1NTE5AAAAIAAAAAAAAAAAAAAAAAAAAAAAAAAAAAAAAAAAAAAAAAAA user@example";
    assert_eq!(
        canonical(with_comment).unwrap(),
        "ssh-ed25519 AAAAC3NzaC1lZDI1NTE5AAAAIAAAAAAAAAAAAAAAAAAAAAAAAAAAAAAAAAAAAAAAAAAA"
    );
}

#[test]
fn canonical_text_stays_as_it_is() {
    for filler in [0, 1, 77, 255] {
        let text = canonical(&openssh(filler, "me@home")).unwrap();
        assert_eq!(text, openssh(filler, ""));
        assert_eq!(canonical(&text).unwrap(), text);
        assert_eq!(canonical(&format!("{} \n", text)).unwrap(), text);
    }
}

#[test]
fn unreadable_public_key_is_refused() {
    match canonical("not a key").unwrap_err() {
        Error::Explained(failure, cause) => {
            assert_eq!(failure.message(), "failed to parse SSH public key");
            assert!(!cause.is_empty());
        }
        other => panic!("{:?}", other),
    }
    match without_comment::<String>(Err("why".to_string())).unwrap_err() {
        Error::Explained(failure, cause) => {
            assert_eq!(failure.message(), "failed to parse SSH public key");
            assert_eq!(cause, "why");
        }
        other => panic!("{:?}", other),
    }
    let junk = SshPublicKey { blob: vec![1, 2, 3], comment: "c".to_string() };
    match without_comment::<String>(Ok(junk)).unwrap_err() {
        Error::Explained(failure, _) => {
            assert_eq!(failure.message(), "failed to serialize SSH public key");
        }
        other => panic!("{:?}", other),
    }
}

#[test]
fn fingerprint_is_that_of_the_key() {
    let expected = ssh_agent_lib::ssh_key::PublicKey::from_openssh(TEST_KEY)
        .unwrap()
        .fingerprint(ssh_agent_lib::ssh_key::HashAlg::Sha256)
        .to_string();
    assert_eq!(key_fingerprint(&blob(0)).unwrap(), expected);
    assert!(expected.starts_with("SHA256:"));
    assert_ne!(key_fingerprint(&blob(1)).unwrap(), expected);
    assert!(key_fingerprint(&vec![1, 2, 3]).is_err());
}

#[test]
fn identities_have_no_comment() {
    let identities =
        request_identities(&vec![openssh(3, "me@home"), TEST_KEY.to_string()]).unwrap();
    assert_eq!(identities.len(), 2);
    assert_eq!(identities[0].blob, blob(3));
    assert_eq!(identities[0].comment, "");
    assert_eq!(identities[1].blob, blob(0));
    let key = SshPublicKey { blob: vec![5], comment: "c".to_string() };
    let identity = identity_of(Ok(key)).unwrap();
    assert_eq!(identity.blob, vec![5]);
    assert_eq!(identity.comment, "");
    assert_eq!(identity_of(Err("why".to_string())).unwrap_err(), "why");
}

#[test]
fn first_invalid_key_is_reported() {
    let keys = vec![TEST_KEY.to_string(), "ssh-ed25519 !".to_string(), "x".to_string()];
    let message = request_identities(&keys).unwrap_err();
    assert_eq!(
        message,
        ssh_agent_lib::ssh_key::PublicKey::from_openssh("ssh-ed25519 !").unwrap_err().to_string()
    );
    assert_eq!(find_invalid(&keys), Some(message));
    assert_eq!(find_invalid(&vec![TEST_KEY.to_string()]), None);
}

#[test]
fn sealed_keys_come_in_order() {
    let mut keys = SealedKeys::new(entries());
    let key = keys.next().unwrap();
    assert_eq!(key.public_key, "sealed a");
    assert_eq!(key.private_key.as_deref(), Some("private a"));
    assert_eq!(key.entry_key.as_deref(), Some("key of a"));
    assert_eq!(key.org_id.as_deref(), Some("org of a"));
    let key = keys.next().unwrap();
    assert_eq!(key.public_key, "sealed d");
    assert_eq!(key.private_key, None);
    assert!(keys.next().is_none());
    assert!(keys.next().is_none());
}

type Decryption = DecryptPublicKeys<i32, String>;
type DecryptionEvent = DecryptPublicKeysEvent<i32, String>;

#[test]
fn every_public_key_is_decrypted() {
    let mut state: Decryption = DecryptPublicKeys::start(entries());
    for (sealed, filler) in [("sealed a", 1), ("sealed d", 2)] {
        match &state {
            DecryptPublicKeys::FindKeys { key, .. } => assert_eq!(key.public_key, sealed),
            other => panic!("{:?}", other),
        }
        state = decrypt_ssh_public_keys(state, DecryptionEvent::KeysFound(Some(4)));
        match &state {
            DecryptPublicKeys::Decrypt { keys, key, .. } => {
                assert_eq!(*keys, 4);
                assert_eq!(key.public_key, sealed);
            }
            other => panic!("{:?}", other),
        }
        state = decrypt_ssh_public_keys(
            state,
            DecryptionEvent::Decrypted(Ok(openssh(filler, "comment"))),
        );
    }
    match state {
        DecryptPublicKeys::Done(Ok(keys)) => assert_eq!(keys, vec![openssh(1, ""), openssh(2, "")]),
        other => panic!("{:?}", other),
    }
    let state: Decryption = DecryptPublicKeys::start(vec![]);
    match state {
        DecryptPublicKeys::Done(Ok(keys)) => assert!(keys.is_empty()),
        other => panic!("{:?}", other),
    }
}

#[test]
fn public_keys_fail_as_a_whole() {
    let start = || -> Decryption { DecryptPublicKeys::start(entries()) };
    match decrypt_ssh_public_keys(start(), DecryptionEvent::KeysFound(None)) {
        DecryptPublicKeys::Done(Err(Error::Refused(failure))) => {
            assert_eq!(failure.message(), "failed to find SSH public key decryption keys");
        }
        other => panic!("{:?}", other),
    }
    let state = decrypt_ssh_public_keys(start(), DecryptionEvent::KeysFound(Some(4)));
    match decrypt_ssh_public_keys(state, DecryptionEvent::Decrypted(Ok("junk".to_string()))) {
        DecryptPublicKeys::Done(Err(Error::Explained(failure, _))) => {
            assert_eq!(failure.message(), "failed to parse SSH public key");
        }
        other => panic!("{:?}", other),
    }
}

fn database() -> Db<u8, u16, Vec<i32>> {
    Db {
        access_token: None,
        refresh_token: None,
        kdf: None,
        iterations: None,
        memory: None,
        parallelism: None,
        protected_key: None,
        protected_private_key: None,
        protected_org_keys: 0,
        entries: vec![3],
    }
}

type Refresh = RefreshCache<Vec<i32>, String>;
type RefreshEvent = RefreshCacheEvent<u8, u16, Vec<i32>, String>;

#[test]
fn cache_is_refreshed_from_an_unlocked_vault() {
    let state: Refresh = RefreshCache::LoadDb;
    let state = refresh_ssh_public_key_cache(state, RefreshEvent::DbLoaded(Ok(database())));
    let state =
        refresh_ssh_public_key_cache(state, RefreshEvent::LockChecked { needs_unlock: false });
    match &state {
        RefreshCache::DecryptPublicKeys { entries } => assert_eq!(entries, &vec![3]),
        other => panic!("{:?}", other),
    }
    let state = refresh_ssh_public_key_cache(
        state,
        RefreshEvent::Decrypted(Ok(vec![TEST_KEY.to_string()])),
    );
    assert!(matches!(state, RefreshCache::SaveCache { .. }));
    match refresh_ssh_public_key_cache(state, RefreshEvent::Saved(Ok(()))) {
        RefreshCache::Done(Ok(keys)) => assert_eq!(keys, vec![TEST_KEY.to_string()]),
        other => panic!("{:?}", other),
    }
}

#[test]
fn locked_vault_refreshes_nothing() {
    let state: Refresh = RefreshCache::CheckLocked { entries: vec![] };
    match refresh_ssh_public_key_cache(state, RefreshEvent::LockChecked { needs_unlock: true }) {
        RefreshCache::Done(Err(Error::Refused(failure))) => assert_eq!(
            failure.message(),
            "cannot refresh SSH public key cache while agent is locked"
        ),
        other => panic!("{:?}", other),
    }
}

type Request = GetPublicKeys<String>;
type RequestEvent = GetPublicKeysEvent<String>;

fn loading(pinentry: Option<&str>) -> Request {
    GetPublicKeys::start(pinentry.map(|p| p.to_string()), "work")
}

#[test]
fn cached_public_keys_need_no_dialogue() {
    let state = get_ssh_public_keys(
        loading(None),
        RequestEvent::CacheLoaded(Ok(Some(vec![TEST_KEY.to_string()]))),
    );
    match state {
        GetPublicKeys::Done(Ok(keys)) => assert_eq!(keys, vec![TEST_KEY.to_string()]),
        other => panic!("{:?}", other),
    }
}

#[test]
fn listed_public_keys_are_listed_again_from_the_cache() {
    let keys = vec![openssh(7, ""), openssh(3, "")];
    let refreshed: RefreshCache<u8, String> =
        RefreshCache::SaveCache { public_keys: keys.clone() };
    let saved: RefreshCacheEvent<u8, u8, u8, String> = RefreshCacheEvent::Saved(Ok(()));
    let given = match refresh_ssh_public_key_cache(refreshed, saved) {
        RefreshCache::Done(Ok(given)) => given,
        other => panic!("{:?}", other),
    };
    match get_ssh_public_keys(GetPublicKeys::Refresh, RequestEvent::Refreshed(Ok(given.clone()))) {
        GetPublicKeys::Done(Ok(first)) => assert_eq!(first, keys),
        other => panic!("{:?}", other),
    }

    let file: CacheFile<String> =
        CacheFile::Parsed(Cache { version: CACHE_VERSION, public_keys: given });
    let found = load("/cache/identities.json", file).unwrap();
    let again = get_ssh_public_keys(loading(None), RequestEvent::CacheLoaded(Ok(found)));
    match again {
        GetPublicKeys::Done(Ok(second)) => assert_eq!(second, keys),
        other => panic!("{:?}", other),
    }
}

#[test]
fn missing_cache_is_made_after_unlocking() {
    let state = get_ssh_public_keys(loading(Some("pin")), RequestEvent::CacheLoaded(Ok(None)));
    assert!(matches!(state, GetPublicKeys::SetTimeout { .. }));
    let state = get_ssh_public_keys(state, RequestEvent::TimeoutSet);
    match &state {
        GetPublicKeys::Unlock { unlock } => {
            assert_eq!(unlock.pinentry, "pin");
            assert_eq!(unlock.description, "Unlock the local database for 'work'");
        }
        other => panic!("{:?}", other),
    }
    let state = get_ssh_public_keys(state, RequestEvent::Unlocked(Ok(())));
    assert!(matches!(state, GetPublicKeys::Refresh));
    match get_ssh_public_keys(state, RequestEvent::Refreshed(Ok(vec!["k".to_string()]))) {
        GetPublicKeys::Done(Ok(keys)) => assert_eq!(keys, vec!["k".to_string()]),
        other => panic!("{:?}", other),
    }
}

#[test]
fn unreadable_cache_is_removed_and_made_anew() {
    let trouble = || Err(Error::Forwarded("disk".to_string()));
    let state = get_ssh_public_keys(
        loading(Some("pin")),
        RequestEvent::CacheLoaded(Err(Error::Forwarded("disk".to_string()))),
    );
    match &state {
        GetPublicKeys::Warn { warning, .. } => {
            assert_eq!(warning.text(), "failed to load SSH public key cache, rebuilding");
        }
        other => panic!("{:?}", other),
    }
    let state = get_ssh_public_keys(state, RequestEvent::Warned);
    assert!(matches!(state, GetPublicKeys::RemoveCache { .. }));
    let state = get_ssh_public_keys(state, RequestEvent::CacheRemoved(trouble()));
    match &state {
        GetPublicKeys::Warn { warning, .. } => {
            assert_eq!(*warning, Warning::RemoveInvalidPublicKeyCache);
            assert_eq!(warning.text(), "failed to remove invalid SSH public key cache");
        }
        other => panic!("{:?}", other),
    }
    let state = get_ssh_public_keys(state, RequestEvent::Warned);
    assert!(matches!(state, GetPublicKeys::SetTimeout { .. }));
}

#[test]
fn missing_cache_without_a_pinentry_fails() {
    match get_ssh_public_keys(loading(None), RequestEvent::CacheLoaded(Ok(None))) {
        GetPublicKeys::Done(Err(Error::Refused(failure))) => assert_eq!(
            failure.message(),
            "SSH public-key cache is missing; run `rbw unlock` or configure ssh_agent_pinentry"
        ),
        other => panic!("{:?}", other),
    }
}
