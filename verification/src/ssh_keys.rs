//! SSH public keys: their text form, the keys of the vault and their cache.
use vstd::prelude::*;
use crate::db::{Db, Entry, EntryData};
use crate::error::{Error, Failure, Warning};
use crate::ssh_agent_cache::{all_valid, loaded, written, CacheError, CacheFile};
use crate::vault::{dialogue_for, unlock_dialogue, UnlockDialogue};

verus! {

/// A public key: its binary form and its comment.
#[derive(Debug)]
pub struct SshPublicKey {
    pub blob: Vec<u8>,
    pub comment: String,
}

impl View for SshPublicKey {
    type V = (Seq<u8>, Seq<char>);

    open spec fn view(&self) -> (Seq<u8>, Seq<char>) {
        (self.blob@, self.comment@)
    }
}

/// The key that an OpenSSH text stands for, or the message of the error where
/// it stands for none.
pub uninterp spec fn openssh_key(text: Seq<char>) -> Result<(Seq<u8>, Seq<char>), Seq<char>>;

/// The OpenSSH text of a key, or the message of the error where there is none.
pub uninterp spec fn openssh_text(blob: Seq<u8>, comment: Seq<char>) -> Result<
    Seq<char>,
    Seq<char>,
>;

/// The contents of a parsed key.
pub open spec fn key_view(r: Result<SshPublicKey, String>) -> Result<
    (Seq<u8>, Seq<char>),
    Seq<char>,
> {
    match r {
        Ok(key) => Ok(key@),
        Err(message) => Err(message@),
    }
}

/// The contents of a text or of the message in its place.
pub open spec fn text_view(r: Result<String, String>) -> Result<Seq<char>, Seq<char>> {
    match r {
        Ok(text) => Ok(text@),
        Err(message) => Err(message@),
    }
}

/// Whether the key can be written without a comment, and what is written reads
/// as the same key without a comment.
pub open spec fn rewritable(blob: Seq<u8>) -> bool {
    &&& openssh_text(blob, Seq::empty()) matches Ok(written)
    &&& openssh_key(written) matches Ok(key)
    &&& key == (blob, Seq::<char>::empty())
}

/// `ssh_key::PublicKey::from_openssh` reads a key from its OpenSSH text, and
/// `to_bytes` gives its binary form. Both depend on the text alone. A key that
/// was read can be written without its comment, and what is written reads as
/// the same key without a comment.
#[verifier::external_body]
pub(crate) fn parse_openssh(text: &str) -> (r: Result<SshPublicKey, String>)
    ensures
        key_view(r) == openssh_key(text@),
        r matches Ok(key) ==> rewritable(key.blob@),
{
    ssh_agent_lib::ssh_key::PublicKey::from_openssh(text)
        .and_then(|key| {
            let comment = key.comment().to_string();
            key.to_bytes().map(|blob| SshPublicKey { blob, comment })
        })
        .map_err(|e| e.to_string())
}

/// `ssh_key::PublicKey::from_bytes` reads a key from its binary form, `new` gives
/// it a comment and `to_openssh` writes its OpenSSH text, which depends on the
/// binary form and the comment alone.
#[verifier::external_body]
fn format_openssh(key: &SshPublicKey) -> (r: Result<String, String>)
    ensures
        text_view(r) == openssh_text(key.blob@, key.comment@),
{
    ssh_agent_lib::ssh_key::PublicKey::from_bytes(&key.blob)
        .map(|read| read.key_data().clone())
        .map(|data| ssh_agent_lib::ssh_key::PublicKey::new(data, key.comment.clone()))
        .and_then(|key| key.to_openssh())
        .map_err(|e| e.to_string())
}

/// The fingerprint of a key by SHA-256, or the message of the error where the
/// bytes are no key.
pub uninterp spec fn sha256_fingerprint(blob: Seq<u8>) -> Result<Seq<char>, Seq<char>>;

/// `ssh_key::PublicKey::from_bytes` reads a key from its binary form, and
/// `fingerprint` with `HashAlg::Sha256` gives its fingerprint, which depends on
/// the binary form alone.
#[verifier::external_body]
fn fingerprint_of(blob: &Vec<u8>) -> (r: Result<String, String>)
    ensures
        text_view(r) == sha256_fingerprint(blob@),
{
    ssh_agent_lib::ssh_key::PublicKey::from_bytes(blob)
        .map(|key| key.fingerprint(ssh_agent_lib::ssh_key::HashAlg::Sha256).to_string())
        .map_err(|e| e.to_string())
}

/// The fingerprint by which a dialogue names a key.
pub fn key_fingerprint(blob: &Vec<u8>) -> (r: Result<String, String>)
    ensures
        text_view(r) == sha256_fingerprint(blob@),
{
    fingerprint_of(blob)
}

/// Whether `r` is the canonical text of a key, given what its text was parsed
/// to, or the error in its place.
pub open spec fn is_canonical<E>(
    parsed: Result<(Seq<u8>, Seq<char>), Seq<char>>,
    r: Result<String, Error<E>>,
) -> bool {
    match parsed {
        Ok((blob, _)) => match openssh_text(blob, Seq::empty()) {
            Ok(written) => r matches Ok(text) && text@ == written,
            Err(cause) => {
                &&& r matches Err(Error::Explained(Failure::SerializePublicKey, message))
                &&& message@ == cause
            },
        },
        Err(cause) => {
            &&& r matches Err(Error::Explained(Failure::ParsePublicKey, message))
            &&& message@ == cause
        },
    }
}

/// The canonical text of a key that was parsed: its text without the comment.
pub fn without_comment<E>(parsed: Result<SshPublicKey, String>) -> (r: Result<String, Error<E>>)
    ensures
        is_canonical(key_view(parsed), r),
{
    match parsed {
        Ok(key) => {
            let mut key = key;
            key.comment = String::new();
            match format_openssh(&key) {
                Ok(text) => Ok(text),
                Err(message) => Err(Error::Explained(Failure::SerializePublicKey, message)),
            }
        },
        Err(message) => Err(Error::Explained(Failure::ParsePublicKey, message)),
    }
}

/// The text of a public key without its comment. It reads as the same key, and
/// is its own canonical text.
pub fn canonical_ssh_public_key<E>(plaintext: &str) -> (r: Result<String, Error<E>>)
    ensures
        is_canonical(openssh_key(plaintext@), r),
        r is Ok <==> openssh_key(plaintext@) is Ok,
        r matches Ok(text) ==> {
            &&& openssh_key(text@) matches Ok(key)
            &&& key == (openssh_key(plaintext@)->Ok_0.0, Seq::<char>::empty())
            &&& is_canonical(openssh_key(text@), r)
        },
{
    let parsed = parse_openssh(plaintext);
    without_comment(parsed)
}

/// An identity that the agent offers: a key without a comment.
#[derive(Debug)]
pub struct Identity {
    pub blob: Vec<u8>,
    pub comment: String,
}

/// The identity of a key that was parsed.
pub fn identity_of(parsed: Result<SshPublicKey, String>) -> (r: Result<Identity, String>)
    ensures
        match parsed {
            Ok(key) => r matches Ok(identity) && identity.blob == key.blob
                && identity.comment@.len() == 0,
            Err(message) => r == Err::<Identity, String>(message),
        },
{
    match parsed {
        Ok(key) => Ok(Identity { blob: key.blob, comment: String::new() }),
        Err(message) => Err(message),
    }
}

/// Whether the text at the index is the first that stands for no key.
pub open spec fn first_invalid(public_keys: Seq<String>, i: int) -> bool {
    &&& 0 <= i < public_keys.len()
    &&& openssh_key(public_keys[i]@) is Err
    &&& forall|k: int| 0 <= k < i ==> openssh_key(#[trigger] public_keys[k]@) is Ok
}

/// The identities for the texts of some public keys. The first text that stands
/// for no key fails with its message.
pub fn request_identities(public_keys: &Vec<String>) -> (r: Result<Vec<Identity>, String>)
    ensures
        match r {
            Ok(identities) => {
                &&& identities@.len() == public_keys@.len()
                &&& forall|i: int|
                    0 <= i < public_keys@.len() ==> {
                        &&& openssh_key(public_keys@[i]@) matches Ok(key)
                        &&& (#[trigger] identities@[i]).blob@ == key.0
                        &&& identities@[i].comment@.len() == 0
                    }
            },
            Err(message) => exists|i: int| #[trigger]
                first_invalid(public_keys@, i) && openssh_key(public_keys@[i]@) == Err::<
                    (Seq<u8>, Seq<char>),
                    Seq<char>,
                >(message@),
        },
{
    let mut identities: Vec<Identity> = Vec::new();
    let mut i: usize = 0;
    while i < public_keys.len()
        invariant
            i <= public_keys@.len(),
            identities@.len() == i,
            forall|k: int| 0 <= k < i ==> openssh_key(#[trigger] public_keys@[k]@) is Ok,
            forall|k: int|
                0 <= k < i ==> {
                    &&& openssh_key(public_keys@[k]@) matches Ok(key)
                    &&& (#[trigger] identities@[k]).blob@ == key.0
                    &&& identities@[k].comment@.len() == 0
                },
        decreases public_keys@.len() - i,
    {
        let parsed = parse_openssh(public_keys[i].as_str());
        match identity_of(parsed) {
            Ok(identity) => {
                identities.push(identity);
            },
            Err(message) => {
                assert(first_invalid(public_keys@, i as int));
                return Err(message);
            },
        }
        i = i + 1;
    }
    Ok(identities)
}

/// The first text that stands for no key, with the message of its error; `None`
/// where all stand for keys.
pub fn find_invalid(public_keys: &Vec<String>) -> (r: Option<String>)
    ensures
        match r {
            Some(message) => exists|i: int| #[trigger]
                first_invalid(public_keys@, i) && openssh_key(public_keys@[i]@) == Err::<
                    (Seq<u8>, Seq<char>),
                    Seq<char>,
                >(message@),
            None => forall|i: int|
                0 <= i < public_keys@.len() ==> openssh_key(#[trigger] public_keys@[i]@) is Ok,
        },
{
    let mut i: usize = 0;
    while i < public_keys.len()
        invariant
            i <= public_keys@.len(),
            forall|k: int| 0 <= k < i ==> openssh_key(#[trigger] public_keys@[k]@) is Ok,
        decreases public_keys@.len() - i,
    {
        if let Err(message) = parse_openssh(public_keys[i].as_str()) {
            assert(first_invalid(public_keys@, i as int));
            return Some(message);
        }
        i = i + 1;
    }
    None
}

/// The encrypted texts of an SSH key, with what is needed to decrypt them.
#[derive(Debug)]
pub struct SealedKey {
    pub public_key: String,
    pub private_key: Option<String>,
    pub entry_key: Option<String>,
    pub org_id: Option<String>,
}

/// The SSH key of an entry, where it has one with a public key.
pub open spec fn sealed_key(entry: Entry) -> Option<SealedKey> {
    match entry.data {
        EntryData::SshKey { private_key, public_key: Some(public_key) } => Some(
            SealedKey { public_key, private_key, entry_key: entry.key, org_id: entry.org_id },
        ),
        _ => None,
    }
}

/// The SSH keys of some entries, in order.
pub open spec fn sealed_keys(entries: Seq<Entry>) -> Seq<SealedKey>
    decreases entries.len(),
{
    if entries.len() == 0 {
        Seq::empty()
    } else {
        match sealed_key(entries[0]) {
            Some(key) => seq![key] + sealed_keys(entries.skip(1)),
            None => sealed_keys(entries.skip(1)),
        }
    }
}

/// The SSH keys of some entries that are still to be looked at.
#[derive(Debug)]
pub struct SealedKeys {
    reversed: Vec<SealedKey>,
}

impl View for SealedKeys {
    type V = Seq<SealedKey>;

    closed spec fn view(&self) -> Seq<SealedKey> {
        self.reversed@.reverse()
    }
}

fn take_key(entry: Entry) -> (r: Option<SealedKey>)
    ensures
        r == sealed_key(entry),
{
    match entry.data {
        EntryData::SshKey { private_key, public_key: Some(public_key) } => Some(
            SealedKey { public_key, private_key, entry_key: entry.key, org_id: entry.org_id },
        ),
        _ => None,
    }
}

impl SealedKeys {
    /// Collects the SSH keys of some entries.
    pub fn new(entries: Vec<Entry>) -> (r: Self)
        ensures
            r@ == sealed_keys(entries@),
    {
        let ghost all = entries@;
        let mut entries = entries;
        let mut reversed: Vec<SealedKey> = Vec::new();
        assert(all.skip(all.len() as int) =~= Seq::empty());
        assert(reversed@.reverse() =~= Seq::empty());
        assert(all.take(all.len() as int) =~= all);
        while entries.len() > 0
            invariant
                entries@.len() <= all.len(),
                entries@ == all.take(entries@.len() as int),
                reversed@.reverse() == sealed_keys(all.skip(entries@.len() as int)),
            decreases entries@.len(),
        {
            let ghost at = entries@.len() - 1;
            let ghost before = reversed@;
            assert(entries@.drop_last() =~= all.take(at));
            assert(all.skip(at).skip(1) =~= all.skip(at + 1));
            if let Some(entry) = entries.pop() {
                assert(entry == all.skip(at)[0]);
                if let Some(key) = take_key(entry) {
                    reversed.push(key);
                    assert(reversed@.reverse() =~= seq![key] + before.reverse());
                }
            }
        }
        assert(all.skip(0) =~= all);
        SealedKeys { reversed }
    }

    /// Takes the next key out.
    pub fn next(&mut self) -> (r: Option<SealedKey>)
        ensures
            match r {
                Some(key) => old(self)@.len() > 0 && key == old(self)@[0] && final(self)@
                    == old(self)@.skip(1),
                None => old(self)@.len() == 0 && final(self)@ == old(self)@,
            },
    {
        let ghost before = self.reversed@;
        let r = self.reversed.pop();
        if r.is_some() {
            assert(self.reversed@.reverse() =~= before.reverse().skip(1));
        }
        r
    }
}

/// The decryption of the public keys of the vault.
#[derive(Debug)]
pub enum DecryptPublicKeys<K, E> {
    FindKeys { key: SealedKey, rest: SealedKeys, public_keys: Vec<String> },
    Decrypt { keys: K, key: SealedKey, rest: SealedKeys, public_keys: Vec<String> },
    Done(Result<Vec<String>, Error<E>>),
}

#[derive(Debug)]
pub enum DecryptPublicKeysEvent<K, E> {
    /// The keys that the agent holds for the organisation or the owner.
    KeysFound(Option<K>),
    Decrypted(Result<String, Error<E>>),
}

impl<K, E> DecryptPublicKeys<K, E> {
    /// Whether the next of the remaining keys is taken up, or all are done.
    pub open spec fn goes_on(self, remaining: Seq<SealedKey>, done: Seq<Seq<char>>) -> bool {
        if remaining.len() > 0 {
            &&& self matches DecryptPublicKeys::FindKeys { key, rest, public_keys }
            &&& key == remaining[0]
            &&& rest@ == remaining.skip(1)
            &&& public_keys.deep_view() == done
        } else {
            &&& self matches DecryptPublicKeys::Done(Ok(public_keys))
            &&& public_keys.deep_view() == done
        }
    }

    /// Where an event leads. One that the state does not wait for changes
    /// nothing.
    pub open spec fn steps_to(self, event: DecryptPublicKeysEvent<K, E>, after: Self) -> bool {
        match (self, event) {
            (
                DecryptPublicKeys::FindKeys { key, rest, public_keys },
                DecryptPublicKeysEvent::KeysFound(found),
            ) => after == match found {
                Some(keys) => Self::Decrypt { keys, key, rest, public_keys },
                None => Self::Done(Err(Error::Refused(Failure::MissingPublicKeyDecryptionKeys))),
            },
            (
                DecryptPublicKeys::Decrypt { rest, public_keys, .. },
                DecryptPublicKeysEvent::Decrypted(result),
            ) => match result {
                Ok(plaintext) => match openssh_key(plaintext@) {
                    Ok((blob, _)) => {
                        &&& rewritable(blob)
                        &&& openssh_text(blob, Seq::empty()) matches Ok(text)
                        &&& after.goes_on(rest@, public_keys.deep_view().push(text))
                    },
                    Err(cause) => {
                        &&& after matches DecryptPublicKeys::Done(
                            Err(Error::Explained(Failure::ParsePublicKey, message)),
                        )
                        &&& message@ == cause
                    },
                },
                Err(error) => after == Self::Done(Err(error)),
            },
            _ => after == self,
        }
    }

    /// The first state for the entries of the vault.
    pub fn start(entries: Vec<Entry>) -> (r: Self)
        ensures
            r.goes_on(sealed_keys(entries@), Seq::empty()),
    {
        let public_keys: Vec<String> = Vec::new();
        assert(public_keys.deep_view() =~= Seq::empty());
        go_on(SealedKeys::new(entries), public_keys)
    }
}

fn go_on<K, E>(remaining: SealedKeys, public_keys: Vec<String>) -> (r: DecryptPublicKeys<K, E>)
    ensures
        r.goes_on(remaining@, public_keys.deep_view()),
{
    let mut remaining = remaining;
    match remaining.next() {
        Some(key) => DecryptPublicKeys::FindKeys { key, rest: remaining, public_keys },
        None => DecryptPublicKeys::Done(Ok(public_keys)),
    }
}

/// Moves the decryption of the public keys on.
pub fn decrypt_ssh_public_keys<K, E>(
    state: DecryptPublicKeys<K, E>,
    event: DecryptPublicKeysEvent<K, E>,
) -> (after: DecryptPublicKeys<K, E>)
    ensures
        state.steps_to(event, after),
{
    match (state, event) {
        (
            DecryptPublicKeys::FindKeys { key, rest, public_keys },
            DecryptPublicKeysEvent::KeysFound(found),
        ) => match found {
            Some(keys) => DecryptPublicKeys::Decrypt { keys, key, rest, public_keys },
            None => DecryptPublicKeys::Done(
                Err(Error::Refused(Failure::MissingPublicKeyDecryptionKeys)),
            ),
        },
        (
            DecryptPublicKeys::Decrypt { rest, public_keys, .. },
            DecryptPublicKeysEvent::Decrypted(result),
        ) => match result {
            Ok(plaintext) => match canonical_ssh_public_key(plaintext.as_str()) {
                Ok(text) => {
                    let ghost done = public_keys.deep_view();
                    let mut public_keys = public_keys;
                    public_keys.push(text);
                    assert(public_keys.deep_view() =~= done.push(text@));
                    go_on(rest, public_keys)
                },
                Err(error) => DecryptPublicKeys::Done(Err(error)),
            },
            Err(error) => DecryptPublicKeys::Done(Err(error)),
        },
        (state, _) => state,
    }
}

/// Whether `events` lead through `states` one after the other.
pub open spec fn public_keys_run<K, E>(
    states: Seq<DecryptPublicKeys<K, E>>,
    events: Seq<DecryptPublicKeysEvent<K, E>>,
) -> bool {
    &&& states.len() == events.len() + 1
    &&& forall|i: int|
        0 <= i < events.len() ==> states[i].steps_to(#[trigger] events[i], states[i + 1])
}

/// Whether the text stands for a key without a comment.
pub open spec fn bare_key(text: Seq<char>) -> bool {
    openssh_key(text) matches Ok(key) && key.1.len() == 0
}

/// What is left of the keys in a state, the one at hand included, and what was
/// made of those before.
pub open spec fn progress<K, E>(state: DecryptPublicKeys<K, E>) -> Option<
    (Seq<SealedKey>, Seq<Seq<char>>),
> {
    match state {
        DecryptPublicKeys::FindKeys { key, rest, public_keys } => Some(
            (seq![key] + rest@, public_keys.deep_view()),
        ),
        DecryptPublicKeys::Decrypt { key, rest, public_keys, .. } => Some(
            (seq![key] + rest@, public_keys.deep_view()),
        ),
        DecryptPublicKeys::Done(Ok(public_keys)) => Some((Seq::empty(), public_keys.deep_view())),
        DecryptPublicKeys::Done(Err(_)) => None,
    }
}

/// The decryption of the public keys takes the SSH keys of the vault one after
/// the other and leaves none out: when it succeeds, there is one text for each
/// of them, and each stands for a key without a comment.
pub proof fn law_every_public_key_is_listed<K, E>(
    states: Seq<DecryptPublicKeys<K, E>>,
    events: Seq<DecryptPublicKeysEvent<K, E>>,
    entries: Seq<Entry>,
    n: int,
)
    requires
        public_keys_run(states, events),
        states[0].goes_on(sealed_keys(entries), Seq::empty()),
        0 <= n <= events.len(),
    ensures
        progress(states[n]) matches Some((left, done)) ==> {
            &&& done.len() + left.len() == sealed_keys(entries).len()
            &&& left == sealed_keys(entries).skip(done.len() as int)
            &&& forall|i: int| 0 <= i < done.len() ==> bare_key(#[trigger] done[i])
        },
    decreases n,
{
    let all = sealed_keys(entries);
    if n == 0 {
        if all.len() > 0 {
            assert(seq![all[0]] + all.skip(1) =~= all.skip(0));
        } else {
            assert(all.skip(0) =~= Seq::empty());
        }
    } else {
        law_every_public_key_is_listed(states, events, entries, n - 1);
        assert(states[n - 1].steps_to(events[n - 1], states[n]));
        if let Some((left, done)) = progress(states[n - 1]) {
            if states[n - 1] is Decrypt && events[n - 1] is Decrypted {
                let rest = states[n - 1]->Decrypt_rest@;
                assert(left.skip(1) =~= rest);
                assert(left.skip(1) =~= all.skip((done.len() + 1) as int));
                if rest.len() > 0 {
                    assert(seq![rest[0]] + rest.skip(1) =~= rest);
                } else {
                    assert(rest =~= Seq::empty());
                }
            }
        }
    }
}

/// A refresh of the cache of public keys.
#[derive(Debug)]
pub enum RefreshCache<N, E> {
    LoadDb,
    CheckLocked { entries: N },
    DecryptPublicKeys { entries: N },
    SaveCache { public_keys: Vec<String> },
    Done(Result<Vec<String>, Error<E>>),
}

#[derive(Debug)]
pub enum RefreshCacheEvent<T, O, N, E> {
    DbLoaded(Result<Db<T, O, N>, Error<E>>),
    LockChecked { needs_unlock: bool },
    Decrypted(Result<Vec<String>, Error<E>>),
    Saved(Result<(), Error<E>>),
}

impl<N, E> RefreshCache<N, E> {
    /// Where an event leads. One that the state does not wait for changes
    /// nothing.
    pub open spec fn steps_to<T, O>(
        self,
        event: RefreshCacheEvent<T, O, N, E>,
        after: Self,
    ) -> bool {
        match (self, event) {
            (RefreshCache::LoadDb, RefreshCacheEvent::DbLoaded(result)) => after == match result {
                Ok(db) => Self::CheckLocked { entries: db.entries },
                Err(error) => Self::Done(Err(error)),
            },
            (
                RefreshCache::CheckLocked { entries },
                RefreshCacheEvent::LockChecked { needs_unlock },
            ) => after == if needs_unlock {
                Self::Done(Err(Error::Refused(Failure::RefreshWhileLocked)))
            } else {
                Self::DecryptPublicKeys { entries }
            },
            (RefreshCache::DecryptPublicKeys { .. }, RefreshCacheEvent::Decrypted(result)) => {
                after == match result {
                    Ok(public_keys) => Self::SaveCache { public_keys },
                    Err(error) => Self::Done(Err(error)),
                }
            },
            (RefreshCache::SaveCache { public_keys }, RefreshCacheEvent::Saved(result)) => {
                after == Self::Done(
                    match result {
                        Ok(_) => Ok(public_keys),
                        Err(error) => Err(error),
                    },
                )
            },
            _ => after == self,
        }
    }
}

/// Moves a refresh of the cache on. One for a database at hand starts with
/// [`RefreshCache::CheckLocked`].
pub fn refresh_ssh_public_key_cache<T, O, N, E>(
    state: RefreshCache<N, E>,
    event: RefreshCacheEvent<T, O, N, E>,
) -> (after: RefreshCache<N, E>)
    ensures
        state.steps_to(event, after),
{
    match (state, event) {
        (RefreshCache::LoadDb, RefreshCacheEvent::DbLoaded(result)) => match result {
            Ok(db) => RefreshCache::CheckLocked { entries: db.entries },
            Err(error) => RefreshCache::Done(Err(error)),
        },
        (RefreshCache::CheckLocked { entries }, RefreshCacheEvent::LockChecked { needs_unlock }) => {
            if needs_unlock {
                RefreshCache::Done(Err(Error::Refused(Failure::RefreshWhileLocked)))
            } else {
                RefreshCache::DecryptPublicKeys { entries }
            }
        },
        (RefreshCache::DecryptPublicKeys { .. }, RefreshCacheEvent::Decrypted(result)) => {
            match result {
                Ok(public_keys) => RefreshCache::SaveCache { public_keys },
                Err(error) => RefreshCache::Done(Err(error)),
            }
        },
        (RefreshCache::SaveCache { public_keys }, RefreshCacheEvent::Saved(result)) => {
            match result {
                Ok(_) => RefreshCache::Done(Ok(public_keys)),
                Err(error) => RefreshCache::Done(Err(error)),
            }
        },
        (state, _) => state,
    }
}

/// The request for the public keys of the vault.
#[derive(Debug)]
pub enum GetPublicKeys<E> {
    LoadCache { dialogue: Option<UnlockDialogue> },
    RemoveCache { dialogue: Option<UnlockDialogue> },
    Warn { dialogue: Option<UnlockDialogue>, warning: Warning, error: Error<E> },
    /// Puts off the automatic lock.
    SetTimeout { unlock: UnlockDialogue },
    Unlock { unlock: UnlockDialogue },
    Refresh,
    Done(Result<Vec<String>, Error<E>>),
}

#[derive(Debug)]
pub enum GetPublicKeysEvent<E> {
    CacheLoaded(Result<Option<Vec<String>>, Error<E>>),
    CacheRemoved(Result<(), Error<E>>),
    Warned,
    TimeoutSet,
    Unlocked(Result<(), Error<E>>),
    Refreshed(Result<Vec<String>, Error<E>>),
}

impl<E> GetPublicKeys<E> {
    /// The first state, with the program that shows a dialogue where one is
    /// known.
    pub fn start(pinentry: Option<String>, profile: &str) -> (r: Self)
        ensures
            r matches GetPublicKeys::LoadCache { dialogue } && dialogue_for(
                pinentry,
                profile@,
                dialogue,
            ),
    {
        GetPublicKeys::LoadCache { dialogue: unlock_dialogue(pinentry, profile) }
    }

    /// The state once it is clear that there is no usable cache.
    pub open spec fn without_cache(dialogue: Option<UnlockDialogue>) -> Self {
        match dialogue {
            Some(unlock) => GetPublicKeys::SetTimeout { unlock },
            None => GetPublicKeys::Done(Err(Error::Refused(Failure::MissingPublicKeyCache))),
        }
    }

    /// Where an event leads. One that the state does not wait for changes
    /// nothing.
    pub open spec fn steps_to(self, event: GetPublicKeysEvent<E>, after: Self) -> bool {
        match (self, event) {
            (
                GetPublicKeys::LoadCache { dialogue },
                GetPublicKeysEvent::CacheLoaded(result),
            ) => after == match result {
                Ok(Some(public_keys)) => Self::Done(Ok(public_keys)),
                Ok(None) => Self::without_cache(dialogue),
                Err(error) => Self::Warn { dialogue, warning: Warning::LoadPublicKeyCache, error },
            },
            (
                GetPublicKeys::RemoveCache { dialogue },
                GetPublicKeysEvent::CacheRemoved(result),
            ) => after == match result {
                Ok(_) => Self::without_cache(dialogue),
                Err(error) => Self::Warn {
                    dialogue,
                    warning: Warning::RemoveInvalidPublicKeyCache,
                    error,
                },
            },
            (GetPublicKeys::Warn { dialogue, warning, .. }, GetPublicKeysEvent::Warned) => {
                after == match warning {
                    Warning::LoadPublicKeyCache => Self::RemoveCache { dialogue },
                    _ => Self::without_cache(dialogue),
                }
            },
            (GetPublicKeys::SetTimeout { unlock }, GetPublicKeysEvent::TimeoutSet) => {
                after == (Self::Unlock { unlock })
            },
            (GetPublicKeys::Unlock { .. }, GetPublicKeysEvent::Unlocked(result)) => {
                after == match result {
                    Ok(_) => Self::Refresh,
                    Err(error) => Self::Done(Err(error)),
                }
            },
            (GetPublicKeys::Refresh, GetPublicKeysEvent::Refreshed(result)) => {
                after == Self::Done(result)
            },
            _ => after == self,
        }
    }
}

fn without_cache<E>(dialogue: Option<UnlockDialogue>) -> (r: GetPublicKeys<E>)
    ensures
        r == GetPublicKeys::<E>::without_cache(dialogue),
{
    match dialogue {
        Some(unlock) => GetPublicKeys::SetTimeout { unlock },
        None => GetPublicKeys::Done(Err(Error::Refused(Failure::MissingPublicKeyCache))),
    }
}

/// Moves a request for the public keys on. A cache that cannot be read is
/// removed and made anew.
pub fn get_ssh_public_keys<E>(state: GetPublicKeys<E>, event: GetPublicKeysEvent<E>) -> (after:
    GetPublicKeys<E>)
    ensures
        state.steps_to(event, after),
{
    match (state, event) {
        (GetPublicKeys::LoadCache { dialogue }, GetPublicKeysEvent::CacheLoaded(result)) => {
            match result {
                Ok(Some(public_keys)) => GetPublicKeys::Done(Ok(public_keys)),
                Ok(None) => without_cache(dialogue),
                Err(error) => GetPublicKeys::Warn {
                    dialogue,
                    warning: Warning::LoadPublicKeyCache,
                    error,
                },
            }
        },
        (GetPublicKeys::RemoveCache { dialogue }, GetPublicKeysEvent::CacheRemoved(result)) => {
            match result {
                Ok(_) => without_cache(dialogue),
                Err(error) => GetPublicKeys::Warn {
                    dialogue,
                    warning: Warning::RemoveInvalidPublicKeyCache,
                    error,
                },
            }
        },
        (GetPublicKeys::Warn { dialogue, warning, .. }, GetPublicKeysEvent::Warned) => {
            match warning {
                Warning::LoadPublicKeyCache => GetPublicKeys::RemoveCache { dialogue },
                _ => without_cache(dialogue),
            }
        },
        (GetPublicKeys::SetTimeout { unlock }, GetPublicKeysEvent::TimeoutSet) => {
            GetPublicKeys::Unlock { unlock }
        },
        (GetPublicKeys::Unlock { .. }, GetPublicKeysEvent::Unlocked(result)) => match result {
            Ok(_) => GetPublicKeys::Refresh,
            Err(error) => GetPublicKeys::Done(Err(error)),
        },
        (GetPublicKeys::Refresh, GetPublicKeysEvent::Refreshed(result)) => {
            GetPublicKeys::Done(result)
        },
        (state, _) => state,
    }
}

/// Whether `events` lead through `states` one after the other.
pub open spec fn get_public_keys_run<E>(
    states: Seq<GetPublicKeys<E>>,
    events: Seq<GetPublicKeysEvent<E>>,
) -> bool {
    &&& states.len() == events.len() + 1
    &&& forall|i: int|
        0 <= i < events.len() ==> states[i].steps_to(#[trigger] events[i], states[i + 1])
}

/// Whether the event yields the keys.
pub open spec fn yields<E>(
    state: GetPublicKeys<E>,
    event: GetPublicKeysEvent<E>,
    public_keys: Vec<String>,
) -> bool {
    ||| state is LoadCache && event == GetPublicKeysEvent::<E>::CacheLoaded(Ok(Some(public_keys)))
    ||| state is Refresh && event == GetPublicKeysEvent::<E>::Refreshed(Ok(public_keys))
}

/// The public keys that a request yields come from the cache, before anything
/// else was done, or from a refresh after the vault was unlocked.
pub proof fn law_public_keys_are_cached_or_refreshed<E>(
    states: Seq<GetPublicKeys<E>>,
    events: Seq<GetPublicKeysEvent<E>>,
    public_keys: Vec<String>,
    n: int,
)
    requires
        get_public_keys_run(states, events),
        states[0] is LoadCache,
        0 <= n <= events.len(),
        states[n] == GetPublicKeys::<E>::Done(Ok(public_keys)),
    ensures
        exists|i: int|
            {
                &&& 0 <= i < n
                &&& yields(states[i], #[trigger] events[i], public_keys)
                &&& states[i] is LoadCache ==> forall|k: int|
                    0 <= k < i ==> (#[trigger] states[k]) is LoadCache
                &&& states[i] is Refresh ==> exists|j: int|
                    0 <= j < i && unlocks(states[j], #[trigger] events[j])
            },
    decreases n,
{
    assert(states[n - 1].steps_to(events[n - 1], states[n]));
    if states[n - 1] is Done {
        law_public_keys_are_cached_or_refreshed(states, events, public_keys, n - 1);
    } else {
        let i = n - 1;
        assert(yields(states[i], events[i], public_keys));
        if states[i] is LoadCache {
            lemma_cache_is_loaded_first(states, events, i);
        } else {
            let j = lemma_refresh_was_unlocked(states, events, i);
            assert(unlocks(states[j], events[j]));
        }
    }
}

/// Whether the event unlocks the vault.
pub open spec fn unlocks<E>(state: GetPublicKeys<E>, event: GetPublicKeysEvent<E>) -> bool {
    state is Unlock && event matches GetPublicKeysEvent::Unlocked(Ok(_))
}

proof fn lemma_cache_is_loaded_first<E>(
    states: Seq<GetPublicKeys<E>>,
    events: Seq<GetPublicKeysEvent<E>>,
    n: int,
)
    requires
        get_public_keys_run(states, events),
        states[0] is LoadCache,
        0 <= n <= events.len(),
        states[n] is LoadCache,
    ensures
        forall|k: int| 0 <= k < n ==> (#[trigger] states[k]) is LoadCache,
    decreases n,
{
    if n > 0 {
        assert(states[n - 1].steps_to(events[n - 1], states[n]));
        lemma_cache_is_loaded_first(states, events, n - 1);
    }
}

proof fn lemma_refresh_was_unlocked<E>(
    states: Seq<GetPublicKeys<E>>,
    events: Seq<GetPublicKeysEvent<E>>,
    n: int,
) -> (j: int)
    requires
        get_public_keys_run(states, events),
        states[0] is LoadCache,
        0 <= n <= events.len(),
        states[n] is Refresh,
    ensures
        0 <= j < n,
        unlocks(states[j], events[j]),
    decreases n,
{
    assert(states[n - 1].steps_to(events[n - 1], states[n]));
    if states[n - 1] is Unlock {
        n - 1
    } else {
        lemma_refresh_was_unlocked(states, events, n - 1)
    }
}

/// Whether the event is what loading the cache file yields.
pub open spec fn reads_cache<E, X>(
    event: GetPublicKeysEvent<E>,
    path: Seq<char>,
    file: CacheFile<X>,
) -> bool {
    &&& event matches GetPublicKeysEvent::CacheLoaded(result)
    &&& exists|yielded: Result<Option<Vec<String>>, CacheError<X>>| #[trigger]
        loaded(path, file, yielded) && match yielded {
            Ok(found) => result == Ok::<Option<Vec<String>>, Error<E>>(found),
            Err(_) => result is Err,
        }
}

/// Whether `events` lead through `states` one after the other.
pub open spec fn refresh_run<T, O, N, E>(
    states: Seq<RefreshCache<N, E>>,
    events: Seq<RefreshCacheEvent<T, O, N, E>>,
) -> bool {
    &&& states.len() == events.len() + 1
    &&& forall|i: int|
        0 <= i < events.len() ==> states[i].steps_to(#[trigger] events[i], states[i + 1])
}

/// Whether the event tells that the keys were saved.
pub open spec fn saves<T, O, N, E>(
    state: RefreshCache<N, E>,
    event: RefreshCacheEvent<T, O, N, E>,
    public_keys: Vec<String>,
) -> bool {
    &&& state == (RefreshCache::<N, E>::SaveCache { public_keys })
    &&& event matches RefreshCacheEvent::Saved(Ok(_))
}

/// The keys that a refresh of the cache yields were saved to it before.
pub proof fn law_refreshed_keys_were_saved<T, O, N, E>(
    states: Seq<RefreshCache<N, E>>,
    events: Seq<RefreshCacheEvent<T, O, N, E>>,
    public_keys: Vec<String>,
    n: int,
)
    requires
        refresh_run(states, events),
        !(states[0] is Done),
        0 <= n <= events.len(),
        states[n] == RefreshCache::<N, E>::Done(Ok(public_keys)),
    ensures
        exists|i: int| 0 <= i < n && saves(states[i], #[trigger] events[i], public_keys),
    decreases n,
{
    assert(states[n - 1].steps_to(events[n - 1], states[n]));
    if states[n - 1] is Done {
        law_refreshed_keys_were_saved(states, events, public_keys, n - 1);
    } else {
        let i = n - 1;
        assert(saves(states[i], events[i], public_keys));
    }
}

/// Public keys that a request yielded are yielded again by a later one, in the
/// same order, while the cache file is as the first request read or left it. The
/// later request ends as soon as it has read the file: it shows no dialogue, and
/// it does not matter whether the vault is locked.
pub proof fn law_listed_keys_are_listed_again<T, O, N, E, X>(
    first: Seq<GetPublicKeys<E>>,
    first_events: Seq<GetPublicKeysEvent<E>>,
    refresh: Seq<RefreshCache<N, E>>,
    refresh_events: Seq<RefreshCacheEvent<T, O, N, E>>,
    second: Seq<GetPublicKeys<E>>,
    second_events: Seq<GetPublicKeysEvent<E>>,
    path: Seq<char>,
    file: CacheFile<X>,
    public_keys: Vec<String>,
    n: int,
)
    requires
        get_public_keys_run(first, first_events),
        first[0] is LoadCache,
        first.last() == GetPublicKeys::<E>::Done(Ok(public_keys)),
        forall|i: int|
            0 <= i < first_events.len() ==> match #[trigger] first_events[i] {
                GetPublicKeysEvent::CacheLoaded(Ok(Some(_))) => reads_cache(
                    first_events[i],
                    path,
                    file,
                ),
                GetPublicKeysEvent::Refreshed(Ok(keys)) => refresh.last() == RefreshCache::<
                    N,
                    E,
                >::Done(Ok(keys)),
                _ => true,
            },
        refresh_run(refresh, refresh_events),
        !(refresh[0] is Done),
        forall|i: int, keys: Vec<String>|
            0 <= i < refresh_events.len() && #[trigger] saves(refresh[i], refresh_events[i], keys)
                ==> written(keys, file),
        get_public_keys_run(second, second_events),
        second[0] is LoadCache,
        second_events.len() > 0,
        reads_cache(second_events[0], path, file),
        1 <= n <= second_events.len(),
    ensures
        second[n] matches GetPublicKeys::Done(Ok(again)) && again.deep_view()
            == public_keys.deep_view(),
    decreases n,
{
    assert(second[n - 1].steps_to(second_events[n - 1], second[n]));
    if n > 1 {
        law_listed_keys_are_listed_again(
            first,
            first_events,
            refresh,
            refresh_events,
            second,
            second_events,
            path,
            file,
            public_keys,
            n - 1,
        );
    } else {
        let last = first_events.len() as int;
        law_public_keys_are_cached_or_refreshed(first, first_events, public_keys, last);
        let i = choose|i: int|
            0 <= i < last && yields(first[i], #[trigger] first_events[i], public_keys);
        assert(yields(first[i], first_events[i], public_keys));
        if first[i] is Refresh {
            let end = refresh_events.len() as int;
            law_refreshed_keys_were_saved(refresh, refresh_events, public_keys, end);
            let j = choose|j: int|
                0 <= j < end && saves(refresh[j], #[trigger] refresh_events[j], public_keys);
            assert(saves(refresh[j], refresh_events[j], public_keys));
        } else {
            assert(reads_cache(first_events[i], path, file));
        }
        assert(file is Parsed);
        let kept = file->Parsed_0.public_keys;
        assert(kept.deep_view() == public_keys.deep_view());
        assert(kept.deep_view().len() == kept@.len());
        assert(public_keys.deep_view().len() == public_keys@.len());
        assert forall|k: int| 0 <= k < kept@.len() implies openssh_key(
            #[trigger] kept@[k]@,
        ) is Ok by {
            assert(kept.deep_view()[k] == kept@[k]@);
            assert(public_keys.deep_view()[k] == public_keys@[k]@);
        }
    }
}

/// Without a program for the dialogue, a request for the public keys never asks
/// to unlock the vault.
pub proof fn law_no_dialogue_without_pinentry<E>(
    states: Seq<GetPublicKeys<E>>,
    events: Seq<GetPublicKeysEvent<E>>,
    n: int,
)
    requires
        get_public_keys_run(states, events),
        states[0] == (GetPublicKeys::<E>::LoadCache { dialogue: None }),
        0 <= n <= events.len(),
    ensures
        match states[n] {
            GetPublicKeys::LoadCache { dialogue } => dialogue is None,
            GetPublicKeys::RemoveCache { dialogue } => dialogue is None,
            GetPublicKeys::Warn { dialogue, .. } => dialogue is None,
            GetPublicKeys::Done(_) => true,
            _ => false,
        },
    decreases n,
{
    if n > 0 {
        law_no_dialogue_without_pinentry(states, events, n - 1);
        assert(states[n - 1].steps_to(events[n - 1], states[n]));
    }
}

} // verus!
