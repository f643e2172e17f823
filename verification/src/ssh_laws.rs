//! Which keys the SSH agent lists, finds and signs with, and for whom.
use vstd::prelude::*;
use crate::authorization::{
    authorization_run, Authorize, AuthorizeEvent, SignatureWish, SshAuthorization,
};
use crate::cipher::{opens_ssh_text, SshDecryption};
use crate::config::{Config, SshAgentConfirmation};
use crate::db::{Db, Entry, EntryData, OrgKeys};
use crate::error::{Error, Failure, Warning};
use crate::ssh_keys::{
    openssh_key, progress, public_keys_run, sealed_keys, sha256_fingerprint, DecryptPublicKeys,
    DecryptPublicKeysEvent, GetPublicKeys, GetPublicKeysEvent, RefreshCache, RefreshCacheEvent,
};
use crate::ssh_sign::{
    comes_of_signing, ed25519_signature, is_zero, modulus_fits, number, openssh_private_key,
    rsa_refusal, search_run, sha256_prefix, sha512, sha512_prefix, signs_encoded, starts_with_wish, FindPrivateKey, FindPrivateKeyEvent,
    Sign, SignEvent, SignRequest, SshPrivateKey, SshSignature,
};
use crate::vault::UnlockDialogue;

verus! {

/// Every entry with the public part of an SSH key is taken up, whether or not it
/// has a key of its own, belongs to an organisation or has the private part; each
/// with its own texts, key and organisation; nothing else is taken up; and the
/// order is that of the entries.
pub proof fn law_every_ssh_key_is_taken_up(entries: Seq<Entry>) -> (at: Seq<int>)
    ensures
        at.len() == sealed_keys(entries).len(),
        forall|j: int|
            0 <= j < at.len() ==> {
                let i = #[trigger] at[j];
                let key = sealed_keys(entries)[j];
                &&& 0 <= i < entries.len()
                &&& entries[i].data == (EntryData::SshKey {
                    private_key: key.private_key,
                    public_key: Some(key.public_key),
                })
                &&& key.entry_key == entries[i].key
                &&& key.org_id == entries[i].org_id
            },
        forall|j: int, k: int| 0 <= j < k < at.len() ==> #[trigger] at[j] < #[trigger] at[k],
        forall|i: int|
            0 <= i < entries.len() ==> (#[trigger] entries[i].data matches EntryData::SshKey {
                public_key: Some(_),
                ..
            } ==> at.contains(i)),
    decreases entries.len(),
{
    if entries.len() == 0 {
        Seq::empty()
    } else {
        let rest = entries.skip(1);
        let later = law_every_ssh_key_is_taken_up(rest);
        let moved = Seq::new(later.len(), |j: int| later[j] + 1);
        let taken = entries[0].data matches EntryData::SshKey { public_key: Some(_), .. };
        let at = if taken {
            seq![0int] + moved
        } else {
            moved
        };
        let skipped: int = if taken {
            1
        } else {
            0
        };
        assert forall|j: int| 0 <= j < at.len() implies {
            let i = #[trigger] at[j];
            let key = sealed_keys(entries)[j];
            &&& 0 <= i < entries.len()
            &&& entries[i].data == (EntryData::SshKey {
                private_key: key.private_key,
                public_key: Some(key.public_key),
            })
            &&& key.entry_key == entries[i].key
            &&& key.org_id == entries[i].org_id
        } by {
            if j >= skipped {
                let k = later[j - skipped];
                assert(rest[k] == entries[k + 1]);
            }
        }
        assert forall|i: int| 0 <= i < entries.len() implies (
        #[trigger] entries[i].data matches EntryData::SshKey { public_key: Some(_), .. }
            ==> at.contains(i)) by {
            if entries[i].data matches EntryData::SshKey { public_key: Some(_), .. } {
                if i == 0 {
                    assert(at[0] == 0);
                } else {
                    assert(rest[i - 1] == entries[i]);
                    assert(later.contains(i - 1));
                    let j = choose|j: int| 0 <= j < later.len() && later[j] == i - 1;
                    assert(at[j + skipped] == i);
                }
            }
        }
        at
    }
}

/// Each text in the list of public keys reads as the key that was decrypted for the
/// entry at that place, with keys that the agent held for it.
pub proof fn law_listed_key_is_that_of_its_entry<K, E>(
    states: Seq<DecryptPublicKeys<K, E>>,
    events: Seq<DecryptPublicKeysEvent<K, E>>,
    entries: Seq<Entry>,
    j: int,
    n: int,
) -> (r: (int, int))
    requires
        public_keys_run(states, events),
        states[0].goes_on(sealed_keys(entries), Seq::empty()),
        0 <= n <= events.len(),
        progress(states[n]) matches Some((_, done)) && 0 <= j < done.len(),
    ensures
        0 <= r.0 < r.1 < n,
        states[r.0] matches DecryptPublicKeys::FindKeys { key, .. } && key == sealed_keys(
            entries,
        )[j],
        states[r.1] matches DecryptPublicKeys::Decrypt { keys, key, .. } && key == sealed_keys(
            entries,
        )[j] && events[r.0] == DecryptPublicKeysEvent::<K, E>::KeysFound(Some(keys)),
        events[r.1] matches DecryptPublicKeysEvent::Decrypted(Ok(plaintext)) && (openssh_key(
            plaintext@,
        ) matches Ok(read) && openssh_key(((progress(states[n])->0).1)[j]) == Ok::<
            (Seq<u8>, Seq<char>),
            Seq<char>,
        >((read.0, Seq::empty()))),
    decreases n,
{
    crate::ssh_keys::law_every_public_key_is_listed(states, events, entries, n);
    if n == 0 {
        (0, 0)
    } else {
        crate::ssh_keys::law_every_public_key_is_listed(states, events, entries, n - 1);
        assert(states[n - 1].steps_to(events[n - 1], states[n]));
        let done = (progress(states[n - 1])->0).1;
        if j < done.len() {
            law_listed_key_is_that_of_its_entry(states, events, entries, j, n - 1)
        } else {
            let left = (progress(states[n - 1])->0).0;
            assert(left[0] == states[n - 1]->Decrypt_key);
            assert(left[0] == sealed_keys(entries)[done.len() as int]);
            let i = lemma_keys_were_found(states, events, entries, n - 1);
            (i, n - 1)
        }
    }
}

proof fn lemma_keys_were_found<K, E>(
    states: Seq<DecryptPublicKeys<K, E>>,
    events: Seq<DecryptPublicKeysEvent<K, E>>,
    entries: Seq<Entry>,
    n: int,
) -> (i: int)
    requires
        public_keys_run(states, events),
        states[0].goes_on(sealed_keys(entries), Seq::empty()),
        0 <= n <= events.len(),
        states[n] is Decrypt,
    ensures
        0 <= i < n,
        states[i] matches DecryptPublicKeys::FindKeys { key, .. } && key
            == states[n]->Decrypt_key,
        events[i] == DecryptPublicKeysEvent::<K, E>::KeysFound(Some(states[n]->Decrypt_keys)),
    decreases n,
{
    assert(states[n - 1].steps_to(events[n - 1], states[n]));
    if states[n - 1] is FindKeys {
        n - 1
    } else {
        lemma_keys_were_found(states, events, entries, n - 1)
    }
}

/// The decryption of the public keys fails only where the agent holds no keys for
/// an entry, or its text could not be decrypted or is no key; and the error says
/// which.
pub proof fn law_failed_listing_says_why<K, E>(
    state: DecryptPublicKeys<K, E>,
    event: DecryptPublicKeysEvent<K, E>,
    after: DecryptPublicKeys<K, E>,
    error: Error<E>,
)
    requires
        state.steps_to(event, after),
        !(state is Done),
        after == DecryptPublicKeys::<K, E>::Done(Err(error)),
    ensures
        match event {
            DecryptPublicKeysEvent::KeysFound(found) => state is FindKeys && found is None && error
                == Error::<E>::Refused(Failure::MissingPublicKeyDecryptionKeys),
            DecryptPublicKeysEvent::Decrypted(Ok(plaintext)) => {
                &&& state is Decrypt
                &&& openssh_key(plaintext@) matches Err(cause)
                &&& error matches Error::Explained(Failure::ParsePublicKey, message)
                &&& message@ == cause
            },
            DecryptPublicKeysEvent::Decrypted(Err(cause)) => state is Decrypt && error == cause,
        },
{
}

/// A refresh of the cache lists the keys of the entries of the database, saves what
/// came of it, and yields just that. It does nothing while the vault is locked.
pub proof fn law_refresh_saves_the_keys_of_the_database<T, O, N, E>(
    db: Db<T, O, N>,
    listed: Vec<String>,
    s: Seq<RefreshCache<N, E>>,
    locked: RefreshCache<N, E>,
)
    requires
        s.len() == 5,
        s[0] is LoadDb,
        s[0].steps_to(RefreshCacheEvent::<T, O, N, E>::DbLoaded(Ok(db)), s[1]),
        s[1].steps_to(
            RefreshCacheEvent::<T, O, N, E>::LockChecked { needs_unlock: true },
            locked,
        ),
        s[1].steps_to(RefreshCacheEvent::<T, O, N, E>::LockChecked { needs_unlock: false }, s[2]),
        s[2].steps_to(RefreshCacheEvent::<T, O, N, E>::Decrypted(Ok(listed)), s[3]),
        s[3].steps_to(RefreshCacheEvent::<T, O, N, E>::Saved(Ok(())), s[4]),
    ensures
        locked == RefreshCache::<N, E>::Done(Err(Error::Refused(Failure::RefreshWhileLocked))),
        s[2] == (RefreshCache::<N, E>::DecryptPublicKeys { entries: db.entries }),
        s[3] == (RefreshCache::<N, E>::SaveCache { public_keys: listed }),
        s[4] == RefreshCache::<N, E>::Done(Ok(listed)),
{
}

/// A refresh of the cache fails only while the vault is locked, or where the
/// database could not be loaded, the keys not be listed or the cache not be saved;
/// and with the error of that.
pub proof fn law_failed_refresh_says_why<T, O, N, E>(
    state: RefreshCache<N, E>,
    event: RefreshCacheEvent<T, O, N, E>,
    after: RefreshCache<N, E>,
    error: Error<E>,
)
    requires
        state.steps_to(event, after),
        !(state is Done),
        after == RefreshCache::<N, E>::Done(Err(error)),
    ensures
        match event {
            RefreshCacheEvent::DbLoaded(result) => state is LoadDb && result == Err::<
                Db<T, O, N>,
                Error<E>,
            >(error),
            RefreshCacheEvent::LockChecked { needs_unlock } => state is CheckLocked && needs_unlock
                && error == Error::<E>::Refused(Failure::RefreshWhileLocked),
            RefreshCacheEvent::Decrypted(result) => state is DecryptPublicKeys && result == Err::<
                Vec<String>,
                Error<E>,
            >(error),
            RefreshCacheEvent::Saved(result) => state is SaveCache && result == Err::<(), Error<E>>(
                error,
            ),
        },
{
}

/// A request for the public keys that finds no cache puts off the automatic lock,
/// unlocks the vault with the dialogue that it was given, and yields what a refresh
/// lists. Without a dialogue it fails.
pub proof fn law_missing_cache_is_made<E>(
    shown: UnlockDialogue,
    listed: Vec<String>,
    s: Seq<GetPublicKeys<E>>,
    refused: GetPublicKeys<E>,
)
    requires
        s.len() == 5,
        s[0] == (GetPublicKeys::<E>::LoadCache { dialogue: Some(shown) }),
        (GetPublicKeys::<E>::LoadCache { dialogue: None }).steps_to(
            GetPublicKeysEvent::CacheLoaded(Ok(None)),
            refused,
        ),
        s[0].steps_to(GetPublicKeysEvent::CacheLoaded(Ok(None)), s[1]),
        s[1].steps_to(GetPublicKeysEvent::TimeoutSet, s[2]),
        s[2].steps_to(GetPublicKeysEvent::Unlocked(Ok(())), s[3]),
        s[3].steps_to(GetPublicKeysEvent::Refreshed(Ok(listed)), s[4]),
    ensures
        refused == GetPublicKeys::<E>::Done(Err(Error::Refused(Failure::MissingPublicKeyCache))),
        s[1] == (GetPublicKeys::<E>::SetTimeout { unlock: shown }),
        s[2] == (GetPublicKeys::<E>::Unlock { unlock: shown }),
        s[3] is Refresh,
        s[4] == GetPublicKeys::<E>::Done(Ok(listed)),
{
}

/// A cache that cannot be read is reported and removed, and then made anew like one
/// that is missing, whether or not the removal worked.
pub proof fn law_unreadable_cache_is_removed<E>(
    dialogue: Option<UnlockDialogue>,
    trouble: Error<E>,
    removed: Result<(), Error<E>>,
    s: Seq<GetPublicKeys<E>>,
    missing: GetPublicKeys<E>,
)
    requires
        s.len() == 5,
        s[0] == (GetPublicKeys::<E>::LoadCache { dialogue }),
        s[0].steps_to(GetPublicKeysEvent::CacheLoaded(Ok(None)), missing),
        s[0].steps_to(GetPublicKeysEvent::CacheLoaded(Err(trouble)), s[1]),
        s[1].steps_to(GetPublicKeysEvent::Warned, s[2]),
        s[2].steps_to(GetPublicKeysEvent::CacheRemoved(removed), s[3]),
        removed is Ok ==> s[4] == s[3],
        removed is Err ==> s[3].steps_to(GetPublicKeysEvent::Warned, s[4]),
    ensures
        s[1] == (GetPublicKeys::<E>::Warn {
            dialogue,
            warning: Warning::LoadPublicKeyCache,
            error: trouble,
        }),
        s[2] == (GetPublicKeys::<E>::RemoveCache { dialogue }),
        removed matches Err(error) ==> s[3] == (GetPublicKeys::<E>::Warn {
            dialogue,
            warning: Warning::RemoveInvalidPublicKeyCache,
            error,
        }),
        s[4] == missing,
{
}

/// A request for the public keys fails only where there is no usable cache and no
/// program for the dialogue, or where the vault could not be unlocked or the keys
/// not be listed; and with the error of that.
pub proof fn law_failed_key_request_says_why<E>(
    state: GetPublicKeys<E>,
    event: GetPublicKeysEvent<E>,
    after: GetPublicKeys<E>,
    error: Error<E>,
)
    requires
        state.steps_to(event, after),
        !(state is Done),
        after == GetPublicKeys::<E>::Done(Err(error)),
    ensures
        match event {
            GetPublicKeysEvent::Unlocked(result) => state is Unlock && result == Err::<
                (),
                Error<E>,
            >(error),
            GetPublicKeysEvent::Refreshed(result) => state is Refresh && result == Err::<
                Vec<String>,
                Error<E>,
            >(error),
            GetPublicKeysEvent::TimeoutSet => false,
            _ => {
                &&& error == Error::<E>::Refused(Failure::MissingPublicKeyCache)
                &&& match state {
                    GetPublicKeys::LoadCache { dialogue } => dialogue is None && event
                        == GetPublicKeysEvent::<E>::CacheLoaded(Ok(None)),
                    GetPublicKeys::RemoveCache { dialogue } => dialogue is None,
                    GetPublicKeys::Warn { dialogue, .. } => dialogue is None,
                    _ => false,
                }
            },
        },
{
}

/// A text of an SSH key is decrypted with the keys of the permission, where it has
/// some for the organisation of the key or for the owner; otherwise it is decrypted
/// like any other text, as it stands, with the key of its entry and for its
/// organisation, and not without the question for the password.
pub proof fn law_permission_keys_come_first<K>(
    authorization: SshAuthorization<K>,
    pinentry: Option<Seq<char>>,
    cipherstring: Seq<char>,
    entry_key: Option<Seq<char>>,
    org_id: Option<Seq<char>>,
    r: SshDecryption<K>,
)
    requires
        opens_ssh_text(authorization, pinentry, cipherstring, entry_key, org_id, r),
    ensures
        match r {
            SshDecryption::WithKeys(keys) => match org_id {
                None => authorization.keys == Some(*keys),
                Some(id) => authorization.org_keys matches Some(org_keys)
                    && org_keys@.dom().contains(id) && org_keys@[id] == *keys,
            },
            SshDecryption::WithRequest(request) => {
                &&& request.cipherstring@ == cipherstring
                &&& request.entry_key.deep_view() == entry_key
                &&& request.org_id.deep_view() == org_id
                &&& request.pinentry.deep_view() == pinentry
                &&& !request.skip_master_password_reprompt
                &&& match org_id {
                    None => authorization.keys is None,
                    Some(id) => authorization.org_keys matches Some(org_keys)
                        ==> !org_keys@.dom().contains(id),
                }
            },
        },
{
}

/// A search is for the key that it started with, and unlocks the vault with the
/// dialogue that it started with.
pub proof fn law_search_is_for_the_wanted_key<T, O, E>(
    states: Seq<FindPrivateKey<E>>,
    events: Seq<FindPrivateKeyEvent<T, O, E>>,
    wanted: Vec<u8>,
    shown: Option<UnlockDialogue>,
    n: int,
)
    requires
        search_run(states, events),
        states[0] == (FindPrivateKey::<E>::LoadDb { request: wanted }) || states[0] == (
        FindPrivateKey::<E>::CheckLocked { dialogue: shown, request: wanted }),
        0 <= n <= events.len(),
    ensures
        match states[n] {
            FindPrivateKey::CheckLocked { dialogue, request } => dialogue == shown && request
                == wanted,
            FindPrivateKey::SetTimeout { unlock, request } => shown == Some(unlock) && request
                == wanted,
            FindPrivateKey::Unlock { unlock, request } => shown == Some(unlock) && request == wanted,
            FindPrivateKey::LoadDb { request } => request == wanted,
            FindPrivateKey::DecryptPublicKey { request, .. } => request@ == wanted@,
            _ => true,
        },
    decreases n,
{
    if n > 0 {
        law_search_is_for_the_wanted_key(states, events, wanted, shown, n - 1);
        assert(states[n - 1].steps_to(events[n - 1], states[n]));
    }
}

/// A search with a permission that holds keys starts with the database. Any other
/// first sees whether the vault is locked; if it is, the vault is unlocked before
/// the database is loaded, after the automatic lock was put off, or the search
/// fails where there is no program for the dialogue.
pub proof fn law_search_unlocks_the_vault_first<K, T, O, E>(
    authorization: SshAuthorization<K>,
    pinentry: Option<String>,
    profile: Seq<char>,
    request: Vec<u8>,
    s: Seq<FindPrivateKey<E>>,
    open: FindPrivateKey<E>,
)
    requires
        s.len() == 4,
        s[0].starts(authorization, pinentry, profile, request),
        s[0].steps_to(
            FindPrivateKeyEvent::<T, O, E>::LockChecked { needs_unlock: false },
            open,
        ),
        s[0].steps_to(FindPrivateKeyEvent::<T, O, E>::LockChecked { needs_unlock: true }, s[1]),
        s[1].steps_to(FindPrivateKeyEvent::<T, O, E>::TimeoutSet, s[2]),
        s[2].steps_to(FindPrivateKeyEvent::<T, O, E>::Unlocked(Ok(())), s[3]),
    ensures
        authorization.keys is Some ==> s[0] == (FindPrivateKey::<E>::LoadDb { request }),
        authorization.keys is None ==> {
            &&& s[0] is CheckLocked
            &&& open == (FindPrivateKey::<E>::LoadDb { request })
            &&& match pinentry {
                Some(program) => {
                    &&& s[1] is SetTimeout
                    &&& s[2] matches FindPrivateKey::Unlock { unlock, request: wanted }
                    &&& unlock.pinentry == program
                    &&& unlock.description@ == "Unlock the local database for '"@ + profile + "'"@
                    &&& wanted == request
                    &&& s[3] == (FindPrivateKey::<E>::LoadDb { request })
                },
                None => s[1] == FindPrivateKey::<E>::Done(
                    Err(Error::Refused(Failure::VaultLocked)),
                ),
            }
        },
{
}

/// The private key of an entry is opened exactly if its public key is the wanted
/// one, with the key of that entry and for its organisation. Another public key
/// leads to the next entry, and after the last one the search finds nothing.
pub proof fn law_matching_entry_is_opened<T, O, E>(
    state: FindPrivateKey<E>,
    plaintext: String,
    blob: Seq<u8>,
    comment: Seq<char>,
    after: FindPrivateKey<E>,
)
    requires
        state is DecryptPublicKey,
        openssh_key(plaintext@) == Ok::<(Seq<u8>, Seq<char>), Seq<char>>((blob, comment)),
        state.steps_to(FindPrivateKeyEvent::<T, O, E>::Decrypted(Ok(plaintext)), after),
    ensures
        ({
            let key = state->DecryptPublicKey_key;
            let rest = state->DecryptPublicKey_rest@;
            if blob == state->DecryptPublicKey_request@ {
                match key.private_key {
                    Some(sealed) => after == (FindPrivateKey::<E>::DecryptPrivateKey {
                        private_key: sealed,
                        entry_key: key.entry_key,
                        org_id: key.org_id,
                    }),
                    None => after == FindPrivateKey::<E>::Done(
                        Err(Error::Refused(Failure::MissingPrivateKey)),
                    ),
                }
            } else if rest.len() == 0 {
                after == FindPrivateKey::<E>::Done(Err(Error::Refused(Failure::NoMatchingKey)))
            } else {
                after matches FindPrivateKey::DecryptPublicKey { key: next, rest: others, .. }
                    && next == rest[0] && others@ == rest.skip(1)
            }
        }),
{
}

/// A search looks at the SSH keys of the database from the first on; where there is
/// none it finds nothing.
pub proof fn law_search_starts_with_the_first_key<T, O, E>(
    request: Vec<u8>,
    db: Db<T, O, Vec<Entry>>,
    after: FindPrivateKey<E>,
)
    requires
        (FindPrivateKey::<E>::LoadDb { request }).steps_to(
            FindPrivateKeyEvent::<T, O, E>::DbLoaded(Ok(db)),
            after,
        ),
    ensures
        ({
            let keys = sealed_keys(db.entries@);
            if keys.len() == 0 {
                after == FindPrivateKey::<E>::Done(Err(Error::Refused(Failure::NoMatchingKey)))
            } else {
                after matches FindPrivateKey::DecryptPublicKey { request: wanted, key, rest }
                    && wanted@ == request@ && key == keys[0] && rest@ == keys.skip(1)
            }
        }),
{
}

/// A private key that was decrypted is what the search finds, if its text is one.
pub proof fn law_decrypted_private_key_is_found<T, O, E>(
    state: FindPrivateKey<E>,
    plaintext: String,
    after: FindPrivateKey<E>,
)
    requires
        state is DecryptPrivateKey,
        state.steps_to(FindPrivateKeyEvent::<T, O, E>::Decrypted(Ok(plaintext)), after),
    ensures
        match openssh_private_key(plaintext@) {
            Ok(read) => after matches FindPrivateKey::Done(Ok(key)) && key@ == read,
            Err(cause) => after matches FindPrivateKey::Done(Err(Error::Plain(message)))
                && message@ == cause,
        },
{
}

/// A search fails only where the vault is locked and there is no program for the
/// dialogue, where the vault could not be unlocked, the database not be loaded or a
/// text not be decrypted or read, where the wanted entry has no private key, or
/// where there is no such entry; and the error says which.
pub proof fn law_failed_search_says_why<T, O, E>(
    state: FindPrivateKey<E>,
    event: FindPrivateKeyEvent<T, O, E>,
    after: FindPrivateKey<E>,
    error: Error<E>,
)
    requires
        state.steps_to(event, after),
        !(state is Done),
        after == FindPrivateKey::<E>::Done(Err(error)),
    ensures
        match event {
            FindPrivateKeyEvent::LockChecked { needs_unlock } => {
                &&& state matches FindPrivateKey::CheckLocked { dialogue, .. }
                &&& needs_unlock
                &&& dialogue is None
                &&& error == Error::<E>::Refused(Failure::VaultLocked)
            },
            FindPrivateKeyEvent::TimeoutSet => false,
            FindPrivateKeyEvent::Unlocked(result) => state is Unlock && result == Err::<
                (),
                Error<E>,
            >(error),
            FindPrivateKeyEvent::DbLoaded(Ok(db)) => state is LoadDb && sealed_keys(
                db.entries@,
            ).len() == 0 && error == Error::<E>::Refused(Failure::NoMatchingKey),
            FindPrivateKeyEvent::DbLoaded(Err(cause)) => state is LoadDb && error == cause,
            FindPrivateKeyEvent::Decrypted(Err(cause)) => (state is DecryptPublicKey
                || state is DecryptPrivateKey) && error == cause,
            FindPrivateKeyEvent::Decrypted(Ok(plaintext)) => match state {
                FindPrivateKey::DecryptPublicKey { request, key, rest } => match openssh_key(
                    plaintext@,
                ) {
                    Err(cause) => error matches Error::Plain(message) && message@ == cause,
                    Ok((blob, _)) => if blob == request@ {
                        key.private_key is None && error == Error::<E>::Refused(
                            Failure::MissingPrivateKey,
                        )
                    } else {
                        rest@.len() == 0 && error == Error::<E>::Refused(Failure::NoMatchingKey)
                    },
                },
                FindPrivateKey::DecryptPrivateKey { .. } => openssh_private_key(
                    plaintext@,
                ) matches Err(cause) && (error matches Error::Plain(message) && message@ == cause),
                _ => false,
            },
        },
{
}

/// The question for a signature is shown by the program of the session and names
/// the process that asks and the fingerprint of the very key; where the bytes are
/// no key there is no question, but an error.
pub proof fn law_question_names_process_and_key<K, E>(
    pinentry: Option<String>,
    requester: String,
    request: SignRequest,
    r: Sign<K, E>,
)
    requires
        starts_with_wish(sha256_fingerprint(request.pubkey@), pinentry, requester, request, r),
    ensures
        match sha256_fingerprint(request.pubkey@) {
            Ok(fingerprint) => {
                &&& r matches Sign::Authorize { wish, request: asked }
                &&& wish.pinentry == pinentry
                &&& wish.requester == requester
                &&& wish.key_fingerprint@ == fingerprint
                &&& asked == request
            },
            Err(cause) => r matches Sign::Done(Err(Error::Plain(message))) && message@ == cause,
        },
{
}

/// An authorisation asks with the program of the wish, and says which process asks
/// for which key, whatever happens in it.
pub proof fn law_dialogue_names_process_and_key<K, E>(
    states: Seq<Authorize<K, E>>,
    events: Seq<AuthorizeEvent<K, E>>,
    wish: SignatureWish,
    n: int,
)
    requires
        authorization_run(states, events),
        states[0] == (Authorize::<K, E>::ReadGeneration { wish }),
        0 <= n <= events.len(),
    ensures
        ({
            let said = "SSH signature request\\n\\nProcess: "@ + wish.requester@ + "\\nKey: "@
                + wish.key_fingerprint@
                + "\\n\\nEnter your master password to authorize this request."@;
            match states[n] {
                Authorize::ReadGeneration { wish: w } => w == wish,
                Authorize::LoadConfig { wish: w, .. } => w == wish,
                Authorize::TakeGate { pinentry, description, .. } => wish.pinentry == Some(pinentry)
                    && description@ == said,
                Authorize::CheckBeforePrompt { pinentry, description, .. } => wish.pinentry == Some(
                    pinentry,
                ) && description@ == said,
                Authorize::Verify { pinentry, description, .. } => wish.pinentry == Some(pinentry)
                    && description@ == said,
                _ => true,
            }
        }),
    decreases n,
{
    if n > 0 {
        law_dialogue_names_process_and_key(states, events, wish, n - 1);
        assert(states[n - 1].steps_to(events[n - 1], states[n]));
    }
}

/// Where signatures need no confirmation, the permission comes at once, without
/// keys, for the lock generation that was read.
pub proof fn law_no_question_without_confirmation<K, E>(
    wish: SignatureWish,
    generation: u64,
    config: Config,
    loading: Authorize<K, E>,
    after: Authorize<K, E>,
)
    requires
        config.ssh_agent_confirmation == SshAgentConfirmation::Never,
        (Authorize::<K, E>::ReadGeneration { wish }).steps_to(
            AuthorizeEvent::GenerationRead(generation),
            loading,
        ),
        loading.steps_to(AuthorizeEvent::ConfigLoaded(Ok(config)), after),
    ensures
        after == Authorize::<K, E>::Done(
            Ok(SshAuthorization { keys: None, org_keys: None, lock_generation: generation }),
        ),
{
}

/// Where signatures are to be confirmed, a verified password gives a permission
/// with the keys that it opened, for the lock generation that was read; and without
/// a program for the dialogue there is no permission.
pub proof fn law_verified_password_permits<K, E>(
    wish: SignatureWish,
    generation: u64,
    config: Config,
    keys: K,
    org_keys: OrgKeys<K>,
    s: Seq<Authorize<K, E>>,
)
    requires
        s.len() == 7,
        config.ssh_agent_confirmation == SshAgentConfirmation::Always,
        s[0] == (Authorize::<K, E>::ReadGeneration { wish }),
        s[0].steps_to(AuthorizeEvent::GenerationRead(generation), s[1]),
        s[1].steps_to(AuthorizeEvent::ConfigLoaded(Ok(config)), s[2]),
        s[2].steps_to(AuthorizeEvent::GateTaken, s[3]),
        s[3].steps_to(AuthorizeEvent::GenerationChecked(Ok(())), s[4]),
        s[4].steps_to(AuthorizeEvent::Verified(Ok((keys, org_keys))), s[5]),
        s[5].steps_to(AuthorizeEvent::GenerationChecked(Ok(())), s[6]),
    ensures
        wish.pinentry is None ==> s[2] == Authorize::<K, E>::Done(
            Err(Error::Refused(Failure::ConfirmationNeedsGuiPinentry)),
        ),
        wish.pinentry is Some ==> {
            &&& s[4] is Verify
            &&& s[6] == Authorize::<K, E>::Done(
                Ok(
                    SshAuthorization {
                        keys: Some(keys),
                        org_keys: Some(org_keys),
                        lock_generation: generation,
                    },
                ),
            )
        },
{
}

/// An authorisation fails only where the configuration could not be loaded, there is
/// no program for the dialogue, the lock generation changed, the password was not
/// verified or the dialogue took too long; and the error says which.
pub proof fn law_failed_authorisation_says_why<K, E>(
    state: Authorize<K, E>,
    event: AuthorizeEvent<K, E>,
    after: Authorize<K, E>,
    error: Error<E>,
)
    requires
        state.steps_to(event, after),
        !(state is Done),
        after == Authorize::<K, E>::Done(Err(error)),
    ensures
        match event {
            AuthorizeEvent::ConfigLoaded(Ok(config)) => {
                &&& state matches Authorize::LoadConfig { wish, .. }
                &&& config.ssh_agent_confirmation != SshAgentConfirmation::Never
                &&& wish.pinentry is None
                &&& error == Error::<E>::Refused(Failure::ConfirmationNeedsGuiPinentry)
            },
            AuthorizeEvent::ConfigLoaded(Err(cause)) => state is LoadConfig && error
                == Error::Forwarded(cause),
            AuthorizeEvent::GenerationChecked(result) => result matches Err(cause) && ({
                ||| state is CheckBeforePrompt && error == Error::Caused(
                    Failure::SshAuthorizationInvalidatedBeforePrompt,
                    cause,
                )
                ||| state is CheckGeneration && error == Error::Caused(
                    Failure::SshAuthorizationInvalidated,
                    cause,
                )
            }),
            AuthorizeEvent::Verified(result) => state is Verify && result == Err::<
                (K, OrgKeys<K>),
                Error<E>,
            >(error),
            AuthorizeEvent::TimedOut(cause) => {
                &&& state is TakeGate || state is CheckBeforePrompt || state is Verify
                    || state is CheckGeneration
                &&& error == Error::Caused(Failure::PinentryTimedOut, cause)
            },
            _ => false,
        },
{
}

/// A dialogue that takes too long ends an authorisation.
pub proof fn law_authorisation_times_out<K, E>(
    state: Authorize<K, E>,
    elapsed: E,
    after: Authorize<K, E>,
)
    requires
        state.steps_to(AuthorizeEvent::TimedOut(elapsed), after),
        state is TakeGate || state is CheckBeforePrompt || state is Verify
            || state is CheckGeneration,
    ensures
        after == Authorize::<K, E>::Done(Err(Error::Caused(Failure::PinentryTimedOut, elapsed))),
{
}

/// A request for a signature whose steps succeed signs the data that were sent, with
/// the key that was found and by the flags that were sent, and ends with what came
/// of that. A lock generation that changed ends it with an error.
pub proof fn law_permitted_request_is_signed<K, E>(
    wish: SignatureWish,
    request: SignRequest,
    authorization: SshAuthorization<K>,
    key: SshPrivateKey,
    changed: E,
    s: Seq<Sign<K, E>>,
    invalidated: Sign<K, E>,
)
    requires
        s.len() == 4,
        s[0] == (Sign::<K, E>::Authorize { wish, request }),
        s[0].steps_to(SignEvent::Authorized(Ok(authorization)), s[1]),
        s[1].steps_to(SignEvent::KeyFound(Ok(key)), s[2]),
        s[2].steps_to(SignEvent::GenerationChecked(Err(changed)), invalidated),
        s[2].steps_to(SignEvent::GenerationChecked(Ok(())), s[3]),
    ensures
        s[1] == (Sign::<K, E>::FindKey { authorization, request }),
        s[2] == (Sign::<K, E>::CheckGeneration {
            lock_generation: authorization.lock_generation,
            key,
            data: request.data,
            flags: request.flags,
        }),
        invalidated == Sign::<K, E>::Done(Err(Error::Forwarded(changed))),
        match s[3] {
            Sign::Done(Ok(signature)) => comes_of_signing(
                key,
                request.data@,
                request.flags,
                Ok(signature),
            ),
            Sign::Done(Err(Error::Plain(message))) => comes_of_signing(
                key,
                request.data@,
                request.flags,
                Err(message),
            ),
            _ => false,
        },
{
}

/// A request for a signature that is not permitted, or for which no key is found,
/// ends with the error of that.
pub proof fn law_refused_request_is_not_signed<K, E>(
    state: Sign<K, E>,
    event: SignEvent<K, E>,
    error: Error<E>,
    after: Sign<K, E>,
)
    requires
        state.steps_to(event, after),
        ({
            ||| state is Authorize && event == SignEvent::<K, E>::Authorized(Err(error))
            ||| state is FindKey && event == SignEvent::<K, E>::KeyFound(Err(error))
        }),
    ensures
        after == Sign::<K, E>::Done(Err(error)),
{
}

/// A signature of an RSA key is named by the hash that the flags ask for, SHA-512
/// before SHA-256, and is an RSA signature of the data by that hash. Without either
/// flag there is none.
pub proof fn law_flags_choose_the_hash(
    p: Vec<u8>,
    q: Vec<u8>,
    e: Vec<u8>,
    data: Seq<u8>,
    flags: u32,
    signature: SshSignature,
)
    requires
        comes_of_signing(SshPrivateKey::Rsa { p, q, e }, data, flags, Ok(signature)),
    ensures
        flags & 4 != 0 || flags & 2 != 0,
        flags & 4 != 0 ==> signature.algorithm@ == "rsa-sha2-512"@ && signs_encoded(
            p@,
            q@,
            e@,
            sha512_prefix() + sha512(data),
            signature.data@,
        ),
        flags & 4 == 0 ==> signature.algorithm@ == "rsa-sha2-256"@ && signs_encoded(
            p@,
            q@,
            e@,
            sha256_prefix() + crate::cipher::sha256(data),
            signature.data@,
        ),
        rsa_refusal(p@, q@, e@) is None,
{
}

/// An Ed25519 key signs the data whatever the flags, and a key of any other kind
/// than this and RSA signs nothing.
pub proof fn law_other_kinds_of_keys(
    keypair: [u8; 64],
    kind: String,
    data: Seq<u8>,
    flags: u32,
    r: Result<SshSignature, String>,
    other: Result<SshSignature, String>,
)
    requires
        comes_of_signing(SshPrivateKey::Ed25519(keypair), data, flags, r),
        comes_of_signing(SshPrivateKey::Other(kind), data, flags, other),
    ensures
        r matches Ok(signature) ==> signature.algorithm@ == "ssh-ed25519"@ && ed25519_signature(
            keypair@,
            data,
        ) == Ok::<(Seq<char>, Seq<u8>), Seq<char>>((signature.algorithm@, signature.data@)),
        r matches Err(message) ==> ed25519_signature(keypair@, data) == Err::<
            (Seq<char>, Seq<u8>),
            Seq<char>,
        >(message@),
        other matches Err(message) && message@ == "Unsupported key type: "@ + kind@,
{
}

/// An RSA key whose numbers make none is refused with the reason. A key that makes
/// one, but whose modulus has no room for the digest, signs nothing, and no RSA key
/// signs where the flags ask for neither hash.
pub proof fn law_unfit_rsa_key_signs_nothing(
    p: Vec<u8>,
    q: Vec<u8>,
    e: Vec<u8>,
    data: Seq<u8>,
    flags: u32,
    r: Result<SshSignature, String>,
)
    requires
        comes_of_signing(SshPrivateKey::Rsa { p, q, e }, data, flags, r),
    ensures
        rsa_refusal(p@, q@, e@) matches Some(cause) ==> (r matches Err(message) && message@
            == cause),
        rsa_refusal(p@, q@, e@) is None && flags & 4 != 0 && !modulus_fits(p@, q@, 83) ==> (
        r matches Err(message) && message@ == "signature error: message too long"@),
        rsa_refusal(p@, q@, e@) is None && flags & 4 == 0 && flags & 2 != 0 && !modulus_fits(
            p@,
            q@,
            51,
        ) ==> (r matches Err(message) && message@ == "signature error: message too long"@),
        flags & 4 == 0 && flags & 2 == 0 ==> r is Err,
{
}

/// Signing is defined for every key but an RSA key of which exactly one factor is
/// zero.
pub proof fn law_one_zero_factor_cannot_sign(key: SshPrivateKey)
    ensures
        key.spec_signable() == match key {
            SshPrivateKey::Rsa { p, q, .. } => (number(p@) == 0) == (number(q@) == 0),
            _ => true,
        },
{
    if let SshPrivateKey::Rsa { p, q, .. } = key {
        lemma_zero_bytes(p@);
        lemma_zero_bytes(q@);
    }
}

proof fn lemma_zero_bytes(bytes: Seq<u8>)
    ensures
        is_zero(bytes) <==> number(bytes) == 0,
    decreases bytes.len(),
{
    if bytes.len() > 0 {
        let head = bytes.drop_last();
        lemma_zero_bytes(head);
        if is_zero(head) && bytes.last() == 0 {
            assert forall|i: int| 0 <= i < bytes.len() implies bytes[i] == 0 by {
                if i < head.len() {
                    assert(head[i] == bytes[i]);
                }
            }
        }
        if is_zero(bytes) {
            assert forall|i: int| 0 <= i < head.len() implies head[i] == 0 by {
                assert(head[i] == bytes[i]);
            }
            assert(bytes[bytes.len() - 1] == 0);
        }
    }
}

} // verus!
