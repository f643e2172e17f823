//! Decrypting and encrypting texts of the vault.
//!
//! `K` stands for keys in memory and `C` for a parsed cipher string. Parsing,
//! decrypting and encrypting are outside work: a state names what is to be done
//! next, and its outcome is the next event.
use vstd::prelude::*;
use vstd::utf8::*;
use crate::authorization::SshAuthorization;
use crate::db::{keys_for, OrgKeys};
use crate::error::{Error, Failure};
use crate::unicode;

verus! {

/// A decryption with given keys.
#[derive(Debug)]
pub enum DecryptWithKeys<K, C, E> {
    ParseItemKey { keys: K, cipherstring: String, entry_key: String },
    DecryptItemKey { keys: K, cipherstring: String, key_cipher: C },
    ParseSecret { keys: K, cipherstring: String, item_keys: Option<K> },
    /// Decrypts with `item_keys` where there are some, else with `keys`.
    DecryptSecret { keys: K, item_keys: Option<K>, cipher: C },
    Done(Result<String, Error<E>>),
}

#[derive(Debug)]
pub enum DecryptWithKeysEvent<K, C, E> {
    ItemKeyParsed(Result<C, E>),
    ItemKeyDecrypted(Result<K, E>),
    SecretParsed(Result<C, E>),
    SecretDecrypted(Result<Vec<u8>, E>),
}

impl<K, C, E> DecryptWithKeys<K, C, E> {
    /// The first state: an entry that has a key of its own is decrypted with
    /// that.
    pub fn start(keys: K, cipherstring: String, entry_key: Option<String>) -> (r: Self)
        ensures
            r == match entry_key {
                Some(entry_key) => Self::ParseItemKey { keys, cipherstring, entry_key },
                None => Self::ParseSecret { keys, cipherstring, item_keys: None },
            },
    {
        match entry_key {
            Some(entry_key) => DecryptWithKeys::ParseItemKey { keys, cipherstring, entry_key },
            None => DecryptWithKeys::ParseSecret { keys, cipherstring, item_keys: None },
        }
    }

    /// Whether the decryption ended, with the text of `bytes` or, where they
    /// are not UTF-8, with an error.
    pub open spec fn ends_with_text(self, bytes: Seq<u8>) -> bool {
        &&& self matches DecryptWithKeys::Done(result)
        &&& match result {
            Ok(text) => valid_utf8(bytes) && text@ == decode_utf8(bytes),
            Err(error) => {
                &&& !valid_utf8(bytes)
                &&& error matches Error::Explained(Failure::SecretNotUtf8, message)
                &&& message@ == unicode::utf8_error(bytes)
            },
        }
    }

    /// Where an event leads. One that the state does not wait for changes
    /// nothing.
    pub open spec fn steps_to(self, event: DecryptWithKeysEvent<K, C, E>, after: Self) -> bool {
        match (self, event) {
            (
                DecryptWithKeys::ParseItemKey { keys, cipherstring, .. },
                DecryptWithKeysEvent::ItemKeyParsed(result),
            ) => after == match result {
                Ok(key_cipher) => Self::DecryptItemKey { keys, cipherstring, key_cipher },
                Err(error) => Self::Done(Err(Error::Caused(Failure::ParseItemKey, error))),
            },
            (
                DecryptWithKeys::DecryptItemKey { keys, cipherstring, .. },
                DecryptWithKeysEvent::ItemKeyDecrypted(result),
            ) => after == match result {
                Ok(item) => Self::ParseSecret { keys, cipherstring, item_keys: Some(item) },
                Err(error) => Self::Done(Err(Error::Caused(Failure::DecryptItemKey, error))),
            },
            (
                DecryptWithKeys::ParseSecret { keys, item_keys, .. },
                DecryptWithKeysEvent::SecretParsed(result),
            ) => after == match result {
                Ok(cipher) => Self::DecryptSecret { keys, item_keys, cipher },
                Err(error) => Self::Done(Err(Error::Caused(Failure::ParseSecret, error))),
            },
            (
                DecryptWithKeys::DecryptSecret { .. },
                DecryptWithKeysEvent::SecretDecrypted(result),
            ) => match result {
                Ok(bytes) => after.ends_with_text(bytes@),
                Err(error) => after == Self::Done(
                    Err(Error::Caused(Failure::DecryptSecret, error)),
                ),
            },
            _ => after == self,
        }
    }
}

/// Moves a decryption with given keys on.
pub fn decrypt_cipher_with_keys<K, C, E>(
    state: DecryptWithKeys<K, C, E>,
    event: DecryptWithKeysEvent<K, C, E>,
) -> (after: DecryptWithKeys<K, C, E>)
    ensures
        state.steps_to(event, after),
{
    match (state, event) {
        (
            DecryptWithKeys::ParseItemKey { keys, cipherstring, .. },
            DecryptWithKeysEvent::ItemKeyParsed(result),
        ) => match result {
            Ok(key_cipher) => DecryptWithKeys::DecryptItemKey { keys, cipherstring, key_cipher },
            Err(error) => DecryptWithKeys::Done(Err(Error::Caused(Failure::ParseItemKey, error))),
        },
        (
            DecryptWithKeys::DecryptItemKey { keys, cipherstring, .. },
            DecryptWithKeysEvent::ItemKeyDecrypted(result),
        ) => match result {
            Ok(item) => DecryptWithKeys::ParseSecret { keys, cipherstring, item_keys: Some(item) },
            Err(error) => DecryptWithKeys::Done(Err(Error::Caused(Failure::DecryptItemKey, error))),
        },
        (
            DecryptWithKeys::ParseSecret { keys, item_keys, .. },
            DecryptWithKeysEvent::SecretParsed(result),
        ) => match result {
            Ok(cipher) => DecryptWithKeys::DecryptSecret { keys, item_keys, cipher },
            Err(error) => DecryptWithKeys::Done(Err(Error::Caused(Failure::ParseSecret, error))),
        },
        (DecryptWithKeys::DecryptSecret { .. }, DecryptWithKeysEvent::SecretDecrypted(result)) => {
            match result {
                Ok(bytes) => match unicode::from_utf8(bytes) {
                    Ok(text) => DecryptWithKeys::Done(Ok(text)),
                    Err(message) => DecryptWithKeys::Done(
                        Err(Error::Explained(Failure::SecretNotUtf8, message)),
                    ),
                },
                Err(error) => DecryptWithKeys::Done(
                    Err(Error::Caused(Failure::DecryptSecret, error)),
                ),
            }
        },
        (state, _) => state,
    }
}

/// An encryption with given keys.
#[derive(Debug)]
pub enum EncryptWithKey<K, C, E> {
    ParseItemKey { keys: K, entry_key: String, plaintext: String },
    DecryptItemKey { keys: K, key_cipher: C, plaintext: String },
    Encrypt { keys: K, plaintext: String },
    Done(Result<String, Error<E>>),
}

#[derive(Debug)]
pub enum EncryptWithKeyEvent<K, C, E> {
    ItemKeyParsed(Result<C, E>),
    ItemKeyDecrypted(Result<K, E>),
    Encrypted(Result<String, E>),
}

impl<K, C, E> EncryptWithKey<K, C, E> {
    /// The first state: an entry that has a key of its own is encrypted with
    /// that.
    pub fn start(keys: K, entry_key: Option<String>, plaintext: String) -> (r: Self)
        ensures
            r == match entry_key {
                Some(entry_key) => Self::ParseItemKey { keys, entry_key, plaintext },
                None => Self::Encrypt { keys, plaintext },
            },
    {
        match entry_key {
            Some(entry_key) => EncryptWithKey::ParseItemKey { keys, entry_key, plaintext },
            None => EncryptWithKey::Encrypt { keys, plaintext },
        }
    }

    /// Where an event leads. One that the state does not wait for changes
    /// nothing.
    pub open spec fn steps_to(self, event: EncryptWithKeyEvent<K, C, E>, after: Self) -> bool {
        match (self, event) {
            (
                EncryptWithKey::ParseItemKey { keys, plaintext, .. },
                EncryptWithKeyEvent::ItemKeyParsed(result),
            ) => after == match result {
                Ok(key_cipher) => Self::DecryptItemKey { keys, key_cipher, plaintext },
                Err(error) => Self::Done(Err(Error::Caused(Failure::ParseItemKey, error))),
            },
            (
                EncryptWithKey::DecryptItemKey { plaintext, .. },
                EncryptWithKeyEvent::ItemKeyDecrypted(result),
            ) => after == match result {
                Ok(item) => Self::Encrypt { keys: item, plaintext },
                Err(error) => Self::Done(Err(Error::Caused(Failure::DecryptItemKey, error))),
            },
            (EncryptWithKey::Encrypt { .. }, EncryptWithKeyEvent::Encrypted(result)) => {
                after == Self::Done(
                    match result {
                        Ok(cipherstring) => Ok(cipherstring),
                        Err(error) => Err(Error::Caused(Failure::EncryptSecret, error)),
                    },
                )
            },
            _ => after == self,
        }
    }
}

/// Moves an encryption with given keys on.
pub fn encrypt_with_key<K, C, E>(
    state: EncryptWithKey<K, C, E>,
    event: EncryptWithKeyEvent<K, C, E>,
) -> (after: EncryptWithKey<K, C, E>)
    ensures
        state.steps_to(event, after),
{
    match (state, event) {
        (
            EncryptWithKey::ParseItemKey { keys, plaintext, .. },
            EncryptWithKeyEvent::ItemKeyParsed(result),
        ) => match result {
            Ok(key_cipher) => EncryptWithKey::DecryptItemKey { keys, key_cipher, plaintext },
            Err(error) => EncryptWithKey::Done(Err(Error::Caused(Failure::ParseItemKey, error))),
        },
        (
            EncryptWithKey::DecryptItemKey { plaintext, .. },
            EncryptWithKeyEvent::ItemKeyDecrypted(result),
        ) => match result {
            Ok(item) => EncryptWithKey::Encrypt { keys: item, plaintext },
            Err(error) => EncryptWithKey::Done(Err(Error::Caused(Failure::DecryptItemKey, error))),
        },
        (EncryptWithKey::Encrypt { .. }, EncryptWithKeyEvent::Encrypted(result)) => match result {
            Ok(cipherstring) => EncryptWithKey::Done(Ok(cipherstring)),
            Err(error) => EncryptWithKey::Done(Err(Error::Caused(Failure::EncryptSecret, error))),
        },
        (state, _) => state,
    }
}

/// A text that was encrypted comes back from its decryption, provided that the
/// cipher gives back the bytes that were put into it.
pub proof fn law_decryption_gives_the_text_back<K, C, E>(
    before: DecryptWithKeys<K, C, E>,
    bytes: Vec<u8>,
    after: DecryptWithKeys<K, C, E>,
    plaintext: Seq<char>,
)
    requires
        before is DecryptSecret,
        bytes@ == encode_utf8(plaintext),
        before.steps_to(DecryptWithKeysEvent::SecretDecrypted(Ok(bytes)), after),
    ensures
        after matches DecryptWithKeys::Done(Ok(text)) && text@ == plaintext,
{
    encode_utf8_valid_utf8(plaintext);
    encode_utf8_decode_utf8(plaintext);
}

/// Whether `events` lead through `states` one after the other.
pub open spec fn decrypt_with_keys_run<K, C, E>(
    states: Seq<DecryptWithKeys<K, C, E>>,
    events: Seq<DecryptWithKeysEvent<K, C, E>>,
) -> bool {
    &&& states.len() == events.len() + 1
    &&& forall|i: int|
        0 <= i < events.len() ==> states[i].steps_to(#[trigger] events[i], states[i + 1])
}

/// Whether the event opens the key of an entry with the given keys.
pub open spec fn opens_item_key<K, C, E>(
    state: DecryptWithKeys<K, C, E>,
    event: DecryptWithKeysEvent<K, C, E>,
    with: K,
    item: K,
) -> bool {
    &&& state matches DecryptWithKeys::DecryptItemKey { keys, .. }
    &&& keys == with
    &&& event == DecryptWithKeysEvent::<K, C, E>::ItemKeyDecrypted(Ok(item))
}

/// A text is decrypted with the key of its entry, as the given keys opened it,
/// where the entry has one, and with the given keys where it has none.
pub proof fn law_entry_key_decrypts<K, C, E>(
    states: Seq<DecryptWithKeys<K, C, E>>,
    events: Seq<DecryptWithKeysEvent<K, C, E>>,
    keys: K,
    cipherstring: String,
    entry_key: Option<String>,
    n: int,
)
    requires
        decrypt_with_keys_run(states, events),
        states[0] == match entry_key {
            Some(entry_key) => DecryptWithKeys::<K, C, E>::ParseItemKey {
                keys,
                cipherstring,
                entry_key,
            },
            None => DecryptWithKeys::<K, C, E>::ParseSecret { keys, cipherstring, item_keys: None },
        },
        0 <= n <= events.len(),
    ensures
        states[n] matches DecryptWithKeys::ParseItemKey { keys: k, cipherstring: c, entry_key: e }
            ==> k == keys && c == cipherstring && entry_key == Some(e),
        states[n] matches DecryptWithKeys::DecryptItemKey { keys: k, cipherstring: c, .. } ==> k
            == keys && c == cipherstring && entry_key is Some,
        states[n] matches DecryptWithKeys::ParseSecret { keys: k, cipherstring: c, item_keys } ==> {
            &&& k == keys
            &&& c == cipherstring
            &&& (item_keys is Some <==> entry_key is Some)
            &&& item_keys is Some ==> exists|i: int|
                0 <= i < n && opens_item_key(states[i], #[trigger] events[i], keys, item_keys->0)
        },
        states[n] matches DecryptWithKeys::DecryptSecret { keys: k, item_keys, .. } ==> {
            &&& k == keys
            &&& (item_keys is Some <==> entry_key is Some)
            &&& item_keys is Some ==> exists|i: int|
                0 <= i < n && opens_item_key(states[i], #[trigger] events[i], keys, item_keys->0)
        },
    decreases n,
{
    if n > 0 {
        law_entry_key_decrypts(states, events, keys, cipherstring, entry_key, n - 1);
        assert(states[n - 1].steps_to(events[n - 1], states[n]));
        if states[n - 1] is DecryptItemKey && states[n] is ParseSecret {
            let i = n - 1;
            assert(opens_item_key(
                states[i],
                events[i],
                keys,
                states[n]->ParseSecret_item_keys->0,
            ));
        }
    }
}

/// Whether `events` lead through `states` one after the other.
pub open spec fn encrypt_with_key_run<K, C, E>(
    states: Seq<EncryptWithKey<K, C, E>>,
    events: Seq<EncryptWithKeyEvent<K, C, E>>,
) -> bool {
    &&& states.len() == events.len() + 1
    &&& forall|i: int|
        0 <= i < events.len() ==> states[i].steps_to(#[trigger] events[i], states[i + 1])
}

/// Whether the event opens the key of an entry with the given keys.
pub open spec fn opens_key_to_encrypt<K, C, E>(
    state: EncryptWithKey<K, C, E>,
    event: EncryptWithKeyEvent<K, C, E>,
    with: K,
    item: K,
) -> bool {
    &&& state matches EncryptWithKey::DecryptItemKey { keys, .. }
    &&& keys == with
    &&& event == EncryptWithKeyEvent::<K, C, E>::ItemKeyDecrypted(Ok(item))
}

/// What is encrypted is the text that was given. It is encrypted with the key of
/// its entry, as the given keys opened it, where the entry has one, and with the
/// given keys where it has none.
pub proof fn law_entry_key_encrypts<K, C, E>(
    states: Seq<EncryptWithKey<K, C, E>>,
    events: Seq<EncryptWithKeyEvent<K, C, E>>,
    keys: K,
    entry_key: Option<String>,
    plaintext: String,
    n: int,
)
    requires
        encrypt_with_key_run(states, events),
        states[0] == match entry_key {
            Some(entry_key) => EncryptWithKey::<K, C, E>::ParseItemKey { keys, entry_key, plaintext },
            None => EncryptWithKey::<K, C, E>::Encrypt { keys, plaintext },
        },
        0 <= n <= events.len(),
    ensures
        states[n] matches EncryptWithKey::ParseItemKey { keys: k, entry_key: e, plaintext: p } ==> k
            == keys && entry_key == Some(e) && p == plaintext,
        states[n] matches EncryptWithKey::DecryptItemKey { keys: k, plaintext: p, .. } ==> k == keys
            && p == plaintext && entry_key is Some,
        states[n] matches EncryptWithKey::Encrypt { keys: k, plaintext: p } ==> {
            &&& p == plaintext
            &&& entry_key is None ==> k == keys
            &&& entry_key is Some ==> exists|i: int|
                0 <= i < n && opens_key_to_encrypt(states[i], #[trigger] events[i], keys, k)
        },
    decreases n,
{
    if n > 0 {
        law_entry_key_encrypts(states, events, keys, entry_key, plaintext, n - 1);
        assert(states[n - 1].steps_to(events[n - 1], states[n]));
        if states[n - 1] is DecryptItemKey && states[n] is Encrypt {
            let i = n - 1;
            assert(opens_key_to_encrypt(states[i], events[i], keys, states[n]->Encrypt_keys));
        }
    }
}

/// Whether a text of an entry is encrypted and decrypted with `used`, given how
/// cipher strings are parsed and the keys of entries opened.
pub open spec fn key_in_use<K, C, E>(
    keys: K,
    entry_key: Option<String>,
    used: K,
    parse: spec_fn(Seq<char>) -> Result<C, E>,
    open_key: spec_fn(C, K) -> Result<K, E>,
) -> bool {
    match entry_key {
        Some(sealed) => match parse(sealed@) {
            Ok(key_cipher) => open_key(key_cipher, keys) == Ok::<K, E>(used),
            Err(_) => false,
        },
        None => used == keys,
    }
}

/// Whether an event of an encryption is what the outside work gives. A text that
/// was encrypted decrypts, with the same keys, to its bytes.
pub open spec fn answers_encryption<K, C, E>(
    state: EncryptWithKey<K, C, E>,
    event: EncryptWithKeyEvent<K, C, E>,
    parse: spec_fn(Seq<char>) -> Result<C, E>,
    open_key: spec_fn(C, K) -> Result<K, E>,
    decrypt: spec_fn(C, K) -> Result<Seq<u8>, E>,
) -> bool {
    match (state, event) {
        (
            EncryptWithKey::ParseItemKey { entry_key, .. },
            EncryptWithKeyEvent::ItemKeyParsed(result),
        ) => result == parse(entry_key@),
        (
            EncryptWithKey::DecryptItemKey { keys, key_cipher, .. },
            EncryptWithKeyEvent::ItemKeyDecrypted(result),
        ) => result == open_key(key_cipher, keys),
        (
            EncryptWithKey::Encrypt { keys, plaintext },
            EncryptWithKeyEvent::Encrypted(Ok(cipherstring)),
        ) => match parse(cipherstring@) {
            Ok(cipher) => decrypt(cipher, keys) == Ok::<Seq<u8>, E>(encode_utf8(plaintext@)),
            Err(_) => false,
        },
        _ => true,
    }
}

/// Whether an event of a decryption is what the outside work gives.
pub open spec fn answers_decryption<K, C, E>(
    state: DecryptWithKeys<K, C, E>,
    event: DecryptWithKeysEvent<K, C, E>,
    parse: spec_fn(Seq<char>) -> Result<C, E>,
    open_key: spec_fn(C, K) -> Result<K, E>,
    decrypt: spec_fn(C, K) -> Result<Seq<u8>, E>,
) -> bool {
    match (state, event) {
        (
            DecryptWithKeys::ParseItemKey { entry_key, .. },
            DecryptWithKeysEvent::ItemKeyParsed(result),
        ) => result == parse(entry_key@),
        (
            DecryptWithKeys::DecryptItemKey { keys, key_cipher, .. },
            DecryptWithKeysEvent::ItemKeyDecrypted(result),
        ) => result == open_key(key_cipher, keys),
        (
            DecryptWithKeys::ParseSecret { cipherstring, .. },
            DecryptWithKeysEvent::SecretParsed(result),
        ) => result == parse(cipherstring@),
        (
            DecryptWithKeys::DecryptSecret { keys, item_keys, cipher },
            DecryptWithKeysEvent::SecretDecrypted(result),
        ) => decrypt(
            cipher,
            match item_keys {
                Some(item) => item,
                None => keys,
            },
        ) == match result {
            Ok(bytes) => Ok(bytes@),
            Err(error) => Err(error),
        },
        _ => true,
    }
}

/// Whether a cipher string decrypts to the bytes of a text, with the keys in use
/// for its entry.
pub open spec fn seals<K, C, E>(
    cipherstring: Seq<char>,
    plaintext: Seq<char>,
    keys: K,
    entry_key: Option<String>,
    parse: spec_fn(Seq<char>) -> Result<C, E>,
    open_key: spec_fn(C, K) -> Result<K, E>,
    decrypt: spec_fn(C, K) -> Result<Seq<u8>, E>,
) -> bool {
    match parse(cipherstring) {
        Ok(cipher) => exists|used: K| #[trigger]
            key_in_use(keys, entry_key, used, parse, open_key) && decrypt(cipher, used) == Ok::<
                Seq<u8>,
                E,
            >(encode_utf8(plaintext)),
        Err(_) => false,
    }
}

/// A text that was encrypted for an entry comes back when it is decrypted for
/// that entry with the same keys, provided that the outside work is the same in
/// both and that the cipher gives back the bytes that were put into it.
pub proof fn law_encrypted_text_is_decrypted<K, C, E>(
    encrypting: Seq<EncryptWithKey<K, C, E>>,
    encrypted: Seq<EncryptWithKeyEvent<K, C, E>>,
    decrypting: Seq<DecryptWithKeys<K, C, E>>,
    decrypted: Seq<DecryptWithKeysEvent<K, C, E>>,
    keys: K,
    entry_key: Option<String>,
    plaintext: String,
    cipherstring: String,
    parse: spec_fn(Seq<char>) -> Result<C, E>,
    open_key: spec_fn(C, K) -> Result<K, E>,
    decrypt: spec_fn(C, K) -> Result<Seq<u8>, E>,
)
    requires
        encrypt_with_key_run(encrypting, encrypted),
        forall|i: int|
            0 <= i < encrypted.len() ==> answers_encryption(
                encrypting[i],
                #[trigger] encrypted[i],
                parse,
                open_key,
                decrypt,
            ),
        encrypting[0] == match entry_key {
            Some(entry_key) => EncryptWithKey::<K, C, E>::ParseItemKey { keys, entry_key, plaintext },
            None => EncryptWithKey::<K, C, E>::Encrypt { keys, plaintext },
        },
        encrypting.last() == EncryptWithKey::<K, C, E>::Done(Ok(cipherstring)),
        decrypt_with_keys_run(decrypting, decrypted),
        forall|i: int|
            0 <= i < decrypted.len() ==> answers_decryption(
                decrypting[i],
                #[trigger] decrypted[i],
                parse,
                open_key,
                decrypt,
            ),
        decrypting[0] == match entry_key {
            Some(entry_key) => DecryptWithKeys::<K, C, E>::ParseItemKey {
                keys,
                cipherstring,
                entry_key,
            },
            None => DecryptWithKeys::<K, C, E>::ParseSecret { keys, cipherstring, item_keys: None },
        },
        decrypting.last() is Done,
    ensures
        decrypting.last() matches DecryptWithKeys::Done(Ok(text)) && text@ == plaintext@,
{
    lemma_encryption_seals(
        encrypting,
        encrypted,
        keys,
        entry_key,
        plaintext,
        parse,
        open_key,
        decrypt,
        encrypted.len() as int,
    );
    lemma_decryption_opens(
        decrypting,
        decrypted,
        keys,
        entry_key,
        plaintext@,
        cipherstring,
        parse,
        open_key,
        decrypt,
        decrypted.len() as int,
    );
}

proof fn lemma_encryption_seals<K, C, E>(
    states: Seq<EncryptWithKey<K, C, E>>,
    events: Seq<EncryptWithKeyEvent<K, C, E>>,
    keys: K,
    entry_key: Option<String>,
    plaintext: String,
    parse: spec_fn(Seq<char>) -> Result<C, E>,
    open_key: spec_fn(C, K) -> Result<K, E>,
    decrypt: spec_fn(C, K) -> Result<Seq<u8>, E>,
    n: int,
)
    requires
        encrypt_with_key_run(states, events),
        forall|i: int|
            0 <= i < events.len() ==> answers_encryption(
                states[i],
                #[trigger] events[i],
                parse,
                open_key,
                decrypt,
            ),
        states[0] == match entry_key {
            Some(entry_key) => EncryptWithKey::<K, C, E>::ParseItemKey { keys, entry_key, plaintext },
            None => EncryptWithKey::<K, C, E>::Encrypt { keys, plaintext },
        },
        0 <= n <= events.len(),
    ensures
        match states[n] {
            EncryptWithKey::ParseItemKey { keys: k, entry_key: e, plaintext: p } => k == keys
                && entry_key == Some(e) && p == plaintext,
            EncryptWithKey::DecryptItemKey { keys: k, key_cipher, plaintext: p } => k == keys
                && p == plaintext && entry_key is Some && parse(entry_key->0@) == Ok::<C, E>(
                key_cipher,
            ),
            EncryptWithKey::Encrypt { keys: k, plaintext: p } => p == plaintext && key_in_use(
                keys,
                entry_key,
                k,
                parse,
                open_key,
            ),
            EncryptWithKey::Done(Ok(cipherstring)) => seals(
                cipherstring@,
                plaintext@,
                keys,
                entry_key,
                parse,
                open_key,
                decrypt,
            ),
            EncryptWithKey::Done(Err(_)) => true,
        },
    decreases n,
{
    if n > 0 {
        lemma_encryption_seals(
            states,
            events,
            keys,
            entry_key,
            plaintext,
            parse,
            open_key,
            decrypt,
            n - 1,
        );
        assert(states[n - 1].steps_to(events[n - 1], states[n]));
        assert(answers_encryption(states[n - 1], events[n - 1], parse, open_key, decrypt));
    }
}

proof fn lemma_decryption_opens<K, C, E>(
    states: Seq<DecryptWithKeys<K, C, E>>,
    events: Seq<DecryptWithKeysEvent<K, C, E>>,
    keys: K,
    entry_key: Option<String>,
    plaintext: Seq<char>,
    cipherstring: String,
    parse: spec_fn(Seq<char>) -> Result<C, E>,
    open_key: spec_fn(C, K) -> Result<K, E>,
    decrypt: spec_fn(C, K) -> Result<Seq<u8>, E>,
    n: int,
)
    requires
        decrypt_with_keys_run(states, events),
        forall|i: int|
            0 <= i < events.len() ==> answers_decryption(
                states[i],
                #[trigger] events[i],
                parse,
                open_key,
                decrypt,
            ),
        states[0] == match entry_key {
            Some(entry_key) => DecryptWithKeys::<K, C, E>::ParseItemKey {
                keys,
                cipherstring,
                entry_key,
            },
            None => DecryptWithKeys::<K, C, E>::ParseSecret { keys, cipherstring, item_keys: None },
        },
        seals(cipherstring@, plaintext, keys, entry_key, parse, open_key, decrypt),
        0 <= n <= events.len(),
    ensures
        match states[n] {
            DecryptWithKeys::ParseItemKey { keys: k, cipherstring: c, entry_key: e } => k == keys
                && c == cipherstring && entry_key == Some(e),
            DecryptWithKeys::DecryptItemKey { keys: k, cipherstring: c, key_cipher } => k == keys
                && c == cipherstring && entry_key is Some && parse(entry_key->0@) == Ok::<C, E>(
                key_cipher,
            ),
            DecryptWithKeys::ParseSecret { keys: k, cipherstring: c, item_keys } => c
                == cipherstring && key_in_use(
                keys,
                entry_key,
                if item_keys is Some {
                    item_keys->0
                } else {
                    k
                },
                parse,
                open_key,
            ),
            DecryptWithKeys::DecryptSecret { keys: k, item_keys, cipher } => parse(cipherstring@)
                == Ok::<C, E>(cipher) && key_in_use(
                keys,
                entry_key,
                if item_keys is Some {
                    item_keys->0
                } else {
                    k
                },
                parse,
                open_key,
            ),
            DecryptWithKeys::Done(result) => result matches Ok(text) && text@ == plaintext,
        },
    decreases n,
{
    if n > 0 {
        lemma_decryption_opens(
            states,
            events,
            keys,
            entry_key,
            plaintext,
            cipherstring,
            parse,
            open_key,
            decrypt,
            n - 1,
        );
        assert(states[n - 1].steps_to(events[n - 1], states[n]));
        assert(answers_decryption(states[n - 1], events[n - 1], parse, open_key, decrypt));
        let used = choose|used: K| #[trigger]
            key_in_use(keys, entry_key, used, parse, open_key) && decrypt(
                parse(cipherstring@)->Ok_0,
                used,
            ) == Ok::<Seq<u8>, E>(encode_utf8(plaintext));
        assert(key_in_use(keys, entry_key, used, parse, open_key));
        match (states[n - 1], events[n - 1]) {
            (
                DecryptWithKeys::DecryptSecret { .. },
                DecryptWithKeysEvent::SecretDecrypted(Ok(bytes)),
            ) => {
                law_decryption_gives_the_text_back(states[n - 1], bytes, states[n], plaintext);
            },
            _ => {},
        }
    }
}

/// A text to be decrypted with the keys that the agent holds.
#[derive(Debug, Clone)]
pub struct DecryptRequest {
    pub cipherstring: String,
    pub entry_key: Option<String>,
    pub org_id: Option<String>,
    pub skip_master_password_reprompt: bool,
    /// The program that shows the dialogue, where one is known.
    pub pinentry: Option<String>,
}

/// The SHA-256 digest of some bytes.
pub uninterp spec fn sha256(bytes: Seq<u8>) -> Seq<u8>;

/// `sha2::Sha256`, fed once by `update` and ended by `finalize`, gives the
/// SHA-256 digest of the UTF-8 encoding of the text.
#[verifier::external_body]
fn sha256_of(text: &str) -> (r: [u8; 32])
    ensures
        r@ == sha256(encode_utf8(text@)),
{
    let mut hasher = <sha2::Sha256 as sha2::Digest>::new();
    sha2::Digest::update(&mut hasher, text);
    sha2::Digest::finalize(hasher).into()
}

/// The description of the dialogue before an entry that is marked for it.
pub open spec fn reprompt_description() -> Seq<char> {
    "Accessing this entry requires the master password"@
}

/// A decryption with the keys that the agent holds. The agent lists the entries
/// that need the master password once more, by the digests of their encrypted
/// texts. From `TakeGate` to `Verify` it is one exchange with pinentry.
#[derive(Debug)]
pub enum DecryptCipher<N, K, E> {
    CheckReprompt { request: DecryptRequest },
    LoadEntries { request: DecryptRequest },
    /// Fills the list of digests from the entries.
    SetReprompt { request: DecryptRequest, entries: N },
    LookUp { request: DecryptRequest, digest: [u8; 32] },
    TakeGate { request: DecryptRequest, lock_generation: u64 },
    CheckBeforePrompt { request: DecryptRequest, lock_generation: u64 },
    Verify {
        request: DecryptRequest,
        lock_generation: u64,
        pinentry: String,
        description: String,
    },
    FindKeys { request: DecryptRequest, lock_generation: u64 },
    Decrypt { keys: K, cipherstring: String, entry_key: Option<String> },
    Done(Result<String, Error<E>>),
}

#[derive(Debug)]
pub enum DecryptCipherEvent<N, K, E> {
    /// Whether the list of digests was filled before.
    RepromptChecked(bool),
    EntriesLoaded(Result<N, Error<E>>),
    RepromptSet,
    /// Whether the digest is on the list, and the lock generation at that time.
    LookedUp { listed: bool, lock_generation: u64 },
    GateTaken,
    GenerationChecked(Result<(), E>),
    Verified(Result<(K, OrgKeys<K>), Error<E>>),
    /// Whether the lock generation is still the same, and the keys that the
    /// agent holds for the organisation or the owner, both at one time.
    KeysFound { generation: Result<(), E>, keys: Option<K> },
    Decrypted(Result<String, Error<E>>),
    TimedOut(E),
}

impl<N, K, E> DecryptCipher<N, K, E> {
    /// Whether the exchange with pinentry is under way.
    pub open spec fn in_transaction(self) -> bool {
        self is TakeGate || self is CheckBeforePrompt || self is Verify
    }

    /// Whether the digest of the text is looked up next.
    pub open spec fn looks_up(self, wish: DecryptRequest) -> bool {
        &&& self matches DecryptCipher::LookUp { request, digest }
        &&& request == wish
        &&& digest@ == sha256(encode_utf8(wish.cipherstring@))
    }

    /// Where an event leads. One that the state does not wait for changes
    /// nothing.
    pub open spec fn steps_to(self, event: DecryptCipherEvent<N, K, E>, after: Self) -> bool {
        if event is TimedOut && self.in_transaction() {
            after == Self::Done(
                Err(Error::Caused(Failure::PinentryTimedOut, event->TimedOut_0)),
            )
        } else {
            match (self, event) {
                (
                    DecryptCipher::CheckReprompt { request },
                    DecryptCipherEvent::RepromptChecked(initialized),
                ) => if initialized {
                    after.looks_up(request)
                } else {
                    after == (Self::LoadEntries { request })
                },
                (
                    DecryptCipher::LoadEntries { request },
                    DecryptCipherEvent::EntriesLoaded(result),
                ) => after == match result {
                    Ok(entries) => Self::SetReprompt { request, entries },
                    Err(error) => Self::Done(Err(error)),
                },
                (DecryptCipher::SetReprompt { request, .. }, DecryptCipherEvent::RepromptSet) => {
                    after.looks_up(request)
                },
                (
                    DecryptCipher::LookUp { request, .. },
                    DecryptCipherEvent::LookedUp { listed, lock_generation },
                ) => after == if listed && !request.skip_master_password_reprompt {
                    Self::TakeGate { request, lock_generation }
                } else {
                    Self::FindKeys { request, lock_generation }
                },
                (
                    DecryptCipher::TakeGate { request, lock_generation },
                    DecryptCipherEvent::GateTaken,
                ) => after == (Self::CheckBeforePrompt { request, lock_generation }),
                (
                    DecryptCipher::CheckBeforePrompt { request: wish, lock_generation: generation },
                    DecryptCipherEvent::GenerationChecked(result),
                ) => match result {
                    Err(error) => after == Self::Done(
                        Err(Error::Caused(Failure::EntryAccessInvalidatedBeforePrompt, error)),
                    ),
                    Ok(_) => match wish.pinentry {
                        None => after == Self::Done(
                            Err(Error::Refused(Failure::RepromptNeedsPinentry)),
                        ),
                        Some(program) => {
                            &&& after matches DecryptCipher::Verify {
                                request,
                                lock_generation,
                                pinentry,
                                description,
                            }
                            &&& request == (DecryptRequest { pinentry: None, ..wish })
                            &&& lock_generation == generation
                            &&& pinentry == program
                            &&& description@ == reprompt_description()
                        },
                    },
                },
                (
                    DecryptCipher::Verify { request, lock_generation, .. },
                    DecryptCipherEvent::Verified(result),
                ) => after == match result {
                    Ok(_) => Self::FindKeys { request, lock_generation },
                    Err(error) => Self::Done(Err(error)),
                },
                (
                    DecryptCipher::FindKeys { request, .. },
                    DecryptCipherEvent::KeysFound { generation, keys },
                ) => after == match generation {
                    Err(error) => Self::Done(
                        Err(Error::Caused(Failure::EntryAccessInvalidated, error)),
                    ),
                    Ok(_) => match keys {
                        None => Self::Done(Err(Error::Refused(Failure::MissingDecryptionKeys))),
                        Some(keys) => Self::Decrypt {
                            keys,
                            cipherstring: request.cipherstring,
                            entry_key: request.entry_key,
                        },
                    },
                },
                (DecryptCipher::Decrypt { .. }, DecryptCipherEvent::Decrypted(result)) => {
                    after == Self::Done(result)
                },
                _ => after == self,
            }
        }
    }

    /// The lock generation that the decryption rests on, once it was read.
    pub open spec fn generation(self) -> Option<u64> {
        match self {
            DecryptCipher::TakeGate { lock_generation, .. } => Some(lock_generation),
            DecryptCipher::CheckBeforePrompt { lock_generation, .. } => Some(lock_generation),
            DecryptCipher::Verify { lock_generation, .. } => Some(lock_generation),
            DecryptCipher::FindKeys { lock_generation, .. } => Some(lock_generation),
            _ => None,
        }
    }
}

fn look_up<N, K, E>(request: DecryptRequest) -> (r: DecryptCipher<N, K, E>)
    ensures
        r.looks_up(request),
{
    let digest = sha256_of(request.cipherstring.as_str());
    DecryptCipher::LookUp { request, digest }
}

/// Moves a decryption with the keys that the agent holds on.
pub fn decrypt_cipher<N, K, E>(
    state: DecryptCipher<N, K, E>,
    event: DecryptCipherEvent<N, K, E>,
) -> (after: DecryptCipher<N, K, E>)
    ensures
        state.steps_to(event, after),
{
    match (state, event) {
        (
            DecryptCipher::CheckReprompt { request },
            DecryptCipherEvent::RepromptChecked(initialized),
        ) => if initialized {
            look_up(request)
        } else {
            DecryptCipher::LoadEntries { request }
        },
        (DecryptCipher::LoadEntries { request }, DecryptCipherEvent::EntriesLoaded(result)) => {
            match result {
                Ok(entries) => DecryptCipher::SetReprompt { request, entries },
                Err(error) => DecryptCipher::Done(Err(error)),
            }
        },
        (DecryptCipher::SetReprompt { request, .. }, DecryptCipherEvent::RepromptSet) => {
            look_up(request)
        },
        (
            DecryptCipher::LookUp { request, .. },
            DecryptCipherEvent::LookedUp { listed, lock_generation },
        ) => {
            let requires_reprompt = !request.skip_master_password_reprompt && listed;
            if requires_reprompt {
                DecryptCipher::TakeGate { request, lock_generation }
            } else {
                DecryptCipher::FindKeys { request, lock_generation }
            }
        },
        (DecryptCipher::TakeGate { request, lock_generation }, DecryptCipherEvent::GateTaken) => {
            DecryptCipher::CheckBeforePrompt { request, lock_generation }
        },
        (
            DecryptCipher::CheckBeforePrompt { request, lock_generation },
            DecryptCipherEvent::GenerationChecked(result),
        ) => match result {
            Err(error) => DecryptCipher::Done(
                Err(Error::Caused(Failure::EntryAccessInvalidatedBeforePrompt, error)),
            ),
            Ok(_) => {
                let mut request = request;
                match request.pinentry {
                    None => DecryptCipher::Done(Err(Error::Refused(Failure::RepromptNeedsPinentry))),
                    Some(pinentry) => {
                        request.pinentry = None;
                        DecryptCipher::Verify {
                            request,
                            lock_generation,
                            pinentry,
                            description: "Accessing this entry requires the master password".to_owned(),
                        }
                    },
                }
            },
        },
        (
            DecryptCipher::Verify { request, lock_generation, .. },
            DecryptCipherEvent::Verified(result),
        ) => match result {
            Ok(_) => DecryptCipher::FindKeys { request, lock_generation },
            Err(error) => DecryptCipher::Done(Err(error)),
        },
        (
            DecryptCipher::FindKeys { request, .. },
            DecryptCipherEvent::KeysFound { generation, keys },
        ) => match generation {
            Err(error) => DecryptCipher::Done(
                Err(Error::Caused(Failure::EntryAccessInvalidated, error)),
            ),
            Ok(_) => match keys {
                None => DecryptCipher::Done(Err(Error::Refused(Failure::MissingDecryptionKeys))),
                Some(keys) => DecryptCipher::Decrypt {
                    keys,
                    cipherstring: request.cipherstring,
                    entry_key: request.entry_key,
                },
            },
        },
        (DecryptCipher::Decrypt { .. }, DecryptCipherEvent::Decrypted(result)) => {
            DecryptCipher::Done(result)
        },
        (
            DecryptCipher::TakeGate { .. }
            | DecryptCipher::CheckBeforePrompt { .. }
            | DecryptCipher::Verify { .. },
            DecryptCipherEvent::TimedOut(elapsed),
        ) => DecryptCipher::Done(Err(Error::Caused(Failure::PinentryTimedOut, elapsed))),
        (state, _) => state,
    }
}

/// Whether `events` lead through `states` one after the other.
pub open spec fn decryption_run<N, K, E>(
    states: Seq<DecryptCipher<N, K, E>>,
    events: Seq<DecryptCipherEvent<N, K, E>>,
) -> bool {
    &&& states.len() == events.len() + 1
    &&& forall|i: int|
        0 <= i < events.len() ==> states[i].steps_to(#[trigger] events[i], states[i + 1])
}

/// Whether the event finds the entry marked for another prompt.
pub open spec fn finds_marked<N, K, E>(
    state: DecryptCipher<N, K, E>,
    event: DecryptCipherEvent<N, K, E>,
) -> bool {
    &&& state matches DecryptCipher::LookUp { request, .. }
    &&& !request.skip_master_password_reprompt
    &&& event matches DecryptCipherEvent::LookedUp { listed, .. }
    &&& listed
}

/// Whether the event verifies the master password.
pub open spec fn verifies<N, K, E>(
    state: DecryptCipher<N, K, E>,
    event: DecryptCipherEvent<N, K, E>,
) -> bool {
    &&& state is Verify
    &&& event matches DecryptCipherEvent::Verified(result)
    &&& result is Ok
}

/// An entry that is marked for another prompt is decrypted only once the master
/// password was verified for it.
pub proof fn law_marked_entry_needs_the_password<N, K, E>(
    states: Seq<DecryptCipher<N, K, E>>,
    events: Seq<DecryptCipherEvent<N, K, E>>,
    marked: int,
    n: int,
)
    requires
        decryption_run(states, events),
        0 <= marked < n <= events.len(),
        finds_marked(states[marked], events[marked]),
        states[n] is Decrypt || states[n] matches DecryptCipher::Done(Ok(_)),
    ensures
        exists|i: int| marked < i < n && verifies(states[i], #[trigger] events[i]),
{
    lemma_marked_entry_waits(states, events, marked, n);
}

proof fn lemma_marked_entry_waits<N, K, E>(
    states: Seq<DecryptCipher<N, K, E>>,
    events: Seq<DecryptCipherEvent<N, K, E>>,
    marked: int,
    n: int,
)
    requires
        decryption_run(states, events),
        0 <= marked < n <= events.len(),
        finds_marked(states[marked], events[marked]),
    ensures
        states[n].in_transaction() || states[n] matches DecryptCipher::Done(Err(_)) || exists|i:
            int| marked < i < n && verifies(states[i], #[trigger] events[i]),
    decreases n,
{
    assert(states[n - 1].steps_to(events[n - 1], states[n]));
    if n - 1 > marked {
        lemma_marked_entry_waits(states, events, marked, n - 1);
        if states[n - 1].in_transaction() {
            if verifies(states[n - 1], events[n - 1]) {
                let i = n - 1;
                assert(marked < i < n && verifies(states[i], events[i]));
            }
        } else if !(states[n - 1] matches DecryptCipher::Done(Err(_))) {
            let i = choose|i: int|
                marked < i < n - 1 && verifies(states[i], #[trigger] events[i]);
            assert(marked < i < n && verifies(states[i], events[i]));
        }
    }
}

/// A text is decrypted only while the lock generation is the one under which the
/// decryption began.
pub proof fn law_decryption_rests_on_one_generation<N, K, E>(
    states: Seq<DecryptCipher<N, K, E>>,
    events: Seq<DecryptCipherEvent<N, K, E>>,
    looked_up: int,
    n: int,
)
    requires
        decryption_run(states, events),
        0 <= looked_up < n <= events.len(),
        states[looked_up] is LookUp,
        events[looked_up] is LookedUp,
        states[n] is Decrypt || states[n] matches DecryptCipher::Done(Ok(_)),
    ensures
        exists|i: int|
            looked_up < i < n && (#[trigger] events[i]) is KeysFound
                && events[i]->KeysFound_generation is Ok && states[i] is FindKeys
                && states[i].generation() == Some(events[looked_up]->LookedUp_lock_generation),
{
    lemma_keys_wait_for_the_generation(states, events, looked_up, n);
}

proof fn lemma_keys_wait_for_the_generation<N, K, E>(
    states: Seq<DecryptCipher<N, K, E>>,
    events: Seq<DecryptCipherEvent<N, K, E>>,
    looked_up: int,
    n: int,
)
    requires
        decryption_run(states, events),
        0 <= looked_up < n <= events.len(),
        states[looked_up] is LookUp,
        events[looked_up] is LookedUp,
    ensures
        states[n].generation() == Some(events[looked_up]->LookedUp_lock_generation)
            || states[n] matches DecryptCipher::Done(Err(_)) || exists|i: int|
            looked_up < i < n && (#[trigger] events[i]) is KeysFound
                && events[i]->KeysFound_generation is Ok && states[i] is FindKeys
                && states[i].generation() == Some(events[looked_up]->LookedUp_lock_generation),
    decreases n,
{
    assert(states[n - 1].steps_to(events[n - 1], states[n]));
    if n - 1 > looked_up {
        lemma_keys_wait_for_the_generation(states, events, looked_up, n - 1);
        let generation = Some(events[looked_up]->LookedUp_lock_generation);
        if states[n - 1].generation() == generation {
            if events[n - 1] is KeysFound && states[n - 1] is FindKeys {
                let i = n - 1;
                assert(events[i] is KeysFound);
            }
        } else if !(states[n - 1] matches DecryptCipher::Done(Err(_))) {
            let i = choose|i: int|
                looked_up < i < n - 1 && (#[trigger] events[i]) is KeysFound
                    && events[i]->KeysFound_generation is Ok && states[i] is FindKeys
                    && states[i].generation() == generation;
            assert(events[i] is KeysFound);
        }
    }
}

/// The request to decrypt a text.
#[derive(Debug)]
pub enum Decrypt<E> {
    LoadPinentry { cipherstring: String, entry_key: Option<String>, org_id: Option<String> },
    Decrypt { request: DecryptRequest },
    Respond { plaintext: String },
    Done(Result<(), Error<E>>),
}

#[derive(Debug)]
pub enum DecryptEvent<E> {
    PinentryLoaded(Result<String, E>),
    Decrypted(Result<String, Error<E>>),
    Responded(Result<(), E>),
}

impl<E> Decrypt<E> {
    /// Where an event leads. One that the state does not wait for changes
    /// nothing.
    pub open spec fn steps_to(self, event: DecryptEvent<E>, after: Self) -> bool {
        match (self, event) {
            (
                Decrypt::LoadPinentry { cipherstring, entry_key, org_id },
                DecryptEvent::PinentryLoaded(result),
            ) => after == match result {
                Ok(pinentry) => Self::Decrypt {
                    request: DecryptRequest {
                        cipherstring,
                        entry_key,
                        org_id,
                        skip_master_password_reprompt: false,
                        pinentry: Some(pinentry),
                    },
                },
                Err(error) => Self::Done(Err(Error::Forwarded(error))),
            },
            (Decrypt::Decrypt { .. }, DecryptEvent::Decrypted(result)) => after == match result {
                Ok(plaintext) => Self::Respond { plaintext },
                Err(error) => Self::Done(Err(error)),
            },
            (Decrypt::Respond { .. }, DecryptEvent::Responded(result)) => after == Self::Done(
                match result {
                    Ok(_) => Ok(()),
                    Err(error) => Err(Error::Forwarded(error)),
                },
            ),
            _ => after == self,
        }
    }
}

/// Moves a request to decrypt a text on.
pub fn decrypt<E>(state: Decrypt<E>, event: DecryptEvent<E>) -> (after: Decrypt<E>)
    ensures
        state.steps_to(event, after),
{
    match (state, event) {
        (
            Decrypt::LoadPinentry { cipherstring, entry_key, org_id },
            DecryptEvent::PinentryLoaded(result),
        ) => match result {
            Ok(pinentry) => Decrypt::Decrypt {
                request: DecryptRequest {
                    cipherstring,
                    entry_key,
                    org_id,
                    skip_master_password_reprompt: false,
                    pinentry: Some(pinentry),
                },
            },
            Err(error) => Decrypt::Done(Err(Error::Forwarded(error))),
        },
        (Decrypt::Decrypt { .. }, DecryptEvent::Decrypted(result)) => match result {
            Ok(plaintext) => Decrypt::Respond { plaintext },
            Err(error) => Decrypt::Done(Err(error)),
        },
        (Decrypt::Respond { .. }, DecryptEvent::Responded(result)) => match result {
            Ok(_) => Decrypt::Done(Ok(())),
            Err(error) => Decrypt::Done(Err(Error::Forwarded(error))),
        },
        (state, _) => state,
    }
}

/// The request to encrypt a text.
#[derive(Debug)]
pub enum Encrypt<K, E> {
    FindKeys { plaintext: String, org_id: Option<String>, entry_key: Option<String> },
    Encrypt { keys: K, entry_key: Option<String>, plaintext: String },
    Respond { cipherstring: String },
    Done(Result<(), Error<E>>),
}

#[derive(Debug)]
pub enum EncryptEvent<K, E> {
    KeysFound(Option<K>),
    Encrypted(Result<String, Error<E>>),
    Responded(Result<(), E>),
}

impl<K, E> Encrypt<K, E> {
    /// Where an event leads. One that the state does not wait for changes
    /// nothing.
    pub open spec fn steps_to(self, event: EncryptEvent<K, E>, after: Self) -> bool {
        match (self, event) {
            (
                Encrypt::FindKeys { plaintext, entry_key, .. },
                EncryptEvent::KeysFound(found),
            ) => after == match found {
                Some(keys) => Self::Encrypt { keys, entry_key, plaintext },
                None => Self::Done(Err(Error::Refused(Failure::MissingEncryptionKeys))),
            },
            (Encrypt::Encrypt { .. }, EncryptEvent::Encrypted(result)) => after == match result {
                Ok(cipherstring) => Self::Respond { cipherstring },
                Err(error) => Self::Done(Err(error)),
            },
            (Encrypt::Respond { .. }, EncryptEvent::Responded(result)) => after == Self::Done(
                match result {
                    Ok(_) => Ok(()),
                    Err(error) => Err(Error::Forwarded(error)),
                },
            ),
            _ => after == self,
        }
    }
}

/// Moves a request to encrypt a text on.
pub fn encrypt<K, E>(state: Encrypt<K, E>, event: EncryptEvent<K, E>) -> (after: Encrypt<K, E>)
    ensures
        state.steps_to(event, after),
{
    match (state, event) {
        (Encrypt::FindKeys { plaintext, entry_key, .. }, EncryptEvent::KeysFound(found)) => {
            match found {
                Some(keys) => Encrypt::Encrypt { keys, entry_key, plaintext },
                None => Encrypt::Done(Err(Error::Refused(Failure::MissingEncryptionKeys))),
            }
        },
        (Encrypt::Encrypt { .. }, EncryptEvent::Encrypted(result)) => match result {
            Ok(cipherstring) => Encrypt::Respond { cipherstring },
            Err(error) => Encrypt::Done(Err(error)),
        },
        (Encrypt::Respond { .. }, EncryptEvent::Responded(result)) => match result {
            Ok(_) => Encrypt::Done(Ok(())),
            Err(error) => Encrypt::Done(Err(Error::Forwarded(error))),
        },
        (state, _) => state,
    }
}

/// How a text of an SSH key is decrypted.
#[derive(Debug)]
pub enum SshDecryption<'a, K> {
    /// With keys that came with the permission to sign.
    WithKeys(&'a K),
    /// With the keys that the agent holds.
    WithRequest(DecryptRequest),
}

/// Whether `r` is how a text of an SSH key is decrypted.
pub open spec fn opens_ssh_text<K>(
    authorization: SshAuthorization<K>,
    pinentry: Option<Seq<char>>,
    cipherstring: Seq<char>,
    entry_key: Option<Seq<char>>,
    org_id: Option<Seq<char>>,
    r: SshDecryption<K>,
) -> bool {
    match keys_for(authorization.keys, authorization.org_map(), org_id) {
        Some(keys) => r matches SshDecryption::WithKeys(k) && *k == keys,
        None => {
            &&& r matches SshDecryption::WithRequest(request)
            &&& request.cipherstring@ == cipherstring
            &&& request.entry_key.deep_view() == entry_key
            &&& request.org_id.deep_view() == org_id
            &&& !request.skip_master_password_reprompt
            &&& request.pinentry.deep_view() == pinentry
        },
    }
}

/// Chooses how a text of an SSH key is decrypted: with the keys of the
/// permission where it has some for the organisation or the owner.
pub fn decrypt_ssh_cipher<'a, K>(
    authorization: &'a SshAuthorization<K>,
    pinentry: Option<&str>,
    cipherstring: &str,
    entry_key: Option<&str>,
    org_id: Option<&str>,
) -> (r: SshDecryption<'a, K>)
    ensures
        opens_ssh_text(
            *authorization,
            pinentry.deep_view(),
            cipherstring@,
            entry_key.deep_view(),
            org_id.deep_view(),
            r,
        ),
{
    match authorization.key(org_id) {
        Some(keys) => SshDecryption::WithKeys(keys),
        None => SshDecryption::WithRequest(
            DecryptRequest {
                cipherstring: cipherstring.to_owned(),
                entry_key: owned(entry_key),
                org_id: owned(org_id),
                skip_master_password_reprompt: false,
                pinentry: owned(pinentry),
            },
        ),
    }
}

fn owned(text: Option<&str>) -> (r: Option<String>)
    ensures
        r.deep_view() == text.deep_view(),
{
    match text {
        Some(text) => Some(text.to_owned()),
        None => None,
    }
}

} // verus!
