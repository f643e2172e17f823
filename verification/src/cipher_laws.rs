//! What holds of every decryption and encryption for a client.
use vstd::prelude::*;
use vstd::utf8::*;
use crate::cipher::{
    decryption_run, sha256, Decrypt, DecryptCipher, DecryptCipherEvent, DecryptEvent,
    DecryptRequest, DecryptWithKeys, DecryptWithKeysEvent, Encrypt, EncryptEvent, EncryptWithKey,
    EncryptWithKeyEvent,
};
use crate::db::OrgKeys;
use crate::error::{Error, Failure};
use crate::unicode;

verus! {

/// A decryption with given keys fails only where the key of the entry or the text
/// could not be parsed or decrypted, or where what was decrypted is no UTF-8; and
/// the error says which.
pub proof fn law_failed_decryption_says_why<K, C, E>(
    state: DecryptWithKeys<K, C, E>,
    event: DecryptWithKeysEvent<K, C, E>,
    after: DecryptWithKeys<K, C, E>,
    error: Error<E>,
)
    requires
        state.steps_to(event, after),
        !(state is Done),
        after == DecryptWithKeys::<K, C, E>::Done(Err(error)),
    ensures
        match event {
            DecryptWithKeysEvent::ItemKeyParsed(result) => state is ParseItemKey && (
            result matches Err(cause) && error == Error::Caused(Failure::ParseItemKey, cause)),
            DecryptWithKeysEvent::ItemKeyDecrypted(result) => state is DecryptItemKey && (
            result matches Err(cause) && error == Error::Caused(Failure::DecryptItemKey, cause)),
            DecryptWithKeysEvent::SecretParsed(result) => state is ParseSecret && (
            result matches Err(cause) && error == Error::Caused(Failure::ParseSecret, cause)),
            DecryptWithKeysEvent::SecretDecrypted(result) => state is DecryptSecret && match result {
                Ok(bytes) => {
                    &&& !valid_utf8(bytes@)
                    &&& error matches Error::Explained(Failure::SecretNotUtf8, message)
                    &&& message@ == unicode::utf8_error(bytes@)
                },
                Err(cause) => error == Error::Caused(Failure::DecryptSecret, cause),
            },
        },
{
}

/// A text is what the decrypted bytes encode, so that encoding it gives the bytes
/// back.
pub proof fn law_decrypted_bytes_are_the_text<K, C, E>(
    state: DecryptWithKeys<K, C, E>,
    event: DecryptWithKeysEvent<K, C, E>,
    after: DecryptWithKeys<K, C, E>,
    text: String,
)
    requires
        state.steps_to(event, after),
        !(state is Done),
        after == DecryptWithKeys::<K, C, E>::Done(Ok(text)),
    ensures
        state is DecryptSecret,
        event matches DecryptWithKeysEvent::SecretDecrypted(Ok(bytes)) && encode_utf8(text@)
            == bytes@,
{
    if let DecryptWithKeysEvent::SecretDecrypted(Ok(bytes)) = event {
        decode_utf8_encode_utf8(bytes@);
    }
}

/// An encryption fails only where the key of the entry could not be parsed or
/// decrypted, or the text could not be encrypted; and the error says which.
pub proof fn law_failed_encryption_says_why<K, C, E>(
    state: EncryptWithKey<K, C, E>,
    event: EncryptWithKeyEvent<K, C, E>,
    after: EncryptWithKey<K, C, E>,
    error: Error<E>,
)
    requires
        state.steps_to(event, after),
        !(state is Done),
        after == EncryptWithKey::<K, C, E>::Done(Err(error)),
    ensures
        match event {
            EncryptWithKeyEvent::ItemKeyParsed(result) => state is ParseItemKey && (
            result matches Err(cause) && error == Error::Caused(Failure::ParseItemKey, cause)),
            EncryptWithKeyEvent::ItemKeyDecrypted(result) => state is DecryptItemKey && (
            result matches Err(cause) && error == Error::Caused(Failure::DecryptItemKey, cause)),
            EncryptWithKeyEvent::Encrypted(result) => state is Encrypt && (result matches Err(cause)
                && error == Error::Caused(Failure::EncryptSecret, cause)),
        },
{
}

/// An encryption that succeeds yields the very text that the cipher gave.
pub proof fn law_encrypted_text_is_handed_on<K, C, E>(
    state: EncryptWithKey<K, C, E>,
    event: EncryptWithKeyEvent<K, C, E>,
    after: EncryptWithKey<K, C, E>,
    cipherstring: String,
)
    requires
        state.steps_to(event, after),
        !(state is Done),
        after == EncryptWithKey::<K, C, E>::Done(Ok(cipherstring)),
    ensures
        state is Encrypt,
        event == EncryptWithKeyEvent::<K, C, E>::Encrypted(Ok(cipherstring)),
{
}

/// Whether the two requests are for the same text of the same entry.
pub open spec fn same_text(a: DecryptRequest, b: DecryptRequest) -> bool {
    &&& a.cipherstring == b.cipherstring
    &&& a.entry_key == b.entry_key
    &&& a.org_id == b.org_id
    &&& a.skip_master_password_reprompt == b.skip_master_password_reprompt
}

/// Whatever happens in a decryption, what is looked up, asked for and decrypted is
/// the text that was requested, with the key of its entry and for its
/// organisation. A dialogue is shown by the program that the request names.
pub proof fn law_requested_text_is_decrypted<N, K, E>(
    states: Seq<DecryptCipher<N, K, E>>,
    events: Seq<DecryptCipherEvent<N, K, E>>,
    wish: DecryptRequest,
    n: int,
)
    requires
        decryption_run(states, events),
        states[0] == (DecryptCipher::<N, K, E>::CheckReprompt { request: wish }),
        0 <= n <= events.len(),
    ensures
        match states[n] {
            DecryptCipher::CheckReprompt { request } => request == wish,
            DecryptCipher::LoadEntries { request } => request == wish,
            DecryptCipher::SetReprompt { request, .. } => request == wish,
            DecryptCipher::LookUp { request, digest } => request == wish && digest@ == sha256(
                encode_utf8(wish.cipherstring@),
            ),
            DecryptCipher::TakeGate { request, .. } => request == wish,
            DecryptCipher::CheckBeforePrompt { request, .. } => request == wish,
            DecryptCipher::Verify { request, pinentry, description, .. } => {
                &&& same_text(request, wish)
                &&& wish.pinentry == Some(pinentry)
                &&& description@ == "Accessing this entry requires the master password"@
            },
            DecryptCipher::FindKeys { request, .. } => same_text(request, wish),
            DecryptCipher::Decrypt { cipherstring, entry_key, .. } => {
                &&& cipherstring == wish.cipherstring
                &&& entry_key == wish.entry_key
            },
            DecryptCipher::Done(_) => true,
        },
    decreases n,
{
    if n > 0 {
        law_requested_text_is_decrypted(states, events, wish, n - 1);
        assert(states[n - 1].steps_to(events[n - 1], states[n]));
    }
}

/// The text that a decryption yields was decrypted with keys that the agent held
/// for the request, while the lock generation was unchanged.
pub proof fn law_text_was_decrypted_with_held_keys<N, K, E>(
    states: Seq<DecryptCipher<N, K, E>>,
    events: Seq<DecryptCipherEvent<N, K, E>>,
    text: String,
    n: int,
) -> (r: (int, int))
    requires
        decryption_run(states, events),
        states[0] is CheckReprompt,
        0 <= n <= events.len(),
        states[n] == DecryptCipher::<N, K, E>::Done(Ok(text)),
    ensures
        0 <= r.0 < r.1 < n,
        states[r.0] is FindKeys,
        states[r.1] is Decrypt,
        events[r.0] matches DecryptCipherEvent::KeysFound { generation: Ok(_), keys } && keys
            == Some(states[r.1]->Decrypt_keys),
        events[r.1] == DecryptCipherEvent::<N, K, E>::Decrypted(Ok(text)),
    decreases n,
{
    assert(states[n - 1].steps_to(events[n - 1], states[n]));
    if states[n - 1] is Decrypt {
        let i = lemma_keys_were_found(states, events, n - 1);
        (i, n - 1)
    } else {
        law_text_was_decrypted_with_held_keys(states, events, text, n - 1)
    }
}

proof fn lemma_keys_were_found<N, K, E>(
    states: Seq<DecryptCipher<N, K, E>>,
    events: Seq<DecryptCipherEvent<N, K, E>>,
    n: int,
) -> (i: int)
    requires
        decryption_run(states, events),
        states[0] is CheckReprompt,
        0 <= n <= events.len(),
        states[n] is Decrypt,
    ensures
        0 <= i < n,
        states[i] is FindKeys,
        events[i] matches DecryptCipherEvent::KeysFound { generation: Ok(_), keys } && keys
            == Some(states[n]->Decrypt_keys),
    decreases n,
{
    assert(states[n - 1].steps_to(events[n - 1], states[n]));
    if states[n - 1] is FindKeys {
        n - 1
    } else {
        lemma_keys_were_found(states, events, n - 1)
    }
}

/// A decryption asks for the master password only if the text was found on the
/// list, and the request does not skip the question.
pub proof fn law_only_marked_entries_are_asked_for<N, K, E>(
    states: Seq<DecryptCipher<N, K, E>>,
    events: Seq<DecryptCipherEvent<N, K, E>>,
    n: int,
) -> (i: int)
    requires
        decryption_run(states, events),
        states[0] is CheckReprompt,
        0 <= n <= events.len(),
        states[n] is TakeGate || states[n] is CheckBeforePrompt || states[n] is Verify,
    ensures
        0 <= i < n,
        states[i] matches DecryptCipher::LookUp { request, .. }
            && !request.skip_master_password_reprompt,
        events[i] matches DecryptCipherEvent::LookedUp { listed: true, .. },
    decreases n,
{
    assert(states[n - 1].steps_to(events[n - 1], states[n]));
    if states[n - 1] is LookUp {
        n - 1
    } else {
        law_only_marked_entries_are_asked_for(states, events, n - 1)
    }
}

/// The list is filled from the entries of the database before a text is looked up
/// on it, unless it was filled before.
pub proof fn law_list_is_filled_before_it_is_used<N, K, E>(
    states: Seq<DecryptCipher<N, K, E>>,
    events: Seq<DecryptCipherEvent<N, K, E>>,
    n: int,
) -> (r: (int, int))
    requires
        decryption_run(states, events),
        states[0] is CheckReprompt,
        0 <= n <= events.len(),
        states[n] is LookUp,
    ensures
        ({
            ||| 0 <= r.0 < n && states[r.0] is CheckReprompt && events[r.0]
                == DecryptCipherEvent::<N, K, E>::RepromptChecked(true)
            ||| 0 <= r.0 < r.1 < n && states[r.0] is LoadEntries && states[r.1] is SetReprompt
                && events[r.0] == DecryptCipherEvent::<N, K, E>::EntriesLoaded(
                Ok(states[r.1]->SetReprompt_entries),
            ) && events[r.1] is RepromptSet
        }),
    decreases n,
{
    assert(states[n - 1].steps_to(events[n - 1], states[n]));
    if states[n - 1] is CheckReprompt {
        (n - 1, n - 1)
    } else if states[n - 1] is SetReprompt {
        let i = lemma_entries_were_loaded(states, events, n - 1);
        (i, n - 1)
    } else {
        law_list_is_filled_before_it_is_used(states, events, n - 1)
    }
}

proof fn lemma_entries_were_loaded<N, K, E>(
    states: Seq<DecryptCipher<N, K, E>>,
    events: Seq<DecryptCipherEvent<N, K, E>>,
    n: int,
) -> (i: int)
    requires
        decryption_run(states, events),
        states[0] is CheckReprompt,
        0 <= n <= events.len(),
        states[n] is SetReprompt,
    ensures
        0 <= i < n,
        states[i] is LoadEntries,
        events[i] == DecryptCipherEvent::<N, K, E>::EntriesLoaded(
            Ok(states[n]->SetReprompt_entries),
        ),
    decreases n,
{
    assert(states[n - 1].steps_to(events[n - 1], states[n]));
    if states[n - 1] is LoadEntries {
        n - 1
    } else {
        lemma_entries_were_loaded(states, events, n - 1)
    }
}

/// A text that is not marked, or for which the question is skipped, is decrypted
/// without a dialogue, with the keys that the agent holds.
pub proof fn law_unmarked_text_is_decrypted<N, K, E>(
    wish: DecryptRequest,
    listed: bool,
    generation: u64,
    keys: K,
    text: String,
    s: Seq<DecryptCipher<N, K, E>>,
)
    requires
        s.len() == 5,
        !listed || wish.skip_master_password_reprompt,
        s[0] == (DecryptCipher::<N, K, E>::CheckReprompt { request: wish }),
        s[0].steps_to(DecryptCipherEvent::RepromptChecked(true), s[1]),
        s[1].steps_to(
            DecryptCipherEvent::LookedUp { listed, lock_generation: generation },
            s[2],
        ),
        s[2].steps_to(
            DecryptCipherEvent::KeysFound { generation: Ok(()), keys: Some(keys) },
            s[3],
        ),
        s[3].steps_to(DecryptCipherEvent::Decrypted(Ok(text)), s[4]),
    ensures
        s[2] == (DecryptCipher::<N, K, E>::FindKeys { request: wish, lock_generation: generation }),
        s[3] == (DecryptCipher::<N, K, E>::Decrypt {
            keys,
            cipherstring: wish.cipherstring,
            entry_key: wish.entry_key,
        }),
        s[4] == DecryptCipher::<N, K, E>::Done(Ok(text)),
{
}

/// A text that is marked is decrypted once the master password was verified in a
/// dialogue.
pub proof fn law_marked_text_is_decrypted<N, K, E>(
    wish: DecryptRequest,
    program: String,
    generation: u64,
    verified: (K, OrgKeys<K>),
    keys: K,
    text: String,
    s: Seq<DecryptCipher<N, K, E>>,
)
    requires
        s.len() == 8,
        !wish.skip_master_password_reprompt,
        wish.pinentry == Some(program),
        s[0] == (DecryptCipher::<N, K, E>::CheckReprompt { request: wish }),
        s[0].steps_to(DecryptCipherEvent::RepromptChecked(true), s[1]),
        s[1].steps_to(
            DecryptCipherEvent::LookedUp { listed: true, lock_generation: generation },
            s[2],
        ),
        s[2].steps_to(DecryptCipherEvent::GateTaken, s[3]),
        s[3].steps_to(DecryptCipherEvent::GenerationChecked(Ok(())), s[4]),
        s[4].steps_to(DecryptCipherEvent::Verified(Ok(verified)), s[5]),
        s[5].steps_to(
            DecryptCipherEvent::KeysFound { generation: Ok(()), keys: Some(keys) },
            s[6],
        ),
        s[6].steps_to(DecryptCipherEvent::Decrypted(Ok(text)), s[7]),
    ensures
        s[4] matches DecryptCipher::Verify { pinentry, lock_generation, .. } && pinentry == program
            && lock_generation == generation,
        s[6] == (DecryptCipher::<N, K, E>::Decrypt {
            keys,
            cipherstring: wish.cipherstring,
            entry_key: wish.entry_key,
        }),
        s[7] == DecryptCipher::<N, K, E>::Done(Ok(text)),
{
}

/// A decryption fails only where something it needs could not be had, the lock
/// generation changed, or the dialogue failed or took too long; and the error
/// says which.
pub proof fn law_failed_access_says_why<N, K, E>(
    state: DecryptCipher<N, K, E>,
    event: DecryptCipherEvent<N, K, E>,
    after: DecryptCipher<N, K, E>,
    error: Error<E>,
)
    requires
        state.steps_to(event, after),
        !(state is Done),
        after == DecryptCipher::<N, K, E>::Done(Err(error)),
    ensures
        match event {
            DecryptCipherEvent::EntriesLoaded(result) => state is LoadEntries && result == Err::<
                N,
                Error<E>,
            >(error),
            DecryptCipherEvent::GenerationChecked(result) => {
                &&& state matches DecryptCipher::CheckBeforePrompt { request, .. }
                &&& match result {
                    Ok(_) => request.pinentry is None && error == Error::<E>::Refused(
                        Failure::RepromptNeedsPinentry,
                    ),
                    Err(cause) => error == Error::Caused(
                        Failure::EntryAccessInvalidatedBeforePrompt,
                        cause,
                    ),
                }
            },
            DecryptCipherEvent::Verified(result) => state is Verify && result == Err::<
                (K, OrgKeys<K>),
                Error<E>,
            >(error),
            DecryptCipherEvent::KeysFound { generation, keys } => state is FindKeys
                && match generation {
                Ok(_) => keys is None && error == Error::<E>::Refused(
                    Failure::MissingDecryptionKeys,
                ),
                Err(cause) => error == Error::Caused(Failure::EntryAccessInvalidated, cause),
            },
            DecryptCipherEvent::Decrypted(result) => state is Decrypt && result == Err::<
                String,
                Error<E>,
            >(error),
            DecryptCipherEvent::TimedOut(cause) => {
                &&& state is TakeGate || state is CheckBeforePrompt || state is Verify
                &&& error == Error::Caused(Failure::PinentryTimedOut, cause)
            },
            _ => false,
        },
{
}

/// A dialogue that takes too long ends a decryption.
pub proof fn law_reprompt_times_out<N, K, E>(
    state: DecryptCipher<N, K, E>,
    elapsed: E,
    after: DecryptCipher<N, K, E>,
)
    requires
        state.steps_to(DecryptCipherEvent::TimedOut(elapsed), after),
        state is TakeGate || state is CheckBeforePrompt || state is Verify,
    ensures
        after == DecryptCipher::<N, K, E>::Done(
            Err(Error::Caused(Failure::PinentryTimedOut, elapsed)),
        ),
{
}

/// Whether `events` lead through `states` one after the other.
pub open spec fn decrypt_run<E>(states: Seq<Decrypt<E>>, events: Seq<DecryptEvent<E>>) -> bool {
    &&& states.len() == events.len() + 1
    &&& forall|i: int|
        0 <= i < events.len() ==> states[i].steps_to(#[trigger] events[i], states[i + 1])
}

/// In every request of a client to decrypt a text, what is decrypted is the text
/// that was sent, with the key of its entry and for its organisation, a marked
/// entry is not let off the question for the password, and the configured program
/// shows the dialogue.
pub proof fn law_client_text_is_decrypted<E>(
    states: Seq<Decrypt<E>>,
    events: Seq<DecryptEvent<E>>,
    cipherstring: String,
    entry_key: Option<String>,
    org_id: Option<String>,
    n: int,
)
    requires
        decrypt_run(states, events),
        states[0] == (Decrypt::<E>::LoadPinentry { cipherstring, entry_key, org_id }),
        0 <= n <= events.len(),
    ensures
        states[n] matches Decrypt::LoadPinentry { cipherstring: c, entry_key: k, org_id: o } ==> c
            == cipherstring && k == entry_key && o == org_id,
        states[n] matches Decrypt::Decrypt { request } ==> {
            &&& request.cipherstring == cipherstring
            &&& request.entry_key == entry_key
            &&& request.org_id == org_id
            &&& !request.skip_master_password_reprompt
            &&& request.pinentry matches Some(program)
            &&& exists|i: int|
                0 <= i < n && states[i] is LoadPinentry && #[trigger] events[i]
                    == DecryptEvent::<E>::PinentryLoaded(Ok(program))
        },
        states[n] matches Decrypt::Respond { plaintext } ==> exists|i: int|
            0 <= i < n && states[i] is Decrypt && #[trigger] events[i]
                == DecryptEvent::<E>::Decrypted(Ok(plaintext)),
        states[n] matches Decrypt::Done(Ok(_)) ==> exists|i: int|
            0 <= i < n && states[i] is Respond && (#[trigger] events[i] matches
                DecryptEvent::Responded(Ok(_))),
    decreases n,
{
    if n > 0 {
        law_client_text_is_decrypted(states, events, cipherstring, entry_key, org_id, n - 1);
        assert(states[n - 1].steps_to(events[n - 1], states[n]));
        let i = n - 1;
        assert(events[i] == events[n - 1]);
        if states[n - 1] is LoadPinentry && states[n] is Decrypt {
            assert(events[i] == DecryptEvent::<E>::PinentryLoaded(
                Ok(states[n]->Decrypt_request.pinentry->0),
            ));
        }
    }
}

/// A request to decrypt a text whose steps succeed is answered with the text that
/// the decryption gave.
pub proof fn law_decrypted_text_is_answered<E>(
    cipherstring: String,
    entry_key: Option<String>,
    org_id: Option<String>,
    pinentry: String,
    plaintext: String,
    s: Seq<Decrypt<E>>,
)
    requires
        s.len() == 4,
        s[0] == (Decrypt::<E>::LoadPinentry { cipherstring, entry_key, org_id }),
        s[0].steps_to(DecryptEvent::PinentryLoaded(Ok(pinentry)), s[1]),
        s[1].steps_to(DecryptEvent::Decrypted(Ok(plaintext)), s[2]),
        s[2].steps_to(DecryptEvent::Responded(Ok(())), s[3]),
    ensures
        s[1] is Decrypt,
        s[2] == (Decrypt::<E>::Respond { plaintext }),
        s[3] == Decrypt::<E>::Done(Ok(())),
{
}

/// A request to decrypt a text fails only where the program is not known, the
/// text could not be decrypted or the answer could not be sent; and with the
/// error of that.
pub proof fn law_failed_decrypt_request_says_why<E>(
    state: Decrypt<E>,
    event: DecryptEvent<E>,
    after: Decrypt<E>,
    error: Error<E>,
)
    requires
        state.steps_to(event, after),
        !(state is Done),
        after == Decrypt::<E>::Done(Err(error)),
    ensures
        match event {
            DecryptEvent::PinentryLoaded(result) => state is LoadPinentry && (result matches Err(
                cause,
            ) && error == Error::Forwarded(cause)),
            DecryptEvent::Decrypted(result) => state is Decrypt && result == Err::<
                String,
                Error<E>,
            >(error),
            DecryptEvent::Responded(result) => state is Respond && (result matches Err(cause)
                && error == Error::Forwarded(cause)),
        },
{
}

/// Whether `events` lead through `states` one after the other.
pub open spec fn encrypt_run<K, E>(
    states: Seq<Encrypt<K, E>>,
    events: Seq<EncryptEvent<K, E>>,
) -> bool {
    &&& states.len() == events.len() + 1
    &&& forall|i: int|
        0 <= i < events.len() ==> states[i].steps_to(#[trigger] events[i], states[i + 1])
}

/// In every request of a client to encrypt a text, keys are looked for by the
/// organisation that was sent, and what is encrypted is the text that was sent,
/// with the key of its entry and the keys that were found. What is answered is
/// what its encryption gave.
pub proof fn law_client_text_is_encrypted<K, E>(
    states: Seq<Encrypt<K, E>>,
    events: Seq<EncryptEvent<K, E>>,
    plaintext: String,
    org_id: Option<String>,
    entry_key: Option<String>,
    n: int,
)
    requires
        encrypt_run(states, events),
        states[0] == (Encrypt::<K, E>::FindKeys { plaintext, org_id, entry_key }),
        0 <= n <= events.len(),
    ensures
        states[n] matches Encrypt::FindKeys { plaintext: p, org_id: o, entry_key: k } ==> p
            == plaintext && o == org_id && k == entry_key,
        states[n] matches Encrypt::Encrypt { keys, entry_key: k, plaintext: p } ==> {
            &&& k == entry_key
            &&& p == plaintext
            &&& exists|i: int|
                0 <= i < n && states[i] is FindKeys && #[trigger] events[i] == EncryptEvent::<
                    K,
                    E,
                >::KeysFound(Some(keys))
        },
        states[n] matches Encrypt::Respond { cipherstring } ==> exists|i: int|
            0 <= i < n && states[i] is Encrypt && #[trigger] events[i] == EncryptEvent::<
                K,
                E,
            >::Encrypted(Ok(cipherstring)),
        states[n] matches Encrypt::Done(Ok(_)) ==> exists|i: int|
            0 <= i < n && states[i] is Respond && (#[trigger] events[i] matches
                EncryptEvent::Responded(Ok(_))),
    decreases n,
{
    if n > 0 {
        law_client_text_is_encrypted(states, events, plaintext, org_id, entry_key, n - 1);
        assert(states[n - 1].steps_to(events[n - 1], states[n]));
        let i = n - 1;
        assert(events[i] == events[n - 1]);
        if states[n - 1] is FindKeys && states[n] is Encrypt {
            assert(events[i] == EncryptEvent::<K, E>::KeysFound(Some(states[n]->Encrypt_keys)));
        }
    }
}

/// A request to encrypt a text whose steps succeed is answered with what the
/// encryption gave.
pub proof fn law_encrypted_text_is_answered<K, E>(
    plaintext: String,
    org_id: Option<String>,
    entry_key: Option<String>,
    keys: K,
    cipherstring: String,
    s: Seq<Encrypt<K, E>>,
)
    requires
        s.len() == 4,
        s[0] == (Encrypt::<K, E>::FindKeys { plaintext, org_id, entry_key }),
        s[0].steps_to(EncryptEvent::KeysFound(Some(keys)), s[1]),
        s[1].steps_to(EncryptEvent::Encrypted(Ok(cipherstring)), s[2]),
        s[2].steps_to(EncryptEvent::Responded(Ok(())), s[3]),
    ensures
        s[1] == (Encrypt::<K, E>::Encrypt { keys, entry_key, plaintext }),
        s[2] == (Encrypt::<K, E>::Respond { cipherstring }),
        s[3] == Encrypt::<K, E>::Done(Ok(())),
{
}

/// A request to encrypt a text fails only where the agent holds no keys for it,
/// the text could not be encrypted or the answer could not be sent; and the error
/// says which.
pub proof fn law_failed_encrypt_request_says_why<K, E>(
    state: Encrypt<K, E>,
    event: EncryptEvent<K, E>,
    after: Encrypt<K, E>,
    error: Error<E>,
)
    requires
        state.steps_to(event, after),
        !(state is Done),
        after == Encrypt::<K, E>::Done(Err(error)),
    ensures
        match event {
            EncryptEvent::KeysFound(found) => state is FindKeys && found is None && error == Error::<
                E,
            >::Refused(Failure::MissingEncryptionKeys),
            EncryptEvent::Encrypted(result) => state is Encrypt && result == Err::<
                String,
                Error<E>,
            >(error),
            EncryptEvent::Responded(result) => state is Respond && (result matches Err(cause)
                && error == Error::Forwarded(cause)),
        },
{
}

} // verus!
