//! What holds of every check of the master password, and of every unlocking and
//! locking of the vault.
use vstd::prelude::*;
use crate::db::{Db, OrgKeys, Secrets};
use crate::error::{Error, Failure, Reply, Warning};
use crate::prompt::Pin;
use crate::text;
use crate::vault::{
    dialogue_for, turned_down_count, turns_down, unlock_run, verification_run, Lock, LockEvent,
    Unlock, UnlockDatabase, UnlockDatabaseEvent, UnlockDialogue, UnlockEvent, VerifyPassword,
    VerifyPasswordEvent,
};

verus! {

/// Whether what a vault is unlocked with is what a database has.
pub open spec fn secrets_of<T, O, N>(secrets: Secrets<T, O>, db: Db<T, O, N>) -> bool {
    &&& db.kdf == Some(secrets.kdf)
    &&& db.iterations == Some(secrets.iterations)
    &&& db.memory == secrets.memory
    &&& db.parallelism == secrets.parallelism
    &&& db.protected_key == Some(secrets.protected_key)
    &&& db.protected_private_key == Some(secrets.protected_private_key)
    &&& db.protected_org_keys == secrets.protected_org_keys
}

/// In each of its attempts, a check of the master password asks with the
/// description that it started with, and unlocks the vault for the email address
/// and with the secrets of the database that were loaded in it.
pub proof fn law_password_is_checked_for_the_account<T, O, N, P, K, E>(
    states: Seq<VerifyPassword<T, O, P, K, E>>,
    events: Seq<VerifyPasswordEvent<T, O, N, P, K, E>>,
    n: int,
) -> (r: (int, int))
    requires
        verification_run(states, events),
        states[0] is LoadDb,
        0 <= n <= events.len(),
        states[n] is AskPassword || states[n] is Unlock,
    ensures
        0 <= r.0 < r.1 < n,
        states[r.0] is LoadDb,
        states[r.1] is LoadEmail,
        events[r.0] matches VerifyPasswordEvent::DbLoaded(Ok(db)) && (
        events[r.1] matches VerifyPasswordEvent::EmailLoaded(Ok(loaded)) && match states[n] {
            VerifyPassword::AskPassword { description, secrets, email, prompt, .. } => {
                &&& description == states[0]->LoadDb_description
                &&& secrets_of(secrets, db)
                &&& email == loaded
                &&& prompt.title@ == "Master Password"@
                &&& prompt.description@ == states[0]->LoadDb_description@
                &&& prompt.grab
            },
            VerifyPassword::Unlock { description, secrets, email, .. } => {
                &&& description == states[0]->LoadDb_description
                &&& secrets_of(secrets, db)
                &&& email == loaded
            },
            _ => false,
        }),
    decreases n,
{
    assert(states[n - 1].steps_to(events[n - 1], states[n]));
    if states[n - 1] is LoadEmail {
        let i = lemma_secrets_were_loaded(states, events, n - 1);
        (i, n - 1)
    } else {
        law_password_is_checked_for_the_account(states, events, n - 1)
    }
}

proof fn lemma_secrets_were_loaded<T, O, N, P, K, E>(
    states: Seq<VerifyPassword<T, O, P, K, E>>,
    events: Seq<VerifyPasswordEvent<T, O, N, P, K, E>>,
    n: int,
) -> (i: int)
    requires
        verification_run(states, events),
        states[0] is LoadDb,
        0 <= n <= events.len(),
        states[n] is LoadEmail,
    ensures
        0 <= i < n,
        states[i] is LoadDb,
        events[i] matches VerifyPasswordEvent::DbLoaded(Ok(db)) && secrets_of(
            states[n]->LoadEmail_secrets,
            db,
        ),
        states[n]->LoadEmail_description == states[0]->LoadDb_description,
    decreases n,
{
    assert(states[n - 1].steps_to(events[n - 1], states[n]));
    if states[n - 1] is LoadDb {
        lemma_description_is_kept(states, events, n - 1);
        n - 1
    } else {
        lemma_secrets_were_loaded(states, events, n - 1)
    }
}

proof fn lemma_description_is_kept<T, O, N, P, K, E>(
    states: Seq<VerifyPassword<T, O, P, K, E>>,
    events: Seq<VerifyPasswordEvent<T, O, N, P, K, E>>,
    n: int,
)
    requires
        verification_run(states, events),
        states[0] is LoadDb,
        0 <= n <= events.len(),
        states[n] is LoadDb,
    ensures
        states[n]->LoadDb_description == states[0]->LoadDb_description,
    decreases n,
{
    if n > 0 {
        assert(states[n - 1].steps_to(events[n - 1], states[n]));
        lemma_description_is_kept(states, events, n - 1);
    }
}

/// The first dialogue of a check shows no error. A later one shows why the last
/// password was turned down, and the number of the attempt.
pub proof fn law_dialogue_shows_the_last_rejection<T, O, N, P, K, E>(
    states: Seq<VerifyPassword<T, O, P, K, E>>,
    events: Seq<VerifyPasswordEvent<T, O, N, P, K, E>>,
    n: int,
) -> (i: int)
    requires
        verification_run(states, events),
        states[0] is LoadDb,
        0 <= n <= events.len(),
        states[n] is AskPassword,
    ensures
        turned_down_count(states, events, n) == 0
            ==> states[n]->AskPassword_prompt@.error is None,
        turned_down_count(states, events, n) > 0 ==> {
            &&& 0 <= i < n
            &&& states[i] is Unlock
            &&& events[i] matches VerifyPasswordEvent::Unlocked(Reply::IncorrectPassword(message))
            &&& turned_down_count(states, events, i) + 1 == turned_down_count(states, events, n)
            &&& states[n]->AskPassword_prompt@.error == Some(
                message@ + " (attempt "@ + text::decimal(turned_down_count(states, events, n) + 1)
                    + "/3)"@,
            )
        },
    decreases n,
{
    crate::vault::law_three_passwords(states, events, n);
    crate::vault::law_three_passwords(states, events, n - 1);
    assert(states[n - 1].steps_to(events[n - 1], states[n]));
    if states[n - 1] is AskPassword {
        law_dialogue_shows_the_last_rejection(states, events, n - 1)
    } else {
        n - 1
    }
}

/// A password that is turned down is asked for again, unless it was the third,
/// with which the check fails.
pub proof fn law_rejected_password_is_asked_for_again<T, O, N, P, K, E>(
    states: Seq<VerifyPassword<T, O, P, K, E>>,
    events: Seq<VerifyPasswordEvent<T, O, N, P, K, E>>,
    n: int,
)
    requires
        verification_run(states, events),
        states[0] is LoadDb,
        0 <= n < events.len(),
        turns_down(states[n], events[n]),
    ensures
        turned_down_count(states, events, n) < 2 ==> states[n + 1] is AskPassword,
        turned_down_count(states, events, n) == 2 ==> (events[n] matches
            VerifyPasswordEvent::Unlocked(Reply::IncorrectPassword(message)) && states[n + 1]
            == VerifyPassword::<T, O, P, K, E>::Done(
            Err(Error::IncorrectPassword(Failure::UnlockDatabase, message)),
        )),
{
    crate::vault::law_three_passwords(states, events, n);
    assert(states[n].steps_to(events[n], states[n + 1]));
}

/// A check with a complete database and the right password succeeds with the keys
/// of the vault.
pub proof fn law_right_password_is_accepted<T, O, N, P, K, E>(
    description: String,
    db: Db<T, O, N>,
    email: String,
    password: P,
    keys: (K, OrgKeys<K>),
    loaded: VerifyPassword<T, O, P, K, E>,
    asked: VerifyPassword<T, O, P, K, E>,
    answered: VerifyPassword<T, O, P, K, E>,
    after: VerifyPassword<T, O, P, K, E>,
)
    requires
        db.kdf is Some && db.iterations is Some && db.protected_key is Some
            && db.protected_private_key is Some,
        (VerifyPassword::<T, O, P, K, E>::LoadDb { description }).steps_to(
            VerifyPasswordEvent::DbLoaded(Ok(db)),
            loaded,
        ),
        loaded.steps_to(VerifyPasswordEvent::<T, O, N, P, K, E>::EmailLoaded(Ok(email)), asked),
        asked.steps_to(
            VerifyPasswordEvent::<T, O, N, P, K, E>::Answered(Pin::Entered(password)),
            answered,
        ),
        answered.steps_to(
            VerifyPasswordEvent::<T, O, N, P, K, E>::Unlocked(Reply::Accepted(keys)),
            after,
        ),
    ensures
        answered matches VerifyPassword::Unlock { password: p, email: m, secrets, .. } && p
            == password && m == email && secrets_of(secrets, db),
        after == VerifyPassword::<T, O, P, K, E>::Done(Ok(keys)),
{
}

/// A check ends with an error only where something failed: the database, the
/// email address or the dialogue was not to be had, the database lacks what is
/// needed, or the vault could not be unlocked; and the error says which.
pub proof fn law_failed_check_says_why<T, O, N, P, K, E>(
    state: VerifyPassword<T, O, P, K, E>,
    event: VerifyPasswordEvent<T, O, N, P, K, E>,
    after: VerifyPassword<T, O, P, K, E>,
    error: Error<E>,
)
    requires
        state.steps_to(event, after),
        !(state is Done),
        after == VerifyPassword::<T, O, P, K, E>::Done(Err(error)),
    ensures
        match event {
            VerifyPasswordEvent::DbLoaded(Ok(db)) => {
                &&& state is LoadDb
                &&& error == if db.kdf is None {
                    Error::<E>::Refused(Failure::MissingKdf)
                } else if db.iterations is None {
                    Error::<E>::Refused(Failure::MissingIterations)
                } else if db.protected_key is None {
                    Error::<E>::Refused(Failure::MissingProtectedKey)
                } else {
                    Error::<E>::Refused(Failure::MissingProtectedPrivateKey)
                }
                &&& !(db.kdf is Some && db.iterations is Some && db.protected_key is Some
                    && db.protected_private_key is Some)
            },
            VerifyPasswordEvent::DbLoaded(Err(cause)) => state is LoadDb && error == cause,
            VerifyPasswordEvent::EmailLoaded(result) => state is LoadEmail && result == Err::<
                String,
                Error<E>,
            >(error),
            VerifyPasswordEvent::Answered(pin) => state is AskPassword && match pin {
                Pin::Entered(_) => false,
                Pin::Unconfigured(cause) => error == Error::Forwarded(cause),
                Pin::Failed(cause) => error == Error::Caused(Failure::ReadPassword, cause),
            },
            VerifyPasswordEvent::Unlocked(reply) => state is Unlock && match reply {
                Reply::Accepted(_) => false,
                Reply::IncorrectPassword(message) => error == Error::<E>::IncorrectPassword(
                    Failure::UnlockDatabase,
                    message,
                ),
                Reply::Failed(cause) => error == Error::Caused(Failure::UnlockDatabase, cause),
            },
        },
{
}

/// The dialogue that unlocks the vault is shown by the given program and names
/// the profile; without a program there is none.
pub proof fn law_unlock_dialogue_names_the_profile(
    pinentry: Option<String>,
    profile: Seq<char>,
    dialogue: Option<UnlockDialogue>,
)
    requires
        dialogue_for(pinentry, profile, dialogue),
    ensures
        match dialogue {
            Some(shown) => {
                &&& pinentry == Some(shown.pinentry)
                &&& shown.description@ == "Unlock the local database for '"@ + profile + "'"@
            },
            None => pinentry is None,
        },
{
}

/// An unlocking succeeds only if the vault was found unlocked, or its keys were
/// stored after the dialogue that it started with.
pub proof fn law_unlocking_stored_keys_or_was_not_needed<K, E>(
    states: Seq<UnlockDatabase<K, E>>,
    events: Seq<UnlockDatabaseEvent<K, E>>,
    n: int,
) -> (i: int)
    requires
        unlock_run(states, events),
        states[0] is ReadGeneration,
        0 <= n <= events.len(),
        states[n] matches UnlockDatabase::Done(Ok(_)),
    ensures
        0 <= i < n,
        ({
            ||| states[i] is CheckLocked && (events[i] matches UnlockDatabaseEvent::LockChecked {
                generation,
                needs_unlock,
            } && generation is Ok && !needs_unlock)
            ||| states[i] is StoreKeys && events[i] is KeysStored
        }),
    decreases n,
{
    assert(states[n - 1].steps_to(events[n - 1], states[n]));
    if states[n - 1] is Done {
        law_unlocking_stored_keys_or_was_not_needed(states, events, n - 1)
    } else {
        n - 1
    }
}

/// The password is asked for with the dialogue that the unlocking started with,
/// and only while the vault is locked and the lock generation is the one that was
/// read at the start.
pub proof fn law_unlocking_asks_while_locked<K, E>(
    states: Seq<UnlockDatabase<K, E>>,
    events: Seq<UnlockDatabaseEvent<K, E>>,
    n: int,
) -> (r: (int, int))
    requires
        unlock_run(states, events),
        states[0] is ReadGeneration,
        0 <= n <= events.len(),
        states[n] is Verify,
    ensures
        0 <= r.0 < r.1 < n,
        states[n]->Verify_dialogue == states[0]->ReadGeneration_dialogue,
        states[r.0] is ReadGeneration,
        events[r.0] == UnlockDatabaseEvent::<K, E>::GenerationRead(
            states[n]->Verify_lock_generation,
        ),
        states[r.1] matches UnlockDatabase::CheckLocked { lock_generation, .. } && lock_generation
            == states[n]->Verify_lock_generation,
        events[r.1] matches UnlockDatabaseEvent::LockChecked { generation, needs_unlock }
            && generation is Ok && needs_unlock,
    decreases n,
{
    assert(states[n - 1].steps_to(events[n - 1], states[n]));
    if states[n - 1] is CheckLocked {
        let i = lemma_generation_and_dialogue(states, events, n - 1);
        (i, n - 1)
    } else {
        law_unlocking_asks_while_locked(states, events, n - 1)
    }
}

proof fn lemma_generation_and_dialogue<K, E>(
    states: Seq<UnlockDatabase<K, E>>,
    events: Seq<UnlockDatabaseEvent<K, E>>,
    n: int,
) -> (i: int)
    requires
        unlock_run(states, events),
        states[0] is ReadGeneration,
        0 <= n <= events.len(),
        states[n] is TakeGate || states[n] is CheckLocked,
    ensures
        0 <= i < n,
        states[i] is ReadGeneration,
        events[i] is GenerationRead,
        match states[n] {
            UnlockDatabase::TakeGate { lock_generation, dialogue } => events[i]
                == UnlockDatabaseEvent::<K, E>::GenerationRead(lock_generation) && dialogue
                == states[0]->ReadGeneration_dialogue,
            UnlockDatabase::CheckLocked { lock_generation, dialogue } => events[i]
                == UnlockDatabaseEvent::<K, E>::GenerationRead(lock_generation) && dialogue
                == states[0]->ReadGeneration_dialogue,
            _ => false,
        },
    decreases n,
{
    assert(states[n - 1].steps_to(events[n - 1], states[n]));
    if states[n - 1] is ReadGeneration {
        lemma_dialogue_is_kept(states, events, n - 1);
        n - 1
    } else {
        lemma_generation_and_dialogue(states, events, n - 1)
    }
}

proof fn lemma_dialogue_is_kept<K, E>(
    states: Seq<UnlockDatabase<K, E>>,
    events: Seq<UnlockDatabaseEvent<K, E>>,
    n: int,
)
    requires
        unlock_run(states, events),
        states[0] is ReadGeneration,
        0 <= n <= events.len(),
        states[n] is ReadGeneration,
    ensures
        states[n]->ReadGeneration_dialogue == states[0]->ReadGeneration_dialogue,
    decreases n,
{
    if n > 0 {
        assert(states[n - 1].steps_to(events[n - 1], states[n]));
        lemma_dialogue_is_kept(states, events, n - 1);
    }
}

/// An unlocking of a locked vault whose password is verified and that is not
/// locked meanwhile stores the keys that the password opened, and succeeds.
pub proof fn law_verified_password_unlocks<K, E>(
    dialogue: UnlockDialogue,
    generation: u64,
    keys: K,
    org_keys: OrgKeys<K>,
    s: Seq<UnlockDatabase<K, E>>,
)
    requires
        s.len() == 7,
        s[0] == (UnlockDatabase::<K, E>::ReadGeneration { dialogue }),
        s[0].steps_to(UnlockDatabaseEvent::GenerationRead(generation), s[1]),
        s[1].steps_to(UnlockDatabaseEvent::GateTaken, s[2]),
        s[2].steps_to(
            UnlockDatabaseEvent::LockChecked { generation: Ok(()), needs_unlock: true },
            s[3],
        ),
        s[3].steps_to(UnlockDatabaseEvent::Verified(Ok((keys, org_keys))), s[4]),
        s[4].steps_to(UnlockDatabaseEvent::GenerationChecked(Ok(())), s[5]),
        s[5].steps_to(UnlockDatabaseEvent::KeysStored, s[6]),
    ensures
        s[5] == (UnlockDatabase::<K, E>::StoreKeys { keys, org_keys }),
        s[6] == UnlockDatabase::<K, E>::Done(Ok(())),
{
}

/// An unlocking fails only where the lock generation changed, the password was
/// not verified or the dialogue took too long; and the error says which. It then
/// stores no keys.
pub proof fn law_failed_unlocking_says_why<K, E>(
    state: UnlockDatabase<K, E>,
    event: UnlockDatabaseEvent<K, E>,
    after: UnlockDatabase<K, E>,
    error: Error<E>,
)
    requires
        state.steps_to(event, after),
        !(state is Done),
        after == UnlockDatabase::<K, E>::Done(Err(error)),
    ensures
        match event {
            UnlockDatabaseEvent::LockChecked { generation, .. } => state is CheckLocked && (
            generation matches Err(cause) && error == Error::Caused(
                Failure::UnlockInvalidatedBeforePrompt,
                cause,
            )),
            UnlockDatabaseEvent::Verified(result) => state is Verify && result == Err::<
                (K, OrgKeys<K>),
                Error<E>,
            >(error),
            UnlockDatabaseEvent::GenerationChecked(result) => state is CheckGeneration && (
            result matches Err(cause) && error == Error::Caused(Failure::UnlockInvalidated, cause)),
            UnlockDatabaseEvent::TimedOut(cause) => {
                &&& state is TakeGate || state is CheckLocked || state is Verify
                    || state is CheckGeneration
                &&& error == Error::Caused(Failure::PinentryTimedOut, cause)
            },
            _ => false,
        },
{
}

/// A dialogue that takes too long ends an unlocking, at any point between its
/// start and the storing of the keys.
pub proof fn law_unlocking_times_out<K, E>(
    state: UnlockDatabase<K, E>,
    elapsed: E,
    after: UnlockDatabase<K, E>,
)
    requires
        state.steps_to(UnlockDatabaseEvent::TimedOut(elapsed), after),
        state is TakeGate || state is CheckLocked || state is Verify || state is CheckGeneration,
    ensures
        after == UnlockDatabase::<K, E>::Done(Err(Error::Caused(Failure::PinentryTimedOut, elapsed))),
{
}

/// The request to unlock the vault asks with the configured program and the name
/// of the profile, refreshes the public key cache once the vault is unlocked, and
/// is answered whether or not that worked.
pub proof fn law_unlock_request<E>(
    profile: String,
    pinentry: String,
    refreshed: Result<(), Error<E>>,
    s: Seq<Unlock<E>>,
)
    requires
        s.len() == 6,
        s[0] == (Unlock::<E>::LoadPinentry { profile }),
        s[0].steps_to(UnlockEvent::PinentryLoaded(Ok(pinentry)), s[1]),
        s[1].steps_to(UnlockEvent::Unlocked(Ok(())), s[2]),
        s[2].steps_to(UnlockEvent::CacheRefreshed(refreshed), s[3]),
        s[3].steps_to(UnlockEvent::Warned, s[4]),
        s[4].steps_to(UnlockEvent::Responded(Ok(())), s[5]),
    ensures
        s[1] matches Unlock::UnlockDatabase { dialogue } && dialogue.pinentry == pinentry
            && dialogue.description@ == "Unlock the local database for '"@ + profile@ + "'"@,
        s[2] is RefreshCache,
        refreshed is Ok ==> s[3] is Respond,
        refreshed matches Err(error) ==> s[3] == (Unlock::<E>::Warn {
            warning: Warning::RefreshPublicKeyCache,
            error,
        }),
        s[4] is Respond,
        s[5] == Unlock::<E>::Done(Ok(())),
{
}

/// The request to unlock the vault fails only where the program is not known, the
/// vault was not unlocked or the answer could not be sent; and with the error of
/// that.
pub proof fn law_failed_unlock_request_says_why<E>(
    state: Unlock<E>,
    event: UnlockEvent<E>,
    after: Unlock<E>,
    error: Error<E>,
)
    requires
        state.steps_to(event, after),
        !(state is Done),
        after == Unlock::<E>::Done(Err(error)),
    ensures
        match event {
            UnlockEvent::PinentryLoaded(result) => state is LoadPinentry && (result matches Err(
                cause,
            ) && error == Error::Forwarded(cause)),
            UnlockEvent::Unlocked(result) => state is UnlockDatabase && result == Err::<
                (),
                Error<E>,
            >(error),
            UnlockEvent::Responded(result) => state is Respond && (result matches Err(cause)
                && error == Error::Forwarded(cause)),
            _ => false,
        },
{
}

/// The request to unlock the vault succeeds only once it was answered.
pub proof fn law_unlock_request_is_answered<E>(
    state: Unlock<E>,
    event: UnlockEvent<E>,
    after: Unlock<E>,
)
    requires
        state.steps_to(event, after),
        !(state is Done),
        after matches Unlock::Done(Ok(_)),
    ensures
        state is Respond,
        event matches UnlockEvent::Responded(Ok(_)),
{
}

/// The request to lock the vault is answered only once the keys are forgotten,
/// and ends as the answer did.
pub proof fn law_lock_request<E>(answered: Result<(), E>, s: Seq<Lock<E>>)
    requires
        s.len() == 3,
        s[0] is Clear,
        s[0].steps_to(LockEvent::Cleared, s[1]),
        s[1].steps_to(LockEvent::Responded(answered), s[2]),
    ensures
        s[1] is Respond,
        s[2] == Lock::<E>::Done(answered),
        forall|early: Lock<E>| #[trigger]
            s[0].steps_to(LockEvent::Responded(answered), early) ==> early is Clear,
{
}

} // verus!
