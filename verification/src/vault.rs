//! Unlocking the vault: the master password and the lock generation.
use vstd::prelude::*;
use vstd::string::StringExecFns;
use crate::db::{Db, OrgKeys, Secrets};
use crate::error::{Error, Failure, Reply, Warning};
use crate::prompt::{Attempts, AttemptsView, Pin, Prompt, PromptView};
use crate::text;

verus! {

/// How long, in seconds, a whole exchange with pinentry may take.
pub const PINENTRY_TRANSACTION_TIMEOUT: u64 = 120;

/// The dialogue in which a master password is asked for.
pub open spec fn password_prompt(description: Seq<char>, attempts: AttemptsView) -> PromptView {
    PromptView {
        title: "Master Password"@,
        description,
        error: attempts.error(),
        grab: true,
    }
}

/// A check of the master password against the local database. Each state but
/// the last names the work that is to be done outside; its outcome is the next
/// event.
#[derive(Debug)]
pub enum VerifyPassword<T, O, P, K, E> {
    LoadDb { description: String },
    LoadEmail { description: String, secrets: Secrets<T, O> },
    AskPassword {
        description: String,
        secrets: Secrets<T, O>,
        email: String,
        attempts: Attempts,
        prompt: Prompt,
    },
    Unlock {
        description: String,
        secrets: Secrets<T, O>,
        email: String,
        attempts: Attempts,
        password: P,
    },
    Done(Result<(K, OrgKeys<K>), Error<E>>),
}

#[derive(Debug)]
pub enum VerifyPasswordEvent<T, O, N, P, K, E> {
    DbLoaded(Result<Db<T, O, N>, Error<E>>),
    EmailLoaded(Result<String, Error<E>>),
    Answered(Pin<P, E>),
    Unlocked(Reply<(K, OrgKeys<K>), E>),
}

impl<T, O, P, K, E> VerifyPassword<T, O, P, K, E> {
    /// Whether the password is asked for with these data, in this attempt.
    pub open spec fn asks(
        self,
        d: String,
        s: Secrets<T, O>,
        m: String,
        attempt: AttemptsView,
    ) -> bool {
        &&& self matches VerifyPassword::AskPassword {
            description,
            secrets,
            email,
            attempts,
            prompt,
        }
        &&& description == d
        &&& secrets == s
        &&& email == m
        &&& attempts@ == attempt
        &&& prompt@ == password_prompt(d@, attempt)
    }

    /// Where an event leads. One that the state does not wait for changes
    /// nothing.
    pub open spec fn steps_to<N>(
        self,
        event: VerifyPasswordEvent<T, O, N, P, K, E>,
        after: Self,
    ) -> bool {
        match (self, event) {
            (
                VerifyPassword::LoadDb { description },
                VerifyPasswordEvent::DbLoaded(Ok(db)),
            ) => match db.missing() {
                Some(failure) => after == Self::Done(Err(Error::Refused(failure))),
                None => after == (Self::LoadEmail { description, secrets: db.spec_secrets() }),
            },
            (VerifyPassword::LoadDb { description }, VerifyPasswordEvent::DbLoaded(Err(error))) => {
                after == Self::Done(Err(error))
            },
            (
                VerifyPassword::LoadEmail { description, secrets },
                VerifyPasswordEvent::EmailLoaded(Ok(email)),
            ) => after.asks(description, secrets, email, AttemptsView::first()),
            (
                VerifyPassword::LoadEmail { description, secrets },
                VerifyPasswordEvent::EmailLoaded(Err(error)),
            ) => after == Self::Done(Err(error)),
            (
                VerifyPassword::AskPassword { description, secrets, email, attempts, prompt },
                VerifyPasswordEvent::Answered(pin),
            ) => match pin {
                Pin::Entered(password) => after == (Self::Unlock {
                    description,
                    secrets,
                    email,
                    attempts,
                    password,
                }),
                Pin::Unconfigured(error) => after == Self::Done(Err(Error::Forwarded(error))),
                Pin::Failed(error) => after == Self::Done(
                    Err(Error::Caused(Failure::ReadPassword, error)),
                ),
            },
            (
                VerifyPassword::Unlock { description, secrets, email, attempts, password },
                VerifyPasswordEvent::Unlocked(reply),
            ) => match reply {
                Reply::Accepted(keys) => after == Self::Done(Ok(keys)),
                Reply::IncorrectPassword(message) => match attempts@.turned_down(message@) {
                    Some(next) => after.asks(description, secrets, email, next),
                    None => after == Self::Done(
                        Err(Error::IncorrectPassword(Failure::UnlockDatabase, message)),
                    ),
                },
                Reply::Failed(error) => after == Self::Done(
                    Err(Error::Caused(Failure::UnlockDatabase, error)),
                ),
            },
            _ => after == self,
        }
    }
}

fn ask_password<T, O, P, K, E>(
    description: String,
    secrets: Secrets<T, O>,
    email: String,
    attempts: Attempts,
) -> (r: VerifyPassword<T, O, P, K, E>)
    ensures
        r.asks(description, secrets, email, attempts@),
{
    let prompt = attempts.prompt("Master Password", description.as_str(), true);
    VerifyPassword::AskPassword { description, secrets, email, attempts, prompt }
}

/// Moves a check of the master password on.
pub fn verify_database_password<T, O, N, P, K, E>(
    state: VerifyPassword<T, O, P, K, E>,
    event: VerifyPasswordEvent<T, O, N, P, K, E>,
) -> (after: VerifyPassword<T, O, P, K, E>)
    ensures
        state.steps_to(event, after),
{
    match (state, event) {
        (
            VerifyPassword::LoadDb { description },
            VerifyPasswordEvent::DbLoaded(Ok(db)),
        ) => match db.secrets() {
            Ok(secrets) => VerifyPassword::LoadEmail { description, secrets },
            Err(failure) => VerifyPassword::Done(Err(Error::Refused(failure))),
        },
        (VerifyPassword::LoadDb { .. }, VerifyPasswordEvent::DbLoaded(Err(error))) => {
            VerifyPassword::Done(Err(error))
        },
        (
            VerifyPassword::LoadEmail { description, secrets },
            VerifyPasswordEvent::EmailLoaded(Ok(email)),
        ) => ask_password(description, secrets, email, Attempts::first()),
        (VerifyPassword::LoadEmail { .. }, VerifyPasswordEvent::EmailLoaded(Err(error))) => {
            VerifyPassword::Done(Err(error))
        },
        (
            VerifyPassword::AskPassword { description, secrets, email, attempts, .. },
            VerifyPasswordEvent::Answered(pin),
        ) => match pin {
            Pin::Entered(password) => VerifyPassword::Unlock {
                description,
                secrets,
                email,
                attempts,
                password,
            },
            Pin::Unconfigured(error) => VerifyPassword::Done(Err(Error::Forwarded(error))),
            Pin::Failed(error) => VerifyPassword::Done(
                Err(Error::Caused(Failure::ReadPassword, error)),
            ),
        },
        (
            VerifyPassword::Unlock { description, secrets, email, attempts, .. },
            VerifyPasswordEvent::Unlocked(reply),
        ) => match reply {
            Reply::Accepted(keys) => VerifyPassword::Done(Ok(keys)),
            Reply::IncorrectPassword(message) => match attempts.turned_down(message) {
                Ok(next) => ask_password(description, secrets, email, next),
                Err(message) => VerifyPassword::Done(
                    Err(Error::IncorrectPassword(Failure::UnlockDatabase, message)),
                ),
            },
            Reply::Failed(error) => VerifyPassword::Done(
                Err(Error::Caused(Failure::UnlockDatabase, error)),
            ),
        },
        (state, _) => state,
    }
}

/// Whether `events` lead through `states` one after the other.
pub open spec fn verification_run<T, O, N, P, K, E>(
    states: Seq<VerifyPassword<T, O, P, K, E>>,
    events: Seq<VerifyPasswordEvent<T, O, N, P, K, E>>,
) -> bool {
    &&& states.len() == events.len() + 1
    &&& forall|i: int|
        0 <= i < events.len() ==> states[i].steps_to(#[trigger] events[i], states[i + 1])
}

/// Whether the event turns a password down.
pub open spec fn turns_down<T, O, N, P, K, E>(
    state: VerifyPassword<T, O, P, K, E>,
    event: VerifyPasswordEvent<T, O, N, P, K, E>,
) -> bool {
    &&& state is Unlock
    &&& event matches VerifyPasswordEvent::Unlocked(reply)
    &&& reply is IncorrectPassword
}

/// How many passwords the first `n` events of a run turned down.
pub open spec fn turned_down_count<T, O, N, P, K, E>(
    states: Seq<VerifyPassword<T, O, P, K, E>>,
    events: Seq<VerifyPasswordEvent<T, O, N, P, K, E>>,
    n: int,
) -> int
    decreases n,
{
    if n <= 0 {
        0
    } else {
        turned_down_count(states, events, n - 1) + if turns_down(states[n - 1], events[n - 1]) {
            1int
        } else {
            0int
        }
    }
}

/// The keys that a check of the master password yields are keys that the vault
/// handed out in that check, for a password that was entered in it.
pub proof fn law_keys_come_from_an_accepted_password<T, O, N, P, K, E>(
    states: Seq<VerifyPassword<T, O, P, K, E>>,
    events: Seq<VerifyPasswordEvent<T, O, N, P, K, E>>,
    keys: (K, OrgKeys<K>),
)
    requires
        verification_run(states, events),
        states[0] is LoadDb,
        states.last() == VerifyPassword::<T, O, P, K, E>::Done(Ok(keys)),
    ensures
        exists|i: int, j: int|
            0 <= i < j < events.len() && (#[trigger] events[j]
                == VerifyPasswordEvent::<T, O, N, P, K, E>::Unlocked(Reply::Accepted(keys))) && (
            #[trigger] events[i] == VerifyPasswordEvent::<T, O, N, P, K, E>::Answered(
                Pin::Entered(states[j]->Unlock_password),
            )) && states[j] is Unlock,
{
    let n = events.len() as int;
    let j = lemma_done_came_from_unlock(states, events, keys, n);
    let i = lemma_unlock_came_from_answer(states, events, j);
    assert(events[j] == VerifyPasswordEvent::<T, O, N, P, K, E>::Unlocked(Reply::Accepted(keys)));
    assert(events[i] == VerifyPasswordEvent::<T, O, N, P, K, E>::Answered(
        Pin::Entered(states[j]->Unlock_password),
    ));
}

proof fn lemma_done_came_from_unlock<T, O, N, P, K, E>(
    states: Seq<VerifyPassword<T, O, P, K, E>>,
    events: Seq<VerifyPasswordEvent<T, O, N, P, K, E>>,
    keys: (K, OrgKeys<K>),
    n: int,
) -> (j: int)
    requires
        verification_run(states, events),
        states[0] is LoadDb,
        0 <= n <= events.len(),
        states[n] == VerifyPassword::<T, O, P, K, E>::Done(Ok(keys)),
    ensures
        0 <= j < n,
        states[j] is Unlock,
        events[j] == VerifyPasswordEvent::<T, O, N, P, K, E>::Unlocked(Reply::Accepted(keys)),
    decreases n,
{
    assert(states[n - 1].steps_to(events[n - 1], states[n]));
    if states[n - 1] is Unlock {
        n - 1
    } else {
        lemma_done_came_from_unlock(states, events, keys, n - 1)
    }
}

proof fn lemma_unlock_came_from_answer<T, O, N, P, K, E>(
    states: Seq<VerifyPassword<T, O, P, K, E>>,
    events: Seq<VerifyPasswordEvent<T, O, N, P, K, E>>,
    n: int,
) -> (i: int)
    requires
        verification_run(states, events),
        states[0] is LoadDb,
        0 <= n <= events.len(),
        states[n] is Unlock,
    ensures
        0 <= i < n,
        events[i] == VerifyPasswordEvent::<T, O, N, P, K, E>::Answered(
            Pin::Entered(states[n]->Unlock_password),
        ),
    decreases n,
{
    assert(states[n - 1].steps_to(events[n - 1], states[n]));
    if states[n - 1] is AskPassword {
        n - 1
    } else {
        lemma_unlock_came_from_answer(states, events, n - 1)
    }
}

/// A check of the master password turns down at most three passwords, and the
/// third ends it with an error.
pub proof fn law_three_passwords<T, O, N, P, K, E>(
    states: Seq<VerifyPassword<T, O, P, K, E>>,
    events: Seq<VerifyPasswordEvent<T, O, N, P, K, E>>,
    n: int,
)
    requires
        verification_run(states, events),
        states[0] is LoadDb,
        0 <= n <= events.len(),
    ensures
        0 <= turned_down_count(states, events, n) <= 3,
        turned_down_count(states, events, n) == 3 ==> states[n] matches VerifyPassword::Done(
            Err(Error::IncorrectPassword(Failure::UnlockDatabase, _)),
        ),
        states[n] matches VerifyPassword::AskPassword { attempts, .. } ==> attempts@.number
            == turned_down_count(states, events, n) + 1,
        states[n] matches VerifyPassword::Unlock { attempts, .. } ==> attempts@.number
            == turned_down_count(states, events, n) + 1,
        (states[n] is LoadDb || states[n] is LoadEmail) ==> turned_down_count(states, events, n)
            == 0,
    decreases n,
{
    if n > 0 {
        law_three_passwords(states, events, n - 1);
        assert(states[n - 1].steps_to(events[n - 1], states[n]));
    }
}

/// What the dialogue says that unlocks the database of a profile.
pub open spec fn unlock_text(profile: Seq<char>) -> Seq<char> {
    "Unlock the local database for '"@ + profile + "'"@
}

/// The dialogue that unlocks the vault: the program that shows it, and what it
/// says.
#[derive(Debug, Clone)]
pub struct UnlockDialogue {
    pub pinentry: String,
    pub description: String,
}

impl UnlockDialogue {
    /// Whether the program shows the dialogue for the database of a profile.
    pub open spec fn is_for(self, pinentry: String, profile: Seq<char>) -> bool {
        &&& self.pinentry == pinentry
        &&& self.description@ == unlock_text(profile)
    }

    pub fn new(pinentry: String, profile: &str) -> (r: Self)
        ensures
            r.is_for(pinentry, profile@),
    {
        let mut description = text::concat("Unlock the local database for '", profile);
        description.append("'");
        UnlockDialogue { pinentry, description }
    }
}

/// Whether `dialogue` is that of the program, where one is known.
pub open spec fn dialogue_for(
    pinentry: Option<String>,
    profile: Seq<char>,
    dialogue: Option<UnlockDialogue>,
) -> bool {
    match pinentry {
        Some(program) => dialogue matches Some(d) && d.is_for(program, profile),
        None => dialogue is None,
    }
}

/// The dialogue of the program, where one is known.
pub fn unlock_dialogue(pinentry: Option<String>, profile: &str) -> (r: Option<UnlockDialogue>)
    ensures
        dialogue_for(pinentry, profile@, r),
{
    match pinentry {
        Some(program) => Some(UnlockDialogue::new(program, profile)),
        None => None,
    }
}

/// What comes of an exchange with pinentry, where the outer error stands for one
/// that took longer than it may.
pub fn with_pinentry_transaction_timeout<R, E>(outcome: Result<Result<R, Error<E>>, E>) -> (r: Result<
    R,
    Error<E>,
>)
    ensures
        r == match outcome {
            Ok(result) => result,
            Err(elapsed) => Err(Error::Caused(Failure::PinentryTimedOut, elapsed)),
        },
{
    match outcome {
        Ok(result) => result,
        Err(elapsed) => Err(Error::Caused(Failure::PinentryTimedOut, elapsed)),
    }
}

/// An unlocking of the vault. From `TakeGate` on it is one exchange with
/// pinentry, for which [`PINENTRY_TRANSACTION_TIMEOUT`] holds. Every lock of
/// the vault starts a new lock generation. From the check in `CheckGeneration`
/// until the keys are stored in `StoreKeys`, the vault must not be locked.
#[derive(Debug)]
pub enum UnlockDatabase<K, E> {
    ReadGeneration { dialogue: UnlockDialogue },
    TakeGate { lock_generation: u64, dialogue: UnlockDialogue },
    CheckLocked { lock_generation: u64, dialogue: UnlockDialogue },
    Verify { lock_generation: u64, dialogue: UnlockDialogue },
    CheckGeneration { lock_generation: u64, keys: K, org_keys: OrgKeys<K> },
    StoreKeys { keys: K, org_keys: OrgKeys<K> },
    Done(Result<(), Error<E>>),
}

#[derive(Debug)]
pub enum UnlockDatabaseEvent<K, E> {
    GenerationRead(u64),
    GateTaken,
    /// Whether the lock generation is still the same, and whether the vault is
    /// locked, both at one time.
    LockChecked { generation: Result<(), E>, needs_unlock: bool },
    Verified(Result<(K, OrgKeys<K>), Error<E>>),
    GenerationChecked(Result<(), E>),
    KeysStored,
    TimedOut(E),
}

impl<K, E> UnlockDatabase<K, E> {
    /// Whether the exchange with pinentry is under way and can still time out.
    pub open spec fn in_transaction(self) -> bool {
        self is TakeGate || self is CheckLocked || self is Verify || self is CheckGeneration
    }

    /// Where an event leads. One that the state does not wait for changes
    /// nothing.
    pub open spec fn steps_to(self, event: UnlockDatabaseEvent<K, E>, after: Self) -> bool {
        if event is TimedOut && self.in_transaction() {
            after == Self::Done(
                Err(Error::Caused(Failure::PinentryTimedOut, event->TimedOut_0)),
            )
        } else {
            match (self, event) {
                (
                    UnlockDatabase::ReadGeneration { dialogue },
                    UnlockDatabaseEvent::GenerationRead(lock_generation),
                ) => after == (Self::TakeGate { lock_generation, dialogue }),
                (
                    UnlockDatabase::TakeGate { lock_generation, dialogue },
                    UnlockDatabaseEvent::GateTaken,
                ) => after == (Self::CheckLocked { lock_generation, dialogue }),
                (
                    UnlockDatabase::CheckLocked { lock_generation, dialogue },
                    UnlockDatabaseEvent::LockChecked { generation, needs_unlock },
                ) => after == match generation {
                    Err(error) => Self::Done(
                        Err(Error::Caused(Failure::UnlockInvalidatedBeforePrompt, error)),
                    ),
                    Ok(_) => if needs_unlock {
                        Self::Verify { lock_generation, dialogue }
                    } else {
                        Self::Done(Ok(()))
                    },
                },
                (
                    UnlockDatabase::Verify { lock_generation, .. },
                    UnlockDatabaseEvent::Verified(result),
                ) => after == match result {
                    Ok((keys, org_keys)) => Self::CheckGeneration {
                        lock_generation,
                        keys,
                        org_keys,
                    },
                    Err(error) => Self::Done(Err(error)),
                },
                (
                    UnlockDatabase::CheckGeneration { lock_generation, keys, org_keys },
                    UnlockDatabaseEvent::GenerationChecked(result),
                ) => after == match result {
                    Ok(_) => Self::StoreKeys { keys, org_keys },
                    Err(error) => Self::Done(Err(Error::Caused(Failure::UnlockInvalidated, error))),
                },
                (UnlockDatabase::StoreKeys { .. }, UnlockDatabaseEvent::KeysStored) => {
                    after == Self::Done(Ok(()))
                },
                _ => after == self,
            }
        }
    }
}

/// Moves an unlocking of the vault on.
pub fn unlock_database_with_pinentry<K, E>(
    state: UnlockDatabase<K, E>,
    event: UnlockDatabaseEvent<K, E>,
) -> (after: UnlockDatabase<K, E>)
    ensures
        state.steps_to(event, after),
{
    match (state, event) {
        (
            UnlockDatabase::ReadGeneration { dialogue },
            UnlockDatabaseEvent::GenerationRead(lock_generation),
        ) => UnlockDatabase::TakeGate { lock_generation, dialogue },
        (
            UnlockDatabase::TakeGate { lock_generation, dialogue },
            UnlockDatabaseEvent::GateTaken,
        ) => UnlockDatabase::CheckLocked { lock_generation, dialogue },
        (
            UnlockDatabase::CheckLocked { lock_generation, dialogue },
            UnlockDatabaseEvent::LockChecked { generation, needs_unlock },
        ) => match generation {
            Err(error) => UnlockDatabase::Done(
                Err(Error::Caused(Failure::UnlockInvalidatedBeforePrompt, error)),
            ),
            Ok(_) => if needs_unlock {
                UnlockDatabase::Verify { lock_generation, dialogue }
            } else {
                UnlockDatabase::Done(Ok(()))
            },
        },
        (UnlockDatabase::Verify { lock_generation, .. }, UnlockDatabaseEvent::Verified(result)) => {
            match result {
                Ok((keys, org_keys)) => UnlockDatabase::CheckGeneration {
                    lock_generation,
                    keys,
                    org_keys,
                },
                Err(error) => UnlockDatabase::Done(Err(error)),
            }
        },
        (
            UnlockDatabase::CheckGeneration { lock_generation: _, keys, org_keys },
            UnlockDatabaseEvent::GenerationChecked(result),
        ) => match result {
            Ok(_) => UnlockDatabase::StoreKeys { keys, org_keys },
            Err(error) => UnlockDatabase::Done(
                Err(Error::Caused(Failure::UnlockInvalidated, error)),
            ),
        },
        (UnlockDatabase::StoreKeys { .. }, UnlockDatabaseEvent::KeysStored) => {
            UnlockDatabase::Done(Ok(()))
        },
        (
            UnlockDatabase::TakeGate { .. }
            | UnlockDatabase::CheckLocked { .. }
            | UnlockDatabase::Verify { .. }
            | UnlockDatabase::CheckGeneration { .. },
            UnlockDatabaseEvent::TimedOut(elapsed),
        ) => UnlockDatabase::Done(Err(Error::Caused(Failure::PinentryTimedOut, elapsed))),
        (state, _) => state,
    }
}

/// Whether `events` lead through `states` one after the other.
pub open spec fn unlock_run<K, E>(
    states: Seq<UnlockDatabase<K, E>>,
    events: Seq<UnlockDatabaseEvent<K, E>>,
) -> bool {
    &&& states.len() == events.len() + 1
    &&& forall|i: int|
        0 <= i < events.len() ==> states[i].steps_to(#[trigger] events[i], states[i + 1])
}

/// Whether the lock generation is read and checked as it is: `generations` tells,
/// for each state, the generation while its work is done. From the check until
/// the keys are stored it does not change.
pub open spec fn generations_hold<K, E>(
    states: Seq<UnlockDatabase<K, E>>,
    events: Seq<UnlockDatabaseEvent<K, E>>,
    generations: Seq<u64>,
) -> bool {
    &&& generations.len() == states.len()
    &&& forall|i: int|
        0 <= i < events.len() ==> match (states[i], #[trigger] events[i]) {
            (
                UnlockDatabase::ReadGeneration { .. },
                UnlockDatabaseEvent::GenerationRead(generation),
            ) => generation == generations[i],
            (
                UnlockDatabase::CheckGeneration { lock_generation, .. },
                UnlockDatabaseEvent::GenerationChecked(Ok(_)),
            ) => lock_generation == generations[i] && generations[i + 1] == generations[i],
            (UnlockDatabase::StoreKeys { .. }, _) => generations[i + 1] == generations[i],
            _ => true,
        }
}

/// Keys are stored only once the password was verified, and the lock generation
/// was found unchanged after that. As the vault must not be locked from that
/// check until the keys are stored, the generation in which they are stored is
/// the one that was read at the start: a vault that was locked in between stays
/// locked.
pub proof fn law_stored_keys_outlast_no_lock<K, E>(
    states: Seq<UnlockDatabase<K, E>>,
    events: Seq<UnlockDatabaseEvent<K, E>>,
    generations: Seq<u64>,
    n: int,
)
    requires
        unlock_run(states, events),
        states[0] is ReadGeneration,
        generations_hold(states, events, generations),
        0 <= n <= events.len(),
        states[n] is StoreKeys,
    ensures
        exists|h: int, i: int, j: int|
            {
                &&& 0 <= h < i < j < n
                &&& reads_generation(states[h], #[trigger] events[h], generations[n])
                &&& verifies_keys(
                    states[i],
                    #[trigger] events[i],
                    states[n]->StoreKeys_keys,
                    states[n]->StoreKeys_org_keys,
                )
                &&& finds_unlocked(states[j], #[trigger] events[j])
                &&& generations[h] == generations[n]
                &&& generations[j] == generations[n]
            },
    decreases n,
{
    assert(states[n - 1].steps_to(events[n - 1], states[n]));
    if states[n - 1] is CheckGeneration {
        let i = lemma_checked_keys_were_verified(states, events, n - 1);
        let h = lemma_generation_was_read(states, events, i);
        let j = n - 1;
        lemma_generation_is_kept(states, events, i + 1, n - 1);
        assert(states[i].steps_to(events[i], states[i + 1]));
        assert(finds_unlocked(states[j], events[j]));
        assert(reads_generation(states[h], events[h], generations[n]));
        assert(verifies_keys(
            states[i],
            events[i],
            states[n]->StoreKeys_keys,
            states[n]->StoreKeys_org_keys,
        ));
    } else {
        law_stored_keys_outlast_no_lock(states, events, generations, n - 1);
    }
}

/// Whether the event reads the lock generation at the start.
pub open spec fn reads_generation<K, E>(
    state: UnlockDatabase<K, E>,
    event: UnlockDatabaseEvent<K, E>,
    generation: u64,
) -> bool {
    state is ReadGeneration && event == UnlockDatabaseEvent::<K, E>::GenerationRead(generation)
}

/// The lock generation that a state carries.
spec fn carried<K, E>(state: UnlockDatabase<K, E>) -> Option<u64> {
    match state {
        UnlockDatabase::TakeGate { lock_generation, .. } => Some(lock_generation),
        UnlockDatabase::CheckLocked { lock_generation, .. } => Some(lock_generation),
        UnlockDatabase::Verify { lock_generation, .. } => Some(lock_generation),
        UnlockDatabase::CheckGeneration { lock_generation, .. } => Some(lock_generation),
        _ => None,
    }
}

proof fn lemma_generation_was_read<K, E>(
    states: Seq<UnlockDatabase<K, E>>,
    events: Seq<UnlockDatabaseEvent<K, E>>,
    n: int,
) -> (h: int)
    requires
        unlock_run(states, events),
        states[0] is ReadGeneration,
        0 <= n <= events.len(),
        carried(states[n]) is Some,
    ensures
        0 <= h < n,
        reads_generation(states[h], events[h], carried(states[n])->0),
    decreases n,
{
    assert(states[n - 1].steps_to(events[n - 1], states[n]));
    if states[n - 1] is ReadGeneration {
        n - 1
    } else {
        lemma_generation_was_read(states, events, n - 1)
    }
}

proof fn lemma_generation_is_kept<K, E>(
    states: Seq<UnlockDatabase<K, E>>,
    events: Seq<UnlockDatabaseEvent<K, E>>,
    from: int,
    to: int,
)
    requires
        unlock_run(states, events),
        0 <= from <= to <= events.len(),
        states[from] is CheckGeneration,
        states[to] is CheckGeneration,
    ensures
        carried(states[from]) == carried(states[to]),
    decreases to - from,
{
    if from < to {
        assert(states[from].steps_to(events[from], states[from + 1]));
        if states[from + 1] is CheckGeneration {
            lemma_generation_is_kept(states, events, from + 1, to);
        } else {
            lemma_check_is_left_for_good(states, events, from + 1, to);
        }
    }
}

proof fn lemma_check_is_left_for_good<K, E>(
    states: Seq<UnlockDatabase<K, E>>,
    events: Seq<UnlockDatabaseEvent<K, E>>,
    from: int,
    to: int,
)
    requires
        unlock_run(states, events),
        0 <= from <= to <= events.len(),
        states[from] is StoreKeys || states[from] is Done,
    ensures
        states[to] is StoreKeys || states[to] is Done,
    decreases to - from,
{
    if from < to {
        assert(states[from].steps_to(events[from], states[from + 1]));
        lemma_check_is_left_for_good(states, events, from + 1, to);
    }
}

/// Whether the event verifies the password and hands out the keys.
pub open spec fn verifies_keys<K, E>(
    state: UnlockDatabase<K, E>,
    event: UnlockDatabaseEvent<K, E>,
    keys: K,
    org_keys: OrgKeys<K>,
) -> bool {
    state is Verify && event == UnlockDatabaseEvent::<K, E>::Verified(Ok((keys, org_keys)))
}

/// Whether the event finds the lock generation unchanged after the password was
/// verified.
pub open spec fn finds_unlocked<K, E>(
    state: UnlockDatabase<K, E>,
    event: UnlockDatabaseEvent<K, E>,
) -> bool {
    &&& state is CheckGeneration
    &&& event matches UnlockDatabaseEvent::GenerationChecked(result)
    &&& result is Ok
}

proof fn lemma_checked_keys_were_verified<K, E>(
    states: Seq<UnlockDatabase<K, E>>,
    events: Seq<UnlockDatabaseEvent<K, E>>,
    n: int,
) -> (i: int)
    requires
        unlock_run(states, events),
        states[0] is ReadGeneration,
        0 <= n <= events.len(),
        states[n] is CheckGeneration,
    ensures
        0 <= i < n,
        verifies_keys(
            states[i],
            events[i],
            states[n]->CheckGeneration_keys,
            states[n]->CheckGeneration_org_keys,
        ),
        states[i + 1] is CheckGeneration,
    decreases n,
{
    assert(states[n - 1].steps_to(events[n - 1], states[n]));
    if states[n - 1] is Verify {
        n - 1
    } else {
        lemma_checked_keys_were_verified(states, events, n - 1)
    }
}

/// Throughout an unlocking the lock generation that is checked is the one that
/// was read at its start, and the dialogue is the one that it started with.
pub proof fn law_generation_is_the_first_one<K, E>(
    states: Seq<UnlockDatabase<K, E>>,
    events: Seq<UnlockDatabaseEvent<K, E>>,
    generation: u64,
    n: int,
)
    requires
        unlock_run(states, events),
        states[0] is ReadGeneration,
        events.len() > 0,
        events[0] == UnlockDatabaseEvent::<K, E>::GenerationRead(generation),
        1 <= n <= events.len(),
    ensures
        !(states[n] is ReadGeneration),
        states[n] matches UnlockDatabase::TakeGate { lock_generation, dialogue } ==> lock_generation
            == generation && dialogue == states[0]->ReadGeneration_dialogue,
        states[n] matches UnlockDatabase::CheckLocked { lock_generation, dialogue }
            ==> lock_generation == generation && dialogue == states[0]->ReadGeneration_dialogue,
        states[n] matches UnlockDatabase::Verify { lock_generation, dialogue } ==> lock_generation
            == generation && dialogue == states[0]->ReadGeneration_dialogue,
        states[n] matches UnlockDatabase::CheckGeneration { lock_generation, .. }
            ==> lock_generation == generation,
    decreases n,
{
    assert(states[n - 1].steps_to(events[n - 1], states[n]));
    if n > 1 {
        law_generation_is_the_first_one(states, events, generation, n - 1);
    }
}

/// The request to unlock the vault.
#[derive(Debug)]
pub enum Unlock<E> {
    LoadPinentry { profile: String },
    UnlockDatabase { dialogue: UnlockDialogue },
    RefreshCache,
    Warn { warning: Warning, error: Error<E> },
    Respond,
    Done(Result<(), Error<E>>),
}

#[derive(Debug)]
pub enum UnlockEvent<E> {
    PinentryLoaded(Result<String, E>),
    Unlocked(Result<(), Error<E>>),
    CacheRefreshed(Result<(), Error<E>>),
    Warned,
    Responded(Result<(), E>),
}

impl<E> Unlock<E> {
    /// Where an event leads. One that the state does not wait for changes
    /// nothing.
    pub open spec fn steps_to(self, event: UnlockEvent<E>, after: Self) -> bool {
        match (self, event) {
            (Unlock::LoadPinentry { profile }, UnlockEvent::PinentryLoaded(result)) => match result {
                Ok(pinentry) => after matches Unlock::UnlockDatabase { dialogue } && dialogue.is_for(
                    pinentry,
                    profile@,
                ),
                Err(error) => after == Self::Done(Err(Error::Forwarded(error))),
            },
            (Unlock::UnlockDatabase { .. }, UnlockEvent::Unlocked(result)) => after == match result {
                Ok(_) => Self::RefreshCache,
                Err(error) => Self::Done(Err(error)),
            },
            (Unlock::RefreshCache, UnlockEvent::CacheRefreshed(result)) => after == match result {
                Ok(_) => Self::Respond,
                Err(error) => Self::Warn { warning: Warning::RefreshPublicKeyCache, error },
            },
            (Unlock::Warn { .. }, UnlockEvent::Warned) => after == Self::Respond,
            (Unlock::Respond, UnlockEvent::Responded(result)) => after == Self::Done(
                match result {
                    Ok(_) => Ok(()),
                    Err(error) => Err(Error::Forwarded(error)),
                },
            ),
            _ => after == self,
        }
    }
}

/// Moves a request to unlock the vault on. A public key cache that cannot be
/// refreshed does not make it fail.
pub fn unlock<E>(state: Unlock<E>, event: UnlockEvent<E>) -> (after: Unlock<E>)
    ensures
        state.steps_to(event, after),
{
    match (state, event) {
        (Unlock::LoadPinentry { profile }, UnlockEvent::PinentryLoaded(result)) => match result {
            Ok(pinentry) => Unlock::UnlockDatabase {
                dialogue: UnlockDialogue::new(pinentry, profile.as_str()),
            },
            Err(error) => Unlock::Done(Err(Error::Forwarded(error))),
        },
        (Unlock::UnlockDatabase { .. }, UnlockEvent::Unlocked(result)) => match result {
            Ok(_) => Unlock::RefreshCache,
            Err(error) => Unlock::Done(Err(error)),
        },
        (Unlock::RefreshCache, UnlockEvent::CacheRefreshed(result)) => match result {
            Ok(_) => Unlock::Respond,
            Err(error) => Unlock::Warn { warning: Warning::RefreshPublicKeyCache, error },
        },
        (Unlock::Warn { .. }, UnlockEvent::Warned) => Unlock::Respond,
        (Unlock::Respond, UnlockEvent::Responded(result)) => match result {
            Ok(_) => Unlock::Done(Ok(())),
            Err(error) => Unlock::Done(Err(Error::Forwarded(error))),
        },
        (state, _) => state,
    }
}

/// The request to lock the vault.
#[derive(Debug)]
pub enum Lock<E> {
    /// Forgets the keys and starts a new lock generation.
    Clear,
    Respond,
    Done(Result<(), E>),
}

#[derive(Debug)]
pub enum LockEvent<E> {
    Cleared,
    Responded(Result<(), E>),
}

impl<E> Lock<E> {
    /// Where an event leads. One that the state does not wait for changes
    /// nothing.
    pub open spec fn steps_to(self, event: LockEvent<E>, after: Self) -> bool {
        match (self, event) {
            (Lock::Clear, LockEvent::Cleared) => after == Self::Respond,
            (Lock::Respond, LockEvent::Responded(result)) => after == Self::Done(result),
            _ => after == self,
        }
    }
}

/// Moves a request to lock the vault on.
pub fn lock<E>(state: Lock<E>, event: LockEvent<E>) -> (after: Lock<E>)
    ensures
        state.steps_to(event, after),
{
    match (state, event) {
        (Lock::Clear, LockEvent::Cleared) => Lock::Respond,
        (Lock::Respond, LockEvent::Responded(result)) => Lock::Done(result),
        (state, _) => state,
    }
}

/// The request that asks whether the vault is unlocked.
pub fn check_lock(needs_unlock: bool) -> (r: Result<(), Failure>)
    ensures
        r == (if needs_unlock {
            Err(Failure::AgentLocked)
        } else {
            Ok(())
        }),
{
    if needs_unlock {
        return Err(Failure::AgentLocked);
    }
    Ok(())
}

} // verus!
