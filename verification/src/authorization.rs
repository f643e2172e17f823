//! The consent of the user to an SSH signature.
use vstd::prelude::*;
use vstd::string::StringExecFns;
use crate::config::{Config, SshAgentConfirmation};
use crate::db::{keys_for, OrgKeys};
use crate::error::{Error, Failure};
use crate::text;

verus! {

/// The permission for one signature, with the keys that the master password
/// opened for it where it was asked for.
#[derive(Debug)]
pub struct SshAuthorization<K> {
    pub keys: Option<K>,
    pub org_keys: Option<OrgKeys<K>>,
    pub lock_generation: u64,
}

impl<K> SshAuthorization<K> {
    /// The keys of organisations, where there are any.
    pub open spec fn org_map(self) -> Option<Map<Seq<char>, K>> {
        match self.org_keys {
            Some(org_keys) => Some(org_keys@),
            None => None,
        }
    }

    /// The lock generation for which the permission was given.
    pub fn lock_generation(&self) -> (r: u64)
        ensures
            r == self.lock_generation,
    {
        self.lock_generation
    }

    /// The keys for the entries of an organisation, or of the owner.
    pub fn key(&self, org_id: Option<&str>) -> (r: Option<&K>)
        ensures
            match r {
                Some(keys) => Some(*keys),
                None => None,
            } == keys_for(self.keys, self.org_map(), org_id.deep_view()),
    {
        match org_id {
            None => self.keys.as_ref(),
            Some(id) => match &self.org_keys {
                Some(org_keys) => org_keys.get(id),
                None => None,
            },
        }
    }

    /// A permission that was given without asking.
    pub fn unconfirmed(lock_generation: u64) -> (r: Self)
        ensures
            r == (SshAuthorization::<K> { keys: None, org_keys: None, lock_generation }),
    {
        SshAuthorization { keys: None, org_keys: None, lock_generation }
    }
}

/// What the user is told of a signature.
pub open spec fn signature_description(requester: Seq<char>, fingerprint: Seq<char>) -> Seq<char> {
    "SSH signature request\\n\\nProcess: "@ + requester + "\\nKey: "@ + fingerprint
        + "\\n\\nEnter your master password to authorize this request."@
}

fn describe_signature(requester: &str, fingerprint: &str) -> (r: String)
    ensures
        r@ == signature_description(requester@, fingerprint@),
{
    let mut r = text::concat("SSH signature request\\n\\nProcess: ", requester);
    r.append("\\nKey: ");
    r.append(fingerprint);
    r.append("\\n\\nEnter your master password to authorize this request.");
    r
}

/// The wish for a signature: where to ask, who asks and for which key.
#[derive(Debug, Clone)]
pub struct SignatureWish {
    /// The program that shows the dialogue, where one is known.
    pub pinentry: Option<String>,
    pub requester: String,
    pub key_fingerprint: String,
}

/// An authorisation under way. From `TakeGate` on it is one exchange with
/// pinentry.
#[derive(Debug)]
pub enum Authorize<K, E> {
    ReadGeneration { wish: SignatureWish },
    LoadConfig { wish: SignatureWish, lock_generation: u64 },
    TakeGate { lock_generation: u64, pinentry: String, description: String },
    CheckBeforePrompt { lock_generation: u64, pinentry: String, description: String },
    Verify { lock_generation: u64, pinentry: String, description: String },
    CheckGeneration { lock_generation: u64, keys: K, org_keys: OrgKeys<K> },
    Done(Result<SshAuthorization<K>, Error<E>>),
}

#[derive(Debug)]
pub enum AuthorizeEvent<K, E> {
    GenerationRead(u64),
    ConfigLoaded(Result<Config, E>),
    GateTaken,
    /// Whether the lock generation is still the one that the state names.
    GenerationChecked(Result<(), E>),
    Verified(Result<(K, OrgKeys<K>), Error<E>>),
    TimedOut(E),
}

impl<K, E> Authorize<K, E> {
    /// Whether the exchange with pinentry is under way.
    pub open spec fn in_transaction(self) -> bool {
        self is TakeGate || self is CheckBeforePrompt || self is Verify || self is CheckGeneration
    }

    /// Where an event leads. One that the state does not wait for changes
    /// nothing.
    pub open spec fn steps_to(self, event: AuthorizeEvent<K, E>, after: Self) -> bool {
        if event is TimedOut && self.in_transaction() {
            after == Self::Done(
                Err(Error::Caused(Failure::PinentryTimedOut, event->TimedOut_0)),
            )
        } else {
            match (self, event) {
                (
                    Authorize::ReadGeneration { wish },
                    AuthorizeEvent::GenerationRead(lock_generation),
                ) => after == (Self::LoadConfig { wish, lock_generation }),
                (
                    Authorize::LoadConfig { wish, lock_generation: generation },
                    AuthorizeEvent::ConfigLoaded(Ok(config)),
                ) => if config.ssh_agent_confirmation == SshAgentConfirmation::Never {
                    after == Self::Done(
                        Ok(
                            SshAuthorization {
                                keys: None,
                                org_keys: None,
                                lock_generation: generation,
                            },
                        ),
                    )
                } else {
                    match wish.pinentry {
                        None => after == Self::Done(
                            Err(Error::Refused(Failure::ConfirmationNeedsGuiPinentry)),
                        ),
                        Some(program) => {
                            &&& after matches Authorize::TakeGate {
                                lock_generation,
                                pinentry,
                                description,
                            }
                            &&& lock_generation == generation
                            &&& pinentry == program
                            &&& description@ == signature_description(
                                wish.requester@,
                                wish.key_fingerprint@,
                            )
                        },
                    }
                },
                (Authorize::LoadConfig { .. }, AuthorizeEvent::ConfigLoaded(Err(error))) => {
                    after == Self::Done(Err(Error::Forwarded(error)))
                },
                (
                    Authorize::TakeGate { lock_generation, pinentry, description },
                    AuthorizeEvent::GateTaken,
                ) => after == (Self::CheckBeforePrompt { lock_generation, pinentry, description }),
                (
                    Authorize::CheckBeforePrompt { lock_generation, pinentry, description },
                    AuthorizeEvent::GenerationChecked(result),
                ) => after == match result {
                    Ok(_) => Self::Verify { lock_generation, pinentry, description },
                    Err(error) => Self::Done(
                        Err(Error::Caused(Failure::SshAuthorizationInvalidatedBeforePrompt, error)),
                    ),
                },
                (
                    Authorize::Verify { lock_generation, pinentry, description },
                    AuthorizeEvent::Verified(result),
                ) => after == match result {
                    Ok((keys, org_keys)) => Self::CheckGeneration {
                        lock_generation,
                        keys,
                        org_keys,
                    },
                    Err(error) => Self::Done(Err(error)),
                },
                (
                    Authorize::CheckGeneration { lock_generation, keys, org_keys },
                    AuthorizeEvent::GenerationChecked(result),
                ) => after == Self::Done(
                    match result {
                        Ok(_) => Ok(
                            SshAuthorization {
                                keys: Some(keys),
                                org_keys: Some(org_keys),
                                lock_generation,
                            },
                        ),
                        Err(error) => Err(
                            Error::Caused(Failure::SshAuthorizationInvalidated, error),
                        ),
                    },
                ),
                _ => after == self,
            }
        }
    }

    /// The lock generation that the authorisation rests on, once it was read.
    pub open spec fn generation(self) -> Option<u64> {
        match self {
            Authorize::ReadGeneration { .. } => None,
            Authorize::LoadConfig { lock_generation, .. } => Some(lock_generation),
            Authorize::TakeGate { lock_generation, .. } => Some(lock_generation),
            Authorize::CheckBeforePrompt { lock_generation, .. } => Some(lock_generation),
            Authorize::Verify { lock_generation, .. } => Some(lock_generation),
            Authorize::CheckGeneration { lock_generation, .. } => Some(lock_generation),
            Authorize::Done(Ok(authorization)) => Some(authorization.lock_generation),
            Authorize::Done(Err(_)) => None,
        }
    }
}

/// Moves an authorisation on.
pub fn authorize_ssh_sign<K, E>(
    state: Authorize<K, E>,
    event: AuthorizeEvent<K, E>,
) -> (after: Authorize<K, E>)
    ensures
        state.steps_to(event, after),
{
    match (state, event) {
        (Authorize::ReadGeneration { wish }, AuthorizeEvent::GenerationRead(lock_generation)) => {
            Authorize::LoadConfig { wish, lock_generation }
        },
        (
            Authorize::LoadConfig { wish, lock_generation },
            AuthorizeEvent::ConfigLoaded(Ok(config)),
        ) => {
            if config.ssh_agent_confirmation == SshAgentConfirmation::Never {
                return Authorize::Done(Ok(SshAuthorization::unconfirmed(lock_generation)));
            }
            let description = describe_signature(
                wish.requester.as_str(),
                wish.key_fingerprint.as_str(),
            );
            match wish.pinentry {
                None => Authorize::Done(Err(Error::Refused(Failure::ConfirmationNeedsGuiPinentry))),
                Some(pinentry) => Authorize::TakeGate { lock_generation, pinentry, description },
            }
        },
        (Authorize::LoadConfig { .. }, AuthorizeEvent::ConfigLoaded(Err(error))) => {
            Authorize::Done(Err(Error::Forwarded(error)))
        },
        (
            Authorize::TakeGate { lock_generation, pinentry, description },
            AuthorizeEvent::GateTaken,
        ) => Authorize::CheckBeforePrompt { lock_generation, pinentry, description },
        (
            Authorize::CheckBeforePrompt { lock_generation, pinentry, description },
            AuthorizeEvent::GenerationChecked(result),
        ) => match result {
            Ok(_) => Authorize::Verify { lock_generation, pinentry, description },
            Err(error) => Authorize::Done(
                Err(Error::Caused(Failure::SshAuthorizationInvalidatedBeforePrompt, error)),
            ),
        },
        (Authorize::Verify { lock_generation, .. }, AuthorizeEvent::Verified(result)) => {
            match result {
                Ok((keys, org_keys)) => Authorize::CheckGeneration {
                    lock_generation,
                    keys,
                    org_keys,
                },
                Err(error) => Authorize::Done(Err(error)),
            }
        },
        (
            Authorize::CheckGeneration { lock_generation, keys, org_keys },
            AuthorizeEvent::GenerationChecked(result),
        ) => match result {
            Ok(_) => Authorize::Done(
                Ok(
                    SshAuthorization {
                        keys: Some(keys),
                        org_keys: Some(org_keys),
                        lock_generation,
                    },
                ),
            ),
            Err(error) => Authorize::Done(
                Err(Error::Caused(Failure::SshAuthorizationInvalidated, error)),
            ),
        },
        (
            Authorize::TakeGate { .. }
            | Authorize::CheckBeforePrompt { .. }
            | Authorize::Verify { .. }
            | Authorize::CheckGeneration { .. },
            AuthorizeEvent::TimedOut(elapsed),
        ) => Authorize::Done(Err(Error::Caused(Failure::PinentryTimedOut, elapsed))),
        (state, _) => state,
    }
}

/// Whether `events` lead through `states` one after the other.
pub open spec fn authorization_run<K, E>(
    states: Seq<Authorize<K, E>>,
    events: Seq<AuthorizeEvent<K, E>>,
) -> bool {
    &&& states.len() == events.len() + 1
    &&& forall|i: int|
        0 <= i < events.len() ==> states[i].steps_to(#[trigger] events[i], states[i + 1])
}

/// A permission carries the lock generation that was read when it was asked
/// for, whatever happened meanwhile.
pub proof fn law_permission_keeps_its_generation<K, E>(
    states: Seq<Authorize<K, E>>,
    events: Seq<AuthorizeEvent<K, E>>,
    generation: u64,
    n: int,
)
    requires
        authorization_run(states, events),
        states[0] is ReadGeneration,
        events.len() > 0,
        events[0] == AuthorizeEvent::<K, E>::GenerationRead(generation),
        1 <= n <= events.len(),
    ensures
        states[n].generation() == Some(generation) || states[n] matches Authorize::Done(Err(_)),
    decreases n,
{
    assert(states[n - 1].steps_to(events[n - 1], states[n]));
    if n > 1 {
        law_permission_keeps_its_generation(states, events, generation, n - 1);
    }
}

/// A permission holds keys only if the master password opened them, and the
/// lock generation was found unchanged before the dialogue and after it.
pub proof fn law_keys_need_the_password_and_no_lock<K, E>(
    states: Seq<Authorize<K, E>>,
    events: Seq<AuthorizeEvent<K, E>>,
    keys: K,
    org_keys: OrgKeys<K>,
    lock_generation: u64,
)
    requires
        authorization_run(states, events),
        states[0] is ReadGeneration,
        states.last() == Authorize::<K, E>::Done(
            Ok(
                SshAuthorization {
                    keys: Some(keys),
                    org_keys: Some(org_keys),
                    lock_generation,
                },
            ),
        ),
    ensures
        exists|a: int, b: int, c: int|
            {
                &&& 0 <= a < b < c < events.len()
                &&& states[a] is CheckBeforePrompt
                &&& (#[trigger] events[a]) is GenerationChecked
                &&& events[a]->GenerationChecked_0 is Ok
                &&& states[b] is Verify
                &&& #[trigger] events[b] == AuthorizeEvent::<K, E>::Verified(Ok((keys, org_keys)))
                &&& states[c] is CheckGeneration
                &&& (#[trigger] events[c]) is GenerationChecked
                &&& events[c]->GenerationChecked_0 is Ok
            },
{
    let c = lemma_permission_was_checked(
        states,
        events,
        keys,
        org_keys,
        lock_generation,
        events.len() as int,
    );
    let b = lemma_checked_keys_were_verified(states, events, c);
    let a = lemma_dialogue_was_checked(states, events, b);
    assert(events[a] is GenerationChecked && events[c] is GenerationChecked);
    assert(events[b] == AuthorizeEvent::<K, E>::Verified(Ok((keys, org_keys))));
}

proof fn lemma_permission_was_checked<K, E>(
    states: Seq<Authorize<K, E>>,
    events: Seq<AuthorizeEvent<K, E>>,
    keys: K,
    org_keys: OrgKeys<K>,
    lock_generation: u64,
    n: int,
) -> (c: int)
    requires
        authorization_run(states, events),
        states[0] is ReadGeneration,
        0 <= n <= events.len(),
        states[n] == Authorize::<K, E>::Done(
            Ok(
                SshAuthorization {
                    keys: Some(keys),
                    org_keys: Some(org_keys),
                    lock_generation,
                },
            ),
        ),
    ensures
        0 <= c < n,
        states[c] == (Authorize::<K, E>::CheckGeneration { lock_generation, keys, org_keys }),
        events[c] is GenerationChecked,
        events[c]->GenerationChecked_0 is Ok,
    decreases n,
{
    assert(states[n - 1].steps_to(events[n - 1], states[n]));
    if states[n - 1] is CheckGeneration {
        n - 1
    } else {
        lemma_permission_was_checked(states, events, keys, org_keys, lock_generation, n - 1)
    }
}

proof fn lemma_checked_keys_were_verified<K, E>(
    states: Seq<Authorize<K, E>>,
    events: Seq<AuthorizeEvent<K, E>>,
    n: int,
) -> (b: int)
    requires
        authorization_run(states, events),
        states[0] is ReadGeneration,
        0 <= n <= events.len(),
        states[n] is CheckGeneration,
    ensures
        0 <= b < n,
        states[b] is Verify,
        events[b] == AuthorizeEvent::<K, E>::Verified(
            Ok((states[n]->CheckGeneration_keys, states[n]->CheckGeneration_org_keys)),
        ),
    decreases n,
{
    assert(states[n - 1].steps_to(events[n - 1], states[n]));
    if states[n - 1] is Verify {
        n - 1
    } else {
        lemma_checked_keys_were_verified(states, events, n - 1)
    }
}

proof fn lemma_dialogue_was_checked<K, E>(
    states: Seq<Authorize<K, E>>,
    events: Seq<AuthorizeEvent<K, E>>,
    n: int,
) -> (a: int)
    requires
        authorization_run(states, events),
        states[0] is ReadGeneration,
        0 <= n <= events.len(),
        states[n] is Verify,
    ensures
        0 <= a < n,
        states[a] is CheckBeforePrompt,
        events[a] is GenerationChecked,
        events[a]->GenerationChecked_0 is Ok,
    decreases n,
{
    assert(states[n - 1].steps_to(events[n - 1], states[n]));
    if states[n - 1] is CheckBeforePrompt {
        n - 1
    } else {
        lemma_dialogue_was_checked(states, events, n - 1)
    }
}

/// Where signatures are to be confirmed, no permission comes without keys.
pub proof fn law_confirmation_is_not_skipped<K, E>(
    states: Seq<Authorize<K, E>>,
    events: Seq<AuthorizeEvent<K, E>>,
    n: int,
)
    requires
        authorization_run(states, events),
        states[0] is ReadGeneration,
        0 <= n <= events.len(),
        forall|i: int|
            0 <= i < events.len() && (#[trigger] events[i]) is ConfigLoaded
                && events[i]->ConfigLoaded_0 is Ok
                ==> events[i]->ConfigLoaded_0->Ok_0.ssh_agent_confirmation
                == SshAgentConfirmation::Always,
    ensures
        states[n] matches Authorize::Done(Ok(authorization)) ==> authorization.keys is Some
            && authorization.org_keys is Some,
    decreases n,
{
    if n > 0 {
        law_confirmation_is_not_skipped(states, events, n - 1);
        assert(states[n - 1].steps_to(events[n - 1], states[n]));
    }
}

/// A permission that was given without asking opens nothing.
pub proof fn law_unconfirmed_opens_nothing<K>(
    authorization: SshAuthorization<K>,
    org_id: Option<Seq<char>>,
)
    requires
        authorization.keys is None,
        authorization.org_keys is None,
    ensures
        keys_for(authorization.keys, authorization.org_map(), org_id) is None,
{
}

} // verus!
