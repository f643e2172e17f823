//! What holds of every registration and every login.
use vstd::prelude::*;
use crate::db::Db;
use crate::error::{Error, Failure, Reply};
use crate::login::{
    logged_in, session_key, Login, LoginEvent, LoginReply, LoginSuccess, LoginSuccessEvent, Register,
    RegisterEvent, Session, SessionKey, TwoFactor, TwoFactorEvent,
};
use crate::prompt::AttemptsView;

verus! {

/// Whether `events` lead through `states` one after the other.
pub open spec fn registration_run<P, E>(
    states: Seq<Register<P, E>>,
    events: Seq<RegisterEvent<P, E>>,
) -> bool {
    &&& states.len() == events.len() + 1
    &&& forall|i: int|
        0 <= i < events.len() ==> states[i].steps_to(#[trigger] events[i], states[i + 1])
}

/// Whether the event turns an API key down.
pub open spec fn key_turned_down<P, E>(state: Register<P, E>, event: RegisterEvent<P, E>) -> bool {
    &&& state is Register
    &&& event matches RegisterEvent::Registered(reply)
    &&& reply is IncorrectPassword
}

/// How many API keys the first `n` events of a run turned down.
pub open spec fn keys_turned_down<P, E>(
    states: Seq<Register<P, E>>,
    events: Seq<RegisterEvent<P, E>>,
    n: int,
) -> int
    decreases n,
{
    if n <= 0 {
        0
    } else {
        keys_turned_down(states, events, n - 1) + if key_turned_down(states[n - 1], events[n - 1]) {
            1int
        } else {
            0int
        }
    }
}

/// The number of the attempt that a registration is in, where it is in one.
pub open spec fn registration_attempt<P, E>(state: Register<P, E>) -> Option<AttemptsView> {
    match state {
        Register::AskClientId { attempts, .. } => Some(attempts@),
        Register::AskClientSecret { attempts, .. } => Some(attempts@),
        Register::Register { attempts, .. } => Some(attempts@),
        _ => None,
    }
}

/// A registration has at most three API keys turned down, and the third ends it
/// with an error. Until it ends, the attempt is numbered by the keys that were
/// turned down before it.
pub proof fn law_three_api_keys<P, E>(
    states: Seq<Register<P, E>>,
    events: Seq<RegisterEvent<P, E>>,
    n: int,
)
    requires
        registration_run(states, events),
        states[0] is LoadDb,
        0 <= n <= events.len(),
    ensures
        0 <= keys_turned_down(states, events, n) <= 3,
        keys_turned_down(states, events, n) == 3 ==> states[n] matches Register::Done(
            Err(Error::IncorrectPassword(Failure::LogIn, _)),
        ),
        registration_attempt(states[n]) matches Some(attempt) ==> attempt.number
            == keys_turned_down(states, events, n) + 1,
        states[n] is LoadDb || states[n] is LoadBaseUrl || states[n] is LoadEmail
            ==> keys_turned_down(states, events, n) == 0,
    decreases n,
{
    if n > 0 {
        law_three_api_keys(states, events, n - 1);
        assert(states[n - 1].steps_to(events[n - 1], states[n]));
    }
}

/// Whether the event says that no login is needed, or accepts an API key.
pub open spec fn registration_granted<P, E>(
    state: Register<P, E>,
    event: RegisterEvent<P, E>,
) -> bool {
    match state {
        Register::LoadDb => event == (RegisterEvent::<P, E>::DbLoaded { needs_login: false }),
        Register::Register { .. } => event matches RegisterEvent::Registered(Reply::Accepted(_)),
        _ => false,
    }
}

/// A registration succeeds only if no login was needed or the server accepted an
/// API key.
pub proof fn law_registration_was_accepted<P, E>(
    states: Seq<Register<P, E>>,
    events: Seq<RegisterEvent<P, E>>,
    n: int,
)
    requires
        registration_run(states, events),
        states[0] is LoadDb,
        0 <= n <= events.len(),
        states[n] is Respond || states[n] matches Register::Done(Ok(_)),
    ensures
        exists|i: int|
            0 <= i < n && registration_granted(states[i], #[trigger] events[i]),
    decreases n,
{
    assert(states[n - 1].steps_to(events[n - 1], states[n]));
    if states[n - 1] is Respond || states[n - 1] matches Register::Done(Ok(_)) {
        law_registration_was_accepted(states, events, n - 1);
    } else {
        let i = n - 1;
        assert(registration_granted(states[i], events[i]));
    }
}

/// Whether `events` lead through `states` one after the other.
pub open spec fn login_run<T, O, N, P, E>(
    states: Seq<Login<T, O, N, P, E>>,
    events: Seq<LoginEvent<T, O, N, P, E>>,
) -> bool {
    &&& states.len() == events.len() + 1
    &&& forall|i: int|
        0 <= i < events.len() ==> states[i].steps_to(#[trigger] events[i], states[i + 1])
}

/// Whether the event turns a password down.
pub open spec fn password_turned_down<T, O, N, P, E>(
    state: Login<T, O, N, P, E>,
    event: LoginEvent<T, O, N, P, E>,
) -> bool {
    &&& state is LogIn
    &&& event matches LoginEvent::LoggedIn(reply)
    &&& reply is IncorrectPassword
}

/// How many passwords the first `n` events of a run turned down.
pub open spec fn passwords_turned_down<T, O, N, P, E>(
    states: Seq<Login<T, O, N, P, E>>,
    events: Seq<LoginEvent<T, O, N, P, E>>,
    n: int,
) -> int
    decreases n,
{
    if n <= 0 {
        0
    } else {
        passwords_turned_down(states, events, n - 1) + if password_turned_down(
            states[n - 1],
            events[n - 1],
        ) {
            1int
        } else {
            0int
        }
    }
}

/// The attempt that a login is in, where it is in one.
pub open spec fn login_attempt<T, O, N, P, E>(state: Login<T, O, N, P, E>) -> Option<
    AttemptsView,
> {
    match state {
        Login::AskPassword { attempts, .. } => Some(attempts@),
        Login::LogIn { attempts, .. } => Some(attempts@),
        _ => None,
    }
}

/// A login has at most three passwords turned down, and the third ends it with
/// an error. Until then the attempt is numbered by the passwords that were
/// turned down before it.
pub proof fn law_three_login_passwords<T, O, N, P, E>(
    states: Seq<Login<T, O, N, P, E>>,
    events: Seq<LoginEvent<T, O, N, P, E>>,
    n: int,
)
    requires
        login_run(states, events),
        states[0] is LoadDb,
        0 <= n <= events.len(),
    ensures
        0 <= passwords_turned_down(states, events, n) <= 3,
        passwords_turned_down(states, events, n) == 3 ==> states[n] matches Login::Done(
            Err(Error::IncorrectPassword(Failure::LogIn, _)),
        ),
        login_attempt(states[n]) matches Some(attempt) ==> attempt.number == passwords_turned_down(
            states,
            events,
            n,
        ) + 1,
        states[n] is LoadDb || states[n] is LoadBaseUrl || states[n] is LoadEmail
            ==> passwords_turned_down(states, events, n) == 0,
    decreases n,
{
    if n > 0 {
        law_three_login_passwords(states, events, n - 1);
        assert(states[n - 1].steps_to(events[n - 1], states[n]));
    }
}

/// Whether the event hands out the session.
pub open spec fn hands_out<T, O, N, P, E>(
    state: Login<T, O, N, P, E>,
    event: LoginEvent<T, O, N, P, E>,
    session: Session<T>,
) -> bool {
    ||| state is LogIn && event == LoginEvent::<T, O, N, P, E>::LoggedIn(
        LoginReply::Accepted(session),
    )
    ||| state is TwoFactor && event == LoginEvent::<T, O, N, P, E>::SecondFactor(Ok(session))
}

/// A login goes on only with a session that the server handed out in it, for the
/// password or for a second factor.
pub proof fn law_session_was_handed_out<T, O, N, P, E>(
    states: Seq<Login<T, O, N, P, E>>,
    events: Seq<LoginEvent<T, O, N, P, E>>,
    n: int,
)
    requires
        login_run(states, events),
        states[0] is LoadDb,
        0 <= n <= events.len(),
        states[n] is LoginSuccess,
    ensures
        exists|i: int|
            0 <= i < n && hands_out(
                states[i],
                #[trigger] events[i],
                states[n]->LoginSuccess_session,
            ),
    decreases n,
{
    assert(states[n - 1].steps_to(events[n - 1], states[n]));
    if states[n - 1] is LoginSuccess {
        law_session_was_handed_out(states, events, n - 1);
    } else {
        let i = n - 1;
        assert(hands_out(states[i], events[i], states[n]->LoginSuccess_session));
    }
}

/// Whether the event says that no login is needed, or that what follows an
/// accepted session succeeded.
pub open spec fn login_granted<T, O, N, P, E>(
    state: Login<T, O, N, P, E>,
    event: LoginEvent<T, O, N, P, E>,
) -> bool {
    match state {
        Login::LoadDb => event matches LoginEvent::DbLoaded { needs_login: false, .. },
        Login::LoginSuccess { .. } => event matches LoginEvent::Succeeded(Ok(_)),
        _ => false,
    }
}

/// A login succeeds only if none was needed or what follows an accepted session
/// succeeded.
pub proof fn law_login_was_accepted<T, O, N, P, E>(
    states: Seq<Login<T, O, N, P, E>>,
    events: Seq<LoginEvent<T, O, N, P, E>>,
    n: int,
)
    requires
        login_run(states, events),
        states[0] is LoadDb,
        0 <= n <= events.len(),
        states[n] is Respond || states[n] matches Login::Done(Ok(_)),
    ensures
        exists|i: int|
            0 <= i < n && login_granted(states[i], #[trigger] events[i]),
    decreases n,
{
    assert(states[n - 1].steps_to(events[n - 1], states[n]));
    if states[n - 1] is Respond || states[n - 1] matches Login::Done(Ok(_)) {
        law_login_was_accepted(states, events, n - 1);
    } else {
        let i = n - 1;
        assert(login_granted(states[i], events[i]));
    }
}

/// Whether `events` lead through `states` one after the other.
pub open spec fn second_factor_run<T, P, E>(
    states: Seq<TwoFactor<T, P, E>>,
    events: Seq<TwoFactorEvent<T, E>>,
) -> bool {
    &&& states.len() == events.len() + 1
    &&& forall|i: int|
        0 <= i < events.len() ==> states[i].steps_to(#[trigger] events[i], states[i + 1])
}

/// Whether the event turns a code down.
pub open spec fn code_turned_down<T, P, E>(
    state: TwoFactor<T, P, E>,
    event: TwoFactorEvent<T, E>,
) -> bool {
    &&& state is LogIn
    &&& event matches TwoFactorEvent::LoggedIn(reply)
    &&& (reply is IncorrectPassword || reply is TwoFactorRequired)
}

/// How many codes the first `n` events of a run turned down.
pub open spec fn codes_turned_down<T, P, E>(
    states: Seq<TwoFactor<T, P, E>>,
    events: Seq<TwoFactorEvent<T, E>>,
    n: int,
) -> int
    decreases n,
{
    if n <= 0 {
        0
    } else {
        codes_turned_down(states, events, n - 1) + if code_turned_down(
            states[n - 1],
            events[n - 1],
        ) {
            1int
        } else {
            0int
        }
    }
}

/// The attempt that a login with a second factor is in, where it is in one.
pub open spec fn code_attempt<T, P, E>(state: TwoFactor<T, P, E>) -> Option<AttemptsView> {
    match state {
        TwoFactor::AskCode { attempts, .. } => Some(attempts@),
        TwoFactor::LogIn { attempts, .. } => Some(attempts@),
        TwoFactor::Done(_) => None,
    }
}

/// A login with a second factor has at most three codes turned down, and the
/// third ends it with an error. Until then the attempt is numbered by the codes
/// that were turned down before it.
pub proof fn law_three_codes<T, P, E>(
    states: Seq<TwoFactor<T, P, E>>,
    events: Seq<TwoFactorEvent<T, E>>,
    n: int,
)
    requires
        second_factor_run(states, events),
        code_attempt(states[0]) == Some(AttemptsView::first()),
        0 <= n <= events.len(),
    ensures
        0 <= codes_turned_down(states, events, n) <= 3,
        codes_turned_down(states, events, n) == 3 ==> states[n] matches TwoFactor::Done(
            Err(Error::IncorrectPassword(Failure::LogIn, _)),
        ),
        code_attempt(states[n]) matches Some(attempt) ==> attempt.number == codes_turned_down(
            states,
            events,
            n,
        ) + 1,
    decreases n,
{
    if n > 0 {
        law_three_codes(states, events, n - 1);
        assert(states[n - 1].steps_to(events[n - 1], states[n]));
    }
}

/// Whether `events` lead through `states` one after the other.
pub open spec fn login_success_run<T, O, N, P, K, E>(
    states: Seq<LoginSuccess<T, O, N, P, K, E>>,
    events: Seq<LoginSuccessEvent<T, O, N, K, E>>,
) -> bool {
    &&& states.len() == events.len() + 1
    &&& forall|i: int|
        0 <= i < events.len() ==> states[i].steps_to(#[trigger] events[i], states[i + 1])
}

/// What of the session a state still carries.
pub open spec fn carried_key<T, O, N, P, K, E>(state: LoginSuccess<T, O, N, P, K, E>) -> Option<
    SessionKey<T>,
> {
    match state {
        LoginSuccess::SaveDb { key, .. } => Some(key),
        LoginSuccess::Sync { key, .. } => Some(key),
        LoginSuccess::LoadDb { key, .. } => Some(key),
        LoginSuccess::Unlock { secrets, .. } => Some(
            SessionKey {
                kdf: secrets.kdf,
                iterations: secrets.iterations,
                memory: secrets.memory,
                parallelism: secrets.parallelism,
                protected_key: secrets.protected_key,
            },
        ),
        _ => None,
    }
}

/// After a login the vault is unlocked with the key of the session that the
/// server handed out, not with one that the database held.
pub proof fn law_login_unlocks_with_the_session<T, O, N, P, K, E>(
    states: Seq<LoginSuccess<T, O, N, P, K, E>>,
    events: Seq<LoginSuccessEvent<T, O, N, K, E>>,
    db: Db<T, O, N>,
    session: Session<T>,
    password: P,
    email: String,
    n: int,
)
    requires
        login_success_run(states, events),
        states[0] == (LoginSuccess::<T, O, N, P, K, E>::SaveDb {
            db: logged_in(db, session),
            key: session_key(session),
            password,
            email,
        }),
        0 <= n <= events.len(),
    ensures
        carried_key(states[n]) matches Some(key) ==> key == session_key(session),
        states[n] matches LoginSuccess::Unlock { password: p, email: m, .. } ==> p == password && m
            == email,
        states[n] matches LoginSuccess::Sync { password: p, email: m, .. } ==> p == password && m
            == email,
        states[n] matches LoginSuccess::LoadDb { password: p, email: m, .. } ==> p == password && m
            == email,
        states[n] matches LoginSuccess::SaveDb { password: p, email: m, .. } ==> p == password && m
            == email,
    decreases n,
{
    if n > 0 {
        law_login_unlocks_with_the_session(states, events, db, session, password, email, n - 1);
        assert(states[n - 1].steps_to(events[n - 1], states[n]));
    }
}

/// What follows a login succeeds only if the database was saved and
/// synchronised, and the vault unlocked, in this order.
pub proof fn law_login_success_saves_syncs_and_unlocks<T, O, N, P, K, E>(
    states: Seq<LoginSuccess<T, O, N, P, K, E>>,
    events: Seq<LoginSuccessEvent<T, O, N, K, E>>,
)
    requires
        login_success_run(states, events),
        states[0] is SaveDb,
        states.last() matches LoginSuccess::Done(Ok(_)),
    ensures
        exists|a: int, b: int, c: int|
            {
                &&& 0 <= a < b < c < events.len()
                &&& states[a] is SaveDb
                &&& #[trigger] events[a] matches LoginSuccessEvent::DbSaved(Ok(_))
                &&& states[b] is Sync
                &&& #[trigger] events[b] matches LoginSuccessEvent::Synced(Ok(_))
                &&& states[c] is Unlock
                &&& #[trigger] events[c] matches LoginSuccessEvent::Unlocked(Ok(_))
            },
{
    let c = lemma_success_was_unlocked(states, events, events.len() as int);
    let b = lemma_unlock_was_synced(states, events, c);
    let a = lemma_sync_was_saved(states, events, b);
    assert(events[a] is DbSaved && events[b] is Synced && events[c] is Unlocked);
}

proof fn lemma_success_was_unlocked<T, O, N, P, K, E>(
    states: Seq<LoginSuccess<T, O, N, P, K, E>>,
    events: Seq<LoginSuccessEvent<T, O, N, K, E>>,
    n: int,
) -> (c: int)
    requires
        login_success_run(states, events),
        states[0] is SaveDb,
        0 <= n <= events.len(),
        states[n] is StoreKeys || states[n] is RefreshCache || states[n] is Warn || states[n] matches
            LoginSuccess::Done(Ok(_)),
    ensures
        0 <= c < n,
        states[c] is Unlock,
        events[c] matches LoginSuccessEvent::Unlocked(Ok(_)),
    decreases n,
{
    assert(states[n - 1].steps_to(events[n - 1], states[n]));
    if states[n - 1] is Unlock {
        n - 1
    } else {
        lemma_success_was_unlocked(states, events, n - 1)
    }
}

proof fn lemma_unlock_was_synced<T, O, N, P, K, E>(
    states: Seq<LoginSuccess<T, O, N, P, K, E>>,
    events: Seq<LoginSuccessEvent<T, O, N, K, E>>,
    n: int,
) -> (b: int)
    requires
        login_success_run(states, events),
        states[0] is SaveDb,
        0 <= n <= events.len(),
        states[n] is LoadDb || states[n] is Unlock,
    ensures
        0 <= b < n,
        states[b] is Sync,
        events[b] matches LoginSuccessEvent::Synced(Ok(_)),
    decreases n,
{
    assert(states[n - 1].steps_to(events[n - 1], states[n]));
    if states[n - 1] is Sync {
        n - 1
    } else {
        lemma_unlock_was_synced(states, events, n - 1)
    }
}

proof fn lemma_sync_was_saved<T, O, N, P, K, E>(
    states: Seq<LoginSuccess<T, O, N, P, K, E>>,
    events: Seq<LoginSuccessEvent<T, O, N, K, E>>,
    n: int,
) -> (a: int)
    requires
        login_success_run(states, events),
        states[0] is SaveDb,
        0 <= n <= events.len(),
        states[n] is Sync,
    ensures
        0 <= a < n,
        states[a] is SaveDb,
        events[a] matches LoginSuccessEvent::DbSaved(Ok(_)),
    decreases n,
{
    assert(states[n - 1].steps_to(events[n - 1], states[n]));
    if states[n - 1] is SaveDb {
        n - 1
    } else {
        lemma_sync_was_saved(states, events, n - 1)
    }
}

} // verus!
