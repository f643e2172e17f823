//! Whose account, which answers and which session every registration and every
//! login goes on with.
use vstd::prelude::*;
use vstd::utf8::*;
use crate::db::{Db, OrgKeys};
use crate::error::{Error, Failure, Reply, TwoFactorProviderType, Warning};
use crate::login::{
    logged_in, names_host, session_key, url_host, Challenge, Login, LoginEvent, LoginReply,
    LoginSuccess, LoginSuccessEvent, Register, RegisterEvent, Session, TwoFactor, TwoFactorEvent,
};
use crate::login_laws::{
    code_turned_down, codes_turned_down, key_turned_down, keys_turned_down, law_three_api_keys,
    law_three_codes, law_three_login_passwords, login_run, login_success_run, password_turned_down,
    passwords_turned_down, registration_run, second_factor_run,
};
use crate::prompt::{AttemptsView, Pin, PromptView};
use crate::text;
use crate::unicode;

verus! {

/// A dialogue names the host of the base address. An address without a host, or
/// one that is no address at all, is an error.
pub proof fn law_host_is_that_of_the_address<E>(
    url: Seq<char>,
    parsed: Result<Option<Seq<char>>, Seq<char>>,
    r: Result<String, Error<E>>,
)
    requires
        names_host(url, parsed, r),
    ensures
        r is Ok <==> parsed matches Ok(Some(_)),
        r matches Ok(host) ==> parsed == Ok::<Option<Seq<char>>, Seq<char>>(Some(host@)),
        parsed matches Ok(None) ==> (r matches Err(Error::Refused(Failure::BaseUrlWithoutHost(
            address,
        ))) && address@ == url),
        parsed matches Err(cause) ==> (r matches Err(Error::Explained(
            Failure::ParseBaseUrl,
            message,
        )) && message@ == cause),
{
}

/// What a dialogue of a later attempt shows of the reason why the last one was
/// turned down.
pub open spec fn shows_reason(error: Option<Seq<char>>, message: Seq<char>, attempt: int) -> bool {
    error == Some(message + " (attempt "@ + text::decimal(attempt) + "/3)"@)
}

/// The host and the email address that a registration carries.
pub open spec fn registration_account<P, E>(state: Register<P, E>) -> Option<(String, String)> {
    match state {
        Register::AskClientId { host, email, .. } => Some((host, email)),
        Register::AskClientSecret { host, email, .. } => Some((host, email)),
        Register::Register { host, email, .. } => Some((host, email)),
        _ => None,
    }
}

/// The dialogue of a registration.
pub open spec fn registration_prompt<P, E>(state: Register<P, E>) -> Option<PromptView> {
    match state {
        Register::AskClientId { prompt, .. } => Some(prompt@),
        Register::AskClientSecret { prompt, .. } => Some(prompt@),
        _ => None,
    }
}

/// A registration is for the email address that was loaded in it, and its
/// dialogues name the host of the base address that was loaded in it, in each of
/// its attempts.
pub proof fn law_registration_is_for_the_account<P, E>(
    states: Seq<Register<P, E>>,
    events: Seq<RegisterEvent<P, E>>,
    n: int,
) -> (r: (int, int))
    requires
        registration_run(states, events),
        states[0] is LoadDb,
        0 <= n <= events.len(),
        registration_account(states[n]) is Some,
    ensures
        0 <= r.0 < r.1 < n,
        states[r.0] is LoadBaseUrl,
        states[r.1] is LoadEmail,
        events[r.0] matches RegisterEvent::BaseUrlLoaded(Ok(url)) && url_host(url@) == Ok::<
            Option<Seq<char>>,
            Seq<char>,
        >(Some((registration_account(states[n])->0).0@)),
        events[r.1] == RegisterEvent::<P, E>::EmailLoaded(
            Ok((registration_account(states[n])->0).1),
        ),
        states[n] matches Register::AskClientId { host, prompt, .. } ==> prompt@.title
            == "API key client__id"@ && prompt@.description == "Log in to "@ + host@
            && !prompt@.grab,
        states[n] matches Register::AskClientSecret { host, prompt, .. } ==> prompt@.title
            == "API key client__secret"@ && prompt@.description == "Log in to "@ + host@
            && !prompt@.grab,
    decreases n,
{
    assert(states[n - 1].steps_to(events[n - 1], states[n]));
    if states[n - 1] is LoadEmail {
        let i = lemma_registration_host(states, events, n - 1);
        (i, n - 1)
    } else {
        law_registration_is_for_the_account(states, events, n - 1)
    }
}

proof fn lemma_registration_host<P, E>(
    states: Seq<Register<P, E>>,
    events: Seq<RegisterEvent<P, E>>,
    n: int,
) -> (i: int)
    requires
        registration_run(states, events),
        states[0] is LoadDb,
        0 <= n <= events.len(),
        states[n] is LoadEmail,
    ensures
        0 <= i < n,
        states[i] is LoadBaseUrl,
        events[i] matches RegisterEvent::BaseUrlLoaded(Ok(url)) && url_host(url@) == Ok::<
            Option<Seq<char>>,
            Seq<char>,
        >(Some(states[n]->LoadEmail_host@)),
    decreases n,
{
    assert(states[n - 1].steps_to(events[n - 1], states[n]));
    if states[n - 1] is LoadBaseUrl {
        n - 1
    } else {
        lemma_registration_host(states, events, n - 1)
    }
}

/// A device is registered with the identifier and the secret that were entered for
/// them, the identifier first.
pub proof fn law_entered_api_key_is_registered<P, E>(
    states: Seq<Register<P, E>>,
    events: Seq<RegisterEvent<P, E>>,
    n: int,
) -> (r: (int, int))
    requires
        registration_run(states, events),
        states[0] is LoadDb,
        0 <= n <= events.len(),
        states[n] is Register,
    ensures
        0 <= r.0 < r.1 < n,
        states[r.0] is AskClientId,
        events[r.0] == RegisterEvent::<P, E>::Answered(
            Pin::Entered(states[n]->Register_client_id),
        ),
        states[r.1] is AskClientSecret,
        events[r.1] == RegisterEvent::<P, E>::Answered(
            Pin::Entered(states[n]->Register_client_secret),
        ),
        keys_turned_down(states, events, r.0) == keys_turned_down(states, events, n),
    decreases n,
{
    assert(states[n - 1].steps_to(events[n - 1], states[n]));
    if states[n - 1] is AskClientSecret {
        let i = lemma_client_id_was_entered(states, events, n - 1);
        (i, n - 1)
    } else {
        law_entered_api_key_is_registered(states, events, n - 1)
    }
}

proof fn lemma_client_id_was_entered<P, E>(
    states: Seq<Register<P, E>>,
    events: Seq<RegisterEvent<P, E>>,
    n: int,
) -> (i: int)
    requires
        registration_run(states, events),
        states[0] is LoadDb,
        0 <= n <= events.len(),
        states[n] is AskClientSecret,
    ensures
        0 <= i < n,
        states[i] is AskClientId,
        events[i] == RegisterEvent::<P, E>::Answered(
            Pin::Entered(states[n]->AskClientSecret_client_id),
        ),
        keys_turned_down(states, events, i) == keys_turned_down(states, events, n),
    decreases n,
{
    assert(states[n - 1].steps_to(events[n - 1], states[n]));
    if states[n - 1] is AskClientId {
        n - 1
    } else {
        lemma_client_id_was_entered(states, events, n - 1)
    }
}

/// The first two dialogues of a registration show no error. Later ones show why
/// the last API key was turned down, and the number of the attempt.
pub proof fn law_registration_shows_the_last_rejection<P, E>(
    states: Seq<Register<P, E>>,
    events: Seq<RegisterEvent<P, E>>,
    n: int,
) -> (i: int)
    requires
        registration_run(states, events),
        states[0] is LoadDb,
        0 <= n <= events.len(),
        registration_prompt(states[n]) is Some,
    ensures
        keys_turned_down(states, events, n) == 0 ==> registration_prompt(states[n])->0.error is None,
        keys_turned_down(states, events, n) > 0 ==> {
            &&& 0 <= i < n
            &&& states[i] is Register
            &&& events[i] matches RegisterEvent::Registered(Reply::IncorrectPassword(message))
            &&& keys_turned_down(states, events, i) + 1 == keys_turned_down(states, events, n)
            &&& shows_reason(
                registration_prompt(states[n])->0.error,
                message@,
                keys_turned_down(states, events, n) + 1,
            )
        },
    decreases n,
{
    lemma_registration_reason(states, events, n)
}

proof fn lemma_registration_reason<P, E>(
    states: Seq<Register<P, E>>,
    events: Seq<RegisterEvent<P, E>>,
    n: int,
) -> (i: int)
    requires
        registration_run(states, events),
        states[0] is LoadDb,
        0 <= n <= events.len(),
        crate::login_laws::registration_attempt(states[n]) is Some,
    ensures
        ({
            let attempt = crate::login_laws::registration_attempt(states[n])->0;
            let count = keys_turned_down(states, events, n);
            &&& count == 0 ==> attempt.error() is None
            &&& count > 0 ==> {
                &&& 0 <= i < n
                &&& states[i] is Register
                &&& events[i] matches RegisterEvent::Registered(Reply::IncorrectPassword(message))
                &&& keys_turned_down(states, events, i) + 1 == count
                &&& shows_reason(attempt.error(), message@, count + 1)
            }
            &&& registration_prompt(states[n]) matches Some(prompt) ==> prompt.error
                == attempt.error()
        }),
    decreases n,
{
    law_three_api_keys(states, events, n);
    law_three_api_keys(states, events, n - 1);
    assert(states[n - 1].steps_to(events[n - 1], states[n]));
    if states[n - 1] is LoadEmail || key_turned_down(states[n - 1], events[n - 1]) {
        n - 1
    } else {
        lemma_registration_reason(states, events, n - 1)
    }
}

/// An API key that is turned down is asked for again, unless it was the third,
/// with which the registration fails.
pub proof fn law_rejected_api_key_is_asked_for_again<P, E>(
    states: Seq<Register<P, E>>,
    events: Seq<RegisterEvent<P, E>>,
    n: int,
)
    requires
        registration_run(states, events),
        states[0] is LoadDb,
        0 <= n < events.len(),
        key_turned_down(states[n], events[n]),
    ensures
        keys_turned_down(states, events, n) < 2 ==> states[n + 1] is AskClientId,
        keys_turned_down(states, events, n) == 2 ==> (events[n] matches RegisterEvent::Registered(
            Reply::IncorrectPassword(message),
        ) && states[n + 1] == Register::<P, E>::Done(
            Err(Error::IncorrectPassword(Failure::LogIn, message)),
        )),
{
    law_three_api_keys(states, events, n);
    assert(states[n].steps_to(events[n], states[n + 1]));
}

/// A registration with a good address and a good API key is answered; one that is
/// not needed is answered at once.
pub proof fn law_good_api_key_registers<P, E>(
    url: String,
    host: Seq<char>,
    email: String,
    client_id: P,
    client_secret: P,
    s: Seq<Register<P, E>>,
    unneeded: Register<P, E>,
)
    requires
        s.len() == 8,
        url_host(url@) == Ok::<Option<Seq<char>>, Seq<char>>(Some(host)),
        s[0] is LoadDb,
        s[0].steps_to(RegisterEvent::DbLoaded { needs_login: false }, unneeded),
        s[0].steps_to(RegisterEvent::DbLoaded { needs_login: true }, s[1]),
        s[1].steps_to(RegisterEvent::BaseUrlLoaded(Ok(url)), s[2]),
        s[2].steps_to(RegisterEvent::EmailLoaded(Ok(email)), s[3]),
        s[3].steps_to(RegisterEvent::Answered(Pin::Entered(client_id)), s[4]),
        s[4].steps_to(RegisterEvent::Answered(Pin::Entered(client_secret)), s[5]),
        s[5].steps_to(RegisterEvent::Registered(Reply::Accepted(())), s[6]),
        s[6].steps_to(RegisterEvent::Responded(Ok(())), s[7]),
    ensures
        unneeded is Respond,
        s[5] matches Register::Register { email: m, client_id: i, client_secret: k, .. } && m
            == email && i == client_id && k == client_secret,
        s[6] is Respond,
        s[7] matches Register::Done(Ok(_)),
{
}

/// A registration fails only where something could not be loaded, read or sent,
/// the address has no host, or the server did not accept the API key; and the
/// error says which.
pub proof fn law_failed_registration_says_why<P, E>(
    state: Register<P, E>,
    event: RegisterEvent<P, E>,
    after: Register<P, E>,
    error: Error<E>,
)
    requires
        state.steps_to(event, after),
        !(state is Done),
        after == Register::<P, E>::Done(Err(error)),
    ensures
        match event {
            RegisterEvent::DbLoaded { .. } => false,
            RegisterEvent::BaseUrlLoaded(Ok(url)) => state is LoadBaseUrl && match url_host(url@) {
                Ok(Some(_)) => false,
                Ok(None) => error matches Error::Refused(Failure::BaseUrlWithoutHost(address))
                    && address@ == url@,
                Err(cause) => error matches Error::Explained(Failure::ParseBaseUrl, message)
                    && message@ == cause,
            },
            RegisterEvent::BaseUrlLoaded(Err(cause)) => state is LoadBaseUrl && error
                == Error::Forwarded(cause),
            RegisterEvent::EmailLoaded(result) => state is LoadEmail && result == Err::<
                String,
                Error<E>,
            >(error),
            RegisterEvent::Answered(pin) => match pin {
                Pin::Entered(_) => false,
                Pin::Unconfigured(cause) => (state is AskClientId || state is AskClientSecret)
                    && error == Error::Forwarded(cause),
                Pin::Failed(cause) => {
                    ||| state is AskClientId && error == Error::Caused(Failure::ReadClientId, cause)
                    ||| state is AskClientSecret && error == Error::Caused(
                        Failure::ReadClientSecret,
                        cause,
                    )
                },
            },
            RegisterEvent::Registered(reply) => state is Register && match reply {
                Reply::Accepted(_) => false,
                Reply::IncorrectPassword(message) => error == Error::<E>::IncorrectPassword(
                    Failure::LogIn,
                    message,
                ),
                Reply::Failed(cause) => error == Error::Caused(Failure::LogIn, cause),
            },
            RegisterEvent::Responded(result) => state is Respond && (result matches Err(cause)
                && error == Error::Forwarded(cause)),
        },
{
}

/// The database, the host and the email address that a login carries while it asks
/// for the password.
pub open spec fn login_account<T, O, N, P, E>(state: Login<T, O, N, P, E>) -> Option<
    (Db<T, O, N>, String, String),
> {
    match state {
        Login::AskPassword { db, host, email, .. } => Some((db, host, email)),
        Login::LogIn { db, host, email, .. } => Some((db, host, email)),
        _ => None,
    }
}

/// A login is for the email address that was loaded in it and goes on with the
/// database that was loaded in it, and its dialogues name the host of the base
/// address that was loaded in it, in each of its attempts.
pub proof fn law_login_is_for_the_account<T, O, N, P, E>(
    states: Seq<Login<T, O, N, P, E>>,
    events: Seq<LoginEvent<T, O, N, P, E>>,
    n: int,
) -> (r: (int, int, int))
    requires
        login_run(states, events),
        states[0] is LoadDb,
        0 <= n <= events.len(),
        login_account(states[n]) is Some,
    ensures
        0 <= r.0 < r.1 < r.2 < n,
        states[r.0] is LoadDb,
        states[r.1] is LoadBaseUrl,
        states[r.2] is LoadEmail,
        events[r.0] matches LoginEvent::DbLoaded { db, needs_login } && needs_login && db
            == (login_account(states[n])->0).0,
        events[r.1] matches LoginEvent::BaseUrlLoaded(Ok(url)) && url_host(url@) == Ok::<
            Option<Seq<char>>,
            Seq<char>,
        >(Some((login_account(states[n])->0).1@)),
        events[r.2] == LoginEvent::<T, O, N, P, E>::EmailLoaded(Ok((login_account(states[n])->0).2)),
        states[n] matches Login::AskPassword { host, prompt, .. } ==> prompt@.title
            == "Master Password"@ && prompt@.description == "Log in to "@ + host@ && prompt@.grab,
    decreases n,
{
    assert(states[n - 1].steps_to(events[n - 1], states[n]));
    if states[n - 1] is LoadEmail {
        let (a, b) = lemma_login_host(states, events, n - 1);
        (a, b, n - 1)
    } else {
        law_login_is_for_the_account(states, events, n - 1)
    }
}

proof fn lemma_login_host<T, O, N, P, E>(
    states: Seq<Login<T, O, N, P, E>>,
    events: Seq<LoginEvent<T, O, N, P, E>>,
    n: int,
) -> (r: (int, int))
    requires
        login_run(states, events),
        states[0] is LoadDb,
        0 <= n <= events.len(),
        states[n] is LoadEmail,
    ensures
        0 <= r.0 < r.1 < n,
        states[r.0] is LoadDb,
        states[r.1] is LoadBaseUrl,
        events[r.0] matches LoginEvent::DbLoaded { db, needs_login } && needs_login && db
            == states[n]->LoadEmail_db,
        events[r.1] matches LoginEvent::BaseUrlLoaded(Ok(url)) && url_host(url@) == Ok::<
            Option<Seq<char>>,
            Seq<char>,
        >(Some(states[n]->LoadEmail_host@)),
    decreases n,
{
    assert(states[n - 1].steps_to(events[n - 1], states[n]));
    if states[n - 1] is LoadBaseUrl {
        let i = lemma_login_db(states, events, n - 1);
        (i, n - 1)
    } else {
        lemma_login_host(states, events, n - 1)
    }
}

proof fn lemma_login_db<T, O, N, P, E>(
    states: Seq<Login<T, O, N, P, E>>,
    events: Seq<LoginEvent<T, O, N, P, E>>,
    n: int,
) -> (i: int)
    requires
        login_run(states, events),
        states[0] is LoadDb,
        0 <= n <= events.len(),
        states[n] is LoadBaseUrl,
    ensures
        0 <= i < n,
        states[i] is LoadDb,
        events[i] matches LoginEvent::DbLoaded { db, needs_login } && needs_login && db
            == states[n]->LoadBaseUrl_db,
    decreases n,
{
    assert(states[n - 1].steps_to(events[n - 1], states[n]));
    if states[n - 1] is LoadDb {
        n - 1
    } else {
        lemma_login_db(states, events, n - 1)
    }
}

/// The server is sent the password that was entered.
pub proof fn law_entered_password_is_sent<T, O, N, P, E>(
    states: Seq<Login<T, O, N, P, E>>,
    events: Seq<LoginEvent<T, O, N, P, E>>,
    n: int,
) -> (i: int)
    requires
        login_run(states, events),
        states[0] is LoadDb,
        0 <= n <= events.len(),
        states[n] is LogIn,
    ensures
        0 <= i < n,
        states[i] is AskPassword,
        events[i] == LoginEvent::<T, O, N, P, E>::Answered(
            Pin::Entered(states[n]->LogIn_password),
        ),
        passwords_turned_down(states, events, i) == passwords_turned_down(states, events, n),
    decreases n,
{
    assert(states[n - 1].steps_to(events[n - 1], states[n]));
    if states[n - 1] is AskPassword {
        n - 1
    } else {
        law_entered_password_is_sent(states, events, n - 1)
    }
}

/// The first dialogue of a login shows no error. A later one shows why the last
/// password was turned down, and the number of the attempt.
pub proof fn law_login_shows_the_last_rejection<T, O, N, P, E>(
    states: Seq<Login<T, O, N, P, E>>,
    events: Seq<LoginEvent<T, O, N, P, E>>,
    n: int,
) -> (i: int)
    requires
        login_run(states, events),
        states[0] is LoadDb,
        0 <= n <= events.len(),
        states[n] is AskPassword,
    ensures
        passwords_turned_down(states, events, n) == 0
            ==> states[n]->AskPassword_prompt@.error is None,
        passwords_turned_down(states, events, n) > 0 ==> {
            &&& 0 <= i < n
            &&& states[i] is LogIn
            &&& events[i] matches LoginEvent::LoggedIn(LoginReply::IncorrectPassword(message))
            &&& passwords_turned_down(states, events, i) + 1 == passwords_turned_down(
                states,
                events,
                n,
            )
            &&& shows_reason(
                states[n]->AskPassword_prompt@.error,
                message@,
                passwords_turned_down(states, events, n) + 1,
            )
        },
    decreases n,
{
    law_three_login_passwords(states, events, n);
    law_three_login_passwords(states, events, n - 1);
    assert(states[n - 1].steps_to(events[n - 1], states[n]));
    if states[n - 1] is AskPassword {
        law_login_shows_the_last_rejection(states, events, n - 1)
    } else {
        n - 1
    }
}

/// A password that is turned down is asked for again, unless it was the third,
/// with which the login fails.
pub proof fn law_rejected_login_is_asked_for_again<T, O, N, P, E>(
    states: Seq<Login<T, O, N, P, E>>,
    events: Seq<LoginEvent<T, O, N, P, E>>,
    n: int,
)
    requires
        login_run(states, events),
        states[0] is LoadDb,
        0 <= n < events.len(),
        password_turned_down(states[n], events[n]),
    ensures
        passwords_turned_down(states, events, n) < 2 ==> states[n + 1] is AskPassword,
        passwords_turned_down(states, events, n) == 2 ==> (events[n] matches LoginEvent::LoggedIn(
            LoginReply::IncorrectPassword(message),
        ) && states[n + 1] == Login::<T, O, N, P, E>::Done(
            Err(Error::IncorrectPassword(Failure::LogIn, message)),
        )),
{
    law_three_login_passwords(states, events, n);
    assert(states[n].steps_to(events[n], states[n + 1]));
}

/// A server that asks for a second factor is given the one that is preferred among
/// those it offers: an authenticator before a Yubikey, and that before an email.
/// For an email the server is first asked to send it, where it gave a token for
/// that. Where it offers none of these, the login fails and names what was offered.
pub proof fn law_preferred_second_factor<T, O, N, P, E>(
    state: Login<T, O, N, P, E>,
    providers: Vec<TwoFactorProviderType>,
    sso_email_2fa_session_token: Option<String>,
    after: Login<T, O, N, P, E>,
)
    requires
        state is LogIn,
        state.steps_to(
            LoginEvent::LoggedIn(
                LoginReply::TwoFactorRequired { providers, sso_email_2fa_session_token },
            ),
            after,
        ),
    ensures
        ({
            let db = state->LogIn_db;
            let email = state->LogIn_email;
            let password = state->LogIn_password;
            if providers@.contains(TwoFactorProviderType::Authenticator) {
                after == (Login::<T, O, N, P, E>::TwoFactor {
                    db,
                    email,
                    password,
                    provider: TwoFactorProviderType::Authenticator,
                })
            } else if providers@.contains(TwoFactorProviderType::Yubikey) {
                after == (Login::<T, O, N, P, E>::TwoFactor {
                    db,
                    email,
                    password,
                    provider: TwoFactorProviderType::Yubikey,
                })
            } else if providers@.contains(TwoFactorProviderType::Email) {
                after == match sso_email_2fa_session_token {
                    Some(token) => Login::<T, O, N, P, E>::SendEmail { db, email, password, token },
                    None => Login::<T, O, N, P, E>::TwoFactor {
                        db,
                        email,
                        password,
                        provider: TwoFactorProviderType::Email,
                    },
                }
            } else {
                after == Login::<T, O, N, P, E>::Done(
                    Err(Error::Refused(Failure::UnsupportedTwoFactorMethods(providers))),
                )
            }
        }),
{
    assert(forall|p: TwoFactorProviderType| #[trigger]
        crate::login::offers(providers@, p) == providers@.contains(p));
}

/// A login goes on, after the server accepted it, with the database, the email
/// address and the password with which it was asked to.
pub proof fn law_accepted_login_keeps_its_account<T, O, N, P, E>(
    states: Seq<Login<T, O, N, P, E>>,
    events: Seq<LoginEvent<T, O, N, P, E>>,
    n: int,
) -> (i: int)
    requires
        login_run(states, events),
        states[0] is LoadDb,
        0 <= n <= events.len(),
        states[n] is SendEmail || states[n] is TwoFactor || states[n] is LoginSuccess,
    ensures
        0 <= i < n,
        states[i] is LogIn,
        events[i] is LoggedIn,
        match states[n] {
            Login::SendEmail { db, email, password, .. } => db == states[i]->LogIn_db && email
                == states[i]->LogIn_email && password == states[i]->LogIn_password,
            Login::TwoFactor { db, email, password, .. } => db == states[i]->LogIn_db && email
                == states[i]->LogIn_email && password == states[i]->LogIn_password,
            Login::LoginSuccess { db, email, password, .. } => db == states[i]->LogIn_db && email
                == states[i]->LogIn_email && password == states[i]->LogIn_password,
            _ => false,
        },
    decreases n,
{
    assert(states[n - 1].steps_to(events[n - 1], states[n]));
    if states[n - 1] is LogIn {
        n - 1
    } else {
        law_accepted_login_keeps_its_account(states, events, n - 1)
    }
}

/// A login whose password the server accepts at once, or after a second factor for
/// which it was asked to send an email, goes on with the session that the server
/// handed out, and is answered once what follows succeeded.
pub proof fn law_accepted_login_is_answered<T, O, N, P, E>(
    direct: bool,
    token: String,
    session: Session<T>,
    logging_in: Login<T, O, N, P, E>,
    sending: Login<T, O, N, P, E>,
    factor: Login<T, O, N, P, E>,
    success: Login<T, O, N, P, E>,
    respond: Login<T, O, N, P, E>,
    after: Login<T, O, N, P, E>,
)
    requires
        logging_in is LogIn,
        direct ==> logging_in.steps_to(
            LoginEvent::LoggedIn(LoginReply::Accepted(session)),
            success,
        ),
        !direct ==> {
            &&& sending is SendEmail
            &&& sending.steps_to(LoginEvent::EmailSent(Ok(())), factor)
            &&& factor.steps_to(LoginEvent::SecondFactor(Ok(session)), success)
        },
        success.steps_to(LoginEvent::Succeeded(Ok(())), respond),
        respond.steps_to(LoginEvent::Responded(Ok(())), after),
    ensures
        !direct ==> (factor matches Login::TwoFactor { provider, .. } && provider
            == TwoFactorProviderType::Email),
        success matches Login::LoginSuccess { session: handed_out, .. } && handed_out == session,
        respond is Respond,
        after matches Login::Done(Ok(_)),
{
}

/// A login that is not needed is answered at once.
pub proof fn law_unneeded_login_is_answered<T, O, N, P, E>(
    db: Db<T, O, N>,
    state: Login<T, O, N, P, E>,
    after: Login<T, O, N, P, E>,
)
    requires
        state is LoadDb,
        state.steps_to(LoginEvent::DbLoaded { db, needs_login: false }, after),
    ensures
        after is Respond,
{
}

/// A login fails only where something could not be loaded, read or sent, the
/// address has no host, the server did not accept the password or offers no second
/// factor that can be used, or where what follows failed; and the error says which.
pub proof fn law_failed_login_says_why<T, O, N, P, E>(
    state: Login<T, O, N, P, E>,
    event: LoginEvent<T, O, N, P, E>,
    after: Login<T, O, N, P, E>,
    error: Error<E>,
)
    requires
        state.steps_to(event, after),
        !(state is Done),
        after == Login::<T, O, N, P, E>::Done(Err(error)),
    ensures
        match event {
            LoginEvent::DbLoaded { .. } => false,
            LoginEvent::BaseUrlLoaded(Ok(url)) => state is LoadBaseUrl && match url_host(url@) {
                Ok(Some(_)) => false,
                Ok(None) => error matches Error::Refused(Failure::BaseUrlWithoutHost(address))
                    && address@ == url@,
                Err(cause) => error matches Error::Explained(Failure::ParseBaseUrl, message)
                    && message@ == cause,
            },
            LoginEvent::BaseUrlLoaded(Err(cause)) => state is LoadBaseUrl && error
                == Error::Forwarded(cause),
            LoginEvent::EmailLoaded(result) => state is LoadEmail && result == Err::<
                String,
                Error<E>,
            >(error),
            LoginEvent::Answered(pin) => state is AskPassword && match pin {
                Pin::Entered(_) => false,
                Pin::Unconfigured(cause) => error == Error::Forwarded(cause),
                Pin::Failed(cause) => error == Error::Caused(Failure::ReadPassword, cause),
            },
            LoginEvent::LoggedIn(reply) => state is LogIn && match reply {
                LoginReply::Accepted(_) => false,
                LoginReply::TwoFactorRequired { providers, .. } => error == Error::<E>::Refused(
                    Failure::UnsupportedTwoFactorMethods(providers),
                ),
                LoginReply::IncorrectPassword(message) => error == Error::<E>::IncorrectPassword(
                    Failure::LogIn,
                    message,
                ),
                LoginReply::Failed(cause) => error == Error::Caused(Failure::LogIn, cause),
            },
            LoginEvent::EmailSent(result) => state is SendEmail && (result matches Err(cause)
                && error == Error::Forwarded(cause)),
            LoginEvent::SecondFactor(result) => state is TwoFactor && result == Err::<
                Session<T>,
                Error<E>,
            >(error),
            LoginEvent::Succeeded(result) => state is LoginSuccess && result == Err::<
                (),
                Error<E>,
            >(error),
            LoginEvent::Responded(result) => state is Respond && (result matches Err(cause)
                && error == Error::Forwarded(cause)),
        },
{
}

/// A login with a second factor stays with the email address, the password and the
/// factor that it started with, in each of its attempts. Its dialogue is that of
/// the factor, and the server is sent the code that was entered.
pub proof fn law_second_factor_is_for_the_login<T, P, E>(
    states: Seq<TwoFactor<T, P, E>>,
    events: Seq<TwoFactorEvent<T, E>>,
    address: String,
    entered: P,
    factor: Challenge,
    n: int,
)
    requires
        second_factor_run(states, events),
        states[0].asks(address, entered, factor, AttemptsView::first()),
        0 <= n <= events.len(),
    ensures
        match states[n] {
            TwoFactor::AskCode { email, password, challenge, prompt, .. } => {
                &&& email == address
                &&& password == entered
                &&& challenge == factor
                &&& prompt@.title == factor.header@
                &&& prompt@.description == factor.message@
                &&& prompt@.grab == factor.grab
            },
            TwoFactor::LogIn { email, password, challenge, code, .. } => {
                &&& email == address
                &&& password == entered
                &&& challenge == factor
                &&& exists|i: int|
                    0 <= i < n && states[i] is AskCode && (#[trigger] events[i] matches
                        TwoFactorEvent::Answered(Pin::Entered(bytes)) && bytes@ == encode_utf8(
                        code@,
                    ))
            },
            TwoFactor::Done(Ok(session)) => exists|i: int|
                0 <= i < n && states[i] is LogIn && #[trigger] events[i] == TwoFactorEvent::<
                    T,
                    E,
                >::LoggedIn(LoginReply::Accepted(session)),
            TwoFactor::Done(Err(_)) => true,
        },
    decreases n,
{
    if n > 0 {
        law_second_factor_is_for_the_login(states, events, address, entered, factor, n - 1);
        assert(states[n - 1].steps_to(events[n - 1], states[n]));
        let i = n - 1;
        match (states[i], events[i]) {
            (TwoFactor::AskCode { .. }, TwoFactorEvent::Answered(Pin::Entered(bytes))) => {
                if valid_utf8(bytes@) {
                    decode_utf8_encode_utf8(bytes@);
                    assert(events[i] is Answered);
                }
            },
            (TwoFactor::LogIn { .. }, TwoFactorEvent::LoggedIn(LoginReply::Accepted(session))) => {
                assert(events[i] == TwoFactorEvent::<T, E>::LoggedIn(
                    LoginReply::Accepted(session),
                ));
            },
            _ => {},
        }
    }
}

/// What a server says to a code that it turns down. It asks for a second factor
/// again where the code is no number.
pub open spec fn reason_of<T, E>(event: TwoFactorEvent<T, E>) -> Seq<char> {
    match event {
        TwoFactorEvent::LoggedIn(LoginReply::IncorrectPassword(message)) => message@,
        _ => "TOTP code is not a number"@,
    }
}

/// The first dialogue for a code shows no error. A later one shows why the last
/// code was turned down, and the number of the attempt.
pub proof fn law_second_factor_shows_the_last_rejection<T, P, E>(
    states: Seq<TwoFactor<T, P, E>>,
    events: Seq<TwoFactorEvent<T, E>>,
    address: String,
    entered: P,
    factor: Challenge,
    n: int,
) -> (i: int)
    requires
        second_factor_run(states, events),
        states[0].asks(address, entered, factor, AttemptsView::first()),
        0 <= n <= events.len(),
        states[n] is AskCode,
    ensures
        codes_turned_down(states, events, n) == 0 ==> states[n]->AskCode_prompt@.error is None,
        codes_turned_down(states, events, n) > 0 ==> {
            &&& 0 <= i < n
            &&& code_turned_down(states[i], events[i])
            &&& codes_turned_down(states, events, i) + 1 == codes_turned_down(states, events, n)
            &&& shows_reason(
                states[n]->AskCode_prompt@.error,
                reason_of(events[i]),
                codes_turned_down(states, events, n) + 1,
            )
        },
    decreases n,
{
    law_three_codes(states, events, n);
    if n == 0 {
        0
    } else {
        law_three_codes(states, events, n - 1);
        assert(states[n - 1].steps_to(events[n - 1], states[n]));
        if states[n - 1] is AskCode {
            law_second_factor_shows_the_last_rejection(
                states,
                events,
                address,
                entered,
                factor,
                n - 1,
            )
        } else {
            n - 1
        }
    }
}

/// A code that is turned down is asked for again, unless it was the third, with
/// which the login fails. One that the server accepts ends it with the session.
pub proof fn law_rejected_code_is_asked_for_again<T, P, E>(
    states: Seq<TwoFactor<T, P, E>>,
    events: Seq<TwoFactorEvent<T, E>>,
    address: String,
    entered: P,
    factor: Challenge,
    n: int,
)
    requires
        second_factor_run(states, events),
        states[0].asks(address, entered, factor, AttemptsView::first()),
        0 <= n < events.len(),
        states[n] is LogIn,
    ensures
        code_turned_down(states[n], events[n]) ==> {
            &&& codes_turned_down(states, events, n) < 2 ==> states[n + 1] is AskCode
            &&& codes_turned_down(states, events, n) == 2 ==> (states[n + 1] matches TwoFactor::Done(
                Err(Error::IncorrectPassword(Failure::LogIn, message)),
            ) && message@ == reason_of(events[n]))
        },
        events[n] matches TwoFactorEvent::LoggedIn(LoginReply::Accepted(session)) ==> states[n + 1]
            == TwoFactor::<T, P, E>::Done(Ok(session)),
        events[n] matches TwoFactorEvent::LoggedIn(LoginReply::Failed(cause)) ==> states[n + 1]
            == TwoFactor::<T, P, E>::Done(Err(Error::Caused(Failure::LogIn, cause))),
{
    law_three_codes(states, events, n);
    assert(states[n].steps_to(events[n], states[n + 1]));
}

/// A code that was entered is sent to the server, if it is UTF-8. Where it is not,
/// or the dialogue failed, the login ends with the reason.
pub proof fn law_entered_code_is_sent<T, P, E>(
    state: TwoFactor<T, P, E>,
    pin: Pin<Vec<u8>, E>,
    after: TwoFactor<T, P, E>,
)
    requires
        state is AskCode,
        state.steps_to(TwoFactorEvent::Answered(pin), after),
    ensures
        match pin {
            Pin::Entered(bytes) => {
                &&& valid_utf8(bytes@) ==> (after matches TwoFactor::LogIn { code, .. }
                    && encode_utf8(code@) == bytes@)
                &&& !valid_utf8(bytes@) ==> (after matches TwoFactor::Done(
                    Err(Error::Explained(Failure::CodeNotUtf8, message)),
                ) && message@ == unicode::utf8_error(bytes@))
            },
            Pin::Unconfigured(cause) => after == TwoFactor::<T, P, E>::Done(
                Err(Error::Forwarded(cause)),
            ),
            Pin::Failed(cause) => after == TwoFactor::<T, P, E>::Done(
                Err(Error::Caused(Failure::ReadCode, cause)),
            ),
        },
{
    if let Pin::Entered(bytes) = pin {
        if valid_utf8(bytes@) {
            decode_utf8_encode_utf8(bytes@);
        }
    }
}

/// A login writes into the database what the session brings, and leaves all else as
/// it was.
pub proof fn law_session_is_written_to_the_database<T, O, N>(db: Db<T, O, N>, session: Session<T>)
    ensures
        ({
            let after = logged_in(db, session);
            &&& after.access_token == Some(session.access_token)
            &&& after.refresh_token == Some(session.refresh_token)
            &&& after.kdf == Some(session.kdf)
            &&& after.iterations == Some(session.iterations)
            &&& after.memory == session.memory
            &&& after.parallelism == session.parallelism
            &&& after.protected_key == Some(session.protected_key)
            &&& after.protected_private_key == db.protected_private_key
            &&& after.protected_org_keys == db.protected_org_keys
            &&& after.entries == db.entries
        }),
        ({
            let key = session_key(session);
            &&& key.kdf == session.kdf
            &&& key.iterations == session.iterations
            &&& key.memory == session.memory
            &&& key.parallelism == session.parallelism
            &&& key.protected_key == session.protected_key
        }),
{
}

/// After a login the database with the session is saved first; the vault is then
/// unlocked with the protected private key and the protected keys of organisations
/// that a synchronisation brought, and with the session for the rest; and the keys
/// that come of it are stored.
pub proof fn law_login_stores_the_keys_of_the_vault<T, O, N, P, K, E>(
    db: Db<T, O, N>,
    session: Session<T>,
    entered: P,
    address: String,
    synced: Db<T, O, N>,
    private_key: String,
    opened: K,
    org_opened: OrgKeys<K>,
    s: Seq<LoginSuccess<T, O, N, P, K, E>>,
)
    requires
        s.len() == 6,
        synced.protected_private_key == Some(private_key),
        s[0] == (LoginSuccess::<T, O, N, P, K, E>::SaveDb {
            db: logged_in(db, session),
            key: session_key(session),
            password: entered,
            email: address,
        }),
        s[0].steps_to(LoginSuccessEvent::DbSaved(Ok(())), s[1]),
        s[1].steps_to(LoginSuccessEvent::Synced(Ok(())), s[2]),
        s[2].steps_to(LoginSuccessEvent::DbLoaded(Ok(synced)), s[3]),
        s[3].steps_to(LoginSuccessEvent::Unlocked(Ok((opened, org_opened))), s[4]),
        s[4].steps_to(LoginSuccessEvent::KeysStored, s[5]),
    ensures
        s[1] is Sync,
        s[2] is LoadDb,
        s[3] matches LoginSuccess::Unlock { secrets, password, email } && {
            &&& password == entered
            &&& email == address
            &&& secrets.kdf == session.kdf
            &&& secrets.iterations == session.iterations
            &&& secrets.memory == session.memory
            &&& secrets.parallelism == session.parallelism
            &&& secrets.protected_key == session.protected_key
            &&& secrets.protected_private_key == private_key
            &&& secrets.protected_org_keys == synced.protected_org_keys
        },
        s[4] == (LoginSuccess::<T, O, N, P, K, E>::StoreKeys {
            keys: opened,
            org_keys: org_opened,
        }),
        s[5] is RefreshCache,
{
}

/// What follows a login succeeds whether or not the public key cache could be
/// refreshed; trouble with that is reported.
pub proof fn law_login_outlives_cache_trouble<T, O, N, P, K, E>(
    refreshed: Result<(), Error<E>>,
    state: LoginSuccess<T, O, N, P, K, E>,
    next: LoginSuccess<T, O, N, P, K, E>,
    after: LoginSuccess<T, O, N, P, K, E>,
)
    requires
        state is RefreshCache,
        state.steps_to(LoginSuccessEvent::CacheRefreshed(refreshed), next),
        next.steps_to(LoginSuccessEvent::Warned, after),
    ensures
        refreshed is Ok ==> next matches LoginSuccess::Done(Ok(_)),
        refreshed matches Err(error) ==> next == (LoginSuccess::<T, O, N, P, K, E>::Warn {
            warning: Warning::RefreshPublicKeyCache,
            error,
        }),
        after matches LoginSuccess::Done(Ok(_)),
{
}

/// The keys that are stored after a login are those that the vault gave for it.
pub proof fn law_stored_keys_came_of_the_login<T, O, N, P, K, E>(
    states: Seq<LoginSuccess<T, O, N, P, K, E>>,
    events: Seq<LoginSuccessEvent<T, O, N, K, E>>,
    n: int,
) -> (i: int)
    requires
        login_success_run(states, events),
        states[0] is SaveDb,
        0 <= n <= events.len(),
        states[n] is StoreKeys,
    ensures
        0 <= i < n,
        states[i] is Unlock,
        events[i] == LoginSuccessEvent::<T, O, N, K, E>::Unlocked(
            Ok((states[n]->StoreKeys_keys, states[n]->StoreKeys_org_keys)),
        ),
    decreases n,
{
    assert(states[n - 1].steps_to(events[n - 1], states[n]));
    if states[n - 1] is Unlock {
        n - 1
    } else {
        law_stored_keys_came_of_the_login(states, events, n - 1)
    }
}

/// What follows a login fails only where the database could not be saved,
/// synchronised or loaded, lacks the protected private key, or the vault could not
/// be unlocked; and the error says which.
pub proof fn law_failed_login_success_says_why<T, O, N, P, K, E>(
    state: LoginSuccess<T, O, N, P, K, E>,
    event: LoginSuccessEvent<T, O, N, K, E>,
    after: LoginSuccess<T, O, N, P, K, E>,
    error: Error<E>,
)
    requires
        state.steps_to(event, after),
        !(state is Done),
        after == LoginSuccess::<T, O, N, P, K, E>::Done(Err(error)),
    ensures
        match event {
            LoginSuccessEvent::DbSaved(result) => state is SaveDb && result == Err::<(), Error<E>>(
                error,
            ),
            LoginSuccessEvent::Synced(result) => state is Sync && result == Err::<(), Error<E>>(
                error,
            ),
            LoginSuccessEvent::DbLoaded(Ok(db)) => state is LoadDb
                && db.protected_private_key is None && error == Error::<E>::Refused(
                Failure::MissingProtectedPrivateKey,
            ),
            LoginSuccessEvent::DbLoaded(Err(cause)) => state is LoadDb && error == cause,
            LoginSuccessEvent::Unlocked(result) => state is Unlock && (result matches Err(cause)
                && error == Error::Caused(Failure::UnlockDatabase, cause)),
            _ => false,
        },
{
}

} // verus!
