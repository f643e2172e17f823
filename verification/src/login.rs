//! Registering with a server and logging in.
//!
//! `T` stands for the kind of key derivation, `O` for the protected keys of
//! organisations, `N` for the list of entries, `P` for what was entered in a
//! dialogue, `K` for keys in memory and `E` for errors from outside.
use vstd::prelude::*;
use vstd::utf8::*;
use crate::db::{Db, OrgKeys, Secrets};
use crate::error::{Error, Failure, Reply, TwoFactorProviderType, Warning};
use crate::prompt::{Attempts, AttemptsView, Pin, Prompt, PromptView};
use crate::text;
use crate::unicode;

verus! {

/// The host of an address, where the address has one; the message of the error
/// where the address is not a URL.
pub uninterp spec fn url_host(url: Seq<char>) -> Result<Option<Seq<char>>, Seq<char>>;

/// `reqwest::Url::parse` reads an address and `host_str` gives its host. Both
/// depend on the text of the address alone.
#[verifier::external_body]
fn parse_host(url: &str) -> (r: Result<Option<String>, String>)
    ensures
        host_view(r) == url_host(url@),
{
    reqwest::Url::parse(url)
        .map(|url| url.host_str().map(|host| host.to_string()))
        .map_err(|e| e.to_string())
}

/// The contents of a parsed address.
pub open spec fn host_view(r: Result<Option<String>, String>) -> Result<
    Option<Seq<char>>,
    Seq<char>,
> {
    match r {
        Ok(host) => Ok(host.deep_view()),
        Err(message) => Err(message@),
    }
}

/// Whether `r` is the host that a dialogue names, or the error for an address
/// that has none, given what the address was parsed to.
pub open spec fn names_host<E>(
    url: Seq<char>,
    parsed: Result<Option<Seq<char>>, Seq<char>>,
    r: Result<String, Error<E>>,
) -> bool {
    match parsed {
        Ok(Some(found)) => r matches Ok(host) && host@ == found,
        Ok(None) => {
            &&& r matches Err(Error::Refused(Failure::BaseUrlWithoutHost(address)))
            &&& address@ == url
        },
        Err(cause) => {
            &&& r matches Err(Error::Explained(Failure::ParseBaseUrl, message))
            &&& message@ == cause
        },
    }
}

/// The host of a parsed address, or the error for an address without one.
pub fn host_of<E>(url: String, parsed: Result<Option<String>, String>) -> (r: Result<
    String,
    Error<E>,
>)
    ensures
        names_host(url@, host_view(parsed), r),
{
    match parsed {
        Ok(Some(host)) => Ok(host),
        Ok(None) => Err(Error::Refused(Failure::BaseUrlWithoutHost(url))),
        Err(message) => Err(Error::Explained(Failure::ParseBaseUrl, message)),
    }
}

/// The host that the dialogues name for a base address.
pub fn base_url_host<E>(url: String) -> (r: Result<String, Error<E>>)
    ensures
        names_host(url@, url_host(url@), r),
{
    let parsed = parse_host(url.as_str());
    host_of(url, parsed)
}

/// What a dialogue says about where to log in.
pub open spec fn login_description(host: Seq<char>) -> Seq<char> {
    "Log in to "@ + host
}

/// A dialogue of a login.
pub open spec fn login_prompt(
    title: Seq<char>,
    host: Seq<char>,
    attempts: AttemptsView,
    grab: bool,
) -> PromptView {
    PromptView { title, description: login_description(host), error: attempts.error(), grab }
}

/// A registration of the device with an API key.
#[derive(Debug)]
pub enum Register<P, E> {
    LoadDb,
    LoadBaseUrl,
    LoadEmail { host: String },
    AskClientId { host: String, email: String, attempts: Attempts, prompt: Prompt },
    AskClientSecret {
        host: String,
        email: String,
        attempts: Attempts,
        client_id: P,
        prompt: Prompt,
    },
    Register {
        host: String,
        email: String,
        attempts: Attempts,
        client_id: P,
        client_secret: P,
    },
    Respond,
    Done(Result<(), Error<E>>),
}

#[derive(Debug)]
pub enum RegisterEvent<P, E> {
    /// Whether the local database, or an empty one where there is none, needs a
    /// login.
    DbLoaded { needs_login: bool },
    BaseUrlLoaded(Result<String, E>),
    EmailLoaded(Result<String, Error<E>>),
    Answered(Pin<P, E>),
    Registered(Reply<(), E>),
    Responded(Result<(), E>),
}

impl<P, E> Register<P, E> {
    /// Whether the identifier of the API key is asked for, in this attempt.
    pub open spec fn asks_id(self, h: String, m: String, attempt: AttemptsView) -> bool {
        &&& self matches Register::AskClientId { host, email, attempts, prompt }
        &&& host == h
        &&& email == m
        &&& attempts@ == attempt
        &&& prompt@ == login_prompt("API key client__id"@, h@, attempt, false)
    }

    /// Whether the secret of the API key is asked for, in this attempt.
    pub open spec fn asks_secret(
        self,
        h: String,
        m: String,
        attempt: AttemptsView,
        id: P,
    ) -> bool {
        &&& self matches Register::AskClientSecret { host, email, attempts, client_id, prompt }
        &&& host == h
        &&& email == m
        &&& attempts@ == attempt
        &&& client_id == id
        &&& prompt@ == login_prompt("API key client__secret"@, h@, attempt, false)
    }

    /// Where an event leads. One that the state does not wait for changes
    /// nothing.
    pub open spec fn steps_to(self, event: RegisterEvent<P, E>, after: Self) -> bool {
        match (self, event) {
            (Register::LoadDb, RegisterEvent::DbLoaded { needs_login }) => {
                after == if needs_login {
                    Self::LoadBaseUrl
                } else {
                    Self::Respond
                }
            },
            (Register::LoadBaseUrl, RegisterEvent::BaseUrlLoaded(result)) => match result {
                Ok(url) => match after {
                    Register::LoadEmail { host } => names_host::<E>(url@, url_host(url@), Ok(host)),
                    Register::Done(Err(error)) => names_host(url@, url_host(url@), Err(error)),
                    _ => false,
                },
                Err(error) => after == Self::Done(Err(Error::Forwarded(error))),
            },
            (Register::LoadEmail { host }, RegisterEvent::EmailLoaded(result)) => match result {
                Ok(email) => after.asks_id(host, email, AttemptsView::first()),
                Err(error) => after == Self::Done(Err(error)),
            },
            (
                Register::AskClientId { host, email, attempts, .. },
                RegisterEvent::Answered(pin),
            ) => match pin {
                Pin::Entered(client_id) => after.asks_secret(host, email, attempts@, client_id),
                Pin::Unconfigured(error) => after == Self::Done(Err(Error::Forwarded(error))),
                Pin::Failed(error) => after == Self::Done(
                    Err(Error::Caused(Failure::ReadClientId, error)),
                ),
            },
            (
                Register::AskClientSecret { host, email, attempts, client_id, .. },
                RegisterEvent::Answered(pin),
            ) => match pin {
                Pin::Entered(client_secret) => after == (Self::Register {
                    host,
                    email,
                    attempts,
                    client_id,
                    client_secret,
                }),
                Pin::Unconfigured(error) => after == Self::Done(Err(Error::Forwarded(error))),
                Pin::Failed(error) => after == Self::Done(
                    Err(Error::Caused(Failure::ReadClientSecret, error)),
                ),
            },
            (
                Register::Register { host, email, attempts, .. },
                RegisterEvent::Registered(reply),
            ) => match reply {
                Reply::Accepted(_) => after == Self::Respond,
                Reply::IncorrectPassword(message) => match attempts@.turned_down(message@) {
                    Some(next) => after.asks_id(host, email, next),
                    None => after == Self::Done(
                        Err(Error::IncorrectPassword(Failure::LogIn, message)),
                    ),
                },
                Reply::Failed(error) => after == Self::Done(
                    Err(Error::Caused(Failure::LogIn, error)),
                ),
            },
            (Register::Respond, RegisterEvent::Responded(result)) => after == Self::Done(
                match result {
                    Ok(_) => Ok(()),
                    Err(error) => Err(Error::Forwarded(error)),
                },
            ),
            _ => after == self,
        }
    }
}

fn ask_client_id<P, E>(host: String, email: String, attempts: Attempts) -> (r: Register<P, E>)
    ensures
        r.asks_id(host, email, attempts@),
{
    let description = text::concat("Log in to ", host.as_str());
    let prompt = attempts.prompt("API key client__id", description.as_str(), false);
    Register::AskClientId { host, email, attempts, prompt }
}

/// Moves a registration on.
pub fn register<P, E>(state: Register<P, E>, event: RegisterEvent<P, E>) -> (after: Register<P, E>)
    ensures
        state.steps_to(event, after),
{
    match (state, event) {
        (Register::LoadDb, RegisterEvent::DbLoaded { needs_login }) => if needs_login {
            Register::LoadBaseUrl
        } else {
            Register::Respond
        },
        (Register::LoadBaseUrl, RegisterEvent::BaseUrlLoaded(result)) => match result {
            Ok(url) => match base_url_host(url) {
                Ok(host) => Register::LoadEmail { host },
                Err(error) => Register::Done(Err(error)),
            },
            Err(error) => Register::Done(Err(Error::Forwarded(error))),
        },
        (Register::LoadEmail { host }, RegisterEvent::EmailLoaded(result)) => match result {
            Ok(email) => ask_client_id(host, email, Attempts::first()),
            Err(error) => Register::Done(Err(error)),
        },
        (Register::AskClientId { host, email, attempts, .. }, RegisterEvent::Answered(pin)) => {
            match pin {
                Pin::Entered(client_id) => {
                    let description = text::concat("Log in to ", host.as_str());
                    let prompt = attempts.prompt(
                        "API key client__secret",
                        description.as_str(),
                        false,
                    );
                    Register::AskClientSecret { host, email, attempts, client_id, prompt }
                },
                Pin::Unconfigured(error) => Register::Done(Err(Error::Forwarded(error))),
                Pin::Failed(error) => Register::Done(
                    Err(Error::Caused(Failure::ReadClientId, error)),
                ),
            }
        },
        (
            Register::AskClientSecret { host, email, attempts, client_id, .. },
            RegisterEvent::Answered(pin),
        ) => match pin {
            Pin::Entered(client_secret) => Register::Register {
                host,
                email,
                attempts,
                client_id,
                client_secret,
            },
            Pin::Unconfigured(error) => Register::Done(Err(Error::Forwarded(error))),
            Pin::Failed(error) => Register::Done(
                Err(Error::Caused(Failure::ReadClientSecret, error)),
            ),
        },
        (Register::Register { host, email, attempts, .. }, RegisterEvent::Registered(reply)) => {
            match reply {
                Reply::Accepted(_) => Register::Respond,
                Reply::IncorrectPassword(message) => match attempts.turned_down(message) {
                    Ok(next) => ask_client_id(host, email, next),
                    Err(message) => Register::Done(
                        Err(Error::IncorrectPassword(Failure::LogIn, message)),
                    ),
                },
                Reply::Failed(error) => Register::Done(Err(Error::Caused(Failure::LogIn, error))),
            }
        },
        (Register::Respond, RegisterEvent::Responded(result)) => match result {
            Ok(_) => Register::Done(Ok(())),
            Err(error) => Register::Done(Err(Error::Forwarded(error))),
        },
        (state, _) => state,
    }
}

/// What a server hands out to a device that logged in.
#[derive(Debug, Clone)]
pub struct Session<T> {
    pub access_token: String,
    pub refresh_token: String,
    pub kdf: T,
    pub iterations: u32,
    pub memory: Option<u32>,
    pub parallelism: Option<u32>,
    pub protected_key: String,
}

/// What a server says to a login.
#[derive(Debug)]
pub enum LoginReply<T, E> {
    Accepted(Session<T>),
    TwoFactorRequired {
        providers: Vec<TwoFactorProviderType>,
        sso_email_2fa_session_token: Option<String>,
    },
    IncorrectPassword(String),
    Failed(E),
}

/// Whether the provider is among those that a server offers.
pub open spec fn offers(
    providers: Seq<TwoFactorProviderType>,
    provider: TwoFactorProviderType,
) -> bool {
    exists|i: int| 0 <= i < providers.len() && #[trigger] providers[i] == provider
}

/// The second factor that is used: the first of an authenticator, a Yubikey and
/// an email that the server offers.
pub open spec fn preferred_provider(providers: Seq<TwoFactorProviderType>) -> Option<
    TwoFactorProviderType,
> {
    if offers(providers, TwoFactorProviderType::Authenticator) {
        Some(TwoFactorProviderType::Authenticator)
    } else if offers(providers, TwoFactorProviderType::Yubikey) {
        Some(TwoFactorProviderType::Yubikey)
    } else if offers(providers, TwoFactorProviderType::Email) {
        Some(TwoFactorProviderType::Email)
    } else {
        None
    }
}

/// Chooses the second factor.
pub fn choose_provider(providers: &Vec<TwoFactorProviderType>) -> (r: Option<
    TwoFactorProviderType,
>)
    ensures
        r == preferred_provider(providers@),
{
    let mut authenticator = false;
    let mut yubikey = false;
    let mut email = false;
    let mut i: usize = 0;
    while i < providers.len()
        invariant
            i <= providers@.len(),
            authenticator == offers(
                providers@.take(i as int),
                TwoFactorProviderType::Authenticator,
            ),
            yubikey == offers(providers@.take(i as int), TwoFactorProviderType::Yubikey),
            email == offers(providers@.take(i as int), TwoFactorProviderType::Email),
        decreases providers@.len() - i,
    {
        proof {
            lemma_offers_next(providers@, i as int, TwoFactorProviderType::Authenticator);
            lemma_offers_next(providers@, i as int, TwoFactorProviderType::Yubikey);
            lemma_offers_next(providers@, i as int, TwoFactorProviderType::Email);
        }
        match &providers[i] {
            TwoFactorProviderType::Authenticator => {
                authenticator = true;
            },
            TwoFactorProviderType::Yubikey => {
                yubikey = true;
            },
            TwoFactorProviderType::Email => {
                email = true;
            },
            TwoFactorProviderType::Other(_) => {},
        }
        i = i + 1;
    }
    assert(providers@.take(i as int) =~= providers@);
    if authenticator {
        Some(TwoFactorProviderType::Authenticator)
    } else if yubikey {
        Some(TwoFactorProviderType::Yubikey)
    } else if email {
        Some(TwoFactorProviderType::Email)
    } else {
        None
    }
}

proof fn lemma_offers_next(
    providers: Seq<TwoFactorProviderType>,
    i: int,
    provider: TwoFactorProviderType,
)
    requires
        0 <= i < providers.len(),
    ensures
        offers(providers.take(i + 1), provider) == (offers(providers.take(i), provider)
            || providers[i] == provider),
{
    let shorter = providers.take(i);
    let longer = providers.take(i + 1);
    if offers(longer, provider) {
        let k = choose|k: int| 0 <= k < longer.len() && #[trigger] longer[k] == provider;
        if k < i {
            assert(shorter[k] == provider);
        }
    }
    if offers(shorter, provider) {
        let k = choose|k: int| 0 <= k < shorter.len() && #[trigger] shorter[k] == provider;
        assert(longer[k] == provider);
    }
    assert(longer[i] == providers[i]);
}

/// A login with the master password.
#[derive(Debug)]
pub enum Login<T, O, N, P, E> {
    LoadDb,
    LoadBaseUrl { db: Db<T, O, N> },
    LoadEmail { db: Db<T, O, N>, host: String },
    AskPassword {
        db: Db<T, O, N>,
        host: String,
        email: String,
        attempts: Attempts,
        prompt: Prompt,
    },
    LogIn { db: Db<T, O, N>, host: String, email: String, attempts: Attempts, password: P },
    /// Lets the server send a code by email.
    SendEmail { db: Db<T, O, N>, email: String, password: P, token: String },
    TwoFactor {
        db: Db<T, O, N>,
        email: String,
        password: P,
        provider: TwoFactorProviderType,
    },
    LoginSuccess { db: Db<T, O, N>, email: String, password: P, session: Session<T> },
    Respond,
    Done(Result<(), Error<E>>),
}

#[derive(Debug)]
pub enum LoginEvent<T, O, N, P, E> {
    /// The local database, or an empty one where there is none, and whether it
    /// needs a login.
    DbLoaded { db: Db<T, O, N>, needs_login: bool },
    BaseUrlLoaded(Result<String, E>),
    EmailLoaded(Result<String, Error<E>>),
    Answered(Pin<P, E>),
    LoggedIn(LoginReply<T, E>),
    EmailSent(Result<(), E>),
    SecondFactor(Result<Session<T>, Error<E>>),
    Succeeded(Result<(), Error<E>>),
    Responded(Result<(), E>),
}

impl<T, O, N, P, E> Login<T, O, N, P, E> {
    /// Whether the password is asked for, in this attempt.
    pub open spec fn asks(
        self,
        d: Db<T, O, N>,
        h: String,
        m: String,
        attempt: AttemptsView,
    ) -> bool {
        &&& self matches Login::AskPassword { db, host, email, attempts, prompt }
        &&& db == d
        &&& host == h
        &&& email == m
        &&& attempts@ == attempt
        &&& prompt@ == login_prompt("Master Password"@, h@, attempt, true)
    }

    /// Where an event leads. One that the state does not wait for changes
    /// nothing.
    pub open spec fn steps_to(self, event: LoginEvent<T, O, N, P, E>, after: Self) -> bool {
        match (self, event) {
            (Login::LoadDb, LoginEvent::DbLoaded { db, needs_login }) => {
                after == if needs_login {
                    Self::LoadBaseUrl { db }
                } else {
                    Self::Respond
                }
            },
            (Login::LoadBaseUrl { db: d }, LoginEvent::BaseUrlLoaded(result)) => match result {
                Ok(url) => match after {
                    Login::LoadEmail { db, host } => db == d && names_host::<E>(
                        url@,
                        url_host(url@),
                        Ok(host),
                    ),
                    Login::Done(Err(error)) => names_host(url@, url_host(url@), Err(error)),
                    _ => false,
                },
                Err(error) => after == Self::Done(Err(Error::Forwarded(error))),
            },
            (Login::LoadEmail { db, host }, LoginEvent::EmailLoaded(result)) => match result {
                Ok(email) => after.asks(db, host, email, AttemptsView::first()),
                Err(error) => after == Self::Done(Err(error)),
            },
            (
                Login::AskPassword { db, host, email, attempts, .. },
                LoginEvent::Answered(pin),
            ) => after == match pin {
                Pin::Entered(password) => Self::LogIn { db, host, email, attempts, password },
                Pin::Unconfigured(error) => Self::Done(Err(Error::Forwarded(error))),
                Pin::Failed(error) => Self::Done(Err(Error::Caused(Failure::ReadPassword, error))),
            },
            (
                Login::LogIn { db, host, email, attempts, password },
                LoginEvent::LoggedIn(reply),
            ) => match reply {
                LoginReply::Accepted(session) => after == (Self::LoginSuccess {
                    db,
                    email,
                    password,
                    session,
                }),
                LoginReply::TwoFactorRequired { providers, sso_email_2fa_session_token } => {
                    after == match preferred_provider(providers@) {
                        None => Self::Done(
                            Err(Error::Refused(Failure::UnsupportedTwoFactorMethods(providers))),
                        ),
                        Some(provider) => match (provider, sso_email_2fa_session_token) {
                            (TwoFactorProviderType::Email, Some(token)) => Self::SendEmail {
                                db,
                                email,
                                password,
                                token,
                            },
                            _ => Self::TwoFactor { db, email, password, provider },
                        },
                    }
                },
                LoginReply::IncorrectPassword(message) => match attempts@.turned_down(message@) {
                    Some(next) => after.asks(db, host, email, next),
                    None => after == Self::Done(
                        Err(Error::IncorrectPassword(Failure::LogIn, message)),
                    ),
                },
                LoginReply::Failed(error) => after == Self::Done(
                    Err(Error::Caused(Failure::LogIn, error)),
                ),
            },
            (
                Login::SendEmail { db, email, password, .. },
                LoginEvent::EmailSent(result),
            ) => after == match result {
                Ok(_) => Self::TwoFactor {
                    db,
                    email,
                    password,
                    provider: TwoFactorProviderType::Email,
                },
                Err(error) => Self::Done(Err(Error::Forwarded(error))),
            },
            (
                Login::TwoFactor { db, email, password, .. },
                LoginEvent::SecondFactor(result),
            ) => after == match result {
                Ok(session) => Self::LoginSuccess { db, email, password, session },
                Err(error) => Self::Done(Err(error)),
            },
            (Login::LoginSuccess { .. }, LoginEvent::Succeeded(result)) => after == match result {
                Ok(_) => Self::Respond,
                Err(error) => Self::Done(Err(error)),
            },
            (Login::Respond, LoginEvent::Responded(result)) => after == Self::Done(
                match result {
                    Ok(_) => Ok(()),
                    Err(error) => Err(Error::Forwarded(error)),
                },
            ),
            _ => after == self,
        }
    }
}

fn ask_login_password<T, O, N, P, E>(
    db: Db<T, O, N>,
    host: String,
    email: String,
    attempts: Attempts,
) -> (r: Login<T, O, N, P, E>)
    ensures
        r.asks(db, host, email, attempts@),
{
    let description = text::concat("Log in to ", host.as_str());
    let prompt = attempts.prompt("Master Password", description.as_str(), true);
    Login::AskPassword { db, host, email, attempts, prompt }
}

/// Moves a login on.
pub fn login<T, O, N, P, E>(
    state: Login<T, O, N, P, E>,
    event: LoginEvent<T, O, N, P, E>,
) -> (after: Login<T, O, N, P, E>)
    ensures
        state.steps_to(event, after),
{
    match (state, event) {
        (Login::LoadDb, LoginEvent::DbLoaded { db, needs_login }) => if needs_login {
            Login::LoadBaseUrl { db }
        } else {
            Login::Respond
        },
        (Login::LoadBaseUrl { db }, LoginEvent::BaseUrlLoaded(result)) => match result {
            Ok(url) => match base_url_host(url) {
                Ok(host) => Login::LoadEmail { db, host },
                Err(error) => Login::Done(Err(error)),
            },
            Err(error) => Login::Done(Err(Error::Forwarded(error))),
        },
        (Login::LoadEmail { db, host }, LoginEvent::EmailLoaded(result)) => match result {
            Ok(email) => ask_login_password(db, host, email, Attempts::first()),
            Err(error) => Login::Done(Err(error)),
        },
        (Login::AskPassword { db, host, email, attempts, .. }, LoginEvent::Answered(pin)) => {
            match pin {
                Pin::Entered(password) => Login::LogIn { db, host, email, attempts, password },
                Pin::Unconfigured(error) => Login::Done(Err(Error::Forwarded(error))),
                Pin::Failed(error) => Login::Done(Err(Error::Caused(Failure::ReadPassword, error))),
            }
        },
        (
            Login::LogIn { db, host, email, attempts, password },
            LoginEvent::LoggedIn(reply),
        ) => match reply {
            LoginReply::Accepted(session) => Login::LoginSuccess { db, email, password, session },
            LoginReply::TwoFactorRequired { providers, sso_email_2fa_session_token } => {
                match choose_provider(&providers) {
                    None => Login::Done(
                        Err(Error::Refused(Failure::UnsupportedTwoFactorMethods(providers))),
                    ),
                    Some(provider) => match (provider, sso_email_2fa_session_token) {
                        (TwoFactorProviderType::Email, Some(token)) => Login::SendEmail {
                            db,
                            email,
                            password,
                            token,
                        },
                        (provider, _) => Login::TwoFactor { db, email, password, provider },
                    },
                }
            },
            LoginReply::IncorrectPassword(message) => match attempts.turned_down(message) {
                Ok(next) => ask_login_password(db, host, email, next),
                Err(message) => Login::Done(Err(Error::IncorrectPassword(Failure::LogIn, message))),
            },
            LoginReply::Failed(error) => Login::Done(Err(Error::Caused(Failure::LogIn, error))),
        },
        (Login::SendEmail { db, email, password, .. }, LoginEvent::EmailSent(result)) => {
            match result {
                Ok(_) => Login::TwoFactor {
                    db,
                    email,
                    password,
                    provider: TwoFactorProviderType::Email,
                },
                Err(error) => Login::Done(Err(Error::Forwarded(error))),
            }
        },
        (Login::TwoFactor { db, email, password, .. }, LoginEvent::SecondFactor(result)) => {
            match result {
                Ok(session) => Login::LoginSuccess { db, email, password, session },
                Err(error) => Login::Done(Err(error)),
            }
        },
        (Login::LoginSuccess { .. }, LoginEvent::Succeeded(result)) => match result {
            Ok(_) => Login::Respond,
            Err(error) => Login::Done(Err(error)),
        },
        (Login::Respond, LoginEvent::Responded(result)) => match result {
            Ok(_) => Login::Done(Ok(())),
            Err(error) => Login::Done(Err(Error::Forwarded(error))),
        },
        (state, _) => state,
    }
}

/// How a second factor presents itself in its dialogue.
#[derive(Debug)]
pub struct Challenge {
    pub provider: TwoFactorProviderType,
    pub header: String,
    pub message: String,
    pub grab: bool,
}

/// A login with a second factor.
#[derive(Debug)]
pub enum TwoFactor<T, P, E> {
    AskCode {
        email: String,
        password: P,
        challenge: Challenge,
        attempts: Attempts,
        prompt: Prompt,
    },
    LogIn {
        email: String,
        password: P,
        challenge: Challenge,
        attempts: Attempts,
        code: String,
    },
    Done(Result<Session<T>, Error<E>>),
}

#[derive(Debug)]
pub enum TwoFactorEvent<T, E> {
    Answered(Pin<Vec<u8>, E>),
    LoggedIn(LoginReply<T, E>),
}

impl<T, P, E> TwoFactor<T, P, E> {
    /// Whether a code is asked for, in this attempt.
    pub open spec fn asks(self, m: String, p: P, c: Challenge, attempt: AttemptsView) -> bool {
        &&& self matches TwoFactor::AskCode { email, password, challenge, attempts, prompt }
        &&& email == m
        &&& password == p
        &&& challenge == c
        &&& attempts@ == attempt
        &&& prompt@ == (PromptView {
            title: c.header@,
            description: c.message@,
            error: attempt.error(),
            grab: c.grab,
        })
    }

    /// Whether the code was turned down in the given attempt: it is asked for
    /// again, or the login fails.
    pub open spec fn turned_down(
        self,
        m: String,
        p: P,
        c: Challenge,
        attempt: AttemptsView,
        text: Seq<char>,
    ) -> bool {
        match attempt.turned_down(text) {
            Some(next) => self.asks(m, p, c, next),
            None => {
                &&& self matches TwoFactor::Done(
                    Err(Error::IncorrectPassword(Failure::LogIn, message)),
                )
                &&& message@ == text
            },
        }
    }

    /// Where an event leads. One that the state does not wait for changes
    /// nothing.
    pub open spec fn steps_to(self, event: TwoFactorEvent<T, E>, after: Self) -> bool {
        match (self, event) {
            (
                TwoFactor::AskCode {
                    email: m,
                    password: p,
                    challenge: c,
                    attempts: a,
                    ..
                },
                TwoFactorEvent::Answered(pin),
            ) => match pin {
                Pin::Entered(bytes) => if valid_utf8(bytes@) {
                    &&& after matches TwoFactor::LogIn { email, password, challenge, attempts, code }
                    &&& email == m
                    &&& password == p
                    &&& challenge == c
                    &&& attempts == a
                    &&& code@ == decode_utf8(bytes@)
                } else {
                    &&& after matches TwoFactor::Done(
                        Err(Error::Explained(Failure::CodeNotUtf8, message)),
                    )
                    &&& message@ == unicode::utf8_error(bytes@)
                },
                Pin::Unconfigured(error) => after == Self::Done(Err(Error::Forwarded(error))),
                Pin::Failed(error) => after == Self::Done(
                    Err(Error::Caused(Failure::ReadCode, error)),
                ),
            },
            (
                TwoFactor::LogIn { email, password, challenge, attempts, .. },
                TwoFactorEvent::LoggedIn(reply),
            ) => match reply {
                LoginReply::Accepted(session) => after == Self::Done(Ok(session)),
                LoginReply::IncorrectPassword(message) => after.turned_down(
                    email,
                    password,
                    challenge,
                    attempts@,
                    message@,
                ),
                LoginReply::TwoFactorRequired { .. } => after.turned_down(
                    email,
                    password,
                    challenge,
                    attempts@,
                    "TOTP code is not a number"@,
                ),
                LoginReply::Failed(error) => after == Self::Done(
                    Err(Error::Caused(Failure::LogIn, error)),
                ),
            },
            _ => after == self,
        }
    }

    /// The first state of a login with a second factor.
    pub fn start(email: String, password: P, challenge: Challenge) -> (r: Self)
        ensures
            r.asks(email, password, challenge, AttemptsView::first()),
    {
        ask_code(email, password, challenge, Attempts::first())
    }
}

fn ask_code<T, P, E>(
    email: String,
    password: P,
    challenge: Challenge,
    attempts: Attempts,
) -> (r: TwoFactor<T, P, E>)
    ensures
        r.asks(email, password, challenge, attempts@),
{
    let prompt = attempts.prompt(
        challenge.header.as_str(),
        challenge.message.as_str(),
        challenge.grab,
    );
    TwoFactor::AskCode { email, password, challenge, attempts, prompt }
}

fn code_turned_down<T, P, E>(
    email: String,
    password: P,
    challenge: Challenge,
    attempts: Attempts,
    message: String,
) -> (r: TwoFactor<T, P, E>)
    ensures
        r.turned_down(email, password, challenge, attempts@, message@),
{
    match attempts.turned_down(message) {
        Ok(next) => ask_code(email, password, challenge, next),
        Err(message) => TwoFactor::Done(Err(Error::IncorrectPassword(Failure::LogIn, message))),
    }
}

/// Moves a login with a second factor on.
pub fn two_factor<T, P, E>(
    state: TwoFactor<T, P, E>,
    event: TwoFactorEvent<T, E>,
) -> (after: TwoFactor<T, P, E>)
    ensures
        state.steps_to(event, after),
{
    match (state, event) {
        (
            TwoFactor::AskCode { email, password, challenge, attempts, .. },
            TwoFactorEvent::Answered(pin),
        ) => match pin {
            Pin::Entered(bytes) => match unicode::from_utf8(bytes) {
                Ok(code) => TwoFactor::LogIn { email, password, challenge, attempts, code },
                Err(message) => TwoFactor::Done(
                    Err(Error::Explained(Failure::CodeNotUtf8, message)),
                ),
            },
            Pin::Unconfigured(error) => TwoFactor::Done(Err(Error::Forwarded(error))),
            Pin::Failed(error) => TwoFactor::Done(Err(Error::Caused(Failure::ReadCode, error))),
        },
        (
            TwoFactor::LogIn { email, password, challenge, attempts, .. },
            TwoFactorEvent::LoggedIn(reply),
        ) => match reply {
            LoginReply::Accepted(session) => TwoFactor::Done(Ok(session)),
            LoginReply::IncorrectPassword(message) => code_turned_down(
                email,
                password,
                challenge,
                attempts,
                message,
            ),
            // a server also says this to an empty code
            LoginReply::TwoFactorRequired { .. } => code_turned_down(
                email,
                password,
                challenge,
                attempts,
                "TOTP code is not a number".to_owned(),
            ),
            LoginReply::Failed(error) => TwoFactor::Done(Err(Error::Caused(Failure::LogIn, error))),
        },
        (state, _) => state,
    }
}

/// What of a session is needed to unlock the vault with it.
#[derive(Debug)]
pub struct SessionKey<T> {
    pub kdf: T,
    pub iterations: u32,
    pub memory: Option<u32>,
    pub parallelism: Option<u32>,
    pub protected_key: String,
}

/// What follows a login that the server accepted.
#[derive(Debug)]
pub enum LoginSuccess<T, O, N, P, K, E> {
    SaveDb { db: Db<T, O, N>, key: SessionKey<T>, password: P, email: String },
    Sync { key: SessionKey<T>, password: P, email: String },
    LoadDb { key: SessionKey<T>, password: P, email: String },
    Unlock { secrets: Secrets<T, O>, password: P, email: String },
    StoreKeys { keys: K, org_keys: OrgKeys<K> },
    RefreshCache,
    Warn { warning: Warning, error: Error<E> },
    Done(Result<(), Error<E>>),
}

#[derive(Debug)]
pub enum LoginSuccessEvent<T, O, N, K, E> {
    DbSaved(Result<(), Error<E>>),
    Synced(Result<(), Error<E>>),
    DbLoaded(Result<Db<T, O, N>, Error<E>>),
    Unlocked(Result<(K, OrgKeys<K>), E>),
    KeysStored,
    CacheRefreshed(Result<(), Error<E>>),
    Warned,
}

/// The local database after a login.
pub open spec fn logged_in<T, O, N>(db: Db<T, O, N>, session: Session<T>) -> Db<T, O, N> {
    Db {
        access_token: Some(session.access_token),
        refresh_token: Some(session.refresh_token),
        kdf: Some(session.kdf),
        iterations: Some(session.iterations),
        memory: session.memory,
        parallelism: session.parallelism,
        protected_key: Some(session.protected_key),
        ..db
    }
}

/// What of a session unlocks the vault.
pub open spec fn session_key<T>(session: Session<T>) -> SessionKey<T> {
    SessionKey {
        kdf: session.kdf,
        iterations: session.iterations,
        memory: session.memory,
        parallelism: session.parallelism,
        protected_key: session.protected_key,
    }
}

impl<T, O, N, P, K, E> LoginSuccess<T, O, N, P, K, E> {
    /// Where an event leads. One that the state does not wait for changes
    /// nothing.
    pub open spec fn steps_to(
        self,
        event: LoginSuccessEvent<T, O, N, K, E>,
        after: Self,
    ) -> bool {
        match (self, event) {
            (
                LoginSuccess::SaveDb { key, password, email, .. },
                LoginSuccessEvent::DbSaved(result),
            ) => after == match result {
                Ok(_) => Self::Sync { key, password, email },
                Err(error) => Self::Done(Err(error)),
            },
            (
                LoginSuccess::Sync { key, password, email },
                LoginSuccessEvent::Synced(result),
            ) => after == match result {
                Ok(_) => Self::LoadDb { key, password, email },
                Err(error) => Self::Done(Err(error)),
            },
            (
                LoginSuccess::LoadDb { key, password, email },
                LoginSuccessEvent::DbLoaded(result),
            ) => after == match result {
                Ok(db) => match db.protected_private_key {
                    None => Self::Done(Err(Error::Refused(Failure::MissingProtectedPrivateKey))),
                    Some(protected_private_key) => Self::Unlock {
                        secrets: Secrets {
                            kdf: key.kdf,
                            iterations: key.iterations,
                            memory: key.memory,
                            parallelism: key.parallelism,
                            protected_key: key.protected_key,
                            protected_private_key,
                            protected_org_keys: db.protected_org_keys,
                        },
                        password,
                        email,
                    },
                },
                Err(error) => Self::Done(Err(error)),
            },
            (LoginSuccess::Unlock { .. }, LoginSuccessEvent::Unlocked(result)) => {
                after == match result {
                    Ok((keys, org_keys)) => Self::StoreKeys { keys, org_keys },
                    Err(error) => Self::Done(Err(Error::Caused(Failure::UnlockDatabase, error))),
                }
            },
            (LoginSuccess::StoreKeys { .. }, LoginSuccessEvent::KeysStored) => {
                after == Self::RefreshCache
            },
            (LoginSuccess::RefreshCache, LoginSuccessEvent::CacheRefreshed(result)) => {
                after == match result {
                    Ok(_) => Self::Done(Ok(())),
                    Err(error) => Self::Warn { warning: Warning::RefreshPublicKeyCache, error },
                }
            },
            (LoginSuccess::Warn { .. }, LoginSuccessEvent::Warned) => after == Self::Done(Ok(())),
            _ => after == self,
        }
    }
}

impl<T: Copy, O, N, P, K, E> LoginSuccess<T, O, N, P, K, E> {
    /// The first state: the session is written to the local database.
    pub fn start(db: Db<T, O, N>, session: Session<T>, password: P, email: String) -> (r: Self)
        ensures
            r == (Self::SaveDb {
                db: logged_in(db, session),
                key: session_key(session),
                password,
                email,
            }),
    {
        let mut db = db;
        db.access_token = Some(session.access_token);
        db.refresh_token = Some(session.refresh_token);
        db.kdf = Some(session.kdf);
        db.iterations = Some(session.iterations);
        db.memory = session.memory;
        db.parallelism = session.parallelism;
        db.protected_key = Some(session.protected_key.clone());
        let key = SessionKey {
            kdf: session.kdf,
            iterations: session.iterations,
            memory: session.memory,
            parallelism: session.parallelism,
            protected_key: session.protected_key,
        };
        LoginSuccess::SaveDb { db, key, password, email }
    }
}

/// Moves on what follows a login. A public key cache that cannot be refreshed
/// does not make it fail.
pub fn login_success<T, O, N, P, K, E>(
    state: LoginSuccess<T, O, N, P, K, E>,
    event: LoginSuccessEvent<T, O, N, K, E>,
) -> (after: LoginSuccess<T, O, N, P, K, E>)
    ensures
        state.steps_to(event, after),
{
    match (state, event) {
        (
            LoginSuccess::SaveDb { key, password, email, .. },
            LoginSuccessEvent::DbSaved(result),
        ) => match result {
            Ok(_) => LoginSuccess::Sync { key, password, email },
            Err(error) => LoginSuccess::Done(Err(error)),
        },
        (LoginSuccess::Sync { key, password, email }, LoginSuccessEvent::Synced(result)) => {
            match result {
                Ok(_) => LoginSuccess::LoadDb { key, password, email },
                Err(error) => LoginSuccess::Done(Err(error)),
            }
        },
        (LoginSuccess::LoadDb { key, password, email }, LoginSuccessEvent::DbLoaded(result)) => {
            match result {
                Ok(db) => match db.protected_private_key {
                    None => LoginSuccess::Done(
                        Err(Error::Refused(Failure::MissingProtectedPrivateKey)),
                    ),
                    Some(protected_private_key) => LoginSuccess::Unlock {
                        secrets: Secrets {
                            kdf: key.kdf,
                            iterations: key.iterations,
                            memory: key.memory,
                            parallelism: key.parallelism,
                            protected_key: key.protected_key,
                            protected_private_key,
                            protected_org_keys: db.protected_org_keys,
                        },
                        password,
                        email,
                    },
                },
                Err(error) => LoginSuccess::Done(Err(error)),
            }
        },
        (LoginSuccess::Unlock { .. }, LoginSuccessEvent::Unlocked(result)) => match result {
            Ok((keys, org_keys)) => LoginSuccess::StoreKeys { keys, org_keys },
            Err(error) => LoginSuccess::Done(Err(Error::Caused(Failure::UnlockDatabase, error))),
        },
        (LoginSuccess::StoreKeys { .. }, LoginSuccessEvent::KeysStored) => {
            LoginSuccess::RefreshCache
        },
        (LoginSuccess::RefreshCache, LoginSuccessEvent::CacheRefreshed(result)) => match result {
            Ok(_) => LoginSuccess::Done(Ok(())),
            Err(error) => LoginSuccess::Warn { warning: Warning::RefreshPublicKeyCache, error },
        },
        (LoginSuccess::Warn { .. }, LoginSuccessEvent::Warned) => LoginSuccess::Done(Ok(())),
        (state, _) => state,
    }
}

} // verus!
