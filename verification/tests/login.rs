use rbw_agent::db::{Db, OrgKeys};
use rbw_agent::error::{Error, Failure, Reply, TwoFactorProviderType};
use rbw_agent::login::{
    base_url_host, choose_provider, host_of, login, login_success, register, two_factor, Challenge,
    Login, LoginEvent, LoginReply, LoginSuccess, LoginSuccessEvent, Register, RegisterEvent,
    Session, TwoFactor, TwoFactorEvent,
};
use rbw_agent::prompt::Pin;

type Registration = Register<String, String>;
type LoginState = Login<u8, u16, Vec<i32>, String, String>;
type LoginEv = LoginEvent<u8, u16, Vec<i32>, String, String>;

fn db() -> Db<u8, u16, Vec<i32>> {
    Db {
        access_token: None,
        refresh_token: None,
        kdf: None,
        iterations: None,
        memory: Some(1),
        parallelism: Some(2),
        protected_key: None,
        protected_private_key: None,
        protected_org_keys: 0,
        entries: vec![4],
    }
}

fn session() -> Session<u8> {
    Session {
        access_token: "access".to_string(),
        refresh_token: "refresh".to_string(),
        kdf: 1,
        iterations: 600,
        memory: None,
        parallelism: Some(4),
        protected_key: "sealed".to_string(),
    }
}

#[test]
fn host_of_an_address() {
    let host: Result<String, Error<String>> =
        base_url_host("https://vault.example.com:8443/api".to_string());
    assert_eq!(host.unwrap(), "vault.example.com");
    let host: Result<String, Error<String>> = base_url_host("data:text/plain,x".to_string());
    match host.unwrap_err() {
        Error::Refused(failure) => assert_eq!(
            failure.message(),
            "couldn't find host in rbw base url data:text/plain,x"
        ),
        other => panic!("{:?}", other),
    }
    let host: Result<String, Error<String>> = base_url_host("no url".to_string());
    match host.unwrap_err() {
        Error::Explained(failure, cause) => {
            assert_eq!(failure.message(), "failed to parse base url");
            assert_eq!(cause, "relative URL without a base");
        }
        other => panic!("{:?}", other),
    }
    let host: Result<String, Error<String>> = host_of("u".to_string(), Ok(Some("h".to_string())));
    assert_eq!(host.unwrap(), "h");
}

fn registering() -> Registration {
    let state = register(Register::LoadDb, RegisterEvent::DbLoaded { needs_login: true });
    let state = register(
        state,
        RegisterEvent::BaseUrlLoaded(Ok("https://api.bitwarden.com".to_string())),
    );
    register(state, RegisterEvent::EmailLoaded(Ok("a@example.com".to_string())))
}

fn entered(state: Registration, text: &str) -> Registration {
    register(state, RegisterEvent::Answered(Pin::Entered(text.to_string())))
}

#[test]
fn registration_asks_for_an_api_key() {
    let state = registering();
    match &state {
        Register::AskClientId { prompt, email, host, .. } => {
            assert_eq!(host, "api.bitwarden.com");
            assert_eq!(email, "a@example.com");
            assert_eq!(prompt.title, "API key client__id");
            assert_eq!(prompt.description, "Log in to api.bitwarden.com");
            assert_eq!(prompt.error, None);
            assert!(!prompt.grab);
        }
        other => panic!("{:?}", other),
    }
    let state = entered(state, "id");
    match &state {
        Register::AskClientSecret { prompt, client_id, .. } => {
            assert_eq!(client_id, "id");
            assert_eq!(prompt.title, "API key client__secret");
            assert_eq!(prompt.description, "Log in to api.bitwarden.com");
            assert!(!prompt.grab);
        }
        other => panic!("{:?}", other),
    }
    let state = entered(state, "secret");
    match &state {
        Register::Register { client_id, client_secret, .. } => {
            assert_eq!(client_id, "id");
            assert_eq!(client_secret, "secret");
        }
        other => panic!("{:?}", other),
    }
    let state = register(state, RegisterEvent::Registered(Reply::Accepted(())));
    assert!(matches!(state, Register::Respond));
    assert!(matches!(register(state, RegisterEvent::Responded(Ok(()))), Register::Done(Ok(()))));
}

#[test]
fn three_api_keys_may_be_wrong() {
    let mut state = registering();
    for (attempt, shown) in [(1, None), (2, Some("No (attempt 2/3)")), (3, Some("No (attempt 3/3)"))] {
        match &state {
            Register::AskClientId { prompt, .. } => assert_eq!(prompt.error.as_deref(), shown),
            other => panic!("{} {:?}", attempt, other),
        }
        state = entered(state, "id");
        match &state {
            Register::AskClientSecret { prompt, .. } => assert_eq!(prompt.error.as_deref(), shown),
            other => panic!("{} {:?}", attempt, other),
        }
        state = register(
            entered(state, "secret"),
            RegisterEvent::Registered(Reply::IncorrectPassword("No".to_string())),
        );
    }
    match state {
        Register::Done(Err(Error::IncorrectPassword(failure, message))) => {
            assert_eq!(failure.message(), "failed to log in to bitwarden instance");
            assert_eq!(message, "No");
        }
        other => panic!("{:?}", other),
    }
}

#[test]
fn registered_device_is_left_alone() {
    let state: Registration = register(Register::LoadDb, RegisterEvent::DbLoaded { needs_login: false });
    assert!(matches!(state, Register::Respond));
}

#[test]
fn failures_of_a_registration_are_told_apart() {
    match register(registering(), RegisterEvent::Answered(Pin::Failed("gone".to_string()))) {
        Register::Done(Err(Error::Caused(failure, _))) => {
            assert_eq!(failure.message(), "failed to read client_id from pinentry");
        }
        other => panic!("{:?}", other),
    }
    let state = entered(registering(), "id");
    match register(state, RegisterEvent::Answered(Pin::Failed("gone".to_string()))) {
        Register::Done(Err(Error::Caused(failure, _))) => {
            assert_eq!(failure.message(), "failed to read client_secret from pinentry");
        }
        other => panic!("{:?}", other),
    }
    let state = entered(entered(registering(), "id"), "secret");
    match register(state, RegisterEvent::Registered(Reply::Failed("503".to_string()))) {
        Register::Done(Err(Error::Caused(failure, cause))) => {
            assert_eq!(failure.message(), "failed to log in to bitwarden instance");
            assert_eq!(cause, "503");
        }
        other => panic!("{:?}", other),
    }
}

fn logging_in() -> LoginState {
    let state = login(Login::LoadDb, LoginEv::DbLoaded { db: db(), needs_login: true });
    let state = login(state, LoginEv::BaseUrlLoaded(Ok("https://vault.example.com".to_string())));
    login(state, LoginEv::EmailLoaded(Ok("a@example.com".to_string())))
}

fn with_password(state: LoginState) -> LoginState {
    login(state, LoginEv::Answered(Pin::Entered("pw".to_string())))
}

fn required(providers: Vec<TwoFactorProviderType>, token: Option<&str>) -> LoginState {
    login(
        with_password(logging_in()),
        LoginEv::LoggedIn(LoginReply::TwoFactorRequired {
            providers,
            sso_email_2fa_session_token: token.map(|t| t.to_string()),
        }),
    )
}

#[test]
fn login_with_a_password() {
    let state = logging_in();
    match &state {
        Login::AskPassword { prompt, .. } => {
            assert_eq!(prompt.title, "Master Password");
            assert_eq!(prompt.description, "Log in to vault.example.com");
            assert_eq!(prompt.error, None);
            assert!(prompt.grab);
        }
        other => panic!("{:?}", other),
    }
    let state = login(with_password(state), LoginEv::LoggedIn(LoginReply::Accepted(session())));
    match &state {
        Login::LoginSuccess { db, email, password, session } => {
            assert_eq!(db.entries, vec![4]);
            assert_eq!(email, "a@example.com");
            assert_eq!(password, "pw");
            assert_eq!(session.access_token, "access");
        }
        other => panic!("{:?}", other),
    }
    let state = login(state, LoginEv::Succeeded(Ok(())));
    assert!(matches!(state, Login::Respond));
    assert!(matches!(login(state, LoginEv::Responded(Ok(()))), Login::Done(Ok(()))));
}

#[test]
fn three_login_passwords_may_be_wrong() {
    let mut state = logging_in();
    for shown in [None, Some("No (attempt 2/3)"), Some("No (attempt 3/3)")] {
        match &state {
            Login::AskPassword { prompt, .. } => assert_eq!(prompt.error.as_deref(), shown),
            other => panic!("{:?}", other),
        }
        state = login(
            with_password(state),
            LoginEv::LoggedIn(LoginReply::IncorrectPassword("No".to_string())),
        );
    }
    match state {
        Login::Done(Err(Error::IncorrectPassword(Failure::LogIn, message))) => {
            assert_eq!(message, "No");
        }
        other => panic!("{:?}", other),
    }
}

#[test]
fn second_factor_is_chosen_by_preference() {
    let authenticator = || TwoFactorProviderType::Authenticator;
    let yubikey = || TwoFactorProviderType::Yubikey;
    let email = || TwoFactorProviderType::Email;
    let duo = || TwoFactorProviderType::Other("Duo".to_string());
    assert!(matches!(
        choose_provider(&vec![email(), yubikey(), authenticator()]),
        Some(TwoFactorProviderType::Authenticator)
    ));
    assert!(matches!(
        choose_provider(&vec![email(), yubikey()]),
        Some(TwoFactorProviderType::Yubikey)
    ));
    assert!(matches!(
        choose_provider(&vec![duo(), email()]),
        Some(TwoFactorProviderType::Email)
    ));
    assert!(choose_provider(&vec![duo()]).is_none());
    assert!(choose_provider(&vec![]).is_none());
}

#[test]
fn second_factor_by_email_is_sent_where_a_token_came() {
    let state = required(vec![TwoFactorProviderType::Email], Some("token"));
    match &state {
        Login::SendEmail { token, email, .. } => {
            assert_eq!(token, "token");
            assert_eq!(email, "a@example.com");
        }
        other => panic!("{:?}", other),
    }
    match login(state, LoginEv::EmailSent(Ok(()))) {
        Login::TwoFactor { provider, password, .. } => {
            assert!(matches!(provider, TwoFactorProviderType::Email));
            assert_eq!(password, "pw");
        }
        other => panic!("{:?}", other),
    }
    let state = required(vec![TwoFactorProviderType::Email], Some("token"));
    match login(state, LoginEv::EmailSent(Err("smtp".to_string()))) {
        Login::Done(Err(Error::Forwarded(cause))) => assert_eq!(cause, "smtp"),
        other => panic!("{:?}", other),
    }
    assert!(matches!(
        required(vec![TwoFactorProviderType::Email], None),
        Login::TwoFactor { provider: TwoFactorProviderType::Email, .. }
    ));
    assert!(matches!(
        required(vec![TwoFactorProviderType::Yubikey, TwoFactorProviderType::Email], Some("t")),
        Login::TwoFactor { provider: TwoFactorProviderType::Yubikey, .. }
    ));
}

#[test]
fn unsupported_second_factors_are_listed() {
    let state = required(
        vec![
            TwoFactorProviderType::Other("Duo".to_string()),
            TwoFactorProviderType::Other("WebAuthn".to_string()),
        ],
        None,
    );
    match state {
        Login::Done(Err(Error::Refused(failure))) => {
            assert_eq!(failure.message(), "unsupported two factor methods: [Duo, WebAuthn]");
        }
        other => panic!("{:?}", other),
    }
}

#[test]
fn session_of_a_second_factor_is_used() {
    let state = required(vec![TwoFactorProviderType::Authenticator], None);
    match login(state, LoginEv::SecondFactor(Ok(session()))) {
        Login::LoginSuccess { session, .. } => assert_eq!(session.refresh_token, "refresh"),
        other => panic!("{:?}", other),
    }
}

type Factor = TwoFactor<u8, String, String>;

fn challenge() -> Challenge {
    Challenge {
        provider: TwoFactorProviderType::Authenticator,
        header: "Authenticator App".to_string(),
        message: "Enter the code".to_string(),
        grab: true,
    }
}

fn code_asked() -> Factor {
    TwoFactor::start("a@example.com".to_string(), "pw".to_string(), challenge())
}

fn code(state: Factor, bytes: &[u8]) -> Factor {
    two_factor(state, TwoFactorEvent::Answered(Pin::Entered(bytes.to_vec())))
}

#[test]
fn code_is_asked_for_and_sent() {
    let state = code_asked();
    match &state {
        TwoFactor::AskCode { prompt, .. } => {
            assert_eq!(prompt.title, "Authenticator App");
            assert_eq!(prompt.description, "Enter the code");
            assert_eq!(prompt.error, None);
            assert!(prompt.grab);
        }
        other => panic!("{:?}", other),
    }
    let state = code(state, b"123456");
    match &state {
        TwoFactor::LogIn { email, password, code, .. } => {
            assert_eq!(email, "a@example.com");
            assert_eq!(password, "pw");
            assert_eq!(code, "123456");
        }
        other => panic!("{:?}", other),
    }
    match two_factor(state, TwoFactorEvent::LoggedIn(LoginReply::Accepted(session()))) {
        TwoFactor::Done(Ok(session)) => assert_eq!(session.iterations, 600),
        other => panic!("{:?}", other),
    }
}

#[test]
fn three_codes_may_be_wrong() {
    let state = code(code_asked(), b"1");
    let state = two_factor(
        state,
        TwoFactorEvent::LoggedIn(LoginReply::TwoFactorRequired {
            providers: vec![],
            sso_email_2fa_session_token: None,
        }),
    );
    match &state {
        TwoFactor::AskCode { prompt, .. } => {
            assert_eq!(
                prompt.error.as_deref(),
                Some("TOTP code is not a number (attempt 2/3)")
            );
        }
        other => panic!("{:?}", other),
    }
    let state = two_factor(
        code(state, b"2"),
        TwoFactorEvent::LoggedIn(LoginReply::IncorrectPassword("Old code".to_string())),
    );
    match &state {
        TwoFactor::AskCode { prompt, .. } => {
            assert_eq!(prompt.error.as_deref(), Some("Old code (attempt 3/3)"));
        }
        other => panic!("{:?}", other),
    }
    let state = two_factor(
        code(state, b""),
        TwoFactorEvent::LoggedIn(LoginReply::TwoFactorRequired {
            providers: vec![],
            sso_email_2fa_session_token: None,
        }),
    );
    match state {
        TwoFactor::Done(Err(Error::IncorrectPassword(Failure::LogIn, message))) => {
            assert_eq!(message, "TOTP code is not a number");
        }
        other => panic!("{:?}", other),
    }
}

#[test]
fn failures_of_a_second_factor_are_told_apart() {
    match code(code_asked(), &[b'1', 0xc3]) {
        TwoFactor::Done(Err(Error::Explained(failure, cause))) => {
            assert_eq!(failure.message(), "code was not valid utf8");
            assert_eq!(cause, "incomplete utf-8 byte sequence from index 1");
        }
        other => panic!("{:?}", other),
    }
    match two_factor(code_asked(), TwoFactorEvent::Answered(Pin::Failed("gone".to_string()))) {
        TwoFactor::Done(Err(Error::Caused(failure, _))) => {
            assert_eq!(failure.message(), "failed to read code from pinentry");
        }
        other => panic!("{:?}", other),
    }
    match two_factor(
        code(code_asked(), b"1"),
        TwoFactorEvent::LoggedIn(LoginReply::Failed("503".to_string())),
    ) {
        TwoFactor::Done(Err(Error::Caused(Failure::LogIn, cause))) => assert_eq!(cause, "503"),
        other => panic!("{:?}", other),
    }
}

type Success = LoginSuccess<u8, u16, Vec<i32>, String, i32, String>;
type SuccessEvent = LoginSuccessEvent<u8, u16, Vec<i32>, i32, String>;

fn succeeded() -> Success {
    LoginSuccess::start(db(), session(), "pw".to_string(), "a@example.com".to_string())
}

fn reloading() -> Success {
    let state = login_success(succeeded(), SuccessEvent::DbSaved(Ok(())));
    login_success(state, SuccessEvent::Synced(Ok(())))
}

#[test]
fn session_is_saved_before_anything_else() {
    match succeeded() {
        LoginSuccess::SaveDb { db, .. } => {
            assert_eq!(db.access_token.as_deref(), Some("access"));
            assert_eq!(db.refresh_token.as_deref(), Some("refresh"));
            assert_eq!(db.kdf, Some(1));
            assert_eq!(db.iterations, Some(600));
            assert_eq!(db.memory, None);
            assert_eq!(db.parallelism, Some(4));
            assert_eq!(db.protected_key.as_deref(), Some("sealed"));
            assert_eq!(db.entries, vec![4]);
        }
        other => panic!("{:?}", other),
    }
}

#[test]
fn login_unlocks_with_the_session_and_the_synced_keys() {
    let mut synced = db();
    synced.protected_private_key = Some("private".to_string());
    synced.protected_org_keys = 77;
    synced.protected_key = Some("other".to_string());
    let state = login_success(reloading(), SuccessEvent::DbLoaded(Ok(synced)));
    match &state {
        LoginSuccess::Unlock { secrets, password, email } => {
            assert_eq!(password, "pw");
            assert_eq!(email, "a@example.com");
            assert_eq!(secrets.kdf, 1);
            assert_eq!(secrets.iterations, 600);
            assert_eq!(secrets.memory, None);
            assert_eq!(secrets.parallelism, Some(4));
            assert_eq!(secrets.protected_key, "sealed");
            assert_eq!(secrets.protected_private_key, "private");
            assert_eq!(secrets.protected_org_keys, 77);
        }
        other => panic!("{:?}", other),
    }
    let state = login_success(state, SuccessEvent::Unlocked(Ok((5, OrgKeys::new()))));
    assert!(matches!(state, LoginSuccess::StoreKeys { keys: 5, .. }));
    let state = login_success(state, SuccessEvent::KeysStored);
    let state = login_success(
        state,
        SuccessEvent::CacheRefreshed(Err(Error::Forwarded("disk".to_string()))),
    );
    assert!(matches!(state, LoginSuccess::Warn { .. }));
    let state = login_success(state, SuccessEvent::Warned);
    assert!(matches!(state, LoginSuccess::Done(Ok(()))));
}

#[test]
fn failures_after_a_login_are_told_apart() {
    match login_success(reloading(), SuccessEvent::DbLoaded(Ok(db()))) {
        LoginSuccess::Done(Err(Error::Refused(failure))) => {
            assert_eq!(failure.message(), "failed to find protected private key in db");
        }
        other => panic!("{:?}", other),
    }
    let mut synced = db();
    synced.protected_private_key = Some("private".to_string());
    let state = login_success(reloading(), SuccessEvent::DbLoaded(Ok(synced)));
    match login_success(state, SuccessEvent::Unlocked(Err("mac".to_string()))) {
        LoginSuccess::Done(Err(Error::Caused(failure, cause))) => {
            assert_eq!(failure.message(), "failed to unlock database");
            assert_eq!(cause, "mac");
        }
        other => panic!("{:?}", other),
    }
}
