use rbw_agent::authorization::{
    authorize_ssh_sign, Authorize, AuthorizeEvent, SignatureWish, SshAuthorization,
};
use rbw_agent::config::{Config, SshAgentConfirmation};
use rbw_agent::db::OrgKeys;
use rbw_agent::error::Error;

type State = Authorize<i32, String>;
type Event = AuthorizeEvent<i32, String>;

fn wish(pinentry: Option<&str>) -> SignatureWish {
    SignatureWish {
        pinentry: pinentry.map(|p| p.to_string()),
        requester: "ssh (pid 7)".to_string(),
        key_fingerprint: "SHA256:abc".to_string(),
    }
}

fn config(confirmation: SshAgentConfirmation) -> Config {
    Config { ssh_agent_confirmation: confirmation, ..Config::new() }
}

fn loading(pinentry: Option<&str>) -> State {
    authorize_ssh_sign(
        Authorize::ReadGeneration { wish: wish(pinentry) },
        Event::GenerationRead(3),
    )
}

fn in_gate() -> State {
    let state = authorize_ssh_sign(
        loading(Some("pinentry-qt")),
        Event::ConfigLoaded(Ok(config(SshAgentConfirmation::Always))),
    );
    authorize_ssh_sign(state, Event::GateTaken)
}

#[test]
fn unconfirmed_ssh_authorization_has_no_decryption_keys() {
    let authorization: SshAuthorization<i32> = SshAuthorization::unconfirmed(7);
    assert!(authorization.key(None).is_none());
    assert_eq!(authorization.lock_generation(), 7);
}

#[test]
fn confirmed_authorization_has_keys_for_owner_and_organisations() {
    let mut org_keys = OrgKeys::new();
    org_keys.insert("a".to_string(), 1);
    org_keys.insert("b".to_string(), 2);
    org_keys.insert("a".to_string(), 3);
    let authorization =
        SshAuthorization { keys: Some(9), org_keys: Some(org_keys), lock_generation: 5 };
    assert_eq!(authorization.key(None), Some(&9));
    assert_eq!(authorization.key(Some("a")), Some(&3));
    assert_eq!(authorization.key(Some("b")), Some(&2));
    assert_eq!(authorization.key(Some("c")), None);
}

#[test]
fn signatures_are_confirmed_by_the_master_password() {
    let state = authorize_ssh_sign(
        loading(Some("pinentry-qt")),
        Event::ConfigLoaded(Ok(config(SshAgentConfirmation::Always))),
    );
    match &state {
        Authorize::TakeGate { lock_generation, pinentry, description } => {
            assert_eq!(*lock_generation, 3);
            assert_eq!(pinentry, "pinentry-qt");
            assert_eq!(
                description,
                "SSH signature request\\n\\nProcess: ssh (pid 7)\\nKey: SHA256:abc\\n\\nEnter your master password to authorize this request."
            );
        }
        other => panic!("{:?}", other),
    }
    let state = authorize_ssh_sign(state, Event::GateTaken);
    let state = authorize_ssh_sign(state, Event::GenerationChecked(Ok(())));
    let state = authorize_ssh_sign(state, Event::Verified(Ok((8, OrgKeys::new()))));
    let state = authorize_ssh_sign(state, Event::GenerationChecked(Ok(())));
    match state {
        Authorize::Done(Ok(authorization)) => {
            assert_eq!(authorization.key(None), Some(&8));
            assert_eq!(authorization.key(Some("org")), None);
            assert_eq!(authorization.lock_generation(), 3);
        }
        other => panic!("{:?}", other),
    }
}

#[test]
fn confirmation_can_be_switched_off() {
    let state = authorize_ssh_sign(
        loading(None),
        Event::ConfigLoaded(Ok(config(SshAgentConfirmation::Never))),
    );
    match state {
        Authorize::Done(Ok(authorization)) => {
            assert_eq!(authorization.key(None), None);
            assert_eq!(authorization.lock_generation(), 3);
        }
        other => panic!("{:?}", other),
    }
}

#[test]
fn confirmation_needs_a_pinentry() {
    let state = authorize_ssh_sign(
        loading(None),
        Event::ConfigLoaded(Ok(config(SshAgentConfirmation::Always))),
    );
    match state {
        Authorize::Done(Err(Error::Refused(failure))) => assert_eq!(
            failure.message(),
            "SSH signature confirmation requires a configured GUI pinentry"
        ),
        other => panic!("{:?}", other),
    }
}

#[test]
fn locking_invalidates_an_authorization() {
    match authorize_ssh_sign(in_gate(), Event::GenerationChecked(Err("locked".to_string()))) {
        Authorize::Done(Err(Error::Caused(failure, _))) => {
            assert_eq!(failure.message(), "SSH authorization invalidated before prompting");
        }
        other => panic!("{:?}", other),
    }
    let state = authorize_ssh_sign(in_gate(), Event::GenerationChecked(Ok(())));
    let state = authorize_ssh_sign(state, Event::Verified(Ok((8, OrgKeys::new()))));
    match authorize_ssh_sign(state, Event::GenerationChecked(Err("locked".to_string()))) {
        Authorize::Done(Err(Error::Caused(failure, cause))) => {
            assert_eq!(failure.message(), "SSH authorization invalidated");
            assert_eq!(cause, "locked");
        }
        other => panic!("{:?}", other),
    }
}

#[test]
fn authorization_times_out_only_within_the_dialogue() {
    match authorize_ssh_sign(in_gate(), Event::TimedOut("late".to_string())) {
        Authorize::Done(Err(Error::Caused(failure, cause))) => {
            assert_eq!(failure.message(), "pinentry transaction timed out");
            assert_eq!(cause, "late");
        }
        other => panic!("{:?}", other),
    }
    let state = authorize_ssh_sign(loading(None), Event::TimedOut("late".to_string()));
    assert!(matches!(state, Authorize::LoadConfig { lock_generation: 3, .. }));
}

#[test]
fn unreadable_configuration_ends_an_authorization() {
    let state = authorize_ssh_sign(
        loading(Some("p")),
        Event::ConfigLoaded(Err("no file".to_string())),
    );
    match state {
        Authorize::Done(Err(Error::Forwarded(cause))) => assert_eq!(cause, "no file"),
        other => panic!("{:?}", other),
    }
}
