use rbw_agent::db::{Db, OrgKeys};
use rbw_agent::error::{Error, Failure, Reply, Warning};
use rbw_agent::prompt::Pin;
use rbw_agent::vault::{
    check_lock, lock, unlock, unlock_database_with_pinentry, unlock_dialogue,
    verify_database_password, with_pinentry_transaction_timeout, Lock, LockEvent, Unlock,
    UnlockDatabase, UnlockDatabaseEvent, UnlockDialogue, UnlockEvent, VerifyPassword, VerifyPasswordEvent,
    PINENTRY_TRANSACTION_TIMEOUT,
};

type Verification = VerifyPassword<u8, u16, String, i32, String>;
type VerificationEvent = VerifyPasswordEvent<u8, u16, (), String, i32, String>;

fn db() -> Db<u8, u16, ()> {
    Db {
        access_token: None,
        refresh_token: None,
        kdf: Some(1),
        iterations: Some(100),
        memory: Some(5),
        parallelism: None,
        protected_key: Some("key".to_string()),
        protected_private_key: Some("private".to_string()),
        protected_org_keys: 9,
        entries: (),
    }
}

fn asking() -> Verification {
    let state: Verification = VerifyPassword::LoadDb { description: "Why".to_string() };
    let state = verify_database_password(state, VerifyPasswordEvent::DbLoaded(Ok(db())));
    verify_database_password(
        state,
        VerificationEvent::EmailLoaded(Ok("a@example.com".to_string())),
    )
}

fn answered(state: Verification, password: &str) -> Verification {
    verify_database_password(
        state,
        VerificationEvent::Answered(Pin::Entered(password.to_string())),
    )
}

fn turned_down(state: Verification, message: &str) -> Verification {
    verify_database_password(
        state,
        VerificationEvent::Unlocked(Reply::IncorrectPassword(message.to_string())),
    )
}

#[test]
fn password_is_asked_for_and_accepted() {
    let state = asking();
    match &state {
        VerifyPassword::AskPassword { email, secrets, prompt, .. } => {
            assert_eq!(email, "a@example.com");
            assert_eq!(prompt.title, "Master Password");
            assert_eq!(prompt.description, "Why");
            assert_eq!(prompt.error, None);
            assert!(prompt.grab);
            assert_eq!(secrets.kdf, 1);
            assert_eq!(secrets.iterations, 100);
            assert_eq!(secrets.memory, Some(5));
            assert_eq!(secrets.parallelism, None);
            assert_eq!(secrets.protected_key, "key");
            assert_eq!(secrets.protected_private_key, "private");
            assert_eq!(secrets.protected_org_keys, 9);
        }
        other => panic!("{:?}", other),
    }
    let state = answered(state, "secret");
    match &state {
        VerifyPassword::Unlock { password, .. } => assert_eq!(password, "secret"),
        other => panic!("{:?}", other),
    }
    let mut org_keys = OrgKeys::new();
    org_keys.insert("org".to_string(), 8);
    let state = verify_database_password(
        state,
        VerificationEvent::Unlocked(Reply::Accepted((7, org_keys))),
    );
    match state {
        VerifyPassword::Done(Ok((keys, org_keys))) => {
            assert_eq!(keys, 7);
            assert_eq!(org_keys.get("org"), Some(&8));
            assert_eq!(org_keys.get("other"), None);
        }
        other => panic!("{:?}", other),
    }
}

#[test]
fn three_passwords_may_be_wrong() {
    let state = turned_down(answered(asking(), "a"), "Wrong");
    match &state {
        VerifyPassword::AskPassword { prompt, .. } => {
            assert_eq!(prompt.error.as_deref(), Some("Wrong (attempt 2/3)"));
        }
        other => panic!("{:?}", other),
    }
    let state = turned_down(answered(state, "b"), "Still wrong");
    match &state {
        VerifyPassword::AskPassword { prompt, .. } => {
            assert_eq!(prompt.error.as_deref(), Some("Still wrong (attempt 3/3)"));
        }
        other => panic!("{:?}", other),
    }
    let state = turned_down(answered(state, "c"), "Enough");
    match state {
        VerifyPassword::Done(Err(Error::IncorrectPassword(failure, message))) => {
            assert_eq!(failure.message(), "failed to unlock database");
            assert_eq!(message, "Enough");
        }
        other => panic!("{:?}", other),
    }
}

#[test]
fn missing_data_is_reported_in_order() {
    let mut database = db();
    database.protected_private_key = None;
    let state: Verification = VerifyPassword::LoadDb { description: String::new() };
    match verify_database_password(state, VerifyPasswordEvent::DbLoaded(Ok(database))) {
        VerifyPassword::Done(Err(Error::Refused(failure))) => {
            assert_eq!(failure.message(), "failed to find protected private key in db");
        }
        other => panic!("{:?}", other),
    }
    let mut database = db();
    database.protected_private_key = None;
    database.protected_key = None;
    assert!(matches!(database.secrets(), Err(Failure::MissingProtectedKey)));
    let mut database = db();
    database.protected_key = None;
    database.iterations = None;
    assert!(matches!(database.secrets(), Err(Failure::MissingIterations)));
    let mut database = db();
    database.iterations = None;
    database.kdf = None;
    assert!(matches!(database.secrets(), Err(Failure::MissingKdf)));
}

#[test]
fn failures_of_a_password_check_are_handed_on() {
    let state = asking();
    match verify_database_password(state, VerificationEvent::Answered(Pin::Failed("gone".to_string()))) {
        VerifyPassword::Done(Err(Error::Caused(failure, cause))) => {
            assert_eq!(failure.message(), "failed to read password from pinentry");
            assert_eq!(cause, "gone");
        }
        other => panic!("{:?}", other),
    }
    let state = asking();
    match verify_database_password(
        state,
        VerificationEvent::Answered(Pin::Unconfigured("no config".to_string())),
    ) {
        VerifyPassword::Done(Err(Error::Forwarded(cause))) => assert_eq!(cause, "no config"),
        other => panic!("{:?}", other),
    }
    let state = answered(asking(), "a");
    match verify_database_password(state, VerificationEvent::Unlocked(Reply::Failed("kdf".to_string()))) {
        VerifyPassword::Done(Err(Error::Caused(failure, cause))) => {
            assert_eq!(failure.message(), "failed to unlock database");
            assert_eq!(cause, "kdf");
        }
        other => panic!("{:?}", other),
    }
    let state: Verification = VerifyPassword::LoadEmail {
        description: String::new(),
        secrets: db().secrets().unwrap(),
    };
    match verify_database_password(
        state,
        VerificationEvent::EmailLoaded(Err(Error::Refused(Failure::MissingEmail))),
    ) {
        VerifyPassword::Done(Err(Error::Refused(failure))) => {
            assert_eq!(failure.message(), "failed to find email address in config");
        }
        other => panic!("{:?}", other),
    }
}

#[test]
fn unexpected_events_change_nothing() {
    let state = asking();
    let state = turned_down(state, "too early");
    match state {
        VerifyPassword::AskPassword { prompt, .. } => assert_eq!(prompt.error, None),
        other => panic!("{:?}", other),
    }
}

type Unlocking = UnlockDatabase<i32, String>;

fn step(state: Unlocking, event: UnlockDatabaseEvent<i32, String>) -> Unlocking {
    unlock_database_with_pinentry(state, event)
}

fn starting() -> Unlocking {
    UnlockDatabase::ReadGeneration { dialogue: UnlockDialogue::new("pin".to_string(), "work") }
}

fn verifying() -> Unlocking {
    let state = step(starting(), UnlockDatabaseEvent::GenerationRead(4));
    let state = step(state, UnlockDatabaseEvent::GateTaken);
    step(
        state,
        UnlockDatabaseEvent::LockChecked { generation: Ok(()), needs_unlock: true },
    )
}

#[test]
fn keys_are_stored_after_the_generation_was_checked() {
    let state = verifying();
    match &state {
        UnlockDatabase::Verify { lock_generation, dialogue } => {
            assert_eq!(*lock_generation, 4);
            assert_eq!(dialogue.pinentry, "pin");
            assert_eq!(dialogue.description, "Unlock the local database for 'work'");
        }
        other => panic!("{:?}", other),
    }
    let state = step(state, UnlockDatabaseEvent::Verified(Ok((7, OrgKeys::new()))));
    assert!(matches!(state, UnlockDatabase::CheckGeneration { lock_generation: 4, keys: 7, .. }));
    let state = step(state, UnlockDatabaseEvent::GenerationChecked(Ok(())));
    assert!(matches!(state, UnlockDatabase::StoreKeys { keys: 7, .. }));
    let state = step(state, UnlockDatabaseEvent::KeysStored);
    assert!(matches!(state, UnlockDatabase::Done(Ok(()))));
}

#[test]
fn keys_are_dropped_when_the_vault_was_locked_meanwhile() {
    let state = step(verifying(), UnlockDatabaseEvent::Verified(Ok((7, OrgKeys::new()))));
    match step(state, UnlockDatabaseEvent::GenerationChecked(Err("locked".to_string()))) {
        UnlockDatabase::Done(Err(Error::Caused(failure, cause))) => {
            assert_eq!(failure.message(), "unlock invalidated");
            assert_eq!(cause, "locked");
        }
        other => panic!("{:?}", other),
    }
}

#[test]
fn vault_locked_before_the_prompt_is_not_unlocked() {
    let state = step(starting(), UnlockDatabaseEvent::GenerationRead(4));
    let state = step(state, UnlockDatabaseEvent::GateTaken);
    match step(
        state,
        UnlockDatabaseEvent::LockChecked {
            generation: Err("locked".to_string()),
            needs_unlock: true,
        },
    ) {
        UnlockDatabase::Done(Err(Error::Caused(failure, _))) => {
            assert_eq!(failure.message(), "unlock invalidated before prompting");
        }
        other => panic!("{:?}", other),
    }
}

#[test]
fn unlocked_vault_needs_no_password() {
    let state = step(starting(), UnlockDatabaseEvent::GenerationRead(4));
    let state = step(state, UnlockDatabaseEvent::GateTaken);
    let state = step(
        state,
        UnlockDatabaseEvent::LockChecked { generation: Ok(()), needs_unlock: false },
    );
    assert!(matches!(state, UnlockDatabase::Done(Ok(()))));
}

#[test]
fn unlocking_times_out() {
    assert_eq!(PINENTRY_TRANSACTION_TIMEOUT, 120);
    match step(verifying(), UnlockDatabaseEvent::TimedOut("late".to_string())) {
        UnlockDatabase::Done(Err(Error::Caused(failure, cause))) => {
            assert_eq!(failure.message(), "pinentry transaction timed out");
            assert_eq!(cause, "late");
        }
        other => panic!("{:?}", other),
    }
    let state = step(starting(), UnlockDatabaseEvent::TimedOut("late".to_string()));
    assert!(matches!(state, UnlockDatabase::ReadGeneration { .. }));
}

#[test]
fn pinentry_timeout_covers_the_entire_future() {
    let runtime = tokio::runtime::Builder::new_current_thread().enable_time().build().unwrap();
    let outcome: Result<Result<(), Error<String>>, String> = runtime
        .block_on(async {
            tokio::time::timeout(std::time::Duration::from_millis(10), async {
                tokio::time::sleep(std::time::Duration::from_secs(1)).await;
                Ok(())
            })
            .await
        })
        .map_err(|elapsed| elapsed.to_string());
    let result = with_pinentry_transaction_timeout(outcome);

    match result.unwrap_err() {
        Error::Caused(failure, _) => {
            assert!(failure.message().contains("pinentry transaction timed out"));
        }
        other => panic!("{:?}", other),
    }

    let outcome: Result<Result<i32, Error<String>>, String> = Ok(Ok(3));
    assert!(matches!(with_pinentry_transaction_timeout(outcome), Ok(3)));
}

#[test]
fn unlock_request_survives_a_failing_cache() {
    let state: Unlock<String> = unlock(
        Unlock::LoadPinentry { profile: "work".to_string() },
        UnlockEvent::PinentryLoaded(Ok("pin".to_string())),
    );
    match &state {
        Unlock::UnlockDatabase { dialogue } => {
            assert_eq!(dialogue.pinentry, "pin");
            assert_eq!(dialogue.description, "Unlock the local database for 'work'");
        }
        other => panic!("{:?}", other),
    }
    let state = unlock(state, UnlockEvent::Unlocked(Ok(())));
    let state = unlock(
        state,
        UnlockEvent::CacheRefreshed(Err(Error::Forwarded("disk".to_string()))),
    );
    match &state {
        Unlock::Warn { warning, .. } => {
            assert_eq!(*warning, Warning::RefreshPublicKeyCache);
            assert_eq!(warning.text(), "failed to refresh SSH public key cache");
            assert!(warning.shows_causes());
        }
        other => panic!("{:?}", other),
    }
    let state = unlock(state, UnlockEvent::Warned);
    assert!(matches!(state, Unlock::Respond));
    assert!(matches!(unlock(state, UnlockEvent::Responded(Ok(()))), Unlock::Done(Ok(()))));

    let state: Unlock<String> = unlock(
        Unlock::UnlockDatabase { dialogue: UnlockDialogue::new("pin".to_string(), "work") },
        UnlockEvent::Unlocked(Err(Error::Refused(Failure::MissingKdf))),
    );
    assert!(matches!(state, Unlock::Done(Err(Error::Refused(Failure::MissingKdf)))));

    let state: Unlock<String> = unlock(
        Unlock::LoadPinentry { profile: "work".to_string() },
        UnlockEvent::PinentryLoaded(Err("no file".to_string())),
    );
    match state {
        Unlock::Done(Err(Error::Forwarded(cause))) => assert_eq!(cause, "no file"),
        other => panic!("{:?}", other),
    }
}

#[test]
fn lock_request_clears_and_answers() {
    let state: Lock<String> = lock(Lock::Clear, LockEvent::Cleared);
    assert!(matches!(state, Lock::Respond));
    assert!(matches!(lock(state, LockEvent::Responded(Ok(()))), Lock::Done(Ok(()))));
}

#[test]
fn locked_agent_says_so() {
    assert_eq!(check_lock(true).unwrap_err().message(), "agent is locked");
    assert!(check_lock(false).is_ok());
}

#[test]
fn dialogue_needs_a_program() {
    assert!(unlock_dialogue(None, "work").is_none());
    let dialogue = unlock_dialogue(Some("pin".to_string()), "").unwrap();
    assert_eq!(dialogue.pinentry, "pin");
    assert_eq!(dialogue.description, "Unlock the local database for ''");
}
