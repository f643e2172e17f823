use rbw_agent::config::Config;
use rbw_agent::db::Db;
use rbw_agent::error::{Error, Failure, Warning};
use rbw_agent::notifications::{
    subscribe_to_notifications, websocket_url, Subscribe, SubscribeEvent,
};
use rbw_agent::response::{clipboard_store, version, Clipboard, Response};
use rbw_agent::sync::{sync, Fetched, Sync, SyncEvent};

type State = Sync<u8, u16, Vec<i32>, String>;
type Event = SyncEvent<u8, u16, Vec<i32>, String>;

fn db() -> Db<u8, u16, Vec<i32>> {
    Db {
        access_token: Some("access".to_string()),
        refresh_token: Some("refresh".to_string()),
        kdf: Some(1),
        iterations: Some(2),
        memory: None,
        parallelism: None,
        protected_key: None,
        protected_private_key: None,
        protected_org_keys: 0,
        entries: vec![],
    }
}

fn fetched(token: Option<&str>) -> Fetched<u16, Vec<i32>> {
    Fetched {
        access_token: token.map(|t| t.to_string()),
        protected_key: "key".to_string(),
        protected_private_key: "private".to_string(),
        protected_org_keys: 7,
        entries: vec![1, 2],
    }
}

fn fetching(respond: bool) -> State {
    sync(Sync::LoadDb { respond }, Event::DbLoaded(Ok(db())))
}

fn saved(respond: bool) -> State {
    let state = sync(fetching(respond), Event::Fetched(Ok(fetched(None))));
    let state = sync(state, Event::RepromptSet);
    sync(state, Event::DbSaved(Ok(())))
}

#[test]
fn sync_saves_what_the_server_sent() {
    let state = fetching(true);
    match &state {
        Sync::Fetch { access_token, refresh_token, .. } => {
            assert_eq!(access_token, "access");
            assert_eq!(refresh_token, "refresh");
        }
        other => panic!("{:?}", other),
    }
    let state = sync(state, Event::Fetched(Ok(fetched(Some("fresh")))));
    match &state {
        Sync::SetReprompt { db, .. } => assert_eq!(db.entries, vec![1, 2]),
        other => panic!("{:?}", other),
    }
    match sync(state, Event::RepromptSet) {
        Sync::SaveDb { db, .. } => {
            assert_eq!(db.access_token.as_deref(), Some("fresh"));
            assert_eq!(db.refresh_token.as_deref(), Some("refresh"));
            assert_eq!(db.protected_key.as_deref(), Some("key"));
            assert_eq!(db.protected_private_key.as_deref(), Some("private"));
            assert_eq!(db.protected_org_keys, 7);
            assert_eq!(db.entries, vec![1, 2]);
            assert_eq!(db.kdf, Some(1));
        }
        other => panic!("{:?}", other),
    }
}

#[test]
fn sync_keeps_the_access_token_that_is_still_good() {
    match sync(fetching(false), Event::Fetched(Ok(fetched(None)))) {
        Sync::SetReprompt { db, .. } => assert_eq!(db.access_token.as_deref(), Some("access")),
        other => panic!("{:?}", other),
    }
}

#[test]
fn trouble_after_saving_is_only_reported() {
    let state = sync(saved(true), Event::LockChecked { needs_unlock: false });
    assert!(matches!(state, Sync::RefreshCache { .. }));
    let trouble = || Err(Error::Forwarded("x".to_string()));
    let state = sync(state, Event::CacheRefreshed(trouble()));
    assert!(matches!(state, Sync::Warn { warning: Warning::RefreshPublicKeyCache, .. }));
    let state = sync(state, Event::Warned);
    assert!(matches!(state, Sync::RemoveCache { .. }));
    let state = sync(state, Event::CacheRemoved(trouble()));
    match &state {
        Sync::Warn { warning, .. } => {
            assert_eq!(warning.text(), "failed to remove stale SSH public key cache");
        }
        other => panic!("{:?}", other),
    }
    let state = sync(state, Event::Warned);
    let state = sync(state, Event::Subscribed(trouble()));
    match &state {
        Sync::Warn { warning, .. } => {
            assert_eq!(warning.text(), "failed to subscribe to notifications");
            assert!(!warning.shows_causes());
        }
        other => panic!("{:?}", other),
    }
    let state = sync(state, Event::Warned);
    assert!(matches!(state, Sync::Respond));
    assert!(matches!(sync(state, Event::Responded(Ok(()))), Sync::Done(Ok(()))));
}

#[test]
fn locked_sync_leaves_the_cache_alone() {
    let state = sync(saved(false), Event::LockChecked { needs_unlock: true });
    assert!(matches!(state, Sync::Subscribe { respond: false }));
    let state = sync(state, Event::Subscribed(Ok(())));
    assert!(matches!(state, Sync::Done(Ok(()))));
}

#[test]
fn failures_of_a_sync_are_told_apart() {
    let without = |access: bool, refresh: bool| {
        let mut database = db();
        if !access {
            database.access_token = None;
        }
        if !refresh {
            database.refresh_token = None;
        }
        sync(Sync::LoadDb { respond: true }, Event::DbLoaded(Ok(database)))
    };
    match without(false, false) {
        Sync::Done(Err(Error::Refused(failure))) => {
            assert_eq!(failure.message(), "failed to find access token in db");
        }
        other => panic!("{:?}", other),
    }
    match without(true, false) {
        Sync::Done(Err(Error::Refused(failure))) => {
            assert_eq!(failure.message(), "failed to find refresh token in db");
        }
        other => panic!("{:?}", other),
    }
    match sync(fetching(true), Event::Fetched(Err("503".to_string()))) {
        Sync::Done(Err(Error::Caused(failure, cause))) => {
            assert_eq!(failure.message(), "failed to sync database from server");
            assert_eq!(cause, "503");
        }
        other => panic!("{:?}", other),
    }
    let state = sync(fetching(true), Event::Fetched(Ok(fetched(None))));
    let state = sync(state, Event::RepromptSet);
    match sync(state, Event::DbSaved(Err(Error::Refused(Failure::MissingEmail)))) {
        Sync::Done(Err(Error::Refused(Failure::MissingEmail))) => {}
        other => panic!("{:?}", other),
    }
}

type Subscription = Subscribe<String>;
type SubscriptionEvent = SubscribeEvent<u8, u16, Vec<i32>, String>;

fn subscribe(state: Subscription, event: SubscriptionEvent) -> Subscription {
    subscribe_to_notifications(state, event)
}

#[test]
fn subscription_connects_to_the_hub() {
    let state = subscribe(Subscribe::CheckConnected, SubscriptionEvent::ConnectionChecked(false));
    let config = Config { email: Some("a@example.com".to_string()), ..Config::new() };
    let state = subscribe(state, SubscriptionEvent::ConfigLoaded(Ok(config)));
    match &state {
        Subscribe::LoadDb { server, email, .. } => {
            assert_eq!(server, "default");
            assert_eq!(email, "a@example.com");
        }
        other => panic!("{:?}", other),
    }
    let state = subscribe(state, SubscriptionEvent::DbLoaded(Ok(db())));
    match &state {
        Subscribe::Connect { url } => {
            assert_eq!(url, "wss://notifications.bitwarden.com/hub?access_token=access");
        }
        other => panic!("{:?}", other),
    }
    match subscribe(state, SubscriptionEvent::Connected(Err("refused".to_string()))) {
        Subscribe::Done(Err(Error::Plain(message))) => assert_eq!(message, "refused"),
        other => panic!("{:?}", other),
    }
}

#[test]
fn connected_agent_does_not_subscribe_again() {
    let state = subscribe(Subscribe::CheckConnected, SubscriptionEvent::ConnectionChecked(true));
    assert!(matches!(state, Subscribe::Done(Ok(()))));
}

#[test]
fn failures_of_a_subscription_are_told_apart() {
    match subscribe(Subscribe::LoadConfig, SubscriptionEvent::ConfigLoaded(Err("no".to_string()))) {
        Subscribe::Done(Err(Error::Caused(failure, _))) => {
            assert_eq!(failure.message(), "Config is missing");
        }
        other => panic!("{:?}", other),
    }
    match subscribe(Subscribe::LoadConfig, SubscriptionEvent::ConfigLoaded(Ok(Config::new()))) {
        Subscribe::Done(Err(Error::Refused(failure))) => {
            assert_eq!(failure.message(), "Config is missing email");
        }
        other => panic!("{:?}", other),
    }
    let mut database = db();
    database.access_token = None;
    let state = Subscribe::LoadDb {
        server: "s".to_string(),
        email: "e".to_string(),
        notifications_url: "https://n".to_string(),
    };
    match subscribe(state, SubscriptionEvent::DbLoaded(Ok(database))) {
        Subscribe::Done(Err(Error::Refused(failure))) => {
            assert_eq!(failure.message(), "Error getting access token");
        }
        other => panic!("{:?}", other),
    }
}

#[test]
fn every_https_becomes_wss() {
    assert_eq!(
        websocket_url("https://a/https://b", "t"),
        "wss://a/wss://b/hub?access_token=t"
    );
    assert_eq!(websocket_url("http://a", "t"), "http://a/hub?access_token=t");
}

#[test]
fn clipboard_outcomes() {
    match clipboard_store(Clipboard::Unsupported) {
        Ok(Response::Error { error }) => assert_eq!(error, "clipboard not supported"),
        other => panic!("{:?}", other),
    }
    assert!(matches!(clipboard_store(Clipboard::Absent), Ok(Response::Ack)));
    assert!(matches!(clipboard_store(Clipboard::Stored(Ok(()))), Ok(Response::Ack)));
    assert_eq!(
        clipboard_store(Clipboard::Stored(Err("busy".to_string()))).unwrap_err(),
        "couldn't store value to clipboard: busy"
    );
    assert!(matches!(version(3), Response::Version { version: 3 }));
}
