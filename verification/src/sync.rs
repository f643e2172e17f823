//! The synchronisation of the local database with the server.
use vstd::prelude::*;
use crate::db::Db;
use crate::error::{Error, Failure, Warning};

verus! {

/// What the server sends in a synchronisation.
#[derive(Debug)]
pub struct Fetched<O, N> {
    /// A new access token, where the old one had run out.
    pub access_token: Option<String>,
    pub protected_key: String,
    pub protected_private_key: String,
    pub protected_org_keys: O,
    pub entries: N,
}

/// The local database after a synchronisation.
pub open spec fn synced<T, O, N>(db: Db<T, O, N>, fetched: Fetched<O, N>) -> Db<T, O, N> {
    Db {
        access_token: if fetched.access_token is Some {
            fetched.access_token
        } else {
            db.access_token
        },
        protected_key: Some(fetched.protected_key),
        protected_private_key: Some(fetched.protected_private_key),
        protected_org_keys: fetched.protected_org_keys,
        entries: fetched.entries,
        ..db
    }
}

/// A synchronisation under way; `respond` says whether a client waits for it.
#[derive(Debug)]
pub enum Sync<T, O, N, E> {
    LoadDb { respond: bool },
    Fetch { respond: bool, db: Db<T, O, N>, access_token: String, refresh_token: String },
    /// Lists the entries of the database that need another prompt.
    SetReprompt { respond: bool, db: Db<T, O, N> },
    SaveDb { respond: bool, db: Db<T, O, N> },
    CheckLocked { respond: bool, db: Db<T, O, N> },
    RefreshCache { respond: bool, db: Db<T, O, N> },
    RemoveCache { respond: bool },
    Subscribe { respond: bool },
    Warn { respond: bool, warning: Warning, error: Error<E> },
    Respond,
    Done(Result<(), Error<E>>),
}

#[derive(Debug)]
pub enum SyncEvent<T, O, N, E> {
    DbLoaded(Result<Db<T, O, N>, Error<E>>),
    Fetched(Result<Fetched<O, N>, E>),
    RepromptSet,
    DbSaved(Result<(), Error<E>>),
    LockChecked { needs_unlock: bool },
    CacheRefreshed(Result<(), Error<E>>),
    CacheRemoved(Result<(), Error<E>>),
    Subscribed(Result<(), Error<E>>),
    Warned,
    Responded(Result<(), E>),
}

impl<T, O, N, E> Sync<T, O, N, E> {
    /// The state after everything was tried.
    pub open spec fn ending(respond: bool) -> Self {
        if respond {
            Sync::Respond
        } else {
            Sync::Done(Ok(()))
        }
    }

    /// Where an event leads. One that the state does not wait for changes
    /// nothing.
    pub open spec fn steps_to(self, event: SyncEvent<T, O, N, E>, after: Self) -> bool {
        match (self, event) {
            (Sync::LoadDb { respond }, SyncEvent::DbLoaded(result)) => after == match result {
                Ok(db) => match (db.access_token, db.refresh_token) {
                    (None, _) => Self::Done(Err(Error::Refused(Failure::MissingAccessToken))),
                    (_, None) => Self::Done(Err(Error::Refused(Failure::MissingRefreshToken))),
                    (Some(access_token), Some(refresh_token)) => Self::Fetch {
                        respond,
                        db,
                        access_token,
                        refresh_token,
                    },
                },
                Err(error) => Self::Done(Err(error)),
            },
            (Sync::Fetch { respond, db, .. }, SyncEvent::Fetched(result)) => after == match result {
                Ok(fetched) => Self::SetReprompt { respond, db: synced(db, fetched) },
                Err(error) => Self::Done(Err(Error::Caused(Failure::Sync, error))),
            },
            (Sync::SetReprompt { respond, db }, SyncEvent::RepromptSet) => {
                after == (Self::SaveDb { respond, db })
            },
            (Sync::SaveDb { respond, db }, SyncEvent::DbSaved(result)) => after == match result {
                Ok(_) => Self::CheckLocked { respond, db },
                Err(error) => Self::Done(Err(error)),
            },
            (Sync::CheckLocked { respond, db }, SyncEvent::LockChecked { needs_unlock }) => {
                after == if needs_unlock {
                    Self::Subscribe { respond }
                } else {
                    Self::RefreshCache { respond, db }
                }
            },
            (Sync::RefreshCache { respond, .. }, SyncEvent::CacheRefreshed(result)) => {
                after == match result {
                    Ok(_) => Self::Subscribe { respond },
                    Err(error) => Self::Warn {
                        respond,
                        warning: Warning::RefreshPublicKeyCache,
                        error,
                    },
                }
            },
            (Sync::RemoveCache { respond }, SyncEvent::CacheRemoved(result)) => {
                after == match result {
                    Ok(_) => Self::Subscribe { respond },
                    Err(error) => Self::Warn {
                        respond,
                        warning: Warning::RemoveStalePublicKeyCache,
                        error,
                    },
                }
            },
            (Sync::Subscribe { respond }, SyncEvent::Subscribed(result)) => after == match result {
                Ok(_) => Self::ending(respond),
                Err(error) => Self::Warn { respond, warning: Warning::Subscribe, error },
            },
            (Sync::Warn { respond, warning, .. }, SyncEvent::Warned) => after == match warning {
                Warning::RefreshPublicKeyCache => Self::RemoveCache { respond },
                Warning::RemoveStalePublicKeyCache => Self::Subscribe { respond },
                _ => Self::ending(respond),
            },
            (Sync::Respond, SyncEvent::Responded(result)) => after == Self::Done(
                match result {
                    Ok(_) => Ok(()),
                    Err(error) => Err(Error::Forwarded(error)),
                },
            ),
            _ => after == self,
        }
    }
}

fn end<T, O, N, E>(respond: bool) -> (r: Sync<T, O, N, E>)
    ensures
        r == Sync::<T, O, N, E>::ending(respond),
{
    if respond {
        Sync::Respond
    } else {
        Sync::Done(Ok(()))
    }
}

fn update<T, O, N>(db: Db<T, O, N>, fetched: Fetched<O, N>) -> (r: Db<T, O, N>)
    ensures
        r == synced(db, fetched),
{
    let mut db = db;
    if fetched.access_token.is_some() {
        db.access_token = fetched.access_token;
    }
    db.protected_key = Some(fetched.protected_key);
    db.protected_private_key = Some(fetched.protected_private_key);
    db.protected_org_keys = fetched.protected_org_keys;
    db.entries = fetched.entries;
    db
}

/// Moves a synchronisation on.
pub fn sync<T, O, N, E>(state: Sync<T, O, N, E>, event: SyncEvent<T, O, N, E>) -> (after: Sync<
    T,
    O,
    N,
    E,
>)
    ensures
        state.steps_to(event, after),
{
    match (state, event) {
        (Sync::LoadDb { respond }, SyncEvent::DbLoaded(result)) => match result {
            Ok(db) => {
                let access_token = match &db.access_token {
                    Some(token) => token.clone(),
                    None => {
                        return Sync::Done(Err(Error::Refused(Failure::MissingAccessToken)));
                    },
                };
                let refresh_token = match &db.refresh_token {
                    Some(token) => token.clone(),
                    None => {
                        return Sync::Done(Err(Error::Refused(Failure::MissingRefreshToken)));
                    },
                };
                Sync::Fetch { respond, db, access_token, refresh_token }
            },
            Err(error) => Sync::Done(Err(error)),
        },
        (Sync::Fetch { respond, db, .. }, SyncEvent::Fetched(result)) => match result {
            Ok(fetched) => Sync::SetReprompt { respond, db: update(db, fetched) },
            Err(error) => Sync::Done(Err(Error::Caused(Failure::Sync, error))),
        },
        (Sync::SetReprompt { respond, db }, SyncEvent::RepromptSet) => {
            Sync::SaveDb { respond, db }
        },
        (Sync::SaveDb { respond, db }, SyncEvent::DbSaved(result)) => match result {
            Ok(_) => Sync::CheckLocked { respond, db },
            Err(error) => Sync::Done(Err(error)),
        },
        (Sync::CheckLocked { respond, db }, SyncEvent::LockChecked { needs_unlock }) => {
            if needs_unlock {
                Sync::Subscribe { respond }
            } else {
                Sync::RefreshCache { respond, db }
            }
        },
        (Sync::RefreshCache { respond, .. }, SyncEvent::CacheRefreshed(result)) => match result {
            Ok(_) => Sync::Subscribe { respond },
            Err(error) => Sync::Warn { respond, warning: Warning::RefreshPublicKeyCache, error },
        },
        (Sync::RemoveCache { respond }, SyncEvent::CacheRemoved(result)) => match result {
            Ok(_) => Sync::Subscribe { respond },
            Err(error) => Sync::Warn { respond, warning: Warning::RemoveStalePublicKeyCache, error },
        },
        (Sync::Subscribe { respond }, SyncEvent::Subscribed(result)) => match result {
            Ok(_) => end(respond),
            Err(error) => Sync::Warn { respond, warning: Warning::Subscribe, error },
        },
        (Sync::Warn { respond, warning, .. }, SyncEvent::Warned) => match warning {
            Warning::RefreshPublicKeyCache => Sync::RemoveCache { respond },
            Warning::RemoveStalePublicKeyCache => Sync::Subscribe { respond },
            _ => end(respond),
        },
        (Sync::Respond, SyncEvent::Responded(result)) => match result {
            Ok(_) => Sync::Done(Ok(())),
            Err(error) => Sync::Done(Err(Error::Forwarded(error))),
        },
        (state, _) => state,
    }
}

/// Whether `events` lead through `states` one after the other.
pub open spec fn sync_run<T, O, N, E>(
    states: Seq<Sync<T, O, N, E>>,
    events: Seq<SyncEvent<T, O, N, E>>,
) -> bool {
    &&& states.len() == events.len() + 1
    &&& forall|i: int|
        0 <= i < events.len() ==> states[i].steps_to(#[trigger] events[i], states[i + 1])
}

/// Whether the event fails to answer the client.
pub open spec fn answer_fails<T, O, N, E>(
    state: Sync<T, O, N, E>,
    event: SyncEvent<T, O, N, E>,
) -> bool {
    &&& state is Respond
    &&& event matches SyncEvent::Responded(result)
    &&& result is Err
}

/// Once the database was saved, trouble with the public key cache or with the
/// notifications does not make a synchronisation fail: only an answer that
/// cannot be sent does.
pub proof fn law_saved_sync_succeeds<T, O, N, E>(
    states: Seq<Sync<T, O, N, E>>,
    events: Seq<SyncEvent<T, O, N, E>>,
    saved: int,
    n: int,
)
    requires
        sync_run(states, events),
        0 <= saved <= n <= events.len(),
        states[saved] is CheckLocked,
        forall|i: int| saved <= i < n ==> !answer_fails(states[i], #[trigger] events[i]),
    ensures
        !(states[n] matches Sync::Done(Err(_))),
        !(states[n] is LoadDb || states[n] is Fetch || states[n] is SetReprompt
            || states[n] is SaveDb),
    decreases n - saved,
{
    if n > saved {
        law_saved_sync_succeeds(states, events, saved, n - 1);
        assert(states[n - 1].steps_to(events[n - 1], states[n]));
        assert(!answer_fails(states[n - 1], events[n - 1]));
    }
}

/// A synchronisation that succeeds saved what the server sent for the tokens of
/// the database.
pub proof fn law_successful_sync_was_saved<T, O, N, E>(
    states: Seq<Sync<T, O, N, E>>,
    events: Seq<SyncEvent<T, O, N, E>>,
    n: int,
)
    requires
        sync_run(states, events),
        states[0] is LoadDb,
        0 <= n <= events.len(),
        !(states[n] is LoadDb || states[n] is Fetch || states[n] is SetReprompt
            || states[n] is SaveDb || states[n] matches Sync::Done(Err(_))),
    ensures
        exists|i: int, j: int|
            0 <= i < j < n && states[i] is Fetch && (#[trigger] events[i] matches SyncEvent::Fetched(
                Ok(fetched),
            ) && states[j] matches Sync::SaveDb { db, .. } && db == synced(
                states[i]->Fetch_db,
                fetched,
            )) && (#[trigger] events[j] matches SyncEvent::DbSaved(Ok(_))),
    decreases n,
{
    assert(states[n - 1].steps_to(events[n - 1], states[n]));
    if states[n - 1] is SaveDb {
        let j = n - 1;
        let i = lemma_saved_was_fetched(states, events, j);
        assert(events[i] is Fetched && events[j] is DbSaved);
    } else {
        law_successful_sync_was_saved(states, events, n - 1);
    }
}

proof fn lemma_saved_was_fetched<T, O, N, E>(
    states: Seq<Sync<T, O, N, E>>,
    events: Seq<SyncEvent<T, O, N, E>>,
    n: int,
) -> (i: int)
    requires
        sync_run(states, events),
        states[0] is LoadDb,
        0 <= n <= events.len(),
        states[n] is SetReprompt || states[n] is SaveDb,
    ensures
        0 <= i < n,
        states[i] is Fetch,
        events[i] matches SyncEvent::Fetched(Ok(fetched)) && (states[n] matches Sync::SaveDb {
            db,
            ..
        } ==> db == synced(states[i]->Fetch_db, fetched)) && (states[n] matches Sync::SetReprompt {
            db,
            ..
        } ==> db == synced(states[i]->Fetch_db, fetched)),
    decreases n,
{
    assert(states[n - 1].steps_to(events[n - 1], states[n]));
    if states[n - 1] is Fetch {
        n - 1
    } else {
        lemma_saved_was_fetched(states, events, n - 1)
    }
}

/// Where the vault is locked, the public key cache is neither refreshed nor
/// removed.
pub proof fn law_locked_sync_keeps_the_cache<T, O, N, E>(
    states: Seq<Sync<T, O, N, E>>,
    events: Seq<SyncEvent<T, O, N, E>>,
    checked: int,
    n: int,
)
    requires
        sync_run(states, events),
        0 <= checked < n <= events.len(),
        states[checked] is CheckLocked,
        events[checked] == (SyncEvent::<T, O, N, E>::LockChecked { needs_unlock: true }),
    ensures
        !(states[n] is RefreshCache || states[n] is RemoveCache),
{
    lemma_locked_sync_only_subscribes(states, events, checked, n);
}

proof fn lemma_locked_sync_only_subscribes<T, O, N, E>(
    states: Seq<Sync<T, O, N, E>>,
    events: Seq<SyncEvent<T, O, N, E>>,
    checked: int,
    n: int,
)
    requires
        sync_run(states, events),
        0 <= checked < n <= events.len(),
        states[checked] is CheckLocked,
        events[checked] == (SyncEvent::<T, O, N, E>::LockChecked { needs_unlock: true }),
    ensures
        match states[n] {
            Sync::Subscribe { .. } => true,
            Sync::Warn { warning, .. } => warning == Warning::Subscribe,
            Sync::Respond => true,
            Sync::Done(_) => true,
            _ => false,
        },
    decreases n - checked,
{
    assert(states[n - 1].steps_to(events[n - 1], states[n]));
    if n - 1 > checked {
        lemma_locked_sync_only_subscribes(states, events, checked, n - 1);
    }
}

} // verus!
