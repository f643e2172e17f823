//! What holds of every synchronisation and of every subscription.
use vstd::prelude::*;
use crate::config::Config;
use crate::db::Db;
use crate::error::{Error, Failure, Warning};
use crate::notifications::{hub_address, Subscribe, SubscribeEvent};
use crate::sync::{sync_run, Sync, SyncEvent};
use crate::text;
use crate::text_laws::law_start_is_replaced;

verus! {

/// The database that a state carries once the server sent its part.
pub open spec fn updated_db<T, O, N, E>(state: Sync<T, O, N, E>) -> Option<Db<T, O, N>> {
    match state {
        Sync::SetReprompt { db, .. } => Some(db),
        Sync::SaveDb { db, .. } => Some(db),
        Sync::CheckLocked { db, .. } => Some(db),
        Sync::RefreshCache { db, .. } => Some(db),
        _ => None,
    }
}

/// A synchronisation puts into the database the protected keys and the entries
/// that the server sent, and the access token where it sent one, and leaves all
/// else as it was loaded. So a vault that could be unlocked before, as far as the
/// key derivation goes, can be unlocked after it.
pub proof fn law_sync_changes_what_the_server_sent<T, O, N, E>(
    states: Seq<Sync<T, O, N, E>>,
    events: Seq<SyncEvent<T, O, N, E>>,
    n: int,
) -> (r: (int, int))
    requires
        sync_run(states, events),
        states[0] is LoadDb,
        0 <= n <= events.len(),
        updated_db(states[n]) is Some,
    ensures
        0 <= r.0 < r.1 < n,
        states[r.0] is LoadDb,
        states[r.1] is Fetch,
        events[r.0] matches SyncEvent::DbLoaded(Ok(old)) && (events[r.1] matches SyncEvent::Fetched(
            Ok(sent),
        ) && {
            let db = updated_db(states[n])->0;
            &&& db.kdf == old.kdf
            &&& db.iterations == old.iterations
            &&& db.memory == old.memory
            &&& db.parallelism == old.parallelism
            &&& db.refresh_token == old.refresh_token
            &&& sent.access_token is Some ==> db.access_token == sent.access_token
            &&& sent.access_token is None ==> db.access_token == old.access_token
            &&& db.protected_key == Some(sent.protected_key)
            &&& db.protected_private_key == Some(sent.protected_private_key)
            &&& db.protected_org_keys == sent.protected_org_keys
            &&& db.entries == sent.entries
            &&& old.kdf is Some && old.iterations is Some ==> db.missing() is None
        }),
    decreases n,
{
    assert(states[n - 1].steps_to(events[n - 1], states[n]));
    if states[n - 1] is Fetch {
        let i = law_tokens_of_the_database_are_used(states, events, n - 1);
        (i, n - 1)
    } else {
        law_sync_changes_what_the_server_sent(states, events, n - 1)
    }
}

/// The server is asked with the access token and the refresh token of the
/// database that was loaded.
pub proof fn law_tokens_of_the_database_are_used<T, O, N, E>(
    states: Seq<Sync<T, O, N, E>>,
    events: Seq<SyncEvent<T, O, N, E>>,
    n: int,
) -> (i: int)
    requires
        sync_run(states, events),
        states[0] is LoadDb,
        0 <= n <= events.len(),
        states[n] is Fetch,
    ensures
        0 <= i < n,
        states[i] is LoadDb,
        states[n] matches Sync::Fetch { db, access_token, refresh_token, .. } && events[i]
            == SyncEvent::<T, O, N, E>::DbLoaded(Ok(db)) && db.access_token == Some(access_token)
            && db.refresh_token == Some(refresh_token),
    decreases n,
{
    assert(states[n - 1].steps_to(events[n - 1], states[n]));
    if states[n - 1] is LoadDb {
        n - 1
    } else {
        law_tokens_of_the_database_are_used(states, events, n - 1)
    }
}

/// A synchronisation answers exactly the client that waits for it: it answers
/// none where none waits, and where one waits it succeeds only once that was
/// answered.
pub proof fn law_waiting_client_is_answered<T, O, N, E>(
    states: Seq<Sync<T, O, N, E>>,
    events: Seq<SyncEvent<T, O, N, E>>,
    waits: bool,
    n: int,
)
    requires
        sync_run(states, events),
        states[0] == (Sync::<T, O, N, E>::LoadDb { respond: waits }),
        0 <= n <= events.len(),
    ensures
        match states[n] {
            Sync::LoadDb { respond } => respond == waits,
            Sync::Fetch { respond, .. } => respond == waits,
            Sync::SetReprompt { respond, .. } => respond == waits,
            Sync::SaveDb { respond, .. } => respond == waits,
            Sync::CheckLocked { respond, .. } => respond == waits,
            Sync::RefreshCache { respond, .. } => respond == waits,
            Sync::RemoveCache { respond } => respond == waits,
            Sync::Subscribe { respond } => respond == waits,
            Sync::Warn { respond, .. } => respond == waits,
            Sync::Respond => waits,
            Sync::Done(Ok(_)) => waits ==> exists|i: int|
                0 <= i < n && states[i] is Respond && (#[trigger] events[i] matches
                    SyncEvent::Responded(Ok(_))),
            Sync::Done(Err(_)) => true,
        },
    decreases n,
{
    if n > 0 {
        law_waiting_client_is_answered(states, events, waits, n - 1);
        assert(states[n - 1].steps_to(events[n - 1], states[n]));
        let i = n - 1;
        assert(events[i] == events[n - 1]);
    }
}

/// A synchronisation whose steps succeed lists the entries that the server sent,
/// saves the database with them, refreshes the public key cache from it where the
/// vault is unlocked, subscribes to the notifications and succeeds.
pub proof fn law_successful_sync<T, O, N, E>(
    old: Db<T, O, N>,
    sent: crate::sync::Fetched<O, N>,
    needs_unlock: bool,
    s: Seq<Sync<T, O, N, E>>,
)
    requires
        s.len() == 8,
        old.access_token is Some && old.refresh_token is Some,
        s[0] == (Sync::<T, O, N, E>::LoadDb { respond: true }),
        s[0].steps_to(SyncEvent::DbLoaded(Ok(old)), s[1]),
        s[1].steps_to(SyncEvent::Fetched(Ok(sent)), s[2]),
        s[2].steps_to(SyncEvent::RepromptSet, s[3]),
        s[3].steps_to(SyncEvent::DbSaved(Ok(())), s[4]),
        s[4].steps_to(SyncEvent::LockChecked { needs_unlock }, s[5]),
        needs_unlock ==> s[6] == s[5],
        !needs_unlock ==> s[5].steps_to(SyncEvent::CacheRefreshed(Ok(())), s[6]),
        s[6].steps_to(SyncEvent::Subscribed(Ok(())), s[7]),
    ensures
        s[2] matches Sync::SetReprompt { db, .. } && db.entries == sent.entries,
        s[3] matches Sync::SaveDb { db, .. } && db.entries == sent.entries && db
            == s[2]->SetReprompt_db,
        !needs_unlock ==> s[5] == (Sync::<T, O, N, E>::RefreshCache {
            respond: true,
            db: s[3]->SaveDb_db,
        }),
        s[6] is Subscribe,
        s[7] is Respond,
{
}

/// Where the public key cache cannot be refreshed, it is removed before the
/// synchronisation goes on; and neither that nor trouble with the removal or the
/// subscription ends it.
pub proof fn law_stale_cache_is_removed<T, O, N, E>(
    respond: bool,
    db: Db<T, O, N>,
    refresh_error: Error<E>,
    removed: Result<(), Error<E>>,
    subscribed: Result<(), Error<E>>,
    s: Seq<Sync<T, O, N, E>>,
)
    requires
        s.len() == 7,
        s[0] == (Sync::<T, O, N, E>::RefreshCache { respond, db }),
        s[0].steps_to(SyncEvent::CacheRefreshed(Err(refresh_error)), s[1]),
        s[1].steps_to(SyncEvent::Warned, s[2]),
        s[2].steps_to(SyncEvent::CacheRemoved(removed), s[3]),
        s[3].steps_to(SyncEvent::Warned, s[4]),
        s[4].steps_to(SyncEvent::Subscribed(subscribed), s[5]),
        s[5].steps_to(SyncEvent::Warned, s[6]),
    ensures
        s[1] == (Sync::<T, O, N, E>::Warn {
            respond,
            warning: Warning::RefreshPublicKeyCache,
            error: refresh_error,
        }),
        s[2] is RemoveCache,
        removed matches Err(error) ==> s[3] == (Sync::<T, O, N, E>::Warn {
            respond,
            warning: Warning::RemoveStalePublicKeyCache,
            error,
        }),
        s[4] is Subscribe,
        subscribed matches Err(error) ==> s[5] == (Sync::<T, O, N, E>::Warn {
            respond,
            warning: Warning::Subscribe,
            error,
        }),
        respond ==> s[6] is Respond,
        !respond ==> s[6] matches Sync::Done(Ok(_)),
{
}

/// A synchronisation fails only where the database could not be loaded or lacks a
/// token, the server did not send its part, or the database could not be saved or
/// the answer not be sent; and the error says which.
pub proof fn law_failed_sync_says_why<T, O, N, E>(
    state: Sync<T, O, N, E>,
    event: SyncEvent<T, O, N, E>,
    after: Sync<T, O, N, E>,
    error: Error<E>,
)
    requires
        state.steps_to(event, after),
        !(state is Done),
        after == Sync::<T, O, N, E>::Done(Err(error)),
    ensures
        match event {
            SyncEvent::DbLoaded(Ok(db)) => {
                &&& state is LoadDb
                &&& db.access_token is None ==> error == Error::<E>::Refused(
                    Failure::MissingAccessToken,
                )
                &&& db.access_token is Some ==> db.refresh_token is None && error == Error::<
                    E,
                >::Refused(Failure::MissingRefreshToken)
            },
            SyncEvent::DbLoaded(Err(cause)) => state is LoadDb && error == cause,
            SyncEvent::Fetched(result) => state is Fetch && (result matches Err(cause) && error
                == Error::Caused(Failure::Sync, cause)),
            SyncEvent::DbSaved(result) => state is SaveDb && result == Err::<(), Error<E>>(error),
            SyncEvent::Responded(result) => state is Respond && (result matches Err(cause) && error
                == Error::Forwarded(cause)),
            _ => false,
        },
{
}

/// The hub of a server is at the notification address with a web socket scheme,
/// and is told the access token.
pub proof fn law_hub_address(host: Seq<char>, access_token: Seq<char>)
    requires
        !text::occurs_in(host + "/hub?access_token="@ + access_token, "https://"@),
    ensures
        hub_address("https://"@ + host, access_token) == "wss://"@ + host + "/hub?access_token="@
            + access_token,
{
    reveal_strlit("https://");
    let rest = host + "/hub?access_token="@ + access_token;
    law_start_is_replaced("https://"@, rest, "wss://"@);
    assert("https://"@ + host + "/hub?access_token="@ + access_token =~= "https://"@ + rest);
    assert("wss://"@ + host + "/hub?access_token="@ + access_token =~= "wss://"@ + rest);
}

/// A subscription that is not connected yet loads the database of the account
/// that the configuration names, and connects to the hub of its server with the
/// access token of that database.
pub proof fn law_subscription_connects_with_the_token<T, O, N, E>(
    config: Config,
    address: String,
    db: Db<T, O, N>,
    token: String,
    s: Seq<Subscribe<E>>,
)
    requires
        s.len() == 5,
        config.email == Some(address),
        db.access_token == Some(token),
        s[0] is CheckConnected,
        s[0].steps_to(SubscribeEvent::<T, O, N, E>::ConnectionChecked(false), s[1]),
        s[1].steps_to(SubscribeEvent::<T, O, N, E>::ConfigLoaded(Ok(config)), s[2]),
        s[2].steps_to(SubscribeEvent::<T, O, N, E>::DbLoaded(Ok(db)), s[3]),
        s[3].steps_to(SubscribeEvent::<T, O, N, E>::Connected(Ok(())), s[4]),
    ensures
        s[2] matches Subscribe::LoadDb { server, email, notifications_url } && email == address
            && server@ == config.server() && notifications_url@ == config.notifications_address(),
        s[3] matches Subscribe::Connect { url } && url@ == hub_address(
            config.notifications_address(),
            token@,
        ),
        s[4] matches Subscribe::Done(Ok(_)),
{
}

/// A subscription that is connected already does nothing.
pub proof fn law_connected_subscription_is_done<T, O, N, E>(
    state: Subscribe<E>,
    after: Subscribe<E>,
)
    requires
        state is CheckConnected,
        state.steps_to(SubscribeEvent::<T, O, N, E>::ConnectionChecked(true), after),
    ensures
        after matches Subscribe::Done(Ok(_)),
{
}

/// A subscription succeeds only if the agent is or was connected.
pub proof fn law_subscription_needs_a_connection<T, O, N, E>(
    state: Subscribe<E>,
    event: SubscribeEvent<T, O, N, E>,
    after: Subscribe<E>,
)
    requires
        state.steps_to(event, after),
        !(state is Done),
        after matches Subscribe::Done(Ok(_)),
    ensures
        ({
            ||| state is CheckConnected && event
                == SubscribeEvent::<T, O, N, E>::ConnectionChecked(true)
            ||| state is Connect && (event matches SubscribeEvent::Connected(Ok(_)))
        }),
{
}

/// A subscription fails only where the configuration or the database could not be
/// loaded or lacks what is needed, or the connection failed; and the error says
/// which.
pub proof fn law_failed_subscription_says_why<T, O, N, E>(
    state: Subscribe<E>,
    event: SubscribeEvent<T, O, N, E>,
    after: Subscribe<E>,
    error: Error<E>,
)
    requires
        state.steps_to(event, after),
        !(state is Done),
        after == Subscribe::<E>::Done(Err(error)),
    ensures
        match event {
            SubscribeEvent::ConnectionChecked(_) => false,
            SubscribeEvent::ConfigLoaded(Ok(config)) => state is LoadConfig && config.email is None
                && error == Error::<E>::Refused(Failure::ConfigMissingEmail),
            SubscribeEvent::ConfigLoaded(Err(cause)) => state is LoadConfig && error
                == Error::Caused(Failure::ConfigMissing, cause),
            SubscribeEvent::DbLoaded(Ok(db)) => state is LoadDb && db.access_token is None && error
                == Error::<E>::Refused(Failure::NotificationsNeedAccessToken),
            SubscribeEvent::DbLoaded(Err(cause)) => state is LoadDb && error == Error::Forwarded(
                cause,
            ),
            SubscribeEvent::Connected(result) => state is Connect && (result matches Err(message)
                && error == Error::<E>::Plain(message)),
        },
{
}

} // verus!
