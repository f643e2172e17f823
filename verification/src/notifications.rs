//! The subscription to the notifications of the server.
use vstd::prelude::*;
use vstd::string::StringExecFns;
use crate::config::Config;
use crate::db::Db;
use crate::error::{Error, Failure};
use crate::text;

verus! {

/// The address of the notification hub for an access token, with a web socket
/// scheme in place of every `https`.
pub open spec fn hub_address(notifications_url: Seq<char>, access_token: Seq<char>) -> Seq<char> {
    text::replaced(
        notifications_url + "/hub?access_token="@ + access_token,
        "https://"@,
        "wss://"@,
    )
}

/// The address to which the agent connects for notifications.
pub fn websocket_url(notifications_url: &str, access_token: &str) -> (r: String)
    ensures
        r@ == hub_address(notifications_url@, access_token@),
{
    let mut address = text::concat(notifications_url, "/hub?access_token=");
    address.append(access_token);
    proof {
        reveal_strlit("https://");
    }
    text::replace(address.as_str(), "https://", "wss://")
}

/// An `https` address of the hub becomes a `wss` address.
pub proof fn law_hub_address_is_secure(notifications_url: Seq<char>, access_token: Seq<char>)
    requires
        text::has_prefix(notifications_url, "https://"@),
    ensures
        text::has_prefix(hub_address(notifications_url, access_token), "wss://"@),
{
    reveal_strlit("https://");
    let address = notifications_url + "/hub?access_token="@ + access_token;
    assert(address.take("https://"@.len() as int) =~= notifications_url.take(
        "https://"@.len() as int,
    ));
    let rest = text::replaced(address.skip("https://"@.len() as int), "https://"@, "wss://"@);
    assert(("wss://"@ + rest).take("wss://"@.len() as int) =~= "wss://"@);
}

/// A subscription under way.
#[derive(Debug)]
pub enum Subscribe<E> {
    CheckConnected,
    LoadConfig,
    LoadDb { server: String, email: String, notifications_url: String },
    Connect { url: String },
    Done(Result<(), Error<E>>),
}

#[derive(Debug)]
pub enum SubscribeEvent<T, O, N, E> {
    /// Whether the agent is connected already.
    ConnectionChecked(bool),
    ConfigLoaded(Result<Config, E>),
    DbLoaded(Result<Db<T, O, N>, E>),
    /// The message of the error, where the connection failed.
    Connected(Result<(), String>),
}

impl<E> Subscribe<E> {
    /// Where an event leads. One that the state does not wait for changes
    /// nothing.
    pub open spec fn steps_to<T, O, N>(
        self,
        event: SubscribeEvent<T, O, N, E>,
        after: Self,
    ) -> bool {
        match (self, event) {
            (Subscribe::CheckConnected, SubscribeEvent::ConnectionChecked(connected)) => {
                after == if connected {
                    Self::Done(Ok(()))
                } else {
                    Self::LoadConfig
                }
            },
            (Subscribe::LoadConfig, SubscribeEvent::ConfigLoaded(result)) => match result {
                Ok(config) => match config.email {
                    Some(address) => {
                        &&& after matches Subscribe::LoadDb { server, email, notifications_url }
                        &&& server@ == config.server()
                        &&& email == address
                        &&& notifications_url@ == config.notifications_address()
                    },
                    None => after == Self::Done(Err(Error::Refused(Failure::ConfigMissingEmail))),
                },
                Err(error) => after == Self::Done(
                    Err(Error::Caused(Failure::ConfigMissing, error)),
                ),
            },
            (Subscribe::LoadDb { notifications_url, .. }, SubscribeEvent::DbLoaded(result)) => {
                match result {
                    Ok(db) => match db.access_token {
                        Some(access_token) => {
                            &&& after matches Subscribe::Connect { url }
                            &&& url@ == hub_address(notifications_url@, access_token@)
                        },
                        None => after == Self::Done(
                            Err(Error::Refused(Failure::NotificationsNeedAccessToken)),
                        ),
                    },
                    Err(error) => after == Self::Done(Err(Error::Forwarded(error))),
                }
            },
            (Subscribe::Connect { .. }, SubscribeEvent::Connected(result)) => after == Self::Done(
                match result {
                    Ok(_) => Ok(()),
                    Err(message) => Err(Error::Plain(message)),
                },
            ),
            _ => after == self,
        }
    }
}

/// Moves a subscription on.
pub fn subscribe_to_notifications<T, O, N, E>(
    state: Subscribe<E>,
    event: SubscribeEvent<T, O, N, E>,
) -> (after: Subscribe<E>)
    ensures
        state.steps_to(event, after),
{
    match (state, event) {
        (Subscribe::CheckConnected, SubscribeEvent::ConnectionChecked(connected)) => {
            if connected {
                Subscribe::Done(Ok(()))
            } else {
                Subscribe::LoadConfig
            }
        },
        (Subscribe::LoadConfig, SubscribeEvent::ConfigLoaded(result)) => match result {
            Ok(config) => {
                let server = config.server_name();
                let notifications_url = config.notifications_url();
                match config.email {
                    Some(email) => Subscribe::LoadDb { server, email, notifications_url },
                    None => Subscribe::Done(Err(Error::Refused(Failure::ConfigMissingEmail))),
                }
            },
            Err(error) => Subscribe::Done(Err(Error::Caused(Failure::ConfigMissing, error))),
        },
        (Subscribe::LoadDb { notifications_url, .. }, SubscribeEvent::DbLoaded(result)) => {
            match result {
                Ok(db) => match db.access_token {
                    Some(access_token) => Subscribe::Connect {
                        url: websocket_url(notifications_url.as_str(), access_token.as_str()),
                    },
                    None => Subscribe::Done(
                        Err(Error::Refused(Failure::NotificationsNeedAccessToken)),
                    ),
                },
                Err(error) => Subscribe::Done(Err(Error::Forwarded(error))),
            }
        },
        (Subscribe::Connect { .. }, SubscribeEvent::Connected(result)) => match result {
            Ok(_) => Subscribe::Done(Ok(())),
            Err(message) => Subscribe::Done(Err(Error::Plain(message))),
        },
        (state, _) => state,
    }
}

} // verus!
