//! The decisions of a Bitwarden agent: its configuration, its pinentry
//! dialogues, its vault, its SSH agent and the cache of SSH public keys.
//!
//! What an exchange with the outside has to do next is a state; what came of it
//! is an event; and one function for each kind of exchange says where an event
//! leads from a state.
pub mod text;
pub mod unicode;
pub mod text_laws;
pub mod config;
pub mod error;
pub mod prompt;
pub mod db;
pub mod vault;
pub mod vault_laws;
pub mod authorization;
pub mod cipher;
pub mod cipher_laws;
pub mod login;
pub mod login_laws;
pub mod account_laws;
pub mod sync;
pub mod notifications;
pub mod sync_laws;
pub mod requester;
pub mod response;
pub mod ssh_keys;
pub mod ssh_sign;
pub mod ssh_laws;
pub mod ssh_agent_cache;
pub mod pinentry;
pub mod dbcheck;
pub mod scan_laws;
pub mod waiting_laws;
