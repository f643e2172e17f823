//! What the agent reports when a request fails.
use vstd::prelude::*;
use vstd::string::StringExecFns;
use crate::text;

verus! {

/// A second factor that a server offers. The agent can use the first three;
/// the others are kept by name.
#[derive(Debug, Clone)]
pub enum TwoFactorProviderType {
    Authenticator,
    Yubikey,
    Email,
    Other(String),
}

impl TwoFactorProviderType {
    /// The name of the provider.
    pub open spec fn spec_name(&self) -> Seq<char> {
        match self {
            TwoFactorProviderType::Authenticator => "Authenticator"@,
            TwoFactorProviderType::Yubikey => "Yubikey"@,
            TwoFactorProviderType::Email => "Email"@,
            TwoFactorProviderType::Other(name) => name@,
        }
    }

    pub fn name(&self) -> (r: String)
        ensures
            r@ == self.spec_name(),
    {
        match self {
            TwoFactorProviderType::Authenticator => "Authenticator".to_owned(),
            TwoFactorProviderType::Yubikey => "Yubikey".to_owned(),
            TwoFactorProviderType::Email => "Email".to_owned(),
            TwoFactorProviderType::Other(name) => name.clone(),
        }
    }
}

/// Why a request failed.
#[derive(Debug)]
pub enum Failure {
    BaseUrlWithoutHost(String),
    UnsupportedTwoFactorMethods(Vec<TwoFactorProviderType>),
    ParseBaseUrl,
    MissingEmail,
    ReadClientId,
    ReadClientSecret,
    ReadPassword,
    ReadCode,
    CodeNotUtf8,
    LogIn,
    MissingKdf,
    MissingIterations,
    MissingProtectedKey,
    MissingProtectedPrivateKey,
    UnlockDatabase,
    UnlockInvalidatedBeforePrompt,
    UnlockInvalidated,
    ConfirmationNeedsGuiPinentry,
    SshAuthorizationInvalidatedBeforePrompt,
    SshAuthorizationInvalidated,
    PinentryTimedOut,
    AgentLocked,
    MissingAccessToken,
    MissingRefreshToken,
    Sync,
    ParseItemKey,
    DecryptItemKey,
    ParseSecret,
    DecryptSecret,
    SecretNotUtf8,
    EncryptSecret,
    EntryAccessInvalidatedBeforePrompt,
    EntryAccessInvalidated,
    ConfigMissing,
    RepromptNeedsPinentry,
    MissingDecryptionKeys,
    MissingEncryptionKeys,
    ConfigMissingEmail,
    NotificationsNeedAccessToken,
    ParsePublicKey,
    SerializePublicKey,
    MissingPublicKeyDecryptionKeys,
    RefreshWhileLocked,
    MissingPublicKeyCache,
    VaultLocked,
    MissingPrivateKey,
    NoMatchingKey,
    ScanMissingEmail,
    ScanLoadDb,
    ScanMissingIterations,
    ScanMissingProtectedKey,
    ScanMissingProtectedPrivateKey,
}

/// The names of the providers, in order.
pub open spec fn provider_names(providers: Seq<TwoFactorProviderType>) -> Seq<Seq<char>> {
    providers.map_values(|p: TwoFactorProviderType| p.spec_name())
}

fn names_of(providers: &Vec<TwoFactorProviderType>) -> (r: Vec<String>)
    ensures
        r.deep_view() == provider_names(providers@),
{
    let mut names: Vec<String> = Vec::new();
    let mut i: usize = 0;
    while i < providers.len()
        invariant
            i <= providers@.len(),
            names@.len() == i,
            forall|k: int| 0 <= k < i ==> #[trigger] names@[k]@ == providers@[k].spec_name(),
        decreases providers@.len() - i,
    {
        names.push(providers[i].name());
        i = i + 1;
    }
    assert(names.deep_view() =~= provider_names(providers@));
    names
}

impl Failure {
    /// The message that describes the failure.
    pub open spec fn spec_message(&self) -> Seq<char> {
        match self {
            Failure::BaseUrlWithoutHost(url) => "couldn't find host in rbw base url "@ + url@,
            Failure::UnsupportedTwoFactorMethods(providers) => "unsupported two factor methods: ["@
                + text::joined(provider_names(providers@), ", "@) + "]"@,
            Failure::ParseBaseUrl => "failed to parse base url"@,
            Failure::MissingEmail => "failed to find email address in config"@,
            Failure::ReadClientId => "failed to read client_id from pinentry"@,
            Failure::ReadClientSecret => "failed to read client_secret from pinentry"@,
            Failure::ReadPassword => "failed to read password from pinentry"@,
            Failure::ReadCode => "failed to read code from pinentry"@,
            Failure::CodeNotUtf8 => "code was not valid utf8"@,
            Failure::LogIn => "failed to log in to bitwarden instance"@,
            Failure::MissingKdf => "failed to find kdf type in db"@,
            Failure::MissingIterations => "failed to find number of iterations in db"@,
            Failure::MissingProtectedKey => "failed to find protected key in db"@,
            Failure::MissingProtectedPrivateKey => "failed to find protected private key in db"@,
            Failure::UnlockDatabase => "failed to unlock database"@,
            Failure::UnlockInvalidatedBeforePrompt => "unlock invalidated before prompting"@,
            Failure::UnlockInvalidated => "unlock invalidated"@,
            Failure::ConfirmationNeedsGuiPinentry => "SSH signature confirmation requires a configured GUI pinentry"@,
            Failure::SshAuthorizationInvalidatedBeforePrompt => "SSH authorization invalidated before prompting"@,
            Failure::SshAuthorizationInvalidated => "SSH authorization invalidated"@,
            Failure::PinentryTimedOut => "pinentry transaction timed out"@,
            Failure::AgentLocked => "agent is locked"@,
            Failure::MissingAccessToken => "failed to find access token in db"@,
            Failure::MissingRefreshToken => "failed to find refresh token in db"@,
            Failure::Sync => "failed to sync database from server"@,
            Failure::ParseItemKey => "failed to parse individual item encryption key"@,
            Failure::DecryptItemKey => "failed to decrypt individual item encryption key"@,
            Failure::ParseSecret => "failed to parse encrypted secret"@,
            Failure::DecryptSecret => "failed to decrypt encrypted secret"@,
            Failure::SecretNotUtf8 => "failed to parse decrypted secret"@,
            Failure::EncryptSecret => "failed to encrypt plaintext secret"@,
            Failure::EntryAccessInvalidatedBeforePrompt => "entry access invalidated before prompting"@,
            Failure::EntryAccessInvalidated => "entry access invalidated"@,
            Failure::ConfigMissing => "Config is missing"@,
            Failure::RepromptNeedsPinentry => "SSH key requires a master-password re-prompt; configure ssh_agent_pinentry"@,
            Failure::MissingDecryptionKeys => "failed to find decryption keys in in-memory state"@,
            Failure::MissingEncryptionKeys => "failed to find encryption keys in in-memory state"@,
            Failure::ConfigMissingEmail => "Config is missing email"@,
            Failure::NotificationsNeedAccessToken => "Error getting access token"@,
            Failure::ParsePublicKey => "failed to parse SSH public key"@,
            Failure::SerializePublicKey => "failed to serialize SSH public key"@,
            Failure::MissingPublicKeyDecryptionKeys => "failed to find SSH public key decryption keys"@,
            Failure::RefreshWhileLocked => "cannot refresh SSH public key cache while agent is locked"@,
            Failure::MissingPublicKeyCache => "SSH public-key cache is missing; run `rbw unlock` or configure ssh_agent_pinentry"@,
            Failure::VaultLocked => "Vault is locked; run `rbw unlock` or configure ssh_agent_pinentry"@,
            Failure::MissingPrivateKey => "Matching entry has no private key"@,
            Failure::NoMatchingKey => "No matching private key found"@,
            Failure::ScanMissingEmail => "failed to find email in config"@,
            Failure::ScanLoadDb => "failed to load db"@,
            Failure::ScanMissingIterations => "failed to find kdf iterations"@,
            Failure::ScanMissingProtectedKey => "missing protected_key"@,
            Failure::ScanMissingProtectedPrivateKey => "missing protected_private_key"@,
        }
    }

    pub fn message(&self) -> (r: String)
        ensures
            r@ == self.spec_message(),
    {
        match self {
            Failure::BaseUrlWithoutHost(url) => text::concat(
                "couldn't find host in rbw base url ",
                url.as_str(),
            ),
            Failure::UnsupportedTwoFactorMethods(providers) => {
                let names = names_of(providers);
                let list = text::join(&names, ", ");
                let mut r = text::concat("unsupported two factor methods: [", list.as_str());
                r.append("]");
                r
            },
            Failure::ParseBaseUrl => "failed to parse base url".to_owned(),
            Failure::MissingEmail => "failed to find email address in config".to_owned(),
            Failure::ReadClientId => "failed to read client_id from pinentry".to_owned(),
            Failure::ReadClientSecret => "failed to read client_secret from pinentry".to_owned(),
            Failure::ReadPassword => "failed to read password from pinentry".to_owned(),
            Failure::ReadCode => "failed to read code from pinentry".to_owned(),
            Failure::CodeNotUtf8 => "code was not valid utf8".to_owned(),
            Failure::LogIn => "failed to log in to bitwarden instance".to_owned(),
            Failure::MissingKdf => "failed to find kdf type in db".to_owned(),
            Failure::MissingIterations => "failed to find number of iterations in db".to_owned(),
            Failure::MissingProtectedKey => "failed to find protected key in db".to_owned(),
            Failure::MissingProtectedPrivateKey => "failed to find protected private key in db".to_owned(),
            Failure::UnlockDatabase => "failed to unlock database".to_owned(),
            Failure::UnlockInvalidatedBeforePrompt => "unlock invalidated before prompting".to_owned(),
            Failure::UnlockInvalidated => "unlock invalidated".to_owned(),
            Failure::ConfirmationNeedsGuiPinentry => "SSH signature confirmation requires a configured GUI pinentry".to_owned(),
            Failure::SshAuthorizationInvalidatedBeforePrompt => "SSH authorization invalidated before prompting".to_owned(),
            Failure::SshAuthorizationInvalidated => "SSH authorization invalidated".to_owned(),
            Failure::PinentryTimedOut => "pinentry transaction timed out".to_owned(),
            Failure::AgentLocked => "agent is locked".to_owned(),
            Failure::MissingAccessToken => "failed to find access token in db".to_owned(),
            Failure::MissingRefreshToken => "failed to find refresh token in db".to_owned(),
            Failure::Sync => "failed to sync database from server".to_owned(),
            Failure::ParseItemKey => "failed to parse individual item encryption key".to_owned(),
            Failure::DecryptItemKey => "failed to decrypt individual item encryption key".to_owned(),
            Failure::ParseSecret => "failed to parse encrypted secret".to_owned(),
            Failure::DecryptSecret => "failed to decrypt encrypted secret".to_owned(),
            Failure::SecretNotUtf8 => "failed to parse decrypted secret".to_owned(),
            Failure::EncryptSecret => "failed to encrypt plaintext secret".to_owned(),
            Failure::EntryAccessInvalidatedBeforePrompt => "entry access invalidated before prompting".to_owned(),
            Failure::EntryAccessInvalidated => "entry access invalidated".to_owned(),
            Failure::ConfigMissing => "Config is missing".to_owned(),
            Failure::RepromptNeedsPinentry => "SSH key requires a master-password re-prompt; configure ssh_agent_pinentry".to_owned(),
            Failure::MissingDecryptionKeys => "failed to find decryption keys in in-memory state".to_owned(),
            Failure::MissingEncryptionKeys => "failed to find encryption keys in in-memory state".to_owned(),
            Failure::ConfigMissingEmail => "Config is missing email".to_owned(),
            Failure::NotificationsNeedAccessToken => "Error getting access token".to_owned(),
            Failure::ParsePublicKey => "failed to parse SSH public key".to_owned(),
            Failure::SerializePublicKey => "failed to serialize SSH public key".to_owned(),
            Failure::MissingPublicKeyDecryptionKeys => "failed to find SSH public key decryption keys".to_owned(),
            Failure::RefreshWhileLocked => "cannot refresh SSH public key cache while agent is locked".to_owned(),
            Failure::MissingPublicKeyCache => "SSH public-key cache is missing; run `rbw unlock` or configure ssh_agent_pinentry".to_owned(),
            Failure::VaultLocked => "Vault is locked; run `rbw unlock` or configure ssh_agent_pinentry".to_owned(),
            Failure::MissingPrivateKey => "Matching entry has no private key".to_owned(),
            Failure::NoMatchingKey => "No matching private key found".to_owned(),
            Failure::ScanMissingEmail => "failed to find email in config".to_owned(),
            Failure::ScanLoadDb => "failed to load db".to_owned(),
            Failure::ScanMissingIterations => "failed to find kdf iterations".to_owned(),
            Failure::ScanMissingProtectedKey => "missing protected_key".to_owned(),
            Failure::ScanMissingProtectedPrivateKey => "missing protected_private_key".to_owned(),
        }
    }
}

/// A database that cannot be unlocked is described by what it lacks.
pub proof fn law_incomplete_database_is_described()
    ensures
        Failure::MissingKdf.spec_message() == "failed to find kdf type in db"@,
        Failure::MissingIterations.spec_message() == "failed to find number of iterations in db"@,
        Failure::MissingProtectedKey.spec_message() == "failed to find protected key in db"@,
        Failure::MissingProtectedPrivateKey.spec_message()
            == "failed to find protected private key in db"@,
        Failure::MissingAccessToken.spec_message() == "failed to find access token in db"@,
        Failure::MissingRefreshToken.spec_message() == "failed to find refresh token in db"@,
{
}

/// The error of a request, with `E` for what comes from outside the agent.
#[derive(Debug)]
pub enum Error<E> {
    /// The agent itself refused the request.
    Refused(Failure),
    /// The server or the vault rejected the password, with its own message.
    IncorrectPassword(Failure, String),
    /// An outside step failed, and the failure says which.
    Caused(Failure, E),
    /// An outside step failed, and its error is handed on as it is.
    Forwarded(E),
    /// A computation failed, with the text of its cause.
    Explained(Failure, String),
    /// A computation failed, and the text of its error is handed on as it is.
    Plain(String),
}

/// What a server or the vault says to a password.
#[derive(Debug)]
pub enum Reply<T, E> {
    Accepted(T),
    IncorrectPassword(String),
    Failed(E),
}

/// Trouble that is reported and then passed over.
#[derive(Debug, Clone, Copy, PartialEq, Eq, Structural)]
pub enum Warning {
    RefreshPublicKeyCache,
    RemoveStalePublicKeyCache,
    LoadPublicKeyCache,
    RemoveInvalidPublicKeyCache,
    Subscribe,
}

impl Warning {
    /// The text that comes before the error.
    pub open spec fn spec_text(self) -> Seq<char> {
        match self {
            Warning::RefreshPublicKeyCache => "failed to refresh SSH public key cache"@,
            Warning::RemoveStalePublicKeyCache => "failed to remove stale SSH public key cache"@,
            Warning::LoadPublicKeyCache => "failed to load SSH public key cache, rebuilding"@,
            Warning::RemoveInvalidPublicKeyCache => {
                "failed to remove invalid SSH public key cache"@
            },
            Warning::Subscribe => "failed to subscribe to notifications"@,
        }
    }

    pub fn text(self) -> (r: String)
        ensures
            r@ == self.spec_text(),
    {
        match self {
            Warning::RefreshPublicKeyCache => "failed to refresh SSH public key cache".to_owned(),
            Warning::RemoveStalePublicKeyCache => {
                "failed to remove stale SSH public key cache".to_owned()
            },
            Warning::LoadPublicKeyCache => {
                "failed to load SSH public key cache, rebuilding".to_owned()
            },
            Warning::RemoveInvalidPublicKeyCache => {
                "failed to remove invalid SSH public key cache".to_owned()
            },
            Warning::Subscribe => "failed to subscribe to notifications".to_owned(),
        }
    }

    /// Whether the error is reported with its causes, or by its own message
    /// alone.
    pub fn shows_causes(self) -> (r: bool)
        ensures
            r == (self != Warning::Subscribe),
    {
        match self {
            Warning::Subscribe => false,
            _ => true,
        }
    }
}

} // verus!
