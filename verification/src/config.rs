//! The configuration of the agent.
use vstd::prelude::*;
use crate::text;
use crate::unicode;

verus! {

/// When the SSH agent asks for the master password before it signs.
#[derive(Debug, Clone, Copy, PartialEq, Eq, Structural)]
pub enum SshAgentConfirmation {
    Always,
    Never,
}

impl Default for SshAgentConfirmation {
    fn default() -> (r: Self)
        ensures
            r == SshAgentConfirmation::Always,
    {
        SshAgentConfirmation::Always
    }
}

/// The settings of the agent, as read from its configuration file.
#[derive(Debug)]
pub struct Config {
    pub email: Option<String>,
    pub sso_id: Option<String>,
    pub base_url: Option<String>,
    pub identity_url: Option<String>,
    pub ui_url: Option<String>,
    pub notifications_url: Option<String>,
    /// Seconds without use after which the agent locks itself.
    pub lock_timeout: u64,
    /// Seconds between two synchronisations with the server.
    pub sync_interval: u64,
    pub pinentry: String,
    pub ssh_agent_confirmation: SshAgentConfirmation,
    pub ssh_agent_pinentry: Option<String>,
    /// The path of the client certificate, as text.
    pub client_cert_path: Option<String>,
    /// Only found in old configuration files.
    pub device_id: Option<String>,
}

/// What is wrong with a configuration.
#[derive(Debug, Clone, Copy, PartialEq, Eq)]
pub enum ConfigError<E> {
    /// It could not be loaded.
    Load(E),
    MissingEmail,
}

/// The lock timeout of a configuration that sets none, in seconds.
pub const DEFAULT_LOCK_TIMEOUT: u64 = 3600;

/// The synchronisation interval of a configuration that sets none, in seconds.
pub const DEFAULT_SYNC_INTERVAL: u64 = 3600;

pub fn default_lock_timeout() -> (r: u64)
    ensures
        r == DEFAULT_LOCK_TIMEOUT,
{
    DEFAULT_LOCK_TIMEOUT
}

pub fn default_sync_interval() -> (r: u64)
    ensures
        r == DEFAULT_SYNC_INTERVAL,
{
    DEFAULT_SYNC_INTERVAL
}

pub fn default_pinentry() -> (r: String)
    ensures
        r@ == "pinentry"@,
{
    "pinentry".to_owned()
}

/// The API address of the European server.
pub open spec fn eu_api_url() -> Seq<char> {
    "https://api.bitwarden.eu"@
}

/// The address of a service. Without a base address it is `default_url`; for
/// the European server it is `eu_url`; otherwise it is the base address, less
/// its trailing slashes, followed by `suffix`.
pub open spec fn service_url(
    base_url: Option<Seq<char>>,
    default_url: Seq<char>,
    eu_url: Seq<char>,
    suffix: Seq<char>,
) -> Seq<char> {
    match base_url {
        None => default_url,
        Some(url) => if text::trimmed_end(url, '/') == eu_api_url() {
            eu_url
        } else {
            text::trimmed_end(url, '/') + suffix
        },
    }
}

/// Computes [`service_url`].
fn derive_url(base_url: &Option<String>, default_url: &str, eu_url: &str, suffix: &str) -> (r:
    String)
    ensures
        r@ == service_url(base_url.deep_view(), default_url@, eu_url@, suffix@),
{
    match base_url {
        None => default_url.to_owned(),
        Some(url) => {
            let clean_url = text::trim_end_char(url.as_str(), '/');
            if text::same(clean_url.as_str(), "https://api.bitwarden.eu") {
                eu_url.to_owned()
            } else {
                text::concat(clean_url.as_str(), suffix)
            }
        },
    }
}

impl Default for Config {
    fn default() -> (r: Self)
        ensures
            r.is_default(),
    {
        Config {
            email: None,
            sso_id: None,
            base_url: None,
            identity_url: None,
            ui_url: None,
            notifications_url: None,
            lock_timeout: default_lock_timeout(),
            sync_interval: default_sync_interval(),
            pinentry: default_pinentry(),
            ssh_agent_confirmation: SshAgentConfirmation::default(),
            ssh_agent_pinentry: None,
            client_cert_path: None,
            device_id: None,
        }
    }
}

impl Config {
    /// Whether every setting has its default.
    pub open spec fn is_default(&self) -> bool {
        &&& self.email is None
        &&& self.sso_id is None
        &&& self.base_url is None
        &&& self.identity_url is None
        &&& self.ui_url is None
        &&& self.notifications_url is None
        &&& self.lock_timeout == DEFAULT_LOCK_TIMEOUT
        &&& self.sync_interval == DEFAULT_SYNC_INTERVAL
        &&& self.pinentry@ == "pinentry"@
        &&& self.ssh_agent_confirmation == SshAgentConfirmation::Always
        &&& self.ssh_agent_pinentry is None
        &&& self.client_cert_path is None
        &&& self.device_id is None
    }

    pub fn new() -> (r: Self)
        ensures
            r.is_default(),
    {
        Self::default()
    }

    /// The settings after loading a file with the given ones.
    pub open spec fn loaded(self) -> Config {
        Config {
            lock_timeout: if self.lock_timeout == 0 {
                DEFAULT_LOCK_TIMEOUT
            } else {
                self.lock_timeout
            },
            ..self
        }
    }

    /// The settings that are written to the file: all but the identifier of the
    /// device, which has a file of its own.
    pub open spec fn saved(self) -> Config {
        Config { device_id: None, ..self }
    }

    /// Completes a configuration that was parsed from its file: a lock timeout
    /// of zero is not allowed and becomes the default. The second result tells
    /// whether that happened.
    pub fn load(parsed: Config) -> (r: (Config, bool))
        ensures
            r.0.lock_timeout > 0,
            r.1 == (parsed.lock_timeout == 0),
            r.0 == parsed.loaded(),
    {
        let mut slf = parsed;
        if slf.lock_timeout == 0 {
            slf.lock_timeout = default_lock_timeout();
            (slf, true)
        } else {
            (slf, false)
        }
    }

    /// The settings as they are written to the file.
    pub fn save(&self) -> (r: Config)
        ensures
            r == self.saved(),
    {
        Config {
            email: self.email.clone(),
            sso_id: self.sso_id.clone(),
            base_url: self.base_url.clone(),
            identity_url: self.identity_url.clone(),
            ui_url: self.ui_url.clone(),
            notifications_url: self.notifications_url.clone(),
            lock_timeout: self.lock_timeout,
            sync_interval: self.sync_interval,
            pinentry: self.pinentry.clone(),
            ssh_agent_confirmation: self.ssh_agent_confirmation,
            ssh_agent_pinentry: self.ssh_agent_pinentry.clone(),
            client_cert_path: self.client_cert_path.clone(),
            device_id: None,
        }
    }

    /// A configuration is usable once it can be loaded and names an account.
    /// `loaded` is what came of loading it.
    pub fn validate<E>(loaded: Result<Config, E>) -> (r: Result<(), ConfigError<E>>)
        ensures
            r == match loaded {
                Err(error) => Err(ConfigError::Load(error)),
                Ok(config) => if config.email is None {
                    Err(ConfigError::MissingEmail)
                } else {
                    Ok(())
                },
            },
    {
        let config = match loaded {
            Ok(config) => config,
            Err(error) => return Err(ConfigError::Load(error)),
        };
        if config.email.is_none() {
            return Err(ConfigError::MissingEmail);
        }
        Ok(())
    }

    /// The address of the API, as [`Config::base_url`] gives it.
    pub open spec fn api_address(&self) -> Seq<char> {
        service_url(
            self.base_url.deep_view(),
            "https://api.bitwarden.com"@,
            "https://api.bitwarden.eu"@,
            "/api"@,
        )
    }

    pub fn base_url(&self) -> (r: String)
        ensures
            r@ == self.api_address(),
    {
        derive_url(
            &self.base_url,
            "https://api.bitwarden.com",
            "https://api.bitwarden.eu",
            "/api",
        )
    }

    /// The address of the identity service, as [`Config::identity_url`] gives
    /// it.
    pub open spec fn identity_address(&self) -> Seq<char> {
        match self.identity_url.deep_view() {
            Some(url) => url,
            None => service_url(
                self.base_url.deep_view(),
                "https://identity.bitwarden.com"@,
                "https://identity.bitwarden.eu"@,
                "/identity"@,
            ),
        }
    }

    pub fn identity_url(&self) -> (r: String)
        ensures
            r@ == self.identity_address(),
    {
        match &self.identity_url {
            Some(url) => url.clone(),
            None => derive_url(
                &self.base_url,
                "https://identity.bitwarden.com",
                "https://identity.bitwarden.eu",
                "/identity",
            ),
        }
    }

    /// The address of the web vault, as [`Config::ui_url`] gives it.
    pub open spec fn ui_address(&self) -> Seq<char> {
        match self.ui_url.deep_view() {
            Some(url) => url,
            None => service_url(
                self.base_url.deep_view(),
                "https://vault.bitwarden.com"@,
                "https://vault.bitwarden.eu"@,
                Seq::empty(),
            ),
        }
    }

    pub fn ui_url(&self) -> (r: String)
        ensures
            r@ == self.ui_address(),
    {
        match &self.ui_url {
            Some(url) => url.clone(),
            None => {
                proof {
                    reveal_strlit("");
                    assert(""@ =~= Seq::empty());
                }
                derive_url(
                    &self.base_url,
                    "https://vault.bitwarden.com",
                    "https://vault.bitwarden.eu",
                    "",
                )
            },
        }
    }

    /// The address of the notification hub, as [`Config::notifications_url`]
    /// gives it.
    pub open spec fn notifications_address(&self) -> Seq<char> {
        match self.notifications_url.deep_view() {
            Some(url) => url,
            None => service_url(
                self.base_url.deep_view(),
                "https://notifications.bitwarden.com"@,
                "https://notifications.bitwarden.eu"@,
                "/notifications"@,
            ),
        }
    }

    pub fn notifications_url(&self) -> (r: String)
        ensures
            r@ == self.notifications_address(),
    {
        match &self.notifications_url {
            Some(url) => url.clone(),
            None => derive_url(
                &self.base_url,
                "https://notifications.bitwarden.com",
                "https://notifications.bitwarden.eu",
                "/notifications",
            ),
        }
    }

    pub fn client_cert_path(&self) -> (r: Option<&str>)
        ensures
            r.deep_view() == self.client_cert_path.deep_view(),
    {
        match &self.client_cert_path {
            Some(path) => Some(path.as_str()),
            None => None,
        }
    }

    /// The name under which the data of this server is kept.
    pub open spec fn server(&self) -> Seq<char> {
        match self.base_url.deep_view() {
            Some(url) => url,
            None => "default"@,
        }
    }

    pub fn server_name(&self) -> (r: String)
        ensures
            r@ == self.server(),
    {
        match &self.base_url {
            Some(url) => url.clone(),
            None => "default".to_owned(),
        }
    }
}

/// Whether `s` is a random UUID in its hyphenated form: lower-case hexadecimal
/// digits in groups of eight, four, four, four and twelve, of version four.
pub open spec fn is_random_uuid(s: Seq<char>) -> bool {
    &&& s.len() == 36
    &&& forall|i: int|
        0 <= i < 36 ==> if i == 8 || i == 13 || i == 18 || i == 23 {
            #[trigger] s[i] == '-'
        } else {
            '0' <= s[i] <= '9' || 'a' <= s[i] <= 'f'
        }
    &&& s[14] == '4'
    &&& (s[19] == '8' || s[19] == '9' || s[19] == 'a' || s[19] == 'b')
}

/// `uuid::Uuid::new_v4` makes a random UUID of version four, which
/// `hyphenated` and `to_string` write in its usual form. Which one is left to
/// chance.
#[verifier::external_body]
fn random_uuid() -> (id: String)
    ensures
        is_random_uuid(id@),
{
    uuid::Uuid::new_v4().hyphenated().to_string()
}

/// The identifier of this device, and whether it has yet to be stored.
pub struct DeviceId {
    pub id: String,
    pub is_new: bool,
}

/// Whether `r` is the identifier of this device.
pub open spec fn identifies(config: Config, stored: Option<Seq<char>>, r: DeviceId) -> bool {
    &&& r.is_new == (stored is None)
    &&& match stored {
        Some(contents) => r.id@ == unicode::trimmed(contents),
        None => match config.device_id.deep_view() {
            Some(id) => r.id@ == id,
            None => is_random_uuid(r.id@),
        },
    }
}

/// Finds the identifier of this device. `stored` is the text of the file that
/// keeps it, where there is one. Otherwise the identifier comes from an old
/// configuration, or is made at random.
pub fn device_id(config: &Config, stored: Option<&str>) -> (r: DeviceId)
    ensures
        identifies(*config, stored.deep_view(), r),
{
    match stored {
        Some(contents) => DeviceId { id: unicode::trim(contents), is_new: false },
        None => {
            let id = match &config.device_id {
                Some(id) => id.clone(),
                None => random_uuid(),
            };
            DeviceId { id, is_new: true }
        },
    }
}

/// Settings that were saved are loaded again as they were, but for the identifier
/// of the device, which is gone, and for a lock timeout of zero, which becomes
/// the default. Saving and loading once more then changes nothing.
pub proof fn law_saved_settings_are_loaded(config: Config)
    ensures
        config.saved().loaded() == (Config {
            lock_timeout: if config.lock_timeout == 0 {
                DEFAULT_LOCK_TIMEOUT
            } else {
                config.lock_timeout
            },
            device_id: None,
            ..config
        }),
        config.saved().loaded().saved().loaded() == config.saved().loaded(),
{
}

/// An identifier that was stored is read back as it was, if it was made at random
/// or at least neither starts nor ends in whitespace.
pub proof fn law_device_id_is_read_back(id: Seq<char>)
    requires
        is_random_uuid(id) || (id.len() > 0 ==> !unicode::unicode_whitespace(id[0])
            && !unicode::unicode_whitespace(id.last())),
    ensures
        unicode::trimmed(id) == id,
{
    if is_random_uuid(id) {
        assert(id[0] == id[0] && id[35] == id[35]);
    }
    unicode::lemma_trimmed_unchanged(id);
}

/// A device keeps its identifier: once one was found and stored, it is found again
/// whatever the configuration says, and need not be stored again. The first one is
/// that of an old configuration where there is one. (One that starts or ends in
/// whitespace is not read back as it was.)
pub proof fn law_device_keeps_its_identifier(
    config: Config,
    later_config: Config,
    first: DeviceId,
    again: DeviceId,
)
    requires
        identifies(config, None, first),
        identifies(later_config, Some(first.id@), again),
        first.id@.len() > 0 ==> !unicode::unicode_whitespace(first.id@[0])
            && !unicode::unicode_whitespace(first.id@.last()),
    ensures
        first.is_new,
        !again.is_new,
        again.id@ == first.id@,
        config.device_id.deep_view() matches Some(old) ==> first.id@ == old,
        config.device_id is None ==> is_random_uuid(first.id@),
{
    law_device_id_is_read_back(first.id@);
}

/// A stored identifier is found without the whitespace around it.
pub proof fn law_stored_identifier_is_trimmed(
    config: Config,
    contents: Seq<char>,
    r: DeviceId,
) -> (span: (int, int))
    requires
        identifies(config, Some(contents), r),
    ensures
        0 <= span.0 <= span.1 <= contents.len(),
        r.id@ == contents.subrange(span.0, span.1),
        span.0 < span.1 ==> !unicode::unicode_whitespace(contents[span.0])
            && !unicode::unicode_whitespace(contents[span.1 - 1]),
        forall|i: int|
            0 <= i < span.0 || span.1 <= i < contents.len() ==> unicode::unicode_whitespace(
                #[trigger] contents[i],
            ),
{
    crate::text_laws::law_trimmed_takes_whitespace_only(contents)
}

/// Without a base address the services are those of the public server, and its
/// data is kept under `default`.
pub proof fn law_public_server_without_a_base_address(config: Config)
    requires
        config.base_url is None,
    ensures
        config.server() == "default"@,
        config.api_address() == "https://api.bitwarden.com"@,
        config.identity_url is None ==> config.identity_address()
            == "https://identity.bitwarden.com"@,
        config.ui_url is None ==> config.ui_address() == "https://vault.bitwarden.com"@,
        config.notifications_url is None ==> config.notifications_address()
            == "https://notifications.bitwarden.com"@,
{
}

/// With the base address of the European server, however many slashes it ends
/// in, the services are those of that server.
pub proof fn law_european_server(config: Config, slashes: nat)
    requires
        config.base_url.deep_view() == Some(
            "https://api.bitwarden.eu"@ + Seq::new(slashes, |i: int| '/'),
        ),
    ensures
        config.api_address() == "https://api.bitwarden.eu"@,
        config.identity_url is None ==> config.identity_address()
            == "https://identity.bitwarden.eu"@,
        config.ui_url is None ==> config.ui_address() == "https://vault.bitwarden.eu"@,
        config.notifications_url is None ==> config.notifications_address()
            == "https://notifications.bitwarden.eu"@,
{
    reveal_strlit("https://api.bitwarden.eu");
    lemma_slashes_are_trimmed("https://api.bitwarden.eu"@, slashes);
}

/// With any other base address, however many slashes it ends in, the services
/// stand under that address, and its data is kept under the address as it was
/// given.
pub proof fn law_own_server(config: Config, url: Seq<char>, slashes: nat)
    requires
        url.len() > 0 ==> url.last() != '/',
        url != "https://api.bitwarden.eu"@,
        config.base_url.deep_view() == Some(url + Seq::new(slashes, |i: int| '/')),
    ensures
        config.server() == url + Seq::new(slashes, |i: int| '/'),
        config.api_address() == url + "/api"@,
        config.identity_url is None ==> config.identity_address() == url + "/identity"@,
        config.ui_url is None ==> config.ui_address() == url,
        config.notifications_url is None ==> config.notifications_address() == url
            + "/notifications"@,
{
    lemma_slashes_are_trimmed(url, slashes);
    assert(url + Seq::<char>::empty() =~= url);
}

/// An address that is set for a service alone is used as it is, whatever the base
/// address.
pub proof fn law_set_address_is_used(config: Config)
    ensures
        config.identity_url.deep_view() matches Some(url) ==> config.identity_address() == url,
        config.ui_url.deep_view() matches Some(url) ==> config.ui_address() == url,
        config.notifications_url.deep_view() matches Some(url) ==> config.notifications_address()
            == url,
{
}

proof fn lemma_slashes_are_trimmed(url: Seq<char>, slashes: nat)
    requires
        url.len() > 0 ==> url.last() != '/',
    ensures
        text::trimmed_end(url + Seq::new(slashes, |i: int| '/'), '/') == url,
    decreases slashes,
{
    let longer = url + Seq::new(slashes, |i: int| '/');
    if slashes == 0 {
        assert(longer =~= url);
    } else {
        let shorter = url + Seq::new((slashes - 1) as nat, |i: int| '/');
        lemma_slashes_are_trimmed(url, (slashes - 1) as nat);
        assert(longer.drop_last() =~= shorter);
        assert(longer.last() == '/');
    }
}

/// A configuration without any setting asks before each signature, locks and
/// synchronises once an hour, shows dialogues with `pinentry`, and names no
/// account.
pub proof fn law_defaults(config: Config)
    requires
        config.is_default(),
    ensures
        config.ssh_agent_confirmation == SshAgentConfirmation::Always,
        config.ssh_agent_pinentry is None,
        config.lock_timeout == 3600,
        config.sync_interval == 3600,
        config.pinentry@ == "pinentry"@,
        config.email is None,
        config.base_url is None,
        config.identity_url is None,
        config.ui_url is None,
        config.notifications_url is None,
        config.client_cert_path is None,
        config.device_id is None,
        config.sso_id is None,
{
}

/// Slashes at the end of the base address change no service address.
pub proof fn law_trailing_slash_is_ignored(
    base_url: Seq<char>,
    default_url: Seq<char>,
    eu_url: Seq<char>,
    suffix: Seq<char>,
)
    ensures
        service_url(Some(base_url.push('/')), default_url, eu_url, suffix) == service_url(
            Some(base_url),
            default_url,
            eu_url,
            suffix,
        ),
{
    text::lemma_trimmed_end_push(base_url, '/');
}

} // verus!
