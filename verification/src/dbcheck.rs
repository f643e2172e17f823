//! A scan of the vault for entries that cannot be decrypted.
use vstd::prelude::*;
use vstd::string::StringExecFns;
use crate::config::Config;
use crate::db::{keys_for, Db, Entry, EntryData, OrgKeys, Secrets};
use crate::error::{Error, Failure};
use crate::prompt::{Prompt, PromptView};
use crate::text;
use crate::unicode;

verus! {

/// The dialogue before a scan.
pub open spec fn scan_prompt() -> PromptView {
    PromptView {
        title: "Master Password"@,
        description: "Scan vault for corrupt entries"@,
        error: None,
        grab: true,
    }
}

/// What has to be done before the entries can be scanned.
#[derive(Debug)]
pub enum PrepareScan<T, O, P, K, E> {
    LoadConfig,
    LoadDb { server: String, email: String, pinentry: String },
    AskPassword { db: Db<T, O, Vec<Entry>>, email: String, pinentry: String, prompt: Prompt },
    Unlock { email: String, password: P, secrets: Secrets<T, O>, entries: Vec<Entry> },
    Done(Result<(K, OrgKeys<K>, Vec<Entry>), Error<E>>),
}

#[derive(Debug)]
pub enum PrepareScanEvent<T, O, P, K, E> {
    ConfigLoaded(Result<Config, E>),
    DbLoaded(Result<Db<T, O, Vec<Entry>>, E>),
    Answered(Result<P, E>),
    Unlocked(Result<(K, OrgKeys<K>), E>),
}

/// The first thing missing in the database that a scan needs.
pub open spec fn scan_lacks<T, O, N>(db: Db<T, O, N>) -> Option<Failure> {
    if db.kdf is None {
        Some(Failure::MissingKdf)
    } else if db.iterations is None {
        Some(Failure::ScanMissingIterations)
    } else if db.protected_key is None {
        Some(Failure::ScanMissingProtectedKey)
    } else if db.protected_private_key is None {
        Some(Failure::ScanMissingProtectedPrivateKey)
    } else {
        None
    }
}

impl<T, O, P, K, E> PrepareScan<T, O, P, K, E> {
    /// Where an event leads. One that the state does not wait for changes
    /// nothing.
    pub open spec fn steps_to(self, event: PrepareScanEvent<T, O, P, K, E>, after: Self) -> bool {
        match (self, event) {
            (PrepareScan::LoadConfig, PrepareScanEvent::ConfigLoaded(result)) => match result {
                Ok(config) => match config.email {
                    Some(address) => {
                        &&& after matches PrepareScan::LoadDb { server, email, pinentry }
                        &&& server@ == config.server()
                        &&& email == address
                        &&& pinentry == config.pinentry
                    },
                    None => after == Self::Done(Err(Error::Refused(Failure::ScanMissingEmail))),
                },
                Err(error) => after == Self::Done(Err(Error::Forwarded(error))),
            },
            (
                PrepareScan::LoadDb { email: m, pinentry: p, .. },
                PrepareScanEvent::DbLoaded(result),
            ) => match result {
                Ok(d) => {
                    &&& after matches PrepareScan::AskPassword { db, email, pinentry, prompt }
                    &&& db == d
                    &&& email == m
                    &&& pinentry == p
                    &&& prompt@ == scan_prompt()
                },
                Err(error) => after == Self::Done(Err(Error::Caused(Failure::ScanLoadDb, error))),
            },
            (PrepareScan::AskPassword { db, email, .. }, PrepareScanEvent::Answered(result)) => {
                after == match result {
                    Ok(password) => match scan_lacks(db) {
                        Some(failure) => Self::Done(Err(Error::Refused(failure))),
                        None => Self::Unlock {
                            email,
                            password,
                            secrets: db.spec_secrets(),
                            entries: db.entries,
                        },
                    },
                    Err(error) => Self::Done(Err(Error::Forwarded(error))),
                }
            },
            (PrepareScan::Unlock { entries, .. }, PrepareScanEvent::Unlocked(result)) => {
                after == Self::Done(
                    match result {
                        Ok((keys, org_keys)) => Ok((keys, org_keys, entries)),
                        Err(error) => Err(Error::Forwarded(error)),
                    },
                )
            },
            _ => after == self,
        }
    }
}

fn scan_secrets<T, O>(db: Db<T, O, Vec<Entry>>) -> (r: Result<
    (Secrets<T, O>, Vec<Entry>),
    Failure,
>)
    ensures
        r == match scan_lacks(db) {
            Some(failure) => Err(failure),
            None => Ok((db.spec_secrets(), db.entries)),
        },
{
    let kdf = match db.kdf {
        Some(kdf) => kdf,
        None => return Err(Failure::MissingKdf),
    };
    let iterations: u32 = match db.iterations {
        Some(iterations) => iterations,
        None => return Err(Failure::ScanMissingIterations),
    };
    let protected_key = match db.protected_key {
        Some(key) => key,
        None => return Err(Failure::ScanMissingProtectedKey),
    };
    let protected_private_key = match db.protected_private_key {
        Some(key) => key,
        None => return Err(Failure::ScanMissingProtectedPrivateKey),
    };
    let secrets = Secrets {
        kdf,
        iterations,
        memory: db.memory,
        parallelism: db.parallelism,
        protected_key,
        protected_private_key,
        protected_org_keys: db.protected_org_keys,
    };
    Ok((secrets, db.entries))
}

/// Moves the preparation of a scan on.
pub fn prepare_scan<T, O, P, K, E>(
    state: PrepareScan<T, O, P, K, E>,
    event: PrepareScanEvent<T, O, P, K, E>,
) -> (after: PrepareScan<T, O, P, K, E>)
    ensures
        state.steps_to(event, after),
{
    match (state, event) {
        (PrepareScan::LoadConfig, PrepareScanEvent::ConfigLoaded(result)) => match result {
            Ok(config) => {
                let server = config.server_name();
                match config.email {
                    Some(email) => PrepareScan::LoadDb { server, email, pinentry: config.pinentry },
                    None => PrepareScan::Done(Err(Error::Refused(Failure::ScanMissingEmail))),
                }
            },
            Err(error) => PrepareScan::Done(Err(Error::Forwarded(error))),
        },
        (
            PrepareScan::LoadDb { email, pinentry, .. },
            PrepareScanEvent::DbLoaded(result),
        ) => match result {
            Ok(db) => {
                let prompt = Prompt {
                    title: "Master Password".to_owned(),
                    description: "Scan vault for corrupt entries".to_owned(),
                    error: None,
                    grab: true,
                };
                PrepareScan::AskPassword { db, email, pinentry, prompt }
            },
            Err(error) => PrepareScan::Done(Err(Error::Caused(Failure::ScanLoadDb, error))),
        },
        (PrepareScan::AskPassword { db, email, .. }, PrepareScanEvent::Answered(result)) => {
            match result {
                Ok(password) => match scan_secrets(db) {
                    Ok((secrets, entries)) => PrepareScan::Unlock {
                        email,
                        password,
                        secrets,
                        entries,
                    },
                    Err(failure) => PrepareScan::Done(Err(Error::Refused(failure))),
                },
                Err(error) => PrepareScan::Done(Err(Error::Forwarded(error))),
            }
        },
        (PrepareScan::Unlock { entries, .. }, PrepareScanEvent::Unlocked(result)) => match result {
            Ok((keys, org_keys)) => PrepareScan::Done(Ok((keys, org_keys, entries))),
            Err(error) => PrepareScan::Done(Err(Error::Forwarded(error))),
        },
        (state, _) => state,
    }
}

/// The keys that open an entry, where there are some.
pub fn base_keys<'a, K>(entry: &Entry, keys: &'a K, org_keys: &'a OrgKeys<K>) -> (r: Option<&'a K>)
    ensures
        match r {
            Some(found) => Some(*found),
            None => None,
        } == keys_for(Some(*keys), Some(org_keys@), entry.org_id.deep_view()),
{
    match &entry.org_id {
        None => Some(keys),
        Some(org_id) => org_keys.get(org_id.as_str()),
    }
}

/// The decrypted parts of an entry, with `None` for one that it does not have or
/// that could not be decrypted.
#[derive(Debug)]
pub struct Fields {
    pub name: Option<Vec<u8>>,
    pub username: Option<Vec<u8>>,
    pub password: Option<Vec<u8>>,
    pub notes: Option<Vec<u8>>,
}

/// What came of opening an entry.
#[derive(Debug)]
pub enum Access {
    /// There are no keys for its organisation.
    NoKeys,
    /// Its own key could not be decrypted, with the message of the error.
    NoItemKey(String),
    Opened(Fields),
}

/// An entry with what came of opening it.
#[derive(Debug)]
pub struct Opened {
    pub entry: Entry,
    pub access: Access,
}

/// A part of an entry.
#[derive(Debug, Clone, Copy, PartialEq, Eq, Structural)]
pub enum Part {
    Name,
    Username,
    Password,
    Notes,
}

impl Part {
    /// The number of the part, counted from zero.
    pub open spec fn position(self) -> int {
        match self {
            Part::Name => 0,
            Part::Username => 1,
            Part::Password => 2,
            Part::Notes => 3,
        }
    }

    /// The part after this one.
    pub open spec fn following(self) -> Option<Part> {
        match self {
            Part::Name => Some(Part::Username),
            Part::Username => Some(Part::Password),
            Part::Password => Some(Part::Notes),
            Part::Notes => None,
        }
    }

    fn next(self) -> (r: Option<Part>)
        ensures
            r == self.following(),
    {
        match self {
            Part::Name => Some(Part::Username),
            Part::Username => Some(Part::Password),
            Part::Password => Some(Part::Notes),
            Part::Notes => None,
        }
    }
}

/// The encrypted text of a part, where the entry has it.
pub open spec fn sealed_part(entry: Entry, part: Part) -> Option<String> {
    match part {
        Part::Name => Some(entry.name),
        Part::Username => match entry.data {
            EntryData::Login { username, .. } => username,
            _ => None,
        },
        Part::Password => match entry.data {
            EntryData::Login { password, .. } => password,
            _ => None,
        },
        Part::Notes => entry.notes,
    }
}

fn copy_part(entry: &Entry, part: Part) -> (r: Option<String>)
    ensures
        r == sealed_part(*entry, part),
{
    match part {
        Part::Name => Some(entry.name.clone()),
        Part::Username => match &entry.data {
            EntryData::Login { username, .. } => username.clone(),
            _ => None,
        },
        Part::Password => match &entry.data {
            EntryData::Login { password, .. } => password.clone(),
            _ => None,
        },
        Part::Notes => entry.notes.clone(),
    }
}

impl Fields {
    /// No part at all.
    pub open spec fn none() -> Self {
        Fields { name: None, username: None, password: None, notes: None }
    }

    /// What came of decrypting a part.
    pub open spec fn part(self, part: Part) -> Option<Vec<u8>> {
        match part {
            Part::Name => self.name,
            Part::Username => self.username,
            Part::Password => self.password,
            Part::Notes => self.notes,
        }
    }

    /// The same with what came of decrypting a part.
    pub open spec fn with_part(self, part: Part, bytes: Option<Vec<u8>>) -> Self {
        match part {
            Part::Name => Fields { name: bytes, ..self },
            Part::Username => Fields { username: bytes, ..self },
            Part::Password => Fields { password: bytes, ..self },
            Part::Notes => Fields { notes: bytes, ..self },
        }
    }

    fn set_part(self, part: Part, bytes: Option<Vec<u8>>) -> (r: Self)
        ensures
            r == self.with_part(part, bytes),
    {
        let mut fields = self;
        match part {
            Part::Name => {
                fields.name = bytes;
            },
            Part::Username => {
                fields.username = bytes;
            },
            Part::Password => {
                fields.password = bytes;
            },
            Part::Notes => {
                fields.notes = bytes;
            },
        }
        fields
    }
}

/// The opening of an entry. Parsing and decrypting a text is outside work.
#[derive(Debug)]
pub enum OpenEntry<K> {
    /// Decrypts the key of the entry with `keys`.
    OpenItemKey { entry: Entry, keys: K, entry_key: String },
    /// Decrypts a part with `item_keys` where there are some, else with `keys`.
    OpenPart {
        entry: Entry,
        keys: K,
        item_keys: Option<K>,
        part: Part,
        sealed: String,
        fields: Fields,
    },
    Done(Opened),
}

#[derive(Debug)]
pub enum OpenEntryEvent<K> {
    /// The key of the entry, or the message of the error.
    ItemKeyOpened(Result<K, String>),
    /// The decrypted part, where it could be decrypted.
    PartOpened(Option<Vec<u8>>),
}

impl<K> OpenEntry<K> {
    /// Whether the next part that the entry has, from the given one on, is
    /// decrypted, or the entry is done where there is none.
    pub open spec fn goes_on(
        self,
        entry: Entry,
        keys: K,
        item_keys: Option<K>,
        part: Part,
        fields: Fields,
    ) -> bool
        decreases 4 - part.position(),
    {
        match sealed_part(entry, part) {
            Some(sealed) => self == (OpenEntry::OpenPart {
                entry,
                keys,
                item_keys,
                part,
                sealed,
                fields,
            }),
            None => match part.following() {
                Some(next) => self.goes_on(entry, keys, item_keys, next, fields),
                None => self == OpenEntry::<K>::Done(
                    Opened { entry, access: Access::Opened(fields) },
                ),
            },
        }
    }

    /// Where an event leads. One that the state does not wait for changes
    /// nothing.
    pub open spec fn steps_to(self, event: OpenEntryEvent<K>, after: Self) -> bool {
        match (self, event) {
            (
                OpenEntry::OpenItemKey { entry, keys, .. },
                OpenEntryEvent::ItemKeyOpened(result),
            ) => match result {
                Ok(item) => after.goes_on(entry, keys, Some(item), Part::Name, Fields::none()),
                Err(message) => after == Self::Done(
                    Opened { entry, access: Access::NoItemKey(message) },
                ),
            },
            (
                OpenEntry::OpenPart { entry, keys, item_keys, part, fields, .. },
                OpenEntryEvent::PartOpened(bytes),
            ) => match part.following() {
                Some(next) => after.goes_on(
                    entry,
                    keys,
                    item_keys,
                    next,
                    fields.with_part(part, bytes),
                ),
                None => after == Self::Done(
                    Opened { entry, access: Access::Opened(fields.with_part(part, bytes)) },
                ),
            },
            _ => after == self,
        }
    }

    /// Whether this is the first state for an entry and the keys that were found
    /// for it.
    pub open spec fn starts(self, entry: Entry, base: Option<K>) -> bool {
        match base {
            None => self == Self::Done(Opened { entry, access: Access::NoKeys }),
            Some(keys) => match entry.key {
                Some(entry_key) => self == (Self::OpenItemKey { entry, keys, entry_key }),
                None => self.goes_on(entry, keys, None, Part::Name, Fields::none()),
            },
        }
    }

    /// The first state for an entry and the keys that [`base_keys`] found for it.
    pub fn start(entry: Entry, base: Option<K>) -> (r: Self)
        ensures
            r.starts(entry, base),
    {
        let keys = match base {
            Some(keys) => keys,
            None => return OpenEntry::Done(Opened { entry, access: Access::NoKeys }),
        };
        match entry.key.clone() {
            Some(entry_key) => OpenEntry::OpenItemKey { entry, keys, entry_key },
            None => open_from(
                entry,
                keys,
                None,
                Part::Name,
                Fields { name: None, username: None, password: None, notes: None },
            ),
        }
    }
}

fn open_from<K>(
    entry: Entry,
    keys: K,
    item_keys: Option<K>,
    part: Part,
    fields: Fields,
) -> (r: OpenEntry<K>)
    ensures
        r.goes_on(entry, keys, item_keys, part, fields),
    decreases 4 - part.position(),
{
    match copy_part(&entry, part) {
        Some(sealed) => OpenEntry::OpenPart { entry, keys, item_keys, part, sealed, fields },
        None => match part.next() {
            Some(next) => open_from(entry, keys, item_keys, next, fields),
            None => OpenEntry::Done(Opened { entry, access: Access::Opened(fields) }),
        },
    }
}

/// Moves the opening of an entry on.
pub fn open_entry<K>(state: OpenEntry<K>, event: OpenEntryEvent<K>) -> (after: OpenEntry<K>)
    ensures
        state.steps_to(event, after),
{
    match (state, event) {
        (OpenEntry::OpenItemKey { entry, keys, .. }, OpenEntryEvent::ItemKeyOpened(result)) => {
            match result {
                Ok(item) => open_from(
                    entry,
                    keys,
                    Some(item),
                    Part::Name,
                    Fields { name: None, username: None, password: None, notes: None },
                ),
                Err(message) => OpenEntry::Done(
                    Opened { entry, access: Access::NoItemKey(message) },
                ),
            }
        },
        (
            OpenEntry::OpenPart { entry, keys, item_keys, part, fields, .. },
            OpenEntryEvent::PartOpened(bytes),
        ) => {
            let fields = fields.set_part(part, bytes);
            match part.next() {
                Some(next) => open_from(entry, keys, item_keys, next, fields),
                None => OpenEntry::Done(Opened { entry, access: Access::Opened(fields) }),
            }
        },
        (state, _) => state,
    }
}

/// Whether `events` lead through `states` one after the other.
pub open spec fn open_run<K>(states: Seq<OpenEntry<K>>, events: Seq<OpenEntryEvent<K>>) -> bool {
    &&& states.len() == events.len() + 1
    &&& forall|i: int|
        0 <= i < events.len() ==> states[i].steps_to(#[trigger] events[i], states[i + 1])
}

/// Whether the event is the outcome of decrypting a part of the entry, with
/// `items` where there are some, else with `with`.
pub open spec fn opens_part<K>(
    state: OpenEntry<K>,
    event: OpenEntryEvent<K>,
    opened: Entry,
    with: K,
    items: Option<K>,
    wanted: Part,
    bytes: Option<Vec<u8>>,
) -> bool {
    &&& state matches OpenEntry::OpenPart { entry, keys, item_keys, part, sealed, .. }
    &&& entry == opened
    &&& keys == with
    &&& item_keys == items
    &&& part == wanted
    &&& sealed_part(entry, part) == Some(sealed)
    &&& event == OpenEntryEvent::<K>::PartOpened(bytes)
}

/// Whether the event is the outcome of decrypting the key of the entry.
pub open spec fn opens_entry_key<K>(
    state: OpenEntry<K>,
    event: OpenEntryEvent<K>,
    entry: Entry,
    keys: K,
    result: Result<K, String>,
) -> bool {
    &&& entry.key matches Some(entry_key)
    &&& state == (OpenEntry::OpenItemKey { entry, keys, entry_key })
    &&& event == OpenEntryEvent::<K>::ItemKeyOpened(result)
}

/// Whether `item_keys` came of decrypting the key of the entry, where it has one,
/// and are none where it has none.
pub open spec fn keys_opened<K>(
    states: Seq<OpenEntry<K>>,
    events: Seq<OpenEntryEvent<K>>,
    n: int,
    entry: Entry,
    keys: K,
    item_keys: Option<K>,
) -> bool {
    match item_keys {
        Some(item) => exists|i: int|
            0 <= i < n && opens_entry_key(states[i], #[trigger] events[i], entry, keys, Ok(item)),
        None => entry.key is None,
    }
}

/// Whether the fields tell, of each part before the given position, what came of
/// decrypting it, or nothing where the entry does not have it, and nothing of the
/// others.
pub open spec fn filled_up_to<K>(
    states: Seq<OpenEntry<K>>,
    events: Seq<OpenEntryEvent<K>>,
    n: int,
    entry: Entry,
    keys: K,
    item_keys: Option<K>,
    fields: Fields,
    position: int,
) -> bool {
    forall|part: Part| #[trigger]
        told(states, events, n, entry, keys, item_keys, fields, part, position)
}

/// Whether the fields tell of a part what came of decrypting it, if it stands
/// before the position and the entry has it, and nothing otherwise.
pub open spec fn told<K>(
    states: Seq<OpenEntry<K>>,
    events: Seq<OpenEntryEvent<K>>,
    n: int,
    entry: Entry,
    keys: K,
    item_keys: Option<K>,
    fields: Fields,
    part: Part,
    position: int,
) -> bool {
    if part.position() < position && sealed_part(entry, part) is Some {
        exists|i: int|
            0 <= i < n && opens_part(
                states[i],
                #[trigger] events[i],
                entry,
                keys,
                item_keys,
                part,
                fields.part(part),
            )
    } else {
        fields.part(part) is None
    }
}

/// What an entry was opened to tells of each part that the entry has what came
/// of decrypting it, and nothing of the others. A scan so leaves no part out.
/// Every part is decrypted with the key of the entry, as the given keys opened
/// it, where the entry has one, and with the given keys where it has none.
pub proof fn law_every_part_is_opened<K>(
    states: Seq<OpenEntry<K>>,
    events: Seq<OpenEntryEvent<K>>,
    entry: Entry,
    keys: K,
    n: int,
)
    requires
        open_run(states, events),
        match entry.key {
            Some(entry_key) => states[0] == (OpenEntry::OpenItemKey { entry, keys, entry_key }),
            None => states[0].goes_on(entry, keys, None, Part::Name, Fields::none()),
        },
        0 <= n <= events.len(),
    ensures
        match states[n] {
            OpenEntry::OpenItemKey { entry: e, keys: k, entry_key } => e == entry && k == keys
                && entry.key == Some(entry_key),
            OpenEntry::OpenPart { entry: e, keys: k, item_keys, part, sealed, fields } => {
                &&& e == entry
                &&& k == keys
                &&& keys_opened(states, events, n, entry, keys, item_keys)
                &&& sealed_part(entry, part) == Some(sealed)
                &&& filled_up_to(
                    states,
                    events,
                    n,
                    entry,
                    keys,
                    item_keys,
                    fields,
                    part.position(),
                )
            },
            OpenEntry::Done(opened) => {
                &&& opened.entry == entry
                &&& match opened.access {
                    Access::NoKeys => false,
                    Access::NoItemKey(message) => exists|i: int|
                        0 <= i < n && opens_entry_key(
                            states[i],
                            #[trigger] events[i],
                            entry,
                            keys,
                            Err(message),
                        ),
                    Access::Opened(fields) => exists|item_keys: Option<K>| #[trigger]
                        keys_opened(states, events, n, entry, keys, item_keys) && filled_up_to(
                            states,
                            events,
                            n,
                            entry,
                            keys,
                            item_keys,
                            fields,
                            4,
                        ),
                }
            },
        },
    decreases n,
{
    if n == 0 {
        if entry.key is None {
            let none: Option<K> = None;
            assert(filled_up_to(states, events, 0, entry, keys, none, Fields::none(), 0));
            assert(keys_opened(states, events, 0, entry, keys, none));
            lemma_going_on(states, events, 0, entry, keys, none, Part::Name, Fields::none());
        }
    } else {
        law_every_part_is_opened(states, events, entry, keys, n - 1);
        assert(states[n - 1].steps_to(events[n - 1], states[n]));
        let i = n - 1;
        match (states[i], events[i]) {
            (OpenEntry::OpenItemKey { .. }, OpenEntryEvent::ItemKeyOpened(Ok(item))) => {
                let items = Some(item);
                assert(opens_entry_key(states[i], events[i], entry, keys, Ok(item)));
                assert(keys_opened(states, events, n, entry, keys, items));
                assert(filled_up_to(states, events, n, entry, keys, items, Fields::none(), 0));
                lemma_going_on(
                    states,
                    events,
                    n,
                    entry,
                    keys,
                    items,
                    Part::Name,
                    Fields::none(),
                );
            },
            (OpenEntry::OpenItemKey { .. }, OpenEntryEvent::ItemKeyOpened(Err(message))) => {
                assert(opens_entry_key(states[i], events[i], entry, keys, Err(message)));
            },
            (
                OpenEntry::OpenPart { item_keys, part, fields, .. },
                OpenEntryEvent::PartOpened(bytes),
            ) => {
                let filled = fields.with_part(part, bytes);
                assert(keys_opened(states, events, n, entry, keys, item_keys));
                lemma_part_told(states, events, n, entry, keys, item_keys, fields, part, bytes);
                if let Some(next) = part.following() {
                    lemma_going_on(states, events, n, entry, keys, item_keys, next, filled);
                }
            },
            (OpenEntry::OpenPart { item_keys, part, fields, .. }, _) => {
                assert(keys_opened(states, events, n, entry, keys, item_keys));
                lemma_later_is_filled(
                    states,
                    events,
                    n,
                    entry,
                    keys,
                    item_keys,
                    fields,
                    part.position(),
                );
            },
            (OpenEntry::Done(opened), _) => {
                if let Access::Opened(fields) = opened.access {
                    let item_keys = choose|item_keys: Option<K>| #[trigger]
                        keys_opened(states, events, i, entry, keys, item_keys) && filled_up_to(
                            states,
                            events,
                            i,
                            entry,
                            keys,
                            item_keys,
                            fields,
                            4,
                        );
                    assert(keys_opened(states, events, n, entry, keys, item_keys));
                    lemma_later_is_filled(states, events, n, entry, keys, item_keys, fields, 4);
                }
            },
            _ => {},
        }
    }
}

proof fn lemma_later_is_filled<K>(
    states: Seq<OpenEntry<K>>,
    events: Seq<OpenEntryEvent<K>>,
    n: int,
    entry: Entry,
    keys: K,
    item_keys: Option<K>,
    fields: Fields,
    position: int,
)
    requires
        n > 0,
        filled_up_to(states, events, n - 1, entry, keys, item_keys, fields, position),
    ensures
        filled_up_to(states, events, n, entry, keys, item_keys, fields, position),
{
    assert forall|part: Part| #[trigger]
        told(states, events, n, entry, keys, item_keys, fields, part, position) by {
        assert(told(states, events, n - 1, entry, keys, item_keys, fields, part, position));
    }
}

proof fn lemma_part_told<K>(
    states: Seq<OpenEntry<K>>,
    events: Seq<OpenEntryEvent<K>>,
    n: int,
    entry: Entry,
    keys: K,
    item_keys: Option<K>,
    fields: Fields,
    part: Part,
    bytes: Option<Vec<u8>>,
)
    requires
        n > 0,
        filled_up_to(states, events, n - 1, entry, keys, item_keys, fields, part.position()),
        opens_part(states[n - 1], events[n - 1], entry, keys, item_keys, part, bytes),
    ensures
        filled_up_to(
            states,
            events,
            n,
            entry,
            keys,
            item_keys,
            fields.with_part(part, bytes),
            part.position() + 1,
        ),
{
    let filled = fields.with_part(part, bytes);
    let position = part.position() + 1;
    assert forall|other: Part| #[trigger]
        told(states, events, n, entry, keys, item_keys, filled, other, position) by {
        assert(told(states, events, n - 1, entry, keys, item_keys, fields, other, part.position()));
        if other == part {
            let i = n - 1;
            assert(opens_part(states[i], events[i], entry, keys, item_keys, part, filled.part(part)));
        } else {
            assert(other.position() != part.position());
            assert(filled.part(other) == fields.part(other));
        }
    }
}

proof fn lemma_going_on<K>(
    states: Seq<OpenEntry<K>>,
    events: Seq<OpenEntryEvent<K>>,
    n: int,
    entry: Entry,
    keys: K,
    item_keys: Option<K>,
    part: Part,
    fields: Fields,
)
    requires
        states[n].goes_on(entry, keys, item_keys, part, fields),
        filled_up_to(states, events, n, entry, keys, item_keys, fields, part.position()),
    ensures
        match states[n] {
            OpenEntry::OpenItemKey { .. } => false,
            OpenEntry::OpenPart {
                entry: e,
                keys: k,
                item_keys: items,
                part: next,
                sealed,
                fields: f,
            } => {
                &&& e == entry
                &&& k == keys
                &&& items == item_keys
                &&& sealed_part(entry, next) == Some(sealed)
                &&& filled_up_to(states, events, n, entry, keys, item_keys, f, next.position())
            },
            OpenEntry::Done(opened) => {
                &&& opened == (Opened { entry, access: Access::Opened(fields) })
                &&& filled_up_to(states, events, n, entry, keys, item_keys, fields, 4)
            },
        },
    decreases 4 - part.position(),
{
    if sealed_part(entry, part) is None {
        let position = part.position() + 1;
        assert forall|other: Part| #[trigger]
            told(states, events, n, entry, keys, item_keys, fields, other, position) by {
            assert(told(
                states,
                events,
                n,
                entry,
                keys,
                item_keys,
                fields,
                other,
                part.position(),
            ));
            if other.position() == part.position() {
                assert(other == part);
            }
        }
        assert(filled_up_to(states, events, n, entry, keys, item_keys, fields, position));
        if let Some(next) = part.following() {
            lemma_going_on(states, events, n, entry, keys, item_keys, next, fields);
        }
    }
}

/// A text as it is written in a Rust program, in quotes and escaped.
pub uninterp spec fn quoted(text: Seq<char>) -> Seq<char>;

/// `format!` with `{:?}` writes a `str` in quotes and escaped, depending on the
/// text alone.
#[verifier::external_body]
fn quote(text: &str) -> (r: String)
    ensures
        r@ == quoted(text@),
{
    format!("{text:?}")
}

/// The text of a part, which is empty where there is none.
pub open spec fn part_text(part: Option<Vec<u8>>) -> Seq<char> {
    match part {
        Some(bytes) => unicode::utf8_lossy(bytes@),
        None => Seq::empty(),
    }
}

fn text_of_part(part: &Option<Vec<u8>>) -> (r: String)
    ensures
        r@ == part_text(*part),
{
    match part {
        Some(bytes) => unicode::from_utf8_lossy(bytes.as_slice()),
        None => String::new(),
    }
}

/// The texts that the lines on an entry show in quotes.
#[derive(Debug)]
pub struct Quoted {
    pub id: String,
    pub org_id: String,
    pub name: String,
    pub username: String,
    pub password: String,
}

/// The contents of [`Quoted`].
pub struct QuotedView {
    pub id: Seq<char>,
    pub org_id: Seq<char>,
    pub name: Seq<char>,
    pub username: Seq<char>,
    pub password: Seq<char>,
}

impl View for Quoted {
    type V = QuotedView;

    open spec fn view(&self) -> QuotedView {
        QuotedView {
            id: self.id@,
            org_id: self.org_id@,
            name: self.name@,
            username: self.username@,
            password: self.password@,
        }
    }
}

/// Whether the entry has a password.
pub open spec fn has_password(entry: Entry) -> bool {
    entry.data matches EntryData::Login { password: Some(_), .. }
}

/// Whether the entry has a user name.
pub open spec fn has_username(entry: Entry) -> bool {
    entry.data matches EntryData::Login { username: Some(_), .. }
}

/// The parts of an opened entry that could not be decrypted.
pub open spec fn problems(entry: Entry, fields: Fields) -> Seq<Seq<char>> {
    (if fields.name is None {
        seq!["name"@]
    } else {
        Seq::empty()
    }) + (if has_password(entry) && fields.password is None {
        seq!["password"@]
    } else {
        Seq::empty()
    }) + (if entry.notes is Some && fields.notes is None {
        seq!["notes"@]
    } else {
        Seq::empty()
    })
}

/// Where the keys of an entry come from.
pub open spec fn key_source(entry: Entry) -> Seq<char> {
    match entry.org_id {
        Some(org_id) => "org:"@ + org_id@,
        None => "master"@,
    }
}

/// The quoted texts of an entry. What it does not have, or what could not be
/// decrypted, is quoted as an empty text.
pub open spec fn quoted_texts(entry: Entry, access: Access) -> QuotedView {
    let fields = match access {
        Access::Opened(fields) => fields,
        _ => Fields { name: None, username: None, password: None, notes: None },
    };
    QuotedView {
        id: quoted(entry.id@),
        org_id: quoted(
            match entry.org_id {
                Some(org_id) => org_id@,
                None => Seq::empty(),
            },
        ),
        name: quoted(part_text(fields.name)),
        username: quoted(
            if has_username(entry) {
                part_text(fields.username)
            } else {
                Seq::empty()
            },
        ),
        password: quoted(
            if has_password(entry) {
                part_text(fields.password)
            } else {
                Seq::empty()
            },
        ),
    }
}

/// Whether the entry counts as corrupt.
pub open spec fn is_corrupt(entry: Entry, access: Access) -> bool {
    match access {
        Access::NoKeys => true,
        Access::NoItemKey(_) => true,
        Access::Opened(fields) => problems(entry, fields).len() > 0,
    }
}

/// The line on an entry that cannot be opened or has parts that cannot be
/// decrypted, or on one that is sound.
pub open spec fn verdict(entry: Entry, access: Access, shown: QuotedView) -> Seq<char> {
    match access {
        Access::NoKeys => "  "@ + shown.id + " MISSING KEY for org "@ + (
        if entry.org_id is Some {
            "Some("@ + shown.org_id + ")"@
        } else {
            "None"@
        }) + " ("@ + entry.name@ + " entries corrupt?)"@,
        Access::NoItemKey(message) => "  "@ + entry.id@ + "  KEY_DECRYPT_FAIL  "@ + message@,
        Access::Opened(fields) => if problems(entry, fields).len() == 0 {
            "  "@ + entry.id@ + "  OK  name="@ + shown.name
        } else {
            "  "@ + entry.id@ + "  CORRUPT (key_src="@ + key_source(entry) + ", item_key="@ + (
            if entry.key is Some {
                "true"@
            } else {
                "false"@
            }) + ")  parts=["@ + text::joined(problems(entry, fields), ","@) + "]  name="@
                + shown.name + "  user="@ + shown.username + "  pw="@ + shown.password
        },
    }
}

/// The lines on an entry.
pub open spec fn entry_lines(entry: Entry, access: Access, shown: QuotedView) -> Seq<Seq<char>> {
    match access {
        Access::Opened(fields) if fields.name is None => seq![
            "  "@ + entry.id@ + "  NAME_DECRYPT_FAIL"@,
            verdict(entry, access, shown),
        ],
        _ => seq![verdict(entry, access, shown)],
    }
}

fn problems_of(entry: &Entry, fields: &Fields) -> (r: Vec<String>)
    ensures
        r.deep_view() == problems(*entry, *fields),
{
    let mut parts: Vec<String> = Vec::new();
    if fields.name.is_none() {
        parts.push("name".to_owned());
    }
    let with_password = match &entry.data {
        EntryData::Login { password, .. } => password.is_some(),
        _ => false,
    };
    if with_password && fields.password.is_none() {
        parts.push("password".to_owned());
    }
    if entry.notes.is_some() && fields.notes.is_none() {
        parts.push("notes".to_owned());
    }
    assert(parts.deep_view() =~= problems(*entry, *fields));
    parts
}

fn describe_missing_keys(entry: &Entry, shown: &Quoted) -> (r: String)
    ensures
        r@ == verdict(*entry, Access::NoKeys, shown@),
{
    let mut r = text::concat("  ", shown.id.as_str());
    r.append(" MISSING KEY for org ");
    if entry.org_id.is_some() {
        let mut org = text::concat("Some(", shown.org_id.as_str());
        org.append(")");
        r.append(org.as_str());
    } else {
        r.append("None");
    }
    r.append(" (");
    r.append(entry.name.as_str());
    r.append(" entries corrupt?)");
    r
}

fn describe_corrupt(entry: &Entry, fields: &Fields, parts: &Vec<String>, shown: &Quoted) -> (r:
    String)
    requires
        parts.deep_view() == problems(*entry, *fields),
        parts@.len() > 0,
    ensures
        r@ == verdict(*entry, Access::Opened(*fields), shown@),
{
    let source = match &entry.org_id {
        Some(org_id) => text::concat("org:", org_id.as_str()),
        None => "master".to_owned(),
    };
    let list = text::join(parts, ",");
    let mut r = text::concat("  ", entry.id.as_str());
    r.append("  CORRUPT (key_src=");
    r.append(source.as_str());
    r.append(", item_key=");
    r.append(
        if entry.key.is_some() {
            "true"
        } else {
            "false"
        },
    );
    r.append(")  parts=[");
    r.append(list.as_str());
    r.append("]  name=");
    r.append(shown.name.as_str());
    r.append("  user=");
    r.append(shown.username.as_str());
    r.append("  pw=");
    r.append(shown.password.as_str());
    r
}

/// What a scan says of an entry.
#[derive(Debug)]
pub struct EntryReport {
    pub lines: Vec<String>,
    pub corrupt: bool,
}

/// Judges an entry by what came of opening it, given its texts in quotes.
pub fn report_entry(entry: &Entry, access: &Access, shown: &Quoted) -> (r: EntryReport)
    ensures
        r.lines.deep_view() == entry_lines(*entry, *access, shown@),
        r.corrupt == is_corrupt(*entry, *access),
{
    let mut lines: Vec<String> = Vec::new();
    match access {
        Access::NoKeys => {
            lines.push(describe_missing_keys(entry, shown));
            assert(lines.deep_view() =~= entry_lines(*entry, *access, shown@));
            EntryReport { lines, corrupt: true }
        },
        Access::NoItemKey(message) => {
            let mut line = text::concat("  ", entry.id.as_str());
            line.append("  KEY_DECRYPT_FAIL  ");
            line.append(message.as_str());
            lines.push(line);
            assert(lines.deep_view() =~= entry_lines(*entry, *access, shown@));
            EntryReport { lines, corrupt: true }
        },
        Access::Opened(fields) => {
            let parts = problems_of(entry, fields);
            assert(parts.deep_view().len() == parts@.len());
            if fields.name.is_none() {
                let mut line = text::concat("  ", entry.id.as_str());
                line.append("  NAME_DECRYPT_FAIL");
                lines.push(line);
            }
            if parts.len() == 0 {
                let mut line = text::concat("  ", entry.id.as_str());
                line.append("  OK  name=");
                line.append(shown.name.as_str());
                lines.push(line);
                assert(lines.deep_view() =~= entry_lines(*entry, *access, shown@));
                EntryReport { lines, corrupt: false }
            } else {
                lines.push(describe_corrupt(entry, fields, &parts, shown));
                assert(lines.deep_view() =~= entry_lines(*entry, *access, shown@));
                EntryReport { lines, corrupt: true }
            }
        },
    }
}

fn quote_texts(entry: &Entry, access: &Access) -> (r: Quoted)
    ensures
        r@ == quoted_texts(*entry, *access),
{
    let org_id = match &entry.org_id {
        Some(org_id) => org_id.clone(),
        None => String::new(),
    };
    let (name, username, password) = match access {
        Access::Opened(fields) => (
            text_of_part(&fields.name),
            text_of_part(&fields.username),
            text_of_part(&fields.password),
        ),
        _ => (String::new(), String::new(), String::new()),
    };
    let (username, password) = match &entry.data {
        EntryData::Login { username: sealed_username, password: sealed_password } => (
            if sealed_username.is_some() {
                username
            } else {
                String::new()
            },
            if sealed_password.is_some() {
                password
            } else {
                String::new()
            },
        ),
        _ => (String::new(), String::new()),
    };
    let ghost none: Seq<char> = Seq::empty();
    assert(entry.org_id is None ==> org_id@ =~= none);
    assert(!(access is Opened) ==> name@ =~= none && username@ =~= none && password@ =~= none);
    assert(!has_username(*entry) ==> username@ =~= none);
    assert(!has_password(*entry) ==> password@ =~= none);
    Quoted {
        id: quote(entry.id.as_str()),
        org_id: quote(org_id.as_str()),
        name: quote(name.as_str()),
        username: quote(username.as_str()),
        password: quote(password.as_str()),
    }
}

/// Judges an entry by what came of opening it.
pub fn check_entry(entry: &Entry, access: &Access) -> (r: EntryReport)
    ensures
        r.lines.deep_view() == entry_lines(*entry, *access, quoted_texts(*entry, *access)),
        r.corrupt == is_corrupt(*entry, *access),
{
    let shown = quote_texts(entry, access);
    report_entry(entry, access, &shown)
}

/// How many entries are corrupt.
pub open spec fn corrupt_count(entries: Seq<Opened>) -> nat
    decreases entries.len(),
{
    if entries.len() == 0 {
        0
    } else {
        corrupt_count(entries.drop_last()) + if is_corrupt(
            entries.last().entry,
            entries.last().access,
        ) {
            1nat
        } else {
            0nat
        }
    }
}

/// The lines on some entries, in order.
pub open spec fn all_lines(entries: Seq<Opened>) -> Seq<Seq<char>>
    decreases entries.len(),
{
    if entries.len() == 0 {
        Seq::empty()
    } else {
        let last = entries.last();
        all_lines(entries.drop_last()) + entry_lines(
            last.entry,
            last.access,
            quoted_texts(last.entry, last.access),
        )
    }
}

/// All lines of a scan after the first.
pub open spec fn scan_lines(entries: Seq<Opened>) -> Seq<Seq<char>> {
    all_lines(entries).push(
        "done: "@ + text::decimal(corrupt_count(entries) as int) + " corrupt entries"@,
    )
}

/// What a scan says of the vault.
#[derive(Debug)]
pub struct ScanReport {
    pub lines: Vec<String>,
    pub corrupt: usize,
}

/// Judges the entries of the vault. The number of corrupt ones stands in a line
/// of its own at the end.
pub fn scan(entries: &Vec<Opened>) -> (r: ScanReport)
    ensures
        r.corrupt == corrupt_count(entries@),
        r.lines.deep_view() == scan_lines(entries@),
{
    let mut lines: Vec<String> = Vec::new();
    let mut corrupt: usize = 0;
    let mut i: usize = 0;
    assert(lines.deep_view() =~= all_lines(entries@.take(0)));
    while i < entries.len()
        invariant
            i <= entries@.len(),
            corrupt <= i,
            corrupt == corrupt_count(entries@.take(i as int)),
            lines.deep_view() == all_lines(entries@.take(i as int)),
        decreases entries@.len() - i,
    {
        let report = check_entry(&entries[i].entry, &entries[i].access);
        assert(entries@.take(i + 1).drop_last() =~= entries@.take(i as int));
        let ghost before = lines.deep_view();
        let mut new_lines = report.lines;
        let ghost added = new_lines.deep_view();
        lines.append(&mut new_lines);
        assert(lines.deep_view() =~= before + added);
        if report.corrupt {
            corrupt = corrupt + 1;
        }
        i = i + 1;
    }
    assert(entries@.take(i as int) =~= entries@);
    let number = text::digits_of(corrupt as u64);
    let mut line = text::concat("done: ", number.as_str());
    line.append(" corrupt entries");
    let ghost before = lines.deep_view();
    lines.push(line);
    assert(lines.deep_view() =~= before.push(line@));
    ScanReport { lines, corrupt }
}

/// The first line of a scan.
pub fn scan_header(entries: usize, org_keys: usize) -> (r: String)
    ensures
        r@ == "scanning "@ + text::decimal(entries as int) + " entries ("@ + text::decimal(
            org_keys as int,
        ) + " org keys available)"@,
{
    let entries = text::digits_of(entries as u64);
    let org_keys = text::digits_of(org_keys as u64);
    let mut r = text::concat("scanning ", entries.as_str());
    r.append(" entries (");
    r.append(org_keys.as_str());
    r.append(" org keys available)");
    r
}

/// A scan counts no entry twice: there are no more corrupt entries than entries,
/// and none only if each single one is sound.
pub proof fn law_corrupt_entries_are_counted_once(entries: Seq<Opened>)
    ensures
        corrupt_count(entries) <= entries.len(),
        corrupt_count(entries) == 0 <==> forall|i: int|
            0 <= i < entries.len() ==> !is_corrupt(
                (#[trigger] entries[i]).entry,
                entries[i].access,
            ),
    decreases entries.len(),
{
    if entries.len() > 0 {
        let head = entries.drop_last();
        law_corrupt_entries_are_counted_once(head);
        if corrupt_count(entries) == 0 {
            assert forall|i: int| 0 <= i < entries.len() implies !is_corrupt(
                (#[trigger] entries[i]).entry,
                entries[i].access,
            ) by {
                if i < head.len() {
                    assert(head[i] == entries[i]);
                }
            }
        } else if corrupt_count(head) > 0 {
            let i = choose|i: int|
                0 <= i < head.len() && is_corrupt((#[trigger] head[i]).entry, head[i].access);
            assert(entries[i] == head[i]);
        } else {
            let last = entries.len() - 1;
            assert(is_corrupt(entries[last].entry, entries[last].access));
        }
    }
}

} // verus!
