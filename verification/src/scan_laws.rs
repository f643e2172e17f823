//! What holds of every scan for corrupt entries.
use vstd::prelude::*;
use crate::config::Config;
use crate::db::{Db, Entry, EntryData, OrgKeys};
use crate::dbcheck::{
    all_lines, corrupt_count, entry_lines, is_corrupt, quoted, quoted_texts, scan_lacks, scan_lines,
    sealed_part, Access, Fields, OpenEntry, OpenEntryEvent, Opened, Part, PrepareScan,
    PrepareScanEvent, QuotedView,
};
use crate::error::{Error, Failure};
use crate::text;
use crate::unicode;
use crate::vault_laws::secrets_of;

verus! {

/// A scan loads the database of the account that the configuration names, asks
/// for the master password with the configured program, unlocks the vault for
/// that account with the secrets of that database, and looks at its entries.
pub proof fn law_scan_is_of_the_configured_vault<T, O, P, K, E>(
    config: Config,
    address: String,
    db: Db<T, O, Vec<Entry>>,
    password: P,
    keys: K,
    org_keys: OrgKeys<K>,
    s: Seq<PrepareScan<T, O, P, K, E>>,
)
    requires
        s.len() == 5,
        config.email == Some(address),
        db.kdf is Some && db.iterations is Some && db.protected_key is Some
            && db.protected_private_key is Some,
        s[0] is LoadConfig,
        s[0].steps_to(PrepareScanEvent::ConfigLoaded(Ok(config)), s[1]),
        s[1].steps_to(PrepareScanEvent::DbLoaded(Ok(db)), s[2]),
        s[2].steps_to(PrepareScanEvent::Answered(Ok(password)), s[3]),
        s[3].steps_to(PrepareScanEvent::Unlocked(Ok((keys, org_keys))), s[4]),
    ensures
        s[1] matches PrepareScan::LoadDb { server, email, .. } && email == address && server@
            == config.server(),
        s[2] matches PrepareScan::AskPassword { pinentry, prompt, .. } && pinentry
            == config.pinentry && prompt@.title == "Master Password"@ && prompt@.description
            == "Scan vault for corrupt entries"@ && prompt@.error is None && prompt@.grab,
        s[3] matches PrepareScan::Unlock { email, password: p, secrets, .. } && email == address
            && p == password && secrets_of(secrets, db),
        s[4] == PrepareScan::<T, O, P, K, E>::Done(Ok((keys, org_keys, db.entries))),
{
}

/// The preparation of a scan fails only where something could not be loaded, read
/// or unlocked, or where the configuration or the database lacks what is needed;
/// and the error says which.
pub proof fn law_failed_preparation_says_why<T, O, P, K, E>(
    state: PrepareScan<T, O, P, K, E>,
    event: PrepareScanEvent<T, O, P, K, E>,
    after: PrepareScan<T, O, P, K, E>,
    error: Error<E>,
)
    requires
        state.steps_to(event, after),
        !(state is Done),
        after == PrepareScan::<T, O, P, K, E>::Done(Err(error)),
    ensures
        match event {
            PrepareScanEvent::ConfigLoaded(Ok(config)) => state is LoadConfig && config.email is None
                && error == Error::<E>::Refused(Failure::ScanMissingEmail),
            PrepareScanEvent::ConfigLoaded(Err(cause)) => state is LoadConfig && error
                == Error::Forwarded(cause),
            PrepareScanEvent::DbLoaded(result) => state is LoadDb && (result matches Err(cause)
                && error == Error::Caused(Failure::ScanLoadDb, cause)),
            PrepareScanEvent::Answered(Ok(_)) => {
                &&& state matches PrepareScan::AskPassword { db, .. }
                &&& error == if db.kdf is None {
                    Error::<E>::Refused(Failure::MissingKdf)
                } else if db.iterations is None {
                    Error::<E>::Refused(Failure::ScanMissingIterations)
                } else if db.protected_key is None {
                    Error::<E>::Refused(Failure::ScanMissingProtectedKey)
                } else {
                    Error::<E>::Refused(Failure::ScanMissingProtectedPrivateKey)
                }
                &&& !(db.kdf is Some && db.iterations is Some && db.protected_key is Some
                    && db.protected_private_key is Some)
            },
            PrepareScanEvent::Answered(Err(cause)) => state is AskPassword && error
                == Error::Forwarded(cause),
            PrepareScanEvent::Unlocked(result) => state is Unlock && (result matches Err(cause)
                && error == Error::Forwarded(cause)),
        },
{
}

/// A scan goes on only with the keys that an unlocking gave, and with the entries
/// that were loaded with the secrets of that unlocking.
pub proof fn law_scan_needs_an_unlocking<T, O, P, K, E>(
    state: PrepareScan<T, O, P, K, E>,
    event: PrepareScanEvent<T, O, P, K, E>,
    after: PrepareScan<T, O, P, K, E>,
    keys: K,
    org_keys: OrgKeys<K>,
    entries: Vec<Entry>,
)
    requires
        state.steps_to(event, after),
        !(state is Done),
        after == PrepareScan::<T, O, P, K, E>::Done(Ok((keys, org_keys, entries))),
    ensures
        state matches PrepareScan::Unlock { entries: loaded, .. } && loaded == entries,
        event == PrepareScanEvent::<T, O, P, K, E>::Unlocked(Ok((keys, org_keys))),
{
}

/// A scan can unlock exactly those databases that a client can unlock.
pub proof fn law_scan_needs_what_an_unlocking_needs<T, O, N>(db: Db<T, O, N>)
    ensures
        scan_lacks(db) is None <==> db.missing() is None,
{
}

/// What is decrypted of an entry: its name in any case, the user name and the
/// password of a login, and its notes, as far as the entry has them. Each result
/// is kept under its own part.
pub proof fn law_parts_of_an_entry(entry: Entry, fields: Fields, bytes: Option<Vec<u8>>)
    ensures
        sealed_part(entry, Part::Name) == Some(entry.name),
        sealed_part(entry, Part::Notes) == entry.notes,
        entry.data matches EntryData::Login { username, password } ==> sealed_part(
            entry,
            Part::Username,
        ) == username && sealed_part(entry, Part::Password) == password,
        !(entry.data is Login) ==> sealed_part(entry, Part::Username) is None && sealed_part(
            entry,
            Part::Password,
        ) is None,
        fields.part(Part::Name) == fields.name,
        fields.part(Part::Username) == fields.username,
        fields.part(Part::Password) == fields.password,
        fields.part(Part::Notes) == fields.notes,
        forall|set: Part, read: Part| #[trigger]
            fields.with_part(set, bytes).part(read) == if read == set {
                bytes
            } else {
                fields.part(read)
            },
{
}

/// An entry without keys for its organisation is reported so and not opened. One
/// with a key of its own has that decrypted first, and one without has its name
/// decrypted at once, with the keys of its organisation or its owner.
pub proof fn law_opening_starts_with_the_keys<K>(
    entry: Entry,
    base: Option<K>,
    state: OpenEntry<K>,
)
    requires
        state.starts(entry, base),
    ensures
        base is None ==> state == OpenEntry::<K>::Done(Opened { entry, access: Access::NoKeys }),
        base matches Some(given) ==> match entry.key {
            Some(sealed_key) => state == (OpenEntry::OpenItemKey {
                entry,
                keys: given,
                entry_key: sealed_key,
            }),
            None => {
                &&& state matches OpenEntry::OpenPart {
                    entry: e,
                    keys,
                    item_keys,
                    part,
                    sealed,
                    fields,
                }
                &&& e == entry
                &&& keys == given
                &&& item_keys is None
                &&& part == Part::Name
                &&& sealed == entry.name
                &&& fields.name is None && fields.username is None
                &&& fields.password is None && fields.notes is None
            },
        },
{
}

/// Once the key of an entry is decrypted its name is decrypted with it; where the
/// key cannot be decrypted, the entry is reported with the reason.
pub proof fn law_entry_key_comes_first<K>(
    entry: Entry,
    keys: K,
    entry_key: String,
    result: Result<K, String>,
    after: OpenEntry<K>,
)
    requires
        (OpenEntry::OpenItemKey { entry, keys, entry_key }).steps_to(
            OpenEntryEvent::ItemKeyOpened(result),
            after,
        ),
    ensures
        match result {
            Ok(item) => {
                &&& after matches OpenEntry::OpenPart {
                    entry: e,
                    keys: k,
                    item_keys,
                    part,
                    sealed,
                    fields,
                }
                &&& e == entry
                &&& k == keys
                &&& item_keys == Some(item)
                &&& part == Part::Name
                &&& sealed == entry.name
                &&& fields.name is None && fields.username is None
                &&& fields.password is None && fields.notes is None
            },
            Err(message) => after == OpenEntry::<K>::Done(
                Opened { entry, access: Access::NoItemKey(message) },
            ),
        },
{
}

/// After a part the next one that the entry has is decrypted: the user name, the
/// password and the notes, in this order. An entry is done once it has no further
/// part.
pub proof fn law_parts_are_opened_in_order<K>(
    state: OpenEntry<K>,
    bytes: Option<Vec<u8>>,
    after: OpenEntry<K>,
)
    requires
        state is OpenPart,
        state.steps_to(OpenEntryEvent::PartOpened(bytes), after),
    ensures
        ({
            let entry = state->OpenPart_entry;
            let part = state->OpenPart_part;
            let (username, password) = match entry.data {
                EntryData::Login { username, password } => (username, password),
                _ => (None, None),
            };
            let next: Option<(Part, String)> = if part == Part::Name && username is Some {
                Some((Part::Username, username->0))
            } else if (part == Part::Name || part == Part::Username) && password is Some {
                Some((Part::Password, password->0))
            } else if part != Part::Notes && entry.notes is Some {
                Some((Part::Notes, entry.notes->0))
            } else {
                None
            };
            match next {
                Some((following, text)) => {
                    &&& after matches OpenEntry::OpenPart {
                        entry: e,
                        keys,
                        item_keys,
                        part: p,
                        sealed,
                        ..
                    }
                    &&& e == entry
                    &&& keys == state->OpenPart_keys
                    &&& item_keys == state->OpenPart_item_keys
                    &&& p == following
                    &&& sealed == text
                },
                None => after matches OpenEntry::Done(opened) && opened.entry == entry
                    && opened.access is Opened,
            }
        }),
{
    reveal_with_fuel(OpenEntry::goes_on, 5);
}

/// An entry counts as corrupt exactly if there are no keys for it, its key could
/// not be decrypted, or its name, or the password or the notes that it has, could
/// not be decrypted.
pub proof fn law_corrupt_is_what_cannot_be_decrypted(entry: Entry, access: Access)
    ensures
        is_corrupt(entry, access) == match access {
            Access::NoKeys => true,
            Access::NoItemKey(_) => true,
            Access::Opened(fields) => {
                ||| fields.name is None
                ||| fields.password is None && (entry.data matches EntryData::Login { password, .. }
                    && password is Some)
                ||| fields.notes is None && entry.notes is Some
            },
        },
{
}

/// A scan counts each further entry exactly if that entry is corrupt, and has its
/// lines after those of the entries before it.
pub proof fn law_scan_takes_each_entry_in_turn(entries: Seq<Opened>, next: Opened)
    ensures
        corrupt_count(Seq::empty()) == 0,
        all_lines(Seq::empty()) == Seq::<Seq<char>>::empty(),
        corrupt_count(entries.push(next)) == corrupt_count(entries) + if is_corrupt(
            next.entry,
            next.access,
        ) {
            1nat
        } else {
            0nat
        },
        all_lines(entries.push(next)) == all_lines(entries) + entry_lines(
            next.entry,
            next.access,
            quoted_texts(next.entry, next.access),
        ),
{
    assert(entries.push(next).drop_last() =~= entries);
}

/// The last line of a scan gives the number of corrupt entries; before it stand the
/// lines on the entries.
pub proof fn law_scan_ends_with_the_count(entries: Seq<Opened>)
    ensures
        scan_lines(entries).drop_last() == all_lines(entries),
        scan_lines(entries).last() == "done: "@ + text::decimal(corrupt_count(entries) as int)
            + " corrupt entries"@,
{
    assert(scan_lines(entries).drop_last() =~= all_lines(entries));
}

/// The texts that a scan shows of an entry are its own: its identifier and its
/// organisation, and of what was decrypted its name, and the user name and the
/// password of a login. What is not there is shown as empty.
pub proof fn law_shown_texts_are_those_of_the_entry(entry: Entry, access: Access)
    ensures
        quoted_texts(entry, access).id == quoted(entry.id@),
        entry.org_id matches Some(org_id) ==> quoted_texts(entry, access).org_id == quoted(org_id@),
        entry.org_id is None ==> quoted_texts(entry, access).org_id == quoted(Seq::empty()),
        !(access is Opened) ==> {
            let shown = quoted_texts(entry, access);
            &&& shown.name == quoted(Seq::empty())
            &&& shown.username == quoted(Seq::empty())
            &&& shown.password == quoted(Seq::empty())
        },
        access matches Access::Opened(fields) ==> {
            let empty = Seq::<char>::empty();
            let (username, password) = match entry.data {
                EntryData::Login { username, password } => (username is Some, password is Some),
                _ => (false, false),
            };
            let shown = quoted_texts(entry, access);
            &&& shown.name == quoted(
                if fields.name is Some {
                    unicode::utf8_lossy(fields.name->0@)
                } else {
                    empty
                },
            )
            &&& shown.username == quoted(
                if username && fields.username is Some {
                    unicode::utf8_lossy(fields.username->0@)
                } else {
                    empty
                },
            )
            &&& shown.password == quoted(
                if password && fields.password is Some {
                    unicode::utf8_lossy(fields.password->0@)
                } else {
                    empty
                },
            )
        },
{
}

/// The report on an entry that cannot be opened says why, and names the entry.
pub proof fn law_report_on_an_entry_that_cannot_be_opened(
    entry: Entry,
    message: String,
    shown: QuotedView,
)
    ensures
        entry_lines(entry, Access::NoItemKey(message), shown) == seq![
            "  "@ + entry.id@ + "  KEY_DECRYPT_FAIL  "@ + message@,
        ],
        entry.org_id is Some ==> entry_lines(entry, Access::NoKeys, shown) == seq![
            "  "@ + shown.id + " MISSING KEY for org "@ + ("Some("@ + shown.org_id + ")"@) + " ("@
                + entry.name@ + " entries corrupt?)"@,
        ],
{
}

/// The report on an entry that was opened says in its last line either that it is
/// sound, with its name, or which of its parts are corrupt and which keys were
/// used, with its name, user name and password. A name that could not be decrypted
/// has a line of its own before that.
pub proof fn law_report_on_an_opened_entry(entry: Entry, fields: Fields, shown: QuotedView)
    ensures
        ({
            let lines = entry_lines(entry, Access::Opened(fields), shown);
            let bad_name = fields.name is None;
            let bad_password = fields.password is None && (entry.data matches EntryData::Login {
                password,
                ..
            } && password is Some);
            let bad_notes = fields.notes is None && entry.notes is Some;
            let source = match entry.org_id {
                Some(org_id) => "org:"@ + org_id@,
                None => "master"@,
            };
            let own_key = if entry.key is Some {
                "true"@
            } else {
                "false"@
            };
            let parts = match (bad_name, bad_password, bad_notes) {
                (true, true, true) => "name"@ + ","@ + "password"@ + ","@ + "notes"@,
                (true, true, false) => "name"@ + ","@ + "password"@,
                (true, false, true) => "name"@ + ","@ + "notes"@,
                (true, false, false) => "name"@,
                (false, true, true) => "password"@ + ","@ + "notes"@,
                (false, true, false) => "password"@,
                (false, false, true) => "notes"@,
                (false, false, false) => Seq::empty(),
            };
            &&& lines.len() == if bad_name {
                2nat
            } else {
                1nat
            }
            &&& bad_name ==> lines[0] == "  "@ + entry.id@ + "  NAME_DECRYPT_FAIL"@
            &&& !bad_name && !bad_password && !bad_notes ==> lines.last() == "  "@ + entry.id@
                + "  OK  name="@ + shown.name
            &&& bad_name || bad_password || bad_notes ==> lines.last() == "  "@ + entry.id@
                + "  CORRUPT (key_src="@ + source + ", item_key="@ + own_key + ")  parts=["@ + parts
                + "]  name="@ + shown.name + "  user="@ + shown.username + "  pw="@ + shown.password
        }),
{
    let list = crate::dbcheck::problems(entry, fields);
    let bad_name = fields.name is None;
    let bad_password = crate::dbcheck::has_password(entry) && fields.password is None;
    let bad_notes = entry.notes is Some && fields.notes is None;
    let comma = ","@;
    if bad_name && bad_password && bad_notes {
        assert(list =~= seq!["name"@, "password"@, "notes"@]);
        lemma_three_joined("name"@, "password"@, "notes"@, comma);
    } else if bad_name && bad_password {
        assert(list =~= seq!["name"@, "password"@]);
        lemma_two_joined("name"@, "password"@, comma);
    } else if bad_name && bad_notes {
        assert(list =~= seq!["name"@, "notes"@]);
        lemma_two_joined("name"@, "notes"@, comma);
    } else if bad_password && bad_notes {
        assert(list =~= seq!["password"@, "notes"@]);
        lemma_two_joined("password"@, "notes"@, comma);
    } else if bad_name {
        assert(list =~= seq!["name"@]);
    } else if bad_password {
        assert(list =~= seq!["password"@]);
    } else if bad_notes {
        assert(list =~= seq!["notes"@]);
    } else {
        assert(list =~= Seq::empty());
    }
}

proof fn lemma_two_joined(a: Seq<char>, b: Seq<char>, separator: Seq<char>)
    ensures
        text::joined(seq![a, b], separator) == a + separator + b,
{
    assert(seq![a, b].drop_last() =~= seq![a]);
    assert(text::joined(seq![a], separator) == a);
}

proof fn lemma_three_joined(a: Seq<char>, b: Seq<char>, c: Seq<char>, separator: Seq<char>)
    ensures
        text::joined(seq![a, b, c], separator) == a + separator + b + separator + c,
{
    assert(seq![a, b, c].drop_last() =~= seq![a, b]);
    lemma_two_joined(a, b, separator);
}

} // verus!
