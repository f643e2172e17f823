use rbw_agent::config::Config;
use rbw_agent::db::{Db, Entry, EntryData, OrgKeys};
use rbw_agent::dbcheck::{
    base_keys, check_entry, open_entry, prepare_scan, report_entry, scan, scan_header, Access,
    Fields, OpenEntry, OpenEntryEvent, Opened, Part, PrepareScan, PrepareScanEvent, Quoted,
};
use rbw_agent::error::Error;

fn login_entry(id: &str) -> Entry {
    Entry {
        id: id.to_string(),
        org_id: None,
        key: None,
        name: "sealed name".to_string(),
        notes: Some("sealed notes".to_string()),
        data: EntryData::Login {
            username: Some("sealed user".to_string()),
            password: Some("sealed pw".to_string()),
        },
    }
}

fn bytes(text: &str) -> Option<Vec<u8>> {
    Some(text.as_bytes().to_vec())
}

fn fields() -> Fields {
    Fields {
        name: bytes("Mail \"x\""),
        username: bytes("me"),
        password: bytes("pw"),
        notes: bytes("n"),
    }
}

#[test]
fn sound_entry_is_ok() {
    let report = check_entry(&login_entry("1"), &Access::Opened(fields()));
    assert_eq!(report.lines, vec!["  1  OK  name=\"Mail \\\"x\\\"\"".to_string()]);
    assert!(!report.corrupt);
}

#[test]
fn quoted_texts_are_shown_as_given() {
    let shown = Quoted {
        id: "I".to_string(),
        org_id: "O".to_string(),
        name: "N".to_string(),
        username: "U".to_string(),
        password: "P".to_string(),
    };
    let report = report_entry(&login_entry("1"), &Access::Opened(fields()), &shown);
    assert_eq!(report.lines, vec!["  1  OK  name=N".to_string()]);
    let report = report_entry(&login_entry("1"), &Access::NoKeys, &shown);
    assert_eq!(
        report.lines,
        vec!["  I MISSING KEY for org None (sealed name entries corrupt?)".to_string()]
    );
    let mut opened = fields();
    opened.password = None;
    let report = report_entry(&login_entry("1"), &Access::Opened(opened), &shown);
    assert_eq!(
        report.lines,
        vec!["  1  CORRUPT (key_src=master, item_key=false)  parts=[password]  name=N  user=U  pw=P".to_string()]
    );
}

#[test]
fn absent_parts_do_not_count() {
    let mut entry = login_entry("1");
    entry.notes = None;
    entry.data = EntryData::Login { username: None, password: None };
    let opened = Fields { name: bytes("n"), username: None, password: None, notes: None };
    assert!(!check_entry(&entry, &Access::Opened(opened)).corrupt);
    entry.data = EntryData::Other;
    let opened = Fields { name: bytes("n"), username: None, password: None, notes: None };
    assert!(!check_entry(&entry, &Access::Opened(opened)).corrupt);
}

#[test]
fn corrupt_parts_are_listed() {
    let mut entry = login_entry("1");
    entry.org_id = Some("o".to_string());
    entry.key = Some("k".to_string());
    let opened = Fields { name: None, username: bytes("me"), password: None, notes: None };
    let report = check_entry(&entry, &Access::Opened(opened));
    assert!(report.corrupt);
    assert_eq!(
        report.lines,
        vec![
            "  1  NAME_DECRYPT_FAIL".to_string(),
            "  1  CORRUPT (key_src=org:o, item_key=true)  parts=[name,password,notes]  name=\"\"  user=\"me\"  pw=\"\"".to_string(),
        ]
    );
    let mut opened = fields();
    opened.notes = None;
    opened.username = None;
    opened.password = Some(vec![b'p', 0xff]);
    let report = check_entry(&login_entry("2"), &Access::Opened(opened));
    assert_eq!(
        report.lines,
        vec!["  2  CORRUPT (key_src=master, item_key=false)  parts=[notes]  name=\"Mail \\\"x\\\"\"  user=\"\"  pw=\"p\u{fffd}\"".to_string()]
    );
}

#[test]
fn entries_that_cannot_be_opened_are_corrupt() {
    let mut entry = login_entry("1");
    entry.org_id = Some("o".to_string());
    let report = check_entry(&entry, &Access::NoKeys);
    assert!(report.corrupt);
    assert_eq!(
        report.lines,
        vec!["  \"1\" MISSING KEY for org Some(\"o\") (sealed name entries corrupt?)".to_string()]
    );
    let report = check_entry(&entry, &Access::NoItemKey("bad mac".to_string()));
    assert!(report.corrupt);
    assert_eq!(report.lines, vec!["  1  KEY_DECRYPT_FAIL  bad mac".to_string()]);
}

#[test]
fn scan_counts_the_corrupt_entries() {
    let mut nameless = fields();
    nameless.name = None;
    let report = scan(&vec![
        Opened { entry: login_entry("1"), access: Access::Opened(fields()) },
        Opened { entry: login_entry("2"), access: Access::NoItemKey("e".to_string()) },
        Opened { entry: login_entry("3"), access: Access::Opened(nameless) },
    ]);
    assert_eq!(report.corrupt, 2);
    assert_eq!(report.lines.len(), 5);
    assert_eq!(report.lines[4], "done: 2 corrupt entries");
    let report = scan(&vec![]);
    assert_eq!(report.corrupt, 0);
    assert_eq!(report.lines, vec!["done: 0 corrupt entries".to_string()]);
    assert_eq!(scan_header(12, 0), "scanning 12 entries (0 org keys available)");
}

/// Opens an entry: texts decrypt to what follows the word `sealed`, except for
/// those in `broken`.
fn opened(entry: Entry, broken: &[&str]) -> (Vec<Part>, Opened) {
    let mut parts = vec![];
    let mut state: OpenEntry<i32> = OpenEntry::start(entry, Some(7));
    loop {
        let event = match &state {
            OpenEntry::OpenItemKey { keys, entry_key, .. } => {
                assert_eq!(*keys, 7);
                OpenEntryEvent::ItemKeyOpened(if broken.contains(&entry_key.as_str()) {
                    Err("bad mac".to_string())
                } else {
                    Ok(8)
                })
            }
            OpenEntry::OpenPart { entry, keys, item_keys, part, sealed, .. } => {
                assert_eq!(*keys, 7);
                assert_eq!(*item_keys, entry.key.as_ref().map(|_| 8));
                parts.push(*part);
                OpenEntryEvent::PartOpened(if broken.contains(&sealed.as_str()) {
                    None
                } else {
                    bytes(&sealed["sealed ".len()..])
                })
            }
            OpenEntry::Done(_) => break,
        };
        state = open_entry(state, event);
    }
    match state {
        OpenEntry::Done(opened) => (parts, opened),
        other => panic!("{:?}", other),
    }
}

#[test]
fn every_part_of_an_entry_is_opened() {
    let (parts, found) = opened(login_entry("1"), &["sealed pw"]);
    assert_eq!(parts, vec![Part::Name, Part::Username, Part::Password, Part::Notes]);
    assert_eq!(found.entry.id, "1");
    match found.access {
        Access::Opened(fields) => {
            assert_eq!(fields.name, bytes("name"));
            assert_eq!(fields.username, bytes("user"));
            assert_eq!(fields.password, None);
            assert_eq!(fields.notes, bytes("notes"));
        }
        other => panic!("{:?}", other),
    }
    let mut entry = login_entry("2");
    entry.key = Some("item key".to_string());
    entry.notes = None;
    entry.data = EntryData::Other;
    let (parts, found) = opened(entry, &[]);
    assert_eq!(parts, vec![Part::Name]);
    match found.access {
        Access::Opened(fields) => {
            assert_eq!(fields.name, bytes("name"));
            assert_eq!(fields.username, None);
            assert_eq!(fields.password, None);
            assert_eq!(fields.notes, None);
        }
        other => panic!("{:?}", other),
    }
}

#[test]
fn entry_without_usable_keys_is_not_opened() {
    match OpenEntry::<i32>::start(login_entry("1"), None) {
        OpenEntry::Done(found) => assert!(matches!(found.access, Access::NoKeys)),
        other => panic!("{:?}", other),
    }
    let mut entry = login_entry("2");
    entry.key = Some("item key".to_string());
    let (parts, found) = opened(entry, &["item key"]);
    assert!(parts.is_empty());
    match found.access {
        Access::NoItemKey(message) => assert_eq!(message, "bad mac"),
        other => panic!("{:?}", other),
    }
}

#[test]
fn keys_of_the_organisation_are_used() {
    let mut org_keys = OrgKeys::new();
    assert_eq!(org_keys.len(), 0);
    org_keys.insert("o".to_string(), 4);
    org_keys.insert("q".to_string(), 6);
    org_keys.insert("o".to_string(), 5);
    assert_eq!(org_keys.len(), 2);
    let mut entry = login_entry("1");
    assert_eq!(base_keys(&entry, &1, &org_keys), Some(&1));
    entry.org_id = Some("o".to_string());
    assert_eq!(base_keys(&entry, &1, &org_keys), Some(&5));
    entry.org_id = Some("p".to_string());
    assert_eq!(base_keys(&entry, &1, &org_keys), None);
}

type State = PrepareScan<u8, u16, String, i32, String>;
type Event = PrepareScanEvent<u8, u16, String, i32, String>;

fn database() -> Db<u8, u16, Vec<Entry>> {
    Db {
        access_token: None,
        refresh_token: None,
        kdf: Some(1),
        iterations: Some(2),
        memory: Some(3),
        parallelism: Some(4),
        protected_key: Some("key".to_string()),
        protected_private_key: Some("private".to_string()),
        protected_org_keys: 5,
        entries: vec![login_entry("1")],
    }
}

fn asked(db: Db<u8, u16, Vec<Entry>>) -> State {
    let config = Config {
        email: Some("a@example.com".to_string()),
        base_url: Some("https://v".to_string()),
        pinentry: "pin".to_string(),
        ..Config::new()
    };
    let state: State = prepare_scan(PrepareScan::LoadConfig, Event::ConfigLoaded(Ok(config)));
    match &state {
        PrepareScan::LoadDb { server, email, .. } => {
            assert_eq!(server, "https://v");
            assert_eq!(email, "a@example.com");
        }
        other => panic!("{:?}", other),
    }
    prepare_scan(state, Event::DbLoaded(Ok(db)))
}

#[test]
fn scan_unlocks_the_vault_first() {
    let state = asked(database());
    match &state {
        PrepareScan::AskPassword { prompt, pinentry, .. } => {
            assert_eq!(pinentry, "pin");
            assert_eq!(prompt.title, "Master Password");
            assert_eq!(prompt.description, "Scan vault for corrupt entries");
            assert_eq!(prompt.error, None);
            assert!(prompt.grab);
        }
        other => panic!("{:?}", other),
    }
    let state = prepare_scan(state, Event::Answered(Ok("pw".to_string())));
    match &state {
        PrepareScan::Unlock { email, password, secrets, .. } => {
            assert_eq!(email, "a@example.com");
            assert_eq!(password, "pw");
            assert_eq!(secrets.iterations, 2);
            assert_eq!(secrets.protected_org_keys, 5);
        }
        other => panic!("{:?}", other),
    }
    match prepare_scan(state, Event::Unlocked(Ok((7, OrgKeys::new())))) {
        PrepareScan::Done(Ok((keys, _, entries))) => {
            assert_eq!(keys, 7);
            assert_eq!(entries[0].id, "1");
        }
        other => panic!("{:?}", other),
    }
}

fn lacks(change: impl Fn(&mut Db<u8, u16, Vec<Entry>>)) -> String {
    let mut db = database();
    change(&mut db);
    match prepare_scan(asked(db), Event::Answered(Ok("pw".to_string()))) {
        PrepareScan::Done(Err(Error::Refused(failure))) => failure.message(),
        other => panic!("{:?}", other),
    }
}

#[test]
fn failures_of_a_scan_are_told_apart() {
    assert_eq!(lacks(|db| db.kdf = None), "failed to find kdf type in db");
    assert_eq!(lacks(|db| db.iterations = None), "failed to find kdf iterations");
    assert_eq!(lacks(|db| db.protected_key = None), "missing protected_key");
    assert_eq!(lacks(|db| db.protected_private_key = None), "missing protected_private_key");
    let state: State = prepare_scan(PrepareScan::LoadConfig, Event::ConfigLoaded(Ok(Config::new())));
    match state {
        PrepareScan::Done(Err(Error::Refused(failure))) => {
            assert_eq!(failure.message(), "failed to find email in config");
        }
        other => panic!("{:?}", other),
    }
    let state = PrepareScan::LoadDb {
        server: "s".to_string(),
        email: "e".to_string(),
        pinentry: "p".to_string(),
    };
    match prepare_scan(state, Event::DbLoaded(Err("no file".to_string()))) {
        PrepareScan::Done(Err(Error::Caused(failure, cause))) => {
            assert_eq!(failure.message(), "failed to load db");
            assert_eq!(cause, "no file");
        }
        other => panic!("{:?}", other),
    }
}
