use rbw_agent::ssh_agent_cache::{
    load, remove, save, Cache, CacheError, CacheFile, Removal, Save, SaveEvent, SaveStep,
    DIRECTORY_MODE, FILE_MODE,
};

const TEST_KEY: &str =
    "ssh-ed25519 AAAAC3NzaC1lZDI1NTE5AAAAIAAAAAAAAAAAAAAAAAAAAAAAAAAAAAAAAAAAAAAAAAAA";
const PATH: &str = "/cache/identities.json";

/// A directory with at most one file, and what was done to it.
#[derive(Default)]
struct Disk {
    directory_mode: u32,
    temporary: Option<(u32, String)>,
    file: Option<(u32, String)>,
}

fn to_json(cache: &Cache) -> String {
    let keys: Vec<serde_json::Value> =
        cache.public_keys.iter().map(|k| serde_json::Value::from(k.clone())).collect();
    let mut object = serde_json::Map::new();
    object.insert("version".to_string(), serde_json::Value::from(cache.version));
    object.insert("public_keys".to_string(), serde_json::Value::from(keys));
    serde_json::Value::Object(object).to_string()
}

fn from_json(text: &str) -> Option<Cache> {
    let value: serde_json::Value = serde_json::from_str(text).ok()?;
    Some(Cache {
        version: u8::try_from(value.get("version")?.as_u64()?).ok()?,
        public_keys: value
            .get("public_keys")?
            .as_array()?
            .iter()
            .map(|k| k.as_str().map(|k| k.to_string()))
            .collect::<Option<Vec<String>>>()?,
    })
}

impl Disk {
    fn perform(&mut self, step: SaveStep, cache: &Cache) {
        match step {
            SaveStep::CreateDirectory | SaveStep::Flush | SaveStep::Sync => {}
            SaveStep::SecureDirectory => self.directory_mode = DIRECTORY_MODE,
            SaveStep::CreateTemporary => self.temporary = Some((0o644, String::new())),
            SaveStep::SecureTemporary => self.temporary.as_mut().unwrap().0 = FILE_MODE,
            SaveStep::Write => self.temporary.as_mut().unwrap().1 = to_json(cache),
            SaveStep::Persist => self.file = self.temporary.take(),
            SaveStep::SecureFile => self.file.as_mut().unwrap().0 = FILE_MODE,
        }
    }

    fn save_to_path(&mut self, public_keys: &[String]) -> Result<(), CacheError<String>> {
        let mut state: Save<String> =
            Save::start(PATH.to_string(), Some("/cache".to_string()), public_keys.to_vec());
        loop {
            match &state {
                Save::Perform { step, cache, .. } => self.perform(*step, cache),
                Save::Done(_) => break,
            }
            state = save(state, SaveEvent::Performed(Ok(())));
        }
        match state {
            Save::Done(result) => result,
            other => panic!("{:?}", other),
        }
    }

    fn load_from_path(&self) -> Result<Option<Vec<String>>, CacheError<String>> {
        let file = match &self.file {
            None => CacheFile::Missing,
            Some((_, text)) => match from_json(text) {
                Some(cache) => CacheFile::Parsed(cache),
                None => CacheFile::Malformed("syntax".to_string()),
            },
        };
        load(PATH, file)
    }

    fn remove_path(&mut self) -> Result<(), CacheError<String>> {
        let removal = match self.file.take() {
            Some(_) => Removal::Removed,
            None => Removal::Missing,
        };
        remove(PATH, removal)
    }
}

#[test]
fn cache_roundtrip_is_private_and_replaceable() {
    let mut disk = Disk::default();

    disk.save_to_path(&[TEST_KEY.to_string()]).unwrap();
    assert_eq!(disk.load_from_path().unwrap(), Some(vec![TEST_KEY.to_string()]));
    assert_eq!(disk.file.as_ref().unwrap().0 & 0o777, 0o600);
    assert_eq!(disk.directory_mode, 0o700);

    disk.save_to_path(&[]).unwrap();
    assert_eq!(disk.load_from_path().unwrap(), Some(Vec::new()));
}

#[test]
fn cache_rejects_invalid_keys_and_ignores_other_versions() {
    let mut disk = Disk::default();

    assert!(disk.save_to_path(&["not a key".to_string()]).is_err());
    assert!(disk.file.is_none());
    disk.file = Some((0o600, r#"{"version":1,"public_keys":["not a key"]}"#.to_string()));
    let error = disk.load_from_path().unwrap_err();
    assert_eq!(error.message(), "SSH agent cache contains an invalid public key");
    disk.file = Some((0o600, r#"{"version":2,"public_keys":["not a key"]}"#.to_string()));
    assert_eq!(disk.load_from_path().unwrap(), None);
}

#[test]
fn remove_is_idempotent() {
    let mut disk = Disk { file: Some((0o600, "cache".to_string())), ..Disk::default() };

    disk.remove_path().unwrap();
    disk.remove_path().unwrap();
    assert!(disk.file.is_none());
}

#[test]
fn removed_cache_yields_no_keys() {
    let mut disk = Disk::default();
    disk.save_to_path(&[TEST_KEY.to_string()]).unwrap();
    disk.remove_path().unwrap();
    assert_eq!(disk.load_from_path().unwrap(), None);

    disk.save_to_path(&[TEST_KEY.to_string()]).unwrap();
    assert!(remove(PATH, Removal::Failed(7)).is_err());
    assert_eq!(disk.load_from_path().unwrap(), Some(vec![TEST_KEY.to_string()]));
}

#[test]
fn missing_cache_is_no_error() {
    assert_eq!(Disk::default().load_from_path().unwrap(), None);
}

#[test]
fn failures_of_the_cache_are_told_apart() {
    let error = load(PATH, CacheFile::Unreadable(5)).unwrap_err();
    assert_eq!(error.message(), "failed to read SSH agent cache at /cache/identities.json");
    assert!(matches!(error, CacheError::Failed(_, 5)));
    let error = load(PATH, CacheFile::Malformed(6)).unwrap_err();
    assert_eq!(error.message(), "failed to parse SSH agent cache at /cache/identities.json");
    let error = remove(PATH, Removal::Failed(7)).unwrap_err();
    assert_eq!(error.message(), "failed to remove SSH agent cache at /cache/identities.json");
    let state: Save<i32> = Save::start(PATH.to_string(), None, vec![]);
    match state {
        Save::Done(Err(error)) => assert_eq!(error.message(), "SSH agent cache has no parent"),
        other => panic!("{:?}", other),
    }
}

#[test]
fn each_step_of_writing_has_its_message() {
    let expected = [
        "failed to create SSH agent cache directory /cache",
        "failed to secure SSH agent cache directory /cache",
        "failed to create temporary SSH agent cache",
        "failed to secure temporary SSH agent cache",
        "failed to serialize SSH agent cache",
        "failed to flush SSH agent cache",
        "failed to sync SSH agent cache",
        "failed to replace SSH agent cache at /cache/identities.json",
        "failed to secure SSH agent cache at /cache/identities.json",
    ];
    for (failing, message) in expected.iter().enumerate() {
        let mut state: Save<usize> =
            Save::start(PATH.to_string(), Some("/cache".to_string()), vec![]);
        for _ in 0..failing {
            state = save(state, SaveEvent::Performed(Ok(())));
        }
        state = save(state, SaveEvent::Performed(Err(failing)));
        match state {
            Save::Done(Err(error)) => {
                assert_eq!(error.message(), *message);
                assert!(matches!(error, CacheError::Failed(_, cause) if cause == failing));
            }
            other => panic!("{:?}", other),
        }
    }
}
