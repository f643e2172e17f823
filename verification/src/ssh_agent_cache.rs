//! The file that keeps the public keys of the vault while it is locked.
use vstd::prelude::*;
use crate::ssh_keys::{bare_key, find_invalid, first_invalid, openssh_key};
use crate::text;

verus! {

/// The version of the file format.
pub const CACHE_VERSION: u8 = 1;

/// The permissions of the directory that holds the file.
pub const DIRECTORY_MODE: u32 = 0o700;

/// The permissions of the file.
pub const FILE_MODE: u32 = 0o600;

/// The contents of the file.
#[derive(Debug)]
pub struct Cache {
    pub version: u8,
    pub public_keys: Vec<String>,
}

/// What was found when the file was read.
#[derive(Debug)]
pub enum CacheFile<E> {
    Missing,
    Unreadable(E),
    Malformed(E),
    Parsed(Cache),
}

/// Why the file could not be read, written or removed.
#[derive(Debug)]
pub enum CacheError<E> {
    /// A key in the file or for the file is none, with the message of its error.
    InvalidKey(String),
    NoParent,
    /// A step failed; the text says which.
    Failed(String, E),
}

impl<E> CacheError<E> {
    /// The message of the error, without its cause.
    pub open spec fn spec_message(self) -> Seq<char> {
        match self {
            CacheError::InvalidKey(_) => "SSH agent cache contains an invalid public key"@,
            CacheError::NoParent => "SSH agent cache has no parent"@,
            CacheError::Failed(text, _) => text@,
        }
    }

    pub fn message(&self) -> (r: String)
        ensures
            r@ == self.spec_message(),
    {
        match self {
            CacheError::InvalidKey(_) => {
                "SSH agent cache contains an invalid public key".to_owned()
            },
            CacheError::NoParent => "SSH agent cache has no parent".to_owned(),
            CacheError::Failed(text, _) => text.clone(),
        }
    }
}

/// Whether every text stands for a public key.
pub open spec fn all_valid(public_keys: Seq<String>) -> bool {
    forall|i: int| 0 <= i < public_keys.len() ==> openssh_key(#[trigger] public_keys[i]@) is Ok
}

/// Whether the error is that of the first text that stands for no key.
pub open spec fn reports_invalid<E>(public_keys: Seq<String>, error: CacheError<E>) -> bool {
    &&& error matches CacheError::InvalidKey(message)
    &&& exists|i: int| #[trigger]
        first_invalid(public_keys, i) && (openssh_key(public_keys[i]@) matches Err(cause) && cause
            == message@)
}

/// Checks that every text stands for a public key.
pub fn validate_public_keys<E>(public_keys: &Vec<String>) -> (r: Result<(), CacheError<E>>)
    ensures
        match r {
            Ok(_) => all_valid(public_keys@),
            Err(error) => !all_valid(public_keys@) && reports_invalid(public_keys@, error),
        },
{
    match find_invalid(public_keys) {
        Some(message) => Err(CacheError::InvalidKey(message)),
        None => Ok(()),
    }
}

/// Whether `r` is what the file at `path` yields.
pub open spec fn loaded<E>(
    path: Seq<char>,
    file: CacheFile<E>,
    r: Result<Option<Vec<String>>, CacheError<E>>,
) -> bool {
    match file {
        CacheFile::Missing => r matches Ok(None),
        CacheFile::Unreadable(cause) => {
            &&& r matches Err(CacheError::Failed(text, error))
            &&& text@ == "failed to read SSH agent cache at "@ + path
            &&& error == cause
        },
        CacheFile::Malformed(cause) => {
            &&& r matches Err(CacheError::Failed(text, error))
            &&& text@ == "failed to parse SSH agent cache at "@ + path
            &&& error == cause
        },
        CacheFile::Parsed(cache) => if cache.version != CACHE_VERSION {
            r matches Ok(None)
        } else if all_valid(cache.public_keys@) {
            r matches Ok(Some(public_keys)) && public_keys == cache.public_keys
        } else {
            r matches Err(error) && reports_invalid(cache.public_keys@, error)
        },
    }
}

/// The public keys of the file at `path`. A file that is missing, or of another
/// version, yields none.
pub fn load<E>(path: &str, file: CacheFile<E>) -> (r: Result<Option<Vec<String>>, CacheError<E>>)
    ensures
        loaded(path@, file, r),
{
    let cache = match file {
        CacheFile::Missing => return Ok(None),
        CacheFile::Unreadable(error) => {
            return Err(
                CacheError::Failed(text::concat("failed to read SSH agent cache at ", path), error),
            );
        },
        CacheFile::Malformed(error) => {
            return Err(
                CacheError::Failed(text::concat("failed to parse SSH agent cache at ", path), error),
            );
        },
        CacheFile::Parsed(cache) => cache,
    };
    if cache.version != CACHE_VERSION {
        return Ok(None);
    }
    match validate_public_keys(&cache.public_keys) {
        Ok(_) => Ok(Some(cache.public_keys)),
        Err(error) => Err(error),
    }
}

/// A step of writing the file.
#[derive(Debug, Clone, Copy, PartialEq, Eq, Structural)]
pub enum SaveStep {
    /// Creates the directory that holds the file, where it is missing.
    CreateDirectory,
    /// Gives the directory [`DIRECTORY_MODE`].
    SecureDirectory,
    /// Creates a temporary file in the directory.
    CreateTemporary,
    /// Gives the temporary file [`FILE_MODE`].
    SecureTemporary,
    /// Writes the cache to the temporary file.
    Write,
    Flush,
    Sync,
    /// Puts the temporary file in the place of the file.
    Persist,
    /// Gives the file [`FILE_MODE`].
    SecureFile,
}

impl SaveStep {
    /// The number of the step, counted from zero.
    pub open spec fn position(self) -> int {
        match self {
            SaveStep::CreateDirectory => 0,
            SaveStep::SecureDirectory => 1,
            SaveStep::CreateTemporary => 2,
            SaveStep::SecureTemporary => 3,
            SaveStep::Write => 4,
            SaveStep::Flush => 5,
            SaveStep::Sync => 6,
            SaveStep::Persist => 7,
            SaveStep::SecureFile => 8,
        }
    }

    /// The step after this one.
    pub open spec fn following(self) -> Option<SaveStep> {
        match self {
            SaveStep::CreateDirectory => Some(SaveStep::SecureDirectory),
            SaveStep::SecureDirectory => Some(SaveStep::CreateTemporary),
            SaveStep::CreateTemporary => Some(SaveStep::SecureTemporary),
            SaveStep::SecureTemporary => Some(SaveStep::Write),
            SaveStep::Write => Some(SaveStep::Flush),
            SaveStep::Flush => Some(SaveStep::Sync),
            SaveStep::Sync => Some(SaveStep::Persist),
            SaveStep::Persist => Some(SaveStep::SecureFile),
            SaveStep::SecureFile => None,
        }
    }

    fn next(self) -> (r: Option<SaveStep>)
        ensures
            r == self.following(),
    {
        match self {
            SaveStep::CreateDirectory => Some(SaveStep::SecureDirectory),
            SaveStep::SecureDirectory => Some(SaveStep::CreateTemporary),
            SaveStep::CreateTemporary => Some(SaveStep::SecureTemporary),
            SaveStep::SecureTemporary => Some(SaveStep::Write),
            SaveStep::Write => Some(SaveStep::Flush),
            SaveStep::Flush => Some(SaveStep::Sync),
            SaveStep::Sync => Some(SaveStep::Persist),
            SaveStep::Persist => Some(SaveStep::SecureFile),
            SaveStep::SecureFile => None,
        }
    }

    /// The message for the step when it fails.
    pub open spec fn failure(self, path: Seq<char>, parent: Seq<char>) -> Seq<char> {
        match self {
            SaveStep::CreateDirectory => "failed to create SSH agent cache directory "@ + parent,
            SaveStep::SecureDirectory => "failed to secure SSH agent cache directory "@ + parent,
            SaveStep::CreateTemporary => "failed to create temporary SSH agent cache"@,
            SaveStep::SecureTemporary => "failed to secure temporary SSH agent cache"@,
            SaveStep::Write => "failed to serialize SSH agent cache"@,
            SaveStep::Flush => "failed to flush SSH agent cache"@,
            SaveStep::Sync => "failed to sync SSH agent cache"@,
            SaveStep::Persist => "failed to replace SSH agent cache at "@ + path,
            SaveStep::SecureFile => "failed to secure SSH agent cache at "@ + path,
        }
    }

    fn failure_text(self, path: &str, parent: &str) -> (r: String)
        ensures
            r@ == self.failure(path@, parent@),
    {
        match self {
            SaveStep::CreateDirectory => text::concat(
                "failed to create SSH agent cache directory ",
                parent,
            ),
            SaveStep::SecureDirectory => text::concat(
                "failed to secure SSH agent cache directory ",
                parent,
            ),
            SaveStep::CreateTemporary => "failed to create temporary SSH agent cache".to_owned(),
            SaveStep::SecureTemporary => "failed to secure temporary SSH agent cache".to_owned(),
            SaveStep::Write => "failed to serialize SSH agent cache".to_owned(),
            SaveStep::Flush => "failed to flush SSH agent cache".to_owned(),
            SaveStep::Sync => "failed to sync SSH agent cache".to_owned(),
            SaveStep::Persist => text::concat("failed to replace SSH agent cache at ", path),
            SaveStep::SecureFile => text::concat("failed to secure SSH agent cache at ", path),
        }
    }
}

/// Writing the file.
#[derive(Debug)]
pub enum Save<E> {
    Perform { step: SaveStep, path: String, parent: String, cache: Cache },
    Done(Result<(), CacheError<E>>),
}

/// What came of a step.
#[derive(Debug)]
pub enum SaveEvent<E> {
    Performed(Result<(), E>),
}

impl<E> Save<E> {
    /// Whether this is the first state of writing some keys.
    pub open spec fn starts(
        self,
        path: String,
        parent: Option<String>,
        public_keys: Vec<String>,
    ) -> bool {
        if !all_valid(public_keys@) {
            self matches Save::Done(Err(error)) && reports_invalid(public_keys@, error)
        } else {
            match parent {
                None => self == Self::Done(Err(CacheError::NoParent)),
                Some(directory) => self == (Self::Perform {
                    step: SaveStep::CreateDirectory,
                    path,
                    parent: directory,
                    cache: Cache { version: CACHE_VERSION, public_keys },
                }),
            }
        }
    }

    /// The first state: what is written are the given keys, if they all are
    /// keys, and if the file has a directory to stand in.
    pub fn start(path: String, parent: Option<String>, public_keys: Vec<String>) -> (r: Self)
        ensures
            r.starts(path, parent, public_keys),
    {
        if let Err(error) = validate_public_keys(&public_keys) {
            return Save::Done(Err(error));
        }
        match parent {
            None => Save::Done(Err(CacheError::NoParent)),
            Some(parent) => Save::Perform {
                step: SaveStep::CreateDirectory,
                path,
                parent,
                cache: Cache { version: CACHE_VERSION, public_keys },
            },
        }
    }

    /// Where an event leads.
    pub open spec fn steps_to(self, event: SaveEvent<E>, after: Self) -> bool {
        match (self, event) {
            (Save::Perform { step, path, parent, cache }, SaveEvent::Performed(result)) => {
                match result {
                    Ok(_) => after == match step.following() {
                        Some(next) => Self::Perform { step: next, path, parent, cache },
                        None => Self::Done(Ok(())),
                    },
                    Err(cause) => {
                        &&& after matches Save::Done(Err(CacheError::Failed(text, error)))
                        &&& text@ == step.failure(path@, parent@)
                        &&& error == cause
                    },
                }
            },
            (Save::Done(_), _) => after == self,
        }
    }
}

/// Moves the writing of the file on.
pub fn save<E>(state: Save<E>, event: SaveEvent<E>) -> (after: Save<E>)
    ensures
        state.steps_to(event, after),
{
    match (state, event) {
        (Save::Perform { step, path, parent, cache }, SaveEvent::Performed(result)) => {
            match result {
                Ok(_) => match step.next() {
                    Some(next) => Save::Perform { step: next, path, parent, cache },
                    None => Save::Done(Ok(())),
                },
                Err(error) => Save::Done(
                    Err(
                        CacheError::Failed(
                            step.failure_text(path.as_str(), parent.as_str()),
                            error,
                        ),
                    ),
                ),
            }
        },
        (state, _) => state,
    }
}

/// What came of removing the file.
#[derive(Debug)]
pub enum Removal<E> {
    Removed,
    /// There was no file.
    Missing,
    Failed(E),
}

/// Whether `r` is what removing the file at `path` yields.
pub open spec fn removed<E>(
    path: Seq<char>,
    removal: Removal<E>,
    r: Result<(), CacheError<E>>,
) -> bool {
    match removal {
        Removal::Removed => r is Ok,
        Removal::Missing => r is Ok,
        Removal::Failed(cause) => {
            &&& r matches Err(CacheError::Failed(text, error))
            &&& text@ == "failed to remove SSH agent cache at "@ + path
            &&& error == cause
        },
    }
}

/// The outcome of removing the file at `path`. It does not matter whether there
/// was one.
pub fn remove<E>(path: &str, removal: Removal<E>) -> (r: Result<(), CacheError<E>>)
    ensures
        removed(path@, removal, r),
{
    match removal {
        Removal::Removed => Ok(()),
        Removal::Missing => Ok(()),
        Removal::Failed(error) => Err(
            CacheError::Failed(text::concat("failed to remove SSH agent cache at ", path), error),
        ),
    }
}

/// Whether `events` lead through `states` one after the other.
pub open spec fn save_run<E>(states: Seq<Save<E>>, events: Seq<SaveEvent<E>>) -> bool {
    &&& states.len() == events.len() + 1
    &&& forall|i: int|
        0 <= i < events.len() ==> states[i].steps_to(#[trigger] events[i], states[i + 1])
}

/// The file is written in the order of the steps, each only once those before it
/// succeeded. So the old file is replaced only by one that is complete, on disk
/// and readable by its owner alone.
pub proof fn law_file_is_replaced_last<E>(
    states: Seq<Save<E>>,
    events: Seq<SaveEvent<E>>,
    n: int,
)
    requires
        save_run(states, events),
        states[0] matches Save::Perform { step: SaveStep::CreateDirectory, .. },
        0 <= n <= events.len(),
    ensures
        match states[n] {
            Save::Perform { step, path, parent, cache } => {
                &&& step.position() == n
                &&& forall|i: int| 0 <= i < n ==> (#[trigger] events[i])->Performed_0 is Ok
                &&& path == states[0]->Perform_path
                &&& parent == states[0]->Perform_parent
                &&& cache == states[0]->Perform_cache
            },
            Save::Done(Ok(_)) => {
                &&& 9 <= n
                &&& forall|i: int| 0 <= i < 9 ==> (#[trigger] events[i])->Performed_0 is Ok
            },
            Save::Done(Err(_)) => true,
        },
    decreases n,
{
    if n > 0 {
        law_file_is_replaced_last(states, events, n - 1);
        assert(states[n - 1].steps_to(events[n - 1], states[n]));
    }
}

/// Keys are written only if all of them are keys and the file has a directory to
/// stand in; otherwise nothing is done, and the error is that of the first text that
/// is no key, or says that there is no directory.
pub proof fn law_only_keys_are_written<E>(
    path: String,
    parent: Option<String>,
    public_keys: Vec<String>,
    r: Save<E>,
)
    requires
        r.starts(path, parent, public_keys),
    ensures
        r matches Save::Perform { step, path: p, parent: d, cache } ==> {
            &&& forall|i: int|
                0 <= i < public_keys@.len() ==> openssh_key(#[trigger] public_keys@[i]@) is Ok
            &&& step == SaveStep::CreateDirectory
            &&& p == path
            &&& parent == Some(d)
            &&& cache.version == 1
            &&& cache.public_keys == public_keys
        },
        r is Perform <==> parent is Some && forall|i: int|
            0 <= i < public_keys@.len() ==> openssh_key(#[trigger] public_keys@[i]@) is Ok,
        r matches Save::Done(Ok(_)) ==> false,
        r matches Save::Done(Err(error)) ==> match error {
            CacheError::InvalidKey(message) => exists|i: int|
                {
                    &&& 0 <= i < public_keys@.len()
                    &&& openssh_key(#[trigger] public_keys@[i]@) == Err::<
                        (Seq<u8>, Seq<char>),
                        Seq<char>,
                    >(message@)
                    &&& forall|k: int| 0 <= k < i ==> openssh_key(#[trigger] public_keys@[k]@) is Ok
                },
            CacheError::NoParent => parent is None,
            CacheError::Failed(_, _) => false,
        },
{
    if let Save::Done(Err(CacheError::InvalidKey(message))) = r {
        let i = choose|i: int| #[trigger]
            first_invalid(public_keys@, i) && (openssh_key(public_keys@[i]@) matches Err(cause)
                && cause == message@);
        assert(openssh_key(public_keys@[i]@) is Err);
    }
}

/// The file is written in nine steps: its directory is created and closed to others,
/// a temporary file in it is created, closed to others, written, flushed and brought
/// to disk, and then put in the place of the file, which is closed to others. Each is
/// done once those before it succeeded.
pub proof fn law_order_of_the_steps<E>(states: Seq<Save<E>>, events: Seq<SaveEvent<E>>, n: int)
    requires
        save_run(states, events),
        states[0] matches Save::Perform { step: SaveStep::CreateDirectory, .. },
        0 <= n <= events.len(),
    ensures
        states[n] matches Save::Perform { step, .. } ==> {
            &&& n == match step {
                SaveStep::CreateDirectory => 0,
                SaveStep::SecureDirectory => 1,
                SaveStep::CreateTemporary => 2,
                SaveStep::SecureTemporary => 3,
                SaveStep::Write => 4,
                SaveStep::Flush => 5,
                SaveStep::Sync => 6,
                SaveStep::Persist => 7,
                SaveStep::SecureFile => 8int,
            }
            &&& forall|i: int| 0 <= i < n ==> (#[trigger] states[i]) is Perform
            &&& forall|i: int| 0 <= i < n ==> (#[trigger] events[i])->Performed_0 is Ok
        },
        states[n] matches Save::Done(Ok(_)) ==> {
            &&& n >= 9
            &&& states[8] matches Save::Perform { step: SaveStep::SecureFile, .. }
            &&& events[8]->Performed_0 is Ok
        },
    decreases n,
{
    if n > 0 {
        law_order_of_the_steps(states, events, n - 1);
        assert(states[n - 1].steps_to(events[n - 1], states[n]));
    }
}

/// A step that fails ends the writing, with an error that says which step it was and
/// hands on its cause. The last step that succeeds ends it with success.
pub proof fn law_failed_step_says_which<E>(
    step: SaveStep,
    path: String,
    parent: String,
    cache: Cache,
    cause: E,
    failed: Save<E>,
    succeeded: Save<E>,
)
    requires
        (Save::Perform { step, path, parent, cache }).steps_to(
            SaveEvent::Performed(Err(cause)),
            failed,
        ),
        (Save::Perform { step, path, parent, cache }).steps_to(
            SaveEvent::Performed(Ok(())),
            succeeded,
        ),
    ensures
        failed matches Save::Done(Err(CacheError::Failed(text, error))) && error == cause && text@
            == match step {
            SaveStep::CreateDirectory => "failed to create SSH agent cache directory "@ + parent@,
            SaveStep::SecureDirectory => "failed to secure SSH agent cache directory "@ + parent@,
            SaveStep::CreateTemporary => "failed to create temporary SSH agent cache"@,
            SaveStep::SecureTemporary => "failed to secure temporary SSH agent cache"@,
            SaveStep::Write => "failed to serialize SSH agent cache"@,
            SaveStep::Flush => "failed to flush SSH agent cache"@,
            SaveStep::Sync => "failed to sync SSH agent cache"@,
            SaveStep::Persist => "failed to replace SSH agent cache at "@ + path@,
            SaveStep::SecureFile => "failed to secure SSH agent cache at "@ + path@,
        },
        step == SaveStep::SecureFile ==> succeeded matches Save::Done(Ok(_)),
        step != SaveStep::SecureFile ==> (succeeded matches Save::Perform {
            step: next,
            path: p,
            parent: d,
            cache: c,
        } && next != step && p == path && d == parent && c == cache),
{
}

/// What is said of an error of the cache. Where a step failed, it is the text that
/// names the step.
pub proof fn law_messages_of_the_cache<E>(message: String, cause: E)
    ensures
        CacheError::<E>::InvalidKey(message).spec_message()
            == "SSH agent cache contains an invalid public key"@,
        CacheError::<E>::NoParent.spec_message() == "SSH agent cache has no parent"@,
        CacheError::Failed(message, cause).spec_message() == message@,
{
}

/// A file that is there but cannot be read or parsed is an error that names the file
/// and hands on the cause, and so is one that cannot be removed. A file that is not
/// there yields no keys.
pub proof fn law_trouble_names_the_file<E>(
    path: Seq<char>,
    cause: E,
    missing: Result<Option<Vec<String>>, CacheError<E>>,
    unreadable: Result<Option<Vec<String>>, CacheError<E>>,
    malformed: Result<Option<Vec<String>>, CacheError<E>>,
    stuck: Result<(), CacheError<E>>,
)
    requires
        loaded(path, CacheFile::Missing, missing),
        loaded(path, CacheFile::Unreadable(cause), unreadable),
        loaded(path, CacheFile::Malformed(cause), malformed),
        removed(path, Removal::Failed(cause), stuck),
    ensures
        missing matches Ok(None),
        unreadable matches Err(CacheError::Failed(text, error)) && error == cause && text@
            == "failed to read SSH agent cache at "@ + path,
        malformed matches Err(CacheError::Failed(text, error)) && error == cause && text@
            == "failed to parse SSH agent cache at "@ + path,
        stuck matches Err(CacheError::Failed(text, error)) && error == cause && text@
            == "failed to remove SSH agent cache at "@ + path,
{
}

/// Whether the file is what it is once the given keys were written to it.
pub open spec fn written<E>(public_keys: Vec<String>, file: CacheFile<E>) -> bool {
    &&& all_valid(public_keys@)
    &&& file matches CacheFile::Parsed(cache)
    &&& cache.version == CACHE_VERSION
    &&& cache.public_keys.deep_view() == public_keys.deep_view()
}

/// A run that wrote the file leaves it as it is once its keys were written, if the
/// step that writes puts down what it is given.
pub proof fn law_saved_keys_are_written<E, X>(
    states: Seq<Save<E>>,
    events: Seq<SaveEvent<E>>,
    public_keys: Vec<String>,
    file: CacheFile<X>,
)
    requires
        save_run(states, events),
        all_valid(public_keys@),
        states[0] matches Save::Perform { step: SaveStep::CreateDirectory, cache, .. } && cache
            == (Cache { version: CACHE_VERSION, public_keys }),
        forall|i: int|
            0 <= i < events.len() ==> (#[trigger] states[i] matches Save::Perform {
                step: SaveStep::Write,
                cache,
                ..
            } ==> file == CacheFile::<X>::Parsed(cache)),
        states.last() == Save::<E>::Done(Ok(())),
    ensures
        written(public_keys, file),
{
    law_file_is_replaced_last(states, events, events.len() as int);
    law_file_is_replaced_last(states, events, 4);
    if states[4] is Done {
        lemma_done_stays(states, events, 4, events.len() as int);
    }
}

proof fn lemma_done_stays<E>(
    states: Seq<Save<E>>,
    events: Seq<SaveEvent<E>>,
    from: int,
    to: int,
)
    requires
        save_run(states, events),
        0 <= from <= to <= events.len(),
        states[from] is Done,
    ensures
        states[to] == states[from],
    decreases to - from,
{
    if from < to {
        assert(states[from].steps_to(events[from], states[from + 1]));
        lemma_done_stays(states, events, from + 1, to);
    }
}

/// The keys that a file was written with are read back from it.
pub proof fn law_saved_keys_are_loaded<E>(
    public_keys: Vec<String>,
    path: Seq<char>,
    r: Result<Option<Vec<String>>, CacheError<E>>,
)
    requires
        all_valid(public_keys@),
        loaded(
            path,
            CacheFile::<E>::Parsed(Cache { version: CACHE_VERSION, public_keys }),
            r,
        ),
    ensures
        r == Ok::<Option<Vec<String>>, CacheError<E>>(Some(public_keys)),
{
}

/// What reading the file at `path` finds on a disk with the given files.
pub open spec fn found<E>(
    disk: Map<Seq<char>, CacheFile<E>>,
    path: Seq<char>,
) -> CacheFile<E> {
    if disk.contains_key(path) {
        disk[path]
    } else {
        CacheFile::Missing
    }
}

/// Whether removing the file at `path` can come out so, and leave these files.
pub open spec fn removes<E>(
    before: Map<Seq<char>, CacheFile<E>>,
    path: Seq<char>,
    removal: Removal<E>,
    after: Map<Seq<char>, CacheFile<E>>,
) -> bool {
    match removal {
        Removal::Removed => before.contains_key(path) && after == before.remove(path),
        Removal::Missing => !before.contains_key(path) && after == before,
        Removal::Failed(_) => after == before,
    }
}

/// After a removal that succeeded, the file yields no keys, and whatever comes of
/// removing it once more, unless that fails on the disk, is a success too. A
/// removal fails exactly where the disk fails it. No other file is touched, so
/// the keys of other accounts stay.
pub proof fn law_removed_file_is_gone<E>(
    before: Map<Seq<char>, CacheFile<E>>,
    after: Map<Seq<char>, CacheFile<E>>,
    path: Seq<char>,
    removal: Removal<E>,
    r: Result<(), CacheError<E>>,
)
    requires
        removes(before, path, removal, after),
        removed(path, removal, r),
    ensures
        r is Err <==> removal is Failed,
        r is Ok ==> forall|yielded: Result<Option<Vec<String>>, CacheError<E>>| #[trigger]
            loaded(path, found(after, path), yielded) ==> yielded == Ok::<
                Option<Vec<String>>,
                CacheError<E>,
            >(None),
        r is Ok ==> forall|
            again: Removal<E>,
            last: Map<Seq<char>, CacheFile<E>>,
            second: Result<(), CacheError<E>>,
        |
            #![trigger removes(after, path, again, last), removed(path, again, second)]
            removes(after, path, again, last) && removed(path, again, second) && !(again is Failed)
                ==> second is Ok && again is Missing && last == after,
        forall|other: Seq<char>| other != path ==> #[trigger] found(after, other) == found(
            before,
            other,
        ),
{
}

/// Nothing is written and nothing is read but texts that stand for public keys.
pub proof fn law_invalid_keys_are_refused<E>(
    cache: Cache,
    path: Seq<char>,
    r: Result<Option<Vec<String>>, CacheError<E>>,
)
    requires
        loaded(path, CacheFile::<E>::Parsed(cache), r),
    ensures
        r matches Ok(Some(public_keys)) ==> all_valid(public_keys@),
        cache.version == CACHE_VERSION && !all_valid(cache.public_keys@) ==> r is Err,
        cache.version != CACHE_VERSION ==> r == Ok::<Option<Vec<String>>, CacheError<E>>(None),
{
}

/// Texts that stand for keys without a comment, as a refresh of the cache makes
/// them, can be written.
pub proof fn law_refreshed_keys_can_be_saved(public_keys: Seq<String>)
    requires
        forall|i: int| 0 <= i < public_keys.len() ==> bare_key(#[trigger] public_keys[i]@),
    ensures
        all_valid(public_keys),
{
    assert forall|i: int| 0 <= i < public_keys.len() implies openssh_key(
        #[trigger] public_keys[i]@,
    ) is Ok by {
        assert(bare_key(public_keys[i]@));
    }
}

} // verus!
