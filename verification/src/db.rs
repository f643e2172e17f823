//! The local database of a vault, as far as the agent reads and writes it.
//!
//! `T` stands for the kind of key derivation, `O` for the protected keys of
//! organisations and `N` for the list of entries: the agent only carries those.
use vstd::prelude::*;
use crate::config::Config;
use crate::error::Failure;

verus! {

/// The local copy of a vault.
#[derive(Debug, Clone)]
pub struct Db<T, O, N> {
    pub access_token: Option<String>,
    pub refresh_token: Option<String>,
    pub kdf: Option<T>,
    pub iterations: Option<u32>,
    pub memory: Option<u32>,
    pub parallelism: Option<u32>,
    pub protected_key: Option<String>,
    pub protected_private_key: Option<String>,
    pub protected_org_keys: O,
    pub entries: N,
}

/// What is needed, beside the password, to unlock a vault.
#[derive(Debug, Clone)]
pub struct Secrets<T, O> {
    pub kdf: T,
    pub iterations: u32,
    pub memory: Option<u32>,
    pub parallelism: Option<u32>,
    pub protected_key: String,
    pub protected_private_key: String,
    pub protected_org_keys: O,
}

impl<T, O, N> Db<T, O, N> {
    /// The first thing missing that is needed to unlock the vault.
    pub open spec fn missing(self) -> Option<Failure> {
        if self.kdf is None {
            Some(Failure::MissingKdf)
        } else if self.iterations is None {
            Some(Failure::MissingIterations)
        } else if self.protected_key is None {
            Some(Failure::MissingProtectedKey)
        } else if self.protected_private_key is None {
            Some(Failure::MissingProtectedPrivateKey)
        } else {
            None
        }
    }

    /// What is needed to unlock the vault, where nothing is missing.
    pub open spec fn spec_secrets(self) -> Secrets<T, O> {
        Secrets {
            kdf: self.kdf->0,
            iterations: self.iterations->0,
            memory: self.memory,
            parallelism: self.parallelism,
            protected_key: self.protected_key->0,
            protected_private_key: self.protected_private_key->0,
            protected_org_keys: self.protected_org_keys,
        }
    }

    /// Takes out what is needed to unlock the vault.
    pub fn secrets(self) -> (r: Result<Secrets<T, O>, Failure>)
        ensures
            r == match self.missing() {
                Some(failure) => Err(failure),
                None => Ok(self.spec_secrets()),
            },
    {
        let kdf = match self.kdf {
            Some(kdf) => kdf,
            None => return Err(Failure::MissingKdf),
        };
        let iterations: u32 = match self.iterations {
            Some(iterations) => iterations,
            None => return Err(Failure::MissingIterations),
        };
        let protected_key = match self.protected_key {
            Some(key) => key,
            None => return Err(Failure::MissingProtectedKey),
        };
        let protected_private_key = match self.protected_private_key {
            Some(key) => key,
            None => return Err(Failure::MissingProtectedPrivateKey),
        };
        Ok(
            Secrets {
                kdf,
                iterations,
                memory: self.memory,
                parallelism: self.parallelism,
                protected_key,
                protected_private_key,
                protected_org_keys: self.protected_org_keys,
            },
        )
    }
}

/// The contents of an entry, in their encrypted form.
#[derive(Debug, Clone)]
pub enum EntryData {
    Login { username: Option<String>, password: Option<String> },
    SshKey { private_key: Option<String>, public_key: Option<String> },
    Other,
}

/// One entry of a vault. Its texts are encrypted, with the key of the entry
/// where it has one, else with that of its organisation or its owner.
#[derive(Debug, Clone)]
pub struct Entry {
    pub id: String,
    pub org_id: Option<String>,
    pub key: Option<String>,
    pub name: String,
    pub notes: Option<String>,
    pub data: EntryData,
}

/// The decryption keys of organisations, by their identifiers. They are kept as
/// pairs, of which the last one with an identifier counts: what a hash map of std
/// holds under keys that are texts is not specified, and the one of vstd that is
/// made for such keys can neither be cloned nor shown.
#[derive(Debug, Clone)]
pub struct OrgKeys<K> {
    pairs: Vec<(String, K)>,
}

impl<K> View for OrgKeys<K> {
    type V = Map<Seq<char>, K>;

    closed spec fn view(&self) -> Map<Seq<char>, K> {
        org_map(self.pairs@)
    }
}

spec fn org_map<K>(pairs: Seq<(String, K)>) -> Map<Seq<char>, K>
    decreases pairs.len(),
{
    if pairs.len() == 0 {
        Map::empty()
    } else {
        org_map(pairs.drop_last()).insert(pairs.last().0@, pairs.last().1)
    }
}

impl<K> OrgKeys<K> {
    /// No keys at all.
    pub fn new() -> (r: Self)
        ensures
            r@ == Map::<Seq<char>, K>::empty(),
    {
        OrgKeys { pairs: Vec::new() }
    }

    /// Sets the key of an organisation.
    pub fn insert(&mut self, org_id: String, keys: K)
        ensures
            final(self)@ == old(self)@.insert(org_id@, keys),
    {
        let ghost before = self.pairs@;
        self.pairs.push((org_id, keys));
        assert(self.pairs@.drop_last() =~= before);
    }

    /// How many organisations have a key.
    pub fn len(&self) -> (r: usize)
        ensures
            r == self@.dom().len(),
    {
        let mut count: usize = 0;
        let mut i: usize = 0;
        assert(self.pairs@.take(0) =~= Seq::empty());
        while i < self.pairs.len()
            invariant
                i <= self.pairs@.len(),
                count <= i,
                org_map(self.pairs@.take(i as int)).dom().finite(),
                count == org_map(self.pairs@.take(i as int)).dom().len(),
            decreases self.pairs@.len() - i,
        {
            assert(self.pairs@.take(i + 1).drop_last() =~= self.pairs@.take(i as int));
            if self.find(self.pairs[i].0.as_str(), i).is_none() {
                count = count + 1;
            }
            i = i + 1;
        }
        assert(self.pairs@.take(i as int) =~= self.pairs@);
        count
    }

    /// Finds the key of an organisation.
    pub fn get(&self, org_id: &str) -> (r: Option<&K>)
        ensures
            match r {
                Some(keys) => self@.dom().contains(org_id@) && *keys == self@[org_id@],
                None => !self@.dom().contains(org_id@),
            },
    {
        assert(self.pairs@.take(self.pairs@.len() as int) =~= self.pairs@);
        self.find(org_id, self.pairs.len())
    }

    /// Finds the key of an organisation among the first `n` pairs.
    fn find(&self, org_id: &str, n: usize) -> (r: Option<&K>)
        requires
            n <= self.pairs@.len(),
        ensures
            ({
                let map = org_map(self.pairs@.take(n as int));
                match r {
                    Some(keys) => map.dom().contains(org_id@) && *keys == map[org_id@],
                    None => !map.dom().contains(org_id@),
                }
            }),
    {
        let mut i: usize = n;
        let ghost map = org_map(self.pairs@.take(n as int));
        while i > 0
            invariant
                i <= n <= self.pairs@.len(),
                map == org_map(self.pairs@.take(n as int)),
                map.dom().contains(org_id@) == org_map(self.pairs@.take(i as int)).dom().contains(
                    org_id@,
                ),
                map.dom().contains(org_id@) ==> map[org_id@] == org_map(
                    self.pairs@.take(i as int),
                )[org_id@],
            decreases i,
        {
            assert(self.pairs@.take(i as int).drop_last() =~= self.pairs@.take(i - 1));
            if crate::text::same(self.pairs[i - 1].0.as_str(), org_id) {
                return Some(&self.pairs[i - 1].1);
            }
            i = i - 1;
        }
        None
    }
}

/// The keys that open the entries of an organisation, or of the owner where
/// there is no organisation.
pub open spec fn keys_for<K>(
    keys: Option<K>,
    org_keys: Option<Map<Seq<char>, K>>,
    org_id: Option<Seq<char>>,
) -> Option<K> {
    match org_id {
        None => keys,
        Some(id) => match org_keys {
            Some(map) => if map.dom().contains(id) {
                Some(map[id])
            } else {
                None
            },
            None => None,
        },
    }
}

/// The keys of the owner open what belongs to no organisation, and only that.
/// What belongs to an organisation is opened by the keys that were last set for
/// it, and setting those of another changes nothing.
pub proof fn law_organisations_have_keys_of_their_own<K>(
    keys: Option<K>,
    other_keys: Option<K>,
    org_keys: Map<Seq<char>, K>,
    org_id: Seq<char>,
    other_id: Seq<char>,
    set: K,
)
    ensures
        keys_for(keys, Some(org_keys), None) == keys,
        keys_for(keys, None, None) == keys,
        keys_for(keys, Some(org_keys.insert(org_id, set)), Some(org_id)) == Some(set),
        other_id != org_id ==> keys_for(
            keys,
            Some(org_keys.insert(org_id, set)),
            Some(other_id),
        ) == keys_for(keys, Some(org_keys), Some(other_id)),
        keys_for(keys, Some(Map::<Seq<char>, K>::empty()), Some(org_id)) is None,
        keys_for(keys, None, Some(org_id)) is None,
        keys_for(keys, Some(org_keys), Some(org_id)) == keys_for(
            other_keys,
            Some(org_keys),
            Some(org_id),
        ),
{
}

/// A vault can be unlocked exactly if the database has a kind of key derivation,
/// its iterations, the protected key and the protected private key; otherwise the
/// first of these that is missing is reported. What it is unlocked with is what
/// the database has.
pub proof fn law_secrets_are_those_of_the_database<T, O, N>(db: Db<T, O, N>)
    ensures
        db.missing() is None <==> db.kdf is Some && db.iterations is Some && db.protected_key is Some
            && db.protected_private_key is Some,
        db.kdf is None ==> db.missing() == Some(Failure::MissingKdf),
        db.kdf is Some && db.iterations is None ==> db.missing() == Some(
            Failure::MissingIterations,
        ),
        db.kdf is Some && db.iterations is Some && db.protected_key is None ==> db.missing()
            == Some(Failure::MissingProtectedKey),
        db.kdf is Some && db.iterations is Some && db.protected_key is Some
            && db.protected_private_key is None ==> db.missing() == Some(
            Failure::MissingProtectedPrivateKey,
        ),
        db.kdf is Some ==> db.kdf == Some(db.spec_secrets().kdf),
        db.iterations is Some ==> db.iterations == Some(db.spec_secrets().iterations),
        db.memory == db.spec_secrets().memory,
        db.parallelism == db.spec_secrets().parallelism,
        db.protected_key is Some ==> db.protected_key == Some(db.spec_secrets().protected_key),
        db.protected_private_key is Some ==> db.protected_private_key == Some(
            db.spec_secrets().protected_private_key,
        ),
        db.protected_org_keys == db.spec_secrets().protected_org_keys,
{
}

/// The server name and the email address under which data is kept.
pub fn account(config: &Config) -> (r: Result<(String, String), Failure>)
    ensures
        match config.email {
            Some(email) => r matches Ok(pair) && pair.0@ == config.server() && pair.1@ == email@,
            None => r == Err::<(String, String), Failure>(Failure::MissingEmail),
        },
{
    match &config.email {
        Some(email) => Ok((config.server_name(), email.clone())),
        None => Err(Failure::MissingEmail),
    }
}

/// The email address of the account.
pub fn config_email(config: &Config) -> (r: Result<String, Failure>)
    ensures
        match config.email {
            Some(email) => r matches Ok(text) && text@ == email@,
            None => r == Err::<String, Failure>(Failure::MissingEmail),
        },
{
    match &config.email {
        Some(email) => Ok(email.clone()),
        None => Err(Failure::MissingEmail),
    }
}

} // verus!
