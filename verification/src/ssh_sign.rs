//! SSH signatures: the private key for a request, and the signature with it.
use vstd::prelude::*;
use crate::authorization::{SignatureWish, SshAuthorization};
use crate::db::{Db, Entry};
use crate::error::{Error, Failure};
use crate::ssh_keys::{
    key_fingerprint, openssh_key, parse_openssh, sealed_keys, sha256_fingerprint, SealedKey,
    SealedKeys, SshPublicKey,
};
use crate::text;
use crate::vault::{dialogue_for, unlock_dialogue, UnlockDialogue};

verus! {

/// The flag of a request for an RSA signature by SHA-256.
pub const SSH_AGENT_RSA_SHA2_256: u32 = 2;

/// The flag of a request for an RSA signature by SHA-512.
pub const SSH_AGENT_RSA_SHA2_512: u32 = 4;

/// A private key, as far as signing needs it.
pub enum SshPrivateKey {
    /// The private key followed by the public key.
    Ed25519([u8; 64]),
    /// Two factors of the modulus and the public exponent, the first byte being
    /// the most significant.
    Rsa { p: Vec<u8>, q: Vec<u8>, e: Vec<u8> },
    /// A description of a key of any other kind.
    Other(String),
}

/// The contents of a [`SshPrivateKey`].
pub enum PrivateKeyView {
    Ed25519(Seq<u8>),
    Rsa { p: Seq<u8>, q: Seq<u8>, e: Seq<u8> },
    Other(Seq<char>),
}

impl View for SshPrivateKey {
    type V = PrivateKeyView;

    open spec fn view(&self) -> PrivateKeyView {
        match self {
            SshPrivateKey::Ed25519(keypair) => PrivateKeyView::Ed25519(keypair@),
            SshPrivateKey::Rsa { p, q, e } => PrivateKeyView::Rsa { p: p@, q: q@, e: e@ },
            SshPrivateKey::Other(kind) => PrivateKeyView::Other(kind@),
        }
    }
}

/// The contents of a parsed private key.
pub open spec fn private_key_view(r: Result<SshPrivateKey, String>) -> Result<
    PrivateKeyView,
    Seq<char>,
> {
    match r {
        Ok(key) => Ok(key@),
        Err(message) => Err(message@),
    }
}

/// The private key that an OpenSSH text stands for, or the message of the error
/// where it stands for none.
pub uninterp spec fn openssh_private_key(text: Seq<char>) -> Result<PrivateKeyView, Seq<char>>;

/// `ssh_key::PrivateKey::from_openssh` reads a private key from its OpenSSH
/// text. What it reads depends on the text alone.
#[verifier::external_body]
fn parse_private_key(text: &str) -> (r: Result<SshPrivateKey, String>)
    ensures
        private_key_view(r) == openssh_private_key(text@),
{
    ssh_agent_lib::ssh_key::PrivateKey::from_openssh(text)
        .map(|key| match key.key_data() {
            ssh_agent_lib::ssh_key::private::KeypairData::Ed25519(key) => SshPrivateKey::Ed25519(key.to_bytes()),
            ssh_agent_lib::ssh_key::private::KeypairData::Rsa(key) => SshPrivateKey::Rsa {
                p: key.private.p.as_bytes().to_vec(),
                q: key.private.q.as_bytes().to_vec(),
                e: key.public.e.as_bytes().to_vec(),
            },
            other => SshPrivateKey::Other(format!("{other:?}")),
        })
        .map_err(|e| e.to_string())
}

/// The outcome of the search for a private key, once its text was parsed.
pub fn found_key<E>(parsed: Result<SshPrivateKey, String>) -> (r: Result<SshPrivateKey, Error<E>>)
    ensures
        r == match parsed {
            Ok(key) => Ok(key),
            Err(message) => Err(Error::<E>::Plain(message)),
        },
{
    match parsed {
        Ok(key) => Ok(key),
        Err(message) => Err(Error::Plain(message)),
    }
}

/// The search for the private key of a public key.
pub enum FindPrivateKey<E> {
    CheckLocked { dialogue: Option<UnlockDialogue>, request: Vec<u8> },
    /// Puts off the automatic lock.
    SetTimeout { unlock: UnlockDialogue, request: Vec<u8> },
    Unlock { unlock: UnlockDialogue, request: Vec<u8> },
    LoadDb { request: Vec<u8> },
    DecryptPublicKey { request: Vec<u8>, key: SealedKey, rest: SealedKeys },
    DecryptPrivateKey { private_key: String, entry_key: Option<String>, org_id: Option<String> },
    Done(Result<SshPrivateKey, Error<E>>),
}

pub enum FindPrivateKeyEvent<T, O, E> {
    LockChecked { needs_unlock: bool },
    TimeoutSet,
    Unlocked(Result<(), Error<E>>),
    DbLoaded(Result<Db<T, O, Vec<Entry>>, Error<E>>),
    Decrypted(Result<String, Error<E>>),
}

impl<E> FindPrivateKey<E> {
    /// Whether this is the first state of a search with a permission.
    pub open spec fn starts<K>(
        self,
        authorization: SshAuthorization<K>,
        pinentry: Option<String>,
        profile: Seq<char>,
        request: Vec<u8>,
    ) -> bool {
        if authorization.keys is None {
            &&& self matches FindPrivateKey::CheckLocked { dialogue, request: wanted }
            &&& dialogue_for(pinentry, profile, dialogue)
            &&& wanted == request
        } else {
            self == (Self::LoadDb { request })
        }
    }

    /// The first state. Where the permission came with keys, the vault need not
    /// be unlocked.
    pub fn start<K>(
        authorization: &SshAuthorization<K>,
        pinentry: Option<String>,
        profile: &str,
        request: Vec<u8>,
    ) -> (r: Self)
        ensures
            r.starts(*authorization, pinentry, profile@, request),
    {
        if authorization.keys.is_none() {
            let dialogue = unlock_dialogue(pinentry, profile);
            FindPrivateKey::CheckLocked { dialogue, request }
        } else {
            FindPrivateKey::LoadDb { request }
        }
    }

    /// Whether the next of the remaining keys is taken up, or the search ends
    /// without a match.
    pub open spec fn goes_on(self, wanted: Seq<u8>, remaining: Seq<SealedKey>) -> bool {
        if remaining.len() > 0 {
            &&& self matches FindPrivateKey::DecryptPublicKey { request, key, rest }
            &&& request@ == wanted
            &&& key == remaining[0]
            &&& rest@ == remaining.skip(1)
        } else {
            self == Self::Done(Err(Error::Refused(Failure::NoMatchingKey)))
        }
    }

    /// Where the search goes for a public key that was decrypted and parsed: to
    /// the private key of the same entry where the key is the wanted one, else
    /// to the next key.
    pub open spec fn compares(
        self,
        wanted: Seq<u8>,
        sealed: SealedKey,
        remaining: Seq<SealedKey>,
        parsed: Result<(Seq<u8>, Seq<char>), Seq<char>>,
    ) -> bool {
        match parsed {
            Err(cause) => self matches FindPrivateKey::Done(Err(Error::Plain(message))) && message@
                == cause,
            Ok((blob, _)) => if blob != wanted {
                self.goes_on(wanted, remaining)
            } else {
                self == match sealed.private_key {
                    Some(private_key) => Self::DecryptPrivateKey {
                        private_key,
                        entry_key: sealed.entry_key,
                        org_id: sealed.org_id,
                    },
                    None => Self::Done(Err(Error::Refused(Failure::MissingPrivateKey))),
                }
            },
        }
    }

    /// Where an event leads. One that the state does not wait for changes
    /// nothing.
    pub open spec fn steps_to<T, O>(self, event: FindPrivateKeyEvent<T, O, E>, after: Self) -> bool {
        match (self, event) {
            (
                FindPrivateKey::CheckLocked { dialogue, request },
                FindPrivateKeyEvent::LockChecked { needs_unlock },
            ) => after == if needs_unlock {
                match dialogue {
                    Some(unlock) => Self::SetTimeout { unlock, request },
                    None => Self::Done(Err(Error::Refused(Failure::VaultLocked))),
                }
            } else {
                Self::LoadDb { request }
            },
            (
                FindPrivateKey::SetTimeout { unlock, request },
                FindPrivateKeyEvent::TimeoutSet,
            ) => after == (Self::Unlock { unlock, request }),
            (
                FindPrivateKey::Unlock { request, .. },
                FindPrivateKeyEvent::Unlocked(result),
            ) => after == match result {
                Ok(_) => Self::LoadDb { request },
                Err(error) => Self::Done(Err(error)),
            },
            (FindPrivateKey::LoadDb { request }, FindPrivateKeyEvent::DbLoaded(result)) => {
                match result {
                    Ok(db) => after.goes_on(request@, sealed_keys(db.entries@)),
                    Err(error) => after == Self::Done(Err(error)),
                }
            },
            (
                FindPrivateKey::DecryptPublicKey { request, key, rest },
                FindPrivateKeyEvent::Decrypted(result),
            ) => match result {
                Ok(plaintext) => after.compares(request@, key, rest@, openssh_key(plaintext@)),
                Err(error) => after == Self::Done(Err(error)),
            },
            (
                FindPrivateKey::DecryptPrivateKey { .. },
                FindPrivateKeyEvent::Decrypted(result),
            ) => match result {
                Ok(plaintext) => match openssh_private_key(plaintext@) {
                    Ok(found) => after matches FindPrivateKey::Done(Ok(key)) && key@ == found,
                    Err(cause) => after matches FindPrivateKey::Done(Err(Error::Plain(message)))
                        && message@ == cause,
                },
                Err(error) => after == Self::Done(Err(error)),
            },
            _ => after == self,
        }
    }
}

fn same_bytes(a: &Vec<u8>, b: &Vec<u8>) -> (r: bool)
    ensures
        r == (a@ == b@),
{
    if a.len() != b.len() {
        return false;
    }
    let mut i: usize = 0;
    while i < a.len()
        invariant
            i <= a@.len(),
            a@.len() == b@.len(),
            forall|k: int| 0 <= k < i ==> a@[k] == b@[k],
        decreases a@.len() - i,
    {
        if a[i] != b[i] {
            return false;
        }
        i = i + 1;
    }
    assert(a@ =~= b@);
    true
}

fn try_next<E>(request: Vec<u8>, remaining: SealedKeys) -> (r: FindPrivateKey<E>)
    ensures
        r.goes_on(request@, remaining@),
{
    let mut remaining = remaining;
    match remaining.next() {
        Some(key) => FindPrivateKey::DecryptPublicKey { request, key, rest: remaining },
        None => FindPrivateKey::Done(Err(Error::Refused(Failure::NoMatchingKey))),
    }
}

/// Goes on with the search for a public key that was decrypted and parsed.
pub fn compare_public_key<E>(
    request: Vec<u8>,
    key: SealedKey,
    rest: SealedKeys,
    parsed: Result<SshPublicKey, String>,
) -> (r: FindPrivateKey<E>)
    ensures
        r.compares(request@, key, rest@, crate::ssh_keys::key_view(parsed)),
{
    match parsed {
        Err(message) => FindPrivateKey::Done(Err(Error::Plain(message))),
        Ok(public_key) => {
            if !same_bytes(&public_key.blob, &request) {
                return try_next(request, rest);
            }
            match key.private_key {
                Some(private_key) => FindPrivateKey::DecryptPrivateKey {
                    private_key,
                    entry_key: key.entry_key,
                    org_id: key.org_id,
                },
                None => FindPrivateKey::Done(Err(Error::Refused(Failure::MissingPrivateKey))),
            }
        },
    }
}

/// Moves the search for a private key on.
pub fn find_ssh_private_key<T, O, E>(
    state: FindPrivateKey<E>,
    event: FindPrivateKeyEvent<T, O, E>,
) -> (after: FindPrivateKey<E>)
    ensures
        state.steps_to(event, after),
{
    match (state, event) {
        (
            FindPrivateKey::CheckLocked { dialogue, request },
            FindPrivateKeyEvent::LockChecked { needs_unlock },
        ) => if needs_unlock {
            match dialogue {
                Some(unlock) => FindPrivateKey::SetTimeout { unlock, request },
                None => FindPrivateKey::Done(Err(Error::Refused(Failure::VaultLocked))),
            }
        } else {
            FindPrivateKey::LoadDb { request }
        },
        (FindPrivateKey::SetTimeout { unlock, request }, FindPrivateKeyEvent::TimeoutSet) => {
            FindPrivateKey::Unlock { unlock, request }
        },
        (FindPrivateKey::Unlock { request, .. }, FindPrivateKeyEvent::Unlocked(result)) => {
            match result {
                Ok(_) => FindPrivateKey::LoadDb { request },
                Err(error) => FindPrivateKey::Done(Err(error)),
            }
        },
        (FindPrivateKey::LoadDb { request }, FindPrivateKeyEvent::DbLoaded(result)) => {
            match result {
                Ok(db) => try_next(request, SealedKeys::new(db.entries)),
                Err(error) => FindPrivateKey::Done(Err(error)),
            }
        },
        (
            FindPrivateKey::DecryptPublicKey { request, key, rest },
            FindPrivateKeyEvent::Decrypted(result),
        ) => match result {
            Ok(plaintext) => {
                let parsed = parse_openssh(plaintext.as_str());
                compare_public_key(request, key, rest, parsed)
            },
            Err(error) => FindPrivateKey::Done(Err(error)),
        },
        (FindPrivateKey::DecryptPrivateKey { .. }, FindPrivateKeyEvent::Decrypted(result)) => {
            match result {
                Ok(plaintext) => FindPrivateKey::Done(
                    found_key(parse_private_key(plaintext.as_str())),
                ),
                Err(error) => FindPrivateKey::Done(Err(error)),
            }
        },
        (state, _) => state,
    }
}

/// Whether `events` lead through `states` one after the other.
pub open spec fn search_run<T, O, E>(
    states: Seq<FindPrivateKey<E>>,
    events: Seq<FindPrivateKeyEvent<T, O, E>>,
) -> bool {
    &&& states.len() == events.len() + 1
    &&& forall|i: int|
        0 <= i < events.len() ==> states[i].steps_to(#[trigger] events[i], states[i + 1])
}

/// Whether the event decrypts a public key that is the wanted one.
pub open spec fn matches_request<T, O, E>(
    state: FindPrivateKey<E>,
    event: FindPrivateKeyEvent<T, O, E>,
) -> bool {
    &&& state matches FindPrivateKey::DecryptPublicKey { request, .. }
    &&& event matches FindPrivateKeyEvent::Decrypted(Ok(plaintext))
    &&& openssh_key(plaintext@) matches Ok(key)
    &&& key.0 == request@
}

/// Whether the event decrypts the private key of the entry that was at hand in
/// an earlier state.
pub open spec fn opens_private_key<T, O, E>(
    compared: FindPrivateKey<E>,
    state: FindPrivateKey<E>,
    event: FindPrivateKeyEvent<T, O, E>,
    found: PrivateKeyView,
) -> bool {
    &&& compared matches FindPrivateKey::DecryptPublicKey { key, .. }
    &&& state matches FindPrivateKey::DecryptPrivateKey { private_key, entry_key, org_id }
    &&& key.private_key == Some(private_key)
    &&& key.entry_key == entry_key
    &&& key.org_id == org_id
    &&& event matches FindPrivateKeyEvent::Decrypted(Ok(plaintext))
    &&& openssh_private_key(plaintext@) == Ok::<PrivateKeyView, Seq<char>>(found)
}

/// The private key that a search yields is that of an entry whose public key is
/// the wanted one.
pub proof fn law_found_key_belongs_to_the_request<T, O, E>(
    states: Seq<FindPrivateKey<E>>,
    events: Seq<FindPrivateKeyEvent<T, O, E>>,
    found: SshPrivateKey,
)
    requires
        search_run(states, events),
        states[0] is CheckLocked || states[0] is LoadDb,
        states.last() == FindPrivateKey::<E>::Done(Ok(found)),
    ensures
        exists|i: int, j: int|
            0 <= i < j < events.len() && matches_request(states[i], #[trigger] events[i])
                && opens_private_key(states[i], states[j], #[trigger] events[j], found@),
{
    let j = lemma_found_key_was_decrypted(states, events, found, events.len() as int);
    let i = lemma_decrypted_key_was_compared(states, events, j);
    assert(matches_request(states[i], events[i]));
    assert(opens_private_key(states[i], states[j], events[j], found@));
}

proof fn lemma_found_key_was_decrypted<T, O, E>(
    states: Seq<FindPrivateKey<E>>,
    events: Seq<FindPrivateKeyEvent<T, O, E>>,
    found: SshPrivateKey,
    n: int,
) -> (j: int)
    requires
        search_run(states, events),
        states[0] is CheckLocked || states[0] is LoadDb,
        0 <= n <= events.len(),
        states[n] == FindPrivateKey::<E>::Done(Ok(found)),
    ensures
        0 <= j < n,
        states[j] is DecryptPrivateKey,
        events[j] matches FindPrivateKeyEvent::Decrypted(Ok(plaintext)) && openssh_private_key(
            plaintext@,
        ) == Ok::<PrivateKeyView, Seq<char>>(found@),
    decreases n,
{
    assert(states[n - 1].steps_to(events[n - 1], states[n]));
    if states[n - 1] is DecryptPrivateKey {
        n - 1
    } else {
        lemma_found_key_was_decrypted(states, events, found, n - 1)
    }
}

proof fn lemma_decrypted_key_was_compared<T, O, E>(
    states: Seq<FindPrivateKey<E>>,
    events: Seq<FindPrivateKeyEvent<T, O, E>>,
    n: int,
) -> (i: int)
    requires
        search_run(states, events),
        states[0] is CheckLocked || states[0] is LoadDb,
        0 <= n <= events.len(),
        states[n] is DecryptPrivateKey,
    ensures
        0 <= i < n,
        matches_request(states[i], events[i]),
        states[i]->DecryptPublicKey_key.private_key == Some(
            states[n]->DecryptPrivateKey_private_key,
        ),
        states[i]->DecryptPublicKey_key.entry_key == states[n]->DecryptPrivateKey_entry_key,
        states[i]->DecryptPublicKey_key.org_id == states[n]->DecryptPrivateKey_org_id,
    decreases n,
{
    assert(states[n - 1].steps_to(events[n - 1], states[n]));
    if states[n - 1] is DecryptPublicKey {
        n - 1
    } else {
        lemma_decrypted_key_was_compared(states, events, n - 1)
    }
}

/// Whether the event decrypts a public key that is not the wanted one.
pub open spec fn passes_over<T, O, E>(
    state: FindPrivateKey<E>,
    event: FindPrivateKeyEvent<T, O, E>,
) -> bool {
    &&& state matches FindPrivateKey::DecryptPublicKey { request, .. }
    &&& event matches FindPrivateKeyEvent::Decrypted(Ok(plaintext))
    &&& openssh_key(plaintext@) matches Ok(key)
    &&& key.0 != request@
}

/// How many keys the first `n` events of a run passed over.
pub open spec fn passed_over<T, O, E>(
    states: Seq<FindPrivateKey<E>>,
    events: Seq<FindPrivateKeyEvent<T, O, E>>,
    n: int,
) -> int
    decreases n,
{
    if n <= 0 {
        0
    } else {
        passed_over(states, events, n - 1) + if passes_over(states[n - 1], events[n - 1]) {
            1int
        } else {
            0int
        }
    }
}

/// A search looks at the SSH keys of the vault one after the other and leaves
/// none out: it says that no key matches only once it passed over all of them.
/// (A failed decryption is handed on as it is, and never says so itself.)
pub proof fn law_search_leaves_no_key_out<T, O, E>(
    states: Seq<FindPrivateKey<E>>,
    events: Seq<FindPrivateKeyEvent<T, O, E>>,
    db: Db<T, O, Vec<Entry>>,
    n: int,
)
    requires
        search_run(states, events),
        states[0] is LoadDb,
        events.len() > 0,
        events[0] == FindPrivateKeyEvent::<T, O, E>::DbLoaded(Ok(db)),
        forall|i: int|
            0 <= i < events.len() ==> (#[trigger] events[i]) != FindPrivateKeyEvent::<
                T,
                O,
                E,
            >::Decrypted(Err(Error::Refused(Failure::NoMatchingKey))),
        1 <= n <= events.len(),
    ensures
        states[n] matches FindPrivateKey::DecryptPublicKey { key, rest, .. } ==> {
            &&& 0 <= passed_over(states, events, n) < sealed_keys(db.entries@).len()
            &&& key == sealed_keys(db.entries@)[passed_over(states, events, n)]
            &&& rest@ == sealed_keys(db.entries@).skip(passed_over(states, events, n) + 1)
        },
        states[n] == FindPrivateKey::<E>::Done(Err(Error::Refused(Failure::NoMatchingKey)))
            ==> passed_over(states, events, n) == sealed_keys(db.entries@).len(),
        !(states[n] is CheckLocked || states[n] is SetTimeout || states[n] is Unlock
            || states[n] is LoadDb),
    decreases n,
{
    let all = sealed_keys(db.entries@);
    assert(states[n - 1].steps_to(events[n - 1], states[n]));
    if n == 1 {
        assert(passed_over(states, events, 0) == 0);
        assert(passed_over(states, events, 1) == 0);
    } else {
        law_search_leaves_no_key_out(states, events, db, n - 1);
        let before = passed_over(states, events, n - 1);
        if passes_over(states[n - 1], events[n - 1]) && before + 1 < all.len() {
            assert(all.skip(before + 1).skip(1) =~= all.skip(before + 2));
        }
    }
}

/// A signature and the name of its algorithm.
#[derive(Debug)]
pub struct SshSignature {
    pub algorithm: String,
    pub data: Vec<u8>,
}

impl View for SshSignature {
    type V = (Seq<char>, Seq<u8>);

    open spec fn view(&self) -> (Seq<char>, Seq<u8>) {
        (self.algorithm@, self.data@)
    }
}

/// The contents of a signature or of the message in its place.
pub open spec fn signature_view(r: Result<SshSignature, String>) -> Result<
    (Seq<char>, Seq<u8>),
    Seq<char>,
> {
    match r {
        Ok(signature) => Ok(signature@),
        Err(message) => Err(message@),
    }
}

/// The Ed25519 signature of some bytes, or the message of the error where there
/// is none for the keys.
pub uninterp spec fn ed25519_signature(keypair: Seq<u8>, data: Seq<u8>) -> Result<
    (Seq<char>, Seq<u8>),
    Seq<char>,
>;

/// `ssh_key::private::Ed25519Keypair::from_bytes` reads the keys, and its
/// `try_sign` signs with them. The signature depends on the keys and the bytes
/// alone; it is named `ssh-ed25519` and has sixty-four bytes.
#[verifier::external_body]
fn sign_ed25519(keypair: &[u8; 64], data: &[u8]) -> (r: Result<SshSignature, String>)
    ensures
        signature_view(r) == ed25519_signature(keypair@, data@),
        r matches Ok(signature) ==> signature.algorithm@ == "ssh-ed25519"@ && signature.data@.len()
            == 64,
{
    let key = ssh_agent_lib::ssh_key::private::Ed25519Keypair::from_bytes(keypair)
        .map_err(|e| e.to_string())?;
    let signature: ssh_agent_lib::ssh_key::Signature = signature::Signer::try_sign(&key, data)
        .map_err(|e| e.to_string())?;
    Ok(SshSignature {
        algorithm: signature.algorithm().as_str().to_string(),
        data: signature.as_bytes().to_vec(),
    })
}

/// Whether the number with these bytes is zero.
pub open spec fn is_zero(bytes: Seq<u8>) -> bool {
    forall|i: int| 0 <= i < bytes.len() ==> bytes[i] == 0
}

/// The number with these bytes, the first being the most significant.
pub open spec fn number(bytes: Seq<u8>) -> nat
    decreases bytes.len(),
{
    if bytes.len() == 0 {
        0
    } else {
        number(bytes.drop_last()) * 256 + bytes.last() as nat
    }
}

/// Whether `d` divides `n`.
pub open spec fn divides(d: nat, n: nat) -> bool {
    n % d == 0
}

pub open spec fn is_prime(n: nat) -> bool {
    n > 1 && forall|d: nat| 1 < d < n ==> !#[trigger] divides(d, n)
}

/// Whether only one divides both numbers.
pub open spec fn coprime(a: nat, b: nat) -> bool {
    forall|d: nat| d > 1 && #[trigger] divides(d, a) ==> !divides(d, b)
}

/// Whether the numbers make an RSA key: two distinct odd primes, and an exponent
/// of at most thirty-three bits that has an inverse.
pub open spec fn sound_rsa_key(p: Seq<u8>, q: Seq<u8>, e: Seq<u8>) -> bool {
    &&& is_prime(number(p)) && number(p) > 2
    &&& is_prime(number(q)) && number(q) > 2
    &&& number(p) != number(q)
    &&& coprime(number(e), (number(p) - 1) as nat)
    &&& coprime(number(e), (number(q) - 1) as nat)
    &&& 2 <= number(e) < 0x2_0000_0000
    &&& number(e) < number(p) * number(q)
}

/// The message of the error for numbers that make no RSA key, `None` for those
/// that make one.
pub uninterp spec fn rsa_refusal(p: Seq<u8>, q: Seq<u8>, e: Seq<u8>) -> Option<Seq<char>>;

/// `rsa::RsaPrivateKey::from_p_q` makes a key or refuses to, depending on the
/// numbers alone. It refuses no two distinct odd primes with an exponent within
/// its bounds that has an inverse. Where one factor alone is zero the call
/// panics.
#[verifier::external_body]
fn refuse_rsa_key(p: &Vec<u8>, q: &Vec<u8>, e: &Vec<u8>) -> (r: Option<String>)
    requires
        is_zero(p@) == is_zero(q@),
    ensures
        r.deep_view() == rsa_refusal(p@, q@, e@),
        sound_rsa_key(p@, q@, e@) ==> r is None,
{
    rsa::RsaPrivateKey::from_p_q(
        rsa::BigUint::from_bytes_be(p),
        rsa::BigUint::from_bytes_be(q),
        rsa::BigUint::from_bytes_be(e),
    )
    .err()
    .map(|e| e.to_string())
}

/// Whether the modulus has room for a digest that takes `len` bytes with its
/// prefix, and for eleven bytes of padding.
pub open spec fn modulus_fits(p: Seq<u8>, q: Seq<u8>, len: nat) -> bool {
    number(p) * number(q) >= vstd::arithmetic::power2::pow2(8 * (len + 10))
}

/// Whether signing with a key can fail with this message, for a digest that takes
/// `len` bytes with its prefix.
pub open spec fn rsa_signing_fails(
    p: Seq<u8>,
    q: Seq<u8>,
    len: nat,
    message: Seq<char>,
) -> bool {
    if modulus_fits(p, q, len) {
        &&& !(is_prime(number(p)) && is_prime(number(q)))
        &&& message == "signature error: internal error"@
    } else {
        message == "signature error: message too long"@
    }
}

/// The bytes before a SHA-512 digest that name its algorithm.
pub open spec fn sha512_prefix() -> Seq<u8> {
    seq![
        0x30,
        0x51,
        0x30,
        0x0d,
        0x06,
        0x09,
        0x60,
        0x86,
        0x48,
        0x01,
        0x65,
        0x03,
        0x04,
        0x02,
        0x03,
        0x05,
        0x00,
        0x04,
        0x40,
    ]
}

/// The bytes before a SHA-256 digest that name its algorithm.
pub open spec fn sha256_prefix() -> Seq<u8> {
    seq![
        0x30,
        0x31,
        0x30,
        0x0d,
        0x06,
        0x09,
        0x60,
        0x86,
        0x48,
        0x01,
        0x65,
        0x03,
        0x04,
        0x02,
        0x01,
        0x05,
        0x00,
        0x04,
        0x20,
    ]
}

/// A digest with its prefix, padded to `len` bytes.
pub open spec fn padded(encoded: Seq<u8>, len: nat) -> Seq<u8> {
    seq![0x00, 0x01] + Seq::new((len - encoded.len() - 3) as nat, |i: int| 0xff) + seq![0x00]
        + encoded
}

/// Whether a number takes `len` bytes, with none of them a leading zero.
pub open spec fn takes_bytes(n: nat, len: nat) -> bool {
    &&& len > 0
    &&& vstd::arithmetic::power2::pow2((8 * (len - 1)) as nat) <= n
    &&& n < vstd::arithmetic::power2::pow2(8 * len)
}

/// Whether the bytes are an RSA signature of a digest with its prefix: they are as
/// many as the modulus has, their number is below the modulus, and its power is
/// the padded digest.
pub open spec fn signs_encoded(
    p: Seq<u8>,
    q: Seq<u8>,
    e: Seq<u8>,
    encoded: Seq<u8>,
    signature: Seq<u8>,
) -> bool {
    let modulus = number(p) * number(q);
    &&& takes_bytes(modulus, signature.len())
    &&& number(signature) < modulus
    &&& vstd::arithmetic::power::pow(number(signature) as int, number(e)) % (modulus as int)
        == number(padded(encoded, signature.len()))
}

/// The SHA-512 digest of some bytes.
pub uninterp spec fn sha512(bytes: Seq<u8>) -> Seq<u8>;

/// `rsa::pkcs1v15::SigningKey::<Sha512>` signs with the key
/// that `rsa::RsaPrivateKey::from_p_q` makes, blinded by random numbers. What is
/// signed is its prefix and the SHA-512 digest of the bytes.
/// A signature is given out only once its power was found to be the padded form
/// of that. It is given out, whatever the random numbers are, where both factors
/// are prime and the modulus has room for the padded form. Without that room
/// there is never one. With it, only a factor that is not prime can let the check
/// of the result fail; whether it does is left to chance. The call takes time in
/// proportion to the quotient of `q` by `p`.
#[verifier::external_body]
fn sign_rsa_sha512(p: &Vec<u8>, q: &Vec<u8>, e: &Vec<u8>, data: &[u8]) -> (r: Result<
    Vec<u8>,
    String,
>)
    requires
        is_zero(p@) == is_zero(q@),
        rsa_refusal(p@, q@, e@) is None,
    ensures
        match r {
            Ok(signature) => {
                &&& sha512(data@).len() == 64
                &&& modulus_fits(p@, q@, 83)
                &&& signs_encoded(p@, q@, e@, sha512_prefix() + sha512(data@), signature@)
            },
            Err(message) => rsa_signing_fails(p@, q@, 83, message@),
        },
{
    let key = rsa::RsaPrivateKey::from_p_q(
        rsa::BigUint::from_bytes_be(p),
        rsa::BigUint::from_bytes_be(q),
        rsa::BigUint::from_bytes_be(e),
    )
    .map_err(|e| e.to_string())?;
    let key = rsa::pkcs1v15::SigningKey::<sha2::Sha512>::new(key);
    signature::RandomizedSigner::try_sign_with_rng(&key, &mut rand::rngs::OsRng, data)
        .map(|signature: rsa::pkcs1v15::Signature| {
            signature::SignatureEncoding::to_vec(&signature)
        })
        .map_err(|e| e.to_string())
}

/// `rsa::pkcs1v15::SigningKey::<Sha256>` signs with the key
/// that `rsa::RsaPrivateKey::from_p_q` makes, blinded by random numbers. What is
/// signed is its prefix and the SHA-256 digest of the bytes.
/// A signature is given out only once its power was found to be the padded form
/// of that. It is given out, whatever the random numbers are, where both factors
/// are prime and the modulus has room for the padded form. Without that room
/// there is never one. With it, only a factor that is not prime can let the check
/// of the result fail; whether it does is left to chance. The call takes time in
/// proportion to the quotient of `q` by `p`.
#[verifier::external_body]
fn sign_rsa_sha256(p: &Vec<u8>, q: &Vec<u8>, e: &Vec<u8>, data: &[u8]) -> (r: Result<
    Vec<u8>,
    String,
>)
    requires
        is_zero(p@) == is_zero(q@),
        rsa_refusal(p@, q@, e@) is None,
    ensures
        match r {
            Ok(signature) => {
                &&& crate::cipher::sha256(data@).len() == 32
                &&& modulus_fits(p@, q@, 51)
                &&& signs_encoded(p@, q@, e@, sha256_prefix() + crate::cipher::sha256(data@), signature@)
            },
            Err(message) => rsa_signing_fails(p@, q@, 51, message@),
        },
{
    let key = rsa::RsaPrivateKey::from_p_q(
        rsa::BigUint::from_bytes_be(p),
        rsa::BigUint::from_bytes_be(q),
        rsa::BigUint::from_bytes_be(e),
    )
    .map_err(|e| e.to_string())?;
    let key = rsa::pkcs1v15::SigningKey::<sha2::Sha256>::new(key);
    signature::RandomizedSigner::try_sign_with_rng(&key, &mut rand::rngs::OsRng, data)
        .map(|signature: rsa::pkcs1v15::Signature| {
            signature::SignatureEncoding::to_vec(&signature)
        })
        .map_err(|e| e.to_string())
}

/// The SHA-1 digest of some bytes.
pub uninterp spec fn sha1(bytes: Seq<u8>) -> Seq<u8>;

/// `rsa::pkcs1v15::SigningKey::<Sha1>`, made by `new_unprefixed`, signs with the key
/// that `rsa::RsaPrivateKey::from_p_q` makes, blinded by random numbers. What is
/// signed is the SHA-1 digest of the bytes.
/// A signature is given out only once its power was found to be the padded form
/// of that. It is given out, whatever the random numbers are, where both factors
/// are prime and the modulus has room for the padded form. Without that room
/// there is never one. With it, only a factor that is not prime can let the check
/// of the result fail; whether it does is left to chance. The call takes time in
/// proportion to the quotient of `q` by `p`.
#[verifier::external_body]
fn sign_rsa_sha1(p: &Vec<u8>, q: &Vec<u8>, e: &Vec<u8>, data: &[u8]) -> (r: Result<
    Vec<u8>,
    String,
>)
    requires
        is_zero(p@) == is_zero(q@),
        rsa_refusal(p@, q@, e@) is None,
    ensures
        match r {
            Ok(signature) => {
                &&& sha1(data@).len() == 20
                &&& modulus_fits(p@, q@, 20)
                &&& signs_encoded(p@, q@, e@, sha1(data@), signature@)
            },
            Err(message) => rsa_signing_fails(p@, q@, 20, message@),
        },
{
    let key = rsa::RsaPrivateKey::from_p_q(
        rsa::BigUint::from_bytes_be(p),
        rsa::BigUint::from_bytes_be(q),
        rsa::BigUint::from_bytes_be(e),
    )
    .map_err(|e| e.to_string())?;
    let key = rsa::pkcs1v15::SigningKey::<sha1::Sha1>::new_unprefixed(key);
    signature::RandomizedSigner::try_sign_with_rng(&key, &mut rand::rngs::OsRng, data)
        .map(|signature: rsa::pkcs1v15::Signature| {
            signature::SignatureEncoding::to_vec(&signature)
        })
        .map_err(|e| e.to_string())
}

/// The signature with a name and some bytes, or the message of the error where
/// the bytes do not fit the name.
pub uninterp spec fn ssh_signature(algorithm: Seq<char>, data: Seq<u8>) -> Result<
    (Seq<char>, Seq<u8>),
    Seq<char>,
>;

/// `ssh_key::Algorithm::new` reads the name of an algorithm, and
/// `ssh_key::Signature::new` makes a signature of it, which keeps the name and
/// the bytes. It takes any bytes for `rsa-sha2-512` and for `rsa-sha2-256`, and
/// none for `ssh-rsa`.
#[verifier::external_body]
fn new_signature(algorithm: &str, data: Vec<u8>) -> (r: Result<SshSignature, String>)
    ensures
        signature_view(r) == ssh_signature(algorithm@, data@),
        r matches Ok(signature) ==> signature.algorithm@ == algorithm@ && signature.data@ == data@,
        algorithm@ == "rsa-sha2-512"@ ==> r is Ok,
        algorithm@ == "rsa-sha2-256"@ ==> r is Ok,
        algorithm@ == "ssh-rsa"@ ==> r is Err,
{
    ssh_agent_lib::ssh_key::Algorithm::new(algorithm)
        .and_then(|algorithm| ssh_agent_lib::ssh_key::Signature::new(algorithm, data))
        .map(|signature| SshSignature {
            algorithm: signature.algorithm().as_str().to_string(),
            data: signature.as_bytes().to_vec(),
        })
        .map_err(|e| e.to_string())
}

/// Names an RSA signature, where there is one. The old name `ssh-rsa` is always
/// refused.
pub fn name_signature(algorithm: &str, signed: Result<Vec<u8>, String>) -> (r: Result<
    SshSignature,
    String,
>)
    ensures
        match signed {
            Ok(data) => {
                &&& signature_view(r) == ssh_signature(algorithm@, data@)
                &&& algorithm@ == "rsa-sha2-512"@ || algorithm@ == "rsa-sha2-256"@ ==> (r matches Ok(
                    signature,
                ) && signature@ == (algorithm@, data@))
                &&& algorithm@ == "ssh-rsa"@ ==> r is Err
            },
            Err(message) => r == Err::<SshSignature, String>(message),
        },
{
    match signed {
        Ok(data) => new_signature(algorithm, data),
        Err(message) => Err(message),
    }
}

impl SshPrivateKey {
    /// Whether signing with the key is defined: of the factors of an RSA key,
    /// not one alone is zero.
    pub open spec fn spec_signable(self) -> bool {
        self matches SshPrivateKey::Rsa { p, q, .. } ==> is_zero(p@) == is_zero(q@)
    }

    pub fn signable(&self) -> (r: bool)
        ensures
            r == self.spec_signable(),
    {
        match self {
            SshPrivateKey::Rsa { p, q, .. } => all_zero(p) == all_zero(q),
            _ => true,
        }
    }
}

fn all_zero(bytes: &Vec<u8>) -> (r: bool)
    ensures
        r == is_zero(bytes@),
{
    let mut i: usize = 0;
    while i < bytes.len()
        invariant
            i <= bytes@.len(),
            forall|k: int| 0 <= k < i ==> bytes@[k] == 0,
        decreases bytes@.len() - i,
    {
        if bytes[i] != 0 {
            return false;
        }
        i = i + 1;
    }
    true
}

/// Whether `r` may come of signing some bytes. An RSA key signs by SHA-512 where
/// the flags ask for it, else by SHA-256 where they ask for that, and else, in
/// the old way by SHA-1, not at all. With its prefix the digest takes
/// eighty-three, fifty-one or twenty bytes. Keys of other kinds than Ed25519 and
/// RSA do not sign.
pub open spec fn comes_of_signing(
    key: SshPrivateKey,
    data: Seq<u8>,
    flags: u32,
    r: Result<SshSignature, String>,
) -> bool {
    match key {
        SshPrivateKey::Ed25519(keypair) => {
            &&& signature_view(r) == ed25519_signature(keypair@, data)
            &&& r matches Ok(signature) ==> signature.algorithm@ == "ssh-ed25519"@
        },
        SshPrivateKey::Rsa { p, q, e } => match rsa_refusal(p@, q@, e@) {
            Some(cause) => {
                &&& !sound_rsa_key(p@, q@, e@)
                &&& r matches Err(message) && message@ == cause
            },
            None => if flags & SSH_AGENT_RSA_SHA2_512 != 0 {
                match r {
                    Ok(signature) => {
                        &&& signature.algorithm@ == "rsa-sha2-512"@
                        &&& sha512(data).len() == 64
                        &&& modulus_fits(p@, q@, 83)
                        &&& signs_encoded(
                            p@,
                            q@,
                            e@,
                            sha512_prefix() + sha512(data),
                            signature.data@,
                        )
                    },
                    Err(message) => rsa_signing_fails(p@, q@, 83, message@),
                }
            } else if flags & SSH_AGENT_RSA_SHA2_256 != 0 {
                match r {
                    Ok(signature) => {
                        &&& signature.algorithm@ == "rsa-sha2-256"@
                        &&& crate::cipher::sha256(data).len() == 32
                        &&& modulus_fits(p@, q@, 51)
                        &&& signs_encoded(
                            p@,
                            q@,
                            e@,
                            sha256_prefix() + crate::cipher::sha256(data),
                            signature.data@,
                        )
                    },
                    Err(message) => rsa_signing_fails(p@, q@, 51, message@),
                }
            } else {
                &&& r matches Err(message)
                &&& rsa_signing_fails(p@, q@, 20, message@) || exists|made: Seq<u8>| #[trigger]
                    signs_encoded(p@, q@, e@, sha1(data), made) && ssh_signature("ssh-rsa"@, made)
                        == Err::<(Seq<char>, Seq<u8>), Seq<char>>(message@)
            },
        },
        SshPrivateKey::Other(kind) => r matches Err(message) && message@
            == "Unsupported key type: "@ + kind@,
    }
}

/// Signs some bytes.
pub fn sign_data(key: &SshPrivateKey, data: &Vec<u8>, flags: u32) -> (r: Result<
    SshSignature,
    String,
>)
    requires
        key.spec_signable(),
    ensures
        comes_of_signing(*key, data@, flags, r),
{
    match key {
        SshPrivateKey::Ed25519(keypair) => sign_ed25519(keypair, data.as_slice()),
        SshPrivateKey::Rsa { p, q, e } => {
            if let Some(message) = refuse_rsa_key(p, q, e) {
                return Err(message);
            }
            if flags & SSH_AGENT_RSA_SHA2_512 != 0 {
                name_signature("rsa-sha2-512", sign_rsa_sha512(p, q, e, data.as_slice()))
            } else if flags & SSH_AGENT_RSA_SHA2_256 != 0 {
                name_signature("rsa-sha2-256", sign_rsa_sha256(p, q, e, data.as_slice()))
            } else {
                name_signature("ssh-rsa", sign_rsa_sha1(p, q, e, data.as_slice()))
            }
        },
        SshPrivateKey::Other(kind) => Err(text::concat("Unsupported key type: ", kind.as_str())),
    }
}

/// A sound RSA key whose modulus has room for the digest signs whatever it is
/// asked to sign by SHA-512 or SHA-256.
pub proof fn law_sound_rsa_key_signs(
    p: Vec<u8>,
    q: Vec<u8>,
    e: Vec<u8>,
    data: Seq<u8>,
    flags: u32,
    r: Result<SshSignature, String>,
)
    requires
        comes_of_signing(SshPrivateKey::Rsa { p, q, e }, data, flags, r),
        sound_rsa_key(p@, q@, e@),
        flags & SSH_AGENT_RSA_SHA2_512 != 0 ==> modulus_fits(p@, q@, 83),
        flags & SSH_AGENT_RSA_SHA2_512 == 0 ==> flags & SSH_AGENT_RSA_SHA2_256 != 0
            && modulus_fits(p@, q@, 51),
    ensures
        r is Ok,
{
}

/// What is to be signed, and with which key.
#[derive(Debug)]
pub struct SignRequest {
    /// The binary form of the public key.
    pub pubkey: Vec<u8>,
    pub data: Vec<u8>,
    pub flags: u32,
}

/// A request for a signature under way. From the check of the lock generation to
/// the end of the step that takes its outcome, the vault must not be locked.
pub enum Sign<K, E> {
    Authorize { wish: SignatureWish, request: SignRequest },
    FindKey { authorization: SshAuthorization<K>, request: SignRequest },
    CheckGeneration { lock_generation: u64, key: SshPrivateKey, data: Vec<u8>, flags: u32 },
    Done(Result<SshSignature, Error<E>>),
}

pub enum SignEvent<K, E> {
    Authorized(Result<SshAuthorization<K>, Error<E>>),
    KeyFound(Result<SshPrivateKey, Error<E>>),
    GenerationChecked(Result<(), E>),
}

/// Whether a request starts with the wish for a permission that names the key
/// by its fingerprint, or ends with an error where there is none.
pub open spec fn starts_with_wish<K, E>(
    fingerprint: Result<Seq<char>, Seq<char>>,
    p: Option<String>,
    who: String,
    sign: SignRequest,
    r: Sign<K, E>,
) -> bool {
    match fingerprint {
        Ok(fingerprint) => {
            &&& r matches Sign::Authorize { wish, request }
            &&& wish.pinentry == p
            &&& wish.requester == who
            &&& wish.key_fingerprint@ == fingerprint
            &&& request == sign
        },
        Err(cause) => r matches Sign::Done(Err(Error::Plain(message))) && message@ == cause,
    }
}

impl<K, E> Sign<K, E> {
    /// The first state of a request.
    pub fn start(pinentry: Option<String>, requester: String, request: SignRequest) -> (r: Self)
        ensures
            starts_with_wish(
                sha256_fingerprint(request.pubkey@),
                pinentry,
                requester,
                request,
                r,
            ),
    {
        let fingerprint = key_fingerprint(&request.pubkey);
        Self::with_fingerprint(fingerprint, pinentry, requester, request)
    }

    /// The first state of a request for a key whose fingerprint is known.
    pub fn with_fingerprint(
        fingerprint: Result<String, String>,
        pinentry: Option<String>,
        requester: String,
        request: SignRequest,
    ) -> (r: Self)
        ensures
            starts_with_wish(
                crate::ssh_keys::text_view(fingerprint),
                pinentry,
                requester,
                request,
                r,
            ),
    {
        match fingerprint {
            Ok(key_fingerprint) => Sign::Authorize {
                wish: SignatureWish { pinentry, requester, key_fingerprint },
                request,
            },
            Err(message) => Sign::Done(Err(Error::Plain(message))),
        }
    }

    /// Whether the request ended with what came of signing.
    pub open spec fn signed(self, key: SshPrivateKey, data: Seq<u8>, flags: u32) -> bool {
        &&& self matches Sign::Done(result)
        &&& match result {
            Ok(signature) => comes_of_signing(key, data, flags, Ok(signature)),
            Err(error) => error matches Error::Plain(message) && comes_of_signing(
                key,
                data,
                flags,
                Err(message),
            ),
        }
    }

    /// Where an event leads. One that the state does not wait for changes
    /// nothing.
    pub open spec fn steps_to(self, event: SignEvent<K, E>, after: Self) -> bool {
        match (self, event) {
            (Sign::Authorize { request, .. }, SignEvent::Authorized(result)) => {
                after == match result {
                    Ok(authorization) => Self::FindKey { authorization, request },
                    Err(error) => Self::Done(Err(error)),
                }
            },
            (Sign::FindKey { authorization, request }, SignEvent::KeyFound(result)) => {
                after == match result {
                    Ok(key) => Self::CheckGeneration {
                        lock_generation: authorization.lock_generation,
                        key,
                        data: request.data,
                        flags: request.flags,
                    },
                    Err(error) => Self::Done(Err(error)),
                }
            },
            (
                Sign::CheckGeneration { key, data, flags, .. },
                SignEvent::GenerationChecked(result),
            ) => match result {
                Ok(_) => after.signed(key, data@, flags),
                Err(error) => after == Self::Done(Err(Error::Forwarded(error))),
            },
            _ => after == self,
        }
    }
}

/// Moves a request for a signature on.
pub fn sign<K, E>(state: Sign<K, E>, event: SignEvent<K, E>) -> (after: Sign<K, E>)
    requires
        event matches SignEvent::GenerationChecked(Ok(_)) ==> (
            state matches Sign::CheckGeneration { key, .. } ==> key.spec_signable()),
    ensures
        state.steps_to(event, after),
{
    match (state, event) {
        (Sign::Authorize { request, .. }, SignEvent::Authorized(result)) => match result {
            Ok(authorization) => Sign::FindKey { authorization, request },
            Err(error) => Sign::Done(Err(error)),
        },
        (Sign::FindKey { authorization, request }, SignEvent::KeyFound(result)) => match result {
            Ok(key) => Sign::CheckGeneration {
                lock_generation: authorization.lock_generation(),
                key,
                data: request.data,
                flags: request.flags,
            },
            Err(error) => Sign::Done(Err(error)),
        },
        (
            Sign::CheckGeneration { key, data, flags, .. },
            SignEvent::GenerationChecked(result),
        ) => match result {
            Ok(_) => match sign_data(&key, &data, flags) {
                Ok(signature) => Sign::Done(Ok(signature)),
                Err(message) => Sign::Done(Err(Error::Plain(message))),
            },
            Err(error) => Sign::Done(Err(Error::Forwarded(error))),
        },
        (state, _) => state,
    }
}

/// Whether `events` lead through `states` one after the other.
pub open spec fn signing_run<K, E>(states: Seq<Sign<K, E>>, events: Seq<SignEvent<K, E>>) -> bool {
    &&& states.len() == events.len() + 1
    &&& forall|i: int|
        0 <= i < events.len() ==> states[i].steps_to(#[trigger] events[i], states[i + 1])
}

/// Whether the event gives the permission for a lock generation.
pub open spec fn permits<K, E>(
    state: Sign<K, E>,
    event: SignEvent<K, E>,
    lock_generation: u64,
) -> bool {
    &&& state is Authorize
    &&& event matches SignEvent::Authorized(Ok(authorization))
    &&& authorization.lock_generation == lock_generation
}

/// Whether the event finds the key.
pub open spec fn finds_key<K, E>(
    state: Sign<K, E>,
    event: SignEvent<K, E>,
    key: SshPrivateKey,
) -> bool {
    state is FindKey && event == SignEvent::<K, E>::KeyFound(Ok(key))
}

/// Whether the event finds the lock generation that the state names unchanged.
pub open spec fn still_unlocked<K, E>(
    state: Sign<K, E>,
    event: SignEvent<K, E>,
    generation: u64,
) -> bool {
    &&& state matches Sign::CheckGeneration { lock_generation, .. }
    &&& lock_generation == generation
    &&& event matches SignEvent::GenerationChecked(result)
    &&& result is Ok
}

/// A signature comes of signing what was asked for with a key that was found for
/// the very request, once the permission was given, and after the lock
/// generation of the permission was found unchanged, in this order.
pub proof fn law_signature_needs_permission<K, E>(
    states: Seq<Sign<K, E>>,
    events: Seq<SignEvent<K, E>>,
    signature: SshSignature,
)
    requires
        signing_run(states, events),
        states[0] is Authorize,
        states.last() == Sign::<K, E>::Done(Ok(signature)),
    ensures
        exists|a: int, b: int, c: int, generation: u64, key: SshPrivateKey|
            {
                &&& 0 <= a < b < c < events.len()
                &&& #[trigger] permits(states[a], events[a], generation)
                &&& #[trigger] finds_key(states[b], events[b], key)
                &&& states[b]->FindKey_request == states[0]->Authorize_request
                &&& #[trigger] still_unlocked(states[c], events[c], generation)
                &&& comes_of_signing(
                    key,
                    states[0]->Authorize_request.data@,
                    states[0]->Authorize_request.flags,
                    Ok(signature),
                )
            },
{
    let c = lemma_signature_was_checked(states, events, signature, events.len() as int);
    let b = lemma_checked_key_was_found(states, events, c);
    let a = lemma_search_was_permitted(states, events, b);
    let generation = states[c]->CheckGeneration_lock_generation;
    let key = states[c]->CheckGeneration_key;
    assert(permits(states[a], events[a], generation));
    assert(finds_key(states[b], events[b], key));
    assert(still_unlocked(states[c], events[c], generation));
}

proof fn lemma_signature_was_checked<K, E>(
    states: Seq<Sign<K, E>>,
    events: Seq<SignEvent<K, E>>,
    signature: SshSignature,
    n: int,
) -> (c: int)
    requires
        signing_run(states, events),
        states[0] is Authorize,
        0 <= n <= events.len(),
        states[n] == Sign::<K, E>::Done(Ok(signature)),
    ensures
        0 <= c < n,
        states[c] is CheckGeneration,
        events[c] is GenerationChecked,
        events[c]->GenerationChecked_0 is Ok,
        comes_of_signing(
            states[c]->CheckGeneration_key,
            states[c]->CheckGeneration_data@,
            states[c]->CheckGeneration_flags,
            Ok(signature),
        ),
    decreases n,
{
    assert(states[n - 1].steps_to(events[n - 1], states[n]));
    if states[n - 1] is CheckGeneration {
        n - 1
    } else {
        lemma_signature_was_checked(states, events, signature, n - 1)
    }
}

proof fn lemma_checked_key_was_found<K, E>(
    states: Seq<Sign<K, E>>,
    events: Seq<SignEvent<K, E>>,
    n: int,
) -> (b: int)
    requires
        signing_run(states, events),
        states[0] is Authorize,
        0 <= n <= events.len(),
        states[n] is CheckGeneration,
    ensures
        0 <= b < n,
        finds_key(states[b], events[b], states[n]->CheckGeneration_key),
        states[b]->FindKey_authorization.lock_generation
            == states[n]->CheckGeneration_lock_generation,
        states[b]->FindKey_request.data == states[n]->CheckGeneration_data,
        states[b]->FindKey_request.flags == states[n]->CheckGeneration_flags,
    decreases n,
{
    assert(states[n - 1].steps_to(events[n - 1], states[n]));
    if states[n - 1] is FindKey {
        n - 1
    } else {
        lemma_checked_key_was_found(states, events, n - 1)
    }
}

proof fn lemma_search_was_permitted<K, E>(
    states: Seq<Sign<K, E>>,
    events: Seq<SignEvent<K, E>>,
    n: int,
) -> (a: int)
    requires
        signing_run(states, events),
        states[0] is Authorize,
        0 <= n <= events.len(),
        states[n] is FindKey,
    ensures
        0 <= a < n,
        permits(states[a], events[a], states[n]->FindKey_authorization.lock_generation),
        states[n]->FindKey_request == states[0]->Authorize_request,
    decreases n,
{
    assert(states[n - 1].steps_to(events[n - 1], states[n]));
    if states[n - 1] is Authorize {
        lemma_request_is_kept(states, events, n - 1);
        n - 1
    } else {
        lemma_search_was_permitted(states, events, n - 1)
    }
}

proof fn lemma_request_is_kept<K, E>(
    states: Seq<Sign<K, E>>,
    events: Seq<SignEvent<K, E>>,
    n: int,
)
    requires
        signing_run(states, events),
        states[0] is Authorize,
        0 <= n <= events.len(),
        states[n] is Authorize,
    ensures
        states[n]->Authorize_request == states[0]->Authorize_request,
    decreases n,
{
    if n > 0 {
        assert(states[n - 1].steps_to(events[n - 1], states[n]));
        lemma_request_is_kept(states, events, n - 1);
    }
}

} // verus!
