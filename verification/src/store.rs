//! Credential persistence. The store is a capability — `get` and `put`
//! over an identity/secret pair — with the backend chosen once at
//! construction: the platform credential store through the `keyring`
//! crate, or an in-memory table whose behaviour is fully specified by a
//! map model. A miss is `Ok(None)`; only an unreachable backend is an
//! error.

use vstd::prelude::*;

use crate::errors::StoreError;
use crate::strutil::str_eq;

verus! {

/// One stored secret and the account it is filed under.
#[derive(Clone, Debug, PartialEq, Eq)]
pub struct Credential {
    pub identity: String,
    pub secret: String,
}

/// The map described by the first `n` entries of the list, later entries
/// overriding earlier ones.
spec fn map_of_prefix(s: Seq<Credential>, n: int) -> Map<Seq<char>, Seq<char>>
    decreases n,
{
    if n <= 0 {
        Map::empty()
    } else {
        map_of_prefix(s, n - 1).insert(s[n - 1].identity@, s[n - 1].secret@)
    }
}

proof fn lemma_map_of_prefix_push(s: Seq<Credential>, c: Credential, n: int)
    requires
        0 <= n <= s.len(),
    ensures
        map_of_prefix(s.push(c), n) == map_of_prefix(s, n),
    decreases n,
{
    if n > 0 {
        lemma_map_of_prefix_push(s, c, n - 1);
        assert(s.push(c)[n - 1] == s[n - 1]);
    }
}

/// The in-memory backend: a write log read from the newest entry back,
/// observable only through its map model — each identity maps to the
/// secret most recently written for it.
#[derive(Clone, Debug)]
pub struct MemoryStore {
    entries: Vec<Credential>,
}

impl View for MemoryStore {
    type V = Map<Seq<char>, Seq<char>>;

    closed spec fn view(&self) -> Map<Seq<char>, Seq<char>> {
        map_of_prefix(self.entries@, self.entries@.len() as int)
    }
}

impl MemoryStore {
    /// An empty store: no identity has a secret.
    pub fn new() -> (s: MemoryStore)
        ensures
            s@ == Map::<Seq<char>, Seq<char>>::empty(),
    {
        MemoryStore { entries: Vec::new() }
    }

    /// The secret most recently written for `identity`, if any.
    pub fn lookup(&self, identity: &str) -> (r: Option<String>)
        ensures
            r is Some <==> self@.contains_key(identity@),
            r matches Some(t) ==> t@ == self@[identity@],
    {
        let mut i: usize = self.entries.len();
        while i > 0
            invariant
                i <= self.entries.len(),
                self@.contains_key(identity@) <==> map_of_prefix(
                    self.entries@,
                    i as int,
                ).contains_key(identity@),
                self@.contains_key(identity@) ==> self@[identity@] == map_of_prefix(
                    self.entries@,
                    i as int,
                )[identity@],
            decreases i,
        {
            i = i - 1;
            let e = &self.entries[i];
            if str_eq(e.identity.as_str(), identity) {
                return Some(e.secret.as_str().to_owned());
            }
        }
        None
    }

    /// Records the credential; any earlier secret under the same identity
    /// is overridden.
    pub fn record(&mut self, c: Credential)
        ensures
            final(self)@ == old(self)@.insert(c.identity@, c.secret@),
    {
        proof {
            lemma_map_of_prefix_push(self.entries@, c, self.entries@.len() as int);
        }
        self.entries.push(c);
    }
}

/// What one read of the platform credential store yielded.
pub enum KeyringReadOutcome {
    /// A secret is stored under the entry.
    Found(String),
    /// Nothing is stored under the entry; not an error.
    Absent,
    /// The backend could not be read; the message says why.
    Failure(String),
}

/// The platform credential store, reached through the `keyring` crate.
#[verifier::external_type_specification]
#[verifier::external_body]
pub struct ExKeyringEntry(keyring::Entry);

/// Relies on keyring::Entry::new: builds a handle for the (service, user)
/// pair in the platform credential store, touching no stored data; it
/// fails only when the platform refuses those attribute values.
#[verifier::external_body]
fn entry_new(service: &str, user: &str) -> (r: Result<keyring::Entry, String>) {
    match keyring::Entry::new(service, user) {
        Ok(e) => Ok(e),
        Err(err) => Err(err.to_string()),
    }
}

/// Relies on keyring::Entry::get_password: yields the secret stored for
/// the entry, reports `Err(NoEntry)` as a plain miss, and any other error
/// as a backend failure. What comes back depends on the machine's
/// credential store, so no outcome is promised over another.
#[verifier::external_body]
fn entry_get_password(e: &keyring::Entry) -> (r: KeyringReadOutcome) {
    match e.get_password() {
        Ok(secret) => KeyringReadOutcome::Found(secret),
        Err(keyring::Error::NoEntry) => KeyringReadOutcome::Absent,
        Err(err) => KeyringReadOutcome::Failure(err.to_string()),
    }
}

/// Relies on keyring::Entry::set_password: overwrites whatever secret the
/// platform holds for the entry; on failure nothing is known of the
/// stored state.
#[verifier::external_body]
fn entry_set_password(e: &keyring::Entry, secret: &str) -> (r: Result<(), String>) {
    match e.set_password(secret) {
        Ok(()) => Ok(()),
        Err(err) => Err(err.to_string()),
    }
}

/// The production backend: secrets live in the platform credential store
/// under a fixed service name, one entry per identity.
#[derive(Clone, Debug)]
pub struct KeyringStore {
    pub service: String,
}

impl KeyringStore {
    /// A handle on the platform store under the given service name. The
    /// name should differ between a debug and a production profile so the
    /// two never share entries.
    pub fn new(service: String) -> (s: KeyringStore)
        ensures
            s.service@ == service@,
    {
        KeyringStore { service }
    }

    /// Reads the platform store; a missing entry is a miss, not an error.
    fn read(&self, identity: &str) -> (r: Result<Option<String>, StoreError>) {
        match entry_new(self.service.as_str(), identity) {
            Err(message) => Err(StoreError::BackendUnavailable { message }),
            Ok(entry) => match entry_get_password(&entry) {
                KeyringReadOutcome::Found(secret) => Ok(Some(secret)),
                KeyringReadOutcome::Absent => Ok(None),
                KeyringReadOutcome::Failure(message) => Err(
                    StoreError::BackendUnavailable { message },
                ),
            },
        }
    }

    /// Overwrites the platform store's entry for the identity.
    fn write(&self, identity: &str, secret: &str) -> (r: Result<(), StoreError>) {
        match entry_new(self.service.as_str(), identity) {
            Err(message) => Err(StoreError::BackendUnavailable { message }),
            Ok(entry) => match entry_set_password(&entry, secret) {
                Ok(()) => Ok(()),
                Err(message) => Err(StoreError::BackendUnavailable { message }),
            },
        }
    }
}

/// The credential store with its backend resolved: the platform store in
/// production, the in-memory table where a run must not touch the
/// platform. On the in-memory backend every outcome is pinned down by the
/// map model; on the platform backend the outcome is whatever the machine
/// holds, and only the shape of the result is promised.
pub enum CredentialStore {
    Memory(MemoryStore),
    Keyring(KeyringStore),
}

impl CredentialStore {
    /// The secret stored for `identity`: `Ok(None)` on a plain miss,
    /// `Err` only when the backend itself cannot be read.
    pub fn get(&self, identity: &str) -> (r: Result<Option<Credential>, StoreError>)
        ensures
            self matches CredentialStore::Memory(m) ==> (r matches Ok(o) && (o is Some
                <==> m@.contains_key(identity@)) && (o matches Some(c) ==> c.secret@
                == m@[identity@])),
            r matches Ok(Some(c)) ==> c.identity@ == identity@,
    {
        match self {
            CredentialStore::Memory(m) => match m.lookup(identity) {
                Some(secret) => Ok(
                    Some(Credential { identity: identity.to_owned(), secret }),
                ),
                None => Ok(None),
            },
            CredentialStore::Keyring(k) => match k.read(identity)? {
                Some(secret) => Ok(
                    Some(Credential { identity: identity.to_owned(), secret }),
                ),
                None => Ok(None),
            },
        }
    }

    /// Stores the credential under its identity, overwriting silently:
    /// the store never holds more than one secret per identity.
    pub fn put(&mut self, c: Credential) -> (r: Result<(), StoreError>)
        ensures
            (*old(self)) matches CredentialStore::Memory(m) ==> (r is Ok && ((*final(self))
                matches CredentialStore::Memory(m2) && m2@ == m@.insert(c.identity@, c.secret@))),
            (*old(self)) matches CredentialStore::Keyring(k) ==> ((*final(self))
                matches CredentialStore::Keyring(k2) && k2.service@ == k.service@),
    {
        match self {
            CredentialStore::Memory(m) => {
                m.record(c);
                Ok(())
            },
            CredentialStore::Keyring(k) => k.write(c.identity.as_str(), c.secret.as_str()),
        }
    }
}

/// The round-trip law of the store model: an empty store holds nothing,
/// and after a `put` every later `get` under the same identity sees
/// exactly the secret that was written.
pub proof fn lemma_store_round_trip(
    m: Map<Seq<char>, Seq<char>>,
    identity: Seq<char>,
    secret: Seq<char>,
)
    ensures
        !Map::<Seq<char>, Seq<char>>::empty().contains_key(identity),
        m.insert(identity, secret).contains_key(identity),
        m.insert(identity, secret)[identity] == secret,
{
}

/// Last writer wins: writing the same identity twice is the same as
/// writing it once with the later secret, so the store never holds more
/// than one secret per identity.
pub proof fn lemma_store_overwrites(
    m: Map<Seq<char>, Seq<char>>,
    identity: Seq<char>,
    s1: Seq<char>,
    s2: Seq<char>,
)
    ensures
        m.insert(identity, s1).insert(identity, s2) == m.insert(identity, s2),
{
    assert(m.insert(identity, s1).insert(identity, s2) =~= m.insert(identity, s2));
}

} // verus!
