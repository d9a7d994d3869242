//! Storage of secrets (API keys, tokens) behind one interface: an
//! in-memory store with a proved map model, and the operating system's
//! keyring.

use vstd::prelude::*;
use vstd::string::StringExecFns;
use crate::json::str_equal;

verus! {

/// Why a vault operation failed.
#[derive(Debug, Clone, PartialEq, Eq)]
pub enum VaultError {
    /// The secret store reported a failure, with its message.
    Backend(String),
}

impl VaultError {
    /// The message of the error.
    pub fn message(&self) -> (m: String)
        ensures
            match self {
                VaultError::Backend(t) => m@ == t@,
            },
    {
        match self {
            VaultError::Backend(t) => t.clone(),
        }
    }
}

/// A store of named secrets.
pub trait PrivacyVault {
    /// Stores `value` under `key`, replacing any earlier value.
    fn store(&mut self, key: &str, value: &str) -> Result<(), VaultError>;
    /// The value stored under `key`, if any.
    fn retrieve(&self, key: &str) -> Result<Option<String>, VaultError>;
    /// Removes the value stored under `key`; removing a missing key succeeds.
    fn delete(&mut self, key: &str) -> Result<(), VaultError>;
}

/// The map that a list of entries stands for; a later entry overrides an
/// earlier one with the same key.
pub open spec fn entries_map(es: Seq<(String, String)>) -> Map<Seq<char>, Seq<char>>
    decreases es.len(),
{
    if es.len() == 0 {
        Map::empty()
    } else {
        entries_map(es.drop_last()).insert(es.last().0@, es.last().1@)
    }
}

/// A vault held in memory, for tests and tools.
pub struct InMemoryVault {
    entries: Vec<(String, String)>,
}

impl View for InMemoryVault {
    type V = Map<Seq<char>, Seq<char>>;

    closed spec fn view(&self) -> Map<Seq<char>, Seq<char>> {
        entries_map(self.entries@)
    }
}

/// Entries after position `i` never carry `k`: the map's value for `k`
/// is decided by the first `i` entries.
proof fn lemma_suffix_without_key(es: Seq<(String, String)>, i: int, k: Seq<char>)
    requires
        0 <= i <= es.len(),
        forall|j: int| i <= j < es.len() ==> es[j].0@ != k,
    ensures
        entries_map(es).contains_key(k) == entries_map(es.take(i)).contains_key(k),
        entries_map(es)[k] == entries_map(es.take(i))[k],
    decreases es.len() - i,
{
    if i < es.len() {
        assert(es.drop_last().take(i) =~= es.take(i));
        lemma_suffix_without_key(es.drop_last(), i, k);
    } else {
        assert(es.take(i) =~= es);
    }
}

impl InMemoryVault {
    /// An empty vault.
    pub fn new() -> (v: Self)
        ensures
            v@ == Map::<Seq<char>, Seq<char>>::empty(),
    {
        InMemoryVault { entries: Vec::new() }
    }

    /// The entries without any whose key is `key`.
    fn without_key(&self, key: &str) -> (kept: Vec<(String, String)>)
        ensures
            entries_map(kept@) == self@.remove(key@),
    {
        let mut kept: Vec<(String, String)> = Vec::new();
        let mut i: usize = 0;
        assert(self.entries@.take(0) =~= Seq::<(String, String)>::empty());
        assert(entries_map(kept@) =~= entries_map(self.entries@.take(0)).remove(key@));
        while i < self.entries.len()
            invariant
                i <= self.entries.len(),
                entries_map(kept@) == entries_map(self.entries@.take(i as int)).remove(key@),
            decreases self.entries.len() - i,
        {
            let ghost before = entries_map(self.entries@.take(i as int));
            assert(self.entries@.take(i + 1).drop_last() =~= self.entries@.take(i as int));
            let e = &self.entries[i];
            if !str_equal(e.0.as_str(), key) {
                let ghost old_kept = kept@;
                let k2 = e.0.clone();
                let v2 = e.1.clone();
                kept.push((k2, v2));
                assert(kept@.drop_last() =~= old_kept);
                assert(entries_map(kept@) == entries_map(old_kept).insert(e.0@, e.1@));
                assert(self.entries@.take(i + 1).last() == self.entries@[i as int]);
                assert(entries_map(kept@) =~= entries_map(self.entries@.take(i + 1)).remove(key@));
            } else {
                assert(entries_map(self.entries@.take(i + 1)).remove(key@) =~= before.remove(key@));
            }
            i = i + 1;
        }
        assert(self.entries@.take(self.entries.len() as int) =~= self.entries@);
        kept
    }
}

impl Default for InMemoryVault {
    fn default() -> (v: Self)
        ensures
            v@ == Map::<Seq<char>, Seq<char>>::empty(),
    {
        InMemoryVault::new()
    }
}

impl PrivacyVault for InMemoryVault {
    fn store(&mut self, key: &str, value: &str) -> (r: Result<(), VaultError>)
        ensures
            r is Ok,
            final(self)@ == old(self)@.insert(key@, value@),
    {
        let mut kept = self.without_key(key);
        let ghost old_kept = kept@;
        kept.push((String::from_str(key), String::from_str(value)));
        assert(kept@.drop_last() =~= old_kept);
        assert(entries_map(kept@) == entries_map(old_kept).insert(key@, value@));
        self.entries = kept;
        assert(final(self)@ =~= old(self)@.insert(key@, value@));
        Ok(())
    }

    fn retrieve(&self, key: &str) -> (r: Result<Option<String>, VaultError>)
        ensures
            match r {
                Ok(Some(v)) => self@.contains_key(key@) && v@ == self@[key@],
                Ok(None) => !self@.contains_key(key@),
                Err(_) => false,
            },
    {
        let mut i: usize = self.entries.len();
        while i > 0
            invariant
                i <= self.entries.len(),
                forall|j: int| i <= j < self.entries@.len() ==> self.entries@[j].0@ != key@,
            decreases i,
        {
            let e = &self.entries[i - 1];
            if str_equal(e.0.as_str(), key) {
                proof {
                    lemma_suffix_without_key(self.entries@, i as int, key@);
                    assert(self.entries@.take(i as int).last() == self.entries@[i - 1]);
                }
                return Ok(Some(e.1.clone()));
            }
            i = i - 1;
        }
        proof {
            lemma_suffix_without_key(self.entries@, 0, key@);
            assert(self.entries@.take(0) =~= Seq::<(String, String)>::empty());
        }
        Ok(None)
    }

    fn delete(&mut self, key: &str) -> (r: Result<(), VaultError>)
        ensures
            r is Ok,
            final(self)@ == old(self)@.remove(key@),
    {
        self.entries = self.without_key(key);
        Ok(())
    }
}

/// Laws of the in-memory vault: a stored value is read back unchanged;
/// storing twice keeps the second value; a deleted key reads as missing;
/// storing or deleting one key leaves every other key as it was.
pub proof fn law_vault_round_trip(m: Map<Seq<char>, Seq<char>>, k: Seq<char>, other: Seq<char>, v1: Seq<char>, v2: Seq<char>)
    requires
        other != k,
    ensures
        m.insert(k, v1).contains_key(k) && m.insert(k, v1)[k] == v1,
        m.insert(k, v1).insert(k, v2) == m.insert(k, v2),
        !m.remove(k).contains_key(k),
        m.insert(k, v1).contains_key(other) == m.contains_key(other),
        m.insert(k, v1)[other] == m[other],
        m.remove(k).contains_key(other) == m.contains_key(other),
        m.remove(k)[other] == m[other],
{
    assert(m.insert(k, v1).insert(k, v2) =~= m.insert(k, v2));
}

/// The vault contents after a run of writes: each step is a store of
/// `(key, value)` when its flag is set, else a delete of `key`, exactly as
/// the `ensures` of [`InMemoryVault`]'s `store` and `delete` describe them.
pub open spec fn replay(m: Map<Seq<char>, Seq<char>>, steps: Seq<(bool, Seq<char>, Seq<char>)>) -> Map<Seq<char>, Seq<char>>
    decreases steps.len(),
{
    if steps.len() == 0 {
        m
    } else {
        let before = replay(m, steps.drop_last());
        let s = steps.last();
        if s.0 { before.insert(s.1, s.2) } else { before.remove(s.1) }
    }
}

/// The last step of `steps` that touches `k`: `Some(Some(v))` for a store
/// of `v`, `Some(None)` for a delete, `None` when no step touches `k`.
pub open spec fn last_write(steps: Seq<(bool, Seq<char>, Seq<char>)>, k: Seq<char>) -> Option<Option<Seq<char>>>
    decreases steps.len(),
{
    if steps.len() == 0 {
        None
    } else if steps.last().1 == k {
        if steps.last().0 { Some(Some(steps.last().2)) } else { Some(None) }
    } else {
        last_write(steps.drop_last(), k)
    }
}

/// Law of the vault over any run of stores and deletes: a key reads back
/// the value of its last store when no delete follows it, reads as missing
/// when its last write is a delete, and keeps its earlier reading when no
/// step touches it.
pub proof fn law_vault_last_write_wins(m: Map<Seq<char>, Seq<char>>, steps: Seq<(bool, Seq<char>, Seq<char>)>, k: Seq<char>)
    ensures
        match last_write(steps, k) {
            Some(Some(v)) => replay(m, steps).contains_key(k) && replay(m, steps)[k] == v,
            Some(None) => !replay(m, steps).contains_key(k),
            None => replay(m, steps).contains_key(k) == m.contains_key(k)
                && (m.contains_key(k) ==> replay(m, steps)[k] == m[k]),
        },
    decreases steps.len(),
{
    if steps.len() > 0 {
        law_vault_last_write_wins(m, steps.drop_last(), k);
    }
}

/// Service name under which the application's secrets live in the keyring.
pub const KEYRING_SERVICE: &'static str = "com.fingertip.app";

#[verifier::external_type_specification]
#[verifier::external_body]
pub struct KeyringEntry(keyring::Entry);

#[verifier::external_type_specification]
#[verifier::external_body]
pub struct KeyringError(keyring::Error);

/// How a keyring operation failed: no credential matches, or anything
/// else; each with the keyring's message.
#[derive(Debug, Clone, PartialEq, Eq)]
pub enum KeyringFailure {
    NoEntry(String),
    Other(String),
}

/// The message of a keyring failure.
pub open spec fn failure_text(f: KeyringFailure) -> Seq<char> {
    match f {
        KeyringFailure::NoEntry(m) => m@,
        KeyringFailure::Other(m) => m@,
    }
}

/// The entry that the vault asks the keyring for: a service name and a
/// user name.
#[derive(Debug, Clone, PartialEq, Eq)]
pub struct KeyringRequest {
    pub service: String,
    pub user: String,
}

/// The entry of a secret's key: the application's service
/// ([`KEYRING_SERVICE`]) with the key as the user name.
pub fn keyring_request(key: &str) -> (q: KeyringRequest)
    ensures
        q.service@ == KEYRING_SERVICE@,
        q.user@ == key@,
{
    KeyringRequest { service: String::from_str(KEYRING_SERVICE), user: String::from_str(key) }
}

/// Opens the keyring entry of a request's service and user with
/// `keyring::Entry::new`. Nothing is claimed of the outcome, which depends
/// on the platform store.
#[verifier::external_body]
fn keyring_entry(q: &KeyringRequest) -> Result<keyring::Entry, keyring::Error> {
    keyring::Entry::new(&q.service, &q.user)
}

/// Saves a password with `keyring::Entry::set_password`. Nothing is claimed
/// of the outcome, which depends on the platform store.
#[verifier::external_body]
fn keyring_set_password(entry: &keyring::Entry, password: &str) -> Result<(), keyring::Error> {
    entry.set_password(password)
}

/// Reads a password with `keyring::Entry::get_password`. Nothing is claimed
/// of the outcome, which depends on the platform store.
#[verifier::external_body]
fn keyring_get_password(entry: &keyring::Entry) -> Result<String, keyring::Error> {
    entry.get_password()
}

/// Deletes a credential with `keyring::Entry::delete_credential`. Nothing is
/// claimed of the outcome, which depends on the platform store.
#[verifier::external_body]
fn keyring_delete_credential(entry: &keyring::Entry) -> Result<(), keyring::Error> {
    entry.delete_credential()
}

/// Converts a `keyring::Error`: the `NoEntry` variant into
/// [`KeyringFailure::NoEntry`], every other variant into
/// [`KeyringFailure::Other`], each with the error's `Display` text.
/// Nothing is claimed of it, as the error is opaque here.
#[verifier::external_body]
fn keyring_failure(e: keyring::Error) -> KeyringFailure {
    match e {
        keyring::Error::NoEntry => KeyringFailure::NoEntry(format!("{}", e)),
        other => KeyringFailure::Other(format!("{}", other)),
    }
}

/// The view of a vault result without a value: the error's message.
pub open spec fn unit_view(r: Result<(), VaultError>) -> Result<(), Seq<char>> {
    match r {
        Ok(()) => Ok(()),
        Err(VaultError::Backend(m)) => Err(m@),
    }
}

/// The view of a vault read: the value read, or the error's message.
pub open spec fn read_view(r: Result<Option<String>, VaultError>) -> Result<Option<Seq<char>>, Seq<char>> {
    match r {
        Ok(Some(v)) => Ok(Some(v@)),
        Ok(None) => Ok(None),
        Err(VaultError::Backend(m)) => Err(m@),
    }
}

/// A keyring result seen through the entry's opening: a failed opening
/// fails the operation with its message, whatever failure it was.
pub open spec fn after_open<T>(open: Result<(), KeyringFailure>, then: Result<T, Seq<char>>) -> Result<T, Seq<char>> {
    match open {
        Ok(()) => then,
        Err(f) => Err(failure_text(f)),
    }
}

/// Storing: a saved password succeeds, any failure is a backend error.
pub open spec fn spec_store_outcome(w: Result<(), KeyringFailure>) -> Result<(), Seq<char>> {
    match w {
        Ok(()) => Ok(()),
        Err(f) => Err(failure_text(f)),
    }
}

/// Reading: a password read is the value, no credential is no value, any
/// other failure is a backend error.
pub open spec fn spec_retrieve_outcome(w: Result<String, KeyringFailure>) -> Result<Option<Seq<char>>, Seq<char>> {
    match w {
        Ok(v) => Ok(Some(v@)),
        Err(KeyringFailure::NoEntry(_)) => Ok(None),
        Err(KeyringFailure::Other(m)) => Err(m@),
    }
}

/// Deleting: a deleted credential or a missing one succeeds, any other
/// failure is a backend error.
pub open spec fn spec_delete_outcome(w: Result<(), KeyringFailure>) -> Result<(), Seq<char>> {
    match w {
        Ok(()) => Ok(()),
        Err(KeyringFailure::NoEntry(_)) => Ok(()),
        Err(KeyringFailure::Other(m)) => Err(m@),
    }
}

/// The backend error carrying a keyring failure's message.
fn backend_error(f: KeyringFailure) -> (r: VaultError)
    ensures
        r matches VaultError::Backend(m) && m@ == failure_text(f),
{
    match f {
        KeyringFailure::NoEntry(m) => VaultError::Backend(m),
        KeyringFailure::Other(m) => VaultError::Backend(m),
    }
}

/// The vault's answer to a keyring write (see [`spec_store_outcome`]).
pub fn store_outcome(w: Result<(), KeyringFailure>) -> (o: Result<(), VaultError>)
    ensures
        unit_view(o) == spec_store_outcome(w),
{
    match w {
        Ok(()) => Ok(()),
        Err(f) => Err(backend_error(f)),
    }
}

/// The vault's answer to a keyring read (see [`spec_retrieve_outcome`]).
pub fn retrieve_outcome(w: Result<String, KeyringFailure>) -> (o: Result<Option<String>, VaultError>)
    ensures
        read_view(o) == spec_retrieve_outcome(w),
{
    match w {
        Ok(v) => Ok(Some(v)),
        Err(KeyringFailure::NoEntry(_)) => Ok(None),
        Err(KeyringFailure::Other(m)) => Err(VaultError::Backend(m)),
    }
}

/// The vault's answer to a keyring deletion (see [`spec_delete_outcome`]).
pub fn delete_outcome(w: Result<(), KeyringFailure>) -> (o: Result<(), VaultError>)
    ensures
        unit_view(o) == spec_delete_outcome(w),
{
    match w {
        Ok(()) => Ok(()),
        Err(KeyringFailure::NoEntry(_)) => Ok(()),
        Err(KeyringFailure::Other(m)) => Err(VaultError::Backend(m)),
    }
}

/// The vault of the operating system's keyring.
#[derive(Debug, Clone, Copy, Default)]
pub struct KeyringVault;

impl KeyringVault {
    /// A handle on the keyring.
    pub fn new() -> (v: Self) {
        KeyringVault
    }
}

impl PrivacyVault for KeyringVault {
    /// Opens the entry [`keyring_request`] gives for `key` and saves the
    /// value there unchanged; the result is [`store_outcome`] of the keyring's answer, or the
    /// opening's failure.  What the keyring answers depends on the platform
    /// store.
    fn store(&mut self, key: &str, value: &str) -> (r: Result<(), VaultError>)
        ensures
            exists|open: Result<(), KeyringFailure>, w: Result<(), KeyringFailure>|
                unit_view(r) == after_open(open, spec_store_outcome(w)),
    {
        let request = keyring_request(key);
        let entry = match keyring_entry(&request) {
            Ok(e) => e,
            Err(e) => {
                let f = keyring_failure(e);
                let ghost g = f;
                let r = Err(backend_error(f));
                assert(unit_view(r) == after_open(Err(g), spec_store_outcome(Ok(()))));
                return r;
            },
        };
        let w = match keyring_set_password(&entry, value) {
            Ok(()) => Ok(()),
            Err(e) => Err(keyring_failure(e)),
        };
        let ghost g = w;
        let r = store_outcome(w);
        assert(unit_view(r) == after_open(Ok(()), spec_store_outcome(g)));
        r
    }

    /// Opens the entry [`keyring_request`] gives for `key` and reads it; the
    /// result is [`retrieve_outcome`] of the keyring's answer, or the
    /// opening's failure.
    fn retrieve(&self, key: &str) -> (r: Result<Option<String>, VaultError>)
        ensures
            exists|open: Result<(), KeyringFailure>, w: Result<String, KeyringFailure>|
                read_view(r) == after_open(open, spec_retrieve_outcome(w)),
    {
        let request = keyring_request(key);
        let entry = match keyring_entry(&request) {
            Ok(e) => e,
            Err(e) => {
                let f = keyring_failure(e);
                let ghost g = f;
                let r = Err(backend_error(f));
                assert(read_view(r) == after_open(Err(g), spec_retrieve_outcome(Err(g))));
                return r;
            },
        };
        let w = match keyring_get_password(&entry) {
            Ok(v) => Ok(v),
            Err(e) => Err(keyring_failure(e)),
        };
        let ghost g = w;
        let r = retrieve_outcome(w);
        assert(read_view(r) == after_open(Ok(()), spec_retrieve_outcome(g)));
        r
    }

    /// Opens the entry [`keyring_request`] gives for `key` and deletes it;
    /// the result is [`delete_outcome`] of the keyring's answer, or the
    /// opening's failure.
    fn delete(&mut self, key: &str) -> (r: Result<(), VaultError>)
        ensures
            exists|open: Result<(), KeyringFailure>, w: Result<(), KeyringFailure>|
                unit_view(r) == after_open(open, spec_delete_outcome(w)),
    {
        let request = keyring_request(key);
        let entry = match keyring_entry(&request) {
            Ok(e) => e,
            Err(e) => {
                let f = keyring_failure(e);
                let ghost g = f;
                let r = Err(backend_error(f));
                assert(unit_view(r) == after_open(Err(g), spec_delete_outcome(Ok(()))));
                return r;
            },
        };
        let w = match keyring_delete_credential(&entry) {
            Ok(()) => Ok(()),
            Err(e) => Err(keyring_failure(e)),
        };
        let ghost g = w;
        let r = delete_outcome(w);
        assert(unit_view(r) == after_open(Ok(()), spec_delete_outcome(g)));
        r
    }
}
} // verus!
