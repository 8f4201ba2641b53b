//! Key custody: the lifecycle of the 256-bit master key.
//!
//! The key lives in one of two stores, each holding it as a base64 record:
//! the platform's secure credential store, which is preferred, and a file
//! that stands in where no such store can be had. [`KeyManager`] decides,
//! step by step, what to ask of the stores: look the key up in the first,
//! then in the second, and only where both hold nothing generate a key and
//! persist it, in the first store that takes it. A record that is there but
//! is no key is an error, never a reason to generate.
//!
//! The manager does no I/O. Its caller performs each [`CustodyAction`] and
//! hands back what came of it as a [`CustodyEvent`].

use vstd::prelude::*;
use crate::error::ErrorSeverity;
use crate::error::categories::ErrorCategory;
use crate::error::types::AppError;
use crate::error_subcategories::{
    KeyGenerationSubcategory, KeyManagementSubcategory, KeyringSubcategory,
};
use crate::services::aead::KEY_LEN;
use crate::services::encoding::{
    base64_text, decode_base64, encode_base64, is_base64_char, lemma_base64_text_chars,
    lemma_base64_text_injective,
};
use crate::services::random::random_bytes;

verus! {

/// The master key: exactly 32 bytes. The type has no `Debug`, so that no
/// log line shows a key.
pub struct MasterKey {
    bytes: Vec<u8>,
}

impl View for MasterKey {
    type V = Seq<u8>;

    closed spec fn view(&self) -> Seq<u8> {
        self.bytes@
    }
}

impl MasterKey {
    #[verifier::type_invariant]
    spec fn has_key_length(self) -> bool {
        self.bytes@.len() == KEY_LEN
    }

    /// Takes `bytes` as a key, where there are exactly 32 of them.
    pub fn from_bytes(bytes: Vec<u8>) -> (key: Option<MasterKey>)
        ensures
            key is Some <==> bytes@.len() == KEY_LEN,
            key matches Some(k) ==> k@ == bytes@,
    {
        if bytes.len() == KEY_LEN {
            Some(MasterKey { bytes })
        } else {
            None
        }
    }

    /// The key's bytes.
    pub fn as_bytes(&self) -> (bytes: &[u8])
        ensures
            bytes@ == self@,
            bytes@.len() == KEY_LEN,
    {
        proof {
            use_type_invariant(self);
        }
        self.bytes.as_slice()
    }

    /// A second copy of the key.
    pub fn duplicate(&self) -> (copy: MasterKey)
        ensures
            copy@ == self@,
    {
        proof {
            use_type_invariant(self);
        }
        MasterKey { bytes: self.bytes.clone() }
    }
}

/// The key that a record holds: the 32 bytes of which the record is the
/// base64 text, where there are such bytes.
pub open spec fn record_key(record: Seq<char>) -> Option<Seq<u8>> {
    if exists|key: Seq<u8>| key.len() == KEY_LEN && base64_text(key) == record {
        Some(choose|key: Seq<u8>| key.len() == KEY_LEN && base64_text(key) == record)
    } else {
        None
    }
}

/// The record of a key holds that key.
pub proof fn lemma_record_key_of_record(key: Seq<u8>)
    requires
        key.len() == KEY_LEN,
    ensures
        record_key(base64_text(key)) == Some(key),
{
    let found = choose|k: Seq<u8>| k.len() == KEY_LEN && base64_text(k) == base64_text(key);
    lemma_base64_text_injective(found, key);
}

/// Writes a key as the record that the stores hold.
pub fn encode_key(key: &MasterKey) -> (record: String)
    ensures
        record@ == base64_text(key@),
{
    encode_base64(key.as_bytes())
}

/// Reads a key from a record. A record that is not base64 text, or not of
/// exactly 32 bytes, holds no key.
pub fn decode_key(record: &str) -> (key: Option<MasterKey>)
    ensures
        key is Some <==> record_key(record@) is Some,
        key matches Some(k) ==> record_key(record@) == Some(k@),
{
    match decode_base64(record) {
        Ok(bytes) => {
            proof {
                if record_key(record@) is Some {
                    lemma_base64_text_injective(record_key(record@)->0, bytes@);
                }
                if bytes@.len() == KEY_LEN {
                    lemma_record_key_of_record(bytes@);
                }
            }
            MasterKey::from_bytes(bytes)
        },
        Err(_) => None,
    }
}

/// Generates a fresh key from the operating system's random source. Gives
/// none where the source fails.
pub fn generate_key() -> (key: Option<MasterKey>)
    ensures
        key matches Some(k) ==> k@.len() == KEY_LEN,
{
    match random_bytes(KEY_LEN) {
        Ok(bytes) => MasterKey::from_bytes(bytes),
        Err(_) => None,
    }
}

/// A character with the Unicode property `White_Space`.
pub open spec fn is_whitespace(c: char) -> bool {
    ('\u{9}' <= c <= '\u{d}') || c == ' ' || c == '\u{85}' || c == '\u{a0}' || c == '\u{1680}' || (
    '\u{2000}' <= c <= '\u{200a}') || c == '\u{2028}' || c == '\u{2029}' || c == '\u{202f}' || c
        == '\u{205f}' || c == '\u{3000}'
}

/// `text` without the whitespace it starts with.
pub open spec fn trim_start(text: Seq<char>) -> Seq<char>
    decreases text.len(),
{
    if text.len() > 0 && is_whitespace(text[0]) {
        trim_start(text.skip(1))
    } else {
        text
    }
}

/// `text` without the whitespace it ends with.
pub open spec fn trim_end(text: Seq<char>) -> Seq<char>
    decreases text.len(),
{
    if text.len() > 0 && is_whitespace(text.last()) {
        trim_end(text.drop_last())
    } else {
        text
    }
}

/// `text` without the whitespace around it.
pub open spec fn trimmed(text: Seq<char>) -> Seq<char> {
    trim_end(trim_start(text))
}

/// `str::trim`: the text without its leading and trailing whitespace, which
/// is every character with the Unicode property `White_Space`.
#[verifier::external_body]
fn trim(text: &str) -> (inner: &str)
    ensures
        inner@ == trimmed(text@),
{
    text.trim()
}

/// Trimming leaves the record of a key as it is.
pub proof fn lemma_record_is_trimmed(key: Seq<u8>)
    ensures
        trimmed(base64_text(key)) == base64_text(key),
{
    lemma_base64_text_chars(key);
    let text = base64_text(key);
    if text.len() > 0 {
        assert(is_base64_char(text[0]));
        assert(is_base64_char(text.last()));
    }
}

/// One of the two stores that can hold the key, in the order in which they
/// are tried.
#[derive(Debug, Clone, Copy, PartialEq, Eq, Structural)]
pub enum KeyStore {
    /// The platform's secure credential store.
    Primary,
    /// The key file.
    Fallback,
}

/// What a lookup in a store gave.
#[derive(Debug)]
pub enum Lookup {
    /// The store holds this record.
    Found(String),
    /// The store holds no record.
    Absent,
    /// The store could not be asked.
    Unavailable,
}

impl View for Lookup {
    type V = Option<Seq<char>>;

    /// The record that was found. A store that could not be asked counts
    /// as one that holds nothing.
    open spec fn view(&self) -> Option<Seq<char>> {
        match self {
            Lookup::Found(record) => Some(record@),
            Lookup::Absent => None,
            Lookup::Unavailable => None,
        }
    }
}

impl Lookup {
    /// Whether the store holds a record. Says nothing of what the record
    /// holds.
    pub fn has_key(&self) -> (found: bool)
        ensures
            found <==> self@ is Some,
    {
        match self {
            Lookup::Found(_) => true,
            Lookup::Absent => false,
            Lookup::Unavailable => false,
        }
    }
}

/// What the caller reports to the manager.
pub enum CustodyEvent {
    /// The key is wanted.
    Begin,
    /// The lookup that was asked for gave this.
    Looked(Lookup),
    /// The key that was asked for, or none where the random source failed.
    Generated(Option<MasterKey>),
    /// Whether the store took the record.
    Stored(bool),
}

/// What the manager asks of its caller, or its final word.
pub enum CustodyAction {
    /// Look the record up in this store, and report with `Looked`.
    Lookup(KeyStore),
    /// Call [`generate_key`], and report with `Generated`.
    Generate,
    /// Write this record into this store, and report with `Stored`.
    Store(KeyStore, String),
    /// The key.
    Resolved(MasterKey),
    /// No key can be had.
    Failed(AppError),
}

/// [`CustodyEvent`] as a mathematical value.
pub enum EventModel {
    Begin,
    Looked(Option<Seq<char>>),
    Generated(Option<Seq<u8>>),
    Stored(bool),
}

/// [`CustodyAction`] as a mathematical value. Of a failure only the
/// category counts.
pub enum ActionModel {
    Lookup(KeyStore),
    Generate,
    Store(KeyStore, Seq<char>),
    Resolved(Seq<u8>),
    Failed(ErrorCategory),
}

/// Where the manager stands.
pub enum PhaseModel {
    /// Nothing was asked yet.
    Idle,
    /// A lookup in this store is under way.
    Looking(KeyStore),
    /// Both stores hold nothing; a key is being generated.
    Generating,
    /// This key is being written into this store.
    Storing(KeyStore, Seq<u8>),
    /// The final word was given.
    Closed,
}

impl View for CustodyEvent {
    type V = EventModel;

    open spec fn view(&self) -> EventModel {
        match self {
            CustodyEvent::Begin => EventModel::Begin,
            CustodyEvent::Looked(lookup) => EventModel::Looked(lookup@),
            CustodyEvent::Generated(Some(key)) => EventModel::Generated(Some(key@)),
            CustodyEvent::Generated(None) => EventModel::Generated(None),
            CustodyEvent::Stored(taken) => EventModel::Stored(*taken),
        }
    }
}

impl View for CustodyAction {
    type V = ActionModel;

    open spec fn view(&self) -> ActionModel {
        match self {
            CustodyAction::Lookup(store) => ActionModel::Lookup(*store),
            CustodyAction::Generate => ActionModel::Generate,
            CustodyAction::Store(store, record) => ActionModel::Store(*store, record@),
            CustodyAction::Resolved(key) => ActionModel::Resolved(key@),
            CustodyAction::Failed(error) => ActionModel::Failed(error.category),
        }
    }
}

/// The record as the store's reader sees it: the key file's text is trimmed
/// first.
pub open spec fn record_as_read(store: KeyStore, record: Seq<char>) -> Seq<char> {
    match store {
        KeyStore::Primary => record,
        KeyStore::Fallback => trimmed(record),
    }
}

/// The error for a record that is there but holds no key.
pub open spec fn corrupt_record(store: KeyStore) -> ErrorCategory {
    match store {
        KeyStore::Primary => ErrorCategory::Keyring(KeyringSubcategory::InvalidKey),
        KeyStore::Fallback => ErrorCategory::KeyGeneration(KeyGenerationSubcategory::InvalidLength),
    }
}

/// The custody rules: where the manager goes from `phase` on `event`, and
/// what it asks or answers.
pub open spec fn custody_step(phase: PhaseModel, event: EventModel) -> (PhaseModel, ActionModel) {
    match (phase, event) {
        (PhaseModel::Idle, EventModel::Begin) => (
            PhaseModel::Looking(KeyStore::Primary),
            ActionModel::Lookup(KeyStore::Primary),
        ),
        (PhaseModel::Looking(store), EventModel::Looked(Some(record))) => match record_key(
            record_as_read(store, record),
        ) {
            Some(key) => (PhaseModel::Closed, ActionModel::Resolved(key)),
            None => (PhaseModel::Closed, ActionModel::Failed(corrupt_record(store))),
        },
        (PhaseModel::Looking(KeyStore::Primary), EventModel::Looked(None)) => (
            PhaseModel::Looking(KeyStore::Fallback),
            ActionModel::Lookup(KeyStore::Fallback),
        ),
        (PhaseModel::Looking(KeyStore::Fallback), EventModel::Looked(None)) => (
            PhaseModel::Generating,
            ActionModel::Generate,
        ),
        (PhaseModel::Generating, EventModel::Generated(Some(key))) => (
            PhaseModel::Storing(KeyStore::Primary, key),
            ActionModel::Store(KeyStore::Primary, base64_text(key)),
        ),
        (PhaseModel::Generating, EventModel::Generated(None)) => (
            PhaseModel::Closed,
            ActionModel::Failed(
                ErrorCategory::KeyManagement(KeyManagementSubcategory::KeyGenerationFailed),
            ),
        ),
        (PhaseModel::Storing(_, key), EventModel::Stored(true)) => (
            PhaseModel::Closed,
            ActionModel::Resolved(key),
        ),
        (PhaseModel::Storing(KeyStore::Primary, key), EventModel::Stored(false)) => (
            PhaseModel::Storing(KeyStore::Fallback, key),
            ActionModel::Store(KeyStore::Fallback, base64_text(key)),
        ),
        (PhaseModel::Storing(KeyStore::Fallback, _), EventModel::Stored(false)) => (
            PhaseModel::Closed,
            ActionModel::Failed(
                ErrorCategory::KeyGeneration(KeyGenerationSubcategory::StorageFailed),
            ),
        ),
        _ => (
            PhaseModel::Closed,
            ActionModel::Failed(
                ErrorCategory::KeyManagement(KeyManagementSubcategory::KeyRetrievalFailed),
            ),
        ),
    }
}

enum Phase {
    Idle,
    Looking(KeyStore),
    Generating,
    Storing(KeyStore, MasterKey),
    Closed,
}

/// Manages the encryption key: decides what to ask of the two stores, in
/// which order, and when a key is to be generated.
pub struct KeyManager {
    phase: Phase,
}

impl View for KeyManager {
    type V = PhaseModel;

    closed spec fn view(&self) -> PhaseModel {
        match self.phase {
            Phase::Idle => PhaseModel::Idle,
            Phase::Looking(store) => PhaseModel::Looking(store),
            Phase::Generating => PhaseModel::Generating,
            Phase::Storing(store, key) => PhaseModel::Storing(store, key@),
            Phase::Closed => PhaseModel::Closed,
        }
    }
}

fn failure(message: &str, category: ErrorCategory) -> (action: CustodyAction)
    ensures
        action@ == ActionModel::Failed(category),
{
    CustodyAction::Failed(AppError::new(message.to_owned(), category, ErrorSeverity::Error))
}

impl KeyManager {
    /// A manager of which nothing was asked yet.
    pub fn new() -> (manager: KeyManager)
        ensures
            manager@ == PhaseModel::Idle,
    {
        KeyManager { phase: Phase::Idle }
    }

    /// Takes what the caller reports, and says what to do next. Start with
    /// [`CustodyEvent::Begin`]; go on until the action is
    /// [`CustodyAction::Resolved`] or [`CustodyAction::Failed`].
    pub fn step(self, event: CustodyEvent) -> (next: (KeyManager, CustodyAction))
        ensures
            (next.0@, next.1@) == custody_step(self@, event@),
    {
        match (self.phase, event) {
            (Phase::Idle, CustodyEvent::Begin) => (
                KeyManager { phase: Phase::Looking(KeyStore::Primary) },
                CustodyAction::Lookup(KeyStore::Primary),
            ),
            (Phase::Looking(store), CustodyEvent::Looked(Lookup::Found(record))) => {
                let key = match store {
                    KeyStore::Primary => decode_key(record.as_str()),
                    KeyStore::Fallback => decode_key(trim(record.as_str())),
                };
                let closed = KeyManager { phase: Phase::Closed };
                match key {
                    Some(key) => (closed, CustodyAction::Resolved(key)),
                    None => match store {
                        KeyStore::Primary => (
                            closed,
                            failure(
                                "the credential store holds a record that is no key",
                                ErrorCategory::Keyring(KeyringSubcategory::InvalidKey),
                            ),
                        ),
                        KeyStore::Fallback => (
                            closed,
                            failure(
                                "the key file holds a record that is no key",
                                ErrorCategory::KeyGeneration(
                                    KeyGenerationSubcategory::InvalidLength,
                                ),
                            ),
                        ),
                    },
                }
            },
            (Phase::Looking(KeyStore::Primary), CustodyEvent::Looked(_)) => (
                KeyManager { phase: Phase::Looking(KeyStore::Fallback) },
                CustodyAction::Lookup(KeyStore::Fallback),
            ),
            (Phase::Looking(KeyStore::Fallback), CustodyEvent::Looked(_)) => (
                KeyManager { phase: Phase::Generating },
                CustodyAction::Generate,
            ),
            (Phase::Generating, CustodyEvent::Generated(Some(key))) => {
                let record = encode_key(&key);
                (
                    KeyManager { phase: Phase::Storing(KeyStore::Primary, key) },
                    CustodyAction::Store(KeyStore::Primary, record),
                )
            },
            (Phase::Generating, CustodyEvent::Generated(None)) => (
                KeyManager { phase: Phase::Closed },
                failure(
                    "no key could be generated",
                    ErrorCategory::KeyManagement(KeyManagementSubcategory::KeyGenerationFailed),
                ),
            ),
            (Phase::Storing(_, key), CustodyEvent::Stored(true)) => (
                KeyManager { phase: Phase::Closed },
                CustodyAction::Resolved(key),
            ),
            (Phase::Storing(KeyStore::Primary, key), CustodyEvent::Stored(false)) => {
                let record = encode_key(&key);
                (
                    KeyManager { phase: Phase::Storing(KeyStore::Fallback, key) },
                    CustodyAction::Store(KeyStore::Fallback, record),
                )
            },
            (Phase::Storing(KeyStore::Fallback, _), CustodyEvent::Stored(false)) => (
                KeyManager { phase: Phase::Closed },
                failure(
                    "no store took the generated key",
                    ErrorCategory::KeyGeneration(KeyGenerationSubcategory::StorageFailed),
                ),
            ),
            _ => (
                KeyManager { phase: Phase::Closed },
                failure(
                    "the report does not answer what was asked",
                    ErrorCategory::KeyManagement(KeyManagementSubcategory::KeyRetrievalFailed),
                ),
            ),
        }
    }
}

/// A store as the custody rules see it: the record it holds, if any, and
/// whether it takes a write.
pub struct StoreModel {
    pub record: Option<Seq<char>>,
    pub accepts_writes: bool,
}

/// The world around the manager: the two stores, and the key that the
/// random source gives when asked, if it gives one.
pub struct WorldModel {
    pub primary: StoreModel,
    pub fallback: StoreModel,
    pub fresh: Option<Seq<u8>>,
}

impl WorldModel {
    /// The world is as the types make it: a generated key has 32 bytes.
    pub open spec fn valid(self) -> bool {
        self.fresh matches Some(key) ==> key.len() == KEY_LEN
    }

    pub open spec fn store(self, store: KeyStore) -> StoreModel {
        match store {
            KeyStore::Primary => self.primary,
            KeyStore::Fallback => self.fallback,
        }
    }

    /// The world after `record` was written into `store`.
    pub open spec fn with_record(self, store: KeyStore, record: Seq<char>) -> WorldModel {
        match store {
            KeyStore::Primary => WorldModel {
                primary: StoreModel { record: Some(record), ..self.primary },
                ..self
            },
            KeyStore::Fallback => WorldModel {
                fallback: StoreModel { record: Some(record), ..self.fallback },
                ..self
            },
        }
    }

    /// What comes of an action, and the world after it. A final word
    /// changes nothing and is answered by nothing new.
    pub open spec fn answer(self, action: ActionModel) -> (EventModel, WorldModel) {
        match action {
            ActionModel::Lookup(store) => (EventModel::Looked(self.store(store).record), self),
            ActionModel::Generate => (EventModel::Generated(self.fresh), self),
            ActionModel::Store(store, record) => if self.store(store).accepts_writes {
                (EventModel::Stored(true), self.with_record(store, record))
            } else {
                (EventModel::Stored(false), self)
            },
            _ => (EventModel::Begin, self),
        }
    }
}

/// How a resolution ended: with the key, or with the category of the
/// failure.
pub type Resolution = Result<Seq<u8>, ErrorCategory>;

/// The manager run against a world: every action is performed and reported
/// back, until the final word or until `budget` actions were performed.
pub open spec fn custody_run(world: WorldModel, phase: PhaseModel, event: EventModel, budget: nat) -> (
    Resolution,
    WorldModel,
)
    decreases budget,
{
    let (next, action) = custody_step(phase, event);
    match action {
        ActionModel::Resolved(key) => (Ok(key), world),
        ActionModel::Failed(category) => (Err(category), world),
        _ => if budget == 0 {
            (Err(ErrorCategory::KeyManagement(KeyManagementSubcategory::KeyRetrievalFailed)), world)
        } else {
            let (report, after) = world.answer(action);
            custody_run(after, next, report, (budget - 1) as nat)
        },
    }
}

/// The most actions that one resolution performs: two lookups, one
/// generation, two writes.
pub open spec fn custody_budget() -> nat {
    5
}

/// What comes of asking a fresh manager for the key in `world`, and the
/// world after it.
pub open spec fn resolve(world: WorldModel) -> (Resolution, WorldModel) {
    custody_run(world, PhaseModel::Idle, EventModel::Begin, custody_budget())
}

/// What a record that was found resolves to.
pub open spec fn found_record(store: KeyStore, record: Seq<char>) -> Resolution {
    match record_key(record_as_read(store, record)) {
        Some(key) => Ok(key),
        None => Err(corrupt_record(store)),
    }
}

/// Key custody, said at once: the record of the first store that holds one
/// decides; where neither store holds one, a key is generated and written
/// into the first store that takes it.
pub open spec fn custody_outcome(world: WorldModel) -> (Resolution, WorldModel) {
    if world.primary.record is Some {
        (found_record(KeyStore::Primary, world.primary.record->0), world)
    } else if world.fallback.record is Some {
        (found_record(KeyStore::Fallback, world.fallback.record->0), world)
    } else if world.fresh is None {
        (Err(ErrorCategory::KeyManagement(KeyManagementSubcategory::KeyGenerationFailed)), world)
    } else if world.primary.accepts_writes {
        (
            Ok(world.fresh->0),
            world.with_record(KeyStore::Primary, base64_text(world.fresh->0)),
        )
    } else if world.fallback.accepts_writes {
        (
            Ok(world.fresh->0),
            world.with_record(KeyStore::Fallback, base64_text(world.fresh->0)),
        )
    } else {
        (Err(ErrorCategory::KeyGeneration(KeyGenerationSubcategory::StorageFailed)), world)
    }
}

/// The manager, run step by step, does what key custody says at once.
pub proof fn lemma_resolve_is_outcome(world: WorldModel)
    ensures
        resolve(world) == custody_outcome(world),
{
    reveal_with_fuel(custody_run, 6);
}

/// A resolved key has exactly 32 bytes. A record that is there but holds no
/// key is reported, and both stores are left as they were: it is not
/// replaced.
pub proof fn lemma_key_length_invariant(world: WorldModel)
    requires
        world.valid(),
    ensures
        resolve(world).0 matches Ok(key) ==> key.len() == KEY_LEN,
        world.primary.record is Some && record_key(world.primary.record->0) is None ==> resolve(
            world,
        ) == (
            Err::<Seq<u8>, ErrorCategory>(ErrorCategory::Keyring(KeyringSubcategory::InvalidKey)),
            world,
        ),
        world.primary.record is None && world.fallback.record is Some && record_key(
            trimmed(world.fallback.record->0),
        ) is None ==> resolve(world) == (
            Err::<Seq<u8>, ErrorCategory>(
                ErrorCategory::KeyGeneration(KeyGenerationSubcategory::InvalidLength),
            ),
            world,
        ),
{
    lemma_resolve_is_outcome(world);
}

/// Where both stores hold nothing and the first refuses every write, the
/// generated key is still resolved, and the second store holds its record
/// afterwards.
pub proof fn lemma_backend_fallback(world: WorldModel, key: Seq<u8>)
    requires
        world.primary.record is None,
        world.fallback.record is None,
        !world.primary.accepts_writes,
        world.fallback.accepts_writes,
        world.fresh == Some(key),
    ensures
        resolve(world).0 == Ok::<Seq<u8>, ErrorCategory>(key),
        resolve(world).1.fallback.record == Some(base64_text(key)),
        resolve(world).1.primary == world.primary,
{
    lemma_resolve_is_outcome(world);
}

/// A key that was resolved once is resolved again: asked a second time, in
/// the world that the first resolution left, the manager gives the same
/// key, whatever the random source would give now, and writes nothing.
pub proof fn lemma_idempotent_generation(world: WorldModel, fresh_again: Option<Seq<u8>>)
    requires
        world.valid(),
        resolve(world).0 is Ok,
    ensures
        ({
            let (first, after) = resolve(world);
            let again = WorldModel { fresh: fresh_again, ..after };
            resolve(again) == (first, again)
        }),
{
    lemma_resolve_is_outcome(world);
    let (first, after) = resolve(world);
    let again = WorldModel { fresh: fresh_again, ..after };
    lemma_resolve_is_outcome(again);
    if world.primary.record is None && world.fallback.record is None {
        let key = world.fresh->0;
        lemma_record_key_of_record(key);
        lemma_record_is_trimmed(key);
    }
}

} // verus!
