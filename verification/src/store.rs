//! The durable store: exclusive owner of the persisted byte representation of
//! the current token record, and the three operations exposed over it.
//!
//! The store is an explicitly owned value handed into each operation, so a
//! caller (and a test) can instantiate isolated stores. It starts empty, and
//! moves to populated on the first successful save; there is no transition
//! back. Every write replaces the whole blob; every read decodes it afresh,
//! so no read can observe a torn or stale record.

use vstd::prelude::*;

use crate::codec::{
    decode, encode, lemma_decoded_encodable, lemma_round_trip, spec_decode, spec_encode,
};
use crate::token::{
    encodable, init_token, with_balance, PersistError, Token, TokenModel, START_BALANCE, TOKEN_ID,
};

verus! {

/// The durable store. `blob` is the persisted byte representation (`None`
/// while the store is empty); `capacity` is the medium's limit in bytes
/// (`None` for an unbounded medium).
pub struct Store {
    blob: Option<Vec<u8>>,
    capacity: Option<usize>,
}

/// The mathematical view of a store.
#[verifier::ext_equal]
pub ghost struct StoreModel {
    pub blob: Option<Seq<u8>>,
    pub capacity: Option<usize>,
}

impl View for Store {
    type V = StoreModel;

    closed spec fn view(&self) -> StoreModel {
        StoreModel {
            blob: match self.blob {
                Some(b) => Some(b@),
                None => None,
            },
            capacity: self.capacity,
        }
    }
}

/// What a load observes in a given store state: `NoData` on an empty store,
/// `DecodeFailed` on a blob that is not an encoding, and the decoded record
/// otherwise.
pub open spec fn spec_load(blob: Option<Seq<u8>>) -> Result<TokenModel, PersistError> {
    match blob {
        None => Err(PersistError::NoData),
        Some(b) => match spec_decode(b) {
            Some(m) => Ok(m),
            None => Err(PersistError::DecodeFailed),
        },
    }
}

/// A record's encoding fits a medium of the given capacity.
pub open spec fn fits(m: TokenModel, capacity: Option<usize>) -> bool {
    match capacity {
        None => true,
        Some(c) => spec_encode(m).len() <= c,
    }
}

/// The store state after a successful initialization with the given caller
/// identity: the blob holds the starting record, whatever it held before.
pub open spec fn after_initialize(s: StoreModel, owner: Seq<u8>) -> StoreModel {
    StoreModel { blob: Some(spec_encode(init_token(owner))), capacity: s.capacity }
}

/// A returned record, seen at the level of the store model.
pub open spec fn loaded_view(r: Result<Token, PersistError>) -> Result<TokenModel, PersistError> {
    match r {
        Ok(t) => Ok(t@),
        Err(e) => Err(e),
    }
}

impl Store {
    /// A fresh, empty store over an unbounded medium.
    pub fn new() -> (s: Store)
        ensures
            s@.blob is None,
            s@.capacity is None,
    {
        Store { blob: None, capacity: None }
    }

    /// A fresh, empty store over a medium that rejects blobs larger than
    /// `capacity` bytes.
    pub fn with_capacity(capacity: usize) -> (s: Store)
        ensures
            s@.blob is None,
            s@.capacity == Some(capacity),
    {
        Store { blob: None, capacity: Some(capacity) }
    }

    /// Adopts raw bytes as the persisted blob, replacing any prior content:
    /// how a store is rebuilt around bytes an outer medium handed back.
    pub fn restore_raw(&mut self, bytes: Vec<u8>)
        ensures
            final(self)@.blob == Some(bytes@),
            final(self)@.capacity == old(self)@.capacity,
    {
        self.blob = Some(bytes);
    }

    /// The persisted blob, for an outer medium to commit: `None` exactly
    /// while the store is empty.
    pub fn persisted_bytes(&self) -> (r: Option<&Vec<u8>>)
        ensures
            r is Some <==> self@.blob is Some,
            r is Some ==> r->0@ == self@.blob->0,
    {
        match &self.blob {
            Some(b) => Some(b),
            None => None,
        }
    }

    /// Whether the store has left the empty state.
    pub fn is_populated(&self) -> (r: bool)
        ensures
            r == (self@.blob is Some),
    {
        match &self.blob {
            Some(_) => true,
            None => false,
        }
    }

    /// Serializes `record` and writes the resulting bytes to the medium,
    /// replacing any prior content in full. Fails with `EncodeFailed` exactly
    /// when the record is not encodable, and with `WriteFailed` exactly when
    /// the encoding exceeds the medium's capacity; on failure the store is
    /// unchanged.
    pub fn save(&mut self, record: &Token) -> (r: Result<(), PersistError>)
        ensures
            final(self)@.capacity == old(self)@.capacity,
            !encodable(record@) ==> r == Err::<(), PersistError>(PersistError::EncodeFailed)
                && final(self)@ == old(self)@,
            encodable(record@) && !fits(record@, old(self)@.capacity) ==> r == Err::<
                (),
                PersistError,
            >(PersistError::WriteFailed) && final(self)@ == old(self)@,
            encodable(record@) && fits(record@, old(self)@.capacity) ==> r is Ok
                && final(self)@.blob == Some(spec_encode(record@)),
    {
        let encoded = match encode(record) {
            Ok(bytes) => bytes,
            Err(e) => {
                return Err(e);
            },
        };
        if let Some(cap) = self.capacity {
            if encoded.len() > cap {
                return Err(PersistError::WriteFailed);
            }
        }
        self.blob = Some(encoded);
        Ok(())
    }

    /// Reads the raw bytes from the medium and decodes them into a record.
    /// The outcome is a function of the store state alone: `NoData` on an
    /// empty store, `DecodeFailed` on corrupted bytes, the stored record
    /// otherwise.
    pub fn load(&self) -> (r: Result<Token, PersistError>)
        ensures
            loaded_view(r) == spec_load(self@.blob),
    {
        match &self.blob {
            None => Err(PersistError::NoData),
            Some(bytes) => decode(bytes),
        }
    }

    /// Creates the one token record and persists it: id `TOKEN_ID`, owner as
    /// supplied by the caller context, balance `START_BALANCE`. Re-running it
    /// overwrites the existing record, discarding the prior balance and
    /// owner: the current behavior, not guarded against.
    pub fn initialize(&mut self, owner: Vec<u8>) -> (r: Result<(), PersistError>)
        ensures
            final(self)@.capacity == old(self)@.capacity,
            !encodable(init_token(owner@)) ==> r == Err::<(), PersistError>(
                PersistError::EncodeFailed,
            ) && final(self)@ == old(self)@,
            encodable(init_token(owner@)) && !fits(init_token(owner@), old(self)@.capacity)
                ==> r == Err::<(), PersistError>(PersistError::WriteFailed)
                && final(self)@ == old(self)@,
            encodable(init_token(owner@)) && fits(init_token(owner@), old(self)@.capacity)
                ==> r is Ok && final(self)@ == after_initialize(old(self)@, owner@),
    {
        let record = Token { id: TOKEN_ID, owner, balance: START_BALANCE };
        self.save(&record)
    }

    /// Loads the current record, replaces its balance with `amount`, and
    /// re-persists the whole record. Fails exactly as the load does on an
    /// empty or corrupted store, and with `WriteFailed` exactly when the
    /// re-encoded record exceeds the capacity; on failure the store is
    /// unchanged. `id` and `owner` are carried over untouched.
    pub fn modify_balance(&mut self, amount: u64) -> (r: Result<(), PersistError>)
        ensures
            final(self)@.capacity == old(self)@.capacity,
            spec_load(old(self)@.blob) is Err ==> r == Err::<(), PersistError>(
                spec_load(old(self)@.blob)->Err_0,
            ) && final(self)@ == old(self)@,
            spec_load(old(self)@.blob) matches Ok(m) ==> {
                &&& fits(with_balance(m, amount), old(self)@.capacity) ==> r is Ok
                    && final(self)@.blob == Some(spec_encode(with_balance(m, amount)))
                &&& !fits(with_balance(m, amount), old(self)@.capacity) ==> r == Err::<
                    (),
                    PersistError,
                >(PersistError::WriteFailed) && final(self)@ == old(self)@
            },
    {
        let mut record = match self.load() {
            Ok(t) => t,
            Err(e) => {
                return Err(e);
            },
        };
        record.balance = amount;
        proof {
            if self@.blob is Some {
                lemma_decoded_encodable(self@.blob->0);
            }
            assert(record@ =~= with_balance(spec_load(self@.blob)->Ok_0, amount));
        }
        self.save(&record)
    }

    /// Returns the current record without changing the store. Fails per the
    /// load: `NoData` on an empty store rather than a default record, and
    /// `DecodeFailed` on corruption rather than a silent reset.
    pub fn get_token(&self) -> (r: Result<Token, PersistError>)
        ensures
            loaded_view(r) == spec_load(self@.blob),
    {
        self.load()
    }
}

/// Idempotent read: reading twice from one store state, with no write in
/// between, yields identical outcomes, because a read's outcome is a function
/// of the store state alone and a read does not change the state.
pub proof fn lemma_idempotent_read(
    s: StoreModel,
    r1: Result<TokenModel, PersistError>,
    r2: Result<TokenModel, PersistError>,
)
    requires
        r1 == spec_load(s.blob),
        r2 == spec_load(s.blob),
    ensures
        r1 == r2,
{
}

/// Write-then-read: after a successful balance update on a readable store,
/// a read returns a record whose balance is the written amount and whose id
/// and owner are unchanged.
pub proof fn lemma_write_then_read(s: StoreModel, amount: u64)
    requires
        spec_load(s.blob) is Ok,
        fits(with_balance(spec_load(s.blob)->Ok_0, amount), s.capacity),
    ensures
        ({
            let updated = with_balance(spec_load(s.blob)->Ok_0, amount);
            &&& spec_load(Some(spec_encode(updated))) == Ok::<TokenModel, PersistError>(updated)
            &&& updated.balance == amount
            &&& updated.id == spec_load(s.blob)->Ok_0.id
            &&& updated.owner == spec_load(s.blob)->Ok_0.owner
        }),
{
    let m = spec_load(s.blob)->Ok_0;
    lemma_decoded_encodable(s.blob->0);
    lemma_round_trip(with_balance(m, amount));
}

/// Empty-store failure: a load from a store that was never initialized fails
/// with `NoData`, never with a default record.
pub proof fn lemma_empty_store_fails()
    ensures
        spec_load(None) == Err::<TokenModel, PersistError>(PersistError::NoData),
{
}

/// Identity capture: initialization writes the identity of the invoking
/// caller, and the blob it commits does not depend on what the store held
/// before — a later initialization by a different identity resets the owner
/// (and the balance) to the new caller's starting record.
pub proof fn lemma_identity_capture(s1: StoreModel, s2: StoreModel, owner: Seq<u8>)
    ensures
        after_initialize(s1, owner).blob == after_initialize(s2, owner).blob,
        encodable(init_token(owner)) ==> spec_load(after_initialize(s1, owner).blob) == Ok::<
            TokenModel,
            PersistError,
        >(init_token(owner)),
        init_token(owner).owner == owner,
        init_token(owner).balance == START_BALANCE,
        init_token(owner).id == TOKEN_ID,
{
    if encodable(init_token(owner)) {
        lemma_round_trip(init_token(owner));
    }
}

} // verus!
