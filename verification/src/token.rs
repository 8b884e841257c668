//! The record model: the sole entity is one token record with an identifier,
//! an owner identity, and a balance.

use vstd::prelude::*;

verus! {

/// The identifier every token record carries; fixed at creation, never
/// reassigned afterward.
pub const TOKEN_ID: u32 = 1;

/// The balance a freshly initialized record starts with.
pub const START_BALANCE: u64 = 1000;

/// The longest owner identity, in bytes, that the binary encoding can carry:
/// the encoding stores the owner length in a single byte.
pub const MAX_OWNER_LEN: usize = 255;

/// Why a durable-store operation failed. All four are unrecoverable at the
/// point of occurrence: the operation aborts and surfaces the error.
#[derive(Clone, Copy, Debug, PartialEq, Eq, Structural)]
pub enum PersistError {
    /// The record could not be encoded (its owner exceeds `MAX_OWNER_LEN`).
    EncodeFailed,
    /// The durable medium rejected the write (capacity exceeded).
    WriteFailed,
    /// Nothing has been persisted yet: the store was never initialized.
    NoData,
    /// The persisted bytes do not match the expected encoding.
    DecodeFailed,
}

/// One token record. `id` and `owner` are set at initialization and never
/// mutated by any later operation; `balance` is the only mutable field.
#[derive(Debug, Clone, PartialEq, Eq)]
pub struct Token {
    /// Identifies the token.
    pub id: u32,
    /// The owner's identity, as the raw bytes the caller context supplied.
    pub owner: Vec<u8>,
    /// The token balance.
    pub balance: u64,
}

/// The mathematical view of a token record.
#[verifier::ext_equal]
pub ghost struct TokenModel {
    pub id: u32,
    pub owner: Seq<u8>,
    pub balance: u64,
}

impl View for Token {
    type V = TokenModel;

    open spec fn view(&self) -> TokenModel {
        TokenModel { id: self.id, owner: self.owner@, balance: self.balance }
    }
}

/// The record that initialization writes for a given caller identity.
pub open spec fn init_token(owner: Seq<u8>) -> TokenModel {
    TokenModel { id: TOKEN_ID, owner, balance: START_BALANCE }
}

/// The record with its balance replaced: the only mutation the set-balance
/// operation performs; `id` and `owner` are untouched.
pub open spec fn with_balance(m: TokenModel, amount: u64) -> TokenModel {
    TokenModel { balance: amount, ..m }
}

/// A record is encodable exactly when its owner fits the one-byte length
/// prefix of the binary layout.
pub open spec fn encodable(m: TokenModel) -> bool {
    m.owner.len() <= MAX_OWNER_LEN
}

} // verus!
