//! The fixed binary encoding of a token record.
//!
//! A record is laid out as one blob: a version tag, the identifier in
//! little-endian order, the balance in little-endian order, the owner length
//! in one byte, and the owner bytes. The whole record is always encoded and
//! decoded as one unit; there is no field-level granularity.

use vstd::prelude::*;

use crate::token::{encodable, PersistError, Token, TokenModel, MAX_OWNER_LEN};

verus! {

/// The version tag that leads every encoded record. Bytes carrying any other
/// tag are treated as corruption, never silently migrated.
pub const FORMAT_VERSION: u8 = 1;

/// Bytes before the owner: version (1) + id (4) + balance (8) + owner
/// length (1).
pub const HEADER_LEN: usize = 14;

/// The encoding of a record: the byte sequence `save` commits to the store.
pub open spec fn spec_encode(m: TokenModel) -> Seq<u8> {
    seq![FORMAT_VERSION] + vstd::bytes::spec_u32_to_le_bytes(m.id)
        + vstd::bytes::spec_u64_to_le_bytes(m.balance) + seq![m.owner.len() as u8] + m.owner
}

/// The decoding of a blob: `Some` exactly on byte sequences that are long
/// enough, carry the right version tag, and whose length agrees with the
/// owner length byte.
pub open spec fn spec_decode(b: Seq<u8>) -> Option<TokenModel> {
    if b.len() < HEADER_LEN {
        None
    } else if b[0] != FORMAT_VERSION {
        None
    } else if b.len() != HEADER_LEN + (b[HEADER_LEN - 1] as int) {
        None
    } else {
        Some(
            TokenModel {
                id: vstd::bytes::spec_u32_from_le_bytes(b.subrange(1, 5)),
                owner: b.subrange(HEADER_LEN as int, b.len() as int),
                balance: vstd::bytes::spec_u64_from_le_bytes(b.subrange(5, 13)),
            },
        )
    }
}

/// A decoded record always fits the encoding it came from: its owner length
/// was read from the one-byte prefix.
pub proof fn lemma_decoded_encodable(b: Seq<u8>)
    ensures
        spec_decode(b) is Some ==> encodable(spec_decode(b)->0),
{
}

/// Round trip: decoding an encoded record yields the record back, for every
/// record the encoding admits.
pub proof fn lemma_round_trip(m: TokenModel)
    requires
        encodable(m),
    ensures
        spec_decode(spec_encode(m)) == Some(m),
{
    vstd::bytes::lemma_auto_spec_u32_to_from_le_bytes();
    vstd::bytes::lemma_auto_spec_u64_to_from_le_bytes();
    let b = spec_encode(m);
    assert(b.len() == HEADER_LEN + m.owner.len());
    assert(b[0] == FORMAT_VERSION);
    assert(b[HEADER_LEN - 1] == m.owner.len() as u8);
    assert(b.subrange(1, 5) =~= vstd::bytes::spec_u32_to_le_bytes(m.id));
    assert(b.subrange(5, 13) =~= vstd::bytes::spec_u64_to_le_bytes(m.balance));
    assert(b.subrange(HEADER_LEN as int, b.len() as int) =~= m.owner);
    assert(spec_decode(b)->0 =~= m);
}

/// Serializes a record into the fixed binary layout. Fails exactly when the
/// owner does not fit the one-byte length prefix.
pub fn encode(t: &Token) -> (r: Result<Vec<u8>, PersistError>)
    ensures
        encodable(t@) ==> r is Ok && r->Ok_0@ == spec_encode(t@),
        !encodable(t@) ==> r == Err::<Vec<u8>, PersistError>(PersistError::EncodeFailed),
{
    if t.owner.len() > MAX_OWNER_LEN {
        return Err(PersistError::EncodeFailed);
    }
    let mut out: Vec<u8> = Vec::new();
    out.push(FORMAT_VERSION);
    let mut id_bytes = vstd::bytes::u32_to_le_bytes(t.id);
    out.append(&mut id_bytes);
    let mut balance_bytes = vstd::bytes::u64_to_le_bytes(t.balance);
    out.append(&mut balance_bytes);
    out.push(t.owner.len() as u8);
    let mut owner_bytes = vstd::slice::slice_to_vec(t.owner.as_slice());
    out.append(&mut owner_bytes);
    proof {
        assert(out@ =~= spec_encode(t@));
    }
    Ok(out)
}

/// Deserializes a blob back into a record. Fails exactly on blobs that are
/// not the encoding of any record.
pub fn decode(bytes: &Vec<u8>) -> (r: Result<Token, PersistError>)
    ensures
        spec_decode(bytes@) is Some ==> r is Ok && r->Ok_0@ == spec_decode(bytes@)->0,
        spec_decode(bytes@) is None ==> r == Err::<Token, PersistError>(PersistError::DecodeFailed),
{
    if bytes.len() < HEADER_LEN {
        return Err(PersistError::DecodeFailed);
    }
    if bytes[0] != FORMAT_VERSION {
        return Err(PersistError::DecodeFailed);
    }
    let owner_len: usize = bytes[HEADER_LEN - 1] as usize;
    if bytes.len() != HEADER_LEN + owner_len {
        return Err(PersistError::DecodeFailed);
    }
    let id = vstd::bytes::u32_from_le_bytes(vstd::slice::slice_subrange(bytes.as_slice(), 1, 5));
    let balance = vstd::bytes::u64_from_le_bytes(
        vstd::slice::slice_subrange(bytes.as_slice(), 5, 13),
    );
    let owner = vstd::slice::slice_to_vec(
        vstd::slice::slice_subrange(bytes.as_slice(), HEADER_LEN, bytes.len()),
    );
    Ok(Token { id, owner, balance })
}

} // verus!
