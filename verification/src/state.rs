//! The escrow record and its storage layout.
//!
//! A record is stored in 105 bytes: a flag byte, the three addresses of 32
//! bytes each, and the expected amount as a 64-bit little-endian integer
//! (1 + 3 * 32 + 8 = 105; the amount starts at offset 97).

use vstd::prelude::*;
use crate::bytes::{
    le_bytes, le_value, lemma_le_bytes_len, lemma_le_bytes_of_value, lemma_le_value_bound,
    lemma_le_value_of_bytes, lemma_radix_pow_eight, read_u64_le, write_u64_le,
};
use crate::error::EscrowError;
use crate::pubkey::Pubkey;

verus! {

/// The terms of one pending exchange.
#[derive(Clone, Copy, Debug, PartialEq, Eq)]
pub struct Escrow {
    /// Whether the record is live.
    pub is_initialized: bool,
    /// The party that created the escrow.
    pub initializer_pubkey: Pubkey,
    /// The account that holds the tokens the initializer locked.
    pub temp_token_account_pubkey: Pubkey,
    /// The account into which the initializer wants to be paid.
    pub initializer_token_to_receive_account_pubkey: Pubkey,
    /// The amount the initializer wants in return.
    pub expected_amount: u64,
}

/// What an [`Escrow`] holds, as mathematical values.
pub struct EscrowView {
    pub is_initialized: bool,
    pub initializer: Seq<u8>,
    pub temp_account: Seq<u8>,
    pub receiving_account: Seq<u8>,
    pub expected_amount: u64,
}

impl View for Escrow {
    type V = EscrowView;

    open spec fn view(&self) -> EscrowView {
        EscrowView {
            is_initialized: self.is_initialized,
            initializer: self.initializer_pubkey@,
            temp_account: self.temp_token_account_pubkey@,
            receiving_account: self.initializer_token_to_receive_account_pubkey@,
            expected_amount: self.expected_amount,
        }
    }
}

impl EscrowView {
    /// Each of the three addresses has 32 bytes.
    pub open spec fn well_formed(self) -> bool {
        &&& self.initializer.len() == 32
        &&& self.temp_account.len() == 32
        &&& self.receiving_account.len() == 32
    }

    /// The record that stands for "no escrow here": not live, every other
    /// field zero.
    pub open spec fn closed() -> EscrowView {
        EscrowView {
            is_initialized: false,
            initializer: Seq::new(32, |i: int| 0u8),
            temp_account: Seq::new(32, |i: int| 0u8),
            receiving_account: Seq::new(32, |i: int| 0u8),
            expected_amount: 0,
        }
    }
}

/// The stored form of a record.
pub open spec fn packed(record: EscrowView) -> Seq<u8> {
    seq![if record.is_initialized { 1u8 } else { 0u8 }] + record.initializer + record.temp_account
        + record.receiving_account + le_bytes(record.expected_amount as nat, 8)
}

/// The record that 105 stored bytes stand for. The record is live exactly if
/// the flag byte is 1; whatever else the bytes hold is taken as it is.
pub open spec fn unpacked(bytes: Seq<u8>) -> EscrowView
    recommends
        bytes.len() == Escrow::LEN,
{
    EscrowView {
        is_initialized: bytes[0] == 1,
        initializer: bytes.subrange(1, 33),
        temp_account: bytes.subrange(33, 65),
        receiving_account: bytes.subrange(65, 97),
        expected_amount: le_value(bytes.subrange(97, 105)) as u64,
    }
}

/// A well-formed record is stored in exactly 105 bytes, and reading them
/// gives the record back.
pub proof fn lemma_unpack_pack(record: EscrowView)
    requires
        record.well_formed(),
    ensures
        packed(record).len() == Escrow::LEN,
        unpacked(packed(record)) == record,
{
    let amount = le_bytes(record.expected_amount as nat, 8);
    let bytes = packed(record);
    lemma_le_bytes_len(record.expected_amount as nat, 8);
    lemma_radix_pow_eight();
    lemma_le_value_of_bytes(record.expected_amount as nat, 8);
    assert(bytes.subrange(1, 33) =~= record.initializer);
    assert(bytes.subrange(33, 65) =~= record.temp_account);
    assert(bytes.subrange(65, 97) =~= record.receiving_account);
    assert(bytes.subrange(97, 105) =~= amount);
}

/// Storing the record read from 105 bytes gives the bytes back, provided the
/// flag byte is 0 or 1.
pub proof fn lemma_pack_unpack(bytes: Seq<u8>)
    requires
        bytes.len() == Escrow::LEN,
        bytes[0] <= 1,
    ensures
        packed(unpacked(bytes)) == bytes,
{
    let amount = bytes.subrange(97, 105);
    lemma_le_value_bound(amount);
    lemma_radix_pow_eight();
    lemma_le_bytes_of_value(amount);
    assert(packed(unpacked(bytes)) =~= bytes);
}

/// The closed record is stored as 105 zero bytes, and zero bytes are read as
/// the closed record.
pub proof fn lemma_closed_is_zeroed()
    ensures
        EscrowView::closed().well_formed(),
        packed(EscrowView::closed()) == Seq::new(Escrow::LEN as nat, |i: int| 0u8),
        unpacked(Seq::new(Escrow::LEN as nat, |i: int| 0u8)) == EscrowView::closed(),
{
    let zeros = Seq::new(Escrow::LEN as nat, |i: int| 0u8);
    reveal_with_fuel(le_bytes, 9);
    assert(le_bytes(0, 8) =~= Seq::new(8, |i: int| 0u8));
    assert(packed(EscrowView::closed()) =~= zeros);
    lemma_unpack_pack(EscrowView::closed());
}

impl Escrow {
    /// The length of a stored record.
    pub const LEN: usize = 105;

    /// Whether the record is live.
    pub fn is_initialized(&self) -> (live: bool)
        ensures
            live == self@.is_initialized,
    {
        self.is_initialized
    }

    /// The record that stands for "no escrow here".
    pub fn closed() -> (record: Escrow)
        ensures
            record@ == EscrowView::closed(),
    {
        let zero = Pubkey::new_from_array([0u8; 32]);
        assert(zero@ =~= Seq::new(32, |i: int| 0u8));
        Escrow {
            is_initialized: false,
            initializer_pubkey: zero,
            temp_token_account_pubkey: zero,
            initializer_token_to_receive_account_pubkey: zero,
            expected_amount: 0,
        }
    }

    /// Reads a record from its storage. Storage of any other length than 105
    /// bytes is refused; 105 bytes are always read, whatever they hold.
    pub fn unpack_unchecked(src: &[u8]) -> (r: Result<Escrow, EscrowError>)
        ensures
            src@.len() != Escrow::LEN ==> r == Err::<Escrow, EscrowError>(
                EscrowError::InvalidAccountData,
            ),
            src@.len() == Escrow::LEN ==> r is Ok && r->Ok_0@ == unpacked(src@),
    {
        if src.len() != Escrow::LEN {
            return Err(EscrowError::InvalidAccountData);
        }
        let is_initialized = src[0] == 1;
        let initializer_pubkey = Pubkey::read_from(src, 1);
        let temp_token_account_pubkey = Pubkey::read_from(src, 33);
        let initializer_token_to_receive_account_pubkey = Pubkey::read_from(src, 65);
        let expected_amount = read_u64_le(src, 97);
        Ok(
            Escrow {
                is_initialized,
                initializer_pubkey,
                temp_token_account_pubkey,
                initializer_token_to_receive_account_pubkey,
                expected_amount,
            },
        )
    }

    /// The stored form of the record: 105 bytes.
    pub fn pack(&self) -> (dst: Vec<u8>)
        ensures
            dst@ == packed(self@),
            dst@.len() == Escrow::LEN,
    {
        let mut dst: Vec<u8> = Vec::with_capacity(Escrow::LEN);
        dst.push(if self.is_initialized { 1u8 } else { 0u8 });
        self.initializer_pubkey.write_to(&mut dst);
        self.temp_token_account_pubkey.write_to(&mut dst);
        self.initializer_token_to_receive_account_pubkey.write_to(&mut dst);
        write_u64_le(&mut dst, self.expected_amount);
        proof {
            lemma_le_bytes_len(self.expected_amount as nat, 8);
            assert(dst@ =~= packed(self@));
        }
        dst
    }
}

} // verus!
