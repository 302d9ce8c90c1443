//! The rent oracle: whether an account holds enough to be exempt from rent.
//!
//! The terms of rent are system configuration, published in the rent sysvar
//! account. The escrow reads the terms from that account and asks the rent
//! rules of the platform whether an account of a given size and balance is
//! exempt.

use vstd::prelude::*;
use crate::account::{Account, AccountView};
use crate::bytes::{le_value, read_u64_le};
use crate::pubkey::Pubkey;

verus! {

/// The bytes of storage that every account is charged for besides its data.
pub const ACCOUNT_STORAGE_OVERHEAD: u64 = 128;

/// The largest size of account data for which exemption is defined.
pub const MAX_PERMITTED_DATA_LENGTH: u64 = 10_485_760;

/// The largest rate for which exemption is defined at a threshold of one.
pub const MAX_LAMPORTS_PER_BYTE_AT_ONE: u64 = 1_759_197_129_867;

/// The largest rate for which exemption is defined at a threshold of two.
pub const MAX_LAMPORTS_PER_BYTE_AT_TWO: u64 = 879_598_564_933;

/// The length of the stored rent terms.
pub const RENT_LEN: usize = 17;

/// The terms of rent.
#[derive(Clone, Copy, Debug, PartialEq, Eq)]
pub struct RentOracle {
    /// The rate: lamports per byte of storage.
    pub lamports_per_byte: u64,
    /// The factor by which the rate is multiplied, as the eight bytes of a
    /// 64-bit binary floating-point number, least significant byte first.
    pub exemption_threshold: [u8; 8],
    /// A percentage that exemption does not depend on.
    pub burn_percent: u8,
}

/// What a [`RentOracle`] holds, as mathematical values.
pub struct RentOracleView {
    pub lamports_per_byte: u64,
    pub exemption_threshold: Seq<u8>,
    pub burn_percent: u8,
}

impl View for RentOracle {
    type V = RentOracleView;

    open spec fn view(&self) -> RentOracleView {
        RentOracleView {
            lamports_per_byte: self.lamports_per_byte,
            exemption_threshold: self.exemption_threshold@,
            burn_percent: self.burn_percent,
        }
    }
}

/// The address of the rent sysvar,
/// `SysvarRent111111111111111111111111111111111`.
pub open spec fn rent_sysvar_id() -> Seq<u8> {
    seq![
        6u8, 167, 213, 23, 25, 44, 92, 81, 33, 140, 201, 76, 61, 74, 241, 127,
        88, 218, 238, 8, 155, 161, 253, 68, 227, 219, 217, 138, 0, 0, 0, 0,
    ]
}

/// The threshold of one: the bytes of the floating-point number 1.0.
pub open spec fn threshold_one() -> Seq<u8> {
    seq![0u8, 0, 0, 0, 0, 0, 240, 63]
}

/// The threshold of two: the bytes of the floating-point number 2.0.
pub open spec fn threshold_two() -> Seq<u8> {
    seq![0u8, 0, 0, 0, 0, 0, 0, 64]
}

/// Whether `Rent::is_exempt` finds an account exempt under terms whose
/// threshold is neither one nor two, where the answer is computed in
/// floating point.
pub uninterp spec fn rent_exemption(
    lamports_per_byte: u64,
    exemption_threshold: Seq<u8>,
    burn_percent: u8,
    balance: u64,
    data_len: usize,
) -> bool;

/// The terms stored in `data`, if it has room for them: the rate as a 64-bit
/// little-endian integer, the eight bytes of the threshold, and the
/// percentage. Bytes after them are ignored.
pub open spec fn stored_terms(data: Seq<u8>) -> Option<RentOracleView> {
    if data.len() >= RENT_LEN {
        Some(
            RentOracleView {
                lamports_per_byte: le_value(data.subrange(0, 8)) as u64,
                exemption_threshold: data.subrange(8, 16),
                burn_percent: data[16],
            },
        )
    } else {
        None
    }
}

impl RentOracleView {
    /// Whether exemption is defined under these terms for an account with
    /// `data_len` bytes of data: the size and the rate are within their
    /// limits, and the yearly charge fits in 64 bits.
    pub open spec fn answers(self, data_len: usize) -> bool {
        &&& data_len <= MAX_PERMITTED_DATA_LENGTH
        &&& (ACCOUNT_STORAGE_OVERHEAD + data_len) * self.lamports_per_byte <= u64::MAX
        &&& self.exemption_threshold == threshold_one() ==> self.lamports_per_byte
            <= MAX_LAMPORTS_PER_BYTE_AT_ONE
        &&& self.exemption_threshold == threshold_two() ==> self.lamports_per_byte
            <= MAX_LAMPORTS_PER_BYTE_AT_TWO
    }

    /// Whether an account with `data_len` bytes of data and a balance of
    /// `balance` is exempt from rent: the balance is at least the charge for
    /// the data and the overhead, times the threshold.
    pub open spec fn exempt(self, balance: u64, data_len: usize) -> bool {
        if self.exemption_threshold == threshold_one() {
            balance >= (ACCOUNT_STORAGE_OVERHEAD + data_len) * self.lamports_per_byte
        } else if self.exemption_threshold == threshold_two() {
            balance >= 2 * (ACCOUNT_STORAGE_OVERHEAD + data_len) * self.lamports_per_byte
        } else {
            rent_exemption(
                self.lamports_per_byte,
                self.exemption_threshold,
                self.burn_percent,
                balance,
                data_len,
            )
        }
    }
}

/// What the rent account `oracle` says of an account with `data_len` bytes of
/// data and a balance of `balance`: `None` if it is not the rent sysvar, its
/// data is too short to hold terms, or exemption is not defined under its
/// terms; otherwise whether the account is exempt.
pub open spec fn rent_verdict(oracle: AccountView, balance: u64, data_len: usize) -> Option<bool> {
    if oracle.key != rent_sysvar_id() {
        None
    } else {
        match stored_terms(oracle.data) {
            None => None,
            Some(terms) => if terms.answers(data_len) {
                Some(terms.exempt(balance, data_len))
            } else {
                None
            },
        }
    }
}

/// Calls `solana_program::sysvar::rent::check_id`.
///
/// Trusted: the result says whether `key` is the address that the platform
/// declares for the rent sysvar, whose 32 bytes are those of
/// [`rent_sysvar_id`].
#[verifier::external_body]
pub(crate) fn check_rent_id(key: &Pubkey) -> (yes: bool)
    ensures
        yes == (key@ == rent_sysvar_id()),
{
    solana_program::sysvar::rent::check_id(&key.bytes.into())
}

/// Calls `Rent::is_exempt` on the terms of `oracle`.
///
/// Trusted: at a threshold of one or two the call compares the balance with
/// the charge in integer arithmetic, as stated; at any other threshold its
/// answer depends on the terms, the balance and the size alone. The call
/// panics or overflows outside [`RentOracleView::answers`], which `requires`
/// leaves out.
#[allow(deprecated)]
#[verifier::external_body]
pub(crate) fn is_exempt_under(oracle: &RentOracle, balance: u64, data_len: usize) -> (yes: bool)
    requires
        oracle@.answers(data_len),
    ensures
        oracle@.exemption_threshold == threshold_one() ==> yes == (balance
            >= (ACCOUNT_STORAGE_OVERHEAD + data_len) * oracle.lamports_per_byte),
        oracle@.exemption_threshold == threshold_two() ==> yes == (balance
            >= 2 * (ACCOUNT_STORAGE_OVERHEAD + data_len) * oracle.lamports_per_byte),
        oracle@.exemption_threshold != threshold_one()
            && oracle@.exemption_threshold != threshold_two() ==> yes == rent_exemption(
            oracle.lamports_per_byte,
            oracle.exemption_threshold@,
            oracle.burn_percent,
            balance,
            data_len,
        ),
{
    let rent = solana_program::rent::Rent {
        lamports_per_byte: oracle.lamports_per_byte,
        exemption_threshold: oracle.exemption_threshold,
        burn_percent: oracle.burn_percent,
    };
    rent.is_exempt(balance, data_len)
}

impl RentOracle {
    /// Reads rent terms from the data of the rent sysvar account.
    pub fn unpack(data: &[u8]) -> (terms: Option<RentOracle>)
        ensures
            match stored_terms(data@) {
                Some(view) => terms is Some && terms->Some_0@ == view,
                None => terms is None,
            },
    {
        if data.len() < RENT_LEN {
            return None;
        }
        let lamports_per_byte = read_u64_le(data, 0);
        let mut exemption_threshold: [u8; 8] = [0u8; 8];
        let mut i: usize = 0;
        while i < 8
            invariant
                i <= 8,
                data@.len() >= RENT_LEN,
                forall|j: int| 0 <= j < i ==> exemption_threshold@[j] == data@[8 + j],
            decreases 8 - i,
        {
            exemption_threshold[i] = data[8 + i];
            i = i + 1;
        }
        assert(exemption_threshold@ =~= data@.subrange(8, 16));
        Some(RentOracle { lamports_per_byte, exemption_threshold, burn_percent: data[16] })
    }

    /// Whether the threshold of these terms is the one with the given last
    /// two bytes and zeros before them.
    fn threshold_ends_with(&self, sixth: u8, seventh: u8) -> (yes: bool)
        ensures
            yes == (self@.exemption_threshold == seq![0u8, 0, 0, 0, 0, 0, sixth, seventh]),
    {
        let t = &self.exemption_threshold;
        let yes = t[0] == 0 && t[1] == 0 && t[2] == 0 && t[3] == 0 && t[4] == 0 && t[5] == 0
            && t[6] == sixth && t[7] == seventh;
        proof {
            let want = seq![0u8, 0, 0, 0, 0, 0, sixth, seventh];
            if yes {
                assert(self@.exemption_threshold =~= want);
            } else {
                assert(exists|j: int| 0 <= j < 8 && self@.exemption_threshold[j] != want[j]);
            }
        }
        yes
    }

    /// Whether exemption is defined under these terms for an account with
    /// `data_len` bytes of data.
    pub fn answers(&self, data_len: usize) -> (yes: bool)
        ensures
            yes == self@.answers(data_len),
    {
        if data_len as u64 > MAX_PERMITTED_DATA_LENGTH {
            return false;
        }
        let bytes: u64 = ACCOUNT_STORAGE_OVERHEAD + data_len as u64;
        let rate: u64 = self.lamports_per_byte;
        assert(bytes * rate <= 10_485_888 * 0xffff_ffff_ffff_ffff) by (nonlinear_arith)
            requires
                bytes <= 10_485_888,
                rate <= 0xffff_ffff_ffff_ffff,
        ;
        let charge: u128 = (bytes as u128) * (rate as u128);
        if charge > u64::MAX as u128 {
            return false;
        }
        if self.threshold_ends_with(240, 63) && rate > MAX_LAMPORTS_PER_BYTE_AT_ONE {
            return false;
        }
        if self.threshold_ends_with(0, 64) && rate > MAX_LAMPORTS_PER_BYTE_AT_TWO {
            return false;
        }
        true
    }

    /// Whether an account with `data_len` bytes of data and a balance of
    /// `balance` is exempt from rent under these terms; `None` if exemption
    /// is not defined for it.
    pub fn is_exempt(&self, balance: u64, data_len: usize) -> (verdict: Option<bool>)
        ensures
            verdict == if self@.answers(data_len) {
                Some(self@.exempt(balance, data_len))
            } else {
                None
            },
    {
        if self.answers(data_len) {
            Some(is_exempt_under(self, balance, data_len))
        } else {
            None
        }
    }
}

/// Asks the rent account `oracle` whether an account with `data_len` bytes
/// of data and a balance of `balance` is exempt from rent.
pub fn consult_rent_oracle(oracle: &Account, balance: u64, data_len: usize) -> (verdict: Option<
    bool,
>)
    ensures
        verdict == rent_verdict(oracle@, balance, data_len),
{
    if !check_rent_id(&oracle.key) {
        return None;
    }
    match RentOracle::unpack(oracle.data.as_slice()) {
        None => None,
        Some(terms) => terms.is_exempt(balance, data_len),
    }
}

} // verus!
