use escrow::account::Account;
use escrow::pubkey::Pubkey;
use escrow::rent::{
    consult_rent_oracle, RentOracle, ACCOUNT_STORAGE_OVERHEAD, MAX_LAMPORTS_PER_BYTE_AT_ONE,
    MAX_LAMPORTS_PER_BYTE_AT_TWO, MAX_PERMITTED_DATA_LENGTH, RENT_LEN,
};

const ONE: [u8; 8] = [0, 0, 0, 0, 0, 0, 240, 63];
const TWO: [u8; 8] = [0, 0, 0, 0, 0, 0, 0, 64];

fn terms(lamports_per_byte: u64, exemption_threshold: [u8; 8]) -> RentOracle {
    RentOracle { lamports_per_byte, exemption_threshold, burn_percent: 50 }
}

fn stored(terms: &RentOracle) -> Vec<u8> {
    let mut data = terms.lamports_per_byte.to_le_bytes().to_vec();
    data.extend_from_slice(&terms.exemption_threshold);
    data.push(terms.burn_percent);
    data
}

fn rent_account(key: Pubkey, data: Vec<u8>) -> Account {
    Account { key, owner: Pubkey::new_from_array([0; 32]), is_signer: false, lamports: 1, data }
}

fn rent_key() -> Pubkey {
    Pubkey::new_from_array(solana_program::sysvar::rent::id().to_bytes())
}

#[allow(deprecated)]
fn platform_says(terms: &RentOracle, balance: u64, data_len: usize) -> bool {
    let rent = solana_program::rent::Rent {
        lamports_per_byte: terms.lamports_per_byte,
        exemption_threshold: terms.exemption_threshold,
        burn_percent: terms.burn_percent,
    };
    rent.is_exempt(balance, data_len)
}

#[test]
fn thresholds_are_the_bytes_of_one_and_two() {
    assert_eq!(1.0f64.to_le_bytes(), ONE);
    assert_eq!(2.0f64.to_le_bytes(), TWO);
    assert_eq!(ACCOUNT_STORAGE_OVERHEAD, 128);
    assert_eq!(MAX_PERMITTED_DATA_LENGTH, 10 * 1024 * 1024);
    assert_eq!(RENT_LEN, 17);
}

#[test]
fn terms_are_read_from_seventeen_bytes() {
    let mut data = 6960u64.to_le_bytes().to_vec();
    data.extend_from_slice(&ONE);
    data.push(50);
    assert_eq!(RentOracle::unpack(&data), Some(terms(6960, ONE)));
    data.push(0xee);
    assert_eq!(RentOracle::unpack(&data), Some(terms(6960, ONE)));
    let other = [1, 2, 3, 4, 5, 6, 7, 8, 9, 10, 11, 12, 13, 14, 15, 16, 17];
    assert_eq!(
        RentOracle::unpack(&other),
        Some(RentOracle {
            lamports_per_byte: 0x0807_0605_0403_0201,
            exemption_threshold: [9, 10, 11, 12, 13, 14, 15, 16],
            burn_percent: 17,
        })
    );
}

#[test]
fn short_terms_are_refused() {
    assert_eq!(RentOracle::unpack(&[]), None);
    assert_eq!(RentOracle::unpack(&[0u8; 16]), None);
}

#[test]
fn exemption_at_threshold_one() {
    let t = terms(6960, ONE);
    assert_eq!((128 + 105) * 6960, 1_621_680);
    assert_eq!(t.is_exempt(1_621_680, 105), Some(true));
    assert_eq!(t.is_exempt(1_621_679, 105), Some(false));
    assert_eq!(t.is_exempt(u64::MAX, 105), Some(true));
    assert_eq!(t.is_exempt(0, 105), Some(false));
    assert_eq!(t.is_exempt(128 * 6960, 0), Some(true));
    assert_eq!(t.is_exempt(128 * 6960 - 1, 0), Some(false));
}

#[test]
fn exemption_at_threshold_two() {
    let t = terms(3480, TWO);
    assert_eq!(t.is_exempt(1_621_680, 105), Some(true));
    assert_eq!(t.is_exempt(1_621_679, 105), Some(false));
}

#[test]
fn exemption_at_another_threshold_is_the_platform_s_answer() {
    let t = terms(1000, 1.5f64.to_le_bytes());
    assert_eq!(t.is_exempt(349_500, 105), Some(true));
    assert_eq!(t.is_exempt(349_499, 105), Some(false));
    for (balance, len) in [(0u64, 0usize), (349_500, 105), (349_499, 105), (u64::MAX, 4096)] {
        assert_eq!(t.is_exempt(balance, len), Some(platform_says(&t, balance, len)));
    }
}

#[test]
fn exemption_agrees_with_the_platform() {
    for t in [terms(6960, ONE), terms(3480, TWO), terms(0, ONE), terms(1, TWO)] {
        for (balance, len) in [(0u64, 0usize), (1_621_680, 105), (1_621_679, 105), (1, 10)] {
            assert!(t.answers(len));
            assert_eq!(t.is_exempt(balance, len), Some(platform_says(&t, balance, len)));
        }
    }
}

#[test]
fn a_free_rate_exempts_everything() {
    assert_eq!(terms(0, ONE).is_exempt(0, 105), Some(true));
    assert_eq!(terms(0, TWO).is_exempt(0, 0), Some(true));
}

#[test]
fn no_answer_beyond_the_largest_size() {
    let t = terms(6960, ONE);
    assert!(t.answers(10 * 1024 * 1024));
    assert!(!t.answers(10 * 1024 * 1024 + 1));
    assert_eq!(t.is_exempt(u64::MAX, 10 * 1024 * 1024 + 1), None);
    assert!(t.is_exempt(u64::MAX, 10 * 1024 * 1024).is_some());
}

#[test]
fn no_answer_beyond_the_largest_rate() {
    assert!(terms(MAX_LAMPORTS_PER_BYTE_AT_ONE, ONE).answers(10 * 1024 * 1024));
    assert!(!terms(MAX_LAMPORTS_PER_BYTE_AT_ONE + 1, ONE).answers(0));
    assert!(terms(MAX_LAMPORTS_PER_BYTE_AT_TWO, TWO).answers(10 * 1024 * 1024));
    assert!(!terms(MAX_LAMPORTS_PER_BYTE_AT_TWO + 1, TWO).answers(0));
    assert_eq!(terms(MAX_LAMPORTS_PER_BYTE_AT_TWO + 1, TWO).is_exempt(u64::MAX, 0), None);
    assert_eq!(
        terms(MAX_LAMPORTS_PER_BYTE_AT_ONE, ONE).is_exempt(u64::MAX, 10 * 1024 * 1024),
        Some(true)
    );
    assert_eq!(
        terms(MAX_LAMPORTS_PER_BYTE_AT_TWO, TWO).is_exempt(u64::MAX - 1, 10 * 1024 * 1024),
        Some(platform_says(&terms(MAX_LAMPORTS_PER_BYTE_AT_TWO, TWO), u64::MAX - 1, 10 * 1024 * 1024))
    );
}

#[test]
fn no_answer_where_the_charge_does_not_fit() {
    let half = 1.5f64.to_le_bytes();
    assert!(!terms(u64::MAX, half).answers(0));
    assert_eq!(terms(u64::MAX, half).is_exempt(u64::MAX, 0), None);
    assert!(terms(u64::MAX / 128, half).answers(0));
    assert!(!terms(u64::MAX / 128 + 1, half).answers(0));
    assert!(terms(u64::MAX / 128, half).is_exempt(u64::MAX, 0).is_some());
}

#[test]
fn the_oracle_is_the_rent_sysvar() {
    let t = terms(6960, ONE);
    let oracle = rent_account(rent_key(), stored(&t));
    assert_eq!(consult_rent_oracle(&oracle, 1_621_680, 105), Some(true));
    assert_eq!(consult_rent_oracle(&oracle, 1_621_679, 105), Some(false));
    let mut bytes = rent_key().to_bytes();
    bytes[0] ^= 1;
    let other = rent_account(Pubkey::new_from_array(bytes), stored(&t));
    assert_eq!(consult_rent_oracle(&other, 1_621_680, 105), None);
    let zero = rent_account(Pubkey::new_from_array([0; 32]), stored(&t));
    assert_eq!(consult_rent_oracle(&zero, u64::MAX, 0), None);
}

#[test]
fn the_rent_sysvar_has_its_known_address() {
    let expected: [u8; 32] = [
        6, 167, 213, 23, 25, 44, 92, 81, 33, 140, 201, 76, 61, 74, 241, 127, 88, 218, 238, 8, 155,
        161, 253, 68, 227, 219, 217, 138, 0, 0, 0, 0,
    ];
    assert_eq!(rent_key().to_bytes(), expected);
    let oracle = rent_account(Pubkey::new_from_array(expected), stored(&terms(0, ONE)));
    assert_eq!(consult_rent_oracle(&oracle, 0, 0), Some(true));
}

#[test]
fn an_unreadable_oracle_gives_no_answer() {
    let short = rent_account(rent_key(), vec![0u8; 16]);
    assert_eq!(consult_rent_oracle(&short, u64::MAX, 0), None);
    let empty = rent_account(rent_key(), Vec::new());
    assert_eq!(consult_rent_oracle(&empty, u64::MAX, 0), None);
    let unusable = rent_account(rent_key(), stored(&terms(u64::MAX, ONE)));
    assert_eq!(consult_rent_oracle(&unusable, u64::MAX, 0), None);
}
