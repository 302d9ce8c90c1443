use escrow::authority::find_escrow_authority;
use escrow::pubkey::Pubkey;
use escrow::token::{is_token_program, read_token_amount};
use solana_program::program_option::COption;
use solana_program::program_pack::Pack;

fn key(n: u8) -> Pubkey {
    Pubkey::new_from_array([n; 32])
}

fn outside(key: &Pubkey) -> solana_program::pubkey::Pubkey {
    solana_program::pubkey::Pubkey::new_from_array(key.to_bytes())
}

#[allow(deprecated)]
fn token_account(amount: u64, state: spl_token::state::AccountState) -> Vec<u8> {
    let account = spl_token::state::Account {
        mint: outside(&key(9)),
        owner: outside(&key(8)),
        amount,
        delegate: COption::None,
        state,
        is_native: COption::None,
        delegated_amount: 0,
        close_authority: COption::None,
    };
    let mut data = vec![0u8; 165];
    spl_token::state::Account::pack(account, &mut data).unwrap();
    data
}

#[allow(deprecated)]
fn live_token_account(amount: u64) -> Vec<u8> {
    token_account(amount, spl_token::state::AccountState::Initialized)
}

#[test]
fn the_token_program_has_its_known_address() {
    let expected: [u8; 32] = [
        6, 221, 246, 225, 215, 101, 161, 147, 217, 203, 225, 70, 206, 235, 121, 172, 28, 180, 133,
        237, 95, 91, 55, 145, 58, 140, 245, 133, 126, 255, 0, 169,
    ];
    assert_eq!(spl_token::id().to_bytes(), expected);
    assert!(is_token_program(&Pubkey::new_from_array(expected)));
}

#[test]
fn no_other_address_is_the_token_program() {
    assert!(!is_token_program(&key(0)));
    assert!(!is_token_program(&key(6)));
    let mut bytes = spl_token::id().to_bytes();
    bytes[31] ^= 0x80;
    assert!(!is_token_program(&Pubkey::new_from_array(bytes)));
    assert!(!is_token_program(&Pubkey::new_from_array(
        solana_program::sysvar::rent::id().to_bytes()
    )));
}

#[test]
fn the_balance_is_read_at_offset_64() {
    let data = live_token_account(100);
    assert_eq!(data.len(), 165);
    assert_eq!(&data[64..72], &100u64.to_le_bytes());
    assert_eq!(read_token_amount(&data), Some(100));
    assert_eq!(read_token_amount(&live_token_account(0)), Some(0));
    assert_eq!(read_token_amount(&live_token_account(u64::MAX)), Some(u64::MAX));
    let mut patched = live_token_account(0);
    patched[64..72].copy_from_slice(&[1, 2, 3, 4, 5, 6, 7, 8]);
    assert_eq!(read_token_amount(&patched), Some(0x0807_0605_0403_0201));
}

#[allow(deprecated)]
#[test]
fn a_frozen_account_still_shows_its_balance() {
    let data = token_account(77, spl_token::state::AccountState::Frozen);
    assert_eq!(data[108], 2);
    assert_eq!(read_token_amount(&data), Some(77));
}

#[allow(deprecated)]
#[test]
fn an_uninitialized_token_account_shows_nothing() {
    let data = token_account(77, spl_token::state::AccountState::Uninitialized);
    assert_eq!(data[108], 0);
    assert_eq!(read_token_amount(&data), None);
    assert_eq!(read_token_amount(&[0u8; 165]), None);
}

#[test]
fn token_storage_of_another_length_shows_nothing() {
    let data = live_token_account(5);
    assert_eq!(read_token_amount(&data[..164]), None);
    let mut longer = data.clone();
    longer.push(0);
    assert_eq!(read_token_amount(&longer), None);
    assert_eq!(read_token_amount(&[]), None);
}

#[test]
fn malformed_token_storage_shows_nothing() {
    let good = live_token_account(5);
    assert_eq!(good[108], 1);
    for (at, value) in [
        (72usize, 2u8),
        (73, 1),
        (74, 1),
        (75, 1),
        (108, 3),
        (108, 255),
        (109, 2),
        (110, 1),
        (111, 1),
        (112, 1),
        (129, 2),
        (130, 1),
        (131, 1),
        (132, 1),
    ] {
        let mut bad = good.clone();
        bad[at] = value;
        assert_eq!(read_token_amount(&bad), None, "byte {} set to {}", at, value);
    }
}

#[test]
fn optional_fields_do_not_hide_the_balance() {
    let mut data = live_token_account(31);
    data[72] = 1;
    data[76..108].copy_from_slice(&[4u8; 32]);
    data[109] = 1;
    data[113..121].copy_from_slice(&9u64.to_le_bytes());
    data[129] = 1;
    data[133..165].copy_from_slice(&[5u8; 32]);
    assert!(spl_token::state::Account::unpack(&data).is_ok());
    assert_eq!(read_token_amount(&data), Some(31));
}

#[test]
fn the_authority_is_the_program_address_for_the_label() {
    for n in [0u8, 1, 2, 42, 200, 255] {
        let program_id = key(n);
        let expected =
            solana_program::pubkey::Pubkey::try_find_program_address(&[b"escrow"], &outside(&program_id));
        let found = find_escrow_authority(&program_id);
        match (found, expected) {
            (Some((authority, bump)), Some((want, want_bump))) => {
                assert_eq!(authority.to_bytes(), want.to_bytes());
                assert_eq!(bump, want_bump);
                assert!(authority != program_id);
            }
            (None, None) => {}
            _ => panic!("the authority differs from the program address"),
        }
    }
}

#[test]
fn the_authority_depends_on_the_program() {
    let a = find_escrow_authority(&key(1)).unwrap();
    let b = find_escrow_authority(&key(2)).unwrap();
    assert!(a.0 != b.0);
    let again = find_escrow_authority(&key(1)).unwrap();
    assert!(a.0 == again.0);
    assert_eq!(a.1, again.1);
}

#[test]
fn the_authority_checks_out_with_its_bump_seed() {
    let program_id = key(3);
    let (authority, bump) = find_escrow_authority(&program_id).unwrap();
    let made = solana_program::pubkey::Pubkey::create_program_address(
        &[b"escrow", &[bump]],
        &outside(&program_id),
    )
    .unwrap();
    assert_eq!(made.to_bytes(), authority.to_bytes());
    let other_label =
        solana_program::pubkey::Pubkey::find_program_address(&[b"escrov"], &outside(&program_id));
    assert_ne!(other_label.0.to_bytes(), authority.to_bytes());
}
