use escrow::account::Account;
use escrow::address::Address;
use escrow::error::{EscrowError, Failure};
use escrow::instruction::EscrowInstruction;
use escrow::rent;
use escrow::state::{Escrow, ESCROW_LEN};
use escrow::token;
use escrow::token::{AccountMeta, Instruction};
use solana_program::program_error::ProgramError;
use solana_program::program_option::COption;
use solana_program::program_pack::Pack;
use solana_program::pubkey::Pubkey;
use solana_program::rent::Rent;
use spl_token::instruction::{AuthorityType, TokenInstruction};

fn address(byte: u8) -> Address {
    Address::new([byte; 32])
}

fn key(byte: u8) -> Pubkey {
    Pubkey::new_from_array([byte; 32])
}

fn ledger() -> Address {
    Address::new(spl_token::id().to_bytes())
}

fn converted(ix: solana_program::instruction::Instruction) -> Instruction {
    Instruction {
        program_id: Address::new(ix.program_id.to_bytes()),
        accounts: ix
            .accounts
            .iter()
            .map(|m| AccountMeta {
                pubkey: Address::new(m.pubkey.to_bytes()),
                is_signer: m.is_signer,
                is_writable: m.is_writable,
            })
            .collect(),
        data: ix.data,
    }
}

fn sample() -> Escrow {
    Escrow {
        is_initialized: true,
        initializer_pubkey: address(1),
        temp_token_account_pubkey: address(2),
        initializer_token_to_receive_account_pubkey: address(3),
        expected_amount: 0x0102_0304_0506_0708,
    }
}

fn sample_bytes() -> Vec<u8> {
    let mut bytes = vec![1u8];
    bytes.extend_from_slice(&[1; 32]);
    bytes.extend_from_slice(&[2; 32]);
    bytes.extend_from_slice(&[3; 32]);
    bytes.extend_from_slice(&[8, 7, 6, 5, 4, 3, 2, 1]);
    bytes
}

fn rent_account(rent: &Rent) -> Account {
    Account::new(
        Address::new(solana_program::sysvar::rent::id().to_bytes()),
        Address::new(solana_program::sysvar::id().to_bytes()),
        false,
        1,
        bincode::serialize(rent).unwrap(),
    )
}

#[test]
fn addresses_compare_by_their_bytes() {
    let mut bytes = [0u8; 32];
    bytes[31] = 1;
    assert_eq!(Address::new(bytes), Address { bytes });
    assert_ne!(Address::new(bytes), Address::new([0; 32]));
    assert_eq!(Address::new(bytes).to_bytes(), bytes);
    let mut first = [0u8; 32];
    first[0] = 1;
    assert_ne!(Address::new(first), Address::new(bytes));
}

#[test]
fn addresses_are_read_and_written_in_place() {
    let bytes: Vec<u8> = (0u8..40).collect();
    let a = Address::read_from(&bytes, 5);
    let expected: Vec<u8> = (5u8..37).collect();
    assert_eq!(a.bytes.to_vec(), expected);
    assert_eq!(Address::read_from(&bytes, 8).bytes[0], 8);

    let mut out = vec![9u8, 9];
    a.write_to(&mut out);
    assert_eq!(out.len(), 34);
    assert_eq!(&out[..2], &[9, 9]);
    assert_eq!(&out[2..], &expected[..]);
}

#[test]
fn unpack_reads_the_tag_and_the_amount() {
    assert_eq!(
        EscrowInstruction::unpack(&[0, 50, 0, 0, 0, 0, 0, 0, 0]),
        Ok(EscrowInstruction::InitEscrow { amount: 50 })
    );
    assert_eq!(
        EscrowInstruction::unpack(&[1, 100, 0, 0, 0, 0, 0, 0, 0]),
        Ok(EscrowInstruction::Exchange { amount: 100 })
    );
    assert_eq!(
        EscrowInstruction::unpack(&[0, 8, 7, 6, 5, 4, 3, 2, 1]),
        Ok(EscrowInstruction::InitEscrow { amount: 0x0102_0304_0506_0708 })
    );
    assert_eq!(
        EscrowInstruction::unpack(&[1, 255, 255, 255, 255, 255, 255, 255, 255]),
        Ok(EscrowInstruction::Exchange { amount: u64::MAX })
    );
    assert_eq!(
        EscrowInstruction::unpack(&[1, 1, 0, 0, 0, 0, 0, 0, 0, 77, 78]),
        Ok(EscrowInstruction::Exchange { amount: 1 })
    );
}

#[test]
fn unpack_refuses_other_tags_and_short_payloads() {
    let invalid = Err(Failure::Escrow(EscrowError::InvalidInstruction));
    assert_eq!(EscrowInstruction::unpack(&[]), invalid);
    assert_eq!(EscrowInstruction::unpack(&[0]), invalid);
    assert_eq!(EscrowInstruction::unpack(&[1, 0, 0, 0, 0, 0, 0, 0]), invalid);
    assert_eq!(EscrowInstruction::unpack(&[2, 0, 0, 0, 0, 0, 0, 0, 0]), invalid);
    assert_eq!(EscrowInstruction::unpack(&[255; 12]), invalid);
}

#[test]
fn a_record_takes_105_bytes_in_a_fixed_layout() {
    assert_eq!(ESCROW_LEN, 105);
    let mut storage = vec![0u8; 105];
    assert_eq!(Escrow::pack(sample(), &mut storage), Ok(()));
    assert_eq!(storage, sample_bytes());
    assert_eq!(storage.len(), 105);

    let mut closed = sample();
    closed.is_initialized = false;
    closed.expected_amount = 0;
    let mut storage = vec![7u8; 105];
    assert_eq!(Escrow::pack(closed, &mut storage), Ok(()));
    assert_eq!(storage[0], 0);
    assert_eq!(&storage[97..], &[0u8; 8]);
}

#[test]
fn a_record_is_written_only_over_storage_of_its_size() {
    for len in [0usize, 104, 106] {
        let mut storage = vec![7u8; len];
        assert_eq!(Escrow::pack(sample(), &mut storage), Err(Failure::InvalidAccountData));
        assert_eq!(storage, vec![7u8; len]);
    }
}

#[test]
fn a_record_reads_back_as_written() {
    assert_eq!(Escrow::unpack_unchecked(&sample_bytes()), Ok(sample()));
    assert_eq!(Escrow::unpack(&sample_bytes()), Ok(sample()));
    assert!(sample().is_initialized());

    let mut storage = vec![0u8; 105];
    let other = Escrow {
        is_initialized: true,
        initializer_pubkey: address(200),
        temp_token_account_pubkey: address(0),
        initializer_token_to_receive_account_pubkey: address(255),
        expected_amount: u64::MAX,
    };
    Escrow::pack(other, &mut storage).unwrap();
    assert_eq!(Escrow::unpack(&storage), Ok(other));
}

#[test]
fn zeroed_storage_holds_no_open_escrow() {
    let zeroed = vec![0u8; 105];
    let read = Escrow::unpack_unchecked(&zeroed).unwrap();
    assert!(!read.is_initialized());
    assert_eq!(read.initializer_pubkey, address(0));
    assert_eq!(read.expected_amount, 0);
    assert_eq!(Escrow::unpack(&zeroed), Err(Failure::UninitializedAccount));
}

#[test]
fn storage_of_another_size_or_flag_is_refused() {
    assert_eq!(Escrow::unpack_unchecked(&[]), Err(Failure::InvalidAccountData));
    assert_eq!(Escrow::unpack(&[]), Err(Failure::InvalidAccountData));
    assert_eq!(Escrow::unpack_unchecked(&[0u8; 104]), Err(Failure::InvalidAccountData));
    assert_eq!(Escrow::unpack_unchecked(&[0u8; 106]), Err(Failure::InvalidAccountData));
    let mut bytes = sample_bytes();
    bytes[0] = 2;
    assert_eq!(Escrow::unpack_unchecked(&bytes), Err(Failure::InvalidAccountData));
    assert_eq!(Escrow::unpack(&bytes), Err(Failure::InvalidAccountData));
}

#[test]
fn failures_carry_the_codes_of_the_runtime() {
    let pairs = [
        (Failure::Escrow(EscrowError::InvalidInstruction), ProgramError::Custom(0)),
        (Failure::Escrow(EscrowError::NotRentExempt), ProgramError::Custom(1)),
        (Failure::Escrow(EscrowError::ExpectedAmountMismatch), ProgramError::Custom(2)),
        (Failure::Escrow(EscrowError::AmountOverflow), ProgramError::Custom(3)),
        (Failure::InvalidArgument, ProgramError::InvalidArgument),
        (Failure::InvalidAccountData, ProgramError::InvalidAccountData),
        (Failure::IncorrectProgramId, ProgramError::IncorrectProgramId),
        (Failure::MissingRequiredSignature, ProgramError::MissingRequiredSignature),
        (Failure::AccountAlreadyInitialized, ProgramError::AccountAlreadyInitialized),
        (Failure::UninitializedAccount, ProgramError::UninitializedAccount),
        (Failure::NotEnoughAccountKeys, ProgramError::NotEnoughAccountKeys),
        (Failure::InvalidSeeds, ProgramError::InvalidSeeds),
        (Failure::ArithmeticOverflow, ProgramError::ArithmeticOverflow),
        (Failure::Other(4), ProgramError::Custom(4)),
        (Failure::Other(6 << 32), ProgramError::InsufficientFunds),
    ];
    for (failure, error) in pairs {
        let code = u64::from(error.clone());
        assert_eq!(failure.code(), code, "{:?}", failure);
        assert_eq!(Failure::from_code(code), failure);
        assert_eq!(ProgramError::from(failure.code()), error);
    }
    assert_eq!(Failure::Escrow(EscrowError::InvalidInstruction).code(), 1 << 32);
    assert_eq!(Failure::InvalidAccountData.code(), 4 << 32);
    assert_eq!(Failure::ArithmeticOverflow.code(), 24 << 32);
}

#[test]
fn escrow_failures_are_numbered_from_zero() {
    assert_eq!(EscrowError::InvalidInstruction.code(), 0);
    assert_eq!(EscrowError::NotRentExempt.code(), 1);
    assert_eq!(EscrowError::ExpectedAmountMismatch.code(), 2);
    assert_eq!(EscrowError::AmountOverflow.code(), 3);
}

#[test]
fn the_ledgers_address_is_known() {
    assert_eq!(token::id().bytes, spl_token::id().to_bytes());
    assert_eq!(token::id().bytes[..4], [6, 221, 246, 225]);
}

#[test]
fn balance_reads_what_an_asset_account_holds() {
    let mut state = spl_token::state::Account {
        mint: key(1),
        owner: key(2),
        amount: 100,
        delegate: COption::None,
        state: spl_token::state::AccountState::Initialized,
        is_native: COption::None,
        delegated_amount: 0,
        close_authority: COption::Some(key(3)),
    };
    let mut data = vec![0u8; 165];
    spl_token::state::Account::pack(state, &mut data).unwrap();
    assert_eq!(token::balance(&data), Ok(100));

    state.amount = u64::MAX;
    state.state = spl_token::state::AccountState::Frozen;
    spl_token::state::Account::pack(state, &mut data).unwrap();
    assert_eq!(token::balance(&data), Ok(u64::MAX));
}

#[test]
fn balance_refuses_what_is_no_asset_account() {
    assert_eq!(token::balance(&[]), Err(Failure::InvalidAccountData));
    assert_eq!(token::balance(&[0u8; 166]), Err(Failure::InvalidAccountData));
    assert_eq!(token::balance(&[0u8; 165]), Err(Failure::UninitializedAccount));
    let mut data = vec![0u8; 165];
    data[64] = 5;
    data[108] = 3;
    assert_eq!(token::balance(&data), Err(Failure::InvalidAccountData));
    data[108] = 1;
    assert_eq!(token::balance(&data), Ok(5));
}

#[test]
fn set_owner_builds_the_ledgers_request() {
    let built = token::set_owner(&ledger(), &address(1), &address(2), &address(3)).unwrap();
    let expected = spl_token::instruction::set_authority(
        &spl_token::id(),
        &key(1),
        Some(&key(2)),
        AuthorityType::AccountOwner,
        &key(3),
        &[&key(3)],
    )
    .unwrap();
    assert_eq!(built, converted(expected));
    assert_eq!(built.data[..3], [6, 2, 1]);
    assert_eq!(built.data[3..], [2u8; 32]);
    assert_eq!(
        TokenInstruction::unpack(&built.data).unwrap(),
        TokenInstruction::SetAuthority {
            authority_type: AuthorityType::AccountOwner,
            new_authority: COption::Some(key(2)),
        }
    );
    assert_eq!(built.accounts.len(), 3);
    assert_eq!(built.accounts[0], AccountMeta { pubkey: address(1), is_signer: false, is_writable: true });
    assert_eq!(built.accounts[2], AccountMeta { pubkey: address(3), is_signer: true, is_writable: false });
}

#[test]
fn transfer_builds_the_ledgers_request() {
    let built = token::transfer(&ledger(), &address(1), &address(2), &address(3), 0x0102).unwrap();
    let expected =
        spl_token::instruction::transfer(&spl_token::id(), &key(1), &key(2), &key(3), &[&key(3)], 0x0102)
            .unwrap();
    assert_eq!(built, converted(expected));
    assert_eq!(built.program_id, ledger());
    assert_eq!(built.data, vec![3u8, 2, 1, 0, 0, 0, 0, 0, 0]);
    assert_eq!(TokenInstruction::unpack(&built.data).unwrap(), TokenInstruction::Transfer { amount: 0x0102 });
    assert_eq!(
        built.accounts,
        vec![
            AccountMeta { pubkey: address(1), is_signer: false, is_writable: true },
            AccountMeta { pubkey: address(2), is_signer: false, is_writable: true },
            AccountMeta { pubkey: address(3), is_signer: false, is_writable: false },
            AccountMeta { pubkey: address(3), is_signer: true, is_writable: false },
        ]
    );
}

#[test]
fn close_account_builds_the_ledgers_request() {
    let built = token::close_account(&ledger(), &address(1), &address(2), &address(3)).unwrap();
    let expected =
        spl_token::instruction::close_account(&spl_token::id(), &key(1), &key(2), &key(3), &[&key(3)])
            .unwrap();
    assert_eq!(built, converted(expected));
    assert_eq!(built.data, vec![9u8]);
    assert_eq!(TokenInstruction::unpack(&built.data).unwrap(), TokenInstruction::CloseAccount);
    assert_eq!(
        built.accounts,
        vec![
            AccountMeta { pubkey: address(1), is_signer: false, is_writable: true },
            AccountMeta { pubkey: address(2), is_signer: false, is_writable: true },
            AccountMeta { pubkey: address(3), is_signer: false, is_writable: false },
            AccountMeta { pubkey: address(3), is_signer: true, is_writable: false },
        ]
    );
}

#[test]
fn requests_go_to_the_ledger_only() {
    let other = address(9);
    assert_eq!(
        token::set_owner(&other, &address(1), &address(2), &address(3)),
        Err(Failure::IncorrectProgramId)
    );
    assert_eq!(
        token::transfer(&other, &address(1), &address(2), &address(3), 1),
        Err(Failure::IncorrectProgramId)
    );
    assert_eq!(
        token::close_account(&other, &address(1), &address(2), &address(3)),
        Err(Failure::IncorrectProgramId)
    );
}

#[test]
fn exemption_starts_at_the_minimum_balance() {
    let account = rent_account(&Rent::default());
    assert_eq!(Rent::default().minimum_balance(105), 1_621_680);
    assert_eq!(rent::is_exempt(&account, 1_621_680, 105), Ok(true));
    assert_eq!(rent::is_exempt(&account, 1_621_679, 105), Ok(false));
    assert_eq!(rent::is_exempt(&account, 0, 105), Ok(false));
    assert_eq!(rent::is_exempt(&account, u64::MAX, 105), Ok(true));
    assert_eq!(rent::is_exempt(&account, 890_880, 0), Ok(true));
    assert_eq!(rent::is_exempt(&account, 890_879, 0), Ok(false));
    assert_eq!(rent::ACCOUNT_STORAGE_OVERHEAD, 128);
}

#[test]
fn exemption_follows_the_rent_account() {
    let free = rent_account(&Rent::free());
    assert_eq!(rent::is_exempt(&free, 0, 105), Ok(true));

    let dear = rent_account(&Rent { lamports_per_byte_year: 1_000_000, ..Rent::default() });
    assert_eq!(rent::is_exempt(&dear, 465_999_999, 105), Ok(false));
    assert_eq!(rent::is_exempt(&dear, 466_000_000, 105), Ok(true));
}

#[test]
fn exemption_needs_the_rent_account() {
    let mut account = rent_account(&Rent::default());
    account.key = address(9);
    assert_eq!(rent::is_exempt(&account, u64::MAX, 105), Err(Failure::InvalidArgument));

    let mut account = rent_account(&Rent::default());
    account.data.truncate(16);
    assert_eq!(rent::is_exempt(&account, u64::MAX, 105), Err(Failure::InvalidArgument));
}

#[test]
fn exemption_is_not_computed_beyond_64_bits() {
    let most = u64::MAX / 233;
    let fits = rent_account(&Rent { lamports_per_byte_year: most, ..Rent::default() });
    assert_eq!(rent::is_exempt(&fits, u64::MAX, 105), Ok(true));
    assert_eq!(rent::is_exempt(&fits, 1, 105), Ok(false));

    let over = rent_account(&Rent { lamports_per_byte_year: most + 1, ..Rent::default() });
    assert_eq!(rent::is_exempt(&over, u64::MAX, 105), Err(Failure::ArithmeticOverflow));
    assert_eq!(rent::is_exempt(&over, u64::MAX, 0), Ok(true));
}

#[test]
fn rent_is_computable_while_it_fits_in_64_bits() {
    assert!(rent::computable(3480, 105));
    assert!(rent::computable(0, usize::MAX - 128));
    assert!(rent::computable(u64::MAX / 233, 105));
    assert!(!rent::computable(u64::MAX / 233 + 1, 105));
    assert!(rent::computable(u64::MAX / 128, 0));
    assert!(!rent::computable(u64::MAX / 128 + 1, 0));
    assert!(!rent::computable(u64::MAX, 1));
    assert!(!rent::computable(0, usize::MAX));
}

#[test]
fn an_asset_account_has_tags_of_zero_or_one() {
    let state = spl_token::state::Account {
        mint: key(1),
        owner: key(2),
        amount: 0x0807_0605_0403_0201,
        delegate: COption::Some(key(4)),
        state: spl_token::state::AccountState::Initialized,
        is_native: COption::Some(9),
        delegated_amount: 3,
        close_authority: COption::None,
    };
    let mut data = vec![0u8; 165];
    spl_token::state::Account::pack(state, &mut data).unwrap();
    assert_eq!(data[64..72], [1, 2, 3, 4, 5, 6, 7, 8]);
    assert_eq!((data[72], data[108], data[109], data[129]), (1, 1, 1, 0));
    assert_eq!(token::balance(&data), Ok(0x0807_0605_0403_0201));

    for at in [72usize, 109, 129] {
        for (offset, byte) in [(0usize, 2u8), (0, 255), (1, 1), (2, 1), (3, 1)] {
            let mut bad = data.clone();
            bad[at + offset] = byte;
            assert_eq!(token::balance(&bad), Err(Failure::InvalidAccountData), "byte {}", at + offset);
        }
        let mut other = data.clone();
        other[at] = 1 - other[at];
        assert_eq!(token::balance(&other), Ok(0x0807_0605_0403_0201));
    }

    let mut frozen = data.clone();
    frozen[108] = 2;
    assert_eq!(token::balance(&frozen), Ok(0x0807_0605_0403_0201));
    let mut bad = data.clone();
    bad[108] = 255;
    assert_eq!(token::balance(&bad), Err(Failure::InvalidAccountData));
    let mut uninitialized = data.clone();
    uninitialized[108] = 0;
    assert_eq!(token::balance(&uninitialized), Err(Failure::UninitializedAccount));
    uninitialized[72] = 2;
    assert_eq!(token::balance(&uninitialized), Err(Failure::InvalidAccountData));
    assert_eq!(token::TOKEN_ACCOUNT_LEN, spl_token::state::Account::LEN);
}

#[test]
fn the_rent_account_holds_the_rate_in_its_first_bytes() {
    assert_eq!(
        solana_program::sysvar::rent::id().to_bytes(),
        [
            6, 167, 213, 23, 25, 44, 92, 81, 33, 140, 201, 76, 61, 74, 241, 127, 88, 218, 238, 8,
            155, 161, 253, 68, 227, 219, 217, 138, 0, 0, 0, 0
        ]
    );
    assert_eq!(rent::RENT_LEN, 17);
    let mut account = rent_account(&Rent::default());
    assert_eq!(account.data.len(), 17);
    assert_eq!(account.data[..8], 3480u64.to_le_bytes());

    // The rate alone decides whether the rent can be computed.
    account.data[..8].copy_from_slice(&u64::MAX.to_le_bytes());
    assert_eq!(rent::is_exempt(&account, u64::MAX, 105), Err(Failure::ArithmeticOverflow));
    account.data[..8].copy_from_slice(&0u64.to_le_bytes());
    assert_eq!(rent::is_exempt(&account, 0, 105), Ok(true));

    // Bytes after the seventeenth are not read.
    let mut longer = rent_account(&Rent::default());
    longer.data.extend_from_slice(&[9, 9, 9]);
    assert_eq!(rent::is_exempt(&longer, 1_621_680, 105), Ok(true));
    assert_eq!(rent::is_exempt(&longer, 1_621_679, 105), Ok(false));

    for len in [0usize, 8, 16] {
        let mut shorter = rent_account(&Rent::default());
        shorter.data.truncate(len);
        assert_eq!(rent::is_exempt(&shorter, u64::MAX, 105), Err(Failure::InvalidArgument));
    }
}
