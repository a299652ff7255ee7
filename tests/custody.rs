use bank_custody::{
    derive_custody_authority, AccountRef, Invocation, Processor, DEPOSIT_ACCOUNTS, DEPOSIT_RENT_SYSVAR,
    WITHDRAW_ACCOUNTS, WITHDRAW_RENT_SYSVAR,
};
use solana_program::program_error::ProgramError;
use solana_program::pubkey::Pubkey;

const PROGRAM: [u8; 32] = [42u8; 32];

fn custody_pda(program: [u8; 32]) -> (Pubkey, u8) {
    Pubkey::find_program_address(&[b"bank store"], &Pubkey::new_from_array(program))
}

fn deposit_accounts(token_program: [u8; 32], exempt: bool) -> Vec<AccountRef> {
    vec![
        AccountRef { key: [1u8; 32], rent_exempt: exempt },
        AccountRef { key: [2u8; 32], rent_exempt: true },
        AccountRef { key: [3u8; 32], rent_exempt: true },
        AccountRef { key: [0u8; 32], rent_exempt: true },
        AccountRef { key: token_program, rent_exempt: true },
        AccountRef { key: [5u8; 32], rent_exempt: true },
    ]
}

fn withdraw_accounts(token_program: [u8; 32], exempt: bool) -> Vec<AccountRef> {
    vec![
        AccountRef { key: [1u8; 32], rent_exempt: exempt },
        AccountRef { key: [2u8; 32], rent_exempt: true },
        AccountRef { key: [3u8; 32], rent_exempt: true },
        AccountRef { key: token_program, rent_exempt: true },
        AccountRef { key: [5u8; 32], rent_exempt: true },
    ]
}

fn buffer(tag: u8, amount: u64, note: &[u8]) -> Vec<u8> {
    let mut v = vec![tag];
    v.extend_from_slice(&amount.to_le_bytes());
    let mut field = note.to_vec();
    field.resize(12, 0);
    v.extend_from_slice(&field);
    v
}

fn token_id() -> [u8; 32] {
    spl_token::id().to_bytes()
}

fn ok(r: Result<Invocation, ProgramError>) -> Invocation {
    match r {
        Ok(inv) => inv,
        Err(e) => panic!("unexpected error {:?}", e),
    }
}

#[test]
fn deposit_scenario_sets_owner_to_custody() {
    let inv = ok(Processor::process(&PROGRAM, &deposit_accounts(token_id(), true), Ok(()), &buffer(0, 100, b"hello")));
    let (pda, _) = custody_pda(PROGRAM);
    let ix = &inv.instruction;
    assert_eq!(ix.program_id, token_id());
    assert_eq!(ix.accounts, vec![([2u8; 32], false, true), ([3u8; 32], false, false), ([3u8; 32], true, false)]);
    let mut data = vec![6u8, 2, 1];
    data.extend_from_slice(&pda.to_bytes());
    assert_eq!(ix.data, data);
    assert_eq!(inv.account_positions, vec![4, 1, 2]);
    assert!(inv.signer_seeds.is_empty());
}

#[test]
fn withdraw_scenario_transfers_fifty() {
    let inv = ok(Processor::process(&PROGRAM, &withdraw_accounts(token_id(), true), Ok(()), &buffer(1, 50, b"note-for-50!")));
    let (pda, bump) = custody_pda(PROGRAM);
    let ix = &inv.instruction;
    assert_eq!(ix.program_id, token_id());
    assert_eq!(
        ix.accounts,
        vec![([2u8; 32], false, true), ([1u8; 32], false, true), (pda.to_bytes(), false, false), (pda.to_bytes(), true, false)]
    );
    let mut data = vec![3u8];
    data.extend_from_slice(&50u64.to_le_bytes());
    assert_eq!(ix.data, data);
    assert_eq!(inv.account_positions, vec![3, 1, 0, 2]);
    assert_eq!(inv.signer_seeds, vec![b"bank store".to_vec(), vec![bump]]);
}

#[test]
fn bad_tag_makes_no_call() {
    let r = Processor::process(&PROGRAM, &deposit_accounts(token_id(), true), Ok(()), &buffer(2, 50, b"x"));
    assert_eq!(r.err(), Some(ProgramError::Custom(0)));
}

#[test]
fn decode_error_comes_before_account_checks() {
    let r = Processor::process(&PROGRAM, &Vec::new(), Err(ProgramError::InvalidArgument), &[0u8, 1, 2]);
    assert_eq!(r.err(), Some(ProgramError::Custom(0)));
}

#[test]
fn too_few_accounts() {
    let mut accs = deposit_accounts(token_id(), true);
    accs.truncate(DEPOSIT_ACCOUNTS - 1);
    let r = Processor::process_deposit(&PROGRAM, &accs, Ok(()), 1);
    assert_eq!(r.err(), Some(ProgramError::NotEnoughAccountKeys));
    let mut accs = withdraw_accounts(token_id(), true);
    accs.truncate(WITHDRAW_ACCOUNTS - 1);
    let r = Processor::process_withdraw(&PROGRAM, &accs, Err(ProgramError::InvalidArgument), 1);
    assert_eq!(r.err(), Some(ProgramError::NotEnoughAccountKeys));
}

#[test]
fn deposit_with_the_withdraw_layout_is_refused() {
    let r = Processor::process_deposit(&PROGRAM, &withdraw_accounts(token_id(), true), Ok(()), 1);
    assert_eq!(r.err(), Some(ProgramError::NotEnoughAccountKeys));
}

#[test]
fn rent_sysvar_positions() {
    assert_eq!(Processor::rent_sysvar_position(&buffer(0, 1, b"")), Some(DEPOSIT_RENT_SYSVAR));
    assert_eq!(Processor::rent_sysvar_position(&buffer(1, 1, b"")), Some(WITHDRAW_RENT_SYSVAR));
    assert_eq!(Processor::rent_sysvar_position(&buffer(2, 1, b"")), None);
    assert_eq!(Processor::rent_sysvar_position(&[]), None);
    assert_eq!((DEPOSIT_RENT_SYSVAR, WITHDRAW_RENT_SYSVAR), (5, 4));
}

#[test]
fn rent_sysvar_error_propagates() {
    let r = Processor::process_withdraw(&PROGRAM, &withdraw_accounts(token_id(), true), Err(ProgramError::UnsupportedSysvar), 1);
    assert_eq!(r.err(), Some(ProgramError::UnsupportedSysvar));
}

#[test]
fn receiver_not_rent_exempt() {
    let r = Processor::process_deposit(&PROGRAM, &deposit_accounts(token_id(), false), Ok(()), 1);
    assert_eq!(r.err(), Some(ProgramError::Custom(1)));
    let r = Processor::process_withdraw(&PROGRAM, &withdraw_accounts(token_id(), false), Ok(()), 1);
    assert_eq!(r.err(), Some(ProgramError::Custom(1)));
}

#[test]
fn wrong_token_program_rejected() {
    let r = Processor::process_deposit(&PROGRAM, &deposit_accounts([9u8; 32], true), Ok(()), 1);
    assert_eq!(r.err(), Some(ProgramError::IncorrectProgramId));
    let r = Processor::process_withdraw(&PROGRAM, &withdraw_accounts([9u8; 32], true), Ok(()), 1);
    assert_eq!(r.err(), Some(ProgramError::IncorrectProgramId));
}

#[test]
fn custody_authority_is_deterministic() {
    let first = derive_custody_authority(&PROGRAM);
    let second = derive_custody_authority(&PROGRAM);
    assert_eq!(first, second);
    let (pda, bump) = custody_pda(PROGRAM);
    assert_eq!(first, Some((pda.to_bytes(), bump)));
    let other = derive_custody_authority(&[43u8; 32]);
    assert_ne!(first.map(|(a, _)| a), other.map(|(a, _)| a));
}

#[test]
fn withdraw_signs_as_deposit_owner() {
    let dep = ok(Processor::process_deposit(&PROGRAM, &deposit_accounts(token_id(), true), Ok(()), 75));
    let wd = ok(Processor::process_withdraw(&PROGRAM, &withdraw_accounts(token_id(), true), Ok(()), 75));
    let owner = dep.instruction.data[3..].to_vec();
    assert_eq!(wd.instruction.accounts[0].0, dep.instruction.accounts[0].0);
    assert_eq!(wd.instruction.accounts[2].0.to_vec(), owner);
    assert_eq!(wd.instruction.accounts[3], (wd.instruction.accounts[2].0, true, false));
    let signer = Pubkey::create_program_address(
        &[&wd.signer_seeds[0], &wd.signer_seeds[1]],
        &Pubkey::new_from_array(PROGRAM),
    )
    .unwrap();
    assert_eq!(signer.to_bytes().to_vec(), owner);
}

#[test]
fn withdraw_with_another_program_signs_as_another_authority() {
    let dep = ok(Processor::process_deposit(&PROGRAM, &deposit_accounts(token_id(), true), Ok(()), 75));
    let wd = ok(Processor::process_withdraw(&[43u8; 32], &withdraw_accounts(token_id(), true), Ok(()), 75));
    assert_ne!(wd.instruction.accounts[2].0.to_vec(), dep.instruction.data[3..].to_vec());
}

#[test]
fn withdraw_changes_no_owner() {
    let wd = ok(Processor::process_withdraw(&PROGRAM, &withdraw_accounts(token_id(), true), Ok(()), u64::MAX));
    assert_eq!(wd.instruction.data[0], 3);
    assert_eq!(wd.instruction.data[1..].to_vec(), u64::MAX.to_le_bytes().to_vec());
}

#[test]
fn token_program_id_bytes() {
    assert_eq!(
        spl_token::id().to_bytes(),
        [
            6, 221, 246, 225, 215, 101, 161, 147, 217, 203, 225, 70, 206, 235, 121, 172, 28, 180, 133, 237, 95, 91,
            55, 145, 58, 140, 245, 133, 126, 255, 0, 169,
        ]
    );
}
