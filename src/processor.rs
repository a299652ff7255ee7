//! The handlers. Each one reads what it is handed and settles the one
//! token-program call to make, with the accounts and seeds that the host needs
//! to make it; making the call is left to the host.
use crate::error::{error_code, BankError};
use crate::instruction::{decode, BankInstruction, InstructionView};
use crate::ledger::{
    find_program_address, program_address, set_owner_instruction, set_owner_model,
    token_program_key, transfer_instruction, transfer_model, InstructionModel, LedgerInstruction, SET_AUTHORITY_TAG,
    TRANSFER_TAG,
};
use solana_program::program_error::ProgramError;
use vstd::bytes::spec_u64_to_le_bytes;
use vstd::prelude::*;

verus! {

/// How many accounts a deposit expects: the receiver, the token account
/// deposited, its owner, the system program, the token program and the rent
/// sysvar.
pub const DEPOSIT_ACCOUNTS: usize = 6;

/// The position of the token program among a deposit's accounts.
pub const DEPOSIT_TOKEN_PROGRAM: usize = 4;

/// The position of the rent sysvar among a deposit's accounts.
pub const DEPOSIT_RENT_SYSVAR: usize = 5;

/// How many accounts a withdraw expects: the recipient, the token account in
/// custody, the custody authority's record, the token program and the rent
/// sysvar.
pub const WITHDRAW_ACCOUNTS: usize = 5;

/// The position of the token program among a withdraw's accounts.
pub const WITHDRAW_TOKEN_PROGRAM: usize = 3;

/// The position of the rent sysvar among a withdraw's accounts.
pub const WITHDRAW_RENT_SYSVAR: usize = 4;

/// What a handler reads of one account it is handed.
pub struct AccountRef {
    /// The account's address.
    pub key: [u8; 32],
    /// Whether its lamports cover rent exemption for its size.
    pub rent_exempt: bool,
}

/// A call to hand to the host: the instruction, the positions of the accounts
/// it touches among those the handler was given, and the seeds under which
/// the custody authority signs it (none where a real signature authorises it).
pub struct Invocation {
    pub instruction: LedgerInstruction,
    pub account_positions: Vec<usize>,
    pub signer_seeds: Vec<Vec<u8>>,
}

/// The plain-value model of an `Invocation`.
pub struct InvocationModel {
    pub instruction: InstructionModel,
    pub account_positions: Seq<usize>,
    pub signer_seeds: Seq<Seq<u8>>,
}

impl View for Invocation {
    type V = InvocationModel;

    open spec fn view(&self) -> InvocationModel {
        InvocationModel {
            instruction: self.instruction@,
            account_positions: self.account_positions@,
            signer_seeds: self.signer_seeds@.map_values(|s: Vec<u8>| s@),
        }
    }
}

/// The seed of the custody pool: the bytes of "bank store".
pub open spec fn custody_seed() -> Seq<u8> {
    seq![98u8, 97u8, 110u8, 107u8, 32u8, 115u8, 116u8, 111u8, 114u8, 101u8]
}

/// The custody authority of a program, with its bump.
pub open spec fn custody_authority(program_id: Seq<u8>) -> Option<(Seq<u8>, u8)> {
    program_address(custody_seed(), program_id)
}

/// Whether `r` is what the checks ahead of the token-program call give, where
/// they fail: fewer accounts than `expected`, then the rent sysvar, then rent
/// exemption of the account at position 0, then the derivation of the custody
/// authority, whose failure is reported as `InvalidSeeds`.
pub open spec fn precheck_failure(
    accounts: Seq<AccountRef>,
    expected: usize,
    rent_sysvar: Result<(), ProgramError>,
    r: Result<Invocation, ProgramError>,
) -> bool {
    if accounts.len() < expected {
        r is Err && r->Err_0 == ProgramError::NotEnoughAccountKeys
    } else if rent_sysvar is Err {
        r is Err && r->Err_0 == rent_sysvar->Err_0
    } else if !accounts[0].rent_exempt {
        r is Err && r->Err_0 == ProgramError::Custom(error_code(BankError::NotRentExempt))
    } else {
        r is Err && r->Err_0 == ProgramError::InvalidSeeds
    }
}

/// Whether the checks ahead of the token-program call pass.
pub open spec fn prechecks_pass(
    program_id: Seq<u8>,
    accounts: Seq<AccountRef>,
    expected: usize,
    rent_sysvar: Result<(), ProgramError>,
) -> bool {
    &&& accounts.len() >= expected
    &&& rent_sysvar is Ok
    &&& accounts[0].rent_exempt
    &&& custody_authority(program_id) is Some
}

/// The deposit call: the token account at position 1 gets the custody
/// authority as its owner, on the signature of its owner at position 2,
/// through the token program at position 4.
pub open spec fn deposit_model(program_id: Seq<u8>, accounts: Seq<AccountRef>) -> InvocationModel {
    InvocationModel {
        instruction: set_owner_model(
            accounts[DEPOSIT_TOKEN_PROGRAM as int].key@,
            accounts[1].key@,
            custody_authority(program_id)->Some_0.0,
            accounts[2].key@,
        ),
        account_positions: seq![DEPOSIT_TOKEN_PROGRAM, 1usize, 2usize],
        signer_seeds: seq![],
    }
}

/// The withdraw call: `amount` moves from the token account in custody at
/// position 1 to the recipient at position 0, through the token program at
/// position 3, signed by the custody authority (its record at position 2)
/// under the custody seed and its bump.
pub open spec fn withdraw_model(program_id: Seq<u8>, accounts: Seq<AccountRef>, amount: u64) -> InvocationModel {
    InvocationModel {
        instruction: transfer_model(
            accounts[WITHDRAW_TOKEN_PROGRAM as int].key@,
            accounts[1].key@,
            accounts[0].key@,
            custody_authority(program_id)->Some_0.0,
            amount,
        ),
        account_positions: seq![WITHDRAW_TOKEN_PROGRAM, 1usize, 0usize, 2usize],
        signer_seeds: seq![custody_seed(), seq![custody_authority(program_id)->Some_0.1]],
    }
}

/// What a deposit gives: the failure of a check; else the deposit call where
/// the account at position 4 is the token program, and `IncorrectProgramId`
/// where it is not.
pub open spec fn deposit_outcome(
    program_id: Seq<u8>,
    accounts: Seq<AccountRef>,
    rent_sysvar: Result<(), ProgramError>,
    r: Result<Invocation, ProgramError>,
) -> bool {
    if !prechecks_pass(program_id, accounts, DEPOSIT_ACCOUNTS, rent_sysvar) {
        precheck_failure(accounts, DEPOSIT_ACCOUNTS, rent_sysvar, r)
    } else {
        if accounts[DEPOSIT_TOKEN_PROGRAM as int].key@ == token_program_key() {
            r is Ok && r->Ok_0@ == deposit_model(program_id, accounts)
        } else {
            r is Err && r->Err_0 == ProgramError::IncorrectProgramId
        }
    }
}

/// What a withdraw gives: the failure of a check; else the withdraw call where
/// the account at position 3 is the token program, and `IncorrectProgramId`
/// where it is not.
pub open spec fn withdraw_outcome(
    program_id: Seq<u8>,
    accounts: Seq<AccountRef>,
    rent_sysvar: Result<(), ProgramError>,
    amount: u64,
    r: Result<Invocation, ProgramError>,
) -> bool {
    if !prechecks_pass(program_id, accounts, WITHDRAW_ACCOUNTS, rent_sysvar) {
        precheck_failure(accounts, WITHDRAW_ACCOUNTS, rent_sysvar, r)
    } else {
        if accounts[WITHDRAW_TOKEN_PROGRAM as int].key@ == token_program_key() {
            r is Ok && r->Ok_0@ == withdraw_model(program_id, accounts, amount)
        } else {
            r is Err && r->Err_0 == ProgramError::IncorrectProgramId
        }
    }
}

/// What processing an instruction buffer gives: the decode error, or what the
/// handler of the decoded instruction gives.
pub open spec fn process_outcome(
    program_id: Seq<u8>,
    accounts: Seq<AccountRef>,
    rent_sysvar: Result<(), ProgramError>,
    data: Seq<u8>,
    r: Result<Invocation, ProgramError>,
) -> bool {
    match decode(data) {
        Err(e) => r is Err && r->Err_0 == ProgramError::Custom(error_code(e)),
        Ok(InstructionView::Deposit { .. }) => deposit_outcome(program_id, accounts, rent_sysvar, r),
        Ok(InstructionView::Withdraw { amount, .. }) => withdraw_outcome(
            program_id,
            accounts,
            rent_sysvar,
            amount,
            r,
        ),
    }
}

/// The custody authority depends on the program id alone: any two deposits
/// of one program make the same authority the owner, so their calls carry
/// the same data.
pub proof fn lemma_custody_authority_deterministic(
    program_id: Seq<u8>,
    first_accounts: Seq<AccountRef>,
    second_accounts: Seq<AccountRef>,
    first_rent: Result<(), ProgramError>,
    second_rent: Result<(), ProgramError>,
    first: Result<Invocation, ProgramError>,
    second: Result<Invocation, ProgramError>,
)
    requires
        deposit_outcome(program_id, first_accounts, first_rent, first),
        deposit_outcome(program_id, second_accounts, second_rent, second),
        first is Ok,
        second is Ok,
    ensures
        first->Ok_0@.instruction.data == second->Ok_0@.instruction.data,
        first->Ok_0@.instruction.data.skip(3) == custody_authority(program_id)->Some_0.0,
{
    assert(first->Ok_0@.instruction.data.skip(3) =~= custody_authority(program_id)->Some_0.0);
}

/// A deposit followed by a withdraw from the same token account, by the same
/// program: the withdraw moves tokens out of the very account whose owner the
/// deposit set, as that owner, signed under the seed and bump that derive
/// it, and moves exactly the amount asked.
pub proof fn lemma_withdraw_signs_as_deposit_owner(
    program_id: Seq<u8>,
    deposit_accounts: Seq<AccountRef>,
    withdraw_accounts: Seq<AccountRef>,
    deposit_rent: Result<(), ProgramError>,
    withdraw_rent: Result<(), ProgramError>,
    amount: u64,
    deposit: Result<Invocation, ProgramError>,
    withdraw: Result<Invocation, ProgramError>,
)
    requires
        deposit_outcome(program_id, deposit_accounts, deposit_rent, deposit),
        withdraw_outcome(program_id, withdraw_accounts, withdraw_rent, amount, withdraw),
        deposit is Ok,
        withdraw is Ok,
        deposit_accounts[1].key == withdraw_accounts[1].key,
    ensures
        ({
            let d = deposit->Ok_0@;
            let w = withdraw->Ok_0@;
            let owner = d.instruction.data.skip(3);
            &&& w.instruction.accounts[0].0 == d.instruction.accounts[0].0
            &&& w.instruction.accounts[2].0 == owner
            &&& w.instruction.accounts[3] == (owner, true, false)
            &&& w.signer_seeds.len() == 2
            &&& w.signer_seeds[1].len() == 1
            &&& program_address(w.signer_seeds[0], program_id) == Some((owner, w.signer_seeds[1][0]))
            &&& w.instruction.data == seq![TRANSFER_TAG] + spec_u64_to_le_bytes(amount)
        }),
{
    assert(deposit->Ok_0@.instruction.data.skip(3) =~= custody_authority(program_id)->Some_0.0);
}

/// A withdraw changes no owner: its call is a transfer of exactly the amount
/// asked, never an authority change.
pub proof fn lemma_withdraw_changes_no_owner(
    program_id: Seq<u8>,
    accounts: Seq<AccountRef>,
    rent_sysvar: Result<(), ProgramError>,
    amount: u64,
    r: Result<Invocation, ProgramError>,
)
    requires
        withdraw_outcome(program_id, accounts, rent_sysvar, amount, r),
        r is Ok,
    ensures
        r->Ok_0@.instruction.data[0] == TRANSFER_TAG,
        r->Ok_0@.instruction.data[0] != SET_AUTHORITY_TAG,
        r->Ok_0@.instruction.data.drop_first() == spec_u64_to_le_bytes(amount),
{
    assert(r->Ok_0@.instruction.data.drop_first() =~= spec_u64_to_le_bytes(amount));
}

/// The bytes of the custody seed.
pub fn custody_seed_bytes() -> (r: Vec<u8>)
    ensures
        r@ == custody_seed(),
{
    let mut seed: Vec<u8> = Vec::new();
    seed.push(98);
    seed.push(97);
    seed.push(110);
    seed.push(107);
    seed.push(32);
    seed.push(115);
    seed.push(116);
    seed.push(111);
    seed.push(114);
    seed.push(101);
    assert(seed@ == custody_seed());
    seed
}

/// Derives the custody authority of a program and its bump.
pub fn derive_custody_authority(program_id: &[u8; 32]) -> (r: Option<([u8; 32], u8)>)
    ensures
        match r {
            Some((authority, bump)) => custody_authority(program_id@) == Some((authority@, bump)),
            None => custody_authority(program_id@) is None,
        },
{
    let seed = custody_seed_bytes();
    find_program_address(&seed, program_id)
}

/// The processor of this program's instructions.
pub struct Processor;

impl Processor {
    /// Where the handler of an instruction buffer expects the rent sysvar:
    /// `DEPOSIT_RENT_SYSVAR` for tag 0, `WITHDRAW_RENT_SYSVAR` for tag 1, and
    /// nowhere for a buffer that cannot decode.
    pub fn rent_sysvar_position(instruction_data: &[u8]) -> (r: Option<usize>)
        ensures
            r == (if instruction_data@.len() > 0 && instruction_data@[0] == 0 {
                Some(DEPOSIT_RENT_SYSVAR)
            } else if instruction_data@.len() > 0 && instruction_data@[0] == 1 {
                Some(WITHDRAW_RENT_SYSVAR)
            } else {
                None::<usize>
            }),
    {
        if instruction_data.len() == 0 {
            None
        } else if instruction_data[0] == 0 {
            Some(DEPOSIT_RENT_SYSVAR)
        } else if instruction_data[0] == 1 {
            Some(WITHDRAW_RENT_SYSVAR)
        } else {
            None
        }
    }

    /// Decodes an instruction buffer and settles the call that its handler
    /// makes. `rent_sysvar` is what reading the rent sysvar, the account at
    /// the position that `rent_sysvar_position` gives, gave; each account's
    /// `rent_exempt` is judged against it.
    pub fn process(
        program_id: &[u8; 32],
        accounts: &Vec<AccountRef>,
        rent_sysvar: Result<(), ProgramError>,
        instruction_data: &[u8],
    ) -> (r: Result<Invocation, ProgramError>)
        ensures
            process_outcome(program_id@, accounts@, rent_sysvar, instruction_data@, r),
    {
        let instruction = match BankInstruction::unpack(instruction_data) {
            Ok(i) => i,
            Err(e) => return Err(e),
        };
        match instruction {
            BankInstruction::Deposit { amount, .. } => Self::process_deposit(program_id, accounts, rent_sysvar, amount),
            BankInstruction::Withdraw { amount, .. } => Self::process_withdraw(program_id, accounts, rent_sysvar, amount),
        }
    }

    /// Checks the accounts and settles the call that puts the token account at
    /// position 1 into custody. The expected accounts are: the receiver, the
    /// token account deposited, its owner who signs, the system program, the
    /// token program, and the rent sysvar. Rent exemption is checked of the
    /// receiver, the account that the deposit credits; the token account
    /// deposited already exists under the token program. The whole token
    /// account changes hands, so the amount does not enter the call.
    pub fn process_deposit(
        program_id: &[u8; 32],
        accounts: &Vec<AccountRef>,
        rent_sysvar: Result<(), ProgramError>,
        _amount: u64,
    ) -> (r: Result<Invocation, ProgramError>)
        ensures
            deposit_outcome(program_id@, accounts@, rent_sysvar, r),
    {
        if accounts.len() < DEPOSIT_ACCOUNTS {
            return Err(ProgramError::NotEnoughAccountKeys);
        }
        match rent_sysvar {
            Ok(()) => {},
            Err(e) => return Err(e),
        }
        if !accounts[0].rent_exempt {
            return Err(ProgramError::from(BankError::NotRentExempt));
        }
        let (authority, _bump) = match derive_custody_authority(program_id) {
            Some(derived) => derived,
            None => return Err(ProgramError::InvalidSeeds),
        };
        let instruction = match set_owner_instruction(
            &accounts[DEPOSIT_TOKEN_PROGRAM].key,
            &accounts[1].key,
            &authority,
            &accounts[2].key,
        ) {
            Ok(ix) => ix,
            Err(e) => return Err(e),
        };
        let mut account_positions: Vec<usize> = Vec::new();
        account_positions.push(DEPOSIT_TOKEN_PROGRAM);
        account_positions.push(1);
        account_positions.push(2);
        let signer_seeds: Vec<Vec<u8>> = Vec::new();
        let inv = Invocation { instruction, account_positions, signer_seeds };
        assert(inv@.signer_seeds == Seq::<Seq<u8>>::empty());
        assert(inv@.account_positions == seq![DEPOSIT_TOKEN_PROGRAM, 1usize, 2usize]);
        Ok(inv)
    }

    /// Checks the accounts and settles the call that pays `amount` out of the
    /// token account in custody. The expected accounts are: the recipient
    /// (whose rent exemption is checked), the token account in custody, the
    /// custody authority's record, the token program, and the rent sysvar.
    /// Whether the account in custody holds `amount` is for the token program
    /// to judge when the call is made.
    pub fn process_withdraw(
        program_id: &[u8; 32],
        accounts: &Vec<AccountRef>,
        rent_sysvar: Result<(), ProgramError>,
        amount: u64,
    ) -> (r: Result<Invocation, ProgramError>)
        ensures
            withdraw_outcome(program_id@, accounts@, rent_sysvar, amount, r),
    {
        if accounts.len() < WITHDRAW_ACCOUNTS {
            return Err(ProgramError::NotEnoughAccountKeys);
        }
        match rent_sysvar {
            Ok(()) => {},
            Err(e) => return Err(e),
        }
        if !accounts[0].rent_exempt {
            return Err(ProgramError::from(BankError::NotRentExempt));
        }
        let (authority, bump) = match derive_custody_authority(program_id) {
            Some(derived) => derived,
            None => return Err(ProgramError::InvalidSeeds),
        };
        let instruction = match transfer_instruction(
            &accounts[WITHDRAW_TOKEN_PROGRAM].key,
            &accounts[1].key,
            &accounts[0].key,
            &authority,
            amount,
        ) {
            Ok(ix) => ix,
            Err(e) => return Err(e),
        };
        let mut account_positions: Vec<usize> = Vec::new();
        account_positions.push(WITHDRAW_TOKEN_PROGRAM);
        account_positions.push(1);
        account_positions.push(0);
        account_positions.push(2);
        let mut bump_seed: Vec<u8> = Vec::new();
        bump_seed.push(bump);
        let mut signer_seeds: Vec<Vec<u8>> = Vec::new();
        signer_seeds.push(custody_seed_bytes());
        signer_seeds.push(bump_seed);
        let inv = Invocation { instruction, account_positions, signer_seeds };
        assert(inv@.signer_seeds == seq![custody_seed(), seq![bump]]);
        assert(inv@.account_positions == seq![WITHDRAW_TOKEN_PROGRAM, 1usize, 0usize, 2usize]);
        Ok(inv)
    }
}

} // verus!
