//! What this program takes on trust from the host and the token program: the
//! host's error type, program-address derivation, the token program's
//! instruction builders, and UTF-8 decoding.
use solana_program::program_error::ProgramError;
use solana_program::pubkey::Pubkey;
use spl_token::instruction::AuthorityType;
use vstd::bytes::spec_u64_to_le_bytes;
use vstd::prelude::*;

verus! {

/// Relies on solana_program::program_error::ProgramError: the host's error
/// type, an enum whose variants carry only plain values, declared with them in
/// view so that contracts can name the error returned.
#[verifier::external_type_specification]
pub struct ExProgramError(ProgramError);

/// A ledger instruction as the token program builds it: the program to call,
/// the accounts as (key, is signer, is writable), and the encoded data.
pub struct LedgerInstruction {
    pub program_id: [u8; 32],
    pub accounts: Vec<([u8; 32], bool, bool)>,
    pub data: Vec<u8>,
}

/// The plain-value model of a `LedgerInstruction`.
pub struct InstructionModel {
    pub program_id: Seq<u8>,
    pub accounts: Seq<(Seq<u8>, bool, bool)>,
    pub data: Seq<u8>,
}

impl View for LedgerInstruction {
    type V = InstructionModel;

    open spec fn view(&self) -> InstructionModel {
        InstructionModel {
            program_id: self.program_id@,
            accounts: self.accounts@.map_values(|m: ([u8; 32], bool, bool)| (m.0@, m.1, m.2)),
            data: self.data@,
        }
    }
}

/// The token program's tag for a `Transfer` instruction.
pub const TRANSFER_TAG: u8 = 3;

/// The token program's tag for a `SetAuthority` instruction.
pub const SET_AUTHORITY_TAG: u8 = 6;

/// The token program's code for the owner authority of a token account.
pub const ACCOUNT_OWNER_AUTHORITY: u8 = 2;

/// The token program's address, TokenkegQfeZyiNwAJbNbGKPFXCWuBvf9Ss623VQ5DA in base58.
pub open spec fn token_program_key() -> Seq<u8> {
    seq![
        6u8, 221u8, 246u8, 225u8, 215u8, 101u8, 161u8, 147u8,
        217u8, 203u8, 225u8, 70u8, 206u8, 235u8, 121u8, 172u8,
        28u8, 180u8, 133u8, 237u8, 95u8, 91u8, 55u8, 145u8,
        58u8, 140u8, 245u8, 133u8, 126u8, 255u8, 0u8, 169u8,
    ]
}

/// The address and bump that the host derives from one seed and a program id.
pub uninterp spec fn program_address(seed: Seq<u8>, program_id: Seq<u8>) -> Option<(Seq<u8>, u8)>;

/// The text that a byte string decodes to as UTF-8, if it is valid UTF-8.
pub uninterp spec fn utf8_text(bytes: Seq<u8>) -> Option<Seq<char>>;

/// Whether every byte of a byte string is ASCII.
pub open spec fn all_ascii(bytes: Seq<u8>) -> bool {
    forall|i: int| 0 <= i < bytes.len() ==> bytes[i] < 0x80
}

/// The characters of ASCII bytes, one for each byte.
pub open spec fn ascii_chars(bytes: Seq<u8>) -> Seq<char> {
    bytes.map_values(|b: u8| b as char)
}

/// The token program's `SetAuthority` call that makes `new_owner` the owner of
/// `account`, authorised by the signature of its current `owner`.
pub open spec fn set_owner_model(
    token_program: Seq<u8>,
    account: Seq<u8>,
    new_owner: Seq<u8>,
    owner: Seq<u8>,
) -> InstructionModel {
    InstructionModel {
        program_id: token_program,
        accounts: seq![(account, false, true), (owner, false, false), (owner, true, false)],
        data: seq![SET_AUTHORITY_TAG, ACCOUNT_OWNER_AUTHORITY, 1u8] + new_owner,
    }
}

/// The token program's `Transfer` call of `amount` from `source` to
/// `destination`, authorised by the signature of `authority`.
pub open spec fn transfer_model(
    token_program: Seq<u8>,
    source: Seq<u8>,
    destination: Seq<u8>,
    authority: Seq<u8>,
    amount: u64,
) -> InstructionModel {
    InstructionModel {
        program_id: token_program,
        accounts: seq![
            (source, false, true),
            (destination, false, true),
            (authority, false, false),
            (authority, true, false),
        ],
        data: seq![TRANSFER_TAG] + spec_u64_to_le_bytes(amount),
    }
}

/// Relies on Pubkey::try_find_program_address, with one seed: the address and
/// bump are a function of the seed and the program id.
#[verifier::external_body]
pub(crate) fn find_program_address(seed: &Vec<u8>, program_id: &[u8; 32]) -> (r: Option<([u8; 32], u8)>)
    ensures
        match r {
            Some((address, bump)) => program_address(seed@, program_id@) == Some((address@, bump)),
            None => program_address(seed@, program_id@) is None,
        },
{
    let program_id = Pubkey::new_from_array(*program_id);
    Pubkey::try_find_program_address(&[seed.as_slice()], &program_id).map(|(a, b)| (a.to_bytes(), b))
}

/// Relies on spl_token::instruction::set_authority, with the owner authority,
/// the current owner as its one signer: it fails with `IncorrectProgramId`
/// unless `token_program` is the token program's id, and else encodes the call.
#[verifier::external_body]
pub(crate) fn set_owner_instruction(
    token_program: &[u8; 32],
    account: &[u8; 32],
    new_owner: &[u8; 32],
    owner: &[u8; 32],
) -> (r: Result<LedgerInstruction, ProgramError>)
    ensures
        r is Ok <==> token_program@ == token_program_key(),
        r is Err ==> r->Err_0 == ProgramError::IncorrectProgramId,
        r is Ok ==> r->Ok_0@ == set_owner_model(token_program@, account@, new_owner@, owner@),
{
    let (p, a, n, o) = (Pubkey::new_from_array(*token_program), Pubkey::new_from_array(*account),
        Pubkey::new_from_array(*new_owner), Pubkey::new_from_array(*owner));
    spl_token::instruction::set_authority(&p, &a, Some(&n), AuthorityType::AccountOwner, &o, &[&o])
        .map(|ix| LedgerInstruction {
            program_id: ix.program_id.to_bytes(),
            accounts: ix.accounts.iter().map(|m| (m.pubkey.to_bytes(), m.is_signer, m.is_writable)).collect(),
            data: ix.data,
        })
}

/// Relies on spl_token::instruction::transfer, with the authority as its one
/// signer: it fails with `IncorrectProgramId` unless `token_program` is the
/// token program's id, and else encodes the call.
#[verifier::external_body]
pub(crate) fn transfer_instruction(
    token_program: &[u8; 32],
    source: &[u8; 32],
    destination: &[u8; 32],
    authority: &[u8; 32],
    amount: u64,
) -> (r: Result<LedgerInstruction, ProgramError>)
    ensures
        r is Ok <==> token_program@ == token_program_key(),
        r is Err ==> r->Err_0 == ProgramError::IncorrectProgramId,
        r is Ok ==> r->Ok_0@ == transfer_model(token_program@, source@, destination@, authority@, amount),
{
    let (p, s, d, a) = (Pubkey::new_from_array(*token_program), Pubkey::new_from_array(*source),
        Pubkey::new_from_array(*destination), Pubkey::new_from_array(*authority));
    spl_token::instruction::transfer(&p, &s, &d, &a, &[&a], amount)
        .map(|ix| LedgerInstruction {
            program_id: ix.program_id.to_bytes(),
            accounts: ix.accounts.iter().map(|m| (m.pubkey.to_bytes(), m.is_signer, m.is_writable)).collect(),
            data: ix.data,
        })
}

/// Relies on String::from_utf8: it accepts exactly the valid UTF-8 byte
/// strings, the text is a function of the bytes, and ASCII bytes decode to
/// one character each.
#[verifier::external_body]
pub(crate) fn text_from_utf8(bytes: Vec<u8>) -> (r: Option<String>)
    ensures
        match r {
            Some(s) => utf8_text(bytes@) == Some(s@),
            None => utf8_text(bytes@) is None,
        },
        all_ascii(bytes@) ==> r is Some && r->Some_0@ == ascii_chars(bytes@),
{
    String::from_utf8(bytes).ok()
}

} // verus!
