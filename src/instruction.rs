//! The instruction wire format: a tag byte, an amount as 8 little-endian
//! bytes, then a note field of fixed width, padded at its end with zero bytes
//! and holding UTF-8 text. Bytes past the note field are ignored.
use crate::error::{error_code, BankError};
use crate::ledger::{all_ascii, ascii_chars, text_from_utf8, utf8_text};
use solana_program::program_error::ProgramError;
use vstd::bytes::{lemma_auto_spec_u64_to_from_le_bytes, spec_u64_from_le_bytes, spec_u64_to_le_bytes, u64_from_le_bytes};
use vstd::prelude::*;
use vstd::slice::slice_subrange;

verus! {

/// The width of the amount field.
pub const AMOUNT_LEN: usize = 8;

/// The width of the note field.
pub const NOTE_LEN: usize = 12;

/// A decoded instruction.
pub enum BankInstruction {
    /// Put a token account into custody.
    Deposit { amount: u64, note: String },
    /// Pay `amount` out of a token account in custody.
    Withdraw { amount: u64, note: String },
}

/// The model of a decoded instruction.
pub enum InstructionView {
    Deposit { amount: u64, note: Seq<char> },
    Withdraw { amount: u64, note: Seq<char> },
}

impl View for BankInstruction {
    type V = InstructionView;

    open spec fn view(&self) -> InstructionView {
        match self {
            BankInstruction::Deposit { amount, note } => InstructionView::Deposit { amount: *amount, note: note@ },
            BankInstruction::Withdraw { amount, note } => InstructionView::Withdraw { amount: *amount, note: note@ },
        }
    }
}

/// A note field without its trailing zero padding.
pub open spec fn trim_padding(s: Seq<u8>) -> Seq<u8>
    decreases s.len(),
{
    if s.len() > 0 && s.last() == 0 {
        trim_padding(s.drop_last())
    } else {
        s
    }
}

/// The amount at the start of the bytes after the tag, if there is room for it.
pub open spec fn decode_amount(rest: Seq<u8>) -> Option<u64> {
    if rest.len() >= AMOUNT_LEN {
        Some(spec_u64_from_le_bytes(rest.take(AMOUNT_LEN as int)))
    } else {
        None
    }
}

/// The note after the amount, if the field is complete and its text is UTF-8.
pub open spec fn decode_note(rest: Seq<u8>) -> Option<Seq<char>> {
    if rest.len() >= AMOUNT_LEN + NOTE_LEN {
        utf8_text(trim_padding(rest.subrange(AMOUNT_LEN as int, (AMOUNT_LEN + NOTE_LEN) as int)))
    } else {
        None
    }
}

/// The note field after the amount without its padding, for bytes after the
/// tag that hold a complete note field.
pub open spec fn note_bytes(rest: Seq<u8>) -> Seq<u8> {
    trim_padding(rest.subrange(AMOUNT_LEN as int, (AMOUNT_LEN + NOTE_LEN) as int))
}

/// The note of a decoded instruction.
pub open spec fn note_of(v: InstructionView) -> Seq<char> {
    match v {
        InstructionView::Deposit { note, .. } => note,
        InstructionView::Withdraw { note, .. } => note,
    }
}

/// What a buffer decodes to.
pub open spec fn decode(input: Seq<u8>) -> Result<InstructionView, BankError> {
    if input.len() == 0 {
        Err(BankError::InvalidInstruction)
    } else {
        let rest = input.drop_first();
        match (decode_amount(rest), decode_note(rest)) {
            (Some(amount), Some(note)) => if input[0] == 0 {
                Ok(InstructionView::Deposit { amount, note })
            } else if input[0] == 1 {
                Ok(InstructionView::Withdraw { amount, note })
            } else {
                Err(BankError::InvalidInstruction)
            },
            _ => Err(BankError::InvalidInstruction),
        }
    }
}

/// The error value under which a decode failure reaches the host.
pub open spec fn invalid_instruction() -> ProgramError {
    ProgramError::Custom(error_code(BankError::InvalidInstruction))
}

/// The buffer that carries `tag`, `amount` and a note field, followed by `tail`.
pub open spec fn encode(tag: u8, amount: u64, note_field: Seq<u8>, tail: Seq<u8>) -> Seq<u8> {
    seq![tag] + spec_u64_to_le_bytes(amount) + note_field + tail
}

/// Decoding is total over well-formed buffers: a buffer with tag 0 or 1, an
/// amount, and a complete note field whose unpadded bytes are UTF-8 decodes to
/// the instruction of that tag, with that exact amount and that note's text,
/// whatever bytes follow.
pub proof fn lemma_decode_round_trip(tag: u8, amount: u64, note_field: Seq<u8>, tail: Seq<u8>)
    requires
        tag == 0 || tag == 1,
        note_field.len() == NOTE_LEN,
        utf8_text(trim_padding(note_field)) is Some,
    ensures
        decode(encode(tag, amount, note_field, tail)) is Ok,
        decode(encode(tag, amount, note_field, tail))->Ok_0 == (if tag == 0 {
            InstructionView::Deposit { amount, note: utf8_text(trim_padding(note_field))->Some_0 }
        } else {
            InstructionView::Withdraw { amount, note: utf8_text(trim_padding(note_field))->Some_0 }
        }),
{
    lemma_auto_spec_u64_to_from_le_bytes();
    let input = encode(tag, amount, note_field, tail);
    let rest = input.drop_first();
    assert(rest.take(AMOUNT_LEN as int) == spec_u64_to_le_bytes(amount));
    assert(rest.subrange(AMOUNT_LEN as int, (AMOUNT_LEN + NOTE_LEN) as int) == note_field);
}

/// Every tag other than 0 and 1 is rejected as an invalid instruction.
pub proof fn lemma_unknown_tag_rejected(input: Seq<u8>)
    requires
        input.len() > 0,
        input[0] > 1,
    ensures
        decode(input) == Err::<InstructionView, BankError>(BankError::InvalidInstruction),
{
}

/// Every buffer too short to hold a tag and an amount is rejected as an
/// invalid instruction.
pub proof fn lemma_short_buffer_rejected(input: Seq<u8>)
    requires
        input.len() < 1 + AMOUNT_LEN,
    ensures
        decode(input) == Err::<InstructionView, BankError>(BankError::InvalidInstruction),
{
}

impl BankInstruction {
    /// Decodes an instruction buffer.
    pub fn unpack(input: &[u8]) -> (r: Result<Self, ProgramError>)
        ensures
            match decode(input@) {
                Ok(v) => r is Ok && r->Ok_0@ == v,
                Err(e) => r is Err && r->Err_0 == ProgramError::Custom(error_code(e)),
            },
            input@.len() >= 1 + AMOUNT_LEN + NOTE_LEN && input@[0] <= 1 && all_ascii(note_bytes(input@.drop_first()))
                ==> r is Ok && note_of(r->Ok_0@) == ascii_chars(note_bytes(input@.drop_first())),
    {
        if input.len() == 0 {
            return Err(ProgramError::from(BankError::InvalidInstruction));
        }
        let tag = input[0];
        let rest = slice_subrange(input, 1, input.len());
        assert(rest@ == input@.drop_first());
        if tag > 1 {
            return Err(ProgramError::from(BankError::InvalidInstruction));
        }
        let amount = match Self::unpack_amount(rest) {
            Ok(a) => a,
            Err(e) => return Err(e),
        };
        let note = match Self::unpack_note(rest) {
            Ok(n) => n,
            Err(e) => return Err(e),
        };
        if tag == 0 {
            Ok(BankInstruction::Deposit { amount, note })
        } else {
            Ok(BankInstruction::Withdraw { amount, note })
        }
    }

    /// Reads the amount at the start of the bytes after the tag.
    pub fn unpack_amount(input: &[u8]) -> (r: Result<u64, ProgramError>)
        ensures
            match decode_amount(input@) {
                Some(a) => r is Ok && r->Ok_0 == a,
                None => r is Err && r->Err_0 == invalid_instruction(),
            },
    {
        if input.len() < AMOUNT_LEN {
            return Err(ProgramError::from(BankError::InvalidInstruction));
        }
        let field = slice_subrange(input, 0, AMOUNT_LEN);
        assert(field@ == input@.take(AMOUNT_LEN as int));
        Ok(u64_from_le_bytes(field))
    }

    /// Reads the note field after the amount, without its zero padding. A
    /// field whose text is not UTF-8 is rejected as an invalid instruction.
    pub fn unpack_note(input: &[u8]) -> (r: Result<String, ProgramError>)
        ensures
            match decode_note(input@) {
                Some(n) => r is Ok && r->Ok_0@ == n,
                None => r is Err && r->Err_0 == invalid_instruction(),
            },
            input@.len() >= AMOUNT_LEN + NOTE_LEN && all_ascii(note_bytes(input@)) ==> r is Ok && r->Ok_0@
                == ascii_chars(note_bytes(input@)),
    {
        if input.len() < AMOUNT_LEN + NOTE_LEN {
            return Err(ProgramError::from(BankError::InvalidInstruction));
        }
        let ghost field = input@.subrange(AMOUNT_LEN as int, (AMOUNT_LEN + NOTE_LEN) as int);
        let mut end: usize = AMOUNT_LEN + NOTE_LEN;
        while end > AMOUNT_LEN && input[end - 1] == 0
            invariant
                AMOUNT_LEN <= end <= AMOUNT_LEN + NOTE_LEN,
                input@.len() >= AMOUNT_LEN + NOTE_LEN,
                field == input@.subrange(AMOUNT_LEN as int, (AMOUNT_LEN + NOTE_LEN) as int),
                trim_padding(input@.subrange(AMOUNT_LEN as int, end as int)) == trim_padding(field),
            decreases end,
        {
            let ghost s = input@.subrange(AMOUNT_LEN as int, end as int);
            assert(s.drop_last() == input@.subrange(AMOUNT_LEN as int, end - 1));
            end = end - 1;
        }
        let mut bytes: Vec<u8> = Vec::new();
        let mut i: usize = AMOUNT_LEN;
        while i < end
            invariant
                AMOUNT_LEN <= i <= end <= AMOUNT_LEN + NOTE_LEN,
                input@.len() >= AMOUNT_LEN + NOTE_LEN,
                bytes@ == input@.subrange(AMOUNT_LEN as int, i as int),
            decreases end - i,
        {
            bytes.push(input[i]);
            i = i + 1;
        }
        assert(bytes@ == trim_padding(field));
        match text_from_utf8(bytes) {
            Some(note) => Ok(note),
            None => Err(ProgramError::from(BankError::InvalidInstruction)),
        }
    }
}

} // verus!
