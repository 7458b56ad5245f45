//! Instruction codec: the lossless, deterministic mapping between an
//! instruction value and its canonical byte encoding, plus the client-side
//! builders that assemble a complete instruction message for the host.

use vstd::prelude::*;

use crate::state::Address;
use crate::state::reserved_address;
use crate::state::spec_reserved_address;

verus! {

/// A tagged request against a counter-bearing record. The encoding is a
/// single discriminant byte with no payload.
#[derive(Clone, Copy, Debug, PartialEq, Eq, Structural)]
pub enum CounterInstruction {
    /// Initialize a new counter.
    ///
    /// Records expected:
    /// 0. `[writable]` the record to lay the counter out in
    /// 1. `[authorized]` the authority over the counter
    /// 2. the reserved platform allocation address
    Initialize,
    /// Increment the counter.
    ///
    /// Records expected:
    /// 0. `[writable]` the record holding the counter
    /// 1. `[authorized]` the authority allowed to increment it
    Increment,
}

/// Why an instruction buffer failed to decode.
#[derive(Clone, Copy, Debug, PartialEq, Eq, Structural)]
pub enum DecodeError {
    /// The leading byte matches no known discriminant.
    UnknownVariant,
    /// The buffer is empty.
    Truncated,
    /// Bytes follow the discriminant, which carries no payload.
    TrailingData,
}

/// The canonical encoding of an instruction: one discriminant byte.
pub open spec fn spec_encode(i: CounterInstruction) -> Seq<u8> {
    match i {
        CounterInstruction::Initialize => seq![0u8],
        CounterInstruction::Increment => seq![1u8],
    }
}

/// The instruction denoted by a byte buffer, or the reason it is rejected.
/// An empty buffer is truncated; a leading byte other than a known
/// discriminant is an unknown variant; anything after the discriminant is
/// trailing data.
pub open spec fn spec_decode(bytes: Seq<u8>) -> Result<CounterInstruction, DecodeError> {
    if bytes.len() == 0 {
        Err(DecodeError::Truncated)
    } else if bytes[0] == 0 {
        if bytes.len() == 1 {
            Ok(CounterInstruction::Initialize)
        } else {
            Err(DecodeError::TrailingData)
        }
    } else if bytes[0] == 1 {
        if bytes.len() == 1 {
            Ok(CounterInstruction::Increment)
        } else {
            Err(DecodeError::TrailingData)
        }
    } else {
        Err(DecodeError::UnknownVariant)
    }
}

/// Encode an instruction into its canonical wire form. Total: every
/// instruction encodes, to exactly one byte.
pub fn encode(i: CounterInstruction) -> (r: Vec<u8>)
    ensures
        r@ == spec_encode(i),
{
    let mut r: Vec<u8> = Vec::new();
    match i {
        CounterInstruction::Initialize => r.push(0u8),
        CounterInstruction::Increment => r.push(1u8),
    }
    proof {
        assert(r@ =~= spec_encode(i));
    }
    r
}

/// Decode an instruction from an untrusted byte buffer, strictly: unknown
/// discriminants and trailing bytes are rejected rather than ignored.
pub fn decode(bytes: &[u8]) -> (r: Result<CounterInstruction, DecodeError>)
    ensures
        r == spec_decode(bytes@),
{
    if bytes.len() == 0 {
        return Err(DecodeError::Truncated);
    }
    let tag = bytes[0];
    let instr = if tag == 0 {
        CounterInstruction::Initialize
    } else if tag == 1 {
        CounterInstruction::Increment
    } else {
        return Err(DecodeError::UnknownVariant);
    };
    if bytes.len() > 1 {
        return Err(DecodeError::TrailingData);
    }
    Ok(instr)
}

/// Round-trip law: decoding the canonical encoding of any instruction
/// yields that instruction back.
pub proof fn lemma_instruction_round_trip(x: CounterInstruction)
    ensures
        spec_decode(spec_encode(x)) == Ok::<CounterInstruction, DecodeError>(x),
{
}

/// A reference to a record within an instruction message, with the
/// capability flags the host is asked to confer on it.
#[derive(Clone, Copy, Debug, PartialEq, Eq, Structural)]
pub struct AccountMeta {
    pub address: Address,
    pub is_writable: bool,
    pub is_authorized: bool,
}

/// A complete instruction message for the host: the target processor, the
/// ordered record references with their capability flags, and the encoded
/// instruction bytes.
pub struct InstructionMessage {
    pub program_id: Address,
    pub accounts: Vec<AccountMeta>,
    pub data: Vec<u8>,
}

/// Build the instruction message that initializes a counter record:
/// the target record writable, the authority authorized, and the reserved
/// platform address in third position.
pub fn initialize(program_id: &Address, counter: &Address, authority: &Address) -> (r:
    InstructionMessage)
    ensures
        r.program_id == *program_id,
        r.data@ == spec_encode(CounterInstruction::Initialize),
        r.accounts@ == seq![
            AccountMeta { address: *counter, is_writable: true, is_authorized: false },
            AccountMeta { address: *authority, is_writable: false, is_authorized: true },
            AccountMeta {
                address: spec_reserved_address(),
                is_writable: false,
                is_authorized: false,
            },
        ],
{
    let data = encode(CounterInstruction::Initialize);
    let mut accounts: Vec<AccountMeta> = Vec::new();
    accounts.push(AccountMeta { address: *counter, is_writable: true, is_authorized: false });
    accounts.push(AccountMeta { address: *authority, is_writable: false, is_authorized: true });
    accounts.push(
        AccountMeta { address: reserved_address(), is_writable: false, is_authorized: false },
    );
    proof {
        assert(accounts@ =~= seq![
            AccountMeta { address: *counter, is_writable: true, is_authorized: false },
            AccountMeta { address: *authority, is_writable: false, is_authorized: true },
            AccountMeta {
                address: spec_reserved_address(),
                is_writable: false,
                is_authorized: false,
            },
        ]);
    }
    InstructionMessage { program_id: *program_id, accounts, data }
}

/// Build the instruction message that increments a counter record: the
/// target record writable and the authority authorized.
pub fn increment(program_id: &Address, counter: &Address, authority: &Address) -> (r:
    InstructionMessage)
    ensures
        r.program_id == *program_id,
        r.data@ == spec_encode(CounterInstruction::Increment),
        r.accounts@ == seq![
            AccountMeta { address: *counter, is_writable: true, is_authorized: false },
            AccountMeta { address: *authority, is_writable: false, is_authorized: true },
        ],
{
    let data = encode(CounterInstruction::Increment);
    let mut accounts: Vec<AccountMeta> = Vec::new();
    accounts.push(AccountMeta { address: *counter, is_writable: true, is_authorized: false });
    accounts.push(AccountMeta { address: *authority, is_writable: false, is_authorized: true });
    proof {
        assert(accounts@ =~= seq![
            AccountMeta { address: *counter, is_writable: true, is_authorized: false },
            AccountMeta { address: *authority, is_writable: false, is_authorized: true },
        ]);
    }
    InstructionMessage { program_id: *program_id, accounts, data }
}

} // verus!
