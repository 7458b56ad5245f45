//! Transition processor: validates the record list presented with a decoded
//! instruction and performs the single associated mutation of the target
//! record's data region. It is the only component that touches persistent
//! state.

use vstd::prelude::*;

use crate::instruction::CounterInstruction;
use crate::instruction::DecodeError;
use crate::instruction::decode;
use crate::instruction::spec_decode;
use crate::state::Address;
use crate::state::Counter;
use crate::state::Record;
use crate::state::RecordModel;
use crate::state::records_view;
use crate::state::reserved_address;
use crate::state::spec_reserved_address;
use crate::state::spec_u32_from_le;
use crate::state::spec_u32_to_le;
use crate::state::lemma_u32_le_round_trip;

verus! {

/// Why an invocation failed. Every error aborts the invocation with the
/// record list untouched.
#[derive(Clone, Copy, Debug, PartialEq, Eq, Structural)]
pub enum ProcessingError {
    /// Fewer records were supplied than the instruction requires.
    MissingAccount,
    /// The target record lacks the writable flag.
    NotWritable,
    /// The authority record lacks the authorized flag.
    Unauthorized,
    /// The third record of an initialization is not the reserved platform
    /// address.
    WrongReservedAddress,
    /// The target record's data region does not decode as a counter of the
    /// expected fixed size.
    MalformedPayload,
    /// The instruction buffer itself failed to decode.
    DecodeFailure(DecodeError),
}

/// The successor of a counter value. The 32-bit boundary wraps around to
/// zero: a deliberate, documented choice, so that increments are total.
pub open spec fn spec_next_count(n: u32) -> u32 {
    if n == u32::MAX {
        0
    } else {
        (n + 1) as u32
    }
}

/// The outcome of `Initialize` on a record list: checks are made in order
/// (arity, writable target, authorized authority, reserved address), and on
/// success the target's data region becomes a fresh zero counter.
pub open spec fn spec_initialize_records(rs: Seq<RecordModel>) -> Result<
    Seq<RecordModel>,
    ProcessingError,
> {
    if rs.len() < 3 {
        Err(ProcessingError::MissingAccount)
    } else if !rs[0].is_writable {
        Err(ProcessingError::NotWritable)
    } else if !rs[1].is_authorized {
        Err(ProcessingError::Unauthorized)
    } else if rs[2].address != spec_reserved_address() {
        Err(ProcessingError::WrongReservedAddress)
    } else {
        Ok(
            rs.update(
                0,
                RecordModel {
                    address: rs[0].address,
                    is_writable: rs[0].is_writable,
                    is_authorized: rs[0].is_authorized,
                    data: spec_u32_to_le(0),
                },
            ),
        )
    }
}

/// The outcome of `Increment` on a record list: checks are made in order
/// (arity, writable target, authorized authority, well-formed payload), and
/// on success the target's data region is re-encoded with the successor
/// count.
pub open spec fn spec_increment_records(rs: Seq<RecordModel>) -> Result<
    Seq<RecordModel>,
    ProcessingError,
> {
    if rs.len() < 2 {
        Err(ProcessingError::MissingAccount)
    } else if !rs[0].is_writable {
        Err(ProcessingError::NotWritable)
    } else if !rs[1].is_authorized {
        Err(ProcessingError::Unauthorized)
    } else if rs[0].data.len() != 4 {
        Err(ProcessingError::MalformedPayload)
    } else {
        Ok(
            rs.update(
                0,
                RecordModel {
                    address: rs[0].address,
                    is_writable: rs[0].is_writable,
                    is_authorized: rs[0].is_authorized,
                    data: spec_u32_to_le(spec_next_count(spec_u32_from_le(rs[0].data))),
                },
            ),
        )
    }
}

/// The outcome of one whole invocation: decode the instruction buffer, then
/// dispatch to the variant's transition.
pub open spec fn spec_process(rs: Seq<RecordModel>, bytes: Seq<u8>) -> Result<
    Seq<RecordModel>,
    ProcessingError,
> {
    match spec_decode(bytes) {
        Err(e) => Err(ProcessingError::DecodeFailure(e)),
        Ok(CounterInstruction::Initialize) => spec_initialize_records(rs),
        Ok(CounterInstruction::Increment) => spec_increment_records(rs),
    }
}

proof fn lemma_records_view_update(rs: Seq<Record>, i: int, r: Record)
    requires
        0 <= i < rs.len(),
    ensures
        records_view(rs.update(i, r)) == records_view(rs).update(i, r@),
{
    assert(records_view(rs.update(i, r)) =~= records_view(rs).update(i, r@));
}

/// Lay a fresh zero counter out in the first record's data region, after
/// checking that three records were supplied, the target is writable, the
/// authority is authorized, and the third record carries the reserved
/// platform address. On failure the record list is untouched.
pub fn process_initialize(accounts: &mut Vec<Record>) -> (result: Result<(), ProcessingError>)
    ensures
        ({
            let outcome = spec_initialize_records(records_view(old(accounts)@));
            match result {
                Ok(()) => outcome == Ok::<Seq<RecordModel>, ProcessingError>(
                    records_view(final(accounts)@),
                ),
                Err(e) => outcome == Err::<Seq<RecordModel>, ProcessingError>(e)
                    && final(accounts)@ == old(accounts)@,
            }
        }),
{
    if accounts.len() < 3 {
        return Err(ProcessingError::MissingAccount);
    }
    if !accounts[0].is_writable {
        return Err(ProcessingError::NotWritable);
    }
    if !accounts[1].is_authorized {
        return Err(ProcessingError::Unauthorized);
    }
    if accounts[2].address != reserved_address() {
        return Err(ProcessingError::WrongReservedAddress);
    }
    let fresh = Counter { count: 0 };
    let target = Record {
        address: accounts[0].address,
        is_writable: accounts[0].is_writable,
        is_authorized: accounts[0].is_authorized,
        data: fresh.to_bytes(),
    };
    proof {
        lemma_records_view_update(old(accounts)@, 0, target);
    }
    accounts.set(0, target);
    Ok(())
}

/// Decode the counter held in the first record's data region, increment it,
/// and write it back in place, after checking that two records were
/// supplied, the target is writable, the authority is authorized, and the
/// data region is a well-formed counter. On failure the record list is
/// untouched.
pub fn process_increment(accounts: &mut Vec<Record>) -> (result: Result<(), ProcessingError>)
    ensures
        ({
            let outcome = spec_increment_records(records_view(old(accounts)@));
            match result {
                Ok(()) => outcome == Ok::<Seq<RecordModel>, ProcessingError>(
                    records_view(final(accounts)@),
                ),
                Err(e) => outcome == Err::<Seq<RecordModel>, ProcessingError>(e)
                    && final(accounts)@ == old(accounts)@,
            }
        }),
{
    if accounts.len() < 2 {
        return Err(ProcessingError::MissingAccount);
    }
    if !accounts[0].is_writable {
        return Err(ProcessingError::NotWritable);
    }
    if !accounts[1].is_authorized {
        return Err(ProcessingError::Unauthorized);
    }
    let counter = match Counter::from_bytes(accounts[0].data.as_slice()) {
        Some(c) => c,
        None => {
            return Err(ProcessingError::MalformedPayload);
        },
    };
    let next = Counter {
        count: if counter.count == u32::MAX {
            0
        } else {
            counter.count + 1
        },
    };
    let target = Record {
        address: accounts[0].address,
        is_writable: accounts[0].is_writable,
        is_authorized: accounts[0].is_authorized,
        data: next.to_bytes(),
    };
    proof {
        lemma_records_view_update(old(accounts)@, 0, target);
    }
    accounts.set(0, target);
    Ok(())
}

/// The dispatch entry point exposed to the host: decode the instruction
/// buffer and run the variant's transition against the supplied record
/// list. `program_id` is part of the host calling convention; current logic
/// consumes nothing from it. Exactly the outcomes of [`spec_process`] are
/// produced, and on every error the record list is untouched.
pub fn process_instruction(
    _program_id: &Address,
    accounts: &mut Vec<Record>,
    instruction_data: &[u8],
) -> (result: Result<(), ProcessingError>)
    ensures
        ({
            let outcome = spec_process(records_view(old(accounts)@), instruction_data@);
            match result {
                Ok(()) => outcome == Ok::<Seq<RecordModel>, ProcessingError>(
                    records_view(final(accounts)@),
                ),
                Err(e) => outcome == Err::<Seq<RecordModel>, ProcessingError>(e)
                    && final(accounts)@ == old(accounts)@,
            }
        }),
{
    let instr = match decode(instruction_data) {
        Ok(i) => i,
        Err(e) => {
            return Err(ProcessingError::DecodeFailure(e));
        },
    };
    match instr {
        CounterInstruction::Initialize => process_initialize(accounts),
        CounterInstruction::Increment => process_increment(accounts),
    }
}

/// Increments are not idempotent: a successful increment observably changes
/// the target's data region, and two successive successful increments raise
/// the count by exactly two. Stated away from the 32-bit boundary, where
/// the count instead wraps to zero.
pub proof fn lemma_double_increment(rs: Seq<RecordModel>, n: u32)
    requires
        rs.len() >= 2,
        rs[0].is_writable,
        rs[1].is_authorized,
        rs[0].data == spec_u32_to_le(n),
        n + 2 <= u32::MAX,
    ensures
        ({
            let once = spec_increment_records(rs);
            once is Ok && {
                let rs1 = once->Ok_0;
                let twice = spec_increment_records(rs1);
                rs1[0].data != rs[0].data && twice is Ok && spec_u32_from_le(
                    twice->Ok_0[0].data,
                ) == n + 2
            }
        }),
{
    lemma_u32_le_round_trip(n);
    lemma_u32_le_round_trip((n + 1) as u32);
    lemma_u32_le_round_trip((n + 2) as u32);
}

} // verus!
