use vstd::prelude::*;

use crate::actions::{next_action, TurnCommit, NO_ACTION};
use crate::enums::ActionType;
use crate::error::ErrorCode;
use crate::keys::Pubkey;

verus! {

// The host's list of a transaction's instructions, as bytes: the number of
// instructions (u16, little endian), then for each the offset of its entry
// (u16); an entry holds its number of accounts (u16), 33 bytes per account,
// then the 32 bytes of its program's address; the last two bytes of the
// data hold the index of the instruction being executed.

pub open spec fn readable(d: Seq<u8>, off: int, n: int) -> bool {
    0 <= off && off + n <= d.len()
}

pub open spec fn u16_at(d: Seq<u8>, off: int) -> int {
    d[off] + 256 * d[off + 1]
}

/// Instruction `i` of the list is readable and targets program `pid`.
pub open spec fn instruction_targets(d: Seq<u8>, i: int, pid: Seq<u8>) -> bool {
    let at = 2 + 2 * i;
    &&& readable(d, at, 2)
    &&& readable(d, u16_at(d, at), 2)
    &&& readable(d, u16_at(d, at) + 2 + 33 * u16_at(d, u16_at(d, at)), 32)
    &&& d.subrange(
        u16_at(d, at) + 2 + 33 * u16_at(d, u16_at(d, at)),
        u16_at(d, at) + 2 + 33 * u16_at(d, u16_at(d, at)) + 32,
    ) == pid
}

/// Every instruction of the transaction targets program `pid`.
pub open spec fn all_target(d: Seq<u8>, pid: Seq<u8>) -> bool {
    &&& readable(d, 0, 2)
    &&& forall|i: int| 0 <= i < u16_at(d, 0) ==> instruction_targets(d, i, pid)
}

/// Index of the instruction being executed.
pub open spec fn current_index(d: Seq<u8>) -> int {
    u16_at(d, d.len() - 2)
}

pub open spec fn is_last(d: Seq<u8>) -> bool {
    d.len() >= 2 && readable(d, 0, 2) && current_index(d) == u16_at(d, 0) - 1
}

fn read_u16(d: &[u8], off: usize) -> (r: Option<u16>)
    ensures
        readable(d@, off as int, 2) ==> r == Some(u16_at(d@, off as int) as u16),
        !readable(d@, off as int, 2) ==> r is None,
{
    if off >= d.len() || d.len() - off < 2 {
        None
    } else {
        Some(d[off] as u16 + 256 * d[off + 1] as u16)
    }
}

fn program_matches(d: &[u8], off: usize, pid: &Pubkey) -> (r: bool)
    requires
        readable(d@, off as int, 32),
    ensures
        r == (d@.subrange(off as int, off + 32) == pid.bytes@),
{
    let n = d.len();
    let mut j: usize = 0;
    while j < 32
        invariant
            0 <= j <= 32,
            n == d@.len(),
            readable(d@, off as int, 32),
            forall|k: int| 0 <= k < j ==> d@[off + k] == pid.bytes@[k],
        decreases 32 - j,
    {
        if d[off + j] != pid.bytes[j] {
            assert(d@.subrange(off as int, off + 32)[j as int] != pid.bytes@[j as int]);
            return false;
        }
        j = j + 1;
    }
    assert(d@.subrange(off as int, off + 32) =~= pid.bytes@);
    true
}

fn instruction_targets_exec(d: &[u8], i: usize, pid: &Pubkey) -> (r: bool)
    requires
        i < 65536,
    ensures
        r == instruction_targets(d@, i as int, pid.bytes@),
{
    let start = match read_u16(d, 2 + 2 * i) {
        Some(v) => v as usize,
        None => return false,
    };
    let accounts = match read_u16(d, start) {
        Some(v) => v as usize,
        None => return false,
    };
    let at = start + 2 + 33 * accounts;
    if at >= d.len() || d.len() - at < 32 {
        return false;
    }
    program_matches(d, at, pid)
}

/// Whether every instruction of the transaction targets `program_id`; false
/// also when the list cannot be read.
pub fn validate_program_ids(instructions: &[u8], program_id: &Pubkey) -> (r: bool)
    ensures
        r == all_target(instructions@, program_id.bytes@),
{
    let n = match read_u16(instructions, 0) {
        Some(v) => v as usize,
        None => return false,
    };
    let mut i: usize = 0;
    while i < n
        invariant
            0 <= i <= n,
            readable(instructions@, 0, 2),
            n == u16_at(instructions@, 0),
            forall|k: int| 0 <= k < i ==> instruction_targets(instructions@, k, program_id.bytes@),
        decreases n - i,
    {
        if !instruction_targets_exec(instructions, i, program_id) {
            return false;
        }
        i = i + 1;
    }
    true
}

fn current_and_last(d: &[u8]) -> (r: Option<(u16, u16)>)
    ensures
        (d@.len() >= 2 && readable(d@, 0, 2)) ==> r == Some(
            (current_index(d@) as u16, u16_at(d@, 0) as u16),
        ),
        !(d@.len() >= 2 && readable(d@, 0, 2)) ==> r is None,
{
    if d.len() < 2 {
        return None;
    }
    let current = match read_u16(d, d.len() - 2) {
        Some(v) => v,
        None => return None,
    };
    let count = match read_u16(d, 0) {
        Some(v) => v,
        None => return None,
    };
    Some((current, count))
}

/// Checks that the executing instruction is the transaction's last, and
/// that every instruction targets this program, so that nothing can be
/// appended after a sensitive operation.
pub fn validate_is_last_instructions_and_program_ids(instructions: &[u8], program_id: &Pubkey) -> (r: Result<(), ErrorCode>)
    ensures
        (all_target(instructions@, program_id.bytes@) && is_last(instructions@)) ==> r is Ok,
        !(all_target(instructions@, program_id.bytes@) && is_last(instructions@)) ==> r == Err::<(), ErrorCode>(ErrorCode::InvalidInstructionOrdering),
{
    if !validate_program_ids(instructions, program_id) {
        return Err(ErrorCode::InvalidInstructionOrdering);
    }
    match current_and_last(instructions) {
        Some((current, count)) => if count >= 1 && current == count - 1 {
            Ok(())
        } else {
            Err(ErrorCode::InvalidInstructionOrdering)
        },
        None => Err(ErrorCode::InvalidInstructionOrdering),
    }
}

/// The position in the transaction that the next redeem is expected at:
/// its rank in the order ledger, counted from 0.
pub open spec fn expected_position(t: TurnCommit) -> int {
    let o = t.actions.action_order@;
    if next_action(o) == NO_ACTION as int { -1 } else { o[next_action(o)] - 1 }
}

/// Why the redeem of `action` stands where it must not, if it does.
pub open spec fn order_error(d: Seq<u8>, pid: Seq<u8>, tc: Option<TurnCommit>, action: ActionType) -> Option<ErrorCode> {
    if !all_target(d, pid) {
        Some(ErrorCode::InvalidInstructionOrdering)
    } else if tc is None {
        Some(ErrorCode::EmptyTurnCommit)
    } else if d.len() < 2 {
        Some(ErrorCode::InvalidInstructionOrdering)
    } else if action == ActionType::Reward {
        if is_last(d) { None } else { Some(ErrorCode::InvalidInstructionOrdering) }
    } else if current_index(d) == expected_position(tc.unwrap()) || is_last(d) {
        None
    } else {
        Some(ErrorCode::InvalidInstructionOrdering)
    }
}

/// Checks where a redeem stands in its transaction: every instruction must
/// target this program; the reward must come last; any other redeem must
/// stand at the position of its rank in commit order, or last.
pub fn validate_instruction_order_and_program_ids(
    instructions: &[u8],
    program_id: &Pubkey,
    turn_commit: &Option<TurnCommit>,
    action_type: ActionType,
) -> (r: Result<(), ErrorCode>)
    ensures
        match order_error(instructions@, program_id.bytes@, *turn_commit, action_type) {
            Some(e) => r == Err::<(), ErrorCode>(e),
            None => r is Ok,
        },
{
    if !validate_program_ids(instructions, program_id) {
        return Err(ErrorCode::InvalidInstructionOrdering);
    }
    let t = match turn_commit {
        None => return Err(ErrorCode::EmptyTurnCommit),
        Some(t) => t,
    };
    if instructions.len() < 2 {
        return Err(ErrorCode::InvalidInstructionOrdering);
    }
    let (current, count) = match current_and_last(instructions) {
        Some(p) => p,
        None => return Err(ErrorCode::InvalidInstructionOrdering),
    };
    let last = count >= 1 && current == count - 1;
    match action_type {
        ActionType::Reward => if last {
            Ok(())
        } else {
            Err(ErrorCode::InvalidInstructionOrdering)
        },
        _ => {
            let next = t.actions.get_next_action_to_be_executed();
            let expected = next != NO_ACTION && t.actions.action_order[next] >= 1
                && current as u64 == t.actions.action_order[next] as u64 - 1;
            if expected || last {
                Ok(())
            } else {
                Err(ErrorCode::InvalidInstructionOrdering)
            }
        },
    }
}

} // verus!
