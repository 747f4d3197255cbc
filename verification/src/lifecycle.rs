//! What holds of a task record over its whole life, whichever operations
//! run on its slot and in whatever order.

use crate::accounts::{Caller, CompleteTask, CreateTask, Slot};
use crate::error::EscrowError;
use crate::instructions::{
    complete_task_effect, complete_task_result, create_task_effect, create_task_result,
};
use crate::state::{TaskEscrow, TaskState};
use anchor_lang::prelude::Pubkey;
use vstd::prelude::*;

verus! {

/// Creation in a vacant slot by a caller who signed succeeds, whatever the
/// amount, and a lookup right after it finds an open record with exactly
/// the caller as depositor and the recipient and amount that were given.
pub proof fn lemma_created_task_is_found(ctx: CreateTask, amount: u64)
    requires
        ctx.task_escrow.record is None,
        ctx.depositor.is_signer,
    ensures
        create_task_result(ctx) == Ok::<(), EscrowError>(()),
        create_task_effect(ctx, amount).task_escrow.record == Some(
            TaskEscrow {
                depositor: ctx.depositor.key,
                recipient: ctx.recipient,
                amount,
                is_completed: false,
            },
        ),
{
}

/// After a creation that succeeded, every further creation on the same slot
/// fails with `AllocationConflict`, whoever asks and with whatever recipient
/// and amount, and the slot still holds the record exactly as the first
/// creation wrote it.
pub proof fn lemma_second_creation_conflicts(
    first: CreateTask,
    amount: u64,
    second: CreateTask,
    second_amount: u64,
)
    requires
        create_task_result(first) is Ok,
        second.task_escrow == create_task_effect(first, amount).task_escrow,
    ensures
        create_task_result(second) == Err::<(), EscrowError>(EscrowError::AllocationConflict),
        create_task_effect(second, second_amount).task_escrow.record == Some(
            TaskEscrow::opened(first.depositor.key, first.recipient, amount),
        ),
{
}

/// Completion of a task that is there succeeds and leaves it completed with
/// its depositor, recipient and amount untouched; completing it once more
/// succeeds again and changes nothing further.
pub proof fn lemma_completion_is_idempotent(ctx: CompleteTask)
    requires
        ctx.task_escrow.record is Some,
    ensures
        complete_task_result(ctx) == Ok::<(), EscrowError>(()),
        complete_task_effect(ctx).task_escrow.record is Some,
        complete_task_effect(ctx).task_escrow.record->0.state() == TaskState::Completed,
        complete_task_effect(ctx).task_escrow.record->0.same_terms(ctx.task_escrow.record->0),
        complete_task_result(complete_task_effect(ctx)) == Ok::<(), EscrowError>(()),
        complete_task_effect(complete_task_effect(ctx)) == complete_task_effect(ctx),
{
}

/// Completion through a handle that resolves to no record fails with
/// `RecordNotFound` and brings no record about.
pub proof fn lemma_missing_task_is_reported(ctx: CompleteTask)
    requires
        ctx.task_escrow.record is None,
    ensures
        complete_task_result(ctx) == Err::<(), EscrowError>(EscrowError::RecordNotFound),
        complete_task_effect(ctx) == ctx,
{
}

/// A record, once written, stays for good, and creation never touches it:
/// whatever `create_task` is asked on its slot, the record afterwards is the
/// very same.
pub proof fn lemma_creation_keeps_record(ctx: CreateTask, amount: u64)
    requires
        ctx.task_escrow.record is Some,
    ensures
        create_task_effect(ctx, amount).task_escrow.record == ctx.task_escrow.record,
{
}

/// A record only ever moves forward under completion: depositor, recipient
/// and amount stay as they were set at creation, a completion once recorded
/// is never taken back, and a completed record does not change at all.
pub proof fn lemma_completion_moves_forward(ctx: CompleteTask)
    requires
        ctx.task_escrow.record is Some,
    ensures
        complete_task_effect(ctx).task_escrow.record is Some,
        ctx.task_escrow.record->0.leads_to(complete_task_effect(ctx).task_escrow.record->0),
        ctx.task_escrow.record->0.is_completed ==> complete_task_effect(ctx).task_escrow.record
            == ctx.task_escrow.record,
{
}

/// One run of an entry point on a slot, as a value: which one ran, and what
/// it was handed beside the slot.
pub enum Operation {
    Create { depositor: Caller, recipient: Pubkey, amount: u64 },
    Complete,
    Handshake,
}

/// The slot after `op` has run on it, whether `op` succeeded or not. The
/// handshake is handed no slot and leaves every slot as it is.
pub open spec fn slot_after(slot: Slot, op: Operation) -> Slot {
    match op {
        Operation::Create { depositor, recipient, amount } => create_task_effect(
            CreateTask { task_escrow: slot, depositor, recipient },
            amount,
        ).task_escrow,
        Operation::Complete => complete_task_effect(CompleteTask { task_escrow: slot }).task_escrow,
        Operation::Handshake => slot,
    }
}

/// The slot after all of `ops` have run on it, the first of them first.
pub open spec fn slot_after_all(slot: Slot, ops: Seq<Operation>) -> Slot
    decreases ops.len(),
{
    if ops.len() == 0 {
        slot
    } else {
        slot_after(slot_after_all(slot, ops.drop_last()), ops.last())
    }
}

/// A record comes into being in one way only: by a creation whose caller
/// signed, and then as an open record with that caller as depositor and the
/// recipient and amount of that creation.
pub proof fn lemma_record_begins_open(slot: Slot, op: Operation)
    requires
        slot.record is None,
        slot_after(slot, op).record is Some,
    ensures
        op is Create,
        op->depositor.is_signer,
        slot_after(slot, op).record == Some(
            TaskEscrow::opened(op->depositor.key, op->recipient, op->amount),
        ),
{
}

/// Whatever operations run on an occupied slot, in whatever order and
/// whether they succeed or fail, the slot stays occupied, the record keeps
/// the depositor, recipient and amount it was created with, and a
/// completion once recorded stays recorded.
pub proof fn lemma_history_moves_forward(slot: Slot, ops: Seq<Operation>)
    requires
        slot.record is Some,
    ensures
        slot_after_all(slot, ops).record is Some,
        slot.record->0.leads_to(slot_after_all(slot, ops).record->0),
        slot.record->0.is_completed ==> slot_after_all(slot, ops) == slot,
    decreases ops.len(),
{
    if ops.len() > 0 {
        lemma_history_moves_forward(slot, ops.drop_last());
    }
}

} // verus!
