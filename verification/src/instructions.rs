use crate::accounts::{CompleteTask, CreateTask, Initialize, Slot};
use crate::error::EscrowError;
use crate::state::{TaskEscrow, TASK_ESCROW_SPACE};
use vstd::prelude::*;

verus! {

/// What `create_task` answers on `ctx`. An occupied slot is a conflict
/// whoever asks; on a vacant one the caller has to have signed. The amount
/// has no say.
pub open spec fn create_task_result(ctx: CreateTask) -> Result<(), EscrowError> {
    if ctx.task_escrow.record is Some {
        Err(EscrowError::AllocationConflict)
    } else if !ctx.depositor.is_signer {
        Err(EscrowError::InsufficientAuthorization)
    } else {
        Ok(())
    }
}

/// The accounts as `create_task` leaves them: on success the slot holds the
/// new open record, otherwise nothing has changed.
pub open spec fn create_task_effect(ctx: CreateTask, amount: u64) -> CreateTask {
    if create_task_result(ctx) is Ok {
        CreateTask {
            task_escrow: Slot {
                record: Some(TaskEscrow::opened(ctx.depositor.key, ctx.recipient, amount)),
            },
            ..ctx
        }
    } else {
        ctx
    }
}

/// What `complete_task` answers on `ctx`.
pub open spec fn complete_task_result(ctx: CompleteTask) -> Result<(), EscrowError> {
    if ctx.task_escrow.record is Some {
        Ok(())
    } else {
        Err(EscrowError::RecordNotFound)
    }
}

/// The accounts as `complete_task` leaves them: a record that is there has
/// its completion recorded, a vacant slot stays vacant.
pub open spec fn complete_task_effect(ctx: CompleteTask) -> CompleteTask {
    match ctx.task_escrow.record {
        Some(task) => CompleteTask { task_escrow: Slot { record: Some(task.completed()) } },
        None => ctx,
    }
}

/// Opens a task: writes into the vacant slot `ctx.task_escrow` a record with
/// the caller as depositor, `ctx.recipient` as recipient, `amount` as given
/// and no completion recorded. The new record is then found in that slot,
/// which from then on takes up `TASK_ESCROW_SPACE` bytes.
///
/// Fails with `AllocationConflict` if the slot already holds a record, and
/// with `InsufficientAuthorization` if the slot is vacant and the caller has
/// not signed. A failed call changes nothing. Every `amount` is taken.
pub fn create_task(ctx: &mut CreateTask, amount: u64) -> (res: Result<(), EscrowError>)
    ensures
        res == create_task_result(*old(ctx)),
        *final(ctx) == create_task_effect(*old(ctx), amount),
        res is Ok <==> old(ctx).task_escrow.record is None && old(ctx).depositor.is_signer,
        res is Ok ==> final(ctx).task_escrow.record == Some(
            TaskEscrow::opened(old(ctx).depositor.key, old(ctx).recipient, amount),
        ),
        res is Ok ==> final(ctx).task_escrow.space() == TASK_ESCROW_SPACE,
        res is Err ==> *final(ctx) == *old(ctx),
{
    if ctx.task_escrow.record.is_some() {
        return Err(EscrowError::AllocationConflict);
    }
    if !ctx.depositor.is_signer {
        return Err(EscrowError::InsufficientAuthorization);
    }
    ctx.task_escrow.record = Some(
        TaskEscrow {
            depositor: ctx.depositor.key,
            recipient: ctx.recipient,
            amount,
            is_completed: false,
        },
    );
    Ok(())
}

/// Records the completion of the task in `ctx.task_escrow`. Whoever holds
/// the slot may do so, and doing so again is no error: the record stays
/// completed, and its depositor, recipient and amount stay as they were.
///
/// Fails with `RecordNotFound` if the slot holds no record, and then changes
/// nothing.
pub fn complete_task(ctx: &mut CompleteTask) -> (res: Result<(), EscrowError>)
    ensures
        res == complete_task_result(*old(ctx)),
        *final(ctx) == complete_task_effect(*old(ctx)),
        res is Ok <==> old(ctx).task_escrow.record is Some,
        res is Ok ==> final(ctx).task_escrow.record == Some(
            old(ctx).task_escrow.record->0.completed(),
        ),
        res is Err ==> res == Err::<(), EscrowError>(EscrowError::RecordNotFound) && *final(ctx)
            == *old(ctx),
{
    match ctx.task_escrow.record {
        Some(task) => {
            ctx.task_escrow.record = Some(
                TaskEscrow {
                    depositor: task.depositor,
                    recipient: task.recipient,
                    amount: task.amount,
                    is_completed: true,
                },
            );
            Ok(())
        },
        None => Err(EscrowError::RecordNotFound),
    }
}

/// The handshake with the host: always succeeds. It is handed no slot, so
/// no record can change under it.
pub fn initialize(_ctx: &Initialize) -> (res: Result<(), EscrowError>)
    ensures
        res == Ok::<(), EscrowError>(()),
{
    Ok(())
}

} // verus!
