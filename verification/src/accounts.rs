use crate::state::{TaskEscrow, TASK_ESCROW_SPACE};
use anchor_lang::prelude::Pubkey;
use vstd::prelude::*;

verus! {

/// The party on whose behalf an operation runs: the identity it claims, and
/// whether the host found that identity's signature over the operation.
#[derive(Clone, Copy, Debug, PartialEq, Eq)]
pub struct Caller {
    pub key: Pubkey,
    pub is_signer: bool,
}

/// One storage slot of the host's record store, as the host resolved it for
/// an operation: vacant, or holding a task record.
#[derive(Clone, Copy, Debug, PartialEq, Eq)]
pub struct Slot {
    pub record: Option<TaskEscrow>,
}

impl Slot {
    /// Bytes that the slot takes up in the store: none while it is vacant,
    /// the host's header and the payload once it holds a record.
    pub open spec fn space(self) -> nat {
        if self.record is Some {
            TASK_ESCROW_SPACE as nat
        } else {
            0
        }
    }

    /// A slot that holds nothing.
    pub fn vacant() -> (slot: Slot)
        ensures
            slot.record is None,
    {
        Slot { record: None }
    }

    /// A slot that holds `record`.
    pub fn holding(record: TaskEscrow) -> (slot: Slot)
        ensures
            slot.record == Some(record),
    {
        Slot { record: Some(record) }
    }

    /// The record in the slot, if there is one.
    pub fn lookup(&self) -> (found: Option<TaskEscrow>)
        ensures
            found == self.record,
    {
        self.record
    }

    /// Bytes that the slot takes up in the store.
    pub fn reserved_space(&self) -> (bytes: usize)
        ensures
            bytes == self.space(),
    {
        if self.record.is_some() {
            TASK_ESCROW_SPACE
        } else {
            0
        }
    }
}

/// What `create_task` works on: the slot for the new record, the caller who
/// acts as depositor and has to have signed, and the recipient, of whom no
/// consent is asked.
#[derive(Clone, Copy, Debug, PartialEq, Eq)]
pub struct CreateTask {
    pub task_escrow: Slot,
    pub depositor: Caller,
    pub recipient: Pubkey,
}

/// What `complete_task` works on: the slot of the task to complete. No
/// party is named, for none is asked to sign.
#[derive(Clone, Copy, Debug, PartialEq, Eq)]
pub struct CompleteTask {
    pub task_escrow: Slot,
}

/// What `initialize` works on: nothing.
#[derive(Clone, Copy, Debug, PartialEq, Eq, Structural)]
pub struct Initialize {}

} // verus!
