use anchor_lang::prelude::Pubkey;
use vstd::prelude::*;

verus! {

/// Bytes that the host puts in front of a stored record to tell its kind.
pub const DISCRIMINATOR_LEN: usize = 8;

/// Bytes of one identity.
pub const IDENTITY_LEN: usize = 32;

/// Bytes of the amount.
pub const AMOUNT_LEN: usize = 8;

/// Bytes of the completion flag.
pub const FLAG_LEN: usize = 1;

/// Bytes of a stored record's payload: depositor, recipient, amount, flag.
pub const TASK_ESCROW_LEN: usize = IDENTITY_LEN + IDENTITY_LEN + AMOUNT_LEN + FLAG_LEN;

/// Bytes to reserve for a slot when a task is created: the host's header and
/// the payload.
pub const TASK_ESCROW_SPACE: usize = DISCRIMINATOR_LEN + TASK_ESCROW_LEN;

/// The payload is the two identities, the amount and the flag laid end to
/// end, 73 bytes in all, and the space to reserve is 8 bytes more, 81.
pub proof fn lemma_record_layout()
    ensures
        TASK_ESCROW_LEN == 32 + 32 + 8 + 1 == 73,
        TASK_ESCROW_SPACE == 8 + TASK_ESCROW_LEN == 81,
{
}

/// Where a task stands in its life. `Open` is where it starts and
/// `Completed` is where it ends; nothing leads out of `Completed`.
#[derive(Clone, Copy, Debug, PartialEq, Eq, Structural)]
pub enum TaskState {
    Open,
    Completed,
}

/// One escrow task: who opened it, for whom, over what nominal amount, and
/// whether its completion has been recorded.
///
/// The amount is only written down: it is held against no balance and
/// nothing is ever paid out of it.
#[derive(Clone, Copy, Debug, PartialEq, Eq)]
pub struct TaskEscrow {
    pub depositor: Pubkey,
    pub recipient: Pubkey,
    pub amount: u64,
    pub is_completed: bool,
}

impl TaskEscrow {
    /// The record of a task that has just been created.
    pub open spec fn opened(depositor: Pubkey, recipient: Pubkey, amount: u64) -> TaskEscrow {
        TaskEscrow { depositor, recipient, amount, is_completed: false }
    }

    /// This record with its completion recorded.
    pub open spec fn completed(self) -> TaskEscrow {
        TaskEscrow { is_completed: true, ..self }
    }

    /// Where the task stands.
    pub open spec fn state(self) -> TaskState {
        if self.is_completed {
            TaskState::Completed
        } else {
            TaskState::Open
        }
    }

    /// Both records name the same depositor, recipient and amount.
    pub open spec fn same_terms(self, other: TaskEscrow) -> bool {
        &&& self.depositor == other.depositor
        &&& self.recipient == other.recipient
        &&& self.amount == other.amount
    }

    /// `next` is a later stage of this record: the terms are the same, and a
    /// completion once recorded is still recorded.
    pub open spec fn leads_to(self, next: TaskEscrow) -> bool {
        &&& self.same_terms(next)
        &&& self.is_completed ==> next.is_completed
    }

    /// Where the task stands.
    pub fn current_state(&self) -> (s: TaskState)
        ensures
            s == self.state(),
    {
        if self.is_completed {
            TaskState::Completed
        } else {
            TaskState::Open
        }
    }
}

} // verus!
