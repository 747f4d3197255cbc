//! A minimal escrow-style task registry.
//!
//! A depositor opens a task toward a recipient over a nominal amount, and the
//! task's completion is recorded once and for good. The registry keeps no
//! store of its own and checks no signature itself: each operation is handed
//! the storage slot it works on and what the host found of its caller, and
//! says what becomes of the slot. No value ever moves.

pub mod accounts;
pub mod error;
pub mod identity;
pub mod instructions;
pub mod lifecycle;
pub mod state;

pub use accounts::{Caller, CompleteTask, CreateTask, Initialize, Slot};
pub use error::EscrowError;
pub use instructions::{complete_task, create_task, initialize};
pub use state::{
    TaskEscrow, TaskState, AMOUNT_LEN, DISCRIMINATOR_LEN, FLAG_LEN, IDENTITY_LEN,
    TASK_ESCROW_LEN, TASK_ESCROW_SPACE,
};
