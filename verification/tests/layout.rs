use anchor_lang::prelude::Pubkey;
use kaam_connect::{
    create_task, Caller, CreateTask, Slot, TaskEscrow, AMOUNT_LEN, DISCRIMINATOR_LEN, FLAG_LEN,
    IDENTITY_LEN, TASK_ESCROW_LEN, TASK_ESCROW_SPACE,
};

#[test]
fn record_payload_is_73_bytes() {
    assert_eq!(IDENTITY_LEN, 32);
    assert_eq!(AMOUNT_LEN, 8);
    assert_eq!(FLAG_LEN, 1);
    assert_eq!(TASK_ESCROW_LEN, 73);
}

#[test]
fn reserved_space_covers_header_and_payload() {
    assert_eq!(DISCRIMINATOR_LEN, 8);
    assert_eq!(TASK_ESCROW_SPACE, 81);
    assert_eq!(TASK_ESCROW_SPACE, 8 + 32 + 32 + 8 + 1);
}

#[test]
fn identity_is_as_wide_as_a_public_key() {
    assert_eq!(IDENTITY_LEN, std::mem::size_of::<Pubkey>());
    assert_eq!(IDENTITY_LEN, Pubkey::new_from_array([7; 32]).to_bytes().len());
}

#[test]
fn vacant_slot_takes_no_space() {
    assert_eq!(Slot::vacant().reserved_space(), 0);
}

#[test]
fn occupied_slot_takes_81_bytes() {
    let task = TaskEscrow {
        depositor: Pubkey::new_from_array([1; 32]),
        recipient: Pubkey::new_from_array([2; 32]),
        amount: 5,
        is_completed: false,
    };
    assert_eq!(Slot::holding(task).reserved_space(), 81);
}

#[test]
fn creation_reserves_the_space_of_a_record() {
    let mut ctx = CreateTask {
        task_escrow: Slot::vacant(),
        depositor: Caller { key: Pubkey::new_from_array([1; 32]), is_signer: true },
        recipient: Pubkey::new_from_array([2; 32]),
    };
    assert_eq!(ctx.task_escrow.reserved_space(), 0);
    assert_eq!(create_task(&mut ctx, 5), Ok(()));
    assert_eq!(ctx.task_escrow.reserved_space(), 81);
    assert_eq!(ctx.task_escrow.reserved_space(), TASK_ESCROW_SPACE);
}

#[test]
fn refused_creation_reserves_nothing() {
    let mut ctx = CreateTask {
        task_escrow: Slot::vacant(),
        depositor: Caller { key: Pubkey::new_from_array([1; 32]), is_signer: false },
        recipient: Pubkey::new_from_array([2; 32]),
    };
    assert!(create_task(&mut ctx, 5).is_err());
    assert_eq!(ctx.task_escrow.reserved_space(), 0);
}
