use fsp_vesting::error::{ErrorKind, VestingError};
use fsp_vesting::instruction::VestingInstruction;
use fsp_vesting::processor::{Invocation, Processor};
use fsp_vesting::pubkey::Pubkey;
use fsp_vesting::state::{Account, Frequency, VestingSchedule};

const START: i64 = 1_600_000_000;

fn key(b: u8) -> Pubkey {
    Pubkey::new(vec![b; 32]).unwrap()
}

fn live_schedule() -> VestingSchedule {
    VestingSchedule {
        is_initialized: true,
        authority: key(1),
        mint: key(2),
        frequency: Frequency::Second,
        start: START,
        duration: 1_000_000,
        vault: None,
    }
}

fn blank_schedule() -> VestingSchedule {
    VestingSchedule {
        is_initialized: false,
        authority: key(0),
        mint: key(0),
        frequency: Frequency::Slot,
        start: 0,
        duration: 0,
        vault: None,
    }
}

fn live_position() -> Account {
    Account {
        is_initialized: true,
        vesting_schedule: key(10),
        owner: key(20),
        mint: key(2),
        amount: 1_000_000,
        claimed: 0,
    }
}

fn blank_position() -> Account {
    Account {
        is_initialized: false,
        vesting_schedule: key(0),
        owner: key(0),
        mint: key(0),
        amount: 0,
        claimed: 0,
    }
}

fn invocation(caller: Pubkey, schedule: VestingSchedule, position: Account) -> Invocation {
    Invocation {
        caller,
        now: START + 250_000,
        schedule_key: key(10),
        schedule,
        position,
        holding_balance: 0,
        vault_balance: 0,
        referencing_positions: 0,
    }
}

#[test]
fn init_writes_every_field() {
    let inv = invocation(key(1), blank_schedule(), blank_position());
    let e = Processor::init_vesting_schedule(
        &inv,
        &key(1),
        &key(2),
        Frequency::Day,
        START,
        86_400,
        &Some(key(3)),
    )
    .unwrap();
    let s = e.schedule.unwrap();
    assert!(s.is_initialized);
    assert!(s.authority == key(1));
    assert!(s.mint == key(2));
    assert_eq!(s.frequency, Frequency::Day);
    assert_eq!(s.start, START);
    assert_eq!(s.duration, 86_400);
    assert!(s.vault.unwrap() == key(3));
    assert!(e.create_vault);
    assert!(e.position.is_none());
    assert_eq!(e.transfer_to_holding, 0);
    assert_eq!(e.transfer_to_owner, 0);
    assert!(!e.close_position && !e.close_schedule);
}

#[test]
fn init_without_vault_requests_none() {
    let inv = invocation(key(1), blank_schedule(), blank_position());
    let e = Processor::init_vesting_schedule(
        &inv,
        &key(1),
        &key(2),
        Frequency::Day,
        START,
        86_400,
        &None,
    )
    .unwrap();
    assert!(!e.create_vault);
    assert!(e.schedule.unwrap().vault.is_none());
}

#[test]
fn init_refuses_initialized_schedule() {
    let inv = invocation(key(1), live_schedule(), blank_position());
    let r = Processor::init_vesting_schedule(
        &inv,
        &key(1),
        &key(2),
        Frequency::Day,
        START,
        86_400,
        &None,
    );
    assert_eq!(r.unwrap_err(), VestingError::AlreadyInitialized);
}

#[test]
fn create_account_preloads_holding() {
    let inv = invocation(key(1), live_schedule(), blank_position());
    let e = Processor::create_account(&inv, &key(20), 5_000).unwrap();
    let p = e.position.unwrap();
    assert!(p.is_initialized);
    assert!(p.vesting_schedule == key(10));
    assert!(p.owner == key(20));
    assert!(p.mint == key(2));
    assert_eq!(p.amount, 5_000);
    assert_eq!(p.claimed, 0);
    // No vault, so the position is pre-loaded with its full allocation.
    assert_eq!(e.transfer_to_holding, 5_000);
}

#[test]
fn create_account_with_vault_skips_preload() {
    let mut schedule = live_schedule();
    schedule.vault = Some(key(3));
    let inv = invocation(key(1), schedule, blank_position());
    let e = Processor::create_account(&inv, &key(20), 5_000).unwrap();
    assert_eq!(e.transfer_to_holding, 0);
}

#[test]
fn create_account_requires_authority() {
    let inv = invocation(key(99), live_schedule(), blank_position());
    let r = Processor::create_account(&inv, &key(20), 5_000);
    assert_eq!(r.unwrap_err(), VestingError::Unauthorized);
}

#[test]
fn create_account_requires_initialized_schedule() {
    let inv = invocation(key(1), blank_schedule(), blank_position());
    let r = Processor::create_account(&inv, &key(20), 5_000);
    assert_eq!(r.unwrap_err(), VestingError::Uninitialized);
}

#[test]
fn create_account_refuses_existing_position() {
    let inv = invocation(key(1), live_schedule(), live_position());
    let r = Processor::create_account(&inv, &key(20), 5_000);
    assert_eq!(r.unwrap_err(), VestingError::AlreadyInitialized);
}

#[test]
fn amend_amount_updates_total() {
    let inv = invocation(key(1), live_schedule(), live_position());
    let e = Processor::amend_amount(&inv, 2_000_000).unwrap();
    let p = e.position.unwrap();
    assert_eq!(p.amount, 2_000_000);
    assert_eq!(p.claimed, 0);
    assert!(p.owner == key(20));
}

#[test]
fn amend_amount_below_claimed_fails() {
    let mut position = live_position();
    position.claimed = 600;
    position.amount = 1_000;
    let inv = invocation(key(1), live_schedule(), position);
    let e = Processor::amend_amount(&inv, 599).unwrap_err();
    // The amendment is refused outright; no clamped or partial update is
    // proposed.
    assert_eq!(e, VestingError::AmountBelowClaimed);
    assert_eq!(e.kind(), ErrorKind::Precondition);
    // The boundary persists nothing on an error, so the position stays as
    // it was.
    assert_eq!(inv.position.claimed, 600);
    assert_eq!(inv.position.amount, 1_000);
}

#[test]
fn amend_amount_checks_mint_and_schedule() {
    let mut position = live_position();
    position.mint = key(77);
    let inv = invocation(key(1), live_schedule(), position);
    assert_eq!(Processor::amend_amount(&inv, 10).unwrap_err(), VestingError::MintMismatch);

    let mut position = live_position();
    position.vesting_schedule = key(77);
    let inv = invocation(key(1), live_schedule(), position);
    assert_eq!(Processor::amend_amount(&inv, 10).unwrap_err(), VestingError::ScheduleMismatch);
}

#[test]
fn amend_schedule_changes_only_supplied_fields() {
    let inv = invocation(key(1), live_schedule(), blank_position());
    let e = Processor::amend_schedule(&inv, &None, &Some(Frequency::Hour), &None).unwrap();
    let s = e.schedule.unwrap();
    assert_eq!(s.frequency, Frequency::Hour);
    assert_eq!(s.start, START);
    assert_eq!(s.duration, 1_000_000);
    assert!(s.authority == key(1));
    assert!(s.is_initialized);
}

#[test]
fn amend_schedule_requires_authority() {
    let inv = invocation(key(20), live_schedule(), blank_position());
    let r = Processor::amend_schedule(&inv, &Some(0), &None, &None);
    assert_eq!(r.unwrap_err(), VestingError::Unauthorized);
}

#[test]
fn claim_pays_what_has_vested() {
    let inv = invocation(key(20), live_schedule(), live_position());
    let e = Processor::claim(&inv).unwrap();
    assert_eq!(e.transfer_to_owner, 250_000);
    let p = e.position.unwrap();
    assert_eq!(p.claimed, 250_000);
    assert_eq!(p.amount, 1_000_000);
}

#[test]
fn claim_twice_at_same_time_fails() {
    let mut position = live_position();
    position.claimed = 250_000;
    let inv = invocation(key(20), live_schedule(), position);
    let r = Processor::claim(&inv);
    assert_eq!(r.unwrap_err(), VestingError::NothingToClaim);
}

#[test]
fn claim_before_start_fails() {
    let mut inv = invocation(key(20), live_schedule(), live_position());
    inv.now = START - 1;
    assert_eq!(Processor::claim(&inv).unwrap_err(), VestingError::NothingToClaim);
}

#[test]
fn claim_is_owner_only() {
    let inv = invocation(key(1), live_schedule(), live_position());
    assert_eq!(Processor::claim(&inv).unwrap_err(), VestingError::Unauthorized);
}

#[test]
fn claim_on_slot_schedule_is_an_arithmetic_error() {
    let mut schedule = live_schedule();
    schedule.frequency = Frequency::Slot;
    let inv = invocation(key(20), schedule, live_position());
    let e = Processor::claim(&inv).unwrap_err();
    assert_eq!(e, VestingError::ArithmeticError);
    assert_eq!(e.kind(), ErrorKind::Arithmetic);
}

#[test]
fn claims_accumulate_to_exactly_the_allocation() {
    let mut position = live_position();
    for step in 1..=4 {
        let mut inv = invocation(key(20), live_schedule(), position.clone());
        inv.now = START + step * 250_000;
        let e = Processor::claim(&inv).unwrap();
        position = e.position.unwrap();
        assert!(position.claimed <= position.amount);
    }
    assert_eq!(position.claimed, 1_000_000);
    // Fully vested and claimed: nothing further at any later time.
    let mut inv = invocation(key(20), live_schedule(), position);
    inv.now = START + 9_000_000;
    assert_eq!(Processor::claim(&inv).unwrap_err(), VestingError::NothingToClaim);
}

#[test]
fn close_account_requires_empty_holding() {
    let mut position = live_position();
    position.claimed = 1_000_000;
    let mut inv = invocation(key(1), live_schedule(), position);
    inv.holding_balance = 1;
    let e = Processor::close_account(&inv).unwrap_err();
    assert_eq!(e, VestingError::NonEmptyHolding);
    assert_eq!(e.kind(), ErrorKind::Precondition);
}

#[test]
fn close_account_with_empty_holding_succeeds() {
    let mut position = live_position();
    position.claimed = 1_000_000;
    let inv = invocation(key(1), live_schedule(), position);
    let e = Processor::close_account(&inv).unwrap();
    assert!(e.close_position);
    assert!(!e.close_schedule);
    assert!(e.schedule.is_none() && e.position.is_none());
}

#[test]
fn close_schedule_refuses_dangling_positions() {
    let mut inv = invocation(key(1), live_schedule(), blank_position());
    inv.referencing_positions = 3;
    assert_eq!(
        Processor::close_vesting_schedule(&inv).unwrap_err(),
        VestingError::DanglingPositions
    );
}

#[test]
fn close_schedule_requires_drained_vault() {
    let mut schedule = live_schedule();
    schedule.vault = Some(key(3));
    let mut inv = invocation(key(1), schedule, blank_position());
    inv.vault_balance = 10;
    assert_eq!(Processor::close_vesting_schedule(&inv).unwrap_err(), VestingError::NonEmptyVault);
    inv.vault_balance = 0;
    let e = Processor::close_vesting_schedule(&inv).unwrap();
    assert!(e.close_schedule);
}

#[test]
fn process_decodes_and_dispatches() {
    let inv = invocation(key(20), live_schedule(), live_position());
    let data = VestingInstruction::Claim.pack();
    let e = Processor::process(&inv, &data).unwrap();
    assert_eq!(e.transfer_to_owner, 250_000);
    assert_eq!(e.position.unwrap().claimed, 250_000);
}

#[test]
fn process_rejects_malformed_bytes() {
    let inv = invocation(key(20), live_schedule(), live_position());
    let e = Processor::process(&inv, &[7]).unwrap_err();
    assert_eq!(e, VestingError::InvalidInstruction);
    assert_eq!(e.kind(), ErrorKind::Decode);
    assert_eq!(e.code(), 0);
}

#[test]
fn process_runs_a_full_lifecycle() {
    // Init the schedule.
    let authority = key(1);
    let inv0 = invocation(authority.clone(), blank_schedule(), blank_position());
    let init = VestingInstruction::InitVestingSchedule {
        authority: key(1),
        mint: key(2),
        schedule: Frequency::Second,
        start: START,
        duration: 1_000_000,
        vault: None,
    };
    let schedule = Processor::process(&inv0, &init.pack()).unwrap().schedule.unwrap();

    // Create a position for the beneficiary.
    let inv1 = invocation(authority.clone(), schedule.clone(), blank_position());
    let create = VestingInstruction::CreateAccount { owner: key(20), amount: 1_000_000 };
    let e1 = Processor::process(&inv1, &create.pack()).unwrap();
    assert_eq!(e1.transfer_to_holding, 1_000_000);
    let position = e1.position.unwrap();

    // Claim a quarter of the way through.
    let inv2 = invocation(key(20), schedule.clone(), position);
    let e2 = Processor::process(&inv2, &VestingInstruction::Claim.pack()).unwrap();
    assert_eq!(e2.transfer_to_owner, 250_000);

    // The amendment that would undercut the claim is refused.
    let inv3 = invocation(authority, schedule, e2.position.unwrap());
    let amend = VestingInstruction::AmendAmount { amount: 1 };
    assert_eq!(
        Processor::process(&inv3, &amend.pack()).unwrap_err(),
        VestingError::AmountBelowClaimed
    );
}
