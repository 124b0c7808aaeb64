//! The instruction state machine.
//!
//! Each invocation is a pure function: it takes a snapshot of the decoded
//! records, the caller's verified identity, the current time and the raw
//! instruction bytes, and returns either the complete set of proposed record
//! images and side-effect requests, or an error. All preconditions are
//! validated before anything is computed, so an error path proposes no
//! mutation at all; the boundary that persists bytes commits a success
//! atomically.
//!
//! Policy choices the wire format leaves open, fixed here: a claim that finds
//! nothing claimable fails with [`VestingError::NothingToClaim`] rather than
//! succeed as a no-op; and a position may be closed by the schedule authority
//! whenever its token holding is empty — the core refuses only closures that
//! would strand tokens, and leaves the choice of closing early to the
//! authority.

use vstd::prelude::*;
use crate::error::VestingError;
use crate::instruction::{InstructionV, VestingInstruction, spec_instruction_ok,
    spec_unpack_instruction};
use crate::math::{claimable, spec_claimable, spec_math_defined, lemma_emitted_bounds};
use crate::pubkey::Pubkey;
use crate::state::{Account, AccountV, Frequency, ScheduleV, VestingSchedule, spec_opt_key_view};

verus! {

/// The snapshot of state handed to one invocation of the core.
pub struct Invocation {
    /// The verified identity that signed the request.
    pub caller: Pubkey,
    /// The current Unix timestamp.
    pub now: i64,
    /// The address of the schedule record.
    pub schedule_key: Pubkey,
    /// The decoded schedule record.
    pub schedule: VestingSchedule,
    /// The decoded position record.
    pub position: Account,
    /// Token balance of the position's holding.
    pub holding_balance: u64,
    /// Token balance of the schedule's vault; zero when there is none.
    pub vault_balance: u64,
    /// How many positions still reference the schedule.
    pub referencing_positions: u64,
}

/// The mathematical view of an [`Invocation`].
#[verifier::ext_equal]
pub struct InvocationV {
    pub caller: Seq<u8>,
    pub now: i64,
    pub schedule_key: Seq<u8>,
    pub schedule: ScheduleV,
    pub position: AccountV,
    pub holding_balance: u64,
    pub vault_balance: u64,
    pub referencing_positions: u64,
}

impl View for Invocation {
    type V = InvocationV;

    open spec fn view(&self) -> InvocationV {
        InvocationV {
            caller: self.caller@,
            now: self.now,
            schedule_key: self.schedule_key@,
            schedule: self.schedule@,
            position: self.position@,
            holding_balance: self.holding_balance,
            vault_balance: self.vault_balance,
            referencing_positions: self.referencing_positions,
        }
    }
}

/// Everything one successful invocation proposes: new record images and
/// side-effect requests for the boundary to carry out.
#[derive(Debug)]
pub struct Effects {
    /// New schedule state to persist, if the schedule changed.
    pub schedule: Option<VestingSchedule>,
    /// New position state to persist, if the position changed.
    pub position: Option<Account>,
    /// Tokens to transfer into the position's holding (pre-loading a new
    /// position).
    pub transfer_to_holding: u64,
    /// Tokens to transfer out to the beneficiary (a claim payout).
    pub transfer_to_owner: u64,
    /// Whether a funding vault must be created for the schedule.
    pub create_vault: bool,
    /// Whether the position record is to be deallocated.
    pub close_position: bool,
    /// Whether the schedule record is to be deallocated.
    pub close_schedule: bool,
}

/// The mathematical view of [`Effects`].
#[verifier::ext_equal]
pub struct EffectsV {
    pub schedule: Option<ScheduleV>,
    pub position: Option<AccountV>,
    pub transfer_to_holding: u64,
    pub transfer_to_owner: u64,
    pub create_vault: bool,
    pub close_position: bool,
    pub close_schedule: bool,
}

impl View for Effects {
    type V = EffectsV;

    open spec fn view(&self) -> EffectsV {
        EffectsV {
            schedule: match self.schedule {
                Some(s) => Some(s@),
                None => None,
            },
            position: match self.position {
                Some(p) => Some(p@),
                None => None,
            },
            transfer_to_holding: self.transfer_to_holding,
            transfer_to_owner: self.transfer_to_owner,
            create_vault: self.create_vault,
            close_position: self.close_position,
            close_schedule: self.close_schedule,
        }
    }
}

/// An effects value that proposes nothing.
pub open spec fn spec_no_effects() -> EffectsV {
    EffectsV {
        schedule: None,
        position: None,
        transfer_to_holding: 0,
        transfer_to_owner: 0,
        create_vault: false,
        close_position: false,
        close_schedule: false,
    }
}

/// The view of a handler result.
pub open spec fn spec_result_view(r: Result<Effects, VestingError>) -> Result<
    EffectsV,
    VestingError,
> {
    match r {
        Ok(e) => Ok(e@),
        Err(x) => Err(x),
    }
}

// ---------------------------------------------------------------------------
// The transition relation, one spec function per instruction kind
// ---------------------------------------------------------------------------

/// Initialising a schedule: only legal while the schedule record is still
/// uninitialized; writes every field, marks it initialized, and requests a
/// vault creation when a vault is named.
pub open spec fn spec_init_vesting_schedule(
    inv: InvocationV,
    authority: Seq<u8>,
    mint: Seq<u8>,
    schedule: Frequency,
    start: i64,
    duration: i64,
    vault: Option<Seq<u8>>,
) -> Result<EffectsV, VestingError> {
    if inv.schedule.is_initialized {
        Err(VestingError::AlreadyInitialized)
    } else {
        Ok(
            EffectsV {
                schedule: Some(
                    ScheduleV {
                        is_initialized: true,
                        authority: authority,
                        mint: mint,
                        frequency: schedule,
                        start: start,
                        duration: duration,
                        vault: vault,
                    },
                ),
                create_vault: vault is Some,
                ..spec_no_effects()
            },
        )
    }
}

/// Creating a position: the schedule must be initialized, the position still
/// uninitialized, and the caller must be the schedule authority. The new
/// position references the schedule, copies its mint, and starts with
/// nothing claimed; when positions are pre-loaded (no vault), the full
/// allocation is requested into the position's holding.
pub open spec fn spec_create_account(inv: InvocationV, owner: Seq<u8>, amount: u64) -> Result<
    EffectsV,
    VestingError,
> {
    if !inv.schedule.is_initialized {
        Err(VestingError::Uninitialized)
    } else if inv.position.is_initialized {
        Err(VestingError::AlreadyInitialized)
    } else if inv.caller != inv.schedule.authority {
        Err(VestingError::Unauthorized)
    } else {
        Ok(
            EffectsV {
                position: Some(
                    AccountV {
                        is_initialized: true,
                        vesting_schedule: inv.schedule_key,
                        owner: owner,
                        mint: inv.schedule.mint,
                        amount: amount,
                        claimed: 0,
                    },
                ),
                transfer_to_holding: if inv.schedule.vault is None {
                    amount
                } else {
                    0
                },
                ..spec_no_effects()
            },
        )
    }
}

/// Amending a position's allocation: administrative, so the caller must be
/// the schedule authority, the records must match, and the new total may not
/// undercut what is already claimed — that fails rather than clamps.
pub open spec fn spec_amend_amount(inv: InvocationV, amount: u64) -> Result<
    EffectsV,
    VestingError,
> {
    if !inv.schedule.is_initialized {
        Err(VestingError::Uninitialized)
    } else if !inv.position.is_initialized {
        Err(VestingError::Uninitialized)
    } else if inv.caller != inv.schedule.authority {
        Err(VestingError::Unauthorized)
    } else if inv.position.vesting_schedule != inv.schedule_key {
        Err(VestingError::ScheduleMismatch)
    } else if inv.position.mint != inv.schedule.mint {
        Err(VestingError::MintMismatch)
    } else if amount < inv.position.claimed {
        Err(VestingError::AmountBelowClaimed)
    } else {
        Ok(
            EffectsV {
                position: Some(AccountV { amount: amount, ..inv.position }),
                ..spec_no_effects()
            },
        )
    }
}

/// Amending a schedule: the caller must be the authority; exactly the
/// supplied subset of start, frequency and duration is replaced and every
/// other field is kept.
pub open spec fn spec_amend_schedule(
    inv: InvocationV,
    start: Option<i64>,
    schedule: Option<Frequency>,
    duration: Option<i64>,
) -> Result<EffectsV, VestingError> {
    if !inv.schedule.is_initialized {
        Err(VestingError::Uninitialized)
    } else if inv.caller != inv.schedule.authority {
        Err(VestingError::Unauthorized)
    } else {
        Ok(
            EffectsV {
                schedule: Some(
                    ScheduleV {
                        start: match start {
                            Some(x) => x,
                            None => inv.schedule.start,
                        },
                        frequency: match schedule {
                            Some(f) => f,
                            None => inv.schedule.frequency,
                        },
                        duration: match duration {
                            Some(x) => x,
                            None => inv.schedule.duration,
                        },
                        ..inv.schedule
                    },
                ),
                ..spec_no_effects()
            },
        )
    }
}

/// Claiming: only the beneficiary may claim, the records must match, the
/// emission formula must be defined, and something must actually be
/// claimable — a zero claim is reported as an error, not a silent no-op.
/// The claimable tokens are requested out and recorded as claimed.
pub open spec fn spec_claim(inv: InvocationV) -> Result<EffectsV, VestingError> {
    if !inv.schedule.is_initialized {
        Err(VestingError::Uninitialized)
    } else if !inv.position.is_initialized {
        Err(VestingError::Uninitialized)
    } else if inv.caller != inv.position.owner {
        Err(VestingError::Unauthorized)
    } else if inv.position.vesting_schedule != inv.schedule_key {
        Err(VestingError::ScheduleMismatch)
    } else if inv.position.mint != inv.schedule.mint {
        Err(VestingError::MintMismatch)
    } else if !spec_math_defined(inv.schedule.duration, inv.schedule.frequency) {
        Err(VestingError::ArithmeticError)
    } else {
        let c = spec_claimable(
            inv.now,
            inv.schedule.start,
            inv.schedule.duration,
            inv.schedule.frequency,
            inv.position.amount,
            inv.position.claimed,
        );
        if c == 0 {
            Err(VestingError::NothingToClaim)
        } else {
            Ok(
                EffectsV {
                    position: Some(
                        AccountV { claimed: (inv.position.claimed + c) as u64, ..inv.position },
                    ),
                    transfer_to_owner: c as u64,
                    ..spec_no_effects()
                },
            )
        }
    }
}

/// Closing a position: administrative, records must match, and the
/// position's token holding must be empty so no funds are stranded.
pub open spec fn spec_close_account(inv: InvocationV) -> Result<EffectsV, VestingError> {
    if !inv.schedule.is_initialized {
        Err(VestingError::Uninitialized)
    } else if !inv.position.is_initialized {
        Err(VestingError::Uninitialized)
    } else if inv.caller != inv.schedule.authority {
        Err(VestingError::Unauthorized)
    } else if inv.position.vesting_schedule != inv.schedule_key {
        Err(VestingError::ScheduleMismatch)
    } else if inv.position.mint != inv.schedule.mint {
        Err(VestingError::MintMismatch)
    } else if inv.holding_balance != 0 {
        Err(VestingError::NonEmptyHolding)
    } else {
        Ok(EffectsV { close_position: true, ..spec_no_effects() })
    }
}

/// Closing a schedule: administrative; no position may reference it any
/// more, and a vault, when present, must be drained first.
pub open spec fn spec_close_vesting_schedule(inv: InvocationV) -> Result<EffectsV, VestingError> {
    if !inv.schedule.is_initialized {
        Err(VestingError::Uninitialized)
    } else if inv.caller != inv.schedule.authority {
        Err(VestingError::Unauthorized)
    } else if inv.referencing_positions != 0 {
        Err(VestingError::DanglingPositions)
    } else if inv.schedule.vault is Some && inv.vault_balance != 0 {
        Err(VestingError::NonEmptyVault)
    } else {
        Ok(EffectsV { close_schedule: true, ..spec_no_effects() })
    }
}

/// The full transition relation: what one decoded instruction does to one
/// invocation snapshot.
pub open spec fn spec_process(inv: InvocationV, ix: InstructionV) -> Result<
    EffectsV,
    VestingError,
> {
    match ix {
        InstructionV::InitVestingSchedule { authority, mint, schedule, start, duration, vault } => {
            spec_init_vesting_schedule(inv, authority, mint, schedule, start, duration, vault)
        },
        InstructionV::CreateAccount { owner, amount } => spec_create_account(inv, owner, amount),
        InstructionV::AmendAmount { amount } => spec_amend_amount(inv, amount),
        InstructionV::AmendSchedule { start, schedule, duration } => spec_amend_schedule(
            inv,
            start,
            schedule,
            duration,
        ),
        InstructionV::Claim => spec_claim(inv),
        InstructionV::CloseAccount => spec_close_account(inv),
        InstructionV::CloseVestingSchedule => spec_close_vesting_schedule(inv),
    }
}

/// The vesting state machine.
pub struct Processor;

impl Processor {
    /// Applies an init instruction.
    pub fn init_vesting_schedule(
        inv: &Invocation,
        authority: &Pubkey,
        mint: &Pubkey,
        schedule: Frequency,
        start: i64,
        duration: i64,
        vault: &Option<Pubkey>,
    ) -> (r: Result<Effects, VestingError>)
        ensures
            spec_result_view(r) == spec_init_vesting_schedule(
                inv@,
                authority@,
                mint@,
                schedule,
                start,
                duration,
                spec_opt_key_view(*vault),
            ),
    {
        if inv.schedule.is_initialized() {
            return Err(VestingError::AlreadyInitialized);
        }
        let create_vault = vault.is_some();
        let new_schedule = VestingSchedule {
            is_initialized: true,
            authority: authority.clone(),
            mint: mint.clone(),
            frequency: schedule,
            start,
            duration,
            vault: match vault {
                Some(k) => Some(k.clone()),
                None => None,
            },
        };
        let effects = Effects {
            schedule: Some(new_schedule),
            position: None,
            transfer_to_holding: 0,
            transfer_to_owner: 0,
            create_vault,
            close_position: false,
            close_schedule: false,
        };
        assert(effects@ =~= spec_init_vesting_schedule(
            inv@,
            authority@,
            mint@,
            schedule,
            start,
            duration,
            spec_opt_key_view(*vault),
        ).unwrap());
        Ok(effects)
    }

    /// Applies a create-account instruction.
    pub fn create_account(inv: &Invocation, owner: &Pubkey, amount: u64) -> (r: Result<
        Effects,
        VestingError,
    >)
        ensures
            spec_result_view(r) == spec_create_account(inv@, owner@, amount),
    {
        if !inv.schedule.is_initialized() {
            return Err(VestingError::Uninitialized);
        }
        if inv.position.is_initialized() {
            return Err(VestingError::AlreadyInitialized);
        }
        if !(inv.caller == inv.schedule.authority) {
            return Err(VestingError::Unauthorized);
        }
        let transfer_to_holding = if inv.schedule.vault.is_none() {
            amount
        } else {
            0
        };
        let new_position = Account {
            is_initialized: true,
            vesting_schedule: inv.schedule_key.clone(),
            owner: owner.clone(),
            mint: inv.schedule.mint.clone(),
            amount,
            claimed: 0,
        };
        let effects = Effects {
            schedule: None,
            position: Some(new_position),
            transfer_to_holding,
            transfer_to_owner: 0,
            create_vault: false,
            close_position: false,
            close_schedule: false,
        };
        assert(effects@ =~= spec_create_account(inv@, owner@, amount).unwrap());
        Ok(effects)
    }

    /// Applies an amend-amount instruction.
    pub fn amend_amount(inv: &Invocation, amount: u64) -> (r: Result<Effects, VestingError>)
        ensures
            spec_result_view(r) == spec_amend_amount(inv@, amount),
    {
        if !inv.schedule.is_initialized() {
            return Err(VestingError::Uninitialized);
        }
        if !inv.position.is_initialized() {
            return Err(VestingError::Uninitialized);
        }
        if !(inv.caller == inv.schedule.authority) {
            return Err(VestingError::Unauthorized);
        }
        if !(inv.position.vesting_schedule == inv.schedule_key) {
            return Err(VestingError::ScheduleMismatch);
        }
        if !(inv.position.mint == inv.schedule.mint) {
            return Err(VestingError::MintMismatch);
        }
        if amount < inv.position.claimed {
            return Err(VestingError::AmountBelowClaimed);
        }
        let mut new_position = inv.position.clone();
        new_position.amount = amount;
        let effects = Effects {
            schedule: None,
            position: Some(new_position),
            transfer_to_holding: 0,
            transfer_to_owner: 0,
            create_vault: false,
            close_position: false,
            close_schedule: false,
        };
        assert(effects@ =~= spec_amend_amount(inv@, amount).unwrap());
        Ok(effects)
    }

    /// Applies an amend-schedule instruction.
    pub fn amend_schedule(
        inv: &Invocation,
        start: &Option<i64>,
        schedule: &Option<Frequency>,
        duration: &Option<i64>,
    ) -> (r: Result<Effects, VestingError>)
        ensures
            spec_result_view(r) == spec_amend_schedule(inv@, *start, *schedule, *duration),
    {
        if !inv.schedule.is_initialized() {
            return Err(VestingError::Uninitialized);
        }
        if !(inv.caller == inv.schedule.authority) {
            return Err(VestingError::Unauthorized);
        }
        let mut new_schedule = inv.schedule.clone();
        if let Some(x) = start {
            new_schedule.start = *x;
        }
        if let Some(f) = schedule {
            new_schedule.frequency = *f;
        }
        if let Some(x) = duration {
            new_schedule.duration = *x;
        }
        let effects = Effects {
            schedule: Some(new_schedule),
            position: None,
            transfer_to_holding: 0,
            transfer_to_owner: 0,
            create_vault: false,
            close_position: false,
            close_schedule: false,
        };
        assert(effects@ =~= spec_amend_schedule(inv@, *start, *schedule, *duration).unwrap());
        Ok(effects)
    }

    /// Applies a claim instruction.
    pub fn claim(inv: &Invocation) -> (r: Result<Effects, VestingError>)
        ensures
            spec_result_view(r) == spec_claim(inv@),
    {
        if !inv.schedule.is_initialized() {
            return Err(VestingError::Uninitialized);
        }
        if !inv.position.is_initialized() {
            return Err(VestingError::Uninitialized);
        }
        if !(inv.caller == inv.position.owner) {
            return Err(VestingError::Unauthorized);
        }
        if !(inv.position.vesting_schedule == inv.schedule_key) {
            return Err(VestingError::ScheduleMismatch);
        }
        if !(inv.position.mint == inv.schedule.mint) {
            return Err(VestingError::MintMismatch);
        }
        let c = match claimable(
            inv.now,
            inv.schedule.start,
            inv.schedule.duration,
            inv.schedule.frequency,
            inv.position.amount,
            inv.position.claimed,
        ) {
            Ok(c) => c,
            Err(e) => {
                return Err(e);
            },
        };
        if c == 0 {
            return Err(VestingError::NothingToClaim);
        }
        proof {
            lemma_emitted_bounds(
                inv@.now,
                inv@.schedule.start,
                inv@.schedule.duration,
                inv@.schedule.frequency,
                inv@.position.amount,
            );
        }
        let mut new_position = inv.position.clone();
        new_position.claimed = inv.position.claimed + c;
        let effects = Effects {
            schedule: None,
            position: Some(new_position),
            transfer_to_holding: 0,
            transfer_to_owner: c,
            create_vault: false,
            close_position: false,
            close_schedule: false,
        };
        assert(effects@ =~= spec_claim(inv@).unwrap());
        Ok(effects)
    }

    /// Applies a close-account instruction.
    pub fn close_account(inv: &Invocation) -> (r: Result<Effects, VestingError>)
        ensures
            spec_result_view(r) == spec_close_account(inv@),
    {
        if !inv.schedule.is_initialized() {
            return Err(VestingError::Uninitialized);
        }
        if !inv.position.is_initialized() {
            return Err(VestingError::Uninitialized);
        }
        if !(inv.caller == inv.schedule.authority) {
            return Err(VestingError::Unauthorized);
        }
        if !(inv.position.vesting_schedule == inv.schedule_key) {
            return Err(VestingError::ScheduleMismatch);
        }
        if !(inv.position.mint == inv.schedule.mint) {
            return Err(VestingError::MintMismatch);
        }
        if inv.holding_balance != 0 {
            return Err(VestingError::NonEmptyHolding);
        }
        let effects = Effects {
            schedule: None,
            position: None,
            transfer_to_holding: 0,
            transfer_to_owner: 0,
            create_vault: false,
            close_position: true,
            close_schedule: false,
        };
        assert(effects@ =~= spec_close_account(inv@).unwrap());
        Ok(effects)
    }

    /// Applies a close-schedule instruction.
    pub fn close_vesting_schedule(inv: &Invocation) -> (r: Result<Effects, VestingError>)
        ensures
            spec_result_view(r) == spec_close_vesting_schedule(inv@),
    {
        if !inv.schedule.is_initialized() {
            return Err(VestingError::Uninitialized);
        }
        if !(inv.caller == inv.schedule.authority) {
            return Err(VestingError::Unauthorized);
        }
        if inv.referencing_positions != 0 {
            return Err(VestingError::DanglingPositions);
        }
        if inv.schedule.vault.is_some() && inv.vault_balance != 0 {
            return Err(VestingError::NonEmptyVault);
        }
        let effects = Effects {
            schedule: None,
            position: None,
            transfer_to_holding: 0,
            transfer_to_owner: 0,
            create_vault: false,
            close_position: false,
            close_schedule: true,
        };
        assert(effects@ =~= spec_close_vesting_schedule(inv@).unwrap());
        Ok(effects)
    }

    /// Decodes the instruction bytes and applies the transition they name.
    pub fn process(inv: &Invocation, data: &[u8]) -> (r: Result<Effects, VestingError>)
        ensures
            !spec_instruction_ok(data@) ==> r == Err::<Effects, VestingError>(
                VestingError::InvalidInstruction,
            ),
            spec_instruction_ok(data@) ==> spec_result_view(r) == spec_process(
                inv@,
                spec_unpack_instruction(data@),
            ),
    {
        let ix = match VestingInstruction::unpack(data) {
            Ok(ix) => ix,
            Err(e) => {
                return Err(e);
            },
        };
        match ix {
            VestingInstruction::InitVestingSchedule {
                authority,
                mint,
                schedule,
                start,
                duration,
                vault,
            } => Self::init_vesting_schedule(
                inv,
                &authority,
                &mint,
                schedule,
                start,
                duration,
                &vault,
            ),
            VestingInstruction::CreateAccount { owner, amount } => Self::create_account(
                inv,
                &owner,
                amount,
            ),
            VestingInstruction::AmendAmount { amount } => Self::amend_amount(inv, amount),
            VestingInstruction::AmendSchedule { start, schedule, duration } => {
                Self::amend_schedule(inv, &start, &schedule, &duration)
            },
            VestingInstruction::Claim => Self::claim(inv),
            VestingInstruction::CloseAccount => Self::close_account(inv),
            VestingInstruction::CloseVestingSchedule => Self::close_vesting_schedule(inv),
        }
    }
}

/// Whatever instruction is applied, a well-formed position stays well
/// formed: its claimed total never exceeds its allocation, and — except when
/// the position is being created afresh — its claimed total never decreases.
pub proof fn lemma_position_invariant_preserved(inv: InvocationV, ix: InstructionV)
    requires
        inv.position.claimed <= inv.position.amount,
    ensures
        spec_process(inv, ix) matches Ok(e) ==> (e.position matches Some(p) ==> p.claimed
            <= p.amount),
        spec_process(inv, ix) matches Ok(e) ==> (e.position matches Some(p) ==> (
        inv.position.is_initialized ==> p.claimed >= inv.position.claimed)),
{
    match ix {
        InstructionV::Claim => {
            if spec_process(inv, ix) is Ok {
                lemma_emitted_bounds(
                    inv.now,
                    inv.schedule.start,
                    inv.schedule.duration,
                    inv.schedule.frequency,
                    inv.position.amount,
                );
            }
        },
        _ => {
        },
    }
}

} // verus!
