//! Persisted record layouts and their binary codec.
//!
//! Two record types are persisted: a [`VestingSchedule`] (one per vesting
//! policy) and an [`Account`] (one vesting position per beneficiary per
//! schedule). Each has a fixed byte length; integers are little-endian,
//! booleans are a single `0`/`1` byte, and an optional identity is a 4-byte
//! presence tag (`0` = absent, `1` = present) followed by a 32-byte body that
//! is always present in the buffer and ignored when the tag says absent.
//!
//! The encoding of every record is pinned down by a spec function over its
//! view, decoding is proved exact against it, and a round-trip lemma shows
//! that decoding an encoded record gives the record back.

use vstd::prelude::*;
use vstd::bytes::{
    spec_u64_from_le_bytes, spec_u64_to_le_bytes, lemma_auto_spec_u64_to_from_le_bytes,
    u64_from_le_bytes, u64_to_le_bytes,
};
use vstd::slice::slice_subrange;
use crate::error::VestingError;
use crate::pubkey::{Pubkey, PUBKEY_BYTES};

verus! {

/// Byte length of an encoded [`VestingSchedule`].
pub const SCHEDULE_LEN: usize = 118;

/// Byte length of an encoded [`Account`].
pub const ACCOUNT_LEN: usize = 113;

// ---------------------------------------------------------------------------
// Shared encoding primitives
// ---------------------------------------------------------------------------

/// The single byte that encodes a boolean.
pub open spec fn spec_bool_byte(b: bool) -> u8 {
    if b {
        1
    } else {
        0
    }
}

/// Whether a byte is a valid boolean encoding.
pub open spec fn spec_bool_ok(x: u8) -> bool {
    x == 0 || x == 1
}

/// The eight little-endian bytes that encode a signed 64-bit value.
pub open spec fn spec_i64_to_le_bytes(x: i64) -> Seq<u8> {
    spec_u64_to_le_bytes(x as u64)
}

/// The signed 64-bit value read from eight little-endian bytes.
pub open spec fn spec_i64_from_le_bytes(s: Seq<u8>) -> i64 {
    spec_u64_from_le_bytes(s) as i64
}

/// Casting a signed 64-bit value through its unsigned bit pattern and back
/// is the identity.
pub proof fn lemma_i64_u64_round_trip(x: i64)
    ensures
        ((x as u64) as i64) == x,
{
    assert(((x as u64) as i64) == x) by (bit_vector);
}

/// Round trip of the signed little-endian encoding.
pub proof fn lemma_i64_le_bytes_round_trip(x: i64)
    ensures
        spec_i64_to_le_bytes(x).len() == 8,
        spec_i64_from_le_bytes(spec_i64_to_le_bytes(x)) == x,
{
    lemma_auto_spec_u64_to_from_le_bytes();
    lemma_i64_u64_round_trip(x);
}

/// Reads a signed 64-bit value from eight little-endian bytes.
pub fn i64_from_le_bytes(s: &[u8]) -> (x: i64)
    requires
        s@.len() == 8,
    ensures
        x == spec_i64_from_le_bytes(s@),
{
    let u = u64_from_le_bytes(s);
    #[verifier::truncate] (u as i64)
}

/// Writes a signed 64-bit value as eight little-endian bytes.
pub fn i64_to_le_bytes(x: i64) -> (s: Vec<u8>)
    ensures
        s@ == spec_i64_to_le_bytes(x),
        s@.len() == 8,
{
    u64_to_le_bytes(#[verifier::truncate] (x as u64))
}

/// The view of an optional identity.
pub open spec fn spec_opt_key_view(v: Option<Pubkey>) -> Option<Seq<u8>> {
    match v {
        Some(k) => Some(k@),
        None => None,
    }
}

/// Whether an optional identity view is well formed.
pub open spec fn spec_opt_key_wf(v: Option<Seq<u8>>) -> bool {
    v matches Some(k) ==> k.len() == PUBKEY_BYTES
}

/// The 36-byte encoding of an optional identity: a 4-byte presence tag and a
/// 32-byte body, zeroed when absent.
pub open spec fn spec_coption_bytes(v: Option<Seq<u8>>) -> Seq<u8> {
    match v {
        Some(k) => seq![1u8, 0u8, 0u8, 0u8] + k,
        None => seq![0u8, 0u8, 0u8, 0u8] + Seq::new(PUBKEY_BYTES as nat, |i: int| 0u8),
    }
}

/// Whether a 36-byte region is a valid optional-identity encoding.
pub open spec fn spec_coption_ok(s: Seq<u8>) -> bool {
    &&& s.len() == 36
    &&& spec_bool_ok(s[0])
    &&& s[1] == 0
    &&& s[2] == 0
    &&& s[3] == 0
}

/// The optional identity read from a 36-byte region.
pub open spec fn spec_coption_value(s: Seq<u8>) -> Option<Seq<u8>> {
    if s[0] == 1 {
        Some(s.subrange(4, 36))
    } else {
        None
    }
}

/// Appends the 36-byte optional-identity encoding to a buffer.
pub fn pack_coption_key(src: &Option<Pubkey>, dst: &mut Vec<u8>)
    ensures
        final(dst)@ == old(dst)@ + spec_coption_bytes(spec_opt_key_view(*src)),
{
    match src {
        Some(key) => {
            dst.push(1);
            dst.push(0);
            dst.push(0);
            dst.push(0);
            dst.extend_from_slice(key.as_bytes());
            assert(dst@ =~= old(dst)@ + spec_coption_bytes(spec_opt_key_view(*src)));
        },
        None => {
            dst.push(0);
            dst.push(0);
            dst.push(0);
            dst.push(0);
            let mut i: usize = 0;
            while i < PUBKEY_BYTES
                invariant
                    i <= PUBKEY_BYTES,
                    dst@ == old(dst)@ + seq![0u8, 0u8, 0u8, 0u8] + Seq::new(
                        i as nat,
                        |j: int| 0u8,
                    ),
                decreases PUBKEY_BYTES - i,
            {
                dst.push(0);
                proof {
                    assert(dst@ =~= old(dst)@ + seq![0u8, 0u8, 0u8, 0u8] + Seq::new(
                        (i + 1) as nat,
                        |j: int| 0u8,
                    ));
                }
                i = i + 1;
            }
            assert(dst@ =~= old(dst)@ + spec_coption_bytes(spec_opt_key_view(*src)));
        },
    }
}

/// Reads a 36-byte optional-identity region.
pub fn unpack_coption_key(src: &[u8]) -> (r: Result<Option<Pubkey>, VestingError>)
    requires
        src@.len() == 36,
    ensures
        r is Ok <==> spec_coption_ok(src@),
        r matches Ok(v) ==> spec_opt_key_view(v) == spec_coption_value(src@),
        r is Err ==> r == Err::<Option<Pubkey>, VestingError>(VestingError::InvalidAccountData),
{
    let tag = src[0];
    if !(tag == 0 || tag == 1) || src[1] != 0 || src[2] != 0 || src[3] != 0 {
        return Err(VestingError::InvalidAccountData);
    }
    if tag == 1 {
        let body = slice_subrange(src, 4, 36);
        let key = Pubkey::from_slice(body).unwrap();
        Ok(Some(key))
    } else {
        Ok(None)
    }
}

// ---------------------------------------------------------------------------
// Frequency
// ---------------------------------------------------------------------------

/// The cadence at which vested tokens unlock.
///
/// The wire format maps each variant to a stable byte, in the order listed
/// here starting from zero. `Once` means a single period spanning the whole
/// duration; `Slot` is a non-time unit whose seconds-equivalent must be
/// supplied by the host environment, so the emission formula refuses it.
#[derive(Clone, Copy, Debug, Default, PartialEq, Eq, Structural)]
pub enum Frequency {
    Once,
    #[default]
    Slot,
    Second,
    Minute,
    Hour,
    Day,
    Week,
    Month,
    Quarter,
    Year,
}

/// The stable byte assigned to each frequency variant.
pub open spec fn spec_frequency_byte(f: Frequency) -> u8 {
    match f {
        Frequency::Once => 0,
        Frequency::Slot => 1,
        Frequency::Second => 2,
        Frequency::Minute => 3,
        Frequency::Hour => 4,
        Frequency::Day => 5,
        Frequency::Week => 6,
        Frequency::Month => 7,
        Frequency::Quarter => 8,
        Frequency::Year => 9,
    }
}

/// Whether a byte names a frequency variant.
pub open spec fn spec_frequency_ok(x: u8) -> bool {
    x <= 9
}

/// The frequency variant a valid byte names.
pub open spec fn spec_frequency_value(x: u8) -> Frequency {
    if x == 0 {
        Frequency::Once
    } else if x == 1 {
        Frequency::Slot
    } else if x == 2 {
        Frequency::Second
    } else if x == 3 {
        Frequency::Minute
    } else if x == 4 {
        Frequency::Hour
    } else if x == 5 {
        Frequency::Day
    } else if x == 6 {
        Frequency::Week
    } else if x == 7 {
        Frequency::Month
    } else if x == 8 {
        Frequency::Quarter
    } else {
        Frequency::Year
    }
}

/// Encoding a frequency and reading the byte back gives the variant again.
pub proof fn lemma_frequency_round_trip(f: Frequency)
    ensures
        spec_frequency_ok(spec_frequency_byte(f)),
        spec_frequency_value(spec_frequency_byte(f)) == f,
{
}

impl Frequency {
    /// The wire byte for this variant.
    pub fn to_byte(&self) -> (r: u8)
        ensures
            r == spec_frequency_byte(*self),
    {
        match self {
            Frequency::Once => 0,
            Frequency::Slot => 1,
            Frequency::Second => 2,
            Frequency::Minute => 3,
            Frequency::Hour => 4,
            Frequency::Day => 5,
            Frequency::Week => 6,
            Frequency::Month => 7,
            Frequency::Quarter => 8,
            Frequency::Year => 9,
        }
    }

    /// The variant a wire byte names, if any.
    pub fn from_byte(x: u8) -> (r: Option<Frequency>)
        ensures
            r is Some <==> spec_frequency_ok(x),
            r matches Some(f) ==> f == spec_frequency_value(x),
    {
        if x == 0 {
            Some(Frequency::Once)
        } else if x == 1 {
            Some(Frequency::Slot)
        } else if x == 2 {
            Some(Frequency::Second)
        } else if x == 3 {
            Some(Frequency::Minute)
        } else if x == 4 {
            Some(Frequency::Hour)
        } else if x == 5 {
            Some(Frequency::Day)
        } else if x == 6 {
            Some(Frequency::Week)
        } else if x == 7 {
            Some(Frequency::Month)
        } else if x == 8 {
            Some(Frequency::Quarter)
        } else if x == 9 {
            Some(Frequency::Year)
        } else {
            None
        }
    }
}

// ---------------------------------------------------------------------------
// VestingSchedule
// ---------------------------------------------------------------------------

/// The mathematical view of a [`VestingSchedule`].
#[verifier::ext_equal]
pub struct ScheduleV {
    pub is_initialized: bool,
    pub authority: Seq<u8>,
    pub mint: Seq<u8>,
    pub frequency: Frequency,
    pub start: i64,
    pub duration: i64,
    pub vault: Option<Seq<u8>>,
}

impl ScheduleV {
    /// Well-formedness: every identity is 32 bytes.
    pub open spec fn wf(self) -> bool {
        &&& self.authority.len() == PUBKEY_BYTES
        &&& self.mint.len() == PUBKEY_BYTES
        &&& spec_opt_key_wf(self.vault)
    }
}

/// A vesting policy: who may administer it, which token it vests, and how
/// fast tokens unlock.
#[derive(Debug)]
pub struct VestingSchedule {
    /// True once the init transition has completed.
    pub is_initialized: bool,
    /// The sole identity permitted to amend or close the schedule and the
    /// amendable fields of its positions.
    pub authority: Pubkey,
    /// The token type under vesting; immutable after init.
    pub mint: Pubkey,
    /// Emission granularity.
    pub frequency: Frequency,
    /// Unix timestamp at which vesting commences.
    pub start: i64,
    /// Total vesting length in seconds.
    pub duration: i64,
    /// Shared funding vault, present only when positions are not pre-loaded.
    pub vault: Option<Pubkey>,
}

impl View for VestingSchedule {
    type V = ScheduleV;

    open spec fn view(&self) -> ScheduleV {
        ScheduleV {
            is_initialized: self.is_initialized,
            authority: self.authority@,
            mint: self.mint@,
            frequency: self.frequency,
            start: self.start,
            duration: self.duration,
            vault: spec_opt_key_view(self.vault),
        }
    }
}

/// The 118-byte encoding of a schedule.
pub open spec fn spec_pack_schedule(v: ScheduleV) -> Seq<u8> {
    seq![spec_bool_byte(v.is_initialized)] + v.authority + v.mint + seq![
        spec_frequency_byte(v.frequency),
    ] + spec_i64_to_le_bytes(v.start) + spec_i64_to_le_bytes(v.duration) + spec_coption_bytes(
        v.vault,
    )
}

/// Whether a buffer begins with a valid schedule encoding.
pub open spec fn spec_schedule_bytes_ok(s: Seq<u8>) -> bool {
    &&& s.len() >= SCHEDULE_LEN
    &&& spec_bool_ok(s[0])
    &&& spec_frequency_ok(s[65])
    &&& spec_coption_ok(s.subrange(82, 118))
}

/// The schedule read from a valid buffer.
pub open spec fn spec_unpack_schedule(s: Seq<u8>) -> ScheduleV {
    ScheduleV {
        is_initialized: s[0] == 1,
        authority: s.subrange(1, 33),
        mint: s.subrange(33, 65),
        frequency: spec_frequency_value(s[65]),
        start: spec_i64_from_le_bytes(s.subrange(66, 74)),
        duration: spec_i64_from_le_bytes(s.subrange(74, 82)),
        vault: spec_coption_value(s.subrange(82, 118)),
    }
}

impl Clone for VestingSchedule {
    fn clone(&self) -> (r: Self)
        ensures
            r@ == self@,
    {
        VestingSchedule {
            is_initialized: self.is_initialized,
            authority: self.authority.clone(),
            mint: self.mint.clone(),
            frequency: self.frequency,
            start: self.start,
            duration: self.duration,
            vault: match &self.vault {
                Some(k) => Some(k.clone()),
                None => None,
            },
        }
    }
}

impl VestingSchedule {
    /// Whether the init transition has completed for this schedule.
    pub fn is_initialized(&self) -> (r: bool)
        ensures
            r == self@.is_initialized,
    {
        self.is_initialized
    }

    /// Decodes a schedule from the first 118 bytes of a buffer.
    ///
    /// Fails exactly when the buffer is shorter than 118 bytes or holds an
    /// invalid boolean, frequency, or optional-identity tag.
    pub fn unpack_from_slice(src: &[u8]) -> (r: Result<VestingSchedule, VestingError>)
        ensures
            r is Ok <==> spec_schedule_bytes_ok(src@),
            r matches Ok(s) ==> s@ == spec_unpack_schedule(src@),
            r is Err ==> r == Err::<VestingSchedule, VestingError>(
                VestingError::InvalidAccountData,
            ),
    {
        if src.len() < SCHEDULE_LEN {
            return Err(VestingError::InvalidAccountData);
        }
        let b0 = src[0];
        if !(b0 == 0 || b0 == 1) {
            return Err(VestingError::InvalidAccountData);
        }
        let is_initialized = b0 == 1;
        let authority = Pubkey::from_slice(slice_subrange(src, 1, 33)).unwrap();
        let mint = Pubkey::from_slice(slice_subrange(src, 33, 65)).unwrap();
        let frequency = match Frequency::from_byte(src[65]) {
            Some(f) => f,
            None => {
                return Err(VestingError::InvalidAccountData);
            },
        };
        let start = i64_from_le_bytes(slice_subrange(src, 66, 74));
        let duration = i64_from_le_bytes(slice_subrange(src, 74, 82));
        let vault_region = slice_subrange(src, 82, 118);
        let vault = match unpack_coption_key(vault_region) {
            Ok(v) => v,
            Err(e) => {
                return Err(e);
            },
        };
        Ok(VestingSchedule { is_initialized, authority, mint, frequency, start, duration, vault })
    }

    /// Writes the 118-byte encoding of the schedule into a buffer,
    /// replacing its previous contents.
    pub fn pack_into_slice(&self, dst: &mut Vec<u8>)
        ensures
            final(dst)@ == spec_pack_schedule(self@),
            final(dst)@.len() == SCHEDULE_LEN,
    {
        proof {
            use_type_invariant(&self.authority);
            use_type_invariant(&self.mint);
            if let Some(k) = &self.vault {
                use_type_invariant(k);
            }
        }
        dst.clear();
        dst.push(if self.is_initialized {
            1
        } else {
            0
        });
        dst.extend_from_slice(self.authority.as_bytes());
        dst.extend_from_slice(self.mint.as_bytes());
        dst.push(self.frequency.to_byte());
        let start_bytes = i64_to_le_bytes(self.start);
        dst.extend_from_slice(start_bytes.as_slice());
        let duration_bytes = i64_to_le_bytes(self.duration);
        dst.extend_from_slice(duration_bytes.as_slice());
        pack_coption_key(&self.vault, dst);
        assert(dst@ =~= spec_pack_schedule(self@));
    }
}

/// Decoding an encoded schedule gives the schedule back.
pub proof fn lemma_schedule_round_trip(v: ScheduleV)
    requires
        v.wf(),
    ensures
        spec_pack_schedule(v).len() == SCHEDULE_LEN,
        spec_schedule_bytes_ok(spec_pack_schedule(v)),
        spec_unpack_schedule(spec_pack_schedule(v)) == v,
{
    lemma_auto_spec_u64_to_from_le_bytes();
    lemma_i64_u64_round_trip(v.start);
    lemma_i64_u64_round_trip(v.duration);
    let s = spec_pack_schedule(v);
    assert(s.len() == SCHEDULE_LEN);
    assert(s.subrange(1, 33) =~= v.authority);
    assert(s.subrange(33, 65) =~= v.mint);
    assert(s.subrange(66, 74) =~= spec_i64_to_le_bytes(v.start));
    assert(s.subrange(74, 82) =~= spec_i64_to_le_bytes(v.duration));
    assert(s.subrange(82, 118) =~= spec_coption_bytes(v.vault));
    let c = s.subrange(82, 118);
    match v.vault {
        Some(k) => {
            assert(c.subrange(4, 36) =~= k);
        },
        None => {
        },
    }
    assert(spec_unpack_schedule(s) =~= v);
}

// ---------------------------------------------------------------------------
// Account (a vesting position)
// ---------------------------------------------------------------------------

/// The mathematical view of an [`Account`].
#[verifier::ext_equal]
pub struct AccountV {
    pub is_initialized: bool,
    pub vesting_schedule: Seq<u8>,
    pub owner: Seq<u8>,
    pub mint: Seq<u8>,
    pub amount: u64,
    pub claimed: u64,
}

impl AccountV {
    /// Well-formedness: every identity is 32 bytes.
    pub open spec fn wf(self) -> bool {
        &&& self.vesting_schedule.len() == PUBKEY_BYTES
        &&& self.owner.len() == PUBKEY_BYTES
        &&& self.mint.len() == PUBKEY_BYTES
    }
}

/// One beneficiary's vesting position under a schedule: the total allocation
/// and how much of it has already been disbursed.
#[derive(Debug)]
pub struct Account {
    /// True once the position has been created.
    pub is_initialized: bool,
    /// Back-reference to the owning schedule record.
    pub vesting_schedule: Pubkey,
    /// The beneficiary entitled to claim.
    pub owner: Pubkey,
    /// Denormalized copy of the schedule's mint, validated at every mutation.
    pub mint: Pubkey,
    /// Total tokens allocated over the full vesting term.
    pub amount: u64,
    /// Cumulative tokens already disbursed; never decreases and never
    /// exceeds `amount`.
    pub claimed: u64,
}

impl View for Account {
    type V = AccountV;

    open spec fn view(&self) -> AccountV {
        AccountV {
            is_initialized: self.is_initialized,
            vesting_schedule: self.vesting_schedule@,
            owner: self.owner@,
            mint: self.mint@,
            amount: self.amount,
            claimed: self.claimed,
        }
    }
}

/// The 113-byte encoding of a position.
pub open spec fn spec_pack_account(v: AccountV) -> Seq<u8> {
    seq![spec_bool_byte(v.is_initialized)] + v.vesting_schedule + v.owner + v.mint
        + spec_u64_to_le_bytes(v.amount) + spec_u64_to_le_bytes(v.claimed)
}

/// Whether a buffer begins with a valid position encoding.
pub open spec fn spec_account_bytes_ok(s: Seq<u8>) -> bool {
    &&& s.len() >= ACCOUNT_LEN
    &&& spec_bool_ok(s[0])
}

/// The position read from a valid buffer.
pub open spec fn spec_unpack_account(s: Seq<u8>) -> AccountV {
    AccountV {
        is_initialized: s[0] == 1,
        vesting_schedule: s.subrange(1, 33),
        owner: s.subrange(33, 65),
        mint: s.subrange(65, 97),
        amount: spec_u64_from_le_bytes(s.subrange(97, 105)),
        claimed: spec_u64_from_le_bytes(s.subrange(105, 113)),
    }
}

impl Clone for Account {
    fn clone(&self) -> (r: Self)
        ensures
            r@ == self@,
    {
        Account {
            is_initialized: self.is_initialized,
            vesting_schedule: self.vesting_schedule.clone(),
            owner: self.owner.clone(),
            mint: self.mint.clone(),
            amount: self.amount,
            claimed: self.claimed,
        }
    }
}

impl Account {
    /// Whether the position has been created.
    pub fn is_initialized(&self) -> (r: bool)
        ensures
            r == self@.is_initialized,
    {
        self.is_initialized
    }

    /// Decodes a position from the first 113 bytes of a buffer.
    ///
    /// Fails exactly when the buffer is shorter than 113 bytes or the
    /// boolean byte is invalid.
    pub fn unpack_from_slice(src: &[u8]) -> (r: Result<Account, VestingError>)
        ensures
            r is Ok <==> spec_account_bytes_ok(src@),
            r matches Ok(a) ==> a@ == spec_unpack_account(src@),
            r is Err ==> r == Err::<Account, VestingError>(VestingError::InvalidAccountData),
    {
        if src.len() < ACCOUNT_LEN {
            return Err(VestingError::InvalidAccountData);
        }
        let b0 = src[0];
        if !(b0 == 0 || b0 == 1) {
            return Err(VestingError::InvalidAccountData);
        }
        let is_initialized = b0 == 1;
        let vesting_schedule = Pubkey::from_slice(slice_subrange(src, 1, 33)).unwrap();
        let owner = Pubkey::from_slice(slice_subrange(src, 33, 65)).unwrap();
        let mint = Pubkey::from_slice(slice_subrange(src, 65, 97)).unwrap();
        let amount = u64_from_le_bytes(slice_subrange(src, 97, 105));
        let claimed = u64_from_le_bytes(slice_subrange(src, 105, 113));
        Ok(Account { is_initialized, vesting_schedule, owner, mint, amount, claimed })
    }

    /// Writes the 113-byte encoding of the position into a buffer,
    /// replacing its previous contents.
    pub fn pack_into_slice(&self, dst: &mut Vec<u8>)
        ensures
            final(dst)@ == spec_pack_account(self@),
            final(dst)@.len() == ACCOUNT_LEN,
    {
        proof {
            use_type_invariant(&self.vesting_schedule);
            use_type_invariant(&self.owner);
            use_type_invariant(&self.mint);
        }
        dst.clear();
        dst.push(if self.is_initialized {
            1
        } else {
            0
        });
        dst.extend_from_slice(self.vesting_schedule.as_bytes());
        dst.extend_from_slice(self.owner.as_bytes());
        dst.extend_from_slice(self.mint.as_bytes());
        let amount_bytes = u64_to_le_bytes(self.amount);
        dst.extend_from_slice(amount_bytes.as_slice());
        let claimed_bytes = u64_to_le_bytes(self.claimed);
        dst.extend_from_slice(claimed_bytes.as_slice());
        assert(dst@ =~= spec_pack_account(self@));
    }
}

/// Decoding an encoded position gives the position back.
pub proof fn lemma_account_round_trip(v: AccountV)
    requires
        v.wf(),
    ensures
        spec_pack_account(v).len() == ACCOUNT_LEN,
        spec_account_bytes_ok(spec_pack_account(v)),
        spec_unpack_account(spec_pack_account(v)) == v,
{
    lemma_auto_spec_u64_to_from_le_bytes();
    let s = spec_pack_account(v);
    assert(s.len() == ACCOUNT_LEN);
    assert(s.subrange(1, 33) =~= v.vesting_schedule);
    assert(s.subrange(33, 65) =~= v.owner);
    assert(s.subrange(65, 97) =~= v.mint);
    assert(s.subrange(97, 105) =~= spec_u64_to_le_bytes(v.amount));
    assert(s.subrange(105, 113) =~= spec_u64_to_le_bytes(v.claimed));
    assert(spec_unpack_account(s) =~= v);
}

} // verus!
