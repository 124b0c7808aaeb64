//! The wire instruction envelope.
//!
//! Byte 0 of an instruction buffer is a discriminant tag; the remaining
//! bytes are the kind's fields, encoded left-to-right with no padding using
//! the same integer, boolean and optional-identity rules as the records.
//! Decoding consumes exactly the bytes each field requires and fails with
//! [`VestingError::InvalidInstruction`] on an unknown tag or a truncated or
//! malformed field; trailing bytes beyond the last field are ignored.
//!
//! | Tag | Kind                 | Fields in order                                         |
//! |-----|----------------------|---------------------------------------------------------|
//! | 0   | InitVestingSchedule  | authority(32) mint(32) frequency(1) start(8) duration(8) vault(4+32) |
//! | 1   | CreateAccount        | owner(32) amount(8)                                     |
//! | 2   | AmendAmount          | amount(8)                                               |
//! | 3   | AmendSchedule        | flag(1)[start(8)] flag(1)[frequency(1)] flag(1)[duration(8)] |
//! | 4   | Claim                | none                                                    |
//! | 5   | CloseAccount         | none                                                    |
//! | 6   | CloseVestingSchedule | none                                                    |

use vstd::prelude::*;
use vstd::bytes::spec_u64_from_le_bytes;
use vstd::bytes::spec_u64_to_le_bytes;
use vstd::bytes::u64_from_le_bytes;
use vstd::bytes::u64_to_le_bytes;
use vstd::slice::slice_subrange;
use crate::error::VestingError;
use crate::pubkey::{Pubkey, PUBKEY_BYTES};
use vstd::bytes::lemma_auto_spec_u64_to_from_le_bytes;
use crate::state::{
    Frequency, spec_bool_ok, spec_frequency_ok, spec_frequency_value, spec_frequency_byte,
    spec_i64_from_le_bytes, spec_i64_to_le_bytes, i64_from_le_bytes, i64_to_le_bytes,
    spec_coption_ok, spec_coption_value, spec_coption_bytes, spec_opt_key_view, spec_opt_key_wf,
    unpack_coption_key, pack_coption_key, lemma_i64_u64_round_trip,
};

verus! {

/// The mathematical view of a [`VestingInstruction`].
#[verifier::ext_equal]
pub enum InstructionV {
    InitVestingSchedule {
        authority: Seq<u8>,
        mint: Seq<u8>,
        schedule: Frequency,
        start: i64,
        duration: i64,
        vault: Option<Seq<u8>>,
    },
    CreateAccount { owner: Seq<u8>, amount: u64 },
    AmendAmount { amount: u64 },
    AmendSchedule { start: Option<i64>, schedule: Option<Frequency>, duration: Option<i64> },
    Claim,
    CloseAccount,
    CloseVestingSchedule,
}

impl InstructionV {
    /// Well-formedness: every identity carried by the instruction is 32
    /// bytes.
    pub open spec fn wf(self) -> bool {
        match self {
            InstructionV::InitVestingSchedule { authority, mint, vault, .. } => {
                &&& authority.len() == PUBKEY_BYTES
                &&& mint.len() == PUBKEY_BYTES
                &&& spec_opt_key_wf(vault)
            },
            InstructionV::CreateAccount { owner, .. } => owner.len() == PUBKEY_BYTES,
            _ => true,
        }
    }
}

/// A decoded wire instruction: one request to the vesting state machine.
#[derive(Debug)]
pub enum VestingInstruction {
    /// Initialises a vesting schedule.
    InitVestingSchedule {
        authority: Pubkey,
        mint: Pubkey,
        schedule: Frequency,
        start: i64,
        duration: i64,
        vault: Option<Pubkey>,
    },
    /// Creates a vesting position for one beneficiary.
    CreateAccount { owner: Pubkey, amount: u64 },
    /// Changes a position's total allocation.
    AmendAmount { amount: u64 },
    /// Amends any subset of a schedule's start, frequency and duration.
    AmendSchedule { start: Option<i64>, schedule: Option<Frequency>, duration: Option<i64> },
    /// Claims whatever has vested and not yet been disbursed.
    Claim,
    /// Closes a fully claimed, empty vesting position.
    CloseAccount,
    /// Closes a schedule no position references any more.
    CloseVestingSchedule,
}

impl View for VestingInstruction {
    type V = InstructionV;

    open spec fn view(&self) -> InstructionV {
        match self {
            VestingInstruction::InitVestingSchedule {
                authority,
                mint,
                schedule,
                start,
                duration,
                vault,
            } => InstructionV::InitVestingSchedule {
                authority: authority@,
                mint: mint@,
                schedule: *schedule,
                start: *start,
                duration: *duration,
                vault: spec_opt_key_view(*vault),
            },
            VestingInstruction::CreateAccount { owner, amount } => InstructionV::CreateAccount {
                owner: owner@,
                amount: *amount,
            },
            VestingInstruction::AmendAmount { amount } => InstructionV::AmendAmount {
                amount: *amount,
            },
            VestingInstruction::AmendSchedule { start, schedule, duration } => {
                InstructionV::AmendSchedule {
                    start: *start,
                    schedule: *schedule,
                    duration: *duration,
                }
            },
            VestingInstruction::Claim => InstructionV::Claim,
            VestingInstruction::CloseAccount => InstructionV::CloseAccount,
            VestingInstruction::CloseVestingSchedule => InstructionV::CloseVestingSchedule,
        }
    }
}

// ---------------------------------------------------------------------------
// Optional-field encodings used by AmendSchedule
// ---------------------------------------------------------------------------

/// A presence flag followed by the value's eight bytes when present.
pub open spec fn spec_opt_i64_bytes(o: Option<i64>) -> Seq<u8> {
    match o {
        Some(x) => seq![1u8] + spec_i64_to_le_bytes(x),
        None => seq![0u8],
    }
}

/// A presence flag followed by the frequency byte when present.
pub open spec fn spec_opt_frequency_bytes(o: Option<Frequency>) -> Seq<u8> {
    match o {
        Some(f) => seq![1u8, spec_frequency_byte(f)],
        None => seq![0u8],
    }
}

// ---------------------------------------------------------------------------
// Encoding
// ---------------------------------------------------------------------------

/// The exact byte encoding of an instruction.
pub open spec fn spec_pack_instruction(v: InstructionV) -> Seq<u8> {
    match v {
        InstructionV::InitVestingSchedule { authority, mint, schedule, start, duration, vault } => {
            seq![0u8] + authority + mint + seq![spec_frequency_byte(schedule)]
                + spec_i64_to_le_bytes(start) + spec_i64_to_le_bytes(duration)
                + spec_coption_bytes(vault)
        },
        InstructionV::CreateAccount { owner, amount } => {
            seq![1u8] + owner + spec_u64_to_le_bytes(amount)
        },
        InstructionV::AmendAmount { amount } => seq![2u8] + spec_u64_to_le_bytes(amount),
        InstructionV::AmendSchedule { start, schedule, duration } => {
            seq![3u8] + spec_opt_i64_bytes(start) + spec_opt_frequency_bytes(schedule)
                + spec_opt_i64_bytes(duration)
        },
        InstructionV::Claim => seq![4u8],
        InstructionV::CloseAccount => seq![5u8],
        InstructionV::CloseVestingSchedule => seq![6u8],
    }
}

// ---------------------------------------------------------------------------
// Decoding
// ---------------------------------------------------------------------------

/// Whether the bytes after an AmendSchedule tag are a valid field list.
pub open spec fn spec_amend_ok(r: Seq<u8>) -> bool {
    &&& r.len() >= 1
    &&& spec_bool_ok(r[0])
    &&& (r[0] == 1 ==> r.len() >= 9)
    &&& {
        let p1 = if r[0] == 1 {
            9int
        } else {
            1int
        };
        &&& r.len() >= p1 + 1
        &&& spec_bool_ok(r[p1])
        &&& (r[p1] == 1 ==> r.len() >= p1 + 2 && spec_frequency_ok(r[p1 + 1]))
        &&& {
            let p2 = p1 + if r[p1] == 1 {
                2int
            } else {
                1int
            };
            &&& r.len() >= p2 + 1
            &&& spec_bool_ok(r[p2])
            &&& (r[p2] == 1 ==> r.len() >= p2 + 9)
        }
    }
}

/// The AmendSchedule fields read from the bytes after the tag.
pub open spec fn spec_amend_value(r: Seq<u8>) -> InstructionV {
    let start = if r[0] == 1 {
        Some(spec_i64_from_le_bytes(r.subrange(1, 9)))
    } else {
        None
    };
    let p1 = if r[0] == 1 {
        9int
    } else {
        1int
    };
    let schedule = if r[p1] == 1 {
        Some(spec_frequency_value(r[p1 + 1]))
    } else {
        None
    };
    let p2 = p1 + if r[p1] == 1 {
        2int
    } else {
        1int
    };
    let duration = if r[p2] == 1 {
        Some(spec_i64_from_le_bytes(r.subrange(p2 + 1, p2 + 9)))
    } else {
        None
    };
    InstructionV::AmendSchedule { start, schedule, duration }
}

/// Whether a buffer is a valid instruction encoding.
pub open spec fn spec_instruction_ok(s: Seq<u8>) -> bool {
    &&& s.len() >= 1
    &&& {
        let r = s.skip(1);
        if s[0] == 0 {
            &&& r.len() >= 117
            &&& spec_frequency_ok(r[64])
            &&& spec_coption_ok(r.subrange(81, 117))
        } else if s[0] == 1 {
            r.len() >= 40
        } else if s[0] == 2 {
            r.len() >= 8
        } else if s[0] == 3 {
            spec_amend_ok(r)
        } else {
            s[0] == 4 || s[0] == 5 || s[0] == 6
        }
    }
}

/// The instruction read from a valid buffer.
pub open spec fn spec_unpack_instruction(s: Seq<u8>) -> InstructionV {
    let r = s.skip(1);
    if s[0] == 0 {
        InstructionV::InitVestingSchedule {
            authority: r.subrange(0, 32),
            mint: r.subrange(32, 64),
            schedule: spec_frequency_value(r[64]),
            start: spec_i64_from_le_bytes(r.subrange(65, 73)),
            duration: spec_i64_from_le_bytes(r.subrange(73, 81)),
            vault: spec_coption_value(r.subrange(81, 117)),
        }
    } else if s[0] == 1 {
        InstructionV::CreateAccount {
            owner: r.subrange(0, 32),
            amount: spec_u64_from_le_bytes(r.subrange(32, 40)),
        }
    } else if s[0] == 2 {
        InstructionV::AmendAmount { amount: spec_u64_from_le_bytes(r.subrange(0, 8)) }
    } else if s[0] == 3 {
        spec_amend_value(r)
    } else if s[0] == 4 {
        InstructionV::Claim
    } else if s[0] == 5 {
        InstructionV::CloseAccount
    } else {
        InstructionV::CloseVestingSchedule
    }
}

// ---------------------------------------------------------------------------
// Streaming field readers and writers
// ---------------------------------------------------------------------------

impl VestingInstruction {
    /// Reads a 32-byte identity and returns it with the remaining bytes.
    pub fn unpack_pubkey(input: &[u8]) -> (r: Result<(Pubkey, &[u8]), VestingError>)
        ensures
            r is Ok <==> input@.len() >= PUBKEY_BYTES,
            r matches Ok((k, rest)) ==> k@ == input@.subrange(0, PUBKEY_BYTES as int) && rest@
                == input@.skip(PUBKEY_BYTES as int),
            r is Err ==> r == Err::<(Pubkey, &[u8]), VestingError>(VestingError::InvalidInstruction),
    {
        if input.len() < PUBKEY_BYTES {
            return Err(VestingError::InvalidInstruction);
        }
        let pk = Pubkey::from_slice(slice_subrange(input, 0, PUBKEY_BYTES)).unwrap();
        let rest = slice_subrange(input, PUBKEY_BYTES, input.len());
        Ok((pk, rest))
    }

    /// Reads a 36-byte optional identity (4-byte presence tag and 32-byte
    /// body) and returns it with the remaining bytes.
    pub fn unpack_pubkey_option(input: &[u8]) -> (r: Result<
        (Option<Pubkey>, &[u8]),
        VestingError,
    >)
        ensures
            r is Ok <==> (input@.len() >= 36 && spec_coption_ok(input@.subrange(0, 36))),
            r matches Ok((v, rest)) ==> spec_opt_key_view(v) == spec_coption_value(
                input@.subrange(0, 36),
            ) && rest@ == input@.skip(36),
            r is Err ==> r == Err::<(Option<Pubkey>, &[u8]), VestingError>(
                VestingError::InvalidInstruction,
            ),
    {
        if input.len() < 36 {
            return Err(VestingError::InvalidInstruction);
        }
        let region = slice_subrange(input, 0, 36);
        match unpack_coption_key(region) {
            Ok(v) => {
                let rest = slice_subrange(input, 36, input.len());
                Ok((v, rest))
            },
            Err(_) => Err(VestingError::InvalidInstruction),
        }
    }

    /// Appends the 36-byte optional-identity encoding of a vault field.
    pub fn pack_pubkey_option(value: &Option<Pubkey>, buf: &mut Vec<u8>)
        ensures
            final(buf)@ == old(buf)@ + spec_coption_bytes(spec_opt_key_view(*value)),
    {
        pack_coption_key(value, buf);
    }

    /// Reads an unsigned 64-bit little-endian value and returns it with the
    /// remaining bytes.
    pub fn unpack_u64(input: &[u8]) -> (r: Result<(u64, &[u8]), VestingError>)
        ensures
            r is Ok <==> input@.len() >= 8,
            r matches Ok((x, rest)) ==> x == spec_u64_from_le_bytes(input@.subrange(0, 8)) && rest@
                == input@.skip(8),
            r is Err ==> r == Err::<(u64, &[u8]), VestingError>(VestingError::InvalidInstruction),
    {
        if input.len() < 8 {
            return Err(VestingError::InvalidInstruction);
        }
        let x = u64_from_le_bytes(slice_subrange(input, 0, 8));
        let rest = slice_subrange(input, 8, input.len());
        Ok((x, rest))
    }

    /// Reads a signed 64-bit little-endian value and returns it with the
    /// remaining bytes.
    pub fn unpack_i64(input: &[u8]) -> (r: Result<(i64, &[u8]), VestingError>)
        ensures
            r is Ok <==> input@.len() >= 8,
            r matches Ok((x, rest)) ==> x == spec_i64_from_le_bytes(input@.subrange(0, 8)) && rest@
                == input@.skip(8),
            r is Err ==> r == Err::<(i64, &[u8]), VestingError>(VestingError::InvalidInstruction),
    {
        if input.len() < 8 {
            return Err(VestingError::InvalidInstruction);
        }
        let x = i64_from_le_bytes(slice_subrange(input, 0, 8));
        let rest = slice_subrange(input, 8, input.len());
        Ok((x, rest))
    }

    /// Reads a flagged optional signed 64-bit value.
    pub fn unpack_i64_option(input: &[u8]) -> (r: Result<(Option<i64>, &[u8]), VestingError>)
        ensures
            r is Ok <==> (input@.len() >= 1 && spec_bool_ok(input@[0]) && (input@[0] == 1
                ==> input@.len() >= 9)),
            r matches Ok((v, rest)) ==> if input@[0] == 1 {
                v == Some(spec_i64_from_le_bytes(input@.subrange(1, 9))) && rest@ == input@.skip(9)
            } else {
                v == None::<i64> && rest@ == input@.skip(1)
            },
            r is Err ==> r == Err::<(Option<i64>, &[u8]), VestingError>(
                VestingError::InvalidInstruction,
            ),
    {
        if input.len() < 1 {
            return Err(VestingError::InvalidInstruction);
        }
        let flag = input[0];
        if flag == 0 {
            let rest = slice_subrange(input, 1, input.len());
            Ok((None, rest))
        } else if flag == 1 {
            if input.len() < 9 {
                return Err(VestingError::InvalidInstruction);
            }
            let x = i64_from_le_bytes(slice_subrange(input, 1, 9));
            let rest = slice_subrange(input, 9, input.len());
            Ok((Some(x), rest))
        } else {
            Err(VestingError::InvalidInstruction)
        }
    }

    /// Reads a flagged optional frequency byte.
    pub fn unpack_frequency_option(input: &[u8]) -> (r: Result<
        (Option<Frequency>, &[u8]),
        VestingError,
    >)
        ensures
            r is Ok <==> (input@.len() >= 1 && spec_bool_ok(input@[0]) && (input@[0] == 1
                ==> input@.len() >= 2 && spec_frequency_ok(input@[1]))),
            r matches Ok((v, rest)) ==> if input@[0] == 1 {
                v == Some(spec_frequency_value(input@[1])) && rest@ == input@.skip(2)
            } else {
                v == None::<Frequency> && rest@ == input@.skip(1)
            },
            r is Err ==> r == Err::<(Option<Frequency>, &[u8]), VestingError>(
                VestingError::InvalidInstruction,
            ),
    {
        if input.len() < 1 {
            return Err(VestingError::InvalidInstruction);
        }
        let flag = input[0];
        if flag == 0 {
            let rest = slice_subrange(input, 1, input.len());
            Ok((None, rest))
        } else if flag == 1 {
            if input.len() < 2 {
                return Err(VestingError::InvalidInstruction);
            }
            match Frequency::from_byte(input[1]) {
                Some(f) => {
                    let rest = slice_subrange(input, 2, input.len());
                    Ok((Some(f), rest))
                },
                None => Err(VestingError::InvalidInstruction),
            }
        } else {
            Err(VestingError::InvalidInstruction)
        }
    }

    /// Decodes an instruction buffer.
    ///
    /// Fails with [`VestingError::InvalidInstruction`] exactly when the
    /// buffer is empty, carries an unknown tag, or is too short or malformed
    /// for the tag's fields.
    pub fn unpack(input: &[u8]) -> (r: Result<VestingInstruction, VestingError>)
        ensures
            r is Ok <==> spec_instruction_ok(input@),
            r matches Ok(ix) ==> ix@ == spec_unpack_instruction(input@),
            r is Err ==> r == Err::<VestingInstruction, VestingError>(
                VestingError::InvalidInstruction,
            ),
    {
        if input.len() < 1 {
            return Err(VestingError::InvalidInstruction);
        }
        let tag = input[0];
        let rest = slice_subrange(input, 1, input.len());
        let ghost r = input@.skip(1);
        proof {
            assert(rest@ =~= r);
        }
        if tag == 0 {
            let (authority, rest1) = match Self::unpack_pubkey(rest) {
                Ok(p) => p,
                Err(e) => {
                    return Err(e);
                },
            };
            let (mint, rest2) = match Self::unpack_pubkey(rest1) {
                Ok(p) => p,
                Err(e) => {
                    return Err(e);
                },
            };
            proof {
                assert(authority@ =~= r.subrange(0, 32));
                assert(mint@ =~= r.subrange(32, 64));
                assert(rest2@ =~= r.skip(64));
            }
            if rest2.len() < 1 {
                return Err(VestingError::InvalidInstruction);
            }
            let schedule = match Frequency::from_byte(rest2[0]) {
                Some(f) => f,
                None => {
                    return Err(VestingError::InvalidInstruction);
                },
            };
            let rest3 = slice_subrange(rest2, 1, rest2.len());
            proof {
                assert(rest3@ =~= r.skip(65));
            }
            let (start, rest4) = match Self::unpack_i64(rest3) {
                Ok(p) => p,
                Err(e) => {
                    return Err(e);
                },
            };
            let (duration, rest5) = match Self::unpack_i64(rest4) {
                Ok(p) => p,
                Err(e) => {
                    return Err(e);
                },
            };
            proof {
                assert(rest3@.subrange(0, 8) =~= r.subrange(65, 73));
                assert(rest4@ =~= r.skip(73));
                assert(rest4@.subrange(0, 8) =~= r.subrange(73, 81));
                assert(rest5@ =~= r.skip(81));
                if r.len() >= 117 {
                    assert(rest5@.subrange(0, 36) =~= r.subrange(81, 117));
                }
            }
            let (vault, _rest6) = match Self::unpack_pubkey_option(rest5) {
                Ok(p) => p,
                Err(e) => {
                    return Err(e);
                },
            };
            return Ok(
                VestingInstruction::InitVestingSchedule {
                    authority,
                    mint,
                    schedule,
                    start,
                    duration,
                    vault,
                },
            );
        }
        if tag == 1 {
            let (owner, rest1) = match Self::unpack_pubkey(rest) {
                Ok(p) => p,
                Err(e) => {
                    return Err(e);
                },
            };
            proof {
                assert(owner@ =~= r.subrange(0, 32));
                if r.len() >= 40 {
                    assert(rest1@.subrange(0, 8) =~= r.subrange(32, 40));
                }
            }
            let (amount, _rest2) = match Self::unpack_u64(rest1) {
                Ok(p) => p,
                Err(e) => {
                    return Err(e);
                },
            };
            return Ok(VestingInstruction::CreateAccount { owner, amount });
        }
        if tag == 2 {
            let (amount, _rest1) = match Self::unpack_u64(rest) {
                Ok(p) => p,
                Err(e) => {
                    return Err(e);
                },
            };
            return Ok(VestingInstruction::AmendAmount { amount });
        }
        if tag == 3 {
            let (start, rest1) = match Self::unpack_i64_option(rest) {
                Ok(p) => p,
                Err(e) => {
                    return Err(e);
                },
            };
            let ghost p1: int = if r[0] == 1 {
                9int
            } else {
                1int
            };
            proof {
                assert(rest1@ =~= r.skip(p1));
            }
            let (schedule, rest2) = match Self::unpack_frequency_option(rest1) {
                Ok(p) => p,
                Err(e) => {
                    return Err(e);
                },
            };
            let ghost p2: int = p1 + if r[p1] == 1 {
                2int
            } else {
                1int
            };
            proof {
                assert(rest2@ =~= r.skip(p2));
                if rest2@.len() >= 1 && rest2@[0] == 1 && rest2@.len() >= 9 {
                    assert(rest2@.subrange(1, 9) =~= r.subrange(p2 + 1, p2 + 9));
                }
            }
            let (duration, _rest3) = match Self::unpack_i64_option(rest2) {
                Ok(p) => p,
                Err(e) => {
                    return Err(e);
                },
            };
            return Ok(VestingInstruction::AmendSchedule { start, schedule, duration });
        }
        if tag == 4 {
            return Ok(VestingInstruction::Claim);
        }
        if tag == 5 {
            return Ok(VestingInstruction::CloseAccount);
        }
        if tag == 6 {
            return Ok(VestingInstruction::CloseVestingSchedule);
        }
        Err(VestingError::InvalidInstruction)
    }

    /// Encodes the instruction as its exact wire bytes.
    pub fn pack(&self) -> (buf: Vec<u8>)
        ensures
            buf@ == spec_pack_instruction(self@),
    {
        let mut buf: Vec<u8> = Vec::new();
        match self {
            VestingInstruction::InitVestingSchedule {
                authority,
                mint,
                schedule,
                start,
                duration,
                vault,
            } => {
                buf.push(0);
                buf.extend_from_slice(authority.as_bytes());
                buf.extend_from_slice(mint.as_bytes());
                buf.push(schedule.to_byte());
                let start_bytes = i64_to_le_bytes(*start);
                buf.extend_from_slice(start_bytes.as_slice());
                let duration_bytes = i64_to_le_bytes(*duration);
                buf.extend_from_slice(duration_bytes.as_slice());
                Self::pack_pubkey_option(vault, &mut buf);
                assert(buf@ =~= spec_pack_instruction(self@));
            },
            VestingInstruction::CreateAccount { owner, amount } => {
                buf.push(1);
                buf.extend_from_slice(owner.as_bytes());
                let amount_bytes = u64_to_le_bytes(*amount);
                buf.extend_from_slice(amount_bytes.as_slice());
                assert(buf@ =~= spec_pack_instruction(self@));
            },
            VestingInstruction::AmendAmount { amount } => {
                buf.push(2);
                let amount_bytes = u64_to_le_bytes(*amount);
                buf.extend_from_slice(amount_bytes.as_slice());
                assert(buf@ =~= spec_pack_instruction(self@));
            },
            VestingInstruction::AmendSchedule { start, schedule, duration } => {
                buf.push(3);
                match start {
                    Some(x) => {
                        buf.push(1);
                        let b = i64_to_le_bytes(*x);
                        buf.extend_from_slice(b.as_slice());
                    },
                    None => {
                        buf.push(0);
                    },
                }
                match schedule {
                    Some(f) => {
                        buf.push(1);
                        buf.push(f.to_byte());
                    },
                    None => {
                        buf.push(0);
                    },
                }
                match duration {
                    Some(x) => {
                        buf.push(1);
                        let b = i64_to_le_bytes(*x);
                        buf.extend_from_slice(b.as_slice());
                    },
                    None => {
                        buf.push(0);
                    },
                }
                assert(buf@ =~= spec_pack_instruction(self@));
            },
            VestingInstruction::Claim => {
                buf.push(4);
                assert(buf@ =~= spec_pack_instruction(self@));
            },
            VestingInstruction::CloseAccount => {
                buf.push(5);
                assert(buf@ =~= spec_pack_instruction(self@));
            },
            VestingInstruction::CloseVestingSchedule => {
                buf.push(6);
                assert(buf@ =~= spec_pack_instruction(self@));
            },
        }
        buf
    }
}

/// Decoding an encoded instruction gives the instruction back.
pub proof fn lemma_instruction_round_trip(v: InstructionV)
    requires
        v.wf(),
    ensures
        spec_instruction_ok(spec_pack_instruction(v)),
        spec_unpack_instruction(spec_pack_instruction(v)) == v,
{
    lemma_auto_spec_u64_to_from_le_bytes();
    let s = spec_pack_instruction(v);
    let r = s.skip(1);
    match v {
        InstructionV::InitVestingSchedule { authority, mint, schedule, start, duration, vault } => {
            lemma_i64_u64_round_trip(start);
            lemma_i64_u64_round_trip(duration);
            assert(r.subrange(0, 32) =~= authority);
            assert(r.subrange(32, 64) =~= mint);
            assert(r[64] == spec_frequency_byte(schedule));
            assert(r.subrange(65, 73) =~= spec_i64_to_le_bytes(start));
            assert(r.subrange(73, 81) =~= spec_i64_to_le_bytes(duration));
            assert(r.subrange(81, 117) =~= spec_coption_bytes(vault));
            let c = r.subrange(81, 117);
            match vault {
                Some(k) => {
                    assert(c.subrange(4, 36) =~= k);
                },
                None => {
                },
            }
            assert(spec_unpack_instruction(s) =~= v);
        },
        InstructionV::CreateAccount { owner, amount } => {
            assert(r.subrange(0, 32) =~= owner);
            assert(r.subrange(32, 40) =~= spec_u64_to_le_bytes(amount));
            assert(spec_unpack_instruction(s) =~= v);
        },
        InstructionV::AmendAmount { amount } => {
            assert(r.subrange(0, 8) =~= spec_u64_to_le_bytes(amount));
            assert(spec_unpack_instruction(s) =~= v);
        },
        InstructionV::AmendSchedule { start, schedule, duration } => {
            let p1: int = if r[0] == 1 {
                9int
            } else {
                1int
            };
            match start {
                Some(x) => {
                    lemma_i64_u64_round_trip(x);
                    assert(r[0] == 1);
                    assert(r.subrange(1, 9) =~= spec_i64_to_le_bytes(x));
                },
                None => {
                    assert(r[0] == 0);
                },
            }
            match schedule {
                Some(f) => {
                    assert(r[p1] == 1);
                    assert(r[p1 + 1] == spec_frequency_byte(f));
                },
                None => {
                    assert(r[p1] == 0);
                },
            }
            let p2: int = p1 + if r[p1] == 1 {
                2int
            } else {
                1int
            };
            match duration {
                Some(x) => {
                    lemma_i64_u64_round_trip(x);
                    assert(r[p2] == 1);
                    assert(r.subrange(p2 + 1, p2 + 9) =~= spec_i64_to_le_bytes(x));
                },
                None => {
                    assert(r[p2] == 0);
                },
            }
            assert(spec_unpack_instruction(s) =~= v);
        },
        InstructionV::Claim => {
            assert(spec_unpack_instruction(s) =~= v);
        },
        InstructionV::CloseAccount => {
            assert(spec_unpack_instruction(s) =~= v);
        },
        InstructionV::CloseVestingSchedule => {
            assert(spec_unpack_instruction(s) =~= v);
        },
    }
}

} // verus!
