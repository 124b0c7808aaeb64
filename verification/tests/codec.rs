use fsp_vesting::error::VestingError;
use fsp_vesting::instruction::VestingInstruction;
use fsp_vesting::pubkey::Pubkey;
use fsp_vesting::state::{Account, Frequency, VestingSchedule, ACCOUNT_LEN, SCHEDULE_LEN};

fn key(b: u8) -> Pubkey {
    Pubkey::new(vec![b; 32]).unwrap()
}

fn sample_schedule(vault: Option<Pubkey>) -> VestingSchedule {
    VestingSchedule {
        is_initialized: true,
        authority: key(1),
        mint: key(2),
        frequency: Frequency::Day,
        start: 1_700_000_000,
        duration: 86_400 * 30,
        vault,
    }
}

#[test]
fn schedule_round_trip_with_vault() {
    let s = sample_schedule(Some(key(3)));
    let mut buf = Vec::new();
    s.pack_into_slice(&mut buf);
    assert_eq!(buf.len(), SCHEDULE_LEN);
    let d = VestingSchedule::unpack_from_slice(&buf).unwrap();
    assert!(d.is_initialized);
    assert!(d.authority == key(1));
    assert!(d.mint == key(2));
    assert_eq!(d.frequency, Frequency::Day);
    assert_eq!(d.start, 1_700_000_000);
    assert_eq!(d.duration, 86_400 * 30);
    let mut buf2 = Vec::new();
    d.pack_into_slice(&mut buf2);
    assert_eq!(buf, buf2);
    assert!(d.vault.unwrap() == key(3));
}

#[test]
fn schedule_round_trip_without_vault() {
    let s = sample_schedule(None);
    let mut buf = Vec::new();
    s.pack_into_slice(&mut buf);
    let d = VestingSchedule::unpack_from_slice(&buf).unwrap();
    assert!(d.vault.is_none());
    let mut buf2 = Vec::new();
    d.pack_into_slice(&mut buf2);
    assert_eq!(buf, buf2);
}

#[test]
fn schedule_byte_layout() {
    let s = sample_schedule(Some(key(3)));
    let mut buf = Vec::new();
    s.pack_into_slice(&mut buf);
    assert_eq!(buf[0], 1);
    assert_eq!(&buf[1..33], &[1u8; 32][..]);
    assert_eq!(&buf[33..65], &[2u8; 32][..]);
    assert_eq!(buf[65], 5); // Day
    assert_eq!(&buf[66..74], &1_700_000_000i64.to_le_bytes()[..]);
    assert_eq!(&buf[74..82], &(86_400i64 * 30).to_le_bytes()[..]);
    assert_eq!(&buf[82..86], &[1, 0, 0, 0][..]);
    assert_eq!(&buf[86..118], &[3u8; 32][..]);
}

#[test]
fn schedule_negative_start_round_trip() {
    let mut s = sample_schedule(None);
    s.start = -12345;
    s.duration = i64::MAX;
    let mut buf = Vec::new();
    s.pack_into_slice(&mut buf);
    let d = VestingSchedule::unpack_from_slice(&buf).unwrap();
    assert_eq!(d.start, -12345);
    assert_eq!(d.duration, i64::MAX);
}

#[test]
fn schedule_decode_rejects_short_buffer() {
    let r = VestingSchedule::unpack_from_slice(&[0u8; 117]);
    assert_eq!(r.unwrap_err(), VestingError::InvalidAccountData);
}

#[test]
fn schedule_decode_rejects_bad_bool() {
    let mut buf = vec![0u8; SCHEDULE_LEN];
    buf[0] = 2;
    let r = VestingSchedule::unpack_from_slice(&buf);
    assert_eq!(r.unwrap_err(), VestingError::InvalidAccountData);
}

#[test]
fn schedule_decode_rejects_bad_frequency() {
    let mut buf = vec![0u8; SCHEDULE_LEN];
    buf[65] = 10;
    let r = VestingSchedule::unpack_from_slice(&buf);
    assert_eq!(r.unwrap_err(), VestingError::InvalidAccountData);
}

#[test]
fn schedule_decode_rejects_bad_option_tag() {
    let mut buf = vec![0u8; SCHEDULE_LEN];
    buf[82] = 2;
    let r = VestingSchedule::unpack_from_slice(&buf);
    assert_eq!(r.unwrap_err(), VestingError::InvalidAccountData);
    let mut buf2 = vec![0u8; SCHEDULE_LEN];
    buf2[83] = 1;
    let r2 = VestingSchedule::unpack_from_slice(&buf2);
    assert_eq!(r2.unwrap_err(), VestingError::InvalidAccountData);
}

#[test]
fn account_round_trip() {
    let a = Account {
        is_initialized: true,
        vesting_schedule: key(9),
        owner: key(8),
        mint: key(2),
        amount: 1_000_000,
        claimed: 42,
    };
    let mut buf = Vec::new();
    a.pack_into_slice(&mut buf);
    assert_eq!(buf.len(), ACCOUNT_LEN);
    let d = Account::unpack_from_slice(&buf).unwrap();
    assert!(d.is_initialized);
    assert!(d.vesting_schedule == key(9));
    assert!(d.owner == key(8));
    assert!(d.mint == key(2));
    assert_eq!(d.amount, 1_000_000);
    assert_eq!(d.claimed, 42);
    let mut buf2 = Vec::new();
    d.pack_into_slice(&mut buf2);
    assert_eq!(buf, buf2);
}

#[test]
fn account_decode_rejects_short_buffer() {
    let r = Account::unpack_from_slice(&[0u8; 112]);
    assert_eq!(r.unwrap_err(), VestingError::InvalidAccountData);
}

#[test]
fn account_decode_rejects_bad_bool() {
    let mut buf = vec![0u8; ACCOUNT_LEN];
    buf[0] = 255;
    let r = Account::unpack_from_slice(&buf);
    assert_eq!(r.unwrap_err(), VestingError::InvalidAccountData);
}

#[test]
fn instruction_init_round_trip() {
    let ix = VestingInstruction::InitVestingSchedule {
        authority: key(1),
        mint: key(2),
        schedule: Frequency::Month,
        start: 1_700_000_000,
        duration: 86_400 * 365,
        vault: Some(key(3)),
    };
    let buf = ix.pack();
    assert_eq!(buf.len(), 118);
    assert_eq!(buf[0], 0);
    match VestingInstruction::unpack(&buf).unwrap() {
        VestingInstruction::InitVestingSchedule {
            authority,
            mint,
            schedule,
            start,
            duration,
            vault,
        } => {
            assert!(authority == key(1));
            assert!(mint == key(2));
            assert_eq!(schedule, Frequency::Month);
            assert_eq!(start, 1_700_000_000);
            assert_eq!(duration, 86_400 * 365);
            assert!(vault.unwrap() == key(3));
        },
        _ => panic!("wrong variant"),
    }
}

#[test]
fn instruction_create_account_round_trip() {
    let ix = VestingInstruction::CreateAccount { owner: key(7), amount: 5_000 };
    let buf = ix.pack();
    assert_eq!(buf.len(), 41);
    assert_eq!(buf[0], 1);
    match VestingInstruction::unpack(&buf).unwrap() {
        VestingInstruction::CreateAccount { owner, amount } => {
            assert!(owner == key(7));
            assert_eq!(amount, 5_000);
        },
        _ => panic!("wrong variant"),
    }
}

#[test]
fn instruction_amend_amount_round_trip() {
    let ix = VestingInstruction::AmendAmount { amount: u64::MAX };
    let buf = ix.pack();
    assert_eq!(buf.len(), 9);
    assert_eq!(buf[0], 2);
    match VestingInstruction::unpack(&buf).unwrap() {
        VestingInstruction::AmendAmount { amount } => assert_eq!(amount, u64::MAX),
        _ => panic!("wrong variant"),
    }
}

#[test]
fn instruction_amend_schedule_round_trip_all_fields() {
    let ix = VestingInstruction::AmendSchedule {
        start: Some(-5),
        schedule: Some(Frequency::Week),
        duration: Some(1_000),
    };
    let buf = ix.pack();
    assert_eq!(buf.len(), 1 + 9 + 2 + 9);
    match VestingInstruction::unpack(&buf).unwrap() {
        VestingInstruction::AmendSchedule { start, schedule, duration } => {
            assert_eq!(start, Some(-5));
            assert_eq!(schedule, Some(Frequency::Week));
            assert_eq!(duration, Some(1_000));
        },
        _ => panic!("wrong variant"),
    }
}

#[test]
fn instruction_amend_schedule_round_trip_sparse() {
    let ix = VestingInstruction::AmendSchedule {
        start: None,
        schedule: Some(Frequency::Once),
        duration: None,
    };
    let buf = ix.pack();
    assert_eq!(buf, vec![3, 0, 1, 0, 0]);
    match VestingInstruction::unpack(&buf).unwrap() {
        VestingInstruction::AmendSchedule { start, schedule, duration } => {
            assert_eq!(start, None);
            assert_eq!(schedule, Some(Frequency::Once));
            assert_eq!(duration, None);
        },
        _ => panic!("wrong variant"),
    }
}

#[test]
fn instruction_bare_variants_round_trip() {
    assert_eq!(VestingInstruction::Claim.pack(), vec![4]);
    assert_eq!(VestingInstruction::CloseAccount.pack(), vec![5]);
    assert_eq!(VestingInstruction::CloseVestingSchedule.pack(), vec![6]);
    assert!(matches!(
        VestingInstruction::unpack(&[4]).unwrap(),
        VestingInstruction::Claim
    ));
    assert!(matches!(
        VestingInstruction::unpack(&[5]).unwrap(),
        VestingInstruction::CloseAccount
    ));
    assert!(matches!(
        VestingInstruction::unpack(&[6]).unwrap(),
        VestingInstruction::CloseVestingSchedule
    ));
}

#[test]
fn instruction_decode_rejects_unknown_tag() {
    let r = VestingInstruction::unpack(&[7]);
    assert_eq!(r.unwrap_err(), VestingError::InvalidInstruction);
}

#[test]
fn instruction_decode_rejects_empty() {
    let r = VestingInstruction::unpack(&[]);
    assert_eq!(r.unwrap_err(), VestingError::InvalidInstruction);
}

#[test]
fn instruction_decode_rejects_truncated_fields() {
    // Tag 0 with one byte missing from its 117 field bytes.
    let r = VestingInstruction::unpack(&vec![0u8; 117]);
    assert_eq!(r.unwrap_err(), VestingError::InvalidInstruction);
    // Tag 1 with a truncated amount.
    let r = VestingInstruction::unpack(&vec![1u8; 40]);
    assert_eq!(r.unwrap_err(), VestingError::InvalidInstruction);
    // Tag 2 with a truncated amount.
    let r = VestingInstruction::unpack(&[2u8, 1, 2, 3]);
    assert_eq!(r.unwrap_err(), VestingError::InvalidInstruction);
    // Tag 3 with a start flag set but no start bytes.
    let r = VestingInstruction::unpack(&[3u8, 1]);
    assert_eq!(r.unwrap_err(), VestingError::InvalidInstruction);
}

#[test]
fn instruction_decode_rejects_bad_flags() {
    // An AmendSchedule presence flag outside {0, 1}.
    let r = VestingInstruction::unpack(&[3u8, 2]);
    assert_eq!(r.unwrap_err(), VestingError::InvalidInstruction);
    // An invalid frequency byte inside AmendSchedule.
    let r = VestingInstruction::unpack(&[3u8, 0, 1, 10, 0]);
    assert_eq!(r.unwrap_err(), VestingError::InvalidInstruction);
    // A bad vault presence tag inside init.
    let mut buf = vec![0u8; 118];
    buf[82] = 3;
    let r = VestingInstruction::unpack(&buf);
    assert_eq!(r.unwrap_err(), VestingError::InvalidInstruction);
}

#[test]
fn instruction_decode_ignores_trailing_bytes() {
    let mut buf = VestingInstruction::Claim.pack();
    buf.push(99);
    assert!(matches!(
        VestingInstruction::unpack(&buf).unwrap(),
        VestingInstruction::Claim
    ));
}

#[test]
fn frequency_bytes_are_stable() {
    let all = [
        (Frequency::Once, 0u8),
        (Frequency::Slot, 1),
        (Frequency::Second, 2),
        (Frequency::Minute, 3),
        (Frequency::Hour, 4),
        (Frequency::Day, 5),
        (Frequency::Week, 6),
        (Frequency::Month, 7),
        (Frequency::Quarter, 8),
        (Frequency::Year, 9),
    ];
    for (f, b) in all {
        assert_eq!(f.to_byte(), b);
        assert_eq!(Frequency::from_byte(b).unwrap(), f);
    }
    assert!(Frequency::from_byte(10).is_none());
}

#[test]
fn pubkey_refuses_wrong_length() {
    assert!(Pubkey::new(vec![0u8; 31]).is_none());
    assert!(Pubkey::new(vec![0u8; 33]).is_none());
    assert!(Pubkey::from_slice(&[0u8; 4]).is_none());
    let k = Pubkey::new(vec![5u8; 32]).unwrap();
    assert_eq!(k.as_bytes(), &[5u8; 32][..]);
}
