use livermore_vesting::error::ProgramError;
use livermore_vesting::pubkey::Pubkey;
use livermore_vesting::state::{
    pack_schedules_into_slice, unpack_schedules, VestingSchedule, VestingScheduleHeader,
};

fn key(b: u8) -> Pubkey {
    Pubkey::new_from_array([b; 32])
}

fn header() -> VestingScheduleHeader {
    VestingScheduleHeader {
        destination_address: key(1),
        mint_address: key(2),
        creator_pubkey: key(3),
        destination_owner: key(4),
        is_initialized: true,
        creation_timestamp: 0x0102_0304,
    }
}

#[test]
fn header_layout_and_roundtrip() {
    let h = header();
    let bytes = h.pack();
    assert_eq!(bytes.len(), VestingScheduleHeader::LEN);
    assert_eq!(&bytes[0..32], &[1u8; 32]);
    assert_eq!(&bytes[96..128], &[4u8; 32]);
    assert_eq!(bytes[128], 1);
    assert_eq!(&bytes[129..137], &[4, 3, 2, 1, 0, 0, 0, 0]);
    assert_eq!(VestingScheduleHeader::unpack(&bytes), Ok(h.clone()));
    assert_eq!(VestingScheduleHeader::unpack_from_slice(&bytes), Ok(h));
}

#[test]
fn header_unpack_errors() {
    let mut bytes = header().pack();
    bytes[128] = 0;
    assert_eq!(VestingScheduleHeader::unpack(&bytes), Err(ProgramError::UninitializedAccount));
    assert_eq!(VestingScheduleHeader::unpack(&bytes[..136]), Err(ProgramError::InvalidAccountData));
}

#[test]
fn schedule_layout_and_roundtrip() {
    let s = VestingSchedule { release_time: 0x0A0B, amount: 258 };
    let bytes = s.pack();
    assert_eq!(bytes, vec![0x0B, 0x0A, 0, 0, 0, 0, 0, 0, 2, 1, 0, 0, 0, 0, 0, 0]);
    assert_eq!(VestingSchedule::unpack_from_slice(&bytes), Ok(s));
    let mut dst = vec![9u8; 17];
    s.pack_into_slice(&mut dst);
    assert_eq!(&dst[..16], bytes.as_slice());
    assert_eq!(dst[16], 9);
}

#[test]
fn schedule_lists_roundtrip() {
    let list = vec![
        VestingSchedule { release_time: 1, amount: 2 },
        VestingSchedule { release_time: 3, amount: 4 },
        VestingSchedule { release_time: u64::MAX, amount: 0 },
    ];
    let mut dst = vec![0xFFu8; 50];
    assert_eq!(pack_schedules_into_slice(list.clone(), &mut dst), Ok(()));
    assert_eq!(&dst[48..], &[0xFF, 0xFF]);
    assert_eq!(unpack_schedules(&dst[..48]), Ok(list.clone()));
    assert_eq!(unpack_schedules(&dst[..47]), Err(ProgramError::InvalidAccountData));
    assert_eq!(unpack_schedules(&[]), Ok(vec![]));
    let mut short = vec![0u8; 47];
    assert_eq!(pack_schedules_into_slice(list, &mut short), Err(ProgramError::InvalidAccountData));
    assert_eq!(short, vec![0u8; 47]);
}
