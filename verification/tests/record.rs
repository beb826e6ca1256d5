use role_counter::error::HandlerError;
use role_counter::opcode::Opcode;
use role_counter::record::{TargetAccount, RECORD_LEN};

fn record(mentors: u32, mentees: u32) -> TargetAccount {
    TargetAccount { mentor_counter: mentors, mentee_counter: mentees }
}

#[test]
fn new_record_is_zero() {
    assert_eq!(TargetAccount::new(), record(0, 0));
}

#[test]
fn encoding_is_eight_bytes() {
    assert_eq!(RECORD_LEN, 8);
    assert_eq!(record(0, 0).to_vec().len(), 8);
    assert_eq!(record(u32::MAX, u32::MAX).to_vec().len(), 8);
}

#[test]
fn encoding_is_little_endian_mentor_first() {
    assert_eq!(record(1, 2).to_vec(), vec![1, 0, 0, 0, 2, 0, 0, 0]);
    assert_eq!(
        record(0x0102_0304, 0xa0b0_c0d0).to_vec(),
        vec![0x04, 0x03, 0x02, 0x01, 0xd0, 0xc0, 0xb0, 0xa0]
    );
    assert_eq!(record(256, 65536).to_vec(), vec![0, 1, 0, 0, 0, 0, 1, 0]);
    assert_eq!(record(u32::MAX, 0).to_vec(), vec![255, 255, 255, 255, 0, 0, 0, 0]);
}

#[test]
fn encoding_matches_borsh_on_each_counter() {
    let mut expected = borsh::to_vec(&7u32).unwrap();
    expected.extend(borsh::to_vec(&0x8000_0001u32).unwrap());
    assert_eq!(record(7, 0x8000_0001).to_vec(), expected);
}

#[test]
fn decoding_reads_little_endian_mentor_first() {
    assert_eq!(TargetAccount::try_from_slice(&[1, 0, 0, 0, 2, 0, 0, 0]), Ok(record(1, 2)));
    assert_eq!(
        TargetAccount::try_from_slice(&[0x04, 0x03, 0x02, 0x01, 0xd0, 0xc0, 0xb0, 0xa0]),
        Ok(record(0x0102_0304, 0xa0b0_c0d0))
    );
    assert_eq!(
        TargetAccount::try_from_slice(&[0, 0, 0, 1, 255, 255, 255, 255]),
        Ok(record(16_777_216, u32::MAX))
    );
}

#[test]
fn decoding_short_buffer_is_corrupt() {
    assert_eq!(TargetAccount::try_from_slice(&[]), Err(HandlerError::CorruptRecord));
    assert_eq!(TargetAccount::try_from_slice(&[1, 0, 0, 0]), Err(HandlerError::CorruptRecord));
    assert_eq!(
        TargetAccount::try_from_slice(&[1, 0, 0, 0, 2, 0, 0]),
        Err(HandlerError::CorruptRecord)
    );
}

#[test]
fn decoding_long_buffer_is_corrupt() {
    assert_eq!(
        TargetAccount::try_from_slice(&[1, 0, 0, 0, 2, 0, 0, 0, 0]),
        Err(HandlerError::CorruptRecord)
    );
    assert_eq!(TargetAccount::try_from_slice(&[0; 16]), Err(HandlerError::CorruptRecord));
}

#[test]
fn round_trip_gives_the_record_back() {
    let samples = [
        record(0, 0),
        record(1, 0),
        record(0, 1),
        record(255, 256),
        record(65_535, 65_536),
        record(0x1234_5678, 0x9abc_def0),
        record(u32::MAX, 0),
        record(0, u32::MAX),
        record(u32::MAX, u32::MAX),
    ];
    for sample in samples {
        assert_eq!(TargetAccount::try_from_slice(&sample.to_vec()), Ok(sample));
    }
}

#[test]
fn round_trip_gives_the_bytes_back() {
    let buffers: [[u8; 8]; 4] = [
        [0; 8],
        [255; 8],
        [1, 2, 3, 4, 5, 6, 7, 8],
        [0, 0, 0, 128, 128, 0, 0, 0],
    ];
    for buffer in buffers {
        let decoded = TargetAccount::try_from_slice(&buffer).unwrap();
        assert_eq!(decoded.to_vec(), buffer.to_vec());
    }
}

#[test]
fn apply_raises_one_counter() {
    assert_eq!(record(3, 9).apply(Opcode::IncrementMentor), Ok(record(4, 9)));
    assert_eq!(record(3, 9).apply(Opcode::IncrementMentee), Ok(record(3, 10)));
    assert_eq!(
        record(u32::MAX - 1, 0).apply(Opcode::IncrementMentor),
        Ok(record(u32::MAX, 0))
    );
}

#[test]
fn apply_refuses_a_full_counter() {
    assert_eq!(
        record(u32::MAX, 5).apply(Opcode::IncrementMentor),
        Err(HandlerError::CounterOverflow)
    );
    assert_eq!(
        record(5, u32::MAX).apply(Opcode::IncrementMentee),
        Err(HandlerError::CounterOverflow)
    );
    assert_eq!(record(u32::MAX, 5).apply(Opcode::IncrementMentee), Ok(record(u32::MAX, 6)));
    assert_eq!(record(5, u32::MAX).apply(Opcode::IncrementMentor), Ok(record(6, u32::MAX)));
}

#[test]
fn opcode_from_byte() {
    assert_eq!(Opcode::from_byte(0), Some(Opcode::IncrementMentor));
    assert_eq!(Opcode::from_byte(1), Some(Opcode::IncrementMentee));
    assert_eq!(Opcode::from_byte(2), None);
    assert_eq!(Opcode::from_byte(255), None);
}

#[test]
fn opcode_parse_reads_first_byte_only() {
    assert_eq!(Opcode::parse(&[0]), Ok(Opcode::IncrementMentor));
    assert_eq!(Opcode::parse(&[1]), Ok(Opcode::IncrementMentee));
    assert_eq!(Opcode::parse(&[0, 9, 9]), Ok(Opcode::IncrementMentor));
    assert_eq!(Opcode::parse(&[1, 0]), Ok(Opcode::IncrementMentee));
    assert_eq!(Opcode::parse(&[2, 0]), Err(HandlerError::InvalidOpcode));
    assert_eq!(Opcode::parse(&[255]), Err(HandlerError::InvalidOpcode));
    assert_eq!(Opcode::parse(&[]), Err(HandlerError::MissingInstructionData));
}
