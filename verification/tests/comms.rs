use snake_net::comms::{
    encode_frame, get_last_message, read_into_buff, write_result, CommError, Comms, IoFailure,
};

fn frame(payload: &[u8]) -> Vec<u8> {
    encode_frame(payload).unwrap()
}

#[test]
fn frame_is_big_endian_length_and_payload() {
    assert_eq!(frame(&[7, 8, 9]), vec![0, 0, 0, 3, 7, 8, 9]);
    assert_eq!(frame(&[]), vec![0, 0, 0, 0]);
    let long = vec![1u8; 300];
    let f = frame(&long);
    assert_eq!(&f[..4], &[0, 0, 1, 44]);
    assert_eq!(&f[4..], &long[..]);
    let longest = vec![2u8; 4092];
    let f = frame(&longest);
    assert_eq!(&f[..4], &[0, 0, 15, 252]);
    assert_eq!(f.len(), 4096);
}

#[test]
fn payload_over_the_limit_is_invalid_data() {
    let too_long = vec![0u8; 4093];
    assert_eq!(encode_frame(&too_long), Err(CommError::InvalidData));
}

#[test]
fn framing_round_trip() {
    for payload in [vec![1u8], vec![0u8; 17], (0..=255u8).collect::<Vec<u8>>(), vec![9u8; 4092]] {
        let (last, rest) = get_last_message(&frame(&payload));
        assert_eq!(last, Some(payload));
        assert_eq!(rest, None);
    }
}

#[test]
fn round_trip_of_an_encoded_value() {
    let name = "alice".to_string();
    let encoded: Vec<u8> = postcard::to_allocvec(&name).unwrap();
    let mut comms = Comms::new();
    let payload = comms.receive_message_raw(Ok(frame(&encoded))).unwrap();
    let decoded: String = postcard::from_bytes(&payload).unwrap();
    assert_eq!(decoded, name);
}

#[test]
fn last_of_several_frames_wins() {
    let mut bytes = frame(&[1, 1]);
    bytes.extend(frame(&[2, 2, 2]));
    bytes.extend(frame(&[3]));
    let (last, rest) = get_last_message(&bytes);
    assert_eq!(last, Some(vec![3]));
    assert_eq!(rest, None);
}

#[test]
fn two_frames_in_one_read_yield_only_the_second() {
    let first = postcard::to_allocvec(&'a').unwrap();
    let second = postcard::to_allocvec(&'d').unwrap();
    let mut bytes = frame(&first);
    bytes.extend(frame(&second));
    let mut comms = Comms::new();
    let payload = comms.receive_message_raw(Ok(bytes)).unwrap();
    assert_eq!(postcard::from_bytes::<char>(&payload).unwrap(), 'd');
    assert_eq!(comms.recv_buffer_pointer(), 0);
    assert_eq!(
        comms.receive_message_raw(Err(IoFailure::WouldBlock)),
        Err(CommError::WouldBlock)
    );
}

#[test]
fn partial_frame_is_kept_as_remainder() {
    let mut bytes = frame(&[1, 2, 3]);
    bytes.extend_from_slice(&[0, 0, 0, 5, 9, 9]);
    let (last, rest) = get_last_message(&bytes);
    assert_eq!(last, Some(vec![1, 2, 3]));
    assert_eq!(rest, Some(vec![0, 0, 0, 5, 9, 9]));

    let (last, rest) = get_last_message(&[0, 0]);
    assert_eq!(last, None);
    assert_eq!(rest, Some(vec![0, 0]));

    let (last, rest) = get_last_message(&[0, 0, 0, 1]);
    assert_eq!(last, None);
    assert_eq!(rest, Some(vec![0, 0, 0, 1]));

    let (last, rest) = get_last_message(&[]);
    assert_eq!(last, None);
    assert_eq!(rest, None);
}

#[test]
fn empty_frame_is_a_frame() {
    let (last, rest) = get_last_message(&[0, 0, 0, 0]);
    assert_eq!(last, Some(vec![]));
    assert_eq!(rest, None);
    let (last, rest) = get_last_message(&[0, 0, 0, 0, 0, 0]);
    assert_eq!(last, Some(vec![]));
    assert_eq!(rest, Some(vec![0, 0]));
}

#[test]
fn frame_split_at_any_place_is_received_whole() {
    let payload: Vec<u8> = (1..=20u8).collect();
    let bytes = frame(&payload);
    for cut in 1..bytes.len() {
        let mut comms = Comms::new();
        let first = comms.receive_message_raw(Ok(bytes[..cut].to_vec()));
        assert_eq!(first, Err(CommError::WaitingForMoreData));
        assert_eq!(comms.recv_buffer_pointer(), cut);
        let second = comms.receive_message_raw(Ok(bytes[cut..].to_vec()));
        assert_eq!(second, Ok(payload.clone()));
        assert_eq!(comms.recv_buffer_pointer(), 0);
    }
}

#[test]
fn frame_that_arrives_byte_by_byte_is_received_whole() {
    let payload = vec![5u8, 6, 7];
    let bytes = frame(&payload);
    let mut comms = Comms::new();
    for (i, b) in bytes.iter().enumerate() {
        let r = comms.receive_message_raw(Ok(vec![*b]));
        if i + 1 < bytes.len() {
            assert_eq!(r, Err(CommError::WaitingForMoreData));
            assert_eq!(comms.recv_buffer_pointer(), i + 1);
        } else {
            assert_eq!(r, Ok(payload.clone()));
        }
    }
}

#[test]
fn beginning_of_the_next_frame_stays_buffered() {
    let mut bytes = frame(&[1]);
    let next = frame(&[2, 3, 4]);
    bytes.extend_from_slice(&next[..5]);
    let mut comms = Comms::new();
    assert_eq!(comms.receive_message_raw(Ok(bytes)), Ok(vec![1]));
    assert_eq!(comms.recv_buffer_pointer(), 5);
    assert_eq!(comms.free_space(), 4091);
    assert_eq!(
        comms.receive_message_raw(Ok(next[5..].to_vec())),
        Ok(vec![2, 3, 4])
    );
    assert_eq!(comms.recv_buffer_pointer(), 0);
    assert_eq!(comms.free_space(), 4096);
}

#[test]
fn read_of_nothing_means_disconnected() {
    let mut comms = Comms::new();
    assert_eq!(
        comms.receive_message_raw(Ok(vec![0, 0])),
        Err(CommError::WaitingForMoreData)
    );
    assert_eq!(comms.receive_message_raw(Ok(vec![])), Err(CommError::Disconnected));
    assert_eq!(comms.recv_buffer_pointer(), 2);
}

#[test]
fn failed_reads_leave_the_buffer_alone() {
    let mut comms = Comms::new();
    assert_eq!(
        comms.receive_message_raw(Ok(vec![0, 0, 0])),
        Err(CommError::WaitingForMoreData)
    );
    assert_eq!(comms.receive_message_raw(Err(IoFailure::WouldBlock)), Err(CommError::WouldBlock));
    assert_eq!(comms.receive_message_raw(Err(IoFailure::Other)), Err(CommError::Unknown));
    assert_eq!(comms.recv_buffer_pointer(), 3);
    assert_eq!(comms.receive_message_raw(Ok(vec![1, 42])), Ok(vec![42]));
}

#[test]
fn frame_longer_than_the_buffer_fills_it() {
    let mut comms = Comms::new();
    let mut bytes = vec![0u8, 0, 0x20, 0];
    bytes.extend(vec![1u8; 4092]);
    assert_eq!(
        comms.receive_message_raw(Ok(bytes)),
        Err(CommError::WaitingForMoreData)
    );
    assert_eq!(comms.free_space(), 0);
    assert_eq!(comms.receive_message_raw(Ok(vec![])), Err(CommError::Disconnected));
}

#[test]
fn read_outcomes_map_to_errors() {
    assert_eq!(read_into_buff(Ok(vec![1, 2, 3])), Ok(vec![1, 2, 3]));
    assert_eq!(read_into_buff(Ok(vec![])), Err(CommError::Disconnected));
    assert_eq!(read_into_buff(Err(IoFailure::WouldBlock)), Err(CommError::WouldBlock));
    assert_eq!(read_into_buff(Err(IoFailure::Other)), Err(CommError::Unknown));
}

#[test]
fn write_outcomes_map_to_errors() {
    assert_eq!(write_result(Ok(())), Ok(()));
    assert_eq!(write_result(Err(IoFailure::WouldBlock)), Err(CommError::WouldBlock));
    assert_eq!(write_result(Err(IoFailure::Other)), Err(CommError::Unknown));
}
