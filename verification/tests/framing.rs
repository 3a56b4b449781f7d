use tun_forward::framing::{
    frame_packet, on_device_error, received_packets, strip_header, write_batch, zero_buffer,
    BatchError, Direction, ReceiveBuffers, Verdict, BATCH_CAPACITY, HEADER_LEN, MAX_PACKET_LEN,
    PACKET_BUFFER_LEN,
};

#[test]
fn header_length_is_that_of_the_device() {
    assert_eq!(HEADER_LEN, 10);
    assert_eq!(HEADER_LEN, tun_rs::VIRTIO_NET_HDR_LEN);
    assert_eq!(frame_packet(&[]).len(), tun_rs::VIRTIO_NET_HDR_LEN);
}

#[test]
fn batch_capacity_is_that_of_the_device() {
    assert_eq!(BATCH_CAPACITY, 128);
    assert_eq!(BATCH_CAPACITY, tun_rs::IDEAL_BATCH_SIZE);
    assert_eq!(ReceiveBuffers::new().bufs.len(), tun_rs::IDEAL_BATCH_SIZE);
}

#[test]
fn zero_buffer_has_the_length_and_only_zeros() {
    assert_eq!(zero_buffer(0), Vec::<u8>::new());
    assert_eq!(zero_buffer(3), vec![0u8, 0, 0]);
    let b = zero_buffer(1500);
    assert_eq!(b.len(), 1500);
    assert!(b.iter().all(|x| *x == 0));
}

#[test]
fn frame_is_zero_header_then_packet() {
    let packet = [0x45u8, 0x00, 0x00, 0x1c, 0xde, 0xad];
    let frame = frame_packet(&packet);
    assert_eq!(
        frame,
        vec![0u8, 0, 0, 0, 0, 0, 0, 0, 0, 0, 0x45, 0x00, 0x00, 0x1c, 0xde, 0xad]
    );
}

#[test]
fn frame_of_the_empty_packet_is_the_header() {
    assert_eq!(frame_packet(&[]), vec![0u8; 10]);
}

#[test]
fn frame_keeps_zero_bytes_of_the_packet() {
    assert_eq!(frame_packet(&[0, 0]), vec![0u8; 12]);
}

#[test]
fn strip_header_gives_what_follows_the_header() {
    let frame = [1u8, 2, 3, 4, 5, 6, 7, 8, 9, 10, 11, 12, 13];
    assert_eq!(strip_header(&frame), Some(vec![11u8, 12, 13]));
}

#[test]
fn strip_header_of_a_bare_header_is_the_empty_packet() {
    assert_eq!(strip_header(&[9u8; 10]), Some(Vec::new()));
}

#[test]
fn strip_header_refuses_a_short_frame() {
    assert_eq!(strip_header(&[]), None);
    assert_eq!(strip_header(&[0u8; 9]), None);
}

#[test]
fn framing_round_trip_keeps_the_packet() {
    let packets: Vec<Vec<u8>> = vec![
        vec![],
        vec![0],
        vec![0x45, 0, 0, 20, 0, 0, 0, 0, 64, 6, 0, 0, 10, 10, 10, 2, 93, 184, 216, 34],
        (0..=255u8).collect(),
        vec![0xff; 1500],
    ];
    for p in packets {
        let frame = frame_packet(&p);
        assert_eq!(frame.len(), p.len() + 10);
        assert_eq!(&frame[..10], &[0u8; 10][..]);
        assert_eq!(strip_header(&frame), Some(p));
    }
}

#[test]
fn write_batch_holds_one_frame_behind_the_header() {
    let batch = write_batch(&[7, 8, 9]);
    assert_eq!(batch.offset, 10);
    assert_eq!(batch.frames, vec![vec![0u8, 0, 0, 0, 0, 0, 0, 0, 0, 0, 7, 8, 9]]);
}

#[test]
fn received_packets_come_in_buffer_order() {
    let bufs = vec![vec![1u8, 2, 3, 4], vec![5, 6, 7, 8], vec![9, 10, 11, 12]];
    let sizes = vec![2usize, 4, 0];
    assert_eq!(
        received_packets(&bufs, &sizes, 3, 0),
        Ok(vec![vec![1u8, 2], vec![5, 6, 7, 8], vec![]])
    );
    assert_eq!(received_packets(&bufs, &sizes, 2, 0), Ok(vec![vec![1u8, 2], vec![5, 6, 7, 8]]));
    assert_eq!(received_packets(&bufs, &sizes, 0, 0), Ok(vec![]));
}

#[test]
fn received_packets_begin_at_the_offset() {
    let bufs = vec![vec![1u8, 2, 3, 4], vec![5, 6, 7, 8]];
    let sizes = vec![2usize, 3];
    assert_eq!(received_packets(&bufs, &sizes, 2, 1), Ok(vec![vec![2u8, 3], vec![6, 7, 8]]));
    assert_eq!(received_packets(&bufs, &sizes, 1, 2), Ok(vec![vec![3u8, 4]]));
}

#[test]
fn received_packets_refuse_a_count_beyond_the_buffers() {
    let bufs = vec![vec![1u8, 2], vec![3, 4]];
    assert_eq!(
        received_packets(&bufs, &vec![1, 1], 3, 0),
        Err(BatchError::CountOutOfRange)
    );
    assert_eq!(
        received_packets(&bufs, &vec![1], 2, 0),
        Err(BatchError::CountOutOfRange)
    );
    assert_eq!(
        received_packets(&Vec::new(), &Vec::new(), 1, 0),
        Err(BatchError::CountOutOfRange)
    );
}

#[test]
fn received_packets_refuse_a_packet_beyond_its_buffer() {
    let bufs = vec![vec![1u8, 2], vec![3, 4]];
    assert_eq!(
        received_packets(&bufs, &vec![2, 3], 2, 0),
        Err(BatchError::PacketOutOfRange)
    );
    assert_eq!(
        received_packets(&bufs, &vec![2, 2], 2, 1),
        Err(BatchError::PacketOutOfRange)
    );
    assert_eq!(
        received_packets(&bufs, &vec![0, 0], 2, 3),
        Err(BatchError::PacketOutOfRange)
    );
    assert_eq!(
        received_packets(&bufs, &vec![usize::MAX, 0], 1, usize::MAX),
        Err(BatchError::PacketOutOfRange)
    );
    assert_eq!(received_packets(&bufs, &vec![2, 3], 1, 0), Ok(vec![vec![1u8, 2]]));
}

#[test]
fn receive_buffers_are_made_for_a_full_batch() {
    let b = ReceiveBuffers::new();
    assert_eq!(MAX_PACKET_LEN, 65535);
    assert_eq!(PACKET_BUFFER_LEN, 1500);
    assert_eq!(b.original.len(), 10 + 65535);
    assert!(b.original.iter().all(|x| *x == 0));
    assert_eq!(b.bufs.len(), 128);
    assert!(b.bufs.iter().all(|buf| buf.len() == 1500 && buf.iter().all(|x| *x == 0)));
    assert_eq!(b.sizes, vec![0usize; 128]);
}

#[test]
fn receive_buffers_hand_out_what_a_read_left() {
    let mut b = ReceiveBuffers::new();
    b.bufs[0][..3].copy_from_slice(&[1, 2, 3]);
    b.sizes[0] = 3;
    b.bufs[1][..2].copy_from_slice(&[4, 5]);
    b.sizes[1] = 2;
    assert_eq!(b.packets(2), Ok(vec![vec![1u8, 2, 3], vec![4, 5]]));
    assert_eq!(b.packets(0), Ok(vec![]));
    assert_eq!(b.packets(128).map(|p| p.len()), Ok(128));
    assert_eq!(b.packets(129), Err(BatchError::CountOutOfRange));
    b.sizes[2] = 1501;
    assert_eq!(b.packets(3), Err(BatchError::PacketOutOfRange));
    assert_eq!(b.packets(2), Ok(vec![vec![1u8, 2, 3], vec![4, 5]]));
}

#[test]
fn failed_read_ends_its_direction_and_failed_write_loses_a_packet() {
    assert_eq!(on_device_error(Direction::DeviceToStack), Verdict::Terminate);
    assert_eq!(on_device_error(Direction::StackToDevice), Verdict::DropAndContinue);
}
