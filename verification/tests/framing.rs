use doh_proxy::framing::{frame_length, frame_message, MAX_DATAGRAM_SIZE, MAX_FRAME_SIZE};

#[test]
fn frame_carries_length_high_octet_first() {
    assert_eq!(frame_message(&vec![9, 8, 7]), Some(vec![0, 3, 9, 8, 7]));
    assert_eq!(frame_message(&vec![]), Some(vec![0, 0]));
    let long = vec![5u8; 300];
    let frame = frame_message(&long).unwrap();
    assert_eq!(frame.len(), 302);
    assert_eq!(&frame[0..2], &[1, 44]);
    assert_eq!(&frame[2..], &long[..]);
    assert_eq!(frame_length(frame[0], frame[1]), 300);
}

#[test]
fn frame_length_reads_two_octets() {
    assert_eq!(frame_length(0, 0), 0);
    assert_eq!(frame_length(0, 255), 255);
    assert_eq!(frame_length(1, 0), 256);
    assert_eq!(frame_length(255, 255), 65535);
    assert_eq!(MAX_FRAME_SIZE, 65535);
    assert_eq!(MAX_DATAGRAM_SIZE, 2048);
}

#[test]
fn oversized_message_has_no_frame() {
    assert!(frame_message(&vec![0u8; 65535]).is_some());
    assert!(frame_message(&vec![0u8; 65536]).is_none());
}
