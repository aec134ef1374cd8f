use usbtmc::codec::HEADER_SIZE;
use usbtmc::codec::collect_response;
use usbtmc::codec::decode_dev_dep_msg_in;
use usbtmc::codec::encode_dev_dep_msg_in;
use usbtmc::codec::encode_dev_dep_msg_out;
use usbtmc::codec::encode_request_dev_dep_msg_in;
use usbtmc::errors::ClassError;

#[test]
fn header_size_is_twelve() {
    assert_eq!(HEADER_SIZE, 12);
}

#[test]
fn encode_out_exact_bytes() {
    let frame = encode_dev_dep_msg_out(2, &[65, 66], true);
    assert_eq!(
        frame,
        vec![1, 2, 253, 0, 2, 0, 0, 0, 1, 0, 0, 0, 65, 66, 0, 0]
    );
}

#[test]
fn encode_out_aligned_payload_gets_no_padding() {
    let frame = encode_dev_dep_msg_out(3, &[1, 2, 3, 4], false);
    assert_eq!(frame, vec![1, 3, 252, 0, 4, 0, 0, 0, 0, 0, 0, 0, 1, 2, 3, 4]);
}

#[test]
fn encode_out_empty_payload() {
    let frame = encode_dev_dep_msg_out(7, &[], true);
    assert_eq!(frame, vec![1, 7, 248, 0, 0, 0, 0, 0, 1, 0, 0, 0]);
}

#[test]
fn encode_read_request_exact_bytes() {
    let frame = encode_request_dev_dep_msg_in(5, 0x01020304, Some(10));
    assert_eq!(frame, vec![2, 5, 250, 0, 4, 3, 2, 1, 2, 10, 0, 0]);
}

#[test]
fn encode_read_request_without_terminator() {
    let frame = encode_request_dev_dep_msg_in(9, 256, None);
    assert_eq!(frame, vec![2, 9, 246, 0, 0, 1, 0, 0, 0, 0, 0, 0]);
}

#[test]
fn header_round_trip_all_valid_tags() {
    let payload = vec![0x41u8, 0x42, 0x43];
    for tag in 2u8..=127 {
        for eom in [false, true] {
            let frame = encode_dev_dep_msg_in(tag, &payload, eom);
            let (header, data) = decode_dev_dep_msg_in(&frame).expect("valid frame must decode");
            assert_eq!(header.tag, tag);
            assert_eq!(header.transfer_size, 3);
            assert_eq!(header.eom, eom);
            assert_eq!(data, payload);
        }
    }
}

#[test]
fn decode_rejects_short_buffer() {
    for len in 0..12usize {
        let buf = vec![0u8; len];
        assert_eq!(
            decode_dev_dep_msg_in(&buf),
            Err(ClassError::TruncatedHeader)
        );
    }
}

#[test]
fn decode_rejects_wrong_msg_id() {
    let mut frame = encode_dev_dep_msg_in(4, &[1, 2], true);
    frame[0] = 9;
    assert_eq!(decode_dev_dep_msg_in(&frame), Err(ClassError::InvalidMsgId));
}

#[test]
fn decode_rejects_inconsistent_tag_complement() {
    let mut frame = encode_dev_dep_msg_in(4, &[1, 2], true);
    frame[2] = frame[2].wrapping_add(1);
    assert_eq!(
        decode_dev_dep_msg_in(&frame),
        Err(ClassError::TagCheckFailure)
    );
}

#[test]
fn decode_rejects_declared_size_beyond_buffer() {
    // Header declares 4 payload bytes but only 2 are present.
    let buf = vec![2u8, 3, 252, 0, 4, 0, 0, 0, 1, 0, 0, 0, 65, 66];
    assert_eq!(
        decode_dev_dep_msg_in(&buf),
        Err(ClassError::TruncatedControlResponse)
    );
}

#[test]
fn decode_strips_alignment_padding() {
    let frame = encode_dev_dep_msg_in(6, &[9, 8, 7, 6, 5], true);
    assert_eq!(frame.len(), 12 + 5 + 3);
    let (header, data) = decode_dev_dep_msg_in(&frame).unwrap();
    assert_eq!(header.transfer_size, 5);
    assert_eq!(data, vec![9, 8, 7, 6, 5]);
}

#[test]
fn collect_concatenates_and_stops_at_eom() {
    let bufs = vec![
        encode_dev_dep_msg_in(2, &[72, 101], false),
        encode_dev_dep_msg_in(3, &[108, 108, 111], true),
        encode_dev_dep_msg_in(4, &[99, 99], true),
    ];
    let (data, consumed) = collect_response(&bufs).unwrap();
    assert_eq!(data, vec![72, 101, 108, 108, 111]);
    assert_eq!(consumed, 2);
}

#[test]
fn collect_single_chunk() {
    let bufs = vec![encode_dev_dep_msg_in(2, &[1, 2, 3], true)];
    let (data, consumed) = collect_response(&bufs).unwrap();
    assert_eq!(data, vec![1, 2, 3]);
    assert_eq!(consumed, 1);
}

#[test]
fn collect_propagates_decode_failure() {
    let mut bad = encode_dev_dep_msg_in(3, &[1], true);
    bad[2] = 0;
    let bufs = vec![encode_dev_dep_msg_in(2, &[5], false), bad];
    assert_eq!(collect_response(&bufs), Err(ClassError::TagCheckFailure));
}

#[test]
fn collect_without_eom_is_truncated() {
    let bufs = vec![encode_dev_dep_msg_in(2, &[5], false)];
    assert_eq!(collect_response(&bufs), Err(ClassError::TruncatedHeader));
}
