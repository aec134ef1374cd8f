use usbtmc::caps::USB488Capabilities;
use usbtmc::caps::USBTMCCapabilities;
use usbtmc::control::ClearPoll;
use usbtmc::control::check_response_status;
use usbtmc::control::clear_poll_outcome;
use usbtmc::control::clear_status_step;
use usbtmc::control::initiate_clear_step;
use usbtmc::control::read_response_status;
use usbtmc::control::stb_notified;
use usbtmc::control::stb_poll_outcome;
use usbtmc::errors::ClassError;
use usbtmc::session::build_out_frames;
use usbtmc::session::chunk_write_outcome;
use usbtmc::session::config_switch_plan;
use usbtmc::session::next_tag;
use usbtmc::session::read_request_size;
use usbtmc::session::trim_ascii_ws;
use usbtmc::session::validate_term_char;
use usbtmc::status::Status;

#[test]
fn tag_advances_from_127_restart_at_2() {
    let mut tag = 127u8;
    let mut seen = Vec::new();
    for _ in 0..5 {
        tag = next_tag(tag);
        seen.push(tag);
    }
    assert_eq!(seen, vec![2, 3, 4, 5, 6]);
}

#[test]
fn tag_resets_from_values_below_2() {
    assert_eq!(next_tag(0), 2);
    assert_eq!(next_tag(1), 2);
}

#[test]
fn tag_never_yields_0_or_1() {
    for start in 0u8..=255 {
        let t = next_tag(start);
        assert!(t >= 2 && t <= 127);
    }
}

#[test]
fn tag_counts_up_within_cycle() {
    assert_eq!(next_tag(2), 3);
    assert_eq!(next_tag(126), 127);
    assert_eq!(next_tag(127), 2);
    assert_eq!(next_tag(200), 2);
}

#[test]
fn status_codes_parse() {
    assert_eq!(Status::from_byte(1), Status::Success);
    assert_eq!(Status::from_byte(2), Status::Pending);
    assert_eq!(Status::from_byte(0x80), Status::Failed);
    assert_eq!(Status::from_byte(0x81), Status::TransferNotInProgress);
    assert_eq!(Status::from_byte(0x82), Status::SplitNotInProgress);
    assert_eq!(Status::from_byte(0x83), Status::SplitInProgress);
    assert_eq!(Status::from_byte(7), Status::Unexpected(7));
}

#[test]
fn status_check_accepts_only_success() {
    assert_eq!(Status::Success.check(), Ok(()));
    assert_eq!(
        Status::Pending.check(),
        Err(ClassError::UnexpectedStatus(Status::Pending))
    );
    assert_eq!(
        Status::Unexpected(9).check(),
        Err(ClassError::UnexpectedStatus(Status::Unexpected(9)))
    );
}

#[test]
fn response_status_of_empty_buffer_is_truncated() {
    assert_eq!(
        read_response_status(&[]),
        Err(ClassError::TruncatedControlResponse)
    );
    assert_eq!(
        check_response_status(&[]),
        Err(ClassError::TruncatedControlResponse)
    );
}

#[test]
fn response_status_check() {
    assert_eq!(check_response_status(&[1, 0]), Ok(()));
    assert_eq!(
        check_response_status(&[0x80]),
        Err(ClassError::UnexpectedStatus(Status::Failed))
    );
}

#[test]
fn clear_step_decisions() {
    assert_eq!(clear_status_step(&[1, 0]), Ok(ClearPoll::Done));
    assert_eq!(clear_status_step(&[2, 0]), Ok(ClearPoll::Again));
    assert_eq!(
        clear_status_step(&[0x81]),
        Err(ClassError::UnexpectedStatus(Status::TransferNotInProgress))
    );
    assert_eq!(
        clear_status_step(&[]),
        Err(ClassError::TruncatedControlResponse)
    );
}

#[test]
fn initiate_clear_accepts_success_and_pending() {
    assert_eq!(initiate_clear_step(&[1]), Ok(()));
    assert_eq!(initiate_clear_step(&[2]), Ok(()));
    assert_eq!(
        initiate_clear_step(&[0x80]),
        Err(ClassError::UnexpectedStatus(Status::Failed))
    );
    assert_eq!(
        initiate_clear_step(&[]),
        Err(ClassError::TruncatedControlResponse)
    );
}

#[test]
fn clear_poll_pending_twice_then_success_takes_three_round_trips() {
    let responses = vec![vec![2u8, 0], vec![2, 0], vec![1, 0]];
    assert_eq!(clear_poll_outcome(&responses), Ok(3));
}

#[test]
fn clear_poll_immediate_success_takes_one_round_trip() {
    let responses = vec![vec![1u8, 0]];
    assert_eq!(clear_poll_outcome(&responses), Ok(1));
}

#[test]
fn clear_poll_terminal_failure_propagates() {
    let responses = vec![vec![2u8, 0], vec![0x80, 0]];
    assert_eq!(
        clear_poll_outcome(&responses),
        Err(ClassError::UnexpectedStatus(Status::Failed))
    );
}

#[test]
fn clear_poll_exhausted_script_is_truncated() {
    let responses = vec![vec![2u8, 0]];
    assert_eq!(
        clear_poll_outcome(&responses),
        Err(ClassError::TruncatedControlResponse)
    );
}

#[test]
fn usbtmc_capabilities_parse_bits() {
    let mut block = vec![0u8; 64];
    block[4] = 4 | 2;
    block[5] = 1;
    let caps = USBTMCCapabilities::parse(&block).unwrap();
    assert!(caps.pulse);
    assert!(caps.talk_only);
    assert!(!caps.listen_only);
    assert!(caps.term_char);
}

#[test]
fn usbtmc_capabilities_short_block_is_invalid() {
    let block = vec![0u8; 5];
    assert_eq!(
        USBTMCCapabilities::parse(&block),
        Err(ClassError::InvalidCapabilities)
    );
}

#[test]
fn usb488_capabilities_parse_bits() {
    let mut block = vec![0u8; 64];
    block[14] = 4 | 1;
    block[15] = 8;
    let caps = USB488Capabilities::parse(&block).unwrap();
    assert!(caps.scpi);
    assert!(caps.trigger);
    assert!(!caps.talk_only);
    assert!(caps.listen_only);
}

#[test]
fn usb488_capabilities_short_block_is_invalid() {
    let block = vec![0u8; 15];
    assert_eq!(
        USB488Capabilities::parse(&block),
        Err(ClassError::InvalidCapabilities)
    );
}

#[test]
fn zero_terminator_always_invalid() {
    let no_support = USBTMCCapabilities::new();
    let mut support = USBTMCCapabilities::new();
    support.term_char = true;
    assert_eq!(
        validate_term_char(Some(0), &no_support),
        Err(ClassError::InvalidTermChar)
    );
    assert_eq!(
        validate_term_char(Some(0), &support),
        Err(ClassError::InvalidTermChar)
    );
}

#[test]
fn terminator_needs_capability() {
    let no_support = USBTMCCapabilities::new();
    let mut support = USBTMCCapabilities::new();
    support.term_char = true;
    assert_eq!(
        validate_term_char(Some(10), &no_support),
        Err(ClassError::UnsupportedFeature)
    );
    assert_eq!(validate_term_char(Some(10), &support), Ok(()));
    assert_eq!(validate_term_char(None, &no_support), Ok(()));
    assert_eq!(validate_term_char(None, &support), Ok(()));
}

#[test]
fn stb_notification_bit() {
    assert!(!stb_notified(&[]));
    assert!(stb_notified(&[0x80, 16]));
    assert!(stb_notified(&[0, 0x90]));
    assert!(!stb_notified(&[0, 0]));
    assert!(!stb_notified(&[16, 0]));
}

#[test]
fn write_one_byte_over_max_makes_two_frames_eom_on_second() {
    let data = [1u8, 2, 3, 4, 5];
    let (frames, tag) = build_out_frames(10, &data, 4);
    assert_eq!(frames.len(), 2);
    // First chunk: 4 payload bytes, end-of-message clear, tag 11.
    assert_eq!(frames[0].1, 4);
    assert_eq!(frames[0].0[1], 11);
    assert_eq!(frames[0].0[8] & 1, 0);
    assert_eq!(frames[0].0[12..16].to_vec(), vec![1, 2, 3, 4]);
    // Second chunk: the remaining byte, end-of-message set, tag 12.
    assert_eq!(frames[1].1, 1);
    assert_eq!(frames[1].0[1], 12);
    assert_eq!(frames[1].0[8] & 1, 1);
    assert_eq!(frames[1].0[12], 5);
    assert_eq!(tag, 12);
}

#[test]
fn write_within_max_makes_one_frame_with_eom() {
    let data = [9u8, 9];
    let (frames, tag) = build_out_frames(2, &data, 4);
    assert_eq!(frames.len(), 1);
    assert_eq!(frames[0].0[1], 3);
    assert_eq!(frames[0].0[8] & 1, 1);
    assert_eq!(tag, 3);
}

#[test]
fn write_empty_input_makes_no_frame() {
    let (frames, tag) = build_out_frames(5, &[], 4);
    assert_eq!(frames.len(), 0);
    assert_eq!(tag, 5);
}

#[test]
fn short_bulk_out_count_is_truncated_bulk_out() {
    assert_eq!(
        chunk_write_outcome(3, 4),
        Err(ClassError::TruncatedBulkOut)
    );
    assert_eq!(
        chunk_write_outcome(0, 1),
        Err(ClassError::TruncatedBulkOut)
    );
    assert_eq!(chunk_write_outcome(4, 4), Ok(()));
    assert_eq!(chunk_write_outcome(5, 4), Ok(()));
    assert_eq!(chunk_write_outcome(0, 0), Ok(()));
}

#[test]
fn read_request_size_clamps_to_maximum() {
    assert_eq!(read_request_size(Some(5), 10), 5);
    assert_eq!(read_request_size(Some(10), 10), 10);
    assert_eq!(read_request_size(Some(20), 10), 10);
    assert_eq!(read_request_size(None, 10), 10);
}

#[test]
fn config_switch_records_old_configuration_exactly_when_it_differs() {
    assert_eq!(config_switch_plan(1, 1), None);
    assert_eq!(config_switch_plan(2, 1), Some(2));
    assert_eq!(config_switch_plan(0, 1), Some(0));
}

#[test]
fn stb_poll_stops_at_first_notification() {
    // Failed status, then success without the bit, then success with it,
    // then more polls that must not be consumed.
    let polls = vec![
        (vec![0x80u8, 0, 0], vec![0u8, 0]),
        (vec![1, 0, 0], vec![0, 0]),
        (vec![1, 0, 0], vec![0x81, 0x90]),
        (vec![1, 0, 0], vec![0, 0x90]),
    ];
    assert_eq!(stb_poll_outcome(&polls), (3, true));
}

#[test]
fn stb_poll_exhausted_script_reports_no_notification() {
    let polls = vec![
        (vec![1u8, 0, 0], vec![0u8, 0]),
        (vec![0x80, 0, 0], vec![0, 0x90]),
        (vec![], vec![0, 0x90]),
    ];
    assert_eq!(stb_poll_outcome(&polls), (3, false));
    assert_eq!(stb_poll_outcome(&Vec::new()), (0, false));
}

#[test]
fn trim_removes_ascii_whitespace_at_both_ends() {
    assert_eq!(
        trim_ascii_ws(&vec![32, 9, 72, 73, 13, 10]),
        vec![72, 73]
    );
    assert_eq!(trim_ascii_ws(&vec![32, 13, 10, 9]), Vec::<u8>::new());
    assert_eq!(trim_ascii_ws(&vec![72, 32, 73]), vec![72, 32, 73]);
    assert_eq!(trim_ascii_ws(&Vec::new()), Vec::<u8>::new());
}
