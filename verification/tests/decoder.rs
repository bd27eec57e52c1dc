use hypercan::decoder::AvailablePidDecoder;

#[test]
fn fresh_decoder_awaits_offset_zero() {
    let d = AvailablePidDecoder::new();
    assert_eq!(d.next_query_pid(), Some(0));
    assert_eq!(d.into_available_pids(), Vec::<u8>::new());
}

#[test]
fn full_first_byte_reports_pids_one_to_eight_and_continues() {
    let mut d = AvailablePidDecoder::new();
    d.integrate_response(0x00, [0xFF, 0x00, 0x00, 0x01]);
    assert_eq!(d.next_query_pid(), Some(0x20));
    let pids = d.into_available_pids();
    assert_eq!(pids, vec![1, 2, 3, 4, 5, 6, 7, 8]);
}

#[test]
fn clear_bitmap_with_clear_continuation_terminates() {
    let mut d = AvailablePidDecoder::new();
    d.integrate_response(0x00, [0xFF, 0x00, 0x00, 0x01]);
    d.integrate_response(0x20, [0x00, 0x00, 0x00, 0x00]);
    assert_eq!(d.next_query_pid(), None);
    assert_eq!(d.into_available_pids(), vec![1, 2, 3, 4, 5, 6, 7, 8]);
}

#[test]
fn scattered_bits_decode_to_their_pid_numbers() {
    let mut d = AvailablePidDecoder::new();
    // Bit position 0 -> PID 1; position 23 (last bit of third byte) -> PID
    // 24; position 30 -> PID 31. Position 31 is the continuation flag, not
    // a PID.
    d.integrate_response(0x00, [0x80, 0x00, 0x01, 0x02]);
    assert_eq!(d.next_query_pid(), None);
    assert_eq!(d.into_available_pids(), vec![1, 24, 31]);
}

#[test]
fn second_offset_shifts_pid_numbers() {
    let mut d = AvailablePidDecoder::new();
    d.integrate_response(0x00, [0x00, 0x00, 0x00, 0x01]);
    assert_eq!(d.next_query_pid(), Some(0x20));
    d.integrate_response(0x20, [0xC0, 0x00, 0x00, 0x00]);
    assert_eq!(d.next_query_pid(), None);
    assert_eq!(d.into_available_pids(), vec![0x21, 0x22]);
}

#[test]
fn continuation_bit_alone_adds_no_pid() {
    let mut d = AvailablePidDecoder::new();
    d.integrate_response(0x00, [0x00, 0x00, 0x00, 0x01]);
    assert_eq!(d.next_query_pid(), Some(0x20));
    d.integrate_response(0x20, [0x00, 0x00, 0x00, 0x01]);
    assert_eq!(d.next_query_pid(), Some(0x40));
    d.integrate_response(0x40, [0x00, 0x00, 0x00, 0x00]);
    assert_eq!(d.next_query_pid(), None);
    assert_eq!(d.into_available_pids(), Vec::<u8>::new());
}

#[test]
fn pids_accumulate_in_ascending_order_across_offsets() {
    let mut d = AvailablePidDecoder::new();
    d.integrate_response(0x00, [0x01, 0x00, 0x00, 0x01]);
    d.integrate_response(0x20, [0x80, 0x00, 0x00, 0x01]);
    d.integrate_response(0x40, [0x00, 0x80, 0x00, 0x00]);
    let pids = d.into_available_pids();
    assert_eq!(pids, vec![0x08, 0x21, 0x49]);
    assert!(pids.windows(2).all(|w| w[0] < w[1]));
}
