use project_core::frame::checksun;
use project_core::response::{decode_protocol_data, response_fits};
use project_core::session::retry_read;

fn reply(body: Vec<u8>) -> Vec<u8> {
    let mut f = body.clone();
    f.push(checksun(body));
    f
}

#[test]
fn reset_reply_gives_status_byte() {
    let r = reply(vec![0xA0, 0x04, 0x01, 0x70, 0x10]);
    assert_eq!(r[5], 0xDB);
    assert!(response_fits(&r));
    assert_eq!(decode_protocol_data(Ok(r)), Ok(vec![0x10]));
}

#[test]
fn noise_before_header_is_skipped() {
    let mut bytes = vec![0x00, 0x11, 0x22];
    bytes.extend(reply(vec![0xA0, 0x04, 0x01, 0x77, 20]));
    assert_eq!(decode_protocol_data(Ok(bytes)), Ok(vec![20]));
}

#[test]
fn no_header_gives_nothing() {
    assert_eq!(decode_protocol_data(Ok(vec![1, 2, 3])), Ok(vec![]));
    assert_eq!(decode_protocol_data(Ok(vec![])), Ok(vec![]));
}

#[test]
fn failed_read_is_an_error() {
    assert_eq!(decode_protocol_data(Err(())), Err(()));
}

#[test]
fn bad_checksum_is_an_error() {
    let mut r = reply(vec![0xA0, 0x04, 0x01, 0x70, 0x10]);
    r[5] ^= 1;
    assert!(response_fits(&r));
    assert_eq!(decode_protocol_data(Ok(r)), Err(()));
}

#[test]
fn unknown_command_is_an_error() {
    let r = reply(vec![0xA0, 0x04, 0x01, 0x55, 0x10]);
    assert_eq!(decode_protocol_data(Ok(r)), Err(()));
}

#[test]
fn frequency_reply_gives_three_bytes() {
    let r = reply(vec![0xA0, 0x06, 0x01, 0x79, 0x01, 0x07, 0x3B]);
    assert_eq!(decode_protocol_data(Ok(r)), Ok(vec![0x01, 0x07, 0x3B]));
}

#[test]
fn buffered_inventory_replies() {
    let short = reply(vec![0xA0, 0x04, 0x01, 0x80, 0x22]);
    assert_eq!(decode_protocol_data(Ok(short)), Ok(vec![0x22]));
    let long = reply(vec![0xA0, 0x0C, 0x01, 0x80, 0x00, 0x05, 0, 0, 0, 0, 0, 0, 0]);
    assert_eq!(decode_protocol_data(Ok(long)), Ok(vec![0x00, 0x05]));
}

#[test]
fn epc_buffer_reply_gives_counted_bytes() {
    let r = reply(vec![0xA0, 0x09, 0x01, 0x90, 0x07, 0x00, 0x01, 0xAA, 0xBB, 0xCC]);
    assert_eq!(decode_protocol_data(Ok(r)), Ok(vec![0xAA, 0xBB, 0xCC]));
}

#[test]
fn write_replies() {
    let short = reply(vec![0xA0, 0x04, 0x01, 0x82, 0x10]);
    assert_eq!(decode_protocol_data(Ok(short)), Ok(vec![0x10]));
    let long = reply(vec![0xA0, 0x06, 0x01, 0x82, 0x01, 0x02, 0x03]);
    assert_eq!(decode_protocol_data(Ok(long)), Ok(vec![0x01, 0x02, 0x03]));
}

#[test]
fn header_as_last_byte_cannot_be_checked() {
    // The frame before the last byte is empty, so its sum is 0.
    assert!(!response_fits(&vec![0x01, 0xA0]));
}

#[test]
fn short_reply_does_not_fit() {
    // A checked status reply with no status byte.
    let r = reply(vec![0xA0, 0x03, 0x01, 0x70]);
    assert!(!response_fits(&r));
    // An EPC-buffer reply whose count is below 4.
    let r = reply(vec![0xA0, 0x04, 0x01, 0x90, 0x02]);
    assert!(!response_fits(&r));
}

#[test]
fn decoder_accepts_built_frames() {
    let frame = project_core::commands::send_setpower_command(18);
    assert!(response_fits(&frame));
    assert_eq!(decode_protocol_data(Ok(frame)), Ok(vec![18]));
}

#[test]
fn epc_buffer_reply_with_count_four_is_empty() {
    let r = vec![0xA0, 0x04, 0x00, 0x90, 0x04, 0xC8];
    assert!(response_fits(&r));
    assert_eq!(decode_protocol_data(Ok(r)), Ok(vec![]));
}

#[test]
fn noise_changes_nothing_even_without_a_frame() {
    let tail = vec![0xA0, 0x04, 0x01, 0x55];
    let mut noisy = vec![0x01, 0x02];
    noisy.extend(tail.clone());
    assert_eq!(response_fits(&noisy), response_fits(&tail));
    assert_eq!(decode_protocol_data(Ok(noisy)), decode_protocol_data(Ok(tail)));
}

#[test]
fn read_is_tried_eleven_times() {
    assert_eq!(retry_read(0), Some(1));
    assert_eq!(retry_read(9), Some(10));
    assert_eq!(retry_read(10), None);
}
