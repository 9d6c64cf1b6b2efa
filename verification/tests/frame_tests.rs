use project_core::commands::{
    send_buffinv_command, send_cleanepcbuff_command, send_custom_inventory_command,
    send_getepcbuff_command, send_getpower_command, send_getrflink_command,
    send_getstandardfreq_command, send_match_epc_command, send_opencw_command,
    send_realtimeinv_command, send_reset_command, send_set_select_command,
    send_set_session_command, send_setcustomfreq_command, send_setpower_command,
    send_setrflink_command, send_setstandardfreq_command, send_single_read_command,
    send_stopinv_command, sendwrite_command, transform_u32_to_array_of_u8, Command,
};
use project_core::frame::{
    checksum_defined_for, checksun, frame_checksum_defined, send_protocol_data, HEADER,
};

fn byte_sum(bytes: &[u8]) -> u32 {
    bytes.iter().map(|b| *b as u32).sum()
}

#[test]
fn checksum_of_reset_frame() {
    assert_eq!(checksun(vec![0xA0, 0x03, 0x00, 0x70]), 0xED);
}

#[test]
fn checksum_needs_a_sum_that_is_not_a_multiple_of_256() {
    assert!(!checksum_defined_for(&vec![]));
    assert!(!checksum_defined_for(&vec![0x80, 0x80]));
    assert!(checksum_defined_for(&vec![0x01]));
    assert_eq!(checksun(vec![0x01]), 0xFF);
}

#[test]
fn frame_checksum_defined_by_head_sum() {
    // 0xA0 + 4 + 0x76 + 0xE6 is a multiple of 256.
    assert!(!frame_checksum_defined(0x76, 1, &vec![0xE6]));
    assert!(frame_checksum_defined(0x76, 1, &vec![18]));
}

#[test]
fn checksum_completes_to_multiple_of_256() {
    let data = vec![0xA0, 0x13, 0x01, 0x89, 0x01, 0x30, 0x00, 0xE2, 0xFF, 0x7F];
    let c = checksun(data.clone());
    assert_eq!((byte_sum(&data) + c as u32) % 256, 0);
}

#[test]
fn reset_frame_bytes() {
    assert_eq!(send_reset_command(), vec![0xA0, 0x03, 0x00, 0x70, 0xED]);
}

#[test]
fn setpower_frame_bytes() {
    assert_eq!(send_setpower_command(18), vec![0xA0, 0x04, 0x00, 0x76, 0x12, 0xD4]);
}

#[test]
fn built_frame_is_valid() {
    let frame = send_protocol_data(0x81, 3, vec![1, 2, 3]);
    assert_eq!(frame[0], HEADER);
    assert_eq!(frame.len(), frame[1] as usize + 2);
    assert_eq!(frame[3], 0x81);
    assert_eq!(&frame[4..7], &[1, 2, 3]);
    assert_eq!(byte_sum(&frame) % 256, 0);
}

#[test]
fn checksum_placed_after_len_bytes_when_data_is_longer() {
    let frame = send_protocol_data(0x81, 1, vec![7, 8]);
    let check = checksun(vec![0xA0, 0x04, 0x00, 0x81, 7, 8]);
    assert_eq!(frame, vec![0xA0, 0x04, 0x00, 0x81, 7, check, 8]);
}

#[test]
fn simple_command_frames() {
    assert_eq!(send_stopinv_command()[3], 0x8C);
    assert_eq!(send_cleanepcbuff_command()[3], 0x93);
    assert_eq!(send_getepcbuff_command()[3], 0x90);
    assert_eq!(send_getpower_command()[3], 0x77);
    assert_eq!(send_getstandardfreq_command()[3], 0x79);
    assert_eq!(send_getrflink_command()[3], 0x6A);
    assert_eq!(send_buffinv_command(), vec![0xA0, 0x04, 0x00, 0x80, 0x01, checksun(vec![0xA0, 0x04, 0x00, 0x80, 0x01])]);
    assert_eq!(send_realtimeinv_command()[3..5], [0x89, 0x01]);
    assert_eq!(send_opencw_command()[3..5], [0x3E, 0x01]);
    assert_eq!(send_setrflink_command(0xD1)[3..5], [0x69, 0xD1]);
    assert_eq!(send_setstandardfreq_command(1, 7, 0x3B)[1..7], [0x06, 0x00, 0x78, 1, 7, 0x3B]);
    assert_eq!(send_set_session_command()[1..6], [0x05, 0x00, 0x5B, 0x02, 0x00]);
}

#[test]
fn custom_inventory_frame_bytes() {
    assert_eq!(
        send_custom_inventory_command(2, 0x0A, 1),
        vec![0xA0, 0x07, 0x00, 0x8A, 0x01, 0x02, 0x0A, 0x01, 0xC1]
    );
}

#[test]
fn u32_big_endian_bytes() {
    assert_eq!(transform_u32_to_array_of_u8(0x0102_0304), vec![1, 2, 3, 4]);
    assert_eq!(transform_u32_to_array_of_u8(910000), vec![0x00, 0x0D, 0xE2, 0xB0]);
    assert_eq!(transform_u32_to_array_of_u8(u32::MAX), vec![0xFF; 4]);
}

#[test]
fn custom_freq_frame_uses_low_three_bytes() {
    let frame = send_setcustomfreq_command(910000);
    assert_eq!(
        frame,
        send_protocol_data(0x78, 7, vec![0x04, 0x00, 0x19, 0x01, 0x0D, 0xE2, 0xB0])
    );
    assert_eq!(frame[1], 10);
}

#[test]
fn write_command_payload_and_length() {
    let frame = sendwrite_command(0x01, vec![0, 0, 0, 1], 1, vec![0xAB, 0xCD], vec![0; 4]);
    assert_eq!(frame[1], 11 + 2 + 3);
    assert_eq!(frame[3], 0x82);
    assert_eq!(&frame[4..17], &[0, 0, 0, 0, 0x01, 0, 0, 0, 1, 0, 1, 0xAB, 0xCD]);
    assert_eq!(byte_sum(&frame) % 256, 0);
}

#[test]
fn match_epc_frames() {
    let frame = send_match_epc_command(0, vec![0xE2, 0x00]);
    assert_eq!(&frame[1..8], &[0x07, 0x00, 0x85, 0x00, 0x02, 0xE2, 0x00]);
    let cancel = send_match_epc_command(1, vec![0xE2, 0x00]);
    assert_eq!(&cancel[1..6], &[0x05, 0x00, 0x85, 0x01, 0x00]);
}

#[test]
fn single_read_frame() {
    let frame = send_single_read_command(vec![0x02], 0x01, vec![0x06], vec![0, 0, 0, 0]);
    assert_eq!(&frame[1..11], &[10, 0x00, 0x81, 0x01, 0x02, 0x06, 0, 0, 0, 0]);
}

#[test]
fn select_frame_for_twelve_byte_epc() {
    let epc: Vec<u8> = (0..12).collect();
    let frame = send_set_select_command(epc.clone());
    assert_eq!(&frame[1..12], &[23, 0x00, 0x8D, 0x01, 0x41, 0x00, 0x00, 0x00, 0x20, 96, 0x01]);
    assert_eq!(&frame[12..24], &epc[..]);
}

#[test]
fn select_mask_length_wraps_modulo_256() {
    let epc = vec![0u8; 40];
    let frame = send_set_select_command(epc);
    assert_eq!(frame[10], ((40 * 8) % 256) as u8);
}

#[test]
fn command_names_exist() {
    let all = [
        Command::CmdReset,
        Command::CmdSetPower,
        Command::CmdSetFreq,
        Command::CmdSetCw,
        Command::Cmd6CRead,
        Command::Cmd6CWrite,
        Command::CmdCustomInv,
        Command::Eos,
    ];
    assert_eq!(all.len(), 8);
}
