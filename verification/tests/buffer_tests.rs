use std::collections::VecDeque;

use project_core::buffer::{Buf, BufFunc, PackError};
use project_core::frame::checksun;
use project_core::ui::UI;
use std::cell::RefCell;
use std::rc::Rc;

#[derive(Clone)]
struct Log {
    lines: Rc<RefCell<Vec<String>>>,
}

impl Log {
    fn new() -> Log {
        Log { lines: Rc::new(RefCell::new(Vec::new())) }
    }
}

impl UI for Log {
    fn output(&self, msg: &str) {
        self.lines.borrow_mut().push(msg.to_string());
    }
    fn enable_next_ui(&self) {}
    fn enable_ui(&self) {}
    fn get_inv_epc(&self, _epc: &str) {}
    fn update_match_table(&self, _epc: &str) {}
    fn repeate(&self) {}
}

fn empty_buf() -> Buf {
    Buf { data_que: VecDeque::new(), pack: Vec::new(), pack_len: 0 }
}

fn frame(body: Vec<u8>) -> Vec<u8> {
    let mut f = body.clone();
    f.push(checksun(body));
    f
}

fn epc() -> Vec<u8> {
    (0xE2..0xEE).collect()
}

fn inventory_frame() -> Vec<u8> {
    let mut body = vec![0xA0, 0x13, 0x01, 0x89, 0x01, 0x30, 0x00];
    body.extend(epc());
    body.push(0x5A);
    frame(body)
}

#[test]
fn inventory_frame_yields_epc_and_keeps_the_rest() {
    let mut buf = empty_buf();
    let mut bytes = inventory_frame();
    bytes.extend(vec![0xA0, 0x04]);
    assert!(buf.decode_inv_epc_data(Ok(bytes)));
    assert!(buf.pack_fits());
    let log = Log::new();
    assert_eq!(buf.get_single_pack(&log), Ok(epc()));
    assert_eq!(buf.data_que, VecDeque::from(vec![0xA0, 0x04]));
    assert!(log.lines.borrow().is_empty());
}

#[test]
fn split_frame_is_joined() {
    let f = inventory_frame();
    let mut buf = empty_buf();
    buf.decode_inv_epc_data(Ok(f[..8].to_vec()));
    assert_eq!(buf.read_pack(), Err(PackError::Incomplete));
    assert_eq!(buf.pack, f[..8].to_vec());
    buf.decode_inv_epc_data(Ok(f[8..].to_vec()));
    assert_eq!(buf.read_pack(), Ok(epc()));
}

#[test]
fn failed_read_changes_nothing() {
    let mut buf = empty_buf();
    assert!(!buf.decode_inv_epc_data(Err(())));
    assert!(buf.data_que.is_empty());
}

#[test]
fn empty_queue_gives_no_data() {
    let mut buf = empty_buf();
    assert_eq!(buf.read_pack(), Err(PackError::NoData));
    buf.decode_inv_epc_data(Ok(vec![0xA0]));
    assert_eq!(buf.read_pack(), Err(PackError::NoData));
    assert_eq!(buf.pack, vec![0xA0]);
}

#[test]
fn end_of_round_clears_pack() {
    let mut buf = empty_buf();
    buf.decode_inv_epc_data(Ok(frame(vec![0xA0, 0x04, 0x01, 0x89, 0x10])));
    assert_eq!(buf.read_pack(), Err(PackError::InventoryEnd));
    assert!(buf.pack.is_empty());
}

#[test]
fn bad_checksum_is_reported() {
    let mut f = inventory_frame();
    let last = f.len() - 1;
    f[last] = f[last].wrapping_add(1);
    let mut buf = empty_buf();
    buf.decode_inv_epc_data(Ok(f));
    let log = Log::new();
    assert_eq!(buf.get_single_pack(&log), Err(()));
    assert_eq!(log.lines.borrow().as_slice(), &["校验错误".to_string()]);
}

#[test]
fn zero_checksum_is_refused_silently() {
    // The body sums to a multiple of 256, so its checksum byte is 0.
    let body = vec![0xA0, 0x04, 0x01, 0x89, 0xD2];
    let mut bytes = body.clone();
    bytes.push(0);
    let mut buf = empty_buf();
    buf.decode_inv_epc_data(Ok(bytes));
    assert!(buf.pack_fits());
    let log = Log::new();
    assert_eq!(buf.get_single_pack(&log), Err(()));
    assert!(log.lines.borrow().is_empty());
}

#[test]
fn unknown_command_is_reported() {
    let mut buf = empty_buf();
    buf.decode_inv_epc_data(Ok(frame(vec![0xA0, 0x04, 0x01, 0x55, 0x00])));
    let log = Log::new();
    assert_eq!(buf.get_single_pack(&log), Err(()));
    assert_eq!(log.lines.borrow().as_slice(), &["命令无效".to_string()]);
}

#[test]
fn bad_header_is_reported() {
    let mut buf = Buf { data_que: VecDeque::from(vec![0x04, 0x01]), pack: vec![0x11], pack_len: 0 };
    let log = Log::new();
    // The pack [0x11, 0x04, 0x01, ...] is incomplete first, then grows.
    assert_eq!(buf.read_pack(), Err(PackError::Incomplete));
    buf.decode_inv_epc_data(Ok(vec![0x70, 0x00, 0x00]));
    assert_eq!(buf.get_single_pack(&log), Err(()));
    assert_eq!(log.lines.borrow().as_slice(), &["协议头错误".to_string()]);
}

#[test]
fn custom_inventory_status() {
    let log = Log::new();
    let mut buf = empty_buf();
    buf.decode_inv_epc_data(Ok(frame(vec![0xA0, 0x04, 0x01, 0x8A, 0x22])));
    assert_eq!(buf.read_pack(), Err(PackError::TagStatus(0x22)));
    buf.decode_inv_epc_data(Ok(frame(vec![0xA0, 0x04, 0x01, 0x8A, 0x22])));
    assert_eq!(buf.get_single_pack(&log), Err(()));
    assert_eq!(log.lines.borrow().as_slice(), &["没有读到标签".to_string()]);
    buf.decode_inv_epc_data(Ok(frame(vec![0xA0, 0x04, 0x01, 0x8A, 0x10])));
    assert_eq!(buf.get_single_pack(&log), Err(()));
    assert_eq!(log.lines.borrow().len(), 1);
    buf.decode_inv_epc_data(Ok(frame(vec![0xA0, 0x05, 0x01, 0x8A, 0x10, 0x00])));
    assert_eq!(buf.read_pack(), Ok(vec![]));
}

#[test]
fn tag_data_packet_0x59() {
    let mut body = vec![0xA0, 0x00, 0x01, 0x59, 0x01, 0x08, 0x00];
    body.extend(vec![0xE2, 0x80]);
    body.extend(vec![0xC1, 0xC2, 0x07, 0x08, 0x09]);
    body[1] = (body.len() - 1) as u8;
    let mut buf = empty_buf();
    buf.decode_inv_epc_data(Ok(frame(body)));
    assert_eq!(buf.read_pack(), Ok(vec![2, 0xE2, 0x80, 0x07, 0x08, 0x09]));
    buf.decode_inv_epc_data(Ok(frame(vec![0xA0, 0x04, 0x01, 0x59, 0x12])));
    assert_eq!(buf.read_pack(), Ok(vec![0x12]));
}

#[test]
fn pack_fits_rejects_uncheckable_packet() {
    // A complete packet whose body sums to a multiple of 256, with a
    // nonzero checksum byte.
    let buf = Buf {
        data_que: VecDeque::from(vec![0xA0, 0x04, 0x01, 0x89, 0xD2, 0x01]),
        pack: vec![],
        pack_len: 0,
    };
    assert!(!buf.pack_fits());
}

#[test]
fn pack_fits_rejects_fresh_continuation() {
    let buf = Buf { data_que: VecDeque::from(vec![0x05]), pack: vec![], pack_len: 0 };
    assert!(!buf.pack_fits());
}

#[test]
fn reset_empties_the_buffer() {
    let mut buf = Buf { data_que: VecDeque::from(vec![1, 2]), pack: vec![3], pack_len: 7 };
    BufFunc::new(&mut buf);
    assert!(buf.data_que.is_empty());
    assert!(buf.pack.is_empty());
    assert_eq!(buf.pack_len, 0);
}

#[test]
fn pack_error_messages() {
    assert_eq!(PackError::NoData.message(), None);
    assert_eq!(PackError::TagStatus(0x10).message(), None);
    assert_eq!(PackError::TagStatus(0x11).message(), Some("没有读到标签"));
    assert_eq!(PackError::BadHeader.message(), Some("协议头错误"));
}

#[test]
fn inventory_packet_without_epc_is_empty() {
    let mut buf = empty_buf();
    buf.decode_inv_epc_data(Ok(vec![0xA0, 0x05, 0x00, 0x89, 0x00, 0x00, 0xD2]));
    assert!(buf.pack_fits());
    assert_eq!(buf.read_pack(), Ok(vec![]));
}
