use project_core::commands::{
    send_custom_inventory_command, send_getpower_command, send_getrflink_command,
    send_opencw_command, send_realtimeinv_command, send_reset_command, send_set_select_command,
    send_set_session_command, send_setcustomfreq_command, send_setpower_command,
    send_setrflink_command, send_setstandardfreq_command, send_stopinv_command,
};
use project_core::config::{jump_freq, reader_base_config, ExchangeStage};
use project_core::connect::{uartstate_moniter, ConnectStage};
use project_core::inventory::{start_inv_epc, start_match, MatchStage};
use project_core::session::{stop_inv_epc, take_stop_request, Action, Event, Notice, Outcome};
use project_core::sheet::{get_epc_vec, EpcListError};
use project_core::transfer::Transfer;
use project_core::ui::{complete_state, fault_state, CompleteState, Mode, UI};
use std::cell::RefCell;
use std::rc::Rc;

fn shown(a: &Action) -> Option<Notice> {
    match a {
        Action::Show(n) => Some(*n),
        _ => None,
    }
}

fn sent(a: &Action) -> Option<Vec<u8>> {
    match a {
        Action::Send(f) => Some(f.clone()),
        _ => None,
    }
}

#[test]
fn connect_success_path() {
    let mut s = uartstate_moniter("COM3".to_string());
    match s.step(Event::Ack) {
        Action::ShowText(t) => assert_eq!(t, "连接串口,串口号: COM3"),
        _ => panic!("expected the port message"),
    }
    assert!(matches!(s.step(Event::Ack), Action::Yield));
    assert!(matches!(s.step(Event::Ack), Action::Configure));
    assert_eq!(shown(&s.step(Event::Done(true))), Some(Notice::Connected));
    assert_eq!(sent(&s.step(Event::Ack)), Some(send_reset_command()));
    assert_eq!(shown(&s.step(Event::Done(true))), Some(Notice::ResetSent));
    assert!(matches!(s.step(Event::Ack), Action::Receive));
    assert_eq!(shown(&s.step(Event::Reply(Ok(vec![0x10])))), Some(Notice::ResetDone));
    assert!(matches!(s.step(Event::Ack), Action::EnableNextUi));
    assert!(matches!(s.step(Event::Ack), Action::Finish(Outcome::Ended)));
    assert_eq!(s.stage, ConnectStage::Over);
}

#[test]
fn connect_config_failure_ends() {
    let mut s = uartstate_moniter("COM3".to_string());
    s.step(Event::Ack);
    s.step(Event::Ack);
    s.step(Event::Ack);
    assert_eq!(shown(&s.step(Event::Done(false))), Some(Notice::ConfigFailed));
    assert!(matches!(s.step(Event::Ack), Action::Finish(Outcome::Ended)));
}

#[test]
fn connect_reply_failure_is_reported() {
    let mut s = uartstate_moniter("COM1".to_string());
    for _ in 0..3 {
        s.step(Event::Ack);
    }
    s.step(Event::Done(true));
    s.step(Event::Ack);
    s.step(Event::Done(true));
    s.step(Event::Ack);
    assert_eq!(shown(&s.step(Event::Reply(Err(())))), Some(Notice::ReplyFailed));
}

#[test]
fn inventory_shows_epcs_until_stopped() {
    let mut s = start_inv_epc();
    assert_eq!(shown(&s.step(Event::Ack)), Some(Notice::InventoryStart));
    assert!(matches!(s.step(Event::Ack), Action::Yield));
    assert!(matches!(s.step(Event::Ack), Action::Configure));
    assert_eq!(shown(&s.step(Event::Done(true))), Some(Notice::Connected));
    assert_eq!(sent(&s.step(Event::Ack)), Some(send_realtimeinv_command()));
    assert_eq!(shown(&s.step(Event::Done(true))), Some(Notice::InventorySending));
    assert!(matches!(s.step(Event::Ack), Action::ReadPort));
    assert!(matches!(s.step(Event::Done(true)), Action::TakePack));
    match s.step(Event::Pack(Ok(vec![0xE2, 0x00, 0x0A]))) {
        Action::ShowEpc(t) => assert_eq!(t, "E2000A"),
        _ => panic!("expected an EPC"),
    }
    assert!(matches!(s.step(Event::Ack), Action::TakePack));
    assert!(matches!(s.step(Event::Pack(Err(()))), Action::CheckStop));
    assert!(matches!(s.step(Event::Stop(false)), Action::ReadPort));
    assert!(matches!(s.step(Event::Ack), Action::TakePack));
    assert!(matches!(s.step(Event::Pack(Err(()))), Action::CheckStop));
    assert_eq!(sent(&s.step(Event::Stop(true))), Some(send_reset_command()));
    assert_eq!(shown(&s.step(Event::Done(true))), Some(Notice::ResetSent));
    assert!(matches!(s.step(Event::Ack), Action::EnableUi));
    assert!(matches!(
        s.step(Event::Ack),
        Action::Finish(Outcome::Session(CompleteState::Complete(1)))
    ));
}

#[test]
fn inventory_config_failure_enables_ui_and_fails() {
    let mut s = start_inv_epc();
    for _ in 0..3 {
        s.step(Event::Ack);
    }
    assert_eq!(shown(&s.step(Event::Done(false))), Some(Notice::ConfigFailed));
    assert!(matches!(s.step(Event::Ack), Action::EnableUi));
    assert!(matches!(
        s.step(Event::Ack),
        Action::Finish(Outcome::Session(CompleteState::Error(1)))
    ));
}

#[test]
fn inventory_send_failure_fails_without_enabling_ui() {
    let mut s = start_inv_epc();
    for _ in 0..3 {
        s.step(Event::Ack);
    }
    s.step(Event::Done(true));
    s.step(Event::Ack);
    assert_eq!(shown(&s.step(Event::Done(false))), Some(Notice::InventorySending));
    assert_eq!(shown(&s.step(Event::Ack)), Some(Notice::InventorySendFailed));
    assert!(matches!(
        s.step(Event::Ack),
        Action::Finish(Outcome::Session(CompleteState::Error(1)))
    ));
}

fn match_until_inventory(epc: &str) -> project_core::inventory::MatchSession {
    let mut s = start_match(epc.to_string());
    assert_eq!(shown(&s.step(Event::Ack)), Some(Notice::MatchStart));
    match s.step(Event::Ack) {
        Action::ShowText(t) => assert_eq!(t, epc),
        _ => panic!("expected the EPC text"),
    }
    assert!(matches!(s.step(Event::Ack), Action::Yield));
    assert!(matches!(s.step(Event::Ack), Action::Configure));
    assert_eq!(shown(&s.step(Event::Done(true))), Some(Notice::Connected));
    assert_eq!(
        sent(&s.step(Event::Ack)),
        Some(send_set_select_command(vec![0xE2, 0x00, 0x12, 0x34]))
    );
    assert_eq!(shown(&s.step(Event::Done(true))), Some(Notice::SelectSending));
    assert!(matches!(s.step(Event::Ack), Action::Receive));
    assert_eq!(
        sent(&s.step(Event::Reply(Ok(vec![0x10])))),
        Some(send_custom_inventory_command(2, 0x0A, 1))
    );
    assert_eq!(shown(&s.step(Event::Done(true))), Some(Notice::MatchSending));
    assert!(matches!(s.step(Event::Ack), Action::ReadPort));
    assert!(matches!(s.step(Event::Ack), Action::TakePack));
    s
}

#[test]
fn match_lists_answering_tags_and_ends_on_status() {
    let mut s = match_until_inventory("E2001234");
    match s.step(Event::Pack(Ok(vec![4, 0xE2, 0x00, 0x12, 0x77, 0x00, 0x00]))) {
        Action::MatchEpc(t) => assert_eq!(t, "E20012"),
        _ => panic!("expected a matched EPC"),
    }
    assert!(matches!(s.step(Event::Ack), Action::TakePack));
    assert!(matches!(s.step(Event::Pack(Ok(vec![3, 1, 2, 3, 0x00, 0x01]))), Action::TakePack));
    assert!(matches!(s.step(Event::Pack(Ok(vec![0x11]))), Action::TakePack));
    assert!(matches!(s.step(Event::Pack(Ok(vec![0x12]))), Action::EnableUi));
    assert!(matches!(
        s.step(Event::Ack),
        Action::Finish(Outcome::Session(CompleteState::Complete(1)))
    ));
}

#[test]
fn match_stop_request_sends_stop() {
    let mut s = match_until_inventory("E2001234");
    assert!(matches!(s.step(Event::Pack(Err(()))), Action::CheckStop));
    assert_eq!(sent(&s.step(Event::Stop(true))), Some(send_stopinv_command()));
    assert_eq!(shown(&s.step(Event::Done(false))), Some(Notice::StopSending));
    assert_eq!(shown(&s.step(Event::Ack)), Some(Notice::StopSendFailed));
    assert!(matches!(s.step(Event::Ack), Action::EnableUi));
    assert!(matches!(s.step(Event::Ack), Action::EnableUi));
    assert!(matches!(
        s.step(Event::Ack),
        Action::Finish(Outcome::Session(CompleteState::Complete(1)))
    ));
}

#[test]
fn match_rejects_bad_epc_text() {
    let mut s = start_match("E2G1".to_string());
    s.step(Event::Ack);
    s.step(Event::Ack);
    assert_eq!(shown(&s.step(Event::Ack)), Some(Notice::EpcInvalid));
    assert!(matches!(s.step(Event::Ack), Action::EnableUi));
    assert!(matches!(
        s.step(Event::Ack),
        Action::Finish(Outcome::Session(CompleteState::Error(1)))
    ));
}

#[test]
fn match_aborts_on_unreadable_packet() {
    let mut s = match_until_inventory("E2001234");
    assert!(matches!(s.step(Event::Pack(Ok(vec![]))), Action::Abort));
    assert_eq!(s.stage, MatchStage::Aborted);
    let mut s = match_until_inventory("E2001234");
    assert!(matches!(s.step(Event::Pack(Ok(vec![9, 1, 0, 0]))), Action::Abort));
}

#[test]
fn reader_setup_sets_link_and_power() {
    let mut s = reader_base_config();
    assert_eq!(sent(&s.step(Event::Ack)), Some(send_getrflink_command()));
    assert_eq!(shown(&s.step(Event::Done(true))), Some(Notice::GetRfLink));
    assert!(matches!(s.step(Event::Ack), Action::Receive));
    assert_eq!(sent(&s.step(Event::Reply(Ok(vec![0xD0])))), Some(send_setrflink_command(0xD1)));
    assert_eq!(shown(&s.step(Event::Done(true))), Some(Notice::SetRfLink));
    assert!(matches!(s.step(Event::Ack), Action::Receive));
    assert_eq!(sent(&s.step(Event::Reply(Ok(vec![0x10])))), Some(send_getpower_command()));
    s.step(Event::Done(true));
    s.step(Event::Ack);
    assert_eq!(sent(&s.step(Event::Reply(Ok(vec![30])))), Some(send_setpower_command(18)));
    s.step(Event::Done(true));
    s.step(Event::Ack);
    assert_eq!(sent(&s.step(Event::Reply(Ok(vec![0x10])))), Some(send_opencw_command()));
    s.step(Event::Done(true));
    s.step(Event::Ack);
    assert_eq!(sent(&s.step(Event::Reply(Ok(vec![0x10])))), Some(send_set_session_command()));
    s.step(Event::Done(true));
    s.step(Event::Ack);
    assert!(matches!(
        s.step(Event::Reply(Ok(vec![0x10]))),
        Action::Finish(Outcome::Session(CompleteState::Complete(1)))
    ));
}

#[test]
fn reader_setup_skips_settings_already_right() {
    let mut s = reader_base_config();
    s.step(Event::Ack);
    s.step(Event::Done(true));
    s.step(Event::Ack);
    assert_eq!(sent(&s.step(Event::Reply(Ok(vec![0xD1])))), Some(send_getpower_command()));
    s.step(Event::Done(true));
    s.step(Event::Ack);
    assert_eq!(sent(&s.step(Event::Reply(Ok(vec![20])))), Some(send_opencw_command()));
}

#[test]
fn reader_setup_failures() {
    let mut s = reader_base_config();
    s.step(Event::Ack);
    assert_eq!(shown(&s.step(Event::Done(false))), Some(Notice::GetRfLink));
    assert_eq!(shown(&s.step(Event::Ack)), Some(Notice::GetRfLinkSendFailed));
    assert!(matches!(
        s.step(Event::Ack),
        Action::Finish(Outcome::Session(CompleteState::Error(1)))
    ));
    let mut s = reader_base_config();
    s.step(Event::Ack);
    s.step(Event::Done(true));
    s.step(Event::Ack);
    assert_eq!(shown(&s.step(Event::Reply(Err(())))), Some(Notice::GetRfLinkFailed));
    let mut s = reader_base_config();
    s.step(Event::Ack);
    s.step(Event::Done(true));
    s.step(Event::Ack);
    assert!(matches!(s.step(Event::Reply(Ok(vec![]))), Action::Abort));
    assert_eq!(s.stage, ExchangeStage::Aborted);
}

#[test]
fn frequency_session_paths() {
    let mut s = jump_freq(910000, 0);
    assert_eq!(sent(&s.step(Event::Ack)), Some(send_setcustomfreq_command(910000)));
    assert_eq!(shown(&s.step(Event::Done(true))), Some(Notice::FixedFreq));
    assert!(matches!(s.step(Event::Ack), Action::Receive));
    assert!(matches!(s.step(Event::Reply(Ok(vec![0x10]))), Action::Finish(Outcome::Flag(true))));

    let mut s = jump_freq(0, 1);
    assert_eq!(sent(&s.step(Event::Ack)), Some(send_setstandardfreq_command(1, 7, 0x3B)));
    assert_eq!(shown(&s.step(Event::Done(false))), Some(Notice::StandardFreq));
    assert_eq!(shown(&s.step(Event::Ack)), Some(Notice::FreqSendFailed));
    assert!(matches!(s.step(Event::Ack), Action::Finish(Outcome::Flag(false))));

    let mut s = jump_freq(0, 1);
    s.step(Event::Ack);
    s.step(Event::Done(true));
    s.step(Event::Ack);
    assert_eq!(shown(&s.step(Event::Reply(Err(())))), Some(Notice::FreqFailed));
    assert!(matches!(s.step(Event::Ack), Action::Finish(Outcome::Flag(false))));
}

#[test]
fn frequency_without_computable_checksum_aborts() {
    // 0xA0 + 10 + 0x78 + 4 + 0 + 0x19 + 1 + 0xC0 is a multiple of 256.
    let mut s = jump_freq(0xC0, 0);
    assert!(matches!(s.step(Event::Ack), Action::Abort));
    assert_eq!(s.stage, ExchangeStage::Aborted);
}

#[derive(Clone)]
struct Log {
    lines: Rc<RefCell<Vec<String>>>,
    enabled: Rc<RefCell<u32>>,
}

impl UI for Log {
    fn output(&self, msg: &str) {
        self.lines.borrow_mut().push(msg.to_string());
    }
    fn enable_next_ui(&self) {}
    fn enable_ui(&self) {
        *self.enabled.borrow_mut() += 1;
    }
    fn get_inv_epc(&self, _epc: &str) {}
    fn update_match_table(&self, _epc: &str) {}
    fn repeate(&self) {}
}

#[test]
fn stop_request_is_seen_once() {
    let log = Log { lines: Rc::new(RefCell::new(Vec::new())), enabled: Rc::new(RefCell::new(0)) };
    let mut flag: Option<bool> = None;
    assert!(!take_stop_request(&mut flag));
    assert_eq!(flag, None);
    stop_inv_epc(&log, &mut flag);
    assert_eq!(flag, Some(true));
    assert_eq!(log.lines.borrow().as_slice(), &["停止盘存".to_string()]);
    assert!(take_stop_request(&mut flag));
    assert_eq!(flag, Some(false));
    assert!(!take_stop_request(&mut flag));
}

#[test]
fn fault_and_complete_enable_ui() {
    let log = Log { lines: Rc::new(RefCell::new(Vec::new())), enabled: Rc::new(RefCell::new(0)) };
    fault_state(&log);
    complete_state(&log);
    assert_eq!(*log.enabled.borrow(), 2);
}

#[test]
fn notice_texts() {
    assert_eq!(Notice::Connected.text(), "连接成功");
    assert_eq!(Notice::FreqFailed.text(), "设置当前频率失败");
    assert_eq!(Notice::SetSession.text(), "设置session");
}

#[test]
fn epc_list_is_second_column() {
    let rows = vec![
        vec!["1".to_string(), "E200".to_string()],
        vec!["2".to_string(), "E201".to_string(), "x".to_string()],
    ];
    assert_eq!(get_epc_vec(Some(rows)), Ok(vec!["E200".to_string(), "E201".to_string()]));
    assert_eq!(get_epc_vec(None), Err(EpcListError::NoSheet));
}

#[test]
fn transfer_starts_empty() {
    let t = Transfer::new();
    assert_eq!(t.uartport, None);
    assert_eq!(t.cancel_handle, None);
}

#[test]
fn modes_and_states() {
    let m = Mode::Auto(1);
    let copy = m.clone();
    assert!(matches!(copy, Mode::Auto(1)));
    assert!(matches!(Mode::Hand(2), Mode::Hand(2)));
    assert_ne!(CompleteState::Running(1), CompleteState::Complete(1));
}
