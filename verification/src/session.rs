//! What the client's sessions tell the application to do, and what the
//! application reports back.  Each session (connect, inventory, match,
//! reader set-up, frequency change) is a state machine whose `step` takes
//! the outcome of the last action and returns the next one; the
//! application performs the actions on the serial port and the window.
use vstd::prelude::*;
use crate::ui::{CompleteState, UI};

verus! {

/// The fixed messages the sessions show to the user.
#[derive(PartialEq, Eq, Structural, Clone, Copy, Debug)]
pub enum Notice {
    ConfigFailed,
    Connected,
    ResetSent,
    ResetSendFailed,
    ResetDone,
    ReplyFailed,
    Stopping,
    InventoryStart,
    InventorySending,
    InventorySendFailed,
    MatchStart,
    EpcInvalid,
    SelectSending,
    SelectFailed,
    MatchSending,
    MatchSendFailed,
    StopSending,
    StopSendFailed,
    GetRfLink,
    GetRfLinkSendFailed,
    GetRfLinkFailed,
    SetRfLink,
    SetRfLinkSendFailed,
    SetRfLinkFailed,
    GetPower,
    GetPowerSendFailed,
    GetPowerFailed,
    SetPower,
    SetPowerSendFailed,
    SetPowerFailed,
    OpenCw,
    OpenCwFailed,
    SetSession,
    SetSessionFailed,
    FixedFreq,
    StandardFreq,
    FreqSendFailed,
    FreqFailed,
}

/// The text shown for each notice.
pub open spec fn notice_text(n: Notice) -> Seq<char> {
    match n {
        Notice::ConfigFailed => "配置失败"@,
        Notice::Connected => "连接成功"@,
        Notice::ResetSent => "发送复位命令成功"@,
        Notice::ResetSendFailed => "发送复位命令失败"@,
        Notice::ResetDone => "复位成功"@,
        Notice::ReplyFailed => "接收读写器消息失败"@,
        Notice::Stopping => "停止盘存"@,
        Notice::InventoryStart => "开始实时盘存"@,
        Notice::InventorySending => "发送实时盘存命令"@,
        Notice::InventorySendFailed => "发送实时盘存命令失败"@,
        Notice::MatchStart => "开始匹配端口"@,
        Notice::EpcInvalid => "匹配的EPC错误"@,
        Notice::SelectSending => "设置select"@,
        Notice::SelectFailed => "设置select失败"@,
        Notice::MatchSending => "发送匹配端口命令"@,
        Notice::MatchSendFailed => "发送端口匹配失败"@,
        Notice::StopSending => "发送停止盘存命令"@,
        Notice::StopSendFailed => "发送停止盘存命令失败"@,
        Notice::GetRfLink => "获取当前射频链路"@,
        Notice::GetRfLinkSendFailed => "发送获取射频链路命令失败"@,
        Notice::GetRfLinkFailed => "获取射频链路失败"@,
        Notice::SetRfLink => "设置射频链路"@,
        Notice::SetRfLinkSendFailed => "发送设置射频链路命令失败"@,
        Notice::SetRfLinkFailed => "设置射频链路失败"@,
        Notice::GetPower => "获取当前功率"@,
        Notice::GetPowerSendFailed => "发送获取功率命令失败"@,
        Notice::GetPowerFailed => "获取当前功率失败"@,
        Notice::SetPower => "设置当前功率"@,
        Notice::SetPowerSendFailed => "发送设置功率命令失败"@,
        Notice::SetPowerFailed => "设置当前功率失败"@,
        Notice::OpenCw => "打开CW波"@,
        Notice::OpenCwFailed => "打开CW波失败"@,
        Notice::SetSession => "设置session"@,
        Notice::SetSessionFailed => "设置session失败"@,
        Notice::FixedFreq => "设置固定频点"@,
        Notice::StandardFreq => "设置标准频率"@,
        Notice::FreqSendFailed => "发送设置当前频率命令失败"@,
        Notice::FreqFailed => "设置当前频率失败"@,
    }
}

impl Notice {
    /// The text of the notice (see `notice_text`).
    pub fn text(&self) -> (t: &'static str)
        ensures
            t@ == notice_text(*self),
    {
        match self {
            Notice::ConfigFailed => "配置失败",
            Notice::Connected => "连接成功",
            Notice::ResetSent => "发送复位命令成功",
            Notice::ResetSendFailed => "发送复位命令失败",
            Notice::ResetDone => "复位成功",
            Notice::ReplyFailed => "接收读写器消息失败",
            Notice::Stopping => "停止盘存",
            Notice::InventoryStart => "开始实时盘存",
            Notice::InventorySending => "发送实时盘存命令",
            Notice::InventorySendFailed => "发送实时盘存命令失败",
            Notice::MatchStart => "开始匹配端口",
            Notice::EpcInvalid => "匹配的EPC错误",
            Notice::SelectSending => "设置select",
            Notice::SelectFailed => "设置select失败",
            Notice::MatchSending => "发送匹配端口命令",
            Notice::MatchSendFailed => "发送端口匹配失败",
            Notice::StopSending => "发送停止盘存命令",
            Notice::StopSendFailed => "发送停止盘存命令失败",
            Notice::GetRfLink => "获取当前射频链路",
            Notice::GetRfLinkSendFailed => "发送获取射频链路命令失败",
            Notice::GetRfLinkFailed => "获取射频链路失败",
            Notice::SetRfLink => "设置射频链路",
            Notice::SetRfLinkSendFailed => "发送设置射频链路命令失败",
            Notice::SetRfLinkFailed => "设置射频链路失败",
            Notice::GetPower => "获取当前功率",
            Notice::GetPowerSendFailed => "发送获取功率命令失败",
            Notice::GetPowerFailed => "获取当前功率失败",
            Notice::SetPower => "设置当前功率",
            Notice::SetPowerSendFailed => "发送设置功率命令失败",
            Notice::SetPowerFailed => "设置当前功率失败",
            Notice::OpenCw => "打开CW波",
            Notice::OpenCwFailed => "打开CW波失败",
            Notice::SetSession => "设置session",
            Notice::SetSessionFailed => "设置session失败",
            Notice::FixedFreq => "设置固定频点",
            Notice::StandardFreq => "设置标准频率",
            Notice::FreqSendFailed => "发送设置当前频率命令失败",
            Notice::FreqFailed => "设置当前频率失败",
        }
    }
}

/// What a finished session returns: nothing, a completion state, or a
/// success flag.
#[derive(PartialEq, Eq, Structural, Clone, Copy, Debug)]
pub enum Outcome {
    Ended,
    Session(CompleteState),
    Flag(bool),
}

/// The next thing the application does for a session.
pub enum Action {
    /// Show a fixed message.
    Show(Notice),
    /// Show a message built from user input.
    ShowText(String),
    /// Let other tasks run.
    Yield,
    /// Configure the serial port (115200 baud, 8 data bits, no parity, one
    /// stop bit, no flow control); report `Event::Done` with its success.
    Configure,
    /// Write the frame to the port; report `Event::Done` with its success.
    Send(Vec<u8>),
    /// Read the reader's reply and decode it with `decode_protocol_data`;
    /// report `Event::Reply`.
    Receive,
    /// Read from the port into the session's receive buffer with
    /// `decode_inv_epc_data`.
    ReadPort,
    /// Cut the next packet from the receive buffer with
    /// `get_single_pack`; report `Event::Pack`.
    TakePack,
    /// Show an EPC found by the inventory.
    ShowEpc(String),
    /// Add an EPC to the match table.
    MatchEpc(String),
    /// Take the stop request from the shared flag with
    /// `take_stop_request`; report `Event::Stop`.
    CheckStop,
    /// Enable the controls of the next step.
    EnableNextUi,
    /// Enable the controls again (`fault_state` / `complete_state`).
    EnableUi,
    /// The data at hand is shorter than the session must read; the session
    /// cannot go on.
    Abort,
    /// The session is over.
    Finish(Outcome),
}

/// An action, with its data as values.
pub enum ActionView {
    Show(Notice),
    ShowText(Seq<char>),
    Yield,
    Configure,
    Send(Seq<u8>),
    Receive,
    ReadPort,
    TakePack,
    ShowEpc(Seq<char>),
    MatchEpc(Seq<char>),
    CheckStop,
    EnableNextUi,
    EnableUi,
    Abort,
    Finish(Outcome),
}

impl View for Action {
    type V = ActionView;

    open spec fn view(&self) -> ActionView {
        match self {
            Action::Show(n) => ActionView::Show(*n),
            Action::ShowText(t) => ActionView::ShowText(t@),
            Action::Yield => ActionView::Yield,
            Action::Configure => ActionView::Configure,
            Action::Send(f) => ActionView::Send(f@),
            Action::Receive => ActionView::Receive,
            Action::ReadPort => ActionView::ReadPort,
            Action::TakePack => ActionView::TakePack,
            Action::ShowEpc(t) => ActionView::ShowEpc(t@),
            Action::MatchEpc(t) => ActionView::MatchEpc(t@),
            Action::CheckStop => ActionView::CheckStop,
            Action::EnableNextUi => ActionView::EnableNextUi,
            Action::EnableUi => ActionView::EnableUi,
            Action::Abort => ActionView::Abort,
            Action::Finish(o) => ActionView::Finish(*o),
        }
    }
}

/// What the application reports after performing an action.
pub enum Event {
    /// The action was performed (an action with nothing to report).
    Ack,
    /// The port configuration or the write succeeded or failed.
    Done(bool),
    /// The decoded reply of the reader.
    Reply(Result<Vec<u8>, ()>),
    /// The packet taken from the receive buffer.
    Pack(Result<Vec<u8>, ()>),
    /// Whether a stop was requested.
    Stop(bool),
}

/// The event reports a successful configuration or write.
pub open spec fn succeeded(e: &Event) -> bool {
    e matches Event::Done(true)
}

/// The decoded reply the event reports, if it reports one.
pub open spec fn reply_data(e: &Event) -> Option<Seq<u8>> {
    match e {
        Event::Reply(Ok(v)) => Some(v@),
        _ => None,
    }
}

/// The packet data the event reports, if it reports some.
pub open spec fn pack_data(e: &Event) -> Option<Seq<u8>> {
    match e {
        Event::Pack(Ok(v)) => Some(v@),
        _ => None,
    }
}

/// The event reports a stop request.
pub open spec fn stop_requested(e: &Event) -> bool {
    e matches Event::Stop(true)
}

/// The stop flag after a stop request.
pub open spec fn flag_after_stop(flag: Option<bool>) -> Option<bool> {
    Some(true)
}

/// Taking the stop request from the flag: whether a stop was requested,
/// and the flag afterwards (a request is consumed; anything else stays).
pub open spec fn take_request(flag: Option<bool>) -> (bool, Option<bool>) {
    if flag == Some(true) {
        (true, Some(false))
    } else {
        (false, flag)
    }
}

/// Asks the running inventory or match session to stop: tells the user and
/// raises the shared stop flag.
pub fn stop_inv_epc<T: UI>(ui: &T, sta: &mut Option<bool>)
    ensures
        *final(sta) == flag_after_stop(*old(sta)),
{
    ui.output(Notice::Stopping.text());
    *sta = Some(true);
}

/// Takes the stop request from the shared flag (see `take_request`).
pub fn take_stop_request(flag: &mut Option<bool>) -> (stop: bool)
    ensures
        (stop, *final(flag)) == take_request(*old(flag)),
{
    let t = *flag;
    if t == Some(true) {
        *flag = Some(false);
        true
    } else {
        false
    }
}

/// Whether a failed read of the serial port is tried again: after the
/// failed read numbered `count` (the first read is 0), the read is tried
/// again as number `count + 1` while `count` is below 10, so a read is
/// tried at most 11 times; after that the read fails.
pub fn retry_read(count: u32) -> (next: Option<u32>)
    ensures
        next == (if count >= 10 {
            None::<u32>
        } else {
            Some((count + 1) as u32)
        }),
{
    if count >= 10 {
        None
    } else {
        Some(count + 1)
    }
}

/// A stop request is seen exactly once: the first check after a request
/// reports it and lowers the flag, so the next check reports nothing.
pub proof fn lemma_stop_seen_once(flag: Option<bool>)
    ensures
        take_request(flag_after_stop(flag)) == (true, Some(false)),
        take_request(take_request(flag_after_stop(flag)).1).0 == false,
{
}

} // verus!
