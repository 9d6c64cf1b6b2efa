//! The connect session: configure the port, reset the reader and wait for
//! its reply.
use vstd::prelude::*;
use crate::commands::send_reset_command;
use crate::frame::protocol_frame;
use crate::session::{Action, ActionView, Event, Notice, Outcome, reply_data, succeeded};

verus! {

/// Where the connect session stands.
#[derive(PartialEq, Eq, Structural, Clone, Copy, Debug)]
pub enum ConnectStage {
    Start,
    Announced,
    Yielded,
    Configuring,
    Connected,
    Resetting,
    ResetSent,
    Receiving,
    ResetOk,
    Over,
}

/// The message that opens the session, followed by the port's name.
pub open spec fn connect_prefix() -> Seq<char> {
    "连接串口,串口号: "@
}

/// The connect session: announce the port, let other tasks run, configure
/// the port (on failure: say so and end), reset the reader (say whether
/// the command was sent; on failure end), read its reply, and on a good
/// reply say so and enable the next controls, otherwise report the failed
/// reply.
pub open spec fn connect_next(stage: ConnectStage, port: Seq<char>, e: &Event) -> (ConnectStage, ActionView) {
    match stage {
        ConnectStage::Start => (ConnectStage::Announced, ActionView::ShowText(connect_prefix() + port)),
        ConnectStage::Announced => (ConnectStage::Yielded, ActionView::Yield),
        ConnectStage::Yielded => (ConnectStage::Configuring, ActionView::Configure),
        ConnectStage::Configuring => if succeeded(e) {
            (ConnectStage::Connected, ActionView::Show(Notice::Connected))
        } else {
            (ConnectStage::Over, ActionView::Show(Notice::ConfigFailed))
        },
        ConnectStage::Connected => (
            ConnectStage::Resetting,
            ActionView::Send(protocol_frame(0x70, 0, seq![])),
        ),
        ConnectStage::Resetting => if succeeded(e) {
            (ConnectStage::ResetSent, ActionView::Show(Notice::ResetSent))
        } else {
            (ConnectStage::Over, ActionView::Show(Notice::ResetSendFailed))
        },
        ConnectStage::ResetSent => (ConnectStage::Receiving, ActionView::Receive),
        ConnectStage::Receiving => if reply_data(e) is Some {
            (ConnectStage::ResetOk, ActionView::Show(Notice::ResetDone))
        } else {
            (ConnectStage::Over, ActionView::Show(Notice::ReplyFailed))
        },
        ConnectStage::ResetOk => (ConnectStage::Over, ActionView::EnableNextUi),
        ConnectStage::Over => (ConnectStage::Over, ActionView::Finish(Outcome::Ended)),
    }
}

/// The connect session enables the next controls only after the reader
/// answered the reset: the step that does so comes right after a good
/// reply.
pub proof fn lemma_connect_enables_after_reply(stage: ConnectStage, port: Seq<char>, e: &Event)
    ensures
        connect_next(stage, port, e).1 == ActionView::EnableNextUi ==> stage == ConnectStage::ResetOk,
        connect_next(stage, port, e).0 == ConnectStage::ResetOk ==> stage == ConnectStage::Receiving
            && reply_data(e) is Some,
{
}

/// The reset is reported as sent only when its write succeeded: once the
/// reset frame is handed out, any report but a successful write ends the
/// session with the failure notice, and the success notice follows only a
/// successful write.
pub proof fn lemma_connect_reports_reset_write(stage: ConnectStage, port: Seq<char>, e: &Event)
    ensures
        !(e matches Event::Done(true)) ==> connect_next(ConnectStage::Resetting, port, e) == (
            ConnectStage::Over,
            ActionView::Show(Notice::ResetSendFailed),
        ),
        e matches Event::Done(true) ==> connect_next(ConnectStage::Resetting, port, e) == (
            ConnectStage::ResetSent,
            ActionView::Show(Notice::ResetSent),
        ),
        connect_next(stage, port, e).1 == ActionView::Show(Notice::ResetSent) ==> stage
            == ConnectStage::Resetting && e matches Event::Done(true),
        connect_next(stage, port, e).0 == ConnectStage::ResetSent ==> stage == ConnectStage::Resetting
            && e matches Event::Done(true),
{
}

/// The reset is written only on a configured port: the one frame the
/// session hands out is the reset frame (0x70), right after a successful
/// port configuration; a failed configuration ends the session with the
/// failure notice, and an ended session only reports that it ended.
pub proof fn lemma_connect_resets_only_when_configured(stage: ConnectStage, port: Seq<char>, e: &Event)
    ensures
        connect_next(stage, port, e).1 is Send ==> stage == ConnectStage::Connected
            && connect_next(stage, port, e).1 == ActionView::Send(protocol_frame(0x70, 0, seq![])),
        connect_next(stage, port, e).0 == ConnectStage::Connected ==> stage == ConnectStage::Configuring
            && e matches Event::Done(true),
        !(e matches Event::Done(true)) ==> connect_next(ConnectStage::Configuring, port, e) == (
            ConnectStage::Over,
            ActionView::Show(Notice::ConfigFailed),
        ),
        connect_next(ConnectStage::Over, port, e) == (ConnectStage::Over, ActionView::Finish(Outcome::Ended)),
{
}

/// A connect session in progress.
pub struct ConnectSession {
    pub port: String,
    pub stage: ConnectStage,
}

/// Starts the session that connects to the reader on `port`.
pub fn uartstate_moniter(port: String) -> (session: ConnectSession)
    ensures
        session.port@ == port@,
        session.stage == ConnectStage::Start,
{
    ConnectSession { port, stage: ConnectStage::Start }
}

impl ConnectSession {
    /// The next action, given the outcome of the last one (see
    /// `connect_next`).
    pub fn step(&mut self, event: Event) -> (action: Action)
        ensures
            final(self).port@ == old(self).port@,
            (final(self).stage, action@) == connect_next(old(self).stage, old(self).port@, &event),
    {
        match self.stage {
            ConnectStage::Start => {
                let mut text = "连接串口,串口号: ".to_owned();
                text.append(self.port.as_str());
                self.stage = ConnectStage::Announced;
                Action::ShowText(text)
            },
            ConnectStage::Announced => {
                self.stage = ConnectStage::Yielded;
                Action::Yield
            },
            ConnectStage::Yielded => {
                self.stage = ConnectStage::Configuring;
                Action::Configure
            },
            ConnectStage::Configuring => {
                if let Event::Done(true) = event {
                    self.stage = ConnectStage::Connected;
                    Action::Show(Notice::Connected)
                } else {
                    self.stage = ConnectStage::Over;
                    Action::Show(Notice::ConfigFailed)
                }
            },
            ConnectStage::Connected => {
                self.stage = ConnectStage::Resetting;
                Action::Send(send_reset_command())
            },
            ConnectStage::Resetting => {
                if let Event::Done(true) = event {
                    self.stage = ConnectStage::ResetSent;
                    Action::Show(Notice::ResetSent)
                } else {
                    self.stage = ConnectStage::Over;
                    Action::Show(Notice::ResetSendFailed)
                }
            },
            ConnectStage::ResetSent => {
                self.stage = ConnectStage::Receiving;
                Action::Receive
            },
            ConnectStage::Receiving => {
                if let Event::Reply(Ok(_)) = event {
                    self.stage = ConnectStage::ResetOk;
                    Action::Show(Notice::ResetDone)
                } else {
                    self.stage = ConnectStage::Over;
                    Action::Show(Notice::ReplyFailed)
                }
            },
            ConnectStage::ResetOk => {
                self.stage = ConnectStage::Over;
                Action::EnableNextUi
            },
            ConnectStage::Over => Action::Finish(Outcome::Ended),
        }
    }
}

} // verus!
