//! The reader set-up session and the frequency session: each is a chain
//! of exchanges, where one command is sent, announced, and its reply read.
use vstd::prelude::*;
use crate::commands::{
    custom_freq_data, custom_freq_payload, send_getpower_command, send_getrflink_command, send_opencw_command,
    send_set_session_command, send_setcustomfreq_command, send_setpower_command,
    send_setrflink_command, send_setstandardfreq_command,
};
use crate::frame::{
    checksum_defined, frame_checksum_defined, frame_head, lemma_byte_sum_literals, lemma_head_sum,
    protocol_frame,
};
use crate::session::{Action, ActionView, Event, Notice, Outcome, reply_data, succeeded};
use crate::ui::CompleteState;

verus! {

/// One command of a set-up chain.
#[derive(PartialEq, Eq, Structural, Clone, Copy, Debug)]
pub enum Exchange {
    GetRfLink,
    SetRfLink,
    GetPower,
    SetPower,
    OpenCw,
    SetSession,
    FixedFreq(u32),
    StandardFreq,
}

/// The frame each exchange sends: link profile 0xD1, output power 18,
/// carrier wave on, session 2, a custom frequency, or the standard region
/// 1 from channel 7 to 0x3B.
pub open spec fn exchange_frame(ex: Exchange) -> Seq<u8> {
    match ex {
        Exchange::GetRfLink => protocol_frame(0x6A, 0, seq![]),
        Exchange::SetRfLink => protocol_frame(0x69, 1, seq![0xD1u8]),
        Exchange::GetPower => protocol_frame(0x77, 0, seq![]),
        Exchange::SetPower => protocol_frame(0x76, 1, seq![18u8]),
        Exchange::OpenCw => protocol_frame(0x3E, 1, seq![1u8]),
        Exchange::SetSession => protocol_frame(0x5B, 2, seq![0x02u8, 0x00u8]),
        Exchange::FixedFreq(f) => protocol_frame(0x78, 7, custom_freq_payload(f)),
        Exchange::StandardFreq => protocol_frame(0x78, 3, seq![0x01u8, 0x07u8, 0x3Bu8]),
    }
}

/// What the user is told once the command was written (or not).
pub open spec fn exchange_notice(ex: Exchange) -> Notice {
    match ex {
        Exchange::GetRfLink => Notice::GetRfLink,
        Exchange::SetRfLink => Notice::SetRfLink,
        Exchange::GetPower => Notice::GetPower,
        Exchange::SetPower => Notice::SetPower,
        Exchange::OpenCw => Notice::OpenCw,
        Exchange::SetSession => Notice::SetSession,
        Exchange::FixedFreq(_) => Notice::FixedFreq,
        Exchange::StandardFreq => Notice::StandardFreq,
    }
}

/// What the user is told when the command could not be written.
pub open spec fn send_failure(ex: Exchange) -> Notice {
    match ex {
        Exchange::GetRfLink => Notice::GetRfLinkSendFailed,
        Exchange::SetRfLink => Notice::SetRfLinkSendFailed,
        Exchange::GetPower => Notice::GetPowerSendFailed,
        Exchange::SetPower => Notice::SetPowerSendFailed,
        Exchange::OpenCw => Notice::OpenCwFailed,
        Exchange::SetSession => Notice::SetSessionFailed,
        Exchange::FixedFreq(_) => Notice::FreqSendFailed,
        Exchange::StandardFreq => Notice::FreqSendFailed,
    }
}

/// What the user is told when no good reply came.
pub open spec fn reply_failure(ex: Exchange) -> Notice {
    match ex {
        Exchange::GetRfLink => Notice::GetRfLinkFailed,
        Exchange::SetRfLink => Notice::SetRfLinkFailed,
        Exchange::GetPower => Notice::GetPowerFailed,
        Exchange::SetPower => Notice::SetPowerFailed,
        Exchange::OpenCw => Notice::OpenCwFailed,
        Exchange::SetSession => Notice::SetSessionFailed,
        Exchange::FixedFreq(_) => Notice::FreqFailed,
        Exchange::StandardFreq => Notice::FreqFailed,
    }
}

/// The checksum of the exchange's frame can be computed; only a custom
/// frequency can make its byte sum a multiple of 256.
pub open spec fn exchange_defined(ex: Exchange) -> bool {
    match ex {
        Exchange::FixedFreq(f) => checksum_defined(frame_head(0x78, 7, custom_freq_payload(f))),
        _ => true,
    }
}

impl Exchange {
    /// The frame of the exchange (see `exchange_frame`).
    pub fn frame(&self) -> (f: Vec<u8>)
        requires
            exchange_defined(*self),
        ensures
            f@ == exchange_frame(*self),
    {
        proof {
            lemma_head_sum(0x69, 1, seq![0xD1u8]);
            lemma_head_sum(0x76, 1, seq![18u8]);
            lemma_head_sum(0x78, 3, seq![0x01u8, 0x07u8, 0x3Bu8]);
            lemma_byte_sum_literals(0xD1, 0, 0, 0);
            lemma_byte_sum_literals(18, 0, 0, 0);
            lemma_byte_sum_literals(0x01, 0x07, 0x3B, 0);
        }
        match self {
            Exchange::GetRfLink => send_getrflink_command(),
            Exchange::SetRfLink => send_setrflink_command(0xD1),
            Exchange::GetPower => send_getpower_command(),
            Exchange::SetPower => send_setpower_command(18),
            Exchange::OpenCw => send_opencw_command(),
            Exchange::SetSession => send_set_session_command(),
            Exchange::FixedFreq(f) => send_setcustomfreq_command(*f),
            Exchange::StandardFreq => send_setstandardfreq_command(0x01, 0x07, 0x3B),
        }
    }

    fn notice(&self) -> (n: Notice)
        ensures
            n == exchange_notice(*self),
    {
        match self {
            Exchange::GetRfLink => Notice::GetRfLink,
            Exchange::SetRfLink => Notice::SetRfLink,
            Exchange::GetPower => Notice::GetPower,
            Exchange::SetPower => Notice::SetPower,
            Exchange::OpenCw => Notice::OpenCw,
            Exchange::SetSession => Notice::SetSession,
            Exchange::FixedFreq(_) => Notice::FixedFreq,
            Exchange::StandardFreq => Notice::StandardFreq,
        }
    }

    fn send_failure(&self) -> (n: Notice)
        ensures
            n == send_failure(*self),
    {
        match self {
            Exchange::GetRfLink => Notice::GetRfLinkSendFailed,
            Exchange::SetRfLink => Notice::SetRfLinkSendFailed,
            Exchange::GetPower => Notice::GetPowerSendFailed,
            Exchange::SetPower => Notice::SetPowerSendFailed,
            Exchange::OpenCw => Notice::OpenCwFailed,
            Exchange::SetSession => Notice::SetSessionFailed,
            Exchange::FixedFreq(_) => Notice::FreqSendFailed,
            Exchange::StandardFreq => Notice::FreqSendFailed,
        }
    }

    fn reply_failure(&self) -> (n: Notice)
        ensures
            n == reply_failure(*self),
    {
        match self {
            Exchange::GetRfLink => Notice::GetRfLinkFailed,
            Exchange::SetRfLink => Notice::SetRfLinkFailed,
            Exchange::GetPower => Notice::GetPowerFailed,
            Exchange::SetPower => Notice::SetPowerFailed,
            Exchange::OpenCw => Notice::OpenCwFailed,
            Exchange::SetSession => Notice::SetSessionFailed,
            Exchange::FixedFreq(_) => Notice::FreqFailed,
            Exchange::StandardFreq => Notice::FreqFailed,
        }
    }
}

/// Where a chain of exchanges stands.
#[derive(PartialEq, Eq, Structural, Clone, Copy, Debug)]
pub enum ExchangeStage {
    Start,
    /// The command was handed out for writing.
    Sending(Exchange),
    /// The write is reported; the announcement was handed out.
    Sent(Exchange, bool),
    /// The reply was asked for.
    Receiving(Exchange),
    /// The chain ended with this outcome.
    Over(Outcome),
    /// A reply was too short to read.
    Aborted,
}

/// Sending `ex` next.
pub open spec fn send_next(ex: Exchange) -> (ExchangeStage, ActionView) {
    (ExchangeStage::Sending(ex), ActionView::Send(exchange_frame(ex)))
}

/// The steps common to every exchange: once the write is reported,
/// announce the command; on a failed write tell the user and end with
/// `fail`; otherwise read the reply, and on a failed reply tell the user
/// and end with `fail`.
pub open spec fn exchange_next(stage: ExchangeStage, e: &Event, fail: Outcome) -> (ExchangeStage, ActionView) {
    match stage {
        ExchangeStage::Sending(ex) => (
            ExchangeStage::Sent(ex, succeeded(e)),
            ActionView::Show(exchange_notice(ex)),
        ),
        ExchangeStage::Sent(ex, ok) => if ok {
            (ExchangeStage::Receiving(ex), ActionView::Receive)
        } else {
            (ExchangeStage::Over(fail), ActionView::Show(send_failure(ex)))
        },
        ExchangeStage::Receiving(ex) => (ExchangeStage::Over(fail), ActionView::Show(reply_failure(ex))),
        ExchangeStage::Over(o) => (ExchangeStage::Over(o), ActionView::Finish(o)),
        _ => (ExchangeStage::Aborted, ActionView::Abort),
    }
}

/// The reader set-up ends with this outcome on any failure.
pub open spec fn config_failed() -> Outcome {
    Outcome::Session(CompleteState::Error(1))
}

/// The reader set-up chain after a good reply `v` to `ex`: read the link
/// profile and set it to 0xD1 unless it is already; read the output power
/// and set it to 18 unless it reads 20; switch the carrier wave on; set
/// the session; then end with `Complete(1)`.  An empty reply where a value
/// is read aborts the chain.
pub open spec fn config_after_reply(ex: Exchange, v: Seq<u8>) -> (ExchangeStage, ActionView) {
    match ex {
        Exchange::GetRfLink => if v.len() == 0 {
            (ExchangeStage::Aborted, ActionView::Abort)
        } else if v[0] != 0xD1 {
            send_next(Exchange::SetRfLink)
        } else {
            send_next(Exchange::GetPower)
        },
        Exchange::SetRfLink => send_next(Exchange::GetPower),
        Exchange::GetPower => if v.len() == 0 {
            (ExchangeStage::Aborted, ActionView::Abort)
        } else if v[0] != 20 {
            send_next(Exchange::SetPower)
        } else {
            send_next(Exchange::OpenCw)
        },
        Exchange::SetPower => send_next(Exchange::OpenCw),
        Exchange::OpenCw => send_next(Exchange::SetSession),
        _ => (
            ExchangeStage::Over(Outcome::Session(CompleteState::Complete(1))),
            ActionView::Finish(Outcome::Session(CompleteState::Complete(1))),
        ),
    }
}

/// The reader set-up session, step by step.
pub open spec fn config_next(stage: ExchangeStage, e: &Event) -> (ExchangeStage, ActionView) {
    match stage {
        ExchangeStage::Start => send_next(Exchange::GetRfLink),
        ExchangeStage::Receiving(ex) => match reply_data(e) {
            Some(v) => config_after_reply(ex, v),
            None => exchange_next(stage, e, config_failed()),
        },
        _ => exchange_next(stage, e, config_failed()),
    }
}

/// The set-up sets the RF link profile to 0xD1 exactly when the reader
/// reports another one: after a good reply `v` to the profile query, the
/// next action writes the set-profile frame for 0xD1 if and only if
/// `v[0]` is not 0xD1; otherwise it goes on to query the output power.
pub proof fn lemma_config_sets_link_profile(e: &Event)
    requires
        e matches Event::Reply(Ok(v)) && v@.len() > 0,
    ensures
        ({
            let v = reply_data(e)->Some_0;
            let a = config_next(ExchangeStage::Receiving(Exchange::GetRfLink), e).1;
            &&& a == ActionView::Send(protocol_frame(0x69, 1, seq![0xD1u8])) <==> v[0] != 0xD1
            &&& v[0] == 0xD1 ==> a == ActionView::Send(protocol_frame(0x77, 0, seq![]))
        }),
{
    crate::frame::lemma_built_frame_is_valid(0x69, 1, seq![0xD1u8]);
    crate::frame::lemma_built_frame_is_valid(0x77, 0, seq![]);
    assert(protocol_frame(0x69, 1, seq![0xD1u8]) != protocol_frame(0x77, 0, seq![]));
}

/// The set-up sets the output power to 18 exactly when the reader reports
/// a power other than 20: after a good reply `v` to the power query, the
/// next action writes the set-power frame for 18 if and only if `v[0]`
/// is not 20; otherwise it goes on to switch the carrier wave on.
pub proof fn lemma_config_sets_power(e: &Event)
    requires
        e matches Event::Reply(Ok(v)) && v@.len() > 0,
    ensures
        ({
            let v = reply_data(e)->Some_0;
            let a = config_next(ExchangeStage::Receiving(Exchange::GetPower), e).1;
            &&& a == ActionView::Send(protocol_frame(0x76, 1, seq![18u8])) <==> v[0] != 20
            &&& v[0] == 20 ==> a == ActionView::Send(protocol_frame(0x3E, 1, seq![1u8]))
        }),
{
    crate::frame::lemma_built_frame_is_valid(0x76, 1, seq![18u8]);
    crate::frame::lemma_built_frame_is_valid(0x3E, 1, seq![1u8]);
    assert(protocol_frame(0x76, 1, seq![18u8])[3] != protocol_frame(0x3E, 1, seq![1u8])[3]);
}

/// The set-up runs its commands in order, each after a good reply to the
/// one before: it first queries the link profile (0x6A); after setting the
/// profile it queries the power (0x77); after setting the power it
/// switches the carrier wave on (0x3E, 1); after that it sets session 2
/// (0x5B); after the session it ends with `Complete(1)`.  Where no good
/// reply comes, or a command could not be written, it ends with
/// `Error(1)`.
pub proof fn lemma_config_runs_in_order(e: &Event, ex: Exchange)
    ensures
        config_next(ExchangeStage::Start, e).1 == ActionView::Send(protocol_frame(0x6A, 0, seq![])),
        e is Reply && e->Reply_0 is Ok ==> {
            &&& config_next(ExchangeStage::Receiving(Exchange::SetRfLink), e).1 == ActionView::Send(
                protocol_frame(0x77, 0, seq![]),
            )
            &&& config_next(ExchangeStage::Receiving(Exchange::SetPower), e).1 == ActionView::Send(
                protocol_frame(0x3E, 1, seq![1u8]),
            )
            &&& config_next(ExchangeStage::Receiving(Exchange::OpenCw), e).1 == ActionView::Send(
                protocol_frame(0x5B, 2, seq![0x02u8, 0x00u8]),
            )
            &&& config_next(ExchangeStage::Receiving(Exchange::SetSession), e) == (
                ExchangeStage::Over(Outcome::Session(CompleteState::Complete(1))),
                ActionView::Finish(Outcome::Session(CompleteState::Complete(1))),
            )
        },
        !(e is Reply && e->Reply_0 is Ok) ==> config_next(ExchangeStage::Receiving(ex), e).0
            == ExchangeStage::Over(Outcome::Session(CompleteState::Error(1))),
        config_next(ExchangeStage::Sent(ex, false), e).0 == ExchangeStage::Over(
            Outcome::Session(CompleteState::Error(1)),
        ),
{
}

/// The frequency session sends the custom frequency `freq` when `mode` is
/// 0 (and its frame can be built), the standard region 1 from channel 7 to
/// 0x3B otherwise; a good reply ends it with `true`, a missing one with
/// `false`.
pub proof fn lemma_freq_outcome(freq: u32, mode: u8, ex: Exchange, e: &Event)
    ensures
        mode != 0 ==> freq_next(ExchangeStage::Start, freq, mode, e).1 == ActionView::Send(
            protocol_frame(0x78, 3, seq![0x01u8, 0x07u8, 0x3Bu8]),
        ),
        mode == 0 && exchange_defined(Exchange::FixedFreq(freq)) ==> freq_next(
            ExchangeStage::Start,
            freq,
            mode,
            e,
        ).1 == ActionView::Send(protocol_frame(0x78, 7, custom_freq_payload(freq))),
        e is Reply && e->Reply_0 is Ok ==> freq_next(ExchangeStage::Receiving(ex), freq, mode, e) == (
            ExchangeStage::Over(Outcome::Flag(true)),
            ActionView::Finish(Outcome::Flag(true)),
        ),
        !(e is Reply && e->Reply_0 is Ok) ==> freq_next(ExchangeStage::Receiving(ex), freq, mode, e).0
            == ExchangeStage::Over(Outcome::Flag(false)),
{
}

/// The frequency session, step by step: send the custom frequency when
/// `mode` is 0 (a frequency whose frame has no computable checksum aborts
/// the session), the standard region otherwise; end with `true` after a
/// good reply and with `false` on any failure.
pub open spec fn freq_next(stage: ExchangeStage, freq: u32, mode: u8, e: &Event) -> (ExchangeStage, ActionView) {
    match stage {
        ExchangeStage::Start => if mode == 0 {
            if exchange_defined(Exchange::FixedFreq(freq)) {
                send_next(Exchange::FixedFreq(freq))
            } else {
                (ExchangeStage::Aborted, ActionView::Abort)
            }
        } else {
            send_next(Exchange::StandardFreq)
        },
        ExchangeStage::Receiving(ex) => match reply_data(e) {
            Some(v) => (ExchangeStage::Over(Outcome::Flag(true)), ActionView::Finish(Outcome::Flag(true))),
            None => exchange_next(stage, e, Outcome::Flag(false)),
        },
        _ => exchange_next(stage, e, Outcome::Flag(false)),
    }
}

/// Performs the common steps of `exchange_next`.
fn exchange_step(stage: &mut ExchangeStage, event: &Event, fail: Outcome) -> (action: Action)
    ensures
        (*final(stage), action@) == exchange_next(*old(stage), event, fail),
{
    match *stage {
        ExchangeStage::Sending(ex) => {
            let ok = match event {
                Event::Done(true) => true,
                _ => false,
            };
            *stage = ExchangeStage::Sent(ex, ok);
            Action::Show(ex.notice())
        },
        ExchangeStage::Sent(ex, ok) => {
            if ok {
                *stage = ExchangeStage::Receiving(ex);
                Action::Receive
            } else {
                *stage = ExchangeStage::Over(fail);
                Action::Show(ex.send_failure())
            }
        },
        ExchangeStage::Receiving(ex) => {
            *stage = ExchangeStage::Over(fail);
            Action::Show(ex.reply_failure())
        },
        ExchangeStage::Over(o) => Action::Finish(o),
        _ => {
            *stage = ExchangeStage::Aborted;
            Action::Abort
        },
    }
}

fn send_step(stage: &mut ExchangeStage, ex: Exchange) -> (action: Action)
    requires
        exchange_defined(ex),
    ensures
        (*final(stage), action@) == send_next(ex),
{
    *stage = ExchangeStage::Sending(ex);
    Action::Send(ex.frame())
}

/// A reader set-up session in progress.
pub struct ConfigSession {
    pub stage: ExchangeStage,
}

/// Starts the session that sets the reader up for inventory.
pub fn reader_base_config() -> (session: ConfigSession)
    ensures
        session.stage == ExchangeStage::Start,
{
    ConfigSession { stage: ExchangeStage::Start }
}

impl ConfigSession {
    /// The next action, given the outcome of the last one (see
    /// `config_next`).
    pub fn step(&mut self, event: Event) -> (action: Action)
        ensures
            (final(self).stage, action@) == config_next(old(self).stage, &event),
    {
        match self.stage {
            ExchangeStage::Start => send_step(&mut self.stage, Exchange::GetRfLink),
            ExchangeStage::Receiving(ex) => {
                match &event {
                    Event::Reply(Ok(v)) => {
                        match ex {
                            Exchange::GetRfLink => {
                                if v.len() == 0 {
                                    self.stage = ExchangeStage::Aborted;
                                    Action::Abort
                                } else if v[0] != 0xD1 {
                                    send_step(&mut self.stage, Exchange::SetRfLink)
                                } else {
                                    send_step(&mut self.stage, Exchange::GetPower)
                                }
                            },
                            Exchange::SetRfLink => send_step(&mut self.stage, Exchange::GetPower),
                            Exchange::GetPower => {
                                if v.len() == 0 {
                                    self.stage = ExchangeStage::Aborted;
                                    Action::Abort
                                } else if v[0] != 20 {
                                    send_step(&mut self.stage, Exchange::SetPower)
                                } else {
                                    send_step(&mut self.stage, Exchange::OpenCw)
                                }
                            },
                            Exchange::SetPower => send_step(&mut self.stage, Exchange::OpenCw),
                            Exchange::OpenCw => send_step(&mut self.stage, Exchange::SetSession),
                            _ => {
                                let done = Outcome::Session(CompleteState::Complete(1));
                                self.stage = ExchangeStage::Over(done);
                                Action::Finish(done)
                            },
                        }
                    },
                    _ => exchange_step(&mut self.stage, &event, Outcome::Session(CompleteState::Error(1))),
                }
            },
            _ => exchange_step(&mut self.stage, &event, Outcome::Session(CompleteState::Error(1))),
        }
    }
}

/// A frequency session in progress.
pub struct FreqSession {
    pub freq: u32,
    pub mode: u8,
    pub stage: ExchangeStage,
}

/// Starts the session that moves the reader to frequency `freq` (mode 0)
/// or to its standard region (any other mode).
pub fn jump_freq(freq: u32, mode: u8) -> (session: FreqSession)
    ensures
        session.freq == freq,
        session.mode == mode,
        session.stage == ExchangeStage::Start,
{
    FreqSession { freq, mode, stage: ExchangeStage::Start }
}

impl FreqSession {
    /// The next action, given the outcome of the last one (see
    /// `freq_next`).
    pub fn step(&mut self, event: Event) -> (action: Action)
        ensures
            final(self).freq == old(self).freq,
            final(self).mode == old(self).mode,
            (final(self).stage, action@) == freq_next(old(self).stage, old(self).freq, old(self).mode, &event),
    {
        match self.stage {
            ExchangeStage::Start => {
                if self.mode == 0x00 {
                    let data = custom_freq_data(self.freq);
                    if frame_checksum_defined(0x78, 7, &data) {
                        send_step(&mut self.stage, Exchange::FixedFreq(self.freq))
                    } else {
                        self.stage = ExchangeStage::Aborted;
                        Action::Abort
                    }
                } else {
                    send_step(&mut self.stage, Exchange::StandardFreq)
                }
            },
            ExchangeStage::Receiving(_) => {
                match &event {
                    Event::Reply(Ok(_)) => {
                        self.stage = ExchangeStage::Over(Outcome::Flag(true));
                        Action::Finish(Outcome::Flag(true))
                    },
                    _ => exchange_step(&mut self.stage, &event, Outcome::Flag(false)),
                }
            },
            _ => exchange_step(&mut self.stage, &event, Outcome::Flag(false)),
        }
    }
}

} // verus!
