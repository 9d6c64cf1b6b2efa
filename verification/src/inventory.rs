//! The inventory session, which shows every EPC the reader finds until the
//! user stops it, and the match session, which selects one EPC and lists
//! the tags that answer.
use vstd::prelude::*;
use vstd::utf8::encode_utf8;
use crate::commands::{
    select_data, select_fits, select_payload, send_custom_inventory_command, send_realtimeinv_command,
    send_reset_command, send_set_select_command, send_stopinv_command,
};
use crate::frame::{
    checksum_defined, frame_checksum_defined, frame_head, lemma_byte_sum_literals, lemma_head_sum,
    protocol_frame,
};
use crate::hex::{bytes_to_hex, hex_decode, hex_text, hex_to_bytes};
use crate::session::{
    Action, ActionView, Event, Notice, Outcome, pack_data, reply_data, stop_requested, succeeded,
};
use crate::ui::CompleteState;

verus! {

/// Where the inventory session stands.
#[derive(PartialEq, Eq, Structural, Clone, Copy, Debug)]
pub enum InventoryStage {
    Start,
    Announced,
    Yielded,
    Configuring,
    ConfigFailed,
    Connected,
    Starting,
    StartSent(bool),
    Reading,
    Taking,
    Shown,
    Checking,
    Stopping,
    Stopped,
    Over(CompleteState),
}

/// The inventory session: announce it, let other tasks run, configure
/// the port (on failure: say so, enable the controls, end with
/// `Error(1)`), start the real-time inventory (say so; if the command
/// could not be written, say that too and end with `Error(1)`); then
/// repeatedly read from the port, show the EPC of every packet in the
/// buffer, and check for a stop request; on a stop, reset the reader (say
/// so if the reset was written), enable the controls and end with
/// `Complete(1)`.
pub open spec fn inventory_next(stage: InventoryStage, e: &Event) -> (InventoryStage, ActionView) {
    match stage {
        InventoryStage::Start => (InventoryStage::Announced, ActionView::Show(Notice::InventoryStart)),
        InventoryStage::Announced => (InventoryStage::Yielded, ActionView::Yield),
        InventoryStage::Yielded => (InventoryStage::Configuring, ActionView::Configure),
        InventoryStage::Configuring => if succeeded(e) {
            (InventoryStage::Connected, ActionView::Show(Notice::Connected))
        } else {
            (InventoryStage::ConfigFailed, ActionView::Show(Notice::ConfigFailed))
        },
        InventoryStage::ConfigFailed => (InventoryStage::Over(CompleteState::Error(1)), ActionView::EnableUi),
        InventoryStage::Connected => (
            InventoryStage::Starting,
            ActionView::Send(protocol_frame(0x89, 1, seq![1u8])),
        ),
        InventoryStage::Starting => (
            InventoryStage::StartSent(succeeded(e)),
            ActionView::Show(Notice::InventorySending),
        ),
        InventoryStage::StartSent(ok) => if ok {
            (InventoryStage::Reading, ActionView::ReadPort)
        } else {
            (InventoryStage::Over(CompleteState::Error(1)), ActionView::Show(Notice::InventorySendFailed))
        },
        InventoryStage::Reading => (InventoryStage::Taking, ActionView::TakePack),
        InventoryStage::Taking => match pack_data(e) {
            Some(v) => (InventoryStage::Shown, ActionView::ShowEpc(hex_text(v))),
            None => (InventoryStage::Checking, ActionView::CheckStop),
        },
        InventoryStage::Shown => (InventoryStage::Taking, ActionView::TakePack),
        InventoryStage::Checking => if stop_requested(e) {
            (InventoryStage::Stopping, ActionView::Send(protocol_frame(0x70, 0, seq![])))
        } else {
            (InventoryStage::Reading, ActionView::ReadPort)
        },
        InventoryStage::Stopping => if succeeded(e) {
            (InventoryStage::Stopped, ActionView::Show(Notice::ResetSent))
        } else {
            (InventoryStage::Over(CompleteState::Complete(1)), ActionView::EnableUi)
        },
        InventoryStage::Stopped => (InventoryStage::Over(CompleteState::Complete(1)), ActionView::EnableUi),
        InventoryStage::Over(s) => (InventoryStage::Over(s), ActionView::Finish(Outcome::Session(s))),
    }
}

/// The stages of the inventory's read loop.
pub open spec fn in_inventory_loop(stage: InventoryStage) -> bool {
    stage == InventoryStage::Reading || stage == InventoryStage::Taking || stage
        == InventoryStage::Shown || stage == InventoryStage::Checking
}

/// The inventory runs until the user stops it: inside the read loop, only
/// a stop request leads out of it.  After a stop request the session
/// writes the reset frame, says so if the write succeeded, enables the
/// controls once, and finishes with `Complete(1)`.
pub proof fn lemma_inventory_runs_until_stopped(
    stage: InventoryStage,
    e: &Event,
    e1: &Event,
    e2: &Event,
    e3: &Event,
)
    requires
        in_inventory_loop(stage),
    ensures
        !stop_requested(e) ==> in_inventory_loop(inventory_next(stage, e).0),
        stage == InventoryStage::Checking && stop_requested(e) ==> ({
            let over = InventoryStage::Over(CompleteState::Complete(1));
            let finish = ActionView::Finish(Outcome::Session(CompleteState::Complete(1)));
            let (s1, a1) = inventory_next(stage, e);
            let (s2, a2) = inventory_next(s1, e1);
            &&& s1 == InventoryStage::Stopping
            &&& a1 == ActionView::Send(protocol_frame(0x70, 0, seq![]))
            &&& succeeded(e1) ==> {
                &&& a2 == ActionView::Show(Notice::ResetSent)
                &&& inventory_next(s2, e2) == (over, ActionView::EnableUi)
                &&& inventory_next(over, e3) == (over, finish)
            }
            &&& !succeeded(e1) ==> {
                &&& (s2, a2) == (over, ActionView::EnableUi)
                &&& inventory_next(s2, e2) == (over, finish)
            }
        }),
{
}

/// Every packet cut from the buffer during an inventory is shown, as the
/// hex text of its bytes (two upper-case digits per byte, which decodes
/// back to exactly those bytes), and the next
/// packet is then taken; when the buffer yields no packet the session
/// checks for a stop request.
pub proof fn lemma_inventory_shows_every_packet(e: &Event, e1: &Event)
    ensures
        e matches Event::Pack(Ok(v)) ==> {
            &&& inventory_next(InventoryStage::Taking, e) == (
                InventoryStage::Shown,
                ActionView::ShowEpc(hex_text(v@)),
            )
            &&& hex_decode(encode_utf8(hex_text(v@))) == Some(v@)
            &&& inventory_next(InventoryStage::Shown, e1) == (InventoryStage::Taking, ActionView::TakePack)
        },
        !(e is Pack && e->Pack_0 is Ok) ==> inventory_next(InventoryStage::Taking, e) == (
            InventoryStage::Checking,
            ActionView::CheckStop,
        ),
{
    if let Event::Pack(Ok(v)) = e {
        crate::hex::lemma_hex_text_roundtrip(v@);
    }
}

/// An inventory session in progress.
pub struct InventorySession {
    pub stage: InventoryStage,
}

/// Starts a real-time inventory session.
pub fn start_inv_epc() -> (session: InventorySession)
    ensures
        session.stage == InventoryStage::Start,
{
    InventorySession { stage: InventoryStage::Start }
}

impl InventorySession {
    /// The next action, given the outcome of the last one (see
    /// `inventory_next`).
    pub fn step(&mut self, event: Event) -> (action: Action)
        ensures
            (final(self).stage, action@) == inventory_next(old(self).stage, &event),
    {
        let ok = match &event {
            Event::Done(true) => true,
            _ => false,
        };
        match self.stage {
            InventoryStage::Start => {
                self.stage = InventoryStage::Announced;
                Action::Show(Notice::InventoryStart)
            },
            InventoryStage::Announced => {
                self.stage = InventoryStage::Yielded;
                Action::Yield
            },
            InventoryStage::Yielded => {
                self.stage = InventoryStage::Configuring;
                Action::Configure
            },
            InventoryStage::Configuring => {
                if ok {
                    self.stage = InventoryStage::Connected;
                    Action::Show(Notice::Connected)
                } else {
                    self.stage = InventoryStage::ConfigFailed;
                    Action::Show(Notice::ConfigFailed)
                }
            },
            InventoryStage::ConfigFailed => {
                self.stage = InventoryStage::Over(CompleteState::Error(1));
                Action::EnableUi
            },
            InventoryStage::Connected => {
                self.stage = InventoryStage::Starting;
                Action::Send(send_realtimeinv_command())
            },
            InventoryStage::Starting => {
                self.stage = InventoryStage::StartSent(ok);
                Action::Show(Notice::InventorySending)
            },
            InventoryStage::StartSent(sent) => {
                if sent {
                    self.stage = InventoryStage::Reading;
                    Action::ReadPort
                } else {
                    self.stage = InventoryStage::Over(CompleteState::Error(1));
                    Action::Show(Notice::InventorySendFailed)
                }
            },
            InventoryStage::Reading => {
                self.stage = InventoryStage::Taking;
                Action::TakePack
            },
            InventoryStage::Taking => {
                match &event {
                    Event::Pack(Ok(v)) => {
                        self.stage = InventoryStage::Shown;
                        Action::ShowEpc(bytes_to_hex(v))
                    },
                    _ => {
                        self.stage = InventoryStage::Checking;
                        Action::CheckStop
                    },
                }
            },
            InventoryStage::Shown => {
                self.stage = InventoryStage::Taking;
                Action::TakePack
            },
            InventoryStage::Checking => {
                if let Event::Stop(true) = event {
                    self.stage = InventoryStage::Stopping;
                    Action::Send(send_reset_command())
                } else {
                    self.stage = InventoryStage::Reading;
                    Action::ReadPort
                }
            },
            InventoryStage::Stopping => {
                if ok {
                    self.stage = InventoryStage::Stopped;
                    Action::Show(Notice::ResetSent)
                } else {
                    self.stage = InventoryStage::Over(CompleteState::Complete(1));
                    Action::EnableUi
                }
            },
            InventoryStage::Stopped => {
                self.stage = InventoryStage::Over(CompleteState::Complete(1));
                Action::EnableUi
            },
            InventoryStage::Over(s) => Action::Finish(Outcome::Session(s)),
        }
    }
}

/// Where the match session stands.
#[derive(PartialEq, Eq, Structural, Clone, Copy, Debug)]
pub enum MatchStage {
    Start,
    Announced,
    EpcShown,
    EpcRejected,
    Yielded,
    Configuring,
    Fault,
    Connected,
    Selecting,
    SelectSent(bool),
    SelectReplying,
    Matching,
    MatchSent(bool),
    Reading,
    Taking,
    Shown,
    Checking,
    StopSending,
    StopSent(bool),
    StopFailShown,
    LastEnable,
    Over(CompleteState),
    Aborted,
}

/// What a packet `v` of the match inventory means: a tag answer (longer
/// than one byte, ending in two zero bytes) whose EPC is `v[1..v[0]]`; a
/// one-byte status 0x12, which ends the session; anything else is
/// skipped.  An empty packet, or an EPC length past the packet, cannot be
/// read.
pub open spec fn match_pack_next(v: Seq<u8>) -> (MatchStage, ActionView) {
    if v.len() > 1 {
        if v.last() == 0 && v[v.len() - 2] == 0 {
            if v[0] <= 1 {
                (MatchStage::Shown, ActionView::MatchEpc(hex_text(seq![])))
            } else if v[0] <= v.len() - 2 {
                (MatchStage::Shown, ActionView::MatchEpc(hex_text(v.subrange(1, v[0] as int))))
            } else {
                (MatchStage::Aborted, ActionView::Abort)
            }
        } else {
            (MatchStage::Taking, ActionView::TakePack)
        }
    } else if v.len() == 1 {
        if v[0] == 0x12 {
            (MatchStage::Over(CompleteState::Complete(1)), ActionView::EnableUi)
        } else {
            (MatchStage::Taking, ActionView::TakePack)
        }
    } else {
        (MatchStage::Aborted, ActionView::Abort)
    }
}

/// The match session: announce it and show the EPC text; decode it as hex
/// (if it is not hex: say so, enable the controls, end with `Error(1)`);
/// let other tasks run; configure the port; select the EPC (say so; on a
/// failed write or reply say the select failed); start a custom inventory
/// of 2 rounds in mode 0x0A (say so; on a failed write say so); a failure
/// before the inventory enables the controls and ends with `Error(1)`; an
/// EPC too long for the select command aborts the session.
/// Then repeatedly read from the port, act on every packet in the buffer
/// (see `match_pack_next`) and check for a stop request; on a stop, send
/// the stop-inventory command (say so, and whether it failed), enable the
/// controls twice and end with `Complete(1)`.  The decoded EPC is the
/// session's second result.
pub open spec fn match_next(stage: MatchStage, epc: Seq<char>, bytes: Seq<u8>, e: &Event) -> (MatchStage, Seq<u8>, ActionView) {
    match stage {
        MatchStage::Start => (MatchStage::Announced, bytes, ActionView::Show(Notice::MatchStart)),
        MatchStage::Announced => (MatchStage::EpcShown, bytes, ActionView::ShowText(epc)),
        MatchStage::EpcShown => match hex_decode(encode_utf8(epc)) {
            Some(b) => (MatchStage::Yielded, b, ActionView::Yield),
            None => (MatchStage::EpcRejected, bytes, ActionView::Show(Notice::EpcInvalid)),
        },
        MatchStage::EpcRejected => (MatchStage::Over(CompleteState::Error(1)), bytes, ActionView::EnableUi),
        MatchStage::Yielded => (MatchStage::Configuring, bytes, ActionView::Configure),
        MatchStage::Configuring => if succeeded(e) {
            (MatchStage::Connected, bytes, ActionView::Show(Notice::Connected))
        } else {
            (MatchStage::Fault, bytes, ActionView::Show(Notice::ConfigFailed))
        },
        MatchStage::Fault => (MatchStage::Over(CompleteState::Error(1)), bytes, ActionView::EnableUi),
        MatchStage::Connected => if select_fits(bytes.len()) && checksum_defined(
            frame_head(0x8D, (select_payload(bytes).len() % 256) as u8, select_payload(bytes)),
        ) {
            (
                MatchStage::Selecting,
                bytes,
                ActionView::Send(
                    protocol_frame(0x8D, (select_payload(bytes).len() % 256) as u8, select_payload(bytes)),
                ),
            )
        } else {
            (MatchStage::Aborted, bytes, ActionView::Abort)
        },
        MatchStage::Selecting => (
            MatchStage::SelectSent(succeeded(e)),
            bytes,
            ActionView::Show(Notice::SelectSending),
        ),
        MatchStage::SelectSent(ok) => if ok {
            (MatchStage::SelectReplying, bytes, ActionView::Receive)
        } else {
            (MatchStage::Fault, bytes, ActionView::Show(Notice::SelectFailed))
        },
        MatchStage::SelectReplying => if reply_data(e) is Some {
            (
                MatchStage::Matching,
                bytes,
                ActionView::Send(protocol_frame(0x8A, 4, seq![1u8, 2u8, 0x0Au8, 1u8])),
            )
        } else {
            (MatchStage::Fault, bytes, ActionView::Show(Notice::SelectFailed))
        },
        MatchStage::Matching => (
            MatchStage::MatchSent(succeeded(e)),
            bytes,
            ActionView::Show(Notice::MatchSending),
        ),
        MatchStage::MatchSent(ok) => if ok {
            (MatchStage::Reading, bytes, ActionView::ReadPort)
        } else {
            (MatchStage::Fault, bytes, ActionView::Show(Notice::MatchSendFailed))
        },
        MatchStage::Reading => (MatchStage::Taking, bytes, ActionView::TakePack),
        MatchStage::Taking => match pack_data(e) {
            Some(v) => (match_pack_next(v).0, bytes, match_pack_next(v).1),
            None => (MatchStage::Checking, bytes, ActionView::CheckStop),
        },
        MatchStage::Shown => (MatchStage::Taking, bytes, ActionView::TakePack),
        MatchStage::Checking => if stop_requested(e) {
            (MatchStage::StopSending, bytes, ActionView::Send(protocol_frame(0x8C, 0, seq![])))
        } else {
            (MatchStage::Reading, bytes, ActionView::ReadPort)
        },
        MatchStage::StopSending => (
            MatchStage::StopSent(succeeded(e)),
            bytes,
            ActionView::Show(Notice::StopSending),
        ),
        MatchStage::StopSent(ok) => if ok {
            (MatchStage::LastEnable, bytes, ActionView::EnableUi)
        } else {
            (MatchStage::StopFailShown, bytes, ActionView::Show(Notice::StopSendFailed))
        },
        MatchStage::StopFailShown => (MatchStage::LastEnable, bytes, ActionView::EnableUi),
        MatchStage::LastEnable => (MatchStage::Over(CompleteState::Complete(1)), bytes, ActionView::EnableUi),
        MatchStage::Over(s) => (MatchStage::Over(s), bytes, ActionView::Finish(Outcome::Session(s))),
        MatchStage::Aborted => (MatchStage::Aborted, bytes, ActionView::Abort),
    }
}

/// The stages of the match session's read loop.
pub open spec fn in_match_loop(stage: MatchStage) -> bool {
    stage == MatchStage::Reading || stage == MatchStage::Taking || stage == MatchStage::Shown
        || stage == MatchStage::Checking
}

/// The match session's read loop is left only on a stop request, on the
/// one-byte status 0x12, which ends the session with `Complete(1)`, or on
/// a packet that cannot be read.
pub proof fn lemma_match_loop_exits(stage: MatchStage, epc: Seq<char>, bytes: Seq<u8>, e: &Event)
    requires
        in_match_loop(stage),
    ensures
        !in_match_loop(match_next(stage, epc, bytes, e).0) ==> {
            ||| stage == MatchStage::Checking && stop_requested(e)
            ||| stage == MatchStage::Taking && pack_data(e) == Some(seq![0x12u8])
                && match_next(stage, epc, bytes, e).0 == MatchStage::Over(CompleteState::Complete(1))
            ||| stage == MatchStage::Taking && pack_data(e) is Some && match_next(stage, epc, bytes, e).0
                == MatchStage::Aborted
        },
        match_next(stage, epc, bytes, e).1 == bytes,
{
    if stage == MatchStage::Taking {
        if let Some(v) = pack_data(e) {
            if v.len() == 1 && v[0] == 0x12 {
                assert(v =~= seq![0x12u8]);
            }
        }
    }
}

/// A tag answer is added to the match table only when its last two bytes
/// are both zero: in the read loop, a packet `v` of more than one byte
/// that does not end in two zero bytes is skipped (the next packet is
/// taken); one that does, with an EPC length `v[0]` from 2 up to
/// `v.len() - 2`, adds the hex text of `v[1..v[0]]`.
pub proof fn lemma_match_lists_only_zero_ended_answers(epc: Seq<char>, bytes: Seq<u8>, e: &Event)
    requires
        e matches Event::Pack(Ok(v)) && v@.len() > 1,
    ensures
        ({
            let v = pack_data(e)->Some_0;
            let r = match_next(MatchStage::Taking, epc, bytes, e);
            &&& r.2 is MatchEpc ==> v[v.len() - 1] == 0 && v[v.len() - 2] == 0
            &&& !(v[v.len() - 1] == 0 && v[v.len() - 2] == 0) ==> r == (MatchStage::Taking, bytes, ActionView::TakePack)
            &&& (v[v.len() - 1] == 0 && v[v.len() - 2] == 0 && 2 <= v[0] <= v.len() - 2) ==> r == (
                MatchStage::Shown,
                bytes,
                ActionView::MatchEpc(hex_text(v.subrange(1, v[0] as int))),
            )
        }),
{
}

/// A one-byte packet in the match session's read loop is the reader's
/// status: 0x12 ends the session (controls enabled, `Complete(1)`), any
/// other status is skipped; an empty packet cannot be read.
pub proof fn lemma_match_status_packet(epc: Seq<char>, bytes: Seq<u8>, s: u8, e: &Event)
    ensures
        e matches Event::Pack(Ok(v)) && v@ == seq![s] ==> match_next(MatchStage::Taking, epc, bytes, e) == (
            if s == 0x12 {
                (MatchStage::Over(CompleteState::Complete(1)), bytes, ActionView::EnableUi)
            } else {
                (MatchStage::Taking, bytes, ActionView::TakePack)
            }
        ),
        e matches Event::Pack(Ok(v)) && v@.len() == 0 ==> match_next(MatchStage::Taking, epc, bytes, e) == (
            MatchStage::Aborted,
            bytes,
            ActionView::Abort,
        ),
{
}

/// A match session in progress.
pub struct MatchSession {
    pub epc: String,
    pub epc_bytes: Vec<u8>,
    pub stage: MatchStage,
}

/// Starts a session that matches the tags with the EPC written in hex in
/// `epc`.
pub fn start_match(epc: String) -> (session: MatchSession)
    ensures
        session.epc@ == epc@,
        session.epc_bytes@ == Seq::<u8>::empty(),
        session.stage == MatchStage::Start,
{
    MatchSession { epc, epc_bytes: Vec::new(), stage: MatchStage::Start }
}

fn match_pack_step(v: &Vec<u8>) -> (r: (MatchStage, Action))
    ensures
        (r.0, r.1@) == match_pack_next(v@),
{
    let n = v.len();
    if n > 1 {
        if v[n - 1] == 0 && v[n - 2] == 0 {
            let len = v[0];
            let mut epc: Vec<u8> = Vec::new();
            if len as usize > n - 2 {
                return (MatchStage::Aborted, Action::Abort);
            }
            let mut i: u8 = 1;
            while i < len
                invariant
                    1 <= i,
                    len as int <= n - 2,
                    n == v@.len(),
                    len == v@[0],
                    i <= len || len <= 1,
                    i == 1 || i <= len,
                    epc@ == v@.subrange(1, i as int),
                decreases len - i,
            {
                epc.push(v[i as usize]);
                i = i + 1;
                assert(epc@ =~= v@.subrange(1, i as int));
            }
            if len <= 1 {
                assert(epc@ =~= seq![]);
            }
            (MatchStage::Shown, Action::MatchEpc(bytes_to_hex(&epc)))
        } else {
            (MatchStage::Taking, Action::TakePack)
        }
    } else if n == 1 {
        if v[0] == 0x12 {
            (MatchStage::Over(CompleteState::Complete(1)), Action::EnableUi)
        } else {
            (MatchStage::Taking, Action::TakePack)
        }
    } else {
        (MatchStage::Aborted, Action::Abort)
    }
}

impl MatchSession {
    /// The next action, given the outcome of the last one (see
    /// `match_next`).
    pub fn step(&mut self, event: Event) -> (action: Action)
        ensures
            final(self).epc@ == old(self).epc@,
            (final(self).stage, final(self).epc_bytes@, action@) == match_next(
                old(self).stage,
                old(self).epc@,
                old(self).epc_bytes@,
                &event,
            ),
    {
        let ok = match &event {
            Event::Done(true) => true,
            _ => false,
        };
        match self.stage {
            MatchStage::Start => {
                self.stage = MatchStage::Announced;
                Action::Show(Notice::MatchStart)
            },
            MatchStage::Announced => {
                self.stage = MatchStage::EpcShown;
                Action::ShowText(self.epc.clone())
            },
            MatchStage::EpcShown => {
                match hex_to_bytes(self.epc.as_str()) {
                    Some(b) => {
                        self.epc_bytes = b;
                        self.stage = MatchStage::Yielded;
                        Action::Yield
                    },
                    None => {
                        self.stage = MatchStage::EpcRejected;
                        Action::Show(Notice::EpcInvalid)
                    },
                }
            },
            MatchStage::EpcRejected => {
                self.stage = MatchStage::Over(CompleteState::Error(1));
                Action::EnableUi
            },
            MatchStage::Yielded => {
                self.stage = MatchStage::Configuring;
                Action::Configure
            },
            MatchStage::Configuring => {
                if ok {
                    self.stage = MatchStage::Connected;
                    Action::Show(Notice::Connected)
                } else {
                    self.stage = MatchStage::Fault;
                    Action::Show(Notice::ConfigFailed)
                }
            },
            MatchStage::Fault => {
                self.stage = MatchStage::Over(CompleteState::Error(1));
                Action::EnableUi
            },
            MatchStage::Connected => {
                let n = self.epc_bytes.len();
                assert((8 + n) % 256 == (8 + (n % 256)) % 256);
                if n <= usize::MAX / 8 && (8 + (n % 256)) % 256 <= 251 {
                    let data = select_data(&self.epc_bytes);
                    if frame_checksum_defined(0x8D, (data.len() % 256) as u8, &data) {
                        self.stage = MatchStage::Selecting;
                        Action::Send(send_set_select_command(self.epc_bytes.clone()))
                    } else {
                        self.stage = MatchStage::Aborted;
                        Action::Abort
                    }
                } else {
                    self.stage = MatchStage::Aborted;
                    Action::Abort
                }
            },
            MatchStage::Selecting => {
                self.stage = MatchStage::SelectSent(ok);
                Action::Show(Notice::SelectSending)
            },
            MatchStage::SelectSent(sent) => {
                if sent {
                    self.stage = MatchStage::SelectReplying;
                    Action::Receive
                } else {
                    self.stage = MatchStage::Fault;
                    Action::Show(Notice::SelectFailed)
                }
            },
            MatchStage::SelectReplying => {
                if let Event::Reply(Ok(_)) = event {
                    proof {
                        lemma_head_sum(0x8A, 4, seq![1u8, 2u8, 0x0Au8, 1u8]);
                        lemma_byte_sum_literals(1, 2, 0x0A, 1);
                    }
                    self.stage = MatchStage::Matching;
                    Action::Send(send_custom_inventory_command(0x2, 0x0A, 1))
                } else {
                    self.stage = MatchStage::Fault;
                    Action::Show(Notice::SelectFailed)
                }
            },
            MatchStage::Matching => {
                self.stage = MatchStage::MatchSent(ok);
                Action::Show(Notice::MatchSending)
            },
            MatchStage::MatchSent(sent) => {
                if sent {
                    self.stage = MatchStage::Reading;
                    Action::ReadPort
                } else {
                    self.stage = MatchStage::Fault;
                    Action::Show(Notice::MatchSendFailed)
                }
            },
            MatchStage::Reading => {
                self.stage = MatchStage::Taking;
                Action::TakePack
            },
            MatchStage::Taking => {
                match &event {
                    Event::Pack(Ok(v)) => {
                        let (stage, action) = match_pack_step(v);
                        self.stage = stage;
                        action
                    },
                    _ => {
                        self.stage = MatchStage::Checking;
                        Action::CheckStop
                    },
                }
            },
            MatchStage::Shown => {
                self.stage = MatchStage::Taking;
                Action::TakePack
            },
            MatchStage::Checking => {
                if let Event::Stop(true) = event {
                    self.stage = MatchStage::StopSending;
                    Action::Send(send_stopinv_command())
                } else {
                    self.stage = MatchStage::Reading;
                    Action::ReadPort
                }
            },
            MatchStage::StopSending => {
                self.stage = MatchStage::StopSent(ok);
                Action::Show(Notice::StopSending)
            },
            MatchStage::StopSent(sent) => {
                if sent {
                    self.stage = MatchStage::LastEnable;
                    Action::EnableUi
                } else {
                    self.stage = MatchStage::StopFailShown;
                    Action::Show(Notice::StopSendFailed)
                }
            },
            MatchStage::StopFailShown => {
                self.stage = MatchStage::LastEnable;
                Action::EnableUi
            },
            MatchStage::LastEnable => {
                self.stage = MatchStage::Over(CompleteState::Complete(1));
                Action::EnableUi
            },
            MatchStage::Over(s) => Action::Finish(Outcome::Session(s)),
            MatchStage::Aborted => Action::Abort,
        }
    }
}

} // verus!
