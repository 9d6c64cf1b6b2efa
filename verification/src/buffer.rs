//! The receive buffer of the inventory sessions: bytes read from the port
//! queue up, and packets are cut from the queue one at a time.
use vstd::prelude::*;
use std::collections::VecDeque;
use crate::frame::{
    HEADER, checksum_defined, checksum_defined_for, checksum_of, checksun, is_valid_frame,
};
use crate::ui::UI;

verus! {

/// Why no packet data came out of the buffer.
#[derive(PartialEq, Eq, Structural, Clone, Copy, Debug)]
pub enum PackError {
    /// The queue ran out before a packet began.
    NoData,
    /// The packet is not complete yet; its bytes stay in the buffer.
    Incomplete,
    /// The packet does not start with the header byte.
    BadHeader,
    /// The checksum byte is zero, which the client does not accept.
    ZeroCheck,
    /// The checksum byte does not match the packet.
    BadChecksum,
    /// A short real-time inventory packet: the inventory round ended.
    InventoryEnd,
    /// A short custom-inventory packet, with its status code.
    TagStatus(u8),
    /// A packet of a command the buffer does not decode.
    UnknownCommand,
}

/// The message the user sees for a packet error, if any: a bad header, a
/// bad checksum, a custom-inventory status other than 0x10 (no tag was
/// read) and an unknown command are reported; the others are silent.
pub open spec fn pack_error_text(e: PackError) -> Option<Seq<char>> {
    match e {
        PackError::BadHeader => Some("协议头错误"@),
        PackError::BadChecksum => Some("校验错误"@),
        PackError::TagStatus(status) => if status != 0x10 {
            Some("没有读到标签"@)
        } else {
            None
        },
        PackError::UnknownCommand => Some("命令无效"@),
        _ => None,
    }
}

impl PackError {
    /// The message the user sees for this error (see `pack_error_text`).
    pub fn message(&self) -> (m: Option<&'static str>)
        ensures
            m is Some == pack_error_text(*self) is Some,
            m matches Some(t) ==> pack_error_text(*self) == Some(t@),
    {
        match self {
            PackError::BadHeader => Some("协议头错误"),
            PackError::BadChecksum => Some("校验错误"),
            PackError::TagStatus(status) => {
                if *status != 0x10 {
                    Some("没有读到标签")
                } else {
                    None
                }
            },
            PackError::UnknownCommand => Some("命令无效"),
            _ => None,
        }
    }
}

/// The pack after its first byte is taken from the queue `q`: a header
/// byte starts a new pack with the byte after it, any other byte extends
/// the pack kept from before.
pub open spec fn pack_start(q: Seq<u8>, p: Seq<u8>) -> Seq<u8> {
    if q[0] == HEADER {
        seq![HEADER, q[1]]
    } else {
        p.push(q[0])
    }
}

/// The queue after the first byte of a pack (and, for a header, the length
/// byte after it) is taken.
pub open spec fn rest_after_start(q: Seq<u8>) -> Seq<u8> {
    if q[0] == HEADER {
        q.skip(2)
    } else {
        q.skip(1)
    }
}

/// How many more bytes the pack `p1` takes from `rest`: until its length,
/// counted modulo 256, reaches its length byte plus 2, or the queue runs
/// out.
pub open spec fn fill_count(p1: Seq<u8>, rest: Seq<u8>) -> int {
    let want = p1[1] + 2;
    let have = p1.len() % 256;
    if want > have {
        if rest.len() < want - have {
            rest.len() as int
        } else {
            want - have
        }
    } else {
        0
    }
}

/// The pack once filled from the queue.
pub open spec fn filled_pack(q: Seq<u8>, p: Seq<u8>) -> Seq<u8> {
    let p1 = pack_start(q, p);
    let rest = rest_after_start(q);
    p1 + rest.take(fill_count(p1, rest))
}

/// The queue once the pack is filled.
pub open spec fn queue_after_fill(q: Seq<u8>, p: Seq<u8>) -> Seq<u8> {
    let p1 = pack_start(q, p);
    let rest = rest_after_start(q);
    rest.skip(fill_count(p1, rest))
}

/// Number of EPC bytes announced by the protocol-control byte `pc`: the
/// high five bits count 16-bit words.
pub open spec fn epc_byte_count(pc: u8) -> int {
    (pc / 8) * 2
}

/// What a complete, checked packet `body` (without its checksum) yields:
/// - 0x89 (real-time inventory): the EPC, or the end of the round for a
///   short packet;
/// - 0x59: the status byte of a short packet, otherwise the EPC length,
///   the EPC and the three bytes that follow the EPC's two CRC bytes;
/// - 0x8A (custom inventory): the status of a short packet as an error,
///   otherwise nothing;
/// - any other command: an error.
pub open spec fn pack_payload(body: Seq<u8>) -> Result<Seq<u8>, PackError> {
    let cmd = body[3];
    let n = epc_byte_count(body[5]);
    if cmd == 0x89 {
        if body[1] == 4 {
            Err(PackError::InventoryEnd)
        } else if n == 0 {
            Ok(seq![])
        } else {
            Ok(body.subrange(7, 7 + n))
        }
    } else if cmd == 0x59 {
        if body[1] == 4 {
            Ok(seq![body[4]])
        } else {
            Ok(seq![n as u8] + body.subrange(7, 7 + n) + seq![
                body[n + 9],
                body[n + 10],
                body[n + 11],
            ])
        }
    } else if cmd == 0x8A {
        if body[1] == 4 {
            Err(PackError::TagStatus(body[4]))
        } else {
            Ok(seq![])
        }
    } else {
        Err(PackError::UnknownCommand)
    }
}

/// What stays in the pack after a checked packet: a short real-time
/// inventory packet is dropped, any other packet stays (less its
/// checksum).
pub open spec fn pack_kept(body: Seq<u8>) -> Seq<u8> {
    if body[3] == 0x89 && body[1] == 4 {
        seq![]
    } else {
        body
    }
}

/// One step of the buffer on queue `q` and pack `p`: the queue left, the
/// pack left, and the packet data or the reason there is none.
pub open spec fn pack_step(q: Seq<u8>, p: Seq<u8>) -> (Seq<u8>, Seq<u8>, Result<Seq<u8>, PackError>) {
    if q.len() == 0 {
        (q, p, Err(PackError::NoData))
    } else if q[0] == HEADER && q.len() == 1 {
        (seq![], seq![HEADER], Err(PackError::NoData))
    } else {
        let p2 = filled_pack(q, p);
        let q2 = queue_after_fill(q, p);
        if p2.len() - 2 < p2[1] {
            (q2, p2, Err(PackError::Incomplete))
        } else if p2[0] != HEADER {
            (q2, p2, Err(PackError::BadHeader))
        } else if p2.last() == 0 {
            (q2, p2.drop_last(), Err(PackError::ZeroCheck))
        } else if p2.last() != checksum_of(p2.drop_last()) {
            (q2, p2.drop_last(), Err(PackError::BadChecksum))
        } else {
            (q2, pack_kept(p2.drop_last()), pack_payload(p2.drop_last()))
        }
    }
}

/// The checked packet `body` holds every byte that `pack_payload` reads.
pub open spec fn payload_in_bounds(body: Seq<u8>) -> bool {
    let cmd = body[3];
    let n = epc_byte_count(body[5]);
    &&& body.len() >= 4
    &&& cmd == 0x89 && body[1] != 4 ==> body.len() >= 6
    &&& cmd == 0x89 && body[1] != 4 && n > 0 ==> body.len() >= 7 + n
    &&& cmd == 0x59 ==> body.len() >= 5
    &&& cmd == 0x59 && body[1] != 4 ==> body.len() >= 6 && body.len() >= n + 12
    &&& cmd == 0x8A && body[1] == 4 ==> body.len() >= 5
}

/// A step on queue `q` and pack `p` reads only bytes that are there and
/// does not overflow: a pack continued by a non-header byte must have
/// begun, the length byte must leave room for the 2 bytes before it, the
/// checksum of a complete packet with a nonzero checksum byte must be
/// computable, and a checked packet must hold what its command makes the
/// buffer read.
pub open spec fn pack_step_in_bounds(q: Seq<u8>, p: Seq<u8>) -> bool {
    q.len() == 0 || (q[0] == HEADER && q.len() == 1) || {
        let p2 = filled_pack(q, p);
        &&& q[0] != HEADER ==> p.len() >= 1
        &&& pack_start(q, p)[1] <= 253
        &&& (p2.len() - 2 >= p2[1] && p2[0] == HEADER && p2.last() != 0) ==> checksum_defined(
            p2.drop_last(),
        )
        &&& (p2.len() - 2 >= p2[1] && p2[0] == HEADER && p2.last() != 0 && p2.last()
            == checksum_of(p2.drop_last())) ==> payload_in_bounds(p2.drop_last())
    }
}

/// The result of a step, as values.
pub open spec fn pack_result_view(r: Result<Vec<u8>, PackError>) -> Result<Seq<u8>, PackError> {
    match r {
        Ok(v) => Ok(v@),
        Err(e) => Err(e),
    }
}

/// The queue of received bytes and the packet being assembled.
pub struct Buf {
    pub data_que: VecDeque<u8>,
    pub pack: Vec<u8>,
    pub pack_len: u8,
}

proof fn lemma_trunc_u8(x: usize)
    ensures
        (x as u8) == x % 256,
{
    assert((x as u8) == x % 256) by (bit_vector);
}

proof fn lemma_epc_count(b: u8)
    ensures
        b >> 3 <= 31,
        (b >> 3) * 2 == epc_byte_count(b),
        ((b >> 3) as usize) * 2 == epc_byte_count(b),
{
    assert(b >> 3 <= 31) by (bit_vector);
    assert((b >> 3) * 2 == (b / 8) * 2) by (bit_vector);
    assert(((b >> 3) as usize) * 2 == (b / 8) * 2) by (bit_vector);
}

proof fn lemma_mod_step(a: int, j: int)
    requires
        0 <= a,
        0 <= j,
        a % 256 + j < 256,
    ensures
        (a + j) % 256 == a % 256 + j,
{
    assert((a + j) % 256 == a % 256 + j) by (nonlinear_arith)
        requires
            0 <= a,
            0 <= j,
            a % 256 + j < 256,
    ;
}

impl Buf {
    /// Decodes the data of the checked packet in `self.pack`.
    fn take_payload(&mut self) -> (r: Result<Vec<u8>, PackError>)
        requires
            payload_in_bounds(old(self).pack@),
        ensures
            final(self).data_que@ == old(self).data_que@,
            final(self).pack@ == pack_kept(old(self).pack@),
            final(self).pack_len == old(self).pack_len,
            pack_result_view(r) == pack_payload(old(self).pack@),
    {
        let mut data_vec: Vec<u8> = Vec::new();
        let cmd = self.pack[3];
        if cmd == 0x89 {
            if self.pack[1] == 0x4 {
                self.pack.clear();
                return Err(PackError::InventoryEnd);
            } else {
                proof {
                    lemma_epc_count(self.pack@[5]);
                }
                let len: u8 = (self.pack[5] >> 3) * 2;
                let mut i: u8 = 0;
                while i < len
                    invariant
                        i <= len,
                        len == epc_byte_count(self.pack@[5]),
                        len > 0 ==> self.pack@.len() >= 7 + len,
                        data_vec@.len() == i,
                        forall|k: int| 0 <= k < i ==> data_vec@[k] == self.pack@[k + 7],
                    decreases len - i,
                {
                    data_vec.push(self.pack[(i + 7) as usize]);
                    i = i + 1;
                }
                if len == 0 {
                    assert(data_vec@ =~= seq![]);
                } else {
                    assert(data_vec@ =~= self.pack@.subrange(7, 7 + len));
                }
            }
        } else if cmd == 0x59 {
            if self.pack[1] == 0x4 {
                data_vec.push(self.pack[4]);
                assert(data_vec@ =~= seq![self.pack@[4]]);
            } else {
                proof {
                    lemma_epc_count(self.pack@[5]);
                }
                let len: u8 = (self.pack[5] >> 3) * 2;
                data_vec.push(len);
                let mut i: u8 = 0;
                while i < len
                    invariant
                        i <= len,
                        len == epc_byte_count(self.pack@[5]),
                        self.pack@.len() >= 12 + len,
                        data_vec@ == seq![len] + self.pack@.subrange(7, 7 + i),
                    decreases len - i,
                {
                    data_vec.push(self.pack[(i + 7) as usize]);
                    i = i + 1;
                    assert(data_vec@ =~= seq![len] + self.pack@.subrange(7, 7 + i));
                }
                data_vec.push(self.pack[(len + 9) as usize]);
                data_vec.push(self.pack[(len + 10) as usize]);
                data_vec.push(self.pack[(len + 11) as usize]);
                assert(data_vec@ =~= pack_payload(self.pack@)->Ok_0);
            }
        } else if cmd == 0x8A {
            if self.pack[1] == 0x4 {
                return Err(PackError::TagStatus(self.pack[4]));
            }
            assert(data_vec@ =~= seq![]);
        } else {
            return Err(PackError::UnknownCommand);
        }
        Ok(data_vec)
    }

    /// Cuts the next packet from the queue: the step `pack_step` describes.
    pub fn read_pack(&mut self) -> (r: Result<Vec<u8>, PackError>)
        requires
            pack_step_in_bounds(old(self).data_que@, old(self).pack@),
        ensures
            (final(self).data_que@, final(self).pack@, pack_result_view(r)) == pack_step(
                old(self).data_que@,
                old(self).pack@,
            ),
            final(self).pack_len == old(self).pack_len,
    {
        let ghost q = self.data_que@;
        let ghost p = self.pack@;
        let temp = self.data_que.pop_front();
        match temp {
            None => {
                return Err(PackError::NoData);
            },
            Some(first) => {
                if first == HEADER {
                    self.pack.clear();
                    self.pack.push(first);
                    let a = self.data_que.pop_front();
                    match a {
                        None => {
                            assert(self.pack@ =~= seq![HEADER]);
                            assert(self.data_que@ =~= seq![]);
                            return Err(PackError::NoData);
                        },
                        Some(b) => {
                            self.pack.push(b);
                        },
                    }
                } else {
                    self.pack.push(first);
                }
            },
        }
        let ghost p1 = self.pack@;
        let ghost rest = self.data_que@;
        assert(p1 =~= pack_start(q, p));
        assert(rest =~= rest_after_start(q));
        let want: u8 = self.pack[1] + 2;
        proof {
            lemma_trunc_u8(self.pack@.len() as usize);
        }
        let ghost have = p1.len() % 256;
        let ghost mut j: int = 0;
        if want > (self.pack.len() as u8) {
            while (self.pack.len() as u8) != want && self.data_que.len() > 0
                invariant
                    want == p1[1] + 2,
                    want > have,
                    have == p1.len() % 256,
                    0 <= j <= rest.len(),
                    j <= want - have,
                    self.pack@ == p1 + rest.take(j),
                    self.data_que@ == rest.skip(j),
                    self.pack@.len() % 256 == have + j,
                    self.pack_len == old(self).pack_len,
                decreases rest.len() - j,
            {
                proof {
                    lemma_trunc_u8(self.pack@.len() as usize);
                }
                let b = self.data_que.pop_front().unwrap();
                self.pack.push(b);
                proof {
                    j = j + 1;
                    assert(self.pack@ =~= p1 + rest.take(j));
                    assert(self.data_que@ =~= rest.skip(j));
                    lemma_mod_step(p1.len() as int, j);
                }
            }
            proof {
                lemma_trunc_u8(self.pack@.len() as usize);
            }
        }
        assert(j == fill_count(p1, rest));
        assert(self.pack@ == filled_pack(q, p));
        assert(self.data_que@ == queue_after_fill(q, p));
        if self.pack.len() - 2 < self.pack[1] as usize {
            return Err(PackError::Incomplete);
        }
        if self.pack[0] != HEADER {
            return Err(PackError::BadHeader);
        }
        let check = self.pack.pop().unwrap();
        if check == 0x00 {
            return Err(PackError::ZeroCheck);
        }
        let sum = checksun(self.pack.clone());
        if check != sum {
            return Err(PackError::BadChecksum);
        }
        self.take_payload()
    }

    /// Whether `read_pack` can take a step on this buffer (see
    /// `pack_step_in_bounds`).
    pub fn pack_fits(&self) -> (r: bool)
        ensures
            r == pack_step_in_bounds(self.data_que@, self.pack@),
    {
        let qlen = self.data_que.len();
        if qlen == 0 {
            return true;
        }
        let first = self.data_que[0];
        if first == HEADER && qlen == 1 {
            return true;
        }
        // The pack the step starts from, and the queue after it.
        let mut p1: Vec<u8> = Vec::new();
        let mut start: usize;
        if first == HEADER {
            p1.push(HEADER);
            p1.push(self.data_que[1]);
            start = 2;
        } else {
            if self.pack.len() == 0 {
                return false;
            }
            p1 = self.pack.clone();
            p1.push(first);
            start = 1;
        }
        assert(p1@ =~= pack_start(self.data_que@, self.pack@));
        if p1[1] > 253 {
            return false;
        }
        let ghost rest = rest_after_start(self.data_que@);
        let want: u8 = p1[1] + 2;
        proof {
            lemma_trunc_u8(p1@.len() as usize);
        }
        let ghost p1s = p1@;
        let ghost have = p1s.len() % 256;
        let ghost mut j: int = 0;
        let mut idx: usize = start;
        assert(rest =~= self.data_que@.skip(start as int));
        if want > (p1.len() as u8) {
            while (p1.len() as u8) != want && idx < qlen
                invariant
                    qlen == self.data_que@.len(),
                    rest == self.data_que@.skip(start as int),
                    1 <= start <= 2,
                    start <= qlen,
                    idx == start + j,
                    want == p1s[1] + 2,
                    want > have,
                    have == p1s.len() % 256,
                    0 <= j <= rest.len(),
                    j <= want - have,
                    p1@ == p1s + rest.take(j),
                    p1@.len() % 256 == have + j,
                decreases rest.len() - j,
            {
                proof {
                    lemma_trunc_u8(p1@.len() as usize);
                }
                p1.push(self.data_que[idx]);
                idx = idx + 1;
                proof {
                    j = j + 1;
                    assert(p1@ =~= p1s + rest.take(j));
                    lemma_mod_step(p1s.len() as int, j);
                }
            }
            proof {
                lemma_trunc_u8(p1@.len() as usize);
            }
        }
        assert(j == fill_count(p1s, rest));
        assert(p1@ == filled_pack(self.data_que@, self.pack@));
        let n = p1.len();
        if n - 2 < p1[1] as usize || p1[0] != HEADER {
            return true;
        }
        let check = p1[n - 1];
        let mut body = p1;
        body.pop();
        if check == 0 {
            return true;
        }
        if !checksum_defined_for(&body) {
            return false;
        }
        if check != checksun(body.clone()) {
            return true;
        }
        payload_fits(&body)
    }
}

fn payload_fits(body: &Vec<u8>) -> (r: bool)
    ensures
        r == payload_in_bounds(body@),
{
    let n = body.len();
    if n < 4 {
        return false;
    }
    let cmd = body[3];
    if cmd == 0x89 && body[1] != 4 {
        if n < 6 {
            return false;
        }
        let count: usize = ((body[5] >> 3) as usize) * 2;
        proof {
            lemma_epc_count(body@[5]);
        }
        count == 0 || n >= 7 + count
    } else if cmd == 0x59 {
        if n < 5 {
            return false;
        }
        if body[1] != 4 {
            if n < 6 {
                return false;
            }
            let count: usize = ((body[5] >> 3) as usize) * 2;
            proof {
            lemma_epc_count(body@[5]);
        }
            n >= count + 12
        } else {
            true
        }
    } else if cmd == 0x8A && body[1] == 4 {
        n >= 5
    } else {
        true
    }
}

/// A whole valid frame at the head of the queue is cut as one packet,
/// whatever the buffer held before and whatever follows it in the queue:
/// exactly its bytes leave the queue, and the packet is decoded.
pub proof fn lemma_whole_frame_is_cut(f: Seq<u8>, rest: Seq<u8>, p: Seq<u8>)
    requires
        is_valid_frame(f),
        f[1] <= 253,
        f.last() != 0,
    ensures
        pack_step(f + rest, p) == (rest, pack_kept(f.drop_last()), pack_payload(f.drop_last())),
{
    let q = f + rest;
    assert(q[0] == f[0] && q[1] == f[1]);
    let p1 = pack_start(q, p);
    let r1 = rest_after_start(q);
    assert(p1 =~= f.take(2));
    assert(r1 =~= f.skip(2) + rest);
    assert(fill_count(p1, r1) == f.len() - 2);
    assert(filled_pack(q, p) =~= f);
    assert(queue_after_fill(q, p) =~= rest);
}

/// A real-time inventory frame yields exactly the EPC its protocol-control
/// byte announces: for a valid frame `f` of command 0x89 that is not the
/// short end-of-round packet, with PC byte `f[5]` announcing `f[5] / 8`
/// words, the packet data is the `2 * (f[5] / 8)` bytes from index 7,
/// whatever follows the frame in the queue.
pub proof fn lemma_inventory_frame_yields_epc(f: Seq<u8>, rest: Seq<u8>, p: Seq<u8>)
    requires
        is_valid_frame(f),
        f[1] <= 253,
        f.last() != 0,
        f[3] == 0x89,
        f[1] != 4,
        f.len() >= 8 + 2 * (f[5] / 8),
    ensures
        pack_step(f + rest, p).0 == rest,
        pack_step(f + rest, p).2 == Ok::<Seq<u8>, PackError>(f.subrange(7, 7 + 2 * (f[5] / 8))),
{
    lemma_whole_frame_is_cut(f, rest, p);
    let body = f.drop_last();
    assert(body[3] == 0x89 && body[1] == f[1] && body[5] == f[5]);
    if f[5] / 8 == 0 {
        assert(f.subrange(7, 7) =~= Seq::<u8>::empty());
    } else {
        assert(body.subrange(7, 7 + 2 * (f[5] / 8)) =~= f.subrange(7, 7 + 2 * (f[5] / 8)));
    }
}

/// What a whole valid frame at the head of the queue yields, by its
/// command, stated on the frame's bytes (`n` is the EPC length that the PC
/// byte `f[5]` announces, `2 * (f[5] / 8)`):
/// - a short real-time inventory frame (0x89, length byte 4) ends the round
///   and leaves nothing in the pack;
/// - a short 0x59 frame gives its status byte `f[4]`; a long one gives
///   `n`, the `n` EPC bytes from index 7 and the three bytes after the two
///   CRC bytes that follow the EPC;
/// - a short custom-inventory frame (0x8A) reports its status `f[4]`; a
///   long one gives no data;
/// - a frame of any other command is refused as unknown.
pub proof fn lemma_frame_yields_by_command(f: Seq<u8>, rest: Seq<u8>, p: Seq<u8>)
    requires
        is_valid_frame(f),
        f[1] <= 253,
        f.last() != 0,
    ensures
        ({
            let r = pack_step(f + rest, p);
            let n = 2 * (f[5] / 8);
            &&& r.0 == rest
            &&& f[3] == 0x89 && f[1] == 4 ==> r.1 == Seq::<u8>::empty() && r.2 == Err::<
                Seq<u8>,
                PackError,
            >(PackError::InventoryEnd)
            &&& f[3] == 0x59 && f[1] == 4 ==> r.2 == Ok::<Seq<u8>, PackError>(seq![f[4]])
            &&& f[3] == 0x59 && f[1] != 4 && f.len() >= n + 13 ==> {
                &&& r.2 is Ok
                &&& r.2->Ok_0.len() == n + 4
                &&& r.2->Ok_0[0] == n
                &&& forall|i: int| 0 <= i < n ==> #[trigger] r.2->Ok_0[1 + i] == f[7 + i]
                &&& r.2->Ok_0[n + 1] == f[n + 9]
                &&& r.2->Ok_0[n + 2] == f[n + 10]
                &&& r.2->Ok_0[n + 3] == f[n + 11]
            }
            &&& f[3] == 0x8A && f[1] == 4 ==> r.2 == Err::<Seq<u8>, PackError>(
                PackError::TagStatus(f[4]),
            )
            &&& f[3] == 0x8A && f[1] != 4 ==> r.2 == Ok::<Seq<u8>, PackError>(seq![])
            &&& f[3] != 0x89 && f[3] != 0x59 && f[3] != 0x8A ==> r.2 == Err::<Seq<u8>, PackError>(
                PackError::UnknownCommand,
            )
        }),
{
    lemma_whole_frame_is_cut(f, rest, p);
    let body = f.drop_last();
    assert(body[1] == f[1] && body[3] == f[3]);
    if f.len() >= 6 {
        assert(body[4] == f[4]);
    }
    if f.len() >= 7 {
        assert(body[5] == f[5]);
    }
    let n = 2 * (f[5] / 8);
    if f[3] == 0x59 && f[1] != 4 && f.len() >= n + 13 {
        assert(n / 2 * 2 == n);
        lemma_epc_count(f[5]);
        let d = seq![n as u8] + body.subrange(7, 7 + n) + seq![body[n + 9], body[n + 10], body[n + 11]];
        assert(d.len() == n + 4);
        assert forall|i: int| 0 <= i < n implies #[trigger] d[1 + i] == f[7 + i] by {
            assert(d[1 + i] == body.subrange(7, 7 + n)[i]);
        }
        assert(d[n + 1] == f[n + 9]);
    }
}

/// A frame that arrives in two reads is cut as if it had arrived whole:
/// the first part, from the header on, is kept as an incomplete packet,
/// and once the rest is queued (its first byte not a header byte) the next
/// step gives what a step on the whole frame gives.
pub proof fn lemma_split_frame_is_joined(f: Seq<u8>, m: int, rest: Seq<u8>, p: Seq<u8>)
    requires
        is_valid_frame(f),
        f[1] <= 253,
        f.last() != 0,
        2 <= m < f.len(),
        f[m] != HEADER,
    ensures
        pack_step(f.take(m), p) == (Seq::<u8>::empty(), f.take(m), Err::<Seq<u8>, PackError>(PackError::Incomplete)),
        pack_step(f.skip(m) + rest, f.take(m)) == pack_step(f + rest, p),
{
    let q1 = f.take(m);
    assert(q1[0] == f[0] && q1[1] == f[1]);
    let a = pack_start(q1, p);
    let ra = rest_after_start(q1);
    assert(a =~= f.take(2));
    assert(ra =~= f.subrange(2, m));
    assert(fill_count(a, ra) == m - 2);
    assert(filled_pack(q1, p) =~= f.take(m));
    assert(queue_after_fill(q1, p) =~= Seq::<u8>::empty());
    let q2 = f.skip(m) + rest;
    assert(q2[0] == f[m]);
    let b = pack_start(q2, f.take(m));
    let rb = rest_after_start(q2);
    assert(b =~= f.take(m + 1));
    assert(rb =~= f.skip(m + 1) + rest);
    assert(fill_count(b, rb) == f.len() - m - 1);
    assert(filled_pack(q2, f.take(m)) =~= f);
    assert(queue_after_fill(q2, f.take(m)) =~= rest);
    lemma_whole_frame_is_cut(f, rest, p);
}

/// The operations of the receive buffer.
pub trait BufFunc {
    /// The next packet can be cut without reading past the buffer.
    spec fn single_pack_in_bounds(&self) -> bool;

    /// Empties the buffer.
    fn new(&mut self);

    /// Cuts the next packet from the queue, reports the errors the user
    /// should see, and returns the packet's data.
    fn get_single_pack<T: UI>(&mut self, ui: &T) -> Result<Vec<u8>, ()>
        requires
            old(self).single_pack_in_bounds(),
    ;

    /// Appends the bytes of a serial read to the queue; a failed read
    /// changes nothing.  Returns whether the read succeeded.
    fn decode_inv_epc_data(&mut self, read: Result<Vec<u8>, ()>) -> bool;
}

impl BufFunc for Buf {
    open spec fn single_pack_in_bounds(&self) -> bool {
        pack_step_in_bounds(self.data_que@, self.pack@)
    }

    fn new(&mut self)
        ensures
            final(self).data_que@ == Seq::<u8>::empty(),
            final(self).pack@ == Seq::<u8>::empty(),
            final(self).pack_len == 0,
    {
        self.pack = Vec::new();
        self.data_que = VecDeque::new();
        self.pack_len = 0;
    }

    fn get_single_pack<T: UI>(&mut self, ui: &T) -> (r: Result<Vec<u8>, ()>)
        ensures
            final(self).data_que@ == pack_step(old(self).data_que@, old(self).pack@).0,
            final(self).pack@ == pack_step(old(self).data_que@, old(self).pack@).1,
            final(self).pack_len == old(self).pack_len,
            r is Ok == pack_step(old(self).data_que@, old(self).pack@).2 is Ok,
            r matches Ok(v) ==> pack_step(old(self).data_que@, old(self).pack@).2 == Ok::<
                Seq<u8>,
                PackError,
            >(v@),
    {
        match self.read_pack() {
            Ok(v) => Ok(v),
            Err(e) => {
                match e.message() {
                    Some(msg) => ui.output(msg),
                    None => {},
                }
                Err(())
            },
        }
    }

    fn decode_inv_epc_data(&mut self, read: Result<Vec<u8>, ()>) -> (ok: bool)
        ensures
            ok == read is Ok,
            read matches Ok(bytes) ==> final(self).data_que@ == old(self).data_que@ + bytes@,
            read is Err ==> final(self).data_que@ == old(self).data_que@,
            final(self).pack@ == old(self).pack@,
            final(self).pack_len == old(self).pack_len,
    {
        match read {
            Ok(bytes) => {
                let ghost old_que = self.data_que@;
                let mut i: usize = 0;
                while i < bytes.len()
                    invariant
                        i <= bytes@.len(),
                        self.data_que@ == old_que + bytes@.take(i as int),
                        self.pack@ == old(self).pack@,
                        self.pack_len == old(self).pack_len,
                    decreases bytes@.len() - i,
                {
                    self.data_que.push_back(bytes[i]);
                    i = i + 1;
                    assert(self.data_que@ =~= old_que + bytes@.take(i as int));
                }
                assert(bytes@.take(bytes@.len() as int) =~= bytes@);
                true
            },
            Err(_) => false,
        }
    }
}

} // verus!
