//! Decoding of the reply the reader sends to a configuration command.
use vstd::prelude::*;
use crate::frame::{
    HEADER, byte_sum, checksum_defined, checksum_defined_for, checksum_of, checksun, frame_head,
    is_valid_frame, lemma_built_frame_is_valid, protocol_frame,
};

verus! {

/// Index of the first header byte in `q`, or `q.len()` when there is none.
pub open spec fn first_header(q: Seq<u8>) -> int
    decreases q.len(),
{
    if q.len() == 0 {
        0
    } else if q[0] == HEADER {
        0
    } else {
        1 + first_header(q.subrange(1, q.len() as int))
    }
}

/// `first_header` is the position of the first header byte.
pub proof fn lemma_first_header(q: Seq<u8>, i: int)
    requires
        0 <= i <= q.len(),
        forall|j: int| 0 <= j < i ==> q[j] != HEADER,
        i == q.len() || q[i] == HEADER,
    ensures
        first_header(q) == i,
    decreases i,
{
    if i > 0 {
        let rest = q.subrange(1, q.len() as int);
        assert forall|j: int| 0 <= j < i - 1 implies rest[j] != HEADER by {
            assert(rest[j] == q[j + 1]);
        }
        if i < q.len() {
            assert(rest[i - 1] == q[i]);
        }
        lemma_first_header(rest, i - 1);
    }
}

/// `first_header` lies within the bytes, no byte before it is a header
/// byte, and it points at one unless it is the end.
pub proof fn lemma_first_header_bounds(q: Seq<u8>)
    ensures
        0 <= first_header(q) <= q.len(),
        forall|j: int| 0 <= j < first_header(q) ==> q[j] != HEADER,
        first_header(q) < q.len() ==> q[first_header(q)] == HEADER,
    decreases q.len(),
{
    if q.len() > 0 && q[0] != HEADER {
        let rest = q.subrange(1, q.len() as int);
        lemma_first_header_bounds(rest);
        assert forall|j: int| 0 <= j < first_header(q) implies q[j] != HEADER by {
            if j > 0 {
                assert(q[j] == rest[j - 1]);
            }
        }
        if first_header(q) < q.len() {
            assert(q[first_header(q)] == rest[first_header(rest)]);
        }
    }
}

/// The replies that carry one status byte right after the command byte.
pub open spec fn is_status_reply(cmd: u8) -> bool {
    cmd == 0x70 || cmd == 0x76 || cmd == 0x77 || cmd == 0x78 || cmd == 0x69 || cmd == 0x6A
        || cmd == 0x93 || cmd == 0x8C || cmd == 0x5B || cmd == 0x3E || cmd == 0x85 || cmd
        == 0x81 || cmd == 0x8D
}

/// What a reply frame `f` (without its checksum byte) carries, by the
/// command in `f[3]`:
/// - a status reply: its first data byte;
/// - 0x79 (frequency region): three bytes;
/// - 0x80 (buffered inventory): the status byte of a short reply (length
///   byte 4), two bytes otherwise;
/// - 0x90 (EPC buffer): the `f[4] - 4` bytes from index 7 (none when
///   `f[4]` is 4);
/// - 0x82 (tag write): the status byte of a short reply, otherwise the bytes
///   from index 4 up to the frame's length taken modulo 256;
/// - any other command: an error.
pub open spec fn reply_payload(f: Seq<u8>) -> Result<Seq<u8>, ()> {
    let cmd = f[3];
    if is_status_reply(cmd) {
        Ok(seq![f[4]])
    } else if cmd == 0x79 {
        Ok(f.subrange(4, 7))
    } else if cmd == 0x80 {
        if f[1] == 4 {
            Ok(seq![f[4]])
        } else {
            Ok(f.subrange(4, 6))
        }
    } else if cmd == 0x90 {
        if f[4] == 4 {
            Ok(seq![])
        } else {
            Ok(f.subrange(7, f[4] + 3))
        }
    } else if cmd == 0x82 {
        if f[1] == 4 {
            Ok(seq![f[4]])
        } else if f.len() % 256 > 4 {
            Ok(f.subrange(4, (f.len() % 256) as int))
        } else {
            Ok(seq![])
        }
    } else {
        Err(())
    }
}

/// The reply frame `f` holds every byte that `reply_payload` reads, and its
/// EPC-buffer count byte is one the decoder can subtract from and count up
/// to.
pub open spec fn reply_in_bounds(f: Seq<u8>) -> bool {
    let cmd = f[3];
    &&& f.len() >= 4
    &&& is_status_reply(cmd) ==> f.len() >= 5
    &&& cmd == 0x79 ==> f.len() >= 7
    &&& cmd == 0x80 ==> f.len() >= (if f[1] == 4 { 5int } else { 6int })
    &&& cmd == 0x90 ==> f.len() >= 5 && 4 <= f[4] <= 253
    &&& cmd == 0x90 && f[4] > 4 ==> f.len() >= f[4] + 3
    &&& cmd == 0x82 && f[1] == 4 ==> f.len() >= 5
}

/// The reply frame inside the received bytes `q`: everything from the
/// first header byte to the end, less the last byte, which is the
/// checksum.
pub open spec fn reply_body(q: Seq<u8>) -> Seq<u8> {
    q.subrange(first_header(q), q.len() - 1)
}

/// The bytes hold a header, and the checksum after the frame matches.
pub open spec fn reply_checks(q: Seq<u8>) -> bool {
    &&& first_header(q) < q.len()
    &&& q.last() == checksum_of(reply_body(q))
}

/// The result of decoding the received bytes `q`: bytes before the first
/// header are skipped; with no header at all there is nothing to report;
/// otherwise the rest is one frame whose checksum must match and whose
/// command must be known.
pub open spec fn decoded_response(q: Seq<u8>) -> Result<Seq<u8>, ()> {
    if first_header(q) >= q.len() {
        Ok(seq![])
    } else if !reply_checks(q) {
        Err(())
    } else {
        reply_payload(reply_body(q))
    }
}

/// Decoding the received bytes `q` neither overflows nor reads past
/// them: when they hold a header, the checksum of the frame can be
/// computed, and a frame whose checksum matches holds what its command
/// makes the decoder read.
pub open spec fn response_in_bounds(q: Seq<u8>) -> bool {
    &&& first_header(q) < q.len() ==> checksum_defined(reply_body(q))
    &&& reply_checks(q) ==> reply_in_bounds(reply_body(q))
}

fn decode_reply(f: &Vec<u8>) -> (r: Result<Vec<u8>, ()>)
    requires
        reply_in_bounds(f@),
    ensures
        r is Ok == reply_payload(f@) is Ok,
        r matches Ok(v) ==> reply_payload(f@) == Ok::<Seq<u8>, ()>(v@),
{
    let mut data_vec: Vec<u8> = Vec::new();
    let cmd = f[3];
    if cmd == 0x70 || cmd == 0x76 || cmd == 0x77 || cmd == 0x78 || cmd == 0x69 || cmd == 0x6A
        || cmd == 0x93 || cmd == 0x8C || cmd == 0x5B || cmd == 0x3E || cmd == 0x85 || cmd
        == 0x81 || cmd == 0x8D {
        data_vec.push(f[4]);
        assert(data_vec@ =~= seq![f@[4]]);
    } else if cmd == 0x79 {
        data_vec.push(f[4]);
        data_vec.push(f[5]);
        data_vec.push(f[6]);
        assert(data_vec@ =~= f@.subrange(4, 7));
    } else if cmd == 0x80 {
        if f[1] == 0x4 {
            data_vec.push(f[4]);
            assert(data_vec@ =~= seq![f@[4]]);
        } else {
            data_vec.push(f[4]);
            data_vec.push(f[5]);
            assert(data_vec@ =~= f@.subrange(4, 6));
        }
    } else if cmd == 0x90 {
        let len: u8 = f[4] - 4;
        let mut i: u8 = 0;
        while i < len
            invariant
                reply_in_bounds(f@),
                f@[3] == 0x90,
                len == f@[4] - 4,
                i <= len,
                len > 0 ==> f@.len() >= len + 7,
                data_vec@.len() == i,
                forall|k: int| 0 <= k < i ==> data_vec@[k] == f@[k + 7],
            decreases len - i,
        {
            data_vec.push(f[(i + 7) as usize]);
            i = i + 1;
        }
        if len == 0 {
            assert(data_vec@ =~= seq![]);
        } else {
            assert(data_vec@ =~= f@.subrange(7, f@[4] + 3));
        }
    } else if cmd == 0x82 {
        if f[1] == 0x4 {
            data_vec.push(f[4]);
            assert(data_vec@ =~= seq![f@[4]]);
        } else {
            let n: usize = f.len();
            let len: u8 = n as u8;
            assert(len == n % 256) by (bit_vector)
                requires
                    len == n as u8,
            ;
            let mut i: u8 = 4;
            while i < len
                invariant
                    f@.len() == n,
                    len == n % 256,
                    4 <= i,
                    i <= len || len < 4,
                    i == 4 || i <= len,
                    data_vec@ == f@.subrange(4, i as int),
                decreases len - i,
            {
                data_vec.push(f[i as usize]);
                i = i + 1;
                assert(data_vec@ =~= f@.subrange(4, i as int));
            }
            if len <= 4 {
                assert(data_vec@ =~= seq![]);
            }
        }
    } else {
        return Err(());
    }
    Ok(data_vec)
}

/// Decodes the reply read from the serial port.  A failed read is an
/// error; otherwise the result is `decoded_response` of the bytes read.
pub fn decode_protocol_data(read: Result<Vec<u8>, ()>) -> (r: Result<Vec<u8>, ()>)
    requires
        read matches Ok(q) ==> response_in_bounds(q@),
    ensures
        read is Err ==> r is Err,
        read matches Ok(q) ==> (r is Ok == decoded_response(q@) is Ok),
        read matches Ok(q) ==> (r matches Ok(v) ==> decoded_response(q@) == Ok::<Seq<u8>, ()>(v@)),
{
    let q = match read {
        Ok(q) => q,
        Err(_) => {
            return Err(());
        },
    };
    let n = q.len();
    let mut h: usize = 0;
    while h < n && q[h] != HEADER
        invariant
            h <= n,
            n == q@.len(),
            forall|j: int| 0 <= j < h ==> q@[j] != HEADER,
        decreases n - h,
    {
        h = h + 1;
    }
    proof {
        lemma_first_header(q@, h as int);
    }
    if h == n {
        return Ok(Vec::new());
    }
    let mut body: Vec<u8> = Vec::new();
    let mut i: usize = h;
    while i < n - 1
        invariant
            h <= i <= n - 1,
            n == q@.len(),
            body@ == q@.subrange(h as int, i as int),
        decreases n - 1 - i,
    {
        body.push(q[i]);
        i = i + 1;
        assert(body@ =~= q@.subrange(h as int, i as int));
    }
    assert(body@ == reply_body(q@));
    let check = q[n - 1];
    if check != checksun(body.clone()) {
        return Err(());
    }
    decode_reply(&body)
}

/// Tells whether `decode_protocol_data` can decode `bytes` (see
/// `response_in_bounds`).
pub fn response_fits(bytes: &Vec<u8>) -> (r: bool)
    ensures
        r == response_in_bounds(bytes@),
{
    let n = bytes.len();
    let mut h: usize = 0;
    while h < n && bytes[h] != HEADER
        invariant
            h <= n,
            n == bytes@.len(),
            forall|j: int| 0 <= j < h ==> bytes@[j] != HEADER,
        decreases n - h,
    {
        h = h + 1;
    }
    proof {
        lemma_first_header(bytes@, h as int);
    }
    if h == n {
        return true;
    }
    let mut body: Vec<u8> = Vec::new();
    let mut i: usize = h;
    while i < n - 1
        invariant
            h <= i <= n - 1,
            n == bytes@.len(),
            body@ == bytes@.subrange(h as int, i as int),
        decreases n - 1 - i,
    {
        body.push(bytes[i]);
        i = i + 1;
        assert(body@ =~= bytes@.subrange(h as int, i as int));
    }
    if !checksum_defined_for(&body) {
        return false;
    }
    if bytes[n - 1] != checksun(body.clone()) {
        return true;
    }
    reply_fits(&body)
}

fn reply_fits(f: &Vec<u8>) -> (r: bool)
    ensures
        r == reply_in_bounds(f@),
{
    let n = f.len();
    if n < 4 {
        return false;
    }
    let cmd = f[3];
    if cmd == 0x70 || cmd == 0x76 || cmd == 0x77 || cmd == 0x78 || cmd == 0x69 || cmd == 0x6A
        || cmd == 0x93 || cmd == 0x8C || cmd == 0x5B || cmd == 0x3E || cmd == 0x85 || cmd
        == 0x81 || cmd == 0x8D {
        n >= 5
    } else if cmd == 0x79 {
        n >= 7
    } else if cmd == 0x80 {
        n >= 5 && (f[1] == 4 || n >= 6)
    } else if cmd == 0x90 {
        n >= 5 && 4 <= f[4] && f[4] <= 253 && (f[4] == 4 || n >= f[4] as usize + 3)
    } else if cmd == 0x82 {
        f[1] != 4 || n >= 5
    } else {
        true
    }
}

/// Bytes without a header byte in front of any received bytes change
/// nothing: decoding gives the same result, and needs the same bytes.
pub proof fn lemma_noise_is_skipped(noise: Seq<u8>, b: Seq<u8>)
    requires
        forall|i: int| 0 <= i < noise.len() ==> noise[i] != HEADER,
    ensures
        first_header(noise + b) == noise.len() + first_header(b),
        decoded_response(noise + b) == decoded_response(b),
        response_in_bounds(noise + b) == response_in_bounds(b),
{
    let q = noise + b;
    let h = first_header(b);
    lemma_first_header_bounds(b);
    assert forall|j: int| 0 <= j < noise.len() + h implies q[j] != HEADER by {
        if j < noise.len() {
            assert(q[j] == noise[j]);
        } else {
            assert(q[j] == b[j - noise.len()]);
        }
    }
    if h < b.len() {
        assert(q[noise.len() + h] == b[h]);
    }
    lemma_first_header(q, noise.len() + h);
    if h < b.len() {
        assert(q.subrange(noise.len() + h, q.len() - 1) =~= b.subrange(h, b.len() - 1));
        assert(q.last() == b.last());
    }
}

/// Bytes without a header before a valid frame are skipped: decoding
/// them together with the frame gives what the frame carries.
pub proof fn lemma_decode_after_noise(noise: Seq<u8>, f: Seq<u8>)
    requires
        forall|i: int| 0 <= i < noise.len() ==> noise[i] != HEADER,
        is_valid_frame(f),
    ensures
        reply_checks(noise + f),
        reply_body(noise + f) == f.drop_last(),
        decoded_response(noise + f) == reply_payload(f.drop_last()),
{
    let q = noise + f;
    assert forall|j: int| 0 <= j < noise.len() implies q[j] != HEADER by {
        assert(q[j] == noise[j]);
    }
    assert(q[noise.len() as int] == f[0]);
    lemma_first_header(q, noise.len() as int);
    assert(q.subrange(noise.len() as int, q.len() - 1) =~= f.drop_last());
    assert(q.last() == f.last());
}

/// The reply decoder accepts every frame the client builds from exactly
/// `len` data bytes: its checksum passes, and it decodes as a reply with
/// that command and data.
pub proof fn lemma_decode_built_frame(cmd: u8, len: u8, data: Seq<u8>)
    requires
        len <= 251,
        data.len() == len,
    ensures
        reply_checks(protocol_frame(cmd, len, data)),
        decoded_response(protocol_frame(cmd, len, data)) == reply_payload(frame_head(cmd, len, data)),
{
    lemma_built_frame_is_valid(cmd, len, data);
    let f = protocol_frame(cmd, len, data);
    assert(Seq::<u8>::empty() + f =~= f);
    lemma_decode_after_noise(Seq::<u8>::empty(), f);
    assert(f.drop_last() =~= frame_head(cmd, len, data));
}

/// A status reply to any command the client sends whose reply carries one
/// status byte (reset, output power, frequency, RF link profile, EPC
/// buffer clear, stop, session, carrier wave, EPC match, tag read, select)
/// decodes to that status byte: the frame `A0 04 addr cmd s c`, whose bytes
/// sum to a multiple of 256, gives `[s]`.  When `c` is not zero the
/// decoder accepts the frame.
pub proof fn lemma_status_reply_gives_status(addr: u8, cmd: u8, s: u8, c: u8)
    requires
        cmd == 0x70 || cmd == 0x76 || cmd == 0x77 || cmd == 0x78 || cmd == 0x69 || cmd == 0x6A
            || cmd == 0x93 || cmd == 0x8C || cmd == 0x5B || cmd == 0x3E || cmd == 0x85 || cmd
            == 0x81 || cmd == 0x8D,
        (0xA0 + 4 + addr + cmd + s + c) % 256 == 0,
    ensures
        decoded_response(seq![0xA0u8, 4u8, addr, cmd, s, c]) == Ok::<Seq<u8>, ()>(seq![s]),
        c != 0 ==> response_in_bounds(seq![0xA0u8, 4u8, addr, cmd, s, c]),
{
    broadcast use crate::frame::lemma_byte_sum_push;

    let q = seq![0xA0u8, 4u8, addr, cmd, s, c];
    let body = seq![0xA0u8, 4u8, addr, cmd, s];
    let e = Seq::<u8>::empty();
    assert(byte_sum(e) == 0);
    assert(body =~= e.push(0xA0u8).push(4u8).push(addr).push(cmd).push(s));
    assert(byte_sum(body) == 0xA0 + 4 + addr + cmd + s);
    lemma_first_header(q, 0);
    assert(reply_body(q) =~= body);
    assert(q.last() == c);
    assert(checksum_of(body) == c);
    assert(reply_payload(body) =~= Ok::<Seq<u8>, ()>(seq![s]));
}

/// What a reply frame decodes to, by its command, stated on its bytes:
/// for a frame `f` (header first, at least 5 bytes) followed by a
/// checksum byte `c` that makes the whole sum a multiple of 256,
/// - a status reply (reset, output power, frequency, RF link profile, EPC
///   buffer clear, stop, session, carrier wave, EPC match, tag read,
///   select) gives its first data byte, whatever its length byte says;
/// - the frequency reply (0x79) gives its three data bytes;
/// - the buffered-inventory reply (0x80) gives one status byte when short
///   (length byte 4), two data bytes otherwise;
/// - the EPC-buffer reply (0x90) gives the `f[4] - 4` bytes from index 7;
/// - the tag-write reply (0x82) gives one status byte when short, every
///   data byte otherwise;
/// - a reply to any other command the client does not decode is an error.
/// A checksum byte that does not complete the sum is an error whatever the
/// command.
pub proof fn lemma_reply_decoding(f: Seq<u8>, c: u8)
    requires
        f.len() >= 5,
        f[0] == 0xA0,
    ensures
        ({
            let q = f.push(c);
            let cmd = f[3];
            let r = decoded_response(q);
            &&& (byte_sum(f) + c) % 256 != 0 ==> r == Err::<Seq<u8>, ()>(())
            &&& (byte_sum(f) + c) % 256 == 0 ==> {
                &&& (cmd == 0x70 || cmd == 0x76 || cmd == 0x77 || cmd == 0x78 || cmd == 0x69
                    || cmd == 0x6A || cmd == 0x93 || cmd == 0x8C || cmd == 0x5B || cmd == 0x3E
                    || cmd == 0x85 || cmd == 0x81 || cmd == 0x8D) ==> r == Ok::<Seq<u8>, ()>(seq![f[4]])
                &&& cmd == 0x79 && f.len() >= 7 ==> r == Ok::<Seq<u8>, ()>(seq![f[4], f[5], f[6]])
                &&& cmd == 0x80 && f[1] == 4 ==> r == Ok::<Seq<u8>, ()>(seq![f[4]])
                &&& cmd == 0x80 && f[1] != 4 && f.len() >= 6 ==> r == Ok::<Seq<u8>, ()>(seq![f[4], f[5]])
                &&& cmd == 0x90 && f[4] == 4 ==> r == Ok::<Seq<u8>, ()>(seq![])
                &&& cmd == 0x90 && f[4] > 4 && f.len() >= f[4] + 3 ==> r == Ok::<Seq<u8>, ()>(
                    Seq::new((f[4] - 4) as nat, |i: int| f[7 + i]),
                )
                &&& cmd == 0x82 && f[1] == 4 ==> r == Ok::<Seq<u8>, ()>(seq![f[4]])
                &&& cmd == 0x82 && f[1] != 4 && f.len() < 256 ==> r == Ok::<Seq<u8>, ()>(
                    Seq::new((f.len() - 4) as nat, |i: int| f[4 + i]),
                )
                &&& !(cmd == 0x70 || cmd == 0x76 || cmd == 0x77 || cmd == 0x78 || cmd == 0x69
                    || cmd == 0x6A || cmd == 0x93 || cmd == 0x8C || cmd == 0x5B || cmd == 0x3E
                    || cmd == 0x85 || cmd == 0x81 || cmd == 0x8D || cmd == 0x79 || cmd == 0x80
                    || cmd == 0x90 || cmd == 0x82) ==> r == Err::<Seq<u8>, ()>(())
            }
        }),
{
    let q = f.push(c);
    lemma_first_header(q, 0);
    assert(reply_body(q) =~= f);
    assert(q.last() == c);
    if (byte_sum(f) + c) % 256 == 0 {
        assert(checksum_of(f) == c);
        let cmd = f[3];
        if cmd == 0x79 && f.len() >= 7 {
            assert(f.subrange(4, 7) =~= seq![f[4], f[5], f[6]]);
        }
        if cmd == 0x80 && f[1] != 4 && f.len() >= 6 {
            assert(f.subrange(4, 6) =~= seq![f[4], f[5]]);
        }
        if cmd == 0x90 && f[4] > 4 && f.len() >= f[4] + 3 {
            assert(f.subrange(7, f[4] + 3) =~= Seq::new((f[4] - 4) as nat, |i: int| f[7 + i]));
        }
        if cmd == 0x82 && f[1] != 4 && f.len() < 256 {
            assert(f.len() % 256 == f.len());
            assert(f.subrange(4, f.len() as int) =~= Seq::new((f.len() - 4) as nat, |i: int| f[4 + i]));
        }
    } else {
        assert(checksum_of(f) != c);
    }
}

} // verus!
