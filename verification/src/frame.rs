use vstd::prelude::*;

verus! {

/// First byte of every frame exchanged with the reader.
pub const HEADER: u8 = 0xA0;

/// Sum of the bytes of `s`, as a natural number.
pub open spec fn byte_sum(s: Seq<u8>) -> nat
    decreases s.len(),
{
    if s.len() == 0 {
        0
    } else {
        byte_sum(s.drop_last()) + (s.last() as nat)
    }
}

/// The checksum byte of `s`: the two's complement of the byte sum, so that
/// `s` followed by its checksum sums to a multiple of 256.
pub open spec fn checksum_of(s: Seq<u8>) -> u8 {
    ((256 - byte_sum(s) % 256) % 256) as u8
}

/// The checksum of `s` can be computed: it is computed as the bitwise
/// complement of the byte sum plus one, which overflows when the sum is a
/// multiple of 256.
pub open spec fn checksum_defined(s: Seq<u8>) -> bool {
    byte_sum(s) % 256 != 0
}

/// Adding a byte adds its value to the sum.
pub broadcast proof fn lemma_byte_sum_push(s: Seq<u8>, x: u8)
    ensures
        #[trigger] byte_sum(s.push(x)) == byte_sum(s) + x,
{
    assert(s.push(x).drop_last() =~= s);
}

fn sum_mod_256(data: &Vec<u8>) -> (sum: u8)
    ensures
        sum == byte_sum(data@) % 256,
{
    let mut sum: u8 = 0;
    let mut i: usize = 0;
    while i < data.len()
        invariant
            i <= data.len(),
            sum == byte_sum(data@.take(i as int)) % 256,
        decreases data.len() - i,
    {
        assert(data@.take(i + 1).drop_last() =~= data@.take(i as int));
        sum = sum.wrapping_add(data[i]);
        i = i + 1;
    }
    assert(data@.take(data.len() as int) =~= data@);
    sum
}

/// Tells whether the checksum of `data` can be computed (see
/// `checksum_defined`).
pub fn checksum_defined_for(data: &Vec<u8>) -> (r: bool)
    ensures
        r == checksum_defined(data@),
{
    sum_mod_256(data) != 0
}

/// Computes the checksum byte of `data` (see `checksum_of`).
pub fn checksun(data: Vec<u8>) -> (check: u8)
    requires
        checksum_defined(data@),
    ensures
        check == checksum_of(data@),
{
    let sum = sum_mod_256(&data);
    let inverted: u8 = !sum;
    assert(inverted == 255 - sum) by (bit_vector)
        requires
            inverted == !sum,
    ;
    inverted + 1
}

/// The bytes of a frame before its checksum is placed: header, length
/// byte (`len + 3`: address, command, data and checksum), address 0,
/// command, then the data.
pub open spec fn frame_head(cmd: u8, len: u8, data: Seq<u8>) -> Seq<u8> {
    seq![HEADER, (len + 3) as u8, 0u8, cmd] + data
}

/// The frame `send_protocol_data` builds: the checksum of the whole head is
/// placed right after the first `len` data bytes (at the end when the data
/// holds exactly `len` bytes).
pub open spec fn protocol_frame(cmd: u8, len: u8, data: Seq<u8>) -> Seq<u8> {
    let head = frame_head(cmd, len, data);
    head.take(len + 4).push(checksum_of(head)) + head.skip(len + 4)
}

/// A complete frame as the reader and the client exchange it: it starts
/// with the header, its length byte counts the bytes that follow it, and
/// its last byte is the checksum of the bytes before it.
pub open spec fn is_valid_frame(f: Seq<u8>) -> bool {
    &&& f.len() >= 5
    &&& f[0] == HEADER
    &&& f.len() == f[1] + 2
    &&& f.last() == checksum_of(f.drop_last())
}

/// Builds the frame that carries command `cmd` with `len` data bytes taken
/// from `data`, ready to be written to the reader.
pub fn send_protocol_data(cmd: u8, len: u8, data: Vec<u8>) -> (frame: Vec<u8>)
    requires
        len <= 251,
        len <= data.len(),
        checksum_defined(frame_head(cmd, len, data@)),
    ensures
        frame@ == protocol_frame(cmd, len, data@),
{
    let ghost d = data@;
    let mut buf: Vec<u8> = vec![HEADER, 0x03 + len, 0x00];
    buf.insert(3, cmd);
    let mut data = data;
    buf.append(&mut data);
    assert(buf@ =~= frame_head(cmd, len, d));
    let check = checksun(buf.clone());
    let ghost head = buf@;
    buf.insert((len + 4) as usize, check);
    assert(buf@ =~= head.take(len + 4).push(check) + head.skip(len + 4));
    buf
}

/// The byte sum of a frame head: header, length byte, command and data.
pub proof fn lemma_head_sum(cmd: u8, len: u8, data: Seq<u8>)
    requires
        len <= 252,
    ensures
        byte_sum(frame_head(cmd, len, data)) == 163 + len + cmd + byte_sum(data),
{
    broadcast use lemma_byte_sum_push;

    let h = seq![HEADER, (len + 3) as u8, 0u8, cmd];
    assert(h =~= Seq::<u8>::empty().push(HEADER).push((len + 3) as u8).push(0u8).push(cmd));
    assert(byte_sum(Seq::<u8>::empty()) == 0);
    lemma_byte_sum_concat(h, data);
}

/// The byte sums of short literal byte strings.
pub proof fn lemma_byte_sum_literals(a: u8, b: u8, c: u8, d: u8)
    ensures
        byte_sum(seq![a]) == a,
        byte_sum(seq![a, b]) == a + b,
        byte_sum(seq![a, b, c]) == a + b + c,
        byte_sum(seq![a, b, c, d]) == a + b + c + d,
{
    broadcast use lemma_byte_sum_push;

    let e = Seq::<u8>::empty();
    assert(byte_sum(e) == 0);
    assert(seq![a] =~= e.push(a));
    assert(seq![a, b] =~= e.push(a).push(b));
    assert(seq![a, b, c] =~= e.push(a).push(b).push(c));
    assert(seq![a, b, c, d] =~= e.push(a).push(b).push(c).push(d));
}

/// Tells whether the checksum of the head of the frame that carries `cmd`
/// with `len` bytes of `data` can be computed.
pub fn frame_checksum_defined(cmd: u8, len: u8, data: &Vec<u8>) -> (r: bool)
    requires
        len <= 252,
    ensures
        r == checksum_defined(frame_head(cmd, len, data@)),
{
    proof {
        lemma_head_sum(cmd, len, data@);
        vstd::arithmetic::div_mod::lemma_add_mod_noop_right(163 + len + cmd, byte_sum(data@) as int, 256);
    }
    let sum = sum_mod_256(data);
    (163 + len as u32 + cmd as u32 + sum as u32) % 256 != 0
}

/// The sum of a concatenation is the sum of its parts.
pub proof fn lemma_byte_sum_concat(a: Seq<u8>, b: Seq<u8>)
    ensures
        byte_sum(a + b) == byte_sum(a) + byte_sum(b),
    decreases b.len(),
{
    if b.len() == 0 {
        assert(a + b =~= a);
    } else {
        lemma_byte_sum_concat(a, b.drop_last());
        assert((a + b).drop_last() =~= a + b.drop_last());
    }
}

/// Appending the checksum of a byte string makes its byte sum a multiple
/// of 256.
pub proof fn lemma_checksum_completes(s: Seq<u8>)
    ensures
        byte_sum(s.push(checksum_of(s))) % 256 == 0,
{
    assert(s.push(checksum_of(s)).drop_last() =~= s);
}

/// A frame built from exactly `len` data bytes is a valid frame that
/// carries `cmd` and the data: its length byte counts the bytes after it,
/// its last byte is the checksum of the rest, and its bytes sum to a
/// multiple of 256.
pub proof fn lemma_built_frame_is_valid(cmd: u8, len: u8, data: Seq<u8>)
    requires
        len <= 251,
        data.len() == len,
    ensures
        is_valid_frame(protocol_frame(cmd, len, data)),
        protocol_frame(cmd, len, data).len() == len + 5,
        protocol_frame(cmd, len, data)[3] == cmd,
        protocol_frame(cmd, len, data).subrange(4, len + 4) == data,
        byte_sum(protocol_frame(cmd, len, data)) % 256 == 0,
{
    let head = frame_head(cmd, len, data);
    let f = protocol_frame(cmd, len, data);
    assert(head.take(len + 4) =~= head);
    assert(head.skip(len + 4) =~= Seq::<u8>::empty());
    assert(f =~= head.push(checksum_of(head)));
    assert(f.drop_last() =~= head);
    assert(f.subrange(4, len + 4) =~= data);
    lemma_checksum_completes(head);
}

} // verus!
