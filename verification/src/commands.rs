//! The command frames the client sends to the reader.  Each function
//! returns the bytes of one frame; writing them to the serial port is left
//! to the caller.
use vstd::prelude::*;
use crate::frame::{
    byte_sum, checksum_defined, frame_head, lemma_byte_sum_push, lemma_head_sum, protocol_frame,
    send_protocol_data,
};

verus! {

broadcast use lemma_byte_sum_push;

/// The commands the client knows by name.
pub enum Command {
    CmdReset,
    CmdSetPower,
    CmdSetFreq,
    CmdSetCw,
    Cmd6CRead,
    Cmd6CWrite,
    CmdCustomInv,
    Eos,
}

/// The four bytes of `x`, most significant first.
pub open spec fn be_bytes(x: u32) -> Seq<u8> {
    seq![
        (x / 0x100_0000) as u8,
        ((x / 0x1_0000) % 256) as u8,
        ((x / 0x100) % 256) as u8,
        (x % 256) as u8,
    ]
}

proof fn lemma_len_byte(n: usize)
    ensures
        (n as u8) == n % 256,
{
    assert((n as u8) == n % 256) by (bit_vector);
}

/// Splits `x` into its four bytes, most significant first.
pub fn transform_u32_to_array_of_u8(x: u32) -> (bytes: Vec<u8>)
    ensures
        bytes@ == be_bytes(x),
{
    let b1: u8 = ((x >> 24) & 0xff) as u8;
    let b2: u8 = ((x >> 16) & 0xff) as u8;
    let b3: u8 = ((x >> 8) & 0xff) as u8;
    let b4: u8 = (x & 0xff) as u8;
    assert(b1 == (x / 0x100_0000) as u8 && b2 == ((x / 0x1_0000) % 256) as u8 && b3 == ((x
        / 0x100) % 256) as u8 && b4 == (x % 256) as u8) by (bit_vector)
        requires
            b1 == ((x >> 24) & 0xff) as u8,
            b2 == ((x >> 16) & 0xff) as u8,
            b3 == ((x >> 8) & 0xff) as u8,
            b4 == (x & 0xff) as u8,
    ;
    let bytes = vec![b1, b2, b3, b4];
    assert(bytes@ =~= be_bytes(x));
    bytes
}

/// The four bytes of `x`, read back most significant first, give `x`.
pub proof fn lemma_be_bytes_value(x: u32)
    ensures
        be_bytes(x)[0] * 0x100_0000 + be_bytes(x)[1] * 0x1_0000 + be_bytes(x)[2] * 0x100
            + be_bytes(x)[3] == x,
{
    let b = be_bytes(x);
    assert(b[0] == x / 0x100_0000);
    assert(b[1] == (x / 0x1_0000) % 256);
    assert(b[2] == (x / 0x100) % 256);
    assert(b[3] == x % 256);
    assert((x / 0x100_0000) * 0x100_0000 + ((x / 0x1_0000) % 256) * 0x1_0000 + ((x / 0x100)
        % 256) * 0x100 + x % 256 == x) by (nonlinear_arith);
}

/// The data of a tag-write command: access password, memory bank, word
/// address, word count (`0, len`) and the words to write.
pub open spec fn write_payload(
    area: u8,
    addr: Seq<u8>,
    len: u8,
    data: Seq<u8>,
    password: Seq<u8>,
) -> Seq<u8> {
    password + seq![area] + addr + seq![0u8, len] + data
}

/// Frame of the tag-write command (0x82).  The length byte announces
/// `11 + 2 * len` data bytes: a 4-byte password, the bank, a 4-byte
/// address, the 2-byte word count and `len` words.
pub fn sendwrite_command(area: u8, addr: Vec<u8>, len: u8, data: Vec<u8>, password: Vec<u8>) -> (frame: Vec<u8>)
    requires
        len <= 120,
        11 + 2 * len <= password.len() + 1 + addr.len() + 2 + data.len(),
        checksum_defined(frame_head(0x82, (11 + 2 * len) as u8, write_payload(area, addr@, len, data@, password@))),
    ensures
        frame@ == protocol_frame(0x82, (11 + 2 * len) as u8, write_payload(area, addr@, len, data@, password@)),
{
    let ghost payload = write_payload(area, addr@, len, data@, password@);
    let mut password = password;
    let mut addr = addr;
    let mut data = data;
    let mut buf: Vec<u8> = Vec::new();
    buf.append(&mut password);
    buf.push(area);
    buf.append(&mut addr);
    let mut len_vec: Vec<u8> = vec![0, len];
    buf.append(&mut len_vec);
    buf.append(&mut data);
    assert(buf@ =~= payload);
    send_protocol_data(0x82, 11 + len * 2, buf)
}

/// Frame of the stop-inventory command (0x8C).
pub fn send_stopinv_command() -> (frame: Vec<u8>)
    ensures
        frame@ == protocol_frame(0x8C, 0, seq![]),
{
    let buf: Vec<u8> = Vec::new();
    proof {
        lemma_head_sum(0x8C, 0, buf@);
    }
    send_protocol_data(0x8C, 0, buf)
}

/// Frame of the clear-EPC-buffer command (0x93).
pub fn send_cleanepcbuff_command() -> (frame: Vec<u8>)
    ensures
        frame@ == protocol_frame(0x93, 0, seq![]),
{
    let buf: Vec<u8> = Vec::new();
    proof {
        lemma_head_sum(0x93, 0, buf@);
    }
    send_protocol_data(0x93, 0, buf)
}

/// Frame of the get-EPC-buffer command (0x90).
pub fn send_getepcbuff_command() -> (frame: Vec<u8>)
    ensures
        frame@ == protocol_frame(0x90, 0, seq![]),
{
    let buf: Vec<u8> = Vec::new();
    proof {
        lemma_head_sum(0x90, 0, buf@);
    }
    send_protocol_data(0x90, 0, buf)
}

/// Frame of the buffered-inventory command (0x80) for one round.
pub fn send_buffinv_command() -> (frame: Vec<u8>)
    ensures
        frame@ == protocol_frame(0x80, 1, seq![1u8]),
{
    let buf: Vec<u8> = vec![0x01];
    assert(buf@ =~= seq![1u8]);
    proof {
        lemma_head_sum(0x80, 1, buf@);
    }
    send_protocol_data(0x80, 1, buf)
}

/// Frame of the reset command (0x70).
pub fn send_reset_command() -> (frame: Vec<u8>)
    ensures
        frame@ == protocol_frame(0x70, 0, seq![]),
{
    let buf: Vec<u8> = Vec::new();
    proof {
        lemma_head_sum(0x70, 0, buf@);
    }
    send_protocol_data(0x70, 0, buf)
}

/// Frame of the set-output-power command (0x76).
pub fn send_setpower_command(power: u8) -> (frame: Vec<u8>)
    requires
        checksum_defined(frame_head(0x76, 1, seq![power])),
    ensures
        frame@ == protocol_frame(0x76, 1, seq![power]),
{
    let buf: Vec<u8> = vec![power];
    assert(buf@ =~= seq![power]);
    send_protocol_data(0x76, 1, buf)
}

/// Frame of the get-output-power command (0x77).
pub fn send_getpower_command() -> (frame: Vec<u8>)
    ensures
        frame@ == protocol_frame(0x77, 0, seq![]),
{
    let buf: Vec<u8> = Vec::new();
    proof {
        lemma_head_sum(0x77, 0, buf@);
    }
    send_protocol_data(0x77, 0, buf)
}

/// The data of the set-custom-frequency command: region 4, frequency space
/// 0x00, 0x19 channels of quantity 1, then the three low bytes of `freq`.
pub open spec fn custom_freq_payload(freq: u32) -> Seq<u8> {
    seq![0x04u8, 0x00u8, 0x19u8, 0x01u8] + be_bytes(freq).skip(1)
}

/// The data of the set-custom-frequency command (see
/// `custom_freq_payload`).
pub fn custom_freq_data(freq: u32) -> (data: Vec<u8>)
    ensures
        data@ == custom_freq_payload(freq),
{
    let mut temp = transform_u32_to_array_of_u8(freq);
    temp.remove(0);
    let mut buf: Vec<u8> = vec![0x04, 0x00, 0x19, 0x01];
    buf.append(&mut temp);
    assert(buf@ =~= custom_freq_payload(freq));
    buf
}

/// Frame of the set-frequency command (0x78) for a custom frequency.
pub fn send_setcustomfreq_command(freq: u32) -> (frame: Vec<u8>)
    requires
        checksum_defined(frame_head(0x78, 7, custom_freq_payload(freq))),
    ensures
        frame@ == protocol_frame(0x78, 7, custom_freq_payload(freq)),
{
    let buf = custom_freq_data(freq);
    let len = buf.len() as u8;
    send_protocol_data(0x78, len, buf)
}

/// Frame of the set-frequency command (0x78) for a standard region.
pub fn send_setstandardfreq_command(standard: u8, start: u8, end: u8) -> (frame: Vec<u8>)
    requires
        checksum_defined(frame_head(0x78, 3, seq![standard, start, end])),
    ensures
        frame@ == protocol_frame(0x78, 3, seq![standard, start, end]),
{
    let buf: Vec<u8> = vec![standard, start, end];
    assert(buf@ =~= seq![standard, start, end]);
    send_protocol_data(0x78, 3, buf)
}

/// Frame of the get-frequency command (0x79).
pub fn send_getstandardfreq_command() -> (frame: Vec<u8>)
    ensures
        frame@ == protocol_frame(0x79, 0, seq![]),
{
    let buf: Vec<u8> = Vec::new();
    proof {
        lemma_head_sum(0x79, 0, buf@);
    }
    send_protocol_data(0x79, 0, buf)
}

/// Frame of the set-RF-link-profile command (0x69).
pub fn send_setrflink_command(mode: u8) -> (frame: Vec<u8>)
    requires
        checksum_defined(frame_head(0x69, 1, seq![mode])),
    ensures
        frame@ == protocol_frame(0x69, 1, seq![mode]),
{
    let buf: Vec<u8> = vec![mode];
    assert(buf@ =~= seq![mode]);
    send_protocol_data(0x69, 1, buf)
}

/// Frame of the get-RF-link-profile command (0x6A).
pub fn send_getrflink_command() -> (frame: Vec<u8>)
    ensures
        frame@ == protocol_frame(0x6A, 0, seq![]),
{
    let buf: Vec<u8> = Vec::new();
    proof {
        lemma_head_sum(0x6A, 0, buf@);
    }
    send_protocol_data(0x6A, 0, buf)
}

/// Frame of the real-time-inventory command (0x89) for one round.
pub fn send_realtimeinv_command() -> (frame: Vec<u8>)
    ensures
        frame@ == protocol_frame(0x89, 1, seq![1u8]),
{
    let buf: Vec<u8> = vec![0x01];
    assert(buf@ =~= seq![1u8]);
    proof {
        lemma_head_sum(0x89, 1, buf@);
    }
    send_protocol_data(0x89, 1, buf)
}

/// Frame of the carrier-wave command (0x3E), switching it on.
pub fn send_opencw_command() -> (frame: Vec<u8>)
    ensures
        frame@ == protocol_frame(0x3E, 1, seq![1u8]),
{
    let buf: Vec<u8> = vec![0x01];
    assert(buf@ =~= seq![1u8]);
    proof {
        lemma_head_sum(0x3E, 1, buf@);
    }
    send_protocol_data(0x3E, 1, buf)
}

/// The data of the set-access-EPC-match command: with mode 0 the EPC to
/// match, preceded by its length (taken modulo 256); any other mode
/// cancels the match and carries a zero length.
pub open spec fn match_epc_payload(mode: u8, epc: Seq<u8>) -> Seq<u8> {
    if mode == 0 {
        seq![mode, (epc.len() % 256) as u8] + epc
    } else {
        seq![mode, 0u8]
    }
}

/// Frame of the set-access-EPC-match command (0x85).
pub fn send_match_epc_command(mode: u8, epc: Vec<u8>) -> (frame: Vec<u8>)
    requires
        match_epc_payload(mode, epc@).len() % 256 <= 251,
        checksum_defined(
            frame_head(0x85, (match_epc_payload(mode, epc@).len() % 256) as u8, match_epc_payload(mode, epc@)),
        ),
    ensures
        frame@ == protocol_frame(
            0x85,
            (match_epc_payload(mode, epc@).len() % 256) as u8,
            match_epc_payload(mode, epc@),
        ),
{
    let ghost e = epc@;
    let mut epc = epc;
    let mut buf: Vec<u8> = Vec::new();
    buf.push(mode);
    if mode == 0x00 {
        let len: u8 = epc.len() as u8;
        proof {
            lemma_len_byte(epc@.len() as usize);
        }
        buf.push(len);
        buf.append(&mut epc);
    } else {
        buf.push(0);
    }
    assert(buf@ =~= match_epc_payload(mode, e));
    let len = buf.len() as u8;
    proof {
        lemma_len_byte(buf@.len() as usize);
    }
    send_protocol_data(0x85, len, buf)
}

/// The data of the tag-read command: memory bank, word address, word
/// count and access password.
pub open spec fn single_read_payload(
    addr: Seq<u8>,
    membank: u8,
    wordcount: Seq<u8>,
    password: Seq<u8>,
) -> Seq<u8> {
    seq![membank] + addr + wordcount + password
}

/// Frame of the tag-read command (0x81).
pub fn send_single_read_command(addr: Vec<u8>, membank: u8, wordcount: Vec<u8>, password: Vec<u8>) -> (frame: Vec<u8>)
    requires
        (1 + addr.len() + wordcount.len() + password.len()) % 256 <= 251,
        checksum_defined(
            frame_head(
                0x81,
                ((1 + addr.len() + wordcount.len() + password.len()) % 256) as u8,
                single_read_payload(addr@, membank, wordcount@, password@),
            ),
        ),
    ensures
        frame@ == protocol_frame(
            0x81,
            (single_read_payload(addr@, membank, wordcount@, password@).len() % 256) as u8,
            single_read_payload(addr@, membank, wordcount@, password@),
        ),
{
    let ghost payload = single_read_payload(addr@, membank, wordcount@, password@);
    let mut addr = addr;
    let mut wordcount = wordcount;
    let mut password = password;
    let mut buf: Vec<u8> = Vec::new();
    buf.push(membank);
    buf.append(&mut addr);
    buf.append(&mut wordcount);
    buf.append(&mut password);
    assert(buf@ =~= payload);
    let len = buf.len() as u8;
    proof {
        lemma_len_byte(buf@.len() as usize);
    }
    send_protocol_data(0x81, len, buf)
}

/// Frame of the custom-session inventory command (0x8A): session 1, then
/// the given round count, mode and length.
pub fn send_custom_inventory_command(round: u8, mode: u8, len: u8) -> (frame: Vec<u8>)
    requires
        checksum_defined(frame_head(0x8A, 4, seq![1u8, round, mode, len])),
    ensures
        frame@ == protocol_frame(0x8A, 4, seq![1u8, round, mode, len]),
{
    let buf: Vec<u8> = vec![0x01, round, mode, len];
    assert(buf@ =~= seq![1u8, round, mode, len]);
    let n = buf.len() as u8;
    send_protocol_data(0x8A, n, buf)
}

/// The data of the set-select command: select on the EPC bank from bit
/// 0x20, with a mask of `8 * epc.len()` bits (taken modulo 256) that is the
/// EPC itself.
pub open spec fn select_payload(epc: Seq<u8>) -> Seq<u8> {
    seq![0x01u8, 0x41u8, 0x00u8, 0x00u8, 0x00u8, 0x20u8, ((epc.len() * 8) % 256) as u8, 0x01u8] + epc
}

/// The select command for an EPC of `n` bytes can be built: the bit count
/// `8 * n` fits in a `usize`, and the data length, taken modulo 256, leaves
/// room for the frame's length byte.
pub open spec fn select_fits(n: nat) -> bool {
    &&& n * 8 <= usize::MAX
    &&& (8 + n) % 256 <= 251
}

/// The data of the set-select command for `epc` (see `select_payload`).
pub fn select_data(epc: &Vec<u8>) -> (data: Vec<u8>)
    requires
        epc@.len() * 8 <= usize::MAX,
    ensures
        data@ == select_payload(epc@),
{
    let bits: usize = epc.len() * 8;
    let len: u8 = (bits % 256) as u8;
    let mut buf: Vec<u8> = vec![0x01, 0x41, 0x00, 0x00, 0x00, 0x20, len, 0x01];
    let mut i: usize = 0;
    while i < epc.len()
        invariant
            i <= epc@.len(),
            len == (epc@.len() * 8) % 256,
            buf@ == seq![0x01u8, 0x41u8, 0x00u8, 0x00u8, 0x00u8, 0x20u8, len, 0x01u8] + epc@.take(i as int),
        decreases epc@.len() - i,
    {
        buf.push(epc[i]);
        i = i + 1;
        assert(buf@ =~= seq![0x01u8, 0x41u8, 0x00u8, 0x00u8, 0x00u8, 0x20u8, len, 0x01u8] + epc@.take(i as int));
    }
    assert(buf@ =~= select_payload(epc@));
    buf
}

/// Frame of the set-select command (0x8D) for `epc`.
pub fn send_set_select_command(epc: Vec<u8>) -> (frame: Vec<u8>)
    requires
        select_fits(epc@.len()),
        checksum_defined(frame_head(0x8D, (select_payload(epc@).len() % 256) as u8, select_payload(epc@))),
    ensures
        frame@ == protocol_frame(0x8D, (select_payload(epc@).len() % 256) as u8, select_payload(epc@)),
{
    let buf = select_data(&epc);
    let n = buf.len() as u8;
    proof {
        lemma_len_byte(buf@.len() as usize);
    }
    send_protocol_data(0x8D, n, buf)
}

/// Frame of the set-session command (0x5B): session 2, target 0.
pub fn send_set_session_command() -> (frame: Vec<u8>)
    ensures
        frame@ == protocol_frame(0x5B, 2, seq![0x02u8, 0x00u8]),
{
    let buf: Vec<u8> = vec![0x02, 0x00];
    assert(buf@ =~= seq![0x02u8, 0x00u8]);
    let n = buf.len() as u8;
    proof {
        lemma_head_sum(0x5B, 2, buf@);
        lemma_len_byte(buf@.len() as usize);
        assert(buf@ =~= Seq::<u8>::empty().push(2).push(0));
        assert(byte_sum(Seq::<u8>::empty()) == 0);
    }
    send_protocol_data(0x5B, n, buf)
}

} // verus!
