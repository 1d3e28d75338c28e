//! YMODEM-style blocks as this device frames them:
//! `start ∥ seq ∥ seq⊕0xFF ∥ data(128|1024) ∥ crc16_arc_be(data)`.

use vstd::prelude::*;
use vstd::string::StringSliceAdditionalSpecFns;
use vstd::utf8::{decode_utf8, valid_utf8};

use crate::bytes::{append_all, copy_range, push_zeros};
use crate::crc::{crc16_arc, crc16_arc_of};
use crate::decimal::{
    all_digits, decimal_digits, is_digit, lemma_decimal_digits, parse_u64, parse_unsigned, push_decimal,
};

verus! {

pub const SOH: u8 = 0x01;
pub const STX: u8 = 0x02;
pub const EOT: u8 = 0x04;
pub const ACK: u8 = 0x06;
pub const NAK: u8 = 0x15;
pub const CAN: u8 = 0x18;
/// The receiver's request for a CRC-checked transfer.
pub const CRC_REQUEST: u8 = 0x43;

pub const MAX_PACKET_SIZE: usize = 1029;
pub const SMALL_DATA_SIZE: usize = 128;
pub const LARGE_DATA_SIZE: usize = 1024;

/// Why a transfer step failed.
#[derive(Debug, PartialEq, Eq, Clone, Copy, Structural)]
pub enum Error {
    /// The first byte of a block is neither SOH nor STX
    InvalidStart,
    /// The block is not as long as its start byte says
    InvalidLength,
    /// The sequence byte does not match its complement, or is not the one expected
    InvalidSeq,
    /// The CRC of the data does not match the block's
    InvalidCrc,
    /// The header block does not hold a UTF-8 name and a decimal size
    InvalidHeader,
    /// `name SPACE size` does not fit in a 128-byte header block
    FilenameTooLong,
    /// The peer sent another byte than the protocol calls for
    UnexpectedByte { expected: u8, got: u8 },
}

/// Data length announced by a start byte.
pub open spec fn data_len_of(start: u8) -> Option<int> {
    if start == SOH {
        Some(SMALL_DATA_SIZE as int)
    } else if start == STX {
        Some(LARGE_DATA_SIZE as int)
    } else {
        None
    }
}

pub open spec fn valid_data_len(n: nat) -> bool {
    n == SMALL_DATA_SIZE || n == LARGE_DATA_SIZE
}

/// Start byte for a block of `n` data bytes.
pub open spec fn start_byte_for(n: nat) -> u8 {
    if n == SMALL_DATA_SIZE {
        SOH
    } else {
        STX
    }
}

/// The wire form of a block.
pub open spec fn packet_bytes(seq: u8, data: Seq<u8>) -> Seq<u8> {
    let crc = crc16_arc(data);
    seq![start_byte_for(data.len()), seq, seq ^ 0xff] + data + seq![(crc >> 8) as u8, crc as u8]
}

/// The 16-bit big-endian value of two bytes.
pub open spec fn be16(hi: u8, lo: u8) -> u16 {
    ((hi as u16) << 8) | (lo as u16)
}

/// What parsing `raw` as one block gives: its sequence number and data.
pub open spec fn parse_packet(raw: Seq<u8>) -> Result<(u8, Seq<u8>), Error> {
    if raw.len() < 2 {
        Err(Error::InvalidLength)
    } else {
        match data_len_of(raw[0]) {
            None => Err(Error::InvalidStart),
            Some(n) => if raw.len() != n + 5 {
                Err(Error::InvalidLength)
            } else if raw[1] != raw[2] ^ 0xff {
                Err(Error::InvalidSeq)
            } else if be16(raw[n + 3], raw[n + 4]) != crc16_arc(raw.subrange(3, n + 3)) {
                Err(Error::InvalidCrc)
            } else {
                Ok((raw[1], raw.subrange(3, n + 3)))
            },
        }
    }
}

/// One block: its sequence number and its 128 or 1024 data bytes.
#[derive(Debug, Clone, PartialEq, Eq)]
pub struct YModemPacket {
    pub seq: u8,
    pub data: Vec<u8>,
}

/// The sequence number and data a parsed block holds, or the parse error.
pub open spec fn packet_model(r: Result<YModemPacket, Error>) -> Result<(u8, Seq<u8>), Error> {
    match r {
        Ok(p) => Ok((p.seq, p.data@)),
        Err(e) => Err(e),
    }
}

impl YModemPacket {
    pub open spec fn wf(&self) -> bool {
        valid_data_len(self.data@.len())
    }

    pub fn new(seq: u8, data: Vec<u8>) -> (r: YModemPacket)
        requires
            valid_data_len(data@.len()),
        ensures
            r.seq == seq,
            r.data@ == data@,
            r.wf(),
    {
        YModemPacket { seq, data }
    }

    /// Data length that a start byte announces.
    pub fn data_len(start_byte: u8) -> (r: Result<usize, Error>)
        ensures
            r matches Ok(n) ==> data_len_of(start_byte) == Some(n as int),
            r is Err ==> data_len_of(start_byte) is None && r == Err::<usize, Error>(Error::InvalidStart),
    {
        if start_byte == SOH {
            Ok(SMALL_DATA_SIZE)
        } else if start_byte == STX {
            Ok(LARGE_DATA_SIZE)
        } else {
            Err(Error::InvalidStart)
        }
    }

    pub fn start_byte(&self) -> (r: u8)
        requires
            self.wf(),
        ensures
            r == start_byte_for(self.data@.len()),
    {
        if self.data.len() == SMALL_DATA_SIZE {
            SOH
        } else {
            STX
        }
    }

    /// Parses one block, checking its length, sequence complement and CRC.
    pub fn parse(raw: &[u8]) -> (r: Result<YModemPacket, Error>)
        ensures
            packet_model(r) == parse_packet(raw@),
            r matches Ok(p) ==> p.wf(),
    {
        if raw.len() < 2 {
            return Err(Error::InvalidLength);
        }
        let n = match Self::data_len(raw[0]) {
            Ok(n) => n,
            Err(e) => return Err(e),
        };
        if raw.len() != n + 5 {
            return Err(Error::InvalidLength);
        }
        let seq = raw[1];
        let seq_inv = raw[2];
        if seq != seq_inv ^ 0xff {
            return Err(Error::InvalidSeq);
        }
        let data = copy_range(raw, 3, n + 3);
        let crc = ((raw[n + 3] as u16) << 8) | (raw[n + 4] as u16);
        let crc_calc = crc16_arc_of(data.as_slice());
        if crc != crc_calc {
            return Err(Error::InvalidCrc);
        }
        Ok(YModemPacket { seq, data })
    }

    /// The block's wire form.
    pub fn serialize(&self) -> (r: Vec<u8>)
        requires
            self.wf(),
        ensures
            r@ == packet_bytes(self.seq, self.data@),
    {
        let crc = crc16_arc_of(self.data.as_slice());
        let mut out: Vec<u8> = Vec::with_capacity(self.data.len() + 5);
        out.push(self.start_byte());
        out.push(self.seq);
        out.push(self.seq ^ 0xff);
        append_all(&mut out, self.data.as_slice());
        out.push((crc >> 8) as u8);
        out.push(crc as u8);
        assert(out@ =~= packet_bytes(self.seq, self.data@));
        out
    }
}

/// A block parses back to the sequence number and data it was made from, and
/// the CRC it carries is the CRC-16/ARC of the data.
pub proof fn lemma_packet_round_trip(seq: u8, data: Seq<u8>)
    requires
        valid_data_len(data.len()),
    ensures
        parse_packet(packet_bytes(seq, data)) == Ok::<(u8, Seq<u8>), Error>((seq, data)),
        be16(packet_bytes(seq, data)[data.len() + 3int], packet_bytes(seq, data)[data.len() + 4int])
            == crc16_arc(data),
{
    let raw = packet_bytes(seq, data);
    let n = data.len() as int;
    let crc = crc16_arc(data);
    assert(data_len_of(raw[0]) == Some(n));
    assert(seq == (seq ^ 0xff) ^ 0xff) by (bit_vector);
    assert(raw.subrange(3, n + 3) =~= data);
    assert(raw[n + 3] == (crc >> 8) as u8);
    assert(raw[n + 4] == crc as u8);
    assert(be16((crc >> 8) as u8, crc as u8) == crc) by (bit_vector);
}


pub open spec fn is_header_separator(b: u8) -> bool {
    b == 0 || b == 0x20
}

/// The non-empty runs of `s[i..]` between NUL and space bytes, after the finished
/// runs `acc` and the run `cur` in progress.
pub open spec fn tokens_from(s: Seq<u8>, i: int, cur: Seq<u8>, acc: Seq<Seq<u8>>) -> Seq<Seq<u8>>
    decreases s.len() - i,
{
    if i >= s.len() {
        if cur.len() > 0 {
            acc.push(cur)
        } else {
            acc
        }
    } else if is_header_separator(s[i]) {
        tokens_from(s, i + 1, seq![], if cur.len() > 0 { acc.push(cur) } else { acc })
    } else {
        tokens_from(s, i + 1, cur.push(s[i]), acc)
    }
}

/// The non-empty runs of `s` between NUL and space bytes.
pub open spec fn header_tokens(s: Seq<u8>) -> Seq<Seq<u8>> {
    tokens_from(s, 0, seq![], seq![])
}

/// What a header block's data describes: the first token is the name, the second
/// the decimal size; a missing name is empty and a missing size is zero.
pub open spec fn parse_header(data: Seq<u8>) -> Result<(Seq<char>, nat), Error> {
    let t = header_tokens(data);
    if t.len() >= 1 && !valid_utf8(t[0]) {
        Err(Error::InvalidHeader)
    } else if t.len() >= 2 && parse_unsigned(t[1], 0x1_0000_0000_0000_0000) is None {
        Err(Error::InvalidHeader)
    } else {
        Ok(
            (
                if t.len() >= 1 { decode_utf8(t[0]) } else { Seq::empty() },
                if t.len() >= 2 { parse_unsigned(t[1], 0x1_0000_0000_0000_0000)->Some_0 } else { 0 },
            ),
        )
    }
}

/// Relies on `String::from_utf8`: the decoded text exactly when the bytes are UTF-8.
#[verifier::external_body]
fn utf8_string(b: Vec<u8>) -> (r: Option<String>)
    ensures
        r is Some <==> valid_utf8(b@),
        r matches Some(s) ==> s@ == decode_utf8(b@),
{
    String::from_utf8(b).ok()
}

/// The name and size that the header block of a transfer announces.
#[derive(Debug, Clone, PartialEq, Eq)]
pub struct YModemHeader {
    pub name: String,
    pub size: u64,
}

impl YModemHeader {
    pub fn parse(packet: &YModemPacket) -> (r: Result<YModemHeader, Error>)
        ensures
            match parse_header(packet.data@) {
                Ok((name, size)) => r matches Ok(h) && h.name@ == name && h.size as nat == size,
                Err(e) => r == Err::<YModemHeader, Error>(e),
            },
    {
        let data = packet.data.as_slice();
        let ghost s = data@;
        let mut first: Vec<u8> = Vec::new();
        let mut second: Vec<u8> = Vec::new();
        let mut count: usize = 0;
        let mut cur: Vec<u8> = Vec::new();
        let ghost mut acc: Seq<Seq<u8>> = seq![];
        let mut i: usize = 0;
        while i < data.len()
            invariant
                s == data@,
                i <= s.len(),
                count == acc.len(),
                count + cur@.len() <= i,
                acc.len() >= 1 ==> first@ == acc[0],
                acc.len() >= 2 ==> second@ == acc[1],
                tokens_from(s, i as int, cur@, acc) == header_tokens(s),
            decreases data.len() - i,
        {
            let b = data[i];
            if b == 0 || b == 0x20 {
                if cur.len() > 0 {
                    proof {
                        acc = acc.push(cur@);
                    }
                    if count == 0 {
                        first = cur;
                    } else if count == 1 {
                        second = cur;
                    }
                    count = count + 1;
                }
                cur = Vec::new();
            } else {
                cur.push(b);
            }
            i = i + 1;
        }
        if cur.len() > 0 {
            proof {
                acc = acc.push(cur@);
            }
            if count == 0 {
                first = cur;
            } else if count == 1 {
                second = cur;
            }
            count = count + 1;
        }
        assert(acc == header_tokens(s));
        let name = if count >= 1 {
            match utf8_string(first) {
                Some(n) => n,
                None => return Err(Error::InvalidHeader),
            }
        } else {
            String::new()
        };
        let size = if count >= 2 {
            assert(second@.subrange(0, second@.len() as int) =~= second@);
            match parse_u64(second.as_slice(), 0, second.len()) {
                Some(v) => v,
                None => return Err(Error::InvalidHeader),
            }
        } else {
            0
        };
        Ok(YModemHeader { name, size })
    }
}

/// `name SPACE size`, as a sender announces a file.
pub open spec fn header_text(name: Seq<u8>, size: nat) -> Seq<u8> {
    name + seq![0x20u8] + decimal_digits(size)
}

/// Data of the header block that announces `name` of `size` bytes: the text,
/// zero-padded to 128 bytes, or `FilenameTooLong` where it does not fit.
pub open spec fn header_block(name: Seq<u8>, size: nat) -> Result<Seq<u8>, Error> {
    let t = header_text(name, size);
    if t.len() > SMALL_DATA_SIZE {
        Err(Error::FilenameTooLong)
    } else {
        Ok(t + Seq::new((SMALL_DATA_SIZE - t.len()) as nat, |_i: int| 0u8))
    }
}

/// The data of the header block that announces `name` of `size` bytes.
pub fn header_data(name: &str, size: u64) -> (r: Result<Vec<u8>, Error>)
    ensures
        match header_block(name.spec_bytes(), size as nat) {
            Ok(b) => r matches Ok(v) && v@ == b,
            Err(e) => r == Err::<Vec<u8>, Error>(e),
        },
{
    let name_bytes = name.as_bytes();
    if name_bytes.len() >= SMALL_DATA_SIZE {
        proof {
            assert(header_text(name.spec_bytes(), size as nat).len() > SMALL_DATA_SIZE);
        }
        return Err(Error::FilenameTooLong);
    }
    let mut out: Vec<u8> = Vec::with_capacity(SMALL_DATA_SIZE);
    append_all(&mut out, name_bytes);
    out.push(0x20);
    push_decimal(&mut out, size);
    assert(out@ =~= header_text(name.spec_bytes(), size as nat));
    if out.len() > SMALL_DATA_SIZE {
        return Err(Error::FilenameTooLong);
    }
    let pad = SMALL_DATA_SIZE - out.len();
    push_zeros(&mut out, pad);
    Ok(out)
}


proof fn lemma_tokens_run(s: Seq<u8>, i: int, j: int, cur: Seq<u8>, acc: Seq<Seq<u8>>)
    requires
        0 <= i <= j <= s.len(),
        forall|k: int| i <= k < j ==> !is_header_separator(#[trigger] s[k]),
    ensures
        tokens_from(s, i, cur, acc) == tokens_from(s, j, cur + s.subrange(i, j), acc),
    decreases j - i,
{
    if i < j {
        lemma_tokens_run(s, i + 1, j, cur.push(s[i]), acc);
        assert(cur.push(s[i]) + s.subrange(i + 1, j) =~= cur + s.subrange(i, j));
    } else {
        assert(cur + s.subrange(i, j) =~= cur);
    }
}

proof fn lemma_tokens_tail(s: Seq<u8>, i: int, cur: Seq<u8>, acc: Seq<Seq<u8>>)
    requires
        0 <= i <= s.len(),
        forall|k: int| i <= k < s.len() ==> is_header_separator(#[trigger] s[k]),
    ensures
        tokens_from(s, i, cur, acc) == if cur.len() > 0 {
            acc.push(cur)
        } else {
            acc
        },
    decreases s.len() - i,
{
    if i < s.len() {
        lemma_tokens_tail(s, i + 1, seq![], if cur.len() > 0 { acc.push(cur) } else { acc });
    }
}

/// The header block a sender makes for a non-empty UTF-8 name without NUL or
/// space bytes is read back by a receiver as that name and size.
pub proof fn lemma_header_round_trip(name: Seq<u8>, size: u64)
    requires
        name.len() > 0,
        valid_utf8(name),
        forall|k: int| 0 <= k < name.len() ==> !is_header_separator(#[trigger] name[k]),
        header_block(name, size as nat) is Ok,
    ensures
        parse_header(header_block(name, size as nat)->Ok_0) == Ok::<(Seq<char>, nat), Error>(
            (decode_utf8(name), size as nat),
        ),
{
    let d = decimal_digits(size as nat);
    lemma_decimal_digits(size as nat);
    let t = header_text(name, size as nat);
    let s = header_block(name, size as nat)->Ok_0;
    let n = name.len() as int;
    let e = n + 1 + d.len();
    assert(s.subrange(0, t.len() as int) =~= t);
    assert forall|k: int| 0 <= k < n implies !is_header_separator(#[trigger] s[k]) by {
        assert(s[k] == name[k]);
    }
    lemma_tokens_run(s, 0, n, seq![], seq![]);
    assert(Seq::<u8>::empty() + s.subrange(0, n) =~= name);
    assert(s[n] == 0x20);
    assert forall|k: int| n + 1 <= k < e implies !is_header_separator(#[trigger] s[k]) by {
        assert(s[k] == d[k - n - 1]);
        assert(is_digit(d[k - n - 1]));
    }
    lemma_tokens_run(s, n + 1, e, seq![], seq![name]);
    assert(Seq::<u8>::empty() + s.subrange(n + 1, e) =~= d);
    lemma_tokens_tail(s, e, d, seq![name]);
    let tokens = header_tokens(s);
    assert(tokens =~= seq![name, d]);
}

} // verus!
