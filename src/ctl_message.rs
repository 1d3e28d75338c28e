//! Control messages: `type ∥ body ∥ xor-checksum`, at most 20 bytes long.

use vstd::prelude::*;

use vstd::utf8::{decode_utf8, valid_utf8};

use crate::bytes::{append_all, copy_range};

verus! {

/// Largest body a control frame can carry (20 bytes minus type and checksum).
pub const MAX_BODY_LEN: usize = 18;

#[derive(Debug, PartialEq, Eq, Clone, Copy, Structural)]
pub enum ControlMessageType {
    /// Returns a device identifier
    DbgCmd,
    /// Interrupts the current transfer (host to device), or reports the device idle
    Idle,
    /// Request a file from the device; the file follows over YMODEM
    RequestReturn,
    /// Successful reply to `RequestReturn`
    Returning,
    /// Send a file to the device; the file follows over YMODEM
    RequestSend,
    /// Successful reply to `RequestSend`
    Accept,
    /// Ask for free space
    RequestCap,
    /// Successful reply to `RequestCap`
    ReturnCap,
    /// Delete a file
    RequestDel,
    /// Successful reply to `RequestDel`
    DelSuccess,
    /// Always answered with `ErrVali`
    RequestDetail,
    /// Stop the current transfer
    RequestStop,
    ErrVali,
    ErrNoFile,
    ErrMemory,
    ErrStatus,
    ErrDecode,
    /// Set the clock
    TimeSet,
    /// Successful reply to `TimeSet`
    TimeSetRtn,
    RequestMga,
    ReturnMga,
    StatusAct,
    /// Factory reset
    RequestClr,
    /// Successful reply to `RequestClr`
    ReturnClr,
    /// Reboot into DFU mode
    DfuEnter,
    /// Ask for the transfer status
    StatusReturn,
}

/// The wire byte of each message type.
pub open spec fn type_byte(t: ControlMessageType) -> u8 {
    match t {
        ControlMessageType::DbgCmd => 0x00,
        ControlMessageType::Idle => 0x04,
        ControlMessageType::RequestReturn => 0x05,
        ControlMessageType::Returning => 0x06,
        ControlMessageType::RequestSend => 0x07,
        ControlMessageType::Accept => 0x08,
        ControlMessageType::RequestCap => 0x09,
        ControlMessageType::ReturnCap => 0x0A,
        ControlMessageType::RequestDel => 0x0D,
        ControlMessageType::DelSuccess => 0x0E,
        ControlMessageType::RequestDetail => 0x0F,
        ControlMessageType::RequestStop => 0x1F,
        ControlMessageType::ErrVali => 0x11,
        ControlMessageType::ErrNoFile => 0x12,
        ControlMessageType::ErrMemory => 0x13,
        ControlMessageType::ErrStatus => 0x14,
        ControlMessageType::ErrDecode => 0x15,
        ControlMessageType::TimeSet => 0x54,
        ControlMessageType::TimeSetRtn => 0x55,
        ControlMessageType::RequestMga => 0x77,
        ControlMessageType::ReturnMga => 0x78,
        ControlMessageType::StatusAct => 0xAC,
        ControlMessageType::RequestClr => 0xCC,
        ControlMessageType::ReturnClr => 0xCD,
        ControlMessageType::DfuEnter => 0xDF,
        ControlMessageType::StatusReturn => 0xFF,
    }
}

/// The message type whose wire byte is `b`, if any.
pub open spec fn type_from_byte(b: u8) -> Option<ControlMessageType> {
    if exists|t: ControlMessageType| type_byte(t) == b {
        Some(choose|t: ControlMessageType| type_byte(t) == b)
    } else {
        None
    }
}

/// Two message types never share a wire byte.
pub proof fn lemma_type_byte_injective(a: ControlMessageType, b: ControlMessageType)
    ensures
        type_byte(a) == type_byte(b) ==> a == b,
{
}

/// Reading back the byte of a type gives the type.
pub proof fn lemma_type_from_type_byte(t: ControlMessageType)
    ensures
        type_from_byte(type_byte(t)) == Some(t),
{
    let b = type_byte(t);
    assert(type_byte(t) == b);
    let c = choose|c: ControlMessageType| type_byte(c) == b;
    lemma_type_byte_injective(c, t);
}

impl ControlMessageType {
    /// The wire byte of this type.
    pub fn to_byte(self) -> (r: u8)
        ensures
            r == type_byte(self),
    {
        match self {
            ControlMessageType::DbgCmd => 0x00,
            ControlMessageType::Idle => 0x04,
            ControlMessageType::RequestReturn => 0x05,
            ControlMessageType::Returning => 0x06,
            ControlMessageType::RequestSend => 0x07,
            ControlMessageType::Accept => 0x08,
            ControlMessageType::RequestCap => 0x09,
            ControlMessageType::ReturnCap => 0x0A,
            ControlMessageType::RequestDel => 0x0D,
            ControlMessageType::DelSuccess => 0x0E,
            ControlMessageType::RequestDetail => 0x0F,
            ControlMessageType::RequestStop => 0x1F,
            ControlMessageType::ErrVali => 0x11,
            ControlMessageType::ErrNoFile => 0x12,
            ControlMessageType::ErrMemory => 0x13,
            ControlMessageType::ErrStatus => 0x14,
            ControlMessageType::ErrDecode => 0x15,
            ControlMessageType::TimeSet => 0x54,
            ControlMessageType::TimeSetRtn => 0x55,
            ControlMessageType::RequestMga => 0x77,
            ControlMessageType::ReturnMga => 0x78,
            ControlMessageType::StatusAct => 0xAC,
            ControlMessageType::RequestClr => 0xCC,
            ControlMessageType::ReturnClr => 0xCD,
            ControlMessageType::DfuEnter => 0xDF,
            ControlMessageType::StatusReturn => 0xFF,
        }
    }

    /// The type a wire byte names, if any.
    pub fn from_byte(b: u8) -> (r: Option<ControlMessageType>)
        ensures
            r == type_from_byte(b),
    {
        let r = match b {
            0x00 => Some(ControlMessageType::DbgCmd),
            0x04 => Some(ControlMessageType::Idle),
            0x05 => Some(ControlMessageType::RequestReturn),
            0x06 => Some(ControlMessageType::Returning),
            0x07 => Some(ControlMessageType::RequestSend),
            0x08 => Some(ControlMessageType::Accept),
            0x09 => Some(ControlMessageType::RequestCap),
            0x0A => Some(ControlMessageType::ReturnCap),
            0x0D => Some(ControlMessageType::RequestDel),
            0x0E => Some(ControlMessageType::DelSuccess),
            0x0F => Some(ControlMessageType::RequestDetail),
            0x1F => Some(ControlMessageType::RequestStop),
            0x11 => Some(ControlMessageType::ErrVali),
            0x12 => Some(ControlMessageType::ErrNoFile),
            0x13 => Some(ControlMessageType::ErrMemory),
            0x14 => Some(ControlMessageType::ErrStatus),
            0x15 => Some(ControlMessageType::ErrDecode),
            0x54 => Some(ControlMessageType::TimeSet),
            0x55 => Some(ControlMessageType::TimeSetRtn),
            0x77 => Some(ControlMessageType::RequestMga),
            0x78 => Some(ControlMessageType::ReturnMga),
            0xAC => Some(ControlMessageType::StatusAct),
            0xCC => Some(ControlMessageType::RequestClr),
            0xCD => Some(ControlMessageType::ReturnClr),
            0xDF => Some(ControlMessageType::DfuEnter),
            0xFF => Some(ControlMessageType::StatusReturn),
            _ => None,
        };
        proof {
            match r {
                Some(t) => {
                    assert(type_byte(t) == b);
                    lemma_type_from_type_byte(t);
                },
                None => {
                    assert forall|t: ControlMessageType| type_byte(t) != b by {}
                },
            }
        }
        r
    }
}

/// XOR of all bytes of `s`.
pub open spec fn xor_all(s: Seq<u8>) -> u8
    decreases s.len(),
{
    if s.len() == 0 {
        0
    } else {
        xor_all(s.drop_last()) ^ s.last()
    }
}

/// The frame that carries type byte `t` and `body`.
pub open spec fn encode_frame(t: u8, body: Seq<u8>) -> Seq<u8> {
    seq![t] + body + seq![xor_all(seq![t] + body)]
}

/// What decoding `buf` gives: its type and its body, or why it is refused.
pub open spec fn decode_frame(buf: Seq<u8>) -> Result<(ControlMessageType, Seq<u8>), FrameError> {
    if buf.len() < 2 {
        Err(FrameError::TooShort)
    } else if xor_all(buf.drop_last()) != buf.last() {
        Err(FrameError::BadChecksum { expected: xor_all(buf.drop_last()), got: buf.last() })
    } else {
        match type_from_byte(buf[0]) {
            Some(t) => Ok((t, buf.subrange(1, buf.len() - 1))),
            None => Err(FrameError::UnknownType(buf[0])),
        }
    }
}

/// Why a control frame could not be encoded or decoded.
#[derive(Debug, PartialEq, Eq, Clone, Copy, Structural)]
pub enum FrameError {
    /// Fewer than two bytes: no room for a type and a checksum
    TooShort,
    /// The last byte is not the XOR of the others
    BadChecksum { expected: u8, got: u8 },
    /// The type byte names no known message type
    UnknownType(u8),
    /// The body does not fit in a 20-byte frame
    BodyTooLong,
}

/// XOR of all bytes of `buf`.
pub fn partial_checksum(buf: &[u8]) -> (r: u8)
    ensures
        r == xor_all(buf@),
{
    assert(buf@.subrange(0, buf@.len() as int) =~= buf@);
    checksum_prefix(buf, buf.len())
}

/// XOR of the first `n` bytes of `buf`.
fn checksum_prefix(buf: &[u8], n: usize) -> (r: u8)
    requires
        n <= buf@.len(),
    ensures
        r == xor_all(buf@.subrange(0, n as int)),
{
    let mut acc: u8 = 0;
    let mut i: usize = 0;
    while i < n
        invariant
            i <= n <= buf@.len(),
            acc == xor_all(buf@.subrange(0, i as int)),
        decreases n - i,
    {
        assert(buf@.subrange(0, i + 1).drop_last() =~= buf@.subrange(0, i as int));
        acc = acc ^ buf[i];
        i = i + 1;
    }
    acc
}

/// A decoded control message.
#[derive(Debug, Clone, PartialEq, Eq)]
pub struct RawControlMessage {
    pub msg_type: ControlMessageType,
    pub body: Vec<u8>,
}


/// The type and body a decoded message holds, or the decoding error.
pub open spec fn decoded_model(r: Result<RawControlMessage, FrameError>) -> Result<(ControlMessageType, Seq<u8>), FrameError> {
    match r {
        Ok(m) => Ok((m.msg_type, m.body@)),
        Err(e) => Err(e),
    }
}

impl RawControlMessage {
    /// Decodes one control frame.
    pub fn read(buf: &[u8]) -> (r: Result<RawControlMessage, FrameError>)
        ensures
            decoded_model(r) == decode_frame(buf@),
    {
        let len = buf.len();
        if len < 2 {
            return Err(FrameError::TooShort);
        }
        let expected = checksum_prefix(buf, len - 1);
        assert(buf@.subrange(0, len - 1) =~= buf@.drop_last());
        let got = buf[len - 1];
        if expected != got {
            return Err(FrameError::BadChecksum { expected, got });
        }
        match ControlMessageType::from_byte(buf[0]) {
            None => Err(FrameError::UnknownType(buf[0])),
            Some(msg_type) => {
                let body = copy_range(buf, 1, len - 1);
                Ok(RawControlMessage { msg_type, body })
            },
        }
    }

    /// Encodes the message as a frame; a body over 18 bytes does not fit.
    pub fn write(&self) -> (r: Result<Vec<u8>, FrameError>)
        ensures
            self.body@.len() > MAX_BODY_LEN ==> r == Err::<Vec<u8>, FrameError>(FrameError::BodyTooLong),
            self.body@.len() <= MAX_BODY_LEN ==> (r matches Ok(v) && v@ == encode_frame(
                type_byte(self.msg_type),
                self.body@,
            )),
    {
        if self.body.len() > MAX_BODY_LEN {
            return Err(FrameError::BodyTooLong);
        }
        let mut out: Vec<u8> = Vec::with_capacity(self.body.len() + 2);
        out.push(self.msg_type.to_byte());
        append_all(&mut out, self.body.as_slice());
        let checksum = partial_checksum(out.as_slice());
        out.push(checksum);
        Ok(out)
    }
}


proof fn lemma_xor_push(s: Seq<u8>, x: u8)
    ensures
        xor_all(s.push(x)) == xor_all(s) ^ x,
{
    assert(s.push(x).drop_last() =~= s);
}

/// The XOR of all bytes of an encoded frame, checksum included, is zero.
pub proof fn lemma_encoded_frame_xor_zero(t: u8, body: Seq<u8>)
    ensures
        xor_all(encode_frame(t, body)) == 0,
{
    let p = seq![t] + body;
    let c = xor_all(p);
    assert(encode_frame(t, body) =~= p.push(c));
    lemma_xor_push(p, c);
    assert(c ^ c == 0) by (bit_vector);
}

/// Decoding the frame of a type and a body gives back that type and body.
pub proof fn lemma_decode_encode(t: ControlMessageType, body: Seq<u8>)
    ensures
        decode_frame(encode_frame(type_byte(t), body)) == Ok::<(ControlMessageType, Seq<u8>), FrameError>((t, body)),
{
    let f = encode_frame(type_byte(t), body);
    let p = seq![type_byte(t)] + body;
    assert(f.drop_last() =~= p);
    assert(f[0] == type_byte(t));
    lemma_type_from_type_byte(t);
    assert(f.subrange(1, f.len() - 1) =~= body);
}

/// Encoding what a valid frame decodes to gives back the frame, byte for byte.
pub proof fn lemma_encode_decode(buf: Seq<u8>)
    requires
        decode_frame(buf) is Ok,
    ensures
        encode_frame(type_byte(decode_frame(buf)->Ok_0.0), decode_frame(buf)->Ok_0.1) == buf,
{
    let t = decode_frame(buf)->Ok_0.0;
    let body = decode_frame(buf)->Ok_0.1;
    assert(type_byte(t) == buf[0]);
    assert(buf.drop_last() =~= seq![buf[0]] + body);
    assert(encode_frame(type_byte(t), body) =~= buf);
}

/// What `String::from_utf8_lossy` makes of a byte sequence.
pub uninterp spec fn utf8_lossy(b: Seq<u8>) -> Seq<char>;

/// Relies on `String::from_utf8_lossy`: text of the bytes, valid UTF-8 decoded unchanged.
#[verifier::external_body]
fn text_of(b: &[u8]) -> (r: String)
    ensures
        r@ == utf8_lossy(b@),
        valid_utf8(b@) ==> r@ == decode_utf8(b@),
{
    String::from_utf8_lossy(b).into_owned()
}

/// An error that the device reported in place of a reply.
#[derive(Debug, PartialEq, Eq, Clone)]
pub enum ControlError {
    /// The command did not validate
    Validation,
    /// No such file; the device names it
    NoFile(String),
    /// The device is out of memory
    NoMemory,
    /// A transfer is in a state that does not allow the command
    InvalidTransactionStatus,
    /// A file is in a state that does not allow the command
    InvalidFileStatus(String),
    /// The device could not decode a JSON file
    DecodeFailed(String),
}

/// Whether a message of type `t` reports an error.
pub open spec fn is_error_type(t: ControlMessageType) -> bool {
    match t {
        ControlMessageType::ErrVali => true,
        ControlMessageType::ErrNoFile => true,
        ControlMessageType::ErrMemory => true,
        ControlMessageType::ErrStatus => true,
        ControlMessageType::ErrDecode => true,
        _ => false,
    }
}

/// Whether `e` is the error that a message of type `t` with `body` reports.
/// Whether `text` is what an error reply carrying `body` reports: the lossy
/// decoding of the body, which for valid UTF-8 is exactly the body's text.
pub open spec fn text_matches(body: Seq<u8>, text: Seq<char>) -> bool {
    &&& text == utf8_lossy(body)
    &&& valid_utf8(body) ==> text == decode_utf8(body)
}

pub open spec fn device_error_of(t: ControlMessageType, body: Seq<u8>, e: ControlError) -> bool {
    match t {
        ControlMessageType::ErrVali => e == ControlError::Validation,
        ControlMessageType::ErrNoFile => e matches ControlError::NoFile(s) && text_matches(body, s@),
        ControlMessageType::ErrMemory => e == ControlError::NoMemory,
        ControlMessageType::ErrStatus => if body == seq![0u8] {
            e == ControlError::InvalidTransactionStatus
        } else {
            e matches ControlError::InvalidFileStatus(s) && text_matches(body, s@)
        },
        ControlMessageType::ErrDecode => e matches ControlError::DecodeFailed(s) && text_matches(body, s@),
        _ => false,
    }
}

/// Why a reply was not the one that was expected.
#[derive(Debug, PartialEq, Eq, Clone)]
pub enum ReplyError {
    /// The device reported an error
    Device(ControlError),
    /// The device replied with another message type
    UnexpectedType { expected: ControlMessageType, got: ControlMessageType },
}

impl RawControlMessage {
    /// Turns an error reply into the error it reports; other messages pass through.
    pub fn into_result(self) -> (r: Result<RawControlMessage, ControlError>)
        ensures
            !is_error_type(self.msg_type) ==> r == Ok::<RawControlMessage, ControlError>(self),
            is_error_type(self.msg_type) ==> (r matches Err(e) && device_error_of(
                self.msg_type,
                self.body@,
                e,
            )),
    {
        match self.msg_type {
            ControlMessageType::ErrVali => Err(ControlError::Validation),
            ControlMessageType::ErrNoFile => Err(ControlError::NoFile(text_of(self.body.as_slice()))),
            ControlMessageType::ErrMemory => Err(ControlError::NoMemory),
            ControlMessageType::ErrStatus => {
                if self.body.len() == 1 && self.body[0] == 0 {
                    assert(self.body@ =~= seq![0u8]);
                    Err(ControlError::InvalidTransactionStatus)
                } else {
                    Err(ControlError::InvalidFileStatus(text_of(self.body.as_slice())))
                }
            },
            ControlMessageType::ErrDecode => Err(ControlError::DecodeFailed(text_of(self.body.as_slice()))),
            _ => Ok(self),
        }
    }

    /// The body of the message if it is a non-error reply of type `ty`.
    pub fn expect_ok(self, ty: ControlMessageType) -> (r: Result<Vec<u8>, ReplyError>)
        ensures
            is_error_type(self.msg_type) ==> (r matches Err(ReplyError::Device(e)) && device_error_of(
                self.msg_type,
                self.body@,
                e,
            )),
            !is_error_type(self.msg_type) && self.msg_type == ty ==> (r matches Ok(b) && b@ == self.body@),
            !is_error_type(self.msg_type) && self.msg_type != ty ==> r == Err::<Vec<u8>, ReplyError>(
                ReplyError::UnexpectedType { expected: ty, got: self.msg_type },
            ),
    {
        match self.into_result() {
            Err(e) => Err(ReplyError::Device(e)),
            Ok(m) => {
                if m.msg_type == ty {
                    Ok(m.body)
                } else {
                    Err(ReplyError::UnexpectedType { expected: ty, got: m.msg_type })
                }
            },
        }
    }
}

} // verus!
