//! Device-session rules: what each operation sends, how its reply is read,
//! and what a failure leaves of the session.

use vstd::prelude::*;

use crate::bytes::bytes_eq;
use crate::ctl_message::{
    device_error_of, is_error_type, ControlError, ControlMessageType, FrameError,
    RawControlMessage, ReplyError,
};
use crate::decimal::{parse_u64, parse_unsigned};
use crate::model::HeaderJson;

verus! {

/// Free and total storage of the device, in KiB.
#[derive(Debug, Clone, Copy, PartialEq, Eq, Structural)]
pub struct MemoryCapacity {
    pub free_kb: u32,
    pub total_kb: u32,
}

/// Whether the device holds satellite assistance data, and until when.
#[derive(Debug, Clone, Copy, PartialEq, Eq, Structural)]
pub enum AssistedGnssState {
    MissingData,
    /// Valid until the given day, counted from 1970-01-01 (UTC)
    ValidUntil(u32),
}

/// Why an operation on the device failed.
#[derive(Debug, Clone, PartialEq, Eq)]
pub enum SessionError {
    /// A control frame could not be encoded or decoded
    Frame(FrameError),
    /// The device reported an error, or replied with another message type
    Reply(ReplyError),
    /// The reply body does not echo the request body
    EchoMismatch,
    /// The reply body does not have the form the operation expects
    InvalidReply,
    /// The file transfer failed
    Transfer(crate::ymodem::Error),
    /// No reply came in time
    Timeout,
    /// The BLE link failed
    Transport,
    /// The session was used after a fault it did not recover from
    SessionDead,
}

/// How long a reply to an ordinary control request may take.
pub const NORMAL_RESPONSE_TIMEOUT_MS: u64 = 1000;

/// How long the `Idle` that follows a file transfer may take.
pub const FILE_RESPONSE_TIMEOUT_MS: u64 = 10000;

/// How long the `Idle` that answers a recovery `RequestStop` may take.
pub const STOP_RESPONSE_TIMEOUT_MS: u64 = 5000;

pub const SLASH: u8 = 0x2F;

pub open spec fn is_first_slash(s: Seq<u8>, k: int) -> bool {
    &&& 0 <= k < s.len()
    &&& s[k] == SLASH
    &&& forall|j: int| 0 <= j < k ==> s[j] != SLASH
}

/// What a `ReturnCap` body `"<free>/<total>"` gives: both numbers, each below 2^32.
pub open spec fn capacity_of(body: Seq<u8>) -> Option<(nat, nat)> {
    if exists|k: int| is_first_slash(body, k) {
        let k = choose|k: int| is_first_slash(body, k);
        let free = parse_unsigned(body.subrange(0, k), 0x1_0000_0000);
        let total = parse_unsigned(body.subrange(k + 1, body.len() as int), 0x1_0000_0000);
        if free is Some && total is Some {
            Some((free->Some_0, total->Some_0))
        } else {
            None
        }
    } else {
        None
    }
}

proof fn lemma_parse_limits(s: Seq<u8>)
    ensures
        parse_unsigned(s, 0x1_0000_0000) is Some <==> (parse_unsigned(s, 0x1_0000_0000_0000_0000) is Some
            && parse_unsigned(s, 0x1_0000_0000_0000_0000)->Some_0 < 0x1_0000_0000),
        parse_unsigned(s, 0x1_0000_0000) is Some ==> parse_unsigned(s, 0x1_0000_0000)
            == parse_unsigned(s, 0x1_0000_0000_0000_0000),
{
}

fn parse_u32(s: &[u8], start: usize, end: usize) -> (r: Option<u32>)
    requires
        start <= end <= s@.len(),
    ensures
        r matches Some(v) ==> parse_unsigned(s@.subrange(start as int, end as int), 0x1_0000_0000) == Some(v as nat),
        r is None ==> parse_unsigned(s@.subrange(start as int, end as int), 0x1_0000_0000) is None,
{
    proof {
        lemma_parse_limits(s@.subrange(start as int, end as int));
    }
    match parse_u64(s, start, end) {
        Some(v) => if v <= 0xFFFF_FFFF {
            Some(v as u32)
        } else {
            None
        },
        None => None,
    }
}

/// Reads the body of a `ReturnCap` reply.
pub fn parse_memory_capacity(body: &[u8]) -> (r: Result<MemoryCapacity, SessionError>)
    ensures
        match capacity_of(body@) {
            Some((free, total)) => r matches Ok(c) && c.free_kb == free && c.total_kb == total,
            None => r == Err::<MemoryCapacity, SessionError>(SessionError::InvalidReply),
        },
{
    let mut k: usize = 0;
    while k < body.len() && body[k] != SLASH
        invariant
            k <= body@.len(),
            forall|j: int| 0 <= j < k ==> body@[j] != SLASH,
        decreases body.len() - k,
    {
        k = k + 1;
    }
    if k == body.len() {
        assert forall|m: int| !is_first_slash(body@, m) by {
            if is_first_slash(body@, m) {
                assert(body@[m] != SLASH);
            }
        }
        return Err(SessionError::InvalidReply);
    }
    assert(is_first_slash(body@, k as int));
    proof {
        let c = choose|c: int| is_first_slash(body@, c);
        if c < k {
            assert(body@[c] != SLASH);
        }
        if c > k {
            assert(body@[k as int] != SLASH);
        }
        assert(c == k);
    }
    let free = parse_u32(body, 0, k);
    let total = parse_u32(body, k + 1, body.len());
    match (free, total) {
        (Some(free_kb), Some(total_kb)) => Ok(MemoryCapacity { free_kb, total_kb }),
        _ => Err(SessionError::InvalidReply),
    }
}

/// The little-endian `u32` in four bytes.
pub open spec fn le32(b0: u8, b1: u8, b2: u8, b3: u8) -> nat {
    b0 as nat + b1 as nat * 256 + b2 as nat * 65536 + b3 as nat * 16777216
}

pub const SECONDS_PER_DAY: u32 = 86400;

/// What a `ReturnMga` body `01 00 ∥ u32_le unix-seconds` gives.
pub open spec fn gnss_state_of(body: Seq<u8>) -> Option<AssistedGnssState> {
    if body.len() != 6 || body[0] != 1 || body[1] != 0 {
        None
    } else {
        let t = le32(body[2], body[3], body[4], body[5]);
        if t == 0 {
            Some(AssistedGnssState::MissingData)
        } else {
            Some(AssistedGnssState::ValidUntil((t / SECONDS_PER_DAY as nat) as u32))
        }
    }
}

/// Reads the body of a `ReturnMga` reply.
pub fn parse_gnss_state(body: &[u8]) -> (r: Result<AssistedGnssState, SessionError>)
    ensures
        match gnss_state_of(body@) {
            Some(s) => r == Ok::<AssistedGnssState, SessionError>(s),
            None => r == Err::<AssistedGnssState, SessionError>(SessionError::InvalidReply),
        },
{
    if body.len() != 6 || body[0] != 1 || body[1] != 0 {
        return Err(SessionError::InvalidReply);
    }
    let t: u32 = body[2] as u32 + body[3] as u32 * 256 + body[4] as u32 * 65536 + body[5] as u32
        * 16777216;
    if t == 0 {
        Ok(AssistedGnssState::MissingData)
    } else {
        Ok(AssistedGnssState::ValidUntil(t / SECONDS_PER_DAY))
    }
}

/// The `TimeSet` body: unix seconds as a little-endian `u32`.
pub fn time_set_body(unix_time: u32) -> (r: Vec<u8>)
    ensures
        r@.len() == 4,
        le32(r@[0], r@[1], r@[2], r@[3]) == unix_time,
{
    let b0 = (unix_time % 256) as u8;
    let b1 = ((unix_time / 256) % 256) as u8;
    let b2 = ((unix_time / 65536) % 256) as u8;
    let b3 = (unix_time / 16777216) as u8;
    vec![b0, b1, b2, b3]
}

/// What a reply that should echo `request` with type `expected` comes to.
pub open spec fn echo_outcome(
    reply_type: ControlMessageType,
    reply_body: Seq<u8>,
    expected: ControlMessageType,
    request: Seq<u8>,
) -> Option<SessionError> {
    if is_error_type(reply_type) {
        None
    } else if reply_type != expected {
        Some(SessionError::Reply(ReplyError::UnexpectedType { expected, got: reply_type }))
    } else if reply_body != request {
        Some(SessionError::EchoMismatch)
    } else {
        None
    }
}

/// A reply that passes the echo check is of the expected type and carries
/// exactly the body of the request.
pub proof fn lemma_accepted_echo_is_request(
    reply_type: ControlMessageType,
    reply_body: Seq<u8>,
    expected: ControlMessageType,
    request: Seq<u8>,
)
    requires
        !is_error_type(reply_type),
        echo_outcome(reply_type, reply_body, expected, request) is None,
    ensures
        reply_type == expected,
        reply_body == request,
{
}

/// Checks a reply that must be of type `expected` and echo `request`.
pub fn check_echo(reply: RawControlMessage, expected: ControlMessageType, request: &[u8]) -> (r:
    Result<(), SessionError>)
    ensures
        r is Ok <==> (!is_error_type(reply.msg_type) && reply.msg_type == expected && reply.body@
            == request@),
        is_error_type(reply.msg_type) ==> (r matches Err(SessionError::Reply(ReplyError::Device(e)))
            && device_error_of(reply.msg_type, reply.body@, e)),
        !is_error_type(reply.msg_type) ==> match echo_outcome(
            reply.msg_type,
            reply.body@,
            expected,
            request@,
        ) {
            Some(e) => r == Err::<(), SessionError>(e),
            None => r is Ok,
        },
{
    match reply.expect_ok(expected) {
        Err(e) => Err(SessionError::Reply(e)),
        Ok(body) => {
            if bytes_eq(body.as_slice(), request) {
                Ok(())
            } else {
                Err(SessionError::EchoMismatch)
            }
        },
    }
}

/// The reply body of a non-error reply of type `expected`.
pub fn expect_reply(reply: RawControlMessage, expected: ControlMessageType) -> (r: Result<
    Vec<u8>,
    SessionError,
>)
    ensures
        r is Ok <==> (!is_error_type(reply.msg_type) && reply.msg_type == expected),
        r matches Ok(b) ==> b@ == reply.body@,
        is_error_type(reply.msg_type) ==> (r matches Err(SessionError::Reply(ReplyError::Device(e)))
            && device_error_of(reply.msg_type, reply.body@, e)),
        !is_error_type(reply.msg_type) && reply.msg_type != expected ==> r == Err::<
            Vec<u8>,
            SessionError,
        >(SessionError::Reply(ReplyError::UnexpectedType { expected, got: reply.msg_type })),
{
    match reply.expect_ok(expected) {
        Err(e) => Err(SessionError::Reply(e)),
        Ok(body) => Ok(body),
    }
}


/// What a failed operation leaves of the session.
#[derive(Debug, Clone, Copy, PartialEq, Eq, Structural)]
pub enum Recovery {
    /// The device is idle again; the session goes on
    Usable,
    /// Send `RequestStop` and wait for `Idle`; the session lives only if it comes
    StopTransfer,
    /// The device state is unknown; the session must be rebuilt
    Dead,
}

/// The recovery each failure calls for.
pub open spec fn recovery_of(e: SessionError) -> Recovery {
    match e {
        SessionError::Reply(ReplyError::Device(_)) => Recovery::Usable,
        SessionError::InvalidReply => Recovery::Usable,
        SessionError::Frame(FrameError::BodyTooLong) => Recovery::Usable,
        SessionError::Transfer(_) => Recovery::StopTransfer,
        SessionError::Timeout => Recovery::StopTransfer,
        SessionError::Transport => Recovery::StopTransfer,
        _ => Recovery::Dead,
    }
}

/// One open connection to a device, as far as its rules go: whether it may
/// still be used, and the JSON header it has seen first.
#[derive(Debug)]
pub struct DeviceSession {
    pub usable: bool,
    pub json_header: Option<HeaderJson>,
}

impl DeviceSession {
    /// A session whose opening exchange left the device idle.
    pub fn new() -> (r: DeviceSession)
        ensures
            r.usable,
            r.json_header is None,
    {
        DeviceSession { usable: true, json_header: None }
    }

    /// Whether the reply to the opening `StatusReturn` shows a transfer that must be stopped.
    pub fn needs_stop(status: &RawControlMessage) -> (r: bool)
        ensures
            r == (status.msg_type != ControlMessageType::Idle),
    {
        status.msg_type != ControlMessageType::Idle
    }

    /// Fails once a fault has left the session dead.
    pub fn ensure_usable(&self) -> (r: Result<(), SessionError>)
        ensures
            r is Ok <==> self.usable,
            r is Err ==> r == Err::<(), SessionError>(SessionError::SessionDead),
    {
        if self.usable {
            Ok(())
        } else {
            Err(SessionError::SessionDead)
        }
    }

    /// The recovery that `e` calls for.
    pub fn recovery_for(e: &SessionError) -> (r: Recovery)
        ensures
            r == recovery_of(*e),
    {
        match e {
            SessionError::Reply(ReplyError::Device(_)) => Recovery::Usable,
            SessionError::InvalidReply => Recovery::Usable,
            SessionError::Frame(FrameError::BodyTooLong) => Recovery::Usable,
            SessionError::Transfer(_) => Recovery::StopTransfer,
            SessionError::Timeout => Recovery::StopTransfer,
            SessionError::Transport => Recovery::StopTransfer,
            _ => Recovery::Dead,
        }
    }

    /// Records a failed operation; returns what to do next.
    pub fn fail(&mut self, e: &SessionError) -> (r: Recovery)
        ensures
            r == recovery_of(*e),
            final(self).usable == (old(self).usable && r == Recovery::Usable),
            final(self).json_header == old(self).json_header,
    {
        let r = Self::recovery_for(e);
        if r != Recovery::Usable {
            self.usable = false;
        }
        r
    }

    /// Records the outcome of a stop request: the session lives again only if the
    /// device answered `Idle`.
    pub fn finish_recovery(&mut self, stop_reply: Option<RawControlMessage>) -> (r: Result<
        (),
        SessionError,
    >)
        ensures
            r is Ok <==> (stop_reply matches Some(m) && m.msg_type == ControlMessageType::Idle),
            r is Err ==> r == Err::<(), SessionError>(SessionError::SessionDead),
            final(self).usable == r is Ok,
            final(self).json_header == old(self).json_header,
    {
        let ok = match stop_reply {
            Some(m) => m.msg_type == ControlMessageType::Idle,
            None => false,
        };
        self.usable = ok;
        if ok {
            Ok(())
        } else {
            Err(SessionError::SessionDead)
        }
    }

    /// Keeps the first JSON header read; later ones leave it as it is.
    pub fn cache_header(&mut self, header: HeaderJson)
        ensures
            final(self).usable == old(self).usable,
            old(self).json_header is Some ==> final(self).json_header == old(self).json_header,
            old(self).json_header is None ==> final(self).json_header == Some(header),
    {
        if self.json_header.is_none() {
            self.json_header = Some(header);
        }
    }
}

} // verus!
