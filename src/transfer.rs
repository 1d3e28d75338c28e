//! The file-transfer engine as two state machines, one per direction. Each
//! step takes what the peer sent and returns the bytes to write back; the
//! caller does the I/O and the 5-second timeout of each step.

use vstd::prelude::*;
use vstd::string::StringSliceAdditionalSpecFns;

use crate::bytes::{copy_range, push_zeros};
use crate::ymodem::{
    packet_bytes, parse_header, parse_packet, header_block, header_data, Error, YModemHeader,
    YModemPacket, ACK, CRC_REQUEST, EOT, LARGE_DATA_SIZE, NAK, SMALL_DATA_SIZE,
};

verus! {

/// How long each step of a transfer may take.
pub const STEP_TIMEOUT_MS: u64 = 5000;

/// Sequence number that follows `s`, modulo 256.
pub open spec fn next_seq(s: u8) -> u8 {
    ((s + 1) % 256) as u8
}

pub open spec fn min_nat(a: nat, b: nat) -> nat {
    if a <= b {
        a
    } else {
        b
    }
}

#[derive(Debug, PartialEq, Eq, Clone, Copy, Structural)]
pub enum ReceivePhase {
    /// Waiting for the header block
    Header,
    /// Waiting for a data block
    Data,
    /// Waiting for the first EOT
    FirstEot,
    /// Waiting for the repeated EOT
    SecondEot,
    /// The file has been received
    Done,
    /// A step failed; the transfer is over
    Failed,
}

/// Receiving side of a transfer: the host reads a file from the device.
#[derive(Debug)]
pub struct FileReceiver {
    pub phase: ReceivePhase,
    /// Sequence number of the last block accepted
    pub seq: u8,
    pub name: String,
    pub size: u64,
    /// Bytes still to come
    pub remaining: u64,
    /// Bytes received so far
    pub received: Vec<u8>,
}

impl FileReceiver {
    pub open spec fn wf(&self) -> bool {
        self.received@.len() + self.remaining == self.size
    }

    /// A receiver waiting for the header, and the byte that asks the sender to begin.
    pub fn start() -> (r: (FileReceiver, Vec<u8>))
        ensures
            r.0.wf(),
            r.0.phase == ReceivePhase::Header,
            r.0.seq == 0,
            r.0.received@.len() == 0,
            r.1@ == seq![CRC_REQUEST],
    {
        let rx = FileReceiver {
            phase: ReceivePhase::Header,
            seq: 0,
            name: String::new(),
            size: 0,
            remaining: 0,
            received: Vec::new(),
        };
        (rx, vec![CRC_REQUEST])
    }

    /// Whether the next thing to read is a whole block (else a single byte).
    pub fn expects_packet(&self) -> (r: bool)
        ensures
            r == (self.phase == ReceivePhase::Header || self.phase == ReceivePhase::Data),
    {
        self.phase == ReceivePhase::Header || self.phase == ReceivePhase::Data
    }

    /// Takes one block from the sender; returns the reply to write.
    pub fn on_packet(&mut self, raw: &[u8]) -> (r: Result<Vec<u8>, Error>)
        requires
            old(self).wf(),
            old(self).phase == ReceivePhase::Header || old(self).phase == ReceivePhase::Data,
        ensures
            final(self).wf(),
            r is Err ==> final(self).phase == ReceivePhase::Failed,
            r is Err ==> {
                &&& final(self).received == old(self).received
                &&& final(self).remaining == old(self).remaining
                &&& final(self).name == old(self).name
                &&& final(self).size == old(self).size
                &&& final(self).seq == old(self).seq
            },
            old(self).phase == ReceivePhase::Header ==> match parse_packet(raw@) {
                Err(e) => r == Err::<Vec<u8>, Error>(e),
                Ok((s, d)) => match parse_header(d) {
                    Err(e) => r == Err::<Vec<u8>, Error>(e),
                    Ok((name, size)) => if s != 0 {
                        r == Err::<Vec<u8>, Error>(Error::InvalidSeq)
                    } else {
                        &&& r matches Ok(out) && out@ == seq![ACK, CRC_REQUEST]
                        &&& final(self).name@ == name
                        &&& final(self).size == size
                        &&& final(self).remaining == size
                        &&& final(self).received@.len() == 0
                        &&& final(self).seq == 0
                        &&& final(self).phase == if size == 0 {
                            ReceivePhase::FirstEot
                        } else {
                            ReceivePhase::Data
                        }
                    },
                },
            },
            old(self).phase == ReceivePhase::Data ==> match parse_packet(raw@) {
                Err(e) => r == Err::<Vec<u8>, Error>(e),
                Ok((s, d)) => if s != next_seq(old(self).seq) {
                    r == Err::<Vec<u8>, Error>(Error::InvalidSeq)
                } else {
                    let take = min_nat(old(self).remaining as nat, d.len());
                    &&& r matches Ok(out) && out@ == seq![ACK]
                    &&& final(self).received@ == old(self).received@ + d.subrange(0, take as int)
                    &&& final(self).remaining == old(self).remaining - take
                    &&& final(self).seq == s
                    &&& final(self).name == old(self).name
                    &&& final(self).size == old(self).size
                    &&& final(self).phase == if final(self).remaining == 0 {
                        ReceivePhase::FirstEot
                    } else {
                        ReceivePhase::Data
                    }
                },
            },
    {
        let packet = match YModemPacket::parse(raw) {
            Ok(p) => p,
            Err(e) => {
                self.phase = ReceivePhase::Failed;
                return Err(e);
            },
        };
        if self.phase == ReceivePhase::Header {
            let header = match YModemHeader::parse(&packet) {
                Ok(h) => h,
                Err(e) => {
                    self.phase = ReceivePhase::Failed;
                    return Err(e);
                },
            };
            if packet.seq != 0 {
                self.phase = ReceivePhase::Failed;
                return Err(Error::InvalidSeq);
            }
            self.name = header.name;
            self.size = header.size;
            self.remaining = header.size;
            self.received = Vec::new();
            self.seq = 0;
            self.phase = if header.size == 0 {
                ReceivePhase::FirstEot
            } else {
                ReceivePhase::Data
            };
            Ok(vec![ACK, CRC_REQUEST])
        } else {
            let expected = self.seq.wrapping_add(1);
            if packet.seq != expected {
                self.phase = ReceivePhase::Failed;
                return Err(Error::InvalidSeq);
            }
            let len = packet.data.len();
            let take: usize = if self.remaining < len as u64 {
                self.remaining as usize
            } else {
                len
            };
            let mut i: usize = 0;
            let ghost before = self.received@;
            while i < take
                invariant
                    take <= packet.data@.len(),
                    take as nat == min_nat(old(self).remaining as nat, packet.data@.len()),
                    i <= take,
                    self.remaining == old(self).remaining,
                    self.size == old(self).size,
                    self.name == old(self).name,
                    self.seq == old(self).seq,
                    before == old(self).received@,
                    old(self).received@.len() + old(self).remaining == old(self).size,
                    self.received@ == before + packet.data@.subrange(0, i as int),
                decreases take - i,
            {
                self.received.push(packet.data[i]);
                i = i + 1;
                assert(self.received@ =~= before + packet.data@.subrange(0, i as int));
            }
            self.remaining = self.remaining - take as u64;
            self.seq = packet.seq;
            self.phase = if self.remaining == 0 {
                ReceivePhase::FirstEot
            } else {
                ReceivePhase::Data
            };
            Ok(vec![ACK])
        }
    }

    /// Takes one byte of the closing EOT exchange; returns the reply to write.
    pub fn on_byte(&mut self, b: u8) -> (r: Result<Vec<u8>, Error>)
        requires
            old(self).wf(),
            old(self).phase == ReceivePhase::FirstEot || old(self).phase == ReceivePhase::SecondEot,
        ensures
            final(self).wf(),
            final(self).received == old(self).received,
            final(self).name == old(self).name,
            final(self).size == old(self).size,
            b != EOT ==> r == Err::<Vec<u8>, Error>(Error::UnexpectedByte { expected: EOT, got: b })
                && final(self).phase == ReceivePhase::Failed,
            b == EOT && old(self).phase == ReceivePhase::FirstEot ==> (r matches Ok(out) && out@
                == seq![NAK]) && final(self).phase == ReceivePhase::SecondEot,
            b == EOT && old(self).phase == ReceivePhase::SecondEot ==> (r matches Ok(out) && out@
                == seq![ACK]) && final(self).phase == ReceivePhase::Done,
    {
        if b != EOT {
            self.phase = ReceivePhase::Failed;
            return Err(Error::UnexpectedByte { expected: EOT, got: b });
        }
        if self.phase == ReceivePhase::FirstEot {
            self.phase = ReceivePhase::SecondEot;
            Ok(vec![NAK])
        } else {
            self.phase = ReceivePhase::Done;
            Ok(vec![ACK])
        }
    }
}


/// Block size of a transfer of `len` bytes: small files use 128-byte blocks.
pub open spec fn block_size_for(len: nat) -> nat {
    if len < LARGE_DATA_SIZE {
        SMALL_DATA_SIZE as nat
    } else {
        LARGE_DATA_SIZE as nat
    }
}

/// The data block that starts at `off`: the next `bs` bytes, zero-padded.
pub open spec fn block_at(content: Seq<u8>, bs: nat, off: int) -> Seq<u8> {
    let end = if off + bs <= content.len() {
        off + bs
    } else {
        content.len() as int
    };
    content.subrange(off, end) + Seq::new((bs - (end - off)) as nat, |_i: int| 0u8)
}

#[derive(Debug, PartialEq, Eq, Clone, Copy, Structural)]
pub enum SendPhase {
    /// Waiting for the receiver's `C`
    AwaitStart,
    /// The header block is out; waiting for ACK
    AwaitHeaderAck,
    /// Waiting for the `C` that asks for the data
    AwaitDataStart,
    /// A data block is out; waiting for ACK
    AwaitBlockAck,
    /// The first EOT is out; waiting for NAK
    AwaitNak,
    /// The second EOT is out; waiting for ACK
    AwaitFinalAck,
    /// The file has been sent
    Done,
    /// A step failed; the transfer is over
    Failed,
}

/// Sending side of a transfer: the host writes a file to the device.
#[derive(Debug)]
pub struct FileSender {
    pub phase: SendPhase,
    /// Sequence number of the block in flight
    pub seq: u8,
    /// Data of the header block
    pub header: Vec<u8>,
    pub content: Vec<u8>,
    pub block_size: usize,
    /// Start of the data block in flight
    pub offset: usize,
}

/// What the sender answers when `got` arrives where `expected` was due.
pub open spec fn unexpected(expected: u8, got: u8) -> Result<Vec<u8>, Error> {
    Err(Error::UnexpectedByte { expected, got })
}

impl FileSender {
    pub open spec fn wf(&self) -> bool {
        &&& self.header@.len() == SMALL_DATA_SIZE
        &&& self.block_size as nat == block_size_for(self.content@.len())
        &&& self.offset <= self.content@.len()
        &&& self.phase == SendPhase::AwaitBlockAck ==> self.offset < self.content@.len()
    }

    /// A sender for `content` under `name`; fails where the header does not fit.
    pub fn new(name: &str, content: Vec<u8>) -> (r: Result<FileSender, Error>)
        ensures
            match header_block(name.spec_bytes(), content@.len()) {
                Err(e) => r == Err::<FileSender, Error>(e),
                Ok(h) => r matches Ok(tx) && {
                    &&& tx.wf()
                    &&& tx.phase == SendPhase::AwaitStart
                    &&& tx.header@ == h
                    &&& tx.content@ == content@
                    &&& tx.seq == 0
                },
            },
    {
        let header = match header_data(name, content.len() as u64) {
            Ok(h) => h,
            Err(e) => return Err(e),
        };
        let block_size = if content.len() < LARGE_DATA_SIZE {
            SMALL_DATA_SIZE
        } else {
            LARGE_DATA_SIZE
        };
        Ok(FileSender { phase: SendPhase::AwaitStart, seq: 0, header, content, block_size, offset: 0 })
    }

    /// The data block that starts at `off`.
    fn block(&self, off: usize) -> (r: Vec<u8>)
        requires
            self.wf(),
            off < self.content@.len(),
        ensures
            r@ == block_at(self.content@, self.block_size as nat, off as int),
            r@.len() == self.block_size,
    {
        let len = self.content.len();
        let end = if len - off >= self.block_size {
            off + self.block_size
        } else {
            len
        };
        let mut out = copy_range(self.content.as_slice(), off, end);
        push_zeros(&mut out, self.block_size - (end - off));
        out
    }

    /// Whether the transfer is over, sent or failed.
    pub fn is_finished(&self) -> (r: bool)
        ensures
            r == (self.phase == SendPhase::Done || self.phase == SendPhase::Failed),
    {
        self.phase == SendPhase::Done || self.phase == SendPhase::Failed
    }

    /// Takes one byte from the receiver; returns the bytes to write.
    pub fn on_byte(&mut self, b: u8) -> (r: Result<Vec<u8>, Error>)
        requires
            old(self).wf(),
            old(self).phase != SendPhase::Done,
            old(self).phase != SendPhase::Failed,
        ensures
            final(self).wf(),
            final(self).content == old(self).content,
            final(self).header == old(self).header,
            r is Err ==> final(self).phase == SendPhase::Failed,
            old(self).phase == SendPhase::AwaitStart ==> if b != CRC_REQUEST {
                r == unexpected(CRC_REQUEST, b)
            } else {
                (r matches Ok(out) && out@ == packet_bytes(0, old(self).header@))
                    && final(self).phase == SendPhase::AwaitHeaderAck
            },
            old(self).phase == SendPhase::AwaitHeaderAck ==> if b != ACK {
                r == unexpected(ACK, b)
            } else {
                (r matches Ok(out) && out@.len() == 0) && final(self).phase == SendPhase::AwaitDataStart
            },
            old(self).phase == SendPhase::AwaitDataStart ==> if b != CRC_REQUEST {
                r == unexpected(CRC_REQUEST, b)
            } else if old(self).content@.len() == 0 {
                (r matches Ok(out) && out@ == seq![EOT]) && final(self).phase == SendPhase::AwaitNak
            } else {
                &&& r matches Ok(out) && out@ == packet_bytes(
                    1,
                    block_at(old(self).content@, old(self).block_size as nat, 0),
                )
                &&& final(self).phase == SendPhase::AwaitBlockAck
                &&& final(self).seq == 1
                &&& final(self).offset == 0
            },
            old(self).phase == SendPhase::AwaitBlockAck ==> if b != ACK {
                r == unexpected(ACK, b)
            } else if old(self).offset + old(self).block_size >= old(self).content@.len() {
                (r matches Ok(out) && out@ == seq![EOT]) && final(self).phase == SendPhase::AwaitNak
            } else {
                let off = old(self).offset + old(self).block_size;
                &&& r matches Ok(out) && out@ == packet_bytes(
                    next_seq(old(self).seq),
                    block_at(old(self).content@, old(self).block_size as nat, off),
                )
                &&& final(self).phase == SendPhase::AwaitBlockAck
                &&& final(self).seq == next_seq(old(self).seq)
                &&& final(self).offset == off
            },
            old(self).phase == SendPhase::AwaitNak ==> if b != NAK {
                r == unexpected(NAK, b)
            } else {
                (r matches Ok(out) && out@ == seq![EOT]) && final(self).phase == SendPhase::AwaitFinalAck
            },
            old(self).phase == SendPhase::AwaitFinalAck ==> if b != ACK {
                r == unexpected(ACK, b)
            } else {
                (r matches Ok(out) && out@.len() == 0) && final(self).phase == SendPhase::Done
            },
    {
        let expected = match self.phase {
            SendPhase::AwaitStart => CRC_REQUEST,
            SendPhase::AwaitDataStart => CRC_REQUEST,
            SendPhase::AwaitNak => NAK,
            _ => ACK,
        };
        if b != expected {
            self.phase = SendPhase::Failed;
            return Err(Error::UnexpectedByte { expected, got: b });
        }
        match self.phase {
            SendPhase::AwaitStart => {
                let mut data: Vec<u8> = Vec::new();
                crate::bytes::append_all(&mut data, self.header.as_slice());
                let packet = YModemPacket::new(0, data);
                self.phase = SendPhase::AwaitHeaderAck;
                Ok(packet.serialize())
            },
            SendPhase::AwaitHeaderAck => {
                self.phase = SendPhase::AwaitDataStart;
                Ok(Vec::new())
            },
            SendPhase::AwaitDataStart => {
                if self.content.len() == 0 {
                    self.phase = SendPhase::AwaitNak;
                    Ok(vec![EOT])
                } else {
                    let packet = YModemPacket::new(1, self.block(0));
                    self.seq = 1;
                    self.offset = 0;
                    self.phase = SendPhase::AwaitBlockAck;
                    Ok(packet.serialize())
                }
            },
            SendPhase::AwaitBlockAck => {
                if self.content.len() - self.offset <= self.block_size {
                    self.offset = self.content.len();
                    self.phase = SendPhase::AwaitNak;
                    Ok(vec![EOT])
                } else {
                    let off = self.offset + self.block_size;
                    let seq = self.seq.wrapping_add(1);
                    let packet = YModemPacket::new(seq, self.block(off));
                    self.seq = seq;
                    self.offset = off;
                    Ok(packet.serialize())
                }
            },
            SendPhase::AwaitNak => {
                self.phase = SendPhase::AwaitFinalAck;
                Ok(vec![EOT])
            },
            _ => {
                self.phase = SendPhase::Done;
                Ok(Vec::new())
            },
        }
    }
}

} // verus!
