//! The BLE side of the transport: which characteristic a notification came
//! from and where it goes, the characteristics a device must expose, the
//! bounded inboxes between the notification pump and its readers, and the
//! MTU-sized pieces that UART writes are cut into.

use vstd::prelude::*;

use vstd::string::StringSliceAdditionalSpecFns;

use crate::bytes::copy_range;

verus! {

pub const TX_CHARACTERISTIC_UUID: u128 = 0x6e400002_b5a3_f393_e0a9_e50e24dcca9e;
pub const RX_CHARACTERISTIC_UUID: u128 = 0x6e400003_b5a3_f393_e0a9_e50e24dcca9e;
pub const CTL_CHARACTERISTIC_UUID: u128 = 0x6e400004_b5a3_f393_e0a9_e50e24dcca9e;
pub const FIRMWARE_REVISION_CHARACTERISTIC_UUID: u128 = 0x00002a26_0000_1000_8000_00805f9b34fb;
pub const MANUFACTURER_NAME_CHARACTERISTIC_UUID: u128 = 0x00002a29_0000_1000_8000_00805f9b34fb;
pub const MODEL_NUMBER_CHARACTERISTIC_UUID: u128 = 0x00002a24_0000_1000_8000_00805f9b34fb;
pub const HARDWARE_REVISION_CHARACTERISTIC_UUID: u128 = 0x00002a27_0000_1000_8000_00805f9b34fb;
pub const SERIAL_NUMBER_CHARACTERISTIC_UUID: u128 = 0x00002a25_0000_1000_8000_00805f9b34fb;
pub const BATTERY_LEVEL_CHARACTERISTIC_UUID: u128 = 0x00002a19_0000_1000_8000_00805f9b34fb;

/// Frames an inbox holds before it drops new ones.
pub const INBOX_CAPACITY: usize = 3;

/// Payload bytes of one BLE write on this device.
pub const UART_MTU: usize = 206;

/// Where the notification pump sends a notification.
#[derive(Debug, Clone, Copy, PartialEq, Eq, Structural)]
pub enum NotificationRoute {
    /// To the UART inbox
    Uart,
    /// To the control inbox
    Control,
    /// A new battery percentage
    Battery(u8),
    /// A device-information characteristic: dropped silently
    Ignored,
    /// Anything else: dropped with a warning
    Unknown,
}

pub open spec fn is_device_info_uuid(uuid: u128) -> bool {
    uuid == FIRMWARE_REVISION_CHARACTERISTIC_UUID || uuid == MANUFACTURER_NAME_CHARACTERISTIC_UUID
        || uuid == MODEL_NUMBER_CHARACTERISTIC_UUID || uuid == HARDWARE_REVISION_CHARACTERISTIC_UUID
        || uuid == SERIAL_NUMBER_CHARACTERISTIC_UUID
}

/// Where a notification from `uuid` carrying `value` goes.
pub open spec fn route_of(uuid: u128, value: Seq<u8>) -> NotificationRoute {
    if uuid == RX_CHARACTERISTIC_UUID {
        NotificationRoute::Uart
    } else if uuid == CTL_CHARACTERISTIC_UUID {
        NotificationRoute::Control
    } else if uuid == BATTERY_LEVEL_CHARACTERISTIC_UUID && value.len() > 0 {
        NotificationRoute::Battery(value[0])
    } else if is_device_info_uuid(uuid) {
        NotificationRoute::Ignored
    } else {
        NotificationRoute::Unknown
    }
}

pub fn route_notification(uuid: u128, value: &[u8]) -> (r: NotificationRoute)
    ensures
        r == route_of(uuid, value@),
{
    if uuid == RX_CHARACTERISTIC_UUID {
        NotificationRoute::Uart
    } else if uuid == CTL_CHARACTERISTIC_UUID {
        NotificationRoute::Control
    } else if uuid == BATTERY_LEVEL_CHARACTERISTIC_UUID && value.len() > 0 {
        NotificationRoute::Battery(value[0])
    } else if uuid == FIRMWARE_REVISION_CHARACTERISTIC_UUID || uuid
        == MANUFACTURER_NAME_CHARACTERISTIC_UUID || uuid == MODEL_NUMBER_CHARACTERISTIC_UUID || uuid
        == HARDWARE_REVISION_CHARACTERISTIC_UUID || uuid == SERIAL_NUMBER_CHARACTERISTIC_UUID {
        NotificationRoute::Ignored
    } else {
        NotificationRoute::Unknown
    }
}

/// The characteristics a session needs, in ascending order.
pub open spec fn required_uuids() -> Seq<u128> {
    seq![
        BATTERY_LEVEL_CHARACTERISTIC_UUID,
        MODEL_NUMBER_CHARACTERISTIC_UUID,
        SERIAL_NUMBER_CHARACTERISTIC_UUID,
        FIRMWARE_REVISION_CHARACTERISTIC_UUID,
        HARDWARE_REVISION_CHARACTERISTIC_UUID,
        MANUFACTURER_NAME_CHARACTERISTIC_UUID,
        TX_CHARACTERISTIC_UUID,
        RX_CHARACTERISTIC_UUID,
        CTL_CHARACTERISTIC_UUID,
    ]
}

pub fn required_characteristics() -> (r: Vec<u128>)
    ensures
        r@ == required_uuids(),
{
    let r = vec![
        BATTERY_LEVEL_CHARACTERISTIC_UUID,
        MODEL_NUMBER_CHARACTERISTIC_UUID,
        SERIAL_NUMBER_CHARACTERISTIC_UUID,
        FIRMWARE_REVISION_CHARACTERISTIC_UUID,
        HARDWARE_REVISION_CHARACTERISTIC_UUID,
        MANUFACTURER_NAME_CHARACTERISTIC_UUID,
        TX_CHARACTERISTIC_UUID,
        RX_CHARACTERISTIC_UUID,
        CTL_CHARACTERISTIC_UUID,
    ];
    assert(r@ =~= required_uuids());
    r
}

fn contains_uuid(found: &[u128], u: u128) -> (r: bool)
    ensures
        r == found@.contains(u),
{
    let mut i: usize = 0;
    while i < found.len()
        invariant
            i <= found@.len(),
            forall|j: int| 0 <= j < i ==> found@[j] != u,
        decreases found.len() - i,
    {
        if found[i] == u {
            return true;
        }
        i = i + 1;
    }
    false
}

/// The smallest required characteristic that `found` lacks, if any.
pub fn first_missing_characteristic(found: &[u128]) -> (r: Option<u128>)
    ensures
        r is None <==> forall|k: int| 0 <= k < required_uuids().len() ==> found@.contains(
            #[trigger] required_uuids()[k],
        ),
        r matches Some(u) ==> exists|k: int|
            0 <= k < required_uuids().len() && #[trigger] required_uuids()[k] == u && !found@.contains(u)
                && forall|j: int| 0 <= j < k ==> found@.contains(#[trigger] required_uuids()[j]),
{
    let required = required_characteristics();
    let mut i: usize = 0;
    while i < required.len()
        invariant
            required@ == required_uuids(),
            i <= required@.len(),
            forall|j: int| 0 <= j < i ==> found@.contains(#[trigger] required_uuids()[j]),
        decreases required.len() - i,
    {
        if !contains_uuid(found, required[i]) {
            return Some(required[i]);
        }
        i = i + 1;
    }
    None
}

/// A bounded queue of frames between the notification pump and one reader.
#[derive(Debug)]
pub struct Inbox {
    pub frames: Vec<Vec<u8>>,
}

impl Inbox {
    pub open spec fn wf(&self) -> bool {
        self.frames@.len() <= INBOX_CAPACITY
    }

    pub fn new() -> (r: Inbox)
        ensures
            r.wf(),
            r.frames@.len() == 0,
    {
        Inbox { frames: Vec::new() }
    }

    /// Queues a frame; a full inbox drops it. Returns whether it was kept.
    pub fn push(&mut self, frame: Vec<u8>) -> (r: bool)
        requires
            old(self).wf(),
        ensures
            final(self).wf(),
            r == (old(self).frames@.len() < INBOX_CAPACITY),
            r ==> final(self).frames@ == old(self).frames@.push(frame),
            !r ==> final(self).frames@ == old(self).frames@,
    {
        if self.frames.len() < INBOX_CAPACITY {
            self.frames.push(frame);
            true
        } else {
            false
        }
    }

    /// Takes the oldest frame.
    pub fn pop(&mut self) -> (r: Option<Vec<u8>>)
        requires
            old(self).wf(),
        ensures
            final(self).wf(),
            old(self).frames@.len() == 0 ==> r is None && final(self).frames@ == old(self).frames@,
            old(self).frames@.len() > 0 ==> r == Some(old(self).frames@[0]) && final(self).frames@
                == old(self).frames@.drop_first(),
    {
        if self.frames.len() == 0 {
            None
        } else {
            let f = self.frames.remove(0);
            assert(self.frames@ =~= old(self).frames@.drop_first());
            Some(f)
        }
    }
}

/// The bytes of `chunks`, one after another.
pub open spec fn concat(chunks: Seq<Vec<u8>>) -> Seq<u8>
    decreases chunks.len(),
{
    if chunks.len() == 0 {
        Seq::empty()
    } else {
        concat(chunks.drop_last()) + chunks.last()@
    }
}

/// Piece `k` of `data` cut every `mtu` bytes: `data[k*mtu .. min((k+1)*mtu, len)]`.
pub open spec fn mtu_piece(data: Seq<u8>, mtu: nat, k: int) -> Seq<u8> {
    let start = k * mtu;
    let end = if start + mtu <= data.len() {
        start + mtu
    } else {
        data.len() as int
    };
    data.subrange(start, end)
}

/// Cuts `data` into writes of `mtu` bytes each, the last one shorter where
/// `data` does not divide evenly; none is empty, and together they are `data`.
pub fn split_for_mtu(data: &[u8], mtu: usize) -> (r: Vec<Vec<u8>>)
    requires
        mtu > 0,
    ensures
        concat(r@) == data@,
        forall|k: int| 0 <= k < r@.len() ==> 0 < (#[trigger] r@[k])@.len() <= mtu,
        forall|k: int| 0 <= k < r@.len() ==> (#[trigger] r@[k])@ == mtu_piece(data@, mtu as nat, k),
        r@.len() == (data@.len() + mtu - 1) / mtu as int,
{
    let mut r: Vec<Vec<u8>> = Vec::new();
    let mut i: usize = 0;
    assert((mtu - 1) / mtu as int == 0) by (nonlinear_arith)
        requires
            mtu > 0,
    ;
    while i < data.len()
        invariant
            mtu > 0,
            i <= data@.len(),
            concat(r@) == data@.subrange(0, i as int),
            forall|k: int| 0 <= k < r@.len() ==> 0 < (#[trigger] r@[k])@.len() <= mtu,
            forall|k: int| 0 <= k < r@.len() ==> (#[trigger] r@[k])@ == mtu_piece(data@, mtu as nat, k),
            i == data@.len() || i == r@.len() * mtu,
            r@.len() == (i + mtu - 1) / mtu as int,
        decreases data.len() - i,
    {
        let end = if data.len() - i > mtu {
            i + mtu
        } else {
            data.len()
        };
        let chunk = copy_range(data, i, end);
        let ghost before = r@;
        r.push(chunk);
        assert(r@.drop_last() =~= before);
        assert(data@.subrange(0, end as int) =~= data@.subrange(0, i as int) + data@.subrange(
            i as int,
            end as int,
        ));
        proof {
            let n = before.len() as int;
            assert(i == n * mtu);
            assert(r@[n]@ == mtu_piece(data@, mtu as nat, n));
            assert forall|k: int| 0 <= k < r@.len() implies (#[trigger] r@[k])@ == mtu_piece(
                data@,
                mtu as nat,
                k,
            ) by {
                if k < n {
                    assert(r@[k] == before[k]);
                }
            }
            if end < data.len() {
                assert(end == (n + 1) * mtu) by (nonlinear_arith)
                    requires
                        end == i + mtu,
                        i == n * mtu,
                ;
                assert((end + mtu - 1) / mtu as int == n + 1) by (nonlinear_arith)
                    requires
                        end == (n + 1) * mtu,
                        mtu > 0,
                ;
            } else {
                assert((end + mtu - 1) / mtu as int == n + 1) by (nonlinear_arith)
                    requires
                        i == n * mtu,
                        i < end <= i + mtu,
                        mtu > 0,
                ;
            }
        }
        i = end;
    }
    assert(data@.subrange(0, i as int) =~= data@);
    r
}


/// The bytes of `XOSS`, which the advertised name of these devices contains.
pub open spec fn xoss_marker() -> Seq<u8> {
    seq![0x58u8, 0x4f, 0x53, 0x53]
}

/// Whether `name` holds `pat` at some position.
pub open spec fn contains_at(name: Seq<u8>, pat: Seq<u8>, i: int) -> bool {
    0 <= i && i + pat.len() <= name.len() && name.subrange(i, i + pat.len()) == pat
}

/// Whether a scanned device is likely a XOSS one: its advertised name contains `XOSS`.
pub fn likely_xoss_device(local_name: Option<&str>) -> (r: bool)
    ensures
        r == (local_name matches Some(n) && exists|i: int| contains_at(n.spec_bytes(), xoss_marker(), i)),
{
    let name = match local_name {
        Some(n) => n.as_bytes(),
        None => return false,
    };
    let pat: [u8; 4] = [0x58, 0x4f, 0x53, 0x53];
    assert(pat@ =~= xoss_marker());
    if name.len() < 4 {
        assert forall|i: int| !contains_at(name@, xoss_marker(), i) by {}
        return false;
    }
    let mut i: usize = 0;
    while i <= name.len() - 4
        invariant
            pat@ == xoss_marker(),
            name@.len() >= 4,
            local_name matches Some(n) && name@ == n.spec_bytes(),
            forall|j: int| 0 <= j < i ==> !contains_at(name@, xoss_marker(), j),
        decreases name.len() - i,
    {
        if name[i] == pat[0] && name[i + 1] == pat[1] && name[i + 2] == pat[2] && name[i + 3] == pat[3] {
            assert(name@.subrange(i as int, i + 4) =~= xoss_marker());
            assert(contains_at(name@, xoss_marker(), i as int));
            return true;
        }
        assert(!contains_at(name@, xoss_marker(), i as int)) by {
            if contains_at(name@, xoss_marker(), i as int) {
                assert(name@.subrange(i as int, i + 4)[0] == name@[i as int]);
                assert(name@.subrange(i as int, i + 4)[1] == name@[i + 1]);
                assert(name@.subrange(i as int, i + 4)[2] == name@[i + 2]);
                assert(name@.subrange(i as int, i + 4)[3] == name@[i + 3]);
            }
        }
        i = i + 1;
    }
    assert forall|j: int| !contains_at(name@, xoss_marker(), j) by {
        if j >= i {
            assert(j + 4 > name@.len());
        }
    }
    false
}

} // verus!
