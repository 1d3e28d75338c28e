//! Satellite assistance data (u-blox UBX-MGA-ANO records): the days a file
//! covers, and when the device or the local copy needs fresh data.

use vstd::prelude::*;

use crate::device::AssistedGnssState;

verus! {

/// Length of one UBX-MGA-ANO record: 8-byte preamble, 76 payload bytes, 2 checksum bytes.
pub const RECORD_LEN: usize = 84;

/// Days from 0001-01-01 (day 1) to 1970-01-01.
pub const UNIX_EPOCH_DAYS_FROM_CE: i64 = 719163;

/// Days that cached data may lag behind today before it is fetched again.
pub const MAX_CACHE_AGE_DAYS: i64 = 2;

/// The preamble every record starts with: sync chars, class, id and length.
pub open spec fn record_preamble() -> Seq<u8> {
    seq![0xb5u8, 0x62, 0x13, 0x20, 0x4c, 0x00, 0x00, 0x00]
}

/// Day count from 0001-01-01 (day 1) of a calendar date, as chrono gives it;
/// `None` for a date that does not exist.
pub uninterp spec fn days_from_ce(year: i32, month: u32, day: u32) -> Option<i32>;

/// Relies on chrono's `NaiveDate::from_ymd_opt` (no date for an invalid day, month
/// or year) and `Datelike::num_days_from_ce` (the day count from 0001-01-01).
#[verifier::external_body]
fn calendar_day(year: i32, month: u32, day: u32) -> (r: Option<i32>)
    ensures
        r == days_from_ce(year, month, day),
{
    match chrono::NaiveDate::from_ymd_opt(year, month, day) {
        Some(date) => Some(chrono::Datelike::num_days_from_ce(&date)),
        None => None,
    }
}

/// Why an assistance file could not be read.
#[derive(Debug, Clone, Copy, PartialEq, Eq, Structural)]
pub enum MgaError {
    /// The file holds no record
    Empty,
    /// The file does not split into whole records with the right preamble
    InvalidRecord,
    /// A record names a day that does not exist
    InvalidDate,
}

/// An assistance file and the days (counted from 1970-01-01) its records cover.
#[derive(Debug, Clone, PartialEq, Eq)]
pub struct MgaData {
    pub data: Vec<u8>,
    pub valid_since: i64,
    pub valid_until: i64,
}

/// Whether every record of `data` starts with the preamble.
pub open spec fn records_well_formed(data: Seq<u8>) -> bool {
    &&& data.len() % (RECORD_LEN as nat) == 0
    &&& forall|k: int, j: int|
        0 <= k < data.len() / (RECORD_LEN as nat) && 0 <= j < 8 ==> #[trigger] data[k * RECORD_LEN + j]
            == record_preamble()[j]
}

/// Day (from 1970-01-01) of record `k`: year 2000 + byte 10, month byte 11, day byte 12.
pub open spec fn record_day(data: Seq<u8>, k: int) -> Option<int> {
    let base = k * RECORD_LEN;
    match days_from_ce((2000 + data[base + 10]) as i32, data[base + 11] as u32, data[base + 12] as u32) {
        Some(d) => Some(d - UNIX_EPOCH_DAYS_FROM_CE),
        None => None,
    }
}

fn preamble_ok(data: &[u8], base: usize) -> (r: bool)
    requires
        base + RECORD_LEN <= data@.len(),
    ensures
        r == forall|j: int| 0 <= j < 8 ==> #[trigger] data@[base + j] == record_preamble()[j],
{
    let len = data.len();
    let p: [u8; 8] = [0xb5, 0x62, 0x13, 0x20, 0x4c, 0x00, 0x00, 0x00];
    assert(p@ =~= record_preamble());
    let mut j: usize = 0;
    while j < 8
        invariant
            base + RECORD_LEN <= data@.len(),
            len == data@.len(),
            p@ == record_preamble(),
            j <= 8,
            forall|i: int| 0 <= i < j ==> #[trigger] data@[base + i] == record_preamble()[i],
        decreases 8 - j,
    {
        if data[base + j] != p[j] {
            return false;
        }
        j = j + 1;
    }
    true
}

/// Reads an assistance file: the first and last day its records cover.
pub fn parse_mga_data(data: Vec<u8>) -> (r: Result<MgaData, MgaError>)
    ensures
        data@.len() == 0 ==> r == Err::<MgaData, MgaError>(MgaError::Empty),
        data@.len() > 0 && !records_well_formed(data@) ==> r == Err::<MgaData, MgaError>(
            MgaError::InvalidRecord,
        ),
        r matches Ok(m) ==> {
            &&& m.data@ == data@
            &&& records_well_formed(data@)
            &&& forall|k: int|
                0 <= k < data@.len() / (RECORD_LEN as nat) ==> (#[trigger] record_day(data@, k)) is Some
                    && m.valid_since <= record_day(data@, k)->Some_0 <= m.valid_until
            &&& exists|k: int|
                0 <= k < data@.len() / (RECORD_LEN as nat) && #[trigger] record_day(data@, k) == Some(
                    m.valid_since as int,
                )
            &&& exists|k: int|
                0 <= k < data@.len() / (RECORD_LEN as nat) && #[trigger] record_day(data@, k) == Some(
                    m.valid_until as int,
                )
        },
        r == Err::<MgaData, MgaError>(MgaError::Empty) ==> data@.len() == 0,
        r == Err::<MgaData, MgaError>(MgaError::InvalidRecord) ==> data@.len() > 0
            && !records_well_formed(data@),
        r == Err::<MgaData, MgaError>(MgaError::InvalidDate) ==> records_well_formed(data@)
            && exists|k: int| 0 <= k < data@.len() / (RECORD_LEN as nat) && #[trigger] record_day(data@, k) is None,
{
    let len = data.len();
    if len == 0 {
        return Err(MgaError::Empty);
    }
    if len % RECORD_LEN != 0 {
        return Err(MgaError::InvalidRecord);
    }
    let n = len / RECORD_LEN;
    let mut k: usize = 0;
    while k < n
        invariant
            len == data@.len(),
            len % RECORD_LEN == 0,
            n == len / RECORD_LEN,
            k <= n,
            forall|i: int, j: int|
                0 <= i < k && 0 <= j < 8 ==> #[trigger] data@[i * RECORD_LEN + j] == record_preamble()[j],
        decreases n - k,
    {
        assert(k * RECORD_LEN + RECORD_LEN <= len) by (nonlinear_arith)
            requires
                k < n,
                n == len / RECORD_LEN,
        ;
        if !preamble_ok(data.as_slice(), k * RECORD_LEN) {
            return Err(MgaError::InvalidRecord);
        }
        k = k + 1;
    }
    let mut since: i64 = 0;
    let mut until: i64 = 0;
    let mut k: usize = 0;
    let ghost mut first_k: int = 0;
    let ghost mut last_k: int = 0;
    while k < n
        invariant
            len == data@.len(),
            len % RECORD_LEN == 0,
            n == len / RECORD_LEN,
            n > 0,
            records_well_formed(data@),
            k <= n,
            forall|i: int| 0 <= i < k ==> (#[trigger] record_day(data@, i)) is Some && since
                <= record_day(data@, i)->Some_0 <= until,
            k > 0 ==> 0 <= first_k < k && record_day(data@, first_k) == Some(since as int),
            k > 0 ==> 0 <= last_k < k && record_day(data@, last_k) == Some(until as int),
        decreases n - k,
    {
        let base = k * RECORD_LEN;
        assert(base + RECORD_LEN <= len) by (nonlinear_arith)
            requires
                k < n,
                n == len / RECORD_LEN,
                base == k * RECORD_LEN,
        ;
        let day = match calendar_day(
            2000 + data[base + 10] as i32,
            data[base + 11] as u32,
            data[base + 12] as u32,
        ) {
            Some(d) => d as i64 - UNIX_EPOCH_DAYS_FROM_CE,
            None => {
                assert(record_day(data@, k as int) is None);
                return Err(MgaError::InvalidDate);
            },
        };
        if k == 0 || day < since {
            since = day;
            proof {
                first_k = k as int;
            }
        }
        if k == 0 || day > until {
            until = day;
            proof {
                last_k = k as int;
            }
        }
        k = k + 1;
    }
    Ok(MgaData { data, valid_since: since, valid_until: until })
}

/// Whether the device should get `data`: it has none, or only data that ends earlier.
pub open spec fn device_needs_update(state: AssistedGnssState, data_valid_until: i64) -> bool {
    match state {
        AssistedGnssState::MissingData => true,
        AssistedGnssState::ValidUntil(d) => (d as int) < data_valid_until,
    }
}

pub fn mga_needs_update(state: AssistedGnssState, data: &MgaData) -> (r: bool)
    ensures
        r == device_needs_update(state, data.valid_until),
{
    match state {
        AssistedGnssState::MissingData => true,
        AssistedGnssState::ValidUntil(d) => (d as i64) < data.valid_until,
    }
}

/// What to do about the local copy of the assistance data.
#[derive(Debug, Clone, Copy, PartialEq, Eq, Structural)]
pub enum CacheAction {
    UseCached,
    Download,
    /// Offline, and nothing is cached
    NothingCached,
}

/// The choice for a cache whose data starts on `cached_since` (if any), on day `today`.
pub open spec fn cache_action_of(cached_since: Option<i64>, today: i64, offline: bool, force: bool) -> CacheAction {
    match cached_since {
        Some(since) => if offline || (today - since <= MAX_CACHE_AGE_DAYS && !force) {
            CacheAction::UseCached
        } else {
            CacheAction::Download
        },
        None => if offline {
            CacheAction::NothingCached
        } else {
            CacheAction::Download
        },
    }
}

pub fn mga_cache_action(cached_since: Option<i64>, today: i64, offline: bool, force: bool) -> (r:
    CacheAction)
    ensures
        r == cache_action_of(cached_since, today, offline, force),
{
    match cached_since {
        Some(since) => {
            let fresh = (today as i128) - (since as i128) <= MAX_CACHE_AGE_DAYS as i128;
            if offline || (fresh && !force) {
                CacheAction::UseCached
            } else {
                CacheAction::Download
            }
        },
        None => if offline {
            CacheAction::NothingCached
        } else {
            CacheAction::Download
        },
    }
}

} // verus!
