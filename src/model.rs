//! The JSON documents the device keeps, as plain values. Reading and writing
//! their text is left to the caller's JSON library.

use vstd::prelude::*;

verus! {

/// The header block every JSON document of the device starts with.
#[derive(Debug, Clone, PartialEq, Eq)]
pub struct HeaderJson {
    pub device_model: String,
    pub sn: String,
    /// Also read under the key `update_at`, which some firmware writes
    pub updated_at: i64,
    pub version: String,
    /// Header fields this library does not know, as (key, JSON value text), kept for writing back
    pub extra_fields: Vec<(String, String)>,
}

/// A document whose fields sit beside the header fields.
#[derive(Debug, Clone, PartialEq, Eq)]
pub struct WithHeader<T> {
    pub header: HeaderJson,
    pub data: T,
}

#[derive(Debug, Clone, Copy, PartialEq, Eq, Default)]
pub struct UserProfileInner {
    pub alahr: i64,
    pub alaspeed: i64,
    pub ftp: i64,
    pub lthr: i64,
    pub maxhr: i64,
    pub birthday: i64,
    pub gender: i64,
    pub height: i64,
    /// Time zone offset in seconds
    pub time_zone: i32,
    pub weight: i64,
}

#[derive(Debug, Clone, PartialEq, Eq)]
pub struct User {
    pub platform: String,
    pub uid: u32,
    pub user_name: String,
}

#[derive(Debug, Clone, PartialEq, Eq)]
pub struct UserProfile {
    pub user: Option<User>,
    pub user_profile: UserProfileInner,
}

#[derive(Debug, Clone, Copy, PartialEq, Eq)]
pub enum WorkoutState {
    /// Finished recording, not downloaded yet
    NotSynchronized,
    Recording,
    Syncing,
    /// Downloaded from the device
    Synced,
    Broken,
}

/// One entry of the workouts index: `[name, size, state]`.
#[derive(Debug, Clone, Copy, PartialEq, Eq)]
pub struct WorkoutsItem {
    pub name: u64,
    pub size: u32,
    pub state: WorkoutState,
}

#[derive(Debug, Clone, Copy, PartialEq, Eq, Default)]
pub enum Language {
    #[default]
    English,
    Chinese,
}

#[derive(Debug, Clone, Copy, PartialEq, Eq, Default)]
pub enum DistanceUnit {
    #[default]
    Metric,
    Imperial,
}

#[derive(Debug, Clone, Copy, PartialEq, Eq, Default)]
pub enum TemperatureUnit {
    #[default]
    Celsius,
    Fahrenheit,
}

#[derive(Debug, Clone, Copy, PartialEq, Eq, Default)]
pub enum Backlight {
    /// Off after some inactivity
    #[default]
    Auto,
    AlwaysOn,
    Off,
}

#[derive(Debug, Clone, Copy, PartialEq, Eq, Default)]
pub enum AutoPause {
    #[default]
    On,
    Off,
}

#[derive(Debug, Clone, Copy, PartialEq, Eq, Default)]
pub struct Settings {
    pub language: Language,
    pub unit: DistanceUnit,
    pub temperature_unit: TemperatureUnit,
    /// Unused by the device; 0
    pub time_formatter: u8,
    pub backlight: Backlight,
    /// Pause the workout when the speed is 0
    pub auto_pause: AutoPause,
    /// Unused by the device; 0
    pub overwrite: u8,
    /// Play a tone on key presses
    pub keytone: bool,
}

#[derive(Debug, Clone, Copy, PartialEq, Eq, Default)]
pub enum GearType {
    #[default]
    Bike,
}

#[derive(Debug, Clone, PartialEq, Eq)]
pub struct Gear {
    pub gid: u32,
    /// Weight of the bike, in grams
    pub weight: u32,
    /// Wheel size, in mm
    pub wheel_size: u32,
    pub activated: bool,
    pub name: String,
    pub type_: GearType,
}

#[derive(Debug, Clone, Copy, PartialEq, Eq, Default)]
pub enum SportType {
    #[default]
    Cycling,
}

#[derive(Debug, Clone, PartialEq, Eq)]
pub struct Route {
    pub rid: u64,
    /// Size of the route file in bytes
    pub size: u32,
    /// Meaning unknown; kept as read
    pub source: u8,
    pub name: String,
    pub type_: SportType,
    /// Route format version; the device supports 2
    pub version: u8,
    /// Length in meters
    pub length: u32,
    /// Total elevation gain in meters
    pub gain: u32,
}

/// Strings the device exposes in its device-information service.
#[derive(Debug, Clone, PartialEq, Eq)]
pub struct DeviceInformation {
    pub firmware_revision: String,
    pub manufacturer_name: String,
    pub model_number: String,
    pub hardware_revision: String,
    pub serial_number: String,
}

/// Where and how to fetch satellite assistance data.
#[derive(Debug, Clone, PartialEq, Eq, Default)]
pub struct MgaConfig {
    pub base_url: Option<String>,
    pub period_weeks: Option<u32>,
    pub resolution_days: Option<u32>,
    pub ublox_token: Option<String>,
}

} // verus!
