//! The configuration records that the sequence hands to its collaborators.
//! Every field is named and given a value here; none is left to a
//! collaborator's defaults.

use vstd::prelude::*;
use crate::credentials::Credentials;

verus! {

/// How the station authenticates to the access point.
#[derive(Clone, Copy, Debug, PartialEq, Eq, Structural)]
pub enum AuthMethod {
    /// No authentication: an open network.
    Open,
    Wep,
    Wpa,
    Wpa2Personal,
    WpaWpa2Personal,
    Wpa2Enterprise,
    Wpa3Personal,
    Wpa2Wpa3Personal,
    WapiPersonal,
}

/// By what the access points that a complete scan found are ranked.
#[derive(Clone, Copy, Debug, PartialEq, Eq, Structural)]
pub enum ScanSortMethod {
    Signal,
    Security,
}

/// How the station looks for its access point.
#[derive(Clone, Copy, Debug, PartialEq, Eq, Structural)]
pub enum ScanMethod {
    /// Scan every channel, then pick by the given ranking.
    CompleteScan(ScanSortMethod),
    /// Join the first matching access point.
    FastScan,
}

/// Whether protected management frames are advertised, and required.
#[derive(Clone, Copy, Debug, PartialEq, Eq, Structural)]
pub enum ProtectedFrames {
    NotCapable,
    Capable { required: bool },
}

/// The client (station) configuration that is applied to the radio driver.
#[derive(Debug, PartialEq, Eq)]
pub struct ClientConfig {
    pub credentials: Credentials,
    pub bssid: Option<[u8; 6]>,
    pub auth_method: AuthMethod,
    pub channel: Option<u8>,
    pub scan_method: ScanMethod,
    pub protected_frames: ProtectedFrames,
}

impl ClientConfig {
    /// The configuration of a station that joins the network of the given
    /// credentials: WPA2-Personal, any access point of that name, on any
    /// channel, found by a complete scan ranked by signal, without protected
    /// management frames.
    pub open spec fn station_of(credentials: Credentials) -> ClientConfig {
        ClientConfig {
            credentials,
            bssid: None,
            auth_method: AuthMethod::Wpa2Personal,
            channel: None,
            scan_method: ScanMethod::CompleteScan(ScanSortMethod::Signal),
            protected_frames: ProtectedFrames::NotCapable,
        }
    }

    /// Builds the station configuration for the given credentials.
    pub fn station(credentials: Credentials) -> (r: ClientConfig)
        ensures
            r == Self::station_of(credentials),
    {
        ClientConfig {
            credentials,
            bssid: None,
            auth_method: AuthMethod::Wpa2Personal,
            channel: None,
            scan_method: ScanMethod::CompleteScan(ScanSortMethod::Signal),
            protected_frames: ProtectedFrames::NotCapable,
        }
    }
}

/// The time server that the clock is synchronized against.
pub const TIME_SERVER: &'static str = "pool.ntp.org";

/// How the time-sync client learns the time.
#[derive(Clone, Copy, Debug, PartialEq, Eq, Structural)]
pub enum OperatingMode {
    Poll,
    ListenOnly,
}

/// How the time-sync client corrects the clock.
#[derive(Clone, Copy, Debug, PartialEq, Eq, Structural)]
pub enum SyncMode {
    Smooth,
    Immediate,
}

/// The configuration that the time-sync client is started with.
#[derive(Clone, Copy, Debug, PartialEq, Eq)]
pub struct SyncConfig {
    pub server: &'static str,
    pub operating_mode: OperatingMode,
    pub sync_mode: SyncMode,
}

impl SyncConfig {
    /// The one configuration in use: the fixed server, polled, with the
    /// clock set at once.
    pub open spec fn fixed_spec() -> SyncConfig {
        SyncConfig {
            server: TIME_SERVER,
            operating_mode: OperatingMode::Poll,
            sync_mode: SyncMode::Immediate,
        }
    }

    /// Builds the configuration in use.
    pub fn fixed() -> (r: SyncConfig)
        ensures
            r == Self::fixed_spec(),
    {
        SyncConfig {
            server: TIME_SERVER,
            operating_mode: OperatingMode::Poll,
            sync_mode: SyncMode::Immediate,
        }
    }
}

} // verus!
