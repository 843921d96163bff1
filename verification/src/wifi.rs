//! The scanned Wi-Fi network record and the hotspot test.
//!
//! Scanning itself runs system tools and stays with the caller; this module
//! holds the record type and the rule that recognizes the robot's own
//! hotspot by its network name.

use vstd::prelude::*;
use crate::strutil::{contains_s, contains_lower_chars, lower_seq_s};

verus! {

/// One scanned Wi-Fi network.
#[derive(Clone, Debug)]
pub struct WifiNetwork {
    pub ssid: String,
    pub signal_strength: Option<i32>,
    pub is_reachy_hotspot: bool,
}

/// Whether a network name is the robot's own hotspot: its ASCII-lowercased
/// name contains one of the three known spellings.
pub open spec fn is_reachy_hotspot_s(ssid: Seq<char>) -> bool {
    contains_s(lower_seq_s(ssid), "reachy-mini"@) || contains_s(lower_seq_s(ssid), "reachy_mini"@)
        || contains_s(lower_seq_s(ssid), "reachymini"@)
}

/// Does this network name look like the robot's hotspot?
pub fn is_reachy_hotspot(ssid: &str) -> (r: bool)
    ensures
        r == is_reachy_hotspot_s(ssid@),
{
    contains_lower_chars(ssid, "reachy-mini") || contains_lower_chars(ssid, "reachy_mini")
        || contains_lower_chars(ssid, "reachymini")
}

impl WifiNetwork {
    /// Build the record of one scanned network; the hotspot flag is derived
    /// from the name.
    pub fn from_scan(ssid: String, signal_strength: Option<i32>) -> (r: WifiNetwork)
        ensures
            r.ssid@ == ssid@,
            r.signal_strength == signal_strength,
            r.is_reachy_hotspot == is_reachy_hotspot_s(ssid@),
    {
        let hotspot = is_reachy_hotspot(ssid.as_str());
        WifiNetwork { ssid, signal_strength, is_reachy_hotspot: hotspot }
    }
}

} // verus!
