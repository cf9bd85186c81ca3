use vstd::prelude::*;
use crate::cache::SnapshotCache;

verus! {

/// Quality of the radio link, from worst to best.
#[derive(Debug, Clone, Copy, PartialEq, Eq, Structural)]
pub enum SignalQuality {
    Unreliable,
    Poor,
    Fair,
    Good,
    Excellent,
}

/// The received-signal magnitude that classification buckets: `-rssi` clamped to `[0, 100]`.
pub open spec fn rssi_magnitude(rssi: int) -> int {
    if -rssi < 0 {
        0
    } else if -rssi > 100 {
        100
    } else {
        -rssi
    }
}

/// Classification of a clamped magnitude by the fixed thresholds.
pub open spec fn quality_of_magnitude(m: int) -> SignalQuality {
    if m <= 50 {
        SignalQuality::Excellent
    } else if m <= 60 {
        SignalQuality::Good
    } else if m <= 70 {
        SignalQuality::Fair
    } else if m <= 85 {
        SignalQuality::Poor
    } else {
        SignalQuality::Unreliable
    }
}

pub open spec fn quality_of_rssi(rssi: int) -> SignalQuality {
    quality_of_magnitude(rssi_magnitude(rssi))
}

/// Position of a quality on the scale 0 (Unreliable) to 4 (Excellent).
pub open spec fn quality_level(q: SignalQuality) -> int {
    match q {
        SignalQuality::Unreliable => 0,
        SignalQuality::Poor => 1,
        SignalQuality::Fair => 2,
        SignalQuality::Good => 3,
        SignalQuality::Excellent => 4,
    }
}

impl SignalQuality {
    /// Classifies a received-signal-strength reading in dBm.
    pub fn from_rssi(rssi: i32) -> (r: Self)
        ensures
            r == quality_of_rssi(rssi as int),
    {
        let magnitude: i32 = if rssi >= 0 {
            0
        } else if rssi <= -100 {
            100
        } else {
            -rssi
        };
        if magnitude <= 50 {
            SignalQuality::Excellent
        } else if magnitude <= 60 {
            SignalQuality::Good
        } else if magnitude <= 70 {
            SignalQuality::Fair
        } else if magnitude <= 85 {
            SignalQuality::Poor
        } else {
            SignalQuality::Unreliable
        }
    }

    /// The quality's position on the scale 0 to 4.
    pub fn level(self) -> (r: i32)
        ensures
            r as int == quality_level(self),
    {
        match self {
            SignalQuality::Unreliable => 0,
            SignalQuality::Poor => 1,
            SignalQuality::Fair => 2,
            SignalQuality::Good => 3,
            SignalQuality::Excellent => 4,
        }
    }
}

impl From<SignalQuality> for i32 {
    fn from(value: SignalQuality) -> (r: i32) {
        value.level()
    }
}

impl vstd::std_specs::convert::FromSpecImpl<SignalQuality> for i32 {
    open spec fn obeys_from_spec() -> bool {
        true
    }

    open spec fn from_spec(v: SignalQuality) -> i32 {
        quality_level(v) as i32
    }
}

/// The published state of the radio link.
#[derive(Debug, Clone, Copy, PartialEq, Eq, Structural)]
pub struct LinkStatus {
    pub signal_quality: SignalQuality,
}

impl LinkStatus {
    /// The status published for a received-signal-strength reading.
    pub fn from_rssi(rssi: i32) -> (r: Self)
        ensures
            r.signal_quality == quality_of_rssi(rssi as int),
    {
        LinkStatus { signal_quality: SignalQuality::from_rssi(rssi) }
    }
}

/// The level a consumer shows for the latest link status; `None` while no status
/// was published, which a consumer shows as a distinct no-data state.
pub fn signal_level(status: Option<LinkStatus>) -> (r: Option<i32>)
    ensures
        r is None <==> status is None,
        status matches Some(s) ==> r == Some(quality_level(s.signal_quality) as i32),
{
    match status {
        Some(s) => Some(i32::from(s.signal_quality)),
        None => None,
    }
}

/// Completes a connectivity cycle from the signal strength read on the link: the
/// classified status replaces the cached one and is returned.
pub fn update(cache: &mut SnapshotCache<LinkStatus>, rssi: i32) -> (r: LinkStatus)
    ensures
        r.signal_quality == quality_of_rssi(rssi as int),
        final(cache)@ == Some(r),
{
    let status = LinkStatus::from_rssi(rssi);
    cache.publish(status);
    status
}

} // verus!
