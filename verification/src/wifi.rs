//! Network-join settings and the enrichment step.
//!
//! "Enriched" settings carry the radio channel and the access-point
//! identifier discovered during a scan; they are persisted so that future
//! joins skip discovery. The scan itself and the join are performed by the
//! network driver outside this crate; this module holds the decisions: which
//! access point matches the target SSID, and how its discovery enriches the
//! settings.

use vstd::prelude::*;

verus! {

/// Mathematical model of [`MyceliumWifiSettings`].
pub struct WifiSettingsView {
    pub ssid: Seq<char>,
    pub password: Seq<char>,
    pub channel: Option<u8>,
    pub bssid: Option<Seq<u8>>,
}

/// Parameters of one network join: the target SSID and credential, and the
/// optional radio channel / access-point identifier filled in by discovery.
pub struct MyceliumWifiSettings {
    pub ssid: String,
    pub password: String,
    pub channel: Option<u8>,
    pub bssid: Option<[u8; 6]>,
}

impl View for MyceliumWifiSettings {
    type V = WifiSettingsView;

    open spec fn view(&self) -> WifiSettingsView {
        WifiSettingsView {
            ssid: self.ssid@,
            password: self.password@,
            channel: self.channel,
            bssid: match self.bssid {
                Some(b) => Some(b@),
                None => None,
            },
        }
    }
}

/// Settings straight from the user: no channel, no access-point identifier.
pub open spec fn wifi_basic(ssid: Seq<char>, password: Seq<char>) -> WifiSettingsView {
    WifiSettingsView { ssid: ssid, password: password, channel: None, bssid: None }
}

impl MyceliumWifiSettings {
    /// Un-enriched settings: just an SSID and a credential.
    pub fn basic(ssid: String, password: String) -> (r: MyceliumWifiSettings)
        ensures
            r@ == wifi_basic(ssid@, password@),
    {
        MyceliumWifiSettings { ssid, password, channel: None, bssid: None }
    }
}

impl Clone for MyceliumWifiSettings {
    fn clone(&self) -> (r: Self)
        ensures
            r@ == self@,
    {
        MyceliumWifiSettings {
            ssid: self.ssid.clone(),
            password: self.password.clone(),
            channel: self.channel,
            bssid: self.bssid,
        }
    }
}

/// Mathematical model of [`AccessPointInfo`].
pub struct AccessPointView {
    pub ssid: Seq<char>,
    pub channel: u8,
    pub bssid: Seq<u8>,
}

/// What one scanned access point contributes to the join decision: its SSID,
/// radio channel and hardware identifier.
pub struct AccessPointInfo {
    pub ssid: String,
    pub channel: u8,
    pub bssid: [u8; 6],
}

impl View for AccessPointInfo {
    type V = AccessPointView;

    open spec fn view(&self) -> AccessPointView {
        AccessPointView { ssid: self.ssid@, channel: self.channel, bssid: self.bssid@ }
    }
}

/// How a discovery outcome enriches join settings: a discovered channel and
/// access-point identifier are taken over only when the settings carry
/// neither yet; otherwise the settings stay as they are.
pub open spec fn wifi_enriched(
    s: WifiSettingsView,
    found: Option<(u8, Seq<u8>)>,
) -> WifiSettingsView {
    if s.channel is None && s.bssid is None && found is Some {
        WifiSettingsView {
            channel: Some(found->Some_0.0),
            bssid: Some(found->Some_0.1),
            ..s
        }
    } else {
        s
    }
}

/// Picks the first scanned access point whose SSID equals the target SSID
/// and hands back its channel and hardware identifier.
pub fn find_access_point(aps: &Vec<AccessPointInfo>, ssid: &String) -> (r: Option<(u8, [u8; 6])>)
    ensures
        match r {
            Some(p) => exists|i: int|
                0 <= i < aps@.len() && aps@[i]@.ssid == ssid@ && aps@[i]@.channel == p.0
                    && aps@[i]@.bssid == p.1@ && (forall|j: int|
                    0 <= j < i ==> aps@[j]@.ssid != ssid@),
            None => forall|j: int| 0 <= j < aps@.len() ==> aps@[j]@.ssid != ssid@,
        },
{
    let mut i: usize = 0;
    while i < aps.len()
        invariant
            0 <= i <= aps@.len(),
            forall|j: int| 0 <= j < i ==> aps@[j]@.ssid != ssid@,
        decreases aps@.len() - i,
    {
        if aps[i].ssid.eq(ssid) {
            let found = (aps[i].channel, aps[i].bssid);
            assert(aps@[i as int]@.ssid == ssid@ && aps@[i as int]@.channel == found.0
                && aps@[i as int]@.bssid == found.1@);
            return Some(found);
        }
        i = i + 1;
    }
    None
}

/// Applies a discovery outcome to the settings about to be joined.
pub fn enrich(settings: MyceliumWifiSettings, found: Option<(u8, [u8; 6])>) -> (r:
    MyceliumWifiSettings)
    ensures
        r@ == wifi_enriched(settings@, match found {
            Some(p) => Some((p.0, p.1@)),
            None => None,
        }),
{
    if settings.channel.is_none() && settings.bssid.is_none() {
        match found {
            Some((channel, bssid)) => MyceliumWifiSettings {
                channel: Some(channel),
                bssid: Some(bssid),
                ..settings
            },
            None => settings,
        }
    } else {
        settings
    }
}

} // verus!
