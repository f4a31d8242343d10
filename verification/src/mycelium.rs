//! The backend inventory's two calls, from this device's side: the
//! registration record it sends, the URLs and headers it uses, how it
//! renders a check-in timestamp, and how it reads the response status.
//!
//! The HTTP transport lives outside this crate.

use vstd::prelude::*;
use crate::onboarding::OnboardingSettings;

verus! {

/// Mathematical model of [`WateringSchedule`].
pub enum WateringScheduleView {
    Interval { schedule: Seq<char>, period: Seq<char> },
    Threshold { below_soil_pf: u32, period: Seq<char> },
}

/// The watering-schedule descriptor sent with a registration.
pub enum WateringSchedule {
    Interval { schedule: String, period: String },
    Threshold { below_soil_pf: u32, period: String },
}

impl View for WateringSchedule {
    type V = WateringScheduleView;

    open spec fn view(&self) -> WateringScheduleView {
        match self {
            WateringSchedule::Interval { schedule, period } => WateringScheduleView::Interval {
                schedule: schedule@,
                period: period@,
            },
            WateringSchedule::Threshold { below_soil_pf, period } => {
                WateringScheduleView::Threshold {
                    below_soil_pf: *below_soil_pf,
                    period: period@,
                }
            },
        }
    }
}

/// Mathematical model of [`StationInsert`].
pub struct StationInsertView {
    pub mac: Seq<char>,
    pub name: Seq<char>,
    pub location: Seq<char>,
    pub description: Seq<char>,
    pub watering_schedule: WateringScheduleView,
}

/// The registration record sent to the backend inventory: the device's
/// hardware address, its display data and its measurement schedule.
pub struct StationInsert {
    pub mac: String,
    pub name: String,
    pub location: String,
    pub description: String,
    pub watering_schedule: WateringSchedule,
}

impl View for StationInsert {
    type V = StationInsertView;

    open spec fn view(&self) -> StationInsertView {
        StationInsertView {
            mac: self.mac@,
            name: self.name@,
            location: self.location@,
            description: self.description@,
            watering_schedule: self.watering_schedule@,
        }
    }
}

/// The fixed schedule descriptor every station registers with.
pub open spec fn default_schedule() -> WateringScheduleView {
    WateringScheduleView::Threshold { below_soil_pf: 500, period: "5 seconds"@ }
}

/// The registration record a station derives from its onboarding settings
/// and its hardware address.
pub open spec fn station_insert_of(s: crate::onboarding::SettingsView, mac: Seq<char>)
    -> StationInsertView {
    StationInsertView {
        mac: mac,
        name: s.name,
        location: s.location,
        description: s.description,
        watering_schedule: default_schedule(),
    }
}

/// Builds the registration record for this device.
pub fn build_station_insert(settings: &OnboardingSettings, mac: &String) -> (r: StationInsert)
    ensures
        r@ == station_insert_of(settings@, mac@),
{
    StationInsert {
        mac: mac.clone(),
        name: settings.name.clone(),
        location: settings.location.clone(),
        description: settings.description.clone(),
        watering_schedule: WateringSchedule::Threshold {
            below_soil_pf: 500,
            period: String::from_str("5 seconds"),
        },
    }
}

/// A failure of one backend call.
#[derive(PartialEq, Eq, Structural, Debug)]
pub enum MyceliumError {
    Json,
    Utf8,
    IO,
    UnexpectedResponse { status: u16 },
}

/// Reads a backend response status: 200 is success, anything else is a
/// hard failure carrying the status code.
pub fn classify_status(status: u16) -> (r: Result<(), MyceliumError>)
    ensures
        status == 200 ==> r is Ok,
        status != 200 ==> r == Result::<(), MyceliumError>::Err(
            MyceliumError::UnexpectedResponse { status },
        ),
{
    if status == 200 {
        Ok(())
    } else {
        Err(MyceliumError::UnexpectedResponse { status })
    }
}

/// The registration endpoint under a backend base URL.
pub fn stations_url(base: &str) -> (r: String)
    ensures
        r@ == base@ + "/api/stations"@,
{
    let mut url = base.to_owned();
    url.append("/api/stations");
    url
}

/// The check-in endpoint of one station under a backend base URL.
pub fn checkin_url(base: &str, station_id: &str) -> (r: String)
    ensures
        r@ == base@ + "/api/stations/"@ + station_id@ + "/checkin"@,
{
    let mut url = base.to_owned();
    url.append("/api/stations/");
    url.append(station_id);
    url.append("/checkin");
    url
}

/// The bearer authorization header sent with both backend calls.
pub fn bearer_header(access_token: &str) -> (r: String)
    ensures
        r@ == "Bearer "@ + access_token@,
{
    let mut h = String::from_str("Bearer ");
    h.append(access_token);
    h
}

/// The sixteen uppercase hexadecimal digits.
pub open spec fn hex_digit(n: u8) -> char {
    if n == 0 {
        '0'
    } else if n == 1 {
        '1'
    } else if n == 2 {
        '2'
    } else if n == 3 {
        '3'
    } else if n == 4 {
        '4'
    } else if n == 5 {
        '5'
    } else if n == 6 {
        '6'
    } else if n == 7 {
        '7'
    } else if n == 8 {
        '8'
    } else if n == 9 {
        '9'
    } else if n == 10 {
        'A'
    } else if n == 11 {
        'B'
    } else if n == 12 {
        'C'
    } else if n == 13 {
        'D'
    } else if n == 14 {
        'E'
    } else {
        'F'
    }
}

/// One byte as two uppercase hexadecimal digits.
pub open spec fn byte_hex(b: u8) -> Seq<char> {
    seq![hex_digit(b / 16), hex_digit(b % 16)]
}

/// A hardware address in its canonical colon-separated form.
pub open spec fn spec_mac_string(m: Seq<u8>) -> Seq<char>
    recommends
        m.len() == 6,
{
    byte_hex(m[0]) + ":"@ + byte_hex(m[1]) + ":"@ + byte_hex(m[2]) + ":"@ + byte_hex(m[3]) + ":"@
        + byte_hex(m[4]) + ":"@ + byte_hex(m[5])
}

/// One hexadecimal digit, for values below sixteen.
fn hex_digit_str(n: u8) -> (r: &'static str)
    requires
        n < 16,
    ensures
        r@ == seq![hex_digit(n)],
{
    proof {
        reveal_strlit("0");
        reveal_strlit("1");
        reveal_strlit("2");
        reveal_strlit("3");
        reveal_strlit("4");
        reveal_strlit("5");
        reveal_strlit("6");
        reveal_strlit("7");
        reveal_strlit("8");
        reveal_strlit("9");
        reveal_strlit("A");
        reveal_strlit("B");
        reveal_strlit("C");
        reveal_strlit("D");
        reveal_strlit("E");
        reveal_strlit("F");
    }
    let r: &'static str = match n {
        0 => "0",
        1 => "1",
        2 => "2",
        3 => "3",
        4 => "4",
        5 => "5",
        6 => "6",
        7 => "7",
        8 => "8",
        9 => "9",
        10 => "A",
        11 => "B",
        12 => "C",
        13 => "D",
        14 => "E",
        _ => "F",
    };
    assert(r@ =~= seq![hex_digit(n)]);
    r
}

/// Appends one byte as two uppercase hexadecimal digits.
fn append_byte_hex(out: &mut String, b: u8)
    ensures
        final(out)@ == old(out)@ + byte_hex(b),
{
    out.append(hex_digit_str(b / 16));
    out.append(hex_digit_str(b % 16));
    assert(old(out)@ + seq![hex_digit(b / 16)] + seq![hex_digit(b % 16)] =~= old(out)@ + byte_hex(
        b,
    ));
}

/// Renders the device's stable hardware address, two uppercase
/// hexadecimal digits per byte, colon-separated.
pub fn mac_string(mac: &[u8; 6]) -> (r: String)
    ensures
        r@ == spec_mac_string(mac@),
{
    let mut out = String::new();
    append_byte_hex(&mut out, mac[0]);
    out.append(":");
    append_byte_hex(&mut out, mac[1]);
    out.append(":");
    append_byte_hex(&mut out, mac[2]);
    out.append(":");
    append_byte_hex(&mut out, mac[3]);
    out.append(":");
    append_byte_hex(&mut out, mac[4]);
    out.append(":");
    append_byte_hex(&mut out, mac[5]);
    out
}

/// What chrono renders a Unix timestamp to, in RFC 3339 with second
/// precision and a `Z` suffix (for instance `2018-01-26T18:30:09Z`), or
/// nothing for an out-of-range timestamp.
pub uninterp spec fn rfc3339_utc_of(timestamp: u64) -> Option<Seq<char>>;

/// Relies on chrono's `DateTime::<Utc>::from_timestamp` (`None` exactly on
/// an out-of-range number of seconds) composed with
/// `to_rfc3339_opts(SecondsFormat::Secs, true)`; the rendering depends on
/// the timestamp alone.
#[verifier::external_body]
pub fn timestamp_to_rfc3339(timestamp: u64) -> (r: Option<String>)
    ensures
        match r {
            Some(s) => rfc3339_utc_of(timestamp) == Some(s@),
            None => rfc3339_utc_of(timestamp) is None,
        },
{
    chrono::DateTime::from_timestamp(timestamp as i64, 0)
        .map(|dt| dt.to_rfc3339_opts(chrono::SecondsFormat::Secs, true))
}

} // verus!
