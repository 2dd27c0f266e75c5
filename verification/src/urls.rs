//! Request URLs for the fixed location (latitude 51.5074, longitude 0.1278):
//! the current-forecast endpoint and the historical ("time machine") endpoint,
//! each stated as the exact character sequence it produces.

use vstd::prelude::*;
use crate::numbers::{dec_of_nat, dec_u64};

verus! {

/// The forecast URL: hourly data for the fixed location, with the minutely,
/// daily and alerts sections excluded, authenticated by `key`.
pub open spec fn spec_forecast_url(key: Seq<char>) -> Seq<char> {
    "https://api.openweathermap.org/data/2.5/onecall?lat=51.5074&lon=0.1278&exclude=minutely,daily,alerts&appid="@
        + key
}

/// The historical URL: hourly data for the fixed location at Unix time `dt`,
/// authenticated by `key`.
pub open spec fn spec_historical_url(key: Seq<char>, dt: nat) -> Seq<char> {
    "https://api.openweathermap.org/data/2.5/onecall/timemachine?lat=51.5074&lon=0.1278&dt="@
        + dec_of_nat(dt) + "&appid="@ + key
}

/// Builds the current-forecast URL for `api_key`.
pub fn forecast_url(api_key: &str) -> (r: String)
    ensures
        r@ == spec_forecast_url(api_key@),
{
    let mut s: String =
        "https://api.openweathermap.org/data/2.5/onecall?lat=51.5074&lon=0.1278&exclude=minutely,daily,alerts&appid=".to_owned();
    s.append(api_key);
    s
}

/// Builds the historical URL for `api_key` at Unix time `dt`.
pub fn historical_url(api_key: &str, dt: u64) -> (r: String)
    ensures
        r@ == spec_historical_url(api_key@, dt as nat),
{
    let mut s: String =
        "https://api.openweathermap.org/data/2.5/onecall/timemachine?lat=51.5074&lon=0.1278&dt=".to_owned();
    let digits = dec_u64(dt);
    s.append(digits.as_str());
    s.append("&appid=");
    s.append(api_key);
    proof {
        assert(s@ =~= spec_historical_url(api_key@, dt as nat));
    }
    s
}

/// The Unix time one day before `now`: `now - 86400`, or `None` when `now` is
/// within the first day of the epoch.
pub fn yesterday_timestamp(now: u64) -> (r: Option<u64>)
    ensures
        match r {
            Some(y) => now >= 86400 && y == now - 86400,
            None => now < 86400,
        },
{
    if now >= 86400 {
        Some(now - 86400)
    } else {
        None
    }
}

/// Builds the historical URL for the window one day before `now`: its `dt`
/// query parameter is exactly `now - 86400`.
pub fn historical_url_for(api_key: &str, now: u64) -> (r: String)
    requires
        now >= 86400,
    ensures
        r@ == spec_historical_url(api_key@, (now - 86400) as nat),
{
    historical_url(api_key, now - 86400)
}

} // verus!
