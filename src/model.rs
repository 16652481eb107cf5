use vstd::prelude::*;
use crate::time::UnixUTC;

verus! {

// Readings are held in hundredths of their unit: a temperature of 55.31°F is
// `5531`, a humidity of 87% is `8700`.

/// One hour of the forecast.
#[derive(Debug, Clone)]
pub struct Hourly {
    pub dt: UnixUTC,
    pub temp: i64,
    pub feels_like: i64,
    pub humidity: i64,
    pub clouds: i64,
    pub rain: Option<Rain>,
    pub snow: Option<Snow>,
}

/// Cloud cover, in hundredths of a percent.
#[derive(Debug, Clone)]
pub struct Cloudiness {
    pub all: i64,
}

/// Rain over the last hour, in hundredths of a millimetre.
#[derive(Debug, Clone)]
pub struct Rain {
    pub one_hour: i64,
}

/// Snow over the last hour, in hundredths of a millimetre.
#[derive(Debug, Clone)]
pub struct Snow {
    pub one_hour: i64,
}

/// One day of the forecast.
#[derive(Debug, Clone)]
pub struct Daily {
    pub dt: UnixUTC,
    pub sunrise: UnixUTC,
    pub sunset: UnixUTC,
    pub rain: Option<i64>,
    pub snow: Option<i64>,
    pub temp: DailyTemp,
    pub feels_like: DailyTempCommon,
}

/// Temperatures at four times of a day.
#[derive(Debug, Clone)]
pub struct DailyTempCommon {
    pub morn: i64,
    pub day: i64,
    pub eve: i64,
    pub night: i64,
}

/// Temperatures of a day, with its extremes.
#[derive(Debug, Clone)]
pub struct DailyTemp {
    pub common: DailyTempCommon,
    pub min: i64,
    pub max: i64,
}

/// One hour of a past day.
#[derive(Debug, Clone)]
pub struct HistoricalHourly {
    pub dt: UnixUTC,
    pub temp: i64,
    pub feels_like: i64,
    pub humidity: i64,
    pub clouds: i64,
    pub wind_speed: i64,
    pub wind_gust: Option<i64>,
    pub rain: Option<Rain>,
    pub snow: Option<Snow>,
}

/// The forecast: hours and days in the provider's chronological order.
#[derive(Debug, Clone)]
pub struct OneCall {
    pub hourly: Vec<Hourly>,
    pub daily: Vec<Daily>,
}

/// The hours of one past day.
#[derive(Debug, Clone)]
pub struct Historical {
    pub hourly: Vec<HistoricalHourly>,
}

/// How many forecast hours make up "today".
pub const TODAY_HOURS: usize = 24;

/// The smaller of two lengths.
pub open spec fn min_len(a: int, b: int) -> int {
    if a < b {
        a
    } else {
        b
    }
}

impl OneCall {
    /// The feels-like temperatures of the first `TODAY_HOURS` forecast hours
    /// (of all of them, where there are fewer).
    pub fn today_feels_like(&self) -> (r: Vec<i64>)
        ensures
            r@.len() == min_len(self.hourly@.len() as int, TODAY_HOURS as int),
            forall|i: int| 0 <= i < r@.len() ==> r@[i] == self.hourly@[i].feels_like,
    {
        let n = if self.hourly.len() < TODAY_HOURS { self.hourly.len() } else { TODAY_HOURS };
        let mut r: Vec<i64> = Vec::new();
        let mut i: usize = 0;
        while i < n
            invariant
                n == min_len(self.hourly@.len() as int, TODAY_HOURS as int),
                i <= n,
                r@.len() == i,
                forall|k: int| 0 <= k < i ==> r@[k] == self.hourly@[k].feels_like,
            decreases n - i,
        {
            r.push(self.hourly[i].feels_like);
            i = i + 1;
        }
        r
    }
}

impl Historical {
    /// The feels-like temperatures of every hour of the day, in order.
    pub fn feels_like(&self) -> (r: Vec<i64>)
        ensures
            r@.len() == self.hourly@.len(),
            forall|i: int| 0 <= i < r@.len() ==> r@[i] == self.hourly@[i].feels_like,
    {
        let n = self.hourly.len();
        let mut r: Vec<i64> = Vec::new();
        let mut i: usize = 0;
        while i < n
            invariant
                n == self.hourly@.len(),
                i <= n,
                r@.len() == i,
                forall|k: int| 0 <= k < i ==> r@[k] == self.hourly@[k].feels_like,
            decreases n - i,
        {
            r.push(self.hourly[i].feels_like);
            i = i + 1;
        }
        r
    }
}

} // verus!
