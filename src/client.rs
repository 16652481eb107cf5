use vstd::prelude::*;
use crate::text::{int_text, int_to_text};
use crate::time::{day_start, day_start_of};

verus! {

/// The error body the provider sends instead of data.
#[derive(Debug, Clone)]
pub struct ClientError {
    /// HTTP response code.
    pub code: u16,
    pub message: String,
}

/// Why a request for weather data failed.
#[derive(Debug, Clone)]
pub enum WeatherError {
    /// The request did not complete (DNS, connection, TLS, timeout); the
    /// transport's own description.
    Request(String),
    /// The body was neither the expected data nor a provider error: the parse
    /// failure of the expected shape, and the body as text.
    Deserialize(String, String),
    /// The provider answered with an error body.
    Client(ClientError),
}

/// Decides what a response body amounts to. `primary` is the body parsed as
/// the expected data; `fallback` the same body parsed as a provider error,
/// `None` where it is not one; `body` the body as text. The data wins; a
/// provider error comes next; otherwise the first parse failure is kept
/// together with the body.
pub fn resolve_body<T>(primary: Result<T, String>, fallback: Option<ClientError>, body: String) -> (r:
    Result<T, WeatherError>)
    ensures
        primary matches Ok(v) ==> r == Ok::<T, WeatherError>(v),
        primary matches Err(e) ==> r == match fallback {
            Some(ce) => Err::<T, WeatherError>(WeatherError::Client(ce)),
            None => Err::<T, WeatherError>(WeatherError::Deserialize(e, body)),
        },
{
    match primary {
        Ok(v) => Ok(v),
        Err(e) => match fallback {
            Some(ce) => Err(WeatherError::Client(ce)),
            None => Err(WeatherError::Deserialize(e, body)),
        },
    }
}

/// Where every endpoint of the provider lives.
pub open spec fn base_url() -> Seq<char> {
    "https://api.openweathermap.org/data/2.5/"@
}

/// A request to one endpoint: its address and its own query parameters.
/// The location and the key are added to every request by the caller.
#[derive(Debug, Clone)]
pub struct ApiRequest {
    pub url: String,
    pub params: Vec<(String, String)>,
}

/// The parameter `(k, v)` at `i` of `params` has the text `key` and `value`.
pub open spec fn param_is(params: Seq<(String, String)>, i: int, key: Seq<char>, value: Seq<char>) -> bool {
    params[i].0@ == key && params[i].1@ == value
}

/// The address of an endpoint.
pub fn endpoint_url(endpoint: &str) -> (r: String)
    ensures
        r@ == base_url() + endpoint@,
{
    let mut url = String::from_str("https://api.openweathermap.org/data/2.5/");
    url.append(endpoint);
    url
}

/// The forecast request: hourly and daily data, in imperial units.
pub fn onecall_request() -> (r: ApiRequest)
    ensures
        r.url@ == base_url() + "onecall"@,
        r.params@.len() == 2,
        param_is(r.params@, 0, "exclude"@, "currently,minutely"@),
        param_is(r.params@, 1, "units"@, "imperial"@),
{
    let mut params: Vec<(String, String)> = Vec::new();
    params.push((String::from_str("exclude"), String::from_str("currently,minutely")));
    params.push((String::from_str("units"), String::from_str("imperial")));
    ApiRequest { url: endpoint_url("onecall"), params }
}

/// The request for the hours of the past day that holds `date` (seconds
/// since the epoch), in imperial units. The day is named by its start,
/// 00:00:00 UTC; `None` where that start lies before the earliest `i64`
/// timestamp.
pub fn historical_request(date: i64) -> (r: Option<ApiRequest>)
    ensures
        r is None <==> day_start(date as int) < i64::MIN,
        r matches Some(req) ==> {
            &&& req.url@ == base_url() + "onecall/timemachine"@
            &&& req.params@.len() == 2
            &&& param_is(req.params@, 0, "units"@, "imperial"@)
            &&& param_is(req.params@, 1, "dt"@, int_text(day_start(date as int)))
        },
{
    let start = match day_start_of(date) {
        Some(s) => s,
        None => return None,
    };
    let mut params: Vec<(String, String)> = Vec::new();
    params.push((String::from_str("units"), String::from_str("imperial")));
    params.push((String::from_str("dt"), int_to_text(start)));
    Some(ApiRequest { url: endpoint_url("onecall/timemachine"), params })
}

} // verus!
