//! The weather data client: the request for each lookup stage, the decisions
//! between the two stages, Celsius normalisation of forecast periods, and the
//! human-readable report.
//!
//! The HTTP exchange itself is made by the caller: it sends the request that a
//! step names and hands the decoded response, or the failure, to the next step.

use vstd::prelude::*;
use crate::units::{
    celsius, celsius_ninths, nearest_tenths, one_decimal, one_decimal_text, signed_decimal,
    temperature_text, unit_is_fahrenheit, is_fahrenheit,
};

verus! {

/// The base endpoint of the weather data service.
pub const API_BASE_URL: &'static str = "https://api.weather.gov";

/// The identifying `User-Agent` sent with every request.
pub const USER_AGENT: &'static str = "weather-app/1.0";

/// The `Accept` header sent with every request.
pub const ACCEPT: &'static str = "application/geo+json";

/// The report returned when the forecast could not be retrieved.
pub const FALLBACK_REPORT: &'static str = "Failed to get weather information";

/// A location, each coordinate held as the decimal text that the service's
/// request path takes. No range check is made: the service judges the values.
pub struct Point {
    pub latitude: String,
    pub longitude: String,
}

/// The answer of the point lookup.
pub struct WeatherResponse {
    pub properties: Properties,
}

/// The grid reference of a point.
pub struct Properties {
    pub forecast: String,
    pub forecast_hourly: String,
    pub relative_location: RelativeLocation,
    pub grid_id: String,
    pub grid_x: i32,
    pub grid_y: i32,
    pub time_zone: String,
}

/// The place nearest to a point.
pub struct RelativeLocation {
    pub properties: LocationProperties,
}

/// City and state of a place.
pub struct LocationProperties {
    pub city: String,
    pub state: String,
}

/// The answer of the forecast lookup.
pub struct ForecastResponse {
    pub properties: ForecastProperties,
}

/// A forecast: its periods in the order the service gave them.
pub struct ForecastProperties {
    pub periods: Vec<ForecastPeriod>,
    pub update_time: Option<String>,
}

/// One time window of a forecast. `temperature_celsius`, once filled, holds the
/// temperature in ninths of a degree Celsius.
pub struct ForecastPeriod {
    pub number: i32,
    pub name: String,
    pub temperature: i32,
    pub temperature_unit: String,
    pub wind_speed: String,
    pub wind_direction: String,
    pub short_forecast: String,
    pub detailed_forecast: String,
    pub start_time: String,
    pub end_time: String,
    pub temperature_celsius: Option<i64>,
}

/// Why a lookup stage failed.
pub enum UpstreamError {
    /// The request could not be made or its answer not read.
    Network(String),
    /// The service answered with a status other than success.
    Status(u16),
    /// The answer does not have the expected shape.
    Malformed(String),
}

impl ForecastPeriod {
    /// The temperature in ninths of a degree Celsius, computed from the reading.
    pub open spec fn computed_celsius(&self) -> int {
        celsius_ninths(self.temperature as int, self.temperature_unit@)
    }

    /// The temperature in ninths of a degree Celsius: the filled value, if any.
    pub open spec fn celsius_spec(&self) -> int {
        match self.temperature_celsius {
            Some(c) => c as int,
            None => self.computed_celsius(),
        }
    }

    /// The filled value, when there is one, is the computed one.
    pub open spec fn memo_consistent(&self) -> bool {
        match self.temperature_celsius {
            Some(c) => c as int == self.computed_celsius(),
            None => true,
        }
    }

    /// The same period with its Celsius value filled.
    pub open spec fn memoized(self) -> ForecastPeriod {
        ForecastPeriod { temperature_celsius: Some(self.computed_celsius() as i64), ..self }
    }

    /// The temperature in ninths of a degree Celsius.
    pub fn celsius(&self) -> (r: i64)
        ensures
            r as int == self.celsius_spec(),
    {
        match self.temperature_celsius {
            Some(c) => c,
            None => celsius(self.temperature, self.temperature_unit.as_str()),
        }
    }

    /// The temperature in degrees Celsius, rounded to one decimal place.
    pub fn celsius_formatted(&self) -> (r: String)
        ensures
            r@ == one_decimal_text(nearest_tenths(self.celsius_spec())),
    {
        one_decimal(self.celsius())
    }

    /// This period with its Celsius value filled.
    pub fn with_celsius(self) -> (r: ForecastPeriod)
        ensures
            r == self.memoized(),
    {
        let c = celsius(self.temperature, self.temperature_unit.as_str());
        ForecastPeriod { temperature_celsius: Some(c), ..self }
    }
}

/// Filling a period's Celsius value does not change what it reads, and reading
/// it gives the same value however often it is read.
pub proof fn lemma_celsius_memo_stable(p: ForecastPeriod)
    requires
        p.memo_consistent(),
    ensures
        p.celsius_spec() == p.computed_celsius(),
        p.memoized().celsius_spec() == p.celsius_spec(),
        p.memoized().memo_consistent(),
        p.memoized().memoized() == p.memoized(),
{
}

/// The request path of the point lookup.
pub open spec fn point_url_text(point: Point) -> Seq<char> {
    API_BASE_URL@ + "/points/"@ + point.latitude@ + ","@ + point.longitude@
}

/// The URL of the point lookup: `{base}/points/{latitude},{longitude}`.
pub fn get_point_url(point: &Point) -> (r: String)
    ensures
        r@ == point_url_text(*point),
{
    let mut url = String::from_str(API_BASE_URL);
    url.append("/points/");
    url.append(point.latitude.as_str());
    url.append(",");
    url.append(point.longitude.as_str());
    url
}

/// The headers sent with both lookups, as (name, value) pairs.
pub fn request_headers() -> (r: Vec<(String, String)>)
    ensures
        r@.len() == 2,
        r@[0].0@ == "User-Agent"@,
        r@[0].1@ == USER_AGENT@,
        r@[1].0@ == "Accept"@,
        r@[1].1@ == ACCEPT@,
{
    let mut headers: Vec<(String, String)> = Vec::new();
    headers.push((String::from_str("User-Agent"), String::from_str(USER_AGENT)));
    headers.push((String::from_str("Accept"), String::from_str(ACCEPT)));
    headers
}

/// The step after the point lookup: on success, the URL of the forecast to
/// fetch; on failure, that failure, and no second request is made.
pub fn forecast_url_after_grid(grid: Result<WeatherResponse, UpstreamError>) -> (r: Result<
    String,
    UpstreamError,
>)
    ensures
        match grid {
            Ok(g) => r matches Ok(u) && u == g.properties.forecast,
            Err(e) => r matches Err(f) && f == e,
        },
{
    match grid {
        Ok(g) => Ok(g.properties.forecast),
        Err(e) => Err(e),
    }
}

/// The periods of a forecast with every Celsius value filled, order kept.
pub open spec fn memoized_periods(periods: Seq<ForecastPeriod>) -> Seq<ForecastPeriod> {
    periods.map_values(|p: ForecastPeriod| p.memoized())
}

/// Fills the Celsius value of every period, keeping their order.
pub fn fill_celsius(forecast: &mut ForecastResponse)
    ensures
        final(forecast).properties.update_time == old(forecast).properties.update_time,
        final(forecast).properties.periods@ == memoized_periods(
            old(forecast).properties.periods@,
        ),
{
    let ghost before = forecast.properties.periods@;
    let mut rest: Vec<ForecastPeriod> = Vec::new();
    std::mem::swap(&mut rest, &mut forecast.properties.periods);
    let mut done: Vec<ForecastPeriod> = Vec::new();
    while rest.len() > 0
        invariant
            before == done@.take(0) + before,
            done@.len() + rest@.len() == before.len(),
            done@ == memoized_periods(before.take(done@.len() as int)),
            rest@ == before.skip(done@.len() as int),
        decreases rest@.len(),
    {
        let p = rest.remove(0);
        let ghost k = done@.len() as int;
        done.push(p.with_celsius());
        proof {
            assert(before.take(k + 1) =~= before.take(k).push(before[k]));
            assert(rest@ =~= before.skip(k + 1));
            assert(done@ =~= memoized_periods(before.take(k + 1)));
        }
    }
    assert(before.take(before.len() as int) =~= before);
    forecast.properties.periods = done;
}

/// The step after the forecast lookup: on success, the forecast with every
/// period's Celsius value filled; on failure, that failure.
pub fn forecast_after_fetch(forecast: Result<ForecastResponse, UpstreamError>) -> (r: Result<
    ForecastResponse,
    UpstreamError,
>)
    ensures
        match forecast {
            Ok(f) => r matches Ok(g) && g.properties.update_time == f.properties.update_time
                && g.properties.periods@ == memoized_periods(f.properties.periods@),
            Err(e) => r matches Err(f) && f == e,
        },
{
    match forecast {
        Ok(f) => {
            let mut f = f;
            fill_celsius(&mut f);
            Ok(f)
        },
        Err(e) => Err(e),
    }
}

/// The Rust debug rendering of a string: quoted, with special characters escaped.
pub uninterp spec fn debug_quoted(s: Seq<char>) -> Seq<char>;

/// Relies on the `Debug` impl of `str`: a string in quotes with its special
/// characters escaped, a function of the characters alone.
#[verifier::external_body]
fn debug_text(s: &str) -> (r: String)
    ensures
        r@ == debug_quoted(s@),
{
    format!("{:?}", s)
}

/// The first line of a report: when the forecast was updated.
pub open spec fn update_line(update_time: Option<String>) -> Seq<char> {
    "天气预报更新时间: "@ + match update_time {
        Some(t) => "Some("@ + debug_quoted(t@) + ")"@,
        None => "None"@,
    } + "\n"@
}

/// The temperature part of a period's block: the reading and, for a Fahrenheit
/// reading, its Celsius value beside it.
pub open spec fn temperature_line(p: ForecastPeriod) -> Seq<char> {
    if is_fahrenheit(p.temperature_unit@) {
        "温度: "@ + signed_decimal(p.temperature as int) + " °F / "@ + one_decimal_text(
            nearest_tenths(p.celsius_spec()),
        ) + " °C"@
    } else {
        "温度: "@ + signed_decimal(p.temperature as int) + " "@ + p.temperature_unit@
    }
}

/// The block of a report that describes one period.
pub open spec fn period_block(p: ForecastPeriod) -> Seq<char> {
    "=====================\n"@ + "时段: "@ + p.name@ + "\n"@ + temperature_line(p) + "风向: "@
        + p.wind_direction@ + " 风速: "@ + p.wind_speed@ + "简要预报: "@ + p.short_forecast@
        + "\n"@ + "详细预报: "@ + p.detailed_forecast@ + "\n"@ + "开始时间: "@ + p.start_time@
        + "\n"@ + "结束时间: "@ + p.end_time@ + "\n"@
}

/// The blocks of a sequence of periods, in order.
pub open spec fn period_blocks(ps: Seq<ForecastPeriod>) -> Seq<char>
    decreases ps.len(),
{
    if ps.len() == 0 {
        Seq::empty()
    } else {
        period_blocks(ps.drop_last()) + period_block(ps.last())
    }
}

/// The report of a forecast: the update line, then one block per period.
pub open spec fn report_text(f: ForecastResponse) -> Seq<char> {
    update_line(f.properties.update_time) + period_blocks(f.properties.periods@)
}

/// The text of one period's block.
pub fn render_period(p: &ForecastPeriod) -> (r: String)
    ensures
        r@ == period_block(*p),
{
    let mut text = String::from_str("=====================\n");
    text.append("时段: ");
    text.append(p.name.as_str());
    text.append("\n");
    text.append("温度: ");
    let t = temperature_text(p.temperature);
    text.append(t.as_str());
    if unit_is_fahrenheit(p.temperature_unit.as_str()) {
        text.append(" °F / ");
        let c = p.celsius_formatted();
        text.append(c.as_str());
        text.append(" °C");
    } else {
        text.append(" ");
        text.append(p.temperature_unit.as_str());
    }
    text.append("风向: ");
    text.append(p.wind_direction.as_str());
    text.append(" 风速: ");
    text.append(p.wind_speed.as_str());
    text.append("简要预报: ");
    text.append(p.short_forecast.as_str());
    text.append("\n");
    text.append("详细预报: ");
    text.append(p.detailed_forecast.as_str());
    text.append("\n");
    text.append("开始时间: ");
    text.append(p.start_time.as_str());
    text.append("\n");
    text.append("结束时间: ");
    text.append(p.end_time.as_str());
    text.append("\n");
    assert(text@ =~= period_block(*p));
    text
}

/// The report of a forecast.
pub fn render_report(f: &ForecastResponse) -> (r: String)
    ensures
        r@ == report_text(*f),
{
    let mut text = String::from_str("天气预报更新时间: ");
    match &f.properties.update_time {
        Some(t) => {
            text.append("Some(");
            let d = debug_text(t.as_str());
            text.append(d.as_str());
            text.append(")");
        },
        None => {
            text.append("None");
        },
    }
    text.append("\n");
    assert(text@ =~= update_line(f.properties.update_time));
    let periods = &f.properties.periods;
    let mut i: usize = 0;
    while i < periods.len()
        invariant
            i <= periods@.len(),
            text@ == update_line(f.properties.update_time) + period_blocks(periods@.take(i as int)),
        decreases periods@.len() - i,
    {
        let b = render_period(&periods[i]);
        text.append(b.as_str());
        proof {
            let ps = periods@.take(i as int + 1);
            assert(ps.drop_last() =~= periods@.take(i as int));
            assert(text@ =~= update_line(f.properties.update_time) + period_blocks(ps));
        }
        i += 1;
    }
    assert(periods@.take(i as int) =~= periods@);
    text
}

/// The report for the outcome of a forecast lookup. A failed lookup gives the
/// fixed fallback text; the failure itself stays with the caller.
pub fn describe(outcome: &Result<ForecastResponse, UpstreamError>) -> (r: String)
    ensures
        match outcome {
            Ok(f) => r@ == report_text(*f),
            Err(_) => r@ == FALLBACK_REPORT@,
        },
{
    match outcome {
        Ok(f) => render_report(f),
        Err(_) => String::from_str(FALLBACK_REPORT),
    }
}

} // verus!
