use weather_rmcp::weather::{
    describe, forecast_after_fetch, forecast_url_after_grid, get_point_url, render_report,
    request_headers, ForecastPeriod, ForecastProperties, ForecastResponse, LocationProperties,
    Point, Properties, RelativeLocation, UpstreamError, WeatherResponse, FALLBACK_REPORT,
};

fn period(number: i32, name: &str, temperature: i32, unit: &str) -> ForecastPeriod {
    ForecastPeriod {
        number,
        name: name.to_string(),
        temperature,
        temperature_unit: unit.to_string(),
        wind_speed: "10 mph".to_string(),
        wind_direction: "W".to_string(),
        short_forecast: "Sunny".to_string(),
        detailed_forecast: "Sunny all day.".to_string(),
        start_time: "2024-01-01T06:00:00-08:00".to_string(),
        end_time: "2024-01-01T18:00:00-08:00".to_string(),
        temperature_celsius: None,
    }
}

fn grid() -> WeatherResponse {
    WeatherResponse {
        properties: Properties {
            forecast: "https://api.weather.gov/gridpoints/MTR/85,105/forecast".to_string(),
            forecast_hourly: "https://api.weather.gov/gridpoints/MTR/85,105/forecast/hourly"
                .to_string(),
            relative_location: RelativeLocation {
                properties: LocationProperties {
                    city: "San Francisco".to_string(),
                    state: "CA".to_string(),
                },
            },
            grid_id: "MTR".to_string(),
            grid_x: 85,
            grid_y: 105,
            time_zone: "America/Los_Angeles".to_string(),
        },
    }
}

fn mocked_forecast() -> ForecastResponse {
    ForecastResponse {
        properties: ForecastProperties {
            periods: vec![period(1, "Today", 68, "F"), period(2, "Tonight", 15, "C")],
            update_time: Some("2024-01-01T05:00:00+00:00".to_string()),
        },
    }
}

#[test]
fn point_url_has_both_coordinates() {
    let point = Point {
        latitude: 37.7749f64.to_string(),
        longitude: (-122.4194f64).to_string(),
    };
    assert_eq!(get_point_url(&point), "https://api.weather.gov/points/37.7749,-122.4194");
}

#[test]
fn headers_are_fixed() {
    let h = request_headers();
    assert_eq!(h.len(), 2);
    assert_eq!(h[0], ("User-Agent".to_string(), "weather-app/1.0".to_string()));
    assert_eq!(h[1], ("Accept".to_string(), "application/geo+json".to_string()));
}

#[test]
fn grid_success_leads_to_forecast_url() {
    let url = forecast_url_after_grid(Ok(grid()));
    assert!(matches!(url, Ok(u) if u == "https://api.weather.gov/gridpoints/MTR/85,105/forecast"));
}

#[test]
fn grid_failure_stops_before_forecast() {
    let step = forecast_url_after_grid(Err(UpstreamError::Status(500)));
    assert!(matches!(step, Err(UpstreamError::Status(500))));
}

#[test]
fn forecast_failure_is_passed_on() {
    let r = forecast_after_fetch(Err(UpstreamError::Malformed("missing periods".to_string())));
    assert!(matches!(r, Err(UpstreamError::Malformed(m)) if m == "missing periods"));
}

#[test]
fn mocked_forecast_gets_celsius_in_order() {
    let f = forecast_after_fetch(Ok(mocked_forecast())).ok().unwrap();
    let values: Vec<f64> = f
        .properties
        .periods
        .iter()
        .map(|p| p.temperature_celsius.unwrap() as f64 / 9.0)
        .collect();
    assert_eq!(values, vec![20.0, 15.0]);
    assert_eq!(f.properties.periods[0].name, "Today");
    assert_eq!(f.properties.periods[1].name, "Tonight");
}

#[test]
fn celsius_read_twice_is_identical() {
    let raw = period(1, "Today", 70, "F");
    let first = raw.celsius();
    assert_eq!(first, raw.celsius());
    let filled = raw.with_celsius();
    assert_eq!(filled.celsius(), first);
    assert_eq!(filled.celsius(), filled.celsius());
    assert_eq!(filled.celsius_formatted(), "21.1");
}

#[test]
fn report_lists_periods_in_order_with_both_readings() {
    let f = forecast_after_fetch(Ok(mocked_forecast())).ok().unwrap();
    let text = render_report(&f);
    assert!(text.starts_with("天气预报更新时间: Some(\"2024-01-01T05:00:00+00:00\")\n"));
    let today = text.find("时段: Today").unwrap();
    let tonight = text.find("时段: Tonight").unwrap();
    assert!(today < tonight);
    assert!(text.contains("温度: 68 °F / 20.0 °C"));
    assert!(text.contains("温度: 15 C"));
    assert!(!text.contains("15 °F"));
    assert_eq!(text.matches("=====================\n").count(), 2);
}

#[test]
fn report_without_update_time() {
    let f = ForecastResponse {
        properties: ForecastProperties { periods: vec![], update_time: None },
    };
    assert_eq!(render_report(&f), "天气预报更新时间: None\n");
}

#[test]
fn end_to_end_weather_tool_report() {
    let point = Point { latitude: "37.7749".to_string(), longitude: "-122.4194".to_string() };
    assert_eq!(get_point_url(&point), "https://api.weather.gov/points/37.7749,-122.4194");
    let url = forecast_url_after_grid(Ok(grid())).ok().unwrap();
    assert!(url.ends_with("/forecast"));
    let outcome = forecast_after_fetch(Ok(mocked_forecast()));
    let text = describe(&outcome);
    let today = text.find("Today").unwrap();
    let tonight = text.find("Tonight").unwrap();
    assert!(today < tonight);
    assert!(text.contains("68 °F / 20.0 °C"));
}

#[test]
fn failed_lookup_gives_fallback() {
    let outcome: Result<ForecastResponse, UpstreamError> =
        Err(UpstreamError::Network("connection refused".to_string()));
    assert_eq!(describe(&outcome), "Failed to get weather information");
    assert_eq!(FALLBACK_REPORT, "Failed to get weather information");
}
