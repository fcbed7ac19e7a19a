use analyst::config::{Config, is_supported_indicator};
use analyst::polygon::{
    candle_range_start, format_candles_url, format_currency_ticker_for_polygon,
    granularity_converter, DAY_MS, HOUR_MS, MINUTE_MS,
};
use analyst::text::{i32_to_dec_string, str_eq, u64_to_dec_string};

#[test]
fn granularity_one_minute() {
    let g = granularity_converter("1m");
    assert_eq!(g.period, "minute");
    assert_eq!(g.multiplier, 1);
}

#[test]
fn granularity_five_minutes() {
    let g = granularity_converter("5m");
    assert_eq!(g.period, "minute");
    assert_eq!(g.multiplier, 5);
}

#[test]
fn granularity_fifteen_minutes() {
    let g = granularity_converter("15m");
    assert_eq!(g.period, "minute");
    assert_eq!(g.multiplier, 15);
}

#[test]
fn granularity_thirty_minutes() {
    let g = granularity_converter("30m");
    assert_eq!(g.period, "minute");
    assert_eq!(g.multiplier, 30);
}

#[test]
fn granularity_one_hour() {
    let g = granularity_converter("1h");
    assert_eq!(g.period, "hour");
    assert_eq!(g.multiplier, 1);
}

#[test]
fn granularity_one_day() {
    let g = granularity_converter("1d");
    assert_eq!(g.period, "day");
    assert_eq!(g.multiplier, 1);
}

#[test]
fn granularity_unrecognized_defaults_to_one_day() {
    for code in ["", "2h", "1w", "60m", "minute", "1M", "1d "] {
        let g = granularity_converter(code);
        assert_eq!(g.period, "day");
        assert_eq!(g.multiplier, 1);
    }
}

#[test]
fn ticker_btc_usd() {
    assert_eq!(format_currency_ticker_for_polygon("btc-usd"), "X:BTCUSD");
}

#[test]
fn ticker_mixed_case_and_hyphens() {
    assert_eq!(format_currency_ticker_for_polygon("Eth-Usd"), "X:ETHUSD");
    assert_eq!(format_currency_ticker_for_polygon("doge--usd-"), "X:DOGEUSD");
}

#[test]
fn ticker_empty_pair() {
    assert_eq!(format_currency_ticker_for_polygon(""), "X:");
}

#[test]
fn ticker_normalization_is_idempotent() {
    let once = format_currency_ticker_for_polygon("btc-usd");
    let pair = &once["X:".len()..];
    let again = format_currency_ticker_for_polygon(pair);
    assert_eq!(again, once);
}

#[test]
fn ticker_keeps_non_letter_characters() {
    assert_eq!(format_currency_ticker_for_polygon("btc2-usd"), "X:BTC2USD");
}

#[test]
fn candles_url_exact() {
    let url = format_candles_url("X:BTCUSD", 5, "minute", 1000, 2000, 120);
    assert_eq!(
        url,
        "https://api.polygon.io/v2/aggs/ticker/X:BTCUSD/range/5/minute/1000/2000?adjusted=true&sort=asc&limit=120"
    );
}

#[test]
fn candles_url_negative_limit() {
    let url = format_candles_url("X:ETHUSD", 1, "day", 0, 9, -3);
    assert_eq!(
        url,
        "https://api.polygon.io/v2/aggs/ticker/X:ETHUSD/range/1/day/0/9?adjusted=true&sort=asc&limit=-3"
    );
}

#[test]
fn decimal_rendering() {
    assert_eq!(u64_to_dec_string(0), "0");
    assert_eq!(u64_to_dec_string(7), "7");
    assert_eq!(u64_to_dec_string(1234567890), "1234567890");
    assert_eq!(u64_to_dec_string(u64::MAX), "18446744073709551615");
    assert_eq!(i32_to_dec_string(-42), "-42");
    assert_eq!(i32_to_dec_string(i32::MIN), "-2147483648");
    assert_eq!(i32_to_dec_string(i32::MAX), "2147483647");
}

#[test]
fn strip_hyphens_keeps_other_characters() {
    assert_eq!(analyst::polygon::strip_hyphens_from_pair("btc-usd"), "btcusd");
    assert_eq!(analyst::polygon::strip_hyphens_from_pair("--"), "");
    assert_eq!(analyst::polygon::strip_hyphens_from_pair("BTCUSD"), "BTCUSD");
}

#[test]
fn ticker_uppercases_beyond_ascii() {
    assert_eq!(format_currency_ticker_for_polygon("ß-usd"), "X:SSUSD");
    assert_eq!(format_currency_ticker_for_polygon("é-usd"), "X:ÉUSD");
}

#[test]
fn str_eq_matches_std_equality() {
    assert!(str_eq("", ""));
    assert!(str_eq("abc", "abc"));
    assert!(!str_eq("abc", "abd"));
    assert!(!str_eq("abc", "abcd"));
}

#[test]
fn supported_indicator_names() {
    for name in ["sma", "ema", "rsi", "macd", "bollinger_bands"] {
        assert!(is_supported_indicator(name));
    }
    assert!(!is_supported_indicator("SMA"));
    assert!(!is_supported_indicator("bollinger"));
    assert!(!is_supported_indicator(""));
}

#[test]
fn candle_window_spans_thirty_days() {
    assert_eq!(MINUTE_MS, 60_000);
    assert_eq!(HOUR_MS, 3_600_000);
    assert_eq!(DAY_MS, 86_400_000);
    let to_ms = 31 * DAY_MS;
    assert_eq!(candle_range_start(to_ms), DAY_MS);
}

#[test]
fn config_holds_its_path() {
    let c = Config { analyst_config_path: "analyst.toml".to_string() };
    assert_eq!(c.analyst_config_path, "analyst.toml");
}
