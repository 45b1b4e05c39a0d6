use helios::command::{program, Defaults, Query};
use helios::outcome::{extract_report_bytes, interpret_report, ReportOutcome};
use helios::output::{day_json, frame_day_json, JsonError};
use helios::report::{extract_report, Field};
use helios::text::{chars_of, has_prefix, nth_token, split_lines, string_of};

fn report_text(date: &str, tz: &str, lat: &str, lon: &str, rise: &str, set: &str) -> String {
    format!(
        "LOCATION\n--------\nLatitude: {lat}\nLongitude: {lon}\n\nDATE\n----\n{date} 12:00:00 {tz}\n\n\
         Solar noon is at:         {date} 12:08:09 {tz}\nDay length is:            9h51m6s\n\n\
         Sunrise is at:            {date} {rise} {tz}\nSunset is at:             {date} {set} {tz}\n\n\
         Civil dawn is at:         {date} 06:42:01 {tz}\nCivil dusk is at:         {date} 17:34:17 {tz}\n"
    )
}

fn fields_of(report: &str) -> (String, String) {
    let outcome = interpret_report(true, report.as_bytes(), b"");
    (outcome.day_start(), outcome.day_end())
}

#[test]
fn test_nyc_sunrise_sunset() {
    let query = Query {
        date: "2022-01-24".to_string(),
        latitude: "40.7128N".to_string(),
        longitude: "74.0060W".to_string(),
        timezone: "-05:00".to_string(),
    };
    let report = report_text(&query.date, &query.timezone, &query.latitude, &query.longitude, "07:12:36", "17:03:42");
    let (sunrise, sunset) = fields_of(&report);
    assert_eq!(sunrise, "07:12:36");
    assert_eq!(sunset, "17:03:42");
}

#[test]
fn test_ok_sunrise_sunset() {
    let query = Query {
        date: "2022-01-25".to_string(),
        latitude: "37.8044N".to_string(),
        longitude: "122.2712W".to_string(),
        timezone: "-08:00".to_string(),
    };
    let report = report_text(&query.date, &query.timezone, &query.latitude, &query.longitude, "07:18:10", "17:24:46");
    let (sunrise, sunset) = fields_of(&report);
    assert_eq!(sunrise, "07:18:10");
    assert_eq!(sunset, "17:24:46");
}

#[test]
fn missing_sunrise_line_leaves_sunrise_empty() {
    let report = "Solar noon is at: 2022-01-24 12:08:09 -05:00\nSunset is at: 2022-01-24 17:03:42 -05:00\n";
    let (sunrise, sunset) = fields_of(report);
    assert_eq!(sunrise, "");
    assert_eq!(sunset, "17:03:42");
    let e = extract_report(report);
    assert!(matches!(e.sunrise, Field::Missing));
}

#[test]
fn missing_both_lines_leaves_both_empty() {
    let (sunrise, sunset) = fields_of("nothing to see here\n");
    assert_eq!(sunrise, "");
    assert_eq!(sunset, "");
    let (sunrise, sunset) = fields_of("");
    assert_eq!(sunrise, "");
    assert_eq!(sunset, "");
}

#[test]
fn failed_run_gives_empty_fields_and_error_text() {
    let report = report_text("2022-01-24", "-05:00", "40.7128N", "74.0060W", "07:12:36", "17:03:42");
    let outcome = interpret_report(false, report.as_bytes(), b"error: invalid date\n");
    assert!(matches!(outcome, ReportOutcome::Failed(_)));
    assert_eq!(outcome.day_start(), "");
    assert_eq!(outcome.day_end(), "");
    assert_eq!(outcome.error_text(), b"error: invalid date\n".to_vec());
}

#[test]
fn successful_run_has_no_error_text() {
    let outcome = interpret_report(true, b"Sunrise is at: 2022-01-24 07:12:36 -05:00", b"warning\n");
    assert!(outcome.error_text().is_empty());
    assert_eq!(outcome.day_start(), "07:12:36");
}

#[test]
fn args_keep_their_order() {
    let query = Query {
        date: "2022-01-24".to_string(),
        latitude: "40.7128N".to_string(),
        longitude: "74.0060W".to_string(),
        timezone: "-05:00".to_string(),
    };
    assert_eq!(
        query.args(),
        vec!["--date", "2022-01-24", "--latitude", "40.7128N", "--longitude", "74.0060W", "--time-zone", "-05:00", "report"]
    );
    assert_eq!(program(), "heliocron");
    assert_eq!(
        query.command_line(),
        "heliocron --date 2022-01-24 --latitude 40.7128N --longitude 74.0060W --time-zone -05:00 report"
    );
}

#[test]
fn defaults_fill_missing_parts() {
    let d = Defaults::standard();
    let q = Query::resolve(None, None, None, None, &d);
    assert_eq!(q.date, "2022-01-24");
    assert_eq!(q.latitude, "40.7128N");
    assert_eq!(q.longitude, "74.0060W");
    assert_eq!(q.timezone, "-05:00");
    let q = Query::resolve(
        Some("2022-01-25".to_string()),
        Some("37.8044N".to_string()),
        Some("122.2712W".to_string()),
        Some("-08:00".to_string()),
        &d,
    );
    assert_eq!(q.date, "2022-01-25");
    assert_eq!(q.latitude, "37.8044N");
    assert_eq!(q.longitude, "122.2712W");
    assert_eq!(q.timezone, "-08:00");
}

#[test]
fn whitespace_runs_parse_like_single_spaces() {
    let single = fields_of("Sunrise is at: 2022-01-24 07:12:36 -05:00\nSunset is at: 2022-01-24 17:03:42 -05:00\n");
    let runs = fields_of("Sunrise is at:     \t 2022-01-24    07:12:36\t\t-05:00\nSunset is at:\u{3000}\u{3000}2022-01-24 \u{a0}17:03:42   -05:00\n");
    assert_eq!(single, runs);
    assert_eq!(single, ("07:12:36".to_string(), "17:03:42".to_string()));
}

#[test]
fn short_marker_line_is_malformed() {
    let e = extract_report("Sunrise is at: 2022-01-24\nSunset is at: 2022-01-24 17:03:42 -05:00\n");
    assert!(e.sunrise.is_malformed());
    assert_eq!(e.sunrise.text(), "");
    assert!(!e.sunset.is_malformed());
    assert_eq!(e.sunset.text(), "17:03:42");
}

#[test]
fn last_marker_line_decides() {
    let (sunrise, _) = fields_of("Sunrise is at: 2022-01-24 07:12:36 -05:00\nSunrise is at: 2022-01-24 07:13:00 -05:00\n");
    assert_eq!(sunrise, "07:13:00");
    let e = extract_report("Sunrise is at: 2022-01-24 07:12:36 -05:00\nSunrise is at:\n");
    assert!(e.sunrise.is_malformed());
}

#[test]
fn marker_must_start_the_line() {
    let (sunrise, sunset) = fields_of("  Sunrise is at: 2022-01-24 07:12:36 -05:00\nsunset is at: 2022-01-24 17:03:42 -05:00\n");
    assert_eq!(sunrise, "");
    assert_eq!(sunset, "");
}

#[test]
fn crlf_lines_are_read() {
    let (sunrise, sunset) = fields_of("Sunrise is at: 2022-01-24 07:12:36 -05:00\r\nSunset is at: 2022-01-24 17:03:42 -05:00\r\n");
    assert_eq!(sunrise, "07:12:36");
    assert_eq!(sunset, "17:03:42");
}

#[test]
fn invalid_utf8_is_replaced() {
    let mut bytes = b"\xff\xfe junk\nSunrise is at: 2022-01-24 07:12".to_vec();
    bytes.push(0xff);
    bytes.extend_from_slice(b"36 -05:00\n");
    let e = extract_report_bytes(&bytes);
    assert_eq!(e.sunrise.text(), "07:12\u{fffd}36");
    assert!(matches!(e.sunset, Field::Missing));
}

#[test]
fn json_document_is_exact() {
    assert_eq!(day_json("07:12:36", "17:03:42"), Ok("{\"day_start\":\"07:12:36\",\"day_end\":\"17:03:42\"}".to_string()));
    assert_eq!(day_json("", ""), Ok("{\"day_start\":\"\",\"day_end\":\"\"}".to_string()));
    assert_eq!(day_json("a\"b\\c", "\n"), Ok("{\"day_start\":\"a\\\"b\\\\c\",\"day_end\":\"\\n\"}".to_string()));
    assert_eq!(
        day_json("\u{8}\u{c}\r\t\u{1}\u{1f}", "/\u{7f}\u{e9}"),
        Ok("{\"day_start\":\"\\b\\f\\r\\t\\u0001\\u001f\",\"day_end\":\"/\u{7f}\u{e9}\"}".to_string())
    );
    let none: Result<String, JsonError> = Err(JsonError);
    assert_ne!(day_json("", ""), none);
}

#[test]
fn frame_places_literals() {
    assert_eq!(frame_day_json("\"x\"", "\"y\""), "{\"day_start\":\"x\",\"day_end\":\"y\"}");
}

#[test]
fn json_round_trips() {
    for (start, end) in [("07:12:36", "17:03:42"), ("", ""), ("a\"b", "\u{e9}\t")] {
        let doc = day_json(start, end).unwrap();
        let value: serde_json::Value = serde_json::from_str(&doc).unwrap();
        assert_eq!(value["day_start"], start);
        assert_eq!(value["day_end"], end);
        let again = serde_json::to_string(&value).unwrap();
        let reparsed: serde_json::Value = serde_json::from_str(&again).unwrap();
        assert_eq!(reparsed, value);
        assert_eq!(reparsed["day_start"].as_str(), Some(start));
        assert_eq!(reparsed["day_end"].as_str(), Some(end));
    }
}

#[test]
fn text_helpers() {
    let s = chars_of("  ab \t c\u{2003}d  ");
    assert_eq!(nth_token(&s, 0), Some(vec!['a', 'b']));
    assert_eq!(nth_token(&s, 2), Some(vec!['d']));
    assert_eq!(nth_token(&s, 3), None);
    assert_eq!(string_of(&s), "  ab \t c\u{2003}d  ");
    assert!(has_prefix(&chars_of("Sunrise is at: x"), &chars_of("Sunrise is at:")));
    assert!(!has_prefix(&chars_of("Sun"), &chars_of("Sunrise")));
    let lines = split_lines(&chars_of("a\r\n\nb\r"));
    assert_eq!(lines, vec![vec!['a'], vec![], vec!['b', '\r']]);
    assert_eq!(split_lines(&chars_of("")), Vec::<Vec<char>>::new());
    assert_eq!(split_lines(&chars_of("\n")), vec![Vec::<char>::new()]);
}
