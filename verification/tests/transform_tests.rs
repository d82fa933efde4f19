use influx_csv_clean::clock::TimeOfDay;
use influx_csv_clean::transform::process_line;
use influx_csv_clean::transform::process_lines;
use influx_csv_clean::tz::resolve_timezone;
use influx_csv_clean::tz::Timezone;

fn utc() -> Timezone {
    resolve_timezone("UTC").unwrap()
}

fn hcm() -> Timezone {
    resolve_timezone("Asia/Ho_Chi_Minh").unwrap()
}

#[test]
fn header_pass_through() {
    let r = process_line("name,time,temperature,crop_id", true, &utc(), None, false);
    assert_eq!(r.output, Some("time,temperature,crop_id".to_string()));
    assert_eq!(r.diagnostic, None);
}

#[test]
fn header_pass_through_ignores_filter() {
    let t = TimeOfDay { hour: 7, minute: 0, second: 0 };
    let r = process_line("name,time,a", true, &utc(), Some(t), false);
    assert_eq!(r.output, Some("time,a".to_string()));
    assert_eq!(r.diagnostic, None);
}

#[test]
fn malformed_later_row() {
    let r = process_line("name,time,temperature,crop_id", false, &utc(), None, false);
    assert_eq!(r.output, None);
    assert_eq!(
        r.diagnostic,
        Some("Line name,time,temperature,crop_id doesn't start with timestamp".to_string())
    );
}

#[test]
fn malformed_later_row_quiet() {
    let r = process_line("name,time,temperature,crop_id", false, &utc(), None, true);
    assert_eq!(r.output, None);
    assert_eq!(r.diagnostic, None);
}

#[test]
fn valid_row_utc() {
    let r = process_line("condition,1489544029,29.1,5", false, &utc(), None, false);
    assert_eq!(r.output, Some("2017-03-15 02:13:49 +0000,29.1,5".to_string()));
    assert_eq!(r.diagnostic, None);
}

#[test]
fn valid_row_named_timezone() {
    let r = process_line("condition,1489544029,29.1,5", false, &hcm(), None, false);
    assert_eq!(r.output, Some("2017-03-15 09:13:49 +0700,29.1,5".to_string()));
    assert_eq!(r.diagnostic, None);
}

#[test]
fn afternoon_row_named_timezone() {
    let r = process_line("condition,1489569229,29.1,5", false, &hcm(), None, false);
    assert_eq!(r.output, Some("2017-03-15 16:13:49 +0700,29.1,5".to_string()));
}

#[test]
fn epoch_start_row() {
    let r = process_line("m,0,a", false, &utc(), None, false);
    assert_eq!(r.output, Some("1970-01-01 00:00:00 +0000,a".to_string()));
}

#[test]
fn time_filter_retains_matching_row() {
    let t = TimeOfDay { hour: 9, minute: 13, second: 49 };
    let unfiltered = process_line("condition,1489544029,29.1,5", false, &hcm(), None, false);
    let r = process_line("condition,1489544029,29.1,5", false, &hcm(), Some(t), false);
    assert_eq!(r.output, unfiltered.output);
    assert_eq!(r.output, Some("2017-03-15 09:13:49 +0700,29.1,5".to_string()));
}

#[test]
fn time_filter_drops_other_rows() {
    let t = TimeOfDay { hour: 7, minute: 0, second: 0 };
    let r = process_line("condition,1489544029,29.1,5", false, &hcm(), Some(t), false);
    assert_eq!(r.output, None);
    assert_eq!(r.diagnostic, None);
}

#[test]
fn line_without_second_field_dropped_silently() {
    let r = process_line("abc", false, &utc(), None, false);
    assert_eq!(r.output, None);
    assert_eq!(r.diagnostic, None);
    let r = process_line("abc", true, &utc(), None, false);
    assert_eq!(r.output, None);
    assert_eq!(r.diagnostic, None);
}

#[test]
fn empty_line_dropped_silently() {
    let r = process_line("", true, &utc(), None, false);
    assert_eq!(r.output, None);
    assert_eq!(r.diagnostic, None);
}

#[test]
fn trailing_empty_field_preserved() {
    let r = process_line("m,123,", false, &utc(), None, false);
    assert_eq!(r.output, Some("1970-01-01 00:02:03 +0000,".to_string()));
}

#[test]
fn out_of_range_timestamp_dropped_silently() {
    let r = process_line("m,9223372036854775807,x", false, &utc(), None, false);
    assert_eq!(r.output, None);
    assert_eq!(r.diagnostic, None);
}

#[test]
fn transform_is_deterministic() {
    let a = process_line("condition,1489544029,29.1,5", false, &hcm(), None, false);
    let b = process_line("condition,1489544029,29.1,5", false, &hcm(), None, false);
    assert_eq!(a.output, b.output);
    assert_eq!(a.diagnostic, b.diagnostic);
}

#[test]
fn end_to_end_scenario() {
    let lines = vec![
        "condition,1489544029,29.1,5".to_string(),
        "condition,1489544039,29.2,5".to_string(),
    ];
    let (outputs, diagnostics) = process_lines(&lines, &hcm(), None, false);
    assert_eq!(
        outputs,
        vec![
            "2017-03-15 09:13:49 +0700,29.1,5".to_string(),
            "2017-03-15 09:13:59 +0700,29.2,5".to_string(),
        ]
    );
    assert!(diagnostics.is_empty());
}

#[test]
fn end_to_end_with_header_and_bad_row() {
    let lines = vec![
        "name,time,temperature,crop_id".to_string(),
        "condition,1489544029,29.1,5".to_string(),
        "condition,oops,29.2,5".to_string(),
        "condition,1489544039,29.2,5".to_string(),
    ];
    let (outputs, diagnostics) = process_lines(&lines, &hcm(), None, false);
    assert_eq!(
        outputs,
        vec![
            "time,temperature,crop_id".to_string(),
            "2017-03-15 09:13:49 +0700,29.1,5".to_string(),
            "2017-03-15 09:13:59 +0700,29.2,5".to_string(),
        ]
    );
    assert_eq!(
        diagnostics,
        vec!["Line condition,oops,29.2,5 doesn't start with timestamp".to_string()]
    );
}

#[test]
fn resolve_timezone_accepts_known_names() {
    let tz = resolve_timezone("Asia/Ho_Chi_Minh").unwrap();
    assert_eq!(tz.iana_name(), "Asia/Ho_Chi_Minh");
    assert!(resolve_timezone("UTC").is_some());
}

#[test]
fn resolve_timezone_rejects_unknown_names() {
    assert!(resolve_timezone("Not/A_Zone").is_none());
    assert!(resolve_timezone("").is_none());
}
