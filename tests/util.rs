use sjmb_slack::{ts_fmt, LogLevel, OptsCommon, TimeStampFormats, TS_FMT_LONG};

fn opts(verbose: bool, debug: bool, trace: bool, path: &str) -> OptsCommon {
    OptsCommon { verbose, debug, trace, bot_config: path.to_string() }
}

#[test]
fn loglevel_follows_most_verbose_flag() {
    assert_eq!(opts(false, false, false, "").get_loglevel(), LogLevel::Error);
    assert_eq!(opts(true, false, false, "").get_loglevel(), LogLevel::Info);
    assert_eq!(opts(true, true, false, "").get_loglevel(), LogLevel::Debug);
    assert_eq!(opts(false, true, false, "").get_loglevel(), LogLevel::Debug);
    assert_eq!(opts(true, true, true, "").get_loglevel(), LogLevel::Trace);
    assert_eq!(opts(false, false, true, "").get_loglevel(), LogLevel::Trace);
}

#[test]
fn finish_keeps_plain_path() {
    let mut o = opts(true, false, false, "/etc/bot/config.json");
    assert!(o.finish().is_ok());
    assert_eq!(o.bot_config, "/etc/bot/config.json");
    assert!(o.verbose);
}

#[test]
fn finish_fails_on_unset_variable() {
    let mut o = opts(false, false, false, "/x/$SJMB_SLACK_SURELY_UNSET_VARIABLE/c.json");
    assert!(o.finish().is_err());
    assert_eq!(o.bot_config, "/x/$SJMB_SLACK_SURELY_UNSET_VARIABLE/c.json");
}

#[test]
fn zero_timestamp_is_none() {
    assert_eq!(ts_fmt(TS_FMT_LONG, 0), "(none)");
    assert_eq!(0i64.ts_long(), "(none)");
}

#[test]
fn timestamp_formats() {
    assert_eq!(ts_fmt(TS_FMT_LONG, 86400), "1970-01-02 00:00:00");
    assert_eq!(1_000_000_000i64.ts_long(), "2001-09-09 01:46:40");
    assert_eq!(86400i64.ts_short(), "Jan 02 00:00");
    assert_eq!(86400i64.ts_short_y(), "1970 Jan 02 00:00");
    assert_eq!(ts_fmt("%Y", -86400), "1969");
}

#[test]
fn out_of_range_or_bad_format_is_none() {
    assert_eq!(ts_fmt(TS_FMT_LONG, i64::MAX), "(none)");
    assert_eq!(ts_fmt("%Q", 86400), "(none)");
}
