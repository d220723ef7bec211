use slog_bunyan::clock::{format_timestamp, local_or_utc, Clock, Instant};
use slog_bunyan::field::{
    core_field_list, Field, NumberSource, ProcessContext, Source, TextSource, FORMAT_VERSION,
};
use slog_bunyan::host::{get_hostname, hostname_or_fallback, HOSTNAME_FALLBACK};
use slog_bunyan::json::write_outcome;
use slog_bunyan::level::{map_level, BunyanLevel, Severity};
use slog_bunyan::record::resolve_number;
use slog_bunyan::DEFAULT_NAME;
use std::io;

const SEVERITIES: [Severity; 6] = [
    Severity::Critical,
    Severity::Error,
    Severity::Warning,
    Severity::Info,
    Severity::Debug,
    Severity::Trace,
];

fn stamp(unix_nanos: i128, offset_seconds: i32) -> Option<String> {
    format_timestamp(&Clock::Fixed(Instant { unix_nanos, offset_seconds }))
}

#[test]
fn every_severity_has_its_code() {
    assert_eq!(map_level(Severity::Trace), 10);
    assert_eq!(map_level(Severity::Debug), 20);
    assert_eq!(map_level(Severity::Info), 30);
    assert_eq!(map_level(Severity::Warning), 40);
    assert_eq!(map_level(Severity::Error), 50);
    assert_eq!(map_level(Severity::Critical), 60);
}

#[test]
fn codes_are_six_distinct_numbers_of_the_format() {
    let mut codes: Vec<i8> = SEVERITIES.iter().map(|severity| map_level(*severity)).collect();
    codes.sort();
    assert_eq!(codes, vec![10, 20, 30, 40, 50, 60]);
}

#[test]
fn severities_become_bunyan_levels() {
    assert_eq!(BunyanLevel::from(Severity::Critical), BunyanLevel::Fatal);
    assert_eq!(BunyanLevel::from(Severity::Error), BunyanLevel::Error);
    assert_eq!(BunyanLevel::from(Severity::Warning), BunyanLevel::Warn);
    assert_eq!(BunyanLevel::from(Severity::Info), BunyanLevel::Info);
    assert_eq!(BunyanLevel::from(Severity::Debug), BunyanLevel::Debug);
    assert_eq!(BunyanLevel::from(Severity::Trace), BunyanLevel::Trace);
}

#[test]
fn levels_have_their_codes() {
    assert_eq!(BunyanLevel::Fatal.code(), 60);
    assert_eq!(BunyanLevel::Error.code(), 50);
    assert_eq!(BunyanLevel::Warn.code(), 40);
    assert_eq!(BunyanLevel::Info.code(), 30);
    assert_eq!(BunyanLevel::Debug.code(), 20);
    assert_eq!(BunyanLevel::Trace.code(), 10);
}

#[test]
fn found_hostname_is_kept() {
    assert_eq!(hostname_or_fallback(Some("host1".to_string())), "host1");
    assert_eq!(hostname_or_fallback(Some(String::new())), "");
}

#[test]
fn missing_hostname_becomes_fallback() {
    assert_eq!(HOSTNAME_FALLBACK, "n/a");
    assert_eq!(hostname_or_fallback(None), "n/a");
}

#[test]
fn hostname_is_that_of_the_system() {
    let expected = match hostname::get() {
        Ok(name) => name.into_string().unwrap_or("n/a".to_string()),
        Err(_) => "n/a".to_string(),
    };
    assert_eq!(get_hostname(), expected);
}

#[test]
fn local_reading_is_preferred() {
    let local = Instant { unix_nanos: 1_404_810_611_000_000_000, offset_seconds: 7_200 };
    let utc = Instant { unix_nanos: 1_404_810_612_000_000_000, offset_seconds: 0 };
    let now = local_or_utc(Some(local), utc);
    assert_eq!(now, local);
    assert_eq!(
        format_timestamp(&Clock::Fixed(now)),
        Some("2014-07-08T11:10:11+02:00".to_string())
    );
}

#[test]
fn utc_reading_where_there_is_no_local_one() {
    let utc = Instant { unix_nanos: 1_404_810_611_000_000_000, offset_seconds: 0 };
    let now = local_or_utc(None, utc);
    assert_eq!(now, utc);
    assert_eq!(format_timestamp(&Clock::Fixed(now)), Some("2014-07-08T09:10:11Z".to_string()));
}

#[test]
fn fixed_instant_in_utc() {
    assert_eq!(stamp(1_404_810_611_000_000_000, 0), Some("2014-07-08T09:10:11Z".to_string()));
    assert_eq!(stamp(0, 0), Some("1970-01-01T00:00:00Z".to_string()));
}

#[test]
fn fixed_instant_with_fraction() {
    assert_eq!(
        stamp(1_404_810_611_500_000_000, 0),
        Some("2014-07-08T09:10:11.5Z".to_string())
    );
    assert_eq!(
        stamp(1_404_810_611_000_000_001, 0),
        Some("2014-07-08T09:10:11.000000001Z".to_string())
    );
}

#[test]
fn fixed_instant_in_an_offset() {
    assert_eq!(
        stamp(1_404_810_611_000_000_000, 7_200),
        Some("2014-07-08T11:10:11+02:00".to_string())
    );
    assert_eq!(
        stamp(1_404_810_611_000_000_000, -19_800),
        Some("2014-07-08T03:40:11-05:30".to_string())
    );
}

#[test]
fn before_the_epoch() {
    assert_eq!(stamp(-1_000_000_000, 0), Some("1969-12-31T23:59:59Z".to_string()));
}

#[test]
fn last_and_first_instants_that_can_be_written() {
    assert_eq!(
        stamp(253_402_300_799_000_000_000, 0),
        Some("9999-12-31T23:59:59Z".to_string())
    );
    assert_eq!(stamp(253_402_300_800_000_000_000, 0), None);
    assert_eq!(stamp(253_402_300_799_000_000_000, 3_600), None);
    assert_eq!(stamp(-62_167_219_200_000_000_000, 0), Some("0000-01-01T00:00:00Z".to_string()));
    assert_eq!(stamp(-62_167_219_201_000_000_000, 0), None);
}

#[test]
fn offsets_that_cannot_be_written() {
    assert_eq!(stamp(1_404_810_611_000_000_000, 30), None);
    assert_eq!(stamp(1_404_810_611_000_000_000, 360_000), None);
    assert_eq!(stamp(i128::MAX, 0), None);
    assert_eq!(stamp(i128::MIN, i32::MIN), None);
}

#[test]
fn fixed_clock_reads_its_instant() {
    let instant = Instant { unix_nanos: 42, offset_seconds: -60 };
    assert_eq!(Clock::Fixed(instant).now(), instant);
    assert_eq!(Clock::Fixed(instant).now(), Clock::Fixed(instant).now());
}

#[test]
fn wall_clock_reads_the_present() {
    let before = time::OffsetDateTime::now_utc().unix_timestamp_nanos();
    let read = Clock::Wall.now();
    let after = time::OffsetDateTime::now_utc().unix_timestamp_nanos();
    assert!(before <= read.unix_nanos && read.unix_nanos <= after);
    let text = format_timestamp(&Clock::Wall).unwrap();
    assert_eq!(&text[4..5], "-");
    assert_eq!(&text[10..11], "T");
}

#[test]
fn core_fields_in_order_of_the_format() {
    let clock = Clock::Fixed(Instant { unix_nanos: 1, offset_seconds: 0 });
    let context = ProcessContext { pid: 1234, hostname: "host1".to_string() };
    assert_eq!(
        core_field_list(context, "svc", clock),
        vec![
            Field { key: "pid", source: Source::Number(NumberSource::Fixed(1234)) },
            Field { key: "hostname", source: Source::Text(TextSource::Fixed("host1".to_string())) },
            Field { key: "time", source: Source::Text(TextSource::Timestamp(clock)) },
            Field { key: "level", source: Source::Number(NumberSource::Level) },
            Field { key: "name", source: Source::Text(TextSource::Fixed("svc".to_string())) },
            Field { key: "v", source: Source::Number(NumberSource::Fixed(0)) },
            Field { key: "msg", source: Source::Text(TextSource::Message) },
        ]
    );
}

#[test]
fn names_of_constants() {
    assert_eq!(DEFAULT_NAME, "slog-rs");
    assert_eq!(FORMAT_VERSION, 0);
}

#[test]
fn field_constructors() {
    assert_eq!(
        Field::number("shard", -3),
        Field { key: "shard", source: Source::Number(NumberSource::Fixed(-3)) }
    );
    assert_eq!(
        Field::text("build-id", "8dfljdf".to_string()),
        Field { key: "build-id", source: Source::Text(TextSource::Fixed("8dfljdf".to_string())) }
    );
}

#[test]
fn fixed_numbers_ignore_severity() {
    for severity in SEVERITIES {
        assert_eq!(resolve_number(&NumberSource::Fixed(0), severity), 0);
        assert_eq!(resolve_number(&NumberSource::Fixed(i64::MIN), severity), i64::MIN);
        assert_eq!(resolve_number(&NumberSource::Fixed(i64::MAX), severity), i64::MAX);
    }
}

#[test]
fn level_numbers_follow_severity() {
    assert_eq!(resolve_number(&NumberSource::Level, Severity::Trace), 10);
    assert_eq!(resolve_number(&NumberSource::Level, Severity::Debug), 20);
    assert_eq!(resolve_number(&NumberSource::Level, Severity::Info), 30);
    assert_eq!(resolve_number(&NumberSource::Level, Severity::Warning), 40);
    assert_eq!(resolve_number(&NumberSource::Level, Severity::Error), 50);
    assert_eq!(resolve_number(&NumberSource::Level, Severity::Critical), 60);
}

#[test]
fn outcome_of_a_write() {
    assert!(write_outcome(Ok(())).is_ok());
    let failed = write_outcome(Err(io::Error::new(io::ErrorKind::WriteZero, "full")));
    assert_eq!(failed.unwrap_err().cause.kind(), io::ErrorKind::WriteZero);
}
