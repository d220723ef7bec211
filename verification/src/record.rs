//! Log records, and the values that the fields of a drain take for a record.

use crate::clock::{format_timestamp, is_timestamp_of};
use crate::field::{NumberSource, TextSource};
use crate::level::{is_level_code, level_code, map_level, Severity};
use vstd::prelude::*;

verus! {

/// A record as the `slog` front end hands it to a drain.
#[verifier::external_type_specification]
#[verifier::external_body]
pub struct ExRecord<'a>(slog::Record<'a>);

/// The place in the source at which a record was logged.
#[derive(Clone, Copy, Debug, PartialEq, Eq)]
pub struct Location {
    pub file: &'static str,
    pub line: u32,
    pub column: u32,
    pub function: &'static str,
    pub module: &'static str,
}

/// A record in plain values, for callers that log without the `slog` front
/// end.
#[derive(Clone, Debug, PartialEq, Eq)]
pub struct LogRecord {
    pub severity: Severity,
    /// The message, with its arguments filled in.
    pub message: String,
    pub location: Location,
    pub tag: &'static str,
}

/// Reads the level of a record with `slog::Record::level` and names it as a
/// [`Severity`], variant for variant. The match is exhaustive: a level that
/// `slog` adds later has to be given a severity before this compiles.
#[verifier::external_body]
fn severity_of(record: &slog::Record<'_>) -> Severity {
    match record.level() {
        slog::Level::Critical => Severity::Critical,
        slog::Level::Error => Severity::Error,
        slog::Level::Warning => Severity::Warning,
        slog::Level::Info => Severity::Info,
        slog::Level::Debug => Severity::Debug,
        slog::Level::Trace => Severity::Trace,
    }
}

/// Writes out the message that `slog::Record::msg` returns, with
/// `std::fmt::write`. An error of a caller's `Display` impl ends the text
/// where it occurred.
#[verifier::external_body]
fn message_of(record: &slog::Record<'_>) -> String {
    let mut text = String::new();
    let _ = std::fmt::write(&mut text, *record.msg());
    text
}

/// The number that a numeric field takes in a record of the given severity.
pub open spec fn resolved_number(source: NumberSource, severity: Severity) -> int {
    match source {
        NumberSource::Fixed(value) => value as int,
        NumberSource::Level => level_code(severity),
    }
}

/// Computes the number that a numeric field takes in a record of the given
/// severity.
pub fn resolve_number(source: &NumberSource, severity: Severity) -> (value: i64)
    ensures
        value == resolved_number(*source, severity),
{
    match source {
        NumberSource::Fixed(value) => *value,
        NumberSource::Level => map_level(severity) as i64,
    }
}

/// The number that a numeric field takes in a record of the front end. A
/// fixed number is reported as it is; the level is that of the record's
/// severity, and so one of the numbers of the format.
pub(crate) fn number_value(source: &NumberSource, record: &slog::Record<'_>) -> (value: i64)
    ensures
        source matches NumberSource::Fixed(fixed) ==> value == fixed,
        source is Level ==> is_level_code(value as int),
{
    resolve_number(source, severity_of(record))
}

/// The message of a record of the front end: the text after its arguments
/// have been filled in, never the template.
pub fn extract_message(record: &slog::Record<'_>) -> String {
    message_of(record)
}

/// The text that a textual field takes in a record of the front end, `None`
/// where the field has no value for it. Only a timestamp can be without a
/// value, where the clock's instant cannot be written; a fixed text and the
/// message are always reported.
pub(crate) fn text_value(source: &TextSource, record: &slog::Record<'_>) -> (value: Option<
    String,
>)
    ensures
        source matches TextSource::Fixed(fixed) ==> value.deep_view() == Some(fixed@),
        source matches TextSource::Timestamp(clock) ==> is_timestamp_of(*clock, value.deep_view()),
        source is Message ==> value is Some,
{
    match source {
        TextSource::Fixed(fixed) => Some(fixed.clone()),
        TextSource::Timestamp(clock) => format_timestamp(clock),
        TextSource::Message => Some(extract_message(record)),
    }
}

} // verus!
