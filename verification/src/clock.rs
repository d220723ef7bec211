//! Where the `time` of a record comes from, and how it is written.

use vstd::prelude::*;

verus! {

/// A point in time together with the offset from UTC in which it is shown.
#[derive(Clone, Copy, Debug, PartialEq, Eq, Structural)]
pub struct Instant {
    /// Nanoseconds since 1970-01-01T00:00:00Z.
    pub unix_nanos: i128,
    /// Seconds that the shown time is ahead of UTC.
    pub offset_seconds: i32,
}

/// The source of the timestamps of a drain.
#[derive(Clone, Copy, Debug, PartialEq, Eq, Structural)]
pub enum Clock {
    /// The wall clock, read for every record: local time, or UTC where the
    /// local offset cannot be determined.
    Wall,
    /// Every record is stamped with this instant.
    Fixed(Instant),
}

/// The RFC 3339 text that the `time` crate gives for an instant, `None`
/// where it gives none: the crate cannot hold the instant in that offset, or
/// declines to write it, as it does for years outside 0 to 9999 and for
/// offsets that are not whole minutes.
pub uninterp spec fn rfc3339_text(unix_nanos: i128, offset_seconds: i32) -> Option<Seq<char>>;

/// Reads the wall clock in the local offset with
/// `time::OffsetDateTime::now_local`. `None` stands for its error, which it
/// returns where the local offset cannot be determined. Nothing is claimed
/// about the instant.
#[verifier::external_body]
fn now_local() -> Option<Instant> {
    match time::OffsetDateTime::now_local() {
        Ok(now) => Some(
            Instant {
                unix_nanos: now.unix_timestamp_nanos(),
                offset_seconds: now.offset().whole_seconds(),
            },
        ),
        Err(_) => None,
    }
}

/// Reads the wall clock with `time::OffsetDateTime::now_utc`, whose result is
/// in UTC: the offset is zero.
#[verifier::external_body]
fn now_utc() -> (now: Instant)
    ensures
        now.offset_seconds == 0,
{
    let now = time::OffsetDateTime::now_utc();
    Instant { unix_nanos: now.unix_timestamp_nanos(), offset_seconds: now.offset().whole_seconds() }
}

/// Writes an instant with `time::OffsetDateTime::format` and the crate's
/// `Rfc3339` description. The instant is handed over as the date and time
/// that it denotes in its offset; where the crate cannot hold that date, or
/// its formatter returns an error, the result is `None`.
#[verifier::external_body]
fn format_rfc3339(instant: Instant) -> (text: Option<String>)
    ensures
        text.deep_view() == rfc3339_text(instant.unix_nanos, instant.offset_seconds),
{
    let utc = time::OffsetDateTime::from_unix_timestamp_nanos(instant.unix_nanos).ok()?;
    let offset = time::UtcOffset::from_whole_seconds(instant.offset_seconds).ok()?;
    let shown = utc.checked_to_offset(offset)?;
    shown.format(&time::format_description::well_known::Rfc3339).ok()
}

/// Which of two readings of the wall clock counts: the one in the local
/// offset where there is one, else the one in UTC.
pub open spec fn spec_local_or_utc(local: Option<Instant>, utc: Instant) -> Instant {
    match local {
        Some(reading) => reading,
        None => utc,
    }
}

/// Chooses between a reading of the wall clock in the local offset and one
/// in UTC: the time is shown in the local offset where that could be had,
/// and in UTC where it could not.
#[verifier::when_used_as_spec(spec_local_or_utc)]
pub fn local_or_utc(local: Option<Instant>, utc: Instant) -> (now: Instant)
    ensures
        now == spec_local_or_utc(local, utc),
{
    match local {
        Some(reading) => reading,
        None => utc,
    }
}

/// The wall clock's present reading. The clock is read in the local offset
/// and in UTC, and [`local_or_utc`] chooses between the two.
fn wall_time() -> (now: Instant)
    ensures
        Clock::Wall.may_read(now),
{
    let local = now_local();
    let utc = now_utc();
    local_or_utc(local, utc)
}

impl Clock {
    /// Whether this clock may stamp a record with the given instant: a
    /// fixed clock with its own instant and no other, the wall clock with
    /// what [`local_or_utc`] chooses of a reading in the local offset, if
    /// there is one, and a reading in UTC.
    pub open spec fn may_read(self, instant: Instant) -> bool {
        match self {
            Clock::Wall => exists|local: Option<Instant>, utc: Instant|
                utc.offset_seconds == 0 && instant == #[trigger] spec_local_or_utc(local, utc),
            Clock::Fixed(fixed) => instant == fixed,
        }
    }

    /// The instant with which this clock stamps a record that is logged now.
    pub fn now(&self) -> (instant: Instant)
        ensures
            self.may_read(instant),
    {
        match self {
            Clock::Wall => wall_time(),
            Clock::Fixed(fixed) => *fixed,
        }
    }
}

/// Whether a text, or its absence, is what the given clock may report as
/// the time of a record: the RFC 3339 text of an instant that the clock may
/// read, absent where that instant has no such text.
pub open spec fn is_timestamp_of(clock: Clock, text: Option<Seq<char>>) -> bool {
    exists|instant: Instant| #[trigger]
        clock.may_read(instant) && text == rfc3339_text(
            instant.unix_nanos,
            instant.offset_seconds,
        )
}

/// The RFC 3339 timestamp of a record that is logged now, or `None` where
/// the instant cannot be written. `None` reaches the serializer as a value
/// that is absent, which it writes as `null`: a timestamp that cannot be
/// written never spoils the rest of the record.
pub fn format_timestamp(clock: &Clock) -> (text: Option<String>)
    ensures
        is_timestamp_of(*clock, text.deep_view()),
{
    let instant = clock.now();
    format_rfc3339(instant)
}

/// A fixed clock reports one and the same time for every record: the text
/// of its instant.
pub proof fn lemma_fixed_clock_repeats(
    fixed: Instant,
    first: Option<Seq<char>>,
    second: Option<Seq<char>>,
)
    requires
        is_timestamp_of(Clock::Fixed(fixed), first),
        is_timestamp_of(Clock::Fixed(fixed), second),
    ensures
        first == second,
        first == rfc3339_text(fixed.unix_nanos, fixed.offset_seconds),
{
}

} // verus!
