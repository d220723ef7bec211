//! [Bunyan](https://www.npmjs.com/package/bunyan) formatting for `slog`.
//!
//! A drain made here writes every record as one line of JSON that carries the
//! core fields of the bunyan format: `pid`, `hostname`, `time`, `level`,
//! `name`, `v` and `msg`. The process identifier, the host name and the
//! component name are fixed when the drain is made; the time, the level and
//! the message are worked out for every record.
//!
//! The JSON itself is written by `slog_json`. A line lists the core fields
//! from `msg` back to `pid`, the order that readers of these logs have come
//! to rely on, and behind them whatever fields the caller has added, in the
//! order in which they were added.

use crate::clock::Clock;
use crate::field::{
    core_field_list, core_fields, models, written_core_fields, Field, ProcessContext,
};
use crate::host::get_hostname;
use crate::json::{Builder, Drain};
use vstd::prelude::*;

pub mod clock;
pub mod field;
pub mod host;
pub mod json;
pub mod level;
pub mod record;

verus! {

/// The `name` of a record where the caller gives none.
pub const DEFAULT_NAME: &'static str = "slog-rs";

/// A builder over the given sink that holds the core fields for the given
/// process, component name and clock, and nothing else. The fields are held
/// in the order in which they are written: from `msg` back to `pid`.
pub fn from_context<W: std::io::Write + Send + 'static>(
    name: &'static str,
    io: W,
    clock: Clock,
    context: ProcessContext,
) -> (builder: Builder)
    ensures
        builder.fields() == written_core_fields(context.pid, context.hostname@, name@, clock),
{
    let ghost core = core_fields(context.pid, context.hostname@, name@, clock);
    let mut rest: Vec<Field> = core_field_list(context, name, clock);
    let mut builder = Builder::new(io);
    while rest.len() > 0
        invariant
            rest@.len() <= core.len(),
            models(rest@) == core.subrange(0, rest@.len() as int),
            builder.fields() == core.subrange(rest@.len() as int, core.len() as int).reverse(),
        decreases rest@.len(),
    {
        let ghost before = rest@;
        let field = rest.pop().unwrap();
        assert(models(before)[rest@.len() as int] == field@);
        builder = builder.add_field(field);
    }
    builder
}

/// A builder that holds the core fields, with the given component name, the
/// given process identifier, this machine's host name and timestamps from
/// the given clock. The host name is looked up here, once; where the lookup
/// fails the fallback takes its place.
pub fn new_with_ts_fn<W: std::io::Write + Send + 'static>(
    name: &'static str,
    io: W,
    clock: Clock,
    pid: u32,
) -> (builder: Builder)
    ensures
        exists|hostname: Seq<char>|
            builder.fields() == written_core_fields(pid, hostname, name@, clock),
{
    let context = ProcessContext { pid, hostname: get_hostname() };
    from_context(name, io, clock, context)
}

/// A builder that holds the core fields, with the given component name and
/// timestamps from the wall clock.
pub fn with_name<W: std::io::Write + Send + 'static>(
    name: &'static str,
    io: W,
    pid: u32,
) -> (builder: Builder)
    ensures
        exists|hostname: Seq<char>|
            builder.fields() == written_core_fields(pid, hostname, name@, Clock::Wall),
{
    new_with_ts_fn(name, io, Clock::Wall, pid)
}

/// A builder that holds the core fields, with the default component name
/// and timestamps from the wall clock.
pub fn new<W: std::io::Write + Send + 'static>(io: W, pid: u32) -> (builder: Builder)
    ensures
        exists|hostname: Seq<char>|
            builder.fields() == written_core_fields(pid, hostname, DEFAULT_NAME@, Clock::Wall),
{
    with_name(DEFAULT_NAME, io, pid)
}

/// A drain that writes the core fields and nothing else, with the default
/// component name and timestamps from the wall clock.
pub fn default<W: std::io::Write + Send + 'static>(io: W, pid: u32) -> (drain: Drain)
    ensures
        exists|hostname: Seq<char>|
            drain.fields() == written_core_fields(pid, hostname, DEFAULT_NAME@, Clock::Wall),
{
    with_name(DEFAULT_NAME, io, pid).build()
}

} // verus!
