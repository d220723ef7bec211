//! The fields of a record: their keys, their order, and where each value
//! comes from.

use crate::clock::Clock;
use crate::host::resolved_hostname;
use crate::level::Severity;
use crate::record::resolved_number;
use vstd::prelude::*;

verus! {

/// Where a numeric value comes from.
#[derive(Clone, Copy, Debug, PartialEq, Eq, Structural)]
pub enum NumberSource {
    /// The same number in every record.
    Fixed(i64),
    /// The bunyan level of the record's severity.
    Level,
}

/// Where a textual value comes from.
#[derive(Clone, Debug, PartialEq, Eq)]
pub enum TextSource {
    /// The same text in every record.
    Fixed(String),
    /// The time at which the record is logged, read from the clock.
    Timestamp(Clock),
    /// The record's message, with its arguments filled in.
    Message,
}

/// Where the value of a field comes from.
#[derive(Clone, Debug, PartialEq, Eq)]
pub enum Source {
    Number(NumberSource),
    Text(TextSource),
}

/// One field of a record: a key and the source of its value.
#[derive(Clone, Debug, PartialEq, Eq)]
pub struct Field {
    pub key: &'static str,
    pub source: Source,
}

/// What is fixed about a process when its drain is built.
#[derive(Clone, Debug, PartialEq, Eq)]
pub struct ProcessContext {
    /// The process identifier.
    pub pid: u32,
    /// The host name, or the fallback where there is none.
    pub hostname: String,
}

/// A [`TextSource`] as a mathematical value.
pub enum TextModel {
    Fixed(Seq<char>),
    Timestamp(Clock),
    Message,
}

/// A [`Source`] as a mathematical value.
pub enum SourceModel {
    Number(NumberSource),
    Text(TextModel),
}

/// A [`Field`] as a mathematical value.
pub struct FieldModel {
    pub key: Seq<char>,
    pub source: SourceModel,
}

impl View for TextSource {
    type V = TextModel;

    open spec fn view(&self) -> TextModel {
        match self {
            TextSource::Fixed(text) => TextModel::Fixed(text@),
            TextSource::Timestamp(clock) => TextModel::Timestamp(*clock),
            TextSource::Message => TextModel::Message,
        }
    }
}

impl View for Source {
    type V = SourceModel;

    open spec fn view(&self) -> SourceModel {
        match self {
            Source::Number(number) => SourceModel::Number(*number),
            Source::Text(text) => SourceModel::Text(text@),
        }
    }
}

impl View for Field {
    type V = FieldModel;

    open spec fn view(&self) -> FieldModel {
        FieldModel { key: self.key@, source: self.source@ }
    }
}

/// The fields of a list, each as a mathematical value.
pub open spec fn models(fields: Seq<Field>) -> Seq<FieldModel> {
    fields.map_values(|field: Field| field@)
}

/// A field whose value is the same number in every record.
pub open spec fn number_field(key: Seq<char>, value: i64) -> FieldModel {
    FieldModel { key, source: SourceModel::Number(NumberSource::Fixed(value)) }
}

/// A field whose value is the same text in every record.
pub open spec fn text_field(key: Seq<char>, value: Seq<char>) -> FieldModel {
    FieldModel { key, source: SourceModel::Text(TextModel::Fixed(value)) }
}

impl Field {
    /// A field whose value is the same number in every record.
    pub fn number(key: &'static str, value: i64) -> (field: Field)
        ensures
            field@ == number_field(key@, value),
    {
        Field { key, source: Source::Number(NumberSource::Fixed(value)) }
    }

    /// A field whose value is the same text in every record.
    pub fn text(key: &'static str, value: String) -> (field: Field)
        ensures
            field@ == text_field(key@, value@),
    {
        Field { key, source: Source::Text(TextSource::Fixed(value)) }
    }
}

/// The version of the record format, which every record carries under `v`.
pub const FORMAT_VERSION: i64 = 0;

/// The core fields of the bunyan format in the order in which the format
/// names them: `pid`, `hostname`, `time`, `level`, `name`, `v`, `msg`.
pub open spec fn core_fields(pid: u32, hostname: Seq<char>, name: Seq<char>, clock: Clock) -> Seq<
    FieldModel,
> {
    seq![
        number_field("pid"@, pid as i64),
        text_field("hostname"@, hostname),
        FieldModel { key: "time"@, source: SourceModel::Text(TextModel::Timestamp(clock)) },
        FieldModel { key: "level"@, source: SourceModel::Number(NumberSource::Level) },
        text_field("name"@, name),
        number_field("v"@, FORMAT_VERSION),
        FieldModel { key: "msg"@, source: SourceModel::Text(TextModel::Message) },
    ]
}

/// Builds the core fields for a process, a component name and a clock, in
/// the order in which the format names them.
pub fn core_field_list(context: ProcessContext, name: &'static str, clock: Clock) -> (fields: Vec<
    Field,
>)
    ensures
        models(fields@) == core_fields(context.pid, context.hostname@, name@, clock),
{
    let mut fields: Vec<Field> = Vec::new();
    fields.push(Field::number("pid", context.pid as i64));
    fields.push(Field::text("hostname", context.hostname));
    fields.push(Field { key: "time", source: Source::Text(TextSource::Timestamp(clock)) });
    fields.push(Field { key: "level", source: Source::Number(NumberSource::Level) });
    fields.push(Field::text("name", name.to_owned()));
    fields.push(Field::number("v", FORMAT_VERSION));
    fields.push(Field { key: "msg", source: Source::Text(TextSource::Message) });
    assert(models(fields@) =~= core_fields(context.pid, context.hostname@, name@, clock));
    fields
}

/// The core fields in the order in which a record lists them, which is the
/// reverse of the order in which the format names them.
pub open spec fn written_core_fields(
    pid: u32,
    hostname: Seq<char>,
    name: Seq<char>,
    clock: Clock,
) -> Seq<FieldModel> {
    core_fields(pid, hostname, name, clock).reverse()
}

/// A record lists the core fields from `msg` back to `pid`.
pub proof fn lemma_core_fields_as_written(
    pid: u32,
    hostname: Seq<char>,
    name: Seq<char>,
    clock: Clock,
)
    ensures
        written_core_fields(pid, hostname, name, clock) == seq![
            FieldModel { key: "msg"@, source: SourceModel::Text(TextModel::Message) },
            number_field("v"@, FORMAT_VERSION),
            text_field("name"@, name),
            FieldModel { key: "level"@, source: SourceModel::Number(NumberSource::Level) },
            FieldModel { key: "time"@, source: SourceModel::Text(TextModel::Timestamp(clock)) },
            text_field("hostname"@, hostname),
            number_field("pid"@, pid as i64),
        ],
{
    let core = core_fields(pid, hostname, name, clock);
    assert(core.reverse() =~= seq![
        core[6],
        core[5],
        core[4],
        core[3],
        core[2],
        core[1],
        core[0],
    ]);
}

/// Another component name changes the value of `name` and nothing else:
/// the records of two drains that differ in the name alone list the same
/// keys in the same order, and every other field draws its value from the
/// same source.
pub proof fn lemma_name_changes_only_name(
    pid: u32,
    hostname: Seq<char>,
    first: Seq<char>,
    second: Seq<char>,
    clock: Clock,
)
    ensures
        written_core_fields(pid, hostname, first, clock).len() == 7,
        written_core_fields(pid, hostname, second, clock).len() == 7,
        forall|i: int|
            0 <= i < 7 && i != 2 ==> written_core_fields(pid, hostname, first, clock)[i]
                == written_core_fields(pid, hostname, second, clock)[i],
        written_core_fields(pid, hostname, first, clock)[2] == text_field("name"@, first),
        written_core_fields(pid, hostname, second, clock)[2] == text_field("name"@, second),
{
    lemma_core_fields_as_written(pid, hostname, first, clock);
    lemma_core_fields_as_written(pid, hostname, second, clock);
}

/// Whatever the lookup of the host name gave, a record has a `hostname`
/// that is a text known when the drain is built, so that no record is
/// without it; where the lookup failed, the text is the fallback.
pub proof fn lemma_hostname_always_present(
    pid: u32,
    lookup: Option<Seq<char>>,
    name: Seq<char>,
    clock: Clock,
)
    ensures
        written_core_fields(pid, resolved_hostname(lookup), name, clock)[5] == text_field(
            "hostname"@,
            resolved_hostname(lookup),
        ),
        lookup is None ==> resolved_hostname(lookup) == "n/a"@,
{
    lemma_core_fields_as_written(pid, resolved_hostname(lookup), name, clock);
}

/// Every record carries the number 0 under `v`, whatever the process, the
/// names and the clock, and whatever the severity of the record.
pub proof fn lemma_version_is_zero(
    pid: u32,
    hostname: Seq<char>,
    name: Seq<char>,
    clock: Clock,
    severity: Severity,
)
    ensures
        written_core_fields(pid, hostname, name, clock)[1] == number_field("v"@, 0),
        resolved_number(NumberSource::Fixed(0), severity) == 0,
{
    lemma_core_fields_as_written(pid, hostname, name, clock);
}

/// A record carries each of the seven core keys once: no two core fields
/// share a key.
pub proof fn lemma_core_keys_distinct(pid: u32, hostname: Seq<char>, name: Seq<char>, clock: Clock)
    ensures
        core_fields(pid, hostname, name, clock).len() == 7,
        forall|i: int, j: int|
            0 <= i < j < 7 ==> core_fields(pid, hostname, name, clock)[i].key != core_fields(
                pid,
                hostname,
                name,
                clock,
            )[j].key,
{
    reveal_strlit("pid");
    reveal_strlit("hostname");
    reveal_strlit("time");
    reveal_strlit("level");
    reveal_strlit("name");
    reveal_strlit("v");
    reveal_strlit("msg");
    let core = core_fields(pid, hostname, name, clock);
    assert(core[0].key.len() == 3 && core[0].key[0] == 'p');
    assert(core[1].key.len() == 8);
    assert(core[2].key.len() == 4 && core[2].key[0] == 't');
    assert(core[3].key.len() == 5);
    assert(core[4].key.len() == 4 && core[4].key[0] == 'n');
    assert(core[5].key.len() == 1);
    assert(core[6].key.len() == 3 && core[6].key[0] == 'm');
}

/// The values under `pid`, `level` and `v` are numbers; those under
/// `hostname`, `time`, `name` and `msg` are texts, of which only the time
/// can be absent.
pub proof fn lemma_core_value_kinds(pid: u32, hostname: Seq<char>, name: Seq<char>, clock: Clock)
    ensures
        forall|i: int|
            0 <= i < 7 ==> (#[trigger] core_fields(pid, hostname, name, clock)[i].source is Number
                <==> i == 0 || i == 3 || i == 5),
        forall|i: int|
            0 <= i < 7 ==> (#[trigger] core_fields(pid, hostname, name, clock)[i].source
                matches SourceModel::Text(TextModel::Timestamp(_)) <==> i == 2),
{
}

} // verus!
