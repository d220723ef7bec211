//! The JSON serializer of `slog_json`, fed field by field.
//!
//! A [`Builder`] is a serializer that still takes fields; [`Builder::build`]
//! turns it into a [`Drain`], which writes one JSON object and a newline for
//! every record and takes no more fields. The serializer asks each field for
//! its value anew for every record.

use crate::field::{models, Field, FieldModel, NumberSource, Source, SourceModel, TextSource};
use crate::level::Severity;
use crate::record::{number_value, text_value, LogRecord};
use vstd::prelude::*;

verus! {

/// The error of a sink that could not be written to.
#[verifier::external_type_specification]
#[verifier::external_body]
pub struct ExIoError(std::io::Error);

/// A message whose arguments are yet to be filled in.
#[verifier::external_type_specification]
#[verifier::external_body]
pub struct ExArguments<'a>(std::fmt::Arguments<'a>);

/// A level of the `slog` front end.
#[verifier::external_type_specification]
#[verifier::external_body]
pub struct ExLevel(slog::Level);

/// The key-value pairs that a logger of the front end adds to its records.
#[verifier::external_type_specification]
#[verifier::external_body]
pub struct ExOwnedKVList(slog::OwnedKVList);

/// A JSON serializer that still takes fields. It holds a
/// `slog_json::JsonBuilder` over a boxed sink.
#[verifier::external_body]
pub struct Builder {
    inner: slog_json::JsonBuilder<Box<dyn std::io::Write + Send>>,
}

/// A JSON serializer that is ready to take records. It holds a
/// `slog_json::Json` over a boxed sink.
///
/// A drain does no locking of its own and cannot be shared between threads
/// as it is: put it behind a mutex, so that the lines of two records never
/// mix in the sink.
#[verifier::external_body]
pub struct Drain {
    inner: slog_json::Json<Box<dyn std::io::Write + Send>>,
}

/// The fields that a builder has been given, in the order in which it was
/// given them, which is the order in which a drain built from it writes
/// them. Each pair that the `slog_json::JsonBuilder` holds counts as one
/// field: its key, and the source that its value is computed from.
pub uninterp spec fn builder_fields(builder: Builder) -> Seq<FieldModel>;

/// The fields that a drain writes for every record, in the order in which it
/// writes them, ahead of the key-value pairs that a record brings along.
/// Each pair that the `slog_json::Json` holds counts as one field: its key,
/// and the source that its value is computed from.
pub uninterp spec fn drain_fields(drain: Drain) -> Seq<FieldModel>;

/// A record could not be written to the sink.
#[derive(Debug)]
pub struct SinkError {
    /// The error that the serializer returned, which tells what the sink
    /// reported.
    pub cause: std::io::Error,
}

/// Starts a serializer over a sink with `slog_json::Json::new`, which gives
/// a builder that holds no field yet.
#[verifier::external_body]
fn open<W: std::io::Write + Send + 'static>(io: W) -> (builder: Builder)
    ensures
        builder_fields(builder) == Seq::<FieldModel>::empty(),
{
    let sink: Box<dyn std::io::Write + Send> = Box::new(io);
    Builder { inner: slog_json::Json::new(sink) }
}

/// Appends a numeric field with `slog_json::JsonBuilder::add_key_value`,
/// which puts the pair behind those that the builder holds. The pair's value
/// is a `slog::FnValue`: for every record the serializer calls
/// [`number_value`] with the given source.
#[verifier::external_body]
fn push_number(builder: Builder, key: &'static str, source: NumberSource) -> (extended: Builder)
    ensures
        builder_fields(extended) == builder_fields(builder).push(
            (FieldModel { key: key@, source: SourceModel::Number(source) }),
        ),
{
    let value = slog::FnValue(move |record: &slog::Record<'_>| number_value(&source, record));
    Builder { inner: builder.inner.add_key_value(slog::OwnedKV(slog::SingleKV::from((key, value)))) }
}

/// Appends a textual field with `slog_json::JsonBuilder::add_key_value`,
/// which puts the pair behind those that the builder holds. The pair's value
/// is a `slog::FnValue`: for every record the serializer calls
/// [`text_value`] with the given source.
#[verifier::external_body]
fn push_text(builder: Builder, key: &'static str, source: TextSource) -> (extended: Builder)
    ensures
        builder_fields(extended) == builder_fields(builder).push(
            (FieldModel { key: key@, source: SourceModel::Text(source@) }),
        ),
{
    let value = slog::FnValue(move |record: &slog::Record<'_>| text_value(&source, record));
    Builder { inner: builder.inner.add_key_value(slog::OwnedKV(slog::SingleKV::from((key, value)))) }
}

/// Finishes a builder with `slog_json::JsonBuilder::build`, which moves the
/// fields over as they are.
#[verifier::external_body]
fn finish(builder: Builder) -> (drain: Drain)
    ensures
        drain_fields(drain) == builder_fields(builder),
{
    Drain { inner: builder.inner.build() }
}

/// Hands a record of the front end to the serializer with
/// `slog::Drain::log`, and returns what it returns: an error where the
/// record could not be serialized or the sink could not be written to.
/// Nothing is claimed about when that is.
#[verifier::external_body]
fn forward(drain: &Drain, record: &slog::Record<'_>, values: &slog::OwnedKVList) -> Result<
    (),
    std::io::Error,
> {
    slog::Drain::log(&drain.inner, record, values)
}

/// Names a severity as a `slog::Level`, variant for variant, for a record
/// that is made here.
#[verifier::external_body]
fn slog_level(severity: Severity) -> slog::Level {
    match severity {
        Severity::Critical => slog::Level::Critical,
        Severity::Error => slog::Level::Error,
        Severity::Warning => slog::Level::Warning,
        Severity::Info => slog::Level::Info,
        Severity::Debug => slog::Level::Debug,
        Severity::Trace => slog::Level::Trace,
    }
}

/// A plain record on its way into a drain.
struct Entry<'a> {
    drain: &'a Drain,
    record: &'a LogRecord,
    level: slog::Level,
}

impl<'a> Entry<'a> {
    /// Makes a record of the front end with `slog::Record::new`, from the
    /// plain record and the message as the formatting machinery passes it,
    /// without key-value pairs of its own, and hands it to the serializer
    /// through [`forward`] on behalf of a logger without key-value pairs.
    /// The result is that of [`forward`].
    #[verifier::external_body]
    fn write_fmt(&self, message: std::fmt::Arguments<'_>) -> Result<(), std::io::Error> {
        let place = &self.record.location;
        let location = slog::RecordLocation {
            file: place.file,
            line: place.line,
            column: place.column,
            function: place.function,
            module: place.module,
        };
        let fixed = slog::RecordStatic { location: &location, tag: self.record.tag, level: self.level };
        let record = slog::Record::new(&fixed, &message, slog::BorrowedKV(&()));
        forward(self.drain, &record, &slog::OwnedKV(()).into())
    }
}

/// Formats the message of a plain record with `write!`, which passes it to
/// [`Entry::write_fmt`] in the form that a record of the front end holds,
/// and returns what that returns.
#[verifier::external_body]
fn forward_plain(drain: &Drain, record: &LogRecord, level: slog::Level) -> Result<
    (),
    std::io::Error,
> {
    write!(Entry { drain, record, level }, "{}", record.message)
}

/// What a caller of `log` is told for each outcome of the write: success as
/// it is, and the sink's error as the cause of a [`SinkError`].
pub fn write_outcome(written: Result<(), std::io::Error>) -> (outcome: Result<(), SinkError>)
    ensures
        written is Ok <==> outcome is Ok,
        written matches Err(cause) ==> outcome == Err::<(), SinkError>(SinkError { cause }),
{
    match written {
        Ok(()) => Ok(()),
        Err(cause) => Err(SinkError { cause }),
    }
}

impl Builder {
    /// The fields that this builder has been given, in the order in which a
    /// drain built from it writes them.
    pub open spec fn fields(&self) -> Seq<FieldModel> {
        builder_fields(*self)
    }

    /// A builder over the given sink that holds no field yet.
    pub fn new<W: std::io::Write + Send + 'static>(io: W) -> (builder: Builder)
        ensures
            builder.fields() == Seq::<FieldModel>::empty(),
    {
        open(io)
    }

    /// Appends one field behind those that the builder holds.
    pub fn add_field(self, field: Field) -> (extended: Builder)
        ensures
            extended.fields() == self.fields().push(field@),
    {
        match field.source {
            Source::Number(source) => push_number(self, field.key, source),
            Source::Text(source) => push_text(self, field.key, source),
        }
    }

    /// Appends the given fields, in their order, behind those that the
    /// builder holds. A key that the builder holds already is appended all
    /// the same: what becomes of a repeated key is the serializer's matter.
    pub fn add_fields(self, fields: Vec<Field>) -> (extended: Builder)
        ensures
            extended.fields() == self.fields() + models(fields@),
    {
        let ghost start = self.fields();
        let mut extended = self;
        for field in iter: fields
            invariant
                iter.seq() == fields@,
                extended.fields() == start + models(fields@.take(iter.index() as int)),
        {
            extended = extended.add_field(field);
        }
        extended
    }

    /// Finishes the builder. The drain writes the fields that the builder
    /// held, and none can be added to it.
    pub fn build(self) -> (drain: Drain)
        ensures
            drain.fields() == self.fields(),
    {
        finish(self)
    }
}

impl Drain {
    /// The fields that this drain writes for every record, in the order in
    /// which it writes them.
    pub open spec fn fields(&self) -> Seq<FieldModel> {
        drain_fields(*self)
    }

    /// Writes one record of the front end as one JSON object and a newline:
    /// the fields of this drain, then the key-value pairs of the logger that
    /// the record came through, then those of the record itself. Whether
    /// the write succeeds is up to the sink; its error is returned at once
    /// and the write is not tried again.
    ///
    /// The key-value pairs come from the caller and are serialized by code
    /// of the caller's, which must neither panic nor log to this drain.
    pub fn log(&self, record: &slog::Record<'_>, values: &slog::OwnedKVList) -> Result<
        (),
        SinkError,
    > {
        write_outcome(forward(self, record, values))
    }

    /// Writes one plain record as one JSON object and a newline that
    /// carries the fields of this drain. Whether the write succeeds is up
    /// to the sink; its error is returned at once and the write is not
    /// tried again.
    pub fn log_record(&self, record: &LogRecord) -> Result<(), SinkError> {
        write_outcome(forward_plain(self, record, slog_level(record.severity)))
    }
}

} // verus!
