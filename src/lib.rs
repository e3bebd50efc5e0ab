//! A small logging backend for the `log` facade: it keeps the records at or above a
//! minimum severity and writes each one's label to standard output, standard error or a
//! caller-supplied sink.
use vstd::prelude::*;

pub mod label;
pub mod writer;

use crate::label::{filter_of, is_label, level_rank, passes, rank_of_filter, rank_of_level};
use crate::writer::{print_sink, print_stderr, print_stdout, routes_to, Route, Writer};

verus! {

#[verifier::external_type_specification]
#[verifier::external_body]
pub struct ExMetadata<'a>(log::Metadata<'a>);

#[verifier::external_type_specification]
#[verifier::external_body]
pub struct ExRecord<'a>(log::Record<'a>);

#[verifier::external_type_specification]
#[verifier::external_body]
pub struct ExSetLoggerError(log::SetLoggerError);

/// Relies on log's `Metadata::level`: the severity that a record's metadata carries.
#[verifier::external_body]
fn metadata_level(metadata: &log::Metadata) -> log::Level {
    metadata.level()
}

/// Relies on log's `Record::level`: the severity that a record carries.
#[verifier::external_body]
fn record_level(record: &log::Record) -> log::Level {
    record.level()
}

/// Relies on log's `set_max_level`: sets the facade's global threshold.
#[verifier::external_body]
fn set_max_level(level: log::LevelFilter) {
    log::set_max_level(level)
}

/// Relies on log's `set_boxed_logger`: installs the logger as the process's one logger, and
/// fails where one was installed before.
#[verifier::external_body]
fn set_boxed_logger(logger: Logger) -> Result<(), log::SetLoggerError> {
    log::set_boxed_logger(Box::new(logger))
}

/// The global threshold to set once an install has given `installed`: the installed
/// logger's minimum severity `level` where the install succeeded, and none where it failed
/// (the threshold of the logger installed before stays).
pub fn threshold_after(level: log::LevelFilter, installed: &Result<(), log::SetLoggerError>) -> (r:
    Option<log::LevelFilter>)
    ensures
        r == (if installed is Ok {
            Some(level)
        } else {
            None
        }),
{
    match installed {
        Ok(_) => Some(level),
        Err(_) => None,
    }
}

/// A logger: a minimum severity and a destination.
pub struct Logger {
    level: log::LevelFilter,
    writer: Writer,
}

impl Logger {
    /// The minimum severity that the logger lets through.
    pub closed spec fn min_level(&self) -> log::LevelFilter {
        self.level
    }

    /// Where the logger writes.
    pub closed spec fn destination(&self) -> Writer {
        self.writer
    }

    /// A logger for `Info` and above, writing to standard output without colour.
    pub fn new() -> (r: Self)
        ensures
            r.min_level() == log::LevelFilter::Info,
            r.destination() == Writer::Stdout(false),
    {
        Self { level: log::LevelFilter::Info, writer: Writer::default() }
    }

    /// Installs the logger as the process's logger and then sets the facade's global
    /// threshold to its minimum severity. Fails where a logger was installed before, and
    /// then leaves the threshold as it was.
    pub fn init(self) -> Result<(), log::SetLoggerError> {
        let max_level = self.level;
        let installed = set_boxed_logger(self);
        if let Some(threshold) = threshold_after(max_level, &installed) {
            set_max_level(threshold);
        }
        installed
    }

    /// The same logger with minimum severity `level`.
    pub fn with_level(self, level: log::LevelFilter) -> (r: Self)
        ensures
            r.min_level() == level,
            r.destination() == self.destination(),
    {
        let mut s = self;
        s.level = level;
        s
    }

    /// The same logger writing to `writer`.
    pub fn with_writer(self, writer: Writer) -> (r: Self)
        ensures
            r.min_level() == self.min_level(),
            r.destination() == writer,
    {
        let mut s = self;
        s.writer = writer;
        s
    }

    /// Whether a record of severity `severity` is let through.
    pub fn enabled_for(&self, severity: log::Level) -> (r: bool)
        ensures
            r == passes(self.min_level(), severity),
    {
        rank_of_level(severity) <= rank_of_filter(self.level)
    }

    /// The label that a record of severity `severity` is written as, or `None` where the
    /// record is not let through.
    pub fn render(&self, severity: log::Level) -> (r: Option<String>)
        ensures
            r is Some <==> passes(self.min_level(), severity),
            r is Some ==> is_label(self.destination().colors(), severity, r->0@),
    {
        if !self.enabled_for(severity) {
            return None;
        }
        Some(crate::label::level(self.writer.is_colored(), severity))
    }

    /// Where a record of severity `severity` is written and the label it is written as, or
    /// `None` where the record is not let through.
    pub fn dispatch(&self, severity: log::Level) -> (r: Option<(Route<'_>, String)>)
        ensures
            match r {
                Some((route, label)) => {
                    &&& passes(self.min_level(), severity)
                    &&& routes_to(self.destination(), route)
                    &&& is_label(self.destination().colors(), severity, label@)
                },
                None => !passes(self.min_level(), severity),
            },
    {
        match self.render(severity) {
            Some(label) => Some((self.writer.route(), label)),
            None => None,
        }
    }

    /// Writes the label of a record of severity `severity` to the logger's destination,
    /// where the record is let through; a failed write is ignored.
    pub fn emit(&self, severity: log::Level) {
        if let Some((route, label)) = self.dispatch(severity) {
            match route {
                Route::Stdout => print_stdout(label.as_str()),
                Route::Stderr => print_stderr(label.as_str()),
                Route::Other(sink) => print_sink(sink, label.as_str()),
            }
        }
    }

    /// The minimum severity that the logger lets through.
    pub fn max_level(&self) -> (r: log::LevelFilter)
        ensures
            r == self.min_level(),
    {
        self.level
    }

    /// Where the logger writes.
    pub fn writer(&self) -> (r: &Writer)
        ensures
            *r == self.destination(),
    {
        &self.writer
    }
}

impl log::Log for Logger {
    fn enabled(&self, metadata: &log::Metadata) -> bool {
        self.enabled_for(metadata_level(metadata))
    }

    fn log(&self, record: &log::Record) {
        self.emit(record_level(record))
    }

    fn flush(&self) {
    }
}

/// A logger whose minimum severity is `l2` lets through every record at least as important
/// as `l2`, and none that is less important.
pub proof fn threshold_law(lg: &Logger, l1: log::Level, l2: log::Level, l3: log::Level)
    requires
        lg.min_level() == filter_of(l2),
    ensures
        level_rank(l1) <= level_rank(l2) ==> passes(lg.min_level(), l1),
        level_rank(l2) < level_rank(l3) ==> !passes(lg.min_level(), l3),
{
}

} // verus!
