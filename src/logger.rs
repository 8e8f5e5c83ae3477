use vstd::prelude::*;
use std::sync::Arc;
use std::sync::Mutex;
use crate::history::{deliver, Writable};
use crate::level::{Level, LevelFilter};
use crate::line::{format_line, line_of, resolve_tag, tag_of, text_of};
use crate::shared::{deliver_shared, flush_shared};

verus! {

/// `log::Record`, an event as the logging macros hand it over; opaque here.
#[verifier::external_type_specification]
#[verifier::external_body]
pub struct ExRecord<'a>(log::Record<'a>);

/// `log::Metadata`, the level and target of an event; opaque here.
#[verifier::external_type_specification]
#[verifier::external_body]
pub struct ExMetadata<'a>(log::Metadata<'a>);

/// `log::SetLoggerError`, returned when a global logger was already set.
#[verifier::external_type_specification]
#[verifier::external_body]
pub struct ExSetLoggerError(log::SetLoggerError);

/// The error of a second installation: a process has one global logger.
#[derive(Clone, Copy, Debug, PartialEq, Eq, Structural)]
pub struct AlreadyInstalledError;

/// A log sink: admits events at least as severe as its level, formats each
/// into one line and appends it to a shared destination.
#[verifier::reject_recursive_types(W)]
pub struct TuiLogger<W: Writable + Send + 'static> {
    level: LevelFilter,
    writable: Arc<Mutex<W>>,
}

/// Relies on `log::set_max_level`: sets the process-wide level that the
/// logging macros check before they build a record.
#[verifier::external_body]
fn set_global_max_level(level: LevelFilter) {
    log::set_max_level(
        match level {
            LevelFilter::Off => log::LevelFilter::Off,
            LevelFilter::Error => log::LevelFilter::Error,
            LevelFilter::Warn => log::LevelFilter::Warn,
            LevelFilter::Info => log::LevelFilter::Info,
            LevelFilter::Debug => log::LevelFilter::Debug,
            LevelFilter::Trace => log::LevelFilter::Trace,
        },
    )
}

/// Relies on `log::set_boxed_logger`: makes `logger` the process-wide logger,
/// or fails when one was already set.
#[verifier::external_body]
fn set_global_logger<W: Writable + Send + 'static>(logger: Box<TuiLogger<W>>) -> (r: Result<
    (),
    log::SetLoggerError,
>) {
    log::set_boxed_logger(logger)
}

/// Relies on `log::Metadata::level`: the level of an event.
#[verifier::external_body]
fn metadata_level(metadata: &log::Metadata<'_>) -> (r: Level) {
    match metadata.level() {
        log::Level::Error => Level::Error,
        log::Level::Warn => Level::Warn,
        log::Level::Info => Level::Info,
        log::Level::Debug => Level::Debug,
        log::Level::Trace => Level::Trace,
    }
}

/// Relies on `log::Record::level`: the level of a record.
#[verifier::external_body]
fn record_level(record: &log::Record<'_>) -> (r: Level) {
    match record.level() {
        log::Level::Error => Level::Error,
        log::Level::Warn => Level::Warn,
        log::Level::Info => Level::Info,
        log::Level::Debug => Level::Debug,
        log::Level::Trace => Level::Trace,
    }
}

/// Relies on `log::Record::target`: the target that the call site gave.
#[verifier::external_body]
fn record_target<'a>(record: &log::Record<'a>) -> (r: &'a str) {
    record.target()
}

/// Relies on `log::Record::module_path_static`: the module of the call site
/// when it was recorded as a static string, as log's macros always do; `None`
/// for a module path that a `RecordBuilder` set as a borrowed string.
#[verifier::external_body]
fn record_module(record: &log::Record<'_>) -> (r: Option<&'static str>) {
    record.module_path_static()
}

/// Relies on `log::Record::args`: the message, rendered to text.
#[verifier::external_body]
fn record_message(record: &log::Record<'_>) -> (r: String) {
    format!("{}", record.args())
}

/// Maps the outcome of registering the global logger to this library's error.
pub fn install_outcome(r: Result<(), log::SetLoggerError>) -> (o: Result<(), AlreadyInstalledError>)
    ensures
        o.is_ok() == r.is_ok(),
{
    match r {
        Ok(()) => Ok(()),
        Err(_) => Err(AlreadyInstalledError),
    }
}

impl<W: Writable + Send + 'static> TuiLogger<W> {
    /// The level that this sink admits.
    pub closed spec fn threshold(&self) -> LevelFilter {
        self.level
    }

    /// The destination that this sink writes to.
    pub closed spec fn destination(&self) -> Arc<Mutex<W>> {
        self.writable
    }

    /// Installs a sink over `writable` as the process-wide logger, admitting
    /// events at least as severe as `log_level`. Fails when a logger was
    /// installed before; that one stays in place, with its level.
    pub fn init(log_level: LevelFilter, writable: Arc<Mutex<W>>) -> (r: Result<
        (),
        AlreadyInstalledError,
    >) {
        let r = install_outcome(set_global_logger(TuiLogger::new(log_level, writable)));
        if r.is_ok() {
            set_global_max_level(log_level);
        }
        r
    }

    /// A sink over `writable` that admits events at least as severe as
    /// `log_level`.
    pub fn new(log_level: LevelFilter, writable: Arc<Mutex<W>>) -> (r: Box<TuiLogger<W>>)
        ensures
            r.threshold() == log_level,
            r.destination() == writable,
    {
        Box::new(TuiLogger { level: log_level, writable })
    }

    /// Whether an event at `level` is admitted.
    pub fn is_enabled(&self, level: Level) -> (r: bool)
        ensures
            r == self.threshold().admits(level),
    {
        self.level.allows(level)
    }

    /// The line that an event gives: `None` when its level is not admitted.
    pub fn line_for(&self, level: Level, target: &str, module: Option<&str>, message: &str) -> (r:
        Option<String>)
        ensures
            r.is_some() == self.threshold().admits(level),
            r matches Some(s) ==> s@ == line_of(
                level,
                tag_of(target@, text_of(module)),
                message@,
            ),
    {
        if !self.is_enabled(level) {
            return None;
        }
        let tag = resolve_tag(target, module);
        Some(format_line(level, tag.as_str(), message))
    }

    /// Handles one event against a destination that the caller holds: an
    /// admitted event adds exactly its line; any other leaves it unchanged.
    pub fn emit_into(
        &self,
        out: &mut W,
        level: Level,
        target: &str,
        module: Option<&str>,
        message: &str,
    )
        ensures
            !self.threshold().admits(level) ==> *final(out) == *old(out),
            self.threshold().admits(level) ==> final(out).lines() == old(out).lines().push(
                line_of(
                    level,
                    tag_of(target@, text_of(module)),
                    message@,
                ),
            ),
    {
        deliver(out, self.line_for(level, target, module, message))
    }

    /// Handles one event: an admitted event is formatted first, then its
    /// line is appended to the shared destination under its lock, by the same
    /// `deliver` step as `emit_into`. A rejected event takes no lock; a
    /// poisoned lock drops the line.
    pub fn emit(&self, level: Level, target: &str, module: Option<&str>, message: &str) {
        let line = self.line_for(level, target, module, message);
        if line.is_some() {
            deliver_shared(&*self.writable, line);
        }
    }

    /// Empties the shared destination.
    pub fn clear_history(&self) {
        flush_shared(&*self.writable)
    }
}

impl<W: Writable + Send + 'static> log::Log for TuiLogger<W> {
    fn enabled(&self, metadata: &log::Metadata<'_>) -> bool {
        self.is_enabled(metadata_level(metadata))
    }

    fn log(&self, record: &log::Record<'_>) {
        let level = record_level(record);
        if self.is_enabled(level) {
            let message = record_message(record);
            self.emit(level, record_target(record), record_module(record), message.as_str());
        }
    }

    fn flush(&self) {
        self.clear_history()
    }
}

} // verus!
