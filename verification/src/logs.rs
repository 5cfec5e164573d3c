//! Logging configuration: the builder of a sink list, the one-shot setup,
//! and the records that a logger emits.
//!
//! Nothing here opens a file or touches the global subscriber. The caller
//! opens the files, says how that went, and reads the installed sinks off
//! the [`Multiplexer`] once a call has succeeded.

use crate::capture::{lifetime, lifetime_of, timeout_in_range, StreamLogsIterator, StreamLogsLayer};
use crate::level::{Level, LevelFilter};
use crate::sink::{
    discard_sink,
    sink_models,
    LogError,
    LogSink,
    Multiplexer,
    MultiplexerModel,
    SinkModel,
    SinkTarget,
};
use crate::stream::BridgeState;
use vstd::prelude::*;
use vstd::string::*;

verus! {

/// The target under which a [`Logger`] emits its records.
pub const TARGET: &'static str = "JavaScript";

/// How opening the file of a sink went: fine, or not, with the reason.
pub type Opened = Result<(), String>;

/// The sinks that the one-shot setup installs: the capture sinks it was
/// given, the discarding sink, a file for warnings and errors, a file at
/// the chosen threshold, and the terminal at that threshold if asked for.
pub open spec fn tracing_plan(
    path: Seq<char>,
    threshold: LevelFilter,
    terminal: bool,
    layers: Seq<SinkModel>,
) -> Seq<SinkModel> {
    let fixed = layers.push(discard_sink()).push(
        SinkModel { target: SinkTarget::File(path + "/error.log"@), min_level: LevelFilter::Warn },
    ).push(SinkModel { target: SinkTarget::File(path + "/logs.log"@), min_level: threshold });
    if terminal {
        fixed.push(SinkModel { target: SinkTarget::Terminal, min_level: threshold })
    } else {
        fixed
    }
}

/// The contents of a list of capture sinks, in order.
pub open spec fn layer_models(layers: Seq<&StreamLogsLayer>) -> Seq<SinkModel> {
    Seq::new(layers.len(), |i: int| layers[i]@)
}

/// What the one-shot setup does to the multiplexer and whether it
/// succeeds. An installed multiplexer refuses it. A file that could not
/// be opened stops it. In both cases nothing changes.
pub open spec fn tracing_step(
    state: MultiplexerModel,
    plan: Seq<SinkModel>,
    error_log: Opened,
    logs: Opened,
) -> (MultiplexerModel, bool) {
    if state.installed || error_log is Err || logs is Err {
        (state, false)
    } else {
        (MultiplexerModel { installed: true, sinks: plan }, true)
    }
}

/// The two files of the one-shot setup inside the directory `path`: the
/// one for warnings and errors, then the one for everything.
pub fn log_paths(path: &str) -> (paths: (String, String))
    ensures
        paths.0@ == path@ + "/error.log"@,
        paths.1@ == path@ + "/logs.log"@,
{
    (String::from_str(path).concat("/error.log"), String::from_str(path).concat("/logs.log"))
}

/// Installs the standard configuration on `process`, with the threshold
/// already decided. `error_log` and `logs` say how opening the two files
/// of [`log_paths`] went.
///
/// The call fails with `AlreadyInstalled` if a configuration is in place,
/// and otherwise with the reason of the first file that could not be
/// opened. A failed call changes nothing.
pub fn install_tracing(
    process: &mut Multiplexer,
    path: String,
    threshold: LevelFilter,
    terminal: bool,
    layers: Vec<&StreamLogsLayer>,
    error_log: Opened,
    logs: Opened,
) -> (outcome: Result<(), LogError>)
    ensures
        final(process)@ == tracing_step(
            old(process)@,
            tracing_plan(path@, threshold, terminal, layer_models(layers@)),
            error_log,
            logs,
        ).0,
        outcome is Ok == tracing_step(
            old(process)@,
            tracing_plan(path@, threshold, terminal, layer_models(layers@)),
            error_log,
            logs,
        ).1,
        old(process)@.installed ==> outcome == Err::<(), LogError>(LogError::AlreadyInstalled),
        !old(process)@.installed ==> match error_log {
            Err(reason) => outcome matches Err(LogError::Io(text)) && text@ == reason@,
            Ok(_) => match logs {
                Err(reason) => outcome matches Err(LogError::Io(text)) && text@ == reason@,
                Ok(_) => outcome is Ok,
            },
        },
{
    if process.is_installed() {
        return Err(LogError::AlreadyInstalled);
    }
    match error_log {
        Err(reason) => {
            return Err(LogError::Io(reason));
        },
        Ok(_) => {},
    }
    match logs {
        Err(reason) => {
            return Err(LogError::Io(reason));
        },
        Ok(_) => {},
    }
    let mut sinks: Vec<LogSink> = Vec::new();
    let mut at: usize = 0;
    while at < layers.len()
        invariant
            at <= layers@.len(),
            sinks@.len() == at,
            forall|i: int| 0 <= i < at ==> (#[trigger] sinks@[i])@ == layers@[i]@,
        decreases layers@.len() - at,
    {
        sinks.push(layers[at].to_sink());
        at += 1;
    }
    let paths = log_paths(path.as_str());
    sinks.push(LogSink::discard());
    sinks.push(LogSink::file(paths.0, LevelFilter::Warn));
    sinks.push(LogSink::file(paths.1, threshold));
    if terminal {
        sinks.push(LogSink::terminal(threshold));
    }
    proof {
        assert(sink_models(sinks@) =~= tracing_plan(
            path@,
            threshold,
            terminal,
            layer_models(layers@),
        ));
    }
    process.install(sinks)
}

/// Installs the standard configuration on `process`: the capture sinks
/// of `layers`, a file `error.log` for warnings and errors and a file
/// `logs.log` at the threshold that `level` names, both inside the
/// directory `path`, and the terminal at that threshold if `terminal` is
/// set. A `level` that names no threshold stands for `Debug`.
///
/// `error_log` and `logs` say how opening the two files went. See
/// [`install_tracing`] for when the call fails.
pub fn start_tracing(
    process: &mut Multiplexer,
    path: String,
    level: String,
    terminal: bool,
    layers: Vec<&StreamLogsLayer>,
    error_log: Opened,
    logs: Opened,
) -> (outcome: Result<(), LogError>)
    ensures
        final(process)@ == tracing_step(
            old(process)@,
            tracing_plan(path@, LevelFilter::named_by(level@), terminal, layer_models(layers@)),
            error_log,
            logs,
        ).0,
        outcome is Ok == tracing_step(
            old(process)@,
            tracing_plan(path@, LevelFilter::named_by(level@), terminal, layer_models(layers@)),
            error_log,
            logs,
        ).1,
        old(process)@.installed ==> outcome == Err::<(), LogError>(LogError::AlreadyInstalled),
        !old(process)@.installed ==> match error_log {
            Err(reason) => outcome matches Err(LogError::Io(text)) && text@ == reason@,
            Ok(_) => match logs {
                Err(reason) => outcome matches Err(LogError::Io(text)) && text@ == reason@,
                Ok(_) => outcome is Ok,
            },
        },
{
    let threshold = LevelFilter::from_name(level.as_str());
    install_tracing(process, path, threshold, terminal, layers, error_log, logs)
}

/// The standard configuration is never empty: it holds the discarding
/// sink right after the capture sinks, and the two files after it.
pub proof fn lemma_plan_holds_discard(
    path: Seq<char>,
    threshold: LevelFilter,
    terminal: bool,
    layers: Seq<SinkModel>,
)
    ensures
        tracing_plan(path, threshold, terminal, layers).len() == layers.len() + if terminal {
            4nat
        } else {
            3nat
        },
        tracing_plan(path, threshold, terminal, layers)[layers.len() as int] == discard_sink(),
        forall|i: int|
            0 <= i < layers.len() ==> tracing_plan(path, threshold, terminal, layers)[i]
                == layers[i],
{
}

/// Calling the one-shot setup twice on one process: where the first call
/// succeeds the second is refused, and the sinks of the first are the
/// ones that stay installed.
pub proof fn lemma_second_setup_refused(
    start: MultiplexerModel,
    first: Seq<SinkModel>,
    second: Seq<SinkModel>,
    first_files: (Opened, Opened),
    second_files: (Opened, Opened),
)
    requires
        tracing_step(start, first, first_files.0, first_files.1).1,
    ensures
        !tracing_step(
            tracing_step(start, first, first_files.0, first_files.1).0,
            second,
            second_files.0,
            second_files.1,
        ).1,
        tracing_step(
            tracing_step(start, first, first_files.0, first_files.1).0,
            second,
            second_files.0,
            second_files.1,
        ).0 == (MultiplexerModel { installed: true, sinks: first }),
{
}

/// A list of sinks in the making.
#[derive(Debug)]
pub struct LogBuilder {
    layers: Vec<LogSink>,
    build: bool,
}

impl LogBuilder {
    /// The sinks registered so far and not yet installed, in order.
    pub closed spec fn sinks(&self) -> Seq<SinkModel> {
        sink_models(self.layers@)
    }

    /// Whether the builder has installed its sinks.
    pub closed spec fn built(&self) -> bool {
        self.build
    }

    /// A builder without sinks.
    pub fn new() -> (builder: Self)
        ensures
            builder.sinks() == Seq::<SinkModel>::empty(),
            !builder.built(),
    {
        let builder = LogBuilder { layers: Vec::new(), build: false };
        assert(builder.sinks() =~= Seq::<SinkModel>::empty());
        builder
    }

    fn register(&mut self, sink: LogSink)
        ensures
            final(self).sinks() == old(self).sinks().push(sink@),
            final(self).built() == old(self).built(),
    {
        self.layers.push(sink);
        assert(self.sinks() =~= old(self).sinks().push(sink@));
    }

    /// Registers a capture sink with the given threshold and lifetime and
    /// returns the iterator that hands out what the sink forwards.
    pub fn add_capture_sink(&mut self, min_level: LevelFilter, timeout: Option<u64>) -> (iterator:
        StreamLogsIterator)
        ensures
            final(self).sinks() == old(self).sinks().push(
                SinkModel { target: SinkTarget::Capture(timeout), min_level },
            ),
            final(self).built() == old(self).built(),
            iterator@ == BridgeState::Active,
            iterator.timeout() == timeout,
    {
        let (layer, iterator) = StreamLogsLayer::create(min_level, timeout);
        self.register(layer.to_sink());
        iterator
    }

    /// Registers a capture sink at the threshold that `level` names,
    /// `Debug` where it names none, and returns its iterator. A `timeout`
    /// in seconds limits the lifetime of the sink; none, or a negative
    /// one, leaves it unlimited.
    pub fn create_logs_iterator(&mut self, level: String, timeout: Option<i64>) -> (iterator:
        StreamLogsIterator)
        requires
            timeout matches Some(seconds) ==> timeout_in_range(seconds),
        ensures
            final(self).sinks() == old(self).sinks().push(
                SinkModel {
                    target: SinkTarget::Capture(lifetime_of(timeout)),
                    min_level: LevelFilter::named_by(level@),
                },
            ),
            final(self).built() == old(self).built(),
            iterator@ == BridgeState::Active,
            iterator.timeout() == lifetime_of(timeout),
    {
        let limit = lifetime(timeout);
        let min_level = LevelFilter::from_name(level.as_str());
        self.add_capture_sink(min_level, limit)
    }

    /// Registers a sink that appends to the file at `path`. `opened` says
    /// how opening that file went. Where it failed, nothing is registered
    /// and the call fails with the reason.
    pub fn add_file_sink(&mut self, path: String, min_level: LevelFilter, opened: Opened) -> (outcome:
        Result<(), LogError>)
        ensures
            final(self).built() == old(self).built(),
            match opened {
                Ok(_) => outcome is Ok && final(self).sinks() == old(self).sinks().push(
                    SinkModel { target: SinkTarget::File(path@), min_level },
                ),
                Err(reason) => final(self).sinks() == old(self).sinks() && (outcome matches Err(
                    LogError::Io(text),
                ) && text@ == reason@),
            },
    {
        match opened {
            Ok(_) => {
                self.register(LogSink::file(path, min_level));
                Ok(())
            },
            Err(reason) => Err(LogError::Io(reason)),
        }
    }

    /// Registers a sink that appends to the file at `path`, at the
    /// threshold that `level` names, `Debug` where it names none.
    /// `opened` says how opening that file went.
    pub fn log_file(&mut self, path: String, level: String, opened: Opened) -> (outcome: Result<
        (),
        LogError,
    >)
        ensures
            final(self).built() == old(self).built(),
            match opened {
                Ok(_) => outcome is Ok && final(self).sinks() == old(self).sinks().push(
                    SinkModel {
                        target: SinkTarget::File(path@),
                        min_level: LevelFilter::named_by(level@),
                    },
                ),
                Err(reason) => final(self).sinks() == old(self).sinks() && (outcome matches Err(
                    LogError::Io(text),
                ) && text@ == reason@),
            },
    {
        let min_level = LevelFilter::from_name(level.as_str());
        self.add_file_sink(path, min_level, opened)
    }

    /// Registers a sink that writes to the terminal.
    pub fn add_terminal_sink(&mut self, min_level: LevelFilter)
        ensures
            final(self).sinks() == old(self).sinks().push(
                SinkModel { target: SinkTarget::Terminal, min_level },
            ),
            final(self).built() == old(self).built(),
    {
        self.register(LogSink::terminal(min_level));
    }

    /// Registers a sink that writes to the terminal, at the threshold that
    /// `level` names, `Debug` where it names none.
    pub fn terminal(&mut self, level: String)
        ensures
            final(self).sinks() == old(self).sinks().push(
                SinkModel { target: SinkTarget::Terminal, min_level: LevelFilter::named_by(level@) },
            ),
            final(self).built() == old(self).built(),
    {
        let min_level = LevelFilter::from_name(level.as_str());
        self.add_terminal_sink(min_level);
    }

    /// Installs the registered sinks, followed by the discarding sink, on
    /// `process`. This works once per builder and once per process. A
    /// further call fails with `AlreadyInstalled` and changes neither the
    /// builder nor the installed sinks.
    pub fn build(&mut self, process: &mut Multiplexer) -> (outcome: Result<(), LogError>)
        ensures
            outcome is Err <==> old(self).built() || old(process)@.installed,
            outcome matches Err(error) ==> {
                &&& error == LogError::AlreadyInstalled
                &&& final(self).sinks() == old(self).sinks()
                &&& final(self).built() == old(self).built()
                &&& final(process)@ == old(process)@
            },
            outcome is Ok ==> {
                &&& final(self).built()
                &&& final(self).sinks() == Seq::<SinkModel>::empty()
                &&& final(process)@ == (MultiplexerModel {
                    installed: true,
                    sinks: old(self).sinks().push(discard_sink()),
                })
            },
    {
        if self.build || process.is_installed() {
            return Err(LogError::AlreadyInstalled);
        }
        self.build = true;
        self.register(LogSink::discard());
        let mut sinks: Vec<LogSink> = Vec::new();
        std::mem::swap(&mut self.layers, &mut sinks);
        assert(self.sinks() =~= Seq::<SinkModel>::empty());
        process.install(sinks)
    }
}

/// One record, ready to be emitted.
#[derive(Debug, Clone, PartialEq, Eq)]
pub struct LogRecord {
    pub level: Level,
    pub target: String,
    pub message: String,
}

/// Emits records under the target [`TARGET`].
#[derive(Debug, Clone, Copy)]
pub struct Logger;

impl Logger {
    /// A logger.
    pub fn new() -> Self {
        Logger
    }

    fn record(level: Level, message: String) -> (record: LogRecord)
        ensures
            record.level == level,
            record.target@ == TARGET@,
            record.message@ == message@,
    {
        LogRecord { level, target: String::from_str(TARGET), message }
    }

    /// The record for `message` at level `Debug`.
    pub fn debug(&self, message: String) -> (record: LogRecord)
        ensures
            record.level == Level::Debug,
            record.target@ == TARGET@,
            record.message@ == message@,
    {
        Self::record(Level::Debug, message)
    }

    /// The record for `message` at level `Info`.
    pub fn info(&self, message: String) -> (record: LogRecord)
        ensures
            record.level == Level::Info,
            record.target@ == TARGET@,
            record.message@ == message@,
    {
        Self::record(Level::Info, message)
    }

    /// The record for `message` at level `Warn`.
    pub fn warn(&self, message: String) -> (record: LogRecord)
        ensures
            record.level == Level::Warn,
            record.target@ == TARGET@,
            record.message@ == message@,
    {
        Self::record(Level::Warn, message)
    }

    /// The record for `message` at level `Error`.
    pub fn error(&self, message: String) -> (record: LogRecord)
        ensures
            record.level == Level::Error,
            record.target@ == TARGET@,
            record.message@ == message@,
    {
        Self::record(Level::Error, message)
    }
}

impl Default for LogBuilder {
    fn default() -> (builder: Self)
        ensures
            builder.sinks() == Seq::<SinkModel>::empty(),
            !builder.built(),
    {
        LogBuilder::new()
    }
}

impl Default for Logger {
    fn default() -> Self {
        Logger
    }
}

} // verus!
