//! Log sinks and the process-wide multiplexer that feeds them.
//!
//! A sink is a destination for records together with its own threshold.
//! The multiplexer holds the sinks that were installed. It is installed
//! once; a second attempt is refused and leaves the first configuration
//! in place. Every record is offered to every sink, and each sink
//! decides by its own threshold alone.

use crate::level::{Level, LevelFilter};
use vstd::prelude::*;
use vstd::string::*;

verus! {

/// Failure of a logging configuration call.
#[derive(Debug, Clone, PartialEq, Eq)]
pub enum LogError {
    /// The configuration was installed before.
    AlreadyInstalled,
    /// The target of a sink could not be opened; the text says why.
    Io(String),
}

impl LogError {
    /// The text shown to the caller for this error.
    pub open spec fn message(self) -> Seq<char> {
        match self {
            LogError::AlreadyInstalled => "Builder has already been built, cannot be called again"@,
            LogError::Io(cause) => cause@,
        }
    }

    /// Renders the error as the text shown to the caller.
    pub fn to_string(&self) -> (text: String)
        ensures
            text@ == self.message(),
    {
        match self {
            LogError::AlreadyInstalled => String::from_str(
                "Builder has already been built, cannot be called again",
            ),
            LogError::Io(cause) => cause.clone(),
        }
    }
}

/// Where a sink sends its records.
#[derive(Debug, Clone, PartialEq, Eq)]
pub enum SinkKind {
    /// Appends to the file at this path.
    File(String),
    /// Writes to the terminal.
    Terminal,
    /// Hands records to a stream, for this many seconds at most.
    Capture(Option<u64>),
    /// Drops every record. It keeps the multiplexer from being empty.
    Discard,
}

/// One configured sink.
#[derive(Debug, Clone, PartialEq, Eq)]
pub struct LogSink {
    pub kind: SinkKind,
    pub min_level: LevelFilter,
}

/// The content of a [`SinkKind`].
pub ghost enum SinkTarget {
    File(Seq<char>),
    Terminal,
    Capture(Option<u64>),
    Discard,
}

/// The content of a [`LogSink`].
pub ghost struct SinkModel {
    pub target: SinkTarget,
    pub min_level: LevelFilter,
}

impl View for SinkKind {
    type V = SinkTarget;

    open spec fn view(&self) -> SinkTarget {
        match self {
            SinkKind::File(path) => SinkTarget::File(path@),
            SinkKind::Terminal => SinkTarget::Terminal,
            SinkKind::Capture(timeout) => SinkTarget::Capture(*timeout),
            SinkKind::Discard => SinkTarget::Discard,
        }
    }
}

impl View for LogSink {
    type V = SinkModel;

    open spec fn view(&self) -> SinkModel {
        SinkModel { target: self.kind@, min_level: self.min_level }
    }
}

/// The contents of a list of sinks, in order.
pub open spec fn sink_models(sinks: Seq<LogSink>) -> Seq<SinkModel> {
    Seq::new(sinks.len(), |i: int| sinks[i]@)
}

/// The sink that drops every record. It has no threshold of its own.
pub open spec fn discard_sink() -> SinkModel {
    SinkModel { target: SinkTarget::Discard, min_level: LevelFilter::Trace }
}

impl SinkModel {
    /// Whether the sink takes a record of `level`. Nothing but the sink's
    /// own threshold enters.
    pub open spec fn receives(self, level: Level) -> bool {
        self.min_level.allows(level)
    }
}

impl LogSink {
    /// A sink that appends to the file at `path`.
    pub fn file(path: String, min_level: LevelFilter) -> (sink: Self)
        ensures
            sink@ == (SinkModel { target: SinkTarget::File(path@), min_level }),
    {
        LogSink { kind: SinkKind::File(path), min_level }
    }

    /// A sink that writes to the terminal.
    pub fn terminal(min_level: LevelFilter) -> (sink: Self)
        ensures
            sink@ == (SinkModel { target: SinkTarget::Terminal, min_level }),
    {
        LogSink { kind: SinkKind::Terminal, min_level }
    }

    /// A sink that hands records to a stream.
    pub fn capture(min_level: LevelFilter, timeout: Option<u64>) -> (sink: Self)
        ensures
            sink@ == (SinkModel { target: SinkTarget::Capture(timeout), min_level }),
    {
        LogSink { kind: SinkKind::Capture(timeout), min_level }
    }

    /// The sink that drops every record.
    pub fn discard() -> (sink: Self)
        ensures
            sink@ == discard_sink(),
    {
        LogSink { kind: SinkKind::Discard, min_level: LevelFilter::Trace }
    }

    /// Whether the sink takes a record of `level`.
    pub fn receives(&self, level: Level) -> (taken: bool)
        ensures
            taken == self@.receives(level),
    {
        self.min_level.enables(level)
    }
}

/// The state of the process-wide multiplexer.
pub ghost struct MultiplexerModel {
    /// Whether a configuration was installed.
    pub installed: bool,
    /// The sinks that are fed, in order.
    pub sinks: Seq<SinkModel>,
}

/// One installation attempt: the state it leaves and whether it was
/// accepted. The first attempt puts its sinks in place. Every later one is
/// refused and changes nothing.
pub open spec fn install_step(state: MultiplexerModel, sinks: Seq<SinkModel>) -> (
    MultiplexerModel,
    bool,
) {
    if state.installed {
        (state, false)
    } else {
        (MultiplexerModel { installed: true, sinks }, true)
    }
}

/// The sink indices, in increasing order, that take a record of `level`.
pub open spec fn receivers_of(sinks: Seq<SinkModel>, level: Level) -> Seq<int>
    decreases sinks.len(),
{
    if sinks.len() == 0 {
        Seq::empty()
    } else if sinks.last().receives(level) {
        receivers_of(sinks.drop_last(), level).push(sinks.len() - 1)
    } else {
        receivers_of(sinks.drop_last(), level)
    }
}

/// The multiplexer of one process. The embedding layer keeps exactly one
/// and routes every configuration call through it.
#[derive(Debug)]
pub struct Multiplexer {
    installed: bool,
    sinks: Vec<LogSink>,
}

impl View for Multiplexer {
    type V = MultiplexerModel;

    closed spec fn view(&self) -> MultiplexerModel {
        MultiplexerModel { installed: self.installed, sinks: sink_models(self.sinks@) }
    }
}

impl Multiplexer {
    /// The multiplexer of a process that has not configured logging yet.
    pub fn new() -> (multiplexer: Self)
        ensures
            !multiplexer@.installed,
            multiplexer@.sinks == Seq::<SinkModel>::empty(),
    {
        let multiplexer = Multiplexer { installed: false, sinks: Vec::new() };
        assert(multiplexer@.sinks =~= Seq::<SinkModel>::empty());
        multiplexer
    }

    /// Whether a configuration was installed.
    pub fn is_installed(&self) -> (installed: bool)
        ensures
            installed == self@.installed,
    {
        self.installed
    }

    /// The number of sinks that are fed.
    pub fn len(&self) -> (count: usize)
        ensures
            count == self@.sinks.len(),
    {
        self.sinks.len()
    }

    /// The sink at `index`.
    pub fn sink(&self, index: usize) -> (sink: &LogSink)
        requires
            index < self@.sinks.len(),
        ensures
            sink@ == self@.sinks[index as int],
    {
        &self.sinks[index]
    }

    /// Installs `sinks` as the configuration of the process. This works
    /// once. A later call fails with `AlreadyInstalled` and leaves the
    /// installed sinks as they are.
    pub fn install(&mut self, sinks: Vec<LogSink>) -> (outcome: Result<(), LogError>)
        ensures
            final(self)@ == install_step(old(self)@, sink_models(sinks@)).0,
            outcome is Ok == install_step(old(self)@, sink_models(sinks@)).1,
            outcome matches Err(error) ==> error == LogError::AlreadyInstalled,
    {
        if self.installed {
            return Err(LogError::AlreadyInstalled);
        }
        self.installed = true;
        self.sinks = sinks;
        Ok(())
    }

    /// Whether the sink at `index` takes a record of `level`. The answer
    /// depends on that sink's threshold and on nothing else.
    pub fn delivers(&self, index: usize, level: Level) -> (taken: bool)
        requires
            index < self@.sinks.len(),
        ensures
            taken == self@.sinks[index as int].receives(level),
    {
        self.sinks[index].receives(level)
    }

    /// The indices of the sinks that take a record of `level`, in order.
    pub fn receivers(&self, level: Level) -> (indices: Vec<usize>)
        ensures
            indices@.len() == receivers_of(self@.sinks, level).len(),
            forall|k: int|
                0 <= k < indices@.len() ==> indices@[k] as int == receivers_of(
                    self@.sinks,
                    level,
                )[k],
    {
        let ghost models = sink_models(self.sinks@);
        let mut indices: Vec<usize> = Vec::new();
        let mut at: usize = 0;
        proof {
            assert(models.take(0) =~= Seq::<SinkModel>::empty());
        }
        while at < self.sinks.len()
            invariant
                at <= self.sinks@.len(),
                models == sink_models(self.sinks@),
                indices@.len() == receivers_of(models.take(at as int), level).len(),
                forall|k: int|
                    0 <= k < indices@.len() ==> indices@[k] as int == receivers_of(
                        models.take(at as int),
                        level,
                    )[k],
            decreases self.sinks@.len() - at,
        {
            proof {
                let next = models.take(at + 1);
                assert(next.drop_last() =~= models.take(at as int));
                assert(next.last() == self.sinks@[at as int]@);
            }
            if self.sinks[at].receives(level) {
                indices.push(at);
            }
            at += 1;
        }
        proof {
            assert(models.take(at as int) =~= models);
        }
        indices
    }
}

/// A record reaches a sink exactly when that sink's threshold lets it
/// through: an index is among the receivers if and only if it names a
/// sink and that sink takes the level. What the other sinks are set to
/// plays no part.
pub proof fn lemma_receivers_filter_independently(
    sinks: Seq<SinkModel>,
    level: Level,
    index: int,
)
    ensures
        receivers_of(sinks, level).contains(index) <==> (0 <= index < sinks.len()
            && sinks[index].receives(level)),
    decreases sinks.len(),
{
    if sinks.len() > 0 {
        let rest = sinks.drop_last();
        let found = receivers_of(rest, level);
        lemma_receivers_filter_independently(rest, level, index);
        if sinks.last().receives(level) {
            let all = found.push(sinks.len() - 1);
            if found.contains(index) {
                let k = choose|k: int| 0 <= k < found.len() && found[k] == index;
                assert(all[k] == index);
            }
            if index == sinks.len() - 1 {
                assert(all[found.len() as int] == index);
            }
            if all.contains(index) {
                let k = choose|k: int| 0 <= k < all.len() && all[k] == index;
                if k < found.len() {
                    assert(found[k] == index);
                }
            }
        }
    }
}

/// Installing twice: the first attempt on a fresh multiplexer is
/// accepted, the second is refused, and the sinks of the first are still
/// the ones in place afterwards.
pub proof fn lemma_second_install_refused(
    start: MultiplexerModel,
    first: Seq<SinkModel>,
    second: Seq<SinkModel>,
)
    requires
        !start.installed,
    ensures
        install_step(start, first).1,
        !install_step(install_step(start, first).0, second).1,
        install_step(install_step(start, first).0, second).0 == install_step(start, first).0,
        install_step(install_step(start, first).0, second).0.sinks == first,
{
}

/// Once installed, a multiplexer refuses every further attempt and keeps
/// its state.
pub proof fn lemma_installed_is_final(state: MultiplexerModel, sinks: Seq<SinkModel>)
    requires
        state.installed,
    ensures
        install_step(state, sinks) == (state, false),
{
}

} // verus!
