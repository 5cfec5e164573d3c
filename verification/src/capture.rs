//! Capture sinks: log records delivered as a stream.
//!
//! A capture sink does not write bytes. It forwards each record that
//! passes its threshold into a channel, and a [`StreamLogsIterator`] hands
//! the records out one pull at a time. A capture sink may carry a
//! lifetime in seconds. Once that has passed, the sink forwards nothing
//! more and the iterator reports the end of the stream on its next pull.
//!
//! Time is measured by the caller: every decision that depends on it
//! takes the whole seconds that have passed since the sink was created.

use crate::json::{json_parses, parse_json};
use crate::level::{Level, LevelFilter};
use crate::sink::{LogSink, SinkModel, SinkTarget};
use crate::stream::{as_result, step, BridgeState, SourceEvent, StreamBridge};
use vstd::prelude::*;

verus! {

/// The largest number of seconds that a lifetime can be given as.
pub const MAX_TIMEOUT_SECONDS: i64 = 9_223_372_036_854_775;

/// Whether `seconds` can be given as a lifetime: it lies within what a
/// signed duration with millisecond resolution can hold.
pub open spec fn timeout_in_range(seconds: i64) -> bool {
    -MAX_TIMEOUT_SECONDS <= seconds <= MAX_TIMEOUT_SECONDS
}

/// The lifetime that a caller's `timeout` asks for. No timeout and a
/// negative one both mean that the sink lives on without limit.
pub open spec fn lifetime_of(timeout: Option<i64>) -> Option<u64> {
    match timeout {
        Some(seconds) if seconds >= 0 => Some(seconds as u64),
        _ => None,
    }
}

/// Whether a sink with lifetime `timeout` has run out after `elapsed`
/// seconds.
pub open spec fn expired(timeout: Option<u64>, elapsed: u64) -> bool {
    timeout matches Some(limit) && elapsed >= limit
}

/// Builds a `chrono::Duration` of `seconds` with `Duration::seconds` and
/// converts it with `Duration::to_std`. `Duration::seconds` panics outside
/// the range that `requires` admits. Within it, `to_std` fails exactly on
/// a negative duration and otherwise keeps the number of seconds.
#[verifier::external_body]
fn seconds_to_std(seconds: i64) -> (converted: Option<u64>)
    requires
        timeout_in_range(seconds),
    ensures
        converted == lifetime_of(Some(seconds)),
{
    match chrono::Duration::seconds(seconds).to_std() {
        Ok(duration) => Some(duration.as_secs()),
        Err(_) => None,
    }
}

/// The lifetime that a caller's `timeout` asks for.
pub fn lifetime(timeout: Option<i64>) -> (limit: Option<u64>)
    requires
        timeout matches Some(seconds) ==> timeout_in_range(seconds),
    ensures
        limit == lifetime_of(timeout),
{
    match timeout {
        Some(seconds) => seconds_to_std(seconds),
        None => None,
    }
}

/// The lifetime that a caller's `timeout` asks for, or `None` where the
/// number of seconds is too large in size to be a duration at all.
pub fn checked_lifetime(timeout: Option<i64>) -> (limit: Option<Option<u64>>)
    ensures
        limit is Some <==> (timeout matches Some(seconds) ==> timeout_in_range(seconds)),
        limit matches Some(found) ==> found == lifetime_of(timeout),
{
    match timeout {
        Some(seconds) => {
            if -MAX_TIMEOUT_SECONDS <= seconds && seconds <= MAX_TIMEOUT_SECONDS {
                Some(seconds_to_std(seconds))
            } else {
                None
            }
        },
        None => Some(None),
    }
}

/// The sending half of a capture sink: what it forwards, and for how long.
#[derive(Debug, Clone)]
pub struct StreamLogsLayer {
    min_level: LevelFilter,
    timeout: Option<u64>,
}

impl View for StreamLogsLayer {
    type V = SinkModel;

    closed spec fn view(&self) -> SinkModel {
        SinkModel { target: SinkTarget::Capture(self.timeout), min_level: self.min_level }
    }
}

impl StreamLogsLayer {
    /// The lifetime of the sink in seconds, if it has one.
    pub open spec fn timeout(self) -> Option<u64> {
        match self@.target {
            SinkTarget::Capture(timeout) => timeout,
            _ => None,
        }
    }

    /// Whether the sink forwards a record of `level` that is emitted
    /// `elapsed` seconds after the sink was created.
    pub open spec fn forwards(self, level: Level, elapsed: u64) -> bool {
        self@.receives(level) && !expired(self.timeout(), elapsed)
    }

    /// A capture sink with the given threshold and lifetime, together with
    /// the iterator that hands out what the sink forwards.
    pub fn create(min_level: LevelFilter, timeout: Option<u64>) -> (pair: (
        StreamLogsLayer,
        StreamLogsIterator,
    ))
        ensures
            pair.0@ == (SinkModel { target: SinkTarget::Capture(timeout), min_level }),
            pair.1@ == BridgeState::Active,
            pair.1.timeout() == timeout,
    {
        (
            StreamLogsLayer { min_level, timeout },
            StreamLogsIterator { bridge: StreamBridge::new(), timeout },
        )
    }

    /// The sink as an entry of a configuration.
    pub fn to_sink(&self) -> (sink: LogSink)
        ensures
            sink@ == self@,
    {
        LogSink::capture(self.min_level, self.timeout)
    }

    /// Decides whether to forward a record of `level` that is emitted
    /// `elapsed` seconds after the sink was created. A record below the
    /// threshold is dropped, and so is every record once the lifetime has
    /// passed.
    pub fn accepts(&self, level: Level, elapsed: u64) -> (forward: bool)
        ensures
            forward == self.forwards(level, elapsed),
    {
        if !self.min_level.enables(level) {
            return false;
        }
        match self.timeout {
            Some(limit) => elapsed < limit,
            None => true,
        }
    }
}

/// What a pull has to do before it can be completed.
#[derive(Debug, Clone, Copy, PartialEq, Eq, Structural)]
pub enum PullPlan {
    /// The stream has ended. The pull returns the end without touching
    /// the channel.
    Finished,
    /// Wait for the channel, but no longer than until `deadline` seconds
    /// after the sink was created. If the wait runs out, complete the pull
    /// with [`SourceEvent::TimedOut`].
    Poll { deadline: Option<u64> },
}

/// The receiving half of a capture sink.
#[derive(Debug)]
pub struct StreamLogsIterator {
    bridge: StreamBridge,
    timeout: Option<u64>,
}

impl View for StreamLogsIterator {
    type V = BridgeState;

    closed spec fn view(&self) -> BridgeState {
        self.bridge@
    }
}

/// What a pull of a log stream hands out and where it leaves the stream,
/// given the state before, what the channel came back with, and, for a
/// record, whether it is well-formed JSON.
///
/// A terminated stream reports the end whatever it is given. An active
/// one hands out a well-formed record and stays active. It fails once on
/// a malformed record or a failed channel, and is terminated from then
/// on. It ends when the channel closes or the wait runs out.
pub open spec fn log_step(state: BridgeState, event: SourceEvent<String, String>) -> (
    BridgeState,
    LogPull,
) {
    match state {
        BridgeState::Active => match event {
            SourceEvent::Item(record) => if json_parses(record@) {
                (BridgeState::Active, LogPull::Record)
            } else {
                (BridgeState::Errored, LogPull::Malformed)
            },
            SourceEvent::Failed(cause) => (BridgeState::Errored, LogPull::Failed(cause@)),
            SourceEvent::Closed => (BridgeState::Ended, LogPull::End),
            SourceEvent::TimedOut => (BridgeState::Ended, LogPull::End),
        },
        _ => (state, LogPull::End),
    }
}

/// An event whose item may have failed to parse, as the stream sees it: a
/// parsed item is an item, and an item that did not parse is a failure.
pub open spec fn settle<T, E>(event: SourceEvent<Result<T, E>, E>) -> SourceEvent<T, E> {
    match event {
        SourceEvent::Item(Ok(item)) => SourceEvent::Item(item),
        SourceEvent::Item(Err(reason)) => SourceEvent::Failed(reason),
        SourceEvent::Failed(cause) => SourceEvent::Failed(cause),
        SourceEvent::Closed => SourceEvent::Closed,
        SourceEvent::TimedOut => SourceEvent::TimedOut,
    }
}

/// The kinds of answer that a pull of a log stream gives.
pub ghost enum LogPull {
    /// A record, as a JSON value.
    Record,
    /// The end of the stream.
    End,
    /// The record was not well-formed JSON.
    Malformed,
    /// The channel failed, with this text.
    Failed(Seq<char>),
}

impl LogPull {
    /// Whether `result` is an answer of this kind.
    pub open spec fn describes(self, result: Result<Option<serde_json::Value>, String>) -> bool {
        match self {
            LogPull::Record => result matches Ok(Some(_)),
            LogPull::End => result matches Ok(None),
            LogPull::Malformed => result is Err,
            LogPull::Failed(cause) => result matches Err(text) && text@ == cause,
        }
    }
}

impl StreamLogsIterator {
    /// The lifetime of the sink in seconds, if it has one.
    pub closed spec fn timeout(&self) -> Option<u64> {
        self.timeout
    }

    /// Whether the stream has ended for good.
    pub fn is_terminated(&self) -> (done: bool)
        ensures
            done == self@.terminated(),
    {
        self.bridge.is_terminated()
    }

    /// Decides what the next pull has to do, `elapsed` seconds after the
    /// sink was created. A stream whose lifetime has passed ends here,
    /// without waiting for the channel.
    pub fn plan(&mut self, elapsed: u64) -> (plan: PullPlan)
        ensures
            final(self).timeout() == old(self).timeout(),
            old(self)@.terminated() ==> plan == PullPlan::Finished && final(self)@ == old(self)@,
            !old(self)@.terminated() && expired(old(self).timeout(), elapsed) ==> plan
                == PullPlan::Finished && final(self)@ == BridgeState::Ended,
            !old(self)@.terminated() && !expired(old(self).timeout(), elapsed) ==> plan
                == (PullPlan::Poll { deadline: old(self).timeout() }) && final(self)@
                == BridgeState::Active,
    {
        if self.bridge.is_terminated() {
            return PullPlan::Finished;
        }
        let run_out = match self.timeout {
            Some(limit) => elapsed >= limit,
            None => false,
        };
        if run_out {
            self.bridge.close();
            PullPlan::Finished
        } else {
            PullPlan::Poll { deadline: self.timeout }
        }
    }

    /// Completes one pull with what the channel came back with. A record
    /// is handed out as the JSON value it spells.
    pub fn next(&mut self, event: SourceEvent<String, String>) -> (result: Result<
        Option<serde_json::Value>,
        String,
    >)
        ensures
            final(self).timeout() == old(self).timeout(),
            final(self)@ == log_step(old(self)@, event).0,
            log_step(old(self)@, event).1.describes(result),
    {
        if self.bridge.is_terminated() {
            return Ok(None);
        }
        let decoded = match event {
            SourceEvent::Item(record) => match parse_json(record.as_str()) {
                Ok(value) => SourceEvent::Item(Ok(value)),
                Err(cause) => SourceEvent::Item(Err(cause.to_string())),
            },
            SourceEvent::Failed(cause) => SourceEvent::Failed(cause),
            SourceEvent::Closed => SourceEvent::Closed,
            SourceEvent::TimedOut => SourceEvent::TimedOut,
        };
        self.deliver(decoded)
    }

    /// Completes one pull with what the channel came back with, the
    /// record already parsed. A record that did not parse counts as a
    /// failure of the stream, with the parser's reason.
    pub fn deliver(
        &mut self,
        event: SourceEvent<Result<serde_json::Value, String>, String>,
    ) -> (result: Result<Option<serde_json::Value>, String>)
        ensures
            final(self).timeout() == old(self).timeout(),
            final(self)@ == step(old(self)@, settle(event)).0,
            result == as_result(step(old(self)@, settle(event)).1),
    {
        let settled = match event {
            SourceEvent::Item(Ok(value)) => SourceEvent::Item(value),
            SourceEvent::Item(Err(reason)) => SourceEvent::Failed(reason),
            SourceEvent::Failed(cause) => SourceEvent::Failed(cause),
            SourceEvent::Closed => SourceEvent::Closed,
            SourceEvent::TimedOut => SourceEvent::TimedOut,
        };
        self.bridge.pull(settled).into_result()
    }
}

/// A log stream that has reported the end or a failure reports the end on
/// every later pull and does not change state again.
pub proof fn lemma_log_stream_fused(state: BridgeState, event: SourceEvent<String, String>)
    requires
        state.terminated(),
    ensures
        log_step(state, event) == (state, LogPull::End),
{
}

/// Every pull of a log stream that reports an end or a failure leaves the
/// stream terminated.
pub proof fn lemma_log_stream_stops(state: BridgeState, event: SourceEvent<String, String>)
    ensures
        !(log_step(state, event).1 is Record) ==> log_step(state, event).0.terminated(),
{
}

/// A sink whose lifetime has passed forwards nothing, then and ever
/// after, whatever the level of the record.
pub proof fn lemma_expired_sink_is_silent(layer: StreamLogsLayer, level: Level, elapsed: u64)
    requires
        expired(layer.timeout(), elapsed),
    ensures
        !layer.forwards(level, elapsed),
        forall|later: u64| later >= elapsed ==> !layer.forwards(level, later),
{
}

} // verus!
