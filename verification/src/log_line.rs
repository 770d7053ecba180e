//! Log lines and the events of a sandbox's stream.

use crate::string_map::FieldMap;
use vstd::prelude::*;
use vstd::string::*;

verus! {

/// The log target of OCSF events.
pub const OCSF_TARGET: &'static str = "ocsf";

/// One log line, authored by the gateway or pushed by a sandbox.
#[derive(Debug)]
pub struct SandboxLogLine {
    /// The sandbox the line is about; empty for a gateway-scoped line.
    pub sandbox_id: String,
    /// Milliseconds since the Unix epoch; zero or less when unknown.
    pub timestamp_ms: i64,
    pub level: String,
    pub target: String,
    pub message: String,
    /// `gateway` or `sandbox`.
    pub source: String,
    /// Structured fields.
    pub fields: FieldMap,
}

/// The contents of a [`SandboxLogLine`].
pub struct LineView {
    pub sandbox_id: Seq<char>,
    pub timestamp_ms: i64,
    pub level: Seq<char>,
    pub target: Seq<char>,
    pub message: Seq<char>,
    pub source: Seq<char>,
    pub fields: Seq<(Seq<char>, Seq<char>)>,
}

impl View for SandboxLogLine {
    type V = LineView;

    open spec fn view(&self) -> LineView {
        LineView {
            sandbox_id: self.sandbox_id@,
            timestamp_ms: self.timestamp_ms,
            level: self.level@,
            target: self.target@,
            message: self.message@,
            source: self.source@,
            fields: self.fields.ordered(),
        }
    }
}

impl Clone for SandboxLogLine {
    fn clone(&self) -> (copy: Self)
        ensures
            copy@ == self@,
    {
        SandboxLogLine {
            sandbox_id: self.sandbox_id.clone(),
            timestamp_ms: self.timestamp_ms,
            level: self.level.clone(),
            target: self.target.clone(),
            message: self.message.clone(),
            source: self.source.clone(),
            fields: self.fields.clone(),
        }
    }
}

/// An event reported by the platform that runs a sandbox.
#[derive(Debug)]
pub struct PlatformEvent {
    pub timestamp_ms: i64,
    pub source: String,
    pub event_type: String,
    pub reason: String,
    pub message: String,
    pub metadata: FieldMap,
}

/// The contents of a [`PlatformEvent`].
pub struct PlatformEventView {
    pub timestamp_ms: i64,
    pub source: Seq<char>,
    pub event_type: Seq<char>,
    pub reason: Seq<char>,
    pub message: Seq<char>,
    pub metadata: Seq<(Seq<char>, Seq<char>)>,
}

impl View for PlatformEvent {
    type V = PlatformEventView;

    open spec fn view(&self) -> PlatformEventView {
        PlatformEventView {
            timestamp_ms: self.timestamp_ms,
            source: self.source@,
            event_type: self.event_type@,
            reason: self.reason@,
            message: self.message@,
            metadata: self.metadata.ordered(),
        }
    }
}

impl Clone for PlatformEvent {
    fn clone(&self) -> (copy: Self)
        ensures
            copy@ == self@,
    {
        PlatformEvent {
            timestamp_ms: self.timestamp_ms,
            source: self.source.clone(),
            event_type: self.event_type.clone(),
            reason: self.reason.clone(),
            message: self.message.clone(),
            metadata: self.metadata.clone(),
        }
    }
}

/// What a stream event carries.
#[derive(Debug)]
pub enum Payload {
    Log(SandboxLogLine),
    Event(PlatformEvent),
}

/// The contents of a [`Payload`].
pub enum PayloadView {
    Log(LineView),
    Event(PlatformEventView),
}

/// One event of a sandbox's stream.
#[derive(Debug)]
pub struct SandboxStreamEvent {
    pub payload: Option<Payload>,
}

/// The contents of a [`SandboxStreamEvent`].
pub struct StreamEventView {
    pub payload: Option<PayloadView>,
}

impl View for SandboxStreamEvent {
    type V = StreamEventView;

    open spec fn view(&self) -> StreamEventView {
        StreamEventView {
            payload: match self.payload {
                Some(Payload::Log(line)) => Some(PayloadView::Log(line@)),
                Some(Payload::Event(event)) => Some(PayloadView::Event(event@)),
                None => None,
            },
        }
    }
}

impl StreamEventView {
    /// A stream event that carries a log line.
    pub open spec fn of_line(line: LineView) -> StreamEventView {
        StreamEventView { payload: Some(PayloadView::Log(line)) }
    }
}

impl Clone for SandboxStreamEvent {
    fn clone(&self) -> (copy: Self)
        ensures
            copy@ == self@,
    {
        SandboxStreamEvent {
            payload: match &self.payload {
                Some(Payload::Log(line)) => Some(Payload::Log(line.clone())),
                Some(Payload::Event(event)) => Some(Payload::Event(event.clone())),
                None => None,
            },
        }
    }
}

} // verus!
