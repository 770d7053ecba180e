//! Capture of the gateway's log events for streaming over gRPC and for export.

use crate::bus_laws::{law_only_the_export_path_is_kept_out, law_the_gateway_is_exported};
use crate::channel::{heard_channel, missed, SendOutcome};
use crate::log_export::{after_offer, DropLedger, LogExportHandle, QueueView};
use crate::log_line::{
    LineView, Payload, SandboxLogLine, SandboxStreamEvent, StreamEventView, OCSF_TARGET,
};
use crate::ocsf::document::text_of;
use crate::phrases::leads;
use crate::streams::{events_of, recent, FeedView, Streams};
use crate::string_map::{upsert, FieldMap};
use crate::text::{begins_with, same_text, starts_with};
use tokio::sync::broadcast;
use vstd::prelude::*;
use vstd::string::*;

verus! {

/// Default tail buffer capacity of the log bus (lines per sandbox).
pub const DEFAULT_TAIL: usize = 2000;

/// Default tail buffer capacity of the platform event bus (events per sandbox).
/// Platform events are infrequent (typically 5-10 per sandbox lifecycle).
pub const PLATFORM_TAIL: usize = 50;

/// Separate bus for platform event stream events.
///
/// This keeps platform events isolated from tracing capture.
#[derive(Debug)]
pub struct PlatformEventBus {
    streams: Streams,
}

impl PlatformEventBus {
    /// The feed of a sandbox, where it has one.
    pub closed spec fn feed(&self, sandbox_id: Seq<char>) -> Option<FeedView> {
        self.streams.feed(sandbox_id)
    }

    /// The buffered events of a sandbox, oldest first.
    pub closed spec fn buffered(&self, sandbox_id: Seq<char>) -> Seq<StreamEventView> {
        self.streams.buffered(sandbox_id)
    }

    /// Whether a sandbox has a feed now, a fresh one where it had none, and
    /// nothing else changed.
    pub open spec fn opens(&self, before: &PlatformEventBus, sandbox_id: Seq<char>) -> bool {
        &&& forall|id: Seq<char>|
            id != sandbox_id || before.feed(id) is Some ==> #[trigger] self.feed(id) == before.feed(
                id,
            )
        &&& self.feed(sandbox_id) is Some
        &&& before.feed(sandbox_id) is None ==> self.feed(sandbox_id)->0 == FeedView::fresh(
            self.feed(sandbox_id)->0.channel,
        )
        &&& forall|id: Seq<char>| #[trigger] self.buffered(id) == before.buffered(id)
    }

    /// Whether a sandbox's feed and tail are gone, and nothing else changed.
    pub open spec fn forgets(&self, before: &PlatformEventBus, sandbox_id: Seq<char>) -> bool {
        &&& forall|id: Seq<char>| #[trigger] self.feed(id) == if id == sandbox_id {
            None
        } else {
            before.feed(id)
        }
        &&& forall|id: Seq<char>| #[trigger] self.buffered(id) == if id == sandbox_id {
            Seq::empty()
        } else {
            before.buffered(id)
        }
    }

    /// A bus without streams.
    #[must_use]
    pub fn new() -> (bus: PlatformEventBus)
        ensures
            forall|id: Seq<char>| (#[trigger] bus.feed(id)) is None,
            forall|id: Seq<char>| #[trigger] bus.buffered(id) == Seq::<StreamEventView>::empty(),
    {
        PlatformEventBus { streams: Streams::new() }
    }

    /// Watch a sandbox's events from here on.
    #[must_use]
    pub fn subscribe(&mut self, sandbox_id: &str) -> (watcher: broadcast::Receiver<
        SandboxStreamEvent,
    >)
        ensures
            final(self).opens(old(self), sandbox_id@),
            final(self).feed(sandbox_id@) matches Some(feed) && feed.heard_by(watcher),
    {
        self.streams.watch(sandbox_id)
    }

    /// Publish an event: it is sent on the sandbox's feed, which is made where
    /// it has none, and appended to its tail. Says whether anybody was watching.
    pub fn publish(&mut self, sandbox_id: &str, event: SandboxStreamEvent) -> (heard: bool)
        ensures
            forall|id: Seq<char>|
                id != sandbox_id@ ==> #[trigger] final(self).feed(id) == old(self).feed(id),
            final(self).feed(sandbox_id@) matches Some(after) && after == match old(self).feed(
                sandbox_id@,
            ) {
                Some(feed) => feed,
                None => FeedView::fresh(after.channel),
            }.offering(event@, heard),
            forall|id: Seq<char>| #[trigger] final(self).buffered(id) == if id == sandbox_id@ {
                recent(old(self).buffered(id).push(event@), PLATFORM_TAIL as nat)
            } else {
                old(self).buffered(id)
            },
    {
        self.streams.open_feed(sandbox_id);
        let heard = self.streams.send(sandbox_id, &event);
        self.streams.remember(sandbox_id, event, PLATFORM_TAIL);
        heard
    }

    /// Return buffered platform events for replay to late subscribers.
    #[must_use]
    pub fn tail(&self, sandbox_id: &str, max: usize) -> (events: Vec<SandboxStreamEvent>)
        ensures
            events_of(events@) == recent(self.buffered(sandbox_id@), max as nat),
    {
        self.streams.tail(sandbox_id, max)
    }

    /// Remove the bus entry for the given sandbox id.
    ///
    /// This drops the broadcast sender, closing any active receivers, and frees
    /// the tail buffer.
    pub fn remove(&mut self, sandbox_id: &str)
        ensures
            final(self).forgets(old(self), sandbox_id@),
    {
        self.streams.remove(sandbox_id);
    }
}

/// Bus that publishes server log lines keyed by sandbox id.
#[derive(Debug)]
pub struct TracingLogBus {
    streams: Streams,
    pub platform_event_bus: PlatformEventBus,
    /// Off-box OTLP log export sink. Installed once at startup; `None` disables
    /// export.
    export: Option<LogExportHandle>,
}

/// Whether a line was offered to the export queue, where there is one, and
/// accounted for.
pub open spec fn offered(
    before: Option<QueueView>,
    after: Option<QueueView>,
    line: LineView,
    ledger_before: DropLedger,
    ledger_after: DropLedger,
    now_ms: i64,
) -> bool {
    match before {
        Some(queue) => exists|outcome: SendOutcome|
            {
                &&& after == Some(queue.offering(line, outcome))
                &&& ledger_after == #[trigger] after_offer(ledger_before, outcome, now_ms)
            },
        None => after is None && ledger_after == ledger_before,
    }
}

impl TracingLogBus {
    /// The feed of a sandbox, where it has one.
    pub closed spec fn feed(&self, sandbox_id: Seq<char>) -> Option<FeedView> {
        self.streams.feed(sandbox_id)
    }

    /// The buffered events of a sandbox, oldest first.
    pub closed spec fn buffered(&self, sandbox_id: Seq<char>) -> Seq<StreamEventView> {
        self.streams.buffered(sandbox_id)
    }

    /// What was offered to the export queue, where export is installed.
    pub closed spec fn exported(&self) -> Option<QueueView> {
        match self.export {
            Some(handle) => Some(handle@),
            None => None,
        }
    }

    /// The bus of platform events.
    pub closed spec fn platform(&self) -> PlatformEventBus {
        self.platform_event_bus
    }

    /// Whether the visibility plane is the same in both: every sandbox's feed
    /// and tail.
    pub open spec fn same_visibility(&self, other: &TracingLogBus) -> bool {
        &&& forall|id: Seq<char>| #[trigger] self.feed(id) == other.feed(id)
        &&& forall|id: Seq<char>| #[trigger] self.buffered(id) == other.buffered(id)
        &&& self.platform() == other.platform()
    }

    /// Whether publishing a line leads from one visibility plane to the other:
    /// the line is appended to its sandbox's tail; the watchers of its feed, where
    /// it has one, are counted, and unless there are none the line is offered to
    /// them; nothing else changes.
    pub open spec fn shows(&self, before: &TracingLogBus, line: LineView, tail_cap: nat) -> bool {
        let event = StreamEventView::of_line(line);
        &&& forall|id: Seq<char>| #[trigger] self.buffered(id) == if id == line.sandbox_id {
            recent(before.buffered(id).push(event), tail_cap)
        } else {
            before.buffered(id)
        }
        &&& forall|id: Seq<char>| id != line.sandbox_id ==> #[trigger] self.feed(id) == before.feed(id)
        &&& match before.feed(line.sandbox_id) {
            Some(feed) => exists|watchers: usize, heard: bool|
                self.feed(line.sandbox_id) == Some(
                    #[trigger] feed.counting(watchers).publishing(event, watchers, heard),
                ),
            None => self.feed(line.sandbox_id) is None,
        }
        &&& self.platform() == before.platform()
    }

    /// Whether a sandbox has a feed now, a fresh one where it had none, and
    /// nothing else changed.
    pub open spec fn opens(&self, before: &TracingLogBus, sandbox_id: Seq<char>) -> bool {
        &&& forall|id: Seq<char>|
            id != sandbox_id || before.feed(id) is Some ==> #[trigger] self.feed(id) == before.feed(
                id,
            )
        &&& self.feed(sandbox_id) is Some
        &&& before.feed(sandbox_id) is None ==> self.feed(sandbox_id)->0 == FeedView::fresh(
            self.feed(sandbox_id)->0.channel,
        )
        &&& forall|id: Seq<char>| #[trigger] self.buffered(id) == before.buffered(id)
        &&& self.platform() == before.platform()
        &&& self.exported() == before.exported()
    }

    /// Whether a sandbox's feed and tail are gone, and nothing else changed.
    pub open spec fn forgets(&self, before: &TracingLogBus, sandbox_id: Seq<char>) -> bool {
        &&& forall|id: Seq<char>| #[trigger] self.feed(id) == if id == sandbox_id {
            None
        } else {
            before.feed(id)
        }
        &&& forall|id: Seq<char>| #[trigger] self.buffered(id) == if id == sandbox_id {
            Seq::empty()
        } else {
            before.buffered(id)
        }
        &&& self.platform() == before.platform()
        &&& self.exported() == before.exported()
    }

    /// A bus without streams and without export.
    #[must_use]
    pub fn new() -> (bus: TracingLogBus)
        ensures
            forall|id: Seq<char>| (#[trigger] bus.feed(id)) is None,
            forall|id: Seq<char>| #[trigger] bus.buffered(id) == Seq::<StreamEventView>::empty(),
            forall|id: Seq<char>| (#[trigger] bus.platform().feed(id)) is None,
            forall|id: Seq<char>| #[trigger]
                bus.platform().buffered(id) == Seq::<StreamEventView>::empty(),
            bus.exported() is None,
    {
        TracingLogBus {
            streams: Streams::new(),
            platform_event_bus: PlatformEventBus::new(),
            export: None,
        }
    }

    /// Install the off-box log-export sink.
    ///
    /// Every log line published after this call is forwarded for OTLP export in
    /// addition to the in-memory tail/broadcast. Idempotent: the first handle
    /// installed wins.
    pub fn set_export(&mut self, handle: LogExportHandle)
        ensures
            final(self).exported() == match old(self).exported() {
                Some(queue) => Some(queue),
                None => Some(handle@),
            },
            final(self).same_visibility(old(self)),
    {
        if self.export.is_none() {
            self.export = Some(handle);
        }
    }

    /// Whether an export sink is installed.
    #[must_use]
    pub fn exports(&self) -> (installed: bool)
        ensures
            installed == self.exported() is Some,
    {
        self.export.is_some()
    }

    /// Forward a gateway-scoped line to off-box export only.
    ///
    /// Gateway events without a sandbox (governance, auth, credential refresh,
    /// TLS) have no per-sandbox tail or watcher to serve, so they skip the
    /// visibility plane (the gateway's own stdout already shows them) and go
    /// straight to the export queue.
    pub fn export_only(&mut self, log: SandboxLogLine, ledger: &mut DropLedger, now_ms: i64)
        ensures
            offered(
                old(self).exported(),
                final(self).exported(),
                log@,
                *old(ledger),
                *final(ledger),
                now_ms,
            ),
            final(self).same_visibility(old(self)),
    {
        if let Some(handle) = &mut self.export {
            let _ = handle.enqueue(log, ledger, now_ms);
        }
    }

    /// Watch a sandbox's log lines from here on.
    #[must_use]
    pub fn subscribe(&mut self, sandbox_id: &str) -> (watcher: broadcast::Receiver<
        SandboxStreamEvent,
    >)
        ensures
            final(self).opens(old(self), sandbox_id@),
            final(self).feed(sandbox_id@) matches Some(feed) && feed.heard_by(watcher),
    {
        self.streams.watch(sandbox_id)
    }

    /// Remove all bus entries for the given sandbox id.
    ///
    /// This drops the broadcast sender (closing any active receivers) and frees
    /// the tail buffer.
    pub fn remove(&mut self, sandbox_id: &str)
        ensures
            final(self).forgets(old(self), sandbox_id@),
    {
        self.streams.remove(sandbox_id);
    }

    /// The last `max` buffered events of a sandbox, oldest first.
    #[must_use]
    pub fn tail(&self, sandbox_id: &str, max: usize) -> (events: Vec<SandboxStreamEvent>)
        ensures
            events_of(events@) == recent(self.buffered(sandbox_id@), max as nat),
    {
        self.streams.tail(sandbox_id, max)
    }

    /// Publish a log line from an external source (e.g., sandbox push).
    ///
    /// Injects the line into the same broadcast channel and tail buffer used for
    /// the gateway's own events, so watchers see both alike.
    pub fn publish_external(&mut self, log: SandboxLogLine, ledger: &mut DropLedger, now_ms: i64)
        ensures
            offered(
                old(self).exported(),
                final(self).exported(),
                log@,
                *old(ledger),
                *final(ledger),
                now_ms,
            ),
            final(self).shows(old(self), log@, DEFAULT_TAIL as nat),
    {
        self.publish_log(log, DEFAULT_TAIL, ledger, now_ms);
    }

    /// Publish a line: to the export queue, to the sandbox's watchers, and into
    /// its tail.
    pub fn publish_log(
        &mut self,
        log: SandboxLogLine,
        tail_cap: usize,
        ledger: &mut DropLedger,
        now_ms: i64,
    )
        ensures
            offered(
                old(self).exported(),
                final(self).exported(),
                log@,
                *old(ledger),
                *final(ledger),
                now_ms,
            ),
            final(self).shows(old(self), log@, tail_cap as nat),
    {
        // Both gateway-origin and sandbox-pushed lines reach the bus here, so
        // this taps every line before it enters the bounded in-memory tail.
        if self.exports() {
            self.export_only(log.clone(), ledger, now_ms);
        }
        let ghost tapped = *self;
        self.show(log, tail_cap);
        proof {
            assert forall|id: Seq<char>| #[trigger] self.buffered(id) == if id == log@.sandbox_id {
                recent(
                    old(self).buffered(id).push(StreamEventView::of_line(log@)),
                    tail_cap as nat,
                )
            } else {
                old(self).buffered(id)
            } by {
                assert(tapped.buffered(id) == old(self).buffered(id));
            }
            assert forall|id: Seq<char>| id != log@.sandbox_id implies #[trigger] self.feed(id)
                == old(self).feed(id) by {
                assert(tapped.feed(id) == old(self).feed(id));
            }
            assert(tapped.feed(log@.sandbox_id) == old(self).feed(log@.sandbox_id));
        }
    }

    /// Show a line on the visibility plane: to the sandbox's watchers, and in its
    /// tail.
    fn show(&mut self, log: SandboxLogLine, tail_cap: usize)
        ensures
            final(self).shows(old(self), log@, tail_cap as nat),
            final(self).exported() == old(self).exported(),
    {
        let sandbox_id = log.sandbox_id.clone();
        let event = SandboxStreamEvent { payload: Some(Payload::Log(log)) };
        // A live watcher is the exception rather than the rule, and sending
        // copies the line's whole field map, so nothing is copied for a feed
        // that nobody watches. Nothing observable depends on it: a send to nobody
        // is discarded anyway.
        let watchers = self.streams.watchers(sandbox_id.as_str());
        let ghost counted = *self;
        let heard = self.streams.send_to(sandbox_id.as_str(), &event, watchers);
        let ghost sent = *self;
        self.streams.remember(sandbox_id.as_str(), event, tail_cap);
        proof {
            assert forall|id: Seq<char>| #[trigger] self.buffered(id) == if id == log@.sandbox_id {
                recent(
                    old(self).buffered(id).push(StreamEventView::of_line(log@)),
                    tail_cap as nat,
                )
            } else {
                old(self).buffered(id)
            } by {
                assert(sent.streams.kept(id) == counted.streams.kept(id));
                assert(counted.streams.kept(id) == old(self).streams.kept(id));
            }
            assert forall|id: Seq<char>| #[trigger] self.feed(id) == sent.feed(id) by {
                assert(self.streams.feed(id) == sent.streams.feed(id));
            }
            assert forall|id: Seq<char>| id != log@.sandbox_id implies #[trigger] self.feed(id)
                == old(self).feed(id) by {
                assert(sent.streams.feed(id) == counted.streams.feed(id));
                assert(counted.streams.feed(id) == old(self).streams.feed(id));
            }
            assert(self.feed(log@.sandbox_id) == sent.feed(log@.sandbox_id));
            if let Some(feed) = old(self).feed(log@.sandbox_id) {
                let event = StreamEventView::of_line(log@);
                assert(counted.streams.feed(log@.sandbox_id) == Some(feed.counting(watchers)));
                assert(sent.streams.feed(log@.sandbox_id) == Some(
                    feed.counting(watchers).publishing(event, watchers, heard),
                ));
            }
        }
    }
}

impl Default for TracingLogBus {
    fn default() -> (bus: Self)
        ensures
            forall|id: Seq<char>| (#[trigger] bus.feed(id)) is None,
            forall|id: Seq<char>| #[trigger] bus.buffered(id) == Seq::<StreamEventView>::empty(),
            forall|id: Seq<char>| (#[trigger] bus.platform().feed(id)) is None,
            forall|id: Seq<char>| #[trigger]
                bus.platform().buffered(id) == Seq::<StreamEventView>::empty(),
            bus.exported() is None,
    {
        TracingLogBus::new()
    }
}

/// What a log event carries besides its place in the code.
#[derive(Debug)]
pub struct LogVisitor {
    pub sandbox_id: Option<String>,
    pub message: Option<String>,
    /// Every other structured field on the event, preserved so exported records
    /// keep the data operators can only otherwise find on stdout (e.g. an auth
    /// denial's principal and requested sandbox).
    pub fields: FieldMap,
}

/// The contents of a [`LogVisitor`].
pub struct VisitorView {
    pub sandbox_id: Option<Seq<char>>,
    pub message: Option<Seq<char>>,
    pub fields: Seq<(Seq<char>, Seq<char>)>,
}

impl View for LogVisitor {
    type V = VisitorView;

    open spec fn view(&self) -> VisitorView {
        VisitorView {
            sandbox_id: text_of(self.sandbox_id),
            message: text_of(self.message),
            fields: self.fields.ordered(),
        }
    }
}

impl VisitorView {
    /// Nothing recorded.
    pub open spec fn blank() -> VisitorView {
        VisitorView { sandbox_id: None, message: None, fields: Seq::empty() }
    }

    /// What is held after one more field: the sandbox id and the message have
    /// places of their own, and the last value under a name wins.
    pub open spec fn recording(self, name: Seq<char>, value: Seq<char>) -> VisitorView {
        if name == "sandbox_id"@ {
            VisitorView { sandbox_id: Some(value), ..self }
        } else if name == "message"@ {
            VisitorView { message: Some(value), ..self }
        } else {
            VisitorView { fields: upsert(self.fields, name, value), ..self }
        }
    }
}

impl LogVisitor {
    /// Nothing recorded.
    #[must_use]
    pub fn new() -> (visitor: LogVisitor)
        ensures
            visitor@ == VisitorView::blank(),
    {
        LogVisitor { sandbox_id: None, message: None, fields: FieldMap::new() }
    }

    /// Record a string field.
    pub fn record_str(&mut self, name: &str, value: &str)
        ensures
            final(self)@ == old(self)@.recording(name@, value@),
    {
        if same_text(name, "sandbox_id") {
            self.sandbox_id = Some(value.to_owned());
        } else if same_text(name, "message") {
            self.message = Some(value.to_owned());
        } else {
            self.fields.insert(name.to_owned(), value.to_owned());
        }
    }

    /// Record a field of any other type, given its debug rendering.
    pub fn record_debug(&mut self, name: &str, rendered: &str)
        ensures
            final(self)@ == old(self)@.recording(name@, rendered@),
    {
        self.record_str(name, rendered);
    }
}

/// The targets of the export path: its own worker and the transport beneath it.
pub open spec fn feedback_prefixes() -> Seq<Seq<char>> {
    seq![
        "openshell_server::log_export"@,
        "opentelemetry"@,
        "tonic"@,
        "h2"@,
        "hyper"@,
        "rustls"@,
    ]
}

/// Whether events from `target` could be produced by the export path itself.
pub open spec fn feeds_back(target: Seq<char>) -> bool {
    exists|i: int|
        0 <= i < feedback_prefixes().len() && begins_with(target, #[trigger] feedback_prefixes()[i])
}

/// Whether events from `target` could be produced by the export path itself.
///
/// The export worker logs its own failures, and the OTLP/tonic stack beneath it
/// logs transport errors. Forwarding those into the export queue would turn
/// every export failure into fresh queue traffic, a feedback loop that is
/// loudest exactly when the collector is down. They stay on gateway stdout.
#[must_use]
pub fn is_export_feedback_target(target: &str) -> (feedback: bool)
    ensures
        feedback == feeds_back(target@),
        feedback <==> {
            ||| leads(target@, "openshell_server::log_export"@)
            ||| leads(target@, "opentelemetry"@)
            ||| leads(target@, "tonic"@)
            ||| leads(target@, "h2"@)
            ||| leads(target@, "hyper"@)
            ||| leads(target@, "rustls"@)
        },
{
    proof {
        law_only_the_export_path_is_kept_out(target@);
    }
    let prefixes = [
        "openshell_server::log_export",
        "opentelemetry",
        "tonic",
        "h2",
        "hyper",
        "rustls",
    ];
    let mut i: usize = 0;
    while i < prefixes.len()
        invariant
            i <= prefixes@.len(),
            prefixes@.len() == feedback_prefixes().len(),
            forall|j: int|
                0 <= j < prefixes@.len() ==> (#[trigger] prefixes@[j])@ == feedback_prefixes()[j],
            forall|j: int| 0 <= j < i ==> !begins_with(target@, #[trigger] feedback_prefixes()[j]),
        decreases prefixes@.len() - i,
    {
        if starts_with(target, prefixes[i]) {
            proof {
                assert(begins_with(target@, feedback_prefixes()[i as int]));
                law_only_the_export_path_is_kept_out(target@);
            }
            return true;
        }
        i = i + 1;
    }
    false
}

/// The level that a line shows: OCSF events have one of their own.
pub open spec fn shown_level(target: Seq<char>, level: Seq<char>) -> Seq<char> {
    if target == OCSF_TARGET@ {
        "OCSF"@
    } else {
        level
    }
}

/// The level that a line shows.
#[must_use]
pub fn display_level(target: &str, level: &str) -> (shown: String)
    ensures
        shown@ == shown_level(target@, level@),
        target@ == "ocsf"@ ==> shown@ == "OCSF"@,
        target@ != "ocsf"@ ==> shown@ == level@,
{
    if same_text(target, OCSF_TARGET) {
        "OCSF".to_owned()
    } else {
        level.to_owned()
    }
}

/// Where a captured event goes.
#[derive(Debug, Clone, Copy, PartialEq, Eq, Structural)]
pub enum Lane {
    /// Nowhere.
    Ignored,
    /// Sandbox-scoped: the visibility plane and the export tap.
    Sandbox,
    /// Sandbox-scoped, from the export path: the visibility plane alone.
    Visibility,
    /// Gateway-scoped: export only.
    Gateway,
}

/// The sandbox that an event is about, or nothing for an empty id.
pub open spec fn scope(sandbox_id: Option<Seq<char>>) -> Seq<char> {
    match sandbox_id {
        Some(id) => id,
        None => Seq::empty(),
    }
}

/// Where a captured event goes. One without a sandbox only matters when export
/// is installed, and events from the export path itself must never re-enter the
/// queue they are trying to drain.
pub open spec fn lane(
    exporting: bool,
    target: Seq<char>,
    sandbox_id: Option<Seq<char>>,
) -> Lane {
    if scope(sandbox_id).len() > 0 {
        if feeds_back(target) {
            Lane::Visibility
        } else {
            Lane::Sandbox
        }
    } else if exporting && !feeds_back(target) {
        Lane::Gateway
    } else {
        Lane::Ignored
    }
}

/// The line that a captured event becomes.
pub open spec fn captured_line(
    target: Seq<char>,
    level: Seq<char>,
    name: Seq<char>,
    visitor: VisitorView,
    now_ms: i64,
) -> LineView {
    LineView {
        sandbox_id: scope(visitor.sandbox_id),
        timestamp_ms: now_ms,
        level: shown_level(target, level),
        target,
        message: match visitor.message {
            Some(message) => message,
            None => name,
        },
        source: "gateway"@,
        fields: visitor.fields,
    }
}

impl TracingLogBus {
    /// Capture a log event of the gateway: its target, level and name, and what
    /// it carries.
    pub fn on_event(
        &mut self,
        target: &str,
        level: &str,
        name: &str,
        visitor: LogVisitor,
        ledger: &mut DropLedger,
        now_ms: i64,
    ) -> (taken: Lane)
        ensures
            taken == lane(old(self).exported() is Some, target@, visitor@.sandbox_id),
            taken == Lane::Ignored ==> *final(self) == *old(self) && *final(ledger) == *old(ledger),
            taken == Lane::Gateway || taken == Lane::Sandbox ==> offered(
                old(self).exported(),
                final(self).exported(),
                captured_line(target@, level@, name@, visitor@, now_ms),
                *old(ledger),
                *final(ledger),
                now_ms,
            ),
            taken == Lane::Gateway ==> final(self).same_visibility(old(self)),
            taken == Lane::Sandbox || taken == Lane::Visibility ==> final(self).shows(
                old(self),
                captured_line(target@, level@, name@, visitor@, now_ms),
                DEFAULT_TAIL as nat,
            ),
            feeds_back(target@) ==> final(self).exported() == old(self).exported() && *final(ledger)
                == *old(ledger),
            leads(target@, "openshell_server::"@) && !leads(
                target@,
                "openshell_server::log_export"@,
            ) && old(self).exported() is Some && visitor@.sandbox_id is None ==> taken
                == Lane::Gateway,
    {
        proof {
            if leads(target@, "openshell_server::"@) && !leads(
                target@,
                "openshell_server::log_export"@,
            ) {
                law_the_gateway_is_exported(target@, visitor@.sandbox_id);
            }
        }
        // Events from the export path itself must never re-enter the queue they
        // are trying to drain.
        let feedback = is_export_feedback_target(target);
        let exportable = self.exports() && !feedback;
        let sandbox_id = match visitor.sandbox_id {
            Some(id) => id,
            None => String::new(),
        };
        let scoped = !sandbox_id.as_str().is_empty();
        if !scoped && !exportable {
            return Lane::Ignored;
        }
        let message = match visitor.message {
            Some(message) => message,
            None => name.to_owned(),
        };
        let log = SandboxLogLine {
            sandbox_id,
            timestamp_ms: now_ms,
            level: display_level(target, level),
            target: target.to_owned(),
            message,
            source: "gateway".to_owned(),
            fields: visitor.fields,
        };
        if scoped && feedback {
            self.show(log, DEFAULT_TAIL);
            Lane::Visibility
        } else if scoped {
            self.publish_log(log, DEFAULT_TAIL, ledger, now_ms);
            Lane::Sandbox
        } else {
            self.export_only(log, ledger, now_ms);
            Lane::Gateway
        }
    }
}

/// An event of the export path itself never takes a lane that leads into the
/// export queue: it shows in the stream of the sandbox it names, if any, and
/// nowhere else.
pub proof fn law_export_failures_do_not_feed_back(
    exporting: bool,
    target: Seq<char>,
    sandbox_id: Option<Seq<char>>,
)
    requires
        feeds_back(target),
    ensures
        lane(exporting, target, sandbox_id) == if scope(sandbox_id).len() > 0 {
            Lane::Visibility
        } else {
            Lane::Ignored
        },
{
}

/// Without an export sink, events without a sandbox go nowhere.
pub proof fn law_gateway_events_need_export(target: Seq<char>, sandbox_id: Option<Seq<char>>)
    requires
        scope(sandbox_id).len() == 0,
    ensures
        lane(false, target, sandbox_id) == Lane::Ignored,
{
}

/// Watching a removed sandbox again starts afresh: an empty feed, nothing
/// missed, and no history to replay.
pub proof fn law_watching_after_removal_starts_afresh(
    before: &TracingLogBus,
    removed: &TracingLogBus,
    watched: &TracingLogBus,
    sandbox_id: Seq<char>,
)
    requires
        removed.forgets(before, sandbox_id),
        watched.opens(removed, sandbox_id),
    ensures
        watched.feed(sandbox_id) matches Some(feed) && feed == FeedView::fresh(feed.channel),
        watched.buffered(sandbox_id) == Seq::<StreamEventView>::empty(),
{
    assert(removed.feed(sandbox_id) is None);
    assert(removed.buffered(sandbox_id) == Seq::<StreamEventView>::empty());
}

/// Watching a removed sandbox's platform events again starts afresh.
pub proof fn law_watching_platform_events_after_removal_starts_afresh(
    before: &PlatformEventBus,
    removed: &PlatformEventBus,
    watched: &PlatformEventBus,
    sandbox_id: Seq<char>,
)
    requires
        removed.forgets(before, sandbox_id),
        watched.opens(removed, sandbox_id),
    ensures
        watched.feed(sandbox_id) matches Some(feed) && feed == FeedView::fresh(feed.channel),
        watched.buffered(sandbox_id) == Seq::<StreamEventView>::empty(),
{
    assert(removed.feed(sandbox_id) is None);
    assert(removed.buffered(sandbox_id) == Seq::<StreamEventView>::empty());
}

/// What is published for a sandbox goes out on the channel that its watchers
/// listen on, and the line is all that goes out on it.
pub proof fn law_watchers_listen_where_lines_are_sent(
    watched: &TracingLogBus,
    after: &TracingLogBus,
    watcher: broadcast::Receiver<SandboxStreamEvent>,
    line: LineView,
    tail_cap: nat,
)
    requires
        watched.feed(line.sandbox_id) matches Some(feed) && feed.heard_by(watcher),
        after.shows(watched, line, tail_cap),
    ensures
        after.feed(line.sandbox_id) matches Some(feed) && {
            let event = StreamEventView::of_line(line);
            &&& feed.channel == heard_channel(watcher)
            &&& feed.counts.len() > 0
            &&& feed.counts.last() == 0 ==> feed.sent == missed(watcher)
            &&& feed.counts.last() > 0 ==> feed.offered.last() == event && (feed.sent == missed(
                watcher,
            ) || feed.sent == missed(watcher).push(event))
        },
{
}

/// A published line is the last one that its sandbox's tail replays, and no
/// other sandbox's tail shows it.
pub proof fn law_published_lines_are_replayed(
    before: &TracingLogBus,
    after: &TracingLogBus,
    line: LineView,
    tail_cap: nat,
    max: nat,
    other: Seq<char>,
)
    requires
        after.shows(before, line, tail_cap),
        tail_cap > 0,
        max > 0,
        other != line.sandbox_id,
    ensures
        recent(after.buffered(line.sandbox_id), max).last() == StreamEventView::of_line(line),
        after.buffered(line.sandbox_id).len() <= tail_cap,
        after.buffered(other) == before.buffered(other),
{
    let event = StreamEventView::of_line(line);
    let all = before.buffered(line.sandbox_id).push(event);
    assert(after.buffered(line.sandbox_id) == recent(all, tail_cap));
    assert(recent(all, tail_cap).last() == event);
}

} // verus!
