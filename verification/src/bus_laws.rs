//! What the log bus does with the events it captures.

use crate::log_export::{DropLedger, QueueView};
use crate::log_line::{LineView, PayloadView, StreamEventView};
use crate::phrases::{leads, named, unnamed};
use crate::streams::{recent, FeedView, FEED_CAPACITY};
use crate::string_map::{law_lookup_after_upsert, law_lookup_is_the_first_match};
use crate::text_laws::law_beginnings_are_led;
use crate::tracing_bus::{
    captured_line, feedback_prefixes, feeds_back, lane, offered, shown_level, Lane,
    PlatformEventBus, TracingLogBus, VisitorView, DEFAULT_TAIL, PLATFORM_TAIL,
};
use vstd::prelude::*;

verus! {

/// The targets kept out of export are those of the export worker, of the OTLP
/// stack and of the transport beneath it, and no others.
pub proof fn law_only_the_export_path_is_kept_out(target: Seq<char>)
    ensures
        feeds_back(target) <==> {
            ||| leads(target, "openshell_server::log_export"@)
            ||| leads(target, "opentelemetry"@)
            ||| leads(target, "tonic"@)
            ||| leads(target, "h2"@)
            ||| leads(target, "hyper"@)
            ||| leads(target, "rustls"@)
        },
{
    let prefixes = feedback_prefixes();
    law_beginnings_are_led(target, "openshell_server::log_export"@);
    law_beginnings_are_led(target, "opentelemetry"@);
    law_beginnings_are_led(target, "tonic"@);
    law_beginnings_are_led(target, "h2"@);
    law_beginnings_are_led(target, "hyper"@);
    law_beginnings_are_led(target, "rustls"@);
    assert(prefixes[0] == "openshell_server::log_export"@);
    assert(prefixes[1] == "opentelemetry"@);
    assert(prefixes[2] == "tonic"@);
    assert(prefixes[3] == "h2"@);
    assert(prefixes[4] == "hyper"@);
    assert(prefixes[5] == "rustls"@);
}

/// The rest of the gateway is not swept up: whatever else of it speaks about no
/// sandbox is exported wherever export is installed, and shows as well where it
/// speaks about one.
pub proof fn law_the_gateway_is_exported(target: Seq<char>, sandbox_id: Option<Seq<char>>)
    requires
        leads(target, "openshell_server::"@),
        !leads(target, "openshell_server::log_export"@),
    ensures
        sandbox_id is None || sandbox_id->0.len() == 0 ==> lane(true, target, sandbox_id)
            == Lane::Gateway,
        sandbox_id is Some && sandbox_id->0.len() > 0 ==> lane(true, target, sandbox_id)
            == Lane::Sandbox,
{
    law_only_the_export_path_is_kept_out(target);
    reveal_strlit("openshell_server::");
    reveal_strlit("opentelemetry");
    reveal_strlit("tonic");
    reveal_strlit("h2");
    reveal_strlit("hyper");
    reveal_strlit("rustls");
    assert(target.take("openshell_server::"@.len() as int)[0] == target[0]);
    assert(target.take("openshell_server::"@.len() as int)[2] == target[2]);
    assert(target[0] == 'o');
    assert(target[2] == 'e');
    assert(!leads(target, "opentelemetry"@)) by {
        if leads(target, "opentelemetry"@) {
            assert(target.take("opentelemetry"@.len() as int)[4] == target[4]);
            assert(target.take("openshell_server::"@.len() as int)[4] == target[4]);
        }
    }
    assert(!leads(target, "tonic"@)) by {
        if leads(target, "tonic"@) {
            assert(target.take("tonic"@.len() as int)[0] == target[0]);
        }
    }
    assert(!leads(target, "h2"@)) by {
        if leads(target, "h2"@) {
            assert(target.take("h2"@.len() as int)[0] == target[0]);
        }
    }
    assert(!leads(target, "hyper"@)) by {
        if leads(target, "hyper"@) {
            assert(target.take("hyper"@.len() as int)[0] == target[0]);
        }
    }
    assert(!leads(target, "rustls"@)) by {
        if leads(target, "rustls"@) {
            assert(target.take("rustls"@.len() as int)[0] == target[0]);
        }
    }
}

/// An event about a sandbox always shows in that sandbox's stream, and is offered
/// for export too unless it is of the export path; one about none never shows,
/// and is exported exactly where there is a sink and it is not of the export path.
pub proof fn law_sandboxes_see_their_own_events(
    exporting: bool,
    target: Seq<char>,
    sandbox_id: Option<Seq<char>>,
)
    ensures
        ({
            let scoped = sandbox_id is Some && sandbox_id->0.len() > 0;
            let taken = lane(exporting, target, sandbox_id);
            &&& taken == Lane::Sandbox <==> scoped && !feeds_back(target)
            &&& taken == Lane::Visibility <==> scoped && feeds_back(target)
            &&& taken == Lane::Gateway <==> !scoped && exporting && !feeds_back(target)
            &&& taken == Lane::Ignored <==> !scoped && (!exporting || feeds_back(target))
        }),
{
}

/// A captured line is the event's own: its sandbox and message as recorded, or
/// its name where it has no message; its target; the gateway as its source; the
/// moment of capture; and its fields. Its level is its own unless it is an OCSF
/// event.
pub proof fn law_captured_lines_are_the_event(
    target: Seq<char>,
    level: Seq<char>,
    name: Seq<char>,
    visitor: VisitorView,
    now_ms: i64,
)
    ensures
        ({
            let line = captured_line(target, level, name, visitor, now_ms);
            &&& visitor.sandbox_id is Some ==> line.sandbox_id == visitor.sandbox_id->0
            &&& visitor.sandbox_id is None ==> line.sandbox_id.len() == 0
            &&& visitor.message is Some ==> line.message == visitor.message->0
            &&& visitor.message is None ==> line.message == name
            &&& line.target == target
            &&& target == "ocsf"@ ==> line.level == "OCSF"@
            &&& target != "ocsf"@ ==> line.level == level
            &&& line.source == "gateway"@
            &&& line.timestamp_ms == now_ms
            &&& line.fields == visitor.fields
        }),
{
}

/// A level is shown as it is, but for OCSF events, which show as such.
pub proof fn law_levels_are_shown(target: Seq<char>, level: Seq<char>)
    ensures
        target == "ocsf"@ ==> shown_level(target, level) == "OCSF"@,
        target != "ocsf"@ ==> shown_level(target, level) == level,
{
}

/// A recorded field is found where it belongs: the sandbox id and the message in
/// their own places, anything else among the fields under its name; and nothing
/// else changes.
pub proof fn law_recorded_fields_are_found(
    visitor: VisitorView,
    name: Seq<char>,
    value: Seq<char>,
    other: Seq<char>,
    held: Seq<char>,
)
    ensures
        ({
            let after = visitor.recording(name, value);
            &&& name == "sandbox_id"@ ==> after.sandbox_id == Some(value) && after.message
                == visitor.message && after.fields == visitor.fields
            &&& name == "message"@ ==> after.message == Some(value) && after.sandbox_id
                == visitor.sandbox_id && after.fields == visitor.fields
            &&& name != "sandbox_id"@ && name != "message"@ ==> {
                &&& after.sandbox_id == visitor.sandbox_id
                &&& after.message == visitor.message
                &&& named(after.fields, name, value)
                &&& other != name ==> (named(after.fields, other, held) <==> named(
                    visitor.fields,
                    other,
                    held,
                ))
                &&& other != name ==> (unnamed(after.fields, other) <==> unnamed(
                    visitor.fields,
                    other,
                ))
            }
        }),
{
    reveal_strlit("sandbox_id");
    reveal_strlit("message");
    assert("sandbox_id"@.len() != "message"@.len());
    let after = visitor.recording(name, value);
    law_lookup_after_upsert(visitor.fields, name, value, name);
    law_lookup_after_upsert(visitor.fields, name, value, other);
    law_lookup_is_the_first_match(after.fields, name, value);
    law_lookup_is_the_first_match(after.fields, other, held);
    law_lookup_is_the_first_match(visitor.fields, other, held);
}

/// A line offered to an installed queue is offered once, behind those before it.
/// It is accepted or not; a queue without room counts one drop, and nothing else
/// does.
pub proof fn law_offers_are_accounted(
    queue: QueueView,
    after: Option<QueueView>,
    line: LineView,
    before: DropLedger,
    ledger: DropLedger,
    now_ms: i64,
)
    requires
        offered(Some(queue), after, line, before, ledger, now_ms),
        before.dropped < u64::MAX,
    ensures
        after is Some,
        after->0.queue == queue.queue,
        after->0.limit == queue.limit,
        after->0.offered == queue.offered.push(line),
        after->0.accepted == queue.accepted.push(line) || after->0.accepted == queue.accepted,
        after->0.accepted == queue.accepted.push(line) ==> ledger == before,
        ledger == before || ledger.dropped == before.dropped + 1,
{
    assert(queue.accepted.push(line).len() != queue.accepted.len());
}

/// Without an export sink, offering a line changes nothing.
pub proof fn law_no_sink_no_offer(
    after: Option<QueueView>,
    line: LineView,
    before: DropLedger,
    ledger: DropLedger,
    now_ms: i64,
)
    requires
        offered(None, after, line, before, ledger, now_ms),
    ensures
        after is None,
        ledger == before,
{
}

/// The last items of a list are as many as asked for, or all there are, and are
/// those at its end, in order.
pub proof fn law_recent_items_are_the_last<T>(items: Seq<T>, max: nat, at: int)
    ensures
        items.len() <= max ==> recent(items, max) == items,
        items.len() > max ==> recent(items, max).len() == max,
        0 <= at < recent(items, max).len() ==> recent(items, max)[at] == items[items.len() - recent(
            items,
            max,
        ).len() + at],
{
}

/// A sandbox's tail holds 2000 lines, its platform tail 50 events, and a slow
/// watcher 1024.
pub proof fn law_capacities_of_the_bus()
    ensures
        DEFAULT_TAIL == 2000,
        PLATFORM_TAIL == 50,
        FEED_CAPACITY == 1024,
{
}

/// A published line is the newest of its sandbox's tail, behind the lines that
/// were there, of which only the oldest may have gone.
pub proof fn law_published_lines_join_the_tail(
    before: &TracingLogBus,
    after: &TracingLogBus,
    line: LineView,
    cap: nat,
    other: Seq<char>,
)
    requires
        after.shows(before, line, cap),
        cap > 0,
    ensures
        ({
            let was = before.buffered(line.sandbox_id);
            let is = after.buffered(line.sandbox_id);
            &&& is.len() > 0 && is.last() == (StreamEventView {
                payload: Some(PayloadView::Log(line)),
            })
            &&& was.len() < cap ==> is == was.push(StreamEventView::of_line(line))
            &&& is.len() <= cap
            &&& was.len() >= cap ==> is.drop_last() == was.skip(was.len() - cap + 1)
        }),
        other != line.sandbox_id ==> after.buffered(other) == before.buffered(other)
            && after.feed(other) == before.feed(other),
        before.feed(line.sandbox_id) is None ==> after.feed(line.sandbox_id) is None,
{
    let event = StreamEventView::of_line(line);
    let was = before.buffered(line.sandbox_id);
    let all = was.push(event);
    assert(after.buffered(line.sandbox_id) == recent(all, cap));
    if was.len() >= cap {
        assert(recent(all, cap).drop_last() =~= was.skip(was.len() - cap + 1));
    }
}

/// Removing a sandbox leaves nothing of it and everything of the others.
pub proof fn law_removal_is_complete_and_no_more(
    before: &TracingLogBus,
    after: &TracingLogBus,
    sandbox_id: Seq<char>,
    other: Seq<char>,
)
    requires
        after.forgets(before, sandbox_id),
    ensures
        after.feed(sandbox_id) is None,
        after.buffered(sandbox_id).len() == 0,
        other != sandbox_id ==> after.feed(other) == before.feed(other) && after.buffered(other)
            == before.buffered(other),
        after.exported() == before.exported(),
{
}

/// A feed that an event was offered on has it as its newest offer; it was sent
/// where it was heard, and for nobody it is not even offered.
pub proof fn law_feeds_tell_offers_from_sends(
    feed: FeedView,
    event: StreamEventView,
    watchers: usize,
    heard: bool,
)
    ensures
        feed.offering(event, heard).offered == feed.offered.push(event),
        heard ==> feed.offering(event, heard).sent == feed.sent.push(event),
        !heard ==> feed.offering(event, heard).sent == feed.sent,
        feed.offering(event, heard).channel == feed.channel,
        watchers == 0 ==> feed.publishing(event, watchers, heard) == feed,
        watchers > 0 ==> feed.publishing(event, watchers, heard) == feed.offering(event, heard),
        feed.counting(watchers).counts == feed.counts.push(watchers),
        feed.counting(watchers).sent == feed.sent,
        feed.counting(watchers).offered == feed.offered,
{
}

/// Watching a sandbox changes nothing but its own feed, and that only where it
/// had none: then it is fresh, with room for 1024 events.
pub proof fn law_watching_opens_one_feed(
    before: &TracingLogBus,
    after: &TracingLogBus,
    sandbox_id: Seq<char>,
    other: Seq<char>,
)
    requires
        after.opens(before, sandbox_id),
    ensures
        after.feed(sandbox_id) is Some,
        before.feed(sandbox_id) is Some ==> after.feed(sandbox_id) == before.feed(sandbox_id),
        before.feed(sandbox_id) is None ==> {
            let feed = after.feed(sandbox_id)->0;
            feed.offered.len() == 0 && feed.sent.len() == 0 && feed.counts.len() == 0 && feed.limit
                == 1024
        },
        other != sandbox_id ==> after.feed(other) == before.feed(other),
        after.buffered(other) == before.buffered(other),
        after.platform() == before.platform(),
        after.exported() == before.exported(),
{
}

/// So it is for platform events.
pub proof fn law_watching_platform_events_opens_one_feed(
    before: &PlatformEventBus,
    after: &PlatformEventBus,
    sandbox_id: Seq<char>,
    other: Seq<char>,
)
    requires
        after.opens(before, sandbox_id),
    ensures
        after.feed(sandbox_id) is Some,
        before.feed(sandbox_id) is Some ==> after.feed(sandbox_id) == before.feed(sandbox_id),
        before.feed(sandbox_id) is None ==> {
            let feed = after.feed(sandbox_id)->0;
            feed.offered.len() == 0 && feed.sent.len() == 0 && feed.counts.len() == 0 && feed.limit
                == 1024
        },
        other != sandbox_id ==> after.feed(other) == before.feed(other),
        after.buffered(other) == before.buffered(other),
{
}

/// Removing a sandbox's platform events leaves nothing of them and everything of
/// the others.
pub proof fn law_platform_removal_is_complete_and_no_more(
    before: &PlatformEventBus,
    after: &PlatformEventBus,
    sandbox_id: Seq<char>,
    other: Seq<char>,
)
    requires
        after.forgets(before, sandbox_id),
    ensures
        after.feed(sandbox_id) is None,
        after.buffered(sandbox_id).len() == 0,
        other != sandbox_id ==> after.feed(other) == before.feed(other) && after.buffered(other)
            == before.buffered(other),
{
}

/// Two buses of the same visibility show the same to everybody.
pub proof fn law_same_visibility_shows_the_same(
    before: &TracingLogBus,
    after: &TracingLogBus,
    sandbox_id: Seq<char>,
)
    requires
        after.same_visibility(before),
    ensures
        after.feed(sandbox_id) == before.feed(sandbox_id),
        after.buffered(sandbox_id) == before.buffered(sandbox_id),
        after.platform() == before.platform(),
{
}

/// A published line reaches those who watch: where any did, the feed offers it
/// last and sends at most it; where none did, nothing goes out.
pub proof fn law_published_lines_reach_watchers(
    before: &TracingLogBus,
    after: &TracingLogBus,
    line: LineView,
    cap: nat,
)
    requires
        after.shows(before, line, cap),
        before.feed(line.sandbox_id) is Some,
    ensures
        ({
            let was = before.feed(line.sandbox_id)->0;
            let is = after.feed(line.sandbox_id)->0;
            let event = StreamEventView { payload: Some(PayloadView::Log(line)) };
            &&& after.feed(line.sandbox_id) is Some
            &&& is.channel == was.channel && is.limit == was.limit
            &&& is.counts.len() == was.counts.len() + 1
            &&& is.counts.last() == 0 ==> is.offered == was.offered && is.sent == was.sent
            &&& is.counts.last() > 0 ==> is.offered == was.offered.push(event) && (is.sent
                == was.sent || is.sent == was.sent.push(event))
        }),
{
}

} // verus!
