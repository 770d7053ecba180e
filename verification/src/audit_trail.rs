//! How audit events travel: what an emission carries into the log bus, and what
//! becomes of it on the way out.

use crate::audit::{
    gateway_alert, AuthnOutcome, ConfigOutcome, Emission, EmissionView, MutationView,
};
use crate::log_line::{LineView, OCSF_TARGET};
use crate::log_record::{
    line_attributes, line_record, line_severity, sandbox_attribute, severity_of_id,
    structured_severity, text_attribute, Severity,
};
use crate::ocsf::attribute_laws::{
    law_flattened_fields_are_namespaced_and_bounded, law_raw_and_flattened_rank_alike,
};
use crate::ocsf::attributes::{flattened, raw, raw_event_fields, KEY_PREFIX};
use crate::ocsf::events::{ClassView, EventView};
use crate::ocsf::objects::FindingInfoView;
use crate::ocsf::shorthand::{law_severity_reads_back_from_the_line, shorthand, spaceless, tag_rank};
use crate::phrases::named;
use crate::principal::copy_text;
use crate::text::begins_with;
use crate::tracing_bus::{
    captured_line, feedback_prefixes, feeds_back, lane, Lane, LogVisitor, VisitorView,
};
use vstd::prelude::*;
use vstd::string::*;

verus! {

impl EmissionView {
    /// What the emission carries: its sandbox, its line for a human reader, and
    /// its payload in raw form.
    pub open spec fn carried(self) -> VisitorView {
        VisitorView {
            sandbox_id: self.sandbox_id,
            message: Some(shorthand(self.event)),
            fields: raw(self.event.text(), self.event.base.severity),
        }
    }

    /// The line that the emission becomes on the bus.
    pub open spec fn line(self, level: Seq<char>, name: Seq<char>, now_ms: i64) -> LineView {
        captured_line(OCSF_TARGET@, level, name, self.carried(), now_ms)
    }
}

impl Emission {
    /// What the emission carries into the log bus, under the OCSF target.
    #[must_use]
    pub fn visitor(&self) -> (visitor: LogVisitor)
        ensures
            visitor@ == self@.carried(),
    {
        LogVisitor {
            sandbox_id: copy_text(&self.sandbox_id),
            message: Some(self.event.format_shorthand()),
            fields: raw_event_fields(&self.event),
        }
    }
}

/// The OCSF target is not one of the export path.
proof fn lemma_ocsf_does_not_feed_back()
    ensures
        !feeds_back(OCSF_TARGET@),
{
    reveal_strlit("ocsf");
    reveal_strlit("openshell_server::log_export");
    reveal_strlit("opentelemetry");
    reveal_strlit("tonic");
    reveal_strlit("h2");
    reveal_strlit("hyper");
    reveal_strlit("rustls");
    let target = OCSF_TARGET@;
    assert forall|i: int| 0 <= i < feedback_prefixes().len() implies !begins_with(
        target,
        #[trigger] feedback_prefixes()[i],
    ) by {
        let prefix = feedback_prefixes()[i];
        if begins_with(target, prefix) {
            assert(target.subrange(0, prefix.len() as int)[0] == target[0]);
            assert(target.subrange(0, prefix.len() as int)[1] == target[1]);
        }
    }
}

/// An audit event about a sandbox goes to that sandbox's stream and exports
/// under its `sandbox.id`.
pub proof fn law_sandbox_emissions_reach_their_stream(
    emission: EmissionView,
    exporting: bool,
    level: Seq<char>,
    name: Seq<char>,
    now_ms: i64,
)
    requires
        emission.sandbox_id matches Some(id) && id.len() > 0,
    ensures
        lane(exporting, OCSF_TARGET@, emission.carried().sandbox_id) == Lane::Sandbox,
        emission.line(level, name, now_ms).sandbox_id == emission.sandbox_id->0,
        line_attributes(emission.line(level, name, now_ms)).first() == text_attribute(
            "sandbox.id"@,
            emission.sandbox_id->0,
        )[0],
{
    lemma_ocsf_does_not_feed_back();
}

/// A gateway-scoped audit event takes the gateway lane whenever export is
/// installed, and exports without a `sandbox.id`.
pub proof fn law_gateway_emissions_export_alone(
    emission: EmissionView,
    level: Seq<char>,
    name: Seq<char>,
    now_ms: i64,
)
    requires
        emission.sandbox_id is None,
    ensures
        lane(true, OCSF_TARGET@, emission.carried().sandbox_id) == Lane::Gateway,
        sandbox_attribute(emission.line(level, name, now_ms).sandbox_id).len() == 0,
{
    lemma_ocsf_does_not_feed_back();
}

/// However an OCSF event travels (raw, flattened, or as nothing but its line),
/// it exports at the severity its emitter assigned. For a line alone, the label
/// in front of its severity tag must not hold a space.
pub proof fn law_events_export_at_their_own_severity(
    event: EventView,
    text: Seq<char>,
    line: LineView,
)
    requires
        line.message == shorthand(event),
    ensures
        line_severity(
            LineView { fields: raw(text, event.base.severity), ..line },
            true,
        ) == severity_of_id(event.base.severity.id()),
        line_severity(LineView { fields: flattened(event), ..line }, true) == severity_of_id(
            event.base.severity.id(),
        ),
        (event.class matches ClassView::ConfigStateChange { state_label, .. } ==> spaceless(
            state_label,
        )) ==> line_severity(LineView { fields: Seq::empty(), ..line }, true) == severity_of_id(
            event.base.severity.id(),
        ),
{
    law_raw_and_flattened_rank_alike(event, text);
    if event.class matches ClassView::ConfigStateChange { state_label, .. } ==> spaceless(
        state_label,
    ) {
        law_severity_reads_back_from_the_line(event);
        assert(severity_of_id(tag_rank(event.base.severity)) == severity_of_id(
            event.base.severity.id(),
        ));
    }
}

/// Failed mutations export in the WARN band, where alerting sees them; routine
/// successes stay at INFO.
pub proof fn law_failed_mutations_are_alertable(
    mutation: MutationView,
    success: bool,
    ocsf_full_payload: bool,
    level: Seq<char>,
    name: Seq<char>,
    now_ms: i64,
)
    ensures
        line_record(
            mutation.emission(success).line(level, name, now_ms),
            ocsf_full_payload,
        ).severity == if success {
            Severity::Info
        } else {
            Severity::Warn
        },
{
    let emission = mutation.emission(success);
    law_raw_and_flattened_rank_alike(emission.event, emission.event.text());
    assert(structured_severity(emission.carried().fields) == Some(
        emission.event.base.severity.id(),
    ));
}

/// Failed configuration changes export in the WARN band too; those that
/// succeeded stay at INFO.
pub proof fn law_failed_config_changes_are_alertable(
    outcome: ConfigOutcome,
    success: bool,
    ocsf_full_payload: bool,
    level: Seq<char>,
    name: Seq<char>,
    now_ms: i64,
)
    ensures
        ({
            let emission = EmissionView { sandbox_id: None, event: outcome.event(success) };
            let record = line_record(emission.line(level, name, now_ms), ocsf_full_payload);
            &&& success ==> record.severity == Severity::Info
            &&& !success ==> record.severity == Severity::Warn
        }),
{
    let event = outcome.event(success);
    law_raw_and_flattened_rank_alike(event, event.text());
    assert(structured_severity(raw(event.text(), event.base.severity)) == Some(
        event.base.severity.id(),
    ));
}

/// Failed authentications export above failed mutations, and successful ones at
/// INFO.
pub proof fn law_failed_authentications_rank_higher(
    outcome: AuthnOutcome,
    success: bool,
    ocsf_full_payload: bool,
    level: Seq<char>,
    name: Seq<char>,
    now_ms: i64,
)
    ensures
        ({
            let emission = EmissionView { sandbox_id: None, event: outcome.event(success) };
            let record = line_record(emission.line(level, name, now_ms), ocsf_full_payload);
            &&& success ==> record.severity == Severity::Info
            &&& !success ==> record.severity == Severity::Warn2
        }),
{
    let event = outcome.event(success);
    law_raw_and_flattened_rank_alike(event, event.text());
    assert(structured_severity(raw(event.text(), event.base.severity)) == Some(
        event.base.severity.id(),
    ));
}

/// Findings export as errors.
pub proof fn law_findings_export_as_errors(
    info: FindingInfoView,
    evidence: Seq<(Seq<char>, Seq<char>)>,
    message: Seq<char>,
    ocsf_full_payload: bool,
    level: Seq<char>,
    name: Seq<char>,
    now_ms: i64,
)
    ensures
        line_record(
            gateway_alert(info, evidence, message).line(level, name, now_ms),
            ocsf_full_payload,
        ).severity == Severity::Error,
{
    let event = gateway_alert(info, evidence, message).event;
    law_raw_and_flattened_rank_alike(event, event.text());
    assert(structured_severity(raw(event.text(), event.base.severity)) == Some(
        event.base.severity.id(),
    ));
}

/// An emission becomes a line under the OCSF target, of its own sandbox, with its
/// one-line form as the message.
pub proof fn law_emissions_become_ocsf_lines(
    emission: EmissionView,
    level: Seq<char>,
    name: Seq<char>,
    now_ms: i64,
)
    ensures
        ({
            let line = emission.line(level, name, now_ms);
            &&& line.target == "ocsf"@
            &&& line.level == "OCSF"@
            &&& line.source == "gateway"@
            &&& line.message == shorthand(emission.event)
            &&& line.timestamp_ms == now_ms
            &&& emission.sandbox_id is Some ==> line.sandbox_id == emission.sandbox_id->0
            &&& emission.sandbox_id is None ==> line.sandbox_id.len() == 0
            &&& named(line.fields, "ocsf.raw"@, emission.event.text())
        }),
{
    reveal_strlit("ocsf.raw");
    reveal_strlit("ocsf.severity_id");
}

/// The fields of a flattened event never collide with the attributes that every
/// exported line has.
pub proof fn law_flattened_fields_do_not_collide(event: EventView, line: LineView, i: int, j: int)
    requires
        0 <= i < flattened(event).len(),
        0 <= j < line_attributes(line).len(),
    ensures
        flattened(event)[i].0 != line_attributes(line)[j].0,
{
    law_flattened_fields_are_namespaced_and_bounded(event);
    reveal_strlit("ocsf");
    reveal_strlit(".");
    reveal_strlit("sandbox.id");
    reveal_strlit("log.source");
    reveal_strlit("log.target");
    reveal_strlit("log.level");
    reveal_strlit("log.ocsf");
    let key = flattened(event)[i].0;
    let prefix = KEY_PREFIX@ + "."@;
    assert(begins_with(key, prefix));
    assert(key.subrange(0, prefix.len() as int)[0] == key[0]);
    assert(key[0] == 'o');
    assert(line_attributes(line)[j].0[0] != 'o');
}

} // verus!
