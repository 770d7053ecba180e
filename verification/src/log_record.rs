//! Exported log records: what a log line becomes when it leaves the box.

use crate::log_line::{LineView, SandboxLogLine, OCSF_TARGET};
use crate::ocsf::attributes::SEVERITY_ID_KEY;
use crate::ocsf::shorthand::{severity_id_from_shorthand, shorthand_severity};
use crate::phrases::named;
use crate::record_laws::law_a_record_says_where_its_line_came_from;
use crate::string_map::lookup;
use crate::text::{parse_u8, same_text, spelled_u8};
use vstd::prelude::*;
use vstd::string::*;

verus! {

/// An OTLP severity.
#[derive(Debug, Clone, Copy, PartialEq, Eq, Hash, Structural)]
pub enum Severity {
    Trace,
    Debug,
    Info,
    Warn,
    Warn2,
    Error,
    Error2,
    Fatal,
}

impl Severity {
    /// The OTLP severity number.
    pub open spec fn rank(self) -> u8 {
        match self {
            Severity::Trace => 1,
            Severity::Debug => 5,
            Severity::Info => 9,
            Severity::Warn => 13,
            Severity::Warn2 => 14,
            Severity::Error => 17,
            Severity::Error2 => 18,
            Severity::Fatal => 21,
        }
    }

    /// The OTLP severity number.
    #[must_use]
    pub fn number(self) -> (number: u8)
        ensures
            number == self.rank(),
    {
        match self {
            Severity::Trace => 1,
            Severity::Debug => 5,
            Severity::Info => 9,
            Severity::Warn => 13,
            Severity::Warn2 => 14,
            Severity::Error => 17,
            Severity::Error2 => 18,
            Severity::Fatal => 21,
        }
    }
}

/// When a record's event happened.
#[derive(Debug, Clone, Copy, PartialEq, Eq, Structural)]
pub enum RecordTime {
    /// Not known; only the time of observation is recorded.
    Unknown,
    /// Milliseconds since the Unix epoch.
    Millis(i64),
    /// The moment the record is made.
    Now,
}

/// The value of a record's attribute.
#[derive(Debug, PartialEq, Eq)]
pub enum AttributeValue {
    Text(String),
    Flag(bool),
    Number(i64),
}

/// The contents of an [`AttributeValue`].
pub enum AttributeView {
    Text(Seq<char>),
    Flag(bool),
    Number(i64),
}

impl View for AttributeValue {
    type V = AttributeView;

    open spec fn view(&self) -> AttributeView {
        match *self {
            AttributeValue::Text(text) => AttributeView::Text(text@),
            AttributeValue::Flag(flag) => AttributeView::Flag(flag),
            AttributeValue::Number(number) => AttributeView::Number(number),
        }
    }
}

impl Clone for AttributeValue {
    fn clone(&self) -> (copy: Self)
        ensures
            copy@ == self@,
    {
        match self {
            AttributeValue::Text(text) => AttributeValue::Text(text.clone()),
            AttributeValue::Flag(flag) => AttributeValue::Flag(*flag),
            AttributeValue::Number(number) => AttributeValue::Number(*number),
        }
    }
}

/// A log record, ready for the exporter. Every record is observed at the moment
/// it is made.
#[derive(Debug, PartialEq, Eq)]
pub struct LogRecord {
    pub severity: Severity,
    pub body: String,
    pub time: RecordTime,
    pub attributes: Vec<(String, AttributeValue)>,
}

/// The contents of a list of attributes.
pub open spec fn attributes_of(attributes: Seq<(String, AttributeValue)>) -> Seq<
    (Seq<char>, AttributeView),
> {
    attributes.map_values(|entry: (String, AttributeValue)| (entry.0@, entry.1@))
}

/// The contents of a [`LogRecord`].
pub struct RecordView {
    pub severity: Severity,
    pub body: Seq<char>,
    pub time: RecordTime,
    pub attributes: Seq<(Seq<char>, AttributeView)>,
}

impl View for LogRecord {
    type V = RecordView;

    open spec fn view(&self) -> RecordView {
        RecordView {
            severity: self.severity,
            body: self.body@,
            time: self.time,
            attributes: attributes_of(self.attributes@),
        }
    }
}

impl Clone for LogRecord {
    fn clone(&self) -> (copy: Self)
        ensures
            copy@ == self@,
    {
        let mut attributes: Vec<(String, AttributeValue)> = Vec::new();
        let mut i: usize = 0;
        while i < self.attributes.len()
            invariant
                i <= self.attributes@.len(),
                attributes_of(attributes@) =~= attributes_of(self.attributes@).take(i as int),
            decreases self.attributes@.len() - i,
        {
            attributes.push((self.attributes[i].0.clone(), self.attributes[i].1.clone()));
            proof {
                let all = attributes_of(self.attributes@);
                assert(all.take(i + 1) =~= all.take(i as int).push(all[i as int]));
            }
            i = i + 1;
        }
        proof {
            let all = attributes_of(self.attributes@);
            assert(all.take(i as int) =~= all);
        }
        LogRecord {
            severity: self.severity,
            body: self.body.clone(),
            time: self.time,
            attributes,
        }
    }
}

/// The OTLP severity of an OCSF severity id.
pub open spec fn severity_of_id(severity_id: u8) -> Severity {
    match severity_id {
        2 => Severity::Warn,
        3 => Severity::Warn2,
        4 => Severity::Error,
        5 => Severity::Error2,
        6 => Severity::Fatal,
        _ => Severity::Info,
    }
}

/// Map an OCSF `severity_id` onto an OTLP severity number.
///
/// OCSF ranks six levels where OTLP offers four bands of four. Low and Medium
/// share the WARN band and High and Critical the ERROR band, using the second
/// slot of each so the OCSF ordering survives instead of collapsing.
#[must_use]
pub fn ocsf_severity(severity_id: u8) -> (severity: Severity)
    ensures
        severity == severity_of_id(severity_id),
{
    match severity_id {
        2 => Severity::Warn,  // Low
        3 => Severity::Warn2,  // Medium
        4 => Severity::Error,  // High
        5 => Severity::Error2,  // Critical
        6 => Severity::Fatal,  // Fatal
        // Unknown and Informational.
        _ => Severity::Info,
    }
}

/// The OTLP severity of a log level.
pub open spec fn severity_of_level(level: Seq<char>) -> Severity {
    if level == "TRACE"@ {
        Severity::Trace
    } else if level == "DEBUG"@ {
        Severity::Debug
    } else if level == "WARN"@ || level == "WARNING"@ {
        Severity::Warn
    } else if level == "ERROR"@ {
        Severity::Error
    } else {
        Severity::Info
    }
}

/// Map an `OpenShell` log level string onto an OTLP severity number.
#[must_use]
pub fn severity_of(level: &str) -> (severity: Severity)
    ensures
        severity == severity_of_level(level@),
{
    if same_text(level, "TRACE") {
        Severity::Trace
    } else if same_text(level, "DEBUG") {
        Severity::Debug
    } else if same_text(level, "WARN") || same_text(level, "WARNING") {
        Severity::Warn
    } else if same_text(level, "ERROR") {
        Severity::Error
    } else {
        // An OCSF line reaching here carried no severity tag; the `log.ocsf`
        // attribute still distinguishes it downstream.
        Severity::Info
    }
}

/// The severity id that a line's structured fields spell, if they do.
pub open spec fn structured_severity(fields: Seq<(Seq<char>, Seq<char>)>) -> Option<u8> {
    match lookup(fields, SEVERITY_ID_KEY@) {
        Some(text) => spelled_u8(text),
        None => None,
    }
}

/// The severity of an exported line: an OCSF line goes by its structured
/// severity, then by its tag, then by its level; any other line by its level.
pub open spec fn line_severity(line: LineView, is_ocsf: bool) -> Severity {
    if !is_ocsf {
        severity_of_level(line.level)
    } else {
        match structured_severity(line.fields) {
            Some(id) => severity_of_id(id),
            None => match shorthand_severity(line.message) {
                Some(id) => severity_of_id(id),
                None => severity_of_level(line.level),
            },
        }
    }
}

/// Resolve the OTLP severity for an exported log line.
///
/// OCSF events all carry the level `OCSF`, so the level alone cannot rank a
/// blocked nonce replay above a routine policy load.
///
/// Prefer the structured `severity_id` the sandbox pushed: it is the value the
/// emitter assigned rather than one recovered from rendered text. Fall back to
/// the shorthand tag for lines pushed by a sandbox predating structured fields,
/// then to the level when neither is present. Note this reads the field even
/// when the full payload stays on the box: that choice governs what leaves, not
/// what the gateway may use to rank a record.
#[must_use]
pub fn severity_for(line: &SandboxLogLine, is_ocsf: bool) -> (severity: Severity)
    ensures
        severity == line_severity(line@, is_ocsf),
{
    if !is_ocsf {
        return severity_of(line.level.as_str());
    }
    let structured = match line.fields.get(SEVERITY_ID_KEY) {
        Some(text) => parse_u8(text.as_str()),
        None => None,
    };
    let id = match structured {
        Some(id) => Some(id),
        None => severity_id_from_shorthand(line.message.as_str()),
    };
    match id {
        Some(id) => ocsf_severity(id),
        None => severity_of(line.level.as_str()),
    }
}

/// A text attribute.
pub open spec fn text_attribute(name: Seq<char>, text: Seq<char>) -> Seq<
    (Seq<char>, AttributeView),
> {
    seq![(name, AttributeView::Text(text))]
}

/// The attributes that structured fields become, one each and in order.
pub open spec fn field_attributes(fields: Seq<(Seq<char>, Seq<char>)>) -> Seq<
    (Seq<char>, AttributeView),
> {
    fields.map_values(|field: (Seq<char>, Seq<char>)| (field.0, AttributeView::Text(field.1)))
}

/// The attribute that names a line's sandbox. A gateway-scoped line has none.
pub open spec fn sandbox_attribute(sandbox_id: Seq<char>) -> Seq<(Seq<char>, AttributeView)> {
    if sandbox_id.len() == 0 {
        Seq::empty()
    } else {
        text_attribute("sandbox.id"@, sandbox_id)
    }
}

/// The attributes that every line has: which sandbox it is about, where it came
/// from, and whether it is an OCSF event.
pub open spec fn line_attributes(line: LineView) -> Seq<(Seq<char>, AttributeView)> {
    sandbox_attribute(line.sandbox_id) + text_attribute("log.source"@, line.source)
        + text_attribute("log.target"@, line.target) + text_attribute("log.level"@, line.level)
        + seq![("log.ocsf"@, AttributeView::Flag(line.target == OCSF_TARGET@))]
}

/// Whether a line's structured fields leave the box. Those of an OCSF event do
/// only where the full payload is asked for; those of any other line always
/// travel.
pub open spec fn fields_travel(line: LineView, ocsf_full_payload: bool) -> bool {
    line.target != OCSF_TARGET@ || ocsf_full_payload
}

/// The record of a line.
pub open spec fn line_record(line: LineView, ocsf_full_payload: bool) -> RecordView {
    RecordView {
        severity: line_severity(line, line.target == OCSF_TARGET@),
        body: line.message,
        time: if line.timestamp_ms > 0 {
            RecordTime::Millis(line.timestamp_ms)
        } else {
            RecordTime::Unknown
        },
        attributes: line_attributes(line) + if fields_travel(line, ocsf_full_payload) {
            field_attributes(line.fields)
        } else {
            Seq::empty()
        },
    }
}

/// Add a text attribute.
fn add_text(attributes: &mut Vec<(String, AttributeValue)>, name: &str, text: &str)
    ensures
        attributes_of(final(attributes)@) == attributes_of(old(attributes)@) + text_attribute(
            name@,
            text@,
        ),
{
    attributes.push((name.to_owned(), AttributeValue::Text(text.to_owned())));
    proof {
        assert(attributes_of(attributes@) =~= attributes_of(old(attributes)@) + text_attribute(
            name@,
            text@,
        ));
    }
}

/// The attributes that every line has.
fn attributes_for(line: &SandboxLogLine, is_ocsf: bool) -> (attributes: Vec<
    (String, AttributeValue),
>)
    requires
        is_ocsf == (line@.target == OCSF_TARGET@),
    ensures
        attributes_of(attributes@) == line_attributes(line@),
{
    let mut attributes: Vec<(String, AttributeValue)> = Vec::new();
    proof {
        assert(attributes_of(attributes@) =~= Seq::empty());
    }
    if !line.sandbox_id.as_str().is_empty() {
        add_text(&mut attributes, "sandbox.id", line.sandbox_id.as_str());
    }
    proof {
        assert(attributes_of(attributes@) =~= sandbox_attribute(line@.sandbox_id));
    }
    add_text(&mut attributes, "log.source", line.source.as_str());
    add_text(&mut attributes, "log.target", line.target.as_str());
    add_text(&mut attributes, "log.level", line.level.as_str());
    let ghost before = attributes_of(attributes@);
    attributes.push(("log.ocsf".to_owned(), AttributeValue::Flag(is_ocsf)));
    proof {
        assert(attributes_of(attributes@) =~= before + seq![
            ("log.ocsf"@, AttributeView::Flag(is_ocsf)),
        ]);
    }
    attributes
}

/// Convert a [`SandboxLogLine`] into an OTLP log record.
#[must_use]
pub fn record_for(line: &SandboxLogLine, ocsf_full_payload: bool) -> (record: LogRecord)
    ensures
        record@ == line_record(line@, ocsf_full_payload),
        named(record@.attributes, "log.source"@, AttributeView::Text(line@.source)),
        named(record@.attributes, "log.target"@, AttributeView::Text(line@.target)),
        named(record@.attributes, "log.level"@, AttributeView::Text(line@.level)),
        named(record@.attributes, "log.ocsf"@, AttributeView::Flag(line@.target == "ocsf"@)),
        line@.sandbox_id.len() > 0 ==> named(
            record@.attributes,
            "sandbox.id"@,
            AttributeView::Text(line@.sandbox_id),
        ),
{
    proof {
        law_a_record_says_where_its_line_came_from(line@, ocsf_full_payload);
    }
    let is_ocsf = same_text(line.target.as_str(), OCSF_TARGET);
    let mut attributes = attributes_for(line, is_ocsf);
    let ghost fixed = attributes_of(attributes@);
    // A sandbox pushes OCSF events with their schema flattened into `ocsf.*`
    // keys, which is the bulk of a security event's size, so the flag gates
    // whether that detail leaves the box. Other lines carry whatever their
    // producer attached and always travel.
    if !is_ocsf || ocsf_full_payload {
        let ghost all = field_attributes(line@.fields);
        let mut i: usize = 0;
        proof {
            assert(fixed + all.take(0) =~= fixed);
        }
        while i < line.fields.len()
            invariant
                i <= line@.fields.len(),
                all == field_attributes(line@.fields),
                line@.fields == line.fields.ordered(),
                attributes_of(attributes@) == fixed + all.take(i as int),
            decreases line@.fields.len() - i,
        {
            let ghost before = attributes_of(attributes@);
            add_text(
                &mut attributes,
                line.fields.key_at(i).as_str(),
                line.fields.value_at(i).as_str(),
            );
            proof {
                assert(attributes_of(attributes@) =~= fixed + all.take(i + 1));
            }
            i = i + 1;
        }
        proof {
            assert(all.take(i as int) =~= all);
        }
    } else {
        proof {
            assert(fixed + Seq::<(Seq<char>, AttributeView)>::empty() =~= fixed);
        }
    }
    LogRecord {
        severity: severity_for(line, is_ocsf),
        body: line.message.clone(),
        time: if line.timestamp_ms > 0 {
            RecordTime::Millis(line.timestamp_ms)
        } else {
            RecordTime::Unknown
        },
        attributes,
    }
}

/// The OCSF ranking survives the mapping: a higher severity id exports at a
/// higher number.
pub proof fn law_severity_ordering_survives(low: u8, high: u8)
    requires
        1 <= low < high <= 6,
    ensures
        severity_of_id(low).rank() < severity_of_id(high).rank(),
{
}

/// The severity an emitter assigned outranks the one in the rendered text: the
/// message has no say in how a line with a structured severity is ranked.
pub proof fn law_structured_severity_outranks_the_tag(line: LineView, message: Seq<char>)
    requires
        structured_severity(line.fields) is Some,
    ensures
        line_severity(LineView { message, ..line }, true) == line_severity(line, true),
        line_severity(line, true) == severity_of_id(structured_severity(line.fields)->0),
{
}

/// Withholding the payload of an OCSF event changes nothing but which
/// attributes leave: the ranking, the body and the time are those of the full
/// record, and of the attributes only the fixed ones remain.
pub proof fn law_withheld_payload_keeps_the_ranking(line: LineView)
    requires
        line.target == OCSF_TARGET@,
    ensures
        line_record(line, false) == (RecordView {
            attributes: line_attributes(line),
            ..line_record(line, true)
        }),
{
    assert(line_attributes(line) + Seq::<(Seq<char>, AttributeView)>::empty() =~= line_attributes(
        line,
    ));
}

} // verus!
