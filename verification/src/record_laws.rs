//! What an exported record tells of the line it was made from.

use crate::log_line::LineView;
use crate::log_record::{
    field_attributes, line_attributes, line_record, structured_severity, AttributeView, RecordTime,
    Severity,
};
use crate::ocsf::shorthand::{first_space, tagged_id};
use crate::phrases::{leads, lemma_named_at, named, unnamed};
use crate::string_map::{law_lookup_is_the_first_match, lemma_lookup_none};
use crate::text::{
    decimal, digits_value, is_digit, lemma_decimal_nat_digits, occurs_at, spelled_u8,
    unsigned_digits,
};
use crate::text_laws::law_small_numbers_are_spelled_by_digits;
use vstd::prelude::*;

verus! {

/// The fixed attributes of a record, one by one.
proof fn lemma_fixed_attributes(line: LineView, ocsf_full_payload: bool)
    ensures
        ({
            let attributes = line_record(line, ocsf_full_payload).attributes;
            let at: int = if line.sandbox_id.len() > 0 {
                1
            } else {
                0
            };
            &&& attributes.len() >= at + 4
            &&& line.sandbox_id.len() > 0 ==> attributes[0] == (
                "sandbox.id"@,
                AttributeView::Text(line.sandbox_id),
            )
            &&& attributes[at] == ("log.source"@, AttributeView::Text(line.source))
            &&& attributes[at + 1] == ("log.target"@, AttributeView::Text(line.target))
            &&& attributes[at + 2] == ("log.level"@, AttributeView::Text(line.level))
            &&& attributes[at + 3] == ("log.ocsf"@, AttributeView::Flag(line.target == "ocsf"@))
        }),
{
    let fixed = line_attributes(line);
    let at: int = if line.sandbox_id.len() > 0 {
        1
    } else {
        0
    };
    assert(fixed.len() == at + 4);
    assert(line_record(line, ocsf_full_payload).attributes.take(at + 4) =~= fixed);
}

/// A record says under which names its line came in: its source, target and
/// level, whether it is an OCSF event, and the sandbox it is about, if any. No
/// field of the line gets in front of them.
pub proof fn law_a_record_says_where_its_line_came_from(line: LineView, ocsf_full_payload: bool)
    ensures
        ({
            let attributes = line_record(line, ocsf_full_payload).attributes;
            &&& named(attributes, "log.source"@, AttributeView::Text(line.source))
            &&& named(attributes, "log.target"@, AttributeView::Text(line.target))
            &&& named(attributes, "log.level"@, AttributeView::Text(line.level))
            &&& named(attributes, "log.ocsf"@, AttributeView::Flag(line.target == "ocsf"@))
            &&& line.sandbox_id.len() > 0 ==> named(
                attributes,
                "sandbox.id"@,
                AttributeView::Text(line.sandbox_id),
            )
        }),
{
    let attributes = line_record(line, ocsf_full_payload).attributes;
    let at: int = if line.sandbox_id.len() > 0 {
        1
    } else {
        0
    };
    lemma_fixed_attributes(line, ocsf_full_payload);
    reveal_strlit("sandbox.id");
    reveal_strlit("log.source");
    reveal_strlit("log.target");
    reveal_strlit("log.level");
    reveal_strlit("log.ocsf");
    assert("sandbox.id"@[0] == 's');
    assert("log.source"@[0] == 'l');
    assert("log.target"@[0] == 'l');
    assert("log.level"@[0] == 'l');
    assert("log.ocsf"@[0] == 'l');
    assert("log.source"@[4] == 's');
    assert("log.target"@[4] == 't');
    assert("log.level"@[4] == 'l');
    assert("log.ocsf"@[4] == 'o');
    lemma_named_at(attributes, "log.source"@, AttributeView::Text(line.source), at);
    lemma_named_at(attributes, "log.target"@, AttributeView::Text(line.target), at + 1);
    lemma_named_at(attributes, "log.level"@, AttributeView::Text(line.level), at + 2);
    lemma_named_at(attributes, "log.ocsf"@, AttributeView::Flag(line.target == "ocsf"@), at + 3);
    if line.sandbox_id.len() > 0 {
        lemma_named_at(attributes, "sandbox.id"@, AttributeView::Text(line.sandbox_id), 0);
    }
}

/// A record carries its line's fields, each as a text under its own name and in
/// order, and nothing else beside the fixed attributes. It carries none of them
/// for an OCSF event whose payload is withheld, and a line about no sandbox
/// names none unless a field does.
pub proof fn law_a_record_carries_the_fields_or_none(line: LineView, ocsf_full_payload: bool)
    ensures
        ({
            let attributes = line_record(line, ocsf_full_payload).attributes;
            let fixed: int = if line.sandbox_id.len() > 0 {
                5
            } else {
                4
            };
            &&& line.target == "ocsf"@ && !ocsf_full_payload ==> attributes.len() == fixed
            &&& line.target != "ocsf"@ || ocsf_full_payload ==> {
                &&& attributes.len() == fixed + line.fields.len()
                &&& forall|i: int|
                    0 <= i < line.fields.len() ==> #[trigger] attributes[fixed + i] == (
                        line.fields[i].0,
                        AttributeView::Text(line.fields[i].1),
                    )
            }
            &&& line.sandbox_id.len() == 0 ==> unnamed(attributes.take(4), "sandbox.id"@)
        }),
{
    let attributes = line_record(line, ocsf_full_payload).attributes;
    let fixed = line_attributes(line);
    lemma_fixed_attributes(line, ocsf_full_payload);
    let count: int = if line.sandbox_id.len() > 0 {
        5
    } else {
        4
    };
    assert(fixed.len() == count);
    if line.target != "ocsf"@ || ocsf_full_payload {
        let fields = field_attributes(line.fields);
        assert(attributes =~= fixed + fields);
        assert forall|i: int| 0 <= i < line.fields.len() implies #[trigger] attributes[count + i]
            == (line.fields[i].0, AttributeView::Text(line.fields[i].1)) by {
            assert(attributes[count + i] == fields[i]);
        }
    } else {
        assert(attributes =~= fixed);
    }
    reveal_strlit("sandbox.id");
    reveal_strlit("log.source");
    reveal_strlit("log.target");
    reveal_strlit("log.level");
    reveal_strlit("log.ocsf");
    assert("sandbox.id"@[0] == 's');
    assert("log.source"@[0] == 'l');
    assert("log.target"@[0] == 'l');
    assert("log.level"@[0] == 'l');
    assert("log.ocsf"@[0] == 'l');
}

/// A record's body is its line's message, and its time the line's, where that is
/// known.
pub proof fn law_a_record_says_what_and_when(line: LineView, ocsf_full_payload: bool)
    ensures
        line_record(line, ocsf_full_payload).body == line.message,
        line.timestamp_ms > 0 ==> line_record(line, ocsf_full_payload).time == RecordTime::Millis(
            line.timestamp_ms,
        ),
        line.timestamp_ms <= 0 ==> line_record(line, ocsf_full_payload).time
            == RecordTime::Unknown,
{
}

/// The severity numbers are those of OTLP: the first of a band of four, or the
/// second.
pub proof fn law_severity_numbers()
    ensures
        Severity::Trace.rank() == 1,
        Severity::Debug.rank() == 5,
        Severity::Info.rank() == 9,
        Severity::Warn.rank() == 13,
        Severity::Warn2.rank() == 14,
        Severity::Error.rank() == 17,
        Severity::Error2.rank() == 18,
        Severity::Fatal.rank() == 21,
{
}

/// A line that is no OCSF event is ranked by its level, whatever its message and
/// fields say; a level of no rank of its own is informational.
pub proof fn law_plain_lines_rank_by_their_level(line: LineView, ocsf_full_payload: bool)
    requires
        line.target != "ocsf"@,
    ensures
        ({
            let severity = line_record(line, ocsf_full_payload).severity;
            &&& severity == Severity::Trace <==> line.level == "TRACE"@
            &&& severity == Severity::Debug <==> line.level == "DEBUG"@
            &&& severity == Severity::Warn <==> line.level == "WARN"@ || line.level == "WARNING"@
            &&& severity == Severity::Error <==> line.level == "ERROR"@
            &&& severity == Severity::Info <==> line.level != "TRACE"@ && line.level != "DEBUG"@
                && line.level != "WARN"@ && line.level != "WARNING"@ && line.level != "ERROR"@
        }),
{
    reveal_strlit("TRACE");
    reveal_strlit("DEBUG");
    reveal_strlit("WARN");
    reveal_strlit("WARNING");
    reveal_strlit("ERROR");
    assert("TRACE"@[0] == 'T');
    assert("DEBUG"@[0] == 'D');
    assert("WARN"@[0] == 'W');
    assert("WARNING"@[0] == 'W');
    assert("ERROR"@[0] == 'E');
}

/// The severity that an OCSF rank exports at: Low and Medium in the WARN band,
/// High and Critical in the ERROR band, Fatal above them, anything else at INFO.
pub open spec fn exported_at(rank: int) -> u8 {
    if rank == 2 {
        13
    } else if rank == 3 {
        14
    } else if rank == 4 {
        17
    } else if rank == 5 {
        18
    } else if rank == 6 {
        21
    } else {
        9
    }
}

/// An OCSF event whose first `ocsf.severity_id` field spells a one-digit rank
/// exports at that rank, whatever its message and level say.
pub proof fn law_structured_ranks_decide(line: LineView, ocsf_full_payload: bool, rank: int)
    requires
        line.target == "ocsf"@,
        0 <= rank <= 9,
        named(line.fields, "ocsf.severity_id"@, seq![('0' as int + rank) as char]),
    ensures
        line_record(line, ocsf_full_payload).severity.rank() == exported_at(rank),
{
    let text = seq![('0' as int + rank) as char];
    law_lookup_is_the_first_match(line.fields, "ocsf.severity_id"@, text);
    assert(unsigned_digits(text) =~= text);
    assert(is_digit(text[0]));
    reveal_with_fuel(digits_value, 2);
    assert(text.drop_last() =~= Seq::<char>::empty());
    assert(digits_value(text) == rank);
    assert(spelled_u8(text) == Some(rank as u8));
}

/// An OCSF event without an `ocsf.severity_id` field exports at the rank of the
/// tag that follows the first space of its message.
pub proof fn law_tags_decide_without_a_structured_rank(
    line: LineView,
    ocsf_full_payload: bool,
    head: Seq<char>,
    rest: Seq<char>,
    rank: int,
)
    requires
        line.target == "ocsf"@,
        unnamed(line.fields, "ocsf.severity_id"@),
        forall|i: int| 0 <= i < head.len() ==> #[trigger] head[i] != ' ',
        ({
            ||| rank == 1 && line.message == head + " [INFO]"@ + rest
            ||| rank == 2 && line.message == head + " [LOW]"@ + rest
            ||| rank == 3 && line.message == head + " [MED]"@ + rest
            ||| rank == 4 && line.message == head + " [HIGH]"@ + rest
            ||| rank == 5 && line.message == head + " [CRIT]"@ + rest
            ||| rank == 6 && line.message == head + " [FATAL]"@ + rest
        }),
    ensures
        line_record(line, ocsf_full_payload).severity.rank() == exported_at(rank),
{
    let message = line.message;
    let at = head.len() as int;
    lemma_unnamed_is_not_found(line);
    reveal_strlit(" [INFO]");
    reveal_strlit(" [LOW]");
    reveal_strlit(" [MED]");
    reveal_strlit(" [HIGH]");
    reveal_strlit(" [CRIT]");
    reveal_strlit(" [FATAL]");
    reveal_strlit("[INFO]");
    reveal_strlit("[LOW]");
    reveal_strlit("[MED]");
    reveal_strlit("[HIGH]");
    reveal_strlit("[CRIT]");
    reveal_strlit("[FATAL]");
    assert(message[at] == ' ');
    assert forall|i: int| 0 <= i < at implies #[trigger] message[i] != ' ' by {
        assert(message[i] == head[i]);
    }
    assert(first_space(message, at));
    let chosen = choose|i: int| first_space(message, i);
    assert(chosen == at);
    let tag = if rank == 1 {
        "[INFO]"@
    } else if rank == 2 {
        "[LOW]"@
    } else if rank == 3 {
        "[MED]"@
    } else if rank == 4 {
        "[HIGH]"@
    } else if rank == 5 {
        "[CRIT]"@
    } else {
        "[FATAL]"@
    };
    assert(message.subrange(at + 1, at + 1 + tag.len()) =~= tag);
    assert(message[at + 2] == tag[1]);
    assert forall|other: Seq<char>| other.len() > 1 && #[trigger] occurs_at(
        message,
        other,
        at + 1,
    ) implies other[1] == tag[1] by {
        assert(message.subrange(at + 1, at + 1 + other.len())[1] == message[at + 2]);
    }
    assert(occurs_at(message, tag, at + 1));
    assert(tagged_id(message, at + 1) == Some(rank as u8));
}

proof fn lemma_unnamed_is_not_found(line: LineView)
    requires
        unnamed(line.fields, "ocsf.severity_id"@),
    ensures
        structured_severity(line.fields) is None,
{
    lemma_lookup_none(line.fields, "ocsf.severity_id"@);
}

/// An OCSF event with neither a structured rank nor a message of more than one
/// word is ranked by its level.
pub proof fn law_levels_decide_without_rank_and_tag(line: LineView, ocsf_full_payload: bool)
    requires
        line.target == "ocsf"@,
        unnamed(line.fields, "ocsf.severity_id"@),
        forall|i: int| 0 <= i < line.message.len() ==> #[trigger] line.message[i] != ' ',
    ensures
        line_record(line, ocsf_full_payload).severity == line_record(
            LineView { target: "another"@, ..line },
            ocsf_full_payload,
        ).severity,
{
    lemma_unnamed_is_not_found(line);
    reveal_strlit("another");
    reveal_strlit("ocsf");
    assert("another"@.len() != "ocsf"@.len());
    assert(forall|at: int| !first_space(line.message, at));
}

/// Any rank that fits is read off its decimal text, with or without a plus sign,
/// and one outside the six exports at INFO; a number that does not fit is
/// ignored.
pub proof fn law_structured_ranks_of_any_size(
    line: LineView,
    ocsf_full_payload: bool,
    text: Seq<char>,
    rank: int,
)
    requires
        line.target == "ocsf"@,
        rank >= 0,
        text == decimal(rank) || text == seq!['+'] + decimal(rank),
        named(line.fields, "ocsf.severity_id"@, text),
    ensures
        rank <= 255 ==> line_record(line, ocsf_full_payload).severity.rank() == exported_at(rank),
        rank > 255 ==> line_record(line, ocsf_full_payload).severity == line_record(
            LineView { fields: Seq::empty(), ..line },
            ocsf_full_payload,
        ).severity,
{
    law_lookup_is_the_first_match(line.fields, "ocsf.severity_id"@, text);
    lemma_decimal_nat_digits(rank as nat);
    let digits = decimal(rank);
    assert(is_digit(digits[0]));
    law_small_numbers_are_spelled_by_digits(digits, 0);
    assert forall|i: int| 0 <= i < digits.len() implies '0' <= #[trigger] digits[i] <= '9' by {
        assert(is_digit(digits[i]));
    }
}

/// An OCSF event whose first space is followed by no tag, and that has no
/// structured rank, is ranked by its level.
pub proof fn law_untagged_events_rank_by_their_level(
    line: LineView,
    ocsf_full_payload: bool,
    head: Seq<char>,
    rest: Seq<char>,
)
    requires
        line.target == "ocsf"@,
        unnamed(line.fields, "ocsf.severity_id"@),
        forall|i: int| 0 <= i < head.len() ==> #[trigger] head[i] != ' ',
        line.message == head + seq![' '] + rest,
        !leads(rest, "[INFO]"@),
        !leads(rest, "[LOW]"@),
        !leads(rest, "[MED]"@),
        !leads(rest, "[HIGH]"@),
        !leads(rest, "[CRIT]"@),
        !leads(rest, "[FATAL]"@),
    ensures
        line_record(line, ocsf_full_payload).severity == line_record(
            LineView { target: "another"@, ..line },
            ocsf_full_payload,
        ).severity,
{
    let message = line.message;
    let at = head.len() as int;
    lemma_unnamed_is_not_found(line);
    reveal_strlit("another");
    reveal_strlit("ocsf");
    assert("another"@.len() != "ocsf"@.len());
    assert(message[at] == ' ');
    assert forall|i: int| 0 <= i < at implies #[trigger] message[i] != ' ' by {
        assert(message[i] == head[i]);
    }
    assert(first_space(message, at));
    let chosen = choose|i: int| first_space(message, i);
    assert(chosen == at);
    assert forall|tag: Seq<char>| #[trigger] occurs_at(message, tag, at + 1) implies leads(
        rest,
        tag,
    ) by {
        assert(message.subrange(at + 1, at + 1 + tag.len()) =~= rest.take(tag.len() as int));
    }
    assert(tagged_id(message, at + 1) is None);
}

/// A structured rank that spells no number leaves the event to its message and
/// level, as if it were not there.
pub proof fn law_a_malformed_rank_is_ignored(
    line: LineView,
    ocsf_full_payload: bool,
    text: Seq<char>,
    at: int,
)
    requires
        line.target == "ocsf"@,
        named(line.fields, "ocsf.severity_id"@, text),
        text.len() == 0 || 0 <= at < text.len() && !('0' <= text[at] <= '9') && (at > 0 || text[at]
            != '+'),
    ensures
        line_record(line, ocsf_full_payload).severity == line_record(
            LineView { fields: Seq::empty(), ..line },
            ocsf_full_payload,
        ).severity,
{
    law_lookup_is_the_first_match(line.fields, "ocsf.severity_id"@, text);
    let digits = unsigned_digits(text);
    if text.len() > 0 {
        let skipped: int = text.len() - digits.len();
        assert(digits[at - skipped] == text[at]);
        assert(!is_digit(digits[at - skipped]));
    }
    assert(spelled_u8(text) is None);
}

} // verus!
