//! What audit events say of the outcomes they were made from.

use crate::audit::{
    actor_of_principal, borrowed_text, component_actor, context_for, credential_words,
    gateway_alert, gateway_context, named_values, names_credential, request_id_member, AuthnOutcome, ConfigOutcome, EntityOutcome,
    MutationView, SystemEntityOutcome, VERSION,
};
use crate::json::{json_of, Json};
use crate::ocsf::builders::unmapped_json;
use crate::ocsf::document::{
    law_member_is_last_written, law_the_last_of_a_name_is_written,
    law_what_is_never_written_is_not_there, put_all,
};
use crate::ocsf::enums::{AuthProtocolId, SeverityId, StateId, StatusId, UserTypeId};
use crate::ocsf::events::{BaseView, ClassView};
use crate::ocsf::objects::{ActorView, EndpointView, FindingInfoView, UserView};
use crate::phrases::{closes, holds, named, unnamed};
use crate::principal::PrincipalView;
use crate::request::{audited_code, header_string, visible};
use crate::string_map::law_lookup_is_the_first_match;
use crate::text_laws::{law_endings_are_closed, law_occurrences_are_held};
use vstd::prelude::*;

verus! {

/// Every failure is audited but two: a caller that may not do what it asked (7),
/// and one without valid credentials (16).
pub proof fn law_only_denials_are_left_out(code: i32)
    ensures
        audited_code(code) <==> code != 7 && code != 16,
{
}

/// A header reads as the text of its bytes where all of them are printable ASCII
/// or tabs, and as nothing where any is not.
pub proof fn law_headers_read_as_their_bytes(bytes: Seq<u8>, at: int)
    ensures
        (forall|i: int| 0 <= i < bytes.len() ==> 32 <= #[trigger] bytes[i] <= 126 || bytes[i] == 9)
            ==> {
            &&& header_string(bytes) is Some
            &&& header_string(bytes)->0.len() == bytes.len()
            &&& 0 <= at < bytes.len() ==> header_string(bytes)->0[at] as int == bytes[at] as int
        },
        0 <= at < bytes.len() && (bytes[at] < 32 && bytes[at] != 9 || bytes[at] > 126)
            ==> header_string(bytes) is None,
{
    if forall|i: int| 0 <= i < bytes.len() ==> 32 <= #[trigger] bytes[i] <= 126 || bytes[i] == 9 {
        assert forall|i: int| 0 <= i < bytes.len() implies visible(
            #[trigger] bytes[i],
        ) by {
            assert(32 <= bytes[i] <= 126 || bytes[i] == 9);
        }
    }
    if 0 <= at < bytes.len() && (bytes[at] < 32 && bytes[at] != 9 || bytes[at] > 126) {
        assert(!visible(bytes[at]));
    }
}

/// Whether the actor of an event is the one that a principal stands for: a user
/// under the subject it authenticated as, and the display name where there is
/// one; a sandbox as a service under its id; and nobody as nobody.
pub open spec fn acts_for(user: UserView, principal: PrincipalView) -> bool {
    match principal {
        PrincipalView::User(identity) => {
            &&& user.uid == Some(identity.subject)
            &&& identity.display_name is Some ==> user.name == identity.display_name->0
            &&& identity.display_name is None ==> user.name == identity.subject
            &&& user.type_id == Some(UserTypeId::User)
        },
        PrincipalView::Sandbox { sandbox_id, .. } => {
            &&& user.uid == Some(sandbox_id)
            &&& user.name == "sandbox:"@ + sandbox_id
            &&& user.type_id == Some(UserTypeId::Other)
        },
        PrincipalView::Anonymous => {
            &&& user.uid is None
            &&& user.name == "anonymous"@
            &&& user.type_id == Some(UserTypeId::Unknown)
        },
    }
}

/// Every principal has the actor that it stands for.
pub proof fn law_actors_stand_for_their_principals(principal: PrincipalView)
    ensures
        acts_for(actor_of_principal(principal), principal),
{
}

/// A component of the gateway acts under its own name, as a service.
pub proof fn law_components_act_under_their_names(component: Seq<char>)
    ensures
        component_actor(component).name == "system:"@ + component,
        component_actor(component).uid == Some("system:"@ + component),
        component_actor(component).type_id == Some(UserTypeId::Other),
{
}

/// The gateway reports under its own name and no sandbox's, or on a sandbox's
/// behalf under that sandbox's id and name.
pub proof fn law_the_gateway_reports_as_itself(sandbox: Option<(Seq<char>, Seq<char>)>)
    ensures
        ({
            let context = context_for(sandbox);
            &&& context.container_image == "openshell/gateway"@
            &&& context.hostname == "openshell-gateway"@
            &&& context.product_version == VERSION@
            &&& context.proxy_ip == "127.0.0.1"@
            &&& context.proxy_port == 0
            &&& sandbox is None ==> context.sandbox_id.len() == 0 && context.sandbox_name.len()
                == 0 && context == gateway_context()
            &&& sandbox matches Some((id, name)) ==> context.sandbox_id == id
                && context.sandbox_name == name
        }),
{
}

/// Whether an event was authored by the gateway, about a sandbox or about none.
pub open spec fn authored_by_the_gateway(
    base: BaseView,
    sandbox: Option<(Seq<char>, Seq<char>)>,
) -> bool {
    &&& base.metadata.version == "1.7.0"@
    &&& base.metadata.profiles == seq!["security_control"@]
    &&& base.metadata.product.name == "OpenShell Sandbox"@
    &&& base.metadata.product.vendor_name == "NVIDIA"@
    &&& base.metadata.product.version == VERSION@
    &&& base.metadata.log_source is None
    &&& base.device is Some && base.device->0.hostname == "openshell-gateway"@
    &&& base.container is Some && base.container->0.image == "openshell/gateway"@
    &&& sandbox is None ==> base.metadata.uid is None && base.container->0.name.len() == 0
    &&& sandbox matches Some((id, name)) ==> {
        &&& base.container->0.name == name
        &&& id.len() > 0 ==> base.metadata.uid == Some(id)
        &&& id.len() == 0 ==> base.metadata.uid is None
    }
}

/// Whether an event is of a class and activity: the type is the class and the
/// activity taken together.
pub open spec fn of_type(
    base: BaseView,
    class_uid: int,
    class_name: Seq<char>,
    category_uid: int,
    category_name: Seq<char>,
) -> bool {
    &&& base.class_uid == class_uid
    &&& base.class_name == class_name
    &&& base.category_uid == category_uid
    &&& base.category_name == category_name
    &&& base.type_uid == class_uid * 100 + base.activity_id
    &&& base.type_label == class_name + ": "@ + base.activity_name
}

/// Whether an event reports an outcome: the status, and the message that goes
/// with it.
pub open spec fn reports(
    base: BaseView,
    success: bool,
    success_message: Seq<char>,
    failure_message: Seq<char>,
) -> bool {
    &&& success ==> base.status == Some(StatusId::Success) && base.message == Some(success_message)
    &&& !success ==> base.status == Some(StatusId::Failure) && base.message == Some(
        failure_message,
    )
    &&& success ==> base.severity == SeverityId::Informational
    &&& !success ==> base.severity == SeverityId::Low
}

/// Whether the unmapped part of an event holds what was written, the last value
/// under each name, and nothing else; and is absent where nothing was written.
pub open spec fn unmapped_holds(unmapped: Option<Json>, written: Seq<(Seq<char>, Json)>) -> bool {
    &&& written.len() == 0 ==> unmapped is None
    &&& written.len() > 0 ==> {
        &&& unmapped is Some && unmapped->0 is Object
        &&& forall|i: int|
            0 <= i < written.len() && (forall|j: int|
                i < j < written.len() ==> (#[trigger] written[j]).0 != written[i].0) ==> named(
                unmapped->0->Object_0,
                (#[trigger] written[i]).0,
                written[i].1,
            )
        &&& forall|name: Seq<char>| #[trigger]
            unnamed(written, name) ==> unnamed(unmapped->0->Object_0, name)
    }
}

proof fn lemma_something_is_written(written: Seq<(Seq<char>, Json)>)
    requires
        written.len() > 0,
    ensures
        put_all(Seq::empty(), written).len() > 0,
{
    let name = written.last().0;
    law_member_is_last_written(written, name);
}

proof fn lemma_unmapped_holds(written: Seq<(Seq<char>, Json)>)
    ensures
        unmapped_holds(
            unmapped_json(put_all(Seq::empty(), written)),
            written,
        ),
{
    let members = put_all(Seq::empty(), written);
    if written.len() > 0 {
        lemma_something_is_written(written);
        assert forall|i: int|
            0 <= i < written.len() && (forall|j: int|
                i < j < written.len() ==> (#[trigger] written[j]).0
                    != written[i].0) implies named(
            members,
            (#[trigger] written[i]).0,
            written[i].1,
        ) by {
            law_the_last_of_a_name_is_written(written, i);
            law_member_is_last_written(written, written[i].0);
            law_lookup_is_the_first_match(members, written[i].0, written[i].1);
        }
        assert forall|name: Seq<char>| #[trigger] unnamed(written, name) implies unnamed(
            members,
            name,
        ) by {
            law_what_is_never_written_is_not_there(written, name);
            law_member_is_last_written(written, name);
            law_lookup_is_the_first_match(members, name, Json::Null);
        }
    }
}

/// A mutation's event is an Entity Management event on the mutation's own
/// resource, by its own actor, of its own activity; it reports the outcome, and
/// goes to the stream of the sandbox it is about, if any.
pub proof fn law_mutations_are_told_as_they_were(mutation: MutationView, success: bool)
    ensures
        ({
            let emission = mutation.emission(success);
            let base = emission.event.base;
            &&& of_type(base, 3004, "Entity Management"@, 3, "Identity & Access Management"@)
            &&& base.activity_id == mutation.activity.id()
            &&& base.activity_name == mutation.activity.name()
            &&& reports(base, success, mutation.success_message, mutation.failure_message)
            &&& base.status_detail is None
            &&& authored_by_the_gateway(base, mutation.sandbox)
            &&& emission.event.class == (ClassView::EntityManagement {
                entity: mutation.entity,
                actor: Some(ActorView { user: mutation.actor }),
            })
            &&& unmapped_holds(base.unmapped, mutation.unmapped)
            &&& mutation.sandbox is None ==> emission.sandbox_id is None
            &&& mutation.sandbox matches Some((id, _)) ==> emission.sandbox_id == Some(id)
        }),
{
    lemma_unmapped_holds(mutation.unmapped);
}

/// A finished handler's event tells the handler's own facts: who acted is the
/// request's principal, and the correlation id goes with it.
pub proof fn law_entity_outcomes_are_told_as_they_were(outcome: EntityOutcome, success: bool)
    ensures
        ({
            let emission = outcome.mutation().emission(success);
            let base = emission.event.base;
            &&& of_type(base, 3004, "Entity Management"@, 3, "Identity & Access Management"@)
            &&& base.activity_id == outcome.activity.id()
            &&& reports(base, success, outcome.success_message@, outcome.failure_message@)
            &&& emission.event.class matches ClassView::EntityManagement { entity, actor }
                && entity == outcome.entity@ && actor is Some && acts_for(
                actor->0.user,
                outcome.principal@,
            )
            &&& outcome.request_id matches Some(id) ==> base.unmapped is Some && named(
                base.unmapped->0->Object_0,
                "request_id"@,
                Json::Text(id@),
            )
            &&& forall|i: int|
                0 <= i < outcome.unmapped@.len() && (#[trigger] outcome.unmapped@[i]).0@
                    != "request_id"@ && (forall|j: int|
                    i < j < outcome.unmapped@.len() ==> (#[trigger] outcome.unmapped@[j]).0@
                        != outcome.unmapped@[i].0@) ==> base.unmapped is Some && named(
                    base.unmapped->0->Object_0,
                    outcome.unmapped@[i].0@,
                    json_of(outcome.unmapped@[i].1),
                )
            &&& outcome.sandbox is None ==> emission.sandbox_id is None
            &&& outcome.sandbox matches Some((id, _)) ==> emission.sandbox_id == Some(id@)
        }),
{
    let mutation = outcome.mutation();
    let written = mutation.unmapped;
    let named_part = named_values(outcome.unmapped@);
    lemma_unmapped_holds(written);
    law_actors_stand_for_their_principals(outcome.principal@);
    if let Some(id) = outcome.request_id {
        let last = written.len() - 1;
        assert(written[last] == ("request_id"@, Json::Text(id@)));
    }
    let base = mutation.emission(success).event.base;
    assert forall|i: int|
        0 <= i < outcome.unmapped@.len() && (#[trigger] outcome.unmapped@[i]).0@ != "request_id"@
            && (forall|j: int|
            i < j < outcome.unmapped@.len() ==> (#[trigger] outcome.unmapped@[j]).0@
                != outcome.unmapped@[i].0@) implies base.unmapped is Some && named(
        base.unmapped->0->Object_0,
        outcome.unmapped@[i].0@,
        json_of(outcome.unmapped@[i].1),
    ) by {
        assert(written[i] == named_part[i]);
        assert forall|j: int| i < j < written.len() implies (#[trigger] written[j]).0
            != written[i].0 by {
            if j < named_part.len() {
                assert(written[j] == named_part[j]);
                assert(outcome.unmapped@[j].0@ != outcome.unmapped@[i].0@);
            }
        }
    }
}

/// A background mutation's event tells its own facts, and names the component
/// that acted.
pub proof fn law_system_outcomes_are_told_as_they_were(outcome: SystemEntityOutcome, success: bool)
    ensures
        ({
            let emission = outcome.mutation().emission(success);
            let base = emission.event.base;
            &&& of_type(base, 3004, "Entity Management"@, 3, "Identity & Access Management"@)
            &&& base.activity_id == outcome.activity.id()
            &&& reports(base, success, outcome.success_message@, outcome.failure_message@)
            &&& emission.event.class matches ClassView::EntityManagement { entity, actor }
                && entity == outcome.entity@ && actor is Some && {
                &&& actor->0.user.name == "system:"@ + outcome.component@
                &&& actor->0.user.uid == Some("system:"@ + outcome.component@)
                &&& actor->0.user.type_id == Some(UserTypeId::Other)
            }
            &&& forall|i: int|
                0 <= i < outcome.unmapped@.len() && (forall|j: int|
                    i < j < outcome.unmapped@.len() ==> (#[trigger] outcome.unmapped@[j]).0@
                        != outcome.unmapped@[i].0@) ==> base.unmapped is Some && named(
                    base.unmapped->0->Object_0,
                    (#[trigger] outcome.unmapped@[i]).0@,
                    json_of(outcome.unmapped@[i].1),
                )
            &&& outcome.sandbox is None ==> emission.sandbox_id is None
            &&& outcome.sandbox matches Some((id, _)) ==> emission.sandbox_id == Some(id@)
        }),
{
    let written = outcome.mutation().unmapped;
    lemma_unmapped_holds(written);
    let base = outcome.mutation().emission(success).event.base;
    assert forall|i: int|
        0 <= i < outcome.unmapped@.len() && (forall|j: int|
            i < j < outcome.unmapped@.len() ==> (#[trigger] outcome.unmapped@[j]).0@
                != outcome.unmapped@[i].0@) implies base.unmapped is Some && named(
        base.unmapped->0->Object_0,
        (#[trigger] outcome.unmapped@[i]).0@,
        json_of(outcome.unmapped@[i].1),
    ) by {
        assert forall|j: int| i < j < written.len() implies (#[trigger] written[j]).0
            != written[i].0 by {
            assert(outcome.unmapped@[j].0@ != outcome.unmapped@[i].0@);
        }
        assert(written[i].0 == outcome.unmapped@[i].0@);
    }
}

/// A configuration change's event is a Device Config State Change event under the
/// change's own label, by the request's principal, and reports the outcome:
/// success and the success message, or failure and the failure message.
pub proof fn law_config_changes_are_told_as_they_were(outcome: ConfigOutcome, success: bool)
    ensures
        ({
            let event = outcome.event(success);
            let base = event.base;
            &&& of_type(base, 5019, "Device Config State Change"@, 5, "Discovery"@)
            &&& base.activity_id == 1 && base.activity_name == "Log"@
            &&& success ==> base.status == Some(StatusId::Success) && base.message == Some(
                outcome.success_message@,
            ) && base.severity == SeverityId::Informational
            &&& !success ==> base.status == Some(StatusId::Failure) && base.message == Some(
                outcome.failure_message@,
            ) && base.severity == SeverityId::Low
            &&& base.status_detail is None
            &&& authored_by_the_gateway(base, None)
            &&& event.class matches ClassView::ConfigStateChange { state, state_label, actor }
                && state == StateId::Other && state_label == outcome.state_label@ && actor is Some
                && acts_for(actor->0.user, outcome.principal@)
            &&& outcome.request_id matches Some(id) ==> base.unmapped is Some && named(
                base.unmapped->0->Object_0,
                "request_id"@,
                Json::Text(id@),
            )
            &&& forall|i: int|
                0 <= i < outcome.unmapped@.len() && (#[trigger] outcome.unmapped@[i]).0@
                    != "request_id"@ && (forall|j: int|
                    i < j < outcome.unmapped@.len() ==> (#[trigger] outcome.unmapped@[j]).0@
                        != outcome.unmapped@[i].0@) ==> base.unmapped is Some && named(
                    base.unmapped->0->Object_0,
                    outcome.unmapped@[i].0@,
                    json_of(outcome.unmapped@[i].1),
                )
        }),
{
    let named_part = named_values(outcome.unmapped@);
    let written = named_part + request_id_member(
        borrowed_text(outcome.request_id),
    );
    lemma_unmapped_holds(written);
    law_actors_stand_for_their_principals(outcome.principal@);
    if let Some(id) = outcome.request_id {
        let last = written.len() - 1;
        assert(written[last] == ("request_id"@, Json::Text(id@)));
    }
    let base = outcome.event(success).base;
    assert forall|i: int|
        0 <= i < outcome.unmapped@.len() && (#[trigger] outcome.unmapped@[i]).0@ != "request_id"@
            && (forall|j: int|
            i < j < outcome.unmapped@.len() ==> (#[trigger] outcome.unmapped@[j]).0@
                != outcome.unmapped@[i].0@) implies base.unmapped is Some && named(
        base.unmapped->0->Object_0,
        outcome.unmapped@[i].0@,
        json_of(outcome.unmapped@[i].1),
    ) by {
        assert(written[i] == named_part[i]);
        assert forall|j: int| i < j < written.len() implies (#[trigger] written[j]).0
            != written[i].0 by {
            if j < named_part.len() {
                assert(written[j] == named_part[j]);
                assert(outcome.unmapped@[j].0@ != outcome.unmapped@[i].0@);
            }
        }
    }
}

/// An authentication outcome's event is a Logon of the Authentication class. It
/// tells success from failure, ranks failures Medium, names the protocol of the
/// mechanism, the principal and the peer as far as known, and carries the
/// mechanism, the path, the reason and the correlation id.
pub proof fn law_authentications_are_told_as_they_were(outcome: AuthnOutcome, success: bool)
    ensures
        ({
            let event = outcome.event(success);
            let base = event.base;
            &&& of_type(base, 3002, "Authentication"@, 3, "Identity & Access Management"@)
            &&& base.activity_id == 1 && base.activity_name == "Logon"@
            &&& success ==> base.status == Some(StatusId::Success) && base.severity
                == SeverityId::Informational
            &&& !success ==> base.status == Some(StatusId::Failure) && base.severity
                == SeverityId::Medium
            &&& base.message is None
            &&& outcome.detail is None ==> base.status_detail is None
            &&& outcome.detail matches Some(detail) ==> base.status_detail == Some(detail@)
            &&& authored_by_the_gateway(base, None)
            &&& event.class matches ClassView::Authentication { user, auth_protocol, src_endpoint }
                && {
                &&& outcome.principal is None ==> user is None
                &&& outcome.principal matches Some(principal) ==> user is Some && acts_for(
                    user->0,
                    principal@,
                )
                &&& outcome.mechanism@ == "bearer"@ ==> auth_protocol == Some(
                    AuthProtocolId::OpenId,
                )
                &&& outcome.mechanism@ == "mtls"@ ==> auth_protocol == Some(AuthProtocolId::Other)
                &&& outcome.mechanism@ != "bearer"@ && outcome.mechanism@ != "mtls"@
                    ==> auth_protocol == Some(AuthProtocolId::Unknown)
                &&& outcome.peer_addr is None ==> src_endpoint is None
                &&& outcome.peer_addr matches Some((ip, port)) ==> src_endpoint == Some(
                    EndpointView { ip: ip@, port },
                )
            }
            &&& base.unmapped is Some && {
                let members = base.unmapped->0->Object_0;
                &&& named(members, "mechanism"@, Json::Text(outcome.mechanism@))
                &&& named(members, "path"@, Json::Text(outcome.path@))
                &&& outcome.reason matches Some(reason) ==> named(
                    members,
                    "reason"@,
                    Json::Text(reason@),
                )
                &&& outcome.reason is None ==> unnamed(members, "reason"@)
                &&& outcome.request_id matches Some(id) ==> named(
                    members,
                    "request_id"@,
                    Json::Text(id@),
                )
                &&& outcome.request_id is None ==> unnamed(members, "request_id"@)
            }
        }),
{
    let written = outcome.unmapped();
    lemma_unmapped_holds(written);
    if let Some(principal) = outcome.principal {
        law_actors_stand_for_their_principals(principal@);
    }
    reveal_strlit("bearer");
    reveal_strlit("mtls");
    reveal_strlit("mechanism");
    reveal_strlit("path");
    reveal_strlit("reason");
    reveal_strlit("request_id");
    assert("bearer"@.len() != "mtls"@.len());
    assert("mechanism"@.len() == 9);
    assert("path"@.len() == 4);
    assert("reason"@.len() == 6);
    assert("request_id"@.len() == 10);
    let members = outcome.event(success).base.unmapped->0->Object_0;
    assert(written[0] == ("mechanism"@, Json::Text(outcome.mechanism@)));
    assert(written[1] == ("path"@, Json::Text(outcome.path@)));
    if let Some(reason) = outcome.reason {
        assert(written[2] == ("reason"@, Json::Text(reason@)));
    } else {
        assert(unnamed(written, "reason"@));
    }
    if let Some(id) = outcome.request_id {
        assert(written[written.len() - 1] == ("request_id"@, Json::Text(id@)));
    } else {
        assert(unnamed(written, "request_id"@));
    }
}

/// A finding of the gateway is an alert of high severity on the gateway lane,
/// with the given description, evidence and message.
pub proof fn law_findings_are_alerts(
    info: FindingInfoView,
    evidence: Seq<(Seq<char>, Seq<char>)>,
    message: Seq<char>,
)
    ensures
        ({
            let emission = gateway_alert(info, evidence, message);
            let base = emission.event.base;
            &&& emission.sandbox_id is None
            &&& of_type(base, 2004, "Detection Finding"@, 2, "Findings"@)
            &&& base.activity_id == 1 && base.activity_name == "Create"@
            &&& base.severity == SeverityId::High
            &&& base.message == Some(message)
            &&& base.status is None && base.status_detail is None && base.unmapped is None
            &&& authored_by_the_gateway(base, None)
            &&& emission.event.class == (ClassView::DetectionFinding {
                finding_info: info,
                evidence,
                is_alert: true,
            })
        }),
{
}

/// A key is taken for a credential's exactly where, in small letters, it holds
/// one of nine words, ends in `_key`, or is `key`.
pub proof fn law_credential_keys_are_these(key: Seq<char>)
    ensures
        names_credential(key) <==> {
            ||| holds(key, "secret"@)
            ||| holds(key, "token"@)
            ||| holds(key, "password"@)
            ||| holds(key, "passwd"@)
            ||| holds(key, "credential"@)
            ||| holds(key, "api_key"@)
            ||| holds(key, "apikey"@)
            ||| holds(key, "private_key"@)
            ||| holds(key, "auth"@)
            ||| closes(key, "_key"@)
            ||| key == "key"@
        },
{
    let words = credential_words();
    law_occurrences_are_held(key, "secret"@);
    law_occurrences_are_held(key, "token"@);
    law_occurrences_are_held(key, "password"@);
    law_occurrences_are_held(key, "passwd"@);
    law_occurrences_are_held(key, "credential"@);
    law_occurrences_are_held(key, "api_key"@);
    law_occurrences_are_held(key, "apikey"@);
    law_occurrences_are_held(key, "private_key"@);
    law_occurrences_are_held(key, "auth"@);
    law_endings_are_closed(key, "_key"@);
    assert(words[0] == "secret"@);
    assert(words[1] == "token"@);
    assert(words[2] == "password"@);
    assert(words[3] == "passwd"@);
    assert(words[4] == "credential"@);
    assert(words[5] == "api_key"@);
    assert(words[6] == "apikey"@);
    assert(words[7] == "private_key"@);
    assert(words[8] == "auth"@);
}

} // verus!
