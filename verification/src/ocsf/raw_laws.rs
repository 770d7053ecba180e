//! What an event's text reads back as.

use crate::json::{compact_text, put, readable, Json, MAX_NESTING};
use crate::ocsf::document::{
    int_member, law_written_objects_ascend, lemma_written_in_turn, object, optional_member, optional_text_member, put_all,
    text_array, text_member,
};
use crate::ocsf::events::{actor_member, fact_members, BaseView, ClassView, EventView};
use crate::ocsf::objects::{ActorView, MetadataView};
use crate::ocsf::raw_text::optional_part;
use crate::written::{
    lemma_documents_in_turn, lemma_trees_are_the_document, part_documents, trees, Written,
};
use vstd::prelude::*;

verus! {

/// Whether every member's value is readable.
pub open spec fn readable_members(
    members: Seq<(Seq<char>, Json)>,
    levels: nat,
    doubles: bool,
) -> bool {
    forall|i: int| 0 <= i < members.len() ==> readable((#[trigger] members[i]).1, levels, doubles)
}

proof fn lemma_readable_in_turn(
    first: Seq<(Seq<char>, Json)>,
    second: Seq<(Seq<char>, Json)>,
    levels: nat,
    doubles: bool,
)
    requires
        readable_members(first, levels, doubles),
        readable_members(second, levels, doubles),
    ensures
        readable_members(first + second, levels, doubles),
{
    let all = first + second;
    assert forall|i: int| 0 <= i < all.len() implies readable(
        (#[trigger] all[i]).1,
        levels,
        doubles,
    ) by {
        if i < first.len() {
            assert(all[i] == first[i]);
        } else {
            assert(all[i] == second[i - first.len()]);
        }
    }
}

proof fn lemma_put_keeps_readable(
    members: Seq<(Seq<char>, Json)>,
    name: Seq<char>,
    value: Json,
    levels: nat,
    doubles: bool,
)
    requires
        readable_members(members, levels, doubles),
        readable(value, levels, doubles),
    ensures
        readable_members(put(members, name, value), levels, doubles),
    decreases members.len(),
{
    let written = seq![(name, value)];
    assert(readable_members(written, levels, doubles));
    if members.len() > 0 {
        let rest = members.drop_first();
        assert forall|i: int| 0 <= i < rest.len() implies readable(
            (#[trigger] rest[i]).1,
            levels,
            doubles,
        ) by {
            assert(rest[i] == members[i + 1]);
        }
        lemma_put_keeps_readable(rest, name, value, levels, doubles);
        lemma_readable_in_turn(written, rest, levels, doubles);
        lemma_readable_in_turn(written, members, levels, doubles);
        let first = seq![members[0]];
        assert(readable_members(first, levels, doubles));
        lemma_readable_in_turn(first, put(rest, name, value), levels, doubles);
    }
}

proof fn lemma_put_all_keeps_readable(
    written: Seq<(Seq<char>, Json)>,
    levels: nat,
    doubles: bool,
)
    requires
        readable_members(written, levels, doubles),
    ensures
        readable_members(put_all(Seq::empty(), written), levels, doubles),
    decreases written.len(),
{
    if written.len() > 0 {
        let rest = written.drop_last();
        assert forall|i: int| 0 <= i < rest.len() implies readable(
            (#[trigger] rest[i]).1,
            levels,
            doubles,
        ) by {
            assert(rest[i] == written[i]);
        }
        lemma_put_all_keeps_readable(rest, levels, doubles);
        assert(written.last() == written[written.len() - 1]);
        lemma_put_keeps_readable(
            put_all(Seq::empty(), rest),
            written.last().0,
            written.last().1,
            levels,
            doubles,
        );
    }
}

/// An object of readable members is readable, one level further up.
proof fn lemma_object_is_readable(
    written: Seq<(Seq<char>, Json)>,
    levels: nat,
    doubles: bool,
)
    requires
        levels > 0,
        readable_members(written, (levels - 1) as nat, doubles),
    ensures
        readable(object(written), levels, doubles),
{
    lemma_put_all_keeps_readable(written, (levels - 1) as nat, doubles);
    law_written_objects_ascend(written);
}

proof fn lemma_actor_is_readable(
    actor: ActorView,
    levels: nat,
    doubles: bool,
)
    requires
        levels > 1,
    ensures
        readable(actor.document(), levels, doubles),
{
    lemma_object_is_readable(actor.user.members(), (levels - 1) as nat, doubles);
    lemma_object_is_readable(seq![("user"@, actor.user.document())], levels, doubles);
}

proof fn lemma_metadata_is_readable(
    metadata: MetadataView,
    levels: nat,
    doubles: bool,
)
    requires
        levels > 1,
    ensures
        readable(metadata.document(), levels, doubles),
{
    lemma_object_is_readable(metadata.product.members(), (levels - 1) as nat, doubles);
    assert(readable(text_array(metadata.profiles), (levels - 1) as nat, doubles)) by {
        reveal_with_fuel(readable, 2);
    }
    lemma_object_is_readable(metadata.members(), levels, doubles);
}

/// Whether every member is a text or an integer of 64 bits.
spec fn scalar_members(members: Seq<(Seq<char>, Json)>) -> bool {
    forall|i: int|
        0 <= i < members.len() ==> match (#[trigger] members[i]).1 {
            Json::Text(_) => true,
            Json::Int(number) => i64::MIN <= number <= i64::MAX,
            _ => false,
        }
}

proof fn lemma_scalars_in_turn(first: Seq<(Seq<char>, Json)>, second: Seq<(Seq<char>, Json)>)
    requires
        scalar_members(first),
        scalar_members(second),
    ensures
        scalar_members(first + second),
{
}

proof fn lemma_plain_members_are_readable(base: BaseView, levels: nat, doubles: bool)
    ensures
        readable_members(base.plain_members(), levels, doubles),
{
    let detail = optional_text_member("status_detail"@, base.status_detail);
    let message = optional_text_member("message"@, base.message);
    let ranked = base.class_members() + base.severity_members();
    assert(scalar_members(base.class_members()));
    assert(scalar_members(base.severity_members()));
    assert(scalar_members(base.status_members()));
    lemma_scalars_in_turn(base.class_members(), base.severity_members());
    lemma_scalars_in_turn(ranked, base.status_members());
    lemma_scalars_in_turn(ranked + base.status_members(), detail);
    lemma_scalars_in_turn(ranked + base.status_members() + detail, message);
    let plain = base.plain_members();
    assert forall|i: int| 0 <= i < plain.len() implies readable(
        (#[trigger] plain[i]).1,
        levels,
        doubles,
    ) by {
        assert(plain[i].1 is Text || plain[i].1 is Int);
    }
}

/// The members common to all classes are the plain ones, and then the others.
proof fn lemma_base_members_in_turn(base: BaseView)
    ensures
        base.members() == base.plain_members() + seq![("metadata"@, base.metadata.document())]
            + optional_member(
            "device"@,
            match base.device {
                Some(device) => Some(device.document()),
                None => None,
            },
        ) + optional_member(
            "container"@,
            match base.container {
                Some(container) => Some(container.document()),
                None => None,
            },
        ) + optional_member("unmapped"@, base.unmapped),
{
    let ranked = base.class_members() + base.severity_members();
    let status = base.status_members();
    let detail = optional_text_member("status_detail"@, base.status_detail);
    let message = optional_text_member("message"@, base.message);
    let metadata = seq![("metadata"@, base.metadata.document())];
    let device = optional_member(
        "device"@,
        match base.device {
            Some(device) => Some(device.document()),
            None => None,
        },
    );
    let container = optional_member(
        "container"@,
        match base.container {
            Some(container) => Some(container.document()),
            None => None,
        },
    );
    let unmapped = optional_member("unmapped"@, base.unmapped);
    lemma_written_in_turn(ranked, status, detail);
    lemma_written_in_turn(ranked, status + detail, message);
    lemma_written_in_turn(ranked, status + detail + message, metadata);
    lemma_written_in_turn(ranked, status + detail + message + metadata, device);
    lemma_written_in_turn(ranked, status + detail + message + metadata + device, container);
    lemma_written_in_turn(
        ranked,
        status + detail + message + metadata + device + container,
        unmapped,
    );
}

proof fn lemma_base_members_are_readable(
    base: BaseView,
    levels: nat,
    doubles: bool,
)
    requires
        levels > 1,
        base.unmapped matches Some(unmapped) ==> readable(unmapped, levels, doubles),
    ensures
        readable_members(base.members(), levels, doubles),
{
    lemma_metadata_is_readable(base.metadata, levels, doubles);
    if let Some(device) = base.device {
        lemma_object_is_readable(device.members(), levels, doubles);
    }
    if let Some(container) = base.container {
        lemma_object_is_readable(container.members(), levels, doubles);
    }
    lemma_plain_members_are_readable(base, levels, doubles);
    let plain = base.plain_members();
    let metadata = seq![("metadata"@, base.metadata.document())];
    let device = optional_member(
        "device"@,
        match base.device {
            Some(device) => Some(device.document()),
            None => None,
        },
    );
    let container = optional_member(
        "container"@,
        match base.container {
            Some(container) => Some(container.document()),
            None => None,
        },
    );
    let unmapped = optional_member("unmapped"@, base.unmapped);
    lemma_readable_in_turn(plain, metadata, levels, doubles);
    lemma_readable_in_turn(plain + metadata, device, levels, doubles);
    lemma_readable_in_turn(plain + metadata + device, container, levels, doubles);
    lemma_readable_in_turn(plain + metadata + device + container, unmapped, levels, doubles);
    lemma_base_members_in_turn(base);
}

proof fn lemma_class_members_are_readable(
    class: ClassView,
    levels: nat,
    doubles: bool,
)
    requires
        levels > 1,
    ensures
        readable_members(class.members(), levels, doubles),
{
    match class {
        ClassView::Base => {},
        ClassView::EntityManagement { entity, actor } => {
            lemma_object_is_readable(entity.members(), levels, doubles);
            if let Some(a) = actor {
                lemma_actor_is_readable(a, levels, doubles);
            }
        },
        ClassView::Authentication { user, auth_protocol, src_endpoint } => {
            if let Some(u) = user {
                lemma_object_is_readable(u.members(), levels, doubles);
            }
            if let Some(endpoint) = src_endpoint {
                lemma_object_is_readable(
                    text_member("ip"@, endpoint.ip)
                        + int_member("port"@, endpoint.port as int),
                    levels,
                    doubles,
                );
            }
        },
        ClassView::ConfigStateChange { state, state_label, actor } => {
            if let Some(a) = actor {
                lemma_actor_is_readable(a, levels, doubles);
            }
        },
        ClassView::DetectionFinding { finding_info, evidence, is_alert } => {
            lemma_object_is_readable(
                text_member("uid"@, finding_info.uid)
                    + text_member("title"@, finding_info.title)
                    + optional_text_member("desc"@, finding_info.desc),
                levels,
                doubles,
            );
            lemma_object_is_readable(fact_members(evidence), levels, doubles);
        },
    }
}

/// Whether every member's value is readable in writing order.
spec fn readable_parts(members: Seq<(Seq<char>, Written)>, levels: nat, doubles: bool) -> bool {
    forall|i: int|
        0 <= i < members.len() ==> (#[trigger] members[i]).1.readable(levels, doubles)
}

/// Whether members in writing order are readable, and which documents they have.
spec fn written_as(
    parts: Seq<(Seq<char>, Written)>,
    members: Seq<(Seq<char>, Json)>,
    levels: nat,
    doubles: bool,
) -> bool {
    &&& readable_parts(parts, levels, doubles)
    &&& part_documents(parts, parts.len()) == members
}

proof fn lemma_parts_in_turn(
    first: Seq<(Seq<char>, Written)>,
    these: Seq<(Seq<char>, Json)>,
    second: Seq<(Seq<char>, Written)>,
    those: Seq<(Seq<char>, Json)>,
    levels: nat,
    doubles: bool,
)
    requires
        written_as(first, these, levels, doubles),
        written_as(second, those, levels, doubles),
    ensures
        written_as(first + second, these + those, levels, doubles),
{
    let all = first + second;
    lemma_documents_in_turn(first, second, second.len());
    assert forall|i: int| 0 <= i < all.len() implies (#[trigger] all[i]).1.readable(
        levels,
        doubles,
    ) by {
        if i < first.len() {
            assert(all[i] == first[i]);
        } else {
            assert(all[i] == second[i - first.len()]);
        }
    }
}

proof fn lemma_trees_are_written(members: Seq<(Seq<char>, Json)>, levels: nat, doubles: bool)
    requires
        readable_members(members, levels, doubles),
    ensures
        written_as(trees(members), members, levels, doubles),
{
    lemma_trees_are_the_document(members, members.len());
    assert(members.take(members.len() as int) =~= members);
    let parts = trees(members);
    assert forall|i: int| 0 <= i < parts.len() implies (#[trigger] parts[i]).1.readable(
        levels,
        doubles,
    ) by {
        assert(readable(members[i].1, levels, doubles));
    }
}

/// An object in writing order, one level further up.
proof fn lemma_object_is_written(
    name: Seq<char>,
    parts: Seq<(Seq<char>, Written)>,
    members: Seq<(Seq<char>, Json)>,
    levels: nat,
    doubles: bool,
)
    requires
        levels > 0,
        written_as(parts, members, (levels - 1) as nat, doubles),
    ensures
        written_as(
            seq![(name, Written::Object(parts))],
            seq![(name, object(members))],
            levels,
            doubles,
        ),
{
    let outer = seq![(name, Written::Object(parts))];
    reveal_with_fuel(part_documents, 2);
    assert(part_documents(outer, 1) =~= seq![(name, object(members))]);
}

proof fn lemma_none_is_written(levels: nat, doubles: bool)
    ensures
        written_as(Seq::empty(), Seq::empty(), levels, doubles),
{
}

proof fn lemma_metadata_is_written(metadata: MetadataView, levels: nat, doubles: bool)
    requires
        levels > 2,
    ensures
        written_as(
            seq![("metadata"@, metadata.written())],
            seq![("metadata"@, metadata.document())],
            levels,
            doubles,
        ),
{
    let inner = (levels - 1) as nat;
    let version = text_member("version"@, metadata.version);
    let product = metadata.product;
    let profiles = seq![("profiles"@, text_array(metadata.profiles))];
    let rest = profiles + optional_text_member("uid"@, metadata.uid) + optional_text_member(
        "log_source"@,
        metadata.log_source,
    );
    assert(readable(text_array(metadata.profiles), inner, doubles)) by {
        reveal_with_fuel(readable, 2);
    }
    lemma_trees_are_written(version, inner, doubles);
    lemma_trees_are_written(product.members(), (inner - 1) as nat, doubles);
    lemma_object_is_written("product"@, trees(product.members()), product.members(), inner, doubles);
    lemma_trees_are_written(rest, inner, doubles);
    let named = seq![("product"@, product.written())];
    let document = seq![("product"@, product.document())];
    lemma_parts_in_turn(trees(version), version, named, document, inner, doubles);
    lemma_parts_in_turn(
        trees(version) + named,
        version + document,
        trees(rest),
        rest,
        inner,
        doubles,
    );
    assert(version + document + rest =~= metadata.members());
    lemma_object_is_written(
        "metadata"@,
        trees(version) + named + trees(rest),
        metadata.members(),
        levels,
        doubles,
    );
}

proof fn lemma_base_is_written(base: BaseView, levels: nat, doubles: bool)
    requires
        levels > 2,
        base.unmapped matches Some(unmapped) ==> readable(unmapped, levels, doubles),
    ensures
        written_as(base.written(), base.members(), levels, doubles),
{
    lemma_none_is_written(levels, doubles);
    let plain = base.plain_members();
    lemma_plain_members_are_readable(base, levels, doubles);
    lemma_trees_are_written(plain, levels, doubles);
    lemma_metadata_is_written(base.metadata, levels, doubles);
    let metadata = seq![("metadata"@, base.metadata.written())];
    let metadata_member = seq![("metadata"@, base.metadata.document())];
    lemma_parts_in_turn(trees(plain), plain, metadata, metadata_member, levels, doubles);
    let device = optional_part(
        "device"@,
        match base.device {
            Some(device) => Some(device.written()),
            None => None,
        },
    );
    let device_member = optional_member(
        "device"@,
        match base.device {
            Some(device) => Some(device.document()),
            None => None,
        },
    );
    if let Some(d) = base.device {
        lemma_trees_are_written(d.members(), (levels - 1) as nat, doubles);
        lemma_object_is_written("device"@, trees(d.members()), d.members(), levels, doubles);
    }
    lemma_parts_in_turn(
        trees(plain) + metadata,
        plain + metadata_member,
        device,
        device_member,
        levels,
        doubles,
    );
    let container = optional_part(
        "container"@,
        match base.container {
            Some(container) => Some(container.written()),
            None => None,
        },
    );
    let container_member = optional_member(
        "container"@,
        match base.container {
            Some(container) => Some(container.document()),
            None => None,
        },
    );
    if let Some(c) = base.container {
        lemma_trees_are_written(c.members(), (levels - 1) as nat, doubles);
        lemma_object_is_written("container"@, trees(c.members()), c.members(), levels, doubles);
    }
    lemma_parts_in_turn(
        trees(plain) + metadata + device,
        plain + metadata_member + device_member,
        container,
        container_member,
        levels,
        doubles,
    );
    let unmapped = optional_member("unmapped"@, base.unmapped);
    lemma_trees_are_written(unmapped, levels, doubles);
    lemma_parts_in_turn(
        trees(plain) + metadata + device + container,
        plain + metadata_member + device_member + container_member,
        trees(unmapped),
        unmapped,
        levels,
        doubles,
    );
    lemma_base_members_in_turn(base);
}

proof fn lemma_actor_is_written(actor: ActorView, levels: nat, doubles: bool)
    requires
        levels > 2,
    ensures
        written_as(
            seq![("actor"@, actor.written())],
            seq![("actor"@, actor.document())],
            levels,
            doubles,
        ),
{
    let user = actor.user.members();
    lemma_trees_are_written(user, (levels - 2) as nat, doubles);
    lemma_object_is_written("user"@, trees(user), user, (levels - 1) as nat, doubles);
    lemma_object_is_written(
        "actor"@,
        seq![("user"@, actor.user.written())],
        seq![("user"@, actor.user.document())],
        levels,
        doubles,
    );
}

/// Whether an event's text reads back: what it carries beyond the schema is not
/// nested too deep, and holds no doubles unless they are allowed.
pub open spec fn reads_back(event: EventView, doubles: bool) -> bool {
    event.base.unmapped matches Some(unmapped) ==> readable(
        unmapped,
        (MAX_NESTING - 1) as nat,
        doubles,
    )
}

/// The schema itself never keeps an event's text from reading back: only what it
/// carries beyond the schema can. In whatever order members are written, they are
/// those of the event's document.
pub proof fn law_event_texts_are_readable(event: EventView, doubles: bool)
    requires
        reads_back(event, doubles),
    ensures
        event.written().readable(MAX_NESTING as nat, doubles),
        event.written().document() == event.document(),
        readable(event.document(), MAX_NESTING as nat, doubles),
{
    let levels = (MAX_NESTING - 1) as nat;
    lemma_base_members_are_readable(event.base, levels, doubles);
    lemma_class_members_are_readable(event.class, levels, doubles);
    lemma_readable_in_turn(event.base.members(), event.class.members(), levels, doubles);
    lemma_object_is_readable(event.members(), MAX_NESTING as nat, doubles);
    lemma_base_is_written(event.base, levels, doubles);
    lemma_none_is_written(levels, doubles);
    match event.class {
        ClassView::Base => {
            assert(event.members() =~= event.base.members());
        },
        ClassView::EntityManagement { entity, actor } => {
            let members = entity.members();
            lemma_trees_are_written(members, (levels - 1) as nat, doubles);
            lemma_object_is_written("entity"@, trees(members), members, levels, doubles);
            let named = seq![("entity"@, entity.written())];
            let document = seq![("entity"@, entity.document())];
            lemma_parts_in_turn(
                event.base.written(),
                event.base.members(),
                named,
                document,
                levels,
                doubles,
            );
            let actor_part = optional_part(
                "actor"@,
                match actor {
                    Some(a) => Some(a.written()),
                    None => None,
                },
            );
            let actor_member = actor_member(actor);
            if let Some(a) = actor {
                lemma_actor_is_written(a, levels, doubles);
            }
            lemma_parts_in_turn(
                event.base.written() + named,
                event.base.members() + document,
                actor_part,
                actor_member,
                levels,
                doubles,
            );
            assert(event.base.members() + document + actor_member =~= event.members());
        },
        _ => {},
    }
}

/// The text of a Base or Entity Management event lists the members in the order
/// of the fields: class, category, activity and type, time, severity; and at the
/// end of an Entity Management event the resource and the actor, where there is
/// one.
pub proof fn law_texts_keep_the_order_of_the_fields(event: EventView)
    requires
        event.class is Base || event.class is EntityManagement,
    ensures
        ({
            let members = event.written()->Object_0;
            let base = event.base;
            &&& event.written() is Object
            &&& event.text() == Written::Object(members).text()
            &&& members.len() > 11
            &&& members[0] == ("class_uid"@, Written::Tree(Json::Int(base.class_uid as int)))
            &&& members[1] == ("class_name"@, Written::Tree(Json::Text(base.class_name)))
            &&& members[2] == ("category_uid"@, Written::Tree(Json::Int(base.category_uid as int)))
            &&& members[3] == ("category_name"@, Written::Tree(Json::Text(base.category_name)))
            &&& members[4] == ("activity_id"@, Written::Tree(Json::Int(base.activity_id as int)))
            &&& members[5] == ("activity_name"@, Written::Tree(Json::Text(base.activity_name)))
            &&& members[6] == ("type_uid"@, Written::Tree(Json::Int(base.type_uid as int)))
            &&& members[7] == ("type_name"@, Written::Tree(Json::Text(base.type_label)))
            &&& members[8] == ("time"@, Written::Tree(Json::Int(base.time as int)))
            &&& members[9] == ("severity_id"@, Written::Tree(Json::Int(base.severity.id() as int)))
            &&& members[10] == ("severity"@, Written::Tree(Json::Text(base.severity.name())))
            &&& event.class is EntityManagement ==> {
                let entity = event.class->EntityManagement_entity;
                let actor = event.class->EntityManagement_actor;
                let last = members.len() - 1;
                &&& actor is None ==> members[last] == ("entity"@, entity.written())
                &&& actor is Some ==> members[last] == ("actor"@, actor->0.written())
                    && members[last - 1] == ("entity"@, entity.written())
            }
        }),
{
    let base = event.base;
    let members = event.written()->Object_0;
    let plain = base.plain_members();
    let class = base.class_members();
    assert(class.len() == 9);
    assert(plain.len() >= 11);
    assert(plain.take(9) =~= class);
    assert(members.take(plain.len() as int) =~= trees(plain));
    assert forall|i: int| 0 <= i < 11 implies #[trigger] members[i] == (
        plain[i].0,
        Written::Tree(plain[i].1),
    ) by {
        assert(members.take(plain.len() as int)[i] == members[i]);
        assert(trees(plain)[i] == (plain[i].0, Written::Tree(plain[i].1)));
    }
    assert forall|i: int| 0 <= i < 9 implies #[trigger] plain[i] == class[i] by {
        assert(plain.take(9)[i] == plain[i]);
    }
    assert(plain[9] == base.severity_members()[0]);
    assert(plain[10] == base.severity_members()[1]);
}

/// The events of the other classes are written as the tree of their documents.
pub proof fn law_other_texts_are_those_of_the_tree(event: EventView)
    requires
        !(event.class is Base) && !(event.class is EntityManagement),
    ensures
        event.text() == compact_text(event.document()),
{
}

} // verus!
