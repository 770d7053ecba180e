//! The text of an event's document, and what it reads back as.
//!
//! Base and Entity Management events, and the objects in them, list their members
//! in the order of the fields. The other classes are assembled as a tree, which
//! lists them in the order of their names.

use crate::json::{write_compact, Json};
use crate::ocsf::document::{
    optional_member, optional_text_member, text_array, text_array_value, text_member,
};
use crate::ocsf::events::{BaseEventData, BaseView, ClassView, EventView, OcsfEvent};
use crate::ocsf::objects::{
    Actor, ActorView, Container, ContainerView, Device, DeviceView, ManagedEntity,
    ManagedEntityView, Metadata, MetadataView, Product, ProductView, User, UserView,
};
use crate::written::{trees, Parts, Written};
use vstd::prelude::*;

verus! {

impl UserView {
    /// The user in writing order.
    pub open spec fn written(self) -> Written {
        Written::Object(trees(self.members()))
    }
}

impl ActorView {
    /// The actor in writing order.
    pub open spec fn written(self) -> Written {
        Written::Object(seq![("user"@, self.user.written())])
    }
}

impl ManagedEntityView {
    /// The resource in writing order.
    pub open spec fn written(self) -> Written {
        Written::Object(trees(self.members()))
    }
}

impl ProductView {
    /// The product in writing order.
    pub open spec fn written(self) -> Written {
        Written::Object(trees(self.members()))
    }
}

impl MetadataView {
    /// The metadata in writing order.
    pub open spec fn written(self) -> Written {
        Written::Object(
            trees(text_member("version"@, self.version)) + seq![
                ("product"@, self.product.written()),
            ] + trees(
                seq![("profiles"@, text_array(self.profiles))] + optional_text_member(
                    "uid"@,
                    self.uid,
                ) + optional_text_member("log_source"@, self.log_source),
            ),
        )
    }
}

impl DeviceView {
    /// The device in writing order.
    pub open spec fn written(self) -> Written {
        Written::Object(trees(self.members()))
    }
}

impl ContainerView {
    /// The container in writing order.
    pub open spec fn written(self) -> Written {
        Written::Object(trees(self.members()))
    }
}

/// A member in writing order, left out when absent.
pub open spec fn optional_part(name: Seq<char>, written: Option<Written>) -> Seq<
    (Seq<char>, Written),
> {
    match written {
        Some(w) => seq![(name, w)],
        None => Seq::empty(),
    }
}

impl BaseView {
    /// The members of plain texts and numbers.
    pub open spec fn plain_members(self) -> Seq<(Seq<char>, Json)> {
        self.class_members() + self.severity_members() + self.status_members()
            + optional_text_member("status_detail"@, self.status_detail) + optional_text_member(
            "message"@,
            self.message,
        )
    }

    /// Every member common to all classes, in writing order.
    pub open spec fn written(self) -> Seq<(Seq<char>, Written)> {
        trees(self.plain_members()) + seq![("metadata"@, self.metadata.written())] + optional_part(
            "device"@,
            match self.device {
                Some(device) => Some(device.written()),
                None => None,
            },
        ) + optional_part(
            "container"@,
            match self.container {
                Some(container) => Some(container.written()),
                None => None,
            },
        ) + trees(optional_member("unmapped"@, self.unmapped))
    }
}

impl EventView {
    /// The event's document in writing order.
    pub open spec fn written(self) -> Written {
        match self.class {
            ClassView::Base => Written::Object(self.base.written()),
            ClassView::EntityManagement { entity, actor } => Written::Object(
                self.base.written() + seq![("entity"@, entity.written())] + optional_part(
                    "actor"@,
                    match actor {
                        Some(a) => Some(a.written()),
                        None => None,
                    },
                ),
            ),
            _ => Written::Tree(self.document()),
        }
    }

    /// The text of the event's document.
    pub open spec fn text(self) -> Seq<char> {
        self.written().text()
    }
}

proof fn lemma_trees_in_turn(first: Seq<(Seq<char>, Json)>, second: Seq<(Seq<char>, Json)>)
    ensures
        trees(first + second) == trees(first) + trees(second),
{
    assert(trees(first + second) =~= trees(first) + trees(second));
}

fn user_text(user: &User) -> (text: String)
    ensures
        text@ == user@.written().text(),
{
    let mut parts = Parts::new();
    parts.text("name", user.name.as_str());
    parts.optional_text("uid", &user.uid);
    if let Some(type_id) = user.type_id {
        parts.number("type_id", type_id.as_u8() as i64);
        parts.text("type", type_id.label());
    }
    proof {
        assert(parts.written() =~= trees(user@.members()));
    }
    parts.finish()
}

fn actor_text(actor: &Actor) -> (text: String)
    ensures
        text@ == actor@.written().text(),
{
    let mut parts = Parts::new();
    let text = user_text(&actor.user);
    parts.part("user", text.as_str(), Ghost(actor@.user.written()));
    proof {
        assert(parts.written() =~= seq![("user"@, actor@.user.written())]);
    }
    parts.finish()
}

fn entity_text(entity: &ManagedEntity) -> (text: String)
    ensures
        text@ == entity@.written().text(),
{
    let mut parts = Parts::new();
    parts.text("type", entity.entity_type.as_str());
    parts.optional_text("uid", &entity.uid);
    parts.optional_text("name", &entity.name);
    proof {
        assert(parts.written() =~= trees(entity@.members()));
    }
    parts.finish()
}

fn product_text(product: &Product) -> (text: String)
    ensures
        text@ == product@.written().text(),
{
    let mut parts = Parts::new();
    parts.text("name", product.name.as_str());
    parts.text("vendor_name", product.vendor_name.as_str());
    parts.text("version", product.version.as_str());
    proof {
        assert(parts.written() =~= trees(product@.members()));
    }
    parts.finish()
}

fn metadata_text(metadata: &Metadata) -> (text: String)
    ensures
        text@ == metadata@.written().text(),
{
    let mut parts = Parts::new();
    parts.text("version", metadata.version.as_str());
    let product = product_text(&metadata.product);
    parts.part("product", product.as_str(), Ghost(metadata@.product.written()));
    parts.tree("profiles", &text_array_value(&metadata.profiles));
    parts.optional_text("uid", &metadata.uid);
    parts.optional_text("log_source", &metadata.log_source);
    proof {
        assert(parts.written() =~= metadata@.written()->Object_0);
    }
    parts.finish()
}

fn device_text(device: &Device) -> (text: String)
    ensures
        text@ == device@.written().text(),
{
    let mut parts = Parts::new();
    parts.text("hostname", device.hostname.as_str());
    proof {
        assert(parts.written() =~= trees(device@.members()));
    }
    parts.finish()
}

fn container_text(container: &Container) -> (text: String)
    ensures
        text@ == container@.written().text(),
{
    let mut parts = Parts::new();
    parts.text("name", container.name.as_str());
    parts.text("image", container.image.as_str());
    proof {
        assert(parts.written() =~= trees(container@.members()));
    }
    parts.finish()
}

impl BaseEventData {
    /// Write the members of plain texts and numbers.
    fn write_plain_parts(&self) -> (parts: Parts)
        ensures
            parts.wf(),
            parts.written() == trees(self@.plain_members()),
    {
        let mut parts = Parts::new();
        parts.number("class_uid", self.class_uid as i64);
        parts.text("class_name", self.class_name.as_str());
        parts.number("category_uid", self.category_uid as i64);
        parts.text("category_name", self.category_name.as_str());
        parts.number("activity_id", self.activity_id as i64);
        parts.text("activity_name", self.activity_name.as_str());
        parts.number("type_uid", self.type_uid);
        parts.text("type_name", self.type_label.as_str());
        parts.number("time", self.time);
        proof {
            assert(parts.written() =~= trees(self@.class_members()));
            lemma_trees_in_turn(self@.class_members(), self@.severity_members());
        }
        parts.number("severity_id", self.severity.as_u8() as i64);
        parts.text("severity", self.severity.label());
        let ghost run = self@.class_members() + self@.severity_members();
        proof {
            assert(parts.written() =~= trees(run));
            lemma_trees_in_turn(run, self@.status_members());
        }
        if let Some(status) = self.status {
            parts.number("status_id", status.as_u8() as i64);
            parts.text("status", status.label());
        }
        let ghost run = run + self@.status_members();
        proof {
            assert(parts.written() =~= trees(run));
            lemma_trees_in_turn(run, optional_text_member("status_detail"@, self@.status_detail));
        }
        parts.optional_text("status_detail", &self.status_detail);
        let ghost run = run + optional_text_member("status_detail"@, self@.status_detail);
        proof {
            lemma_trees_in_turn(run, optional_text_member("message"@, self@.message));
        }
        parts.optional_text("message", &self.message);
        parts
    }

    /// Write the members common to all classes.
    fn write_parts(&self) -> (parts: Parts)
        ensures
            parts.wf(),
            parts.written() == self@.written(),
    {
        let mut parts = self.write_plain_parts();
        let metadata = metadata_text(&self.metadata);
        parts.part("metadata", metadata.as_str(), Ghost(self@.metadata.written()));
        let ghost run = parts.written();
        if let Some(device) = &self.device {
            let text = device_text(device);
            parts.part("device", text.as_str(), Ghost(device@.written()));
        } else {
            proof {
                assert(run + Seq::<(Seq<char>, Written)>::empty() =~= run);
            }
        }
        let ghost run = parts.written();
        if let Some(container) = &self.container {
            let text = container_text(container);
            parts.part("container", text.as_str(), Ghost(container@.written()));
        } else {
            proof {
                assert(run + Seq::<(Seq<char>, Written)>::empty() =~= run);
            }
        }
        let ghost run = parts.written();
        if let Some(unmapped) = &self.unmapped {
            parts.tree("unmapped", unmapped);
        } else {
            proof {
                assert(run + trees(Seq::empty()) =~= run);
            }
        }
        parts
    }
}

impl OcsfEvent {
    /// The text of the event's document; nothing where it cannot be written.
    #[must_use]
    pub fn to_text(&self) -> (text: Option<String>)
        ensures
            text matches Some(t) && t@ == self@.text(),
    {
        match self {
            OcsfEvent::Base(event) => Some(event.base.write_parts().finish()),
            OcsfEvent::EntityManagement(event) => {
                let mut parts = event.base.write_parts();
                let entity = entity_text(&event.entity);
                parts.part("entity", entity.as_str(), Ghost(event.entity@.written()));
                let ghost run = parts.written();
                if let Some(actor) = &event.actor {
                    let text = actor_text(actor);
                    parts.part("actor", text.as_str(), Ghost(actor@.written()));
                } else {
                    proof {
                        assert(run + Seq::<(Seq<char>, Written)>::empty() =~= run);
                    }
                }
                Some(parts.finish())
            },
            _ => match write_compact(&self.to_json()) {
                Ok(text) => Some(text),
                Err(_) => None,
            },
        }
    }
}

} // verus!
