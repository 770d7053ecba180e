//! OCSF objects and the documents they serialize to.

use crate::json::{json_of, Json};
use crate::ocsf::document::{
    int_member, object, optional_text_member, text_array, text_array_value, text_member, text_of,
    texts_of, Document,
};
use crate::ocsf::enums::UserTypeId;
use vstd::prelude::*;

verus! {

/// OCSF User object: an authenticated identity acting on or affected by an
/// event.
#[derive(Debug, Clone, PartialEq, Eq)]
pub struct User {
    /// Human-readable name (display name, username, or the uid when no
    /// friendlier form exists).
    pub name: String,
    /// Stable unique identifier (OIDC `sub`, certificate CN, sandbox id).
    pub uid: Option<String>,
    /// User type, when known.
    pub type_id: Option<UserTypeId>,
}

/// The contents of a [`User`].
pub struct UserView {
    pub name: Seq<char>,
    pub uid: Option<Seq<char>>,
    pub type_id: Option<UserTypeId>,
}

impl View for User {
    type V = UserView;

    open spec fn view(&self) -> UserView {
        UserView { name: self.name@, uid: text_of(self.uid), type_id: self.type_id }
    }
}

impl UserView {
    /// An identity with a stable uid.
    pub open spec fn identified(name: Seq<char>, uid: Seq<char>, type_id: UserTypeId) -> UserView {
        UserView { name, uid: Some(uid), type_id: Some(type_id) }
    }

    /// An identity known by name only.
    pub open spec fn named(name: Seq<char>) -> UserView {
        UserView { name, uid: None, type_id: Some(UserTypeId::Unknown) }
    }

    /// The members written for a user: the `type_id`/`type` pair only where a
    /// type is set.
    pub open spec fn members(self) -> Seq<(Seq<char>, Json)> {
        text_member("name"@, self.name) + optional_text_member("uid"@, self.uid) + match self.type_id {
            Some(type_id) => int_member("type_id"@, type_id.id() as int) + text_member(
                "type"@,
                type_id.name(),
            ),
            None => Seq::empty(),
        }
    }

    /// The document of a user.
    pub open spec fn document(self) -> Json {
        object(self.members())
    }
}

impl User {
    /// A user identity with a stable uid.
    #[must_use]
    pub fn new(name: &str, uid: &str, type_id: UserTypeId) -> (user: User)
        ensures
            user@ == UserView::identified(name@, uid@, type_id),
    {
        User { name: name.to_owned(), uid: Some(uid.to_owned()), type_id: Some(type_id) }
    }

    /// A name-only identity (e.g. `anonymous`).
    #[must_use]
    pub fn named(name: &str) -> (user: User)
        ensures
            user@ == UserView::named(name@),
    {
        User { name: name.to_owned(), uid: None, type_id: Some(UserTypeId::Unknown) }
    }

    /// The document of this user.
    #[must_use]
    pub fn to_json(&self) -> (value: serde_json::Value)
        ensures
            json_of(value) == self@.document(),
    {
        let mut document = Document::new();
        document.text("name", self.name.as_str());
        document.optional_text("uid", &self.uid);
        if let Some(type_id) = self.type_id {
            document.number("type_id", type_id.as_u8() as i64);
            document.text("type", type_id.label());
        }
        proof {
            assert(document.written() =~= self@.members());
        }
        document.finish()
    }
}

/// OCSF Managed Entity object: the platform resource an Entity Management
/// event acts on (workspace, provider, sandbox, credential, …).
#[derive(Debug, Clone, PartialEq, Eq)]
pub struct ManagedEntity {
    /// Resource type (`workspace`, `provider`, `sandbox`, …).
    pub entity_type: String,
    /// Stable identifier of the resource.
    pub uid: Option<String>,
    /// Human-readable name of the resource.
    pub name: Option<String>,
}

/// The contents of a [`ManagedEntity`].
pub struct ManagedEntityView {
    pub entity_type: Seq<char>,
    pub uid: Option<Seq<char>>,
    pub name: Option<Seq<char>>,
}

impl View for ManagedEntity {
    type V = ManagedEntityView;

    open spec fn view(&self) -> ManagedEntityView {
        ManagedEntityView {
            entity_type: self.entity_type@,
            uid: text_of(self.uid),
            name: text_of(self.name),
        }
    }
}

impl ManagedEntityView {
    /// A resource known by type and uid.
    pub open spec fn identified(entity_type: Seq<char>, uid: Seq<char>) -> ManagedEntityView {
        ManagedEntityView { entity_type, uid: Some(uid), name: None }
    }

    /// The most readable identifier available: name, else uid, else the type.
    pub open spec fn readable(self) -> Seq<char> {
        match (self.name, self.uid) {
            (Some(name), _) => name,
            (None, Some(uid)) => uid,
            (None, None) => self.entity_type,
        }
    }

    /// The members of a resource.
    pub open spec fn members(self) -> Seq<(Seq<char>, Json)> {
        text_member("type"@, self.entity_type) + optional_text_member("uid"@, self.uid)
            + optional_text_member("name"@, self.name)
    }

    /// The document of a resource.
    pub open spec fn document(self) -> Json {
        object(self.members())
    }
}

impl ManagedEntity {
    /// A resource known by type and uid.
    #[must_use]
    pub fn new(entity_type: &str, uid: &str) -> (entity: ManagedEntity)
        ensures
            entity@ == ManagedEntityView::identified(entity_type@, uid@),
    {
        ManagedEntity { entity_type: entity_type.to_owned(), uid: Some(uid.to_owned()), name: None }
    }

    /// Attach a display name.
    #[must_use]
    pub fn with_name(self, name: &str) -> (entity: ManagedEntity)
        ensures
            entity@ == (ManagedEntityView { name: Some(name@), ..self@ }),
    {
        ManagedEntity {
            entity_type: self.entity_type,
            uid: self.uid,
            name: Some(name.to_owned()),
        }
    }

    /// The most readable identifier available: name, else uid, else the type.
    #[must_use]
    pub fn display(&self) -> (text: &str)
        ensures
            text@ == self@.readable(),
    {
        match &self.name {
            Some(name) => name.as_str(),
            None => match &self.uid {
                Some(uid) => uid.as_str(),
                None => self.entity_type.as_str(),
            },
        }
    }

    /// The document of this resource.
    #[must_use]
    pub fn to_json(&self) -> (value: serde_json::Value)
        ensures
            json_of(value) == self@.document(),
    {
        let mut document = Document::new();
        document.text("type", self.entity_type.as_str());
        document.optional_text("uid", &self.uid);
        document.optional_text("name", &self.name);
        proof {
            assert(document.written() =~= text_member("type"@, self@.entity_type)
                + optional_text_member("uid"@, self@.uid) + optional_text_member(
                "name"@,
                self@.name,
            ));
        }
        document.finish()
    }
}

/// OCSF Actor object: who performed an operation.
#[derive(Debug, Clone, PartialEq, Eq)]
pub struct Actor {
    /// The acting identity.
    pub user: User,
}

/// The contents of an [`Actor`].
pub struct ActorView {
    pub user: UserView,
}

impl View for Actor {
    type V = ActorView;

    open spec fn view(&self) -> ActorView {
        ActorView { user: self.user@ }
    }
}

impl ActorView {
    /// The document of an actor.
    pub open spec fn document(self) -> Json {
        object(seq![("user"@, self.user.document())])
    }
}

impl Actor {
    /// An actor that is a user.
    #[must_use]
    pub fn from_user(user: User) -> (actor: Actor)
        ensures
            actor@ == (ActorView { user: user@ }),
    {
        Actor { user }
    }

    /// The document of this actor.
    #[must_use]
    pub fn to_json(&self) -> (value: serde_json::Value)
        ensures
            json_of(value) == self@.document(),
    {
        let mut document = Document::new();
        document.value("user", self.user.to_json());
        proof {
            assert(document.written() =~= seq![("user"@, self@.user.document())]);
        }
        document.finish()
    }
}

/// OCSF Endpoint object: where a request came from.
#[derive(Debug, Clone, PartialEq, Eq)]
pub struct Endpoint {
    /// The address in its canonical text form.
    pub ip: String,
    pub port: u16,
}

/// The contents of an [`Endpoint`].
pub struct EndpointView {
    pub ip: Seq<char>,
    pub port: u16,
}

impl View for Endpoint {
    type V = EndpointView;

    open spec fn view(&self) -> EndpointView {
        EndpointView { ip: self.ip@, port: self.port }
    }
}

impl EndpointView {
    /// The document of an endpoint.
    pub open spec fn document(self) -> Json {
        object(text_member("ip"@, self.ip) + int_member("port"@, self.port as int))
    }
}

impl Endpoint {
    /// An endpoint known by address and port.
    #[must_use]
    pub fn from_ip(ip: &str, port: u16) -> (endpoint: Endpoint)
        ensures
            endpoint@ == (EndpointView { ip: ip@, port }),
    {
        Endpoint { ip: ip.to_owned(), port }
    }

    /// The document of this endpoint.
    #[must_use]
    pub fn to_json(&self) -> (value: serde_json::Value)
        ensures
            json_of(value) == self@.document(),
    {
        let mut document = Document::new();
        document.text("ip", self.ip.as_str());
        document.number("port", self.port as i64);
        proof {
            assert(document.written() =~= text_member("ip"@, self@.ip) + int_member(
                "port"@,
                self@.port as int,
            ));
        }
        document.finish()
    }
}

/// OCSF Product object.
#[derive(Debug, Clone, PartialEq, Eq)]
pub struct Product {
    pub name: String,
    pub vendor_name: String,
    pub version: String,
}

/// The contents of a [`Product`].
pub struct ProductView {
    pub name: Seq<char>,
    pub vendor_name: Seq<char>,
    pub version: Seq<char>,
}

impl View for Product {
    type V = ProductView;

    open spec fn view(&self) -> ProductView {
        ProductView {
            name: self.name@,
            vendor_name: self.vendor_name@,
            version: self.version@,
        }
    }
}

impl ProductView {
    /// The OpenShell product at a version.
    pub open spec fn openshell(version: Seq<char>) -> ProductView {
        ProductView { name: "OpenShell Sandbox"@, vendor_name: "NVIDIA"@, version }
    }

    /// The members of a product.
    pub open spec fn members(self) -> Seq<(Seq<char>, Json)> {
        text_member("name"@, self.name) + text_member("vendor_name"@, self.vendor_name)
            + text_member("version"@, self.version)
    }

    /// The document of a product.
    pub open spec fn document(self) -> Json {
        object(self.members())
    }
}

impl Product {
    /// The OpenShell product at a version.
    #[must_use]
    pub fn openshell_sandbox(version: &str) -> (product: Product)
        ensures
            product@ == ProductView::openshell(version@),
    {
        Product {
            name: "OpenShell Sandbox".to_owned(),
            vendor_name: "NVIDIA".to_owned(),
            version: version.to_owned(),
        }
    }

    /// The document of this product.
    #[must_use]
    pub fn to_json(&self) -> (value: serde_json::Value)
        ensures
            json_of(value) == self@.document(),
    {
        let mut document = Document::new();
        document.text("name", self.name.as_str());
        document.text("vendor_name", self.vendor_name.as_str());
        document.text("version", self.version.as_str());
        proof {
            assert(document.written() =~= text_member("name"@, self@.name) + text_member(
                "vendor_name"@,
                self@.vendor_name,
            ) + text_member("version"@, self@.version));
        }
        document.finish()
    }
}

/// OCSF Metadata object: which producer reported an event.
#[derive(Debug, Clone, PartialEq, Eq)]
pub struct Metadata {
    /// OCSF schema version.
    pub version: String,
    pub product: Product,
    pub profiles: Vec<String>,
    /// The sandbox the event is about.
    pub uid: Option<String>,
    pub log_source: Option<String>,
}

/// The contents of a [`Metadata`].
pub struct MetadataView {
    pub version: Seq<char>,
    pub product: ProductView,
    pub profiles: Seq<Seq<char>>,
    pub uid: Option<Seq<char>>,
    pub log_source: Option<Seq<char>>,
}

impl View for Metadata {
    type V = MetadataView;

    open spec fn view(&self) -> MetadataView {
        MetadataView {
            version: self.version@,
            product: self.product@,
            profiles: texts_of(self.profiles@),
            uid: text_of(self.uid),
            log_source: text_of(self.log_source),
        }
    }
}

impl MetadataView {
    /// The members written for metadata.
    pub open spec fn members(self) -> Seq<(Seq<char>, Json)> {
        text_member("version"@, self.version) + seq![("product"@, self.product.document())] + seq![
            ("profiles"@, text_array(self.profiles)),
        ] + optional_text_member("uid"@, self.uid) + optional_text_member(
            "log_source"@,
            self.log_source,
        )
    }

    /// The document of metadata.
    pub open spec fn document(self) -> Json {
        object(self.members())
    }
}

impl Metadata {
    /// The document of this metadata.
    #[must_use]
    pub fn to_json(&self) -> (value: serde_json::Value)
        ensures
            json_of(value) == self@.document(),
    {
        let mut document = Document::new();
        document.text("version", self.version.as_str());
        document.value("product", self.product.to_json());
        document.value("profiles", text_array_value(&self.profiles));
        document.optional_text("uid", &self.uid);
        document.optional_text("log_source", &self.log_source);
        proof {
            assert(document.written() =~= self@.members());
        }
        document.finish()
    }
}

/// OCSF Device object: the host that reported an event.
#[derive(Debug, Clone, PartialEq, Eq)]
pub struct Device {
    pub hostname: String,
}

/// The contents of a [`Device`].
pub struct DeviceView {
    pub hostname: Seq<char>,
}

impl View for Device {
    type V = DeviceView;

    open spec fn view(&self) -> DeviceView {
        DeviceView { hostname: self.hostname@ }
    }
}

impl DeviceView {
    /// The members of a device.
    pub open spec fn members(self) -> Seq<(Seq<char>, Json)> {
        text_member("hostname"@, self.hostname)
    }

    /// The document of a device.
    pub open spec fn document(self) -> Json {
        object(self.members())
    }
}

impl Device {
    /// The document of this device.
    #[must_use]
    pub fn to_json(&self) -> (value: serde_json::Value)
        ensures
            json_of(value) == self@.document(),
    {
        let mut document = Document::new();
        document.text("hostname", self.hostname.as_str());
        proof {
            assert(document.written() =~= text_member("hostname"@, self@.hostname));
        }
        document.finish()
    }
}

/// OCSF Container object: the container an event happened in.
#[derive(Debug, Clone, PartialEq, Eq)]
pub struct Container {
    pub name: String,
    pub image: String,
}

/// The contents of a [`Container`].
pub struct ContainerView {
    pub name: Seq<char>,
    pub image: Seq<char>,
}

impl View for Container {
    type V = ContainerView;

    open spec fn view(&self) -> ContainerView {
        ContainerView { name: self.name@, image: self.image@ }
    }
}

impl ContainerView {
    /// The members of a container.
    pub open spec fn members(self) -> Seq<(Seq<char>, Json)> {
        text_member("name"@, self.name) + text_member("image"@, self.image)
    }

    /// The document of a container.
    pub open spec fn document(self) -> Json {
        object(self.members())
    }
}

impl Container {
    /// The document of this container.
    #[must_use]
    pub fn to_json(&self) -> (value: serde_json::Value)
        ensures
            json_of(value) == self@.document(),
    {
        let mut document = Document::new();
        document.text("name", self.name.as_str());
        document.text("image", self.image.as_str());
        proof {
            assert(document.written() =~= text_member("name"@, self@.name) + text_member(
                "image"@,
                self@.image,
            ));
        }
        document.finish()
    }
}

/// OCSF Finding Info object: what a detection found.
#[derive(Debug, Clone, PartialEq, Eq)]
pub struct FindingInfo {
    pub uid: String,
    pub title: String,
    pub desc: Option<String>,
}

/// The contents of a [`FindingInfo`].
pub struct FindingInfoView {
    pub uid: Seq<char>,
    pub title: Seq<char>,
    pub desc: Option<Seq<char>>,
}

impl View for FindingInfo {
    type V = FindingInfoView;

    open spec fn view(&self) -> FindingInfoView {
        FindingInfoView { uid: self.uid@, title: self.title@, desc: text_of(self.desc) }
    }
}

impl FindingInfoView {
    /// The document of a finding's description.
    pub open spec fn document(self) -> Json {
        object(
            text_member("uid"@, self.uid) + text_member("title"@, self.title)
                + optional_text_member("desc"@, self.desc),
        )
    }
}

impl FindingInfo {
    /// A finding known by uid and title.
    #[must_use]
    pub fn new(uid: &str, title: &str) -> (info: FindingInfo)
        ensures
            info@ == (FindingInfoView { uid: uid@, title: title@, desc: None }),
    {
        FindingInfo { uid: uid.to_owned(), title: title.to_owned(), desc: None }
    }

    /// Attach a description.
    #[must_use]
    pub fn with_desc(self, desc: &str) -> (info: FindingInfo)
        ensures
            info@ == (FindingInfoView { desc: Some(desc@), ..self@ }),
    {
        FindingInfo { uid: self.uid, title: self.title, desc: Some(desc.to_owned()) }
    }

    /// The document of this description.
    #[must_use]
    pub fn to_json(&self) -> (value: serde_json::Value)
        ensures
            json_of(value) == self@.document(),
    {
        let mut document = Document::new();
        document.text("uid", self.uid.as_str());
        document.text("title", self.title.as_str());
        document.optional_text("desc", &self.desc);
        proof {
            assert(document.written() =~= text_member("uid"@, self@.uid) + text_member(
                "title"@,
                self@.title,
            ) + optional_text_member("desc"@, self@.desc));
        }
        document.finish()
    }
}

} // verus!
