//! OCSF enumerations: the numeric id and the label of each value.

use vstd::prelude::*;

verus! {

/// OCSF severity of an event.
#[derive(Debug, Clone, Copy, PartialEq, Eq, Hash, Structural)]
pub enum SeverityId {
    /// 0: Unknown
    Unknown,
    /// 1: Informational
    Informational,
    /// 2: Low
    Low,
    /// 3: Medium
    Medium,
    /// 4: High
    High,
    /// 5: Critical
    Critical,
    /// 6: Fatal
    Fatal,
    /// 99: Other
    Other,
}

impl SeverityId {
    /// The numeric id.
    pub open spec fn id(self) -> u8 {
        match self {
            SeverityId::Unknown => 0,
            SeverityId::Informational => 1,
            SeverityId::Low => 2,
            SeverityId::Medium => 3,
            SeverityId::High => 4,
            SeverityId::Critical => 5,
            SeverityId::Fatal => 6,
            SeverityId::Other => 99,
        }
    }

    /// The label's characters.
    pub open spec fn name(self) -> Seq<char> {
        match self {
            SeverityId::Unknown => "Unknown"@,
            SeverityId::Informational => "Informational"@,
            SeverityId::Low => "Low"@,
            SeverityId::Medium => "Medium"@,
            SeverityId::High => "High"@,
            SeverityId::Critical => "Critical"@,
            SeverityId::Fatal => "Fatal"@,
            SeverityId::Other => "Other"@,
        }
    }

    /// The OCSF label.
    #[must_use]
    pub fn label(self) -> (label: &'static str)
        ensures
            label@ == self.name(),
    {
        match self {
            SeverityId::Unknown => "Unknown",
            SeverityId::Informational => "Informational",
            SeverityId::Low => "Low",
            SeverityId::Medium => "Medium",
            SeverityId::High => "High",
            SeverityId::Critical => "Critical",
            SeverityId::Fatal => "Fatal",
            SeverityId::Other => "Other",
        }
    }

    /// The OCSF id.
    #[must_use]
    pub fn as_u8(self) -> (id: u8)
        ensures
            id == self.id(),
    {
        match self {
            SeverityId::Unknown => 0,
            SeverityId::Informational => 1,
            SeverityId::Low => 2,
            SeverityId::Medium => 3,
            SeverityId::High => 4,
            SeverityId::Critical => 5,
            SeverityId::Fatal => 6,
            SeverityId::Other => 99,
        }
    }
}

/// OCSF outcome of the audited operation.
#[derive(Debug, Clone, Copy, PartialEq, Eq, Hash, Structural)]
pub enum StatusId {
    /// 0: Unknown
    Unknown,
    /// 1: Success
    Success,
    /// 2: Failure
    Failure,
    /// 99: Other
    Other,
}

impl StatusId {
    /// The numeric id.
    pub open spec fn id(self) -> u8 {
        match self {
            StatusId::Unknown => 0,
            StatusId::Success => 1,
            StatusId::Failure => 2,
            StatusId::Other => 99,
        }
    }

    /// The label's characters.
    pub open spec fn name(self) -> Seq<char> {
        match self {
            StatusId::Unknown => "Unknown"@,
            StatusId::Success => "Success"@,
            StatusId::Failure => "Failure"@,
            StatusId::Other => "Other"@,
        }
    }

    /// The OCSF label.
    #[must_use]
    pub fn label(self) -> (label: &'static str)
        ensures
            label@ == self.name(),
    {
        match self {
            StatusId::Unknown => "Unknown",
            StatusId::Success => "Success",
            StatusId::Failure => "Failure",
            StatusId::Other => "Other",
        }
    }

    /// The OCSF id.
    #[must_use]
    pub fn as_u8(self) -> (id: u8)
        ensures
            id == self.id(),
    {
        match self {
            StatusId::Unknown => 0,
            StatusId::Success => 1,
            StatusId::Failure => 2,
            StatusId::Other => 99,
        }
    }
}

/// OCSF Entity Management \[3004\] activity.
#[derive(Debug, Clone, Copy, PartialEq, Eq, Hash, Structural)]
pub enum EntityActivityId {
    /// 0: Unknown
    Unknown,
    /// 1: Create
    Create,
    /// 2: Read
    Read,
    /// 3: Update
    Update,
    /// 4: Delete
    Delete,
    /// 99: Other
    Other,
}

impl EntityActivityId {
    /// The numeric id.
    pub open spec fn id(self) -> u8 {
        match self {
            EntityActivityId::Unknown => 0,
            EntityActivityId::Create => 1,
            EntityActivityId::Read => 2,
            EntityActivityId::Update => 3,
            EntityActivityId::Delete => 4,
            EntityActivityId::Other => 99,
        }
    }

    /// The label's characters.
    pub open spec fn name(self) -> Seq<char> {
        match self {
            EntityActivityId::Unknown => "Unknown"@,
            EntityActivityId::Create => "Create"@,
            EntityActivityId::Read => "Read"@,
            EntityActivityId::Update => "Update"@,
            EntityActivityId::Delete => "Delete"@,
            EntityActivityId::Other => "Other"@,
        }
    }

    /// The OCSF label.
    #[must_use]
    pub fn label(self) -> (label: &'static str)
        ensures
            label@ == self.name(),
    {
        match self {
            EntityActivityId::Unknown => "Unknown",
            EntityActivityId::Create => "Create",
            EntityActivityId::Read => "Read",
            EntityActivityId::Update => "Update",
            EntityActivityId::Delete => "Delete",
            EntityActivityId::Other => "Other",
        }
    }

    /// The OCSF id.
    #[must_use]
    pub fn as_u8(self) -> (id: u8)
        ensures
            id == self.id(),
    {
        match self {
            EntityActivityId::Unknown => 0,
            EntityActivityId::Create => 1,
            EntityActivityId::Read => 2,
            EntityActivityId::Update => 3,
            EntityActivityId::Delete => 4,
            EntityActivityId::Other => 99,
        }
    }
}

/// OCSF Authentication \[3002\] activity.
#[derive(Debug, Clone, Copy, PartialEq, Eq, Hash, Structural)]
pub enum AuthActivityId {
    /// 0: Unknown
    Unknown,
    /// 1: Logon
    Logon,
    /// 2: Logoff
    Logoff,
    /// 99: Other
    Other,
}

impl AuthActivityId {
    /// The numeric id.
    pub open spec fn id(self) -> u8 {
        match self {
            AuthActivityId::Unknown => 0,
            AuthActivityId::Logon => 1,
            AuthActivityId::Logoff => 2,
            AuthActivityId::Other => 99,
        }
    }

    /// The label's characters.
    pub open spec fn name(self) -> Seq<char> {
        match self {
            AuthActivityId::Unknown => "Unknown"@,
            AuthActivityId::Logon => "Logon"@,
            AuthActivityId::Logoff => "Logoff"@,
            AuthActivityId::Other => "Other"@,
        }
    }

    /// The OCSF label.
    #[must_use]
    pub fn label(self) -> (label: &'static str)
        ensures
            label@ == self.name(),
    {
        match self {
            AuthActivityId::Unknown => "Unknown",
            AuthActivityId::Logon => "Logon",
            AuthActivityId::Logoff => "Logoff",
            AuthActivityId::Other => "Other",
        }
    }

    /// The OCSF id.
    #[must_use]
    pub fn as_u8(self) -> (id: u8)
        ensures
            id == self.id(),
    {
        match self {
            AuthActivityId::Unknown => 0,
            AuthActivityId::Logon => 1,
            AuthActivityId::Logoff => 2,
            AuthActivityId::Other => 99,
        }
    }
}

/// OCSF authentication protocol.
#[derive(Debug, Clone, Copy, PartialEq, Eq, Hash, Structural)]
pub enum AuthProtocolId {
    /// 0: Unknown
    Unknown,
    /// 4: OpenID
    OpenId,
    /// 99: Other
    Other,
}

impl AuthProtocolId {
    /// The numeric id.
    pub open spec fn id(self) -> u8 {
        match self {
            AuthProtocolId::Unknown => 0,
            AuthProtocolId::OpenId => 4,
            AuthProtocolId::Other => 99,
        }
    }

    /// The label's characters.
    pub open spec fn name(self) -> Seq<char> {
        match self {
            AuthProtocolId::Unknown => "Unknown"@,
            AuthProtocolId::OpenId => "OpenID"@,
            AuthProtocolId::Other => "Other"@,
        }
    }

    /// The OCSF label.
    #[must_use]
    pub fn label(self) -> (label: &'static str)
        ensures
            label@ == self.name(),
    {
        match self {
            AuthProtocolId::Unknown => "Unknown",
            AuthProtocolId::OpenId => "OpenID",
            AuthProtocolId::Other => "Other",
        }
    }

    /// The OCSF id.
    #[must_use]
    pub fn as_u8(self) -> (id: u8)
        ensures
            id == self.id(),
    {
        match self {
            AuthProtocolId::Unknown => 0,
            AuthProtocolId::OpenId => 4,
            AuthProtocolId::Other => 99,
        }
    }
}

/// OCSF user type.
#[derive(Debug, Clone, Copy, PartialEq, Eq, Hash, Structural)]
pub enum UserTypeId {
    /// 0: Unknown
    Unknown,
    /// 1: User
    User,
    /// 2: Admin
    Admin,
    /// 3: System
    System,
    /// 99: Other
    Other,
}

impl UserTypeId {
    /// The numeric id.
    pub open spec fn id(self) -> u8 {
        match self {
            UserTypeId::Unknown => 0,
            UserTypeId::User => 1,
            UserTypeId::Admin => 2,
            UserTypeId::System => 3,
            UserTypeId::Other => 99,
        }
    }

    /// The label's characters.
    pub open spec fn name(self) -> Seq<char> {
        match self {
            UserTypeId::Unknown => "Unknown"@,
            UserTypeId::User => "User"@,
            UserTypeId::Admin => "Admin"@,
            UserTypeId::System => "System"@,
            UserTypeId::Other => "Other"@,
        }
    }

    /// The OCSF label.
    #[must_use]
    pub fn label(self) -> (label: &'static str)
        ensures
            label@ == self.name(),
    {
        match self {
            UserTypeId::Unknown => "Unknown",
            UserTypeId::User => "User",
            UserTypeId::Admin => "Admin",
            UserTypeId::System => "System",
            UserTypeId::Other => "Other",
        }
    }

    /// The OCSF id.
    #[must_use]
    pub fn as_u8(self) -> (id: u8)
        ensures
            id == self.id(),
    {
        match self {
            UserTypeId::Unknown => 0,
            UserTypeId::User => 1,
            UserTypeId::Admin => 2,
            UserTypeId::System => 3,
            UserTypeId::Other => 99,
        }
    }

    /// The type that an id denotes; an id outside the vocabulary is unknown.
    pub open spec fn of_id(id: u8) -> UserTypeId {
        match id {
            1 => UserTypeId::User,
            2 => UserTypeId::Admin,
            3 => UserTypeId::System,
            99 => UserTypeId::Other,
            _ => UserTypeId::Unknown,
        }
    }

    /// Read a type id; an id outside the vocabulary is unknown.
    #[must_use]
    pub fn from_u8(id: u8) -> (type_id: UserTypeId)
        ensures
            type_id == UserTypeId::of_id(id),
    {
        match id {
            1 => UserTypeId::User,
            2 => UserTypeId::Admin,
            3 => UserTypeId::System,
            99 => UserTypeId::Other,
            _ => UserTypeId::Unknown,
        }
    }
}

/// OCSF configuration state.
#[derive(Debug, Clone, Copy, PartialEq, Eq, Hash, Structural)]
pub enum StateId {
    /// 0: Unknown
    Unknown,
    /// 1: Disabled
    Disabled,
    /// 2: Enabled
    Enabled,
    /// 99: Other
    Other,
}

impl StateId {
    /// The numeric id.
    pub open spec fn id(self) -> u8 {
        match self {
            StateId::Unknown => 0,
            StateId::Disabled => 1,
            StateId::Enabled => 2,
            StateId::Other => 99,
        }
    }

    /// The label's characters.
    pub open spec fn name(self) -> Seq<char> {
        match self {
            StateId::Unknown => "Unknown"@,
            StateId::Disabled => "Disabled"@,
            StateId::Enabled => "Enabled"@,
            StateId::Other => "Other"@,
        }
    }

    /// The OCSF label.
    #[must_use]
    pub fn label(self) -> (label: &'static str)
        ensures
            label@ == self.name(),
    {
        match self {
            StateId::Unknown => "Unknown",
            StateId::Disabled => "Disabled",
            StateId::Enabled => "Enabled",
            StateId::Other => "Other",
        }
    }

    /// The OCSF id.
    #[must_use]
    pub fn as_u8(self) -> (id: u8)
        ensures
            id == self.id(),
    {
        match self {
            StateId::Unknown => 0,
            StateId::Disabled => 1,
            StateId::Enabled => 2,
            StateId::Other => 99,
        }
    }
}

/// A user type written as its id reads back as itself.
pub proof fn law_user_type_id_round_trips(type_id: UserTypeId)
    ensures
        UserTypeId::of_id(type_id.id()) == type_id,
{
}

} // verus!
