//! Authenticated principals.

use crate::ocsf::document::{text_of, texts_of};
use vstd::prelude::*;
use vstd::string::*;

verus! {

/// Which mechanism vouches for a user identity.
#[derive(Debug, Clone, Copy, PartialEq, Eq, Structural)]
pub enum IdentityProvider {
    Oidc,
    Mtls,
    LocalDev,
}

/// A user identity as its provider asserts it.
#[derive(Debug)]
pub struct Identity {
    /// OIDC `sub` or certificate CN.
    pub subject: String,
    pub display_name: Option<String>,
    pub roles: Vec<String>,
    pub scopes: Vec<String>,
    pub provider: IdentityProvider,
}

/// The contents of an [`Identity`].
pub struct IdentityView {
    pub subject: Seq<char>,
    pub display_name: Option<Seq<char>>,
    pub roles: Seq<Seq<char>>,
    pub scopes: Seq<Seq<char>>,
    pub provider: IdentityProvider,
}

impl View for Identity {
    type V = IdentityView;

    open spec fn view(&self) -> IdentityView {
        IdentityView {
            subject: self.subject@,
            display_name: text_of(self.display_name),
            roles: texts_of(self.roles@),
            scopes: texts_of(self.scopes@),
            provider: self.provider,
        }
    }
}

/// A copy of an optional text.
pub(crate) fn copy_text(text: &Option<String>) -> (copy: Option<String>)
    ensures
        text_of(copy) == text_of(*text),
{
    match text {
        Some(t) => Some(t.clone()),
        None => None,
    }
}

/// A copy of a list of texts.
fn copy_texts(texts: &Vec<String>) -> (copy: Vec<String>)
    ensures
        texts_of(copy@) == texts_of(texts@),
{
    let mut copy: Vec<String> = Vec::new();
    let mut i: usize = 0;
    while i < texts.len()
        invariant
            i <= texts@.len(),
            texts_of(copy@) =~= texts_of(texts@).take(i as int),
        decreases texts@.len() - i,
    {
        copy.push(texts[i].clone());
        proof {
            assert(texts_of(texts@).take(i + 1) =~= texts_of(texts@).take(i as int).push(
                texts@[i as int]@,
            ));
        }
        i = i + 1;
    }
    proof {
        assert(texts_of(texts@).take(i as int) =~= texts_of(texts@));
    }
    copy
}

impl Clone for Identity {
    fn clone(&self) -> (copy: Self)
        ensures
            copy@ == self@,
    {
        Identity {
            subject: self.subject.clone(),
            display_name: copy_text(&self.display_name),
            roles: copy_texts(&self.roles),
            scopes: copy_texts(&self.scopes),
            provider: self.provider,
        }
    }
}

/// A human or machine user.
#[derive(Debug)]
pub struct UserPrincipal {
    pub identity: Identity,
}

/// How a sandbox proved which sandbox it is.
#[derive(Debug)]
pub enum SandboxIdentitySource {
    BootstrapJwt { issuer: String },
}

/// A sandbox acting under its own identity.
#[derive(Debug)]
pub struct SandboxPrincipal {
    pub sandbox_id: String,
    pub source: SandboxIdentitySource,
    pub trust_domain: Option<String>,
}

/// Who a request acts for.
#[derive(Debug)]
pub enum Principal {
    User(UserPrincipal),
    Sandbox(SandboxPrincipal),
    Anonymous,
}

/// The contents of a [`Principal`].
pub enum PrincipalView {
    User(IdentityView),
    Sandbox { sandbox_id: Seq<char>, issuer: Seq<char>, trust_domain: Option<Seq<char>> },
    Anonymous,
}

impl View for Principal {
    type V = PrincipalView;

    open spec fn view(&self) -> PrincipalView {
        match *self {
            Principal::User(user) => PrincipalView::User(user.identity@),
            Principal::Sandbox(sandbox) => PrincipalView::Sandbox {
                sandbox_id: sandbox.sandbox_id@,
                issuer: match sandbox.source {
                    SandboxIdentitySource::BootstrapJwt { issuer } => issuer@,
                },
                trust_domain: text_of(sandbox.trust_domain),
            },
            Principal::Anonymous => PrincipalView::Anonymous,
        }
    }
}

impl Clone for Principal {
    fn clone(&self) -> (copy: Self)
        ensures
            copy@ == self@,
    {
        match self {
            Principal::User(user) => Principal::User(
                UserPrincipal { identity: user.identity.clone() },
            ),
            Principal::Sandbox(sandbox) => Principal::Sandbox(
                SandboxPrincipal {
                    sandbox_id: sandbox.sandbox_id.clone(),
                    source: match &sandbox.source {
                        SandboxIdentitySource::BootstrapJwt { issuer } => {
                            SandboxIdentitySource::BootstrapJwt { issuer: issuer.clone() }
                        },
                    },
                    trust_domain: copy_text(&sandbox.trust_domain),
                },
            ),
            Principal::Anonymous => Principal::Anonymous,
        }
    }
}

} // verus!
