//! What the gateway reads of a gRPC request and of its outcome.

use crate::ocsf::document::text_of;
use crate::principal::{Principal, PrincipalView};
use vstd::prelude::*;

verus! {

/// The values attached to a request by the middleware before it.
#[verifier::external_type_specification]
#[verifier::external_body]
pub struct ExExtensions(tonic::Extensions);

/// The headers of a request.
#[verifier::external_type_specification]
#[verifier::external_body]
pub struct ExMetadataMap(tonic::metadata::MetadataMap);

/// What `tonic` reports for a header that is not visible ASCII.
#[verifier::external_type_specification]
#[verifier::external_body]
pub struct ExToStrError(tonic::metadata::errors::ToStrError);

/// The status of a failed request.
#[verifier::external_type_specification]
#[verifier::external_body]
pub struct ExStatus(tonic::Status);

/// The principal that a request's extensions hold.
pub uninterp spec fn principal_of(extensions: tonic::Extensions) -> Option<PrincipalView>;

/// The bytes that a request's headers hold under each name.
pub uninterp spec fn headers_of(metadata: tonic::metadata::MetadataMap) -> Map<Seq<char>, Seq<u8>>;

/// The number of the gRPC code that a status holds.
pub uninterp spec fn code_of(status: tonic::Status) -> i32;

/// The gRPC code of a caller that may not do what it asked.
pub const PERMISSION_DENIED: i32 = 7;

/// The gRPC code of a caller without valid credentials.
pub const UNAUTHENTICATED: i32 = 16;

/// The principal held by a request's extensions, from `Extensions::get`.
///
/// Trusted: the extensions hold at most one principal, and it is handed out as
/// it stands.
#[verifier::external_body]
fn held_principal(extensions: &tonic::Extensions) -> (held: Option<&Principal>)
    ensures
        match held {
            Some(principal) => principal_of(*extensions) == Some(principal@),
            None => principal_of(*extensions) is None,
        },
{
    extensions.get::<Principal>()
}

/// Whether a byte may stand in a header read as text: visible ASCII, a space
/// or a tab.
pub open spec fn visible(byte: u8) -> bool {
    32 <= byte < 127 || byte == 9
}

/// The text of a header, where all of its bytes may stand in one.
pub open spec fn header_string(bytes: Seq<u8>) -> Option<Seq<char>> {
    if forall|i: int| 0 <= i < bytes.len() ==> visible(#[trigger] bytes[i]) {
        Some(bytes.map_values(|byte: u8| byte as char))
    } else {
        None
    }
}

/// The text of the header under `name`, from `MetadataMap::get` and
/// `MetadataValue::to_str`.
///
/// Trusted: nothing comes back exactly where no header has the name; the text
/// is that of the header's bytes, and a byte that is neither visible ASCII nor
/// a space nor a tab makes it an error.
#[verifier::external_body]
fn header_text(metadata: &tonic::metadata::MetadataMap, name: &str) -> (text: Option<
    Result<String, tonic::metadata::errors::ToStrError>,
>)
    ensures
        match text {
            None => !headers_of(*metadata).contains_key(name@),
            Some(read) => {
                &&& headers_of(*metadata).contains_key(name@)
                &&& match read {
                    Ok(t) => header_string(headers_of(*metadata)[name@]) == Some(t@),
                    Err(_) => header_string(headers_of(*metadata)[name@]) is None,
                }
            },
        },
{
    metadata.get(name).map(|value| value.to_str().map(str::to_owned))
}

/// The number of a status's code, from `Status::code` and `From<Code>` for
/// `i32`.
///
/// Trusted: a status holds one code, and each code has the number that gRPC
/// gives it.
#[verifier::external_body]
fn code_number(status: &tonic::Status) -> (code: i32)
    ensures
        code == code_of(*status),
{
    i32::from(status.code())
}

/// The authenticated principal, for audit attribution.
///
/// A missing principal maps to [`Principal::Anonymous`] instead of failing: the
/// audit trail records the mutation honestly either way and must never change
/// handler behavior.
#[must_use]
pub fn principal(extensions: &tonic::Extensions) -> (principal: Principal)
    ensures
        principal@ == match principal_of(*extensions) {
            Some(held) => held,
            None => PrincipalView::Anonymous,
        },
{
    attributed(held_principal(extensions))
}

/// The principal that a request is attributed to, given the one it holds.
#[must_use]
pub fn attributed(held: Option<&Principal>) -> (principal: Principal)
    ensures
        principal@ == match held {
            Some(p) => p@,
            None => PrincipalView::Anonymous,
        },
{
    match held {
        Some(p) => p.clone(),
        None => Principal::Anonymous,
    }
}

/// The header that the request-id middleware stamps, or the client supplied.
pub const REQUEST_ID_HEADER: &'static str = "x-request-id";

/// The request's correlation id. Carried in `unmapped.request_id` to tie each
/// audit event to its request trace.
#[must_use]
pub fn request_id(metadata: &tonic::metadata::MetadataMap) -> (id: Option<String>)
    ensures
        text_of(id) == if headers_of(*metadata).contains_key(
            REQUEST_ID_HEADER@,
        ) {
            header_string(headers_of(*metadata)[REQUEST_ID_HEADER@])
        } else {
            None
        },
        id matches Some(text) ==> headers_of(*metadata).contains_key("x-request-id"@)
            && header_string(headers_of(*metadata)["x-request-id"@]) == Some(text@),
        id is None ==> !headers_of(*metadata).contains_key("x-request-id"@) || header_string(
            headers_of(*metadata)["x-request-id"@],
        ) is None,
{
    match header_text(metadata, REQUEST_ID_HEADER) {
        Some(Ok(text)) => Some(text),
        Some(Err(_)) => None,
        None => None,
    }
}

/// Whether a failure with this gRPC code belongs in the entity audit trail.
pub open spec fn audited_code(code: i32) -> bool {
    code != PERMISSION_DENIED && code != UNAUTHENTICATED
}

/// Whether a failed mutation outcome belongs in the entity audit trail.
///
/// Authentication and authorization rejections are excluded: those are the
/// authentication boundary's events (Authentication \[3002\] + findings), not
/// per-handler mutation attempts by an authorized principal.
#[must_use]
pub fn audited_failure(status: &tonic::Status) -> (audited: bool)
    ensures
        audited == audited_code(code_of(*status)),
        audited <==> code_of(*status) != 7 && code_of(*status) != 16,
{
    is_audited(code_number(status))
}

/// Whether a failure with this gRPC code belongs in the entity audit trail.
#[must_use]
pub fn is_audited(code: i32) -> (audited: bool)
    ensures
        audited == audited_code(code),
        audited <==> code != 7 && code != 16,
{
    code != PERMISSION_DENIED && code != UNAUTHENTICATED
}

} // verus!
