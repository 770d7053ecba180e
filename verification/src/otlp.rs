//! Decisions taken while the OTLP pipelines are set up.
//!
//! A pipeline that cannot be built is switched off, and what went wrong is kept
//! for the caller to report once there is a place to report it to.

use crate::ocsf::document::text_of;
use crate::text::same_text;
use vstd::prelude::*;

verus! {

/// How a collector is reached.
#[derive(Debug, Clone, Copy, PartialEq, Eq, Structural)]
pub enum Transport {
    Plain,
    Tls,
}

/// The scheme and the authority of a URI, where the text is one.
pub uninterp spec fn uri_of(text: Seq<char>) -> Option<(Option<Seq<char>>, Option<Seq<char>>)>;

/// The scheme and the authority of a URI, from `tonic::transport::Uri`'s
/// `FromStr`, `scheme_str` and `authority`.
///
/// Trusted: the text alone decides whether it is a URI and what its parts are.
#[verifier::external_body]
fn uri_parts(text: &str) -> (parts: Option<(Option<String>, Option<String>)>)
    ensures
        match parts {
            Some((scheme, authority)) => uri_of(text@) == Some(
                (text_of(scheme), text_of(authority)),
            ),
            None => uri_of(text@) is None,
        },
{
    let uri: tonic::transport::Uri = text.parse().ok()?;
    let scheme = uri.scheme_str().map(str::to_owned);
    let authority = uri.authority().map(|authority| authority.as_str().to_owned());
    Some((scheme, authority))
}

/// The transport of a URI's parts: a scheme of the web, and an authority to
/// connect to.
pub open spec fn transport_of(
    scheme: Option<Seq<char>>,
    authority: Option<Seq<char>>,
) -> Option<Transport> {
    match (scheme, authority) {
        (Some(name), Some(_)) => if name == "https"@ {
            Some(Transport::Tls)
        } else if name == "http"@ {
            Some(Transport::Plain)
        } else {
            None
        },
        _ => None,
    }
}

/// The transport of a URI's parts.
#[must_use]
pub fn transport_for(scheme: &Option<String>, authority: &Option<String>) -> (transport: Option<
    Transport,
>)
    ensures
        transport == transport_of(text_of(*scheme), text_of(*authority)),
{
    match (scheme, authority) {
        (Some(name), Some(_)) => {
            if same_text(name.as_str(), "https") {
                Some(Transport::Tls)
            } else if same_text(name.as_str(), "http") {
                Some(Transport::Plain)
            } else {
                None
            }
        },
        _ => None,
    }
}

/// How the collector at an endpoint is reached; nothing for a malformed
/// endpoint.
#[must_use]
pub fn endpoint_transport(endpoint: &str) -> (transport: Option<Transport>)
    ensures
        transport == match uri_of(endpoint@) {
            Some((scheme, authority)) => transport_of(scheme, authority),
            None => None,
        },
{
    match uri_parts(endpoint) {
        Some((scheme, authority)) => transport_for(&scheme, &authority),
        None => None,
    }
}

/// What of the gateway's logs leaves the box.
#[derive(Debug, Clone, Copy, PartialEq, Eq, Structural)]
pub struct OtlpConfig {
    /// Whether log lines are exported.
    pub export_logs: bool,
    /// Whether the structured fields of OCSF events leave the box.
    pub ocsf_full_payload: bool,
}

/// What is left of an optional pipeline: the pipeline itself where it was asked
/// for and could be built, and the error where it could not.
///
/// Setup failures disable export and are handed out for the caller to report.
#[must_use]
pub fn log_exporter_for<T, E>(built: Option<Result<T, E>>) -> (parts: (Option<T>, Option<E>))
    ensures
        parts == match built {
            None => (None::<T>, None::<E>),
            Some(Ok(pipeline)) => (Some(pipeline), None::<E>),
            Some(Err(error)) => (None::<T>, Some(error)),
        },
{
    match built {
        None => (None, None),
        Some(Ok(pipeline)) => (Some(pipeline), None),
        Some(Err(error)) => (None, Some(error)),
    }
}

/// The setup error to report. The trace error takes precedence, since both
/// signals share one endpoint.
#[must_use]
pub fn setup_error<E>(trace_error: Option<E>, log_error: Option<E>) -> (error: Option<E>)
    ensures
        error == match trace_error {
            Some(e) => Some(e),
            None => log_error,
        },
{
    match trace_error {
        Some(e) => Some(e),
        None => log_error,
    }
}

/// Whether the structured fields of OCSF events leave the box: only where a
/// configuration asks for it.
#[must_use]
pub fn ocsf_full_payload(config: Option<OtlpConfig>) -> (full: bool)
    ensures
        full == match config {
            Some(c) => c.ocsf_full_payload,
            None => false,
        },
{
    match config {
        Some(c) => c.ocsf_full_payload,
        None => false,
    }
}

/// Whether a log pipeline is asked for.
#[must_use]
pub fn wants_log_export(config: Option<OtlpConfig>) -> (wanted: bool)
    ensures
        wanted == match config {
            Some(c) => c.export_logs,
            None => false,
        },
{
    match config {
        Some(c) => c.export_logs,
        None => false,
    }
}

} // verus!
