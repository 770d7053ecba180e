//! Telemetry of the OpenShell gateway.
//!
//! Every log line the gateway observes, its own and those its sandboxes push,
//! crosses one bus. The bus serves live watchers and a replayable tail per
//! sandbox, and feeds an export pipeline that accounts for whatever it has to
//! drop. Governance and authentication outcomes enter the same bus as OCSF audit
//! events.
//!
//! - [`audit`] turns outcomes into audit events and says where they belong;
//!   [`audit_trail`] says what becomes of them. [`principal`] and [`request`]
//!   are what they read of a request.
//! - [`ocsf`] holds the events themselves: their objects, builders, documents,
//!   one-line and flattened forms, and how documents are read back.
//! - [`tracing_bus`] is the bus, over the per-sandbox [`streams`].
//! - [`log_record`] is what a line becomes when it leaves the box; [`log_export`]
//!   is the queue it leaves through and the ledger of what was dropped;
//!   [`export_worker`] decides when to export, retry, give up and stop.
//! - [`otlp`] holds the decisions of setup.
//! - [`record_laws`], [`audit_laws`], [`bus_laws`], [`export_laws`],
//!   [`text_laws`] and [`view_laws`] say what all of this is for, in the terms of
//!   [`phrases`].
//! - [`json`], [`written`] and [`channel`] are the edges to `serde_json` and `tokio`;
//!   [`text`] and [`string_map`] are the ground everything else stands on.

pub mod audit;
pub mod audit_laws;
pub mod audit_trail;
pub mod bus_laws;
pub mod channel;
pub mod export_laws;
pub mod export_worker;
pub mod json;
pub mod log_export;
pub mod log_line;
pub mod log_record;
pub mod ocsf;
pub mod otlp;
pub mod phrases;
pub mod principal;
pub mod record_laws;
pub mod request;
pub mod streams;
pub mod string_map;
pub mod text;
pub mod text_laws;
pub mod tracing_bus;
pub mod view_laws;
pub mod written;
