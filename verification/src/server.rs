//! Serving-mode selection for the connection acceptor.
//!
//! The acceptor binds one listening socket and serves it in one of two
//! modes, chosen once at startup: plain HTTP, or TLS with automatic
//! certificate management.  TLS is used exactly when the process is
//! configured for production and bound to the standard HTTPS port.

use vstd::prelude::*;

use core::convert::Infallible;

use crate::hello::ConnectionClass;
use crate::hello::HelloError;
use crate::hello::classify_alpn;
use crate::hello::parse_client_hello;
use crate::hello::spec_is_probe;
use crate::hello::spec_parse_hello;

verus! {

/// How the acceptor treats every connection on its socket.
#[derive(Clone, Copy, Debug, PartialEq, Eq, Structural)]
pub enum ServingMode {
    /// Hand every connection directly to the request pipeline, unencrypted.
    Plain,
    /// Classify and terminate TLS before the request pipeline sees bytes.
    Encrypted,
}

/// The standard HTTPS port; TLS serving is only selected on this port.
pub const HTTPS_PORT: u16 = 443;

/// Chooses the serving mode from the startup configuration: encrypted
/// exactly when running in production on the standard HTTPS port.
pub fn serving_mode(production: bool, port: u16) -> (mode: ServingMode)
    ensures
        mode == ServingMode::Encrypted <==> (production && port == HTTPS_PORT),
{
    if production && port == HTTPS_PORT {
        ServingMode::Encrypted
    } else {
        ServingMode::Plain
    }
}

/// Unwraps a result whose error type has no values, so it can only be `Ok`.
pub fn unwrap_infallible<T>(result: Result<T, Infallible>) -> (r: T)
    requires
        result is Ok,
    ensures
        result == Ok::<T, Infallible>(r),
{
    match result {
        Ok(value) => value,
        Err(_) => vstd::pervasive::unreached(),
    }
}

/// What the acceptor does with one accepted connection.
#[derive(Debug, Clone, Copy, PartialEq, Eq, Structural)]
pub enum ConnectionPlan {
    /// Plain mode: hand the raw connection to the request pipeline with
    /// no TLS negotiation at all.
    ServePlain,
    /// Encrypted mode: complete the TLS handshake with the bundle the
    /// class selects.
    Terminate {
        /// Probe or ordinary traffic.
        class: ConnectionClass,
    },
    /// Drop the connection; the error is logged and no other connection
    /// or the accept loop is affected.
    Reject {
        /// Why the peeked bytes were rejected.
        error: HelloError,
    },
}

/// The plan for a connection: plain mode always serves directly; in
/// encrypted mode the peeked ClientHello decides, and a peek error drops
/// just this connection.
pub open spec fn spec_plan(mode: ServingMode, b: Seq<u8>) -> ConnectionPlan {
    if mode == ServingMode::Plain {
        ConnectionPlan::ServePlain
    } else {
        match spec_parse_hello(b) {
            Ok(h) => ConnectionPlan::Terminate {
                class: if spec_is_probe(h.0) {
                    ConnectionClass::Probe
                } else {
                    ConnectionClass::Ordinary
                },
            },
            Err(e) => ConnectionPlan::Reject { error: e },
        }
    }
}

/// Whether a planned connection's bytes ever reach the request pipeline:
/// plain connections and ordinary terminated traffic do; validation
/// probes end with the handshake, and rejected connections are dropped.
pub open spec fn spec_reaches_pipeline(p: ConnectionPlan) -> bool {
    match p {
        ConnectionPlan::ServePlain => true,
        ConnectionPlan::Terminate { class } => class == ConnectionClass::Ordinary,
        ConnectionPlan::Reject { .. } => false,
    }
}

/// Plans one accepted connection from the serving mode and the peeked
/// initial bytes.
pub fn plan_connection(mode: ServingMode, peeked: &[u8]) -> (r: ConnectionPlan)
    ensures
        r == spec_plan(mode, peeked@),
{
    if matches!(mode, ServingMode::Plain) {
        return ConnectionPlan::ServePlain;
    }
    match parse_client_hello(peeked) {
        Ok(summary) => ConnectionPlan::Terminate { class: classify_alpn(&summary.alpn) },
        Err(e) => ConnectionPlan::Reject { error: e },
    }
}

/// Whether a planned connection's bytes reach the request pipeline.
pub fn reaches_pipeline(p: &ConnectionPlan) -> (r: bool)
    ensures
        r == spec_reaches_pipeline(*p),
{
    match p {
        ConnectionPlan::ServePlain => true,
        ConnectionPlan::Terminate { class } => matches!(class, ConnectionClass::Ordinary),
        ConnectionPlan::Reject { .. } => false,
    }
}

} // verus!
