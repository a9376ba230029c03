//! A TEE application life-cycle manager.
//!
//! This library is the logic of a manager for trusted applications running
//! inside an isolated execution environment: it correlates incoming
//! connections with prior reservations, plans the sandboxed launch of each
//! application, proxies per-application persistent-storage requests with a
//! bounded retry and optional encryption wrapping, and buffers diagnostic
//! log records for later retrieval over the control protocol.
//!
//! Everything that touches the outside world (sockets, process creation,
//! the remote persistence service, secret derivation) is driven by a thin
//! runtime around this library: the library decides, the runtime performs,
//! and hands the outcome back as a plain event.

use vstd::prelude::*;

pub mod assoc;
pub mod control;
pub mod endpoint;
pub mod launch;
pub mod manifest;
pub mod registry;
pub mod router;
pub mod storage;

verus! {

use crate::endpoint::Endpoint;

/// Why an operation of the manager failed.
#[derive(Debug)]
pub enum Error {
    /// The diagnostic-log bootstrap failed.
    InitSyslog,
    /// A pipe for the internal transport pair could not be opened.
    OpenPipe,
    /// A transport could not be created or connected.
    NewTransport,
    /// A connection arrived with an address family that carries no port.
    UnexpectedConnectionType(Endpoint),
    /// A fresh sandbox could not be created.
    NewSandbox,
    /// The sandboxed executable could not be started.
    RunSandbox,
    /// A request arrived that the addressed protocol does not define.
    UnexpectedRequest,
    /// The application catalog has no entry for this identifier.
    AppManifest(String),
    /// The requested sandbox kind is defined but intentionally unsupported.
    SandboxTypeNotImplemented(crate::manifest::AppManifestEntry),
}

} // verus!
