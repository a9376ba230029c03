//! Connection endpoints.
//!
//! An [`Endpoint`] is the comparable identifier of a connection's address.
//! It is the key that correlates a reservation made over the control
//! protocol with the physical connection that later arrives.

use vstd::prelude::*;

verus! {

/// The largest value a sixteen-bit port can hold, plus one.
pub const IP_PORT_MODULUS: u32 = 0x10000;

/// The port the manager's own listener binds to by default.
pub const DEFAULT_SERVER_PORT: u32 = 5552;

/// The port the broker's control connection is expected to arrive from
/// unless the listener was rebound at startup.
pub const DEFAULT_CLIENT_PORT: u32 = 5553;

/// The port of the remote persistence service.
pub const DEFAULT_CRONISTA_PORT: u32 = 5554;

/// The virtual-socket context identifier of the host.
pub const CROS_CID: u32 = 3;

/// The address of one side of a connection.
///
/// An internet address carries a sixteen-bit port; a virtual-socket address
/// carries a context identifier and a thirty-two-bit port; a pipe carries
/// no port at all, so it can never be addressed by a reservation.
#[derive(Clone, Copy, PartialEq, Eq, Hash, Debug, Structural)]
#[allow(inconsistent_fields)]
pub enum Endpoint {
    IpConnection { host: u32, port: u16 },
    VsockConnection { cid: u32, port: u32 },
    PipeConnection { id: u64 },
}

impl Endpoint {
    /// The port of this endpoint, if its address family has one.
    pub open spec fn spec_port(self) -> Option<u32> {
        match self {
            Endpoint::IpConnection { host: _, port } => Some(port as u32),
            Endpoint::VsockConnection { cid: _, port } => Some(port),
            Endpoint::PipeConnection { id: _ } => None,
        }
    }

    /// Whether a reservation can name this address family at all: only
    /// families that carry a port can be combined with a port number.
    pub open spec fn spec_addressable(self) -> bool {
        !(self is PipeConnection)
    }

    /// The endpoint obtained by keeping this endpoint's address family and
    /// host but substituting the given port. An internet address keeps only
    /// the low sixteen bits of the port, as its field does.
    pub open spec fn spec_with_port(self, port: u32) -> Endpoint
        recommends
            self.spec_addressable(),
    {
        match self {
            Endpoint::IpConnection { host, port: _ } => Endpoint::IpConnection {
                host,
                port: (port % IP_PORT_MODULUS) as u16,
            },
            Endpoint::VsockConnection { cid, port: _ } => Endpoint::VsockConnection { cid, port },
            Endpoint::PipeConnection { id } => Endpoint::PipeConnection { id },
        }
    }

    /// The port of this endpoint, or an error for a family without one.
    pub fn get_port(&self) -> (r: Result<u32, crate::Error>)
        ensures
            match r {
                Ok(p) => self.spec_port() == Some(p),
                Err(_) => self.spec_port() is None,
            },
    {
        match self {
            Endpoint::IpConnection { host: _, port } => Ok(*port as u32),
            Endpoint::VsockConnection { cid: _, port } => Ok(*port),
            Endpoint::PipeConnection { id: _ } => Err(
                crate::Error::UnexpectedConnectionType(*self),
            ),
        }
    }

    /// Substitute the given port into this endpoint's own address family.
    pub fn with_port(&self, port: u32) -> (r: Endpoint)
        requires
            self.spec_addressable(),
        ensures
            r == self.spec_with_port(port),
    {
        match self {
            Endpoint::IpConnection { host, port: _ } => Endpoint::IpConnection {
                host: *host,
                port: (port % IP_PORT_MODULUS) as u16,
            },
            Endpoint::VsockConnection { cid, port: _ } => Endpoint::VsockConnection {
                cid: *cid,
                port,
            },
            Endpoint::PipeConnection { id } => Endpoint::PipeConnection { id: *id },
        }
    }
}

} // verus!
