//! The registry: the single mutable record of the manager.
//!
//! A [`TrichechusState`] holds the pending reservations, the running
//! applications, the buffered diagnostic log records, and the state of the
//! lazily established persistence link. All mutations are synchronous; the
//! single-threaded reactor around the library never interleaves them.

use vstd::prelude::*;

use crate::assoc::{assoc_map, distinct_keys};
use crate::endpoint::{Endpoint, CROS_CID, DEFAULT_CLIENT_PORT, DEFAULT_CRONISTA_PORT,
    DEFAULT_SERVER_PORT};
use crate::manifest::{AppManifest, AppManifestEntry, AppManifestEntryView};

verus! {

/// Mathematical model of [`TeeApp`].
pub ghost struct TeeAppView {
    pub app_info: AppManifestEntryView,
}

/// One running application instance. The process and sandbox handles live
/// with the runtime that actually spawned them; the registry keeps the
/// descriptor the instance was launched with.
pub struct TeeApp {
    pub app_info: AppManifestEntry,
}

impl View for TeeApp {
    type V = TeeAppView;

    open spec fn view(&self) -> TeeAppView {
        TeeAppView { app_info: self.app_info@ }
    }
}

/// Mathematical model of [`TrichechusState`].
pub ghost struct StateView {
    /// The port the broker's control connection must arrive from.
    pub expected_port: u32,
    /// Reservations not yet matched by an incoming connection.
    pub pending: Map<Endpoint, Seq<char>>,
    /// Applications already launched, by the endpoint that launched them.
    pub running: Map<Endpoint, TeeAppView>,
    /// Diagnostic log records, in arrival order, not yet drained.
    pub logs: Seq<Vec<u8>>,
    /// Where the persistence service is reached.
    pub persistence_uri: Endpoint,
    /// Whether a persistence link is currently established.
    pub persistence: bool,
    /// The application catalog.
    pub manifest: Seq<AppManifestEntryView>,
}

/// Appending one diagnostic record.
pub open spec fn spec_receive(s: StateView, data: Vec<u8>) -> StateView {
    StateView { logs: s.logs.push(data), ..s }
}

/// Draining the log buffer: everything buffered so far comes out, in
/// arrival order, and the buffer is empty afterwards.
pub open spec fn spec_drain_logs(s: StateView) -> (Seq<Vec<u8>>, StateView) {
    (s.logs, StateView { logs: Seq::<Vec<u8>>::empty(), ..s })
}

/// Appending a whole sequence of diagnostic records, one at a time.
pub open spec fn spec_receive_all(s: StateView, records: Seq<Vec<u8>>) -> StateView
    decreases records.len(),
{
    if records.len() == 0 {
        s
    } else {
        spec_receive(spec_receive_all(s, records.drop_last()), records.last())
    }
}

/// Receiving records one at a time appends them to the buffer in order.
pub proof fn lemma_receive_all_appends(s: StateView, records: Seq<Vec<u8>>)
    ensures
        spec_receive_all(s, records) == (StateView { logs: s.logs + records, ..s }),
    decreases records.len(),
{
    if records.len() == 0 {
        assert(s.logs + records =~= s.logs);
    } else {
        lemma_receive_all_appends(s, records.drop_last());
        assert(s.logs + records =~= (s.logs + records.drop_last()).push(records.last()));
    }
}

/// The single mutable record of all manager state.
pub struct TrichechusState {
    pub expected_port: u32,
    pub pending_apps: Vec<(Endpoint, String)>,
    pub running_apps: Vec<(Endpoint, TeeApp)>,
    pub log_queue: Vec<Vec<u8>>,
    pub persistence_uri: Endpoint,
    pub persistence: bool,
    pub app_manifest: AppManifest,
}

impl View for TrichechusState {
    type V = StateView;

    open spec fn view(&self) -> StateView {
        StateView {
            expected_port: self.expected_port,
            pending: assoc_map(self.pending_apps@),
            running: assoc_map(self.running_apps@),
            logs: self.log_queue@,
            persistence_uri: self.persistence_uri,
            persistence: self.persistence,
            manifest: self.app_manifest@,
        }
    }
}

impl TrichechusState {
    /// The representation invariant: each table binds an endpoint at most
    /// once, so the tables denote the maps of the view faithfully.
    pub open spec fn wf(&self) -> bool {
        &&& distinct_keys(self.pending_apps@)
        &&& distinct_keys(self.running_apps@)
    }

    /// A fresh registry over the given catalog: no reservations, no
    /// running applications, no buffered logs, no persistence link, and
    /// the default control port and persistence address.
    pub fn new(app_manifest: AppManifest) -> (r: TrichechusState)
        ensures
            r.wf(),
            r@ == (StateView {
                expected_port: DEFAULT_CLIENT_PORT,
                pending: Map::<Endpoint, Seq<char>>::empty(),
                running: Map::<Endpoint, TeeAppView>::empty(),
                logs: Seq::<Vec<u8>>::empty(),
                persistence_uri: Endpoint::VsockConnection {
                    cid: CROS_CID,
                    port: DEFAULT_CRONISTA_PORT,
                },
                persistence: false,
                manifest: app_manifest@,
            }),
    {
        let r = TrichechusState {
            expected_port: DEFAULT_CLIENT_PORT,
            pending_apps: Vec::new(),
            running_apps: Vec::new(),
            log_queue: Vec::new(),
            persistence_uri: Endpoint::VsockConnection {
                cid: CROS_CID,
                port: DEFAULT_CRONISTA_PORT,
            },
            persistence: false,
            app_manifest,
        };
        proof {
            assert(r.pending_apps@ =~= Seq::<(Endpoint, String)>::empty());
            assert(r.running_apps@ =~= Seq::<(Endpoint, TeeApp)>::empty());
            assert(r@.logs =~= Seq::<Vec<u8>>::empty());
        }
        r
    }

    /// Append one diagnostic record to the log buffer.
    pub fn receive(&mut self, data: Vec<u8>)
        ensures
            final(self)@ == spec_receive(old(self)@, data),
            final(self).wf() == old(self).wf(),
    {
        self.log_queue.push(data);
    }

    /// Swap the log buffer for an empty one and hand the previous contents
    /// back, in arrival order. No record is lost or duplicated: what comes
    /// out is exactly what was buffered, and the buffer is empty after.
    pub fn drain_logs(&mut self) -> (r: Vec<Vec<u8>>)
        ensures
            (r@, final(self)@) == spec_drain_logs(old(self)@),
            final(self).wf() == old(self).wf(),
    {
        let mut replacement: Vec<Vec<u8>> = Vec::new();
        core::mem::swap(&mut self.log_queue, &mut replacement);
        proof {
            assert(self.log_queue@ =~= Seq::<Vec<u8>>::empty());
        }
        replacement
    }

    /// Whether a persistence link is currently established.
    pub fn has_persistence(&self) -> (r: bool)
        ensures
            r == self@.persistence,
    {
        self.persistence
    }

    /// Unconditionally drop the persistence link, so that the next use
    /// re-establishes it.
    pub fn drop_persistence(&mut self)
        ensures
            final(self)@ == (StateView { persistence: false, ..old(self)@ }),
            final(self).wf() == old(self).wf(),
    {
        self.persistence = false;
    }

    /// Record the outcome of the runtime's attempt to establish a link to
    /// the persistence service: present on success, absent on failure.
    pub fn set_persistence(&mut self, established: bool)
        ensures
            final(self)@ == (StateView { persistence: established, ..old(self)@ }),
            final(self).wf() == old(self).wf(),
    {
        self.persistence = established;
    }

    /// Point the persistence link at another address; the link itself is
    /// dropped so the next use connects to the new address.
    pub fn set_persistence_uri(&mut self, uri: Endpoint)
        ensures
            final(self)@ == (StateView { persistence_uri: uri, persistence: false, ..old(self)@ }),
            final(self).wf() == old(self).wf(),
    {
        self.persistence_uri = uri;
        self.persistence = false;
    }

    /// Adjust the expected control port after the listener bound: when it
    /// bound to anything but the default server port, the broker's control
    /// connection is expected one port above the bound one.
    pub fn adjust_expected_port(&mut self, bound_port: u32)
        requires
            bound_port < u32::MAX,
        ensures
            final(self)@ == if bound_port == DEFAULT_SERVER_PORT {
                old(self)@
            } else {
                StateView { expected_port: (bound_port + 1) as u32, ..old(self)@ }
            },
            final(self).wf() == old(self).wf(),
    {
        if bound_port != DEFAULT_SERVER_PORT {
            self.expected_port = bound_port + 1;
        }
    }
}

} // verus!
