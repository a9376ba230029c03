//! The broker-facing control protocol.
//!
//! One [`TrichechusServerImpl`] serves one control session. It lets the
//! broker reserve a session for an application before that application's
//! connection exists, and drain the buffered diagnostic log records.

use vstd::prelude::*;

use crate::assoc::assoc_insert;
use crate::endpoint::Endpoint;
use crate::registry::{spec_drain_logs, spec_receive_all, lemma_receive_all_appends, StateView,
    TrichechusState};

verus! {

/// Mathematical model of [`AppInfo`].
pub ghost struct AppInfoView {
    pub app_id: Seq<char>,
    pub port_number: u32,
}

/// A broker's request to reserve a session: which application, and on
/// which port its connection will later arrive.
pub struct AppInfo {
    pub app_id: String,
    pub port_number: u32,
}

impl View for AppInfo {
    type V = AppInfoView;

    open spec fn view(&self) -> AppInfoView {
        AppInfoView { app_id: self.app_id@, port_number: self.port_number }
    }
}

/// Reserving a session: the reservation's endpoint combines the control
/// session's own address family with the requested port, and the pending
/// table maps that endpoint to the application identifier.
pub open spec fn spec_start_session(s: StateView, session: Endpoint, info: AppInfoView) -> StateView {
    StateView {
        pending: s.pending.insert(session.spec_with_port(info.port_number), info.app_id),
        ..s
    }
}

/// The handler bound to one control session.
pub struct TrichechusServerImpl {
    /// The address the control session itself arrived from; reservations
    /// inherit its address family.
    pub transport_type: Endpoint,
}

impl TrichechusServerImpl {
    /// Bind a handler to the address of a just-accepted control session.
    pub fn new(transport_type: Endpoint) -> (r: TrichechusServerImpl)
        ensures
            r.transport_type == transport_type,
    {
        TrichechusServerImpl { transport_type }
    }

    /// The endpoint a reservation made over this session names: this
    /// session's own address family carrying the given port.
    pub fn port_to_transport_type(&self, port: u32) -> (r: Endpoint)
        requires
            self.transport_type.spec_addressable(),
        ensures
            r == self.transport_type.spec_with_port(port),
    {
        self.transport_type.with_port(port)
    }

    /// Insert a pending reservation. Always succeeds from the broker's
    /// point of view: the identifier is not validated against the catalog
    /// here, and the application is only started when its connection
    /// later arrives at the router.
    pub fn start_session(&self, state: &mut TrichechusState, app_info: AppInfo) -> (r: Result<
        (),
        (),
    >)
        requires
            old(state).wf(),
            self.transport_type.spec_addressable(),
        ensures
            final(state).wf(),
            r is Ok,
            final(state)@ == spec_start_session(old(state)@, self.transport_type, app_info@),
    {
        let endpoint = self.port_to_transport_type(app_info.port_number);
        assoc_insert(&mut state.pending_apps, endpoint, app_info.app_id);
        Ok(())
    }

    /// Drain the diagnostic log buffer and hand its records to the
    /// broker, in arrival order.
    pub fn get_logs(&self, state: &mut TrichechusState) -> (r: Result<Vec<Vec<u8>>, ()>)
        requires
            old(state).wf(),
        ensures
            final(state).wf(),
            match r {
                Ok(logs) => (logs@, final(state)@) == spec_drain_logs(old(state)@),
                Err(_) => false,
            },
    {
        Ok(state.drain_logs())
    }
}

/// Draining twice in a row, with nothing received in between, yields an
/// empty list the second time, and leaves the buffer empty.
pub proof fn lemma_drain_twice_empty(s: StateView)
    ensures
        ({
            let (first, s1) = spec_drain_logs(s);
            let (second, s2) = spec_drain_logs(s1);
            second == Seq::<Vec<u8>>::empty() && s2.logs == Seq::<Vec<u8>>::empty()
        }),
{
}

/// Records received between two drains come out of the second drain
/// exactly: in arrival order, none lost, none duplicated, and none left
/// behind for a later drain.
pub proof fn lemma_drain_delivers_each_record_once(s: StateView, records: Seq<Vec<u8>>)
    ensures
        ({
            let (first, s1) = spec_drain_logs(s);
            let s2 = spec_receive_all(s1, records);
            let (second, s3) = spec_drain_logs(s2);
            second == records && s3.logs == Seq::<Vec<u8>>::empty()
        }),
{
    let (first, s1) = spec_drain_logs(s);
    lemma_receive_all_appends(s1, records);
    assert(s1.logs + records =~= records);
}

} // verus!
