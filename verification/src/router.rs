//! The incoming-connection router.
//!
//! Every new connection is classified in strict priority order: a pending
//! reservation matching its endpoint is consumed and the reserved
//! application is launched; failing that, a connection from the expected
//! control port becomes a control session; everything else is dropped —
//! default deny, no implicit trust of arbitrary connections.

use vstd::prelude::*;

use crate::assoc::assoc_insert;
use crate::assoc::assoc_remove;
use crate::endpoint::Endpoint;
use crate::registry::{StateView, TeeApp, TeeAppView, TrichechusState};

verus! {

/// Mathematical model of [`RouteDecision`].
pub ghost enum RouteModel {
    Launch(Seq<char>),
    Control,
    Deny,
}

/// What the router decided for one incoming connection.
pub enum RouteDecision {
    /// The connection consumed a reservation: launch this application and
    /// bind a storage session to it.
    LaunchApp { app_id: String },
    /// The connection came from the expected control port: bind a control
    /// session.
    ControlConnection,
    /// Neither a reservation nor the control port: drop the connection
    /// without registering it for any protocol.
    DropConnection,
}

impl View for RouteDecision {
    type V = RouteModel;

    open spec fn view(&self) -> RouteModel {
        match self {
            RouteDecision::LaunchApp { app_id } => RouteModel::Launch(app_id@),
            RouteDecision::ControlConnection => RouteModel::Control,
            RouteDecision::DropConnection => RouteModel::Deny,
        }
    }
}

/// Routing one incoming connection: a pending reservation for the
/// connection's endpoint is consumed — removed from the pending table no
/// matter what becomes of the launch — and wins over the control-port
/// check; otherwise the registry is left untouched and the connection is
/// either a control session or denied.
pub open spec fn spec_route(s: StateView, e: Endpoint) -> (StateView, RouteModel) {
    if s.pending.contains_key(e) {
        (StateView { pending: s.pending.remove(e), ..s }, RouteModel::Launch(s.pending[e]))
    } else if e.spec_port() == Some(s.expected_port) {
        (s, RouteModel::Control)
    } else {
        (s, RouteModel::Deny)
    }
}

/// Classify one incoming connection and consume its reservation, if any.
pub fn handle_incoming_connection(state: &mut TrichechusState, connection_id: Endpoint) -> (d:
    RouteDecision)
    requires
        old(state).wf(),
    ensures
        final(state).wf(),
        (final(state)@, d@) == spec_route(old(state)@, connection_id),
{
    let reservation = assoc_remove(&mut state.pending_apps, connection_id);
    match reservation {
        Some(app_id) => RouteDecision::LaunchApp { app_id },
        None => match connection_id.get_port() {
            Ok(port) => {
                if port == state.expected_port {
                    RouteDecision::ControlConnection
                } else {
                    RouteDecision::DropConnection
                }
            },
            Err(_) => RouteDecision::DropConnection,
        },
    }
}

/// Record a successfully launched application in the running table,
/// under the endpoint whose reservation launched it.
pub fn register_running_app(state: &mut TrichechusState, connection_id: Endpoint, app: TeeApp)
    requires
        old(state).wf(),
    ensures
        final(state).wf(),
        final(state)@ == (StateView {
            running: old(state)@.running.insert(connection_id, app@),
            ..old(state)@
        }),
{
    assoc_insert(&mut state.running_apps, connection_id, app);
}

/// Reserving a session and then receiving a connection at exactly the
/// reserved endpoint consumes that one reservation: the router decides to
/// launch the reserved application, and the reservation is gone from the
/// pending table afterwards — even if the launch subsequently fails,
/// since nothing after the routing decision ever re-inserts it.
pub proof fn lemma_reservation_consumed_exactly_once(
    s: StateView,
    session: Endpoint,
    info: crate::control::AppInfoView,
)
    requires
        session.spec_addressable(),
    ensures
        ({
            let s1 = crate::control::spec_start_session(s, session, info);
            let e = session.spec_with_port(info.port_number);
            let (s2, d) = spec_route(s1, e);
            &&& d == RouteModel::Launch(info.app_id)
            &&& !s2.pending.contains_key(e)
            &&& s2 == (StateView { pending: s1.pending.remove(e), ..s1 })
        }),
{
}

/// A reservation match always takes precedence: a connection whose
/// endpoint is reserved launches the reserved application, whatever port
/// it came from — even the expected control port.
pub proof fn lemma_reservation_takes_precedence(s: StateView, e: Endpoint)
    requires
        s.pending.contains_key(e),
    ensures
        spec_route(s, e).1 == RouteModel::Launch(s.pending[e]),
{
}

/// A connection matching neither a pending reservation nor the expected
/// control port is denied, and the registry is left exactly as it was:
/// the connection is registered for no protocol at all.
pub proof fn lemma_default_deny(s: StateView, e: Endpoint)
    requires
        !s.pending.contains_key(e),
        e.spec_port() != Some(s.expected_port),
    ensures
        spec_route(s, e) == (s, RouteModel::Deny),
{
}

} // verus!
