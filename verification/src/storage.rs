//! The per-application storage proxy.
//!
//! Each running application gets one storage session. A request runs as
//! a small state machine: the library decides — deny an unconfigured
//! application, choose whether the persistence target is wrapped in
//! encryption, bound the retry to two rounds, drop a failed link so it
//! is rebuilt — and the runtime performs each directed step (invoke the
//! remote operation, establish the link) and hands the outcome back as an
//! event. Whatever goes wrong, the application only ever sees an opaque
//! failure: no internal detail crosses the trust boundary.

use vstd::prelude::*;

use crate::manifest::{AppManifestEntryView, StorageParameters, StorageParametersView};
use crate::registry::{StateView, TeeApp, TrichechusState};

verus! {

/// Mathematical model of [`StorageOp`].
pub ghost enum StorageOpView {
    Read { id: Seq<char> },
    Write { id: Seq<char>, data: Seq<u8> },
}

/// The underlying persistence operation a request asks for.
pub enum StorageOp {
    /// Retrieve the record named `id`.
    Read { id: String },
    /// Persist `data` under the record named `id`.
    Write { id: String, data: Vec<u8> },
}

impl View for StorageOp {
    type V = StorageOpView;

    open spec fn view(&self) -> StorageOpView {
        match self {
            StorageOp::Read { id } => StorageOpView::Read { id: id@ },
            StorageOp::Write { id, data } => StorageOpView::Write { id: id@, data: data@ },
        }
    }
}

/// Where a storage request stands between two steps.
#[derive(Clone, Copy, PartialEq, Eq, Debug, Structural)]
pub enum FlowPhase {
    /// An invocation of the remote operation is outstanding.
    AwaitInvoke,
    /// An attempt to establish the persistence link is outstanding.
    AwaitEstablish,
    /// The request succeeded; its result went to the application.
    Done,
    /// The request failed; the application gets an opaque error.
    Failed,
}

/// What the runtime is to do next for a storage request.
#[derive(Clone, Copy, PartialEq, Eq, Debug, Structural)]
pub enum StorageDirective {
    /// Invoke the remote operation over the established link; when
    /// `encrypted` holds, first derive per-request key material and wrap
    /// the link in the encrypting adapter.
    Invoke { encrypted: bool },
    /// Establish the persistence link to the configured address.
    Establish,
    /// Hand the invocation's result to the application.
    Succeed,
    /// Hand the application an opaque failure.
    Fail,
}

/// The outcome the runtime reports for the step it performed.
#[derive(Clone, Copy, PartialEq, Eq, Debug, Structural)]
pub enum StorageEvent {
    /// The remote operation returned a result.
    InvokeOk,
    /// The remote operation failed at the transport.
    InvokeErr,
    /// The persistence link is established.
    EstablishOk,
    /// The persistence link could not be established.
    EstablishErr,
}

/// Mathematical model of [`StorageFlow`].
pub ghost struct StorageFlowView {
    pub params: StorageParametersView,
    pub op: StorageOpView,
    pub round: u8,
    pub phase: FlowPhase,
}

/// One storage request in flight: the application's storage parameters,
/// the requested operation, the retry round, and the phase.
pub struct StorageFlow {
    pub params: StorageParameters,
    pub op: StorageOp,
    pub round: u8,
    pub phase: FlowPhase,
}

impl View for StorageFlow {
    type V = StorageFlowView;

    open spec fn view(&self) -> StorageFlowView {
        StorageFlowView { params: self.params@, op: self.op@, round: self.round, phase: self.phase }
    }
}

/// Whether the persistence target of a request under these parameters is
/// wrapped in encryption: exactly when an encryption key version is
/// configured.
pub open spec fn spec_wrap_encrypts(params: StorageParametersView) -> bool {
    params.encryption_key_version is Some
}

/// Beginning a storage request. An application whose descriptor carries
/// no storage parameters is denied outright. Otherwise the first
/// directive invokes over an already-established link, or establishes
/// one first when none is present.
pub open spec fn spec_begin(link: bool, entry: AppManifestEntryView, op: StorageOpView) -> Result<
    (StorageFlowView, StorageDirective),
    (),
> {
    match entry.storage_parameters {
        None => Err(()),
        Some(params) => Ok(
            if link {
                (
                    StorageFlowView { params, op, round: 0, phase: FlowPhase::AwaitInvoke },
                    StorageDirective::Invoke { encrypted: spec_wrap_encrypts(params) },
                )
            } else {
                (
                    StorageFlowView { params, op, round: 0, phase: FlowPhase::AwaitEstablish },
                    StorageDirective::Establish,
                )
            },
        ),
    }
}

/// Which outcomes can answer which phase.
pub open spec fn spec_event_matches(phase: FlowPhase, event: StorageEvent) -> bool {
    match phase {
        FlowPhase::AwaitInvoke => event is InvokeOk || event is InvokeErr,
        FlowPhase::AwaitEstablish => event is EstablishOk || event is EstablishErr,
        FlowPhase::Done => false,
        FlowPhase::Failed => false,
    }
}

/// One step of a storage request, as a function of the link's presence,
/// the flow, and the outcome the runtime reported. Yields the link's
/// presence afterwards, the advanced flow, and the next directive.
///
/// A failed invocation drops the link so it is rebuilt, and is retried
/// after one re-establishment at most: a second failed invocation, or a
/// failed establishment, fails the whole request.
pub open spec fn spec_step(link: bool, flow: StorageFlowView, event: StorageEvent) -> (
    bool,
    StorageFlowView,
    StorageDirective,
)
    recommends
        spec_event_matches(flow.phase, event),
{
    match flow.phase {
        FlowPhase::AwaitInvoke => if event is InvokeOk {
            (link, StorageFlowView { phase: FlowPhase::Done, ..flow }, StorageDirective::Succeed)
        } else if flow.round >= 1 {
            (false, StorageFlowView { phase: FlowPhase::Failed, ..flow }, StorageDirective::Fail)
        } else {
            (
                false,
                StorageFlowView { phase: FlowPhase::AwaitEstablish, ..flow },
                StorageDirective::Establish,
            )
        },
        FlowPhase::AwaitEstablish => if event is EstablishOk {
            (
                true,
                StorageFlowView { round: 1, phase: FlowPhase::AwaitInvoke, ..flow },
                StorageDirective::Invoke { encrypted: spec_wrap_encrypts(flow.params) },
            )
        } else {
            (false, StorageFlowView { phase: FlowPhase::Failed, ..flow }, StorageDirective::Fail)
        },
        FlowPhase::Done => (link, flow, StorageDirective::Succeed),
        FlowPhase::Failed => (false, flow, StorageDirective::Fail),
    }
}

/// Begin a storage request for a running application.
pub fn begin_storage_request(state: &TrichechusState, app: &TeeApp, op: StorageOp) -> (r: Result<
    (StorageFlow, StorageDirective),
    (),
>)
    ensures
        match r {
            Ok(started) => spec_begin(state@.persistence, app@.app_info, op@) == Ok::<_, ()>(
                (started.0@, started.1),
            ),
            Err(denied) => spec_begin(state@.persistence, app@.app_info, op@) is Err,
        },
{
    let params = match &app.app_info.storage_parameters {
        Some(params) => params.clone(),
        None => {
            return Err(());
        },
    };
    if state.has_persistence() {
        let encrypted = params.encryption_key_version.is_some();
        let flow = StorageFlow { params, op, round: 0, phase: FlowPhase::AwaitInvoke };
        Ok((flow, StorageDirective::Invoke { encrypted }))
    } else {
        let flow = StorageFlow { params, op, round: 0, phase: FlowPhase::AwaitEstablish };
        Ok((flow, StorageDirective::Establish))
    }
}

/// Begin a read of the record named `id` for a running application.
pub fn read_data(state: &TrichechusState, app: &TeeApp, id: String) -> (r: Result<
    (StorageFlow, StorageDirective),
    (),
>)
    ensures
        match r {
            Ok(started) => spec_begin(
                state@.persistence,
                app@.app_info,
                StorageOpView::Read { id: id@ },
            ) == Ok::<_, ()>((started.0@, started.1)),
            Err(denied) => spec_begin(
                state@.persistence,
                app@.app_info,
                StorageOpView::Read { id: id@ },
            ) is Err,
        },
{
    begin_storage_request(state, app, StorageOp::Read { id })
}

/// Begin a write of `data` under the record named `id` for a running
/// application.
pub fn write_data(state: &TrichechusState, app: &TeeApp, id: String, data: Vec<u8>) -> (r: Result<
    (StorageFlow, StorageDirective),
    (),
>)
    ensures
        match r {
            Ok(started) => spec_begin(
                state@.persistence,
                app@.app_info,
                StorageOpView::Write { id: id@, data: data@ },
            ) == Ok::<_, ()>((started.0@, started.1)),
            Err(denied) => spec_begin(
                state@.persistence,
                app@.app_info,
                StorageOpView::Write { id: id@, data: data@ },
            ) is Err,
        },
{
    begin_storage_request(state, app, StorageOp::Write { id, data })
}

/// Advance a storage request by the outcome the runtime reported, keep
/// the registry's link flag in step, and yield the next directive.
pub fn storage_step(state: &mut TrichechusState, flow: &mut StorageFlow, event: StorageEvent) -> (d:
    StorageDirective)
    requires
        old(state).wf(),
        spec_event_matches(old(flow)@.phase, event),
    ensures
        final(state).wf(),
        ({
            let (link2, flow2, d2) = spec_step(old(state)@.persistence, old(flow)@, event);
            &&& final(state)@ == (StateView { persistence: link2, ..old(state)@ })
            &&& final(flow)@ == flow2
            &&& d == d2
        }),
{
    match flow.phase {
        FlowPhase::AwaitInvoke => match event {
            StorageEvent::InvokeOk => {
                flow.phase = FlowPhase::Done;
                StorageDirective::Succeed
            },
            _ => {
                state.drop_persistence();
                if flow.round >= 1 {
                    flow.phase = FlowPhase::Failed;
                    StorageDirective::Fail
                } else {
                    flow.phase = FlowPhase::AwaitEstablish;
                    StorageDirective::Establish
                }
            },
        },
        _ => match event {
            StorageEvent::EstablishOk => {
                state.set_persistence(true);
                flow.round = 1;
                flow.phase = FlowPhase::AwaitInvoke;
                StorageDirective::Invoke { encrypted: flow.params.encryption_key_version.is_some() }
            },
            _ => {
                state.set_persistence(false);
                flow.phase = FlowPhase::Failed;
                StorageDirective::Fail
            },
        },
    }
}

/// An application with no storage parameters always fails at once: the
/// request is denied before any persistence-link activity could even be
/// directed.
pub proof fn lemma_unconfigured_app_denied(
    link: bool,
    entry: AppManifestEntryView,
    op: StorageOpView,
)
    requires
        entry.storage_parameters is None,
    ensures
        spec_begin(link, entry, op) is Err,
{
}

/// When the storage parameters carry an encryption key version, the
/// first directive of a request is never an unwrapped invocation.
pub proof fn lemma_begin_applies_encryption(
    link: bool,
    entry: AppManifestEntryView,
    op: StorageOpView,
)
    requires
        entry.storage_parameters matches Some(params) && params.encryption_key_version is Some,
    ensures
        match spec_begin(link, entry, op) {
            Ok(started) => !(started.1 matches StorageDirective::Invoke { encrypted: false }),
            Err(denied) => true,
        },
{
}

/// When a flow's parameters carry an encryption key version, no step
/// ever directs an unwrapped invocation — and no step changes the
/// parameters, so this holds along the whole request.
pub proof fn lemma_step_applies_encryption(link: bool, flow: StorageFlowView, event: StorageEvent)
    requires
        flow.params.encryption_key_version is Some,
    ensures
        !(spec_step(link, flow, event).2 matches StorageDirective::Invoke { encrypted: false }),
        spec_step(link, flow, event).1.params == flow.params,
{
}

/// How many answered steps a flow can still take before it must reach a
/// terminal phase.
pub open spec fn spec_flow_bound(flow: StorageFlowView) -> nat {
    match flow.phase {
        FlowPhase::AwaitInvoke => if flow.round == 0 {
            3
        } else {
            1
        },
        FlowPhase::AwaitEstablish => 2,
        FlowPhase::Done => 0,
        FlowPhase::Failed => 0,
    }
}

/// Every answered step strictly shrinks the flow's bound, so a request
/// always ends — with a result or an opaque failure — after at most
/// three steps: one stale link self-heals through exactly one
/// re-establishment, and the retry can never storm.
pub proof fn lemma_retry_is_bounded(link: bool, flow: StorageFlowView, event: StorageEvent)
    requires
        spec_event_matches(flow.phase, event),
    ensures
        spec_flow_bound(spec_step(link, flow, event).1) < spec_flow_bound(flow),
{
}

/// Running a flow through a whole sequence of outcomes: the link flag
/// and the flow after every event has been stepped through.
pub open spec fn spec_run(link: bool, flow: StorageFlowView, events: Seq<StorageEvent>) -> (
    bool,
    StorageFlowView,
)
    decreases events.len(),
{
    if events.len() == 0 {
        (link, flow)
    } else {
        let stepped = spec_step(link, flow, events[0]);
        spec_run(stepped.0, stepped.1, events.drop_first())
    }
}

/// The directive issued at position `i` of a sequence of outcomes.
pub open spec fn spec_directive_at(
    link: bool,
    flow: StorageFlowView,
    events: Seq<StorageEvent>,
    i: int,
) -> StorageDirective
    recommends
        0 <= i < events.len(),
{
    let run = spec_run(link, flow, events.take(i));
    spec_step(run.0, run.1, events[i]).2
}

/// No step changes a flow's storage parameters, however long it runs.
pub proof fn lemma_run_preserves_params(link: bool, flow: StorageFlowView, events: Seq<
    StorageEvent,
>)
    ensures
        spec_run(link, flow, events).1.params == flow.params,
    decreases events.len(),
{
    if events.len() > 0 {
        let stepped = spec_step(link, flow, events[0]);
        lemma_run_preserves_params(stepped.0, stepped.1, events.drop_first());
    }
}

/// When the storage parameters carry an encryption key version, no
/// directive anywhere along any sequence of outcomes is an unwrapped
/// invocation: encryption is applied on every call.
pub proof fn lemma_encryption_applied_along_any_trace(
    link: bool,
    flow: StorageFlowView,
    events: Seq<StorageEvent>,
    i: int,
)
    requires
        flow.params.encryption_key_version is Some,
        0 <= i < events.len(),
    ensures
        !(spec_directive_at(link, flow, events, i) matches StorageDirective::Invoke {
            encrypted: false,
        }),
{
    lemma_run_preserves_params(link, flow, events.take(i));
    let run = spec_run(link, flow, events.take(i));
    lemma_step_applies_encryption(run.0, run.1, events[i]);
}

/// An invocation that fails once and succeeds after the link is
/// re-established succeeds overall: the directives run establish, then
/// invoke, then hand the application its result.
pub proof fn lemma_retry_after_reestablishment_succeeds(link: bool, flow: StorageFlowView)
    requires
        flow.phase is AwaitInvoke,
        flow.round == 0,
    ensures
        ({
            let (l1, f1, d1) = spec_step(link, flow, StorageEvent::InvokeErr);
            let (l2, f2, d2) = spec_step(l1, f1, StorageEvent::EstablishOk);
            let (l3, f3, d3) = spec_step(l2, f2, StorageEvent::InvokeOk);
            &&& d1 == StorageDirective::Establish
            &&& d2 matches StorageDirective::Invoke { encrypted: _ }
            &&& d3 == StorageDirective::Succeed
            &&& f3.phase is Done
            &&& l3
        }),
{
}

/// An invocation that fails twice in a row fails overall, and the link
/// is left absent afterwards, to be rebuilt by the next request.
pub proof fn lemma_double_failure_fails_and_leaves_link_absent(link: bool, flow: StorageFlowView)
    requires
        flow.phase is AwaitInvoke,
        flow.round == 0,
    ensures
        ({
            let (l1, f1, d1) = spec_step(link, flow, StorageEvent::InvokeErr);
            let (l2, f2, d2) = spec_step(l1, f1, StorageEvent::EstablishOk);
            let (l3, f3, d3) = spec_step(l2, f2, StorageEvent::InvokeErr);
            &&& d3 == StorageDirective::Fail
            &&& f3.phase is Failed
            &&& !l3
        }),
{
}

/// A request whose link cannot be re-established fails, and the link
/// stays absent.
pub proof fn lemma_establishment_failure_fails(link: bool, flow: StorageFlowView)
    requires
        flow.phase is AwaitEstablish,
    ensures
        ({
            let (l1, f1, d1) = spec_step(link, flow, StorageEvent::EstablishErr);
            d1 == StorageDirective::Fail && f1.phase is Failed && !l1
        }),
{
}

} // verus!
