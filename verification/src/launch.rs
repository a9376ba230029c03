//! Planning the sandboxed launch of an application.
//!
//! Launching is split in two: this module decides — it looks the
//! application up in the catalog, rejects unsupported sandbox kinds, and
//! lays out the five fixed descriptor slots of the executable ABI — and
//! the runtime then creates the sandbox and starts the process from the
//! resulting [`LaunchPlan`]. A failed plan aborts only the one connection
//! attempt; the registry is left untouched.

use vstd::prelude::*;

use crate::manifest::{spec_lookup, AppManifest, AppManifestEntry, AppManifestEntryView,
    SandboxType};
use crate::Error;

verus! {

/// Descriptor slot of the broker connection's read half.
pub const CROS_CONNECTION_R_FD: i32 = 0;

/// Descriptor slot of the broker connection's write half.
pub const CROS_CONNECTION_W_FD: i32 = 1;

/// Descriptor slot of the diagnostic error output.
pub const CROS_CONNECTION_ERR_FD: i32 = 2;

/// Descriptor slot of the internal transport's read half.
pub const DEFAULT_CONNECTION_R_FD: i32 = 3;

/// Descriptor slot of the internal transport's write half.
pub const DEFAULT_CONNECTION_W_FD: i32 = 4;

/// The raw descriptors the runtime holds when a reserved connection has
/// just been accepted and the internal transport pair has been opened.
#[derive(Clone, Copy, PartialEq, Eq, Structural)]
pub struct LaunchFds {
    /// Read half of the just-accepted connection.
    pub conn_r: i32,
    /// Write half of the just-accepted connection.
    pub conn_w: i32,
    /// The manager's own diagnostic error descriptor.
    pub err: i32,
    /// Read half of the internal transport pair, application side.
    pub tee_r: i32,
    /// Write half of the internal transport pair, application side.
    pub tee_w: i32,
}

/// The descriptor mapping the executable ABI fixes: each held descriptor
/// and the numbered slot it must occupy in the new process.
pub open spec fn spec_keep_fds(fds: LaunchFds) -> Seq<(i32, i32)> {
    seq![
        (fds.conn_r, CROS_CONNECTION_R_FD),
        (fds.conn_w, CROS_CONNECTION_W_FD),
        (fds.err, CROS_CONNECTION_ERR_FD),
        (fds.tee_r, DEFAULT_CONNECTION_R_FD),
        (fds.tee_w, DEFAULT_CONNECTION_W_FD),
    ]
}

/// Mathematical model of [`LaunchPlan`].
pub ghost struct LaunchPlanView {
    pub app_info: AppManifestEntryView,
    pub keep_fds: Seq<(i32, i32)>,
}

/// Everything the runtime needs to start one application: the descriptor
/// it was looked up under, and the descriptor-to-slot mapping. The
/// sandbox kind and executable path are read from the descriptor.
pub struct LaunchPlan {
    pub app_info: AppManifestEntry,
    pub keep_fds: Vec<(i32, i32)>,
}

impl View for LaunchPlan {
    type V = LaunchPlanView;

    open spec fn view(&self) -> LaunchPlanView {
        LaunchPlanView { app_info: self.app_info@, keep_fds: self.keep_fds@ }
    }
}

/// Decide the launch of `app_id`: look its descriptor up — unknown
/// identifiers fail with the catalog error — then plan by sandbox kind.
/// A passthrough or container launch yields a plan carrying the
/// descriptor and the five fixed slots; the virtual-machine kind always
/// fails with the unimplemented-kind error, before any process creation
/// could even be planned.
pub fn plan_tee_app(manifest: &AppManifest, app_id: &String, fds: &LaunchFds) -> (r: Result<
    LaunchPlan,
    Error,
>)
    ensures
        match r {
            Ok(plan) => {
                &&& spec_lookup(manifest@, app_id@) == Some(plan.app_info@)
                &&& plan.app_info@.sandbox_type != SandboxType::VirtualMachine
                &&& plan.keep_fds@ == spec_keep_fds(*fds)
            },
            Err(e) => match spec_lookup(manifest@, app_id@) {
                None => e matches Error::AppManifest(missing) && missing@ == app_id@,
                Some(entry) => entry.sandbox_type == SandboxType::VirtualMachine && (
                e matches Error::SandboxTypeNotImplemented(rejected) && rejected@ == entry),
            },
        },
{
    let entry = match manifest.get_app_manifest_entry(app_id) {
        Ok(entry) => entry,
        Err(e) => {
            return Err(e);
        },
    };
    match entry.sandbox_type {
        SandboxType::DeveloperEnvironment => {},
        SandboxType::Container => {},
        SandboxType::VirtualMachine => {
            return Err(Error::SandboxTypeNotImplemented(entry.clone()));
        },
    }
    let mut keep_fds: Vec<(i32, i32)> = Vec::new();
    keep_fds.push((fds.conn_r, CROS_CONNECTION_R_FD));
    keep_fds.push((fds.conn_w, CROS_CONNECTION_W_FD));
    keep_fds.push((fds.err, CROS_CONNECTION_ERR_FD));
    keep_fds.push((fds.tee_r, DEFAULT_CONNECTION_R_FD));
    keep_fds.push((fds.tee_w, DEFAULT_CONNECTION_W_FD));
    proof {
        assert(keep_fds@ =~= spec_keep_fds(*fds));
    }
    Ok(LaunchPlan { app_info: entry.clone(), keep_fds })
}

} // verus!
