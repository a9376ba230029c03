use trichechus::control::{AppInfo, TrichechusServerImpl};
use trichechus::endpoint::{Endpoint, DEFAULT_CLIENT_PORT};
use trichechus::launch::{plan_tee_app, LaunchFds, CROS_CONNECTION_ERR_FD, CROS_CONNECTION_R_FD,
    CROS_CONNECTION_W_FD, DEFAULT_CONNECTION_R_FD, DEFAULT_CONNECTION_W_FD};
use trichechus::manifest::{AppManifest, AppManifestEntry, SandboxType, Scope, StorageParameters};
use trichechus::registry::{TeeApp, TrichechusState};
use trichechus::router::{handle_incoming_connection, register_running_app, RouteDecision};
use trichechus::storage::{read_data, storage_step, write_data, FlowPhase, StorageDirective,
    StorageEvent, StorageOp};
use trichechus::Error;

fn entry(name: &str, sandbox_type: SandboxType, storage: Option<StorageParameters>) -> AppManifestEntry {
    AppManifestEntry {
        app_name: String::from(name),
        sandbox_type,
        path: String::from("/usr/bin/demo_app"),
        storage_parameters: storage,
    }
}

fn plain_storage() -> StorageParameters {
    StorageParameters {
        scope: Scope::System,
        domain: String::from("demo"),
        encryption_key_version: None,
    }
}

fn encrypted_storage() -> StorageParameters {
    StorageParameters {
        scope: Scope::Session,
        domain: String::from("demo"),
        encryption_key_version: Some(1),
    }
}

fn manager_with(entries: Vec<AppManifestEntry>) -> TrichechusState {
    let mut manifest = AppManifest::new();
    for e in entries {
        manifest.add_entry(e);
    }
    TrichechusState::new(manifest)
}

fn fds() -> LaunchFds {
    LaunchFds { conn_r: 10, conn_w: 11, err: 2, tee_r: 12, tee_w: 13 }
}

#[test]
fn reservation_is_consumed_and_app_launched() {
    let mut state = manager_with(vec![entry("A", SandboxType::DeveloperEnvironment, None)]);
    let server = TrichechusServerImpl::new(Endpoint::VsockConnection { cid: 1, port: 0 });
    let r = server.start_session(
        &mut state,
        AppInfo { app_id: String::from("A"), port_number: 9000 },
    );
    assert!(r.is_ok());

    let arriving = Endpoint::VsockConnection { cid: 1, port: 9000 };
    match handle_incoming_connection(&mut state, arriving) {
        RouteDecision::LaunchApp { app_id } => assert_eq!(app_id, "A"),
        _ => panic!("reserved connection must launch the reserved app"),
    }
    // The reservation is consumed: the same endpoint no longer matches.
    match handle_incoming_connection(&mut state, arriving) {
        RouteDecision::DropConnection => {}
        _ => panic!("a consumed reservation must not match again"),
    }
}

#[test]
fn reservation_removed_even_if_launch_fails() {
    // The reserved application is not in the catalog, so the launch fails,
    // but the reservation is gone all the same.
    let mut state = manager_with(vec![]);
    let server = TrichechusServerImpl::new(Endpoint::VsockConnection { cid: 1, port: 0 });
    server
        .start_session(&mut state, AppInfo { app_id: String::from("ghost"), port_number: 700 })
        .unwrap();
    let arriving = Endpoint::VsockConnection { cid: 1, port: 700 };
    match handle_incoming_connection(&mut state, arriving) {
        RouteDecision::LaunchApp { app_id } => {
            let r = plan_tee_app(&state.app_manifest, &app_id, &fds());
            match r {
                Err(Error::AppManifest(missing)) => assert_eq!(missing, "ghost"),
                _ => panic!("an unknown app must fail with the catalog error"),
            }
        }
        _ => panic!("the reservation must match first"),
    }
    match handle_incoming_connection(&mut state, arriving) {
        RouteDecision::DropConnection => {}
        _ => panic!("the reservation must be gone although the launch failed"),
    }
}

#[test]
fn a_later_reservation_for_the_same_endpoint_replaces_the_earlier() {
    let mut state = manager_with(vec![]);
    let server = TrichechusServerImpl::new(Endpoint::VsockConnection { cid: 1, port: 0 });
    server
        .start_session(&mut state, AppInfo { app_id: String::from("first"), port_number: 4 })
        .unwrap();
    server
        .start_session(&mut state, AppInfo { app_id: String::from("second"), port_number: 4 })
        .unwrap();
    match handle_incoming_connection(&mut state, Endpoint::VsockConnection { cid: 1, port: 4 }) {
        RouteDecision::LaunchApp { app_id } => assert_eq!(app_id, "second"),
        _ => panic!("the reservation must match"),
    }
}

#[test]
fn control_connection_on_expected_port() {
    let mut state = manager_with(vec![]);
    assert_eq!(state.expected_port, DEFAULT_CLIENT_PORT);
    let arriving = Endpoint::VsockConnection { cid: 7, port: DEFAULT_CLIENT_PORT };
    match handle_incoming_connection(&mut state, arriving) {
        RouteDecision::ControlConnection => {}
        _ => panic!("the expected control port must open a control session"),
    }
}

#[test]
fn unexpected_connection_is_dropped_and_nothing_registered() {
    let mut state = manager_with(vec![]);
    let server = TrichechusServerImpl::new(Endpoint::VsockConnection { cid: 1, port: 0 });
    server
        .start_session(&mut state, AppInfo { app_id: String::from("A"), port_number: 9000 })
        .unwrap();
    // Wrong port, wrong family, and a port-less pipe: all denied.
    for arriving in [
        Endpoint::VsockConnection { cid: 1, port: 9001 },
        Endpoint::IpConnection { host: 1, port: 9000 },
        Endpoint::PipeConnection { id: 9000 },
    ] {
        match handle_incoming_connection(&mut state, arriving) {
            RouteDecision::DropConnection => {}
            _ => panic!("an unexpected connection must be dropped"),
        }
    }
    // The untouched reservation still matches afterwards.
    match handle_incoming_connection(&mut state, Endpoint::VsockConnection { cid: 1, port: 9000 }) {
        RouteDecision::LaunchApp { app_id } => assert_eq!(app_id, "A"),
        _ => panic!("denied traffic must not consume the reservation"),
    }
}

#[test]
fn adjusting_the_expected_port() {
    let mut state = manager_with(vec![]);
    state.adjust_expected_port(5552);
    assert_eq!(state.expected_port, DEFAULT_CLIENT_PORT);
    state.adjust_expected_port(7000);
    assert_eq!(state.expected_port, 7001);
}

#[test]
fn get_logs_drains_once_in_order() {
    let mut state = manager_with(vec![]);
    let server = TrichechusServerImpl::new(Endpoint::VsockConnection { cid: 1, port: 0 });
    state.receive(vec![1u8, 2]);
    state.receive(vec![3u8]);
    let first = server.get_logs(&mut state).unwrap();
    assert_eq!(first, vec![vec![1u8, 2], vec![3u8]]);
    // Nothing received in between: the second drain is empty.
    let second = server.get_logs(&mut state).unwrap();
    assert_eq!(second, Vec::<Vec<u8>>::new());
    // Records received between two drains come out of exactly one drain.
    state.receive(vec![4u8]);
    let third = server.get_logs(&mut state).unwrap();
    assert_eq!(third, vec![vec![4u8]]);
    assert_eq!(server.get_logs(&mut state).unwrap(), Vec::<Vec<u8>>::new());
}

#[test]
fn unconfigured_app_cannot_use_storage() {
    let state = manager_with(vec![]);
    let app = TeeApp { app_info: entry("A", SandboxType::Container, None) };
    assert!(read_data(&state, &app, String::from("k")).is_err());
    assert!(write_data(&state, &app, String::from("k"), vec![1u8]).is_err());
    // Denied before any link activity: the link flag never moved.
    assert!(!state.persistence);
}

#[test]
fn encryption_key_version_always_wraps_the_request() {
    let mut state = manager_with(vec![]);
    state.set_persistence(true);
    let app = TeeApp { app_info: entry("A", SandboxType::Container, Some(encrypted_storage())) };
    let (mut flow, d) = read_data(&state, &app, String::from("k")).unwrap();
    assert_eq!(d, StorageDirective::Invoke { encrypted: true });
    // Even the retried invocation after a re-establishment is wrapped.
    assert_eq!(storage_step(&mut state, &mut flow, StorageEvent::InvokeErr), StorageDirective::Establish);
    assert_eq!(
        storage_step(&mut state, &mut flow, StorageEvent::EstablishOk),
        StorageDirective::Invoke { encrypted: true }
    );
}

#[test]
fn storage_succeeds_after_one_reestablishment() {
    let mut state = manager_with(vec![]);
    state.set_persistence(true);
    let app = TeeApp { app_info: entry("A", SandboxType::Container, Some(plain_storage())) };
    let (mut flow, d) = write_data(&state, &app, String::from("k"), vec![9u8]).unwrap();
    assert_eq!(d, StorageDirective::Invoke { encrypted: false });
    assert_eq!(storage_step(&mut state, &mut flow, StorageEvent::InvokeErr), StorageDirective::Establish);
    assert!(!state.persistence);
    assert_eq!(
        storage_step(&mut state, &mut flow, StorageEvent::EstablishOk),
        StorageDirective::Invoke { encrypted: false }
    );
    assert!(state.persistence);
    assert_eq!(storage_step(&mut state, &mut flow, StorageEvent::InvokeOk), StorageDirective::Succeed);
    assert_eq!(flow.phase, FlowPhase::Done);
}

#[test]
fn storage_fails_after_two_failures_and_link_is_left_absent() {
    let mut state = manager_with(vec![]);
    state.set_persistence(true);
    let app = TeeApp { app_info: entry("A", SandboxType::Container, Some(plain_storage())) };
    let (mut flow, _) = write_data(&state, &app, String::from("k"), vec![9u8]).unwrap();
    assert_eq!(storage_step(&mut state, &mut flow, StorageEvent::InvokeErr), StorageDirective::Establish);
    assert_eq!(
        storage_step(&mut state, &mut flow, StorageEvent::EstablishOk),
        StorageDirective::Invoke { encrypted: false }
    );
    assert_eq!(storage_step(&mut state, &mut flow, StorageEvent::InvokeErr), StorageDirective::Fail);
    assert_eq!(flow.phase, FlowPhase::Failed);
    assert!(!state.persistence);
}

#[test]
fn storage_fails_when_link_cannot_be_established() {
    let mut state = manager_with(vec![]);
    // No link at all: the first directive is to establish one.
    let app = TeeApp { app_info: entry("A", SandboxType::Container, Some(plain_storage())) };
    let (mut flow, d) = read_data(&state, &app, String::from("k")).unwrap();
    assert_eq!(d, StorageDirective::Establish);
    assert_eq!(storage_step(&mut state, &mut flow, StorageEvent::EstablishErr), StorageDirective::Fail);
    assert_eq!(flow.phase, FlowPhase::Failed);
    assert!(!state.persistence);
}

#[test]
fn virtual_machine_sandbox_is_not_implemented() {
    let state = manager_with(vec![entry("vm_app", SandboxType::VirtualMachine, None)]);
    match plan_tee_app(&state.app_manifest, &String::from("vm_app"), &fds()) {
        Err(Error::SandboxTypeNotImplemented(rejected)) => assert_eq!(rejected.app_name, "vm_app"),
        _ => panic!("a virtual-machine sandbox must fail as unimplemented"),
    }
}

#[test]
fn launch_plan_maps_the_five_descriptor_slots() {
    let state = manager_with(vec![entry("A", SandboxType::DeveloperEnvironment, None)]);
    let plan = plan_tee_app(&state.app_manifest, &String::from("A"), &fds()).unwrap();
    assert_eq!(plan.app_info.app_name, "A");
    assert_eq!(
        plan.keep_fds,
        vec![
            (10, CROS_CONNECTION_R_FD),
            (11, CROS_CONNECTION_W_FD),
            (2, CROS_CONNECTION_ERR_FD),
            (12, DEFAULT_CONNECTION_R_FD),
            (13, DEFAULT_CONNECTION_W_FD),
        ]
    );
    assert_eq!(
        (CROS_CONNECTION_R_FD, CROS_CONNECTION_W_FD, CROS_CONNECTION_ERR_FD),
        (0, 1, 2)
    );
    assert_eq!((DEFAULT_CONNECTION_R_FD, DEFAULT_CONNECTION_W_FD), (3, 4));
}

#[test]
fn ports_of_endpoints() {
    let ip = Endpoint::IpConnection { host: 0x7f000001, port: 80 };
    assert_eq!(ip.get_port().unwrap(), 80);
    // Substituting a port keeps only the low sixteen bits on an internet
    // address, and the whole value on a virtual socket.
    match ip.with_port(0x1ABCD) {
        Endpoint::IpConnection { host, port } => {
            assert_eq!(host, 0x7f000001);
            assert_eq!(port, 0xABCD);
        }
        _ => panic!("the address family must be kept"),
    }
    let vsock = Endpoint::VsockConnection { cid: 3, port: 5554 };
    assert_eq!(vsock.get_port().unwrap(), 5554);
    match vsock.with_port(0x1ABCD) {
        Endpoint::VsockConnection { cid, port } => {
            assert_eq!(cid, 3);
            assert_eq!(port, 0x1ABCD);
        }
        _ => panic!("the address family must be kept"),
    }
    match (Endpoint::PipeConnection { id: 5 }).get_port() {
        Err(Error::UnexpectedConnectionType(Endpoint::PipeConnection { id })) => assert_eq!(id, 5),
        _ => panic!("a pipe has no port"),
    }
}

#[test]
fn end_to_end_reserve_connect_launch_write() {
    let mut state = manager_with(vec![entry(
        "A",
        SandboxType::DeveloperEnvironment,
        Some(plain_storage()),
    )]);
    // The runtime connected the persistence link at startup.
    state.set_persistence(true);

    // Reserve application "A" on port 9000 over a control session.
    let server = TrichechusServerImpl::new(Endpoint::VsockConnection { cid: 1, port: 0 });
    server
        .start_session(&mut state, AppInfo { app_id: String::from("A"), port_number: 9000 })
        .unwrap();

    // A connection arrives addressed to port 9000: the sandbox launches.
    let arriving = Endpoint::VsockConnection { cid: 1, port: 9000 };
    let app_id = match handle_incoming_connection(&mut state, arriving) {
        RouteDecision::LaunchApp { app_id } => app_id,
        _ => panic!("the reserved connection must launch"),
    };
    let plan = plan_tee_app(&state.app_manifest, &app_id, &fds()).unwrap();
    let app = TeeApp { app_info: plan.app_info };
    let descriptor = app.app_info.clone();
    register_running_app(&mut state, arriving, app);

    // writeData("k", [1,2,3]) with no encryption configured invokes
    // persist(scope, domain, "k", [1,2,3]) exactly once, unwrapped, and
    // returns its status.
    let served = TeeApp { app_info: descriptor };
    let (mut flow, d) = write_data(&mut state, &served, String::from("k"), vec![1u8, 2, 3]).unwrap();
    assert_eq!(d, StorageDirective::Invoke { encrypted: false });
    match &flow.op {
        StorageOp::Write { id, data } => {
            assert_eq!(id, "k");
            assert_eq!(data, &vec![1u8, 2, 3]);
        }
        _ => panic!("the flow must carry the write"),
    }
    assert_eq!(flow.params.scope, Scope::System);
    assert_eq!(flow.params.domain, "demo");
    // The one invocation answers: the request is done, no second invoke.
    assert_eq!(storage_step(&mut state, &mut flow, StorageEvent::InvokeOk), StorageDirective::Succeed);
    assert_eq!(flow.phase, FlowPhase::Done);
}
