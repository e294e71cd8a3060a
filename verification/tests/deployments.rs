use rust_interface::errors::ErrorKind;
use rust_interface::errors::ProtocolViolation;
use rust_interface::errors::PythonRuntimeResult;
use rust_interface::host::ArtifactId;
use rust_interface::pending_deployment::Async;
use rust_interface::pending_deployment::PendingDeployment;
use rust_interface::python_interface::default_status;
use rust_interface::python_interface::get_snapshot_token;
use rust_interface::python_interface::init_python_side;
use rust_interface::python_interface::deployment_completed;
use rust_interface::python_interface::PythonRuntimeInterface;
use rust_interface::types::RawIndexAccess;

fn sample() -> ArtifactId {
    ArtifactId::new(2, "sample")
}

#[test]
fn a_new_deployment_is_pending() {
    let mut deployment = PendingDeployment::new();
    assert!(!deployment.is_resolved());
    assert_eq!(deployment.outcome(), None);
    assert_eq!(deployment.poll(), Ok(Async::NotReady));
    assert_eq!(deployment.poll(), Ok(Async::NotReady));
}

#[test]
fn completion_resolves_once() {
    let mut deployment = PendingDeployment::new();
    assert!(!deployment.complete());
    assert!(deployment.is_resolved());
    assert_eq!(deployment.poll(), Ok(Async::Ready));
    assert_eq!(deployment.poll(), Ok(Async::Ready));
    let late = PythonRuntimeResult::from_value(17).unwrap_err();
    assert!(!deployment.error(late));
    assert_eq!(deployment.poll(), Ok(Async::Ready));
    assert_eq!(deployment.outcome(), Some(Ok(())));
}

#[test]
fn failure_resolves_once() {
    let mut deployment = PendingDeployment::new();
    let failure = PythonRuntimeResult::from_value(17).unwrap_err();
    assert!(!deployment.error(failure.clone()));
    assert_eq!(deployment.poll(), Err(failure.clone()));
    assert!(!deployment.complete());
    assert_eq!(deployment.poll(), Err(failure.clone()));
    assert_eq!(deployment.outcome(), Some(Err(failure)));
}

#[test]
fn a_waiter_is_woken_by_the_resolution() {
    let mut polled = PendingDeployment::new();
    assert_eq!(polled.poll(), Ok(Async::NotReady));
    assert!(polled.complete());
    assert!(!polled.complete());
    let mut failed = PendingDeployment::new();
    assert_eq!(failed.poll(), Ok(Async::NotReady));
    assert!(failed.resolve_with(16));
    assert!(!failed.resolve_with(0));
    let e = failed.poll().unwrap_err();
    assert_eq!(e.kind, ErrorKind::Runtime { code: 16 });
}

#[test]
fn status_codes_resolve_deployments() {
    let mut ok = PendingDeployment::new();
    ok.resolve_with(0);
    assert_eq!(ok.outcome(), Some(Ok(())));
    let mut service = PendingDeployment::new();
    service.resolve_with(70);
    let e = service.outcome().unwrap().unwrap_err();
    assert_eq!(e.kind, ErrorKind::Service { code: 5 });
    let mut same = PendingDeployment::new();
    same.resolve_with(70);
    assert_eq!(same, service);
    assert_ne!(ok, service);
}

#[test]
fn nothing_is_registered_at_start_up() {
    let interface: PythonRuntimeInterface<u32> = PythonRuntimeInterface::new();
    assert!(!interface.is_registered());
    assert_eq!(interface.methods(), None);
    assert!(!interface.is_pending(&sample()));
    assert_eq!(default_status(), 1);
}

#[test]
fn registration_replaces_the_table_as_a_whole() {
    let mut interface: PythonRuntimeInterface<u32> = PythonRuntimeInterface::new();
    init_python_side(&mut interface, 11);
    assert!(interface.is_registered());
    assert_eq!(interface.methods(), Some(&11));
    interface.notify_deployment_started(sample(), PendingDeployment::new()).unwrap();
    init_python_side(&mut interface, 22);
    assert_eq!(interface.methods(), Some(&22));
    assert!(interface.is_pending(&sample()));
}

#[test]
fn a_second_deployment_of_an_artifact_in_flight_is_rejected() {
    let mut interface: PythonRuntimeInterface<u32> = PythonRuntimeInterface::new();
    assert_eq!(interface.notify_deployment_started(sample(), PendingDeployment::new()), Ok(()));
    assert_eq!(
        interface.notify_deployment_started(sample(), PendingDeployment::new()),
        Err(ProtocolViolation::DuplicateDeployment)
    );
    assert!(interface.is_pending(&sample()));
    let other = ArtifactId::new(2, "other");
    assert_eq!(interface.notify_deployment_started(other.clone(), PendingDeployment::new()), Ok(()));
    let same_name = ArtifactId::new(3, "sample");
    assert_eq!(interface.notify_deployment_started(same_name, PendingDeployment::new()), Ok(()));
    let mut resolved = deployment_completed(&mut interface, &sample(), 0);
    assert_eq!(resolved.outcome(), Some(Ok(())));
    assert_eq!(resolved.poll(), Ok(Async::Ready));
    assert!(!interface.is_pending(&sample()));
    assert!(interface.is_pending(&other));
    assert_eq!(interface.notify_deployment_started(sample(), PendingDeployment::new()), Ok(()));
}

#[test]
fn completion_of_an_unknown_artifact_is_a_violation() {
    let mut interface: PythonRuntimeInterface<u32> = PythonRuntimeInterface::new();
    assert!(!interface.is_pending(&sample()));
    interface.notify_deployment_started(sample(), PendingDeployment::new()).unwrap();
    assert!(!interface.is_pending(&ArtifactId::new(2, "never")));
    assert!(interface.is_pending(&sample()));
    let resolved = deployment_completed(&mut interface, &sample(), 0);
    assert!(resolved.is_resolved());
    assert!(!interface.is_pending(&sample()));
    assert_eq!(
        ProtocolViolation::UnknownArtifact.message(),
        "Python deployed an artifact that wasn't expected"
    );
}

#[test]
fn a_completed_deployment_keeps_its_outcome() {
    let mut interface: PythonRuntimeInterface<u32> = PythonRuntimeInterface::new();
    interface.notify_deployment_started(sample(), PendingDeployment::new()).unwrap();
    let mut resolved = deployment_completed(&mut interface, &sample(), 0);
    assert!(!resolved.resolve_with(17));
    assert!(!resolved.complete());
    assert_eq!(resolved.poll(), Ok(Async::Ready));
    assert_eq!(resolved.poll(), Ok(Async::Ready));
    assert_eq!(resolved.outcome(), Some(Ok(())));
}

#[test]
fn a_failed_completion_resolves_to_the_decoded_error() {
    let mut interface: PythonRuntimeInterface<u32> = PythonRuntimeInterface::new();
    interface.notify_deployment_started(sample(), PendingDeployment::new()).unwrap();
    let mut resolved = deployment_completed(&mut interface, &sample(), 17);
    let e = resolved.outcome().unwrap().unwrap_err();
    assert_eq!(e.kind, ErrorKind::Runtime { code: 17 });
    assert_eq!(e.description, "Service installation failed");
    assert_eq!(resolved.poll(), Err(e.clone()));
    assert_eq!(resolved.poll(), Err(e));
}

#[test]
fn the_snapshot_token_is_read_only() {
    let token: RawIndexAccess<u8, u8> = get_snapshot_token();
    assert!(matches!(token, RawIndexAccess::SnapshotToken));
    assert!(!token.is_mutable());
}
