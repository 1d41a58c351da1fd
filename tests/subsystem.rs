use hyperv_vms::{HyperVError, Phase, Subsystem};

fn ready() -> Subsystem {
    let mut s = Subsystem::new();
    assert_eq!(s.runtime_started(Ok(())), Ok(()));
    assert_eq!(s.security_configured(Ok(())), Ok(()));
    s
}

#[test]
fn initialisation_reaches_ready() {
    let s = ready();
    assert_eq!(s.phase(), Phase::Ready);
    assert_eq!(s.ensure_ready(), Ok(()));
}

#[test]
fn release_tears_down_exactly_once() {
    let mut s = ready();
    assert!(s.release());
    assert!(!s.release());
    assert!(!s.release());
    assert_eq!(s.phase(), Phase::Released);
}

#[test]
fn failed_runtime_start_needs_no_teardown() {
    let code = 0x8001_0106u32 as i32;
    let mut s = Subsystem::new();
    assert_eq!(s.runtime_started(Err(code)), Err(HyperVError::Initialization(code)));
    assert_eq!(s.phase(), Phase::Uninitialized);
    assert_eq!(s.ensure_ready(), Err(HyperVError::SubsystemUnavailable));
    assert!(!s.release());
}

#[test]
fn failed_security_setup_still_tears_down() {
    let code = 0x8001_0119u32 as i32;
    let mut s = Subsystem::new();
    assert_eq!(s.runtime_started(Ok(())), Ok(()));
    assert_eq!(s.security_configured(Err(code)), Err(HyperVError::Initialization(code)));
    assert_eq!(s.ensure_ready(), Err(HyperVError::SubsystemUnavailable));
    assert!(s.release());
    assert!(!s.release());
}

#[test]
fn released_subsystem_refuses_use() {
    let mut s = ready();
    assert!(s.release());
    assert_eq!(s.ensure_ready(), Err(HyperVError::SubsystemUnavailable));
    assert_eq!(s.security_configured(Ok(())), Err(HyperVError::SubsystemUnavailable));
    assert_eq!(s.runtime_started(Ok(())), Err(HyperVError::SubsystemUnavailable));
    assert_eq!(s.phase(), Phase::Released);
}

#[test]
fn steps_out_of_order_are_refused() {
    let mut s = Subsystem::new();
    assert_eq!(s.security_configured(Ok(())), Err(HyperVError::SubsystemUnavailable));
    assert_eq!(s.phase(), Phase::Uninitialized);
    let mut s = ready();
    assert_eq!(s.runtime_started(Ok(())), Err(HyperVError::SubsystemUnavailable));
    assert_eq!(s.phase(), Phase::Ready);
}
