use hyperv_vms::{vm_query, VmFilter, NAME_FIELD, NAMESPACE, QUERY_LANGUAGE};

#[test]
fn all_machines_query() {
    assert_eq!(
        vm_query(VmFilter::All),
        "SELECT ElementName FROM Msvm_ComputerSystem WHERE Caption = \"Virtual Machine\""
    );
}

#[test]
fn running_machines_query_adds_the_enabled_state() {
    assert_eq!(
        vm_query(VmFilter::Running),
        "SELECT ElementName FROM Msvm_ComputerSystem WHERE Caption = \"Virtual Machine\" AND EnabledState = 2"
    );
    assert!(vm_query(VmFilter::Running).starts_with(vm_query(VmFilter::All)));
}

#[test]
fn namespace_language_and_field() {
    assert_eq!(NAMESPACE, "root\\virtualization\\v2");
    assert_eq!(QUERY_LANGUAGE, "WQL");
    assert_eq!(NAME_FIELD, "ElementName");
}
