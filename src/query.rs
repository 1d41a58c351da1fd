use vstd::prelude::*;

verus! {

/// The management namespace that holds the hypervisor's virtual machines.
pub const NAMESPACE: &'static str = "root\\virtualization\\v2";

/// The query language in which the namespace is asked.
pub const QUERY_LANGUAGE: &'static str = "WQL";

/// The field of a result row that holds a machine's display name.
pub const NAME_FIELD: &'static str = "ElementName";

/// Which virtual machines an enumeration asks for.
#[derive(Debug, Clone, Copy, PartialEq, Eq, Structural)]
pub enum VmFilter {
    /// Only the machines whose enabled state is "running".
    Running,
    /// Every virtual machine.
    All,
}

/// The query that selects the display name of every virtual machine.
pub open spec fn all_vms_query() -> Seq<char> {
    "SELECT ElementName FROM Msvm_ComputerSystem WHERE Caption = \"Virtual Machine\""@
}

/// The conjunct that narrows a selection to running machines.
pub open spec fn running_condition() -> Seq<char> {
    " AND EnabledState = 2"@
}

/// The query text for a filter: the running machines are selected by the
/// query for all machines with one more condition.
pub fn vm_query(filter: VmFilter) -> (r: &'static str)
    ensures
        r@ == match filter {
            VmFilter::All => all_vms_query(),
            VmFilter::Running => all_vms_query() + running_condition(),
        },
{
    match filter {
        VmFilter::All => "SELECT ElementName FROM Msvm_ComputerSystem WHERE Caption = \"Virtual Machine\"",
        VmFilter::Running => {
            let q = "SELECT ElementName FROM Msvm_ComputerSystem WHERE Caption = \"Virtual Machine\" AND EnabledState = 2";
            proof {
                reveal_strlit(
                    "SELECT ElementName FROM Msvm_ComputerSystem WHERE Caption = \"Virtual Machine\" AND EnabledState = 2",
                );
                reveal_strlit(
                    "SELECT ElementName FROM Msvm_ComputerSystem WHERE Caption = \"Virtual Machine\"",
                );
                reveal_strlit(" AND EnabledState = 2");
                assert(q@ =~= all_vms_query() + running_condition());
            }
            q
        },
    }
}

} // verus!
