use vstd::prelude::*;

verus! {

/// What the bring-up of an interface does after polling its network stack
/// for a DHCP configuration.
#[derive(Clone, Copy, Debug, PartialEq, Eq, Structural)]
pub enum DhcpWaitAction {
    /// The stack has a configuration: stop waiting and use it.
    Finish,
    /// No configuration yet: let other tasks run, then poll again.
    Yield,
}

/// One step of waiting for DHCP: finish as soon as the stack reports a
/// configuration, and otherwise yield and poll again.
pub fn dhcp_wait_step(configured: bool) -> (action: DhcpWaitAction)
    ensures
        action == (if configured { DhcpWaitAction::Finish } else { DhcpWaitAction::Yield }),
{
    if configured {
        DhcpWaitAction::Finish
    } else {
        DhcpWaitAction::Yield
    }
}

} // verus!
