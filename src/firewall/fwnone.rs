use vstd::prelude::*;

use crate::error::NetavarkResult;
use crate::firewall::{FirewallDriver, FirewallImpl};
use crate::internal_types::{PortForwardConfig, SetupNetwork, TearDownNetwork, TeardownPortForward};

verus! {

/// The disabled backend: it accepts every request and changes nothing on the
/// host. It holds no state, so no call can affect a later one.
pub struct Fwnone {}

/// Build the disabled backend. Its construction never fails.
pub fn new() -> (r: NetavarkResult<Box<dyn FirewallDriver>>)
    ensures
        r matches Ok(d) && d.identity() == Some(FirewallImpl::Fwnone),
{
    Ok(Box::new(Fwnone {}))
}

impl FirewallDriver for Fwnone {
    open spec fn identity(&self) -> Option<FirewallImpl> {
        Some(FirewallImpl::Fwnone)
    }

    fn setup_network(&self, _network_setup: SetupNetwork) -> (r: NetavarkResult<()>) {
        Ok(())
    }

    // teardown_network is only called when the whole network goes away; with
    // nothing to remove it succeeds whether or not setup_network ran.
    fn teardown_network(&self, _tear: TearDownNetwork) -> (r: NetavarkResult<()>) {
        Ok(())
    }

    fn setup_port_forward(&self, _setup_portfw: PortForwardConfig) -> (r: NetavarkResult<()>) {
        Ok(())
    }

    fn teardown_port_forward(&self, _tear: TeardownPortForward) -> (r: NetavarkResult<()>) {
        Ok(())
    }
}

} // verus!
