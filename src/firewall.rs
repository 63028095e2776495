use vstd::prelude::*;

use crate::error::{NetavarkError, NetavarkResult};
use crate::internal_types::{PortForwardConfig, SetupNetwork, TearDownNetwork, TeardownPortForward};

pub mod fwnone;

verus! {

/// The known kinds of firewall backend. Every kind has exactly one
/// constructor, chosen by an exhaustive match in `new_driver`.
#[derive(Debug, Clone, Copy, PartialEq, Eq, Structural)]
pub enum FirewallImpl {
    /// Firewall management is turned off: every request succeeds and nothing
    /// on the host changes.
    Fwnone,
}

/// Firewall drivers have the ability to set up per-network firewall forwarding
/// and port mappings.
///
/// Callers never branch on the backend in use. Each operation reports success
/// or failure; a backend that cannot apply a request says so rather than leave
/// state half applied.
pub trait FirewallDriver {
    /// The kind of backend this driver is, if it is one of the known kinds.
    /// A backend supplied from elsewhere has none unless it says otherwise.
    open spec fn identity(&self) -> Option<FirewallImpl> {
        None
    }

    /// Set up firewall rules for the given network.
    fn setup_network(&self, network_setup: SetupNetwork) -> (r: NetavarkResult<()>)
        ensures
            self.identity() == Some(FirewallImpl::Fwnone) ==> r is Ok,
    ;

    /// Tear down firewall rules for the given network. Only called when the
    /// network is removed as a whole.
    fn teardown_network(&self, tear: TearDownNetwork) -> (r: NetavarkResult<()>)
        ensures
            self.identity() == Some(FirewallImpl::Fwnone) ==> r is Ok,
    ;

    /// Set up port-forwarding firewall rules for a given container.
    fn setup_port_forward(&self, setup_pw: PortForwardConfig) -> (r: NetavarkResult<()>)
        ensures
            self.identity() == Some(FirewallImpl::Fwnone) ==> r is Ok,
    ;

    /// Tear down port-forwarding firewall rules for a single container,
    /// leaving those of every other container in place.
    fn teardown_port_forward(&self, teardown_pf: TeardownPortForward) -> (r: NetavarkResult<()>)
        ensures
            self.identity() == Some(FirewallImpl::Fwnone) ==> r is Ok,
    ;
}

/// How the backend is to be chosen.
#[derive(Debug, Clone, Copy, PartialEq, Eq, Structural)]
pub struct SelectionConfig {
    /// Firewall management is forcibly turned off for the whole system.
    pub firewall_disabled: bool,
}

impl SelectionConfig {
    /// The configuration in force unless overridden: firewall management is
    /// turned off.
    pub fn new() -> (r: SelectionConfig)
        ensures
            r.firewall_disabled,
    {
        SelectionConfig { firewall_disabled: true }
    }
}

impl Default for SelectionConfig {
    fn default() -> (r: SelectionConfig)
        ensures
            r.firewall_disabled,
    {
        SelectionConfig::new()
    }
}

/// The backend kind that a configuration selects. With firewall management
/// turned off that is the disabled backend. Otherwise a real backend would be
/// needed, and none is available, so selection fails: enforcement is never
/// silently downgraded.
pub open spec fn selection(config: SelectionConfig) -> NetavarkResult<FirewallImpl> {
    if config.firewall_disabled {
        Ok(FirewallImpl::Fwnone)
    } else {
        Err(NetavarkError::Selection)
    }
}

/// What constructing a backend of the given kind yields: the kind of the
/// driver built, or the error that stopped it.
pub open spec fn construction(kind: FirewallImpl) -> NetavarkResult<FirewallImpl> {
    match kind {
        FirewallImpl::Fwnone => Ok(FirewallImpl::Fwnone),
    }
}

/// What firewall implementations does this system support?
pub fn get_firewall_impl(config: &SelectionConfig) -> (r: NetavarkResult<FirewallImpl>)
    ensures
        r == selection(*config),
{
    if config.firewall_disabled {
        Ok(FirewallImpl::Fwnone)
    } else {
        Err(NetavarkError::Selection)
    }
}

/// Build the driver of the given kind.
pub fn new_driver(kind: FirewallImpl) -> (r: NetavarkResult<Box<dyn FirewallDriver>>)
    ensures
        r is Ok <==> construction(kind) is Ok,
        r matches Ok(d) ==> (d.identity() matches Some(i) && construction(kind)
            == Ok::<FirewallImpl, NetavarkError>(i)),
        r matches Err(e) ==> construction(kind) == Err::<FirewallImpl, NetavarkError>(e),
{
    match kind {
        FirewallImpl::Fwnone => fwnone::new(),
    }
}

/// Get the driver that a configuration selects. A failure to select or to
/// construct is returned as it is; there is no fallback to another backend.
pub fn get_firewall_driver(config: &SelectionConfig) -> (r: NetavarkResult<Box<dyn FirewallDriver>>)
    ensures
        r is Ok <==> (selection(*config) matches Ok(k) && construction(k) is Ok),
        r matches Ok(d) ==> (selection(*config) matches Ok(k) && d.identity() matches Some(i)
            && construction(k) == Ok::<FirewallImpl, NetavarkError>(i)),
        r matches Err(e) ==> (selection(*config) == Err::<FirewallImpl, NetavarkError>(e) || (
        selection(*config) matches Ok(k) && construction(k) == Err::<FirewallImpl, NetavarkError>(
            e,
        ))),
{
    match get_firewall_impl(config) {
        Ok(kind) => new_driver(kind),
        Err(e) => Err(e),
    }
}

/// Get the preferred firewall implementation for the current system
/// configuration.
pub fn get_supported_firewall_driver() -> (r: NetavarkResult<Box<dyn FirewallDriver>>)
    ensures
        r matches Ok(d) && d.identity() == Some(FirewallImpl::Fwnone),
{
    get_firewall_driver(&SelectionConfig::new())
}

/// Selection depends on the configuration alone: two selections made under
/// one configuration agree, both in whether they succeed and in the backend
/// kind or error they give.
pub proof fn lemma_selection_deterministic(first: SelectionConfig, second: SelectionConfig)
    requires
        first == second,
    ensures
        selection(first) == selection(second),
        selection(first) matches Ok(k) ==> construction(k) == construction(
            selection(second)->Ok_0,
        ),
{
}

/// Every backend kind has its own construction path: constructing a kind
/// either fails or yields a driver of that very kind, never one of another
/// kind, and distinct kinds never yield the same driver kind.
pub proof fn lemma_construction_exhaustive(a: FirewallImpl, b: FirewallImpl)
    ensures
        construction(a) matches Ok(k) ==> k == a,
        (construction(a) is Ok && construction(b) is Ok && a != b) ==> construction(a)
            != construction(b),
{
}

} // verus!
