use vstd::prelude::*;

verus! {

/// Why a firewall request could not be served.
#[derive(Debug, Clone, Copy, PartialEq, Eq, Structural)]
pub enum NetavarkError {
    /// No backend could be determined or constructed for this host.
    Selection,
    /// The active backend could not apply a setup or teardown request.
    Apply,
}

pub type NetavarkResult<T> = Result<T, NetavarkError>;

} // verus!
