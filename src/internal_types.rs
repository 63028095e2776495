use vstd::prelude::*;

verus! {

/// A network whose filtering state is to be established.
#[derive(Debug, Clone)]
pub struct SetupNetwork {
    pub network_id: String,
}

/// A network that is being removed as a whole.
#[derive(Debug, Clone)]
pub struct TearDownNetwork {
    pub network_id: String,
}

/// Port forwarding to be added for one container of a network.
#[derive(Debug, Clone)]
pub struct PortForwardConfig {
    pub network_id: String,
    pub container_id: String,
}

/// Port forwarding to be removed for one container of a network.
#[derive(Debug, Clone)]
pub struct TeardownPortForward {
    pub network_id: String,
    pub container_id: String,
}

} // verus!
