//! Connection management for a desktop VPN client: the canonical status type,
//! the backend connector interface, the classification of backend output and
//! the coordinator that serialises commands and decides which status changes
//! are reported.
use vstd::prelude::*;

pub mod coordinator;
pub mod dummyvpn;
pub mod openvpn;
pub mod text;
pub mod vpn;

use crate::dummyvpn::DummyVpn;
use crate::openvpn::OpenVpn;

verus! {

/// The kinds of backend that can be chosen.
#[derive(Clone, Copy, Debug, PartialEq, Eq, Structural)]
pub enum ConnectorType {
    Dummy,
    Open,
}

/// A chosen backend, ready to be put under a coordinator.
#[derive(Clone, Debug)]
pub enum VpnBackend {
    Dummy(DummyVpn),
    Open(OpenVpn),
}

/// The configuration file that the OpenVPN backend uses.
pub const OPEN_VPN_CONFIG: &'static str = "/home/mdodgson/work/sonatype/config/sonatype.ovpn";

/// The backend of the given kind; the OpenVPN one uses [`OPEN_VPN_CONFIG`].
pub fn create_vpn_connector(connector_type: ConnectorType) -> (r: VpnBackend)
    ensures
        connector_type == ConnectorType::Dummy ==> r is Dummy,
        connector_type == ConnectorType::Open ==> (r matches VpnBackend::Open(v)
            && v.config_path()@ == OPEN_VPN_CONFIG@),
{
    match connector_type {
        ConnectorType::Dummy => VpnBackend::Dummy(DummyVpn::new()),
        ConnectorType::Open => VpnBackend::Open(OpenVpn::new(String::from_str(OPEN_VPN_CONFIG))),
    }
}

} // verus!
