//! A backend that runs nothing and answers with fixed statuses.
use vstd::prelude::*;

use crate::vpn::{Operation, StatusView, VpnConnector, VpnStatus};

verus! {

/// A stand-in backend: a connect reports `Connecting`, and a disconnect or a
/// status query reports `Disconnected`.
#[derive(Clone, Copy, Debug)]
pub struct DummyVpn;

impl DummyVpn {
    /// The stand-in backend.
    pub fn new() -> (r: DummyVpn) {
        DummyVpn
    }
}

impl VpnConnector for DummyVpn {
    /// A connect answers `Connecting`; anything else answers `Disconnected`.
    open spec fn reports(&self, op: Operation, r: StatusView) -> bool {
        r == if op == Operation::Connect {
            StatusView::Connecting
        } else {
            StatusView::Disconnected
        }
    }

    fn connect(&mut self) -> (r: VpnStatus)
        ensures
            r == VpnStatus::Connecting,
    {
        VpnStatus::Connecting
    }

    fn disconnect(&mut self) -> (r: VpnStatus)
        ensures
            r == VpnStatus::Disconnected,
    {
        VpnStatus::Disconnected
    }

    fn status(&mut self) -> (r: VpnStatus)
        ensures
            r == VpnStatus::Disconnected,
    {
        VpnStatus::Disconnected
    }
}

} // verus!
