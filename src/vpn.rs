use vstd::prelude::*;

verus! {

/// The status of a VPN connection, as reported to observers.
#[derive(Clone, Debug)]
pub enum VpnStatus {
    Disconnected,
    Initialising,
    Connecting,
    Authenticating,
    Connected,
    Disconnecting,
    Error(String),
}

/// Mathematical model of [`VpnStatus`]: the diagnostic text of an error is a
/// sequence of characters.
pub enum StatusView {
    Disconnected,
    Initialising,
    Connecting,
    Authenticating,
    Connected,
    Disconnecting,
    Error(Seq<char>),
}

impl StatusView {
    /// An error always carries a non-empty diagnostic.
    pub open spec fn wf(self) -> bool {
        match self {
            StatusView::Error(m) => m.len() > 0,
            _ => true,
        }
    }
}

impl View for VpnStatus {
    type V = StatusView;

    open spec fn view(&self) -> StatusView {
        match self {
            VpnStatus::Disconnected => StatusView::Disconnected,
            VpnStatus::Initialising => StatusView::Initialising,
            VpnStatus::Connecting => StatusView::Connecting,
            VpnStatus::Authenticating => StatusView::Authenticating,
            VpnStatus::Connected => StatusView::Connected,
            VpnStatus::Disconnecting => StatusView::Disconnecting,
            VpnStatus::Error(m) => StatusView::Error(m@),
        }
    }
}

/// The text shown for a status.
pub open spec fn status_text(s: StatusView) -> Seq<char> {
    match s {
        StatusView::Disconnected => "Disconnected"@,
        StatusView::Initialising => "Initialising"@,
        StatusView::Connecting => "Connecting"@,
        StatusView::Authenticating => "Authenticating"@,
        StatusView::Connected => "Connected"@,
        StatusView::Disconnecting => "Disconnecting"@,
        StatusView::Error(m) => "Error, "@ + m,
    }
}

impl PartialEq for VpnStatus {
    fn eq(&self, other: &VpnStatus) -> (r: bool) {
        match (self, other) {
            (VpnStatus::Disconnected, VpnStatus::Disconnected) => true,
            (VpnStatus::Initialising, VpnStatus::Initialising) => true,
            (VpnStatus::Connecting, VpnStatus::Connecting) => true,
            (VpnStatus::Authenticating, VpnStatus::Authenticating) => true,
            (VpnStatus::Connected, VpnStatus::Connected) => true,
            (VpnStatus::Disconnecting, VpnStatus::Disconnecting) => true,
            (VpnStatus::Error(a), VpnStatus::Error(b)) => a.eq(b),
            _ => false,
        }
    }
}

impl vstd::std_specs::cmp::PartialEqSpecImpl for VpnStatus {
    open spec fn obeys_eq_spec() -> bool {
        true
    }

    /// Two statuses are equal when their models are.
    open spec fn eq_spec(&self, other: &VpnStatus) -> bool {
        self@ == other@
    }
}

/// The tray icon file for a status: one each for disconnected, connected
/// and error, and one for every status in between.
pub open spec fn icon_for(s: StatusView) -> Seq<char> {
    match s {
        StatusView::Disconnected => "icons/SON_hexagon_disconnected.png"@,
        StatusView::Connected => "icons/SON_hexagon_connected.png"@,
        StatusView::Error(_) => "icons/SON_hexagon_error.png"@,
        _ => "icons/SON_hexagon_intermediate.png"@,
    }
}

impl VpnStatus {
    /// The tray icon file for this status.
    pub fn icon_file(&self) -> (r: &'static str)
        ensures
            r@ == icon_for(self@),
    {
        match self {
            VpnStatus::Disconnected => "icons/SON_hexagon_disconnected.png",
            VpnStatus::Connected => "icons/SON_hexagon_connected.png",
            VpnStatus::Error(_) => "icons/SON_hexagon_error.png",
            _ => "icons/SON_hexagon_intermediate.png",
        }
    }

    /// An error status with the given diagnostic.
    pub fn error(message: &str) -> (r: VpnStatus)
        ensures
            r@ == StatusView::Error(message@),
    {
        VpnStatus::Error(String::from_str(message))
    }

    /// A copy of this status.
    pub fn duplicate(&self) -> (r: VpnStatus)
        ensures
            r@ == self@,
    {
        match self {
            VpnStatus::Disconnected => VpnStatus::Disconnected,
            VpnStatus::Initialising => VpnStatus::Initialising,
            VpnStatus::Connecting => VpnStatus::Connecting,
            VpnStatus::Authenticating => VpnStatus::Authenticating,
            VpnStatus::Connected => VpnStatus::Connected,
            VpnStatus::Disconnecting => VpnStatus::Disconnecting,
            VpnStatus::Error(m) => VpnStatus::Error(m.clone()),
        }
    }

    /// The text shown for this status, such as `Connected` or `Error, <diagnostic>`.
    pub fn to_string(&self) -> (r: String)
        ensures
            r@ == status_text(self@),
    {
        match self {
            VpnStatus::Disconnected => String::from_str("Disconnected"),
            VpnStatus::Initialising => String::from_str("Initialising"),
            VpnStatus::Connecting => String::from_str("Connecting"),
            VpnStatus::Authenticating => String::from_str("Authenticating"),
            VpnStatus::Connected => String::from_str("Connected"),
            VpnStatus::Disconnecting => String::from_str("Disconnecting"),
            VpnStatus::Error(m) => {
                let mut text = String::from_str("Error, ");
                text.append(m.as_str());
                text
            },
        }
    }
}

/// The three operations that a backend offers.
#[derive(Clone, Copy, Debug, PartialEq, Eq, Structural)]
pub enum Operation {
    Connect,
    Disconnect,
    Status,
}

/// A VPN backend. Calls are never made concurrently on one connector: the
/// coordinator that owns it makes them one at a time.
pub trait VpnConnector {
    /// Whether this backend, in its present state, may answer `op` with `r`.
    /// A backend whose answers are not known in advance admits every answer.
    open spec fn reports(&self, op: Operation, r: StatusView) -> bool {
        true
    }

    /// Starts a session and reports the status that resulted.
    fn connect(&mut self) -> (r: VpnStatus)
        ensures
            r@.wf(),
            old(self).reports(Operation::Connect, r@),
    ;

    /// Ends the session and reports the status that resulted.
    fn disconnect(&mut self) -> (r: VpnStatus)
        ensures
            r@.wf(),
            old(self).reports(Operation::Disconnect, r@),
    ;

    /// Reports the current status of the session.
    fn status(&mut self) -> (r: VpnStatus)
        ensures
            r@.wf(),
            old(self).reports(Operation::Status, r@),
    ;
}

} // verus!
