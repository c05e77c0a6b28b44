use std::cell::RefCell;
use std::rc::Rc;

use openvpn_sys::coordinator::{
    toggle_command, Command, ConnectionCoordinator, ConnectionState, StatusSink,
};
use openvpn_sys::dummyvpn::DummyVpn;
use openvpn_sys::openvpn::OpenVpn;
use openvpn_sys::vpn::{Operation, VpnConnector, VpnStatus};
use openvpn_sys::{create_vpn_connector, ConnectorType, VpnBackend, OPEN_VPN_CONFIG};

/// A backend that answers from scripts and records what it was asked.
struct Scripted {
    connect: Vec<VpnStatus>,
    disconnect: Vec<VpnStatus>,
    status: Vec<VpnStatus>,
    log: Vec<String>,
    busy: bool,
}

impl Scripted {
    fn new(connect: Vec<VpnStatus>, disconnect: Vec<VpnStatus>, status: Vec<VpnStatus>) -> Self {
        Scripted { connect, disconnect, status, log: Vec::new(), busy: false }
    }

    fn call(&mut self, name: &str, answer: VpnStatus) -> VpnStatus {
        assert!(!self.busy, "a backend call started while another was under way");
        self.busy = true;
        self.log.push(format!("start {}", name));
        self.log.push(format!("end {}", name));
        self.busy = false;
        answer
    }
}

impl VpnConnector for Scripted {
    fn connect(&mut self) -> VpnStatus {
        let a = self.connect.remove(0);
        self.call("connect", a)
    }

    fn disconnect(&mut self) -> VpnStatus {
        let a = self.disconnect.remove(0);
        self.call("disconnect", a)
    }

    fn status(&mut self) -> VpnStatus {
        let a = self.status.remove(0);
        self.call("status", a)
    }
}

fn run<C: VpnConnector>(c: &mut ConnectionCoordinator<C>, cmd: Command) -> Vec<VpnStatus> {
    let mut notes = Vec::new();
    c.submit(cmd, &mut notes);
    notes
}

fn refresh<C: VpnConnector>(c: &mut ConnectionCoordinator<C>) -> Vec<VpnStatus> {
    let mut notes = Vec::new();
    c.refresh_status(&mut notes);
    notes
}

fn toggle<C: VpnConnector>(c: &mut ConnectionCoordinator<C>) -> Vec<VpnStatus> {
    let mut notes = Vec::new();
    c.toggle(&mut notes);
    notes
}

/// A backend and a sink that write to one shared log.
struct LoggedBackend {
    log: Rc<RefCell<Vec<String>>>,
    answer: VpnStatus,
}

impl VpnConnector for LoggedBackend {
    fn connect(&mut self) -> VpnStatus {
        self.log.borrow_mut().push(String::from("backend connect"));
        self.answer.clone()
    }

    fn disconnect(&mut self) -> VpnStatus {
        self.log.borrow_mut().push(String::from("backend disconnect"));
        self.answer.clone()
    }

    fn status(&mut self) -> VpnStatus {
        self.log.borrow_mut().push(String::from("backend status"));
        self.answer.clone()
    }
}

struct LoggedSink {
    log: Rc<RefCell<Vec<String>>>,
}

impl StatusSink for LoggedSink {
    fn notify(&mut self, status: &VpnStatus) {
        self.log.borrow_mut().push(format!("notify {}", status.to_string()));
    }
}

#[test]
fn immediate_status_is_delivered_before_the_backend_call() {
    let log = Rc::new(RefCell::new(Vec::new()));
    let backend = LoggedBackend { log: log.clone(), answer: VpnStatus::Authenticating };
    let mut sink = LoggedSink { log: log.clone() };
    let mut c = ConnectionCoordinator::new(backend);
    c.submit(Command::Connect, &mut sink);
    assert_eq!(
        *log.borrow(),
        vec!["notify Initialising", "backend connect", "notify Authenticating"]
    );
}

#[test]
fn begin_then_complete() {
    let mut c = ConnectionCoordinator::new(DummyVpn::new());
    let step = c.begin(Command::Connect);
    assert_eq!(step.notify, Some(VpnStatus::Initialising));
    assert_eq!(step.call, Some(Operation::Connect));
    assert_eq!(*c.status(), VpnStatus::Initialising);
    assert_eq!(c.complete(), Some(VpnStatus::Connecting));
    assert_eq!(*c.status(), VpnStatus::Connecting);
    let step = c.begin(Command::Connect);
    assert_eq!(step.notify, None);
    assert_eq!(step.call, None);
}

#[test]
fn starts_disconnected() {
    let c = ConnectionCoordinator::new(Scripted::new(vec![], vec![], vec![]));
    assert_eq!(*c.status(), VpnStatus::Disconnected);
}

#[test]
fn commands_run_one_at_a_time_in_order() {
    let s = Scripted::new(
        vec![VpnStatus::Connecting],
        vec![VpnStatus::Disconnected],
        vec![VpnStatus::Connected, VpnStatus::Connected],
    );
    let mut c = ConnectionCoordinator::new(s);
    run(&mut c, Command::Connect);
    run(&mut c, Command::QueryStatus);
    run(&mut c, Command::Connect);
    run(&mut c, Command::Disconnect);
    run(&mut c, Command::QueryStatus);
    let log: Vec<&str> = c.connector().log.iter().map(|l| l.as_str()).collect();
    assert_eq!(
        log,
        vec![
            "start connect",
            "end connect",
            "start status",
            "end status",
            "start disconnect",
            "end disconnect",
            "start status",
            "end status"
        ]
    );
}

#[test]
fn connect_while_connected_is_silent() {
    let s = Scripted::new(vec![VpnStatus::Connected], vec![], vec![VpnStatus::Connected]);
    let mut c = ConnectionCoordinator::new(s);
    assert_eq!(run(&mut c, Command::QueryStatus), vec![VpnStatus::Connected]);
    let calls = c.connector().log.len();
    assert_eq!(run(&mut c, Command::Connect), Vec::<VpnStatus>::new());
    assert_eq!(c.connector().log.len(), calls);
    assert_eq!(*c.status(), VpnStatus::Connected);
}

#[test]
fn disconnect_while_not_connected_is_silent() {
    let mut c = ConnectionCoordinator::new(Scripted::new(vec![], vec![], vec![]));
    assert_eq!(run(&mut c, Command::Disconnect), Vec::<VpnStatus>::new());
    assert!(c.connector().log.is_empty());
    assert_eq!(*c.status(), VpnStatus::Disconnected);
}

#[test]
fn repeated_query_reports_once() {
    let s = Scripted::new(vec![], vec![], vec![VpnStatus::Connected, VpnStatus::Connected]);
    let mut c = ConnectionCoordinator::new(s);
    let mut all = Vec::new();
    c.refresh_status(&mut all);
    c.refresh_status(&mut all);
    assert_eq!(all, vec![VpnStatus::Connected]);
}

#[test]
fn unchanged_query_reports_nothing() {
    let s = Scripted::new(vec![], vec![], vec![VpnStatus::Disconnected]);
    let mut c = ConnectionCoordinator::new(s);
    assert_eq!(refresh(&mut c), Vec::<VpnStatus>::new());
}

#[test]
fn connect_then_disconnect_round_trip() {
    let connected = OpenVpn::determine_status("Status: Connection, Client connected\n");
    let disconnected = OpenVpn::check_disconnect_response("");
    let s = Scripted::new(vec![connected], vec![disconnected], vec![]);
    let mut c = ConnectionCoordinator::new(s);
    assert_eq!(run(&mut c, Command::Connect), vec![VpnStatus::Initialising, VpnStatus::Connected]);
    assert_eq!(*c.status(), VpnStatus::Connected);
    assert_eq!(
        run(&mut c, Command::Disconnect),
        vec![VpnStatus::Disconnecting, VpnStatus::Disconnected]
    );
    assert_eq!(*c.status(), VpnStatus::Disconnected);
}

#[test]
fn unknown_backend_text_is_stored_as_error() {
    let s = Scripted::new(vec![], vec![], vec![OpenVpn::determine_status("frobnicated")]);
    let mut c = ConnectionCoordinator::new(s);
    let e = VpnStatus::Error(String::from("unknown session status: frobnicated"));
    assert_eq!(refresh(&mut c), vec![e.clone()]);
    assert_eq!(*c.status(), e);
}

#[test]
fn connect_waits_for_web_login_then_connects() {
    let s = Scripted::new(vec![VpnStatus::Authenticating], vec![], vec![VpnStatus::Connected]);
    let mut c = ConnectionCoordinator::new(s);
    assert_eq!(
        run(&mut c, Command::Connect),
        vec![VpnStatus::Initialising, VpnStatus::Authenticating]
    );
    assert_eq!(run(&mut c, Command::QueryStatus), vec![VpnStatus::Connected]);
}

#[test]
fn connect_that_cannot_run_reports_error() {
    let failed = OpenVpn::launch_failure(Operation::Connect);
    let mut c = ConnectionCoordinator::new(Scripted::new(vec![failed], vec![], vec![]));
    assert_eq!(
        run(&mut c, Command::Connect),
        vec![VpnStatus::Initialising, VpnStatus::Error(String::from("unable to connect"))]
    );
}

#[test]
fn error_is_recovered_by_a_status_refresh() {
    let failed = OpenVpn::launch_failure(Operation::Connect);
    let s = Scripted::new(vec![failed, VpnStatus::Connecting], vec![], vec![VpnStatus::Disconnected]);
    let mut c = ConnectionCoordinator::new(s);
    run(&mut c, Command::Connect);
    assert_eq!(run(&mut c, Command::Connect), Vec::<VpnStatus>::new());
    assert_eq!(refresh(&mut c), vec![VpnStatus::Disconnected]);
    assert_eq!(run(&mut c, Command::Connect), vec![VpnStatus::Initialising, VpnStatus::Connecting]);
}

#[test]
fn same_result_as_immediate_status_is_not_repeated() {
    let s = Scripted::new(vec![VpnStatus::Initialising], vec![], vec![]);
    let mut c = ConnectionCoordinator::new(s);
    assert_eq!(run(&mut c, Command::Connect), vec![VpnStatus::Initialising]);
}

#[test]
fn toggle_picks_the_command_from_the_status() {
    assert_eq!(toggle_command(&VpnStatus::Connected), Command::Disconnect);
    assert_eq!(toggle_command(&VpnStatus::Disconnected), Command::Connect);
    assert_eq!(toggle_command(&VpnStatus::Connecting), Command::Connect);
    let s = Scripted::new(vec![VpnStatus::Connected], vec![VpnStatus::Disconnected], vec![]);
    let mut c = ConnectionCoordinator::new(s);
    assert_eq!(toggle(&mut c), vec![VpnStatus::Initialising, VpnStatus::Connected]);
    assert_eq!(toggle(&mut c), vec![VpnStatus::Disconnecting, VpnStatus::Disconnected]);
}

#[test]
fn state_machine_steps() {
    let mut st = ConnectionState::new();
    assert!(st.is_idle());
    let step = st.begin(Command::Connect);
    assert_eq!(step.call, Some(Operation::Connect));
    assert_eq!(step.notify, Some(VpnStatus::Initialising));
    assert!(!st.is_idle());
    assert_eq!(*st.status(), VpnStatus::Initialising);
    assert_eq!(st.finish(VpnStatus::Connecting), Some(VpnStatus::Connecting));
    assert!(st.is_idle());
    let step = st.begin(Command::QueryStatus);
    assert_eq!(step.call, Some(Operation::Status));
    assert_eq!(step.notify, None);
    assert_eq!(st.finish(VpnStatus::Connecting), None);
    let step = st.begin(Command::Disconnect);
    assert_eq!(step.call, None);
    assert!(st.is_idle());
}

#[test]
fn dummy_backend_answers() {
    let mut d = DummyVpn::new();
    assert_eq!(d.connect(), VpnStatus::Connecting);
    assert_eq!(d.disconnect(), VpnStatus::Disconnected);
    assert_eq!(d.status(), VpnStatus::Disconnected);
    let mut c = ConnectionCoordinator::new(d);
    assert_eq!(run(&mut c, Command::Connect), vec![VpnStatus::Initialising, VpnStatus::Connecting]);
    assert_eq!(refresh(&mut c), vec![VpnStatus::Disconnected]);
}

#[test]
fn create_connector_of_each_kind() {
    assert!(matches!(create_vpn_connector(ConnectorType::Dummy), VpnBackend::Dummy(_)));
    match create_vpn_connector(ConnectorType::Open) {
        VpnBackend::Open(v) => assert_eq!(v.config(), OPEN_VPN_CONFIG),
        VpnBackend::Dummy(_) => panic!("expected the OpenVPN backend"),
    }
}
