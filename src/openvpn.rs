//! The OpenVPN 3 backend: the command lines it is driven with and the
//! classification of what those commands print.
use vstd::prelude::*;

use crate::text::{
    chars_of, contains, contains_at, equals_at, is_space, lemma_line_end_at, lines, occurs_at,
    starts_with, starts_with_at, strip_cr, trim, trim_bounds, trim_end, trim_start,
};
use crate::vpn::{Operation, StatusView, VpnStatus};

verus! {

/// The status line's value when a web login must complete the connection.
pub open spec fn auth_pending_text() -> Seq<char> {
    "Web authentication required to connect"@
}

/// The status line's value when the session is established.
pub open spec fn connected_text() -> Seq<char> {
    "Connection, Client connected"@
}

/// The diagnostic for a status value that is not recognised.
pub open spec fn unknown_status(v: Seq<char>) -> StatusView {
    StatusView::Error("unknown session status: "@ + v)
}

/// The status named by the value of a `Status:` line.
pub open spec fn session_state(v: Seq<char>) -> StatusView {
    if v == auth_pending_text() {
        StatusView::Authenticating
    } else if v == connected_text() {
        StatusView::Connected
    } else {
        unknown_status(v)
    }
}

/// What one line of a session listing says: a `Status:` line names the
/// status, a line that reports no sessions means disconnected, and any other
/// line says nothing.
pub open spec fn line_verdict(l: Seq<char>) -> Option<StatusView> {
    let t = trim(l);
    if starts_with(t, "Status:"@) {
        Some(session_state(trim(t.subrange("Status:"@.len() as int, t.len() as int))))
    } else if contains(t, "No sessions available"@) {
        Some(StatusView::Disconnected)
    } else {
        None
    }
}

/// The verdict of the first line that says something.
pub open spec fn first_verdict(ls: Seq<Seq<char>>) -> Option<StatusView>
    decreases ls.len(),
{
    if ls.len() == 0 {
        None
    } else {
        match line_verdict(ls[0]) {
            Some(v) => Some(v),
            None => first_verdict(ls.drop_first()),
        }
    }
}

/// The status that a session listing reports; a listing in which no line says
/// anything is reported, trimmed, as an unknown status.
pub open spec fn listing_status(out: Seq<char>) -> StatusView {
    match first_verdict(lines(out)) {
        Some(v) => v,
        None => unknown_status(trim(out)),
    }
}

/// The marker with which the backend flags a failed command.
pub open spec fn error_marker() -> Seq<char> {
    "** ERROR **"@
}

/// The status after a session start printed `out` and `err`: nothing printed
/// is a failure whose diagnostic is the error output; output that carries the
/// error marker is a failure whose diagnostic is that output; any other output
/// means the session is being set up.
pub open spec fn connect_outcome(out: Seq<char>, err: Seq<char>) -> StatusView {
    if out.len() == 0 {
        if trim(err).len() > 0 {
            StatusView::Error(trim(err))
        } else {
            StatusView::Error("unable to connect"@)
        }
    } else if contains(out, error_marker()) {
        StatusView::Error(trim(out))
    } else {
        StatusView::Connecting
    }
}

/// The status after a disconnect printed `out`: output that carries the
/// error marker is a failure, anything else means disconnected.
pub open spec fn disconnect_outcome(out: Seq<char>) -> StatusView {
    if contains(out, error_marker()) {
        StatusView::Error(trim(out))
    } else {
        StatusView::Disconnected
    }
}

/// The status when the backend could not be run at all for `op`.
pub open spec fn launch_failure_status(op: Operation) -> StatusView {
    match op {
        Operation::Connect => StatusView::Error("unable to connect"@),
        Operation::Disconnect => StatusView::Error("unable to disconnect"@),
        Operation::Status => StatusView::Error("unable to determine status"@),
    }
}

/// The status that the output of the command run for `op` reports.
pub open spec fn outcome(op: Operation, out: Seq<char>, err: Seq<char>) -> StatusView {
    match op {
        Operation::Connect => connect_outcome(out, err),
        Operation::Disconnect => disconnect_outcome(out),
        Operation::Status => listing_status(out),
    }
}

/// The arguments given to the client for `op`, with `config` the path of the
/// configuration file.
pub open spec fn command_arguments(op: Operation, config: Seq<char>) -> Seq<Seq<char>> {
    match op {
        Operation::Connect => seq!["session-start"@, "--config"@, config],
        Operation::Disconnect => seq!["session-manage"@, "--disconnect"@, "--config"@, config],
        Operation::Status => seq!["sessions-list"@],
    }
}

/// The arguments that ask the client for the statistics of the session.
pub open spec fn stats_arguments(config: Seq<char>) -> Seq<Seq<char>> {
    seq!["session-stats"@, "--config"@, config]
}

/// The statistics that a statistics request printed, or the failure that
/// the error marker in them reports.
pub open spec fn stats_outcome(out: Seq<char>) -> Result<Seq<char>, Seq<char>> {
    if contains(out, error_marker()) {
        Err("Error getting stats"@)
    } else {
        Ok(out)
    }
}

proof fn lemma_literals_nonempty()
    ensures
        "unknown session status: "@.len() > 0,
        "unable to connect"@.len() > 0,
        "unable to disconnect"@.len() > 0,
        "unable to determine status"@.len() > 0,
{
    reveal_strlit("unknown session status: ");
    reveal_strlit("unable to connect");
    reveal_strlit("unable to disconnect");
    reveal_strlit("unable to determine status");
}

/// Text that holds a non-empty pattern is not blank once trimmed.
proof fn lemma_contains_nonblank(s: Seq<char>, p: Seq<char>)
    requires
        contains(s, p),
        p.len() > 0,
        !is_space(p[0]),
    ensures
        trim(s).len() > 0,
{
    let i = choose|i: int| occurs_at(s, p, i);
    assert(s[i] == p[0]) by {
        assert(s.subrange(i, i + p.len())[0] == s[i]);
    }
    lemma_trim_keeps(s, i);
}

/// Trimming keeps every character that is not whitespace.
proof fn lemma_trim_keeps(s: Seq<char>, i: int)
    requires
        0 <= i < s.len(),
        !is_space(s[i]),
    ensures
        trim(s).len() > 0,
{
    lemma_trim_start_keeps(s, i);
    let u = trim_start(s);
    lemma_trim_end_nonempty(u);
}

proof fn lemma_trim_start_keeps(s: Seq<char>, i: int)
    requires
        0 <= i < s.len(),
        !is_space(s[i]),
    ensures
        trim_start(s).len() > 0,
        !is_space(trim_start(s)[0]),
    decreases s.len(),
{
    if is_space(s[0]) {
        assert(s.drop_first()[i - 1] == s[i]);
        lemma_trim_start_keeps(s.drop_first(), i - 1);
    }
}

proof fn lemma_trim_end_nonempty(u: Seq<char>)
    requires
        u.len() > 0,
        !is_space(u[0]),
    ensures
        trim_end(u).len() > 0,
    decreases u.len(),
{
    if is_space(u.last()) {
        assert(u.len() > 1);
        assert(u.drop_last()[0] == u[0]);
        lemma_trim_end_nonempty(u.drop_last());
    }
}

/// The character sequences that a session listing is matched against.
struct ListingPatterns {
    status_prefix: Vec<char>,
    no_sessions: Vec<char>,
    auth_pending: Vec<char>,
    connected: Vec<char>,
}

impl ListingPatterns {
    spec fn wf(&self) -> bool {
        &&& self.status_prefix@ == "Status:"@
        &&& self.no_sessions@ == "No sessions available"@
        &&& self.auth_pending@ == auth_pending_text()
        &&& self.connected@ == connected_text()
    }

    fn new() -> (r: ListingPatterns)
        ensures
            r.wf(),
    {
        ListingPatterns {
            status_prefix: chars_of("Status:"),
            no_sessions: chars_of("No sessions available"),
            auth_pending: chars_of("Web authentication required to connect"),
            connected: chars_of("Connection, Client connected"),
        }
    }
}

/// An error whose diagnostic is `text[from..to]`.
fn error_of(text: &str, from: usize, to: usize) -> (r: VpnStatus)
    requires
        from <= to <= text@.len(),
    ensures
        r@ == StatusView::Error(text@.subrange(from as int, to as int)),
{
    VpnStatus::Error(String::from_str(text.substring_char(from, to)))
}

/// Whether `text` holds the error marker, and the bounds of `text` trimmed.
fn marker_and_trim(text: &str) -> (r: (bool, usize, usize))
    ensures
        r.0 == contains(text@, error_marker()),
        r.1 <= r.2 <= text@.len(),
        text@.subrange(r.1 as int, r.2 as int) == trim(text@),
        r.0 ==> r.1 < r.2,
{
    let t = chars_of(text);
    let marker = chars_of("** ERROR **");
    let n = t.len();
    assert(t@.subrange(0, n as int) =~= t@);
    let found = contains_at(&t, 0, n, &marker);
    let (a, b) = trim_bounds(&t, 0, n);
    proof {
        if found {
            reveal_strlit("** ERROR **");
            lemma_contains_nonblank(text@, error_marker());
        }
    }
    (found, a, b)
}

/// An error whose diagnostic is `prefix` followed by `text[from..to]`.
fn error_with(prefix: &str, text: &str, from: usize, to: usize) -> (r: VpnStatus)
    requires
        from <= to <= text@.len(),
    ensures
        r@ == StatusView::Error(prefix@ + text@.subrange(from as int, to as int)),
{
    let mut m = String::from_str(prefix);
    m.append(text.substring_char(from, to));
    VpnStatus::Error(m)
}

/// The status named by the status value `out[from..to]`.
fn status_from_value(out: &str, t: &Vec<char>, from: usize, to: usize, pats: &ListingPatterns) -> (r:
    VpnStatus)
    requires
        t@ == out@,
        from <= to <= t@.len(),
        pats.wf(),
    ensures
        r@ == session_state(t@.subrange(from as int, to as int)),
{
    if equals_at(t, from, to, &pats.auth_pending) {
        VpnStatus::Authenticating
    } else if equals_at(t, from, to, &pats.connected) {
        VpnStatus::Connected
    } else {
        error_with("unknown session status: ", out, from, to)
    }
}

/// What the line `out[from..to]` of a session listing says.
fn line_verdict_at(out: &str, t: &Vec<char>, from: usize, to: usize, pats: &ListingPatterns) -> (r:
    Option<VpnStatus>)
    requires
        t@ == out@,
        from <= to <= t@.len(),
        pats.wf(),
    ensures
        match r {
            Some(s) => line_verdict(t@.subrange(from as int, to as int)) == Some(s@),
            None => line_verdict(t@.subrange(from as int, to as int)) is None,
        },
{
    let ghost l = t@.subrange(from as int, to as int);
    let (a, b) = trim_bounds(t, from, to);
    if starts_with_at(t, a, b, &pats.status_prefix) {
        let (c, d) = trim_bounds(t, a + pats.status_prefix.len(), b);
        proof {
            let tl = trim(l);
            assert(tl.subrange("Status:"@.len() as int, tl.len() as int) =~= t@.subrange(
                a + pats.status_prefix@.len(),
                b as int,
            ));
        }
        Some(status_from_value(out, t, c, d, pats))
    } else if contains_at(t, a, b, &pats.no_sessions) {
        Some(VpnStatus::Disconnected)
    } else {
        None
    }
}

/// Every status that classification produces carries a diagnostic when it is an error.
proof fn lemma_session_state_wf(v: Seq<char>)
    ensures
        session_state(v).wf(),
        unknown_status(v).wf(),
{
    lemma_literals_nonempty();
}

proof fn lemma_first_verdict_wf(ls: Seq<Seq<char>>)
    ensures
        first_verdict(ls) matches Some(v) ==> v.wf(),
    decreases ls.len(),
{
    if ls.len() > 0 {
        let t = trim(ls[0]);
        lemma_session_state_wf(trim(t.subrange("Status:"@.len() as int, t.len() as int)));
        lemma_first_verdict_wf(ls.drop_first());
    }
}

/// The status that a session listing reports carries a diagnostic when it is an error.
pub proof fn lemma_listing_status_wf(out: Seq<char>)
    ensures
        listing_status(out).wf(),
{
    lemma_first_verdict_wf(lines(out));
    lemma_session_state_wf(trim(out));
}

/// A status value that is not recognised is reported as an unknown session
/// status that carries the value, never as connected or disconnected.
pub proof fn lemma_unknown_status_text(v: Seq<char>)
    requires
        v != auth_pending_text(),
        v != connected_text(),
    ensures
        session_state(v) == StatusView::Error("unknown session status: "@ + v),
        session_state(v) != StatusView::Connected,
        session_state(v) != StatusView::Disconnected,
{
}

/// The OpenVPN 3 command-line client, driven with one configuration file.
#[derive(Clone, Debug)]
pub struct OpenVpn {
    config: String,
}

impl OpenVpn {
    /// A backend that uses the configuration file at `config`.
    pub fn new(config: String) -> (r: OpenVpn)
        ensures
            r.config_path()@ == config@,
    {
        OpenVpn { config }
    }

    /// The configuration file's path.
    pub closed spec fn config_path(&self) -> String {
        self.config
    }

    /// The status that the session listing `stdout` reports: the first line
    /// that is a `Status:` line or reports that there are no sessions decides.
    pub fn determine_status(stdout: &str) -> (r: VpnStatus)
        ensures
            r@ == listing_status(stdout@),
            r@.wf(),
    {
        proof {
            lemma_listing_status_wf(stdout@);
        }
        let pats = ListingPatterns::new();
        let t = chars_of(stdout);
        let n = t.len();
        let mut pos: usize = 0;
        assert(t@.subrange(0, n as int) =~= t@);
        while pos < n
            invariant
                t@ == stdout@,
                n == t@.len(),
                pos <= n,
                pats.wf(),
                listing_status(stdout@).wf(),
                first_verdict(lines(t@)) == first_verdict(lines(t@.subrange(pos as int, n as int))),
            decreases n - pos,
        {
            let ghost rest = t@.subrange(pos as int, n as int);
            let mut e = pos;
            while e < n && t[e] != '\n'
                invariant
                    pos <= e <= n == t@.len(),
                    forall|k: int| pos <= k < e ==> t@[k] != '\n',
                decreases n - e,
            {
                e = e + 1;
            }
            let end = if e > pos && t[e - 1] == '\r' {
                e - 1
            } else {
                e
            };
            proof {
                lemma_line_end_at(rest, e - pos);
                assert(strip_cr(rest.subrange(0, e - pos)) =~= t@.subrange(pos as int, end as int));
                assert(e >= n ==> strip_cr(rest) =~= t@.subrange(pos as int, end as int));
                if e < n {
                    assert(rest.subrange(e - pos + 1, rest.len() as int) =~= t@.subrange(
                        e + 1,
                        n as int,
                    ));
                    let ls = lines(rest);
                    assert(ls.drop_first() =~= lines(t@.subrange(e + 1, n as int)));
                } else {
                    assert(lines(rest).drop_first() =~= lines(t@.subrange(n as int, n as int)));
                }
            }
            match line_verdict_at(stdout, &t, pos, end, &pats) {
                Some(v) => {
                    return v;
                },
                None => {},
            }
            pos = if e < n {
                e + 1
            } else {
                n
            };
        }
        assert(t@.subrange(n as int, n as int) =~= Seq::<char>::empty());
        assert(t@.subrange(0, n as int) =~= t@);
        let (a, b) = trim_bounds(&t, 0, n);
        error_with("unknown session status: ", stdout, a, b)
    }

    /// The status after a session start printed `stdout` and `stderr`.
    pub fn check_connect_response(stdout: &str, stderr: &str) -> (r: VpnStatus)
        ensures
            r@ == connect_outcome(stdout@, stderr@),
            r@.wf(),
    {
        proof {
            lemma_literals_nonempty();
        }
        if stdout.unicode_len() == 0 {
            let e = chars_of(stderr);
            let n = e.len();
            assert(e@.subrange(0, n as int) =~= e@);
            let (a, b) = trim_bounds(&e, 0, n);
            if a < b {
                error_of(stderr, a, b)
            } else {
                VpnStatus::error("unable to connect")
            }
        } else {
            let (failed, a, b) = marker_and_trim(stdout);
            if failed {
                error_of(stdout, a, b)
            } else {
                VpnStatus::Connecting
            }
        }
    }

    /// The status after a disconnect printed `stdout`.
    pub fn check_disconnect_response(stdout: &str) -> (r: VpnStatus)
        ensures
            r@ == disconnect_outcome(stdout@),
            r@.wf(),
    {
        let (failed, a, b) = marker_and_trim(stdout);
        if failed {
            error_of(stdout, a, b)
        } else {
            VpnStatus::Disconnected
        }
    }

    /// The statistics that a statistics request printed as `stdout`, or the
    /// failure that it reports.
    pub fn check_stats_response(stdout: &str) -> (r: Result<String, String>)
        ensures
            match r {
                Ok(s) => stats_outcome(stdout@) == Ok::<Seq<char>, Seq<char>>(s@),
                Err(e) => stats_outcome(stdout@) == Err::<Seq<char>, Seq<char>>(e@),
            },
    {
        let (failed, _a, _b) = marker_and_trim(stdout);
        if failed {
            Err(String::from_str("Error getting stats"))
        } else {
            Ok(String::from_str(stdout))
        }
    }

    /// The failure reported when the client could not be run at all to ask
    /// for the session's statistics.
    pub fn stats_launch_failure() -> (r: String)
        ensures
            r@ == "Unable to determine status"@,
    {
        String::from_str("Unable to determine status")
    }

    /// The status when the client could not be run at all for `op`.
    pub fn launch_failure(op: Operation) -> (r: VpnStatus)
        ensures
            r@ == launch_failure_status(op),
            r@.wf(),
    {
        proof {
            lemma_literals_nonempty();
        }
        match op {
            Operation::Connect => VpnStatus::error("unable to connect"),
            Operation::Disconnect => VpnStatus::error("unable to disconnect"),
            Operation::Status => VpnStatus::error("unable to determine status"),
        }
    }

    /// The status that the output of the command run for `op` reports.
    pub fn outcome(op: Operation, stdout: &str, stderr: &str) -> (r: VpnStatus)
        ensures
            r@ == outcome(op, stdout@, stderr@),
            r@.wf(),
    {
        match op {
            Operation::Connect => OpenVpn::check_connect_response(stdout, stderr),
            Operation::Disconnect => OpenVpn::check_disconnect_response(stdout),
            Operation::Status => OpenVpn::determine_status(stdout),
        }
    }

    /// The program that is run.
    pub fn program() -> (r: &'static str)
        ensures
            r@ == "openvpn3"@,
    {
        "openvpn3"
    }

    /// The arguments with which the client is run for `op`.
    pub fn arguments(&self, op: Operation) -> (r: Vec<String>)
        ensures
            r.deep_view() == command_arguments(op, self.config_path()@),
    {
        let mut r: Vec<String> = Vec::new();
        match op {
            Operation::Connect => {
                r.push(String::from_str("session-start"));
                r.push(String::from_str("--config"));
                r.push(self.config.clone());
            },
            Operation::Disconnect => {
                r.push(String::from_str("session-manage"));
                r.push(String::from_str("--disconnect"));
                r.push(String::from_str("--config"));
                r.push(self.config.clone());
            },
            Operation::Status => {
                r.push(String::from_str("sessions-list"));
            },
        }
        assert(r.deep_view() =~= command_arguments(op, self.config_path()@));
        r
    }

    /// The arguments with which the client is asked for the session's statistics.
    pub fn stats_arguments(&self) -> (r: Vec<String>)
        ensures
            r.deep_view() == stats_arguments(self.config_path()@),
    {
        let mut r: Vec<String> = Vec::new();
        r.push(String::from_str("session-stats"));
        r.push(String::from_str("--config"));
        r.push(self.config.clone());
        assert(r.deep_view() =~= stats_arguments(self.config_path()@));
        r
    }

    /// The configuration file's path.
    pub fn config(&self) -> (r: &String)
        ensures
            r@ == self.config_path()@,
    {
        &self.config
    }
}

} // verus!
