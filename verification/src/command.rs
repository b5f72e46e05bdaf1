//! The command layer: exact argument lists for every invocation of the
//! wrapped command-line tool, and the interpretation of a finished
//! invocation's captured output. The argument spellings are an external
//! contract with the tool and are pinned character for character.

use vstd::prelude::*;

use crate::error::AppError;
use crate::text::{bool_text, bool_str};

verus! {

/// Seconds a transfer status message stays on screen before it is cleared.
pub const STATUS_CLEAR_TIME: u64 = 5;

/// Ceiling, in seconds, on one receive invocation before it counts as
/// timed out.
pub const RECEIVE_TIMEOUT: u64 = 30;

/// One invocation of the wrapped tool: the program and its argument list.
#[derive(Debug, Clone)]
pub struct Cmd {
    pub program: String,
    pub args: Vec<String>,
}

impl Cmd {
    /// An invocation of the tool with no arguments yet.
    pub fn new() -> (c: Cmd)
        ensures
            c.program@ == "tailscale"@,
            c.args.deep_view() == Seq::<Seq<char>>::empty(),
    {
        let c = Cmd { program: String::from_str("tailscale"), args: Vec::new() };
        proof {
            assert(c.args.deep_view() =~= Seq::<Seq<char>>::empty());
        }
        c
    }

    /// Append one argument.
    pub fn arg(&mut self, a: String)
        ensures
            final(self).program == old(self).program,
            final(self).args.deep_view() == old(self).args.deep_view().push(a@),
    {
        let ghost old_dv = self.args.deep_view();
        let ghost old_vv = self.args@;
        self.args.push(a);
        proof {
            assert forall|j: int| 0 <= j < old_vv.len() implies self.args.deep_view()[j]
                == old_dv[j] by {
                assert(self.args@[j] == old_vv[j]);
            }
            assert(self.args.deep_view() =~= old_dv.push(self.args@.last()@));
        }
    }
}

/// The captured result of running one command to completion: either the
/// process ran (with its success flag, exit code, decoded standard output
/// when it was valid text, and standard error), or it could not be started.
#[derive(Debug, Clone)]
pub enum RawResult {
    Launched { ok: bool, code: i32, stdout: Option<String>, stderr: String },
    NotLaunched { msg: String },
}

/// When a finished invocation counts as successful: it started, reported a
/// success status, produced decodable output, and — where the caller asked
/// for a clean error stream — wrote nothing to standard error.
pub open spec fn launch_ok(r: RawResult, clean: bool) -> bool {
    match r {
        RawResult::Launched { ok, stdout, stderr, .. } => ok && stdout is Some && (clean
            ==> stderr@.len() == 0),
        RawResult::NotLaunched { .. } => false,
    }
}

/// Interpret one finished invocation: standard output on success, a
/// typed error otherwise.
pub fn interpret_output(r: RawResult, clean: bool) -> (res: Result<String, AppError>)
    ensures
        (res is Ok) == launch_ok(r, clean),
        match r {
            RawResult::NotLaunched { msg } => res == Err::<String, AppError>(
                AppError::ExecutionFailed(msg)),
            RawResult::Launched { ok, code, stdout, stderr } => match stdout {
                Option::None => res matches Err(AppError::ExecutionFailed(m)) && m@
                    == "output was not valid UTF-8"@,
                Option::Some(out) => if !ok || (clean && stderr@.len() > 0) {
                    res == Err::<String, AppError>(AppError::CommandFailed(code, stderr))
                } else {
                    res == Ok::<String, AppError>(out)
                },
            },
        },
{
    match r {
        RawResult::NotLaunched { msg } => Err(AppError::ExecutionFailed(msg)),
        RawResult::Launched { ok, code, stdout, stderr } => {
            match stdout {
                Option::None => Err(AppError::ExecutionFailed(String::from_str(
                    "output was not valid UTF-8"))),
                Option::Some(out) => {
                    if !ok {
                        Err(AppError::CommandFailed(code, stderr))
                    } else if clean && !stderr.as_str().is_empty() {
                        Err(AppError::CommandFailed(code, stderr))
                    } else {
                        Ok(out)
                    }
                },
            }
        },
    }
}

/// Arguments to report the assigned IPv4 address.
pub fn ip_cmd() -> (c: Cmd)
    ensures
        c.program@ == "tailscale"@,
        c.args.deep_view() == seq!["ip"@, "-4"@],
{
    let mut c = Cmd::new();
    c.arg(String::from_str("ip"));
    c.arg(String::from_str("-4"));
    proof {
        assert(c.args.deep_view() =~= seq!["ip"@, "-4"@]);
    }
    c
}

/// Arguments to report the running preference document.
pub fn prefs_cmd() -> (c: Cmd)
    ensures
        c.program@ == "tailscale"@,
        c.args.deep_view() == seq!["debug"@, "prefs"@],
{
    let mut c = Cmd::new();
    c.arg(String::from_str("debug"));
    c.arg(String::from_str("prefs"));
    proof {
        assert(c.args.deep_view() =~= seq!["debug"@, "prefs"@]);
    }
    c
}

/// Arguments to report peer status as line-oriented text.
pub fn status_cmd() -> (c: Cmd)
    ensures
        c.program@ == "tailscale"@,
        c.args.deep_view() == seq!["status"@],
{
    let mut c = Cmd::new();
    c.arg(String::from_str("status"));
    proof {
        assert(c.args.deep_view() =~= seq!["status"@]);
    }
    c
}

/// Arguments to report self-status as a structured document.
pub fn status_json_cmd() -> (c: Cmd)
    ensures
        c.program@ == "tailscale"@,
        c.args.deep_view() == seq!["status"@, "--json"@],
{
    let mut c = Cmd::new();
    c.arg(String::from_str("status"));
    c.arg(String::from_str("--json"));
    proof {
        assert(c.args.deep_view() =~= seq!["status"@, "--json"@]);
    }
    c
}

/// Arguments to list the available exit nodes.
pub fn exit_node_list_cmd() -> (c: Cmd)
    ensures
        c.program@ == "tailscale"@,
        c.args.deep_view() == seq!["exit-node"@, "list"@],
{
    let mut c = Cmd::new();
    c.arg(String::from_str("exit-node"));
    c.arg(String::from_str("list"));
    proof {
        assert(c.args.deep_view() =~= seq!["exit-node"@, "list"@]);
    }
    c
}

/// Arguments to list the known accounts.
pub fn acct_list_cmd() -> (c: Cmd)
    ensures
        c.program@ == "tailscale"@,
        c.args.deep_view() == seq!["switch"@, "--list"@],
{
    let mut c = Cmd::new();
    c.arg(String::from_str("switch"));
    c.arg(String::from_str("--list"));
    proof {
        assert(c.args.deep_view() =~= seq!["switch"@, "--list"@]);
    }
    c
}

/// Arguments to bring the link up or down.
pub fn tailscale_int_up(up: bool) -> (c: Cmd)
    ensures
        c.program@ == "tailscale"@,
        c.args.deep_view() == seq![if up { "up"@ } else { "down"@ }],
{
    let mut c = Cmd::new();
    if up {
        c.arg(String::from_str("up"));
    } else {
        c.arg(String::from_str("down"));
    }
    proof {
        assert(c.args.deep_view() =~= seq![if up { "up"@ } else { "down"@ }]);
    }
    c
}

/// The argument that sets a named preference flag on, or explicitly off.
pub open spec fn flag_arg(flag: Seq<char>, enabled: bool) -> Seq<char> {
    if enabled {
        "--"@ + flag
    } else {
        "--"@ + flag + "=false"@
    }
}

/// Arguments to set a named preference flag.
pub fn set_tailscale_flag(flag: &str, enabled: bool) -> (c: Cmd)
    ensures
        c.program@ == "tailscale"@,
        c.args.deep_view() == seq!["set"@, flag_arg(flag@, enabled)],
{
    let mut c = Cmd::new();
    c.arg(String::from_str("set"));
    let mut v = String::from_str("--");
    v.append(flag);
    if !enabled {
        v.append("=false");
    }
    c.arg(v);
    proof {
        assert(c.args.deep_view() =~= seq!["set"@, flag_arg(flag@, enabled)]);
    }
    c
}

/// Arguments to toggle SSH.
pub fn set_ssh(ssh: bool) -> (c: Cmd)
    ensures
        c.program@ == "tailscale"@,
        c.args.deep_view() == seq!["set"@, flag_arg("ssh"@, ssh)],
{
    set_tailscale_flag("ssh", ssh)
}

/// Arguments to toggle route acceptance.
pub fn set_routes(accept_routes: bool) -> (c: Cmd)
    ensures
        c.program@ == "tailscale"@,
        c.args.deep_view() == seq!["set"@, flag_arg("accept-routes"@, accept_routes)],
{
    set_tailscale_flag("accept-routes", accept_routes)
}

/// Arguments of the two-step sequence that makes this host an exit node
/// (or stops it being one): advertise the role, then force the link up,
/// since advertising is only effective once connected.
pub fn enable_exit_node(is_exit_node: bool) -> (cs: (Cmd, Cmd))
    ensures
        cs.0.program@ == "tailscale"@,
        cs.0.args.deep_view() == seq!["set"@, "--advertise-exit-node="@ + bool_text(
            is_exit_node)],
        cs.1.program@ == "tailscale"@,
        cs.1.args.deep_view() == seq!["up"@],
{
    let mut c = Cmd::new();
    c.arg(String::from_str("set"));
    let mut v = String::from_str("--advertise-exit-node=");
    let b = bool_str(is_exit_node);
    v.append(b.as_str());
    c.arg(v);
    proof {
        assert(c.args.deep_view() =~= seq!["set"@, "--advertise-exit-node="@ + bool_text(
            is_exit_node)]);
    }
    (c, tailscale_int_up(true))
}

/// The verdict of the two-step exit-node sequence: the second step's
/// failure reports overall failure even when the first step succeeded.
pub fn enable_exit_node_result(first_ok: bool, second_ok: bool) -> (r: bool)
    ensures
        r == (first_ok && second_ok),
{
    first_ok && second_ok
}

/// Arguments to allow or forbid an exit node access to the local LAN.
pub fn exit_node_allow_lan_access(is_allowed: bool) -> (c: Cmd)
    ensures
        c.program@ == "tailscale"@,
        c.args.deep_view() == seq!["set"@, "--exit-node-allow-lan-access="@ + bool_text(
            is_allowed)],
{
    let mut c = Cmd::new();
    c.arg(String::from_str("set"));
    let mut v = String::from_str("--exit-node-allow-lan-access=");
    let b = bool_str(is_allowed);
    v.append(b.as_str());
    c.arg(v);
    proof {
        assert(c.args.deep_view() =~= seq!["set"@, "--exit-node-allow-lan-access="@ + bool_text(
            is_allowed)]);
    }
    c
}

/// Arguments to select a named exit node; an empty name clears the
/// selection.
pub fn set_exit_node(exit_node: &str) -> (c: Cmd)
    ensures
        c.program@ == "tailscale"@,
        c.args.deep_view() == seq!["set"@, "--exit-node="@ + exit_node@],
{
    let mut c = Cmd::new();
    c.arg(String::from_str("set"));
    let mut v = String::from_str("--exit-node=");
    v.append(exit_node);
    c.arg(v);
    proof {
        assert(c.args.deep_view() =~= seq!["set"@, "--exit-node="@ + exit_node@]);
    }
    c
}

/// Arguments to switch to a named account.
pub fn switch_accounts(acct_name: &str) -> (c: Cmd)
    ensures
        c.program@ == "tailscale"@,
        c.args.deep_view() == seq!["switch"@, acct_name@],
{
    let mut c = Cmd::new();
    c.arg(String::from_str("switch"));
    c.arg(String::from_str(acct_name));
    proof {
        assert(c.args.deep_view() =~= seq!["switch"@, acct_name@]);
    }
    c
}

/// Arguments to copy one local file to a named peer.
pub fn send_file_cmd(path: &str, target: &str) -> (c: Cmd)
    ensures
        c.program@ == "tailscale"@,
        c.args.deep_view() == seq!["file"@, "cp"@, path@, target@ + ":"@],
{
    let mut c = Cmd::new();
    c.arg(String::from_str("file"));
    c.arg(String::from_str("cp"));
    c.arg(String::from_str(path));
    let mut t = String::from_str(target);
    t.append(":");
    c.arg(t);
    proof {
        assert(c.args.deep_view() =~= seq!["file"@, "cp"@, path@, target@ + ":"@]);
    }
    c
}

/// Arguments to fetch waiting files into a local directory.
pub fn receive_cmd(download_dir: &str) -> (c: Cmd)
    ensures
        c.program@ == "tailscale"@,
        c.args.deep_view() == seq!["file"@, "get"@, download_dir@],
{
    let mut c = Cmd::new();
    c.arg(String::from_str("file"));
    c.arg(String::from_str("get"));
    c.arg(String::from_str(download_dir));
    proof {
        assert(c.args.deep_view() =~= seq!["file"@, "get"@, download_dir@]);
    }
    c
}

/// The error text of one finished file-copy invocation: the tool's
/// diagnostic text when it wrote any, or a launch-failure report; nothing
/// when the transfer went through silently.
pub fn interpret_file_cp(path: &str, r: &RawResult) -> (e: Option<String>)
    ensures
        r matches RawResult::Launched { stderr, .. } ==> if stderr@.len() > 0 {
            e matches Some(m) && m@ == stderr@
        } else {
            e is None
        },
        r matches RawResult::NotLaunched { msg } ==> e matches Some(m) && m@ == "Failed to send "@
            + path@ + ": "@ + msg@,
{
    match r {
        RawResult::Launched { stderr, .. } => {
            if stderr.as_str().is_empty() {
                Option::None
            } else {
                Option::Some(stderr.clone())
            }
        },
        RawResult::NotLaunched { msg } => {
            let mut m = String::from_str("Failed to send ");
            m.append(path);
            m.append(": ");
            m.append(msg.as_str());
            Option::Some(m)
        },
    }
}

/// Overall verdict of a send batch: an error banner as soon as any single
/// file reported error text, nothing when every transfer was silent.
pub fn tailscale_send(per_file: &Vec<Option<String>>) -> (r: Option<String>)
    ensures
        (r is Some) == (exists|i: int| 0 <= i < per_file@.len() && per_file@[i] is Some),
        r matches Some(m) ==> m@ == "One or more files were not sent successfully!"@,
{
    let n = per_file.len();
    let mut i: usize = 0;
    while i < n
        invariant
            n == per_file@.len(),
            0 <= i <= n,
            forall|k: int| 0 <= k < i ==> per_file@[k] is None,
        decreases n - i,
    {
        if per_file[i].is_some() {
            return Option::Some(String::from_str("One or more files were not sent successfully!"));
        }
        i = i + 1;
    }
    Option::None
}

/// How one attempt to receive files ended: the well-known downloads
/// location was unavailable, the bounded invocation ran out of time, or
/// the invocation completed with a captured result.
#[derive(Debug, Clone)]
pub enum ReceiveOutcome {
    NoDownloadDir,
    TimedOut,
    Completed(RawResult),
}

/// The status text a receive attempt shows for each outcome.
pub open spec fn receive_status_of(o: ReceiveOutcome) -> Seq<char> {
    match o {
        ReceiveOutcome::NoDownloadDir => "Could not determine Downloads directory!"@,
        ReceiveOutcome::TimedOut => "Receiving files timed out!"@,
        ReceiveOutcome::Completed(RawResult::Launched { stderr, .. }) => if stderr@.len() == 0 {
            "Received file(s) in Downloads!"@
        } else {
            stderr@
        },
        ReceiveOutcome::Completed(RawResult::NotLaunched { msg }) => "Failed to receive files: "@
            + msg@,
    }
}

/// Turn a receive outcome into its status text.
pub fn tailscale_receive(o: ReceiveOutcome) -> (r: String)
    ensures
        r@ == receive_status_of(o),
{
    match o {
        ReceiveOutcome::NoDownloadDir => String::from_str(
            "Could not determine Downloads directory!"),
        ReceiveOutcome::TimedOut => String::from_str("Receiving files timed out!"),
        ReceiveOutcome::Completed(RawResult::Launched { stderr, .. }) => {
            if stderr.as_str().is_empty() {
                String::from_str("Received file(s) in Downloads!")
            } else {
                stderr
            }
        },
        ReceiveOutcome::Completed(RawResult::NotLaunched { msg }) => {
            let mut m = String::from_str("Failed to receive files: ");
            m.append(msg.as_str());
            m
        },
    }
}

} // verus!
