//! The state aggregator: one pass over the raw results of the batch of
//! tool invocations produces one snapshot, with a per-field fallback so a
//! single failing call never aborts the whole pass.

use vstd::prelude::*;

use crate::error::AppError;
use crate::parsers::{ip_of, get_tailscale_ip, pref_of, exit_node_pref_of,
    get_tailscale_con_status, get_tailscale_ssh_status, get_tailscale_routes_status,
    get_exit_node_status, devices_of, get_tailscale_devices, exit_nodes_of, get_avail_exit_nodes,
    accounts_of, get_acct_list, current_account_of, get_current_acct};

verus! {

/// All backend-reported state gathered in one batch.
#[derive(Debug, Clone)]
pub struct TailscaleState {
    pub ip: String,
    pub connected: bool,
    pub ssh_enabled: bool,
    pub routes_enabled: bool,
    pub is_exit_node: bool,
    pub devices: Vec<String>,
    pub exit_nodes: Vec<String>,
    pub acct_list: Vec<String>,
    pub current_acct: String,
}

/// The mathematical content of a snapshot.
#[verifier::ext_equal]
pub struct SnapshotView {
    pub ip: Seq<char>,
    pub connected: bool,
    pub ssh_enabled: bool,
    pub routes_enabled: bool,
    pub is_exit_node: bool,
    pub devices: Seq<Seq<char>>,
    pub exit_nodes: Seq<Seq<char>>,
    pub acct_list: Seq<Seq<char>>,
    pub current_acct: Seq<char>,
}

impl View for TailscaleState {
    type V = SnapshotView;

    open spec fn view(&self) -> SnapshotView {
        SnapshotView {
            ip: self.ip@,
            connected: self.connected,
            ssh_enabled: self.ssh_enabled,
            routes_enabled: self.routes_enabled,
            is_exit_node: self.is_exit_node,
            devices: self.devices.deep_view(),
            exit_nodes: self.exit_nodes.deep_view(),
            acct_list: self.acct_list.deep_view(),
            current_acct: self.current_acct@,
        }
    }
}

/// The single entry that replaces the exit-node list while this host is
/// itself the exit node, since selecting another exit node is then invalid.
pub open spec fn host_exit_node_sentinel() -> Seq<char> {
    "Can't select an exit node\nwhile host is an exit node!"@
}

/// The address field: the trimmed report, or the unavailable marker.
pub open spec fn snap_ip(ip_res: Result<String, AppError>) -> Seq<char> {
    match ip_res {
        Result::Ok(raw) => ip_of(raw@),
        Result::Err(_) => "unavailable"@,
    }
}

/// A boolean preference field: false when the preference fetch failed.
pub open spec fn snap_pref(prefs_res: Result<String, AppError>, key: Seq<char>) -> bool {
    match prefs_res {
        Result::Ok(t) => pref_of(t@, key),
        Result::Err(_) => false,
    }
}

/// The exit-node-role field: false when the preference fetch failed.
pub open spec fn snap_is_exit_node(prefs_res: Result<String, AppError>) -> bool {
    match prefs_res {
        Result::Ok(t) => exit_node_pref_of(t@),
        Result::Err(_) => false,
    }
}

/// The device list: the placeholder alone when the status fetch failed.
pub open spec fn snap_devices(status_res: Result<String, AppError>) -> Seq<Seq<char>> {
    match status_res {
        Result::Ok(t) => devices_of(t@),
        Result::Err(_) => seq!["Select"@],
    }
}

/// The exit-node list: the host-is-exit-node sentinel while the host holds
/// that role; otherwise the parsed listing, or the placeholder alone when
/// the listing was skipped or its fetch failed.
pub open spec fn snap_exit_nodes(
    prefs_res: Result<String, AppError>,
    exit_res: Option<Result<String, AppError>>,
) -> Seq<Seq<char>> {
    if snap_is_exit_node(prefs_res) {
        seq![host_exit_node_sentinel()]
    } else {
        match exit_res {
            Option::Some(Result::Ok(t)) => exit_nodes_of(t@),
            _ => seq!["None"@],
        }
    }
}

/// The account list: empty when the listing fetch failed.
pub open spec fn snap_accts(accts_res: Result<String, AppError>) -> Seq<Seq<char>> {
    match accts_res {
        Result::Ok(t) => accounts_of(t@),
        Result::Err(_) => Seq::<Seq<char>>::empty(),
    }
}

/// The active account: empty when the status fetch failed.
pub open spec fn snap_current(json_res: Result<String, AppError>) -> Seq<char> {
    match json_res {
        Result::Ok(t) => current_account_of(t@),
        Result::Err(_) => Seq::<char>::empty(),
    }
}

/// The snapshot the aggregator owes for one batch of raw results: a
/// function of those results alone.
pub open spec fn snapshot_of(
    ip_res: Result<String, AppError>,
    prefs_res: Result<String, AppError>,
    status_res: Result<String, AppError>,
    exit_res: Option<Result<String, AppError>>,
    accts_res: Result<String, AppError>,
    json_res: Result<String, AppError>,
) -> SnapshotView {
    SnapshotView {
        ip: snap_ip(ip_res),
        connected: snap_pref(prefs_res, "WantRunning"@),
        ssh_enabled: snap_pref(prefs_res, "RunSSH"@),
        routes_enabled: snap_pref(prefs_res, "RouteAll"@),
        is_exit_node: snap_is_exit_node(prefs_res),
        devices: snap_devices(status_res),
        exit_nodes: snap_exit_nodes(prefs_res, exit_res),
        acct_list: snap_accts(accts_res),
        current_acct: snap_current(json_res),
    }
}

/// Assemble one snapshot from the raw results of the batch of invocations:
/// address report, preference report, line-oriented status, exit-node
/// listing (absent when the fetch was skipped because the host is an exit
/// node), account listing, and structured status report. Every per-field
/// failure is replaced by that field's documented default; the pass as a
/// whole always succeeds.
pub fn fetch_tailscale_state(
    ip_res: Result<String, AppError>,
    prefs_res: Result<String, AppError>,
    status_res: Result<String, AppError>,
    exit_res: Option<Result<String, AppError>>,
    accts_res: Result<String, AppError>,
    json_res: Result<String, AppError>,
) -> (s: TailscaleState)
    ensures
        s@ == snapshot_of(ip_res, prefs_res, status_res, exit_res, accts_res, json_res),
        s.devices.len() >= 1,
        s.exit_nodes.len() >= 1,
{
    let ip = match &ip_res {
        Result::Ok(raw) => get_tailscale_ip(raw.as_str()),
        Result::Err(_) => String::from_str("unavailable"),
    };
    let connected = match &prefs_res {
        Result::Ok(t) => get_tailscale_con_status(t.as_str()),
        Result::Err(_) => false,
    };
    let ssh_enabled = match &prefs_res {
        Result::Ok(t) => get_tailscale_ssh_status(t.as_str()),
        Result::Err(_) => false,
    };
    let routes_enabled = match &prefs_res {
        Result::Ok(t) => get_tailscale_routes_status(t.as_str()),
        Result::Err(_) => false,
    };
    let is_exit_node = match &prefs_res {
        Result::Ok(t) => get_exit_node_status(t.as_str()),
        Result::Err(_) => false,
    };
    let devices = match &status_res {
        Result::Ok(t) => get_tailscale_devices(t.as_str()),
        Result::Err(_) => {
            let mut v: Vec<String> = Vec::new();
            v.push(String::from_str("Select"));
            proof {
                assert(v.deep_view() =~= seq!["Select"@]);
            }
            v
        },
    };
    let exit_nodes = if is_exit_node {
        let mut v: Vec<String> = Vec::new();
        v.push(String::from_str("Can't select an exit node\nwhile host is an exit node!"));
        proof {
            assert(v.deep_view() =~= seq![host_exit_node_sentinel()]);
        }
        v
    } else {
        match &exit_res {
            Option::Some(Result::Ok(t)) => get_avail_exit_nodes(t.as_str()),
            _ => {
                let mut v: Vec<String> = Vec::new();
                v.push(String::from_str("None"));
                proof {
                    assert(v.deep_view() =~= seq!["None"@]);
                }
                v
            },
        }
    };
    let acct_list = match &accts_res {
        Result::Ok(t) => get_acct_list(t.as_str()),
        Result::Err(_) => Vec::new(),
    };
    let current_acct = match &json_res {
        Result::Ok(t) => get_current_acct(t.as_str()),
        Result::Err(_) => String::new(),
    };
    let s = TailscaleState {
        ip,
        connected,
        ssh_enabled,
        routes_enabled,
        is_exit_node,
        devices,
        exit_nodes,
        acct_list,
        current_acct,
    };
    proof {
        if s.acct_list.deep_view().len() == 0 {
            assert(s.acct_list.deep_view() =~= Seq::<Seq<char>>::empty());
        }
        assert(s@ =~= snapshot_of(ip_res, prefs_res, status_res, exit_res, accts_res, json_res));
    }
    s
}

} // verus!
