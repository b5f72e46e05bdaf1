//! The library's laws: properties of the parsers, the aggregator and the
//! reactive core that hold for every input, each stated and proved here.

use vstd::prelude::*;

use crate::command::STATUS_CLEAR_TIME;
use crate::error::AppError;
use crate::outside::JsonVal;
use crate::parsers::{devices_of, device_names, lookup_field, is_exit_node_of_doc};
use crate::snapshot::snapshot_of;
use crate::state::{step, emit, UiView, Message, EffectView, sel_at_placeholder};
use crate::text::lines_of;

verus! {

/// The device list always carries the placeholder at index 0, and behind
/// it exactly the matched names less the first (the host itself): for m
/// matched lines the list has m entries, or the placeholder alone when
/// nothing matched.
pub proof fn lemma_device_list_shape(text: Seq<char>)
    ensures
        devices_of(text)[0] == "Select"@,
        devices_of(text).len() == if device_names(lines_of(text)).len() == 0 {
            1int
        } else {
            device_names(lines_of(text)).len() as int
        },
{
}

/// The exit-node flag of a preference document: false when the
/// advertised-routes field is absent, null, or the empty string; true for
/// any other present, non-null value.
pub proof fn lemma_exit_node_flag(doc: Seq<(String, JsonVal)>)
    ensures
        lookup_field(doc, "AdvertiseRoutes"@) is None ==> !is_exit_node_of_doc(doc),
        lookup_field(doc, "AdvertiseRoutes"@) == Some(JsonVal::Null) ==> !is_exit_node_of_doc(
            doc),
        lookup_field(doc, "AdvertiseRoutes"@) matches Some(JsonVal::Str(s)) ==> (
        is_exit_node_of_doc(doc) <==> s@.len() > 0),
        lookup_field(doc, "AdvertiseRoutes"@) matches Some(v) && !(v is Null) && !(v is Str)
            ==> is_exit_node_of_doc(doc),
{
}

/// Aggregation is idempotent: two passes over identical underlying tool
/// responses yield identical snapshots.
pub proof fn lemma_aggregation_idempotent(
    ip_a: Result<String, AppError>,
    prefs_a: Result<String, AppError>,
    status_a: Result<String, AppError>,
    exit_a: Option<Result<String, AppError>>,
    accts_a: Result<String, AppError>,
    json_a: Result<String, AppError>,
    ip_b: Result<String, AppError>,
    prefs_b: Result<String, AppError>,
    status_b: Result<String, AppError>,
    exit_b: Option<Result<String, AppError>>,
    accts_b: Result<String, AppError>,
    json_b: Result<String, AppError>,
)
    requires
        ip_a == ip_b,
        prefs_a == prefs_b,
        status_a == status_b,
        exit_a == exit_b,
        accts_a == accts_b,
        json_a == json_b,
    ensures
        snapshot_of(ip_a, prefs_a, status_a, exit_a, accts_a, json_a) == snapshot_of(ip_b,
            prefs_b, status_b, exit_b, accts_b, json_b),
{
}

/// Rollback for the SSH toggle: when the optimistic value is v and the
/// confirming operation reports failure, the field ends at !v — the
/// pre-toggle value whenever the intent flipped it — never at v.
pub proof fn lemma_rollback_ssh(s: UiView, v: bool)
    ensures
        step(step(s, Message::EnableSSH(v)), Message::SshSet(v, false)).ssh == !v,
        s.ssh == !v ==> step(step(s, Message::EnableSSH(v)), Message::SshSet(v, false)).ssh
            == s.ssh,
{
}

/// Rollback for the route-acceptance toggle.
pub proof fn lemma_rollback_routes(s: UiView, v: bool)
    ensures
        step(step(s, Message::AcceptRoutes(v)), Message::RoutesSet(v, false)).routes == !v,
        s.routes == !v ==> step(step(s, Message::AcceptRoutes(v)), Message::RoutesSet(v,
            false)).routes == s.routes,
{
}

/// Rollback for the connectivity toggle, on both mirrored fields.
pub proof fn lemma_rollback_connect(s: UiView, v: bool)
    ensures
        step(step(s, Message::ConnectDisconnect(v)), Message::ConnectionSet(v, false)).connect
            == !v,
        step(step(s, Message::ConnectDisconnect(v)), Message::ConnectionSet(v,
            false)).conn_status == !v,
        s.connect == !v ==> step(step(s, Message::ConnectDisconnect(v)),
            Message::ConnectionSet(v, false)).connect == s.connect,
{
}

/// Rollback for the LAN-access toggle.
pub proof fn lemma_rollback_lan_access(s: UiView, v: bool)
    ensures
        step(step(s, Message::AllowExitNodeLanAccess(v)), Message::LanAccessSet(v,
            false)).allow_lan == !v,
        s.allow_lan == !v ==> step(step(s, Message::AllowExitNodeLanAccess(v)),
            Message::LanAccessSet(v, false)).allow_lan == s.allow_lan,
{
}

/// Rollback for the exit-node role toggle, which only fires while the
/// exit-node selection rests at its placeholder.
pub proof fn lemma_rollback_exit_node_role(s: UiView, v: bool)
    requires
        sel_at_placeholder(s.sel_exit_node_idx),
    ensures
        step(step(s, Message::UpdateIsExitNode(v)), Message::ExitNodeEnabled(v,
            false)).is_exit_node == !v,
        s.is_exit_node == !v ==> step(step(s, Message::UpdateIsExitNode(v)),
            Message::ExitNodeEnabled(v, false)).is_exit_node == s.is_exit_node,
{
}

/// Rollback for the exit-node selection: the selection intent records the
/// pre-toggle name and index in its effect; when the confirming operation
/// reports failure, both selection fields revert to those pre-toggle
/// values, never staying at the optimistic ones; on success the
/// optimistic selection stands.
pub proof fn lemma_rollback_exit_node_selection(s: UiView, i: usize, prev: String)
    requires
        !s.is_exit_node,
        (i as int) < s.avail_exit_nodes.len(),
        prev@ == s.sel_exit_node,
    ensures
        step(s, Message::ExitNodeSelected(i)).sel_exit_node_idx == Some(i),
        emit(s, Message::ExitNodeSelected(i)) matches Some(EffectView::RunSetExitNode(_arg,
            prev_name, prev_idx, idx)) && prev_name == s.sel_exit_node && prev_idx
            == s.sel_exit_node_idx && idx == i,
        step(step(s, Message::ExitNodeSelected(i)), Message::ExitNodeSet(prev,
            s.sel_exit_node_idx, i, false)).sel_exit_node == s.sel_exit_node,
        step(step(s, Message::ExitNodeSelected(i)), Message::ExitNodeSet(prev,
            s.sel_exit_node_idx, i, false)).sel_exit_node_idx == s.sel_exit_node_idx,
        step(step(s, Message::ExitNodeSelected(i)), Message::ExitNodeSet(prev,
            s.sel_exit_node_idx, i, true)).sel_exit_node_idx == Some(i),
        step(step(s, Message::ExitNodeSelected(i)), Message::ExitNodeSet(prev,
            s.sel_exit_node_idx, i, true)).sel_exit_node == s.avail_exit_nodes[i as int],
{
}

/// Mutual exclusion: while the host is itself the exit node, an exit-node
/// selection intent changes nothing and schedules no backend call.
pub proof fn lemma_exit_node_mutual_exclusion(s: UiView, i: usize)
    requires
        s.is_exit_node,
    ensures
        step(s, Message::ExitNodeSelected(i)) == s,
        emit(s, Message::ExitNodeSelected(i)) is None,
{
}

/// Auto-clear of an inbound transfer status: with a non-empty status and
/// no superseding intent, the clear cycle schedules the timed clear, whose
/// completion blanks the status and schedules nothing further.
pub proof fn lemma_receive_status_auto_clear(s: UiView, cleared: String)
    requires
        s.receive_file_status.len() > 0,
        cleared@.len() == 0,
    ensures
        step(s, Message::ClearTailDropStatus) == s,
        emit(s, Message::ClearTailDropStatus) == Some(EffectView::ScheduleReceiveClear(
            STATUS_CLEAR_TIME)),
        step(step(s, Message::ClearTailDropStatus), Message::FilesReceived(
            cleared)).receive_file_status.len() == 0,
        emit(step(s, Message::ClearTailDropStatus), Message::FilesReceived(cleared)) is None,
{
}

/// Auto-clear of an outbound transfer status: the clear cycle resets the
/// device selection to its placeholder — outbound transfers only — and the
/// timed clear's completion blanks the status and schedules nothing
/// further.
pub proof fn lemma_send_status_auto_clear(s: UiView, cleared: Option<String>)
    requires
        s.receive_file_status.len() == 0,
        s.send_file_status.len() > 0 || s.files_sent,
        cleared matches Some(c) && c@.len() == 0,
    ensures
        step(s, Message::ClearTailDropStatus).selected_device_idx == Some(0usize),
        step(s, Message::ClearTailDropStatus).receive_file_status == s.receive_file_status,
        emit(s, Message::ClearTailDropStatus) == Some(EffectView::ScheduleSendClear(
            STATUS_CLEAR_TIME)),
        step(step(s, Message::ClearTailDropStatus), Message::FilesSent(
            cleared)).send_file_status.len() == 0,
        emit(step(s, Message::ClearTailDropStatus), Message::FilesSent(cleared)) is None,
{
}

} // verus!
