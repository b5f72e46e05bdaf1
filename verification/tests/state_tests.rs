//! Tests of the reactive core: optimistic updates, rollbacks, the
//! transfer-status clear cycle, and snapshot ingestion.

use tailscale_applet::config::TailscaleConfig;
use tailscale_applet::error::AppError;
use tailscale_applet::snapshot::{fetch_tailscale_state, TailscaleState};
use tailscale_applet::state::{find_account_index, Effect, Message, UiState};

fn fresh() -> UiState {
    UiState::init_state(TailscaleConfig::default())
}

fn sample_snapshot() -> TailscaleState {
    fetch_tailscale_state(
        Ok("100.64.0.1\n".to_string()),
        Ok(r#"{"WantRunning":true,"RunSSH":false,"RouteAll":true,"AdvertiseRoutes":null}"#
            .to_string()),
        Ok("100.64.0.1  alice-laptop  alice@ linux   -\n100.64.0.2  bob-phone  bob@ android  -\n"
            .to_string()),
        Some(Ok("100.100.1.1   node-a.tail1234.ts.net    -\n".to_string())),
        Ok("ID  Name\n1  work-tailnet".to_string()),
        Ok(r#"{"Self":{"DNSName":"alice-laptop.tail1234.ts.net."}}"#.to_string()),
    )
}

#[test]
fn init_state_mirrors_config() {
    let s = UiState::init_state(TailscaleConfig { exit_node_idx: 2, allow_lan: true });
    assert_eq!(s.sel_exit_node_idx, Some(2));
    assert!(s.allow_lan);
    assert_eq!(s.device_options, vec!["Select"]);
    assert_eq!(s.avail_exit_nodes, vec!["None"]);
    assert_eq!(s.selected_device_idx, Some(0));
    let s = fresh();
    assert_eq!(s.sel_exit_node_idx, None);
    assert!(!s.allow_lan);
}

#[test]
fn ssh_toggle_is_optimistic_and_rolls_back() {
    let mut s = fresh();
    assert!(!s.ssh);
    let eff = s.update(Message::EnableSSH(true));
    assert!(s.ssh);
    assert_eq!(eff, Some(Effect::RunSetSsh(true)));
    let eff = s.update(Message::SshSet(true, false));
    assert!(!s.ssh);
    assert_eq!(eff, None);
}

#[test]
fn ssh_confirmation_keeps_the_value() {
    let mut s = fresh();
    s.update(Message::EnableSSH(true));
    s.update(Message::SshSet(true, true));
    assert!(s.ssh);
}

#[test]
fn routes_toggle_rolls_back_on_failure() {
    let mut s = fresh();
    s.update(Message::AcceptRoutes(true));
    assert!(s.routes);
    s.update(Message::RoutesSet(true, false));
    assert!(!s.routes);
}

#[test]
fn connect_toggle_mirrors_both_fields() {
    let mut s = fresh();
    let eff = s.update(Message::ConnectDisconnect(true));
    assert!(s.connect && s.conn_status);
    assert_eq!(eff, Some(Effect::RunConnect(true)));
    s.update(Message::ConnectionSet(true, false));
    assert!(!s.connect && !s.conn_status);
}

#[test]
fn lan_access_backend_call_only_while_exit_node() {
    let mut s = fresh();
    let eff = s.update(Message::AllowExitNodeLanAccess(true));
    assert!(s.allow_lan);
    assert_eq!(eff, None);
    s.is_exit_node = true;
    let eff = s.update(Message::AllowExitNodeLanAccess(false));
    assert_eq!(eff, Some(Effect::RunAllowLanAccess(false)));
}

#[test]
fn lan_access_persists_on_success_and_rolls_back_on_failure() {
    let mut s = fresh();
    s.update(Message::AllowExitNodeLanAccess(true));
    let eff = s.update(Message::LanAccessSet(true, true));
    assert_eq!(eff, Some(Effect::PersistAllowLan(true)));
    assert!(s.config.allow_lan);
    s.update(Message::AllowExitNodeLanAccess(false));
    let eff = s.update(Message::LanAccessSet(false, false));
    assert_eq!(eff, None);
    assert!(s.allow_lan);
}

#[test]
fn exit_node_selection_is_ignored_while_host_is_exit_node() {
    let mut s = fresh();
    s.avail_exit_nodes = vec!["None".to_string(), "node-a".to_string()];
    s.is_exit_node = true;
    let before_name = s.sel_exit_node.clone();
    let before_idx = s.sel_exit_node_idx;
    let eff = s.update(Message::ExitNodeSelected(1));
    assert_eq!(eff, None);
    assert_eq!(s.sel_exit_node, before_name);
    assert_eq!(s.sel_exit_node_idx, before_idx);
}

#[test]
fn exit_node_selection_runs_the_backend_call() {
    let mut s = fresh();
    s.avail_exit_nodes = vec!["None".to_string(), "node-a".to_string()];
    let eff = s.update(Message::ExitNodeSelected(1));
    assert_eq!(s.sel_exit_node, "node-a");
    assert_eq!(s.sel_exit_node_idx, Some(1));
    assert_eq!(
        eff,
        Some(Effect::RunSetExitNode(
            "node-a".to_string(),
            "Select Exit Node".to_string(),
            None,
            1
        ))
    );
}

#[test]
fn exit_node_placeholder_selection_clears_the_backend_argument() {
    let mut s = fresh();
    let eff = s.update(Message::ExitNodeSelected(0));
    assert_eq!(
        eff,
        Some(Effect::RunSetExitNode(
            String::new(),
            "Select Exit Node".to_string(),
            None,
            0
        ))
    );
}

#[test]
fn exit_node_confirmation_persists_the_index() {
    let mut s = fresh();
    let eff = s.update(Message::ExitNodeSet("Select Exit Node".to_string(), None, 1, true));
    assert_eq!(eff, Some(Effect::PersistExitNodeIdx(1)));
    assert_eq!(s.config.exit_node_idx, 1);
    let eff = s.update(Message::ExitNodeSet("Select Exit Node".to_string(), None, 2, false));
    assert_eq!(eff, None);
    assert_eq!(s.config.exit_node_idx, 1);
}

#[test]
fn exit_node_selection_rolls_back_on_failure() {
    let mut s = fresh();
    s.avail_exit_nodes = vec!["None".to_string(), "node-a".to_string(), "node-b".to_string()];
    s.update(Message::ExitNodeSelected(1));
    s.update(Message::ExitNodeSet("Select Exit Node".to_string(), None, 1, true));
    assert_eq!(s.sel_exit_node, "node-a");
    assert_eq!(s.sel_exit_node_idx, Some(1));
    let eff = s.update(Message::ExitNodeSelected(2));
    assert_eq!(s.sel_exit_node, "node-b");
    assert_eq!(s.sel_exit_node_idx, Some(2));
    assert_eq!(
        eff,
        Some(Effect::RunSetExitNode(
            "node-b".to_string(),
            "node-a".to_string(),
            Some(1),
            2
        ))
    );
    let eff = s.update(Message::ExitNodeSet("node-a".to_string(), Some(1), 2, false));
    assert_eq!(eff, None);
    assert_eq!(s.sel_exit_node, "node-a");
    assert_eq!(s.sel_exit_node_idx, Some(1));
    assert_eq!(s.config.exit_node_idx, 1);
}

#[test]
fn exit_node_role_toggle_gated_by_selection() {
    let mut s = fresh();
    let eff = s.update(Message::UpdateIsExitNode(true));
    assert!(s.is_exit_node);
    assert_eq!(eff, Some(Effect::RunEnableExitNode(true)));
    let mut s = fresh();
    s.sel_exit_node_idx = Some(1);
    let eff = s.update(Message::UpdateIsExitNode(true));
    assert!(!s.is_exit_node);
    assert_eq!(eff, None);
}

#[test]
fn exit_node_role_rolls_back_on_failure_and_refreshes_on_success() {
    let mut s = fresh();
    s.update(Message::UpdateIsExitNode(true));
    let eff = s.update(Message::ExitNodeEnabled(true, false));
    assert!(!s.is_exit_node);
    assert_eq!(eff, None);
    s.update(Message::UpdateIsExitNode(true));
    let eff = s.update(Message::ExitNodeEnabled(true, true));
    assert!(s.is_exit_node);
    assert_eq!(eff, Some(Effect::RefreshState));
}

#[test]
fn send_needs_a_real_device() {
    let mut s = fresh();
    s.selected_device = "Select".to_string();
    let eff = s.update(Message::SendFiles);
    assert_eq!(eff, None);
    assert!(!s.files_sent);
    s.selected_device = "bob-phone".to_string();
    s.send_files = vec!["/tmp/a".to_string()];
    let eff = s.update(Message::SendFiles);
    assert!(s.files_sent);
    assert_eq!(
        eff,
        Some(Effect::RunSendFiles(vec!["/tmp/a".to_string()], "bob-phone".to_string()))
    );
}

#[test]
fn files_selected_queue_and_reopen_popup() {
    let mut s = fresh();
    let eff = s.update(Message::FilesSelected(vec!["/tmp/a".to_string()]));
    assert_eq!(eff, Some(Effect::CreatePopup));
    let eff = s.update(Message::FilesSelected(vec!["/tmp/b".to_string()]));
    assert_eq!(eff, Some(Effect::CreatePopup));
    assert_eq!(s.send_files, vec!["/tmp/a", "/tmp/b"]);
}

#[test]
fn send_status_auto_clear_cycle() {
    let mut s = fresh();
    s.send_files = vec!["/tmp/a".to_string()];
    let eff = s.update(Message::FilesSent(None));
    assert_eq!(s.send_file_status, "Files sent successfully!");
    assert!(s.send_files.is_empty());
    assert_eq!(eff, Some(Effect::PostClearStatus));
    let eff = s.update(Message::ClearTailDropStatus);
    assert_eq!(eff, Some(Effect::ScheduleSendClear(5)));
    assert_eq!(s.selected_device_idx, Some(0));
    assert_eq!(s.selected_device, "Select");
    let eff = s.update(Message::FilesSent(Some(String::new())));
    assert_eq!(s.send_file_status, "");
    assert_eq!(eff, None);
}

#[test]
fn send_error_status_is_shown() {
    let mut s = fresh();
    let eff = s.update(Message::FilesSent(Some("One or more files were not sent successfully!"
        .to_string())));
    assert_eq!(s.send_file_status, "One or more files were not sent successfully!");
    assert_eq!(eff, Some(Effect::PostClearStatus));
}

#[test]
fn receive_status_auto_clear_cycle() {
    let mut s = fresh();
    let eff = s.update(Message::ReceiveFiles);
    assert_eq!(eff, Some(Effect::RunReceiveFiles));
    let eff = s.update(Message::FilesReceived("Received file(s) in Downloads!".to_string()));
    assert_eq!(s.receive_file_status, "Received file(s) in Downloads!");
    assert_eq!(eff, Some(Effect::PostClearStatus));
    let eff = s.update(Message::ClearTailDropStatus);
    assert_eq!(eff, Some(Effect::ScheduleReceiveClear(5)));
    let eff = s.update(Message::FilesReceived(String::new()));
    assert_eq!(s.receive_file_status, "");
    assert_eq!(eff, None);
}

#[test]
fn clear_with_nothing_showing_does_nothing() {
    let mut s = fresh();
    let eff = s.update(Message::ClearTailDropStatus);
    assert_eq!(eff, None);
    assert_eq!(s.selected_device_idx, Some(0));
}

#[test]
fn device_selection_validates_the_index() {
    let mut s = fresh();
    s.device_options = vec!["Select".to_string(), "bob-phone".to_string()];
    s.update(Message::DeviceSelected(1));
    assert_eq!(s.selected_device, "bob-phone");
    assert_eq!(s.selected_device_idx, Some(1));
    s.update(Message::DeviceSelected(9));
    assert_eq!(s.selected_device, "bob-phone");
    assert_eq!(s.selected_device_idx, Some(1));
}

#[test]
fn account_switch_is_optimistic_and_bounded() {
    let mut s = fresh();
    s.acct_list = vec!["work-tailnet".to_string(), "home-tailnet".to_string()];
    let eff = s.update(Message::SwitchAccount(1));
    assert_eq!(s.cur_acct, "home-tailnet");
    assert_eq!(eff, Some(Effect::RunSwitchAccount("home-tailnet".to_string())));
    let eff = s.update(Message::SwitchAccount(7));
    assert_eq!(s.cur_acct, "home-tailnet");
    assert_eq!(eff, None);
}

#[test]
fn popup_lifecycle_guards_stale_closes() {
    let mut s = fresh();
    let eff = s.update(Message::TogglePopup);
    assert_eq!(eff, Some(Effect::CreatePopup));
    s.update(Message::PopupOpened(7));
    assert_eq!(s.popup, Some(7));
    s.update(Message::PopupClosed(9));
    assert_eq!(s.popup, Some(7));
    s.receive_file_status = "text".to_string();
    let eff = s.update(Message::TogglePopup);
    assert_eq!(eff, Some(Effect::DestroyPopup(7)));
    assert_eq!(s.popup, None);
    assert_eq!(s.receive_file_status, "");
}

#[test]
fn snapshot_ingestion_takes_over_reported_fields() {
    let mut s = fresh();
    let eff = s.update(Message::RefreshState);
    assert_eq!(eff, Some(Effect::RefreshState));
    let snap = sample_snapshot();
    let eff = s.update(Message::StateRefreshed(snap));
    assert_eq!(eff, None);
    assert_eq!(s.ip, "100.64.0.1");
    assert!(s.connect && s.conn_status);
    assert!(!s.ssh);
    assert!(s.routes);
    assert!(!s.is_exit_node);
    assert_eq!(s.device_options, vec!["Select", "bob-phone"]);
    assert_eq!(s.avail_exit_nodes, vec!["None", "node-a"]);
    assert_eq!(s.acct_list, vec!["work-tailnet"]);
    assert_eq!(s.cur_acct, "alice-laptop.tail1234.ts.net");
}

#[test]
fn snapshot_ingestion_resets_stale_selections() {
    let mut s = fresh();
    s.device_options = vec!["Select".to_string(), "a".to_string(), "b".to_string()];
    s.selected_device = "b".to_string();
    s.selected_device_idx = Some(2);
    s.sel_exit_node_idx = Some(5);
    let snap = sample_snapshot();
    s.update(Message::StateRefreshed(snap));
    assert_eq!(s.selected_device_idx, Some(0));
    assert_eq!(s.selected_device, "Select");
    assert_eq!(s.sel_exit_node_idx, Some(0));
    assert_eq!(s.sel_exit_node, "None");
}

#[test]
fn snapshot_ingestion_keeps_valid_selections() {
    let mut s = fresh();
    s.selected_device_idx = Some(1);
    s.selected_device = "bob-phone".to_string();
    let snap = sample_snapshot();
    s.update(Message::StateRefreshed(snap));
    assert_eq!(s.selected_device_idx, Some(1));
    assert_eq!(s.selected_device, "bob-phone");
}

#[test]
fn aggregation_is_idempotent_on_identical_responses() {
    let a = sample_snapshot();
    let b = sample_snapshot();
    assert_eq!(a.ip, b.ip);
    assert_eq!(a.connected, b.connected);
    assert_eq!(a.ssh_enabled, b.ssh_enabled);
    assert_eq!(a.routes_enabled, b.routes_enabled);
    assert_eq!(a.is_exit_node, b.is_exit_node);
    assert_eq!(a.devices, b.devices);
    assert_eq!(a.exit_nodes, b.exit_nodes);
    assert_eq!(a.acct_list, b.acct_list);
    assert_eq!(a.current_acct, b.current_acct);
}

#[test]
fn aggregation_degrades_field_by_field() {
    let fail = || Err(AppError::ExecutionFailed("down".to_string()));
    let s = fetch_tailscale_state(fail(), fail(), fail(), None, fail(), fail());
    assert_eq!(s.ip, "unavailable");
    assert!(!s.connected && !s.ssh_enabled && !s.routes_enabled && !s.is_exit_node);
    assert_eq!(s.devices, vec!["Select"]);
    assert_eq!(s.exit_nodes, vec!["None"]);
    assert!(s.acct_list.is_empty());
    assert_eq!(s.current_acct, "");
}

#[test]
fn aggregation_replaces_listing_while_host_is_exit_node() {
    let s = fetch_tailscale_state(
        Ok("100.64.0.1".to_string()),
        Ok(r#"{"WantRunning":true,"AdvertiseRoutes":"0.0.0.0/0"}"#.to_string()),
        Ok(String::new()),
        None,
        Ok(String::new()),
        Ok("{}".to_string()),
    );
    assert!(s.is_exit_node);
    assert_eq!(
        s.exit_nodes,
        vec!["Can't select an exit node\nwhile host is an exit node!"]
    );
}

#[test]
fn account_index_finds_the_first_match() {
    let list = vec!["a".to_string(), "b".to_string(), "b".to_string()];
    assert_eq!(find_account_index(&list, "b"), Some(1));
    assert_eq!(find_account_index(&list, "zz"), None);
}

#[test]
fn send_status_line_choice() {
    let mut s = fresh();
    s.selected_device = "Select".to_string();
    assert_eq!(s.send_status_line(), "Choose a device first!");
    s.selected_device = "bob-phone".to_string();
    assert_eq!(s.send_status_line(), "");
    s.files_sent = true;
    assert_eq!(s.send_status_line(), "Files sent successfully!");
    s.send_file_status = "peer offline".to_string();
    assert_eq!(s.send_status_line(), "peer offline");
}
