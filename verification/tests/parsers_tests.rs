//! Tests of the output parsers against concrete tool output.

use tailscale_applet::outside::JsonVal;
use tailscale_applet::parsers::{
    get_acct_list, get_avail_exit_nodes, get_current_acct, get_exit_node_status,
    get_is_exit_node, get_tailscale_con_status, get_tailscale_devices, get_tailscale_ip,
    get_tailscale_pref, get_tailscale_routes_status, get_tailscale_ssh_status, switch_succeeded,
};

#[test]
fn ip_is_trimmed() {
    assert_eq!(get_tailscale_ip("  100.64.0.1\n"), "100.64.0.1");
    assert_eq!(get_tailscale_ip(""), "");
    assert_eq!(get_tailscale_ip(" \t\r\n "), "");
}

#[test]
fn prefs_scenario_document() {
    let doc = r#"{"WantRunning":true,"RunSSH":false,"RouteAll":true,"AdvertiseRoutes":null}"#;
    assert!(get_tailscale_con_status(doc));
    assert!(!get_tailscale_ssh_status(doc));
    assert!(get_tailscale_routes_status(doc));
    assert!(!get_exit_node_status(doc));
}

#[test]
fn exit_node_flag_absent_key_is_false() {
    let doc = r#"{"WantRunning":true}"#;
    assert!(!get_exit_node_status(doc));
}

#[test]
fn exit_node_flag_empty_string_is_false() {
    let doc = r#"{"AdvertiseRoutes":""}"#;
    assert!(!get_exit_node_status(doc));
}

#[test]
fn exit_node_flag_other_values_are_true() {
    assert!(get_exit_node_status(r#"{"AdvertiseRoutes":"0.0.0.0/0,::/0"}"#));
    assert!(get_exit_node_status(r#"{"AdvertiseRoutes":true}"#));
    assert!(get_exit_node_status(r#"{"AdvertiseRoutes":["0.0.0.0/0"]}"#));
}

#[test]
fn prefs_malformed_document_defaults_false() {
    assert!(!get_tailscale_con_status("not a document"));
    assert!(!get_exit_node_status(""));
}

#[test]
fn prefs_wrong_typed_value_defaults_false() {
    assert!(!get_tailscale_con_status(r#"{"WantRunning":"true"}"#));
    assert!(!get_tailscale_con_status(r#"{"WantRunning":null}"#));
}

#[test]
fn pref_lookup_on_parsed_document() {
    let doc = vec![
        ("WantRunning".to_string(), JsonVal::Bool(true)),
        ("RunSSH".to_string(), JsonVal::Bool(false)),
    ];
    assert!(get_tailscale_pref(&doc, "WantRunning"));
    assert!(!get_tailscale_pref(&doc, "RunSSH"));
    assert!(!get_tailscale_pref(&doc, "RouteAll"));
    assert!(!get_is_exit_node(&doc));
}

#[test]
fn devices_scenario_two_peers() {
    let text = "100.64.0.1  alice-laptop  alice@ linux   -\n100.64.0.2  bob-phone  bob@ android  -\n";
    assert_eq!(get_tailscale_devices(text), vec!["Select", "bob-phone"]);
}

#[test]
fn devices_empty_input_gives_placeholder_alone() {
    assert_eq!(get_tailscale_devices(""), vec!["Select"]);
}

#[test]
fn devices_non_matching_lines_are_ignored() {
    let text = "# health check ok\nno address here\n";
    assert_eq!(get_tailscale_devices(text), vec!["Select"]);
}

#[test]
fn devices_single_host_loses_itself() {
    let text = "100.64.0.1  alice-laptop  alice@ linux   -\n";
    assert_eq!(get_tailscale_devices(text), vec!["Select"]);
}

#[test]
fn exit_nodes_empty_input_gives_sentinel() {
    assert_eq!(get_avail_exit_nodes(""), vec!["no exit nodes found"]);
}

#[test]
fn exit_nodes_listing_truncates_hostnames() {
    let text = "IP            HOSTNAME                  \n100.100.1.1   node-a.tail1234.ts.net    offline\n100.100.1.2   node-b.tail1234.ts.net    -\n";
    assert_eq!(get_avail_exit_nodes(text), vec!["None", "node-a", "node-b"]);
}

#[test]
fn accounts_scenario_header_dropped() {
    let text = "ID  Name\n1  work-tailnet";
    assert_eq!(get_acct_list(text), vec!["work-tailnet"]);
}

#[test]
fn accounts_empty_input_gives_empty_list() {
    assert_eq!(get_acct_list(""), Vec::<String>::new());
}

#[test]
fn current_account_strips_one_trailing_dot() {
    let text = r#"{"Self":{"DNSName":"host.tail1234.ts.net."}}"#;
    assert_eq!(get_current_acct(text), "host.tail1234.ts.net");
}

#[test]
fn current_account_missing_field_is_empty() {
    assert_eq!(get_current_acct(r#"{"BackendState":"Running"}"#), "");
    assert_eq!(get_current_acct("not a document"), "");
}

#[test]
fn switch_success_is_case_insensitive() {
    assert!(switch_succeeded("Success."));
    assert!(switch_succeeded("switched to account: SUCCESS"));
    assert!(!switch_succeeded("error: no such account"));
}
