//! Tests of the command builders and output interpretation.

use tailscale_applet::command::{
    acct_list_cmd, enable_exit_node, enable_exit_node_result, exit_node_allow_lan_access,
    exit_node_list_cmd, interpret_file_cp, interpret_output, ip_cmd, prefs_cmd, receive_cmd,
    send_file_cmd, set_exit_node, set_routes, set_ssh, set_tailscale_flag, status_cmd,
    status_json_cmd, switch_accounts, tailscale_int_up, tailscale_receive, tailscale_send,
    Cmd, RawResult, ReceiveOutcome, RECEIVE_TIMEOUT, STATUS_CLEAR_TIME,
};
use tailscale_applet::error::AppError;

fn args_of(c: &Cmd) -> Vec<&str> {
    c.args.iter().map(|a| a.as_str()).collect()
}

#[test]
fn query_commands_spell_their_arguments() {
    assert_eq!(ip_cmd().program, "tailscale");
    assert_eq!(args_of(&ip_cmd()), ["ip", "-4"]);
    assert_eq!(args_of(&prefs_cmd()), ["debug", "prefs"]);
    assert_eq!(args_of(&status_cmd()), ["status"]);
    assert_eq!(args_of(&status_json_cmd()), ["status", "--json"]);
    assert_eq!(args_of(&exit_node_list_cmd()), ["exit-node", "list"]);
    assert_eq!(args_of(&acct_list_cmd()), ["switch", "--list"]);
}

#[test]
fn link_commands_spell_their_arguments() {
    assert_eq!(args_of(&tailscale_int_up(true)), ["up"]);
    assert_eq!(args_of(&tailscale_int_up(false)), ["down"]);
}

#[test]
fn flag_commands_spell_their_arguments() {
    assert_eq!(args_of(&set_ssh(true)), ["set", "--ssh"]);
    assert_eq!(args_of(&set_ssh(false)), ["set", "--ssh=false"]);
    assert_eq!(args_of(&set_routes(true)), ["set", "--accept-routes"]);
    assert_eq!(args_of(&set_routes(false)), ["set", "--accept-routes=false"]);
    assert_eq!(args_of(&set_tailscale_flag("shields-up", true)), ["set", "--shields-up"]);
}

#[test]
fn exit_node_commands_spell_their_arguments() {
    assert_eq!(args_of(&set_exit_node("node-a")), ["set", "--exit-node=node-a"]);
    assert_eq!(args_of(&set_exit_node("")), ["set", "--exit-node="]);
    assert_eq!(
        args_of(&exit_node_allow_lan_access(true)),
        ["set", "--exit-node-allow-lan-access=true"]
    );
    assert_eq!(
        args_of(&exit_node_allow_lan_access(false)),
        ["set", "--exit-node-allow-lan-access=false"]
    );
    let (advertise, up) = enable_exit_node(true);
    assert_eq!(args_of(&advertise), ["set", "--advertise-exit-node=true"]);
    assert_eq!(args_of(&up), ["up"]);
    let (advertise, _) = enable_exit_node(false);
    assert_eq!(args_of(&advertise), ["set", "--advertise-exit-node=false"]);
}

#[test]
fn exit_node_two_step_verdict() {
    assert!(enable_exit_node_result(true, true));
    assert!(!enable_exit_node_result(true, false));
    assert!(!enable_exit_node_result(false, true));
}

#[test]
fn transfer_commands_spell_their_arguments() {
    assert_eq!(args_of(&switch_accounts("work-tailnet")), ["switch", "work-tailnet"]);
    assert_eq!(
        args_of(&send_file_cmd("/tmp/report.pdf", "bob-phone")),
        ["file", "cp", "/tmp/report.pdf", "bob-phone:"]
    );
    assert_eq!(
        args_of(&receive_cmd("/home/user/Downloads")),
        ["file", "get", "/home/user/Downloads"]
    );
}

#[test]
fn interpret_output_success() {
    let r = RawResult::Launched {
        ok: true,
        code: 0,
        stdout: Some("100.64.0.1\n".to_string()),
        stderr: String::new(),
    };
    assert_eq!(interpret_output(r, true), Ok("100.64.0.1\n".to_string()));
}

#[test]
fn interpret_output_failure_status() {
    let r = RawResult::Launched {
        ok: false,
        code: 1,
        stdout: Some(String::new()),
        stderr: "not logged in".to_string(),
    };
    assert_eq!(
        interpret_output(r, false),
        Err(AppError::CommandFailed(1, "not logged in".to_string()))
    );
}

#[test]
fn interpret_output_dirty_stderr_only_when_clean_is_asked() {
    let dirty = || RawResult::Launched {
        ok: true,
        code: 0,
        stdout: Some("fine".to_string()),
        stderr: "warning".to_string(),
    };
    assert_eq!(
        interpret_output(dirty(), true),
        Err(AppError::CommandFailed(0, "warning".to_string()))
    );
    assert_eq!(interpret_output(dirty(), false), Ok("fine".to_string()));
}

#[test]
fn interpret_output_launch_and_decode_failures() {
    let r = RawResult::NotLaunched { msg: "no such program".to_string() };
    assert_eq!(
        interpret_output(r, false),
        Err(AppError::ExecutionFailed("no such program".to_string()))
    );
    let r = RawResult::Launched { ok: true, code: 0, stdout: None, stderr: String::new() };
    assert_eq!(
        interpret_output(r, false),
        Err(AppError::ExecutionFailed("output was not valid UTF-8".to_string()))
    );
}

#[test]
fn error_messages() {
    assert_eq!(
        AppError::ExecutionFailed("boom".to_string()).message(),
        "CLI execution failed: boom"
    );
    assert_eq!(
        AppError::CommandFailed(2, "oops".to_string()).message(),
        "CLI command failed: oops"
    );
}

#[test]
fn file_cp_silent_run_reports_nothing() {
    let r = RawResult::Launched { ok: true, code: 0, stdout: Some(String::new()), stderr: String::new() };
    assert_eq!(interpret_file_cp("/tmp/a", &r), None);
}

#[test]
fn file_cp_diagnostic_text_is_the_error() {
    let r = RawResult::Launched {
        ok: true,
        code: 0,
        stdout: Some(String::new()),
        stderr: "no such target".to_string(),
    };
    assert_eq!(interpret_file_cp("/tmp/a", &r), Some("no such target".to_string()));
}

#[test]
fn file_cp_launch_failure_names_the_path() {
    let r = RawResult::NotLaunched { msg: "spawn failed".to_string() };
    assert_eq!(
        interpret_file_cp("/tmp/a", &r),
        Some("Failed to send /tmp/a: spawn failed".to_string())
    );
}

#[test]
fn send_batch_verdict() {
    assert_eq!(tailscale_send(&vec![None, None]), None);
    assert_eq!(tailscale_send(&vec![]), None);
    assert_eq!(
        tailscale_send(&vec![None, Some("err".to_string())]),
        Some("One or more files were not sent successfully!".to_string())
    );
}

#[test]
fn receive_outcomes_have_distinct_status_text() {
    assert_eq!(
        tailscale_receive(ReceiveOutcome::NoDownloadDir),
        "Could not determine Downloads directory!"
    );
    assert_eq!(tailscale_receive(ReceiveOutcome::TimedOut), "Receiving files timed out!");
    let done = ReceiveOutcome::Completed(RawResult::Launched {
        ok: true,
        code: 0,
        stdout: Some(String::new()),
        stderr: String::new(),
    });
    assert_eq!(tailscale_receive(done), "Received file(s) in Downloads!");
    let noisy = ReceiveOutcome::Completed(RawResult::Launched {
        ok: true,
        code: 0,
        stdout: Some(String::new()),
        stderr: "peer offline".to_string(),
    });
    assert_eq!(tailscale_receive(noisy), "peer offline");
    let failed = ReceiveOutcome::Completed(RawResult::NotLaunched { msg: "boom".to_string() });
    assert_eq!(tailscale_receive(failed), "Failed to receive files: boom");
}

#[test]
fn timing_constants() {
    assert_eq!(STATUS_CLEAR_TIME, 5);
    assert_eq!(RECEIVE_TIMEOUT, 30);
}
