use titan_terminal::report::{
    command_result, current_ip_line, farewell_line, probe_from_capture, script_error_line,
    script_result, shell_diag, updated_ip_line, CaptureOutcome, RunOutcome, ScriptOutcome,
};

#[test]
fn successful_shell_run_is_silent() {
    assert_eq!(shell_diag(&RunOutcome::Exited(true)), None);
}

#[test]
fn failing_shell_run_reports_the_generic_line() {
    assert_eq!(
        shell_diag(&RunOutcome::Exited(false)),
        Some(String::from("Shell command exited with a non-zero status"))
    );
}

#[test]
fn shell_spawn_failure_carries_the_os_error() {
    assert_eq!(
        shell_diag(&RunOutcome::SpawnFailed(String::from("No such file or directory"))),
        Some(String::from("Failed to execute shell command: No such file or directory"))
    );
}

#[test]
fn build_outcomes_map_to_their_messages() {
    assert!(command_result(&RunOutcome::Exited(true)).is_ok());
    assert_eq!(
        command_result(&RunOutcome::Exited(false)),
        Err(String::from("Command exited with non-zero status"))
    );
    assert_eq!(
        command_result(&RunOutcome::SpawnFailed(String::from("permission denied"))),
        Err(String::from("Failed to execute command: permission denied"))
    );
}

#[test]
fn script_outcomes_map_to_their_messages() {
    assert_eq!(
        script_result(&ScriptOutcome::Missing),
        Err(String::from("Script not found at path: ./src/ipBounce.sh"))
    );
    assert_eq!(
        script_result(&ScriptOutcome::SpawnFailed(String::from("boom"))),
        Err(String::from("Failed to execute script: boom"))
    );
    assert!(script_result(&ScriptOutcome::Finished {
        success: true,
        status: String::from("ExitStatus(unix_wait_status(0))"),
        stderr: String::new(),
    })
    .is_ok());
    assert_eq!(
        script_result(&ScriptOutcome::Finished {
            success: false,
            status: String::from("ExitStatus(unix_wait_status(256))"),
            stderr: String::from("oops"),
        }),
        Err(String::from(
            "Script execution failed with status: ExitStatus(unix_wait_status(256)). Error: oops"
        ))
    );
}

#[test]
fn script_feedback_line_wraps_the_error() {
    assert_eq!(
        script_error_line("Script not found at path: ./src/ipBounce.sh"),
        "Error running IP script: Script not found at path: ./src/ipBounce.sh"
    );
}

#[test]
fn ip_lines_for_found_and_missing_addresses() {
    assert_eq!(
        current_ip_line(&Some(String::from("192.168.1.42"))),
        "Current IP Address: 192.168.1.42"
    );
    assert_eq!(current_ip_line(&None), "Could not retrieve IP address");
    assert_eq!(updated_ip_line(&Some(String::from("10.0.0.2"))), "Updated IP Address: 10.0.0.2");
    assert_eq!(updated_ip_line(&None), "Failed to fetch updated IP address");
}

#[test]
fn failing_utility_reports_its_error_output() {
    let r = probe_from_capture(&CaptureOutcome::Captured {
        success: false,
        stdout: String::new(),
        stderr: String::from("Cannot open netlink socket"),
    });
    assert_eq!(r.ip, None);
    assert_eq!(r.diag, Some(String::from("Error executing 'ip addr': Cannot open netlink socket")));
}

#[test]
fn utility_spawn_failure_is_reported_not_fatal() {
    let r = probe_from_capture(
        &CaptureOutcome::SpawnFailed(String::from("No such file or directory")),
    );
    assert_eq!(r.ip, None);
    assert_eq!(
        r.diag,
        Some(String::from("Failed to execute 'ip addr': No such file or directory"))
    );
}

fn capture_of(listing: &str) -> CaptureOutcome {
    CaptureOutcome::Captured {
        success: true,
        stdout: String::from(listing),
        stderr: String::new(),
    }
}

#[test]
fn successful_capture_runs_the_probe() {
    let r = probe_from_capture(&capture_of("    inet 192.168.1.42/24 brd 192.168.1.255\n"));
    assert_eq!(r.diag, None);
    assert_eq!(r.ip, Some(String::from("192.168.1.42")));

    let lo = probe_from_capture(&capture_of("    inet 127.0.0.1/8 scope host lo\n"));
    assert_eq!(lo.diag, None);
    assert_eq!(lo.ip, None);
}

#[test]
fn farewell_starts_on_a_fresh_line() {
    let line = farewell_line();
    assert!(line.starts_with('\n'));
    assert_eq!(line, "\nTitan terminal is shutting down. Goodbye!");
}
