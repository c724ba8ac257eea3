//! Child-process outcomes and the exact diagnostic lines the terminal
//! reports for them, plus the lines built around the IP probe.

use vstd::prelude::*;

verus! {

use vstd::string::StringExecFns;
use crate::probe::extract_ip;
use crate::probe::probe_of;

/// How a spawned child ended: it exited (successfully or not), or the
/// operating system refused to start it, with the OS error text.
pub enum RunOutcome {
    Exited(bool),
    SpawnFailed(String),
}

/// How the IP-bounce helper invocation ended. `status` carries the child's
/// exit-status description and `stderr` its captured error output.
pub enum ScriptOutcome {
    Missing,
    SpawnFailed(String),
    Finished { success: bool, status: String, stderr: String },
}

/// Classifies a stream-inherited run of the build tool: success is silent,
/// a non-zero exit and a spawn failure each give their exact message.
pub fn command_result(outcome: &RunOutcome) -> (r: Result<(), String>)
    ensures
        match outcome {
            RunOutcome::Exited(success) => if *success {
                r is Ok
            } else {
                r matches Err(m) && m@ == "Command exited with non-zero status"@
            },
            RunOutcome::SpawnFailed(e) => r matches Err(m) && m@ == "Failed to execute command: "@
                + e@,
        },
{
    match outcome {
        RunOutcome::Exited(success) => {
            if *success {
                Ok(())
            } else {
                Err(String::from_str("Command exited with non-zero status"))
            }
        },
        RunOutcome::SpawnFailed(e) => {
            Err(String::from_str("Failed to execute command: ").concat(e.as_str()))
        },
    }
}

/// The diagnostic a shell dispatch leaves on standard error: none on
/// success, the generic line on a non-zero exit, the OS error on a spawn
/// failure.
pub fn shell_diag(outcome: &RunOutcome) -> (r: Option<String>)
    ensures
        match outcome {
            RunOutcome::Exited(success) => if *success {
                r is None
            } else {
                r matches Some(m) && m@ == "Shell command exited with a non-zero status"@
            },
            RunOutcome::SpawnFailed(e) => r matches Some(m) && m@
                == "Failed to execute shell command: "@ + e@,
        },
{
    match outcome {
        RunOutcome::Exited(success) => {
            if *success {
                None
            } else {
                Some(String::from_str("Shell command exited with a non-zero status"))
            }
        },
        RunOutcome::SpawnFailed(e) => {
            Some(String::from_str("Failed to execute shell command: ").concat(e.as_str()))
        },
    }
}

/// Classifies the IP-bounce helper invocation: a missing script, a spawn
/// failure and a failing exit each give their exact message; a successful
/// exit is silent.
pub fn script_result(outcome: &ScriptOutcome) -> (r: Result<(), String>)
    ensures
        match outcome {
            ScriptOutcome::Missing => r matches Err(m) && m@
                == "Script not found at path: ./src/ipBounce.sh"@,
            ScriptOutcome::SpawnFailed(e) => r matches Err(m) && m@
                == "Failed to execute script: "@ + e@,
            ScriptOutcome::Finished { success, status, stderr } => if *success {
                r is Ok
            } else {
                r matches Err(m) && m@ == "Script execution failed with status: "@ + status@
                    + ". Error: "@ + stderr@
            },
        },
{
    match outcome {
        ScriptOutcome::Missing => {
            Err(String::from_str("Script not found at path: ./src/ipBounce.sh"))
        },
        ScriptOutcome::SpawnFailed(e) => {
            Err(String::from_str("Failed to execute script: ").concat(e.as_str()))
        },
        ScriptOutcome::Finished { success, status, stderr } => {
            if *success {
                Ok(())
            } else {
                Err(
                    String::from_str("Script execution failed with status: ").concat(
                        status.as_str(),
                    ).concat(". Error: ").concat(stderr.as_str()),
                )
            }
        },
    }
}

/// The line reporting a failed IP-bounce helper run.
pub fn script_error_line(e: &str) -> (r: String)
    ensures
        r@ == "Error running IP script: "@ + e@,
{
    String::from_str("Error running IP script: ").concat(e)
}

/// How a run of the address-listing utility with captured streams ended:
/// the utility ran to an exit, with its output and error text captured, or
/// the operating system refused to start it, with the OS error text.
pub enum CaptureOutcome {
    Captured { success: bool, stdout: String, stderr: String },
    SpawnFailed(String),
}

/// What the probe makes of a captured address-listing run: an address when
/// one was found, and a diagnostic for standard error when the utility
/// failed.
pub struct ProbeReport {
    pub ip: Option<String>,
    pub diag: Option<String>,
}

/// Consumes a run of the address-listing utility. A spawn failure and a
/// failing exit each yield no address and their diagnostic — the OS error
/// or the utility's captured error output — and the session goes on; a
/// successful exit yields exactly what the probe finds in the captured
/// output.
pub fn probe_from_capture(outcome: &CaptureOutcome) -> (r: ProbeReport)
    ensures
        match outcome {
            CaptureOutcome::Captured { success, stdout, stderr } => if *success {
                r.diag is None && (match r.ip {
                    Some(ip) => probe_of(stdout@) == Some(ip@),
                    None => probe_of(stdout@) is None,
                })
            } else {
                r.ip is None && (r.diag matches Some(m) && m@ == "Error executing 'ip addr': "@
                    + stderr@)
            },
            CaptureOutcome::SpawnFailed(e) => r.ip is None && (r.diag matches Some(m) && m@
                == "Failed to execute 'ip addr': "@ + e@),
        },
{
    match outcome {
        CaptureOutcome::Captured { success, stdout, stderr } => {
            if *success {
                ProbeReport { ip: extract_ip(stdout.as_str()), diag: None }
            } else {
                ProbeReport {
                    ip: None,
                    diag: Some(
                        String::from_str("Error executing 'ip addr': ").concat(stderr.as_str()),
                    ),
                }
            }
        },
        CaptureOutcome::SpawnFailed(e) => {
            ProbeReport {
                ip: None,
                diag: Some(String::from_str("Failed to execute 'ip addr': ").concat(e.as_str())),
            }
        },
    }
}

/// The line the `Titan-ip` built-in prints for a probe answer.
pub fn current_ip_line(ip: &Option<String>) -> (r: String)
    ensures
        match ip {
            Some(a) => r@ == "Current IP Address: "@ + a@,
            None => r@ == "Could not retrieve IP address"@,
        },
{
    match ip {
        Some(a) => String::from_str("Current IP Address: ").concat(a.as_str()),
        None => String::from_str("Could not retrieve IP address"),
    }
}

/// The line the startup IP report prints for a probe answer.
pub fn updated_ip_line(ip: &Option<String>) -> (r: String)
    ensures
        match ip {
            Some(a) => r@ == "Updated IP Address: "@ + a@,
            None => r@ == "Failed to fetch updated IP address"@,
        },
{
    match ip {
        Some(a) => String::from_str("Updated IP Address: ").concat(a.as_str()),
        None => String::from_str("Failed to fetch updated IP address"),
    }
}

/// The farewell the interrupt handler prints: a line that begins with a
/// newline, so it starts clear of the pending prompt.
pub fn farewell_line() -> (r: String)
    ensures
        r@ == "\nTitan terminal is shutting down. Goodbye!"@,
        r@.len() > 0 && r@[0] == '\n',
{
    proof {
        reveal_strlit("\nTitan terminal is shutting down. Goodbye!");
    }
    String::from_str("\nTitan terminal is shutting down. Goodbye!")
}

} // verus!
