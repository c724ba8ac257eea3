//! The command table and the REPL's dispatch decision: a trimmed input line
//! either names a built-in, which runs without the system shell, or is handed
//! verbatim to the system shell.

use vstd::prelude::*;

verus! {

use crate::text::str_eq;
use crate::text::trim_spec;
use crate::text::trim_str;

/// The built-in commands, matched case-sensitively against trimmed input.
#[derive(Clone, Copy, Debug, PartialEq, Eq, Structural)]
pub enum Builtin {
    Build,
    Exit,
    TitanIp,
    Help,
}

/// The built-in a dispatch key names, if any.
pub open spec fn builtin_of(key: Seq<char>) -> Option<Builtin> {
    if key == "build"@ {
        Some(Builtin::Build)
    } else if key == "exit"@ {
        Some(Builtin::Exit)
    } else if key == "Titan-ip"@ {
        Some(Builtin::TitanIp)
    } else if key == "help"@ {
        Some(Builtin::Help)
    } else {
        None
    }
}

/// Looks a dispatch key up in the command table.
pub fn lookup_builtin(key: &str) -> (r: Option<Builtin>)
    ensures
        r == builtin_of(key@),
{
    if str_eq(key, "build") {
        Some(Builtin::Build)
    } else if str_eq(key, "exit") {
        Some(Builtin::Exit)
    } else if str_eq(key, "Titan-ip") {
        Some(Builtin::TitanIp)
    } else if str_eq(key, "help") {
        Some(Builtin::Help)
    } else {
        None
    }
}

/// What one input line asks for: a built-in's action, or a shell run of the
/// trimmed line.
pub enum Dispatch {
    Builtin(Builtin),
    Shell(String),
}

/// Decides how one raw input line is dispatched. A line whose trimmed form
/// names a built-in runs that built-in and never the shell; any other line
/// goes to the shell with exactly its trimmed form as the command.
pub fn dispatch_line(line: &str) -> (r: Dispatch)
    ensures
        ({
            let key = trim_spec(line@);
            match r {
                Dispatch::Builtin(b) => builtin_of(key) == Some(b),
                Dispatch::Shell(cmd) => builtin_of(key) is None && cmd@ == key,
            }
        }),
{
    let key = trim_str(line);
    match lookup_builtin(key.as_str()) {
        Some(b) => Dispatch::Builtin(b),
        None => Dispatch::Shell(key),
    }
}

/// The help block, exactly as the `help` built-in prints it.
pub open spec fn help_text_spec() -> Seq<char> {
    "Available commands:\n  build       - Build the kernel\n  exit        - Exit the Titan terminal\n  Titan-ip    - Display current IP address\n  help        - Show this help menu\n"@
}

/// The text the `help` built-in emits: one header line and one line per
/// built-in.
pub fn help_text() -> (r: String)
    ensures
        r@ == help_text_spec(),
{
    let block = "Available commands:\n  build       - Build the kernel\n  exit        - Exit the Titan terminal\n  Titan-ip    - Display current IP address\n  help        - Show this help menu\n";
    block.to_owned()
}

} // verus!
