use titan_terminal::command::{dispatch_line, help_text, lookup_builtin, Builtin, Dispatch};
use titan_terminal::text::{contains_str, str_eq, trim_str};

#[test]
fn trimmed_builtin_names_dispatch_to_builtins() {
    match dispatch_line("build\n") {
        Dispatch::Builtin(b) => assert_eq!(b, Builtin::Build),
        Dispatch::Shell(_) => panic!("build must not reach the shell"),
    }
    match dispatch_line("  exit  \n") {
        Dispatch::Builtin(b) => assert_eq!(b, Builtin::Exit),
        Dispatch::Shell(_) => panic!("exit must not reach the shell"),
    }
    match dispatch_line("\tTitan-ip\n") {
        Dispatch::Builtin(b) => assert_eq!(b, Builtin::TitanIp),
        Dispatch::Shell(_) => panic!("Titan-ip must not reach the shell"),
    }
    match dispatch_line("help\n") {
        Dispatch::Builtin(b) => assert_eq!(b, Builtin::Help),
        Dispatch::Shell(_) => panic!("help must not reach the shell"),
    }
}

#[test]
fn other_lines_dispatch_to_the_shell_trimmed() {
    match dispatch_line("echo hello\n") {
        Dispatch::Shell(cmd) => assert_eq!(cmd, "echo hello"),
        Dispatch::Builtin(_) => panic!("echo hello is no built-in"),
    }
    match dispatch_line("   false   \n") {
        Dispatch::Shell(cmd) => assert_eq!(cmd, "false"),
        Dispatch::Builtin(_) => panic!("false is no built-in"),
    }
}

#[test]
fn builtin_match_is_case_sensitive_and_exact() {
    match dispatch_line("titan-ip\n") {
        Dispatch::Shell(cmd) => assert_eq!(cmd, "titan-ip"),
        Dispatch::Builtin(_) => panic!("titan-ip differs from Titan-ip"),
    }
    match dispatch_line("builds\n") {
        Dispatch::Shell(cmd) => assert_eq!(cmd, "builds"),
        Dispatch::Builtin(_) => panic!("builds is no built-in"),
    }
}

#[test]
fn lookup_covers_exactly_the_four_builtins() {
    assert_eq!(lookup_builtin("build"), Some(Builtin::Build));
    assert_eq!(lookup_builtin("exit"), Some(Builtin::Exit));
    assert_eq!(lookup_builtin("Titan-ip"), Some(Builtin::TitanIp));
    assert_eq!(lookup_builtin("help"), Some(Builtin::Help));
    assert_eq!(lookup_builtin("quit"), None);
    assert_eq!(lookup_builtin(""), None);
}

#[test]
fn help_lists_all_builtins() {
    let block = help_text();
    assert_eq!(
        block,
        "Available commands:\n  build       - Build the kernel\n  exit        - Exit the Titan terminal\n  Titan-ip    - Display current IP address\n  help        - Show this help menu\n"
    );
    assert_eq!(block.lines().count(), 5);
}

#[test]
fn trim_removes_surrounding_whitespace_only() {
    assert_eq!(trim_str("  a b  "), "a b");
    assert_eq!(trim_str("\t\r\n"), "");
    assert_eq!(trim_str(""), "");
    assert_eq!(trim_str("exit"), "exit");
    assert_eq!(trim_str(" inner  spaces stay \n"), "inner  spaces stay");
}

#[test]
fn trim_follows_the_unicode_whitespace_set() {
    assert_eq!(trim_str("exit\u{a0}\n"), "exit\u{a0}\n".trim());
    assert_eq!(trim_str("\u{a0}ls\n"), "\u{a0}ls\n".trim());
    assert_eq!(trim_str("\u{2003}help\u{2028}"), "help");
    assert_eq!(trim_str("\u{85}\u{1680}\u{202f}\u{205f}\u{3000}"), "");
}

#[test]
fn unicode_whitespace_around_a_builtin_still_dispatches_it() {
    match dispatch_line("exit\u{a0}\n") {
        Dispatch::Builtin(b) => assert_eq!(b, Builtin::Exit),
        Dispatch::Shell(_) => panic!("exit must not reach the shell"),
    }
    match dispatch_line("\u{a0}ls\n") {
        Dispatch::Shell(cmd) => assert_eq!(cmd, "ls"),
        Dispatch::Builtin(_) => panic!("ls is no built-in"),
    }
}

#[test]
fn string_helpers_behave() {
    assert!(str_eq("abc", "abc"));
    assert!(!str_eq("abc", "abd"));
    assert!(!str_eq("abc", "ab"));
    assert!(contains_str("inet 1.2.3.4", "inet"));
    assert!(!contains_str("inet 1.2.3.4", "inet6"));
    assert!(contains_str("anything", ""));
    assert!(!contains_str("", "a"));
}
