use wsl_relay::dispatch::{finish_cd, finish_cd_text, launch_failed, plan, relay_line, Action, ScriptKind};
use wsl_relay::event::{Channel, Event};
use wsl_relay::shell::{build_cd_script, build_run_script, home_query_script};
use wsl_relay::store::DirectoryStore;
use wsl_relay::text::{is_whitespace, join_strs, split_words, trim_str};

const HELP: &str = "BUILT-IN COMMANDS:\n- help: Shows this message\n- cd [dir]: Changes directory\n- clear: Clears the terminal screen\n\nAll other commands are passed to WSL.";

fn store_at(dir: &str) -> DirectoryStore {
    let mut s = DirectoryStore::new();
    s.set(dir.to_string());
    s
}

fn words(v: &[&str]) -> Vec<String> {
    v.iter().map(|w| w.to_string()).collect()
}

#[test]
fn trim_removes_outer_whitespace_only() {
    assert_eq!(trim_str("  a b \t\n"), "a b");
    assert_eq!(trim_str(""), "");
    assert_eq!(trim_str(" \u{3000}\u{a0} "), "");
    assert_eq!(trim_str("\u{2003}x\u{85}"), "x");
}

#[test]
fn whitespace_matches_std() {
    for u in 0u32..0x3100 {
        if let Some(c) = char::from_u32(u) {
            assert_eq!(is_whitespace(c), c.is_whitespace(), "{:x}", u);
        }
    }
}

#[test]
fn split_words_matches_split_whitespace() {
    for s in ["", "   ", "a", " echo  hello\tworld \n", "x\u{a0}y", "ab cd ef "] {
        let expected: Vec<String> = s.split_whitespace().map(|w| w.to_string()).collect();
        assert_eq!(split_words(s), expected);
    }
}

#[test]
fn join_puts_separator_between_neighbours() {
    assert_eq!(join_strs(&words(&["a", "b", "c"]), " "), "a b c");
    assert_eq!(join_strs(&words(&["a"]), ", "), "a");
    assert_eq!(join_strs(&words(&[]), " "), "");
}

#[test]
fn quoting_round_trips_through_a_shell_parser() {
    let odd = ["", "plain", "two words", "it's", "a\"b", "$(rm -rf /)", "x;y|z&", "back\\slash", "~", "*?[]", "tab\there", "new\nline", "ünï"];
    for arg in odd {
        let script = build_run_script("/tmp", "echo", &words(&[arg]));
        let parsed = shlex::split(&script).unwrap();
        assert_eq!(parsed, vec!["cd", "/tmp", "&&", "echo", arg]);
    }
}

#[test]
fn directory_with_spaces_is_quoted() {
    let script = build_run_script("/home/u/my dir", "ls", &words(&[]));
    assert_eq!(script, "cd '/home/u/my dir' && ls ");
    assert_eq!(build_cd_script("", &words(&[])), "cd '' && cd && pwd");
}

#[test]
fn cd_home_forms() {
    let store = store_at("/home/u");
    let expected = Action::ChangeDir("cd /home/u && cd && pwd".to_string());
    assert_eq!(plan("cd", &store), expected);
    assert_eq!(plan("cd ~", &store), expected);
    assert_eq!(plan("  cd   ~/ ", &store), expected);
}

#[test]
fn cd_home_updates_path() {
    let mut store = store_at("/home/u");
    let ev = finish_cd(&mut store, true, b"/home/u\n", b"");
    assert_eq!(ev, Event { channel: Channel::PathUpdate, payload: "/home/u".to_string() });
    assert_eq!(store.get(), "/home/u");
}

#[test]
fn cd_subdir_script_and_success() {
    let mut store = store_at("/home/u");
    assert_eq!(plan("cd subdir", &store), Action::ChangeDir("cd /home/u && cd subdir && pwd".to_string()));
    let ev = finish_cd(&mut store, true, b"/home/u/subdir\n", b"");
    assert_eq!(ev, Event::path_update("/home/u/subdir".to_string()));
    assert_eq!(store.get(), "/home/u/subdir");
}

#[test]
fn cd_missing_dir_reports_error() {
    let mut store = store_at("/home/u");
    let ev = finish_cd(&mut store, false, b"", b"sh: 1: cd: can't cd to nope\n");
    assert_eq!(ev.channel, Channel::TerminalOutput);
    assert_eq!(ev.payload, "sh: 1: cd: can't cd to nope\n");
    assert_eq!(store.get(), "/home/u");
}

#[test]
fn cd_target_words_are_joined_and_quoted() {
    let store = store_at("/home/u");
    assert_eq!(plan("cd my   dir", &store), Action::ChangeDir("cd /home/u && cd 'my dir' && pwd".to_string()));
    assert_eq!(plan("cd ~/x", &store), Action::ChangeDir("cd /home/u && cd '~/x' && pwd".to_string()));
}

#[test]
fn cd_output_with_invalid_bytes_is_decoded_lossily() {
    let mut store = store_at("/home/u");
    let ev = finish_cd(&mut store, true, b" /home/u/a\xffb \n", b"");
    assert_eq!(ev.payload, "/home/u/a\u{fffd}b");
    let ev = finish_cd(&mut store, false, b"", b"bad \xfe");
    assert_eq!(ev, Event::output("bad \u{fffd}".to_string()));
    assert_eq!(store.get(), "/home/u/a\u{fffd}b");
}

#[test]
fn finish_cd_text_trims_output() {
    let mut store = DirectoryStore::new();
    let ev = finish_cd_text(&mut store, true, "  /srv \n", "ignored");
    assert_eq!(ev, Event::path_update("/srv".to_string()));
    assert_eq!(store.get(), "/srv");
}

#[test]
fn help_is_answered_without_process() {
    let store = store_at("/home/u");
    let action = plan("help", &store);
    assert_eq!(action, Action::Emit(Event { channel: Channel::TerminalOutput, payload: HELP.to_string() }));
    assert_eq!(plan("  help extra ", &store), action);
}

#[test]
fn echo_runs_after_cd_to_tmp() {
    let store = store_at("/tmp");
    match plan("echo hello world", &store) {
        Action::Run(script) => {
            assert_eq!(script, "cd /tmp && echo hello world");
            assert!(script.find("cd /tmp").unwrap() < script.find("echo").unwrap());
        }
        other => panic!("unexpected {:?}", other),
    }
    assert_eq!(relay_line(Some("hello world".to_string())), Some(Event::output("hello world".to_string())));
}

#[test]
fn blank_lines_do_nothing() {
    let store = store_at("/tmp");
    for line in ["", " ", "\t \n", "\u{3000}"] {
        assert_eq!(plan(line, &store), Action::Nothing);
    }
}

#[test]
fn general_command_arguments_are_quoted() {
    let store = store_at("/tmp");
    assert_eq!(plan("grep a;b *.rs", &store), Action::Run("cd /tmp && grep 'a;b' '*.rs'".to_string()));
    assert_eq!(plan("ls", &store), Action::Run("cd /tmp && ls ".to_string()));
}

#[test]
fn unreadable_lines_are_skipped() {
    assert_eq!(relay_line(None), None);
    assert_eq!(relay_line(Some(String::new())), Some(Event::output(String::new())));
}

#[test]
fn launch_failures_are_described() {
    assert_eq!(launch_failed(ScriptKind::ChangeDir, "not found"), Event::output("Failed to execute command: not found".to_string()));
    assert_eq!(launch_failed(ScriptKind::Run, "denied"), Event::output("Failed to start command: denied".to_string()));
}

#[test]
fn channel_names() {
    assert_eq!(Channel::TerminalOutput.name(), "terminal-output");
    assert_eq!(Channel::PathUpdate.name(), "path-update");
}

#[test]
fn store_reads_repeat() {
    let store = store_at("/home/u");
    let a = store.get();
    let b = store.get();
    assert_eq!(a, b);
    assert_eq!(DirectoryStore::new().get(), "");
}

#[test]
fn seeding_from_home_query() {
    assert_eq!(home_query_script(), "pwd");
    let mut store = DirectoryStore::new();
    store.seed(b"\n\n");
    assert_eq!(store.get(), "");
    store.seed(b"/home/u\n");
    assert_eq!(store.get(), "/home/u");
    store.seed_from_text("   ");
    assert_eq!(store.get(), "/home/u");
}
