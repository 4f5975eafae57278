use pre_commit::git::{
    all_files_cmd, changed_files_cmd, common_dir_cmd, common_dir_from_output, diff_cmd,
    diff_from_output, dirty_from_output, env_keep, files_from_output, git_cmd, git_dir_cmd,
    hooks_path_cmd, hooks_path_set_from_output, intent_to_add_files_cmd, is_dirty_cmd,
    nonempty_from_output, path_from_output, sanitize_env, staged_files_cmd, toplevel_cmd,
    unmerged_cmd, write_tree_cmd, zsplit, Error,
};
use pre_commit::invoke::{Cmd, Error as InvokeError, InvocationResult};

const BASE: [&str; 2] = ["-c", "core.useBuiltinFSMonitor=false"];

fn ok_run(stdout: &[u8]) -> InvocationResult {
    InvocationResult { status: Some(0), stdout: stdout.to_vec(), stderr: Vec::new() }
}

fn failed_run(status: i32, stderr: &[u8]) -> InvocationResult {
    InvocationResult { status: Some(status), stdout: Vec::new(), stderr: stderr.to_vec() }
}

fn checked_cmd() -> Cmd {
    Cmd {
        program: String::from("git"),
        summary: String::from("test"),
        args: Vec::new(),
        envs: Vec::new(),
        cwd: None,
        check: true,
    }
}

/// Asserts the built command has the base arguments, then `tail`, and the
/// expected strictness; tolerates only the absence of a git executable.
fn assert_built(r: Result<Cmd, Error>, tail: &[&str], check: bool) {
    match r {
        Ok(cmd) => {
            let expected: Vec<String> = BASE
                .iter()
                .chain(tail.iter())
                .map(|s| (*s).to_string())
                .collect();
            assert_eq!(cmd.args, expected);
            assert_eq!(cmd.check, check);
            assert!(cmd.cwd.is_none());
        }
        Err(e) => assert!(matches!(e, Error::GitNotFound(_))),
    }
}

#[test]
fn zsplit_empty_output_yields_empty_list() {
    assert!(zsplit(b"").is_empty());
}

#[test]
fn zsplit_only_terminators_yields_empty_list() {
    assert!(zsplit(b"\0\0\0").is_empty());
}

#[test]
fn zsplit_trailing_terminator() {
    assert_eq!(zsplit(b"a.txt\0dir/b.txt\0"), vec!["a.txt", "dir/b.txt"]);
}

#[test]
fn zsplit_without_trailing_terminator() {
    assert_eq!(zsplit(b"a\0b"), vec!["a", "b"]);
}

#[test]
fn zsplit_single_entry() {
    assert_eq!(zsplit(b"only.txt\0"), vec!["only.txt"]);
}

#[test]
fn zsplit_no_empty_elements() {
    for output in [&b"x\0y\0"[..], b"x", b"\0", b""] {
        for entry in zsplit(output) {
            assert!(!entry.is_empty());
        }
    }
}

#[test]
fn zsplit_decodes_invalid_utf8_lossily() {
    // a decoding that handed the bytes back unchanged could not produce
    // the replacement character
    assert_eq!(zsplit(&[0xff, b'a', 0]), vec!["\u{FFFD}a"]);
}

#[test]
fn env_filter_keeps_ordinary_variables() {
    assert!(env_keep("PATH"));
    assert!(env_keep("HOME"));
    assert!(env_keep("GI"));
}

#[test]
fn env_filter_drops_reserved_prefix() {
    assert!(!env_keep("GIT_DIR"));
    assert!(!env_keep("GIT_INDEX_FILE"));
    assert!(!env_keep("GIT_"));
}

#[test]
fn env_filter_keeps_allow_list() {
    for name in [
        "GIT_EXEC_PATH",
        "GIT_SSH",
        "GIT_SSH_COMMAND",
        "GIT_SSL_CAINFO",
        "GIT_SSL_NO_VERIFY",
        "GIT_CONFIG_COUNT",
        "GIT_HTTP_PROXY_AUTHMETHOD",
        "GIT_ALLOW_PROTOCOL",
        "GIT_ASKPASS",
    ] {
        assert!(env_keep(name), "{name} should be kept");
    }
}

#[test]
fn env_filter_keeps_config_override_subprefixes() {
    assert!(env_keep("GIT_CONFIG_KEY_0"));
    assert!(env_keep("GIT_CONFIG_VALUE_0"));
}

#[test]
fn sanitize_filters_and_keeps_order() {
    let env = vec![
        ("PATH".to_string(), "/usr/bin".to_string()),
        ("GIT_DIR".to_string(), "/elsewhere/.git".to_string()),
        ("GIT_SSH".to_string(), "ssh".to_string()),
        ("TERM".to_string(), "dumb".to_string()),
    ];
    let clean = sanitize_env(&env);
    let names: Vec<&str> = clean.iter().map(|p| p.0.as_str()).collect();
    assert_eq!(names, vec!["PATH", "GIT_SSH", "TERM"]);
    assert_eq!(clean[1].1, "ssh");
}

#[test]
fn git_cmd_applies_base_configuration() {
    let env = vec![
        ("GIT_DIR".to_string(), "x".to_string()),
        ("LANG".to_string(), "C".to_string()),
    ];
    match git_cmd(&env, "test summary") {
        Ok(cmd) => {
            assert_eq!(cmd.args, vec!["-c", "core.useBuiltinFSMonitor=false"]);
            assert_eq!(cmd.summary, "test summary");
            assert!(!cmd.check);
            assert!(cmd.cwd.is_none());
            assert_eq!(cmd.envs, vec![("LANG".to_string(), "C".to_string())]);
        }
        Err(e) => assert!(matches!(e, Error::GitNotFound(_))),
    }
}

#[test]
fn intent_to_add_files_cmd_args() {
    assert_built(
        intent_to_add_files_cmd(&Vec::new()),
        &["diff", "--no-ext-diff", "--ignore-submodules", "--diff-filter=A", "--name-only", "-z"],
        true,
    );
}

#[test]
fn changed_files_cmd_builds_three_dot_range() {
    assert_built(
        changed_files_cmd(&Vec::new(), "main", "HEAD"),
        &["diff", "--name-only", "--diff-filter=ACMRT", "--no-ext-diff", "-z", "main...HEAD"],
        true,
    );
}

#[test]
fn all_files_cmd_args() {
    assert_built(all_files_cmd(&Vec::new()), &["ls-files", "-z"], true);
}

#[test]
fn metadata_directory_cmd_args() {
    assert_built(git_dir_cmd(&Vec::new()), &["rev-parse", "--git-dir"], true);
    assert_built(common_dir_cmd(&Vec::new()), &["rev-parse", "--git-common-dir"], true);
    assert_built(toplevel_cmd(&Vec::new()), &["rev-parse", "--show-toplevel"], true);
}

#[test]
fn staged_files_cmd_args() {
    assert_built(
        staged_files_cmd(&Vec::new()),
        &["diff", "--staged", "--name-only", "--diff-filter=ACMRTUXB", "--no-ext-diff", "-z"],
        true,
    );
}

#[test]
fn unmerged_and_write_tree_cmd_args() {
    assert_built(unmerged_cmd(&Vec::new()), &["ls-files", "--unmerged"], true);
    assert_built(write_tree_cmd(&Vec::new()), &["write-tree"], true);
}

#[test]
fn diff_cmd_disables_drivers_and_textconv() {
    assert_built(
        diff_cmd(&Vec::new()),
        &["diff", "--no-ext-diff", "--no-textconv", "--ignore-submodules"],
        true,
    );
}

#[test]
fn dirty_and_hooks_path_cmds_are_unchecked() {
    assert_built(
        is_dirty_cmd(&Vec::new(), "src/lib.rs"),
        &["diff", "--quiet", "--no-ext-diff", "src/lib.rs"],
        false,
    );
    assert_built(hooks_path_cmd(&Vec::new()), &["config", "--get", "core.hooksPath"], false);
}

#[test]
fn dirty_clean_on_exit_zero() {
    assert_eq!(dirty_from_output(ok_run(b"")).unwrap(), false);
}

#[test]
fn dirty_on_exit_one() {
    assert_eq!(dirty_from_output(failed_run(1, b"")).unwrap(), true);
}

#[test]
fn dirty_propagates_other_exit_codes() {
    let err = dirty_from_output(failed_run(128, b"fatal: not a repository")).unwrap_err();
    match err {
        Error::Command(InvokeError::ExecutionFailed { status, stderr }) => {
            assert_eq!(status, Some(128));
            assert_eq!(stderr, b"fatal: not a repository");
        }
        other => panic!("unexpected error: {other:?}"),
    }
}

#[test]
fn dirty_propagates_signal_termination() {
    let out = InvocationResult { status: None, stdout: Vec::new(), stderr: Vec::new() };
    assert!(matches!(
        dirty_from_output(out),
        Err(Error::Command(InvokeError::ExecutionFailed { status: None, .. }))
    ));
}

#[test]
fn path_output_is_trimmed() {
    let cmd = checked_cmd();
    assert_eq!(path_from_output(&cmd, ok_run(b"/repo/.git\n")).unwrap(), "/repo/.git");
}

#[test]
fn path_output_failure_carries_status_and_stderr() {
    let cmd = checked_cmd();
    let err = path_from_output(&cmd, failed_run(128, b"fatal")).unwrap_err();
    match err {
        Error::Command(InvokeError::ExecutionFailed { status, stderr }) => {
            assert_eq!(status, Some(128));
            assert_eq!(stderr, b"fatal");
        }
        other => panic!("unexpected error: {other:?}"),
    }
}

#[test]
fn common_dir_empty_output_asks_for_fallback() {
    let cmd = checked_cmd();
    assert_eq!(common_dir_from_output(&cmd, ok_run(b"\n")).unwrap(), None);
    assert_eq!(common_dir_from_output(&cmd, ok_run(b"")).unwrap(), None);
}

#[test]
fn common_dir_nonempty_output_is_used() {
    let cmd = checked_cmd();
    assert_eq!(
        common_dir_from_output(&cmd, ok_run(b".git\n")).unwrap(),
        Some(".git".to_string())
    );
}

#[test]
fn unmerged_listing_nonempty_means_unmerged() {
    let cmd = checked_cmd();
    assert_eq!(nonempty_from_output(&cmd, ok_run(b"\n \n")).unwrap(), false);
    assert_eq!(
        nonempty_from_output(&cmd, ok_run(b"100644 abc 1\tfile\n")).unwrap(),
        true
    );
}

#[test]
fn diff_bytes_pass_through_unchanged() {
    let cmd = checked_cmd();
    let payload = b"diff --git a/x b/x\n\xff\x00binary";
    assert_eq!(diff_from_output(&cmd, ok_run(payload)).unwrap(), payload.to_vec());
}

#[test]
fn files_from_output_splits_and_checks() {
    let cmd = checked_cmd();
    assert_eq!(
        files_from_output(&cmd, ok_run(b"a.py\0b.py\0")).unwrap(),
        vec!["a.py", "b.py"]
    );
    assert!(matches!(
        files_from_output(&cmd, failed_run(129, b"usage")),
        Err(Error::Command(InvokeError::ExecutionFailed { status: Some(129), .. }))
    ));
}

#[test]
fn hooks_path_set_only_on_successful_nonempty_lookup() {
    let set = InvocationResult { status: Some(0), stdout: b"/hooks\n".to_vec(), stderr: Vec::new() };
    let empty = InvocationResult { status: Some(0), stdout: b" \n".to_vec(), stderr: Vec::new() };
    let failed = InvocationResult { status: Some(1), stdout: b"/hooks\n".to_vec(), stderr: Vec::new() };
    assert!(hooks_path_set_from_output(&set));
    assert!(!hooks_path_set_from_output(&empty));
    assert!(!hooks_path_set_from_output(&failed));
}

#[test]
fn check_status_rejects_nonzero_exit() {
    let cmd = checked_cmd();
    assert!(cmd.check_status(Some(0), Vec::new()).is_ok());
    match cmd.check_status(Some(2), b"boom".to_vec()) {
        Err(InvokeError::ExecutionFailed { status, stderr }) => {
            assert_eq!(status, Some(2));
            assert_eq!(stderr, b"boom");
        }
        other => panic!("unexpected: {other:?}"),
    }
}

#[test]
fn interpret_respects_strictness() {
    let strict = checked_cmd();
    let mut lax = checked_cmd();
    lax.check(false);
    assert!(strict.interpret(failed_run(3, b"err")).is_err());
    let back = lax.interpret(failed_run(3, b"err")).unwrap();
    assert_eq!(back.status, Some(3));
}
