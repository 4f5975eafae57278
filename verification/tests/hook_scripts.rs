use pre_commit::hooks::{
    get_hook_types, hook_impl_args, install_transition, is_our_script, render_hook_script,
    uninstall_transition, HookSlot, HookType, InstallAction, UninstallAction,
};

const MARKER: &str = "182c10f181da4464a3eec51b83331688";

fn empty_slot() -> HookSlot {
    HookSlot { hook: None, legacy: None }
}

fn fresh_script() -> String {
    render_hook_script(HookType::PreCommit, None, false, "/usr/local/bin/tool")
}

#[test]
fn explicit_hook_types_are_used_verbatim() {
    let resolved = get_hook_types(
        Some(vec![HookType::PrePush]),
        vec![HookType::CommitMsg, HookType::PreCommit],
    );
    assert_eq!(resolved, vec![HookType::CommitMsg, HookType::PreCommit]);
}

#[test]
fn config_defaults_fill_in_for_empty_request() {
    let resolved = get_hook_types(Some(vec![HookType::PrePush]), Vec::new());
    assert_eq!(resolved, vec![HookType::PrePush]);
}

#[test]
fn primary_hook_is_the_last_fallback() {
    assert_eq!(get_hook_types(None, Vec::new()), vec![HookType::PreCommit]);
    assert_eq!(get_hook_types(Some(Vec::new()), Vec::new()), vec![HookType::PreCommit]);
}

#[test]
fn hook_type_names_match_git_hook_filenames() {
    assert_eq!(HookType::PreCommit.as_str(), "pre-commit");
    assert_eq!(HookType::PreMergeCommit.as_str(), "pre-merge-commit");
    assert_eq!(HookType::PrePush.as_str(), "pre-push");
    assert_eq!(HookType::CommitMsg.as_str(), "commit-msg");
    assert_eq!(HookType::PrepareCommitMsg.as_str(), "prepare-commit-msg");
    assert_eq!(HookType::PostCheckout.as_str(), "post-checkout");
    assert_eq!(HookType::PostCommit.as_str(), "post-commit");
    assert_eq!(HookType::PostMerge.as_str(), "post-merge");
    assert_eq!(HookType::PostRewrite.as_str(), "post-rewrite");
    assert_eq!(HookType::PreRebase.as_str(), "pre-rebase");
}

#[test]
fn hook_impl_args_minimal() {
    let args = hook_impl_args(HookType::PreCommit, None, false);
    assert_eq!(args, vec!["hook-impl", "--hook-type=pre-commit"]);
}

#[test]
fn hook_impl_args_with_config_and_skip() {
    let args = hook_impl_args(HookType::PrePush, Some(".pre-commit-config.yaml"), true);
    assert_eq!(
        args,
        vec![
            "hook-impl",
            "--hook-type=pre-push",
            "--config=\".pre-commit-config.yaml\"",
            "--skip-on-missing-config",
        ]
    );
}

#[test]
fn generated_script_shape() {
    let script = render_hook_script(
        HookType::PrePush,
        Some(".pre-commit-config.yaml"),
        true,
        "/usr/local/bin/tool",
    );
    assert!(script.starts_with("#!/usr/bin/env bash\n"));
    assert!(script.contains(MARKER));
    assert!(script.contains(
        "ARGS=(hook-impl --hook-type=pre-push --config=\".pre-commit-config.yaml\" --skip-on-missing-config)"
    ));
    assert!(script.contains("PRE_COMMIT=\"/usr/local/bin/tool\""));
    assert!(script.contains("ARGS+=(--hook-dir \"$HERE\" -- \"$@\")"));
    assert!(script.ends_with("exec \"$PRE_COMMIT\" \"${ARGS[@]}\"\n"));
}

#[test]
fn generated_script_is_recognized_as_ours() {
    assert!(is_our_script(&fresh_script()));
}

#[test]
fn foreign_scripts_are_not_recognized() {
    assert!(!is_our_script("#!/bin/sh\nexit 0\n"));
    assert!(!is_our_script(""));
}

#[test]
fn bare_marker_is_recognized() {
    assert!(is_our_script(MARKER));
    assert!(is_our_script(&format!("prefix {MARKER} suffix")));
}

#[test]
fn install_fresh_writes_script() {
    let (slot, action) = install_transition(empty_slot(), fresh_script(), false);
    assert_eq!(action, InstallAction::Fresh);
    assert_eq!(slot.hook, Some(fresh_script()));
    assert_eq!(slot.legacy, None);
}

#[test]
fn install_then_uninstall_round_trip() {
    let (installed, _) = install_transition(empty_slot(), fresh_script(), false);
    let (after, action) = uninstall_transition(installed);
    assert_eq!(action, UninstallAction::Removed);
    assert_eq!(after.hook, None);
    assert_eq!(after.legacy, None);
}

#[test]
fn install_over_foreign_script_backs_it_up_exactly() {
    let foreign = "#!/bin/sh\necho custom hook\n".to_string();
    let start = HookSlot { hook: Some(foreign.clone()), legacy: None };
    let (installed, action) = install_transition(start, fresh_script(), false);
    assert_eq!(action, InstallAction::DisplacedToLegacy);
    assert_eq!(installed.legacy, Some(foreign.clone()));
    assert!(is_our_script(installed.hook.as_deref().unwrap()));

    let (restored, action) = uninstall_transition(installed);
    assert_eq!(action, UninstallAction::RemovedAndRestored);
    assert_eq!(restored.hook, Some(foreign));
    assert_eq!(restored.legacy, None);
}

#[test]
fn second_install_leaves_no_backup() {
    let (first, _) = install_transition(empty_slot(), fresh_script(), false);
    let second_script = render_hook_script(HookType::PreCommit, None, true, "/other/tool");
    let (second, action) = install_transition(first, second_script.clone(), false);
    assert_eq!(action, InstallAction::ReplacedManaged);
    assert_eq!(second.legacy, None);
    assert_eq!(second.hook, Some(second_script));
}

#[test]
fn overwrite_replaces_without_backup() {
    let foreign = "#!/bin/sh\nexit 1\n".to_string();
    let start = HookSlot { hook: Some(foreign), legacy: None };
    let (slot, action) = install_transition(start, fresh_script(), true);
    assert_eq!(action, InstallAction::Overwrote);
    assert_eq!(slot.legacy, None);
    assert_eq!(slot.hook, Some(fresh_script()));
}

#[test]
fn uninstall_skips_missing_file() {
    let (slot, action) = uninstall_transition(empty_slot());
    assert_eq!(action, UninstallAction::SkippedMissing);
    assert_eq!(slot.hook, None);
}

#[test]
fn uninstall_leaves_unmanaged_file_untouched() {
    let foreign = "#!/bin/sh\nexit 0\n".to_string();
    let start = HookSlot { hook: Some(foreign.clone()), legacy: None };
    let (slot, action) = uninstall_transition(start);
    assert_eq!(action, UninstallAction::SkippedUnmanaged);
    assert_eq!(slot.hook, Some(foreign));
}
