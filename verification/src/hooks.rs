//! The hook script manager: hook-type resolution, generation of the shell
//! shim with its embedded ownership marker, recognition of manager-owned
//! scripts, and the install/uninstall state machine over the pair of files
//! at `hooks_dir/<type>` and `hooks_dir/<type>.legacy`.

use vstd::prelude::*;

use crate::strutil::{join_space, spec_contains, spec_join_space, str_contains, str_eq};

verus! {

/// The closed set of hook events a script can be installed for, each with
/// its canonical git hook filename.
#[derive(Clone, Copy, PartialEq, Eq, Structural, Debug)]
pub enum HookType {
    CommitMsg,
    PostCheckout,
    PostCommit,
    PostMerge,
    PostRewrite,
    PreCommit,
    PreMergeCommit,
    PrePush,
    PreRebase,
    PrepareCommitMsg,
}

/// The canonical filename of each hook type.
pub open spec fn spec_hook_type_name(t: HookType) -> Seq<char> {
    match t {
        HookType::CommitMsg => "commit-msg"@,
        HookType::PostCheckout => "post-checkout"@,
        HookType::PostCommit => "post-commit"@,
        HookType::PostMerge => "post-merge"@,
        HookType::PostRewrite => "post-rewrite"@,
        HookType::PreCommit => "pre-commit"@,
        HookType::PreMergeCommit => "pre-merge-commit"@,
        HookType::PrePush => "pre-push"@,
        HookType::PreRebase => "pre-rebase"@,
        HookType::PrepareCommitMsg => "prepare-commit-msg"@,
    }
}

impl HookType {
    pub fn as_str(&self) -> (r: &'static str)
        ensures
            r@ == spec_hook_type_name(*self),
    {
        match self {
            HookType::CommitMsg => "commit-msg",
            HookType::PostCheckout => "post-checkout",
            HookType::PostCommit => "post-commit",
            HookType::PostMerge => "post-merge",
            HookType::PostRewrite => "post-rewrite",
            HookType::PreCommit => "pre-commit",
            HookType::PreMergeCommit => "pre-merge-commit",
            HookType::PrePush => "pre-push",
            HookType::PreRebase => "pre-rebase",
            HookType::PrepareCommitMsg => "prepare-commit-msg",
        }
    }
}

/// The hook type a canonical filename stands for, or `None` for any other
/// name: unsupported types are rejected here, at construction, rather than
/// mishandled at the filesystem boundary.
pub fn hook_type_from_name(name: &str) -> (r: Option<HookType>)
    ensures
        match r {
            Some(t) => name@ == spec_hook_type_name(t),
            None => forall|t: HookType| name@ != spec_hook_type_name(t),
        },
{
    if str_eq(name, "commit-msg") {
        Some(HookType::CommitMsg)
    } else if str_eq(name, "post-checkout") {
        Some(HookType::PostCheckout)
    } else if str_eq(name, "post-commit") {
        Some(HookType::PostCommit)
    } else if str_eq(name, "post-merge") {
        Some(HookType::PostMerge)
    } else if str_eq(name, "post-rewrite") {
        Some(HookType::PostRewrite)
    } else if str_eq(name, "pre-commit") {
        Some(HookType::PreCommit)
    } else if str_eq(name, "pre-merge-commit") {
        Some(HookType::PreMergeCommit)
    } else if str_eq(name, "pre-push") {
        Some(HookType::PrePush)
    } else if str_eq(name, "pre-rebase") {
        Some(HookType::PreRebase)
    } else if str_eq(name, "prepare-commit-msg") {
        Some(HookType::PrepareCommitMsg)
    } else {
        proof {
            assert forall|t: HookType| name@ != spec_hook_type_name(t) by {
                match t {
                    HookType::CommitMsg => {},
                    HookType::PostCheckout => {},
                    HookType::PostCommit => {},
                    HookType::PostMerge => {},
                    HookType::PostRewrite => {},
                    HookType::PreCommit => {},
                    HookType::PreMergeCommit => {},
                    HookType::PrePush => {},
                    HookType::PreRebase => {},
                    HookType::PrepareCommitMsg => {},
                }
            }
        }
        None
    }
}

/// Resolve which hook types to install or uninstall: explicit requests are
/// used verbatim; otherwise the project configuration's declared defaults;
/// otherwise the primary commit-time hook. Install and uninstall share this
/// so the two commands stay symmetric.
pub fn get_hook_types(config_defaults: Option<Vec<HookType>>, hook_types: Vec<HookType>) -> (r:
    Vec<HookType>)
    ensures
        hook_types@.len() > 0 ==> r@ == hook_types@,
        hook_types@.len() == 0 ==> match config_defaults {
            Some(defaults) => if defaults@.len() > 0 {
                r@ == defaults@
            } else {
                r@ =~= seq![HookType::PreCommit]
            },
            None => r@ =~= seq![HookType::PreCommit],
        },
{
    let mut resolved = if hook_types.len() > 0 {
        hook_types
    } else {
        match config_defaults {
            Some(defaults) => defaults,
            None => Vec::new(),
        }
    };
    if resolved.len() == 0 {
        resolved.push(HookType::PreCommit);
    }
    resolved
}

/// The content-hash marker the currently generated script embeds.
pub open spec fn spec_current_marker() -> Seq<char> {
    "182c10f181da4464a3eec51b83331688"@
}

/// A hook file is manager-owned exactly when its content contains the
/// current content-hash marker or one from the historical list. The
/// historical list is empty in this version; when the template changes, a
/// new marker is added and the old ones are kept, so that scripts written
/// by earlier versions stay recognized.
pub open spec fn spec_is_managed(content: Seq<char>) -> bool {
    spec_contains(content, spec_current_marker())
}

/// Recognize a manager-owned script by its content.
pub fn is_our_script(content: &str) -> (r: bool)
    ensures
        r == spec_is_managed(content@),
{
    str_contains(content, "182c10f181da4464a3eec51b83331688")
}

/// The arguments the generated shim hands back to the manager: the
/// hook-type flag, then the resolved configuration file (if any), then the
/// skip flag (if asked for).
pub open spec fn spec_hook_args(
    t: HookType,
    config_file: Option<Seq<char>>,
    skip_on_missing_config: bool,
) -> Seq<Seq<char>> {
    let base = seq!["hook-impl"@, "--hook-type="@ + spec_hook_type_name(t)];
    let with_config = match config_file {
        Some(c) => base.push("--config=\""@ + c + "\""@),
        None => base,
    };
    if skip_on_missing_config {
        with_config.push("--skip-on-missing-config"@)
    } else {
        with_config
    }
}

pub open spec fn opt_view(o: Option<&str>) -> Option<Seq<char>> {
    match o {
        Some(s) => Some(s@),
        None => None,
    }
}

pub fn hook_impl_args(t: HookType, config_file: Option<&str>, skip_on_missing_config: bool) -> (r:
    Vec<String>)
    ensures
        r.deep_view() == spec_hook_args(t, opt_view(config_file), skip_on_missing_config),
{
    let mut args: Vec<String> = Vec::new();
    args.push(String::from_str("hook-impl"));
    args.push(String::from_str("--hook-type=").concat(t.as_str()));
    if let Some(config) = config_file {
        args.push(String::from_str("--config=\"").concat(config).concat("\""));
    }
    if skip_on_missing_config {
        args.push(String::from_str("--skip-on-missing-config"));
    }
    proof {
        assert(args.deep_view() =~= spec_hook_args(t, opt_view(config_file), skip_on_missing_config));
    }
    args
}

/// The generated shim: a fixed shell template with the joined re-invocation
/// arguments and the path of the manager's own executable substituted in.
/// The marker after `ID:` is what ownership recognition looks for.
pub open spec fn spec_hook_script(args_joined: Seq<char>, exe: Seq<char>) -> Seq<char> {
    "#!/usr/bin/env bash\n# File generated by the pre-commit hook manager\n# ID: "@
        + spec_current_marker() + "\n\nARGS=("@ + args_joined
        + ")\n\nHERE=\"$(cd \"$(dirname \"$0\")\" && pwd)\"\nARGS+=(--hook-dir \"$HERE\" -- \"$@\")\nPRE_COMMIT=\""@
        + exe + "\"\n\nexec \"$PRE_COMMIT\" \"${ARGS[@]}\"\n"@
}

pub fn generate_hook_script(args_joined: &str, exe: &str) -> (r: String)
    ensures
        r@ == spec_hook_script(args_joined@, exe@),
{
    let mut s = String::from_str(
        "#!/usr/bin/env bash\n# File generated by the pre-commit hook manager\n# ID: ",
    );
    s.append("182c10f181da4464a3eec51b83331688");
    s.append("\n\nARGS=(");
    s.append(args_joined);
    s.append(
        ")\n\nHERE=\"$(cd \"$(dirname \"$0\")\" && pwd)\"\nARGS+=(--hook-dir \"$HERE\" -- \"$@\")\nPRE_COMMIT=\"",
    );
    s.append(exe);
    s.append("\"\n\nexec \"$PRE_COMMIT\" \"${ARGS[@]}\"\n");
    s
}

/// Generate the shim for a hook type: the re-invocation arguments joined
/// by spaces, substituted with the executable path into the template.
pub fn render_hook_script(
    t: HookType,
    config_file: Option<&str>,
    skip_on_missing_config: bool,
    exe: &str,
) -> (r: String)
    ensures
        r@ == spec_hook_script(
            spec_join_space(spec_hook_args(t, opt_view(config_file), skip_on_missing_config)),
            exe@,
        ),
{
    let args = hook_impl_args(t, config_file, skip_on_missing_config);
    let joined = join_space(args.as_slice());
    generate_hook_script(joined.as_str(), exe)
}

/// Law: a freshly generated script is always recognized as manager-owned —
/// the marker stands in the template itself, whatever is substituted in.
pub proof fn lemma_generated_script_is_managed(args_joined: Seq<char>, exe: Seq<char>)
    ensures
        spec_is_managed(spec_hook_script(args_joined, exe)),
{
    let head = "#!/usr/bin/env bash\n# File generated by the pre-commit hook manager\n# ID: "@;
    let marker = spec_current_marker();
    let s = spec_hook_script(args_joined, exe);
    reveal_strlit("#!/usr/bin/env bash\n# File generated by the pre-commit hook manager\n# ID: ");
    reveal_strlit("182c10f181da4464a3eec51b83331688");
    assert(s.subrange(head.len() as int, head.len() as int + marker.len() as int) =~= marker);
    assert(0 <= head.len() as int <= s.len() - marker.len());
}

// ---------------------------------------------------------------------------
// The install/uninstall state machine
// ---------------------------------------------------------------------------
/// The observable state for one hook type: the content of the hook file and
/// of its `.legacy` sibling, or `None` where the file does not exist.
pub struct HookSlot {
    pub hook: Option<String>,
    pub legacy: Option<String>,
}

/// The mathematical model of a `HookSlot`.
pub struct SlotModel {
    pub hook: Option<Seq<char>>,
    pub legacy: Option<Seq<char>>,
}

impl View for HookSlot {
    type V = SlotModel;

    open spec fn view(&self) -> SlotModel {
        SlotModel {
            hook: match self.hook {
                Some(c) => Some(c@),
                None => None,
            },
            legacy: match self.legacy {
                Some(c) => Some(c@),
                None => None,
            },
        }
    }
}

/// What an install did, to be reported to the user.
#[derive(Clone, Copy, PartialEq, Eq, Structural, Debug)]
pub enum InstallAction {
    /// No file existed; the script was written fresh.
    Fresh,
    /// A file existed and overwriting was requested.
    Overwrote,
    /// A manager-owned file was replaced in place, without a backup.
    ReplacedManaged,
    /// An unmanaged file was moved to the `.legacy` path first.
    DisplacedToLegacy,
}

/// The install step for one hook type. A pre-existing unmanaged file is
/// displaced to the `.legacy` path (replacing any backup there); a
/// manager-owned file, or any file under `overwrite`, is replaced in place.
/// The new script always ends up installed.
pub open spec fn spec_install(s: SlotModel, script: Seq<char>, overwrite: bool) -> (
    SlotModel,
    InstallAction,
) {
    match s.hook {
        None => (SlotModel { hook: Some(script), legacy: s.legacy }, InstallAction::Fresh),
        Some(existing) => {
            if overwrite {
                (SlotModel { hook: Some(script), legacy: s.legacy }, InstallAction::Overwrote)
            } else if spec_is_managed(existing) {
                (SlotModel { hook: Some(script), legacy: s.legacy }, InstallAction::ReplacedManaged)
            } else {
                (
                    SlotModel { hook: Some(script), legacy: Some(existing) },
                    InstallAction::DisplacedToLegacy,
                )
            }
        },
    }
}

pub fn install_transition(slot: HookSlot, script: String, overwrite: bool) -> (r: (
    HookSlot,
    InstallAction,
))
    ensures
        (r.0@, r.1) == spec_install(slot@, script@, overwrite),
{
    match slot.hook {
        None => (
            HookSlot { hook: Some(script), legacy: slot.legacy },
            InstallAction::Fresh,
        ),
        Some(existing) => {
            if overwrite {
                (HookSlot { hook: Some(script), legacy: slot.legacy }, InstallAction::Overwrote)
            } else if is_our_script(existing.as_str()) {
                (
                    HookSlot { hook: Some(script), legacy: slot.legacy },
                    InstallAction::ReplacedManaged,
                )
            } else {
                (
                    HookSlot { hook: Some(script), legacy: Some(existing) },
                    InstallAction::DisplacedToLegacy,
                )
            }
        },
    }
}

/// What an uninstall did, to be reported to the user.
#[derive(Clone, Copy, PartialEq, Eq, Structural, Debug)]
pub enum UninstallAction {
    /// No hook file existed; nothing to do.
    SkippedMissing,
    /// The hook file is not manager-owned; it is left untouched.
    SkippedUnmanaged,
    /// The manager-owned hook file was removed.
    Removed,
    /// The hook file was removed and the `.legacy` backup renamed back.
    RemovedAndRestored,
}

/// The uninstall step for one hook type: only a manager-owned file is
/// removed, and a `.legacy` backup, if one exists, is restored in its
/// place.
pub open spec fn spec_uninstall(s: SlotModel) -> (SlotModel, UninstallAction) {
    match s.hook {
        None => (s, UninstallAction::SkippedMissing),
        Some(existing) => {
            if !spec_is_managed(existing) {
                (s, UninstallAction::SkippedUnmanaged)
            } else {
                match s.legacy {
                    Some(backup) => (
                        SlotModel { hook: Some(backup), legacy: None },
                        UninstallAction::RemovedAndRestored,
                    ),
                    None => (
                        SlotModel { hook: None, legacy: None },
                        UninstallAction::Removed,
                    ),
                }
            }
        },
    }
}

pub fn uninstall_transition(slot: HookSlot) -> (r: (HookSlot, UninstallAction))
    ensures
        (r.0@, r.1) == spec_uninstall(slot@),
{
    match slot.hook {
        None => (HookSlot { hook: None, legacy: slot.legacy }, UninstallAction::SkippedMissing),
        Some(existing) => {
            if !is_our_script(existing.as_str()) {
                (
                    HookSlot { hook: Some(existing), legacy: slot.legacy },
                    UninstallAction::SkippedUnmanaged,
                )
            } else {
                match slot.legacy {
                    Some(backup) => (
                        HookSlot { hook: Some(backup), legacy: None },
                        UninstallAction::RemovedAndRestored,
                    ),
                    None => (
                        HookSlot { hook: None, legacy: None },
                        UninstallAction::Removed,
                    ),
                }
            }
        },
    }
}

/// Law: installing a generated script where no hook file and no backup
/// exist, then uninstalling, leaves no hook file and no backup — whatever
/// the arguments, the executable path, and the overwrite flag.
pub proof fn lemma_install_uninstall_round_trip(
    args_joined: Seq<char>,
    exe: Seq<char>,
    overwrite: bool,
)
    ensures
        ({
            let empty = SlotModel { hook: None, legacy: None };
            let (installed, _) = spec_install(empty, spec_hook_script(args_joined, exe), overwrite);
            let (after, _) = spec_uninstall(installed);
            after == empty
        }),
{
    lemma_generated_script_is_managed(args_joined, exe);
}

/// Law: installing over a foreign script without overwrite backs the
/// foreign bytes up exactly and leaves a manager-owned hook; uninstalling
/// afterwards restores the foreign bytes at the hook path and removes the
/// backup.
pub proof fn lemma_foreign_script_preserved(foreign: Seq<char>, args_joined: Seq<char>, exe: Seq<char>)
    requires
        !spec_is_managed(foreign),
    ensures
        ({
            let start = SlotModel { hook: Some(foreign), legacy: None };
            let (installed, action) = spec_install(
                start,
                spec_hook_script(args_joined, exe),
                false,
            );
            &&& action == InstallAction::DisplacedToLegacy
            &&& installed.legacy == Some(foreign)
            &&& installed.hook matches Some(h) && spec_is_managed(h)
            &&& spec_uninstall(installed) == (
                SlotModel { hook: Some(foreign), legacy: None },
                UninstallAction::RemovedAndRestored,
            )
        }),
{
    lemma_generated_script_is_managed(args_joined, exe);
}

/// Law: a second install without overwrite replaces the first install's
/// manager-owned output in place; it changes no backup and displaces
/// nothing — from any starting state.
pub proof fn lemma_second_install_in_place(
    start: SlotModel,
    args1: Seq<char>,
    exe1: Seq<char>,
    args2: Seq<char>,
    exe2: Seq<char>,
)
    ensures
        ({
            let (first, _) = spec_install(start, spec_hook_script(args1, exe1), false);
            let (second, action) = spec_install(first, spec_hook_script(args2, exe2), false);
            &&& action == InstallAction::ReplacedManaged
            &&& second.legacy == first.legacy
            &&& second.hook == Some(spec_hook_script(args2, exe2))
        }),
{
    lemma_generated_script_is_managed(args1, exe1);
    lemma_generated_script_is_managed(args2, exe2);
}

} // verus!
