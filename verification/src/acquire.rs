//! Repository acquisition: a two-phase protocol that initializes an empty
//! repository, attempts a shallow fetch of the requested revision, and falls
//! back to a full-history fetch when the shallow path fails. The protocol is
//! a state machine over command outcomes; the caller issues each command and
//! reports back whether it succeeded.

use vstd::prelude::*;

use crate::git::{git_cmd, spec_git_base_args, spec_git_cmd_ready, Error};
use crate::invoke::Cmd;

verus! {

/// Where the acquisition protocol stands: which command is to be issued
/// next, or that it has finished or failed for good.
#[derive(Clone, Copy, PartialEq, Eq, Structural, Debug)]
pub enum ClonePhase {
    /// Initialize an empty repository at the destination.
    Init,
    /// Register the source URL as the `origin` remote.
    AddRemote,
    /// Fetch the revision at depth 1.
    ShallowFetch,
    /// Check out what the shallow fetch brought.
    ShallowCheckout,
    /// Initialize submodules at depth 1.
    ShallowSubmodules,
    /// Fetch full history and all tags from `origin`.
    FullFetch,
    /// Check out the revision by name.
    FullCheckout,
    /// Initialize submodules at full depth.
    FullSubmodules,
    /// The working copy is checked out at the requested revision.
    Done,
    /// The acquisition failed for good.
    Failed,
}

/// The next phase, given whether the current phase's command succeeded.
/// Failure anywhere in the shallow attempt recovers into the full fetch;
/// failure while initializing or during the full attempt is final. The
/// fallback is never retried.
pub open spec fn spec_clone_step(phase: ClonePhase, success: bool) -> ClonePhase {
    match phase {
        ClonePhase::Init => if success {
            ClonePhase::AddRemote
        } else {
            ClonePhase::Failed
        },
        ClonePhase::AddRemote => if success {
            ClonePhase::ShallowFetch
        } else {
            ClonePhase::Failed
        },
        ClonePhase::ShallowFetch => if success {
            ClonePhase::ShallowCheckout
        } else {
            ClonePhase::FullFetch
        },
        ClonePhase::ShallowCheckout => if success {
            ClonePhase::ShallowSubmodules
        } else {
            ClonePhase::FullFetch
        },
        ClonePhase::ShallowSubmodules => if success {
            ClonePhase::Done
        } else {
            ClonePhase::FullFetch
        },
        ClonePhase::FullFetch => if success {
            ClonePhase::FullCheckout
        } else {
            ClonePhase::Failed
        },
        ClonePhase::FullCheckout => if success {
            ClonePhase::FullSubmodules
        } else {
            ClonePhase::Failed
        },
        ClonePhase::FullSubmodules => if success {
            ClonePhase::Done
        } else {
            ClonePhase::Failed
        },
        ClonePhase::Done => ClonePhase::Done,
        ClonePhase::Failed => ClonePhase::Failed,
    }
}

pub fn clone_step(phase: ClonePhase, success: bool) -> (r: ClonePhase)
    ensures
        r == spec_clone_step(phase, success),
{
    match phase {
        ClonePhase::Init => if success {
            ClonePhase::AddRemote
        } else {
            ClonePhase::Failed
        },
        ClonePhase::AddRemote => if success {
            ClonePhase::ShallowFetch
        } else {
            ClonePhase::Failed
        },
        ClonePhase::ShallowFetch => if success {
            ClonePhase::ShallowCheckout
        } else {
            ClonePhase::FullFetch
        },
        ClonePhase::ShallowCheckout => if success {
            ClonePhase::ShallowSubmodules
        } else {
            ClonePhase::FullFetch
        },
        ClonePhase::ShallowSubmodules => if success {
            ClonePhase::Done
        } else {
            ClonePhase::FullFetch
        },
        ClonePhase::FullFetch => if success {
            ClonePhase::FullCheckout
        } else {
            ClonePhase::Failed
        },
        ClonePhase::FullCheckout => if success {
            ClonePhase::FullSubmodules
        } else {
            ClonePhase::Failed
        },
        ClonePhase::FullSubmodules => if success {
            ClonePhase::Done
        } else {
            ClonePhase::Failed
        },
        ClonePhase::Done => ClonePhase::Done,
        ClonePhase::Failed => ClonePhase::Failed,
    }
}

/// A shallow-attempt failure is tolerated (logged, recovered into the full
/// attempt); every other failure is final.
pub open spec fn spec_failure_is_tolerated(phase: ClonePhase) -> bool {
    phase is ShallowFetch || phase is ShallowCheckout || phase is ShallowSubmodules
}

pub fn failure_is_tolerated(phase: ClonePhase) -> (r: bool)
    ensures
        r == spec_failure_is_tolerated(phase),
{
    match phase {
        ClonePhase::ShallowFetch => true,
        ClonePhase::ShallowCheckout => true,
        ClonePhase::ShallowSubmodules => true,
        _ => false,
    }
}

/// The arguments of the command a phase issues, or `None` for the two
/// terminal phases.
pub open spec fn spec_clone_args(
    phase: ClonePhase,
    url: Seq<char>,
    rev: Seq<char>,
    path: Seq<char>,
) -> Option<Seq<Seq<char>>> {
    match phase {
        ClonePhase::Init => Some(seq!["init"@, "--template="@, path]),
        ClonePhase::AddRemote => Some(seq!["remote"@, "add"@, "origin"@, url]),
        ClonePhase::ShallowFetch => Some(
            seq!["-c"@, "protocol.version=2"@, "fetch"@, "origin"@, rev, "--depth=1"@],
        ),
        ClonePhase::ShallowCheckout => Some(seq!["checkout"@, "FETCH_HEAD"@]),
        ClonePhase::ShallowSubmodules => Some(
            seq![
                "-c"@,
                "protocol.version=2"@,
                "submodule"@,
                "update"@,
                "--init"@,
                "--recursive"@,
                "--depth=1"@,
            ],
        ),
        ClonePhase::FullFetch => Some(seq!["fetch"@, "origin"@, "--tags"@]),
        ClonePhase::FullCheckout => Some(seq!["checkout"@, rev]),
        ClonePhase::FullSubmodules => Some(
            seq!["submodule"@, "update"@, "--init"@, "--recursive"@],
        ),
        ClonePhase::Done => None,
        ClonePhase::Failed => None,
    }
}

/// Every phase but initialization runs inside the destination directory;
/// initialization names the destination as an argument instead.
pub open spec fn spec_clone_cwd(phase: ClonePhase, path: Seq<char>) -> Option<Seq<char>> {
    match phase {
        ClonePhase::Init => None,
        _ => Some(path),
    }
}

/// Build the command the given phase issues, strict-checked, or `None`
/// when the protocol has ended.
pub fn clone_command(
    phase: ClonePhase,
    url: &str,
    rev: &str,
    path: &str,
    env: &Vec<(String, String)>,
) -> (r: Result<Option<Cmd>, Error>)
    ensures
        match r {
            Ok(Some(cmd)) => {
                &&& spec_clone_args(phase, url@, rev@, path@) is Some
                &&& spec_git_cmd_ready(
                    cmd,
                    env.deep_view(),
                    spec_clone_args(phase, url@, rev@, path@).unwrap(),
                    spec_clone_cwd(phase, path@),
                    true,
                )
            },
            Ok(None) => phase is Done || phase is Failed,
            Err(e) => e is GitNotFound,
        },
{
    match phase {
        ClonePhase::Init => {
            let mut cmd = git_cmd(env, "init git repo")?;
            cmd.arg("init");
            cmd.arg("--template=");
            cmd.arg(path);
            cmd.check(true);
            proof {
                assert(cmd.args_view() =~= spec_git_base_args() + seq![
                    "init"@,
                    "--template="@,
                    path@,
                ]);
            }
            Ok(Some(cmd))
        },
        ClonePhase::AddRemote => {
            let mut cmd = git_cmd(env, "add git remote")?;
            cmd.current_dir(String::from_str(path));
            cmd.arg("remote");
            cmd.arg("add");
            cmd.arg("origin");
            cmd.arg(url);
            cmd.check(true);
            proof {
                assert(cmd.args_view() =~= spec_git_base_args() + seq![
                    "remote"@,
                    "add"@,
                    "origin"@,
                    url@,
                ]);
            }
            Ok(Some(cmd))
        },
        ClonePhase::ShallowFetch => {
            let mut cmd = git_cmd(env, "git shallow clone")?;
            cmd.current_dir(String::from_str(path));
            cmd.arg("-c");
            cmd.arg("protocol.version=2");
            cmd.arg("fetch");
            cmd.arg("origin");
            cmd.arg(rev);
            cmd.arg("--depth=1");
            cmd.check(true);
            proof {
                assert(cmd.args_view() =~= spec_git_base_args() + seq![
                    "-c"@,
                    "protocol.version=2"@,
                    "fetch"@,
                    "origin"@,
                    rev@,
                    "--depth=1"@,
                ]);
            }
            Ok(Some(cmd))
        },
        ClonePhase::ShallowCheckout => {
            let mut cmd = git_cmd(env, "git checkout")?;
            cmd.current_dir(String::from_str(path));
            cmd.arg("checkout");
            cmd.arg("FETCH_HEAD");
            cmd.check(true);
            proof {
                assert(cmd.args_view() =~= spec_git_base_args() + seq!["checkout"@, "FETCH_HEAD"@]);
            }
            Ok(Some(cmd))
        },
        ClonePhase::ShallowSubmodules => {
            let mut cmd = git_cmd(env, "update git submodules")?;
            cmd.current_dir(String::from_str(path));
            cmd.arg("-c");
            cmd.arg("protocol.version=2");
            cmd.arg("submodule");
            cmd.arg("update");
            cmd.arg("--init");
            cmd.arg("--recursive");
            cmd.arg("--depth=1");
            cmd.check(true);
            proof {
                assert(cmd.args_view() =~= spec_git_base_args() + seq![
                    "-c"@,
                    "protocol.version=2"@,
                    "submodule"@,
                    "update"@,
                    "--init"@,
                    "--recursive"@,
                    "--depth=1"@,
                ]);
            }
            Ok(Some(cmd))
        },
        ClonePhase::FullFetch => {
            let mut cmd = git_cmd(env, "git full clone")?;
            cmd.current_dir(String::from_str(path));
            cmd.arg("fetch");
            cmd.arg("origin");
            cmd.arg("--tags");
            cmd.check(true);
            proof {
                assert(cmd.args_view() =~= spec_git_base_args() + seq![
                    "fetch"@,
                    "origin"@,
                    "--tags"@,
                ]);
            }
            Ok(Some(cmd))
        },
        ClonePhase::FullCheckout => {
            let mut cmd = git_cmd(env, "git checkout")?;
            cmd.current_dir(String::from_str(path));
            cmd.arg("checkout");
            cmd.arg(rev);
            cmd.check(true);
            proof {
                assert(cmd.args_view() =~= spec_git_base_args() + seq!["checkout"@, rev@]);
            }
            Ok(Some(cmd))
        },
        ClonePhase::FullSubmodules => {
            let mut cmd = git_cmd(env, "update git submodules")?;
            cmd.current_dir(String::from_str(path));
            cmd.arg("submodule");
            cmd.arg("update");
            cmd.arg("--init");
            cmd.arg("--recursive");
            cmd.check(true);
            proof {
                assert(cmd.args_view() =~= spec_git_base_args() + seq![
                    "submodule"@,
                    "update"@,
                    "--init"@,
                    "--recursive"@,
                ]);
            }
            Ok(Some(cmd))
        },
        ClonePhase::Done => Ok(None),
        ClonePhase::Failed => Ok(None),
    }
}

/// The phases whose commands get issued when the protocol starts at
/// `phase` and each issued command's outcome is the next of `outcomes`.
pub open spec fn spec_clone_run(phase: ClonePhase, outcomes: Seq<bool>) -> Seq<ClonePhase>
    decreases outcomes.len(),
{
    if phase is Done || phase is Failed || outcomes.len() == 0 {
        Seq::empty()
    } else {
        seq![phase] + spec_clone_run(spec_clone_step(phase, outcomes[0]), outcomes.drop_first())
    }
}

/// The phase the protocol stands in after consuming `outcomes`.
pub open spec fn spec_clone_end(phase: ClonePhase, outcomes: Seq<bool>) -> ClonePhase
    decreases outcomes.len(),
{
    if phase is Done || phase is Failed || outcomes.len() == 0 {
        phase
    } else {
        spec_clone_end(spec_clone_step(phase, outcomes[0]), outcomes.drop_first())
    }
}

pub open spec fn spec_is_full_phase(phase: ClonePhase) -> bool {
    phase is FullFetch || phase is FullCheckout || phase is FullSubmodules
}

/// Law: when every command succeeds — the revision is fetchable at depth
/// 1 — the protocol issues exactly the shallow sequence and finishes; no
/// full-acquisition command is ever issued.
pub proof fn lemma_shallow_path_only(outcomes: Seq<bool>)
    requires
        outcomes.len() >= 5,
        forall|i: int| 0 <= i < outcomes.len() ==> outcomes[i],
    ensures
        spec_clone_run(ClonePhase::Init, outcomes) =~= seq![
            ClonePhase::Init,
            ClonePhase::AddRemote,
            ClonePhase::ShallowFetch,
            ClonePhase::ShallowCheckout,
            ClonePhase::ShallowSubmodules,
        ],
        spec_clone_end(ClonePhase::Init, outcomes) == ClonePhase::Done,
        forall|i: int|
            0 <= i < spec_clone_run(ClonePhase::Init, outcomes).len() ==> !spec_is_full_phase(
                spec_clone_run(ClonePhase::Init, outcomes)[i],
            ),
{
    let o1 = outcomes.drop_first();
    let o2 = o1.drop_first();
    let o3 = o2.drop_first();
    let o4 = o3.drop_first();
    let o5 = o4.drop_first();
    assert(outcomes[0] && o1[0] && o2[0] && o3[0] && o4[0]);
    assert(spec_clone_run(ClonePhase::Init, outcomes) == seq![ClonePhase::Init]
        + spec_clone_run(ClonePhase::AddRemote, o1));
    assert(spec_clone_run(ClonePhase::AddRemote, o1) == seq![ClonePhase::AddRemote]
        + spec_clone_run(ClonePhase::ShallowFetch, o2));
    assert(spec_clone_run(ClonePhase::ShallowFetch, o2) == seq![ClonePhase::ShallowFetch]
        + spec_clone_run(ClonePhase::ShallowCheckout, o3));
    assert(spec_clone_run(ClonePhase::ShallowCheckout, o3) == seq![ClonePhase::ShallowCheckout]
        + spec_clone_run(ClonePhase::ShallowSubmodules, o4));
    assert(spec_clone_run(ClonePhase::ShallowSubmodules, o4) == seq![ClonePhase::ShallowSubmodules]
        + spec_clone_run(ClonePhase::Done, o5));
    assert(spec_clone_run(ClonePhase::Done, o5) =~= Seq::<ClonePhase>::empty());
    assert(spec_clone_end(ClonePhase::Init, outcomes) == spec_clone_end(ClonePhase::AddRemote, o1));
    assert(spec_clone_end(ClonePhase::AddRemote, o1) == spec_clone_end(ClonePhase::ShallowFetch, o2));
    assert(spec_clone_end(ClonePhase::ShallowFetch, o2) == spec_clone_end(
        ClonePhase::ShallowCheckout,
        o3,
    ));
    assert(spec_clone_end(ClonePhase::ShallowCheckout, o3) == spec_clone_end(
        ClonePhase::ShallowSubmodules,
        o4,
    ));
    assert(spec_clone_end(ClonePhase::ShallowSubmodules, o4) == spec_clone_end(
        ClonePhase::Done,
        o5,
    ));
    assert(spec_clone_end(ClonePhase::Done, o5) == ClonePhase::Done);
}

/// Law: when the shallow fetch fails but everything else succeeds — the
/// revision needs full history — the full sequence follows the failed
/// shallow fetch, and the acquisition still finishes.
pub proof fn lemma_full_fallback(outcomes: Seq<bool>)
    requires
        outcomes.len() >= 6,
        outcomes[0],
        outcomes[1],
        !outcomes[2],
        outcomes[3],
        outcomes[4],
        outcomes[5],
    ensures
        spec_clone_run(ClonePhase::Init, outcomes) =~= seq![
            ClonePhase::Init,
            ClonePhase::AddRemote,
            ClonePhase::ShallowFetch,
            ClonePhase::FullFetch,
            ClonePhase::FullCheckout,
            ClonePhase::FullSubmodules,
        ],
        spec_clone_end(ClonePhase::Init, outcomes) == ClonePhase::Done,
{
    let o1 = outcomes.drop_first();
    let o2 = o1.drop_first();
    let o3 = o2.drop_first();
    let o4 = o3.drop_first();
    let o5 = o4.drop_first();
    let o6 = o5.drop_first();
    assert(o1[0] == outcomes[1] && o2[0] == outcomes[2] && o3[0] == outcomes[3] && o4[0]
        == outcomes[4] && o5[0] == outcomes[5]);
    assert(spec_clone_run(ClonePhase::Init, outcomes) == seq![ClonePhase::Init]
        + spec_clone_run(ClonePhase::AddRemote, o1));
    assert(spec_clone_run(ClonePhase::AddRemote, o1) == seq![ClonePhase::AddRemote]
        + spec_clone_run(ClonePhase::ShallowFetch, o2));
    assert(spec_clone_run(ClonePhase::ShallowFetch, o2) == seq![ClonePhase::ShallowFetch]
        + spec_clone_run(ClonePhase::FullFetch, o3));
    assert(spec_clone_run(ClonePhase::FullFetch, o3) == seq![ClonePhase::FullFetch]
        + spec_clone_run(ClonePhase::FullCheckout, o4));
    assert(spec_clone_run(ClonePhase::FullCheckout, o4) == seq![ClonePhase::FullCheckout]
        + spec_clone_run(ClonePhase::FullSubmodules, o5));
    assert(spec_clone_run(ClonePhase::FullSubmodules, o5) == seq![ClonePhase::FullSubmodules]
        + spec_clone_run(ClonePhase::Done, o6));
    assert(spec_clone_run(ClonePhase::Done, o6) =~= Seq::<ClonePhase>::empty());
    assert(spec_clone_end(ClonePhase::Init, outcomes) == spec_clone_end(ClonePhase::AddRemote, o1));
    assert(spec_clone_end(ClonePhase::AddRemote, o1) == spec_clone_end(ClonePhase::ShallowFetch, o2));
    assert(spec_clone_end(ClonePhase::ShallowFetch, o2) == spec_clone_end(ClonePhase::FullFetch, o3));
    assert(spec_clone_end(ClonePhase::FullFetch, o3) == spec_clone_end(ClonePhase::FullCheckout, o4));
    assert(spec_clone_end(ClonePhase::FullCheckout, o4) == spec_clone_end(
        ClonePhase::FullSubmodules,
        o5,
    ));
    assert(spec_clone_end(ClonePhase::FullSubmodules, o5) == spec_clone_end(ClonePhase::Done, o6));
    assert(spec_clone_end(ClonePhase::Done, o6) == ClonePhase::Done);
}

} // verus!
