//! The version-control interface: a fixed catalog of git operations, each a
//! command built over a sanitized environment plus a verified interpretation
//! of the tool's output.

use vstd::prelude::*;
use vstd::slice::{slice_index_get, slice_subrange};

use crate::invoke::{Cmd, Error as InvokeError, InvocationResult};
use crate::strutil::{
    count_prefix, count_suffix, decode_lossy, lemma_count_prefix, lemma_count_prefix_props,
    lemma_count_suffix, lemma_count_suffix_props, lossy_decode, spec_starts_with, spec_trim_ascii,
    str_eq, str_starts_with, trim_ascii,
};

verus! {

/// Why the git executable could not be resolved on the search path.
#[derive(Clone, Copy, PartialEq, Eq, Structural, Debug)]
pub enum GitLookupError {
    CannotFindBinaryPath,
    CannotGetCurrentDirAndPathListEmpty,
    CannotCanonicalize,
}

/// A failure of a git operation: either the underlying command failed, or
/// the git executable could not be found at all.
#[derive(Debug)]
pub enum Error {
    Command(InvokeError),
    GitNotFound(GitLookupError),
}

/// Relies on `which::which` to resolve `git` on the OS search path. The
/// outcome depends on the machine the process runs on, so nothing is
/// promised of it; the error conversion is variant for variant.
#[verifier::external_body]
fn find_git() -> (r: Result<String, GitLookupError>)
{
    match which::which("git") {
        Ok(path) => Ok(path.to_string_lossy().into_owned()),
        Err(which::Error::CannotFindBinaryPath) => Err(GitLookupError::CannotFindBinaryPath),
        Err(which::Error::CannotGetCurrentDirAndPathListEmpty) => Err(
            GitLookupError::CannotGetCurrentDirAndPathListEmpty,
        ),
        Err(which::Error::CannotCanonicalize) => Err(GitLookupError::CannotCanonicalize),
    }
}

/// The filter policy for the ambient environment: a variable whose name
/// starts with the reserved `GIT_` prefix is dropped unless it configures
/// transport or per-invocation overrides.
pub open spec fn spec_env_keep(name: Seq<char>) -> bool {
    ||| !spec_starts_with(name, "GIT_"@)
    ||| spec_starts_with(name, "GIT_CONFIG_KEY_"@)
    ||| spec_starts_with(name, "GIT_CONFIG_VALUE_"@)
    ||| name == "GIT_EXEC_PATH"@
    ||| name == "GIT_SSH"@
    ||| name == "GIT_SSH_COMMAND"@
    ||| name == "GIT_SSL_CAINFO"@
    ||| name == "GIT_SSL_NO_VERIFY"@
    ||| name == "GIT_CONFIG_COUNT"@
    ||| name == "GIT_HTTP_PROXY_AUTHMETHOD"@
    ||| name == "GIT_ALLOW_PROTOCOL"@
    ||| name == "GIT_ASKPASS"@
}

pub fn env_keep(name: &str) -> (r: bool)
    ensures
        r == spec_env_keep(name@),
{
    ||| !str_starts_with(name, "GIT_")
    ||| str_starts_with(name, "GIT_CONFIG_KEY_")
    ||| str_starts_with(name, "GIT_CONFIG_VALUE_")
    ||| str_eq(name, "GIT_EXEC_PATH")
    ||| str_eq(name, "GIT_SSH")
    ||| str_eq(name, "GIT_SSH_COMMAND")
    ||| str_eq(name, "GIT_SSL_CAINFO")
    ||| str_eq(name, "GIT_SSL_NO_VERIFY")
    ||| str_eq(name, "GIT_CONFIG_COUNT")
    ||| str_eq(name, "GIT_HTTP_PROXY_AUTHMETHOD")
    ||| str_eq(name, "GIT_ALLOW_PROTOCOL")
    ||| str_eq(name, "GIT_ASKPASS")
}

/// The ambient environment after the filter policy is applied, order kept.
pub open spec fn spec_sanitized(env: Seq<(Seq<char>, Seq<char>)>) -> Seq<(Seq<char>, Seq<char>)> {
    env.filter(|p: (Seq<char>, Seq<char>)| spec_env_keep(p.0))
}

/// Filter the ambient environment by the policy, keeping the order.
pub fn sanitize_env(env: &Vec<(String, String)>) -> (r: Vec<(String, String)>)
    ensures
        r.deep_view() == spec_sanitized(env.deep_view()),
{
    broadcast use vstd::seq_lib::group_filter_ensures;

    let ghost pred = |p: (Seq<char>, Seq<char>)| spec_env_keep(p.0);
    let mut r: Vec<(String, String)> = Vec::new();
    let mut i: usize = 0;
    proof {
        assert(env.deep_view().subrange(0, 0) =~= Seq::<(Seq<char>, Seq<char>)>::empty());
        assert(Seq::<(Seq<char>, Seq<char>)>::empty().filter(pred) =~= Seq::<(
            Seq<char>,
            Seq<char>,
        )>::empty()) by {
            reveal_with_fuel(Seq::filter, 2);
        }
    }
    while i < env.len()
        invariant
            0 <= i <= env@.len(),
            pred == (|p: (Seq<char>, Seq<char>)| spec_env_keep(p.0)),
            r.deep_view() == env.deep_view().subrange(0, i as int).filter(pred),
        decreases env@.len() - i,
    {
        let ghost before = env.deep_view().subrange(0, i as int);
        let ghost r_before = r.deep_view();
        let pair = &env[i];
        let keep = env_keep(pair.0.as_str());
        if keep {
            r.push((pair.0.clone(), pair.1.clone()));
            proof {
                assert(r.deep_view() =~= r_before.push((env@[i as int].0@, env@[i as int].1@)));
            }
        }
        proof {
            let elt = env.deep_view()[i as int];
            assert(env.deep_view().subrange(0, i + 1) =~= before.push(elt));
            assert(elt == (env@[i as int].0@, env@[i as int].1@));
            assert(pred(elt) == spec_env_keep(env@[i as int].0@));
            assert(keep == pred(elt));
            before.lemma_filter_push(elt, pred);
            assert(before.push(elt).filter(pred) == if pred(elt) {
                before.filter(pred).push(elt)
            } else {
                before.filter(pred)
            });
            if keep {
                assert(r.deep_view() == before.filter(pred).push(elt));
            } else {
                assert(r.deep_view() == before.filter(pred));
            }
            assert(r.deep_view() == env.deep_view().subrange(0, i + 1).filter(pred));
        }
        i = i + 1;
    }
    proof {
        assert(env.deep_view().subrange(0, env.deep_view().len() as int) =~= env.deep_view());
    }
    r
}

/// The fixed arguments every git command starts with: disabling the
/// filesystem-monitor optimization keeps status queries deterministic.
pub open spec fn spec_git_base_args() -> Seq<Seq<char>> {
    seq!["-c"@, "core.useBuiltinFSMonitor=false"@]
}

pub open spec fn opt_str_view(o: Option<String>) -> Option<Seq<char>> {
    match o {
        Some(s) => Some(s@),
        None => None,
    }
}

/// A fully built git command: base arguments followed by the operation's
/// own, the sanitized environment, a working directory and strictness as
/// the operation asks.
pub open spec fn spec_git_cmd_ready(
    cmd: Cmd,
    env: Seq<(Seq<char>, Seq<char>)>,
    extra: Seq<Seq<char>>,
    cwd: Option<Seq<char>>,
    check: bool,
) -> bool {
    &&& cmd.args_view() == spec_git_base_args() + extra
    &&& cmd.envs_view() == spec_sanitized(env)
    &&& opt_str_view(cmd.cwd) == cwd
    &&& cmd.check == check
}

/// Build the base git command: the resolved git executable, the
/// deterministic-status configuration, and the sanitized environment.
pub fn git_cmd(env: &Vec<(String, String)>, summary: &str) -> (r: Result<Cmd, Error>)
    ensures
        match r {
            Ok(cmd) => {
                &&& spec_git_cmd_ready(cmd, env.deep_view(), Seq::empty(), None, false)
                &&& cmd.summary@ == summary@
            },
            Err(e) => e is GitNotFound,
        },
{
    let git = match find_git() {
        Ok(g) => g,
        Err(e) => {
            return Err(Error::GitNotFound(e));
        },
    };
    let mut cmd = Cmd::new(git, summary.to_owned());
    cmd.arg("-c");
    cmd.arg("core.useBuiltinFSMonitor=false");
    cmd.envs(sanitize_env(env));
    proof {
        assert(cmd.args_view() =~= spec_git_base_args() + Seq::<Seq<char>>::empty());
    }
    Ok(cmd)
}

// ---------------------------------------------------------------------------
// NUL splitting of list output
// ---------------------------------------------------------------------------
/// The pieces of `s` between NUL bytes; one piece more than there are NULs.
pub open spec fn spec_split_nul(s: Seq<u8>) -> Seq<Seq<u8>>
    decreases s.len(),
    via spec_split_nul_decreases
{
    let k = count_prefix(s, |b: u8| b != 0u8);
    if k == s.len() {
        seq![s]
    } else {
        seq![s.subrange(0, k)] + spec_split_nul(s.subrange(k + 1, s.len() as int))
    }
}

#[via_fn]
proof fn spec_split_nul_decreases(s: Seq<u8>) {
    lemma_count_prefix_props(s, |b: u8| b != 0u8);
}

/// `s` with all trailing NUL bytes removed.
pub open spec fn spec_strip_trailing_nuls(s: Seq<u8>) -> Seq<u8> {
    s.subrange(0, s.len() - count_suffix(s, |b: u8| b == 0u8))
}

/// The list a NUL-terminated tool output stands for: strip the trailing
/// terminators, and an empty remainder yields no entries at all.
pub open spec fn spec_zsplit(s: Seq<u8>) -> Seq<Seq<u8>> {
    let t = spec_strip_trailing_nuls(s);
    if t.len() == 0 {
        Seq::empty()
    } else {
        spec_split_nul(t)
    }
}

fn split_nul(v: &[u8]) -> (r: Vec<String>)
    ensures
        r.deep_view() == spec_split_nul(v@).map_values(|c: Seq<u8>| lossy_decode(c)),
        forall|i: int|
            0 <= i < spec_split_nul(v@).len() && spec_split_nul(v@)[i].len() > 0
                ==> r.deep_view()[i].len() > 0,
    decreases v@.len(),
{
    let ghost nonnul = |b: u8| b != 0u8;
    let n = v.len();
    let mut k: usize = 0;
    while k < n && *slice_index_get(v, k) != 0
        invariant
            0 <= k <= n,
            n == v@.len(),
            forall|i: int| 0 <= i < k ==> v@[i] != 0u8,
        decreases n - k,
    {
        k = k + 1;
    }
    proof {
        lemma_count_prefix(v@, nonnul, k as int);
    }
    if k == n {
        let mut r: Vec<String> = Vec::new();
        r.push(decode_lossy(v));
        proof {
            assert(r.deep_view() =~= spec_split_nul(v@).map_values(|c: Seq<u8>| lossy_decode(c)));
        }
        r
    } else {
        let head = decode_lossy(slice_subrange(v, 0, k));
        let mut rest = split_nul(slice_subrange(v, k + 1, n));
        let mut r: Vec<String> = Vec::new();
        r.push(head);
        let ghost rest_view = rest.deep_view();
        r.append(&mut rest);
        proof {
            let ghost tail = v@.subrange(k + 1, v@.len() as int);
            assert(r.deep_view() =~= seq![lossy_decode(v@.subrange(0, k as int))] + rest_view);
            assert(r.deep_view() =~= spec_split_nul(v@).map_values(|c: Seq<u8>| lossy_decode(c)));
        }
        r
    }
}

/// Split NUL-terminated tool output into entries: decode the bytes,
/// discard the trailing terminators, and split on NUL. Empty output (or
/// output of nothing but terminators) yields an empty list; no non-empty
/// piece decodes to an empty entry.
pub fn zsplit(s: &[u8]) -> (r: Vec<String>)
    ensures
        r.deep_view() == spec_zsplit(s@).map_values(|c: Seq<u8>| lossy_decode(c)),
        forall|i: int|
            0 <= i < spec_zsplit(s@).len() && spec_zsplit(s@)[i].len() > 0
                ==> r.deep_view()[i].len() > 0,
{
    let ghost isnul = |b: u8| b == 0u8;
    let n = s.len();
    let mut end: usize = n;
    while end > 0 && *slice_index_get(s, end - 1) == 0
        invariant
            0 <= end <= n,
            n == s@.len(),
            forall|i: int| end <= i < n ==> s@[i] == 0u8,
        decreases end,
    {
        end = end - 1;
    }
    proof {
        lemma_count_suffix(s@, isnul, n - end);
        assert(spec_strip_trailing_nuls(s@) =~= s@.subrange(0, end as int));
    }
    if end == 0 {
        let r: Vec<String> = Vec::new();
        proof {
            assert(r.deep_view() =~= spec_zsplit(s@).map_values(|c: Seq<u8>| lossy_decode(c)));
        }
        r
    } else {
        let r = split_nul(slice_subrange(s, 0, end));
        r
    }
}

/// Law: when the stripped output does not start with a NUL and has no two
/// NULs in a row, no piece of the split is empty; and output that is empty
/// or nothing but terminators yields no pieces at all.
pub proof fn lemma_zsplit_no_empty_pieces(s: Seq<u8>)
    requires
        spec_strip_trailing_nuls(s).len() > 0 ==> spec_strip_trailing_nuls(s)[0] != 0u8,
        forall|i: int|
            0 <= i < spec_strip_trailing_nuls(s).len() - 1
                ==> !(#[trigger] spec_strip_trailing_nuls(s)[i] == 0u8
                && spec_strip_trailing_nuls(s)[i + 1] == 0u8),
    ensures
        forall|i: int| 0 <= i < spec_zsplit(s).len() ==> spec_zsplit(s)[i].len() > 0,
        s.len() == 0 ==> spec_zsplit(s).len() == 0,
{
    let t = spec_strip_trailing_nuls(s);
    lemma_count_suffix_props(s, |b: u8| b == 0u8);
    if t.len() > 0 {
        assert(t.last() != 0u8) by {
            let k = count_suffix(s, |b: u8| b == 0u8);
            assert(t.last() == s[s.len() - k - 1]);
        }
        lemma_split_nul_pieces(t);
    }
}

// ---------------------------------------------------------------------------
// Output interpretation
// ---------------------------------------------------------------------------
/// Interpret a strict-checked listing operation: a successful run is split
/// into entries; a failed one carries its status and standard error.
pub fn files_from_output(cmd: &Cmd, out: InvocationResult) -> (r: Result<Vec<String>, Error>)
    ensures
        match r {
            Ok(files) => {
                &&& (cmd.check ==> out.spec_success())
                &&& files.deep_view() == spec_zsplit(out.stdout@).map_values(
                    |c: Seq<u8>| lossy_decode(c),
                )
                &&& forall|i: int|
                    0 <= i < spec_zsplit(out.stdout@).len() && spec_zsplit(out.stdout@)[i].len()
                        > 0 ==> files.deep_view()[i].len() > 0
            },
            Err(e) => cmd.check && !out.spec_success() && e == Error::Command(
                InvokeError::ExecutionFailed { status: out.status, stderr: out.stderr },
            ),
        },
{
    match cmd.interpret(out) {
        Ok(res) => Ok(zsplit(res.stdout.as_slice())),
        Err(e) => Err(Error::Command(e)),
    }
}

/// Interpret a strict-checked operation whose output is a single path or
/// object name: the output, lossily decoded and trimmed of surrounding
/// ASCII whitespace.
pub fn path_from_output(cmd: &Cmd, out: InvocationResult) -> (r: Result<String, Error>)
    ensures
        match r {
            Ok(p) => (cmd.check ==> out.spec_success()) && p@ == lossy_decode(
                spec_trim_ascii(out.stdout@),
            ),
            Err(e) => cmd.check && !out.spec_success() && e == Error::Command(
                InvokeError::ExecutionFailed { status: out.status, stderr: out.stderr },
            ),
        },
{
    match cmd.interpret(out) {
        Ok(res) => Ok(decode_lossy(trim_ascii(res.stdout.as_slice()))),
        Err(e) => Err(Error::Command(e)),
    }
}

/// Interpret the common-directory query: an empty value reports that the
/// caller must fall back to the plain metadata-directory query.
pub fn common_dir_from_output(cmd: &Cmd, out: InvocationResult) -> (r: Result<
    Option<String>,
    Error,
>)
    ensures
        match r {
            Ok(p) => {
                &&& (cmd.check ==> out.spec_success())
                &&& match p {
                    Some(d) => spec_trim_ascii(out.stdout@).len() > 0 && d@ == lossy_decode(
                        spec_trim_ascii(out.stdout@),
                    ),
                    None => spec_trim_ascii(out.stdout@).len() == 0,
                }
            },
            Err(e) => cmd.check && !out.spec_success() && e == Error::Command(
                InvokeError::ExecutionFailed { status: out.status, stderr: out.stderr },
            ),
        },
{
    match cmd.interpret(out) {
        Ok(res) => {
            let trimmed = trim_ascii(res.stdout.as_slice());
            if trimmed.len() == 0 {
                Ok(None)
            } else {
                Ok(Some(decode_lossy(trimmed)))
            }
        },
        Err(e) => Err(Error::Command(e)),
    }
}

/// Interpret the unmerged-file listing: there are unmerged paths exactly
/// when the trimmed output is non-empty.
pub fn nonempty_from_output(cmd: &Cmd, out: InvocationResult) -> (r: Result<bool, Error>)
    ensures
        match r {
            Ok(b) => (cmd.check ==> out.spec_success()) && b == (spec_trim_ascii(out.stdout@).len()
                > 0),
            Err(e) => cmd.check && !out.spec_success() && e == Error::Command(
                InvokeError::ExecutionFailed { status: out.status, stderr: out.stderr },
            ),
        },
{
    match cmd.interpret(out) {
        Ok(res) => {
            let trimmed = trim_ascii(res.stdout.as_slice());
            Ok(trimmed.len() > 0)
        },
        Err(e) => Err(Error::Command(e)),
    }
}

/// Interpret a raw-diff capture: the diff bytes exactly as produced.
pub fn diff_from_output(cmd: &Cmd, out: InvocationResult) -> (r: Result<Vec<u8>, Error>)
    ensures
        match r {
            Ok(d) => (cmd.check ==> out.spec_success()) && d@ == out.stdout@,
            Err(e) => cmd.check && !out.spec_success() && e == Error::Command(
                InvokeError::ExecutionFailed { status: out.status, stderr: out.stderr },
            ),
        },
{
    match cmd.interpret(out) {
        Ok(res) => Ok(res.stdout),
        Err(e) => Err(Error::Command(e)),
    }
}

/// Interpret the dirty check: exit status 0 is clean, exit status 1 is
/// dirty, and any other exit is a real failure of the tool, never a
/// "dirty" answer.
pub fn dirty_from_output(out: InvocationResult) -> (r: Result<bool, Error>)
    ensures
        match r {
            Ok(b) => if b {
                out.status == Some(1i32)
            } else {
                out.status == Some(0i32)
            },
            Err(e) => {
                &&& out.status != Some(0i32)
                &&& out.status != Some(1i32)
                &&& e == Error::Command(
                    InvokeError::ExecutionFailed { status: out.status, stderr: out.stderr },
                )
            },
        },
{
    match out.status {
        Some(code) => {
            if code == 0 {
                Ok(false)
            } else if code == 1 {
                Ok(true)
            } else {
                Err(
                    Error::Command(
                        InvokeError::ExecutionFailed { status: Some(code), stderr: out.stderr },
                    ),
                )
            }
        },
        None => Err(
            Error::Command(InvokeError::ExecutionFailed { status: None, stderr: out.stderr }),
        ),
    }
}

/// Interpret the hooks-path configuration lookup: the override is set
/// exactly when the lookup succeeded and reported a non-empty value; a
/// failed lookup means "not set", not an error.
pub fn hooks_path_set_from_output(out: &InvocationResult) -> (r: bool)
    ensures
        r == (out.spec_success() && spec_trim_ascii(out.stdout@).len() > 0),
{
    if out.success() {
        let trimmed = trim_ascii(out.stdout.as_slice());
        trimmed.len() > 0
    } else {
        false
    }
}

// ---------------------------------------------------------------------------
// Operation command builders
// ---------------------------------------------------------------------------
/// The files newly added to the index with intent-to-add.
pub fn intent_to_add_files_cmd(env: &Vec<(String, String)>) -> (r: Result<Cmd, Error>)
    ensures
        match r {
            Ok(cmd) => spec_git_cmd_ready(
                cmd,
                env.deep_view(),
                seq![
                    "diff"@,
                    "--no-ext-diff"@,
                    "--ignore-submodules"@,
                    "--diff-filter=A"@,
                    "--name-only"@,
                    "-z"@,
                ],
                None,
                true,
            ),
            Err(e) => e is GitNotFound,
        },
{
    let mut cmd = git_cmd(env, "get intent to add files")?;
    cmd.arg("diff");
    cmd.arg("--no-ext-diff");
    cmd.arg("--ignore-submodules");
    cmd.arg("--diff-filter=A");
    cmd.arg("--name-only");
    cmd.arg("-z");
    cmd.check(true);
    proof {
        assert(cmd.args_view() =~= spec_git_base_args() + seq![
            "diff"@,
            "--no-ext-diff"@,
            "--ignore-submodules"@,
            "--diff-filter=A"@,
            "--name-only"@,
            "-z"@,
        ]);
    }
    Ok(cmd)
}

/// The files changed between two revisions (three-dot range), limited to
/// added/copied/modified/renamed/type-changed files.
pub fn changed_files_cmd(env: &Vec<(String, String)>, old: &str, new: &str) -> (r: Result<
    Cmd,
    Error,
>)
    ensures
        match r {
            Ok(cmd) => spec_git_cmd_ready(
                cmd,
                env.deep_view(),
                seq![
                    "diff"@,
                    "--name-only"@,
                    "--diff-filter=ACMRT"@,
                    "--no-ext-diff"@,
                    "-z"@,
                    old@ + "..."@ + new@,
                ],
                None,
                true,
            ),
            Err(e) => e is GitNotFound,
        },
{
    let mut cmd = git_cmd(env, "get changed files")?;
    cmd.arg("diff");
    cmd.arg("--name-only");
    cmd.arg("--diff-filter=ACMRT");
    cmd.arg("--no-ext-diff");
    cmd.arg("-z");
    let range = String::from_str(old).concat("...").concat(new);
    cmd.arg(range.as_str());
    cmd.check(true);
    proof {
        assert(cmd.args_view() =~= spec_git_base_args() + seq![
            "diff"@,
            "--name-only"@,
            "--diff-filter=ACMRT"@,
            "--no-ext-diff"@,
            "-z"@,
            old@ + "..."@ + new@,
        ]);
    }
    Ok(cmd)
}

/// All files tracked in the index.
pub fn all_files_cmd(env: &Vec<(String, String)>) -> (r: Result<Cmd, Error>)
    ensures
        match r {
            Ok(cmd) => spec_git_cmd_ready(
                cmd,
                env.deep_view(),
                seq!["ls-files"@, "-z"@],
                None,
                true,
            ),
            Err(e) => e is GitNotFound,
        },
{
    let mut cmd = git_cmd(env, "get git all files")?;
    cmd.arg("ls-files");
    cmd.arg("-z");
    cmd.check(true);
    proof {
        assert(cmd.args_view() =~= spec_git_base_args() + seq!["ls-files"@, "-z"@]);
    }
    Ok(cmd)
}

/// The repository metadata directory.
pub fn git_dir_cmd(env: &Vec<(String, String)>) -> (r: Result<Cmd, Error>)
    ensures
        match r {
            Ok(cmd) => spec_git_cmd_ready(
                cmd,
                env.deep_view(),
                seq!["rev-parse"@, "--git-dir"@],
                None,
                true,
            ),
            Err(e) => e is GitNotFound,
        },
{
    let mut cmd = git_cmd(env, "get git dir")?;
    cmd.arg("rev-parse");
    cmd.arg("--git-dir");
    cmd.check(true);
    proof {
        assert(cmd.args_view() =~= spec_git_base_args() + seq!["rev-parse"@, "--git-dir"@]);
    }
    Ok(cmd)
}

/// The common metadata directory shared by linked working trees.
pub fn common_dir_cmd(env: &Vec<(String, String)>) -> (r: Result<Cmd, Error>)
    ensures
        match r {
            Ok(cmd) => spec_git_cmd_ready(
                cmd,
                env.deep_view(),
                seq!["rev-parse"@, "--git-common-dir"@],
                None,
                true,
            ),
            Err(e) => e is GitNotFound,
        },
{
    let mut cmd = git_cmd(env, "get git common dir")?;
    cmd.arg("rev-parse");
    cmd.arg("--git-common-dir");
    cmd.check(true);
    proof {
        assert(cmd.args_view() =~= spec_git_base_args() + seq!["rev-parse"@, "--git-common-dir"@]);
    }
    Ok(cmd)
}

/// The staged files, unmerged and conflicted ones included.
pub fn staged_files_cmd(env: &Vec<(String, String)>) -> (r: Result<Cmd, Error>)
    ensures
        match r {
            Ok(cmd) => spec_git_cmd_ready(
                cmd,
                env.deep_view(),
                seq![
                    "diff"@,
                    "--staged"@,
                    "--name-only"@,
                    "--diff-filter=ACMRTUXB"@,
                    "--no-ext-diff"@,
                    "-z"@,
                ],
                None,
                true,
            ),
            Err(e) => e is GitNotFound,
        },
{
    let mut cmd = git_cmd(env, "get staged files")?;
    cmd.arg("diff");
    cmd.arg("--staged");
    cmd.arg("--name-only");
    cmd.arg("--diff-filter=ACMRTUXB");
    cmd.arg("--no-ext-diff");
    cmd.arg("-z");
    cmd.check(true);
    proof {
        assert(cmd.args_view() =~= spec_git_base_args() + seq![
            "diff"@,
            "--staged"@,
            "--name-only"@,
            "--diff-filter=ACMRTUXB"@,
            "--no-ext-diff"@,
            "-z"@,
        ]);
    }
    Ok(cmd)
}

/// The unmerged-file listing.
pub fn unmerged_cmd(env: &Vec<(String, String)>) -> (r: Result<Cmd, Error>)
    ensures
        match r {
            Ok(cmd) => spec_git_cmd_ready(
                cmd,
                env.deep_view(),
                seq!["ls-files"@, "--unmerged"@],
                None,
                true,
            ),
            Err(e) => e is GitNotFound,
        },
{
    let mut cmd = git_cmd(env, "check has unmerged paths")?;
    cmd.arg("ls-files");
    cmd.arg("--unmerged");
    cmd.check(true);
    proof {
        assert(cmd.args_view() =~= spec_git_base_args() + seq!["ls-files"@, "--unmerged"@]);
    }
    Ok(cmd)
}

/// The raw diff, with external diff drivers and binary-to-text conversion
/// disabled.
pub fn diff_cmd(env: &Vec<(String, String)>) -> (r: Result<Cmd, Error>)
    ensures
        match r {
            Ok(cmd) => spec_git_cmd_ready(
                cmd,
                env.deep_view(),
                seq!["diff"@, "--no-ext-diff"@, "--no-textconv"@, "--ignore-submodules"@],
                None,
                true,
            ),
            Err(e) => e is GitNotFound,
        },
{
    let mut cmd = git_cmd(env, "git diff")?;
    cmd.arg("diff");
    cmd.arg("--no-ext-diff");
    cmd.arg("--no-textconv");
    cmd.arg("--ignore-submodules");
    cmd.check(true);
    proof {
        assert(cmd.args_view() =~= spec_git_base_args() + seq![
            "diff"@,
            "--no-ext-diff"@,
            "--no-textconv"@,
            "--ignore-submodules"@,
        ]);
    }
    Ok(cmd)
}

/// Materialize the current index as a tree object; requires a fully merged
/// index, and fails otherwise.
pub fn write_tree_cmd(env: &Vec<(String, String)>) -> (r: Result<Cmd, Error>)
    ensures
        match r {
            Ok(cmd) => spec_git_cmd_ready(cmd, env.deep_view(), seq!["write-tree"@], None, true),
            Err(e) => e is GitNotFound,
        },
{
    let mut cmd = git_cmd(env, "git write-tree")?;
    cmd.arg("write-tree");
    cmd.check(true);
    proof {
        assert(cmd.args_view() =~= spec_git_base_args() + seq!["write-tree"@]);
    }
    Ok(cmd)
}

/// The top-level directory of the working tree.
pub fn toplevel_cmd(env: &Vec<(String, String)>) -> (r: Result<Cmd, Error>)
    ensures
        match r {
            Ok(cmd) => spec_git_cmd_ready(
                cmd,
                env.deep_view(),
                seq!["rev-parse"@, "--show-toplevel"@],
                None,
                true,
            ),
            Err(e) => e is GitNotFound,
        },
{
    let mut cmd = git_cmd(env, "get git root")?;
    cmd.arg("rev-parse");
    cmd.arg("--show-toplevel");
    cmd.check(true);
    proof {
        assert(cmd.args_view() =~= spec_git_base_args() + seq!["rev-parse"@, "--show-toplevel"@]);
    }
    Ok(cmd)
}

/// The dirty check for a path. Built unchecked: the caller distinguishes
/// the exit statuses with `dirty_from_output`.
pub fn is_dirty_cmd(env: &Vec<(String, String)>, path: &str) -> (r: Result<Cmd, Error>)
    ensures
        match r {
            Ok(cmd) => spec_git_cmd_ready(
                cmd,
                env.deep_view(),
                seq!["diff"@, "--quiet"@, "--no-ext-diff"@, path@],
                None,
                false,
            ),
            Err(e) => e is GitNotFound,
        },
{
    let mut cmd = git_cmd(env, "check git is dirty")?;
    cmd.arg("diff");
    cmd.arg("--quiet");
    cmd.arg("--no-ext-diff");
    cmd.arg(path);
    proof {
        assert(cmd.args_view() =~= spec_git_base_args() + seq![
            "diff"@,
            "--quiet"@,
            "--no-ext-diff"@,
            path@,
        ]);
    }
    Ok(cmd)
}

/// The hooks-path configuration lookup. Built unchecked: a failed lookup
/// means the override is not set.
pub fn hooks_path_cmd(env: &Vec<(String, String)>) -> (r: Result<Cmd, Error>)
    ensures
        match r {
            Ok(cmd) => spec_git_cmd_ready(
                cmd,
                env.deep_view(),
                seq!["config"@, "--get"@, "core.hooksPath"@],
                None,
                false,
            ),
            Err(e) => e is GitNotFound,
        },
{
    let mut cmd = git_cmd(env, "get git hooks path")?;
    cmd.arg("config");
    cmd.arg("--get");
    cmd.arg("core.hooksPath");
    proof {
        assert(cmd.args_view() =~= spec_git_base_args() + seq![
            "config"@,
            "--get"@,
            "core.hooksPath"@,
        ]);
    }
    Ok(cmd)
}

proof fn lemma_split_nul_pieces(t: Seq<u8>)
    requires
        t.len() > 0,
        t[0] != 0u8,
        t.last() != 0u8,
        forall|i: int| 0 <= i < t.len() - 1 ==> !(#[trigger] t[i] == 0u8 && t[i + 1] == 0u8),
    ensures
        forall|i: int| 0 <= i < spec_split_nul(t).len() ==> spec_split_nul(t)[i].len() > 0,
    decreases t.len(),
{
    let nonnul = |b: u8| b != 0u8;
    let k = count_prefix(t, nonnul);
    lemma_count_prefix_props(t, nonnul);
    if k == t.len() {
        assert(spec_split_nul(t) =~= seq![t]);
    } else {
        assert(t[k] == 0u8);
        assert(k > 0);
        // the stripped output does not end in a NUL, so the NUL at `k` is
        // not the last byte
        assert(k + 1 < t.len()) by {
            if k + 1 == t.len() {
                assert(t.last() == t[k]);
            }
        }
        let tail = t.subrange(k + 1, t.len() as int);
        assert(tail[0] == t[k + 1]);
        assert(tail[0] != 0u8);
        assert(tail.last() == t.last());
        assert(forall|i: int|
            0 <= i < tail.len() - 1 ==> #[trigger] tail[i] == t[k + 1 + i] && tail[i + 1] == t[k + 1
                + i + 1]);
        lemma_split_nul_pieces(tail);
        assert forall|i: int| 0 <= i < spec_split_nul(t).len() implies spec_split_nul(t)[i].len()
            > 0 by {
            if i == 0 {
                assert(spec_split_nul(t)[0] == t.subrange(0, k));
            } else {
                assert(spec_split_nul(t)[i] == spec_split_nul(tail)[i - 1]);
            }
        }
    }
}

} // verus!
