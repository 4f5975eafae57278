use pre_commit::acquire::{clone_command, clone_step, failure_is_tolerated, ClonePhase};
use pre_commit::git::Error;

/// Drives the protocol from initialization, reading each command's outcome
/// off `outcomes` (any phase past its end succeeds), and returns the phases
/// that issued a command.
fn drive(outcomes: &[bool]) -> (Vec<ClonePhase>, ClonePhase) {
    let mut phase = ClonePhase::Init;
    let mut issued = Vec::new();
    let mut step = 0usize;
    while phase != ClonePhase::Done && phase != ClonePhase::Failed {
        issued.push(phase);
        let success = outcomes.get(step).copied().unwrap_or(true);
        phase = clone_step(phase, success);
        step += 1;
    }
    (issued, phase)
}

#[test]
fn shallow_success_never_issues_full_commands() {
    let (issued, end) = drive(&[true, true, true, true, true]);
    assert_eq!(
        issued,
        vec![
            ClonePhase::Init,
            ClonePhase::AddRemote,
            ClonePhase::ShallowFetch,
            ClonePhase::ShallowCheckout,
            ClonePhase::ShallowSubmodules,
        ]
    );
    assert_eq!(end, ClonePhase::Done);
    for phase in issued {
        assert!(!matches!(
            phase,
            ClonePhase::FullFetch | ClonePhase::FullCheckout | ClonePhase::FullSubmodules
        ));
    }
}

#[test]
fn shallow_fetch_failure_recovers_through_full_path() {
    let (issued, end) = drive(&[true, true, false, true, true, true]);
    assert_eq!(
        issued,
        vec![
            ClonePhase::Init,
            ClonePhase::AddRemote,
            ClonePhase::ShallowFetch,
            ClonePhase::FullFetch,
            ClonePhase::FullCheckout,
            ClonePhase::FullSubmodules,
        ]
    );
    assert_eq!(end, ClonePhase::Done);
}

#[test]
fn shallow_checkout_failure_also_recovers() {
    let (issued, end) = drive(&[true, true, true, false, true, true, true]);
    assert_eq!(end, ClonePhase::Done);
    assert!(issued.contains(&ClonePhase::FullFetch));
    assert!(!issued.contains(&ClonePhase::ShallowSubmodules));
}

#[test]
fn initialization_failure_is_final() {
    let (issued, end) = drive(&[false]);
    assert_eq!(issued, vec![ClonePhase::Init]);
    assert_eq!(end, ClonePhase::Failed);
}

#[test]
fn full_attempt_failure_is_final_and_not_retried() {
    let (issued, end) = drive(&[true, true, false, false]);
    assert_eq!(
        issued,
        vec![
            ClonePhase::Init,
            ClonePhase::AddRemote,
            ClonePhase::ShallowFetch,
            ClonePhase::FullFetch,
        ]
    );
    assert_eq!(end, ClonePhase::Failed);
}

#[test]
fn only_shallow_failures_are_tolerated() {
    assert!(failure_is_tolerated(ClonePhase::ShallowFetch));
    assert!(failure_is_tolerated(ClonePhase::ShallowCheckout));
    assert!(failure_is_tolerated(ClonePhase::ShallowSubmodules));
    assert!(!failure_is_tolerated(ClonePhase::Init));
    assert!(!failure_is_tolerated(ClonePhase::AddRemote));
    assert!(!failure_is_tolerated(ClonePhase::FullFetch));
    assert!(!failure_is_tolerated(ClonePhase::FullCheckout));
    assert!(!failure_is_tolerated(ClonePhase::FullSubmodules));
}

fn tail_args(phase: ClonePhase) -> Option<(Vec<String>, Option<String>)> {
    match clone_command(phase, "https://example.com/repo.git", "v1.2.3", "/tmp/dest", &Vec::new())
    {
        Ok(Some(cmd)) => {
            let tail = cmd.args[2..].to_vec();
            Some((tail, cmd.cwd))
        }
        Ok(None) => None,
        // without a git executable nothing can be built; the protocol
        // itself is exercised above
        Err(e) => {
            assert!(matches!(e, Error::GitNotFound(_)));
            None
        }
    }
}

#[test]
fn phase_commands_use_the_documented_arguments() {
    if let Some((args, cwd)) = tail_args(ClonePhase::Init) {
        assert_eq!(args, vec!["init", "--template=", "/tmp/dest"]);
        assert_eq!(cwd, None);
    }
    if let Some((args, cwd)) = tail_args(ClonePhase::AddRemote) {
        assert_eq!(args, vec!["remote", "add", "origin", "https://example.com/repo.git"]);
        assert_eq!(cwd, Some("/tmp/dest".to_string()));
    }
    if let Some((args, _)) = tail_args(ClonePhase::ShallowFetch) {
        assert_eq!(
            args,
            vec!["-c", "protocol.version=2", "fetch", "origin", "v1.2.3", "--depth=1"]
        );
    }
    if let Some((args, _)) = tail_args(ClonePhase::ShallowCheckout) {
        assert_eq!(args, vec!["checkout", "FETCH_HEAD"]);
    }
    if let Some((args, _)) = tail_args(ClonePhase::ShallowSubmodules) {
        assert_eq!(
            args,
            vec![
                "-c",
                "protocol.version=2",
                "submodule",
                "update",
                "--init",
                "--recursive",
                "--depth=1"
            ]
        );
    }
    if let Some((args, _)) = tail_args(ClonePhase::FullFetch) {
        assert_eq!(args, vec!["fetch", "origin", "--tags"]);
    }
    if let Some((args, _)) = tail_args(ClonePhase::FullCheckout) {
        assert_eq!(args, vec!["checkout", "v1.2.3"]);
    }
    if let Some((args, _)) = tail_args(ClonePhase::FullSubmodules) {
        assert_eq!(args, vec!["submodule", "update", "--init", "--recursive"]);
    }
}

#[test]
fn terminal_phases_issue_no_command() {
    assert!(tail_args(ClonePhase::Done).is_none());
    assert!(tail_args(ClonePhase::Failed).is_none());
}
