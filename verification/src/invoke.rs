//! Process invocation model: a command under construction, the outcome of
//! running it, and the strict-checking policy that turns a non-zero exit
//! status into a structured failure.

use vstd::prelude::*;

verus! {

/// The outcome of running an external command: exit status and fully drained
/// output streams. A `status` of `None` means the process terminated without
/// reporting an exit code (for example, killed by a signal).
pub struct InvocationResult {
    pub status: Option<i32>,
    pub stdout: Vec<u8>,
    pub stderr: Vec<u8>,
}

impl InvocationResult {
    /// The process reported a successful (zero) exit status.
    pub open spec fn spec_success(&self) -> bool {
        self.status == Some(0i32)
    }

    pub fn success(&self) -> (r: bool)
        ensures
            r == self.spec_success(),
    {
        match self.status {
            Some(code) => code == 0,
            None => false,
        }
    }
}

/// A failure of an external command.
#[derive(Debug)]
pub enum Error {
    /// The operating system could not start the process; the payload
    /// describes the failure.
    SpawnFailed(String),
    /// The command ran but exited with a non-zero status while strict
    /// checking was requested. Carries the status and the captured
    /// standard-error bytes.
    ExecutionFailed { status: Option<i32>, stderr: Vec<u8> },
}

/// An external command under construction: program, ordered arguments,
/// optional working-directory override, the environment variables the
/// child process is given (its entire environment), and whether a non-zero
/// exit is to be treated as an error (`check`).
///
/// The `summary` is a short human-readable description of what the command
/// is for, carried along for error reporting.
pub struct Cmd {
    pub program: String,
    pub summary: String,
    pub args: Vec<String>,
    pub envs: Vec<(String, String)>,
    pub cwd: Option<String>,
    pub check: bool,
}

impl Cmd {
    /// The arguments as a sequence of character sequences.
    pub open spec fn args_view(&self) -> Seq<Seq<char>> {
        self.args.deep_view()
    }

    /// The extra environment as a sequence of name/value pairs.
    pub open spec fn envs_view(&self) -> Seq<(Seq<char>, Seq<char>)> {
        self.envs.deep_view()
    }

    pub fn new(program: String, summary: String) -> (r: Cmd)
        ensures
            r.program == program,
            r.summary == summary,
            r.args_view() =~= Seq::<Seq<char>>::empty(),
            r.envs_view() =~= Seq::<(Seq<char>, Seq<char>)>::empty(),
            r.cwd is None,
            r.check == false,
    {
        let r = Cmd {
            program,
            summary,
            args: Vec::new(),
            envs: Vec::new(),
            cwd: None,
            check: false,
        };
        proof {
            assert(r.args_view() =~= Seq::<Seq<char>>::empty());
            assert(r.envs_view() =~= Seq::<(Seq<char>, Seq<char>)>::empty());
        }
        r
    }

    /// Append one argument.
    pub fn arg(&mut self, a: &str)
        ensures
            final(self).args_view() == old(self).args_view().push(a@),
            final(self).program == old(self).program,
            final(self).summary == old(self).summary,
            final(self).envs == old(self).envs,
            final(self).cwd == old(self).cwd,
            final(self).check == old(self).check,
    {
        let ghost pre = self.args.deep_view();
        self.args.push(a.to_owned());
        proof {
            assert(self.args.deep_view() =~= pre.push(a@));
        }
    }

    /// Append environment variable pairs.
    pub fn envs(&mut self, mut pairs: Vec<(String, String)>)
        ensures
            final(self).envs_view() == old(self).envs_view() + pairs.deep_view(),
            final(self).program == old(self).program,
            final(self).summary == old(self).summary,
            final(self).args == old(self).args,
            final(self).cwd == old(self).cwd,
            final(self).check == old(self).check,
    {
        let ghost pre = self.envs.deep_view();
        let ghost added = pairs.deep_view();
        self.envs.append(&mut pairs);
        proof {
            assert(self.envs.deep_view() =~= pre + added);
        }
    }

    /// Override the working directory the command runs in.
    pub fn current_dir(&mut self, dir: String)
        ensures
            final(self).cwd == Some(dir),
            final(self).program == old(self).program,
            final(self).summary == old(self).summary,
            final(self).args == old(self).args,
            final(self).envs == old(self).envs,
            final(self).check == old(self).check,
    {
        self.cwd = Some(dir);
    }

    /// Choose whether a non-zero exit status is an error.
    pub fn check(&mut self, check: bool)
        ensures
            final(self).check == check,
            final(self).program == old(self).program,
            final(self).summary == old(self).summary,
            final(self).args == old(self).args,
            final(self).envs == old(self).envs,
            final(self).cwd == old(self).cwd,
    {
        self.check = check;
    }

    /// Turn an exit status into a structured failure: `Ok` exactly on a zero
    /// exit status, otherwise `ExecutionFailed` carrying that status and the
    /// given standard-error bytes.
    pub fn check_status(&self, status: Option<i32>, stderr: Vec<u8>) -> (r: Result<(), Error>)
        ensures
            match r {
                Ok(()) => status == Some(0i32),
                Err(e) => status != Some(0i32) && e == (Error::ExecutionFailed { status, stderr }),
            },
    {
        match status {
            Some(code) => {
                if code == 0 {
                    Ok(())
                } else {
                    Err(Error::ExecutionFailed { status: Some(code), stderr })
                }
            },
            None => Err(Error::ExecutionFailed { status: None, stderr }),
        }
    }

    /// Apply the strict-checking policy to a finished invocation: when
    /// `check` is set and the process failed, the result becomes an
    /// `ExecutionFailed` carrying the status and standard error; otherwise
    /// the result is handed back unchanged for the caller to interpret.
    pub fn interpret(&self, out: InvocationResult) -> (r: Result<InvocationResult, Error>)
        ensures
            match r {
                Ok(res) => res == out && (self.check ==> out.spec_success()),
                Err(e) => {
                    &&& self.check
                    &&& !out.spec_success()
                    &&& e == (Error::ExecutionFailed { status: out.status, stderr: out.stderr })
                },
            },
    {
        if self.check && !out.success() {
            Err(Error::ExecutionFailed { status: out.status, stderr: out.stderr })
        } else {
            Ok(out)
        }
    }
}

} // verus!
