use vstd::prelude::*;
use vstd::string::StringExecFns;

verus! {

/// The program that creates the commit.
pub open spec fn tool_of() -> Seq<char> {
    "git"@
}

/// The arguments handed to the program for a message.
pub open spec fn commit_args_of(msg: Seq<char>) -> Seq<Seq<char>> {
    seq!["commit"@, "-m"@, msg]
}

/// The command line echoed to the user once the commit is made.
pub open spec fn echo_of(msg: Seq<char>) -> Seq<char> {
    "git commit -m "@ + msg
}

/// The diagnostic for a program that could not be started.
pub open spec fn launch_failure_text() -> Seq<char> {
    "failed to execute process"@
}

/// The diagnostic for a program that ran and reported a failure.
pub open spec fn commit_failure_text() -> Seq<char> {
    "the commit command did not succeed"@
}

/// How the run of the program went.
#[derive(Clone, Copy, Debug, PartialEq, Eq, Structural)]
pub enum CommitRun {
    /// The program could not be started (missing, not permitted).
    NotLaunched,
    /// The program ran; `success` tells whether its exit status was zero.
    Exited { success: bool },
}

/// The program to run.
pub fn commit_tool() -> (r: &'static str)
    ensures
        r@ == tool_of(),
{
    "git"
}

/// The argument list `commit -m <msg>`.
pub fn commit_args(msg: &str) -> (r: Vec<String>)
    ensures
        r@.map_values(|s: String| s@) == commit_args_of(msg@),
{
    let mut r: Vec<String> = Vec::new();
    r.push(String::from_str("commit"));
    r.push(String::from_str("-m"));
    r.push(msg.to_owned());
    assert(r@.map_values(|s: String| s@) =~= commit_args_of(msg@));
    r
}

/// The command line `git commit -m <msg>`.
pub fn echo_line(msg: &str) -> (r: String)
    ensures
        r@ == echo_of(msg@),
{
    let mut r = String::from_str("git commit -m ");
    r.append(msg);
    r
}

/// What to tell the user after the program was run on `msg`: the echoed
/// command line when the commit was made, else a diagnostic.
pub fn commit_report(msg: &str, run: CommitRun) -> (r: Result<String, String>)
    ensures
        match run {
            CommitRun::NotLaunched => r matches Err(d) && d@ == launch_failure_text(),
            CommitRun::Exited { success } => if success {
                r matches Ok(line) && line@ == echo_of(msg@)
            } else {
                r matches Err(d) && d@ == commit_failure_text()
            },
        },
{
    match run {
        CommitRun::NotLaunched => Err(String::from_str("failed to execute process")),
        CommitRun::Exited { success } => {
            if success {
                Ok(echo_line(msg))
            } else {
                Err(String::from_str("the commit command did not succeed"))
            }
        },
    }
}

} // verus!
