//! The command executor, as far as it computes: which interpreter runs a
//! command, and what of its output is kept.

use vstd::prelude::*;

verus! {

/// What one run of a command came to.
#[derive(Debug, Clone, PartialEq, Eq)]
pub struct ExecutionResult {
    pub succeeded: bool,
    pub captured_text: String,
}

/// A run as plain values.
pub struct ResultView {
    pub succeeded: bool,
    pub captured_text: Seq<char>,
}

impl View for ExecutionResult {
    type V = ResultView;

    open spec fn view(&self) -> ResultView {
        ResultView { succeeded: self.succeeded, captured_text: self.captured_text@ }
    }
}

/// The interpreter that runs a command text and the flag that hands it over.
#[derive(Debug, Clone, Copy, PartialEq, Eq)]
pub struct Shell {
    pub program: &'static str,
    pub flag: &'static str,
}

/// The interpreter of the host: the command interpreter with `/C` on
/// Windows, the POSIX shell with `-c` everywhere else.
pub fn shell_invocation(windows: bool) -> (shell: Shell)
    ensures
        windows ==> shell.program@ == "cmd"@ && shell.flag@ == "/C"@,
        !windows ==> shell.program@ == "sh"@ && shell.flag@ == "-c"@,
{
    if windows {
        Shell { program: "cmd", flag: "/C" }
    } else {
        Shell { program: "sh", flag: "-c" }
    }
}

/// Keeps of a finished run what the next step is told: the standard output
/// of a run that succeeded, the standard error of one that did not.
pub fn capture_output(succeeded: bool, stdout: String, stderr: String) -> (result: ExecutionResult)
    ensures
        result.succeeded == succeeded,
        result.captured_text@ == if succeeded {
            stdout@
        } else {
            stderr@
        },
{
    if succeeded {
        ExecutionResult { succeeded, captured_text: stdout }
    } else {
        ExecutionResult { succeeded, captured_text: stderr }
    }
}

} // verus!
