//! Trusted subprocess execution through tokio. What a spawned interpreter
//! prints or returns depends on the machine, so no contract pins a result;
//! callers state what holds of every outcome. The call drives its own
//! runtime, so the library is to be called from synchronous code only, as
//! the shell around it does.

use vstd::prelude::*;

verus! {

/// Captured outcome of a finished subprocess.
#[derive(Clone, Debug)]
pub struct ProcOutput {
    pub success: bool,
    pub stdout: String,
    pub stderr: String,
}

/// Relies on tokio::process::Command: runs `program` with `args`, waits for
/// it to finish, and captures exit status and both output streams. `None`
/// when the process could not even be spawned.
#[verifier::external_body]
pub(crate) fn run_process(program: &String, args: &Vec<String>) -> Option<ProcOutput> {
    let rt = tokio::runtime::Builder::new_current_thread().enable_all().build().ok()?;
    let mut cmd = tokio::process::Command::new(program);
    cmd.args(args);
    let guard = rt.enter();
    let fut = cmd.output();
    drop(guard);
    let out = rt.block_on(fut).ok()?;
    Some(ProcOutput {
        success: out.status.success(),
        stdout: String::from_utf8_lossy(&out.stdout).into_owned(),
        stderr: String::from_utf8_lossy(&out.stderr).into_owned(),
    })
}

} // verus!
