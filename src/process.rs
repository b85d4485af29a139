use vstd::prelude::*;

verus! {

/// What a finished child process left behind: whether it exited with
/// success, and everything it wrote to its two output streams.
pub struct ProcessOutput {
    pub success: bool,
    pub stdout: Vec<u8>,
    pub stderr: Vec<u8>,
}

} // verus!
