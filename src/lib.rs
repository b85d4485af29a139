//! Host-side operations of the MAVI desktop shell: reading the machine
//! identifier, saving project files under the user's documents folder, and
//! driving the end-to-end test runner. The library holds the decisions; the
//! host performs the process, environment and file-system calls.

pub mod machine_id;
pub mod persist;
pub mod process;
pub mod runner;
pub mod text;
