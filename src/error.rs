use vstd::prelude::*;

verus! {

/// The ways in which bringing up the stack can fail.
#[derive(Debug)]
pub enum StackError {
    /// No ancestor of the start directory, nor the working directory, holds
    /// the workspace markers.
    WorkspaceNotFound,
    /// A port variable was present but is not an unsigned 16-bit integer.
    InvalidPortValue { key: String, value: String },
    /// The operating system refused to start the bootstrap process.
    SpawnFailed { message: String },
    /// A service port never accepted a connection before its deadline.
    TimedOut { host: String, port: u16 },
    /// The lock around the tracked process could not be taken.
    SupervisorLockUnavailable,
}

/// `e` is the error for port variable `key` holding `value`.
pub open spec fn is_invalid_port(e: StackError, key: Seq<char>, value: Seq<char>) -> bool {
    match e {
        StackError::InvalidPortValue { key: k, value: v } => k@ == key && v@ == value,
        _ => false,
    }
}

/// `e` is the time-out error for `host:port`.
pub open spec fn is_timed_out(e: StackError, host: Seq<char>, port: u16) -> bool {
    match e {
        StackError::TimedOut { host: h, port: p } => h@ == host && p == port,
        _ => false,
    }
}

} // verus!
