//! Per-call configuration for one subprocess exchange. Supplied explicitly by
//! the caller; never read from ambient global state.

use vstd::prelude::*;

verus! {

/// Common configuration for subprocess execution.
#[derive(Debug, Clone)]
pub struct SubprocessConfig {
    /// Bound on the tool's running time, in milliseconds; must be positive.
    pub timeout_ms: u64,
    /// Working directory override for the child, if any.
    pub working_dir: Option<String>,
    /// Extra environment variables handed to the child.
    pub env_vars: Vec<(String, String)>,
    /// Debug aid only: echo the request and response texts to the log.
    /// Has no effect on the outcome.
    pub log_io: bool,
}

impl SubprocessConfig {
    /// A configuration is valid when its timeout is positive.
    pub open spec fn valid(&self) -> bool {
        self.timeout_ms > 0
    }
}

impl Default for SubprocessConfig {
    /// Thirty-second timeout, no overrides, I/O logging on.
    fn default() -> (r: Self)
        ensures
            r.timeout_ms == 30000u64,
            r.working_dir is None,
            r.env_vars@ =~= Seq::<(String, String)>::empty(),
            r.log_io == true,
            r.valid(),
    {
        SubprocessConfig {
            timeout_ms: 30000,
            working_dir: None,
            env_vars: Vec::new(),
            log_io: true,
        }
    }
}

} // verus!
