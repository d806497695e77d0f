//! Run configuration and per-spawn stdio selection.
//!
//! A run is configured once at startup and read-only afterwards: the invert
//! flag, the debug verbosity level, the suppress-stderr flag and the worker
//! count. The stdio plan derived from it says, for one spawned child, where
//! each of its three standard streams goes. Standard input is always closed,
//! so a child that reads from it sees immediate end-of-input and never hangs.

use vstd::prelude::*;

verus! {

/// Where one standard stream of a spawned child is directed.
#[derive(Clone, Copy, Debug, PartialEq, Eq, Structural)]
pub enum StdioMode {
    /// The stream is connected to the null device: input is empty,
    /// output is discarded.
    Null,
    /// The stream is inherited from the parent process and shown live.
    Inherit,
}

/// Immutable process-wide settings for one run.
#[derive(Clone, Copy, Debug, PartialEq, Eq, Structural)]
pub struct RunConfig {
    /// Print directories where the command failed instead of succeeded.
    pub invert: bool,
    /// Verbosity: 0 is silent, 1 logs each resolved command, 2 also
    /// streams the child's standard output.
    pub debug: u8,
    /// Suppress the child's standard error.
    pub ignore_warnings: bool,
    /// Worker pool size; 0 means the runtime default.
    pub threads: usize,
}

/// The destination of each standard stream of one spawned child.
#[derive(Clone, Copy, Debug, PartialEq, Eq, Structural)]
pub struct StdioPlan {
    pub stdin: StdioMode,
    pub stdout: StdioMode,
    pub stderr: StdioMode,
}

impl RunConfig {
    /// Decide where each standard stream of a child goes under this
    /// configuration. Standard input is closed unconditionally; standard
    /// output is shown only at verbosity 2 or more; standard error is shown
    /// unless warnings are suppressed.
    pub fn stdio_plan(&self) -> (p: StdioPlan)
        ensures
            p.stdin == StdioMode::Null,
            p.stdout == (if self.debug >= 2 {
                StdioMode::Inherit
            } else {
                StdioMode::Null
            }),
            p.stderr == (if self.ignore_warnings {
                StdioMode::Null
            } else {
                StdioMode::Inherit
            }),
    {
        StdioPlan {
            stdin: StdioMode::Null,
            stdout: if self.debug >= 2 {
                StdioMode::Inherit
            } else {
                StdioMode::Null
            },
            stderr: if self.ignore_warnings {
                StdioMode::Null
            } else {
                StdioMode::Inherit
            },
        }
    }

    /// Whether a diagnostic line describing the resolved command should be
    /// emitted before each spawn: any verbosity above silent asks for it.
    pub fn logs_exec(&self) -> (b: bool)
        ensures
            b == (self.debug >= 1),
    {
        self.debug >= 1
    }

    /// The worker pool size to use: the configured count, except that 0
    /// stands for the runtime default handed in by the caller.
    pub fn worker_count(&self, runtime_default: usize) -> (n: usize)
        ensures
            n == (if self.threads == 0 {
                runtime_default
            } else {
                self.threads
            }),
    {
        if self.threads == 0 {
            runtime_default
        } else {
            self.threads
        }
    }
}

} // verus!
