//! Per-unit outcome judgement.
//!
//! One unit of work is one (directory, command) execution. The child either
//! exits with a status code, dies on a signal, or never starts because the
//! spawn itself failed. Success means a normal exit with status 0; the unit's
//! directory is printed when success XOR invert holds. A spawn failure is
//! never folded into polarity silently: it is reported as its own kind.

use vstd::prelude::*;

verus! {

/// What became of one spawned child.
#[derive(Clone, Copy, Debug, PartialEq, Eq, Structural)]
pub enum ChildOutcome {
    /// The child terminated normally with this exit status.
    Exited(i32),
    /// The child was terminated abnormally (killed by a signal).
    Signaled,
    /// The process could not be spawned at all (executable not found or
    /// not executable).
    SpawnFailed,
}

/// What one unit of work contributes to the run's output.
#[derive(Clone, Copy, Debug, PartialEq, Eq, Structural)]
pub enum UnitReport {
    /// The outcome matches the configured polarity: print the directory.
    PrintDir,
    /// The outcome does not match the polarity: print nothing.
    Silent,
    /// The spawn failed: emit a diagnostic for this directory, distinct
    /// from the polarity output, and carry on with the siblings.
    SpawnFailure,
}

/// A child succeeded exactly when it terminated normally with status 0;
/// any nonzero status or abnormal termination is failure.
pub open spec fn spec_success(o: ChildOutcome) -> bool {
    o == ChildOutcome::Exited(0i32)
}

/// A normal termination with a nonzero exit status.
pub open spec fn spec_nonzero_exit(o: ChildOutcome) -> bool {
    o matches ChildOutcome::Exited(code) && code != 0
}

/// The outcome of interest: success by default, failure when inverted.
pub open spec fn spec_matches_polarity(success: bool, invert: bool) -> bool {
    success != invert
}

/// How one unit is reported: a spawn failure on its own channel, otherwise
/// the directory is printed exactly when the polarity matches.
pub open spec fn spec_judge(o: ChildOutcome, invert: bool) -> UnitReport {
    if o == ChildOutcome::SpawnFailed {
        UnitReport::SpawnFailure
    } else if spec_matches_polarity(spec_success(o), invert) {
        UnitReport::PrintDir
    } else {
        UnitReport::Silent
    }
}

/// Whether this outcome counts as success.
pub fn child_succeeded(o: &ChildOutcome) -> (b: bool)
    ensures
        b == spec_success(*o),
{
    match o {
        ChildOutcome::Exited(code) => *code == 0,
        _ => false,
    }
}

/// Whether an outcome with the given success matches the polarity.
pub fn matches_polarity(success: bool, invert: bool) -> (b: bool)
    ensures
        b == spec_matches_polarity(success, invert),
{
    success != invert
}

/// Judge one unit of work.
pub fn judge_unit(o: &ChildOutcome, invert: bool) -> (r: UnitReport)
    ensures
        r == spec_judge(*o, invert),
{
    match o {
        ChildOutcome::SpawnFailed => UnitReport::SpawnFailure,
        _ => {
            if matches_polarity(child_succeeded(o), invert) {
                UnitReport::PrintDir
            } else {
                UnitReport::Silent
            }
        },
    }
}

} // verus!
