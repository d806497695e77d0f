//! Aggregating unit outcomes into the run's output.
//!
//! Once every unit of work has an outcome, the run's visible result is a
//! plain function of the listing, the outcomes and the invert flag: the
//! polarity-matching directories are printed one per line, spawn failures are
//! reported on their own channel, and the process exits zero — child
//! failures are conveyed by the printed lines, never by the exit status.
//! Only a failure to enumerate the root at all exits nonzero, and then
//! nothing is printed.

use vstd::prelude::*;

use crate::outcome::ChildOutcome;
use crate::outcome::UnitReport;
use crate::outcome::judge_unit;
use crate::outcome::spec_judge;
use crate::outcome::spec_nonzero_exit;
use crate::outcome::spec_success;

verus! {

/// The directories, in listing order, whose units are judged as `want`.
pub open spec fn spec_reported(
    dirs: Seq<Seq<char>>,
    outs: Seq<ChildOutcome>,
    invert: bool,
    want: UnitReport,
) -> Seq<Seq<char>>
    decreases dirs.len(),
{
    if dirs.len() == 0 || outs.len() == 0 {
        Seq::<Seq<char>>::empty()
    } else if spec_judge(outs[0], invert) == want {
        seq![dirs[0]] + spec_reported(dirs.skip(1), outs.skip(1), invert, want)
    } else {
        spec_reported(dirs.skip(1), outs.skip(1), invert, want)
    }
}

/// How many units are judged as `want`.
pub open spec fn spec_report_count(outs: Seq<ChildOutcome>, invert: bool, want: UnitReport) -> nat
    decreases outs.len(),
{
    if outs.len() == 0 {
        0
    } else if spec_judge(outs[0], invert) == want {
        1 + spec_report_count(outs.skip(1), invert, want)
    } else {
        spec_report_count(outs.skip(1), invert, want)
    }
}

/// When every unit's command succeeds, the default polarity prints exactly
/// the listed directories, in order, and the inverted polarity prints
/// nothing.
pub proof fn lemma_uniform_success(dirs: Seq<Seq<char>>, outs: Seq<ChildOutcome>)
    requires
        dirs.len() == outs.len(),
        forall|i: int| 0 <= i < outs.len() ==> spec_success(#[trigger] outs[i]),
    ensures
        spec_reported(dirs, outs, false, UnitReport::PrintDir) == dirs,
        spec_reported(dirs, outs, true, UnitReport::PrintDir).len() == 0,
    decreases dirs.len(),
{
    if dirs.len() > 0 {
        assert forall|i: int| 0 <= i < outs.skip(1).len() implies spec_success(
            #[trigger] outs.skip(1)[i],
        ) by {
            assert(outs.skip(1)[i] == outs[i + 1]);
        }
        lemma_uniform_success(dirs.skip(1), outs.skip(1));
        assert(seq![dirs[0]] + dirs.skip(1) =~= dirs);
    }
}

/// When every unit's command exits with a nonzero status, the default
/// polarity prints nothing, and the inverted polarity prints exactly the
/// listed directories, in order.
pub proof fn lemma_uniform_nonzero_exit(dirs: Seq<Seq<char>>, outs: Seq<ChildOutcome>)
    requires
        dirs.len() == outs.len(),
        forall|i: int| 0 <= i < outs.len() ==> spec_nonzero_exit(#[trigger] outs[i]),
    ensures
        spec_reported(dirs, outs, false, UnitReport::PrintDir).len() == 0,
        spec_reported(dirs, outs, true, UnitReport::PrintDir) == dirs,
    decreases dirs.len(),
{
    if dirs.len() > 0 {
        assert forall|i: int| 0 <= i < outs.skip(1).len() implies spec_nonzero_exit(
            #[trigger] outs.skip(1)[i],
        ) by {
            assert(outs.skip(1)[i] == outs[i + 1]);
        }
        lemma_uniform_nonzero_exit(dirs.skip(1), outs.skip(1));
        assert(seq![dirs[0]] + dirs.skip(1) =~= dirs);
    }
}

/// No unit is lost and none is invented: the number of printed lines equals
/// the number of polarity-matching units, however the units were dispatched.
pub proof fn lemma_reported_len(
    dirs: Seq<Seq<char>>,
    outs: Seq<ChildOutcome>,
    invert: bool,
    want: UnitReport,
)
    requires
        dirs.len() == outs.len(),
    ensures
        spec_reported(dirs, outs, invert, want).len() == spec_report_count(outs, invert, want),
    decreases dirs.len(),
{
    if dirs.len() > 0 {
        lemma_reported_len(dirs.skip(1), outs.skip(1), invert, want);
    }
}

/// Every printed line is one of the listed directories.
pub proof fn lemma_reported_are_listed(
    dirs: Seq<Seq<char>>,
    outs: Seq<ChildOutcome>,
    invert: bool,
    want: UnitReport,
)
    requires
        dirs.len() == outs.len(),
    ensures
        forall|j: int|
            0 <= j < spec_reported(dirs, outs, invert, want).len() ==> dirs.contains(
                #[trigger] spec_reported(dirs, outs, invert, want)[j],
            ),
    decreases dirs.len(),
{
    if dirs.len() > 0 {
        lemma_reported_are_listed(dirs.skip(1), outs.skip(1), invert, want);
        let rep = spec_reported(dirs, outs, invert, want);
        let rest = spec_reported(dirs.skip(1), outs.skip(1), invert, want);
        assert forall|j: int| 0 <= j < rep.len() implies dirs.contains(#[trigger] rep[j]) by {
            if spec_judge(outs[0], invert) == want && j == 0 {
                assert(rep[0] == dirs[0]);
                assert(dirs[0] == dirs[0]);
            } else {
                let k = if spec_judge(outs[0], invert) == want {
                    j - 1
                } else {
                    j
                };
                assert(rep[j] == rest[k]);
                assert(dirs.skip(1).contains(rest[k]));
                let w = choose|w: int| 0 <= w < dirs.skip(1).len() && dirs.skip(1)[w] == rest[k];
                assert(dirs[w + 1] == rest[k]);
            }
        }
    }
}

/// Running twice over an unchanged tree with a deterministic command is
/// idempotent: equal listings and equal outcomes give the same printed
/// lines both times.
pub proof fn lemma_run_deterministic(
    dirs1: Seq<Seq<char>>,
    outs1: Seq<ChildOutcome>,
    dirs2: Seq<Seq<char>>,
    outs2: Seq<ChildOutcome>,
    invert: bool,
)
    requires
        dirs1 == dirs2,
        outs1 == outs2,
    ensures
        spec_reported(dirs1, outs1, invert, UnitReport::PrintDir) == spec_reported(
            dirs2,
            outs2,
            invert,
            UnitReport::PrintDir,
        ),
{
}

/// Collect the directories whose units are judged as `want`, in listing
/// order. Each directory is paired with the outcome at the same index.
pub fn dirs_with_report(
    dirs: &Vec<String>,
    outs: &Vec<ChildOutcome>,
    invert: bool,
    want: UnitReport,
) -> (r: Vec<String>)
    requires
        dirs@.len() == outs@.len(),
    ensures
        r.deep_view() == spec_reported(dirs.deep_view(), outs@, invert, want),
{
    let ghost full = spec_reported(dirs.deep_view(), outs@, invert, want);
    let mut r: Vec<String> = Vec::new();
    let mut i: usize = 0;
    proof {
        assert(dirs.deep_view().skip(0) =~= dirs.deep_view());
        assert(outs@.skip(0) =~= outs@);
        assert(r.deep_view() =~= Seq::<Seq<char>>::empty());
        assert(r.deep_view() + spec_reported(dirs.deep_view(), outs@, invert, want) =~= full);
    }
    while i < dirs.len()
        invariant
            dirs@.len() == outs@.len(),
            i <= dirs@.len(),
            full == spec_reported(dirs.deep_view(), outs@, invert, want),
            r.deep_view() + spec_reported(
                dirs.deep_view().skip(i as int),
                outs@.skip(i as int),
                invert,
                want,
            ) == full,
        decreases dirs@.len() - i,
    {
        let ghost dv = dirs.deep_view();
        let ghost rest_dirs = dv.skip(i as int);
        let ghost rest_outs = outs@.skip(i as int);
        proof {
            assert(rest_dirs.len() == dv.len() - i);
            assert(rest_dirs[0] == dv[i as int]);
            assert(rest_outs[0] == outs@[i as int]);
            assert(rest_dirs.skip(1) =~= dv.skip(i as int + 1));
            assert(rest_outs.skip(1) =~= outs@.skip(i as int + 1));
        }
        let judged = judge_unit(&outs[i], invert);
        let take = match (judged, want) {
            (UnitReport::PrintDir, UnitReport::PrintDir) => true,
            (UnitReport::Silent, UnitReport::Silent) => true,
            (UnitReport::SpawnFailure, UnitReport::SpawnFailure) => true,
            _ => false,
        };
        if take {
            let ghost before = r.deep_view();
            r.push(dirs[i].clone());
            proof {
                assert(r.deep_view() =~= before.push(dv[i as int]));
                assert(before.push(dv[i as int]) + spec_reported(
                    dv.skip(i as int + 1),
                    outs@.skip(i as int + 1),
                    invert,
                    want,
                ) =~= before + (seq![dv[i as int]] + spec_reported(
                    dv.skip(i as int + 1),
                    outs@.skip(i as int + 1),
                    invert,
                    want,
                )));
            }
        }
        i = i + 1;
    }
    proof {
        assert(dirs.deep_view().skip(dirs@.len() as int) =~= Seq::<Seq<char>>::empty());
        assert(r.deep_view() + Seq::<Seq<char>>::empty() =~= r.deep_view());
    }
    r
}

/// The run's whole visible result: the lines printed to standard output,
/// the spawn-failure diagnostics, and the process exit status.
pub struct RunReport {
    /// One directory per line, in listing order among those that matched.
    pub lines: Vec<String>,
    /// The directories whose command could not be spawned at all.
    pub spawn_failures: Vec<String>,
    /// 0 when the root was enumerated, 1 when enumeration failed.
    pub exit_code: i32,
}

/// Plan the run's output. `listing` is the enumerated root: `None` when the
/// root could not be read at all, in which case nothing is printed and the
/// exit status is nonzero. Otherwise each listed directory is paired with
/// its unit's outcome, the polarity-matching ones become the printed lines,
/// the spawn failures become diagnostics, and the exit status is zero no
/// matter how many children failed.
pub fn plan_run(listing: &Option<Vec<String>>, outs: &Vec<ChildOutcome>, invert: bool) -> (r:
    RunReport)
    requires
        match listing {
            Some(dirs) => dirs@.len() == outs@.len(),
            None => true,
        },
    ensures
        listing is None ==> r.lines@.len() == 0 && r.spawn_failures@.len() == 0 && r.exit_code
            == 1,
        match listing {
            Some(dirs) => r.exit_code == 0 && r.lines.deep_view() == spec_reported(
                dirs.deep_view(),
                outs@,
                invert,
                UnitReport::PrintDir,
            ) && r.spawn_failures.deep_view() == spec_reported(
                dirs.deep_view(),
                outs@,
                invert,
                UnitReport::SpawnFailure,
            ),
            None => true,
        },
{
    match listing {
        None => RunReport { lines: Vec::new(), spawn_failures: Vec::new(), exit_code: 1 },
        Some(dirs) => {
            let lines = dirs_with_report(dirs, outs, invert, UnitReport::PrintDir);
            let spawn_failures = dirs_with_report(dirs, outs, invert, UnitReport::SpawnFailure);
            RunReport { lines, spawn_failures, exit_code: 0 }
        },
    }
}

} // verus!
