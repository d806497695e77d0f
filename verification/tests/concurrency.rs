use folder_find::outcome::ChildOutcome;
use folder_find::report::plan_run;
use rayon::iter::IndexedParallelIterator;
use rayon::iter::IntoParallelRefIterator;
use rayon::iter::ParallelIterator;

#[test]
fn one_hundred_units_on_four_workers_complete_without_loss() {
    let dirs: Vec<String> = (0..100).map(|i| format!("dir{:03}", i)).collect();
    let pool = rayon::ThreadPoolBuilder::new().num_threads(4).build().unwrap();

    // Simulate one unit of work per directory on the pool: every third
    // directory "succeeds", the rest "fail".
    let outs: Vec<ChildOutcome> = pool.install(|| {
        dirs.par_iter()
            .enumerate()
            .map(|(i, _d)| if i % 3 == 0 { ChildOutcome::Exited(0) } else { ChildOutcome::Exited(1) })
            .collect()
    });

    assert_eq!(outs.len(), 100);
    let r = plan_run(&Some(dirs.clone()), &outs, false);
    let expected: Vec<String> = dirs.iter().step_by(3).cloned().collect();
    assert_eq!(r.lines.len(), 34);
    assert_eq!(r.lines, expected);
    assert_eq!(r.exit_code, 0);

    let inverted = plan_run(&Some(dirs), &outs, true);
    assert_eq!(inverted.lines.len(), 66);
}
