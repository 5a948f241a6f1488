use vstd::prelude::*;
use crate::task::TaskKind;

verus! {

/// How many stress iterations a run does when it is asked for `requested`:
/// none when the caller gives no number or zero.
pub open spec fn spec_stress_plan(requested: Option<usize>) -> Option<usize> {
    match requested {
        Some(n) => if n > 0 {
            Some(n)
        } else {
            None
        },
        None => None,
    }
}

/// Whether, and with how many iterations per task, a run does the stress
/// tests after the basic ones.
pub fn stress_plan(requested: Option<usize>) -> (r: Option<usize>)
    ensures
        r == spec_stress_plan(requested),
{
    let n = match requested {
        Some(n) => n,
        None => 0,
    };
    if n > 0 {
        Some(n)
    } else {
        None
    }
}

/// A run does stress tests exactly when it is asked for a positive number
/// of iterations, and then with exactly that number; no number, or zero,
/// means none.
pub proof fn lemma_stress_plan(n: usize)
    ensures
        n > 0 ==> spec_stress_plan(Some(n)) == Some(n),
        n == 0 ==> spec_stress_plan(Some(n)) is None,
        spec_stress_plan(None) is None,
        spec_stress_plan(Some(n)) matches Some(m) ==> m == n,
{
}

/// How many tasks of a kind run at the same time.
pub fn stress_concurrency() -> (r: usize)
    ensures
        r == 50,
{
    50
}

/// One step of the stress suite.
pub enum SuiteStep {
    /// Run `stress_concurrency()` tasks of a kind, under a name for the log.
    RunTasks(TaskKind, String),
    /// Create a directory and its parents.
    CreateDirAll(String),
}

/// A `SuiteStep` with its strings taken as character sequences.
pub enum SuiteStepView {
    RunTasks(TaskKind, Seq<char>),
    CreateDirAll(Seq<char>),
}

impl View for SuiteStep {
    type V = SuiteStepView;

    open spec fn view(&self) -> SuiteStepView {
        match self {
            SuiteStep::RunTasks(k, n) => SuiteStepView::RunTasks(*k, n@),
            SuiteStep::CreateDirAll(p) => SuiteStepView::CreateDirAll(p@),
        }
    }
}

/// The stress suite, in order: independent files; then, once the shared
/// directory exists, the shared file, the file operations and the race.
pub open spec fn spec_stress_suite() -> Seq<SuiteStepView> {
    seq![
        SuiteStepView::RunTasks(TaskKind::IndependentFiles, "Stress test (independent files)"@),
        SuiteStepView::CreateDirAll("/stress"@),
        SuiteStepView::RunTasks(TaskKind::SharedFile, "Shared file stress test"@),
        SuiteStepView::RunTasks(TaskKind::FsOps, "FS ops stress test (create/move/delete)"@),
        SuiteStepView::RunTasks(
            TaskKind::RaceCondition,
            "Race condition stress test (same file create/delete/write)"@,
        ),
    ]
}

/// The steps of the stress suite; a run stops at the first that fails.
pub fn stress_suite() -> (r: Vec<SuiteStep>)
    ensures
        r@.map_values(|s: SuiteStep| s@) == spec_stress_suite(),
{
    let mut v: Vec<SuiteStep> = Vec::new();
    v.push(SuiteStep::RunTasks(TaskKind::IndependentFiles, String::from_str("Stress test (independent files)")));
    v.push(SuiteStep::CreateDirAll(String::from_str("/stress")));
    v.push(SuiteStep::RunTasks(TaskKind::SharedFile, String::from_str("Shared file stress test")));
    v.push(SuiteStep::RunTasks(TaskKind::FsOps, String::from_str("FS ops stress test (create/move/delete)")));
    v.push(
        SuiteStep::RunTasks(
            TaskKind::RaceCondition,
            String::from_str("Race condition stress test (same file create/delete/write)"),
        ),
    );
    assert(v@.map_values(|s: SuiteStep| s@) =~= spec_stress_suite());
    v
}

/// The suite runs each kind of task exactly once, in the order independent
/// files, shared file, file operations, race; and the one directory it
/// creates, `/stress`, is created after the first and before the others.
pub proof fn lemma_stress_suite_shape()
    ensures
        spec_stress_suite().len() == 5,
        spec_stress_suite()[0] == SuiteStepView::RunTasks(TaskKind::IndependentFiles, "Stress test (independent files)"@),
        spec_stress_suite()[1] == SuiteStepView::CreateDirAll("/stress"@),
        spec_stress_suite()[2] == SuiteStepView::RunTasks(TaskKind::SharedFile, "Shared file stress test"@),
        spec_stress_suite()[3] == SuiteStepView::RunTasks(TaskKind::FsOps, "FS ops stress test (create/move/delete)"@),
        spec_stress_suite()[4] == SuiteStepView::RunTasks(
            TaskKind::RaceCondition,
            "Race condition stress test (same file create/delete/write)"@,
        ),
{
}

/// The result of a batch of tasks awaited in order: the first error, or
/// success when every task succeeded.
pub open spec fn spec_first_error(results: Seq<Result<(), String>>) -> Result<(), Seq<char>>
    decreases results.len(),
{
    if results.len() == 0 {
        Ok(())
    } else {
        match results[0] {
            Err(m) => Err(m@),
            Ok(()) => spec_first_error(results.drop_first()),
        }
    }
}

/// The first error among `results`, taken in order, or success when there
/// is none.
pub fn first_error(results: &Vec<Result<(), String>>) -> (r: Result<(), String>)
    ensures
        match (r, spec_first_error(results@)) {
            (Ok(()), Ok(())) => true,
            (Err(m), Err(e)) => m@ == e,
            _ => false,
        },
{
    let mut k: usize = 0;
    assert(results@.skip(0) =~= results@);
    while k < results.len()
        invariant
            k <= results@.len(),
            spec_first_error(results@) == spec_first_error(results@.skip(k as int)),
        decreases results.len() - k,
    {
        assert(results@.skip(k as int).drop_first() =~= results@.skip(k + 1));
        match &results[k] {
            Err(m) => {
                return Err(m.clone());
            },
            Ok(()) => {},
        }
        k = k + 1;
    }
    assert(results@.skip(k as int).len() == 0);
    Ok(())
}

/// The first error is an error that some task reported, and every task
/// before that one succeeded; there is none only when every task succeeded.
pub proof fn lemma_first_error(results: Seq<Result<(), String>>)
    ensures
        spec_first_error(results) is Ok <==> (forall|k: int| 0 <= k < results.len() ==> #[trigger] results[k] is Ok),
        spec_first_error(results) matches Err(e) ==> exists|k: int|
            0 <= k < results.len() && (#[trigger] results[k] matches Err(m) && m@ == e) && (forall|j: int| 0 <= j < k ==> #[trigger] results[j] is Ok),
    decreases results.len(),
{
    if results.len() > 0 {
        let rest = results.drop_first();
        lemma_first_error(rest);
        assert forall|k: int| 1 <= k < results.len() implies results[k] == rest[k - 1] by {}
        match results[0] {
            Err(m) => {
                assert(results[0] matches Err(m2) && m2@ == m@);
            },
            Ok(()) => {
                match spec_first_error(rest) {
                  Err(e) => {
                    let k = choose|k: int|
                        0 <= k < rest.len() && (#[trigger] rest[k] matches Err(m) && m@ == e) && (forall|j: int| 0 <= j < k ==> #[trigger] rest[j] is Ok);
                    assert(results[k + 1] == rest[k]);
                    assert forall|j: int| 0 <= j < k + 1 implies #[trigger] results[j] is Ok by {
                        if j > 0 {
                            assert(results[j] == rest[j - 1]);
                        }
                    }
                  },
                  Ok(()) => {
                    assert forall|k: int| 0 <= k < results.len() implies #[trigger] results[k] is Ok by {
                        if k > 0 {
                            assert(results[k] == rest[k - 1]);
                        }
                    }
                  },
                }
            },
        }
    }
}

} // verus!
