use vstd::prelude::*;

use crate::errno::Error;

verus! {

/// What a unit of work reports: its exit code, or its own failure.
#[derive(Clone, Copy, Debug, PartialEq, Eq, Structural)]
pub enum ExecStatus {
    Success(i32),
    Failed(Error),
}

/// Where a run of work inside another process's network namespace stands.
///
/// The caller drives it: it performs [`Stage::action`], hands the outcome to
/// [`Stage::on_step`] (or, for the work, to [`Stage::on_work`]), and goes on
/// until the action is [`Action::Report`].
#[derive(Clone, Copy, Debug, PartialEq, Eq, Structural)]
pub enum Stage {
    /// A handle to the calling thread's own namespace is wanted.
    AcquireOriginal,
    /// A handle to the target process's namespace is wanted.
    AcquireTarget,
    /// The target namespace is to be installed.
    SwitchIn,
    /// The thread is in the target namespace: the work is to run.
    RunWork,
    /// The work has reported this; the original namespace is to be installed again.
    Restore(ExecStatus),
    /// The run is over, with this result.
    Finished(ExecStatus),
}

/// What the driver of a [`Stage`] does next.
#[derive(Clone, Copy, Debug, PartialEq, Eq, Structural)]
pub enum Action {
    /// Open a handle to the calling thread's network namespace.
    AcquireCurrent,
    /// Open a handle to the target process's network namespace.
    AcquireTarget,
    /// Install the target handle as the calling thread's namespace.
    InstallTarget,
    /// Run the work on this same thread.
    RunWork,
    /// Install the original handle as the calling thread's namespace again.
    InstallOriginal,
    /// Hand this result to the caller.
    Report(ExecStatus),
}

pub open spec fn action_of(stage: Stage) -> Action {
    match stage {
        Stage::AcquireOriginal => Action::AcquireCurrent,
        Stage::AcquireTarget => Action::AcquireTarget,
        Stage::SwitchIn => Action::InstallTarget,
        Stage::RunWork => Action::RunWork,
        Stage::Restore(_) => Action::InstallOriginal,
        Stage::Finished(status) => Action::Report(status),
    }
}

/// The stage after an acquisition or an install has had `outcome`. A failure
/// ends the run with it; a success moves on. Other stages do not wait for
/// such an outcome and stay as they are.
pub open spec fn after_step(stage: Stage, outcome: Result<(), Error>) -> Stage {
    match outcome {
        Err(e) => match stage {
            Stage::AcquireOriginal | Stage::AcquireTarget | Stage::SwitchIn | Stage::Restore(
                _,
            ) => Stage::Finished(ExecStatus::Failed(e)),
            _ => stage,
        },
        Ok(_) => match stage {
            Stage::AcquireOriginal => Stage::AcquireTarget,
            Stage::AcquireTarget => Stage::SwitchIn,
            Stage::SwitchIn => Stage::RunWork,
            Stage::Restore(work) => Stage::Finished(work),
            _ => stage,
        },
    }
}

/// The stage after the work has reported `status`: restoration comes next,
/// whatever the work reported. Other stages stay as they are.
pub open spec fn after_work(stage: Stage, status: ExecStatus) -> Stage {
    match stage {
        Stage::RunWork => Stage::Restore(status),
        _ => stage,
    }
}

/// The result that a run owes, given how each of its steps turned out: the
/// first failure among acquiring the original handle, acquiring the target
/// handle, switching in and restoring, in that order; else what the work
/// reported.
pub open spec fn run_result(
    original: Result<(), Error>,
    target: Result<(), Error>,
    switch: Result<(), Error>,
    work: ExecStatus,
    restore: Result<(), Error>,
) -> ExecStatus {
    match (original, target, switch, restore) {
        (Err(e), _, _, _) => ExecStatus::Failed(e),
        (Ok(_), Err(e), _, _) => ExecStatus::Failed(e),
        (Ok(_), Ok(_), Err(e), _) => ExecStatus::Failed(e),
        (Ok(_), Ok(_), Ok(_), Err(e)) => ExecStatus::Failed(e),
        (Ok(_), Ok(_), Ok(_), Ok(_)) => work,
    }
}

/// One turn of a driver whose steps turn out as given: the stage takes the
/// outcome of the step that its action asks for.
pub open spec fn turn(
    stage: Stage,
    original: Result<(), Error>,
    target: Result<(), Error>,
    switch: Result<(), Error>,
    work: ExecStatus,
    restore: Result<(), Error>,
) -> Stage {
    match stage {
        Stage::AcquireOriginal => after_step(stage, original),
        Stage::AcquireTarget => after_step(stage, target),
        Stage::SwitchIn => after_step(stage, switch),
        Stage::RunWork => after_work(stage, work),
        Stage::Restore(_) => after_step(stage, restore),
        Stage::Finished(_) => stage,
    }
}

/// The stage after `n` turns from `stage`.
pub open spec fn run_turns(
    stage: Stage,
    n: nat,
    original: Result<(), Error>,
    target: Result<(), Error>,
    switch: Result<(), Error>,
    work: ExecStatus,
    restore: Result<(), Error>,
) -> Stage
    decreases n,
{
    if n == 0 {
        stage
    } else {
        run_turns(turn(stage, original, target, switch, work, restore), (n - 1) as nat, original, target, switch, work, restore)
    }
}

/// Which stages a run can be in, given how its steps turned out: it is past
/// a step only if that step succeeded.
pub open spec fn consistent(
    stage: Stage,
    original: Result<(), Error>,
    target: Result<(), Error>,
    switch: Result<(), Error>,
) -> bool {
    &&& stage is AcquireTarget ==> original is Ok
    &&& stage is SwitchIn ==> original is Ok && target is Ok
    &&& (stage is RunWork || stage is Restore) ==> original is Ok && target is Ok && switch is Ok
}

/// A run ends after five turns at most, with the first failure among its
/// steps in the order acquire original, acquire target, switch in, restore,
/// and otherwise with what the work reported; once ended it stays so.
pub proof fn lemma_run_result(
    original: Result<(), Error>,
    target: Result<(), Error>,
    switch: Result<(), Error>,
    work: ExecStatus,
    restore: Result<(), Error>,
)
    ensures
        run_turns(Stage::AcquireOriginal, 5, original, target, switch, work, restore)
            == Stage::Finished(run_result(original, target, switch, work, restore)),
        forall|s: ExecStatus, n: nat| #[trigger]
            run_turns(Stage::Finished(s), n, original, target, switch, work, restore)
                == Stage::Finished(s),
{
    reveal_with_fuel(run_turns, 6);
    assert forall|s: ExecStatus, n: nat| #[trigger]
        run_turns(Stage::Finished(s), n, original, target, switch, work, restore)
            == Stage::Finished(s) by {
        lemma_finished_stays(s, n, original, target, switch, work, restore);
    }
}

proof fn lemma_finished_stays(
    s: ExecStatus,
    n: nat,
    original: Result<(), Error>,
    target: Result<(), Error>,
    switch: Result<(), Error>,
    work: ExecStatus,
    restore: Result<(), Error>,
)
    ensures
        run_turns(Stage::Finished(s), n, original, target, switch, work, restore)
            == Stage::Finished(s),
    decreases n,
{
    if n > 0 {
        lemma_finished_stays(s, (n - 1) as nat, original, target, switch, work, restore);
    }
}

proof fn lemma_consistent_kept(
    stage: Stage,
    n: nat,
    original: Result<(), Error>,
    target: Result<(), Error>,
    switch: Result<(), Error>,
    work: ExecStatus,
    restore: Result<(), Error>,
)
    requires
        consistent(stage, original, target, switch),
    ensures
        consistent(
            run_turns(stage, n, original, target, switch, work, restore),
            original,
            target,
            switch,
        ),
    decreases n,
{
    if n > 0 {
        let next = turn(stage, original, target, switch, work, restore);
        assert(consistent(next, original, target, switch));
        lemma_consistent_kept(next, (n - 1) as nat, original, target, switch, work, restore);
    }
}

/// The work runs, and the original namespace is installed again, only after
/// both handles were acquired and the switch into the target succeeded; and
/// once that happened, restoration is asked for whatever the work reported.
pub proof fn lemma_restore_iff_switched(
    n: nat,
    original: Result<(), Error>,
    target: Result<(), Error>,
    switch: Result<(), Error>,
    work: ExecStatus,
    restore: Result<(), Error>,
)
    ensures
        ({
            let stage = run_turns(Stage::AcquireOriginal, n, original, target, switch, work, restore);
            (stage is RunWork || stage is Restore) ==> original is Ok && target is Ok && switch is Ok
        }),
        original is Ok && target is Ok && switch is Ok ==> run_turns(
            Stage::AcquireOriginal,
            4,
            original,
            target,
            switch,
            work,
            restore,
        ) == Stage::Restore(work),
{
    lemma_consistent_kept(Stage::AcquireOriginal, n, original, target, switch, work, restore);
    reveal_with_fuel(run_turns, 5);
}

impl Stage {
    /// A run starts by acquiring the calling thread's own namespace.
    pub fn start() -> (r: Stage)
        ensures
            r == Stage::AcquireOriginal,
    {
        Stage::AcquireOriginal
    }

    /// What the driver does in this stage.
    pub fn action(&self) -> (r: Action)
        ensures
            r == action_of(*self),
    {
        match self {
            Stage::AcquireOriginal => Action::AcquireCurrent,
            Stage::AcquireTarget => Action::AcquireTarget,
            Stage::SwitchIn => Action::InstallTarget,
            Stage::RunWork => Action::RunWork,
            Stage::Restore(_) => Action::InstallOriginal,
            Stage::Finished(status) => Action::Report(*status),
        }
    }

    /// Takes the outcome of the acquisition or install that [`Stage::action`] asked for.
    pub fn on_step(self, outcome: Result<(), Error>) -> (r: Stage)
        ensures
            r == after_step(self, outcome),
    {
        match outcome {
            Err(e) => match self {
                Stage::AcquireOriginal | Stage::AcquireTarget | Stage::SwitchIn | Stage::Restore(
                    _,
                ) => Stage::Finished(ExecStatus::Failed(e)),
                _ => self,
            },
            Ok(_) => match self {
                Stage::AcquireOriginal => Stage::AcquireTarget,
                Stage::AcquireTarget => Stage::SwitchIn,
                Stage::SwitchIn => Stage::RunWork,
                Stage::Restore(work) => Stage::Finished(work),
                _ => self,
            },
        }
    }

    /// Takes what the work reported.
    pub fn on_work(self, status: ExecStatus) -> (r: Stage)
        ensures
            r == after_work(self, status),
    {
        match self {
            Stage::RunWork => Stage::Restore(status),
            _ => self,
        }
    }
}

} // verus!
