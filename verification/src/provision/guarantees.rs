//! What holds of every provisioning run, proved over the model of the
//! state machine.

use crate::error::ErrorView;
use crate::provision::{
    initial_run, nominal_percent, run_wf, stage_of, step_spec, working, ActionView, EventView,
    OutcomeView, Phase, ProgressNotice, RunView, Stage,
};
use crate::backend::answers;
use crate::disk::RequestView;
use vstd::prelude::*;

verus! {

/// The actions that change the device or the host filesystem on the way to
/// a provisioned device. Cleanup is not among them.
pub open spec fn touches_device(action: ActionView) -> bool {
    match action {
        ActionView::CreatePartitions { .. } => true,
        ActionView::FormatPartition { .. } => true,
        ActionView::CreateMountDir { .. } => true,
        ActionView::MountPartition { .. } => true,
        ActionView::ExtractIso { .. } => true,
        ActionView::InstallBootloader { .. } => true,
        _ => false,
    }
}

/// How far a run has come, as a number that every step increases.
pub open spec fn rank(phase: Phase) -> nat {
    match phase {
        Phase::Start => 0,
        Phase::IsoValidation => 1,
        Phase::DeviceVerification => 2,
        Phase::Partitioning => 3,
        Phase::Formatting => 4,
        Phase::MountDir => 5,
        Phase::Mounting => 6,
        Phase::Copying => 7,
        Phase::Bootloader => 8,
        Phase::Unmounting => 9,
        Phase::DirRemoval => 10,
        Phase::Finished => 11,
    }
}

/// The actions that a run asks for, one for each input, when it is fed the
/// inputs in order. An input is a report of the backend and the value of the
/// cancellation flag when the report came.
pub open spec fn actions_of(run: RunView, inputs: Seq<(EventView, bool)>) -> Seq<ActionView>
    decreases inputs.len(),
{
    if inputs.len() == 0 {
        Seq::empty()
    } else {
        let step = step_spec(run, inputs[0].0, inputs[0].1);
        seq![step.action] + actions_of(step.run, inputs.drop_first())
    }
}

/// The run after it has been fed the inputs in order.
pub open spec fn run_after(run: RunView, inputs: Seq<(EventView, bool)>) -> RunView
    decreases inputs.len(),
{
    if inputs.len() == 0 {
        run
    } else {
        run_after(step_spec(run, inputs[0].0, inputs[0].1).run, inputs.drop_first())
    }
}

/// The kind of event that a run waits for in a phase.
pub open spec fn expects(phase: Phase, event: EventView) -> bool {
    match phase {
        Phase::Start => event is Start,
        Phase::IsoValidation => event is Flag,
        Phase::DeviceVerification => event is Flag,
        Phase::Mounting => event is Mounted,
        Phase::Finished => false,
        _ => event is Done,
    }
}

/// A run and a backend understand each other: whatever action a run asks
/// for, an event of the kind that answers the action is of the kind that
/// the run then waits for. So a backend that answers every action in kind
/// never brings a run to fail over an event that it did not expect.
pub proof fn lemma_answers_are_expected(
    run: RunView,
    event: EventView,
    cancelled: bool,
    answer: EventView,
)
    requires
        run_wf(run),
        answers(step_spec(run, event, cancelled).action, answer),
    ensures
        expects(step_spec(run, event, cancelled).run.phase, answer),
{
}

/// An event of the kind that a run waits for is taken for what it says: the
/// run fails over it only if it reports a failure.
pub proof fn lemma_expected_success_is_not_a_failure(run: RunView, event: EventView)
    requires
        run_wf(run),
        working(run.phase),
        expects(run.phase, event),
        event == EventView::Start || event == EventView::Flag(Ok(true)) || event
            == EventView::Done(Ok(())) || (event matches EventView::Mounted(Ok(_))),
        run.phase == Phase::Start ==> run.source_path.len() > 0 && run.target_device.len() > 0,
    ensures
        !(step_spec(run, event, false).action is Finish),
        step_spec(run, event, false).run.failure is None,
{
}

/// The run before its first step is well formed.
pub proof fn lemma_initial_run_well_formed(
    source_path: Seq<char>,
    target_device: Seq<char>,
    main_partition: Seq<char>,
    request: RequestView,
    process_id: u32,
)
    ensures
        run_wf(initial_run(source_path, target_device, main_partition, request, process_id)),
{
}

/// Every step leads from a well-formed run to a well-formed run.
pub proof fn lemma_step_keeps_well_formed(run: RunView, event: EventView, cancelled: bool)
    requires
        run_wf(run),
    ensures
        run_wf(step_spec(run, event, cancelled).run),
{
}

/// Within a run the reported percentage never goes back: the reports of a
/// step are in non-decreasing order, none is below the last report of the
/// steps before, none is above one hundred, and the run remembers the last.
pub proof fn lemma_percent_never_regresses(run: RunView, event: EventView, cancelled: bool)
    requires
        run_wf(run),
    ensures
        ({
            let step = step_spec(run, event, cancelled);
            &&& forall|i: int|
                0 <= i < step.notices.len() ==> run.percent <= (#[trigger] step.notices[i]).percent
                    <= 100
            &&& forall|i: int, j: int|
                0 <= i <= j < step.notices.len() ==> step.notices[i].percent
                    <= step.notices[j].percent
            &&& step.notices.len() > 0 ==> step.run.percent == step.notices.last().percent
            &&& step.notices.len() == 0 ==> step.run.percent == run.percent
        }),
{
}

/// The percentages that a run reports, in the order of the reports, when it
/// is fed the inputs in order.
pub open spec fn percents_of(run: RunView, inputs: Seq<(EventView, bool)>) -> Seq<u8>
    decreases inputs.len(),
{
    if inputs.len() == 0 {
        Seq::empty()
    } else {
        let step = step_spec(run, inputs[0].0, inputs[0].1);
        step.notices.map_values(|n: ProgressNotice| n.percent) + percents_of(
            step.run,
            inputs.drop_first(),
        )
    }
}

/// From the first report of a run to its last the percentage never goes
/// back, whatever the backend reports and whenever the flag is set, and it
/// never exceeds one hundred.
pub proof fn lemma_percent_never_regresses_in_a_run(run: RunView, inputs: Seq<(EventView, bool)>)
    requires
        run_wf(run),
    ensures
        forall|i: int|
            0 <= i < percents_of(run, inputs).len() ==> run.percent <= #[trigger] percents_of(
                run,
                inputs,
            )[i] <= 100,
        forall|i: int, j: int|
            0 <= i <= j < percents_of(run, inputs).len() ==> percents_of(run, inputs)[i]
                <= percents_of(run, inputs)[j],
    decreases inputs.len(),
{
    if inputs.len() > 0 {
        let step = step_spec(run, inputs[0].0, inputs[0].1);
        let rest = inputs.drop_first();
        lemma_percent_never_regresses(run, inputs[0].0, inputs[0].1);
        lemma_step_keeps_well_formed(run, inputs[0].0, inputs[0].1);
        lemma_percent_never_regresses_in_a_run(step.run, rest);
        let head = step.notices.map_values(|n: ProgressNotice| n.percent);
        let tail = percents_of(step.run, rest);
        let all = percents_of(run, inputs);
        assert(all =~= head + tail);
        assert forall|i: int| 0 <= i < head.len() implies run.percent <= #[trigger] head[i]
            <= step.run.percent by {
            assert(head[i] == step.notices[i].percent);
            assert(step.notices[i].percent <= step.notices[step.notices.len() - 1].percent);
        }
        assert forall|i: int| 0 <= i < all.len() implies run.percent <= #[trigger] all[i]
            <= 100 by {
            if i < head.len() {
                assert(all[i] == head[i]);
            } else {
                assert(all[i] == tail[i - head.len()]);
            }
        }
        assert forall|i: int, j: int| 0 <= i <= j < all.len() implies all[i] <= all[j] by {
            if j < head.len() {
                assert(all[i] == head[i] && all[j] == head[j]);
                assert(head[i] == step.notices[i].percent);
                assert(head[j] == step.notices[j].percent);
            } else if i < head.len() {
                assert(all[i] == head[i]);
                assert(all[j] == tail[j - head.len()]);
            } else {
                assert(all[i] == tail[i - head.len()]);
                assert(all[j] == tail[j - head.len()]);
            }
        }
    }
}

/// While nothing has gone wrong, a stage is reported with its own
/// percentage, and these grow from stage to stage.
pub proof fn lemma_stage_percentages_grow()
    ensures
        nominal_percent(Stage::Validating) <= nominal_percent(Stage::Planning),
        nominal_percent(Stage::Planning) <= nominal_percent(Stage::Partitioning),
        nominal_percent(Stage::Partitioning) <= nominal_percent(Stage::Formatting),
        nominal_percent(Stage::Formatting) <= nominal_percent(Stage::Mounting),
        nominal_percent(Stage::Mounting) <= nominal_percent(Stage::Copying),
        nominal_percent(Stage::Copying) <= nominal_percent(Stage::Bootloader),
        nominal_percent(Stage::Bootloader) <= nominal_percent(Stage::Cleanup),
        nominal_percent(Stage::Cleanup) <= nominal_percent(Stage::Succeeded),
{
}

/// Every step of a run that is not over brings it nearer to its end, and a
/// run that is over stays as it is and asks for nothing.
pub proof fn lemma_every_step_advances(run: RunView, event: EventView, cancelled: bool)
    requires
        run_wf(run),
    ensures
        run.phase != Phase::Finished ==> rank(step_spec(run, event, cancelled).run.phase) > rank(
            run.phase,
        ),
        run.phase == Phase::Finished ==> step_spec(run, event, cancelled).run == run
            && step_spec(run, event, cancelled).action == ActionView::Idle,
        step_spec(run, event, cancelled).action is Finish <==> run.phase != Phase::Finished
            && step_spec(run, event, cancelled).run.phase == Phase::Finished,
{
}

/// A step that finds the cancellation flag set never asks for anything that
/// touches the device.
pub proof fn lemma_cancelled_step_touches_nothing(run: RunView, event: EventView)
    requires
        run_wf(run),
    ensures
        !touches_device(step_spec(run, event, true).action) || (run.phase == Phase::IsoValidation
            || run.phase == Phase::MountDir),
        !(step_spec(run, event, true).action is CreatePartitions),
{
}

/// A run that finds the flag set when it is about to plan and partition ends
/// as cancelled there and then: nothing is mounted, so there is nothing to
/// clean up, and the partition table is never touched.
pub proof fn lemma_cancelled_before_partitioning(run: RunView)
    requires
        run_wf(run),
        run.phase == Phase::DeviceVerification,
    ensures
        step_spec(run, EventView::Flag(Ok(true)), true).action == (ActionView::Finish {
            outcome: OutcomeView::Cancelled,
            cleanup_error: None,
        }),
        step_spec(run, EventView::Flag(Ok(true)), true).run.phase == Phase::Finished,
{
}

/// A run that finds the flag set at its first step ends as cancelled without
/// asking anything of the backend.
pub proof fn lemma_cancelled_at_start(run: RunView)
    requires
        run_wf(run),
        run.phase == Phase::Start,
    ensures
        step_spec(run, EventView::Start, true).action == (ActionView::Finish {
            outcome: OutcomeView::Cancelled,
            cleanup_error: None,
        }),
{
}

/// A run that finds the flag set while its request is validated, and whose
/// image and target are then found to be good, asks for nothing but the
/// rest of validation and ends as cancelled where planning would begin.
pub proof fn lemma_cancelled_during_validation(run: RunView)
    requires
        run_wf(run),
        run.phase == Phase::IsoValidation,
    ensures
        ({
            let first = step_spec(run, EventView::Flag(Ok(true)), true);
            let second = step_spec(first.run, EventView::Flag(Ok(true)), true);
            &&& first.action == (ActionView::VerifyDevice { device: run.target_device })
            &&& second.action == (ActionView::Finish {
                outcome: OutcomeView::Cancelled,
                cleanup_error: None,
            })
        }),
{
}

/// Every run comes to its end: a run that has been fed as many inputs as
/// its phase is steps away from the end, whatever they were, is over.
pub proof fn lemma_every_run_finishes(run: RunView, inputs: Seq<(EventView, bool)>)
    requires
        run_wf(run),
        inputs.len() + rank(run.phase) >= rank(Phase::Finished),
    ensures
        run_after(run, inputs).phase == Phase::Finished,
        run_wf(run_after(run, inputs)),
    decreases inputs.len(),
{
    if inputs.len() > 0 {
        let step = step_spec(run, inputs[0].0, inputs[0].1);
        lemma_every_step_advances(run, inputs[0].0, inputs[0].1);
        lemma_step_keeps_well_formed(run, inputs[0].0, inputs[0].1);
        lemma_every_run_finishes(step.run, inputs.drop_first());
    }
}

/// Whatever the backend reports, a run in which the flag is set from before
/// partitioning onwards never asks for the partition table to be replaced,
/// nor for anything else that touches the device, and it does not succeed:
/// it is over in `Cancelled` or in a failure of validation once it has taken
/// the steps that were left to it.
pub proof fn lemma_cancellation_before_partitioning(run: RunView, inputs: Seq<(EventView, bool)>)
    requires
        run_wf(run),
        rank(run.phase) <= rank(Phase::DeviceVerification),
        forall|i: int| 0 <= i < inputs.len() ==> (#[trigger] inputs[i]).1,
    ensures
        forall|i: int|
            0 <= i < actions_of(run, inputs).len() ==> {
                let action = #[trigger] actions_of(run, inputs)[i];
                &&& !touches_device(action)
                &&& action matches ActionView::Finish { outcome, cleanup_error } ==> {
                    &&& cleanup_error is None
                    &&& outcome == OutcomeView::Cancelled || (outcome matches OutcomeView::Failed {
                        stage,
                        ..
                    } && stage == Stage::Validating)
                }
            },
        actions_of(run, inputs).len() == inputs.len(),
        rank(run_after(run, inputs).phase) <= rank(Phase::DeviceVerification) || run_after(
            run,
            inputs,
        ).phase == Phase::Finished,
    decreases inputs.len(),
{
    if inputs.len() > 0 {
        let step = step_spec(run, inputs[0].0, inputs[0].1);
        let rest = inputs.drop_first();
        assert(inputs[0].1);
        assert forall|i: int| 0 <= i < rest.len() implies (#[trigger] rest[i]).1 by {
            assert(rest[i] == inputs[i + 1]);
        }
        if step.run.phase == Phase::Finished {
            lemma_finished_run_stays_idle(step.run, rest);
        } else {
            lemma_cancellation_before_partitioning(step.run, rest);
        }
        let all = actions_of(run, inputs);
        let tail = actions_of(step.run, rest);
        assert(all =~= seq![step.action] + tail);
        assert forall|i: int| 0 <= i < all.len() implies {
            let action = #[trigger] all[i];
            &&& !touches_device(action)
            &&& action matches ActionView::Finish { outcome, cleanup_error } ==> {
                &&& cleanup_error is None
                &&& outcome == OutcomeView::Cancelled || (outcome matches OutcomeView::Failed {
                    stage,
                    ..
                } && stage == Stage::Validating)
            }
        } by {
            if i > 0 {
                assert(all[i] == tail[i - 1]);
            }
        }
    }
}

/// A run that is over asks for nothing more, whatever it is fed.
pub proof fn lemma_finished_run_stays_idle(run: RunView, inputs: Seq<(EventView, bool)>)
    requires
        run.phase == Phase::Finished,
    ensures
        actions_of(run, inputs).len() == inputs.len(),
        forall|i: int|
            0 <= i < inputs.len() ==> #[trigger] actions_of(run, inputs)[i] == ActionView::Idle,
        run_after(run, inputs) == run,
    decreases inputs.len(),
{
    if inputs.len() > 0 {
        let rest = inputs.drop_first();
        lemma_finished_run_stays_idle(run, rest);
        let all = actions_of(run, inputs);
        let tail = actions_of(run, rest);
        assert(all =~= seq![ActionView::Idle] + tail);
        assert forall|i: int| 0 <= i < inputs.len() implies #[trigger] all[i]
            == ActionView::Idle by {
            if i > 0 {
                assert(all[i] == tail[i - 1]);
            }
        }
    }
}

/// Nothing that touches the device is asked for before validation has
/// passed in full: the image is valid and the target is a device.
pub proof fn lemma_nothing_destructive_before_validation(
    run: RunView,
    event: EventView,
    cancelled: bool,
)
    requires
        run_wf(run),
        rank(run.phase) <= rank(Phase::DeviceVerification),
    ensures
        touches_device(step_spec(run, event, cancelled).action) ==> run.phase
            == Phase::DeviceVerification && event == EventView::Flag(Ok(true)) && !cancelled,
        run.phase == Phase::IsoValidation && event != EventView::Flag(Ok(true)) ==> step_spec(
            run,
            event,
            cancelled,
        ).action is Finish,
{
}

/// A request without a source path fails at the first step with a
/// validation error, and nothing is asked of the backend.
pub proof fn lemma_empty_source_fails_at_once(run: RunView)
    requires
        run_wf(run),
        run.phase == Phase::Start,
        run.source_path.len() == 0,
    ensures
        step_spec(run, EventView::Start, false).action == (ActionView::Finish {
            outcome: OutcomeView::Failed {
                error: ErrorView::Validation("Source path cannot be empty"@),
                stage: Stage::Validating,
            },
            cleanup_error: None,
        }),
{
}

/// A request without a target device fails at the first step with a
/// validation error, and nothing is asked of the backend.
pub proof fn lemma_empty_target_fails_at_once(run: RunView)
    requires
        run_wf(run),
        run.phase == Phase::Start,
        run.source_path.len() > 0,
        run.target_device.len() == 0,
    ensures
        step_spec(run, EventView::Start, false).action == (ActionView::Finish {
            outcome: OutcomeView::Failed {
                error: ErrorView::Validation("Target device cannot be empty"@),
                stage: Stage::Validating,
            },
            cleanup_error: None,
        }),
{
}

/// When formatting fails nothing has been mounted and no mount directory
/// exists, so cleanup has nothing to do: the run ends at once with the
/// failure as it was reported, and cleanup reports no error.
pub proof fn lemma_formatting_failure_needs_no_cleanup(
    run: RunView,
    error: ErrorView,
    cancelled: bool,
)
    requires
        run_wf(run),
        run.phase == Phase::Formatting,
    ensures
        step_spec(run, EventView::Done(Err(error)), cancelled).action == (ActionView::Finish {
            outcome: OutcomeView::Failed { error, stage: Stage::Formatting },
            cleanup_error: None,
        }),
{
}

/// A failure of any working stage is the failure that the run ends with, in
/// the stage where it happened; it leads straight into cleanup, which
/// unmounts what is mounted, else removes the mount directory if it exists,
/// else is over at once.
pub proof fn lemma_failure_enters_cleanup(run: RunView, error: ErrorView, cancelled: bool)
    requires
        run_wf(run),
        working(run.phase),
        run.phase != Phase::Start,
    ensures
        ({
            let event = match run.phase {
                Phase::IsoValidation => EventView::Flag(Err(error)),
                Phase::DeviceVerification => EventView::Flag(Err(error)),
                Phase::Mounting => EventView::Mounted(Err(error)),
                _ => EventView::Done(Err(error)),
            };
            let step = step_spec(run, event, cancelled);
            let failed = OutcomeView::Failed { error, stage: stage_of(run.phase) };
            match run.mounted_at {
                Some(mountpoint) => step.action == (ActionView::UnmountPartition { mountpoint })
                    && step.run.failure == Some(failed),
                None => if run.dir_created {
                    step.action == (ActionView::RemoveMountDir { path: run.mount_dir })
                        && step.run.failure == Some(failed)
                } else {
                    step.action == (ActionView::Finish { outcome: failed, cleanup_error: None })
                },
            }
        }),
{
}

/// Once something is mounted, the run does not end before it has asked for
/// the unmount: after the boot loader, whatever was reported, and after
/// copying unless the run goes on to the boot loader.
pub proof fn lemma_mounted_partition_is_unmounted(run: RunView, event: EventView, cancelled: bool)
    requires
        run_wf(run),
        run.phase == Phase::Copying || run.phase == Phase::Bootloader,
    ensures
        ({
            let step = step_spec(run, event, cancelled);
            let unmount = ActionView::UnmountPartition { mountpoint: run.mounted_at->0 };
            &&& run.mounted_at is Some
            &&& run.phase == Phase::Bootloader ==> step.action == unmount
            &&& run.phase == Phase::Copying ==> step.action == unmount
                || step.action is InstallBootloader
        }),
{
}

/// After the unmount the mount directory is removed, whatever the unmount
/// reported.
pub proof fn lemma_mount_dir_is_removed(run: RunView, event: EventView, cancelled: bool)
    requires
        run_wf(run),
        run.phase == Phase::Unmounting,
        run.dir_created,
    ensures
        step_spec(run, event, cancelled).action == (ActionView::RemoveMountDir {
            path: run.mount_dir,
        }),
{
}

/// The first failure of a run is the one it ends with: what cleanup reports
/// afterwards is handed out beside it and never in its place.
pub proof fn lemma_first_failure_stands(run: RunView, event: EventView, cancelled: bool)
    requires
        run_wf(run),
        run.phase == Phase::Unmounting || run.phase == Phase::DirRemoval,
        run.failure is Some,
    ensures
        ({
            let step = step_spec(run, event, cancelled);
            &&& step.run.phase != Phase::Finished ==> step.run.failure == run.failure
            &&& step.action matches ActionView::Finish { outcome, .. } ==> Some(outcome)
                == run.failure
        }),
{
}

/// A run in which nothing failed before cleanup succeeds exactly if cleanup
/// reports no failure, and then it names the device; else it ends with the
/// first failure of cleanup.
pub proof fn lemma_outcome_without_earlier_failure(run: RunView, result: Result<(), ErrorView>)
    requires
        run_wf(run),
        run.phase == Phase::DirRemoval,
        run.failure is None,
    ensures
        ({
            let step = step_spec(run, EventView::Done(result), false);
            let first = match run.cleanup_error {
                Some(error) => Some(error),
                None => match result {
                    Ok(_) => None,
                    Err(error) => Some(error),
                },
            };
            step.action == (ActionView::Finish {
                outcome: match first {
                    Some(error) => OutcomeView::Failed { error, stage: Stage::Cleanup },
                    None => OutcomeView::Succeeded(
                        "Successfully created bootable USB on "@ + run.target_device,
                    ),
                },
                cleanup_error: first,
            })
        }),
{
}

} // verus!
