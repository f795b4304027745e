//! The provisioning state machine.
//!
//! A run turns a request into a provisioned device in eight stages:
//! validating, planning, partitioning, formatting, mounting, copying,
//! boot-loader installation and cleanup. The machine decides; its caller
//! performs each [`Action`] on the platform backend and hands the result back
//! as an [`Event`], together with the value of the cancellation flag at that
//! moment. Nothing here touches a device.

use crate::disk::{
    layout_view, plan, CreateConfig, DiskManager, PartitionConfig, PartitionView, RequestView,
};
use crate::error::{ErrorView, WowUsbError};
use crate::text::{decimal, decimal_string};
use vstd::prelude::*;

pub mod guarantees;

verus! {

/// The states of a run: the eight stages in their order, then the three
/// states in which a run ends.
#[derive(Debug, Clone, Copy, PartialEq, Eq, Structural)]
pub enum Stage {
    Validating,
    Planning,
    Partitioning,
    Formatting,
    Mounting,
    Copying,
    Bootloader,
    Cleanup,
    Succeeded,
    Failed,
    Cancelled,
}

/// What a run is waiting for.
#[derive(Debug, Clone, Copy, PartialEq, Eq, Structural)]
pub enum Phase {
    /// Nothing has been asked of the backend yet.
    Start,
    IsoValidation,
    DeviceVerification,
    Partitioning,
    Formatting,
    /// The temporary mount directory is being created.
    MountDir,
    Mounting,
    Copying,
    Bootloader,
    Unmounting,
    /// The temporary mount directory is being removed.
    DirRemoval,
    Finished,
}

/// How a run ended.
#[derive(Debug, PartialEq, Eq)]
pub enum Outcome {
    Succeeded(String),
    /// The first failure of the run, as it was reported, and the stage in
    /// which it happened.
    Failed { error: WowUsbError, stage: Stage },
    Cancelled,
}

pub enum OutcomeView {
    Succeeded(Seq<char>),
    Failed { error: ErrorView, stage: Stage },
    Cancelled,
}

impl Outcome {
    /// The outcome as the result that the caller of a run gets: the message
    /// of success, or the error that ended the run.
    pub fn into_result(self) -> (r: Result<String, WowUsbError>)
        ensures
            match self@ {
                OutcomeView::Succeeded(message) => r matches Ok(text) && text@ == message,
                OutcomeView::Failed { error, .. } => r matches Err(e) && e@ == error,
                OutcomeView::Cancelled => r matches Err(e) && e@ == ErrorView::Cancelled,
            },
    {
        match self {
            Outcome::Succeeded(message) => Ok(message),
            Outcome::Failed { error, stage: _ } => Err(error),
            Outcome::Cancelled => Err(WowUsbError::Cancelled),
        }
    }
}

impl View for Outcome {
    type V = OutcomeView;

    open spec fn view(&self) -> OutcomeView {
        match self {
            Outcome::Succeeded(message) => OutcomeView::Succeeded(message@),
            Outcome::Failed { error, stage } => OutcomeView::Failed { error: error@, stage: *stage },
            Outcome::Cancelled => OutcomeView::Cancelled,
        }
    }
}

/// What the backend reported about the action that the run asked for last.
#[derive(Debug, PartialEq, Eq)]
pub enum Event {
    /// Opens a run; no action precedes it.
    Start,
    /// The answer to a validation or verification.
    Flag(Result<bool, WowUsbError>),
    /// The result of an operation that returns nothing.
    Done(Result<(), WowUsbError>),
    /// The result of mounting: the path at which the partition is mounted.
    Mounted(Result<String, WowUsbError>),
}

pub enum EventView {
    Start,
    Flag(Result<bool, ErrorView>),
    Done(Result<(), ErrorView>),
    Mounted(Result<Seq<char>, ErrorView>),
}

impl View for Event {
    type V = EventView;

    open spec fn view(&self) -> EventView {
        match self {
            Event::Start => EventView::Start,
            Event::Flag(Ok(flag)) => EventView::Flag(Ok(*flag)),
            Event::Flag(Err(error)) => EventView::Flag(Err(error@)),
            Event::Done(Ok(_)) => EventView::Done(Ok(())),
            Event::Done(Err(error)) => EventView::Done(Err(error@)),
            Event::Mounted(Ok(path)) => EventView::Mounted(Ok(path@)),
            Event::Mounted(Err(error)) => EventView::Mounted(Err(error@)),
        }
    }
}

/// What the caller is to do next.
#[derive(Debug, PartialEq, Eq)]
pub enum Action {
    ValidateIso { iso_path: String },
    VerifyDevice { device: String },
    CreatePartitions { device: String, layout: Vec<PartitionConfig> },
    FormatPartition { partition: String, filesystem: String, label: String },
    CreateMountDir { path: String },
    MountPartition { partition: String, mountpoint: String },
    ExtractIso { iso_path: String, target_path: String },
    InstallBootloader { device: String, bootloader_type: String },
    UnmountPartition { mountpoint: String },
    RemoveMountDir { path: String },
    /// The run is over. A failure of cleanup is reported beside the outcome
    /// and never in place of an earlier failure.
    Finish { outcome: Outcome, cleanup_error: Option<WowUsbError> },
    /// The run was over before this step.
    Idle,
}

pub enum ActionView {
    ValidateIso { iso_path: Seq<char> },
    VerifyDevice { device: Seq<char> },
    CreatePartitions { device: Seq<char>, layout: Seq<PartitionView> },
    FormatPartition { partition: Seq<char>, filesystem: Seq<char>, label: Seq<char> },
    CreateMountDir { path: Seq<char> },
    MountPartition { partition: Seq<char>, mountpoint: Seq<char> },
    ExtractIso { iso_path: Seq<char>, target_path: Seq<char> },
    InstallBootloader { device: Seq<char>, bootloader_type: Seq<char> },
    UnmountPartition { mountpoint: Seq<char> },
    RemoveMountDir { path: Seq<char> },
    Finish { outcome: OutcomeView, cleanup_error: Option<ErrorView> },
    Idle,
}

/// The view of an optional error.
pub open spec fn opt_error_view(error: Option<WowUsbError>) -> Option<ErrorView> {
    match error {
        Some(error) => Some(error@),
        None => None,
    }
}

impl View for Action {
    type V = ActionView;

    open spec fn view(&self) -> ActionView {
        match self {
            Action::ValidateIso { iso_path } => ActionView::ValidateIso { iso_path: iso_path@ },
            Action::VerifyDevice { device } => ActionView::VerifyDevice { device: device@ },
            Action::CreatePartitions { device, layout } => ActionView::CreatePartitions {
                device: device@,
                layout: layout_view(layout@),
            },
            Action::FormatPartition { partition, filesystem, label } => ActionView::FormatPartition {
                partition: partition@,
                filesystem: filesystem@,
                label: label@,
            },
            Action::CreateMountDir { path } => ActionView::CreateMountDir { path: path@ },
            Action::MountPartition { partition, mountpoint } => ActionView::MountPartition {
                partition: partition@,
                mountpoint: mountpoint@,
            },
            Action::ExtractIso { iso_path, target_path } => ActionView::ExtractIso {
                iso_path: iso_path@,
                target_path: target_path@,
            },
            Action::InstallBootloader { device, bootloader_type } => ActionView::InstallBootloader {
                device: device@,
                bootloader_type: bootloader_type@,
            },
            Action::UnmountPartition { mountpoint } => ActionView::UnmountPartition {
                mountpoint: mountpoint@,
            },
            Action::RemoveMountDir { path } => ActionView::RemoveMountDir { path: path@ },
            Action::Finish { outcome, cleanup_error } => ActionView::Finish {
                outcome: outcome@,
                cleanup_error: opt_error_view(*cleanup_error),
            },
            Action::Idle => ActionView::Idle,
        }
    }
}

/// One progress report: the state that the run has entered and how far the
/// run has come, in percent.
#[derive(Debug, Clone, Copy, PartialEq, Eq, Structural)]
pub struct ProgressNotice {
    pub percent: u8,
    pub stage: Stage,
}

/// What one step of a run gives: the next action, and the progress reports
/// to publish before performing it, in order.
#[derive(Debug, PartialEq, Eq)]
pub struct Step {
    pub action: Action,
    pub notices: Vec<ProgressNotice>,
}

/// The model of a run.
pub struct RunView {
    pub source_path: Seq<char>,
    pub target_device: Seq<char>,
    pub main_partition: Seq<char>,
    pub request: RequestView,
    pub mount_dir: Seq<char>,
    pub phase: Phase,
    pub mounted_at: Option<Seq<char>>,
    pub dir_created: bool,
    pub failure: Option<OutcomeView>,
    pub cleanup_error: Option<ErrorView>,
    pub percent: u8,
}

/// The model of a step: the run after it, the action and the reports.
pub struct StepView {
    pub run: RunView,
    pub action: ActionView,
    pub notices: Seq<ProgressNotice>,
}

/// The percentage reported when a stage is entered with nothing having gone
/// wrong.
pub open spec fn nominal_percent(stage: Stage) -> u8 {
    match stage {
        Stage::Validating => 0,
        Stage::Planning => 10,
        Stage::Partitioning => 20,
        Stage::Formatting => 40,
        Stage::Mounting => 55,
        Stage::Copying => 60,
        Stage::Bootloader => 85,
        Stage::Cleanup => 95,
        Stage::Succeeded => 100,
        Stage::Failed => 0,
        Stage::Cancelled => 0,
    }
}

/// The stage in which a run is while it waits in `phase`.
pub open spec fn stage_of(phase: Phase) -> Stage {
    match phase {
        Phase::Start => Stage::Validating,
        Phase::IsoValidation => Stage::Validating,
        Phase::DeviceVerification => Stage::Validating,
        Phase::Partitioning => Stage::Partitioning,
        Phase::Formatting => Stage::Formatting,
        Phase::MountDir => Stage::Mounting,
        Phase::Mounting => Stage::Mounting,
        Phase::Copying => Stage::Copying,
        Phase::Bootloader => Stage::Bootloader,
        Phase::Unmounting => Stage::Cleanup,
        Phase::DirRemoval => Stage::Cleanup,
        Phase::Finished => Stage::Cleanup,
    }
}

/// The phases in which a run still works towards success.
pub open spec fn working(phase: Phase) -> bool {
    phase != Phase::Unmounting && phase != Phase::DirRemoval && phase != Phase::Finished
}

/// The report for entering `stage` when the last report said `percent`. Once
/// a run has failed or was cancelled its percentage stays where it was.
pub open spec fn notice(percent: u8, stage: Stage, plateau: bool) -> ProgressNotice {
    ProgressNotice {
        percent: if plateau || nominal_percent(stage) < percent {
            percent
        } else {
            nominal_percent(stage)
        },
        stage,
    }
}

pub open spec fn terminal_stage(outcome: OutcomeView) -> Stage {
    match outcome {
        OutcomeView::Succeeded(_) => Stage::Succeeded,
        OutcomeView::Failed { .. } => Stage::Failed,
        OutcomeView::Cancelled => Stage::Cancelled,
    }
}

/// The message of a run that succeeded on `device`.
pub open spec fn success_message(device: Seq<char>) -> Seq<char> {
    "Successfully created bootable USB on "@ + device
}

/// The temporary mount directory of the run of process `process_id`.
pub open spec fn mount_dir_for(process_id: u32) -> Seq<char> {
    "/tmp/wowusb_mount_"@ + decimal(process_id as nat)
}

/// How a run ends, given its first failure (or cancellation) and the first
/// failure of cleanup: an earlier failure stands; without one, a failure of
/// cleanup fails the run; without either the run has succeeded.
pub open spec fn outcome_of(
    device: Seq<char>,
    verdict: Option<OutcomeView>,
    cleanup_error: Option<ErrorView>,
) -> OutcomeView {
    match verdict {
        Some(outcome) => outcome,
        None => match cleanup_error {
            Some(error) => OutcomeView::Failed { error, stage: Stage::Cleanup },
            None => OutcomeView::Succeeded(success_message(device)),
        },
    }
}

/// Ends the run.
pub open spec fn finish(
    run: RunView,
    verdict: Option<OutcomeView>,
    cleanup_error: Option<ErrorView>,
    percent: u8,
    notices: Seq<ProgressNotice>,
) -> StepView {
    let outcome = outcome_of(run.target_device, verdict, cleanup_error);
    let last = notice(percent, terminal_stage(outcome), !(outcome is Succeeded));
    StepView {
        run: RunView {
            phase: Phase::Finished,
            mounted_at: None,
            dir_created: false,
            failure: None,
            cleanup_error: None,
            percent: last.percent,
            ..run
        },
        action: ActionView::Finish { outcome, cleanup_error },
        notices: notices.push(last),
    }
}

/// Enters cleanup: unmounts what is mounted, else removes the mount
/// directory if it exists, else ends the run at once.
pub open spec fn conclude(
    run: RunView,
    verdict: Option<OutcomeView>,
    notices: Seq<ProgressNotice>,
) -> StepView {
    let entered = notice(run.percent, Stage::Cleanup, verdict is Some);
    let notices = notices.push(entered);
    match run.mounted_at {
        Some(mountpoint) => StepView {
            run: RunView {
                phase: Phase::Unmounting,
                failure: verdict,
                cleanup_error: None,
                percent: entered.percent,
                ..run
            },
            action: ActionView::UnmountPartition { mountpoint },
            notices,
        },
        None => if run.dir_created {
            StepView {
                run: RunView {
                    phase: Phase::DirRemoval,
                    failure: verdict,
                    cleanup_error: None,
                    percent: entered.percent,
                    ..run
                },
                action: ActionView::RemoveMountDir { path: run.mount_dir },
                notices,
            }
        } else {
            finish(run, verdict, None, entered.percent, notices)
        },
    }
}

/// Records the first failure of the run and enters cleanup.
pub open spec fn fail(run: RunView, error: ErrorView, notices: Seq<ProgressNotice>) -> StepView {
    conclude(run, Some(OutcomeView::Failed { error, stage: stage_of(run.phase) }), notices)
}

/// What becomes of an event that the current phase does not expect.
pub open spec fn unexpected_event() -> ErrorView {
    ErrorView::Configuration("Unexpected event for the current phase"@)
}

/// Enters `stage`, reports it, and asks for `action`; if the run was
/// cancelled, enters cleanup instead.
pub open spec fn advance(
    run: RunView,
    cancelled: bool,
    stage: Stage,
    phase: Phase,
    action: ActionView,
    notices: Seq<ProgressNotice>,
) -> StepView {
    if cancelled {
        conclude(run, Some(OutcomeView::Cancelled), notices)
    } else {
        let entered = notice(run.percent, stage, false);
        StepView {
            run: RunView { phase, percent: entered.percent, ..run },
            action,
            notices: notices.push(entered),
        }
    }
}

/// The first step: checks the flag, then the request.
pub open spec fn start(run: RunView, cancelled: bool) -> StepView {
    if cancelled {
        conclude(run, Some(OutcomeView::Cancelled), Seq::empty())
    } else {
        let entered = notice(run.percent, Stage::Validating, false);
        let run = RunView { percent: entered.percent, ..run };
        if run.source_path.len() == 0 {
            fail(run, ErrorView::Validation("Source path cannot be empty"@), seq![entered])
        } else if run.target_device.len() == 0 {
            fail(run, ErrorView::Validation("Target device cannot be empty"@), seq![entered])
        } else {
            StepView {
                run: RunView { phase: Phase::IsoValidation, ..run },
                action: ActionView::ValidateIso { iso_path: run.source_path },
                notices: seq![entered],
            }
        }
    }
}

/// Planning and the entry into partitioning, which follow each other with
/// nothing asked of the backend in between.
pub open spec fn plan_and_partition(run: RunView, cancelled: bool) -> StepView {
    if cancelled {
        conclude(run, Some(OutcomeView::Cancelled), Seq::empty())
    } else {
        let planning = notice(run.percent, Stage::Planning, false);
        let partitioning = notice(planning.percent, Stage::Partitioning, false);
        StepView {
            run: RunView { phase: Phase::Partitioning, percent: partitioning.percent, ..run },
            action: ActionView::CreatePartitions {
                device: run.target_device,
                layout: plan(run.request),
            },
            notices: seq![planning, partitioning],
        }
    }
}

/// The unmount has been tried: removes the mount directory if there is one,
/// else ends the run.
pub open spec fn after_unmount(run: RunView, result: Result<(), ErrorView>) -> StepView {
    let cleanup_error = match result {
        Ok(_) => None,
        Err(error) => Some(error),
    };
    if run.dir_created {
        StepView {
            run: RunView { phase: Phase::DirRemoval, mounted_at: None, cleanup_error, ..run },
            action: ActionView::RemoveMountDir { path: run.mount_dir },
            notices: Seq::empty(),
        }
    } else {
        finish(run, run.failure, cleanup_error, run.percent, Seq::empty())
    }
}

/// The removal of the mount directory has been tried: ends the run. The
/// first failure of cleanup is the one that is kept.
pub open spec fn after_dir_removal(run: RunView, result: Result<(), ErrorView>) -> StepView {
    let cleanup_error = match run.cleanup_error {
        Some(error) => Some(error),
        None => match result {
            Ok(_) => None,
            Err(error) => Some(error),
        },
    };
    finish(run, run.failure, cleanup_error, run.percent, Seq::empty())
}

/// The transition function of a run: from the run, the backend's report and
/// the cancellation flag to the next run, the next action and the progress
/// reports. The flag is read where a stage begins and nowhere else.
pub open spec fn step_spec(run: RunView, event: EventView, cancelled: bool) -> StepView {
    match run.phase {
        Phase::Start => match event {
            EventView::Start => start(run, cancelled),
            _ => fail(run, unexpected_event(), Seq::empty()),
        },
        Phase::IsoValidation => match event {
            EventView::Flag(Ok(valid)) => if valid {
                StepView {
                    run: RunView { phase: Phase::DeviceVerification, ..run },
                    action: ActionView::VerifyDevice { device: run.target_device },
                    notices: Seq::empty(),
                }
            } else {
                fail(run, ErrorView::Validation("Invalid or corrupted ISO file"@), Seq::empty())
            },
            EventView::Flag(Err(error)) => fail(run, error, Seq::empty()),
            _ => fail(run, unexpected_event(), Seq::empty()),
        },
        Phase::DeviceVerification => match event {
            EventView::Flag(Ok(valid)) => if valid {
                plan_and_partition(run, cancelled)
            } else {
                fail(run, ErrorView::Validation("Invalid target device"@), Seq::empty())
            },
            EventView::Flag(Err(error)) => fail(run, error, Seq::empty()),
            _ => fail(run, unexpected_event(), Seq::empty()),
        },
        Phase::Partitioning => match event {
            EventView::Done(Ok(_)) => advance(
                run,
                cancelled,
                Stage::Formatting,
                Phase::Formatting,
                ActionView::FormatPartition {
                    partition: run.main_partition,
                    filesystem: run.request.filesystem,
                    label: run.request.drive_label,
                },
                Seq::empty(),
            ),
            EventView::Done(Err(error)) => fail(run, error, Seq::empty()),
            _ => fail(run, unexpected_event(), Seq::empty()),
        },
        Phase::Formatting => match event {
            EventView::Done(Ok(_)) => advance(
                run,
                cancelled,
                Stage::Mounting,
                Phase::MountDir,
                ActionView::CreateMountDir { path: run.mount_dir },
                Seq::empty(),
            ),
            EventView::Done(Err(error)) => fail(run, error, Seq::empty()),
            _ => fail(run, unexpected_event(), Seq::empty()),
        },
        Phase::MountDir => match event {
            EventView::Done(Ok(_)) => StepView {
                run: RunView { phase: Phase::Mounting, dir_created: true, ..run },
                action: ActionView::MountPartition {
                    partition: run.main_partition,
                    mountpoint: run.mount_dir,
                },
                notices: Seq::empty(),
            },
            EventView::Done(Err(error)) => fail(run, error, Seq::empty()),
            _ => fail(run, unexpected_event(), Seq::empty()),
        },
        Phase::Mounting => match event {
            EventView::Mounted(Ok(path)) => advance(
                RunView { mounted_at: Some(path), ..run },
                cancelled,
                Stage::Copying,
                Phase::Copying,
                ActionView::ExtractIso { iso_path: run.source_path, target_path: path },
                Seq::empty(),
            ),
            EventView::Mounted(Err(error)) => fail(run, error, Seq::empty()),
            _ => fail(run, unexpected_event(), Seq::empty()),
        },
        Phase::Copying => match event {
            EventView::Done(Ok(_)) => advance(
                run,
                cancelled,
                Stage::Bootloader,
                Phase::Bootloader,
                ActionView::InstallBootloader {
                    device: run.target_device,
                    bootloader_type: "grub2"@,
                },
                Seq::empty(),
            ),
            EventView::Done(Err(error)) => fail(run, error, Seq::empty()),
            _ => fail(run, unexpected_event(), Seq::empty()),
        },
        Phase::Bootloader => match event {
            EventView::Done(Ok(_)) => conclude(
                run,
                if cancelled {
                    Some(OutcomeView::Cancelled)
                } else {
                    None
                },
                Seq::empty(),
            ),
            EventView::Done(Err(error)) => fail(run, error, Seq::empty()),
            _ => fail(run, unexpected_event(), Seq::empty()),
        },
        Phase::Unmounting => match event {
            EventView::Done(result) => after_unmount(run, result),
            _ => after_unmount(run, Err(unexpected_event())),
        },
        Phase::DirRemoval => match event {
            EventView::Done(result) => after_dir_removal(run, result),
            _ => after_dir_removal(run, Err(unexpected_event())),
        },
        Phase::Finished => StepView { run, action: ActionView::Idle, notices: Seq::empty() },
    }
}

/// The run before its first step.
pub open spec fn initial_run(
    source_path: Seq<char>,
    target_device: Seq<char>,
    main_partition: Seq<char>,
    request: RequestView,
    process_id: u32,
) -> RunView {
    RunView {
        source_path,
        target_device,
        main_partition,
        request,
        mount_dir: mount_dir_for(process_id),
        phase: Phase::Start,
        mounted_at: None,
        dir_created: false,
        failure: None,
        cleanup_error: None,
        percent: 0,
    }
}

/// What holds of every run that the machine can reach.
pub open spec fn run_wf(run: RunView) -> bool {
    &&& run.percent <= 100
    &&& working(run.phase) ==> run.failure is None && run.cleanup_error is None && run.percent
        == nominal_percent(stage_of(run.phase))
    &&& !(run.failure matches Some(OutcomeView::Succeeded(_)))
    &&& match run.phase {
        Phase::Start => run.mounted_at is None && !run.dir_created,
        Phase::IsoValidation => run.mounted_at is None && !run.dir_created,
        Phase::DeviceVerification => run.mounted_at is None && !run.dir_created,
        Phase::Partitioning => run.mounted_at is None && !run.dir_created,
        Phase::Formatting => run.mounted_at is None && !run.dir_created,
        Phase::MountDir => run.mounted_at is None && !run.dir_created,
        Phase::Mounting => run.dir_created,
        Phase::Copying => run.mounted_at is Some && run.dir_created,
        Phase::Bootloader => run.mounted_at is Some && run.dir_created,
        Phase::Unmounting => run.mounted_at is Some && run.cleanup_error is None,
        Phase::DirRemoval => run.mounted_at is None && run.dir_created,
        Phase::Finished => run.mounted_at is None && !run.dir_created && run.failure is None
            && run.cleanup_error is None,
    }
    &&& run.phase != Phase::Start && working(run.phase) ==> run.source_path.len() > 0
        && run.target_device.len() > 0
}

/// The view of an optional outcome.
pub open spec fn opt_outcome_view(outcome: Option<Outcome>) -> Option<OutcomeView> {
    match outcome {
        Some(outcome) => Some(outcome@),
        None => None,
    }
}

/// The view of the result of an operation that returns nothing.
pub open spec fn done_view(result: Result<(), WowUsbError>) -> Result<(), ErrorView> {
    match result {
        Ok(_) => Ok(()),
        Err(error) => Err(error@),
    }
}

/// One provisioning run: the request, and how far the run has come.
pub struct ProvisioningRun {
    source_path: String,
    target_device: String,
    main_partition: String,
    request: CreateConfig,
    mount_dir: String,
    phase: Phase,
    mounted_at: Option<String>,
    dir_created: bool,
    failure: Option<Outcome>,
    cleanup_error: Option<WowUsbError>,
    percent: u8,
}

impl View for ProvisioningRun {
    type V = RunView;

    closed spec fn view(&self) -> RunView {
        RunView {
            source_path: self.source_path@,
            target_device: self.target_device@,
            main_partition: self.main_partition@,
            request: self.request@,
            mount_dir: self.mount_dir@,
            phase: self.phase,
            mounted_at: crate::disk::opt_view(self.mounted_at),
            dir_created: self.dir_created,
            failure: opt_outcome_view(self.failure),
            cleanup_error: opt_error_view(self.cleanup_error),
            percent: self.percent,
        }
    }
}

/// The step `out`, with the run `run` after it, is the step `step`.
pub open spec fn is_step(run: ProvisioningRun, out: Step, step: StepView) -> bool {
    &&& run@ == step.run
    &&& out.action@ == step.action
    &&& out.notices@ == step.notices
}

/// The name under which a state is reported.
pub open spec fn stage_name(stage: Stage) -> Seq<char> {
    match stage {
        Stage::Validating => "Validating"@,
        Stage::Planning => "Planning"@,
        Stage::Partitioning => "Partitioning"@,
        Stage::Formatting => "Formatting"@,
        Stage::Mounting => "Mounting"@,
        Stage::Copying => "Copying"@,
        Stage::Bootloader => "Bootloader"@,
        Stage::Cleanup => "Cleanup"@,
        Stage::Succeeded => "Succeeded"@,
        Stage::Failed => "Failed"@,
        Stage::Cancelled => "Cancelled"@,
    }
}

/// The sentence that describes a state to the user.
pub open spec fn stage_message(stage: Stage) -> Seq<char> {
    match stage {
        Stage::Validating => "Validating the image and the target device"@,
        Stage::Planning => "Planning the partition layout"@,
        Stage::Partitioning => "Creating partitions"@,
        Stage::Formatting => "Formatting the main partition"@,
        Stage::Mounting => "Mounting the main partition"@,
        Stage::Copying => "Copying the image contents"@,
        Stage::Bootloader => "Installing the boot loader"@,
        Stage::Cleanup => "Cleaning up"@,
        Stage::Succeeded => "The device is ready"@,
        Stage::Failed => "The run failed"@,
        Stage::Cancelled => "The run was cancelled"@,
    }
}

impl Stage {
    /// The name under which the state is reported.
    pub fn name(&self) -> (name: String)
        ensures
            name@ == stage_name(*self),
    {
        match self {
            Stage::Validating => String::from_str("Validating"),
            Stage::Planning => String::from_str("Planning"),
            Stage::Partitioning => String::from_str("Partitioning"),
            Stage::Formatting => String::from_str("Formatting"),
            Stage::Mounting => String::from_str("Mounting"),
            Stage::Copying => String::from_str("Copying"),
            Stage::Bootloader => String::from_str("Bootloader"),
            Stage::Cleanup => String::from_str("Cleanup"),
            Stage::Succeeded => String::from_str("Succeeded"),
            Stage::Failed => String::from_str("Failed"),
            Stage::Cancelled => String::from_str("Cancelled"),
        }
    }

    /// The sentence that describes the state to the user.
    pub fn message(&self) -> (message: String)
        ensures
            message@ == stage_message(*self),
    {
        match self {
            Stage::Validating => String::from_str("Validating the image and the target device"),
            Stage::Planning => String::from_str("Planning the partition layout"),
            Stage::Partitioning => String::from_str("Creating partitions"),
            Stage::Formatting => String::from_str("Formatting the main partition"),
            Stage::Mounting => String::from_str("Mounting the main partition"),
            Stage::Copying => String::from_str("Copying the image contents"),
            Stage::Bootloader => String::from_str("Installing the boot loader"),
            Stage::Cleanup => String::from_str("Cleaning up"),
            Stage::Succeeded => String::from_str("The device is ready"),
            Stage::Failed => String::from_str("The run failed"),
            Stage::Cancelled => String::from_str("The run was cancelled"),
        }
    }

    /// The percentage reported when the stage is entered with nothing having
    /// gone wrong.
    pub fn percent(&self) -> (p: u8)
        ensures
            p == nominal_percent(*self),
            p <= 100,
    {
        match self {
            Stage::Validating => 0,
            Stage::Planning => 10,
            Stage::Partitioning => 20,
            Stage::Formatting => 40,
            Stage::Mounting => 55,
            Stage::Copying => 60,
            Stage::Bootloader => 85,
            Stage::Cleanup => 95,
            Stage::Succeeded => 100,
            Stage::Failed => 0,
            Stage::Cancelled => 0,
        }
    }
}

fn make_notice(percent: u8, stage: Stage, plateau: bool) -> (n: ProgressNotice)
    ensures
        n == notice(percent, stage, plateau),
        percent <= 100 ==> n.percent <= 100,
{
    let nominal = stage.percent();
    ProgressNotice {
        percent: if plateau || nominal < percent {
            percent
        } else {
            nominal
        },
        stage,
    }
}

impl ProvisioningRun {
    #[verifier::type_invariant]
    spec fn well_formed(self) -> bool {
        run_wf(self@)
    }

    /// A run that has not taken its first step. `main_partition` is the
    /// partition that will be formatted and mounted.
    pub fn begin(
        source_path: &str,
        target_device: &str,
        main_partition: String,
        config: &CreateConfig,
        process_id: u32,
    ) -> (run: Self)
        ensures
            run@ == initial_run(
                source_path@,
                target_device@,
                main_partition@,
                config@,
                process_id,
            ),
            run_wf(run@),
    {
        let number = decimal_string(process_id as u64);
        let mount_dir = String::from_str("/tmp/wowusb_mount_").concat(number.as_str());
        let request = CreateConfig {
            source_path: config.source_path.clone(),
            target_device: config.target_device.clone(),
            filesystem: config.filesystem.clone(),
            drive_label: config.drive_label.clone(),
            wintogo_enabled: config.wintogo_enabled,
            multiboot_enabled: config.multiboot_enabled,
            target_os: config.target_os.clone(),
        };
        ProvisioningRun {
            source_path: String::from_str(source_path),
            target_device: String::from_str(target_device),
            main_partition,
            request,
            mount_dir,
            phase: Phase::Start,
            mounted_at: None,
            dir_created: false,
            failure: None,
            cleanup_error: None,
            percent: 0,
        }
    }

    /// What the run is waiting for.
    pub fn phase(&self) -> (phase: Phase)
        ensures
            phase == self@.phase,
    {
        self.phase
    }

    /// Whether the run is over.
    pub fn is_finished(&self) -> (finished: bool)
        ensures
            finished == (self@.phase == Phase::Finished),
    {
        self.phase == Phase::Finished
    }

    /// The percentage of the last progress report.
    pub fn percent(&self) -> (percent: u8)
        ensures
            percent == self@.percent,
            percent <= 100,
    {
        proof {
            use_type_invariant(self);
        }
        self.percent
    }

    /// The temporary mount directory of the run.
    pub fn mount_dir(&self) -> (path: String)
        ensures
            path@ == self@.mount_dir,
    {
        self.mount_dir.clone()
    }

    fn finish(
        self,
        verdict: Option<Outcome>,
        cleanup_error: Option<WowUsbError>,
        percent: u8,
        notices: Vec<ProgressNotice>,
    ) -> (r: (Self, Step))
        requires
            percent <= 100,
        ensures
            is_step(
                r.0,
                r.1,
                finish(
                    self@,
                    opt_outcome_view(verdict),
                    opt_error_view(cleanup_error),
                    percent,
                    notices@,
                ),
            ),
    {
        proof {
            use_type_invariant(&self);
        }
        let mut notices = notices;
        let (outcome, reported) = match verdict {
            Some(outcome) => (outcome, cleanup_error),
            None => match cleanup_error {
                Some(error) => {
                    let copy = error.duplicate();
                    (Outcome::Failed { error, stage: Stage::Cleanup }, Some(copy))
                },
                None => {
                    let message = String::from_str("Successfully created bootable USB on ").concat(
                        self.target_device.as_str(),
                    );
                    (Outcome::Succeeded(message), None)
                },
            },
        };
        let (terminal, plateau) = match &outcome {
            Outcome::Succeeded(_) => (Stage::Succeeded, false),
            Outcome::Failed { .. } => (Stage::Failed, true),
            Outcome::Cancelled => (Stage::Cancelled, true),
        };
        let last = make_notice(percent, terminal, plateau);
        notices.push(last);
        let run = ProvisioningRun {
            phase: Phase::Finished,
            mounted_at: None,
            dir_created: false,
            failure: None,
            cleanup_error: None,
            percent: last.percent,
            ..self
        };
        (run, Step { action: Action::Finish { outcome, cleanup_error: reported }, notices })
    }

    fn conclude(self, verdict: Option<Outcome>, notices: Vec<ProgressNotice>) -> (r: (Self, Step))
        requires
            !(verdict matches Some(Outcome::Succeeded(_))),
            self@.phase != Phase::Finished,
        ensures
            is_step(r.0, r.1, conclude(self@, opt_outcome_view(verdict), notices@)),
    {
        proof {
            use_type_invariant(&self);
        }
        let mut notices = notices;
        let entered = make_notice(self.percent, Stage::Cleanup, verdict.is_some());
        notices.push(entered);
        match &self.mounted_at {
            Some(path) => {
                let mountpoint = path.clone();
                let run = ProvisioningRun {
                    phase: Phase::Unmounting,
                    failure: verdict,
                    cleanup_error: None,
                    percent: entered.percent,
                    ..self
                };
                (run, Step { action: Action::UnmountPartition { mountpoint }, notices })
            },
            None => {
                if self.dir_created {
                    let path = self.mount_dir.clone();
                    let run = ProvisioningRun {
                        phase: Phase::DirRemoval,
                        failure: verdict,
                        cleanup_error: None,
                        percent: entered.percent,
                        ..self
                    };
                    (run, Step { action: Action::RemoveMountDir { path }, notices })
                } else {
                    self.finish(verdict, None, entered.percent, notices)
                }
            },
        }
    }

    fn fail(self, error: WowUsbError, notices: Vec<ProgressNotice>) -> (r: (Self, Step))
        requires
            self@.phase != Phase::Finished,
        ensures
            is_step(r.0, r.1, fail(self@, error@, notices@)),
    {
        let stage = match self.phase {
            Phase::Start => Stage::Validating,
            Phase::IsoValidation => Stage::Validating,
            Phase::DeviceVerification => Stage::Validating,
            Phase::Partitioning => Stage::Partitioning,
            Phase::Formatting => Stage::Formatting,
            Phase::MountDir => Stage::Mounting,
            Phase::Mounting => Stage::Mounting,
            Phase::Copying => Stage::Copying,
            Phase::Bootloader => Stage::Bootloader,
            Phase::Unmounting => Stage::Cleanup,
            Phase::DirRemoval => Stage::Cleanup,
            Phase::Finished => Stage::Cleanup,
        };
        self.conclude(Some(Outcome::Failed { error, stage }), notices)
    }

    fn reject(self) -> (r: (Self, Step))
        requires
            self@.phase != Phase::Finished,
        ensures
            is_step(r.0, r.1, fail(self@, unexpected_event(), Seq::empty())),
    {
        self.fail(
            WowUsbError::configuration("Unexpected event for the current phase"),
            Vec::new(),
        )
    }

    fn advance(
        self,
        cancelled: bool,
        stage: Stage,
        phase: Phase,
        action: Action,
        notices: Vec<ProgressNotice>,
    ) -> (r: (Self, Step))
        requires
            self@.phase != Phase::Finished,
            !cancelled ==> run_wf(
                RunView { phase, percent: notice(self@.percent, stage, false).percent, ..self@ },
            ),
        ensures
            is_step(r.0, r.1, advance(self@, cancelled, stage, phase, action@, notices@)),
    {
        proof {
            use_type_invariant(&self);
        }
        if cancelled {
            self.conclude(Some(Outcome::Cancelled), notices)
        } else {
            let mut notices = notices;
            let entered = make_notice(self.percent, stage, false);
            notices.push(entered);
            let run = ProvisioningRun { phase, percent: entered.percent, ..self };
            (run, Step { action, notices })
        }
    }

    fn start(self, cancelled: bool) -> (r: (Self, Step))
        requires
            self@.phase == Phase::Start,
        ensures
            is_step(r.0, r.1, start(self@, cancelled)),
    {
        proof {
            use_type_invariant(&self);
        }
        if cancelled {
            return self.conclude(Some(Outcome::Cancelled), Vec::new());
        }
        let entered = make_notice(self.percent, Stage::Validating, false);
        let mut notices: Vec<ProgressNotice> = Vec::new();
        notices.push(entered);
        assert(notices@ =~= seq![entered]);
        let run = ProvisioningRun { percent: entered.percent, ..self };
        if run.source_path.as_str().is_empty() {
            run.fail(WowUsbError::validation("Source path cannot be empty"), notices)
        } else if run.target_device.as_str().is_empty() {
            run.fail(WowUsbError::validation("Target device cannot be empty"), notices)
        } else {
            let iso_path = run.source_path.clone();
            let run = ProvisioningRun { phase: Phase::IsoValidation, ..run };
            (run, Step { action: Action::ValidateIso { iso_path }, notices })
        }
    }

    fn plan_and_partition(self, cancelled: bool) -> (r: (Self, Step))
        requires
            self@.phase == Phase::DeviceVerification,
        ensures
            is_step(r.0, r.1, plan_and_partition(self@, cancelled)),
    {
        proof {
            use_type_invariant(&self);
        }
        if cancelled {
            return self.conclude(Some(Outcome::Cancelled), Vec::new());
        }
        let planning = make_notice(self.percent, Stage::Planning, false);
        let partitioning = make_notice(planning.percent, Stage::Partitioning, false);
        let mut notices: Vec<ProgressNotice> = Vec::new();
        notices.push(planning);
        notices.push(partitioning);
        assert(notices@ =~= seq![planning, partitioning]);
        let layout = DiskManager::plan_layout(&self.request);
        let device = self.target_device.clone();
        let run = ProvisioningRun {
            phase: Phase::Partitioning,
            percent: partitioning.percent,
            ..self
        };
        (run, Step { action: Action::CreatePartitions { device, layout }, notices })
    }

    fn after_unmount(self, result: Result<(), WowUsbError>) -> (r: (Self, Step))
        requires
            self@.phase == Phase::Unmounting,
        ensures
            is_step(r.0, r.1, after_unmount(self@, done_view(result))),
    {
        proof {
            use_type_invariant(&self);
        }
        let cleanup_error = match result {
            Ok(_) => None,
            Err(error) => Some(error),
        };
        if self.dir_created {
            let path = self.mount_dir.clone();
            let run = ProvisioningRun {
                phase: Phase::DirRemoval,
                mounted_at: None,
                cleanup_error,
                ..self
            };
            (run, Step { action: Action::RemoveMountDir { path }, notices: Vec::new() })
        } else {
            let percent = self.percent;
            let ProvisioningRun {
                source_path,
                target_device,
                main_partition,
                request,
                mount_dir,
                phase,
                mounted_at,
                dir_created,
                failure,
                cleanup_error: _,
                percent: _,
            } = self;
            let run = ProvisioningRun {
                source_path,
                target_device,
                main_partition,
                request,
                mount_dir,
                phase,
                mounted_at,
                dir_created,
                failure: None,
                cleanup_error: None,
                percent,
            };
            run.finish(failure, cleanup_error, percent, Vec::new())
        }
    }

    fn after_dir_removal(self, result: Result<(), WowUsbError>) -> (r: (Self, Step))
        requires
            self@.phase == Phase::DirRemoval,
        ensures
            is_step(r.0, r.1, after_dir_removal(self@, done_view(result))),
    {
        proof {
            use_type_invariant(&self);
        }
        let percent = self.percent;
        let ProvisioningRun {
            source_path,
            target_device,
            main_partition,
            request,
            mount_dir,
            phase,
            mounted_at,
            dir_created,
            failure,
            cleanup_error,
            percent: _,
        } = self;
        let first = match cleanup_error {
            Some(error) => Some(error),
            None => match result {
                Ok(_) => None,
                Err(error) => Some(error),
            },
        };
        let run = ProvisioningRun {
            source_path,
            target_device,
            main_partition,
            request,
            mount_dir,
            phase,
            mounted_at,
            dir_created,
            failure: None,
            cleanup_error: None,
            percent,
        };
        run.finish(failure, first, percent, Vec::new())
    }

    /// Takes one step: reads what the backend reported about the last
    /// action, and the cancellation flag, and says what to do next.
    pub fn step(self, event: Event, cancelled: bool) -> (r: (Self, Step))
        ensures
            is_step(r.0, r.1, step_spec(self@, event@, cancelled)),
            run_wf(self@),
            run_wf(r.0@),
    {
        proof {
            use_type_invariant(&self);
        }
        let r = match self.phase {
            Phase::Start => match event {
                Event::Start => self.start(cancelled),
                _ => self.reject(),
            },
            Phase::IsoValidation => match event {
                Event::Flag(Ok(valid)) => {
                    if valid {
                        let device = self.target_device.clone();
                        let run = ProvisioningRun { phase: Phase::DeviceVerification, ..self };
                        (run, Step { action: Action::VerifyDevice { device }, notices: Vec::new() })
                    } else {
                        self.fail(
                            WowUsbError::validation("Invalid or corrupted ISO file"),
                            Vec::new(),
                        )
                    }
                },
                Event::Flag(Err(error)) => self.fail(error, Vec::new()),
                _ => self.reject(),
            },
            Phase::DeviceVerification => match event {
                Event::Flag(Ok(valid)) => {
                    if valid {
                        self.plan_and_partition(cancelled)
                    } else {
                        self.fail(WowUsbError::validation("Invalid target device"), Vec::new())
                    }
                },
                Event::Flag(Err(error)) => self.fail(error, Vec::new()),
                _ => self.reject(),
            },
            Phase::Partitioning => match event {
                Event::Done(Ok(_)) => {
                    let action = Action::FormatPartition {
                        partition: self.main_partition.clone(),
                        filesystem: self.request.filesystem.clone(),
                        label: self.request.drive_label.clone(),
                    };
                    self.advance(cancelled, Stage::Formatting, Phase::Formatting, action, Vec::new())
                },
                Event::Done(Err(error)) => self.fail(error, Vec::new()),
                _ => self.reject(),
            },
            Phase::Formatting => match event {
                Event::Done(Ok(_)) => {
                    let action = Action::CreateMountDir { path: self.mount_dir.clone() };
                    self.advance(cancelled, Stage::Mounting, Phase::MountDir, action, Vec::new())
                },
                Event::Done(Err(error)) => self.fail(error, Vec::new()),
                _ => self.reject(),
            },
            Phase::MountDir => match event {
                Event::Done(Ok(_)) => {
                    let action = Action::MountPartition {
                        partition: self.main_partition.clone(),
                        mountpoint: self.mount_dir.clone(),
                    };
                    let run = ProvisioningRun { phase: Phase::Mounting, dir_created: true, ..self };
                    (run, Step { action, notices: Vec::new() })
                },
                Event::Done(Err(error)) => self.fail(error, Vec::new()),
                _ => self.reject(),
            },
            Phase::Mounting => match event {
                Event::Mounted(Ok(path)) => {
                    let action = Action::ExtractIso {
                        iso_path: self.source_path.clone(),
                        target_path: path.clone(),
                    };
                    let run = ProvisioningRun { mounted_at: Some(path), ..self };
                    run.advance(cancelled, Stage::Copying, Phase::Copying, action, Vec::new())
                },
                Event::Mounted(Err(error)) => self.fail(error, Vec::new()),
                _ => self.reject(),
            },
            Phase::Copying => match event {
                Event::Done(Ok(_)) => {
                    let action = Action::InstallBootloader {
                        device: self.target_device.clone(),
                        bootloader_type: String::from_str("grub2"),
                    };
                    self.advance(cancelled, Stage::Bootloader, Phase::Bootloader, action, Vec::new())
                },
                Event::Done(Err(error)) => self.fail(error, Vec::new()),
                _ => self.reject(),
            },
            Phase::Bootloader => match event {
                Event::Done(Ok(_)) => {
                    let verdict = if cancelled {
                        Some(Outcome::Cancelled)
                    } else {
                        None
                    };
                    self.conclude(verdict, Vec::new())
                },
                Event::Done(Err(error)) => self.fail(error, Vec::new()),
                _ => self.reject(),
            },
            Phase::Unmounting => match event {
                Event::Done(result) => self.after_unmount(result),
                _ => self.after_unmount(
                    Err(WowUsbError::configuration("Unexpected event for the current phase")),
                ),
            },
            Phase::DirRemoval => match event {
                Event::Done(result) => self.after_dir_removal(result),
                _ => self.after_dir_removal(
                    Err(WowUsbError::configuration("Unexpected event for the current phase")),
                ),
            },
            Phase::Finished => (self, Step { action: Action::Idle, notices: Vec::new() }),
        };
        proof {
            use_type_invariant(&r.0);
        }
        r
    }
}

} // verus!
