//! The operations of a platform, step by step.
//!
//! A backend performs nothing itself. For an action of a provisioning run and
//! the reports that have come back so far, it says what is to be done next:
//! run a command, create or remove a directory, look whether a path exists
//! or whether something is mounted at it; or that the action is over, and
//! with which result. Whoever drives the
//! backend does what is asked and comes back with the report.

use crate::command::{
    checked, planned_views, unit_result_view, unmount_report, unmounted, CommandOutput, CommandSpec,
    CommandView, FailureKind, OutputView, PlannedCommand, PlannedView,
};
use crate::disk::{device_views, safe_to_target, Device, DeviceView};
use crate::error::{ErrorView, WowUsbError};
use crate::provision::{Action, ActionView, Event, EventView};
use crate::text::contains;
use vstd::prelude::*;

verus! {

/// What came back from doing what a backend asked for.
#[derive(Debug, PartialEq, Eq)]
pub enum Report {
    /// A command ran to its end, or could not be run.
    Command(Result<CommandOutput, WowUsbError>),
    /// A directory was created or removed, or could not be.
    Host(Result<(), WowUsbError>),
    /// Whether a path exists.
    Exists(bool),
    /// A size in bytes, or why it could not be had.
    Size(Result<u64, WowUsbError>),
    /// Whether something is mounted at a path.
    Mounted(bool),
}

pub enum ReportView {
    Command(Result<OutputView, ErrorView>),
    Host(Result<(), ErrorView>),
    Exists(bool),
    Size(Result<u64, ErrorView>),
    Mounted(bool),
}

impl View for Report {
    type V = ReportView;

    open spec fn view(&self) -> ReportView {
        match self {
            Report::Command(Ok(output)) => ReportView::Command(Ok(output@)),
            Report::Command(Err(error)) => ReportView::Command(Err(error@)),
            Report::Host(Ok(_)) => ReportView::Host(Ok(())),
            Report::Host(Err(error)) => ReportView::Host(Err(error@)),
            Report::Exists(exists) => ReportView::Exists(*exists),
            Report::Size(Ok(bytes)) => ReportView::Size(Ok(*bytes)),
            Report::Size(Err(error)) => ReportView::Size(Err(error@)),
            Report::Mounted(mounted) => ReportView::Mounted(*mounted),
        }
    }
}

/// The views of a list of reports.
pub open spec fn report_views(reports: Seq<Report>) -> Seq<ReportView> {
    reports.map_values(|r: Report| r@)
}

/// What is asked of whoever drives a backend.
#[derive(Debug, PartialEq, Eq)]
pub enum Request {
    /// Run the command. Where `read_output` is set the standard output is
    /// read and must be valid text.
    Run { command: CommandSpec, read_output: bool },
    /// Create the directory and the directories above it.
    CreateDir { path: String },
    /// Remove the directory, which is expected to be empty.
    RemoveDir { path: String },
    /// Look whether the path exists.
    PathExists { path: String },
    /// Say how many bytes the file holds.
    FileSize { path: String },
    /// Look whether something is mounted at the path.
    MountedAt { path: String },
}

pub enum RequestView {
    Run { command: CommandView, read_output: bool },
    CreateDir { path: Seq<char> },
    RemoveDir { path: Seq<char> },
    PathExists { path: Seq<char> },
    FileSize { path: Seq<char> },
    MountedAt { path: Seq<char> },
}

impl View for Request {
    type V = RequestView;

    open spec fn view(&self) -> RequestView {
        match self {
            Request::Run { command, read_output } => RequestView::Run {
                command: command@,
                read_output: *read_output,
            },
            Request::CreateDir { path } => RequestView::CreateDir { path: path@ },
            Request::RemoveDir { path } => RequestView::RemoveDir { path: path@ },
            Request::PathExists { path } => RequestView::PathExists { path: path@ },
            Request::FileSize { path } => RequestView::FileSize { path: path@ },
            Request::MountedAt { path } => RequestView::MountedAt { path: path@ },
        }
    }
}

/// What a backend says of an action of a run.
#[derive(Debug, PartialEq, Eq)]
pub enum BackendStep {
    /// Do this and come back with the report.
    Ask(Request),
    /// The action is over; this is what to tell the run.
    Done(Event),
    /// The action asks nothing of a backend.
    Nothing,
}

pub enum BackendStepView {
    Ask(RequestView),
    Done(EventView),
    Nothing,
}

impl View for BackendStep {
    type V = BackendStepView;

    open spec fn view(&self) -> BackendStepView {
        match self {
            BackendStep::Ask(request) => BackendStepView::Ask(request@),
            BackendStep::Done(event) => BackendStepView::Done(event@),
            BackendStep::Nothing => BackendStepView::Nothing,
        }
    }
}

/// What a backend says of the enumeration of devices.
#[derive(Debug, PartialEq, Eq)]
pub enum ListingStep {
    /// Do this and come back with the report.
    Ask(Request),
    /// The enumeration is over; these are the devices to offer.
    Done(Result<Vec<Device>, WowUsbError>),
}

pub enum ListingStepView {
    Ask(RequestView),
    Done(Result<Seq<DeviceView>, ErrorView>),
}

impl View for ListingStep {
    type V = ListingStepView;

    open spec fn view(&self) -> ListingStepView {
        match self {
            ListingStep::Ask(request) => ListingStepView::Ask(request@),
            ListingStep::Done(Ok(devices)) => ListingStepView::Done(Ok(device_views(devices@))),
            ListingStep::Done(Err(error)) => ListingStepView::Done(Err(error@)),
        }
    }
}

/// The error for a report of another kind than was asked for.
pub open spec fn unexpected_report() -> ErrorView {
    ErrorView::Configuration("Unexpected report for the current step"@)
}

/// What a report tells of a command: its output, the error that kept it
/// from running, or that the report is of no command at all.
pub open spec fn output_of(report: ReportView) -> Result<OutputView, ErrorView> {
    match report {
        ReportView::Command(result) => result,
        _ => Err(unexpected_report()),
    }
}

/// What a report tells of the creation or removal of a directory.
pub open spec fn host_result(report: ReportView) -> Result<(), ErrorView> {
    match report {
        ReportView::Host(result) => result,
        _ => Err(unexpected_report()),
    }
}

/// What a report tells of a size.
pub open spec fn size_result(report: ReportView) -> Result<u64, ErrorView> {
    match report {
        ReportView::Size(result) => result,
        _ => Err(unexpected_report()),
    }
}

/// What a report tells of a command that is judged by its exit alone: the
/// error of the given kind, with the given prefix before its own words, if
/// it failed.
pub open spec fn judged(planned: PlannedView, report: ReportView) -> Result<(), ErrorView> {
    match output_of(report) {
        Ok(output) => checked(planned.kind, planned.prefix, output),
        Err(error) => Err(error),
    }
}

/// Where a plan stands from its command of index `from` on: the first
/// command without a report is to be run; a command that failed ends the
/// plan with its error; a plan of which every command succeeded is done.
pub open spec fn plan_from(
    plan: Seq<PlannedView>,
    reports: Seq<ReportView>,
    from: int,
) -> BackendStepView
    decreases plan.len() - from,
{
    if from < 0 || from >= plan.len() {
        BackendStepView::Done(EventView::Done(Ok(())))
    } else if from >= reports.len() {
        BackendStepView::Ask(RequestView::Run { command: plan[from].command, read_output: false })
    } else {
        match judged(plan[from], reports[from]) {
            Ok(_) => plan_from(plan, reports, from + 1),
            Err(error) => BackendStepView::Done(EventView::Done(Err(error))),
        }
    }
}

/// Where a plan stands: its commands are run in order until one fails.
pub open spec fn plan_step(plan: Seq<PlannedView>, reports: Seq<ReportView>) -> BackendStepView {
    plan_from(plan, reports, 0)
}

/// Where a plan stands that may have been refused before it began.
pub open spec fn planned_step(
    plan: Result<Seq<PlannedView>, ErrorView>,
    reports: Seq<ReportView>,
) -> BackendStepView {
    match plan {
        Ok(plan) => plan_step(plan, reports),
        Err(error) => BackendStepView::Done(EventView::Done(Err(error))),
    }
}

/// Where the creation or removal of a directory stands: it is asked for
/// once, and what came back is the result.
pub open spec fn host_step(request: BackendStepView, reports: Seq<ReportView>) -> BackendStepView {
    if reports.len() == 0 {
        request
    } else {
        BackendStepView::Done(EventView::Done(host_result(reports[0])))
    }
}

/// Where a question stands that a command answers by its exit: the command
/// is run once, and the answer is whether it succeeded.
pub open spec fn status_step(command: CommandView, reports: Seq<ReportView>) -> BackendStepView {
    if reports.len() == 0 {
        BackendStepView::Ask(RequestView::Run { command, read_output: false })
    } else {
        BackendStepView::Done(
            EventView::Flag(
                match output_of(reports[0]) {
                    Ok(output) => Ok(output.success),
                    Err(error) => Err(error),
                },
            ),
        )
    }
}

/// Where an unmount with `umount` stands: the command is run once, and a
/// path that it reports as not mounted counts as unmounted.
pub open spec fn unmount_step(command: CommandView, reports: Seq<ReportView>) -> BackendStepView {
    if reports.len() == 0 {
        BackendStepView::Ask(RequestView::Run { command, read_output: false })
    } else {
        BackendStepView::Done(
            EventView::Done(
                match output_of(reports[0]) {
                    Ok(output) => unmounted(output),
                    Err(error) => Err(error),
                },
            ),
        )
    }
}

/// Where a mount stands: the mount point is created first, then the
/// partition is mounted there, and the mount point is the answer.
pub open spec fn mount_step(
    mount: PlannedView,
    mountpoint: Seq<char>,
    reports: Seq<ReportView>,
) -> BackendStepView {
    if reports.len() == 0 {
        BackendStepView::Ask(RequestView::CreateDir { path: mountpoint })
    } else {
        match host_result(reports[0]) {
            Err(error) => BackendStepView::Done(EventView::Mounted(Err(error))),
            Ok(_) => if reports.len() == 1 {
                BackendStepView::Ask(
                    RequestView::Run { command: mount.command, read_output: false },
                )
            } else {
                BackendStepView::Done(
                    EventView::Mounted(
                        match judged(mount, reports[1]) {
                            Ok(_) => Ok(mountpoint),
                            Err(error) => Err(error),
                        },
                    ),
                )
            },
        }
    }
}

/// Whether a report is of a command that ran to its end, or says whether
/// something is mounted.
pub open spec fn ran(report: ReportView) -> bool {
    report matches ReportView::Command(Ok(_)) || report is Mounted
}

/// Whether every report is of a command that ran to its end, or says
/// whether something is mounted.
pub open spec fn all_ran(reports: Seq<ReportView>) -> bool {
    forall|i: int| 0 <= i < reports.len() ==> ran(#[trigger] reports[i])
}

/// Whether every command of a plan fails as an error of the given kind.
pub open spec fn fails_as(plan: Seq<PlannedView>, kind: FailureKind) -> bool {
    forall|i: int| 0 <= i < plan.len() ==> (#[trigger] plan[i]).kind == kind
}

/// Whether an error is of the kind that a failing tool stands for.
pub open spec fn is_failure_of(error: ErrorView, kind: FailureKind) -> bool {
    match kind {
        FailureKind::DeviceOperation => error is DeviceOperation,
        FailureKind::Filesystem => error is Filesystem,
        FailureKind::IsoProcessing => error is IsoProcessing,
    }
}

/// The kinds of error with which an action may fail when every command
/// that was run for it ran to its end: the kind that its tools stand for,
/// or the refusal of what was asked before any tool was run.
pub open spec fn may_fail_with(action: ActionView, error: ErrorView) -> bool {
    match action {
        ActionView::CreatePartitions { .. } => error is DeviceOperation || error is Validation,
        ActionView::FormatPartition { .. } => error is Filesystem || error is Validation,
        ActionView::ExtractIso { .. } => error is IsoProcessing,
        ActionView::InstallBootloader { .. } => error is DeviceOperation
            || error is NotImplemented,
        ActionView::UnmountPartition { .. } => error is DeviceOperation,
        _ => true,
    }
}

/// Whether an event is of the kind that the run expects for an action.
pub open spec fn answers(action: ActionView, event: EventView) -> bool {
    match action {
        ActionView::ValidateIso { .. } => event is Flag,
        ActionView::VerifyDevice { .. } => event is Flag,
        ActionView::MountPartition { .. } => event is Mounted,
        ActionView::Finish { .. } => false,
        ActionView::Idle => false,
        _ => event is Done,
    }
}

/// The operations of one platform.
///
/// Besides the function that says what to do next, a backend owes the
/// proofs that it keeps what every backend must keep.
pub trait PlatformDiskOps {
    /// What is to be done next for `action`, given the reports so far.
    spec fn next(&self, action: ActionView, reports: Seq<ReportView>) -> BackendStepView;

    /// The number of reports after which `action` is over at the latest.
    spec fn budget(&self, action: ActionView) -> nat;

    fn advance(&self, action: &Action, reports: &Vec<Report>) -> (step: BackendStep)
        ensures
            step@ == self.next(action@, report_views(reports@)),
    ;

    /// Every action comes to its end: once as many reports are in as the
    /// action has budget, there is nothing more to do for it.
    proof fn actions_end(&self, action: ActionView, reports: Seq<ReportView>)
        requires
            reports.len() >= self.budget(action),
        ensures
            self.next(action, reports) is Done || self.next(action, reports) is Nothing,
    ;

    /// The event that ends an action is of the kind that the run expects
    /// for it, and only the end of a run asks nothing of the backend.
    proof fn results_answer_the_action(&self, action: ActionView, reports: Seq<ReportView>)
        ensures
            self.next(action, reports) matches BackendStepView::Done(event) ==> answers(
                action,
                event,
            ),
            self.next(action, reports) is Nothing <==> action is Finish || action is Idle,
    ;

    /// An action fails with an error of its own kind: partitioning and
    /// unmounting as a device operation, formatting as a filesystem error,
    /// copying as an image error, the boot loader as a device operation or
    /// as not implemented; or it is refused as invalid before anything is
    /// run. The one other failure is over a report that is not of the kind
    /// that was asked for.
    proof fn failures_are_of_their_kind(&self, action: ActionView, reports: Seq<ReportView>)
        requires
            all_ran(reports),
        ensures
            self.next(action, reports) matches BackendStepView::Done(EventView::Done(Err(error)))
                ==> may_fail_with(action, error) || error == unexpected_report(),
    ;

    /// An image that fails validation is invalid, which is an answer and
    /// not an error.
    proof fn invalid_image_is_not_an_error(&self, iso_path: Seq<char>, output: OutputView)
        requires
            !output.success,
        ensures
            self.next(ActionView::ValidateIso { iso_path }, seq![ReportView::Command(Ok(output))])
                == BackendStepView::Done(EventView::Flag(Ok(false))),
    ;

    /// Unmounting what is not mounted is success, not an error. A backend
    /// sees that a path is not mounted in what its tool wrote ("not
    /// mounted") or in what the host found at the path: where both say so,
    /// the unmount has succeeded on every platform, whatever the exit of
    /// the tool.
    proof fn unmount_is_idempotent(&self, mountpoint: Seq<char>, output: OutputView)
        requires
            contains(output.stderr, "not mounted"@),
        ensures
            self.next(
                ActionView::UnmountPartition { mountpoint },
                seq![ReportView::Command(Ok(output)), ReportView::Mounted(false)],
            ) == BackendStepView::Done(EventView::Done(Ok(()))),
    ;

    /// A boot loader that no platform knows is refused as not implemented,
    /// before anything is run.
    proof fn unknown_bootloader_is_refused(
        &self,
        device: Seq<char>,
        bootloader_type: Seq<char>,
        reports: Seq<ReportView>,
    )
        requires
            bootloader_type != "grub2"@,
        ensures
            self.next(ActionView::InstallBootloader { device, bootloader_type }, reports)
                == BackendStepView::Done(
                EventView::Done(
                    Err(
                        ErrorView::NotImplemented(
                            "Bootloader type not supported: "@ + bootloader_type,
                        ),
                    ),
                ),
            ),
    ;

    /// What is to be done next to enumerate the devices, given the reports
    /// so far.
    spec fn listing(&self, reports: Seq<ReportView>) -> ListingStepView;

    /// What is to be done next to enumerate the devices. The devices that
    /// are offered in the end are safe to target: each is removable or
    /// hangs on the USB bus.
    fn list_devices(&self, reports: &Vec<Report>) -> (step: ListingStep)
        ensures
            step@ == self.listing(report_views(reports@)),
            step matches ListingStep::Done(Ok(devices)) ==> forall|i: int|
                0 <= i < devices.len() ==> (#[trigger] devices[i]).is_removable
                    || devices[i].is_usb,
    ;

    /// The number of reports after which the enumeration is over at the
    /// latest, given the first of them.
    spec fn listing_budget(&self, first: ReportView) -> nat;

    /// The enumeration comes to its end.
    proof fn listing_ends(&self, reports: Seq<ReportView>)
        requires
            reports.len() > 0,
            reports.len() >= self.listing_budget(reports[0]),
        ensures
            self.listing(reports) is Done,
    ;

    /// Only devices that are safe to target are offered: each is removable
    /// or hangs on the USB bus.
    proof fn only_safe_devices_are_offered(&self, reports: Seq<ReportView>)
        ensures
            self.listing(reports) matches ListingStepView::Done(Ok(devices)) ==> forall|i: int|
                0 <= i < devices.len() ==> safe_to_target(#[trigger] devices[i]),
    ;

    /// The enumeration begins with a command, and if that command fails
    /// the enumeration fails as a device operation.
    proof fn failed_listing_is_a_device_error(&self, output: OutputView)
        requires
            !output.success,
        ensures
            self.listing(Seq::empty()) matches ListingStepView::Ask(RequestView::Run { .. }),
            self.listing(seq![ReportView::Command(Ok(output))]) matches ListingStepView::Done(
                Err(ErrorView::DeviceOperation(_)),
            ),
    ;

    /// The command that erases all signatures of partition tables and
    /// filesystems from a device, if the device can be named to the tool.
    spec fn wipe_plan(&self, device: Seq<char>) -> Result<PlannedView, ErrorView>;

    fn wipe_device(&self, device: &str) -> (r: Result<PlannedCommand, WowUsbError>)
        ensures
            match self.wipe_plan(device@) {
                Ok(expected) => r matches Ok(planned) && planned@ == expected,
                Err(error) => r matches Err(e) && e@ == error,
            },
    ;

    /// A wipe that fails is a failed device operation.
    proof fn wipe_fails_as_device_operation(&self, device: Seq<char>)
        ensures
            self.wipe_plan(device) matches Ok(planned) ==> planned.kind
                == FailureKind::DeviceOperation,
    ;

    /// The mount directory of a run is created and removed by the host: the
    /// backend asks for it once and passes the result on.
    proof fn mount_directory_is_left_to_the_host(&self, path: Seq<char>, report: ReportView)
        ensures
            self.next(ActionView::CreateMountDir { path }, Seq::empty())
                == (BackendStepView::Ask(RequestView::CreateDir { path })),
            self.next(ActionView::RemoveMountDir { path }, Seq::empty())
                == (BackendStepView::Ask(RequestView::RemoveDir { path })),
            self.next(ActionView::CreateMountDir { path }, seq![report]) == BackendStepView::Done(
                EventView::Done(host_result(report)),
            ),
            self.next(ActionView::RemoveMountDir { path }, seq![report]) == BackendStepView::Done(
                EventView::Done(host_result(report)),
            ),
    ;
}

/// The view of what is known of a command after its report.
pub open spec fn output_result_view(r: Result<&CommandOutput, WowUsbError>) -> Result<
    OutputView,
    ErrorView,
> {
    match r {
        Ok(output) => Ok(output@),
        Err(error) => Err(error@),
    }
}

/// What a report tells of a command.
pub fn command_output(report: &Report) -> (r: Result<&CommandOutput, WowUsbError>)
    ensures
        output_result_view(r) == output_of(report@),
{
    match report {
        Report::Command(Ok(output)) => Ok(output),
        Report::Command(Err(error)) => Err(error.duplicate()),
        _ => Err(WowUsbError::configuration("Unexpected report for the current step")),
    }
}

/// What a report tells of the creation or removal of a directory.
pub fn host_outcome(report: &Report) -> (r: Result<(), WowUsbError>)
    ensures
        unit_result_view(r) == host_result(report@),
{
    match report {
        Report::Host(Ok(_)) => Ok(()),
        Report::Host(Err(error)) => Err(error.duplicate()),
        _ => Err(WowUsbError::configuration("Unexpected report for the current step")),
    }
}

/// The view of a size that may not have been had.
pub open spec fn size_view(r: Result<u64, WowUsbError>) -> Result<u64, ErrorView> {
    match r {
        Ok(bytes) => Ok(bytes),
        Err(error) => Err(error@),
    }
}

/// What a report tells of a size.
pub fn size_outcome(report: &Report) -> (r: Result<u64, WowUsbError>)
    ensures
        size_view(r) == size_result(report@),
{
    match report {
        Report::Size(Ok(bytes)) => Ok(*bytes),
        Report::Size(Err(error)) => Err(error.duplicate()),
        _ => Err(WowUsbError::configuration("Unexpected report for the current step")),
    }
}

/// What a report tells of a planned command.
pub fn judge(planned: &PlannedCommand, report: &Report) -> (r: Result<(), WowUsbError>)
    ensures
        unit_result_view(r) == judged(planned@, report@),
{
    match command_output(report) {
        Ok(output) => planned.check(output),
        Err(error) => Err(error),
    }
}

/// Where a plan stands whose reports follow `earlier` reports of what was
/// done before it.
pub fn run_plan_after(plan: &Vec<PlannedCommand>, reports: &Vec<Report>, earlier: usize) -> (step:
    BackendStep)
    requires
        earlier <= reports.len(),
    ensures
        step@ == plan_step(planned_views(plan@), report_views(reports@).skip(earlier as int)),
{
    let ghost own = report_views(reports@).skip(earlier as int);
    let count: usize = reports.len() - earlier;
    let mut i: usize = 0;
    while i < plan.len() && i < count
        invariant
            i <= plan.len(),
            i <= count,
            count == reports.len() - earlier,
            own == report_views(reports@).skip(earlier as int),
            plan_step(planned_views(plan@), own) == plan_from(planned_views(plan@), own, i as int),
        decreases plan.len() - i,
    {
        assert(planned_views(plan@)[i as int] == plan@[i as int]@);
        assert(own[i as int] == reports@[earlier + i]@);
        match judge(&plan[i], &reports[earlier + i]) {
            Ok(_) => {},
            Err(error) => {
                return BackendStep::Done(Event::Done(Err(error)));
            },
        }
        i += 1;
    }
    if i < plan.len() {
        assert(planned_views(plan@)[i as int] == plan@[i as int]@);
        BackendStep::Ask(Request::Run { command: plan[i].command.duplicate(), read_output: false })
    } else {
        BackendStep::Done(Event::Done(Ok(())))
    }
}

/// Where a plan stands.
pub fn run_plan(plan: &Vec<PlannedCommand>, reports: &Vec<Report>) -> (step: BackendStep)
    ensures
        step@ == plan_step(planned_views(plan@), report_views(reports@)),
{
    assert(report_views(reports@).skip(0) =~= report_views(reports@));
    run_plan_after(plan, reports, 0)
}

/// The view of a plan that may have been refused.
pub open spec fn plan_result_view(plan: Result<Vec<PlannedCommand>, WowUsbError>) -> Result<
    Seq<PlannedView>,
    ErrorView,
> {
    match plan {
        Ok(plan) => Ok(planned_views(plan@)),
        Err(error) => Err(error@),
    }
}

/// Where a plan stands that may have been refused before it began.
pub fn run_planned(plan: Result<Vec<PlannedCommand>, WowUsbError>, reports: &Vec<Report>) -> (step:
    BackendStep)
    ensures
        step@ == planned_step(plan_result_view(plan), report_views(reports@)),
{
    match plan {
        Ok(plan) => run_plan(&plan, reports),
        Err(error) => BackendStep::Done(Event::Done(Err(error))),
    }
}

/// Where a plan of one command stands.
pub fn run_single(planned: PlannedCommand, reports: &Vec<Report>) -> (step: BackendStep)
    ensures
        step@ == plan_step(seq![planned@], report_views(reports@)),
{
    let mut plan: Vec<PlannedCommand> = Vec::new();
    plan.push(planned);
    assert(planned_views(plan@) =~= seq![planned@]);
    run_plan(&plan, reports)
}

/// Where the creation of a directory stands.
pub fn create_dir_step(path: &str, reports: &Vec<Report>) -> (step: BackendStep)
    ensures
        step@ == host_step(BackendStepView::Ask(
            RequestView::CreateDir { path: path@ },
        ), report_views(reports@)),
{
    if reports.len() == 0 {
        BackendStep::Ask(Request::CreateDir { path: String::from_str(path) })
    } else {
        assert(report_views(reports@)[0] == reports@[0]@);
        BackendStep::Done(Event::Done(host_outcome(&reports[0])))
    }
}

/// Where the removal of a directory stands.
pub fn remove_dir_step(path: &str, reports: &Vec<Report>) -> (step: BackendStep)
    ensures
        step@ == host_step(BackendStepView::Ask(
            RequestView::RemoveDir { path: path@ },
        ), report_views(reports@)),
{
    if reports.len() == 0 {
        BackendStep::Ask(Request::RemoveDir { path: String::from_str(path) })
    } else {
        assert(report_views(reports@)[0] == reports@[0]@);
        BackendStep::Done(Event::Done(host_outcome(&reports[0])))
    }
}

/// Where a question stands that a command answers by its exit.
pub fn run_for_status(command: CommandSpec, reports: &Vec<Report>) -> (step: BackendStep)
    ensures
        step@ == status_step(command@, report_views(reports@)),
{
    if reports.len() == 0 {
        BackendStep::Ask(Request::Run { command, read_output: false })
    } else {
        assert(report_views(reports@)[0] == reports@[0]@);
        match command_output(&reports[0]) {
            Ok(output) => BackendStep::Done(Event::Flag(Ok(output.success))),
            Err(error) => BackendStep::Done(Event::Flag(Err(error))),
        }
    }
}

/// Where an unmount stands.
pub fn run_unmount(command: CommandSpec, reports: &Vec<Report>) -> (step: BackendStep)
    ensures
        step@ == unmount_step(command@, report_views(reports@)),
{
    if reports.len() == 0 {
        BackendStep::Ask(Request::Run { command, read_output: false })
    } else {
        assert(report_views(reports@)[0] == reports@[0]@);
        match command_output(&reports[0]) {
            Ok(output) => BackendStep::Done(Event::Done(unmount_report(output))),
            Err(error) => BackendStep::Done(Event::Done(Err(error))),
        }
    }
}

/// Where a mount stands.
pub fn run_mount(mount: PlannedCommand, mountpoint: &str, reports: &Vec<Report>) -> (step:
    BackendStep)
    ensures
        step@ == mount_step(mount@, mountpoint@, report_views(reports@)),
{
    if reports.len() == 0 {
        return BackendStep::Ask(Request::CreateDir { path: String::from_str(mountpoint) });
    }
    assert(report_views(reports@)[0] == reports@[0]@);
    match host_outcome(&reports[0]) {
        Err(error) => BackendStep::Done(Event::Mounted(Err(error))),
        Ok(_) => {
            if reports.len() == 1 {
                BackendStep::Ask(Request::Run { command: mount.command, read_output: false })
            } else {
                assert(report_views(reports@)[1] == reports@[1]@);
                match judge(&mount, &reports[1]) {
                    Ok(_) => BackendStep::Done(Event::Mounted(Ok(String::from_str(mountpoint)))),
                    Err(error) => BackendStep::Done(Event::Mounted(Err(error))),
                }
            }
        },
    }
}

/// A plan is over once every one of its commands has reported.
pub proof fn lemma_plan_ends(plan: Seq<PlannedView>, reports: Seq<ReportView>, from: int)
    requires
        0 <= from,
        reports.len() >= plan.len(),
    ensures
        plan_from(plan, reports, from) is Done,
    decreases plan.len() - from,
{
    if from < plan.len() {
        lemma_plan_ends(plan, reports, from + 1);
    }
}

/// Where an enumeration offers only devices that are safe to target, each
/// of the devices that it has ended with is removable or hangs on the USB
/// bus.
pub proof fn lemma_safe_devices(listing: ListingStepView, devices: Seq<Device>)
    requires
        listing == ListingStepView::Done(Ok(device_views(devices))),
        listing matches ListingStepView::Done(Ok(offered)) ==> forall|i: int|
            0 <= i < offered.len() ==> safe_to_target(#[trigger] offered[i]),
    ensures
        forall|i: int|
            0 <= i < devices.len() ==> (#[trigger] devices[i]).is_removable || devices[i].is_usb,
{
    let views = device_views(devices);
    assert(listing matches ListingStepView::Done(Ok(offered)) && offered == views);
    assert forall|i: int| 0 <= i < devices.len() implies (#[trigger] devices[i]).is_removable
        || devices[i].is_usb by {
        assert(safe_to_target(views[i]));
        assert(views[i] == devices[i]@);
    }
}

/// A plan of which every command fails as an error of one kind fails, if
/// it fails, with an error of that kind or over a report of another kind
/// than was asked for, provided that every command that was run ran to its
/// end.
pub proof fn lemma_plan_fails_in_kind(
    plan: Seq<PlannedView>,
    reports: Seq<ReportView>,
    from: int,
    kind: FailureKind,
)
    requires
        0 <= from,
        fails_as(plan, kind),
        all_ran(reports),
    ensures
        plan_from(plan, reports, from) matches BackendStepView::Done(EventView::Done(Err(error)))
            ==> is_failure_of(error, kind) || error == unexpected_report(),
    decreases plan.len() - from,
{
    if from < plan.len() && from < reports.len() {
        assert(plan[from].kind == kind);
        assert(ran(reports[from]));
        lemma_plan_fails_in_kind(plan, reports, from + 1, kind);
    }
}

/// A plan ends with the kind of event that an operation without a value
/// ends with.
pub proof fn lemma_plan_answers(plan: Seq<PlannedView>, reports: Seq<ReportView>, from: int)
    requires
        0 <= from,
    ensures
        plan_from(plan, reports, from) matches BackendStepView::Done(event) ==> event is Done,
        !(plan_from(plan, reports, from) is Nothing),
    decreases plan.len() - from,
{
    if from < plan.len() && from < reports.len() {
        lemma_plan_answers(plan, reports, from + 1);
    }
}

} // verus!
