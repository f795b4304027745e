//! Commands for the tools of the platform, and what the tools report.
//!
//! The library says which command is to be run and reads what it printed;
//! running it is left to the caller.

use crate::error::{ErrorView, WowUsbError};
use crate::text::{concat2, contains, copy_list, owned_list, str_contains, str_views, string_views};
use vstd::prelude::*;

verus! {

/// A program and its arguments.
#[derive(Debug, Clone, PartialEq, Eq)]
pub struct CommandSpec {
    pub program: String,
    pub args: Vec<String>,
}

pub struct CommandView {
    pub program: Seq<char>,
    pub args: Seq<Seq<char>>,
}

impl View for CommandSpec {
    type V = CommandView;

    open spec fn view(&self) -> CommandView {
        CommandView { program: self.program@, args: string_views(self.args@) }
    }
}

impl CommandSpec {
    pub fn new(program: &str, args: &Vec<&str>) -> (command: Self)
        ensures
            command@ == (CommandView { program: program@, args: str_views(args@) }),
    {
        CommandSpec { program: String::from_str(program), args: owned_list(args) }
    }

    /// The same command once more.
    pub fn duplicate(&self) -> (command: Self)
        ensures
            command@ == self@,
    {
        CommandSpec { program: self.program.clone(), args: copy_list(&self.args) }
    }
}

/// What a command reported: whether it exited with success, and what it
/// wrote to its standard output and to its standard error.
#[derive(Debug, Clone, PartialEq, Eq)]
pub struct CommandOutput {
    pub success: bool,
    pub stdout: String,
    pub stderr: String,
}

pub struct OutputView {
    pub success: bool,
    pub stdout: Seq<char>,
    pub stderr: Seq<char>,
}

impl View for CommandOutput {
    type V = OutputView;

    open spec fn view(&self) -> OutputView {
        OutputView { success: self.success, stdout: self.stdout@, stderr: self.stderr@ }
    }
}

/// The kinds of error that a failing tool stands for.
#[derive(Debug, Clone, Copy, PartialEq, Eq, Structural)]
pub enum FailureKind {
    DeviceOperation,
    Filesystem,
    IsoProcessing,
}

/// The error of this kind with this message.
pub open spec fn failure(kind: FailureKind, message: Seq<char>) -> ErrorView {
    match kind {
        FailureKind::DeviceOperation => ErrorView::DeviceOperation(message),
        FailureKind::Filesystem => ErrorView::Filesystem(message),
        FailureKind::IsoProcessing => ErrorView::IsoProcessing(message),
    }
}

/// A command together with the error that its failure stands for: an error
/// of kind `kind` whose message is `prefix` followed by what the command
/// wrote to its standard error.
#[derive(Debug, Clone, PartialEq, Eq)]
pub struct PlannedCommand {
    pub command: CommandSpec,
    pub kind: FailureKind,
    pub prefix: String,
}

pub struct PlannedView {
    pub command: CommandView,
    pub kind: FailureKind,
    pub prefix: Seq<char>,
}

impl View for PlannedCommand {
    type V = PlannedView;

    open spec fn view(&self) -> PlannedView {
        PlannedView { command: self.command@, kind: self.kind, prefix: self.prefix@ }
    }
}

/// The views of a list of planned commands.
pub open spec fn planned_views(plan: Seq<PlannedCommand>) -> Seq<PlannedView> {
    plan.map_values(|p: PlannedCommand| p@)
}

/// What the report of a tool means: success, or the error of the given kind
/// with the given prefix before the tool's own words.
pub open spec fn checked(kind: FailureKind, prefix: Seq<char>, output: OutputView) -> Result<
    (),
    ErrorView,
> {
    if output.success {
        Ok(())
    } else {
        Err(failure(kind, prefix + output.stderr))
    }
}

/// The view of a result that carries nothing on success.
pub open spec fn unit_result_view(r: Result<(), WowUsbError>) -> Result<(), ErrorView> {
    match r {
        Ok(_) => Ok(()),
        Err(e) => Err(e@),
    }
}

/// The error of kind `kind` with the message `message`.
pub fn make_failure(kind: FailureKind, message: &str) -> (e: WowUsbError)
    ensures
        e@ == failure(kind, message@),
{
    match kind {
        FailureKind::DeviceOperation => WowUsbError::device_operation(message),
        FailureKind::Filesystem => WowUsbError::filesystem(message),
        FailureKind::IsoProcessing => WowUsbError::iso_processing(message),
    }
}

/// Reads the report of a tool.
pub fn check_output(kind: FailureKind, prefix: &str, output: &CommandOutput) -> (r: Result<
    (),
    WowUsbError,
>)
    ensures
        unit_result_view(r) == checked(kind, prefix@, output@),
{
    if output.success {
        Ok(())
    } else {
        let message = concat2(prefix, output.stderr.as_str());
        Err(make_failure(kind, message.as_str()))
    }
}

impl PlannedCommand {
    pub fn new(program: &str, args: &Vec<&str>, kind: FailureKind, prefix: &str) -> (planned: Self)
        ensures
            planned@ == (PlannedView {
                command: CommandView { program: program@, args: str_views(args@) },
                kind,
                prefix: prefix@,
            }),
    {
        PlannedCommand {
            command: CommandSpec::new(program, args),
            kind,
            prefix: String::from_str(prefix),
        }
    }

    /// Reads the report of this command.
    pub fn check(&self, output: &CommandOutput) -> (r: Result<(), WowUsbError>)
        ensures
            unit_result_view(r) == checked(self@.kind, self@.prefix, output@),
    {
        check_output(self.kind, self.prefix.as_str(), output)
    }
}

/// What the report of `umount` means. A path that was not mounted is as
/// good as unmounted: where `umount` fails and says "not mounted", that is
/// success.
pub open spec fn unmounted(output: OutputView) -> Result<(), ErrorView> {
    if output.success || contains(output.stderr, "not mounted"@) {
        Ok(())
    } else {
        Err(ErrorView::DeviceOperation("Failed to unmount partition: "@ + output.stderr))
    }
}

/// Reads the report of `umount`.
pub fn unmount_report(output: &CommandOutput) -> (r: Result<(), WowUsbError>)
    ensures
        unit_result_view(r) == unmounted(output@),
{
    if !output.success && !str_contains(output.stderr.as_str(), "not mounted") {
        let message = concat2("Failed to unmount partition: ", output.stderr.as_str());
        Err(WowUsbError::device_operation(message.as_str()))
    } else {
        Ok(())
    }
}

/// Unmounting what is not mounted is success: whatever else `umount`
/// reported, its saying that the path is not mounted is enough.
pub proof fn lemma_unmount_is_idempotent(output: OutputView)
    requires
        contains(output.stderr, "not mounted"@),
    ensures
        unmounted(output) == Ok::<(), ErrorView>(()),
{
}

/// An `umount` that exits with success has unmounted.
pub proof fn lemma_unmount_success(output: OutputView)
    requires
        output.success,
    ensures
        unmounted(output) == Ok::<(), ErrorView>(()),
{
}

} // verus!
