//! The macOS backend: which commands provision a device, and what their
//! reports mean.

use crate::backend::{
    all_ran, command_output, create_dir_step, host_step, judge, judged, lemma_plan_answers,
    lemma_plan_ends, lemma_plan_fails_in_kind, lemma_safe_devices, mount_step, output_of, plan_step,
    planned_step, ran, remove_dir_step, report_views, run_for_status, run_mount, run_plan,
    run_plan_after, run_single, status_step, unexpected_report, BackendStep, BackendStepView,
    ListingStep, ListingStepView, PlatformDiskOps, Report, ReportView, Request, RequestView,
};
use crate::command::{
    check_output, checked, planned_views, CommandOutput, CommandSpec, CommandView, FailureKind,
    OutputView, PlannedCommand, PlannedView,
};
use crate::provision::{Action, ActionView, Event, EventView};
use crate::disk::{
    device_views, layout_view, safe_to_target, Device, DeviceView, PartitionConfig, PartitionView,
};
use crate::error::{ErrorView, WowUsbError};
use crate::text::{
    chars_contain, chars_start_with, concat2, concat3, contains, decimal, decimal_string, fields,
    from_chars, lines, pieces, split_fields, split_lines, split_on, starts_with, str_eq, str_views,
    string_views, to_chars, trim, trim_chars, views,
};
use vstd::prelude::*;

verus! {

pub open spec fn list_devices_plan() -> PlannedView {
    PlannedView {
        command: CommandView {
            program: "diskutil"@,
            args: seq!["list"@, "-external"@, "-physical"@],
        },
        kind: FailureKind::DeviceOperation,
        prefix: "diskutil failed: "@,
    }
}

/// The devices that the first `count` lines of a listing name: each line
/// that begins, after its leading whitespace, with `/dev/disk`, without the
/// whitespace around it.
pub open spec fn device_lines_among(listing: Seq<Seq<char>>, count: int) -> Seq<Seq<char>>
    decreases count,
{
    if count <= 0 {
        Seq::empty()
    } else {
        let earlier = device_lines_among(listing, count - 1);
        let line = trim(listing[count - 1]);
        if starts_with(line, "/dev/disk"@) {
            earlier.push(line)
        } else {
            earlier
        }
    }
}

/// The devices that a listing names.
pub open spec fn device_lines(stdout: Seq<char>) -> Seq<Seq<char>> {
    device_lines_among(lines(stdout), lines(stdout).len() as int)
}

pub open spec fn device_info_plan(device: Seq<char>) -> PlannedView {
    PlannedView {
        command: CommandView { program: "diskutil"@, args: seq!["info"@, device] },
        kind: FailureKind::DeviceOperation,
        prefix: "Failed to get device info: "@,
    }
}

/// What is known of a device while its description is read.
pub struct DeviceFacts {
    pub model: Seq<char>,
    pub size: Seq<char>,
    pub is_removable: bool,
    pub is_usb: bool,
}

/// What stands between the first colon of a line and the next, without the
/// whitespace around it.
pub open spec fn value_after_colon(line: Seq<char>) -> Seq<char> {
    if pieces(line, ':').len() > 1 {
        trim(pieces(line, ':')[1])
    } else {
        "Unknown"@
    }
}

/// What one line of a description adds to what is known. A line tells one
/// thing only, and the first kind of line that it is decides which.
pub open spec fn read_fact(facts: DeviceFacts, line: Seq<char>) -> DeviceFacts {
    if contains(line, "Device Node:"@) {
        facts
    } else if contains(line, "Device / Media Name:"@) {
        DeviceFacts { model: value_after_colon(line), ..facts }
    } else if contains(line, "Total Size:"@) {
        DeviceFacts { size: value_after_colon(line), ..facts }
    } else if contains(line, "External"@) {
        DeviceFacts { is_removable: true, ..facts }
    } else if contains(line, "USB"@) {
        DeviceFacts { is_usb: true, ..facts }
    } else {
        facts
    }
}

/// What the first `count` lines of a description tell.
pub open spec fn facts_among(description: Seq<Seq<char>>, count: int) -> DeviceFacts
    decreases count,
{
    if count <= 0 {
        DeviceFacts { model: "Unknown"@, size: "Unknown"@, is_removable: false, is_usb: false }
    } else {
        read_fact(facts_among(description, count - 1), description[count - 1])
    }
}

/// The device that a description tells of.
pub open spec fn described_device(device: Seq<char>, stdout: Seq<char>) -> DeviceView {
    let facts = facts_among(lines(stdout), lines(stdout).len() as int);
    DeviceView {
        name: device,
        size: facts.size,
        model: facts.model,
        filesystem: None,
        mountpoint: None,
        is_removable: facts.is_removable,
        is_usb: facts.is_usb,
    }
}

pub open spec fn unmount_disk_plan(device: Seq<char>) -> PlannedView {
    PlannedView {
        command: CommandView {
            program: "diskutil"@,
            args: seq!["unmountDisk"@, "force"@, device],
        },
        kind: FailureKind::DeviceOperation,
        prefix: "Failed to unmount disk: "@,
    }
}

/// How a partition is written for `diskutil`: its size in megabytes, or
/// zero for the remaining space, then its filesystem.
pub open spec fn partition_argument(partition: PartitionView) -> Seq<char> {
    if partition.size_mb == 0 {
        "0:"@ + partition.filesystem
    } else {
        decimal(partition.size_mb as nat) + "MB:"@ + partition.filesystem
    }
}

/// The partitions as `diskutil` takes them, in the order of the layout.
pub open spec fn partition_arguments(layout: Seq<PartitionView>) -> Seq<Seq<char>> {
    layout.map_values(|p: PartitionView| partition_argument(p))
}

pub open spec fn partition_disk_plan(device: Seq<char>, layout: Seq<PartitionView>) -> PlannedView {
    PlannedView {
        command: CommandView {
            program: "diskutil"@,
            args: seq!["partitionDisk"@, device] + partition_arguments(layout),
        },
        kind: FailureKind::DeviceOperation,
        prefix: "Failed to partition disk: "@,
    }
}

/// The name that `diskutil` has for a filesystem.
pub open spec fn volume_format(filesystem: Seq<char>) -> Option<Seq<char>> {
    if filesystem == "fat32"@ {
        Some("FAT32"@)
    } else if filesystem == "ntfs"@ {
        Some("NTFS"@)
    } else if filesystem == "exfat"@ {
        Some("ExFAT"@)
    } else if filesystem == "apfs"@ {
        Some("APFS"@)
    } else {
        None
    }
}

pub open spec fn format_plan(
    partition: Seq<char>,
    filesystem: Seq<char>,
    label: Seq<char>,
) -> Result<PlannedView, ErrorView> {
    match volume_format(filesystem) {
        Some(format) => Ok(
            PlannedView {
                command: CommandView {
                    program: "diskutil"@,
                    args: seq!["eraseVolume"@, format, partition, "--name"@, label],
                },
                kind: FailureKind::Filesystem,
                prefix: "Failed to format partition: "@,
            },
        ),
        None => Err(ErrorView::Filesystem("Unsupported filesystem: "@ + filesystem)),
    }
}

pub open spec fn mount_plan(partition: Seq<char>, mountpoint: Seq<char>) -> PlannedView {
    PlannedView {
        command: CommandView {
            program: "diskutil"@,
            args: seq!["mount"@, "-mountPoint"@, mountpoint, partition],
        },
        kind: FailureKind::DeviceOperation,
        prefix: "Failed to mount partition: "@,
    }
}

pub open spec fn wipe_plan(device: Seq<char>) -> PlannedView {
    PlannedView {
        command: CommandView { program: "diskutil"@, args: seq!["zeroDisk"@, device] },
        kind: FailureKind::DeviceOperation,
        prefix: "Failed to wipe disk: "@,
    }
}

/// What attaching an image for validation reported to have attached: the
/// first line of the output without the whitespace around it, if it names
/// something under `/dev/`.
pub open spec fn attached_device(stdout: Seq<char>) -> Option<Seq<char>> {
    if lines(stdout).len() > 0 && starts_with(trim(lines(stdout)[0]), "/dev/"@) {
        Some(trim(lines(stdout)[0]))
    } else {
        None
    }
}

/// The first of the lines from index `from` on that begins, after its
/// leading whitespace, with `/Volumes/`.
pub open spec fn volume_line(listing: Seq<Seq<char>>, from: int) -> Option<Seq<char>>
    decreases listing.len() - from,
{
    if from < 0 || from >= listing.len() {
        None
    } else if starts_with(trim(listing[from]), "/Volumes/"@) {
        Some(listing[from])
    } else {
        volume_line(listing, from + 1)
    }
}

/// Where an attached image is mounted: the last word of the first line that
/// begins with `/Volumes/`.
pub open spec fn volume_mount_point(stdout: Seq<char>) -> Option<Seq<char>> {
    match volume_line(lines(stdout), 0) {
        Some(line) => if fields(line).len() > 0 {
            Some(fields(line).last())
        } else {
            None
        },
        None => None,
    }
}

/// No boot loader can be installed from macOS.
pub open spec fn bootloader_error(bootloader_type: Seq<char>) -> ErrorView {
    if bootloader_type == "grub2"@ {
        ErrorView::NotImplemented("GRUB installation on macOS not yet implemented"@)
    } else {
        ErrorView::NotImplemented("Bootloader type not supported: "@ + bootloader_type)
    }
}

/// The macOS backend.
pub struct MacOSDiskOps;

impl MacOSDiskOps {
    pub fn new() -> Self {
        MacOSDiskOps
    }

    /// The command that lists the external physical disks.
    pub fn list_devices_command() -> (planned: PlannedCommand)
        ensures
            planned@ == list_devices_plan(),
    {
        let args = vec!["list", "-external", "-physical"];
        assert(str_views(args@) =~= list_devices_plan().command.args);
        PlannedCommand::new("diskutil", &args, FailureKind::DeviceOperation, "diskutil failed: ")
    }

    /// The devices that the listing names, each to be described in turn.
    pub fn device_lines(stdout: &str) -> (devices: Vec<String>)
        ensures
            string_views(devices@) == device_lines(stdout@),
    {
        let text = to_chars(stdout);
        let listing = split_lines(&text);
        let prefix = to_chars("/dev/disk");
        let mut devices: Vec<String> = Vec::new();
        let mut i: usize = 0;
        assert(string_views(devices@) =~= Seq::<Seq<char>>::empty());
        while i < listing.len()
            invariant
                i <= listing.len(),
                prefix@ == "/dev/disk"@,
                string_views(devices@) == device_lines_among(views(listing@), i as int),
            decreases listing.len() - i,
        {
            let line = trim_chars(&listing[i]);
            assert(views(listing@)[i as int] == listing@[i as int]@);
            if chars_start_with(&line, &prefix) {
                let ghost before = string_views(devices@);
                devices.push(from_chars(&line));
                assert(string_views(devices@) =~= before.push(line@));
            }
            i += 1;
        }
        devices
    }

    /// The command that describes one device.
    pub fn device_info_command(device: &str) -> (planned: PlannedCommand)
        ensures
            planned@ == device_info_plan(device@),
    {
        let args = vec!["info", device];
        assert(str_views(args@) =~= seq!["info"@, device@]);
        PlannedCommand::new(
            "diskutil",
            &args,
            FailureKind::DeviceOperation,
            "Failed to get device info: ",
        )
    }

    fn value_after_colon(line: &Vec<char>) -> (value: String)
        ensures
            value@ == value_after_colon(line@),
    {
        let parts = split_on(line, ':');
        if parts.len() > 1 {
            assert(views(parts@)[1] == parts@[1]@);
            let value = trim_chars(&parts[1]);
            from_chars(&value)
        } else {
            String::from_str("Unknown")
        }
    }

    /// Reads the description of a device: a device error if the tool failed,
    /// else the device with the model, the size and the flags that the
    /// description tells.
    pub fn get_device_info(device: &str, output: &CommandOutput) -> (r: Result<Device, WowUsbError>)
        ensures
            match checked(
                FailureKind::DeviceOperation,
                "Failed to get device info: "@,
                output@,
            ) {
                Ok(_) => r matches Ok(d) && d@ == described_device(device@, output@.stdout),
                Err(error) => r matches Err(e) && e@ == error,
            },
    {
        match check_output(FailureKind::DeviceOperation, "Failed to get device info: ", output) {
            Ok(_) => {},
            Err(e) => {
                return Err(e);
            },
        }
        let text = to_chars(output.stdout.as_str());
        let description = split_lines(&text);
        let node = to_chars("Device Node:");
        let name = to_chars("Device / Media Name:");
        let total = to_chars("Total Size:");
        let external = to_chars("External");
        let usb = to_chars("USB");
        let mut model = String::from_str("Unknown");
        let mut size = String::from_str("Unknown");
        let mut is_removable = false;
        let mut is_usb = false;
        let mut i: usize = 0;
        while i < description.len()
            invariant
                i <= description.len(),
                node@ == "Device Node:"@,
                name@ == "Device / Media Name:"@,
                total@ == "Total Size:"@,
                external@ == "External"@,
                usb@ == "USB"@,
                facts_among(views(description@), i as int) == (DeviceFacts {
                    model: model@,
                    size: size@,
                    is_removable,
                    is_usb,
                }),
            decreases description.len() - i,
        {
            let line = &description[i];
            assert(views(description@)[i as int] == line@);
            if chars_contain(line, &node) {
            } else if chars_contain(line, &name) {
                model = Self::value_after_colon(line);
            } else if chars_contain(line, &total) {
                size = Self::value_after_colon(line);
            } else if chars_contain(line, &external) {
                is_removable = true;
            } else if chars_contain(line, &usb) {
                is_usb = true;
            }
            i += 1;
        }
        Ok(
            Device {
                name: String::from_str(device),
                size,
                model,
                filesystem: None,
                mountpoint: None,
                is_removable,
                is_usb,
            },
        )
    }

    /// The command that describes `device`; the device is real exactly if
    /// the command succeeds.
    pub fn verify_device_command(device: &str) -> (command: CommandSpec)
        ensures
            command@ == device_info_plan(device@).command,
    {
        let args = vec!["info", device];
        assert(str_views(args@) =~= seq!["info"@, device@]);
        CommandSpec::new("diskutil", &args)
    }

    /// Whether the report says that the device is real.
    pub fn device_is_real(output: &CommandOutput) -> (found: bool)
        ensures
            found == output@.success,
    {
        output.success
    }

    /// The commands that replace the partition table of `device` by the
    /// layout: one that unmounts the disk, one that partitions it.
    pub fn create_partitions_commands(device: &str, config: &Vec<PartitionConfig>) -> (plan: Vec<
        PlannedCommand,
    >)
        ensures
            planned_views(plan@) == seq![
                unmount_disk_plan(device@),
                partition_disk_plan(device@, layout_view(config@)),
            ],
    {
        let ghost layout = layout_view(config@);
        let unmount_args = vec!["unmountDisk", "force", device];
        assert(str_views(unmount_args@) =~= seq!["unmountDisk"@, "force"@, device@]);
        let unmount = PlannedCommand::new(
            "diskutil",
            &unmount_args,
            FailureKind::DeviceOperation,
            "Failed to unmount disk: ",
        );
        let mut args: Vec<String> = Vec::new();
        args.push(String::from_str("partitionDisk"));
        args.push(String::from_str(device));
        assert(string_views(args@) =~= seq!["partitionDisk"@, device@]);
        let mut i: usize = 0;
        assert(partition_arguments(layout.take(0)) =~= Seq::<Seq<char>>::empty());
        assert(string_views(args@) =~= seq!["partitionDisk"@, device@] + partition_arguments(
            layout.take(0),
        ));
        while i < config.len()
            invariant
                i <= config.len(),
                layout == layout_view(config@),
                string_views(args@) == seq!["partitionDisk"@, device@] + partition_arguments(
                    layout.take(i as int),
                ),
            decreases config.len() - i,
        {
            let partition = &config[i];
            assert(layout[i as int] == partition@);
            let argument = if partition.size_mb == 0 {
                concat2("0:", partition.filesystem.as_str())
            } else {
                concat3(
                    decimal_string(partition.size_mb).as_str(),
                    "MB:",
                    partition.filesystem.as_str(),
                )
            };
            let ghost before = string_views(args@);
            let ghost written = argument@;
            args.push(argument);
            assert(string_views(args@) =~= before.push(written));
            assert(partition_arguments(layout.take(i + 1)) =~= partition_arguments(
                layout.take(i as int),
            ).push(partition_argument(layout[i as int])));
            i += 1;
        }
        assert(layout.take(config@.len() as int) =~= layout);
        let partition = PlannedCommand {
            command: CommandSpec { program: String::from_str("diskutil"), args },
            kind: FailureKind::DeviceOperation,
            prefix: String::from_str("Failed to partition disk: "),
        };
        let mut plan: Vec<PlannedCommand> = Vec::new();
        plan.push(unmount);
        plan.push(partition);
        assert(planned_views(plan@) =~= seq![
            unmount_disk_plan(device@),
            partition_disk_plan(device@, layout),
        ]);
        plan
    }

    /// The command that makes the filesystem, or a filesystem error for a
    /// filesystem that macOS cannot make.
    pub fn format_command(partition: &str, filesystem: &str, label: &str) -> (r: Result<
        PlannedCommand,
        WowUsbError,
    >)
        ensures
            match format_plan(partition@, filesystem@, label@) {
                Ok(expected) => r matches Ok(planned) && planned@ == expected,
                Err(error) => r matches Err(e) && e@ == error,
            },
    {
        let format = if str_eq(filesystem, "fat32") {
            "FAT32"
        } else if str_eq(filesystem, "ntfs") {
            "NTFS"
        } else if str_eq(filesystem, "exfat") {
            "ExFAT"
        } else if str_eq(filesystem, "apfs") {
            "APFS"
        } else {
            let message = concat2("Unsupported filesystem: ", filesystem);
            return Err(WowUsbError::filesystem(message.as_str()));
        };
        let args = vec!["eraseVolume", format, partition, "--name", label];
        assert(str_views(args@) =~= seq!["eraseVolume"@, format@, partition@, "--name"@, label@]);
        Ok(
            PlannedCommand::new(
                "diskutil",
                &args,
                FailureKind::Filesystem,
                "Failed to format partition: ",
            ),
        )
    }

    /// The command that mounts `partition` at `mountpoint`. The directory
    /// must exist before the command runs.
    pub fn mount_command(partition: &str, mountpoint: &str) -> (planned: PlannedCommand)
        ensures
            planned@ == mount_plan(partition@, mountpoint@),
    {
        let args = vec!["mount", "-mountPoint", mountpoint, partition];
        assert(str_views(args@) =~= seq!["mount"@, "-mountPoint"@, mountpoint@, partition@]);
        PlannedCommand::new(
            "diskutil",
            &args,
            FailureKind::DeviceOperation,
            "Failed to mount partition: ",
        )
    }

    /// Reads the report of the mount: the path at which the partition is
    /// mounted, which is the one that was asked for.
    pub fn mount_result(output: &CommandOutput, mountpoint: &str) -> (r: Result<String, WowUsbError>)
        ensures
            match checked(
                FailureKind::DeviceOperation,
                "Failed to mount partition: "@,
                output@,
            ) {
                Ok(_) => r matches Ok(path) && path@ == mountpoint@,
                Err(error) => r matches Err(e) && e@ == error,
            },
    {
        match check_output(FailureKind::DeviceOperation, "Failed to mount partition: ", output) {
            Ok(_) => Ok(String::from_str(mountpoint)),
            Err(e) => Err(e),
        }
    }

    /// The command that unmounts what is mounted at `mountpoint`.
    pub fn unmount_command(mountpoint: &str) -> (command: CommandSpec)
        ensures
            command@ == unmount_command(mountpoint@),
    {
        let args = vec!["unmount", mountpoint];
        assert(str_views(args@) =~= seq!["unmount"@, mountpoint@]);
        CommandSpec::new("diskutil", &args)
    }

    /// The command that overwrites `device` with zeros.
    pub fn wipe_command(device: &str) -> (planned: PlannedCommand)
        ensures
            planned@ == wipe_plan(device@),
    {
        let args = vec!["zeroDisk", device];
        assert(str_views(args@) =~= seq!["zeroDisk"@, device@]);
        PlannedCommand::new("diskutil", &args, FailureKind::DeviceOperation, "Failed to wipe disk: ")
    }

    /// The command that attaches the image to see whether it is one. The
    /// image is valid exactly if the command succeeds; what it attached is
    /// then to be detached.
    pub fn validate_iso_command(iso_path: &str) -> (command: CommandSpec)
        ensures
            command@ == attach_for_validation(iso_path@),
    {
        let args = vec!["attach", "-readonly", "-noverify", iso_path];
        assert(str_views(args@) =~= seq!["attach"@, "-readonly"@, "-noverify"@, iso_path@]);
        CommandSpec::new("hdiutil", &args)
    }

    /// What the validation attached, if the report names it.
    pub fn attached_device(stdout: &str) -> (device: Option<String>)
        ensures
            match attached_device(stdout@) {
                Some(expected) => device matches Some(d) && d@ == expected,
                None => device is None,
            },
    {
        let text = to_chars(stdout);
        let listing = split_lines(&text);
        if listing.len() == 0 {
            return None;
        }
        assert(views(listing@)[0] == listing@[0]@);
        let first = trim_chars(&listing[0]);
        let prefix = to_chars("/dev/");
        if chars_start_with(&first, &prefix) {
            Some(from_chars(&first))
        } else {
            None
        }
    }

    /// The command that detaches an attached image.
    pub fn detach_command(attached: &str) -> (planned: PlannedCommand)
        ensures
            planned@ == detach_plan(attached@),
    {
        let args = vec!["detach", attached];
        assert(str_views(args@) =~= seq!["detach"@, attached@]);
        PlannedCommand::new(
            "hdiutil",
            &args,
            FailureKind::IsoProcessing,
            "Failed to unmount ISO: ",
        )
    }

    /// The command that attaches the image so that its contents can be
    /// copied.
    pub fn attach_command(iso_path: &str) -> (planned: PlannedCommand)
        ensures
            planned@ == attach_plan(iso_path@),
    {
        let args = vec!["attach", iso_path];
        assert(str_views(args@) =~= seq!["attach"@, iso_path@]);
        PlannedCommand::new("hdiutil", &args, FailureKind::IsoProcessing, "Failed to mount ISO: ")
    }

    /// Where the attached image is mounted, if the report says so. When it
    /// does not, nothing is copied and nothing is detached.
    pub fn volume_mount_point(stdout: &str) -> (mount_point: Option<String>)
        ensures
            match volume_mount_point(stdout@) {
                Some(expected) => mount_point matches Some(p) && p@ == expected,
                None => mount_point is None,
            },
    {
        let text = to_chars(stdout);
        let listing = split_lines(&text);
        let prefix = to_chars("/Volumes/");
        let mut i: usize = 0;
        while i < listing.len()
            invariant
                i <= listing.len(),
                prefix@ == "/Volumes/"@,
                views(listing@) == lines(stdout@),
                volume_line(views(listing@), 0) == volume_line(views(listing@), i as int),
            decreases listing.len() - i,
        {
            assert(views(listing@)[i as int] == listing@[i as int]@);
            let trimmed = trim_chars(&listing[i]);
            if chars_start_with(&trimmed, &prefix) {
                let words = split_fields(&listing[i]);
                if words.len() > 0 {
                    assert(views(words@).last() == words@[words@.len() - 1]@);
                    return Some(from_chars(&words[words.len() - 1]));
                } else {
                    return None;
                }
            }
            i += 1;
        }
        None
    }

    /// The command that copies the contents of the attached image.
    pub fn copy_command(mount_point: &str, target_path: &str) -> (planned: PlannedCommand)
        ensures
            planned@ == copy_plan(mount_point@, target_path@),
    {
        let args = vec!["-R", mount_point, target_path];
        assert(str_views(args@) =~= seq!["-R"@, mount_point@, target_path@]);
        PlannedCommand::new("cp", &args, FailureKind::IsoProcessing, "Failed to copy files: ")
    }

    /// Installing a boot loader from macOS is not possible: whatever is
    /// asked for, this is the error that says so.
    pub fn refuse_bootloader(bootloader_type: &str) -> (r: Result<(), WowUsbError>)
        ensures
            r matches Err(e) && e@ == bootloader_error(bootloader_type@),
    {
        if str_eq(bootloader_type, "grub2") {
            Err(WowUsbError::not_implemented("GRUB installation on macOS not yet implemented"))
        } else {
            let message = concat2("Bootloader type not supported: ", bootloader_type);
            Err(WowUsbError::not_implemented(message.as_str()))
        }
    }
}

/// The devices among the first `count` of the listed ones that could be
/// described and are safe to target, in the order of the listing. A device
/// whose description failed, or tells neither that the device is external
/// nor that it hangs on the USB bus, is left out.
pub open spec fn described_among(
    devices: Seq<Seq<char>>,
    descriptions: Seq<ReportView>,
    count: int,
) -> Seq<DeviceView>
    decreases count,
{
    if count <= 0 {
        Seq::empty()
    } else {
        let earlier = described_among(devices, descriptions, count - 1);
        let device = devices[count - 1];
        match judged(device_info_plan(device), descriptions[count - 1]) {
            Ok(_) => {
                let described = described_device(
                    device,
                    output_of(descriptions[count - 1])->Ok_0.stdout,
                );
                if safe_to_target(described) {
                    earlier.push(described)
                } else {
                    earlier
                }
            },
            Err(_) => earlier,
        }
    }
}

/// What the macOS backend does next to enumerate the devices: the disks
/// are listed, then each listed device is described in turn.
pub open spec fn macos_listing(reports: Seq<ReportView>) -> ListingStepView {
    if reports.len() == 0 {
        ListingStepView::Ask(
            RequestView::Run { command: list_devices_plan().command, read_output: true },
        )
    } else {
        match judged(list_devices_plan(), reports[0]) {
            Err(error) => ListingStepView::Done(Err(error)),
            Ok(_) => {
                let devices = device_lines(output_of(reports[0])->Ok_0.stdout);
                if reports.len() - 1 < devices.len() {
                    ListingStepView::Ask(
                        RequestView::Run {
                            command: device_info_plan(devices[reports.len() - 1]).command,
                            read_output: true,
                        },
                    )
                } else {
                    ListingStepView::Done(
                        Ok(described_among(devices, reports.skip(1), devices.len() as int)),
                    )
                }
            },
        }
    }
}

/// The partitions are handed to `diskutil` in the order of the layout,
/// right after the device, each with its own size in megabytes; only a
/// partition that asks for the remaining space is written with the size
/// zero.
pub proof fn lemma_partitions_are_named_in_order(
    device: Seq<char>,
    layout: Seq<PartitionView>,
    index: int,
)
    requires
        0 <= index < layout.len(),
    ensures
        partition_disk_plan(device, layout).command.args.len() == 2 + layout.len(),
        partition_disk_plan(device, layout).command.args[0] == "partitionDisk"@,
        partition_disk_plan(device, layout).command.args[1] == device,
        partition_disk_plan(device, layout).command.args[2 + index] == partition_argument(
            layout[index],
        ),
        layout[index].size_mb == 0 ==> partition_argument(layout[index]) == "0:"@
            + layout[index].filesystem,
        layout[index].size_mb != 0 ==> partition_argument(layout[index]) == decimal(
            layout[index].size_mb,
        ) + "MB:"@ + layout[index].filesystem,
{
}

pub open spec fn unmount_command(mountpoint: Seq<char>) -> CommandView {
    CommandView { program: "diskutil"@, args: seq!["unmount"@, mountpoint] }
}

/// The error of an unmount that failed while the path was mounted.
pub open spec fn unmount_failure(output: OutputView) -> ErrorView {
    ErrorView::DeviceOperation("Failed to unmount partition: "@ + output.stderr)
}

/// Where an unmount stands. If `diskutil` fails, the host is asked whether
/// anything is mounted at the path: where nothing is, the unmount has
/// succeeded, for a path that was not mounted is as good as unmounted;
/// where something still is, the unmount has failed as a device operation.
pub open spec fn unmount_partition_step(
    mountpoint: Seq<char>,
    reports: Seq<ReportView>,
) -> BackendStepView {
    if reports.len() == 0 {
        BackendStepView::Ask(
            RequestView::Run { command: unmount_command(mountpoint), read_output: false },
        )
    } else {
        match output_of(reports[0]) {
            Err(error) => BackendStepView::Done(EventView::Done(Err(error))),
            Ok(output) => if output.success {
                BackendStepView::Done(EventView::Done(Ok(())))
            } else if reports.len() == 1 {
                BackendStepView::Ask(RequestView::MountedAt { path: mountpoint })
            } else {
                match reports[1] {
                    ReportView::Mounted(mounted) => if mounted {
                        BackendStepView::Done(EventView::Done(Err(unmount_failure(output))))
                    } else {
                        BackendStepView::Done(EventView::Done(Ok(())))
                    },
                    _ => BackendStepView::Done(EventView::Done(Err(unexpected_report()))),
                }
            },
        }
    }
}

/// Unmounting a path at which nothing is mounted is success, whatever
/// `diskutil` makes of it.
pub proof fn lemma_unmount_of_what_is_not_mounted(mountpoint: Seq<char>, output: OutputView)
    ensures
        unmount_partition_step(
            mountpoint,
            seq![ReportView::Command(Ok(output)), ReportView::Mounted(false)],
        ) == BackendStepView::Done(EventView::Done(Ok(()))),
{
}

/// An unmount that fails while the path is still mounted is a failed device
/// operation, and an unmount that `diskutil` reports as done is done.
pub proof fn lemma_unmount_outcomes(mountpoint: Seq<char>, output: OutputView)
    ensures
        output.success ==> unmount_partition_step(
            mountpoint,
            seq![ReportView::Command(Ok(output))],
        ) == BackendStepView::Done(EventView::Done(Ok(()))),
        !output.success ==> unmount_partition_step(
            mountpoint,
            seq![ReportView::Command(Ok(output)), ReportView::Mounted(true)],
        ) == BackendStepView::Done(EventView::Done(Err(unmount_failure(output)))),
{
}

/// The command that attaches an image to see whether it is one.
pub open spec fn attach_for_validation(iso_path: Seq<char>) -> CommandView {
    CommandView {
        program: "hdiutil"@,
        args: seq!["attach"@, "-readonly"@, "-noverify"@, iso_path],
    }
}

pub open spec fn detach_plan(attached: Seq<char>) -> PlannedView {
    PlannedView {
        command: CommandView { program: "hdiutil"@, args: seq!["detach"@, attached] },
        kind: FailureKind::IsoProcessing,
        prefix: "Failed to unmount ISO: "@,
    }
}

pub open spec fn attach_plan(iso_path: Seq<char>) -> PlannedView {
    PlannedView {
        command: CommandView { program: "hdiutil"@, args: seq!["attach"@, iso_path] },
        kind: FailureKind::IsoProcessing,
        prefix: "Failed to mount ISO: "@,
    }
}

pub open spec fn copy_plan(mount_point: Seq<char>, target_path: Seq<char>) -> PlannedView {
    PlannedView {
        command: CommandView { program: "cp"@, args: seq!["-R"@, mount_point, target_path] },
        kind: FailureKind::IsoProcessing,
        prefix: "Failed to copy files: "@,
    }
}

/// Where the validation of an image stands: the image is attached; if that
/// fails it is no image; else what was attached is detached again, and the
/// image is valid whatever the detaching reports.
pub open spec fn validate_step(iso_path: Seq<char>, reports: Seq<ReportView>) -> BackendStepView {
    if reports.len() == 0 {
        BackendStepView::Ask(
            RequestView::Run { command: attach_for_validation(iso_path), read_output: true },
        )
    } else {
        match output_of(reports[0]) {
            Err(error) => BackendStepView::Done(EventView::Flag(Err(error))),
            Ok(output) => if !output.success {
                BackendStepView::Done(EventView::Flag(Ok(false)))
            } else {
                match attached_device(output.stdout) {
                    None => BackendStepView::Done(EventView::Flag(Ok(true))),
                    Some(attached) => if reports.len() == 1 {
                        BackendStepView::Ask(RequestView::Run {
                            command: detach_plan(attached).command,
                            read_output: false,
                        })
                    } else {
                        BackendStepView::Done(
                            EventView::Flag(
                                match output_of(reports[1]) {
                                    Ok(_) => Ok(true),
                                    Err(error) => Err(error),
                                },
                            ),
                        )
                    },
                }
            },
        }
    }
}

/// Where the copying of an image stands: the image is attached; if the
/// report says where, its contents are copied from there and it is
/// detached; if it does not, nothing is copied.
pub open spec fn extract_step(
    iso_path: Seq<char>,
    target_path: Seq<char>,
    reports: Seq<ReportView>,
) -> BackendStepView {
    if reports.len() == 0 {
        BackendStepView::Ask(
            RequestView::Run { command: attach_plan(iso_path).command, read_output: true },
        )
    } else {
        match judged(attach_plan(iso_path), reports[0]) {
            Err(error) => BackendStepView::Done(EventView::Done(Err(error))),
            Ok(_) => match volume_mount_point(output_of(reports[0])->Ok_0.stdout) {
                None => BackendStepView::Done(EventView::Done(Ok(()))),
                Some(mount_point) => plan_step(
                    seq![copy_plan(mount_point, target_path), detach_plan(mount_point)],
                    reports.skip(1),
                ),
            },
        }
    }
}

/// What the macOS backend does next for an action.
pub open spec fn macos_next(action: ActionView, reports: Seq<ReportView>) -> BackendStepView {
    match action {
        ActionView::ValidateIso { iso_path } => validate_step(iso_path, reports),
        ActionView::VerifyDevice { device } => status_step(
            device_info_plan(device).command,
            reports,
        ),
        ActionView::CreatePartitions { device, layout } => plan_step(
            seq![unmount_disk_plan(device), partition_disk_plan(device, layout)],
            reports,
        ),
        ActionView::FormatPartition { partition, filesystem, label } => planned_step(
            match format_plan(partition, filesystem, label) {
                Ok(planned) => Ok(seq![planned]),
                Err(error) => Err(error),
            },
            reports,
        ),
        ActionView::CreateMountDir { path } => host_step(
            BackendStepView::Ask(RequestView::CreateDir { path }),
            reports,
        ),
        ActionView::MountPartition { partition, mountpoint } => mount_step(
            mount_plan(partition, mountpoint),
            mountpoint,
            reports,
        ),
        ActionView::ExtractIso { iso_path, target_path } => extract_step(
            iso_path,
            target_path,
            reports,
        ),
        ActionView::InstallBootloader { device, bootloader_type } => BackendStepView::Done(
            EventView::Done(Err(bootloader_error(bootloader_type))),
        ),
        ActionView::UnmountPartition { mountpoint } => unmount_partition_step(mountpoint, reports),
        ActionView::RemoveMountDir { path } => host_step(
            BackendStepView::Ask(RequestView::RemoveDir { path }),
            reports,
        ),
        ActionView::Finish { .. } => BackendStepView::Nothing,
        ActionView::Idle => BackendStepView::Nothing,
    }
}

/// The number of reports after which an action is over on macOS.
pub open spec fn macos_budget(action: ActionView) -> nat {
    match action {
        ActionView::ValidateIso { .. } => 2,
        ActionView::CreatePartitions { .. } => 2,
        ActionView::MountPartition { .. } => 2,
        ActionView::UnmountPartition { .. } => 2,
        ActionView::ExtractIso { .. } => 3,
        ActionView::InstallBootloader { .. } => 0,
        ActionView::Finish { .. } => 0,
        ActionView::Idle => 0,
        _ => 1,
    }
}

impl MacOSDiskOps {
    /// Whether the image at `iso_path` is valid: it is if it can be
    /// attached. An image that cannot is invalid, which is an answer and
    /// not an error. What was attached is detached again.
    pub fn validate_iso(&self, iso_path: &str, reports: &Vec<Report>) -> (step: BackendStep)
        ensures
            step@ == validate_step(iso_path@, report_views(reports@)),
    {
        if reports.len() == 0 {
            return BackendStep::Ask(Request::Run {
                command: Self::validate_iso_command(iso_path),
                read_output: true,
            });
        }
        assert(report_views(reports@)[0] == reports@[0]@);
        let output = match command_output(&reports[0]) {
            Ok(output) => output,
            Err(error) => {
                return BackendStep::Done(Event::Flag(Err(error)));
            },
        };
        if !output.success {
            return BackendStep::Done(Event::Flag(Ok(false)));
        }
        match Self::attached_device(output.stdout.as_str()) {
            None => BackendStep::Done(Event::Flag(Ok(true))),
            Some(attached) => {
                if reports.len() == 1 {
                    BackendStep::Ask(Request::Run {
                        command: Self::detach_command(attached.as_str()).command,
                        read_output: false,
                    })
                } else {
                    assert(report_views(reports@)[1] == reports@[1]@);
                    match command_output(&reports[1]) {
                        Ok(_) => BackendStep::Done(Event::Flag(Ok(true))),
                        Err(error) => BackendStep::Done(Event::Flag(Err(error))),
                    }
                }
            },
        }
    }

    /// Copies the contents of the image into `target_path`: the image is
    /// attached, copied from where it is mounted, and detached; a failure
    /// is an image error.
    pub fn extract_iso(&self, iso_path: &str, target_path: &str, reports: &Vec<Report>) -> (step:
        BackendStep)
        ensures
            step@ == extract_step(iso_path@, target_path@, report_views(reports@)),
    {
        let attach = Self::attach_command(iso_path);
        if reports.len() == 0 {
            return BackendStep::Ask(Request::Run { command: attach.command, read_output: true });
        }
        assert(report_views(reports@)[0] == reports@[0]@);
        match judge(&attach, &reports[0]) {
            Ok(_) => {},
            Err(error) => {
                return BackendStep::Done(Event::Done(Err(error)));
            },
        }
        let output = match command_output(&reports[0]) {
            Ok(output) => output,
            Err(error) => {
                return BackendStep::Done(Event::Done(Err(error)));
            },
        };
        match Self::volume_mount_point(output.stdout.as_str()) {
            None => BackendStep::Done(Event::Done(Ok(()))),
            Some(mount_point) => {
                let mut plan: Vec<PlannedCommand> = Vec::new();
                plan.push(Self::copy_command(mount_point.as_str(), target_path));
                plan.push(Self::detach_command(mount_point.as_str()));
                assert(planned_views(plan@) =~= seq![
                    copy_plan(mount_point@, target_path@),
                    detach_plan(mount_point@),
                ]);
                run_plan_after(&plan, reports, 1)
            },
        }
    }
}

impl MacOSDiskOps {
    /// Whether `device` is a device: it is if `diskutil` can describe it. A
    /// device that it cannot describe is none, which is an answer and not
    /// an error.
    pub fn verify_device(&self, device: &str, reports: &Vec<Report>) -> (step: BackendStep)
        ensures
            step@ == status_step(device_info_plan(device@).command, report_views(reports@)),
    {
        run_for_status(Self::verify_device_command(device), reports)
    }

    /// Replaces the partition table of `device` by the layout: the disk is
    /// unmounted, then partitioned with each entry at its own size, in the
    /// order of the layout; a failure is a failed device operation.
    pub fn create_partitions(
        &self,
        device: &str,
        config: &Vec<PartitionConfig>,
        reports: &Vec<Report>,
    ) -> (step: BackendStep)
        ensures
            step@ == plan_step(
                seq![
                    unmount_disk_plan(device@),
                    partition_disk_plan(device@, layout_view(config@)),
                ],
                report_views(reports@),
            ),
    {
        run_plan(&Self::create_partitions_commands(device, config), reports)
    }

    /// Makes a filesystem on `partition`: a filesystem that macOS cannot
    /// make is refused before anything is run, and a failure of the tool is
    /// a filesystem error.
    pub fn format_partition(
        &self,
        partition: &str,
        filesystem: &str,
        label: &str,
        reports: &Vec<Report>,
    ) -> (step: BackendStep)
        ensures
            step@ == planned_step(
                match format_plan(partition@, filesystem@, label@) {
                    Ok(planned) => Ok(seq![planned]),
                    Err(error) => Err(error),
                },
                report_views(reports@),
            ),
    {
        match Self::format_command(partition, filesystem, label) {
            Ok(planned) => run_single(planned, reports),
            Err(error) => BackendStep::Done(Event::Done(Err(error))),
        }
    }

    /// Mounts `partition` at `mountpoint`, which is created first if it is
    /// not there, and answers with the path at which the partition is
    /// mounted.
    pub fn mount_partition(&self, partition: &str, mountpoint: &str, reports: &Vec<Report>) -> (step:
        BackendStep)
        ensures
            step@ == mount_step(
                mount_plan(partition@, mountpoint@),
                mountpoint@,
                report_views(reports@),
            ),
    {
        run_mount(Self::mount_command(partition, mountpoint), mountpoint, reports)
    }

    /// Unmounts what is mounted at `mountpoint`. When `diskutil` fails and
    /// nothing is found mounted at the path, the unmount has succeeded; when
    /// something still is, it has failed as a device operation.
    pub fn unmount_partition(&self, mountpoint: &str, reports: &Vec<Report>) -> (step: BackendStep)
        ensures
            step@ == unmount_partition_step(mountpoint@, report_views(reports@)),
    {
        if reports.len() == 0 {
            return BackendStep::Ask(
                Request::Run { command: Self::unmount_command(mountpoint), read_output: false },
            );
        }
        assert(report_views(reports@)[0] == reports@[0]@);
        let output = match command_output(&reports[0]) {
            Ok(output) => output,
            Err(error) => {
                return BackendStep::Done(Event::Done(Err(error)));
            },
        };
        if output.success {
            return BackendStep::Done(Event::Done(Ok(())));
        }
        if reports.len() == 1 {
            return BackendStep::Ask(Request::MountedAt { path: String::from_str(mountpoint) });
        }
        assert(report_views(reports@)[1] == reports@[1]@);
        match &reports[1] {
            Report::Mounted(mounted) => {
                if *mounted {
                    let message = concat2("Failed to unmount partition: ", output.stderr.as_str());
                    BackendStep::Done(
                        Event::Done(Err(WowUsbError::device_operation(message.as_str()))),
                    )
                } else {
                    BackendStep::Done(Event::Done(Ok(())))
                }
            },
            _ => BackendStep::Done(
                Event::Done(
                    Err(WowUsbError::configuration("Unexpected report for the current step")),
                ),
            ),
        }
    }

    /// Installing a boot loader from macOS is not possible: whatever is
    /// asked for is refused as not implemented, before anything is run.
    pub fn install_bootloader(
        &self,
        device: &str,
        bootloader_type: &str,
        reports: &Vec<Report>,
    ) -> (step: BackendStep)
        ensures
            step@ == BackendStepView::Done(EventView::Done(Err(bootloader_error(bootloader_type@)))),
    {
        BackendStep::Done(Event::Done(Self::refuse_bootloader(bootloader_type)))
    }
}

impl PlatformDiskOps for MacOSDiskOps {
    open spec fn next(&self, action: ActionView, reports: Seq<ReportView>) -> BackendStepView {
        macos_next(action, reports)
    }

    open spec fn budget(&self, action: ActionView) -> nat {
        macos_budget(action)
    }

    fn advance(&self, action: &Action, reports: &Vec<Report>) -> (step: BackendStep) {
        match action {
            Action::ValidateIso { iso_path } => self.validate_iso(iso_path.as_str(), reports),
            Action::VerifyDevice { device } => self.verify_device(device.as_str(), reports),
            Action::CreatePartitions { device, layout } => self.create_partitions(
                device.as_str(),
                layout,
                reports,
            ),
            Action::FormatPartition { partition, filesystem, label } => self.format_partition(
                partition.as_str(),
                filesystem.as_str(),
                label.as_str(),
                reports,
            ),
            Action::CreateMountDir { path } => create_dir_step(path.as_str(), reports),
            Action::MountPartition { partition, mountpoint } => self.mount_partition(
                partition.as_str(),
                mountpoint.as_str(),
                reports,
            ),
            Action::ExtractIso { iso_path, target_path } => self.extract_iso(
                iso_path.as_str(),
                target_path.as_str(),
                reports,
            ),
            Action::InstallBootloader { device, bootloader_type } => self.install_bootloader(
                device.as_str(),
                bootloader_type.as_str(),
                reports,
            ),
            Action::UnmountPartition { mountpoint } => self.unmount_partition(
                mountpoint.as_str(),
                reports,
            ),
            Action::RemoveMountDir { path } => remove_dir_step(path.as_str(), reports),
            Action::Finish { .. } => BackendStep::Nothing,
            Action::Idle => BackendStep::Nothing,
        }
    }

    open spec fn listing(&self, reports: Seq<ReportView>) -> ListingStepView {
        macos_listing(reports)
    }

    fn list_devices(&self, reports: &Vec<Report>) -> (step: ListingStep) {
        let listing = Self::list_devices_command();
        if reports.len() == 0 {
            return ListingStep::Ask(Request::Run { command: listing.command, read_output: true });
        }
        assert(report_views(reports@)[0] == reports@[0]@);
        match judge(&listing, &reports[0]) {
            Ok(_) => {},
            Err(error) => {
                return ListingStep::Done(Err(error));
            },
        }
        let output = match command_output(&reports[0]) {
            Ok(output) => output,
            Err(error) => {
                return ListingStep::Done(Err(error));
            },
        };
        let names = Self::device_lines(output.stdout.as_str());
        let described: usize = reports.len() - 1;
        if described < names.len() {
            assert(string_views(names@)[described as int] == names@[described as int]@);
            return ListingStep::Ask(
                Request::Run {
                    command: Self::device_info_command(names[described].as_str()).command,
                    read_output: true,
                },
            );
        }
        let ghost descriptions = report_views(reports@).skip(1);
        let mut devices: Vec<Device> = Vec::new();
        let mut i: usize = 0;
        assert(device_views(devices@) =~= Seq::<DeviceView>::empty());
        while i < names.len()
            invariant
                i <= names.len(),
                names.len() <= reports.len() - 1,
                descriptions == report_views(reports@).skip(1),
                device_views(devices@) == described_among(
                    string_views(names@),
                    descriptions,
                    i as int,
                ),
            decreases names.len() - i,
        {
            assert(string_views(names@)[i as int] == names@[i as int]@);
            assert(descriptions[i as int] == reports@[i + 1]@);
            let ghost before = device_views(devices@);
            match command_output(&reports[i + 1]) {
                Ok(description) => {
                    match Self::get_device_info(names[i].as_str(), description) {
                        Ok(device) => {
                            if device.is_removable || device.is_usb {
                                let ghost view = device@;
                                devices.push(device);
                                assert(device_views(devices@) =~= before.push(view));
                            }
                        },
                        Err(_) => {},
                    }
                },
                Err(_) => {},
            }
            i += 1;
        }
        proof {
            self.only_safe_devices_are_offered(report_views(reports@));
            lemma_safe_devices(self.listing(report_views(reports@)), devices@);
        }
        ListingStep::Done(Ok(devices))
    }

    open spec fn listing_budget(&self, first: ReportView) -> nat {
        match judged(list_devices_plan(), first) {
            Ok(_) => 1 + device_lines(output_of(first)->Ok_0.stdout).len(),
            Err(_) => 1,
        }
    }

    proof fn listing_ends(&self, reports: Seq<ReportView>) {
    }

    proof fn only_safe_devices_are_offered(&self, reports: Seq<ReportView>) {
        if reports.len() > 0 && judged(list_devices_plan(), reports[0]) is Ok {
            let devices = device_lines(output_of(reports[0])->Ok_0.stdout);
            lemma_described_devices_are_safe(devices, reports.skip(1), devices.len() as int);
        }
    }

    proof fn failed_listing_is_a_device_error(&self, output: OutputView) {
    }

    open spec fn wipe_plan(&self, device: Seq<char>) -> Result<PlannedView, ErrorView> {
        Ok(wipe_plan(device))
    }

    fn wipe_device(&self, device: &str) -> (r: Result<PlannedCommand, WowUsbError>) {
        Ok(Self::wipe_command(device))
    }

    proof fn wipe_fails_as_device_operation(&self, device: Seq<char>) {
    }

    proof fn actions_end(&self, action: ActionView, reports: Seq<ReportView>) {
        match action {
            ActionView::CreatePartitions { device, layout } => {
                lemma_plan_ends(
                    seq![unmount_disk_plan(device), partition_disk_plan(device, layout)],
                    reports,
                    0,
                );
            },
            ActionView::FormatPartition { partition, filesystem, label } => {
                if format_plan(partition, filesystem, label) is Ok {
                    lemma_plan_ends(seq![format_plan(partition, filesystem, label)->Ok_0], reports, 0);
                }
            },
            ActionView::ExtractIso { iso_path, target_path } => {
                if judged(attach_plan(iso_path), reports[0]) is Ok {
                    let stdout = output_of(reports[0])->Ok_0.stdout;
                    if volume_mount_point(stdout) is Some {
                        let mount_point = volume_mount_point(stdout)->0;
                        lemma_plan_ends(
                            seq![copy_plan(mount_point, target_path), detach_plan(mount_point)],
                            reports.skip(1),
                            0,
                        );
                    }
                }
            },
            _ => {},
        }
    }

    proof fn results_answer_the_action(&self, action: ActionView, reports: Seq<ReportView>) {
        match action {
            ActionView::CreatePartitions { device, layout } => {
                lemma_plan_answers(
                    seq![unmount_disk_plan(device), partition_disk_plan(device, layout)],
                    reports,
                    0,
                );
            },
            ActionView::FormatPartition { partition, filesystem, label } => {
                if format_plan(partition, filesystem, label) is Ok {
                    lemma_plan_answers(
                        seq![format_plan(partition, filesystem, label)->Ok_0],
                        reports,
                        0,
                    );
                }
            },
            ActionView::ExtractIso { iso_path, target_path } => {
                if reports.len() > 0 && judged(attach_plan(iso_path), reports[0]) is Ok {
                    let stdout = output_of(reports[0])->Ok_0.stdout;
                    if volume_mount_point(stdout) is Some {
                        let mount_point = volume_mount_point(stdout)->0;
                        lemma_plan_answers(
                            seq![copy_plan(mount_point, target_path), detach_plan(mount_point)],
                            reports.skip(1),
                            0,
                        );
                    }
                }
            },
            _ => {},
        }
    }

    proof fn failures_are_of_their_kind(&self, action: ActionView, reports: Seq<ReportView>) {
        match action {
            ActionView::CreatePartitions { device, layout } => {
                lemma_plan_fails_in_kind(
                    seq![unmount_disk_plan(device), partition_disk_plan(device, layout)],
                    reports,
                    0,
                    FailureKind::DeviceOperation,
                );
            },
            ActionView::FormatPartition { partition, filesystem, label } => {
                if format_plan(partition, filesystem, label) is Ok {
                    lemma_plan_fails_in_kind(
                        seq![format_plan(partition, filesystem, label)->Ok_0],
                        reports,
                        0,
                        FailureKind::Filesystem,
                    );
                }
            },
            ActionView::ExtractIso { iso_path, target_path } => {
                if reports.len() > 0 {
                    assert(ran(reports[0]));
                    if judged(attach_plan(iso_path), reports[0]) is Ok {
                        let stdout = output_of(reports[0])->Ok_0.stdout;
                        if volume_mount_point(stdout) is Some {
                            let mount_point = volume_mount_point(stdout)->0;
                            let later = reports.skip(1);
                            assert(all_ran(later)) by {
                                assert forall|i: int| 0 <= i < later.len() implies ran(
                                    #[trigger] later[i],
                                ) by {
                                    assert(later[i] == reports[i + 1]);
                                }
                            }
                            lemma_plan_fails_in_kind(
                                seq![copy_plan(mount_point, target_path), detach_plan(mount_point)],
                                later,
                                0,
                                FailureKind::IsoProcessing,
                            );
                        }
                    }
                }
            },
            ActionView::UnmountPartition { mountpoint } => {
                if reports.len() > 0 {
                    assert(ran(reports[0]));
                }
                if reports.len() > 1 {
                    assert(ran(reports[1]));
                }
            },
            _ => {},
        }
    }

    proof fn invalid_image_is_not_an_error(&self, iso_path: Seq<char>, output: OutputView) {
    }

    proof fn unmount_is_idempotent(&self, mountpoint: Seq<char>, output: OutputView) {
    }

    proof fn unknown_bootloader_is_refused(
        &self,
        device: Seq<char>,
        bootloader_type: Seq<char>,
        reports: Seq<ReportView>,
    ) {
    }

    proof fn mount_directory_is_left_to_the_host(&self, path: Seq<char>, report: ReportView) {
    }
}

/// Every device that is offered after its description is safe to target.
pub proof fn lemma_described_devices_are_safe(
    devices: Seq<Seq<char>>,
    descriptions: Seq<ReportView>,
    count: int,
)
    ensures
        forall|i: int|
            0 <= i < described_among(devices, descriptions, count).len() ==> safe_to_target(
                #[trigger] described_among(devices, descriptions, count)[i],
            ),
    decreases count,
{
    if count > 0 {
        lemma_described_devices_are_safe(devices, descriptions, count - 1);
        let all = described_among(devices, descriptions, count);
        let earlier = described_among(devices, descriptions, count - 1);
        assert forall|i: int| 0 <= i < all.len() implies safe_to_target(#[trigger] all[i]) by {
            if i < earlier.len() {
                assert(all[i] == earlier[i]);
            }
        }
    }
}

} // verus!
