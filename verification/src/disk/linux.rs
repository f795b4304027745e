//! The Linux backend: which commands provision a device, and what their
//! reports mean.

use crate::backend::{
    command_output, create_dir_step, fails_as, host_step, lemma_plan_answers, lemma_plan_ends,
    lemma_plan_fails_in_kind, lemma_safe_devices, mount_step, output_of, plan_result_view,
    plan_step, planned_step, ran, remove_dir_step, report_views, run_for_status, run_mount,
    run_planned, run_single, run_unmount, status_step, unexpected_report, unmount_step, BackendStep,
    BackendStepView, ListingStep, ListingStepView, PlatformDiskOps, Report, ReportView, Request,
    RequestView,
};
use crate::command::{
    check_output, checked, planned_views, unit_result_view, unmount_report, unmounted,
    CommandOutput, CommandSpec, CommandView, FailureKind, OutputView, PlannedCommand, PlannedView,
};
use crate::provision::{Action, ActionView, Event, EventView};
use crate::disk::{
    device_views, extract_image, extract_image_plan, layout_view, opt_view, test_image,
    test_image_command, Device, DeviceView, PartitionConfig, PartitionView,
};
use crate::error::{ErrorView, WowUsbError};
use crate::text::{
    concat2, concat3, contains, decimal, decimal_string, starts_with, str_eq, str_starts_with,
    str_trim, str_views, trim,
};
use vstd::prelude::*;

verus! {

/// One block device as `lsblk` lists it. A member that is missing or is not
/// a string is absent.
#[derive(Debug, Clone, PartialEq, Eq)]
pub struct BlockEntry {
    pub name: Option<String>,
    pub size: Option<String>,
    pub model: Option<String>,
    pub fstype: Option<String>,
    pub mountpoint: Option<String>,
}

pub struct BlockEntryView {
    pub name: Option<Seq<char>>,
    pub size: Option<Seq<char>>,
    pub model: Option<Seq<char>>,
    pub fstype: Option<Seq<char>>,
    pub mountpoint: Option<Seq<char>>,
}

impl View for BlockEntry {
    type V = BlockEntryView;

    open spec fn view(&self) -> BlockEntryView {
        BlockEntryView {
            name: opt_view(self.name),
            size: opt_view(self.size),
            model: opt_view(self.model),
            fstype: opt_view(self.fstype),
            mountpoint: opt_view(self.mountpoint),
        }
    }
}

/// The views of a list of block devices.
pub open spec fn entry_views(entries: Seq<BlockEntry>) -> Seq<BlockEntryView> {
    entries.map_values(|e: BlockEntry| e@)
}

/// What the JSON text of `lsblk -J` holds: the error of the JSON parser as
/// it words it, or else the elements of the array `blockdevices`, if the
/// text has one, each with its members `name`, `size`, `model`, `fstype` and
/// `mountpoint` where they are strings.
pub uninterp spec fn lsblk_listing(text: Seq<char>) -> Result<
    Option<Seq<BlockEntryView>>,
    Seq<char>,
>;

/// The view of what the reader of `lsblk` output gives.
pub open spec fn listing_view(r: Result<Option<Vec<BlockEntry>>, String>) -> Result<
    Option<Seq<BlockEntryView>>,
    Seq<char>,
> {
    match r {
        Ok(Some(entries)) => Ok(Some(entry_views(entries@))),
        Ok(None) => Ok(None),
        Err(message) => Err(message@),
    }
}

/// Parses `text` with `serde_json::from_str` and reads the array
/// `blockdevices` with `Value::get`, `Value::as_array` and `Value::as_str`.
/// The result depends on `text` alone; the contract gives it its name.
#[verifier::external_body]
fn read_lsblk(text: &str) -> (r: Result<Option<Vec<BlockEntry>>, String>)
    ensures
        listing_view(r) == lsblk_listing(text@),
{
    let root: serde_json::Value = serde_json::from_str(text).map_err(|e| e.to_string())?;
    let member = |d: &serde_json::Value, k: &str| d.get(k).and_then(|v| v.as_str()).map(String::from);
    Ok(root.get("blockdevices").and_then(|v| v.as_array()).map(|list| {
        list.iter().map(|d| BlockEntry {
            name: member(d, "name"),
            size: member(d, "size"),
            model: member(d, "model"),
            fstype: member(d, "fstype"),
            mountpoint: member(d, "mountpoint"),
        }).collect()
    }))
}

pub open spec fn list_devices_command() -> CommandView {
    CommandView {
        program: "lsblk"@,
        args: seq!["-J"@, "-o"@, "NAME,SIZE,MODEL,FSTYPE,MOUNTPOINT,TYPE,MOUNTPOINT"@],
    }
}

/// Whether a device is removable: what the flag of the kernel says where it
/// could be read, else a guess from the name, by which every SCSI disk but
/// the first is removable.
pub open spec fn removable(device_name: Seq<char>, flag: Option<Seq<char>>) -> bool {
    match flag {
        Some(text) => trim(text) == "1"@,
        None => starts_with(device_name, "sd"@) && !starts_with(device_name, "sda"@),
    }
}

/// The device that an entry of `lsblk` stands for, if it is one to offer: it
/// has a name and a size, and it is removable. A removable SCSI disk is
/// taken to hang on the USB bus.
pub open spec fn device_of(entry: BlockEntryView, is_removable: bool) -> Option<DeviceView> {
    if entry.name is Some && entry.size is Some && is_removable {
        Some(
            DeviceView {
                name: "/dev/"@ + entry.name->0,
                size: entry.size->0,
                model: match entry.model {
                    Some(model) => model,
                    None => "Unknown"@,
                },
                filesystem: entry.fstype,
                mountpoint: match entry.mountpoint {
                    Some(path) => if path.len() == 0 {
                        None
                    } else {
                        Some(path)
                    },
                    None => None,
                },
                is_removable,
                is_usb: starts_with(entry.name->0, "sd"@) && is_removable,
            },
        )
    } else {
        None
    }
}

pub open spec fn mklabel(device: Seq<char>) -> PlannedView {
    PlannedView {
        command: CommandView {
            program: "parted"@,
            args: seq!["--script"@, device, "mklabel"@, "gpt"@],
        },
        kind: FailureKind::DeviceOperation,
        prefix: "Failed to create GPT partition table: "@,
    }
}

/// Where a partition ends: at the end of the device if it asks for the
/// remaining space, else its size after its start.
pub open spec fn partition_end(start: nat, partition: PartitionView) -> Seq<char> {
    if partition.size_mb == 0 {
        "100%"@
    } else {
        decimal(start + partition.size_mb) + "MB"@
    }
}

pub open spec fn mkpart(
    device: Seq<char>,
    number: nat,
    start: nat,
    partition: PartitionView,
) -> PlannedView {
    PlannedView {
        command: CommandView {
            program: "parted"@,
            args: seq![
                "--script"@,
                device,
                "mkpart"@,
                "primary"@,
                partition.filesystem,
                decimal(start) + "MB"@,
                partition_end(start, partition),
            ],
        },
        kind: FailureKind::DeviceOperation,
        prefix: "Failed to create partition "@ + decimal(number) + ": "@,
    }
}

pub open spec fn set_boot_flag(device: Seq<char>, number: nat) -> PlannedView {
    PlannedView {
        command: CommandView {
            program: "parted"@,
            args: seq!["--script"@, device, "set"@, decimal(number), "boot"@, "on"@],
        },
        kind: FailureKind::DeviceOperation,
        prefix: "Failed to set boot flag on partition "@ + decimal(number) + ": "@,
    }
}

/// Where the partition of index `index` starts, in megabytes: the first one
/// megabyte into the device, each other where the one before it ends.
pub open spec fn start_of(layout: Seq<PartitionView>, index: int) -> nat
    decreases index,
{
    if index <= 0 {
        1
    } else {
        start_of(layout, index - 1) + layout[index - 1].size_mb
    }
}

/// The commands for the partitions from index `index` on: for each, in the
/// order of the layout, the command that creates it and, if it is marked
/// bootable, the one that sets its boot flag.
pub open spec fn partition_commands(
    device: Seq<char>,
    layout: Seq<PartitionView>,
    index: int,
) -> Seq<PlannedView>
    decreases layout.len() - index,
{
    if index < 0 || index >= layout.len() {
        Seq::empty()
    } else {
        let number = (index + 1) as nat;
        let create = seq![mkpart(device, number, start_of(layout, index), layout[index])];
        let flag = if layout[index].bootable {
            seq![set_boot_flag(device, number)]
        } else {
            Seq::empty()
        };
        create + flag + partition_commands(device, layout, index + 1)
    }
}

/// The commands that replace the partition table of `device` by `layout`.
pub open spec fn create_partitions_plan(device: Seq<char>, layout: Seq<PartitionView>) -> Seq<
    PlannedView,
> {
    seq![mklabel(device)] + partition_commands(device, layout, 0)
}

pub open spec fn unsupported_filesystem(filesystem: Seq<char>) -> ErrorView {
    ErrorView::Filesystem("Unsupported filesystem: "@ + filesystem)
}

/// The command that makes a filesystem, for the filesystems that Linux can
/// make.
pub open spec fn format_plan(
    partition: Seq<char>,
    filesystem: Seq<char>,
    label: Seq<char>,
) -> Result<PlannedView, ErrorView> {
    let command = if filesystem == "fat32"@ {
        Some(
            CommandView {
                program: "mkfs.fat"@,
                args: seq!["-F"@, "32"@, "-n"@, label, partition],
            },
        )
    } else if filesystem == "ntfs"@ {
        Some(CommandView { program: "mkfs.ntfs"@, args: seq!["-f"@, "-L"@, label, partition] })
    } else if filesystem == "exfat"@ {
        Some(CommandView { program: "mkfs.exfat"@, args: seq!["-n"@, label, partition] })
    } else if filesystem == "ext4"@ {
        Some(CommandView { program: "mkfs.ext4"@, args: seq!["-F"@, "-L"@, label, partition] })
    } else if filesystem == "f2fs"@ {
        Some(CommandView { program: "mkfs.f2fs"@, args: seq!["-f"@, "-l"@, label, partition] })
    } else {
        None
    };
    match command {
        Some(command) => Ok(
            PlannedView {
                command,
                kind: FailureKind::Filesystem,
                prefix: "Failed to format partition: "@,
            },
        ),
        None => Err(unsupported_filesystem(filesystem)),
    }
}

pub open spec fn mount_plan(partition: Seq<char>, mountpoint: Seq<char>) -> PlannedView {
    PlannedView {
        command: CommandView { program: "mount"@, args: seq![partition, mountpoint] },
        kind: FailureKind::DeviceOperation,
        prefix: "Failed to mount partition: "@,
    }
}

pub open spec fn unmount_command(mountpoint: Seq<char>) -> CommandView {
    CommandView { program: "umount"@, args: seq![mountpoint] }
}

/// What an unmount comes to once `umount` has reported: it has succeeded
/// where `umount` exited with zero, and also where it says that the path is
/// not mounted; any other failure is a failed device operation that carries
/// what `umount` wrote.
pub proof fn lemma_unmount_outcomes(mountpoint: Seq<char>, output: OutputView)
    ensures
        output.success || contains(output.stderr, "not mounted"@) ==> unmount_step(
            unmount_command(mountpoint),
            seq![ReportView::Command(Ok(output))],
        ) == BackendStepView::Done(EventView::Done(Ok(()))),
        !output.success && !contains(output.stderr, "not mounted"@) ==> unmount_step(
            unmount_command(mountpoint),
            seq![ReportView::Command(Ok(output))],
        ) == BackendStepView::Done(
            EventView::Done(
                Err(ErrorView::DeviceOperation("Failed to unmount partition: "@ + output.stderr)),
            ),
        ),
{
}

pub open spec fn wipe_plan(device: Seq<char>) -> PlannedView {
    PlannedView {
        command: CommandView { program: "wipefs"@, args: seq!["--all"@, device] },
        kind: FailureKind::DeviceOperation,
        prefix: "Failed to wipe device: "@,
    }
}

pub open spec fn unsupported_bootloader(bootloader_type: Seq<char>) -> ErrorView {
    ErrorView::NotImplemented("Bootloader type not supported: "@ + bootloader_type)
}

/// The commands that install a boot loader: for GRUB 2, one for UEFI and one
/// for BIOS; no other boot loader is known.
pub open spec fn bootloader_plan(device: Seq<char>, bootloader_type: Seq<char>) -> Result<
    Seq<PlannedView>,
    ErrorView,
> {
    if bootloader_type == "grub2"@ {
        Ok(
            seq![
                PlannedView {
                    command: CommandView {
                        program: "grub-install"@,
                        args: seq![
                            "--target=x86_64-efi"@,
                            "--efi-directory=/boot/efi"@,
                            "--removable"@,
                            device,
                        ],
                    },
                    kind: FailureKind::DeviceOperation,
                    prefix: "Failed to install GRUB UEFI: "@,
                },
                PlannedView {
                    command: CommandView {
                        program: "grub-install"@,
                        args: seq!["--target=i386-pc"@, "--removable"@, device],
                    },
                    kind: FailureKind::DeviceOperation,
                    prefix: "Failed to install GRUB BIOS: "@,
                },
            ],
        )
    } else {
        Err(unsupported_bootloader(bootloader_type))
    }
}

/// What parsing the output of `lsblk` gives for what the JSON reader found:
/// its entries, none if there is no array of block devices, or a device
/// error that carries the words of the reader.
pub open spec fn block_devices_of(listing: Result<Option<Seq<BlockEntryView>>, Seq<char>>) -> Result<
    Seq<BlockEntryView>,
    ErrorView,
> {
    match listing {
        Ok(Some(entries)) => Ok(entries),
        Ok(None) => Ok(Seq::empty()),
        Err(message) => Err(
            ErrorView::DeviceOperation("Failed to parse lsblk output: "@ + message),
        ),
    }
}

pub open spec fn entries_result_view(r: Result<Vec<BlockEntry>, WowUsbError>) -> Result<
    Seq<BlockEntryView>,
    ErrorView,
> {
    match r {
        Ok(entries) => Ok(entry_views(entries@)),
        Err(e) => Err(e@),
    }
}

/// The path of the kernel's flag for the device of this name.
pub open spec fn removable_flag_path(device_name: Seq<char>) -> Seq<char> {
    "/sys/block/"@ + device_name + "/removable"@
}

/// The Linux backend.
pub struct LinuxDiskOps {
    temp_dir: String,
}

impl LinuxDiskOps {
    pub closed spec fn spec_temp_dir(&self) -> Seq<char> {
        self.temp_dir@
    }

    /// The backend of the process `process_id`, which names its scratch
    /// directory.
    pub fn new(process_id: u32) -> (ops: Self)
        ensures
            ops.spec_temp_dir() == "/tmp/wowusb_"@ + decimal(process_id as nat),
    {
        let number = decimal_string(process_id as u64);
        LinuxDiskOps { temp_dir: concat2("/tmp/wowusb_", number.as_str()) }
    }

    /// The scratch directory of this backend.
    pub fn temp_dir(&self) -> (path: String)
        ensures
            path@ == self.spec_temp_dir(),
    {
        self.temp_dir.clone()
    }

    /// The command that lists the block devices as JSON.
    pub fn list_devices_command() -> (command: CommandSpec)
        ensures
            command@ == list_devices_command(),
    {
        let args = vec!["-J", "-o", "NAME,SIZE,MODEL,FSTYPE,MOUNTPOINT,TYPE,MOUNTPOINT"];
        assert(str_views(args@) =~= list_devices_command().args);
        CommandSpec::new("lsblk", &args)
    }

    /// The entries for what the JSON reader found in the output of `lsblk`.
    pub fn block_devices(listing: Result<Option<Vec<BlockEntry>>, String>) -> (r: Result<
        Vec<BlockEntry>,
        WowUsbError,
    >)
        ensures
            entries_result_view(r) == block_devices_of(listing_view(listing)),
    {
        match listing {
            Ok(Some(entries)) => Ok(entries),
            Ok(None) => {
                let entries: Vec<BlockEntry> = Vec::new();
                assert(entry_views(entries@) =~= Seq::<BlockEntryView>::empty());
                Ok(entries)
            },
            Err(message) => {
                let text = concat2("Failed to parse lsblk output: ", message.as_str());
                Err(WowUsbError::device_operation(text.as_str()))
            },
        }
    }

    /// Reads the report of `lsblk`: a device error if it failed, else the
    /// entries of its JSON output.
    pub fn parse_block_devices(output: &CommandOutput) -> (r: Result<Vec<BlockEntry>, WowUsbError>)
        ensures
            entries_result_view(r) == if output@.success {
                block_devices_of(lsblk_listing(output@.stdout))
            } else {
                Err(ErrorView::DeviceOperation("lsblk failed: "@ + output@.stderr))
            },
    {
        match check_output(FailureKind::DeviceOperation, "lsblk failed: ", output) {
            Ok(_) => Self::block_devices(read_lsblk(output.stdout.as_str())),
            Err(e) => Err(e),
        }
    }

    /// The path of the kernel's flag that says whether the device of this
    /// name is removable.
    pub fn removable_flag_path_for(device_name: &str) -> (path: String)
        ensures
            path@ == removable_flag_path(device_name@),
    {
        concat3("/sys/block/", device_name, "/removable")
    }

    /// Whether the device of this name is removable, given the text of the
    /// kernel's flag where it could be read.
    pub fn removable_by_name(device_name: &str, flag: Option<&str>) -> (r: bool)
        ensures
            r == removable(
                device_name@,
                match flag {
                    Some(text) => Some(text@),
                    None => None,
                },
            ),
    {
        match flag {
            Some(text) => {
                let trimmed = str_trim(text);
                str_eq(trimmed.as_str(), "1")
            },
            None => str_starts_with(device_name, "sd") && !str_starts_with(device_name, "sda"),
        }
    }

    /// The device that an entry stands for, if it is one to offer.
    pub fn device_from_entry(entry: &BlockEntry, is_removable: bool) -> (r: Option<Device>)
        ensures
            match device_of(entry@, is_removable) {
                Some(expected) => r matches Some(device) && device@ == expected,
                None => r is None,
            },
    {
        match (&entry.name, &entry.size) {
            (Some(name), Some(size)) => {
                let is_scsi = str_starts_with(name.as_str(), "sd");
                if is_removable {
                    let model = match &entry.model {
                        Some(model) => model.clone(),
                        None => String::from_str("Unknown"),
                    };
                    let filesystem = match &entry.fstype {
                        Some(fstype) => Some(fstype.clone()),
                        None => None,
                    };
                    let mountpoint = match &entry.mountpoint {
                        Some(path) => if path.as_str().is_empty() {
                            None
                        } else {
                            Some(path.clone())
                        },
                        None => None,
                    };
                    Some(
                        Device {
                            name: concat2("/dev/", name.as_str()),
                            size: size.clone(),
                            model,
                            filesystem,
                            mountpoint,
                            is_removable,
                            is_usb: is_scsi && is_removable,
                        },
                    )
                } else {
                    None
                }
            },
            _ => None,
        }
    }

    /// The command that says what kind of file `device` is.
    pub fn verify_device_command(device: &str) -> (command: CommandSpec)
        ensures
            command@ == (CommandView { program: "stat"@, args: seq!["-c"@, "%F"@, device@] }),
    {
        let args = vec!["-c", "%F", device];
        assert(str_views(args@) =~= seq!["-c"@, "%F"@, device@]);
        CommandSpec::new("stat", &args)
    }

    /// Whether the report of `stat` names a block device.
    pub fn is_block_device(output: &CommandOutput) -> (r: bool)
        ensures
            r == (output@.success && trim(output@.stdout) == "block special file"@),
    {
        if !output.success {
            return false;
        }
        let kind = str_trim(output.stdout.as_str());
        str_eq(kind.as_str(), "block special file")
    }

    /// Whether the offsets of the layout can be written down: the end of
    /// its last partition, in megabytes, is a 64-bit number.
    pub fn layout_fits(config: &Vec<PartitionConfig>) -> (fits: bool)
        ensures
            fits == (start_of(layout_view(config@), config@.len() as int) <= u64::MAX),
    {
        let ghost layout = layout_view(config@);
        let mut start: u64 = 1;
        let mut i: usize = 0;
        while i < config.len()
            invariant
                i <= config.len(),
                layout == layout_view(config@),
                start == start_of(layout, i as int),
            decreases config.len() - i,
        {
            assert(layout[i as int] == config@[i as int]@);
            if config[i].size_mb > u64::MAX - start {
                proof {
                    lemma_starts_grow(layout, i + 1, config@.len() as int);
                }
                return false;
            }
            start = start + config[i].size_mb;
            i += 1;
        }
        true
    }

    /// The commands that replace the partition table of `device` by the
    /// layout, to be run in order until one fails.
    pub fn create_partitions_commands(device: &str, config: &Vec<PartitionConfig>) -> (plan: Vec<
        PlannedCommand,
    >)
        requires
            start_of(layout_view(config@), config@.len() as int) <= u64::MAX,
        ensures
            planned_views(plan@) == create_partitions_plan(device@, layout_view(config@)),
    {
        let ghost layout = layout_view(config@);
        let mut plan: Vec<PlannedCommand> = Vec::new();
        let label_args = vec!["--script", device, "mklabel", "gpt"];
        assert(str_views(label_args@) =~= mklabel(device@).command.args);
        plan.push(
            PlannedCommand::new(
                "parted",
                &label_args,
                FailureKind::DeviceOperation,
                "Failed to create GPT partition table: ",
            ),
        );
        assert(planned_views(plan@) =~= seq![mklabel(device@)]);
        let mut start: u64 = 1;
        let mut i: usize = 0;
        while i < config.len()
            invariant
                i <= config.len(),
                layout == layout_view(config@),
                start == start_of(layout, i as int),
                start_of(layout, config@.len() as int) <= u64::MAX,
                planned_views(plan@) + partition_commands(device@, layout, i as int)
                    == create_partitions_plan(device@, layout),
            decreases config.len() - i,
        {
            let partition = &config[i];
            assert(layout[i as int] == partition@);
            proof {
                lemma_starts_grow(layout, i + 1, config@.len() as int);
            }
            let number = decimal_string((i + 1) as u64);
            let start_text = concat2(decimal_string(start).as_str(), "MB");
            let end_text = if partition.size_mb == 0 {
                String::from_str("100%")
            } else {
                concat2(decimal_string(start + partition.size_mb).as_str(), "MB")
            };
            let args = vec![
                "--script",
                device,
                "mkpart",
                "primary",
                partition.filesystem.as_str(),
                start_text.as_str(),
                end_text.as_str(),
            ];
            let prefix = concat3("Failed to create partition ", number.as_str(), ": ");
            let ghost create = mkpart(device@, (i + 1) as nat, start as nat, partition@);
            assert(str_views(args@) =~= create.command.args);
            let ghost before = planned_views(plan@);
            plan.push(
                PlannedCommand::new("parted", &args, FailureKind::DeviceOperation, prefix.as_str()),
            );
            assert(planned_views(plan@) =~= before.push(create));
            if partition.bootable {
                let flag_args = vec!["--script", device, "set", number.as_str(), "boot", "on"];
                let flag_prefix = concat3(
                    "Failed to set boot flag on partition ",
                    number.as_str(),
                    ": ",
                );
                let ghost flag = set_boot_flag(device@, (i + 1) as nat);
                assert(str_views(flag_args@) =~= flag.command.args);
                let ghost with_create = planned_views(plan@);
                plan.push(
                    PlannedCommand::new(
                        "parted",
                        &flag_args,
                        FailureKind::DeviceOperation,
                        flag_prefix.as_str(),
                    ),
                );
                assert(planned_views(plan@) =~= with_create.push(flag));
                assert(planned_views(plan@) + partition_commands(device@, layout, i + 1)
                    =~= before + (seq![create] + seq![flag] + partition_commands(
                    device@,
                    layout,
                    i + 1,
                )));
            } else {
                assert(planned_views(plan@) + partition_commands(device@, layout, i + 1)
                    =~= before + (seq![create] + Seq::<PlannedView>::empty() + partition_commands(
                    device@,
                    layout,
                    i + 1,
                )));
            }
            start = start + partition.size_mb;
            i += 1;
        }
        assert(planned_views(plan@) + Seq::<PlannedView>::empty() =~= planned_views(plan@));
        plan
    }

    /// The command that makes the filesystem, or a filesystem error for a
    /// filesystem that Linux cannot make.
    pub fn format_command(partition: &str, filesystem: &str, label: &str) -> (r: Result<
        PlannedCommand,
        WowUsbError,
    >)
        ensures
            match format_plan(partition@, filesystem@, label@) {
                Ok(expected) => r matches Ok(planned) && planned@ == expected,
                Err(error) => r matches Err(e) && e@ == error,
            },
    {
        let kind = FailureKind::Filesystem;
        let prefix = "Failed to format partition: ";
        if str_eq(filesystem, "fat32") {
            let args = vec!["-F", "32", "-n", label, partition];
            assert(str_views(args@) =~= seq!["-F"@, "32"@, "-n"@, label@, partition@]);
            Ok(PlannedCommand::new("mkfs.fat", &args, kind, prefix))
        } else if str_eq(filesystem, "ntfs") {
            let args = vec!["-f", "-L", label, partition];
            assert(str_views(args@) =~= seq!["-f"@, "-L"@, label@, partition@]);
            Ok(PlannedCommand::new("mkfs.ntfs", &args, kind, prefix))
        } else if str_eq(filesystem, "exfat") {
            let args = vec!["-n", label, partition];
            assert(str_views(args@) =~= seq!["-n"@, label@, partition@]);
            Ok(PlannedCommand::new("mkfs.exfat", &args, kind, prefix))
        } else if str_eq(filesystem, "ext4") {
            let args = vec!["-F", "-L", label, partition];
            assert(str_views(args@) =~= seq!["-F"@, "-L"@, label@, partition@]);
            Ok(PlannedCommand::new("mkfs.ext4", &args, kind, prefix))
        } else if str_eq(filesystem, "f2fs") {
            let args = vec!["-f", "-l", label, partition];
            assert(str_views(args@) =~= seq!["-f"@, "-l"@, label@, partition@]);
            Ok(PlannedCommand::new("mkfs.f2fs", &args, kind, prefix))
        } else {
            let message = concat2("Unsupported filesystem: ", filesystem);
            Err(WowUsbError::filesystem(message.as_str()))
        }
    }

    /// The command that mounts `partition` at `mountpoint`. The directory
    /// must exist before the command runs.
    pub fn mount_command(partition: &str, mountpoint: &str) -> (planned: PlannedCommand)
        ensures
            planned@ == mount_plan(partition@, mountpoint@),
    {
        let args = vec![partition, mountpoint];
        assert(str_views(args@) =~= seq![partition@, mountpoint@]);
        PlannedCommand::new(
            "mount",
            &args,
            FailureKind::DeviceOperation,
            "Failed to mount partition: ",
        )
    }

    /// Reads the report of the mount: the path at which the partition is
    /// mounted, which on Linux is the one that was asked for.
    pub fn mount_result(output: &CommandOutput, mountpoint: &str) -> (r: Result<String, WowUsbError>)
        ensures
            match checked(
                FailureKind::DeviceOperation,
                "Failed to mount partition: "@,
                output@,
            ) {
                Ok(_) => r matches Ok(path) && path@ == mountpoint@,
                Err(error) => r matches Err(e) && e@ == error,
            },
    {
        match check_output(FailureKind::DeviceOperation, "Failed to mount partition: ", output) {
            Ok(_) => Ok(String::from_str(mountpoint)),
            Err(e) => Err(e),
        }
    }

    /// The command that unmounts what is mounted at `mountpoint`.
    pub fn unmount_command(mountpoint: &str) -> (command: CommandSpec)
        ensures
            command@ == unmount_command(mountpoint@),
    {
        let args = vec![mountpoint];
        assert(str_views(args@) =~= seq![mountpoint@]);
        CommandSpec::new("umount", &args)
    }

    /// Reads the report of the unmount.
    pub fn unmount_result(output: &CommandOutput) -> (r: Result<(), WowUsbError>)
        ensures
            unit_result_view(r) == unmounted(output@),
    {
        unmount_report(output)
    }

    /// The command that erases the signatures of partition tables and
    /// filesystems from `device`.
    pub fn wipe_command(device: &str) -> (planned: PlannedCommand)
        ensures
            planned@ == wipe_plan(device@),
    {
        let args = vec!["--all", device];
        assert(str_views(args@) =~= seq!["--all"@, device@]);
        PlannedCommand::new("wipefs", &args, FailureKind::DeviceOperation, "Failed to wipe device: ")
    }

    /// The command that tests the image.
    pub fn validate_iso_command(iso_path: &str) -> (command: CommandSpec)
        ensures
            command@ == test_image_command(iso_path@),
    {
        test_image(iso_path)
    }

    /// The image is valid exactly if the test succeeded.
    pub fn iso_is_valid(output: &CommandOutput) -> (valid: bool)
        ensures
            valid == output@.success,
    {
        output.success
    }

    /// The command that unpacks the image into `target_path`.
    pub fn extract_command(iso_path: &str, target_path: &str) -> (planned: PlannedCommand)
        ensures
            planned@ == extract_image_plan(iso_path@, target_path@),
    {
        extract_image(iso_path, target_path)
    }

    /// The commands that install the boot loader on `device`, to be run in
    /// order until one fails; an error for a boot loader that is not known.
    pub fn bootloader_commands(device: &str, bootloader_type: &str) -> (r: Result<
        Vec<PlannedCommand>,
        WowUsbError,
    >)
        ensures
            match bootloader_plan(device@, bootloader_type@) {
                Ok(expected) => r matches Ok(plan) && planned_views(plan@) == expected,
                Err(error) => r matches Err(e) && e@ == error,
            },
    {
        if str_eq(bootloader_type, "grub2") {
            let uefi_args = vec![
                "--target=x86_64-efi",
                "--efi-directory=/boot/efi",
                "--removable",
                device,
            ];
            let bios_args = vec!["--target=i386-pc", "--removable", device];
            assert(str_views(uefi_args@) =~= seq![
                "--target=x86_64-efi"@,
                "--efi-directory=/boot/efi"@,
                "--removable"@,
                device@,
            ]);
            assert(str_views(bios_args@) =~= seq!["--target=i386-pc"@, "--removable"@, device@]);
            let mut plan: Vec<PlannedCommand> = Vec::new();
            plan.push(
                PlannedCommand::new(
                    "grub-install",
                    &uefi_args,
                    FailureKind::DeviceOperation,
                    "Failed to install GRUB UEFI: ",
                ),
            );
            plan.push(
                PlannedCommand::new(
                    "grub-install",
                    &bios_args,
                    FailureKind::DeviceOperation,
                    "Failed to install GRUB BIOS: ",
                ),
            );
            assert(planned_views(plan@) =~= bootloader_plan(device@, bootloader_type@)->Ok_0);
            Ok(plan)
        } else {
            let message = concat2("Bootloader type not supported: ", bootloader_type);
            Err(WowUsbError::not_implemented(message.as_str()))
        }
    }
}

/// Partitions follow each other without a gap: each starts where the one
/// before it ends, so the starts never go back.
pub proof fn lemma_starts_grow(layout: Seq<PartitionView>, i: int, j: int)
    requires
        0 <= i <= j,
    ensures
        start_of(layout, i) <= start_of(layout, j),
        start_of(layout, 0) == 1,
        i < j ==> start_of(layout, i + 1) == start_of(layout, i) + layout[i].size_mb,
    decreases j - i,
{
    if i < j {
        lemma_starts_grow(layout, i + 1, j);
    }
}

/// How many of the first `count` partitions of a layout are marked
/// bootable.
pub open spec fn bootable_among(layout: Seq<PartitionView>, count: int) -> nat
    decreases count,
{
    if count <= 0 {
        0
    } else {
        bootable_among(layout, count - 1) + if layout[count - 1].bootable {
            1nat
        } else {
            0nat
        }
    }
}

/// Where in the plan the command stands that creates the partition of index
/// `index`: after the command that creates the table, the commands that
/// create the partitions before it, and the commands that set their flags.
pub open spec fn position_of(layout: Seq<PartitionView>, index: int) -> int {
    1 + index + bootable_among(layout, index)
}

/// The partitions are created in the order of the layout, each from where
/// the one before it ends, the first from one megabyte; and right after a
/// partition that is marked bootable is created, its boot flag is set.
pub proof fn lemma_partitions_are_created_in_order(
    device: Seq<char>,
    layout: Seq<PartitionView>,
    index: int,
)
    requires
        0 <= index < layout.len(),
    ensures
        position_of(layout, index) < create_partitions_plan(device, layout).len(),
        create_partitions_plan(device, layout)[position_of(layout, index)] == mkpart(
            device,
            (index + 1) as nat,
            start_of(layout, index),
            layout[index],
        ),
        layout[index].bootable ==> position_of(layout, index) + 1 < create_partitions_plan(
            device,
            layout,
        ).len() && create_partitions_plan(device, layout)[position_of(layout, index) + 1]
            == set_boot_flag(device, (index + 1) as nat),
        index + 1 < layout.len() ==> position_of(layout, index) < position_of(layout, index + 1),
{
    lemma_commands_from(device, layout, 0, index);
    let rest = partition_commands(device, layout, 0);
    let plan = create_partitions_plan(device, layout);
    let at = index + bootable_among(layout, index);
    assert(plan[at + 1] == rest[at]);
    if layout[index].bootable {
        assert(plan[at + 2] == rest[at + 1]);
    }
}

/// The commands for the partitions from index `from` on hold, for the
/// partition of index `index`, the command that creates it and, if it is
/// marked bootable, right after it the command that sets its flag.
proof fn lemma_commands_from(device: Seq<char>, layout: Seq<PartitionView>, from: int, index: int)
    requires
        0 <= from <= index < layout.len(),
    ensures
        ({
            let commands = partition_commands(device, layout, from);
            let at = index - from + bootable_among(layout, index) - bootable_among(layout, from);
            &&& 0 <= at < commands.len()
            &&& commands[at] == mkpart(
                device,
                (index + 1) as nat,
                start_of(layout, index),
                layout[index],
            )
            &&& layout[index].bootable ==> at + 1 < commands.len() && commands[at + 1]
                == set_boot_flag(device, (index + 1) as nat)
        }),
    decreases index - from,
{
    let commands = partition_commands(device, layout, from);
    let rest = partition_commands(device, layout, from + 1);
    let number = (from + 1) as nat;
    let create = mkpart(device, number, start_of(layout, from), layout[from]);
    if layout[from].bootable {
        assert(commands =~= seq![create] + seq![set_boot_flag(device, number)] + rest);
    } else {
        assert(commands =~= seq![create] + Seq::<PlannedView>::empty() + rest);
    }
    if from < index {
        lemma_commands_from(device, layout, from + 1, index);
        lemma_bootable_among_grows(layout, from + 1, index);
        let at = index - from + bootable_among(layout, index) - bootable_among(layout, from);
        let before = index - (from + 1) + bootable_among(layout, index) - bootable_among(
            layout,
            from + 1,
        );
        if layout[from].bootable {
            assert(at == before + 2);
            assert(commands[at] == rest[before]);
            if layout[index].bootable {
                assert(commands[at + 1] == rest[before + 1]);
            }
        } else {
            assert(at == before + 1);
            assert(commands[at] == rest[before]);
            if layout[index].bootable {
                assert(commands[at + 1] == rest[before + 1]);
            }
        }
    }
}

proof fn lemma_bootable_among_grows(layout: Seq<PartitionView>, i: int, j: int)
    requires
        0 <= i <= j,
    ensures
        bootable_among(layout, i) <= bootable_among(layout, j),
    decreases j - i,
{
    if i < j {
        lemma_bootable_among_grows(layout, i, j - 1);
    }
}

/// Where the kernel describes the device of this name.
pub open spec fn sysfs_entry(device_name: Seq<char>) -> Seq<char> {
    "/sys/block/"@ + device_name
}

/// The command that reads the kernel's flag for the device of this name.
pub open spec fn read_flag_command(device_name: Seq<char>) -> CommandView {
    CommandView { program: "cat"@, args: seq![removable_flag_path(device_name)] }
}

/// Where the reading of the kernel's flag for a device stands.
pub enum FlagProbe {
    /// This is to be done next.
    Asking(RequestView),
    /// A command could not be run, or a report was of the wrong kind.
    Failed(ErrorView),
    /// The text of the flag, where it could be read, and the number of
    /// reports that it took to find out.
    Known { flag: Option<Seq<char>>, used: nat },
}

/// Where the reading of the kernel's flag stands, given the reports from
/// index `at` on: the flag is read if the kernel has an entry for the
/// device, the entry has the flag, and reading it succeeds.
pub open spec fn flag_probe(device_name: Seq<char>, reports: Seq<ReportView>, at: int) -> FlagProbe {
    if at >= reports.len() {
        FlagProbe::Asking(RequestView::PathExists { path: sysfs_entry(device_name) })
    } else {
        match reports[at] {
            ReportView::Exists(entry_exists) => if !entry_exists {
                FlagProbe::Known { flag: None, used: 1 }
            } else if at + 1 >= reports.len() {
                FlagProbe::Asking(
                    RequestView::PathExists { path: removable_flag_path(device_name) },
                )
            } else {
                match reports[at + 1] {
                    ReportView::Exists(flag_exists) => if !flag_exists {
                        FlagProbe::Known { flag: None, used: 2 }
                    } else if at + 2 >= reports.len() {
                        FlagProbe::Asking(
                            RequestView::Run {
                                command: read_flag_command(device_name),
                                read_output: true,
                            },
                        )
                    } else {
                        match output_of(reports[at + 2]) {
                            Ok(output) => FlagProbe::Known {
                                flag: if output.success {
                                    Some(output.stdout)
                                } else {
                                    None
                                },
                                used: 3,
                            },
                            Err(error) => FlagProbe::Failed(error),
                        }
                    },
                    _ => FlagProbe::Failed(unexpected_report()),
                }
            },
            _ => FlagProbe::Failed(unexpected_report()),
        }
    }
}

/// Where the enumeration stands from the entry of index `index` on, when
/// the reports from index `at` on are still unread and `found` holds the
/// devices found so far. Each entry with a name and a size is asked about
/// under its name, in the order of the listing.
pub open spec fn probe_from(
    entries: Seq<BlockEntryView>,
    index: int,
    reports: Seq<ReportView>,
    at: int,
    found: Seq<DeviceView>,
) -> ListingStepView
    decreases entries.len() - index,
{
    if index < 0 || index >= entries.len() {
        ListingStepView::Done(Ok(found))
    } else if entries[index].name is None || entries[index].size is None {
        probe_from(entries, index + 1, reports, at, found)
    } else {
        match flag_probe(entries[index].name->0, reports, at) {
            FlagProbe::Asking(request) => ListingStepView::Ask(request),
            FlagProbe::Failed(error) => ListingStepView::Done(Err(error)),
            FlagProbe::Known { flag, used } => probe_from(
                entries,
                index + 1,
                reports,
                at + used,
                match device_of(entries[index], removable(entries[index].name->0, flag)) {
                    Some(device) => found.push(device),
                    None => found,
                },
            ),
        }
    }
}

/// What reading the report of `lsblk` gives.
pub open spec fn listed_entries(report: ReportView) -> Result<Seq<BlockEntryView>, ErrorView> {
    match output_of(report) {
        Ok(output) => if output.success {
            block_devices_of(lsblk_listing(output.stdout))
        } else {
            Err(ErrorView::DeviceOperation("lsblk failed: "@ + output.stderr))
        },
        Err(error) => Err(error),
    }
}

/// What the Linux backend does next to enumerate the devices.
pub open spec fn linux_listing(reports: Seq<ReportView>) -> ListingStepView {
    if reports.len() == 0 {
        ListingStepView::Ask(
            RequestView::Run { command: list_devices_command(), read_output: true },
        )
    } else {
        match listed_entries(reports[0]) {
            Ok(entries) => probe_from(entries, 0, reports, 1, Seq::empty()),
            Err(error) => ListingStepView::Done(Err(error)),
        }
    }
}

/// The error for a layout whose offsets cannot be written down.
pub open spec fn out_of_range() -> ErrorView {
    ErrorView::DeviceOperation("Partition sizes are out of range"@)
}

/// The command that says what kind of file `device` is.
pub open spec fn stat_command(device: Seq<char>) -> CommandView {
    CommandView { program: "stat"@, args: seq!["-c"@, "%F"@, device] }
}

/// Where the verification of a device stands: a path that does not exist
/// is no device; one that exists is a device if `stat` calls it a block
/// special file.
pub open spec fn verify_step(device: Seq<char>, reports: Seq<ReportView>) -> BackendStepView {
    if reports.len() == 0 {
        BackendStepView::Ask(RequestView::PathExists { path: device })
    } else {
        match reports[0] {
            ReportView::Exists(exists) => if !exists {
                BackendStepView::Done(EventView::Flag(Ok(false)))
            } else if reports.len() == 1 {
                BackendStepView::Ask(
                    RequestView::Run { command: stat_command(device), read_output: true },
                )
            } else {
                BackendStepView::Done(
                    EventView::Flag(
                        match output_of(reports[1]) {
                            Ok(output) => Ok(
                                output.success && trim(output.stdout)
                                    == "block special file"@,
                            ),
                            Err(error) => Err(error),
                        },
                    ),
                )
            },
            _ => BackendStepView::Done(EventView::Flag(Err(unexpected_report()))),
        }
    }
}

/// The plan that replaces the partition table, or a device error for a
/// layout whose offsets cannot be written down.
pub open spec fn partitioning_plan(device: Seq<char>, layout: Seq<PartitionView>) -> Result<
    Seq<PlannedView>,
    ErrorView,
> {
    if start_of(layout, layout.len() as int) <= u64::MAX {
        Ok(create_partitions_plan(device, layout))
    } else {
        Err(out_of_range())
    }
}

/// The plan of one command, or the error that refused it.
pub open spec fn single(plan: Result<PlannedView, ErrorView>) -> Result<Seq<PlannedView>, ErrorView> {
    match plan {
        Ok(planned) => Ok(seq![planned]),
        Err(error) => Err(error),
    }
}

/// What the Linux backend does next for an action.
pub open spec fn linux_next(action: ActionView, reports: Seq<ReportView>) -> BackendStepView {
    match action {
        ActionView::ValidateIso { iso_path } => status_step(test_image_command(iso_path), reports),
        ActionView::VerifyDevice { device } => verify_step(device, reports),
        ActionView::CreatePartitions { device, layout } => planned_step(
            partitioning_plan(device, layout),
            reports,
        ),
        ActionView::FormatPartition { partition, filesystem, label } => planned_step(
            single(format_plan(partition, filesystem, label)),
            reports,
        ),
        ActionView::CreateMountDir { path } => host_step(
            BackendStepView::Ask(RequestView::CreateDir { path }),
            reports,
        ),
        ActionView::MountPartition { partition, mountpoint } => mount_step(
            mount_plan(partition, mountpoint),
            mountpoint,
            reports,
        ),
        ActionView::ExtractIso { iso_path, target_path } => plan_step(
            seq![extract_image_plan(iso_path, target_path)],
            reports,
        ),
        ActionView::InstallBootloader { device, bootloader_type } => planned_step(
            bootloader_plan(device, bootloader_type),
            reports,
        ),
        ActionView::UnmountPartition { mountpoint } => unmount_step(
            unmount_command(mountpoint),
            reports,
        ),
        ActionView::RemoveMountDir { path } => host_step(
            BackendStepView::Ask(RequestView::RemoveDir { path }),
            reports,
        ),
        ActionView::Finish { .. } => BackendStepView::Nothing,
        ActionView::Idle => BackendStepView::Nothing,
    }
}

/// The number of reports after which an action is over on Linux.
pub open spec fn linux_budget(action: ActionView) -> nat {
    match action {
        ActionView::VerifyDevice { .. } => 2,
        ActionView::CreatePartitions { device, layout } => create_partitions_plan(
            device,
            layout,
        ).len(),
        ActionView::MountPartition { .. } => 2,
        ActionView::InstallBootloader { .. } => 2,
        ActionView::Finish { .. } => 0,
        ActionView::Idle => 0,
        _ => 1,
    }
}

/// Where the reading of the kernel's flag for a device stands.
enum Probe {
    Asking(Request),
    Failed(WowUsbError),
    Known { flag: Option<String>, used: usize },
}

impl View for Probe {
    type V = FlagProbe;

    closed spec fn view(&self) -> FlagProbe {
        match self {
            Probe::Asking(request) => FlagProbe::Asking(request@),
            Probe::Failed(error) => FlagProbe::Failed(error@),
            Probe::Known { flag, used } => FlagProbe::Known {
                flag: opt_view(*flag),
                used: *used as nat,
            },
        }
    }
}

impl LinuxDiskOps {
    fn flag_probe(device_name: &str, reports: &Vec<Report>, at: usize) -> (probe: Probe)
        requires
            at <= reports.len(),
        ensures
            probe@ == flag_probe(device_name@, report_views(reports@), at as int),
            probe matches Probe::Known { used, .. } ==> at + used <= reports.len(),
    {
        if at >= reports.len() {
            return Probe::Asking(Request::PathExists { path: concat2("/sys/block/", device_name) });
        }
        assert(report_views(reports@)[at as int] == reports@[at as int]@);
        let entry_exists = match &reports[at] {
            Report::Exists(exists) => *exists,
            _ => {
                return Probe::Failed(
                    WowUsbError::configuration("Unexpected report for the current step"),
                );
            },
        };
        if !entry_exists {
            return Probe::Known { flag: None, used: 1 };
        }
        if at + 1 >= reports.len() {
            return Probe::Asking(
                Request::PathExists { path: Self::removable_flag_path_for(device_name) },
            );
        }
        assert(report_views(reports@)[at + 1] == reports@[at + 1]@);
        let flag_exists = match &reports[at + 1] {
            Report::Exists(exists) => *exists,
            _ => {
                return Probe::Failed(
                    WowUsbError::configuration("Unexpected report for the current step"),
                );
            },
        };
        if !flag_exists {
            return Probe::Known { flag: None, used: 2 };
        }
        if at + 2 >= reports.len() {
            let path = Self::removable_flag_path_for(device_name);
            let args = vec![path.as_str()];
            assert(str_views(args@) =~= seq![removable_flag_path(device_name@)]);
            return Probe::Asking(
                Request::Run { command: CommandSpec::new("cat", &args), read_output: true },
            );
        }
        assert(report_views(reports@)[at + 2] == reports@[at + 2]@);
        match command_output(&reports[at + 2]) {
            Ok(output) => Probe::Known {
                flag: if output.success {
                    Some(output.stdout.clone())
                } else {
                    None
                },
                used: 3,
            },
            Err(error) => Probe::Failed(error),
        }
    }

    /// Where the enumeration stands for the entries that `lsblk` listed,
    /// when the reports from index `first` on are those of asking about
    /// them.
    pub fn probe_devices(entries: &Vec<BlockEntry>, reports: &Vec<Report>, first: usize) -> (step:
        ListingStep)
        requires
            first <= reports.len(),
        ensures
            step@ == probe_from(
                entry_views(entries@),
                0,
                report_views(reports@),
                first as int,
                Seq::empty(),
            ),
    {
        let mut devices: Vec<Device> = Vec::new();
        let mut at: usize = first;
        let mut i: usize = 0;
        assert(device_views(devices@) =~= Seq::<DeviceView>::empty());
        while i < entries.len()
            invariant
                i <= entries.len(),
                at <= reports.len(),
                probe_from(
                    entry_views(entries@),
                    0,
                    report_views(reports@),
                    first as int,
                    Seq::empty(),
                ) == probe_from(
                    entry_views(entries@),
                    i as int,
                    report_views(reports@),
                    at as int,
                    device_views(devices@),
                ),
            decreases entries.len() - i,
        {
            let entry = &entries[i];
            assert(entry_views(entries@)[i as int] == entry@);
            match (&entry.name, &entry.size) {
                (Some(name), Some(_)) => {
                    match Self::flag_probe(name.as_str(), reports, at) {
                        Probe::Asking(request) => {
                            return ListingStep::Ask(request);
                        },
                        Probe::Failed(error) => {
                            return ListingStep::Done(Err(error));
                        },
                        Probe::Known { flag, used } => {
                            let is_removable = match &flag {
                                Some(text) => Self::removable_by_name(
                                    name.as_str(),
                                    Some(text.as_str()),
                                ),
                                None => Self::removable_by_name(name.as_str(), None),
                            };
                            let ghost before = device_views(devices@);
                            match Self::device_from_entry(entry, is_removable) {
                                Some(device) => {
                                    let ghost view = device@;
                                    devices.push(device);
                                    assert(device_views(devices@) =~= before.push(view));
                                },
                                None => {},
                            }
                            at = at + used;
                        },
                    }
                },
                _ => {},
            }
            i += 1;
        }
        ListingStep::Done(Ok(devices))
    }

    /// Whether `device` is a block device: a path that does not exist is
    /// none, which is an answer and not an error; one that exists is asked
    /// about with `stat`.
    pub fn verify_device(&self, device: &str, reports: &Vec<Report>) -> (step: BackendStep)
        ensures
            step@ == verify_step(device@, report_views(reports@)),
    {
        if reports.len() == 0 {
            return BackendStep::Ask(Request::PathExists { path: String::from_str(device) });
        }
        assert(report_views(reports@)[0] == reports@[0]@);
        match &reports[0] {
            Report::Exists(exists) => {
                if !*exists {
                    BackendStep::Done(Event::Flag(Ok(false)))
                } else if reports.len() == 1 {
                    BackendStep::Ask(Request::Run {
                        command: Self::verify_device_command(device),
                        read_output: true,
                    })
                } else {
                    assert(report_views(reports@)[1] == reports@[1]@);
                    match command_output(&reports[1]) {
                        Ok(output) => BackendStep::Done(
                            Event::Flag(Ok(Self::is_block_device(output))),
                        ),
                        Err(error) => BackendStep::Done(Event::Flag(Err(error))),
                    }
                }
            },
            _ => BackendStep::Done(
                Event::Flag(
                    Err(WowUsbError::configuration("Unexpected report for the current step")),
                ),
            ),
        }
    }

    /// The plan that replaces the partition table of `device` by the
    /// layout, or a device error for a layout whose offsets cannot be
    /// written down.
    pub fn partitioning_plan(device: &str, config: &Vec<PartitionConfig>) -> (r: Result<
        Vec<PlannedCommand>,
        WowUsbError,
    >)
        ensures
            plan_result_view(r) == partitioning_plan(device@, layout_view(config@)),
    {
        if Self::layout_fits(config) {
            Ok(Self::create_partitions_commands(device, config))
        } else {
            Err(WowUsbError::device_operation("Partition sizes are out of range"))
        }
    }
}

impl LinuxDiskOps {
    /// Whether the image at `iso_path` is valid: it is if 7-Zip can test it.
    /// An image that fails the test is invalid, which is an answer and not
    /// an error.
    pub fn validate_iso(&self, iso_path: &str, reports: &Vec<Report>) -> (step: BackendStep)
        ensures
            step@ == status_step(test_image_command(iso_path@), report_views(reports@)),
    {
        run_for_status(Self::validate_iso_command(iso_path), reports)
    }

    /// Replaces the partition table of `device` by the layout: the commands
    /// of the plan are run in order until one fails, and a failure is a
    /// failed device operation.
    pub fn create_partitions(
        &self,
        device: &str,
        config: &Vec<PartitionConfig>,
        reports: &Vec<Report>,
    ) -> (step: BackendStep)
        ensures
            step@ == planned_step(
                partitioning_plan(device@, layout_view(config@)),
                report_views(reports@),
            ),
    {
        run_planned(Self::partitioning_plan(device, config), reports)
    }

    /// Makes a filesystem on `partition`: a filesystem that Linux cannot
    /// make is refused before anything is run, and a failure of the tool is
    /// a filesystem error.
    pub fn format_partition(
        &self,
        partition: &str,
        filesystem: &str,
        label: &str,
        reports: &Vec<Report>,
    ) -> (step: BackendStep)
        ensures
            step@ == planned_step(
                single(format_plan(partition@, filesystem@, label@)),
                report_views(reports@),
            ),
    {
        match Self::format_command(partition, filesystem, label) {
            Ok(planned) => run_single(planned, reports),
            Err(error) => BackendStep::Done(Event::Done(Err(error))),
        }
    }

    /// Mounts `partition` at `mountpoint`, which is created first if it is
    /// not there, and answers with the path at which the partition is
    /// mounted.
    pub fn mount_partition(&self, partition: &str, mountpoint: &str, reports: &Vec<Report>) -> (step:
        BackendStep)
        ensures
            step@ == mount_step(
                mount_plan(partition@, mountpoint@),
                mountpoint@,
                report_views(reports@),
            ),
    {
        run_mount(Self::mount_command(partition, mountpoint), mountpoint, reports)
    }

    /// Unmounts what is mounted at `mountpoint`. When `umount` says that
    /// the path is not mounted, the unmount has succeeded; any other failure
    /// is a failed device operation.
    pub fn unmount_partition(&self, mountpoint: &str, reports: &Vec<Report>) -> (step: BackendStep)
        ensures
            step@ == unmount_step(unmount_command(mountpoint@), report_views(reports@)),
    {
        run_unmount(Self::unmount_command(mountpoint), reports)
    }

    /// Unpacks the image into `target_path`; a failure is an image error.
    pub fn extract_iso(&self, iso_path: &str, target_path: &str, reports: &Vec<Report>) -> (step:
        BackendStep)
        ensures
            step@ == plan_step(
                seq![extract_image_plan(iso_path@, target_path@)],
                report_views(reports@),
            ),
    {
        run_single(Self::extract_command(iso_path, target_path), reports)
    }

    /// Installs the boot loader on `device`: GRUB 2 for UEFI and for BIOS.
    /// Any other boot loader is refused as not implemented, before anything
    /// is run.
    pub fn install_bootloader(
        &self,
        device: &str,
        bootloader_type: &str,
        reports: &Vec<Report>,
    ) -> (step: BackendStep)
        ensures
            step@ == planned_step(
                bootloader_plan(device@, bootloader_type@),
                report_views(reports@),
            ),
    {
        run_planned(Self::bootloader_commands(device, bootloader_type), reports)
    }
}

impl PlatformDiskOps for LinuxDiskOps {
    open spec fn next(&self, action: ActionView, reports: Seq<ReportView>) -> BackendStepView {
        linux_next(action, reports)
    }

    open spec fn budget(&self, action: ActionView) -> nat {
        linux_budget(action)
    }

    fn advance(&self, action: &Action, reports: &Vec<Report>) -> (step: BackendStep) {
        match action {
            Action::ValidateIso { iso_path } => self.validate_iso(iso_path.as_str(), reports),
            Action::VerifyDevice { device } => self.verify_device(device.as_str(), reports),
            Action::CreatePartitions { device, layout } => self.create_partitions(
                device.as_str(),
                layout,
                reports,
            ),
            Action::FormatPartition { partition, filesystem, label } => self.format_partition(
                partition.as_str(),
                filesystem.as_str(),
                label.as_str(),
                reports,
            ),
            Action::CreateMountDir { path } => create_dir_step(path.as_str(), reports),
            Action::MountPartition { partition, mountpoint } => self.mount_partition(
                partition.as_str(),
                mountpoint.as_str(),
                reports,
            ),
            Action::ExtractIso { iso_path, target_path } => self.extract_iso(
                iso_path.as_str(),
                target_path.as_str(),
                reports,
            ),
            Action::InstallBootloader { device, bootloader_type } => self.install_bootloader(
                device.as_str(),
                bootloader_type.as_str(),
                reports,
            ),
            Action::UnmountPartition { mountpoint } => self.unmount_partition(
                mountpoint.as_str(),
                reports,
            ),
            Action::RemoveMountDir { path } => remove_dir_step(path.as_str(), reports),
            Action::Finish { .. } => BackendStep::Nothing,
            Action::Idle => BackendStep::Nothing,
        }
    }

    open spec fn listing(&self, reports: Seq<ReportView>) -> ListingStepView {
        linux_listing(reports)
    }

    fn list_devices(&self, reports: &Vec<Report>) -> (step: ListingStep) {
        if reports.len() == 0 {
            return ListingStep::Ask(
                Request::Run { command: Self::list_devices_command(), read_output: true },
            );
        }
        assert(report_views(reports@)[0] == reports@[0]@);
        let listed = match command_output(&reports[0]) {
            Ok(output) => Self::parse_block_devices(output),
            Err(error) => Err(error),
        };
        match listed {
            Ok(entries) => {
                let step = Self::probe_devices(&entries, reports, 1);
                proof {
                    self.only_safe_devices_are_offered(report_views(reports@));
                    if let ListingStep::Done(Ok(devices)) = &step {
                        lemma_safe_devices(self.listing(report_views(reports@)), devices@);
                    }
                }
                step
            },
            Err(error) => ListingStep::Done(Err(error)),
        }
    }

    open spec fn listing_budget(&self, first: ReportView) -> nat {
        match listed_entries(first) {
            Ok(entries) => 1 + 3 * entries.len(),
            Err(_) => 1,
        }
    }

    proof fn listing_ends(&self, reports: Seq<ReportView>) {
        if listed_entries(reports[0]) is Ok {
            lemma_probing_ends(listed_entries(reports[0])->Ok_0, 0, reports, 1, Seq::empty());
        }
    }

    proof fn only_safe_devices_are_offered(&self, reports: Seq<ReportView>) {
        if reports.len() > 0 && listed_entries(reports[0]) is Ok {
            lemma_only_removable_devices_are_offered(
                listed_entries(reports[0])->Ok_0,
                0,
                reports,
                1,
                Seq::empty(),
            );
        }
    }

    proof fn failed_listing_is_a_device_error(&self, output: OutputView) {
    }

    open spec fn wipe_plan(&self, device: Seq<char>) -> Result<PlannedView, ErrorView> {
        Ok(wipe_plan(device))
    }

    fn wipe_device(&self, device: &str) -> (r: Result<PlannedCommand, WowUsbError>) {
        Ok(Self::wipe_command(device))
    }

    proof fn wipe_fails_as_device_operation(&self, device: Seq<char>) {
    }

    proof fn actions_end(&self, action: ActionView, reports: Seq<ReportView>) {
        match action {
            ActionView::CreatePartitions { device, layout } => {
                lemma_plan_ends(create_partitions_plan(device, layout), reports, 0);
            },
            ActionView::FormatPartition { partition, filesystem, label } => {
                if format_plan(partition, filesystem, label) is Ok {
                    lemma_plan_ends(seq![format_plan(partition, filesystem, label)->Ok_0], reports, 0);
                }
            },
            ActionView::ExtractIso { iso_path, target_path } => {
                lemma_plan_ends(seq![extract_image_plan(iso_path, target_path)], reports, 0);
            },
            ActionView::InstallBootloader { device, bootloader_type } => {
                if bootloader_plan(device, bootloader_type) is Ok {
                    lemma_plan_ends(bootloader_plan(device, bootloader_type)->Ok_0, reports, 0);
                }
            },
            _ => {},
        }
    }

    proof fn results_answer_the_action(&self, action: ActionView, reports: Seq<ReportView>) {
        match action {
            ActionView::CreatePartitions { device, layout } => {
                lemma_plan_answers(create_partitions_plan(device, layout), reports, 0);
            },
            ActionView::FormatPartition { partition, filesystem, label } => {
                if format_plan(partition, filesystem, label) is Ok {
                    lemma_plan_answers(
                        seq![format_plan(partition, filesystem, label)->Ok_0],
                        reports,
                        0,
                    );
                }
            },
            ActionView::ExtractIso { iso_path, target_path } => {
                lemma_plan_answers(seq![extract_image_plan(iso_path, target_path)], reports, 0);
            },
            ActionView::InstallBootloader { device, bootloader_type } => {
                if bootloader_plan(device, bootloader_type) is Ok {
                    lemma_plan_answers(bootloader_plan(device, bootloader_type)->Ok_0, reports, 0);
                }
            },
            _ => {},
        }
    }

    proof fn failures_are_of_their_kind(&self, action: ActionView, reports: Seq<ReportView>) {
        match action {
            ActionView::CreatePartitions { device, layout } => {
                let plan = create_partitions_plan(device, layout);
                lemma_partitioning_fails_as_device_operation(device, layout, 0);
                assert(fails_as(plan, FailureKind::DeviceOperation)) by {
                    let rest = partition_commands(device, layout, 0);
                    assert forall|i: int| 0 <= i < plan.len() implies (#[trigger] plan[i]).kind
                        == FailureKind::DeviceOperation by {
                        if i > 0 {
                            assert(plan[i] == rest[i - 1]);
                        }
                    }
                }
                lemma_plan_fails_in_kind(plan, reports, 0, FailureKind::DeviceOperation);
            },
            ActionView::FormatPartition { partition, filesystem, label } => {
                if format_plan(partition, filesystem, label) is Ok {
                    lemma_plan_fails_in_kind(
                        seq![format_plan(partition, filesystem, label)->Ok_0],
                        reports,
                        0,
                        FailureKind::Filesystem,
                    );
                }
            },
            ActionView::ExtractIso { iso_path, target_path } => {
                lemma_plan_fails_in_kind(
                    seq![extract_image_plan(iso_path, target_path)],
                    reports,
                    0,
                    FailureKind::IsoProcessing,
                );
            },
            ActionView::InstallBootloader { device, bootloader_type } => {
                if bootloader_plan(device, bootloader_type) is Ok {
                    lemma_plan_fails_in_kind(
                        bootloader_plan(device, bootloader_type)->Ok_0,
                        reports,
                        0,
                        FailureKind::DeviceOperation,
                    );
                }
            },
            ActionView::UnmountPartition { mountpoint } => {
                if reports.len() > 0 {
                    assert(ran(reports[0]));
                }
            },
            _ => {},
        }
    }

    proof fn invalid_image_is_not_an_error(&self, iso_path: Seq<char>, output: OutputView) {
    }

    proof fn unmount_is_idempotent(&self, mountpoint: Seq<char>, output: OutputView) {
    }

    proof fn unknown_bootloader_is_refused(
        &self,
        device: Seq<char>,
        bootloader_type: Seq<char>,
        reports: Seq<ReportView>,
    ) {
    }

    proof fn mount_directory_is_left_to_the_host(&self, path: Seq<char>, report: ReportView) {
    }
}

/// Every command that creates a partition or sets a boot flag fails as a
/// device operation.
pub proof fn lemma_partitioning_fails_as_device_operation(
    device: Seq<char>,
    layout: Seq<PartitionView>,
    index: int,
)
    requires
        0 <= index,
    ensures
        fails_as(partition_commands(device, layout, index), FailureKind::DeviceOperation),
    decreases layout.len() - index,
{
    if index < layout.len() {
        lemma_partitioning_fails_as_device_operation(device, layout, index + 1);
        let all = partition_commands(device, layout, index);
        let rest = partition_commands(device, layout, index + 1);
        let number = (index + 1) as nat;
        let create = mkpart(device, number, start_of(layout, index), layout[index]);
        assert forall|i: int| 0 <= i < all.len() implies (#[trigger] all[i]).kind
            == FailureKind::DeviceOperation by {
            if layout[index].bootable {
                assert(all =~= seq![create] + seq![set_boot_flag(device, number)] + rest);
                if i >= 2 {
                    assert(all[i] == rest[i - 2]);
                }
            } else {
                assert(all =~= seq![create] + Seq::<PlannedView>::empty() + rest);
                if i >= 1 {
                    assert(all[i] == rest[i - 1]);
                }
            }
        }
    }
}

/// Asking about a device takes three reports at most, so the enumeration
/// is over once three reports are in for each entry that is left.
pub proof fn lemma_probing_ends(
    entries: Seq<BlockEntryView>,
    index: int,
    reports: Seq<ReportView>,
    at: int,
    found: Seq<DeviceView>,
)
    requires
        0 <= index,
        0 <= at,
        reports.len() - at >= 3 * (entries.len() - index),
    ensures
        probe_from(entries, index, reports, at, found) is Done,
    decreases entries.len() - index,
{
    if index < entries.len() {
        if entries[index].name is None || entries[index].size is None {
            lemma_probing_ends(entries, index + 1, reports, at, found);
        } else {
            match flag_probe(entries[index].name->0, reports, at) {
                FlagProbe::Known { flag, used } => {
                    lemma_probing_ends(
                        entries,
                        index + 1,
                        reports,
                        at + used,
                        match device_of(entries[index], removable(entries[index].name->0, flag)) {
                            Some(device) => found.push(device),
                            None => found,
                        },
                    );
                },
                _ => {},
            }
        }
    }
}

/// Every device that the enumeration offers is removable, if those found
/// before are.
pub proof fn lemma_only_removable_devices_are_offered(
    entries: Seq<BlockEntryView>,
    index: int,
    reports: Seq<ReportView>,
    at: int,
    found: Seq<DeviceView>,
)
    requires
        0 <= index,
        forall|i: int| 0 <= i < found.len() ==> (#[trigger] found[i]).is_removable,
    ensures
        probe_from(entries, index, reports, at, found) matches ListingStepView::Done(Ok(devices))
            ==> forall|i: int| 0 <= i < devices.len() ==> (#[trigger] devices[i]).is_removable,
    decreases entries.len() - index,
{
    if index < entries.len() {
        if entries[index].name is None || entries[index].size is None {
            lemma_only_removable_devices_are_offered(entries, index + 1, reports, at, found);
        } else {
            match flag_probe(entries[index].name->0, reports, at) {
                FlagProbe::Known { flag, used } => {
                    let offered = device_of(
                        entries[index],
                        removable(entries[index].name->0, flag),
                    );
                    let next = match offered {
                        Some(device) => found.push(device),
                        None => found,
                    };
                    lemma_only_removable_devices_are_offered(
                        entries,
                        index + 1,
                        reports,
                        at + used,
                        next,
                    );
                },
                _ => {},
            }
        }
    }
}

} // verus!
