//! The Windows backend: which PowerShell scripts provision a device, and
//! what their reports mean.

use crate::backend::{
    command_output, create_dir_step, fails_as, host_step, lemma_plan_answers, lemma_plan_ends,
    lemma_plan_fails_in_kind, lemma_safe_devices, output_of, plan_result_view, plan_step,
    planned_step, remove_dir_step, report_views, run_for_status, run_planned, run_single,
    status_step, BackendStep, BackendStepView, ListingStep, ListingStepView, PlatformDiskOps,
    Report, ReportView, Request, RequestView,
};
use crate::command::{
    check_output, planned_views, CommandOutput, CommandSpec, CommandView, FailureKind, OutputView,
    PlannedCommand, PlannedView,
};
use crate::disk::{
    device_views, extract_image, extract_image_plan, layout_view, opt_view, safe_to_target,
    test_image, test_image_command, Device, DeviceView, PartitionConfig, PartitionView,
};
use crate::error::{ErrorView, WowUsbError};
use crate::provision::{Action, ActionView, Event, EventView};
use crate::text::{
    chars_start_with, concat2, concat3, contains, decimal, decimal_string, lowercase, parse_bounded,
    parse_unsigned, signed_decimal, signed_decimal_string, slice_of, starts_with, str_contains,
    str_eq, str_trim, str_views, to_chars, to_lowercase, trim,
};
use vstd::prelude::*;

verus! {

/// How Windows names a physical drive, before its number.
pub const DRIVE_PREFIX: &'static str = "\\\\.\\PhysicalDrive";

/// The script that lists the disks that do not hold the system, as JSON.
pub const LIST_DISKS_SCRIPT: &'static str =
    "\n        Get-Disk | Where-Object {$_.IsSystem -eq $false} | ForEach-Object {\n            $partitions = Get-Partition -DiskNumber $_.Number | Where-Object {$_.DriveLetter}\n            $drive = if ($partitions) { $partitions[0].DriveLetter } else { $null }\n\n            [PSCustomObject]@{\n                Number = $_.Number\n                Model = $_.Model\n                Size = $_.Size\n                BusType = $_.BusType\n                MediaType = $_.MediaType\n                IsSystem = $_.IsSystem\n                IsRemovable = $_.IsRemovable\n                DriveLetter = $drive\n            }\n        } | ConvertTo-Json\n        ";

/// Bytes in a gigabyte, as disk sizes are shown.
pub const BYTES_PER_GB: i64 = 1073741824;

/// The most partitions for which drive letters can be counted up from `C`
/// within a byte.
pub const MAX_PARTITIONS: usize = 189;

/// One disk as PowerShell lists it. A member that is missing or has another
/// type than expected is absent.
#[derive(Debug, Clone, PartialEq, Eq)]
pub struct DiskEntry {
    pub number: Option<i64>,
    pub model: Option<String>,
    pub size: Option<i64>,
    pub drive_letter: Option<String>,
    pub is_removable: Option<bool>,
    pub bus_type: Option<String>,
}

pub struct DiskEntryView {
    pub number: Option<i64>,
    pub model: Option<Seq<char>>,
    pub size: Option<i64>,
    pub drive_letter: Option<Seq<char>>,
    pub is_removable: Option<bool>,
    pub bus_type: Option<Seq<char>>,
}

impl View for DiskEntry {
    type V = DiskEntryView;

    open spec fn view(&self) -> DiskEntryView {
        DiskEntryView {
            number: self.number,
            model: opt_view(self.model),
            size: self.size,
            drive_letter: opt_view(self.drive_letter),
            is_removable: self.is_removable,
            bus_type: opt_view(self.bus_type),
        }
    }
}

/// The views of a list of disks.
pub open spec fn disk_views(disks: Seq<DiskEntry>) -> Seq<DiskEntryView> {
    disks.map_values(|d: DiskEntry| d@)
}

/// What the JSON text of the disk listing holds: the error of the JSON
/// parser as it words it if the text is not an array, or else its elements,
/// each with its members `Number`, `Model`, `Size`, `DriveLetter`,
/// `IsRemovable` and `BusType` where they have the expected type.
pub uninterp spec fn disk_listing(text: Seq<char>) -> Result<Seq<DiskEntryView>, Seq<char>>;

pub open spec fn disk_listing_view(r: Result<Vec<DiskEntry>, String>) -> Result<
    Seq<DiskEntryView>,
    Seq<char>,
> {
    match r {
        Ok(disks) => Ok(disk_views(disks@)),
        Err(message) => Err(message@),
    }
}

/// Parses `text` as an array with `serde_json::from_str` and reads the
/// members of its elements with `Value::get`, `Value::as_i64`,
/// `Value::as_str` and `Value::as_bool`. The result depends on `text` alone;
/// the contract gives it its name.
#[verifier::external_body]
fn read_disks(text: &str) -> (r: Result<Vec<DiskEntry>, String>)
    ensures
        disk_listing_view(r) == disk_listing(text@),
{
    let disks: Vec<serde_json::Value> = serde_json::from_str(text).map_err(|e| e.to_string())?;
    let text_of = |d: &serde_json::Value, k: &str| d.get(k).and_then(|v| v.as_str()).map(String::from);
    Ok(disks.iter().map(|d| DiskEntry {
        number: d.get("Number").and_then(|v| v.as_i64()),
        model: text_of(d, "Model"),
        size: d.get("Size").and_then(|v| v.as_i64()),
        drive_letter: text_of(d, "DriveLetter"),
        is_removable: d.get("IsRemovable").and_then(|v| v.as_bool()),
        bus_type: text_of(d, "BusType"),
    }).collect())
}

/// A command that hands a script to PowerShell.
pub open spec fn powershell(script: Seq<char>) -> CommandView {
    CommandView { program: "powershell"@, args: seq!["-Command"@, script] }
}

pub open spec fn list_devices_plan() -> PlannedView {
    PlannedView {
        command: powershell(LIST_DISKS_SCRIPT@),
        kind: FailureKind::DeviceOperation,
        prefix: "PowerShell command failed: "@,
    }
}

/// A size in whole gigabytes, rounded towards zero.
pub open spec fn whole_gigabytes(size: i64) -> int {
    if size >= 0 {
        size as int / BYTES_PER_GB as int
    } else {
        -((-(size as int)) / BYTES_PER_GB as int)
    }
}

/// Whether a listed disk is removable; a disk that does not say is not.
pub open spec fn says_removable(disk: DiskEntryView) -> bool {
    match disk.is_removable {
        Some(flag) => flag,
        None => false,
    }
}

/// Whether a bus type in lower case names the USB bus.
pub open spec fn on_usb(lower_bus: Option<Seq<char>>) -> bool {
    match lower_bus {
        Some(bus) => contains(bus, "usb"@),
        None => false,
    }
}

/// The device that a listed disk stands for, if it is one to offer: it has
/// a number, a model and a size, and it is removable or hangs on the USB
/// bus. `lower_bus` is the bus type in lower case.
pub open spec fn device_of(disk: DiskEntryView, lower_bus: Option<Seq<char>>) -> Option<DeviceView> {
    if disk.number is Some && disk.model is Some && disk.size is Some && (says_removable(disk)
        || on_usb(lower_bus)) {
        Some(
            DeviceView {
                name: DRIVE_PREFIX@ + signed_decimal(disk.number->0 as int),
                size: signed_decimal(whole_gigabytes(disk.size->0)) + " GB"@,
                model: disk.model->0,
                filesystem: None,
                mountpoint: match disk.drive_letter {
                    Some(letter) => if letter.len() == 0 {
                        None
                    } else {
                        Some(letter + ":"@)
                    },
                    None => None,
                },
                is_removable: says_removable(disk),
                is_usb: on_usb(lower_bus),
            },
        )
    } else {
        None
    }
}

/// The bus type of a disk in lower case.
pub open spec fn lower_bus_type(disk: DiskEntryView) -> Option<Seq<char>> {
    match disk.bus_type {
        Some(bus) => Some(lowercase(bus)),
        None => None,
    }
}

/// The devices that the first `count` disks stand for, in their order.
pub open spec fn devices_among(disks: Seq<DiskEntryView>, count: int) -> Seq<DeviceView>
    decreases count,
{
    if count <= 0 {
        Seq::empty()
    } else {
        let earlier = devices_among(disks, count - 1);
        match device_of(disks[count - 1], lower_bus_type(disks[count - 1])) {
            Some(device) => earlier.push(device),
            None => earlier,
        }
    }
}

/// What reading the disk listing gives for what the JSON reader found.
pub open spec fn devices_of(listing: Result<Seq<DiskEntryView>, Seq<char>>) -> Result<
    Seq<DeviceView>,
    ErrorView,
> {
    match listing {
        Ok(disks) => Ok(devices_among(disks, disks.len() as int)),
        Err(message) => Err(
            ErrorView::DeviceOperation("Failed to parse disk listing: "@ + message),
        ),
    }
}

pub open spec fn devices_result_view(r: Result<Vec<Device>, WowUsbError>) -> Result<
    Seq<DeviceView>,
    ErrorView,
> {
    match r {
        Ok(devices) => Ok(device_views(devices@)),
        Err(e) => Err(e@),
    }
}

/// What stands after the drive prefix in a device identifier, if the
/// identifier begins with the prefix.
pub open spec fn after_drive_prefix(device: Seq<char>) -> Option<Seq<char>> {
    if starts_with(device, DRIVE_PREFIX@) {
        Some(device.skip(DRIVE_PREFIX@.len() as int))
    } else {
        None
    }
}

/// The number of the disk that a device identifier names: the identifier
/// is the drive prefix followed by a number that fits 32 bits.
pub open spec fn disk_number(device: Seq<char>) -> Option<nat> {
    match after_drive_prefix(device) {
        Some(rest) => parse_unsigned(rest, u32::MAX as nat),
        None => None,
    }
}

pub open spec fn invalid_device() -> ErrorView {
    ErrorView::Validation("Invalid device format"@)
}

pub open spec fn invalid_partition() -> ErrorView {
    ErrorView::Validation("Invalid partition format"@)
}

/// The drive letter of a partition identifier: its first character, if a
/// colon follows it.
pub open spec fn drive_letter(partition: Seq<char>) -> Option<char> {
    if partition.len() >= 2 && partition[1] == ':' {
        Some(partition[0])
    } else {
        None
    }
}

pub open spec fn verify_script(number: nat) -> Seq<char> {
    "\n        try {\n            Get-Disk -Number "@ + decimal(number)
        + " | Out-Null\n            $true\n        } catch {\n            $false\n        }\n        "@
}

/// The script that says whether the disk of `device` exists; none for an
/// identifier that does not name a physical drive, which is then no device.
/// A number that cannot be read counts as zero.
pub open spec fn verify_device_command(device: Seq<char>) -> Option<CommandView> {
    match after_drive_prefix(device) {
        Some(rest) => Some(
            powershell(
                verify_script(
                    match parse_unsigned(rest, u32::MAX as nat) {
                        Some(number) => number,
                        None => 0,
                    },
                ),
            ),
        ),
        None => None,
    }
}

pub open spec fn clear_script(number: nat) -> Seq<char> {
    "\n        Clear-Disk -Number "@ + decimal(number) + " -RemoveData -Confirm:$false\n        "@
}

pub open spec fn initialize_script(number: nat) -> Seq<char> {
    "\n        Initialize-Disk -Number "@ + decimal(number) + " -PartitionStyle GPT\n        "@
}

/// The size of a partition as `New-Partition` takes it.
pub open spec fn partition_size(partition: PartitionView) -> Seq<char> {
    if partition.size_mb == 0 {
        "Max"@
    } else {
        decimal(partition.size_mb) + "MB"@
    }
}

/// The drive letter of the partition of index `index`: letters are counted
/// up from `C`.
pub open spec fn letter_for(index: int) -> char {
    (67 + index) as char
}

pub open spec fn new_partition_script(number: nat, partition: PartitionView, index: int) -> Seq<
    char,
> {
    "\n            New-Partition -DiskNumber "@ + decimal(number) + " -Size "@ + partition_size(
        partition,
    ) + " -DriveLetter "@ + seq![letter_for(index)] + " -AssignDriveLetter\n            "@
}

pub open spec fn device_failure(script: Seq<char>, prefix: Seq<char>) -> PlannedView {
    PlannedView { command: powershell(script), kind: FailureKind::DeviceOperation, prefix }
}

/// The scripts that create the partitions from index `index` on, in the
/// order of the layout.
pub open spec fn partition_scripts(number: nat, layout: Seq<PartitionView>, index: int) -> Seq<
    PlannedView,
>
    decreases layout.len() - index,
{
    if index < 0 || index >= layout.len() {
        Seq::empty()
    } else {
        seq![
            device_failure(
                new_partition_script(number, layout[index], index),
                "Failed to create partition: "@,
            ),
        ] + partition_scripts(number, layout, index + 1)
    }
}

/// The scripts that replace the partition table of a disk by `layout`: one
/// that clears the disk, one that initializes it, one for each partition.
pub open spec fn create_partitions_plan(number: nat, layout: Seq<PartitionView>) -> Seq<PlannedView> {
    seq![
        device_failure(clear_script(number), "Failed to clear disk: "@),
        device_failure(initialize_script(number), "Failed to initialize disk: "@),
    ] + partition_scripts(number, layout, 0)
}

/// The name that `Format-Volume` has for a filesystem.
pub open spec fn volume_format(filesystem: Seq<char>) -> Option<Seq<char>> {
    if filesystem == "fat32"@ {
        Some("FAT32"@)
    } else if filesystem == "ntfs"@ {
        Some("NTFS"@)
    } else if filesystem == "exfat"@ {
        Some("exFAT"@)
    } else {
        None
    }
}

pub open spec fn format_script(letter: char, format: Seq<char>, label: Seq<char>) -> Seq<char> {
    "Format-Volume -DriveLetter "@ + seq![letter] + " -FileSystem "@ + format
        + " -NewFileSystemLabel \""@ + label + "\" -Confirm:$false"@
}

/// The script that formats a partition: a validation error for a partition
/// that is not a drive letter and a colon, a filesystem error for a
/// filesystem that Windows cannot make.
pub open spec fn format_plan(
    partition: Seq<char>,
    filesystem: Seq<char>,
    label: Seq<char>,
) -> Result<PlannedView, ErrorView> {
    match drive_letter(partition) {
        None => Err(invalid_partition()),
        Some(letter) => match volume_format(filesystem) {
            None => Err(ErrorView::Filesystem("Unsupported filesystem: "@ + filesystem)),
            Some(format) => Ok(
                PlannedView {
                    command: powershell(format_script(letter, format, label)),
                    kind: FailureKind::Filesystem,
                    prefix: "Failed to format partition: "@,
                },
            ),
        },
    }
}

/// No boot loader can be installed from Windows yet.
pub open spec fn bootloader_error(bootloader_type: Seq<char>) -> ErrorView {
    if bootloader_type == "grub2"@ {
        ErrorView::NotImplemented("Windows bootloader installation not yet implemented"@)
    } else {
        ErrorView::NotImplemented("Bootloader type not supported: "@ + bootloader_type)
    }
}

/// The Windows backend.
pub struct WindowsDiskOps;

impl WindowsDiskOps {
    pub fn new() -> Self {
        WindowsDiskOps
    }

    fn powershell(script: &str) -> (command: CommandSpec)
        ensures
            command@ == powershell(script@),
    {
        let args = vec!["-Command", script];
        assert(str_views(args@) =~= seq!["-Command"@, script@]);
        CommandSpec::new("powershell", &args)
    }

    fn device_failure(script: &str, prefix: &str) -> (planned: PlannedCommand)
        ensures
            planned@ == device_failure(script@, prefix@),
    {
        PlannedCommand {
            command: Self::powershell(script),
            kind: FailureKind::DeviceOperation,
            prefix: String::from_str(prefix),
        }
    }

    /// The command that lists the disks.
    pub fn list_devices_command() -> (planned: PlannedCommand)
        ensures
            planned@ == list_devices_plan(),
    {
        Self::device_failure(LIST_DISKS_SCRIPT, "PowerShell command failed: ")
    }

    fn whole_gigabytes(size: i64) -> (gb: i64)
        ensures
            gb == whole_gigabytes(size),
    {
        if size >= 0 {
            size / BYTES_PER_GB
        } else {
            let magnitude: u64 = ((-(size + 1)) as u64) + 1;
            let quotient: u64 = magnitude / 1073741824;
            assert(magnitude == -(size as int));
            assert(quotient <= magnitude);
            assert(quotient <= 0x2_0000_0000u64);
            -(quotient as i64)
        }
    }

    /// The device that a listed disk stands for, given its bus type in
    /// lower case.
    pub fn device_from_disk(disk: &DiskEntry, lower_bus: Option<&str>) -> (r: Option<Device>)
        ensures
            match device_of(
                disk@,
                match lower_bus {
                    Some(bus) => Some(bus@),
                    None => None,
                },
            ) {
                Some(expected) => r matches Some(device) && device@ == expected,
                None => r is None,
            },
    {
        match (&disk.number, &disk.model, &disk.size) {
            (Some(number), Some(model), Some(size)) => {
                let mountpoint = match &disk.drive_letter {
                    Some(letter) => if letter.as_str().is_empty() {
                        None
                    } else {
                        Some(concat2(letter.as_str(), ":"))
                    },
                    None => None,
                };
                let is_removable = match disk.is_removable {
                    Some(flag) => flag,
                    None => false,
                };
                let is_usb = match lower_bus {
                    Some(bus) => str_contains(bus, "usb"),
                    None => false,
                };
                if !is_removable && !is_usb {
                    return None;
                }
                Some(
                    Device {
                        name: concat2(DRIVE_PREFIX, signed_decimal_string(*number).as_str()),
                        size: concat2(
                            signed_decimal_string(Self::whole_gigabytes(*size)).as_str(),
                            " GB",
                        ),
                        model: model.clone(),
                        filesystem: None,
                        mountpoint,
                        is_removable,
                        is_usb,
                    },
                )
            },
            _ => None,
        }
    }

    /// The devices that the disks stand for, in their order.
    pub fn devices_from(disks: &Vec<DiskEntry>) -> (devices: Vec<Device>)
        ensures
            device_views(devices@) == devices_among(
                disk_views(disks@),
                disks@.len() as int,
            ),
    {
        let mut devices: Vec<Device> = Vec::new();
        let mut i: usize = 0;
        assert(device_views(devices@) =~= Seq::<DeviceView>::empty());
        while i < disks.len()
            invariant
                i <= disks.len(),
                device_views(devices@) == devices_among(
                    disk_views(disks@),
                    i as int,
                ),
            decreases disks.len() - i,
        {
            let ghost before = device_views(devices@);
            assert(disk_views(disks@)[i as int] == disks@[i as int]@);
            let found = match &disks[i].bus_type {
                Some(bus) => {
                    let lower = to_lowercase(bus.as_str());
                    Self::device_from_disk(&disks[i], Some(lower.as_str()))
                },
                None => Self::device_from_disk(&disks[i], None),
            };
            match found {
                Some(device) => {
                    let ghost view = device@;
                    devices.push(device);
                    assert(device_views(devices@) =~= before.push(view));
                },
                None => {},
            }
            i += 1;
        }
        devices
    }

    /// The devices for what the JSON reader found in the disk listing.
    pub fn devices_of(listing: Result<Vec<DiskEntry>, String>) -> (r: Result<
        Vec<Device>,
        WowUsbError,
    >)
        ensures
            devices_result_view(r) == devices_of(disk_listing_view(listing)),
    {
        match listing {
            Ok(disks) => Ok(Self::devices_from(&disks)),
            Err(message) => {
                let text = concat2("Failed to parse disk listing: ", message.as_str());
                Err(WowUsbError::device_operation(text.as_str()))
            },
        }
    }

    /// Reads the report of the disk listing: a device error if PowerShell
    /// failed, else the devices of its JSON output.
    pub fn devices_from_listing(output: &CommandOutput) -> (r: Result<Vec<Device>, WowUsbError>)
        ensures
            devices_result_view(r) == if output@.success {
                devices_of(disk_listing(output@.stdout))
            } else {
                Err(ErrorView::DeviceOperation("PowerShell command failed: "@ + output@.stderr))
            },
    {
        match check_output(FailureKind::DeviceOperation, "PowerShell command failed: ", output) {
            Ok(_) => Self::devices_of(read_disks(output.stdout.as_str())),
            Err(e) => Err(e),
        }
    }

    fn after_drive_prefix(device: &str) -> (rest: Option<Vec<char>>)
        ensures
            match after_drive_prefix(device@) {
                Some(expected) => rest matches Some(r) && r@ == expected,
                None => rest is None,
            },
    {
        let chars = to_chars(device);
        let prefix = to_chars(DRIVE_PREFIX);
        if chars_start_with(&chars, &prefix) {
            Some(slice_of(&chars, prefix.len(), chars.len()))
        } else {
            None
        }
    }

    /// The number of the disk that a device identifier names, or a
    /// validation error for an identifier that names none.
    pub fn extract_disk_number(&self, device: &str) -> (r: Result<u32, WowUsbError>)
        ensures
            match disk_number(device@) {
                Some(number) => r == Ok::<u32, WowUsbError>(number as u32),
                None => r matches Err(e) && e@ == invalid_device(),
            },
    {
        match Self::after_drive_prefix(device) {
            Some(rest) => match parse_bounded(&rest, 0xffff_ffff) {
                Some(number) => Ok(number as u32),
                None => Err(WowUsbError::validation("Invalid device format")),
            },
            None => Err(WowUsbError::validation("Invalid device format")),
        }
    }

    /// The drive letter of a partition identifier, or a validation error for
    /// an identifier that is not a drive letter and a colon.
    pub fn extract_drive_letter(&self, partition: &str) -> (r: Result<char, WowUsbError>)
        ensures
            match drive_letter(partition@) {
                Some(letter) => r == Ok::<char, WowUsbError>(letter),
                None => r matches Err(e) && e@ == invalid_partition(),
            },
    {
        let chars = to_chars(partition);
        if chars.len() >= 2 && chars[1] == ':' {
            Ok(chars[0])
        } else {
            Err(WowUsbError::validation("Invalid partition format"))
        }
    }

    /// The command that says whether the disk of `device` exists; none for
    /// an identifier that does not name a physical drive.
    pub fn verify_device_command(device: &str) -> (r: Option<CommandSpec>)
        ensures
            match verify_device_command(device@) {
                Some(expected) => r matches Some(command) && command@ == expected,
                None => r is None,
            },
    {
        match Self::after_drive_prefix(device) {
            Some(rest) => {
                let number: u64 = match parse_bounded(&rest, 0xffff_ffff) {
                    Some(number) => number,
                    None => 0,
                };
                let script = concat3(
                    "\n        try {\n            Get-Disk -Number ",
                    decimal_string(number).as_str(),
                    " | Out-Null\n            $true\n        } catch {\n            $false\n        }\n        ",
                );
                Some(Self::powershell(script.as_str()))
            },
            None => None,
        }
    }

    /// Whether the report says that the disk exists.
    pub fn device_exists(output: &CommandOutput) -> (found: bool)
        ensures
            found == (output@.success && trim(output@.stdout) == "True"@),
    {
        if !output.success {
            return false;
        }
        let answer = str_trim(output.stdout.as_str());
        str_eq(answer.as_str(), "True")
    }

    fn clear_script(number: u32) -> (script: String)
        ensures
            script@ == clear_script(number as nat),
    {
        concat3(
            "\n        Clear-Disk -Number ",
            decimal_string(number as u64).as_str(),
            " -RemoveData -Confirm:$false\n        ",
        )
    }

    fn new_partition_script(number: u32, partition: &PartitionConfig, index: usize) -> (script:
        String)
        requires
            index < MAX_PARTITIONS,
        ensures
            script@ == new_partition_script(number as nat, partition@, index as int),
    {
        let size = if partition.size_mb == 0 {
            String::from_str("Max")
        } else {
            concat2(decimal_string(partition.size_mb).as_str(), "MB")
        };
        let letter: char = (67u8 + index as u8) as char;
        let mut script = concat3(
            "\n            New-Partition -DiskNumber ",
            decimal_string(number as u64).as_str(),
            " -Size ",
        );
        script = script.concat(size.as_str()).concat(" -DriveLetter ");
        let ghost before = script@;
        script.push(letter);
        assert(script@ =~= before + seq![letter_for(index as int)]);
        script.concat(" -AssignDriveLetter\n            ")
    }

    /// The scripts that replace the partition table of the disk of `device`
    /// by the layout, to be run in order until one fails; a validation
    /// error for an identifier that names no disk.
    pub fn create_partitions_commands(&self, device: &str, config: &Vec<PartitionConfig>) -> (r:
        Result<Vec<PlannedCommand>, WowUsbError>)
        requires
            config@.len() <= MAX_PARTITIONS,
        ensures
            match disk_number(device@) {
                Some(number) => r matches Ok(plan) && planned_views(plan@)
                    == create_partitions_plan(number, layout_view(config@)),
                None => r matches Err(e) && e@ == invalid_device(),
            },
    {
        let number = match self.extract_disk_number(device) {
            Ok(number) => number,
            Err(e) => {
                return Err(e);
            },
        };
        let ghost layout = layout_view(config@);
        let mut plan: Vec<PlannedCommand> = Vec::new();
        plan.push(
            Self::device_failure(Self::clear_script(number).as_str(), "Failed to clear disk: "),
        );
        let initialize = concat3(
            "\n        Initialize-Disk -Number ",
            decimal_string(number as u64).as_str(),
            " -PartitionStyle GPT\n        ",
        );
        plan.push(Self::device_failure(initialize.as_str(), "Failed to initialize disk: "));
        assert(planned_views(plan@) =~= seq![
            device_failure(clear_script(number as nat), "Failed to clear disk: "@),
            device_failure(initialize_script(number as nat), "Failed to initialize disk: "@),
        ]);
        let mut i: usize = 0;
        while i < config.len()
            invariant
                i <= config.len(),
                config@.len() <= MAX_PARTITIONS,
                layout == layout_view(config@),
                planned_views(plan@) + partition_scripts(number as nat, layout, i as int)
                    == create_partitions_plan(number as nat, layout),
            decreases config.len() - i,
        {
            assert(layout[i as int] == config@[i as int]@);
            let script = Self::new_partition_script(number, &config[i], i);
            let ghost before = planned_views(plan@);
            let ghost step = device_failure(script@, "Failed to create partition: "@);
            plan.push(Self::device_failure(script.as_str(), "Failed to create partition: "));
            assert(planned_views(plan@) =~= before.push(step));
            assert(planned_views(plan@) + partition_scripts(number as nat, layout, i + 1)
                =~= before + (seq![step] + partition_scripts(number as nat, layout, i + 1)));
            i += 1;
        }
        assert(planned_views(plan@) + Seq::<PlannedView>::empty() =~= planned_views(plan@));
        Ok(plan)
    }

    /// The script that formats the partition.
    pub fn format_command(&self, partition: &str, filesystem: &str, label: &str) -> (r: Result<
        PlannedCommand,
        WowUsbError,
    >)
        ensures
            match format_plan(partition@, filesystem@, label@) {
                Ok(expected) => r matches Ok(planned) && planned@ == expected,
                Err(error) => r matches Err(e) && e@ == error,
            },
    {
        let letter = match self.extract_drive_letter(partition) {
            Ok(letter) => letter,
            Err(e) => {
                return Err(e);
            },
        };
        let format = if str_eq(filesystem, "fat32") {
            "FAT32"
        } else if str_eq(filesystem, "ntfs") {
            "NTFS"
        } else if str_eq(filesystem, "exfat") {
            "exFAT"
        } else {
            let message = concat2("Unsupported filesystem: ", filesystem);
            return Err(WowUsbError::filesystem(message.as_str()));
        };
        let mut script = String::from_str("Format-Volume -DriveLetter ");
        let ghost before = script@;
        script.push(letter);
        assert(script@ =~= before + seq![letter]);
        let script = script.concat(" -FileSystem ").concat(format).concat(
            " -NewFileSystemLabel \"",
        ).concat(label).concat("\" -Confirm:$false");
        Ok(
            PlannedCommand {
                command: Self::powershell(script.as_str()),
                kind: FailureKind::Filesystem,
                prefix: String::from_str("Failed to format partition: "),
            },
        )
    }

    /// Where a partition is to be found: Windows has no mount points, the
    /// partition is its drive letter and a colon.
    pub fn drive_path(&self, partition: &str) -> (r: Result<String, WowUsbError>)
        ensures
            match drive_letter(partition@) {
                Some(letter) => r matches Ok(path) && path@ == seq![letter, ':'],
                None => r matches Err(e) && e@ == invalid_partition(),
            },
    {
        match self.extract_drive_letter(partition) {
            Ok(letter) => {
                let mut path = String::new();
                path.push(letter);
                path.push(':');
                assert(path@ =~= seq![letter, ':']);
                Ok(path)
            },
            Err(e) => Err(e),
        }
    }

    /// The script that erases the disk of `device`, or a validation error
    /// for an identifier that names no disk.
    pub fn wipe_command(&self, device: &str) -> (r: Result<PlannedCommand, WowUsbError>)
        ensures
            match disk_number(device@) {
                Some(number) => r matches Ok(planned) && planned@ == device_failure(
                    clear_script(number),
                    "Failed to wipe disk: "@,
                ),
                None => r matches Err(e) && e@ == invalid_device(),
            },
    {
        match self.extract_disk_number(device) {
            Ok(number) => Ok(
                Self::device_failure(Self::clear_script(number).as_str(), "Failed to wipe disk: "),
            ),
            Err(e) => Err(e),
        }
    }

    /// The command that tests the image.
    pub fn validate_iso_command(iso_path: &str) -> (command: CommandSpec)
        ensures
            command@ == test_image_command(iso_path@),
    {
        test_image(iso_path)
    }

    /// The command that unpacks the image into `target_path`.
    pub fn extract_command(iso_path: &str, target_path: &str) -> (planned: PlannedCommand)
        ensures
            planned@ == extract_image_plan(iso_path@, target_path@),
    {
        extract_image(iso_path, target_path)
    }

    /// Installing a boot loader from Windows is not possible yet: whatever
    /// is asked for, this is the error that says so.
    pub fn refuse_bootloader(bootloader_type: &str) -> (r: Result<(), WowUsbError>)
        ensures
            r matches Err(e) && e@ == bootloader_error(bootloader_type@),
    {
        if str_eq(bootloader_type, "grub2") {
            Err(WowUsbError::not_implemented("Windows bootloader installation not yet implemented"))
        } else {
            let message = concat2("Bootloader type not supported: ", bootloader_type);
            Err(WowUsbError::not_implemented(message.as_str()))
        }
    }
}

/// What the Windows backend does next to enumerate the devices: the disks
/// are listed by one script, and its output holds all there is to know.
pub open spec fn windows_listing(reports: Seq<ReportView>) -> ListingStepView {
    if reports.len() == 0 {
        ListingStepView::Ask(
            RequestView::Run { command: list_devices_plan().command, read_output: true },
        )
    } else {
        ListingStepView::Done(
            match output_of(reports[0]) {
                Ok(output) => if output.success {
                    devices_of(disk_listing(output.stdout))
                } else {
                    Err(
                        ErrorView::DeviceOperation(
                            "PowerShell command failed: "@ + output.stderr,
                        ),
                    )
                },
                Err(error) => Err(error),
            },
        )
    }
}

/// The error for a layout with more partitions than drive letters can be
/// counted for.
pub open spec fn too_many_partitions() -> ErrorView {
    ErrorView::DeviceOperation("Too many partitions"@)
}

/// The plan that replaces the partition table: a device error for a layout
/// with too many partitions, a validation error for an identifier that
/// names no disk.
pub open spec fn partitioning_plan(device: Seq<char>, layout: Seq<PartitionView>) -> Result<
    Seq<PlannedView>,
    ErrorView,
> {
    if layout.len() > MAX_PARTITIONS {
        Err(too_many_partitions())
    } else {
        match disk_number(device) {
            Some(number) => Ok(create_partitions_plan(number, layout)),
            None => Err(invalid_device()),
        }
    }
}

/// Where the verification of a device stands: an identifier that names no
/// physical drive is no device; for any other PowerShell is asked.
pub open spec fn verify_step(device: Seq<char>, reports: Seq<ReportView>) -> BackendStepView {
    match verify_device_command(device) {
        None => BackendStepView::Done(EventView::Flag(Ok(false))),
        Some(command) => if reports.len() == 0 {
            BackendStepView::Ask(RequestView::Run { command, read_output: true })
        } else {
            BackendStepView::Done(
                EventView::Flag(
                    match output_of(reports[0]) {
                        Ok(output) => Ok(output.success && trim(output.stdout) == "True"@),
                        Err(error) => Err(error),
                    },
                ),
            )
        },
    }
}

/// Where a partition is found: at its drive letter, with nothing to do.
pub open spec fn mounted_at(partition: Seq<char>) -> Result<Seq<char>, ErrorView> {
    match drive_letter(partition) {
        Some(letter) => Ok(seq![letter, ':']),
        None => Err(invalid_partition()),
    }
}

/// What the Windows backend does next for an action.
pub open spec fn windows_next(action: ActionView, reports: Seq<ReportView>) -> BackendStepView {
    match action {
        ActionView::ValidateIso { iso_path } => status_step(test_image_command(iso_path), reports),
        ActionView::VerifyDevice { device } => verify_step(device, reports),
        ActionView::CreatePartitions { device, layout } => planned_step(
            partitioning_plan(device, layout),
            reports,
        ),
        ActionView::FormatPartition { partition, filesystem, label } => planned_step(
            match format_plan(partition, filesystem, label) {
                Ok(planned) => Ok(seq![planned]),
                Err(error) => Err(error),
            },
            reports,
        ),
        ActionView::CreateMountDir { path } => host_step(
            BackendStepView::Ask(RequestView::CreateDir { path }),
            reports,
        ),
        ActionView::MountPartition { partition, mountpoint } => BackendStepView::Done(
            EventView::Mounted(mounted_at(partition)),
        ),
        ActionView::ExtractIso { iso_path, target_path } => plan_step(
            seq![extract_image_plan(iso_path, target_path)],
            reports,
        ),
        ActionView::InstallBootloader { device, bootloader_type } => BackendStepView::Done(
            EventView::Done(Err(bootloader_error(bootloader_type))),
        ),
        ActionView::UnmountPartition { mountpoint } => BackendStepView::Done(
            EventView::Done(Ok(())),
        ),
        ActionView::RemoveMountDir { path } => host_step(
            BackendStepView::Ask(RequestView::RemoveDir { path }),
            reports,
        ),
        ActionView::Finish { .. } => BackendStepView::Nothing,
        ActionView::Idle => BackendStepView::Nothing,
    }
}

/// The number of reports after which an action is over on Windows.
pub open spec fn windows_budget(action: ActionView) -> nat {
    match action {
        ActionView::CreatePartitions { device, layout } => 2 + layout.len(),
        ActionView::MountPartition { .. } => 0,
        ActionView::InstallBootloader { .. } => 0,
        ActionView::UnmountPartition { .. } => 0,
        ActionView::Finish { .. } => 0,
        ActionView::Idle => 0,
        _ => 1,
    }
}

/// Every script that creates a partition fails as a device operation.
pub proof fn lemma_scripts_fail_as_device_operation(
    number: nat,
    layout: Seq<PartitionView>,
    index: int,
)
    requires
        0 <= index,
    ensures
        fails_as(partition_scripts(number, layout, index), FailureKind::DeviceOperation),
    decreases layout.len() - index,
{
    if index < layout.len() {
        lemma_scripts_fail_as_device_operation(number, layout, index + 1);
        let all = partition_scripts(number, layout, index);
        let rest = partition_scripts(number, layout, index + 1);
        assert forall|i: int| 0 <= i < all.len() implies (#[trigger] all[i]).kind
            == FailureKind::DeviceOperation by {
            if i >= 1 {
                assert(all[i] == rest[i - 1]);
            }
        }
    }
}

/// The partitions are created in the order of the layout, after the disk
/// has been cleared and initialized, each with the next drive letter, and
/// a partition that asks for the remaining space gets the greatest size.
pub proof fn lemma_partitions_are_created_in_order(
    number: nat,
    layout: Seq<PartitionView>,
    index: int,
)
    requires
        0 <= index < layout.len(),
    ensures
        create_partitions_plan(number, layout).len() == 2 + layout.len(),
        create_partitions_plan(number, layout)[2 + index] == device_failure(
            new_partition_script(number, layout[index], index),
            "Failed to create partition: "@,
        ),
        layout[index].size_mb == 0 ==> partition_size(layout[index]) == "Max"@,
{
    lemma_one_script_for_each_partition(number, layout, 0);
    lemma_script_at(number, layout, 0, index);
    let scripts = partition_scripts(number, layout, 0);
    assert(create_partitions_plan(number, layout)[2 + index] == scripts[index]);
}

proof fn lemma_script_at(number: nat, layout: Seq<PartitionView>, from: int, index: int)
    requires
        0 <= from <= index < layout.len(),
    ensures
        index - from < partition_scripts(number, layout, from).len(),
        partition_scripts(number, layout, from)[index - from] == device_failure(
            new_partition_script(number, layout[index], index),
            "Failed to create partition: "@,
        ),
    decreases index - from,
{
    lemma_one_script_for_each_partition(number, layout, from);
    if from < index {
        lemma_script_at(number, layout, from + 1, index);
        let all = partition_scripts(number, layout, from);
        let rest = partition_scripts(number, layout, from + 1);
        assert(all[index - from] == rest[index - from - 1]);
    }
}

/// There is one script for each partition.
pub proof fn lemma_one_script_for_each_partition(
    number: nat,
    layout: Seq<PartitionView>,
    index: int,
)
    requires
        0 <= index <= layout.len(),
    ensures
        partition_scripts(number, layout, index).len() == layout.len() - index,
    decreases layout.len() - index,
{
    if index < layout.len() {
        lemma_one_script_for_each_partition(number, layout, index + 1);
    }
}

impl WindowsDiskOps {
    /// Whether `device` is a disk: an identifier that names no physical
    /// drive is none, which is an answer and not an error; for any other
    /// PowerShell is asked.
    pub fn verify_device(&self, device: &str, reports: &Vec<Report>) -> (step: BackendStep)
        ensures
            step@ == verify_step(device@, report_views(reports@)),
    {
        match Self::verify_device_command(device) {
            None => BackendStep::Done(Event::Flag(Ok(false))),
            Some(command) => {
                if reports.len() == 0 {
                    BackendStep::Ask(Request::Run { command, read_output: true })
                } else {
                    assert(report_views(reports@)[0] == reports@[0]@);
                    match command_output(&reports[0]) {
                        Ok(output) => BackendStep::Done(
                            Event::Flag(Ok(Self::device_exists(output))),
                        ),
                        Err(error) => BackendStep::Done(Event::Flag(Err(error))),
                    }
                }
            },
        }
    }

    /// The plan that replaces the partition table of the disk of `device`
    /// by the layout.
    pub fn partitioning_plan(&self, device: &str, config: &Vec<PartitionConfig>) -> (r: Result<
        Vec<PlannedCommand>,
        WowUsbError,
    >)
        ensures
            plan_result_view(r) == partitioning_plan(device@, layout_view(config@)),
    {
        if config.len() > MAX_PARTITIONS {
            Err(WowUsbError::device_operation("Too many partitions"))
        } else {
            self.create_partitions_commands(device, config)
        }
    }
}

impl WindowsDiskOps {
    /// Whether the image at `iso_path` is valid: it is if 7-Zip can test it.
    /// An image that fails the test is invalid, which is an answer and not
    /// an error.
    pub fn validate_iso(&self, iso_path: &str, reports: &Vec<Report>) -> (step: BackendStep)
        ensures
            step@ == status_step(test_image_command(iso_path@), report_views(reports@)),
    {
        run_for_status(Self::validate_iso_command(iso_path), reports)
    }

    /// Replaces the partition table of the disk of `device` by the layout:
    /// the scripts of the plan are run in order until one fails, and a
    /// failure is a failed device operation.
    pub fn create_partitions(
        &self,
        device: &str,
        config: &Vec<PartitionConfig>,
        reports: &Vec<Report>,
    ) -> (step: BackendStep)
        ensures
            step@ == planned_step(
                partitioning_plan(device@, layout_view(config@)),
                report_views(reports@),
            ),
    {
        run_planned(self.partitioning_plan(device, config), reports)
    }

    /// Makes a filesystem on `partition`: a partition that is no drive
    /// letter and a filesystem that Windows cannot make are refused before
    /// anything is run, and a failure of the script is a filesystem error.
    pub fn format_partition(
        &self,
        partition: &str,
        filesystem: &str,
        label: &str,
        reports: &Vec<Report>,
    ) -> (step: BackendStep)
        ensures
            step@ == planned_step(
                match format_plan(partition@, filesystem@, label@) {
                    Ok(planned) => Ok(seq![planned]),
                    Err(error) => Err(error),
                },
                report_views(reports@),
            ),
    {
        match self.format_command(partition, filesystem, label) {
            Ok(planned) => run_single(planned, reports),
            Err(error) => BackendStep::Done(Event::Done(Err(error))),
        }
    }

    /// Where `partition` is to be found. Windows has no mount points: the
    /// answer is the drive letter and a colon, whatever mount point was
    /// asked for, and nothing is run.
    pub fn mount_partition(&self, partition: &str, mountpoint: &str, reports: &Vec<Report>) -> (step:
        BackendStep)
        ensures
            step@ == BackendStepView::Done(EventView::Mounted(mounted_at(partition@))),
    {
        BackendStep::Done(Event::Mounted(self.drive_path(partition)))
    }

    /// There is nothing to unmount on Windows: unmounting succeeds, however
    /// often it is asked for and whatever has been reported.
    pub fn unmount_partition(&self, mountpoint: &str, reports: &Vec<Report>) -> (step: BackendStep)
        ensures
            step@ == BackendStepView::Done(EventView::Done(Ok(()))),
    {
        BackendStep::Done(Event::Done(Ok(())))
    }

    /// Unpacks the image into `target_path`; a failure is an image error.
    pub fn extract_iso(&self, iso_path: &str, target_path: &str, reports: &Vec<Report>) -> (step:
        BackendStep)
        ensures
            step@ == plan_step(
                seq![extract_image_plan(iso_path@, target_path@)],
                report_views(reports@),
            ),
    {
        run_single(Self::extract_command(iso_path, target_path), reports)
    }

    /// Installing a boot loader from Windows is not possible yet: whatever
    /// is asked for is refused as not implemented, before anything is run.
    pub fn install_bootloader(
        &self,
        device: &str,
        bootloader_type: &str,
        reports: &Vec<Report>,
    ) -> (step: BackendStep)
        ensures
            step@ == BackendStepView::Done(EventView::Done(Err(bootloader_error(bootloader_type@)))),
    {
        BackendStep::Done(Event::Done(Self::refuse_bootloader(bootloader_type)))
    }
}

impl PlatformDiskOps for WindowsDiskOps {
    open spec fn next(&self, action: ActionView, reports: Seq<ReportView>) -> BackendStepView {
        windows_next(action, reports)
    }

    open spec fn budget(&self, action: ActionView) -> nat {
        windows_budget(action)
    }

    fn advance(&self, action: &Action, reports: &Vec<Report>) -> (step: BackendStep) {
        match action {
            Action::ValidateIso { iso_path } => self.validate_iso(iso_path.as_str(), reports),
            Action::VerifyDevice { device } => self.verify_device(device.as_str(), reports),
            Action::CreatePartitions { device, layout } => self.create_partitions(
                device.as_str(),
                layout,
                reports,
            ),
            Action::FormatPartition { partition, filesystem, label } => self.format_partition(
                partition.as_str(),
                filesystem.as_str(),
                label.as_str(),
                reports,
            ),
            Action::CreateMountDir { path } => create_dir_step(path.as_str(), reports),
            Action::MountPartition { partition, mountpoint } => self.mount_partition(
                partition.as_str(),
                mountpoint.as_str(),
                reports,
            ),
            Action::ExtractIso { iso_path, target_path } => self.extract_iso(
                iso_path.as_str(),
                target_path.as_str(),
                reports,
            ),
            Action::InstallBootloader { device, bootloader_type } => self.install_bootloader(
                device.as_str(),
                bootloader_type.as_str(),
                reports,
            ),
            Action::UnmountPartition { mountpoint } => self.unmount_partition(
                mountpoint.as_str(),
                reports,
            ),
            Action::RemoveMountDir { path } => remove_dir_step(path.as_str(), reports),
            Action::Finish { .. } => BackendStep::Nothing,
            Action::Idle => BackendStep::Nothing,
        }
    }

    open spec fn listing(&self, reports: Seq<ReportView>) -> ListingStepView {
        windows_listing(reports)
    }

    fn list_devices(&self, reports: &Vec<Report>) -> (step: ListingStep) {
        if reports.len() == 0 {
            return ListingStep::Ask(
                Request::Run { command: Self::list_devices_command().command, read_output: true },
            );
        }
        assert(report_views(reports@)[0] == reports@[0]@);
        match command_output(&reports[0]) {
            Ok(output) => {
                let step = ListingStep::Done(Self::devices_from_listing(output));
                proof {
                    self.only_safe_devices_are_offered(report_views(reports@));
                    if let ListingStep::Done(Ok(devices)) = &step {
                        lemma_safe_devices(self.listing(report_views(reports@)), devices@);
                    }
                }
                step
            },
            Err(error) => ListingStep::Done(Err(error)),
        }
    }

    open spec fn listing_budget(&self, first: ReportView) -> nat {
        1
    }

    proof fn listing_ends(&self, reports: Seq<ReportView>) {
    }

    proof fn only_safe_devices_are_offered(&self, reports: Seq<ReportView>) {
        if reports.len() > 0 && output_of(reports[0]) is Ok {
            let listing = disk_listing(output_of(reports[0])->Ok_0.stdout);
            if listing is Ok {
                lemma_listed_devices_are_safe(listing->Ok_0, listing->Ok_0.len() as int);
            }
        }
    }

    proof fn failed_listing_is_a_device_error(&self, output: OutputView) {
    }

    open spec fn wipe_plan(&self, device: Seq<char>) -> Result<PlannedView, ErrorView> {
        match disk_number(device) {
            Some(number) => Ok(device_failure(clear_script(number), "Failed to wipe disk: "@)),
            None => Err(invalid_device()),
        }
    }

    fn wipe_device(&self, device: &str) -> (r: Result<PlannedCommand, WowUsbError>) {
        self.wipe_command(device)
    }

    proof fn wipe_fails_as_device_operation(&self, device: Seq<char>) {
    }

    proof fn actions_end(&self, action: ActionView, reports: Seq<ReportView>) {
        match action {
            ActionView::CreatePartitions { device, layout } => {
                if partitioning_plan(device, layout) is Ok {
                    let number = disk_number(device)->0;
                    lemma_one_script_for_each_partition(number, layout, 0);
                    lemma_plan_ends(create_partitions_plan(number, layout), reports, 0);
                }
            },
            ActionView::FormatPartition { partition, filesystem, label } => {
                if format_plan(partition, filesystem, label) is Ok {
                    lemma_plan_ends(seq![format_plan(partition, filesystem, label)->Ok_0], reports, 0);
                }
            },
            ActionView::ExtractIso { iso_path, target_path } => {
                lemma_plan_ends(seq![extract_image_plan(iso_path, target_path)], reports, 0);
            },
            _ => {},
        }
    }

    proof fn results_answer_the_action(&self, action: ActionView, reports: Seq<ReportView>) {
        match action {
            ActionView::CreatePartitions { device, layout } => {
                if partitioning_plan(device, layout) is Ok {
                    lemma_plan_answers(
                        create_partitions_plan(disk_number(device)->0, layout),
                        reports,
                        0,
                    );
                }
            },
            ActionView::FormatPartition { partition, filesystem, label } => {
                if format_plan(partition, filesystem, label) is Ok {
                    lemma_plan_answers(
                        seq![format_plan(partition, filesystem, label)->Ok_0],
                        reports,
                        0,
                    );
                }
            },
            ActionView::ExtractIso { iso_path, target_path } => {
                lemma_plan_answers(seq![extract_image_plan(iso_path, target_path)], reports, 0);
            },
            _ => {},
        }
    }

    proof fn failures_are_of_their_kind(&self, action: ActionView, reports: Seq<ReportView>) {
        match action {
            ActionView::CreatePartitions { device, layout } => {
                if partitioning_plan(device, layout) is Ok {
                    let number = disk_number(device)->0;
                    let plan = create_partitions_plan(number, layout);
                    let scripts = partition_scripts(number, layout, 0);
                    lemma_scripts_fail_as_device_operation(number, layout, 0);
                    assert(fails_as(plan, FailureKind::DeviceOperation)) by {
                        assert forall|i: int| 0 <= i < plan.len() implies (#[trigger] plan[i]).kind
                            == FailureKind::DeviceOperation by {
                            if i >= 2 {
                                assert(plan[i] == scripts[i - 2]);
                            }
                        }
                    }
                    lemma_plan_fails_in_kind(plan, reports, 0, FailureKind::DeviceOperation);
                }
            },
            ActionView::FormatPartition { partition, filesystem, label } => {
                if format_plan(partition, filesystem, label) is Ok {
                    lemma_plan_fails_in_kind(
                        seq![format_plan(partition, filesystem, label)->Ok_0],
                        reports,
                        0,
                        FailureKind::Filesystem,
                    );
                }
            },
            ActionView::ExtractIso { iso_path, target_path } => {
                lemma_plan_fails_in_kind(
                    seq![extract_image_plan(iso_path, target_path)],
                    reports,
                    0,
                    FailureKind::IsoProcessing,
                );
            },
            _ => {},
        }
    }

    proof fn invalid_image_is_not_an_error(&self, iso_path: Seq<char>, output: OutputView) {
    }

    proof fn unmount_is_idempotent(&self, mountpoint: Seq<char>, output: OutputView) {
    }

    proof fn unknown_bootloader_is_refused(
        &self,
        device: Seq<char>,
        bootloader_type: Seq<char>,
        reports: Seq<ReportView>,
    ) {
    }

    proof fn mount_directory_is_left_to_the_host(&self, path: Seq<char>, report: ReportView) {
    }
}

/// Every device that is offered for a listed disk is safe to target.
pub proof fn lemma_listed_devices_are_safe(disks: Seq<DiskEntryView>, count: int)
    ensures
        forall|i: int|
            0 <= i < devices_among(disks, count).len() ==> safe_to_target(
                #[trigger] devices_among(disks, count)[i],
            ),
    decreases count,
{
    if count > 0 {
        lemma_listed_devices_are_safe(disks, count - 1);
        let all = devices_among(disks, count);
        let earlier = devices_among(disks, count - 1);
        assert forall|i: int| 0 <= i < all.len() implies safe_to_target(#[trigger] all[i]) by {
            if i < earlier.len() {
                assert(all[i] == earlier[i]);
            }
        }
    }
}

} // verus!
