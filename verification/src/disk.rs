//! Devices, partition layouts, the partition planner and the derivation of
//! the main partition's identifier.

use crate::command::{CommandSpec, CommandView, FailureKind, PlannedCommand, PlannedView};
use crate::error::WowUsbError;
use crate::progress::ProgressManager;
use crate::provision::{initial_run, run_wf, ProvisioningRun};
use crate::text::{concat2, is_numeric, numeric, str_views, to_chars};
use vstd::prelude::*;

pub use crate::backend::PlatformDiskOps;

pub mod linux;
pub mod macos;
pub mod windows;

verus! {

/// A storage target as enumeration found it. A snapshot: never updated,
/// queried again whenever fresh state is needed.
#[derive(Debug, Clone, PartialEq, Eq)]
pub struct Device {
    pub name: String,
    pub size: String,
    pub model: String,
    pub filesystem: Option<String>,
    pub mountpoint: Option<String>,
    pub is_removable: bool,
    pub is_usb: bool,
}

pub struct DeviceView {
    pub name: Seq<char>,
    pub size: Seq<char>,
    pub model: Seq<char>,
    pub filesystem: Option<Seq<char>>,
    pub mountpoint: Option<Seq<char>>,
    pub is_removable: bool,
    pub is_usb: bool,
}

/// The view of an optional string.
pub open spec fn opt_view(s: Option<String>) -> Option<Seq<char>> {
    match s {
        Some(s) => Some(s@),
        None => None,
    }
}

impl View for Device {
    type V = DeviceView;

    open spec fn view(&self) -> DeviceView {
        DeviceView {
            name: self.name@,
            size: self.size@,
            model: self.model@,
            filesystem: opt_view(self.filesystem),
            mountpoint: opt_view(self.mountpoint),
            is_removable: self.is_removable,
            is_usb: self.is_usb,
        }
    }
}

/// Whether a device is one that may be offered as a target: it is removable
/// or it hangs on the USB bus.
pub open spec fn safe_to_target(device: DeviceView) -> bool {
    device.is_removable || device.is_usb
}

/// The views of a list of devices.
pub open spec fn device_views(devices: Seq<Device>) -> Seq<DeviceView> {
    devices.map_values(|d: Device| d@)
}

/// One planned partition. A size of zero stands for "all the space that is
/// left", and is meaningful only in the last entry of a layout.
#[derive(Debug, Clone, PartialEq, Eq)]
pub struct PartitionConfig {
    pub size_mb: u64,
    pub filesystem: String,
    pub label: String,
    pub bootable: bool,
}

pub struct PartitionView {
    pub size_mb: nat,
    pub filesystem: Seq<char>,
    pub label: Seq<char>,
    pub bootable: bool,
}

impl View for PartitionConfig {
    type V = PartitionView;

    open spec fn view(&self) -> PartitionView {
        PartitionView {
            size_mb: self.size_mb as nat,
            filesystem: self.filesystem@,
            label: self.label@,
            bootable: self.bootable,
        }
    }
}

/// The model of an ordered partition layout.
pub open spec fn layout_view(layout: Seq<PartitionConfig>) -> Seq<PartitionView> {
    layout.map_values(|p: PartitionConfig| p@)
}

/// A layout is well formed when only its last entry may ask for the
/// remaining space.
pub open spec fn layout_well_formed(layout: Seq<PartitionView>) -> bool {
    forall|i: int| 0 <= i < layout.len() - 1 ==> (#[trigger] layout[i]).size_mb != 0
}

/// The input of one provisioning run.
#[derive(Debug, Clone, PartialEq, Eq)]
pub struct CreateConfig {
    pub source_path: String,
    pub target_device: String,
    pub filesystem: String,
    pub drive_label: String,
    pub wintogo_enabled: bool,
    pub multiboot_enabled: bool,
    pub target_os: String,
}

pub struct RequestView {
    pub source_path: Seq<char>,
    pub target_device: Seq<char>,
    pub filesystem: Seq<char>,
    pub drive_label: Seq<char>,
    pub wintogo_enabled: bool,
    pub multiboot_enabled: bool,
    pub target_os: Seq<char>,
}

impl View for CreateConfig {
    type V = RequestView;

    open spec fn view(&self) -> RequestView {
        RequestView {
            source_path: self.source_path@,
            target_device: self.target_device@,
            filesystem: self.filesystem@,
            drive_label: self.drive_label@,
            wintogo_enabled: self.wintogo_enabled,
            multiboot_enabled: self.multiboot_enabled,
            target_os: self.target_os@,
        }
    }
}

/// Size of the EFI system partition of a multiboot layout, in megabytes.
pub const EFI_PARTITION_MB: u64 = 512;

/// Size of the BIOS boot stub of a multiboot layout, in megabytes.
pub const BIOS_STUB_MB: u64 = 1;

/// Size of the operating-system partition of a multiboot layout, in megabytes.
pub const OS_PARTITION_MB: u64 = 64000;

/// The EFI system partition that opens a multiboot layout.
pub open spec fn efi_partition() -> PartitionView {
    PartitionView {
        size_mb: EFI_PARTITION_MB as nat,
        filesystem: "fat32"@,
        label: "EFI"@,
        bootable: true,
    }
}

/// The stub that holds boot-loader code for firmware that boots through BIOS.
pub open spec fn bios_stub_partition() -> PartitionView {
    PartitionView {
        size_mb: BIOS_STUB_MB as nat,
        filesystem: "bios_grub"@,
        label: "BIOS_GRUB"@,
        bootable: false,
    }
}

/// The partition that receives the operating system in a multiboot layout.
pub open spec fn os_partition() -> PartitionView {
    PartitionView {
        size_mb: OS_PARTITION_MB as nat,
        filesystem: "ntfs"@,
        label: "Windows"@,
        bootable: false,
    }
}

/// The single bootable partition of a standard layout: all the space, with
/// the filesystem and label that were asked for.
pub open spec fn single_partition(request: RequestView) -> PartitionView {
    PartitionView {
        size_mb: 0,
        filesystem: request.filesystem,
        label: request.drive_label,
        bootable: true,
    }
}

/// The layout that the planner gives for a request.
pub open spec fn plan(request: RequestView) -> Seq<PartitionView> {
    if request.multiboot_enabled {
        seq![efi_partition(), bios_stub_partition(), os_partition()]
    } else {
        seq![single_partition(request)]
    }
}

/// The identifier of the main partition of `device`, given whether the last
/// character of `device` counts as numeric: a device that ends in `0` or in
/// a non-numeric character gets `1` appended, any other names a partition
/// already.
pub open spec fn main_partition(device: Seq<char>, last_is_numeric: bool) -> Seq<char> {
    if device.last() == '0' || !last_is_numeric {
        device.push('1')
    } else {
        device
    }
}

/// Plans layouts, derives partition identifiers and opens provisioning
/// runs. It holds nothing: what it decides depends on its arguments alone.
pub struct DiskManager;

impl DiskManager {
    pub fn new() -> Self {
        DiskManager
    }

    /// Plans the partition layout for a request. Planning reads nothing but
    /// the request and never fails.
    pub fn create_partition_config(&self, config: &CreateConfig) -> (r: Result<
        Vec<PartitionConfig>,
        WowUsbError,
    >)
        ensures
            r matches Ok(layout) && layout_view(layout@) == plan(config@),
    {
        Ok(Self::plan_layout(config))
    }

    /// The partition layout for a request.
    pub fn plan_layout(config: &CreateConfig) -> (layout: Vec<PartitionConfig>)
        ensures
            layout_view(layout@) == plan(config@),
    {
        let mut partitions: Vec<PartitionConfig> = Vec::new();
        if config.multiboot_enabled {
            partitions.push(
                PartitionConfig {
                    size_mb: EFI_PARTITION_MB,
                    filesystem: String::from_str("fat32"),
                    label: String::from_str("EFI"),
                    bootable: true,
                },
            );
            partitions.push(
                PartitionConfig {
                    size_mb: BIOS_STUB_MB,
                    filesystem: String::from_str("bios_grub"),
                    label: String::from_str("BIOS_GRUB"),
                    bootable: false,
                },
            );
            partitions.push(
                PartitionConfig {
                    size_mb: OS_PARTITION_MB,
                    filesystem: String::from_str("ntfs"),
                    label: String::from_str("Windows"),
                    bootable: false,
                },
            );
        } else {
            partitions.push(
                PartitionConfig {
                    size_mb: 0,
                    filesystem: config.filesystem.clone(),
                    label: config.drive_label.clone(),
                    bootable: true,
                },
            );
        }
        assert(layout_view(partitions@) =~= plan(config@));
        partitions
    }

    /// Opens the run that provisions `target_device` from the image at
    /// `source_path`, and lowers the cancellation flag, as is due before
    /// every run. Nothing is done yet: the run says, step by step, what to
    /// ask of the backend. `process_id` names the temporary mount directory,
    /// so that runs of different processes do not meet. The partition that
    /// the run will format is the main partition of the device: for a
    /// device whose name ends in an ASCII character, the name itself if
    /// that is a digit other than zero, else the name with `1` appended.
    pub fn create_bootable_usb(
        &self,
        source_path: &str,
        target_device: &str,
        config: &CreateConfig,
        process_id: u32,
        progress: &mut ProgressManager,
    ) -> (run: ProvisioningRun)
        ensures
            !final(progress).spec_cancelled(),
            final(progress).spec_capacity() == old(progress).spec_capacity(),
            run@ == initial_run(
                source_path@,
                target_device@,
                if target_device@.len() > 0 {
                    main_partition(target_device@, numeric(target_device@.last()))
                } else {
                    Seq::empty()
                },
                config@,
                process_id,
            ),
            target_device@.len() > 0 && (target_device@.last() as u32) < 0x80
                ==> run@.main_partition == main_partition(
                target_device@,
                crate::text::is_digit(target_device@.last()),
            ),
            run_wf(run@),
    {
        progress.reset();
        let partition = if target_device.is_empty() {
            String::new()
        } else {
            self.get_main_partition(target_device)
        };
        ProvisioningRun::begin(source_path, target_device, partition, config, process_id)
    }

    /// The main partition of `device`, once it is known whether the last
    /// character of `device` is numeric.
    pub fn main_partition_for(device: &str, last_is_numeric: bool) -> (partition: String)
        requires
            device@.len() > 0,
        ensures
            partition@ == main_partition(device@, last_is_numeric),
    {
        let chars = to_chars(device);
        let last = chars[chars.len() - 1];
        let mut partition = String::from_str(device);
        if last == '0' || !last_is_numeric {
            partition.push('1');
        }
        partition
    }

    /// The identifier of the main partition of `device`.
    pub fn get_main_partition(&self, device: &str) -> (partition: String)
        requires
            device@.len() > 0,
        ensures
            partition@ == main_partition(device@, numeric(device@.last())),
            (device@.last() as u32) < 0x80 ==> partition@ == main_partition(
                device@,
                crate::text::is_digit(device@.last()),
            ),
    {
        let chars = to_chars(device);
        let last_is_numeric = is_numeric(chars[chars.len() - 1]);
        Self::main_partition_for(device, last_is_numeric)
    }
}

/// A standard layout is one partition: all the space, bootable, with the
/// filesystem and label of the request.
pub proof fn lemma_single_mode_layout(request: RequestView)
    requires
        !request.multiboot_enabled,
    ensures
        plan(request).len() == 1,
        plan(request)[0].size_mb == 0,
        plan(request)[0].bootable,
        plan(request)[0].filesystem == request.filesystem,
        plan(request)[0].label == request.drive_label,
{
}

/// A multiboot layout opens with the EFI system partition, the BIOS boot
/// stub and the operating-system partition, in that order; whatever follows
/// them, only the last entry of the layout may ask for the remaining space.
pub proof fn lemma_multiboot_layout(request: RequestView)
    requires
        request.multiboot_enabled,
    ensures
        plan(request).len() >= 3,
        plan(request)[0] == efi_partition(),
        plan(request)[1] == bios_stub_partition(),
        plan(request)[2] == os_partition(),
        efi_partition().size_mb == 512 && efi_partition().bootable,
        bios_stub_partition().size_mb == 1 && !bios_stub_partition().bootable,
        layout_well_formed(plan(request)),
{
}

/// Every planned layout is well formed.
pub proof fn lemma_plan_well_formed(request: RequestView)
    ensures
        layout_well_formed(plan(request)),
        plan(request).len() >= 1,
{
}

/// Planning is a function of the request alone: equal requests get equal
/// layouts.
pub proof fn lemma_plan_deterministic(a: RequestView, b: RequestView)
    requires
        a == b,
    ensures
        plan(a) == plan(b),
{
}

/// The layout depends on nothing but the mode, the filesystem and the label.
pub proof fn lemma_plan_reads_only_layout_fields(a: RequestView, b: RequestView)
    requires
        a.multiboot_enabled == b.multiboot_enabled,
        a.filesystem == b.filesystem,
        a.drive_label == b.drive_label,
    ensures
        plan(a) == plan(b),
{
}

/// A device that ends in a non-numeric character gets `1` appended; one that
/// ends in a digit other than zero is a partition already and is returned as
/// it is.
pub proof fn lemma_main_partition(device: Seq<char>, last_is_numeric: bool)
    requires
        device.len() > 0,
    ensures
        !last_is_numeric ==> main_partition(device, last_is_numeric) == device.push('1'),
        last_is_numeric && device.last() != '0' ==> main_partition(device, last_is_numeric)
            == device,
        device.last() == '0' ==> main_partition(device, last_is_numeric) == device.push('1'),
{
}

/// The command that tests an image with 7-Zip.
pub open spec fn test_image_command(iso_path: Seq<char>) -> CommandView {
    CommandView { program: "7z"@, args: seq!["t"@, iso_path] }
}

/// The command that unpacks an image with 7-Zip into `target_path`.
pub open spec fn extract_image_plan(iso_path: Seq<char>, target_path: Seq<char>) -> PlannedView {
    PlannedView {
        command: CommandView {
            program: "7z"@,
            args: seq!["x"@, iso_path, "-o"@ + target_path, "-y"@],
        },
        kind: FailureKind::IsoProcessing,
        prefix: "Failed to extract ISO: "@,
    }
}

/// The command that tests an image with 7-Zip.
pub fn test_image(iso_path: &str) -> (command: CommandSpec)
    ensures
        command@ == test_image_command(iso_path@),
{
    let args = vec!["t", iso_path];
    assert(str_views(args@) =~= seq!["t"@, iso_path@]);
    CommandSpec::new("7z", &args)
}

/// The command that unpacks an image with 7-Zip into `target_path`.
pub fn extract_image(iso_path: &str, target_path: &str) -> (planned: PlannedCommand)
    ensures
        planned@ == extract_image_plan(iso_path@, target_path@),
{
    let destination = concat2("-o", target_path);
    let args = vec!["x", iso_path, destination.as_str(), "-y"];
    assert(str_views(args@) =~= seq!["x"@, iso_path@, "-o"@ + target_path@, "-y"@]);
    PlannedCommand::new("7z", &args, FailureKind::IsoProcessing, "Failed to extract ISO: ")
}

} // verus!
