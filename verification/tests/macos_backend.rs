use wowusb::backend::{BackendStep, ListingStep, PlatformDiskOps, Report, Request};
use wowusb::command::{CommandOutput, CommandSpec, FailureKind, PlannedCommand};
use wowusb::disk::macos::MacOSDiskOps;
use wowusb::provision::Event;
use wowusb::disk::{Device, PartitionConfig};
use wowusb::error::WowUsbError;

fn command(program: &str, args: &[&str]) -> CommandSpec {
    CommandSpec { program: program.to_string(), args: args.iter().map(|a| a.to_string()).collect() }
}

fn planned(program: &str, args: &[&str], kind: FailureKind, prefix: &str) -> PlannedCommand {
    PlannedCommand { command: command(program, args), kind, prefix: prefix.to_string() }
}

fn output(success: bool, stdout: &str, stderr: &str) -> CommandOutput {
    CommandOutput { success, stdout: stdout.to_string(), stderr: stderr.to_string() }
}

fn partition(size_mb: u64, filesystem: &str) -> PartitionConfig {
    PartitionConfig { size_mb, filesystem: filesystem.to_string(), label: "L".to_string(), bootable: true }
}

const LISTING: &str = "/dev/disk2 (external, physical):\n   #:                       TYPE NAME                    SIZE       IDENTIFIER\n   0:     FDisk_partition_scheme                        *15.5 GB    disk2\n   1:                 DOS_FAT_32 UNTITLED                15.5 GB    disk2s1\n\n  /dev/disk3 (external, physical):\r\n   0: x /dev/disk9\n/dev/dis\n";

const INFO: &str = "   Device Identifier:         disk2\n   Device Node:               /dev/disk2\n   Whole:                     Yes\n   Device / Media Name:       Cruzer Blade\n\n   Protocol:                  USB\n   Total Size:                15.5 GB (15504900096 Bytes)\n   Device Location:           External\n   Removable Media:           Removable\n";

#[test]
fn external_physical_disks_are_listed() {
    assert_eq!(
        MacOSDiskOps::list_devices_command(),
        planned(
            "diskutil",
            &["list", "-external", "-physical"],
            FailureKind::DeviceOperation,
            "diskutil failed: ",
        )
    );
    assert_eq!(
        MacOSDiskOps::list_devices_command().check(&output(false, "", "no diskutil")),
        Err(WowUsbError::device_operation("diskutil failed: no diskutil"))
    );
}

#[test]
fn lines_that_begin_with_a_disk_name_the_devices() {
    assert_eq!(
        MacOSDiskOps::device_lines(LISTING),
        vec!["/dev/disk2 (external, physical):", "/dev/disk3 (external, physical):"]
    );
    assert!(MacOSDiskOps::device_lines("").is_empty());
    assert!(MacOSDiskOps::device_lines("no disks\n").is_empty());
    assert_eq!(MacOSDiskOps::device_lines("\t/dev/disk7  "), vec!["/dev/disk7"]);
}

#[test]
fn description_tells_model_size_and_flags() {
    assert_eq!(
        MacOSDiskOps::device_info_command("/dev/disk2"),
        planned(
            "diskutil",
            &["info", "/dev/disk2"],
            FailureKind::DeviceOperation,
            "Failed to get device info: ",
        )
    );
    assert_eq!(
        MacOSDiskOps::get_device_info("/dev/disk2", &output(true, INFO, "")),
        Ok(Device {
            name: "/dev/disk2".to_string(),
            size: "15.5 GB (15504900096 Bytes)".to_string(),
            model: "Cruzer Blade".to_string(),
            filesystem: None,
            mountpoint: None,
            is_removable: true,
            is_usb: true,
        })
    );
}

#[test]
fn description_without_facts_leaves_the_defaults() {
    assert_eq!(
        MacOSDiskOps::get_device_info("/dev/disk5", &output(true, "", "")),
        Ok(Device {
            name: "/dev/disk5".to_string(),
            size: "Unknown".to_string(),
            model: "Unknown".to_string(),
            filesystem: None,
            mountpoint: None,
            is_removable: false,
            is_usb: false,
        })
    );
}

#[test]
fn a_line_tells_one_thing_only() {
    // The first kind of line that matches decides; the last line of a kind
    // is the one that stays.
    let text = "Device Node: External USB\nDevice / Media Name: External USB disk\nTotal Size: 1 GB: about\nDevice / Media Name: second :x\nTotal Size\nExternal USB\n";
    let device = MacOSDiskOps::get_device_info("d", &output(true, text, "")).unwrap();
    assert_eq!(device.model, "second");
    assert_eq!(device.size, "1 GB");
    assert!(device.is_removable);
    assert!(!device.is_usb);
    let device = MacOSDiskOps::get_device_info("d", &output(true, "on USB bus", "")).unwrap();
    assert!(device.is_usb);
    assert!(!device.is_removable);
}

#[test]
fn failed_description_is_a_device_error() {
    assert_eq!(
        MacOSDiskOps::get_device_info("/dev/disk2", &output(false, INFO, "no such disk")),
        Err(WowUsbError::device_operation("Failed to get device info: no such disk"))
    );
}

#[test]
fn device_is_real_if_it_can_be_described() {
    assert_eq!(MacOSDiskOps::verify_device_command("/dev/disk2"), command("diskutil", &["info", "/dev/disk2"]));
    assert!(MacOSDiskOps::device_is_real(&output(true, "", "")));
    assert!(!MacOSDiskOps::device_is_real(&output(false, "", "")));
}

#[test]
fn disk_is_unmounted_and_then_partitioned() {
    let layout = vec![partition(512, "fat32"), partition(64000, "ntfs"), partition(1, "x"), partition(0, "exfat")];
    assert_eq!(
        MacOSDiskOps::create_partitions_commands("/dev/disk2", &layout),
        vec![
            planned(
                "diskutil",
                &["unmountDisk", "force", "/dev/disk2"],
                FailureKind::DeviceOperation,
                "Failed to unmount disk: ",
            ),
            planned(
                "diskutil",
                &["partitionDisk", "/dev/disk2", "512MB:fat32", "64000MB:ntfs", "1MB:x", "0:exfat"],
                FailureKind::DeviceOperation,
                "Failed to partition disk: ",
            ),
        ]
    );
    assert_eq!(
        MacOSDiskOps::create_partitions_commands("/dev/disk2", &vec![])[1].command.args,
        vec!["partitionDisk", "/dev/disk2"]
    );
}

#[test]
fn each_filesystem_is_erased_under_its_diskutil_name() {
    for (filesystem, format) in [("fat32", "FAT32"), ("ntfs", "NTFS"), ("exfat", "ExFAT"), ("apfs", "APFS")] {
        assert_eq!(
            MacOSDiskOps::format_command("disk2s1", filesystem, "BOOT"),
            Ok(planned(
                "diskutil",
                &["eraseVolume", format, "disk2s1", "--name", "BOOT"],
                FailureKind::Filesystem,
                "Failed to format partition: ",
            ))
        );
    }
    assert_eq!(
        MacOSDiskOps::format_command("disk2s1", "ext4", "BOOT"),
        Err(WowUsbError::filesystem("Unsupported filesystem: ext4"))
    );
}

#[test]
fn partition_is_mounted_where_asked() {
    assert_eq!(
        MacOSDiskOps::mount_command("disk2s1", "/tmp/m"),
        planned(
            "diskutil",
            &["mount", "-mountPoint", "/tmp/m", "disk2s1"],
            FailureKind::DeviceOperation,
            "Failed to mount partition: ",
        )
    );
    assert_eq!(MacOSDiskOps::mount_result(&output(true, "", ""), "/tmp/m"), Ok("/tmp/m".to_string()));
    assert_eq!(
        MacOSDiskOps::mount_result(&output(false, "", "timed out"), "/tmp/m"),
        Err(WowUsbError::device_operation("Failed to mount partition: timed out"))
    );
}

#[test]
fn unmount_of_what_is_not_mounted_succeeds() {
    let mac = MacOSDiskOps::new();
    assert_eq!(MacOSDiskOps::unmount_command("/tmp/m"), command("diskutil", &["unmount", "/tmp/m"]));
    assert_eq!(
        mac.unmount_partition("/tmp/m", &vec![]),
        BackendStep::Ask(Request::Run {
            command: command("diskutil", &["unmount", "/tmp/m"]),
            read_output: false,
        })
    );
    assert_eq!(
        mac.unmount_partition("/tmp/m", &vec![Report::Command(Ok(output(true, "", "")))]),
        BackendStep::Done(Event::Done(Ok(())))
    );
    let refused = || Report::Command(Ok(output(false, "", "Unmount failed for /tmp/m")));
    assert_eq!(
        mac.unmount_partition("/tmp/m", &vec![refused()]),
        BackendStep::Ask(Request::MountedAt { path: "/tmp/m".to_string() })
    );
    assert_eq!(
        mac.unmount_partition("/tmp/m", &vec![refused(), Report::Mounted(false)]),
        BackendStep::Done(Event::Done(Ok(())))
    );
    assert_eq!(
        mac.unmount_partition("/tmp/m", &vec![refused(), Report::Mounted(true)]),
        BackendStep::Done(Event::Done(Err(WowUsbError::device_operation(
            "Failed to unmount partition: Unmount failed for /tmp/m"
        ))))
    );
}

#[test]
fn each_partition_is_requested_at_its_own_size() {
    let mac = MacOSDiskOps::new();
    let layout = vec![partition(512, "fat32"), partition(1, "bios"), partition(64000, "ntfs")];
    let unmounted = Report::Command(Ok(output(true, "", "")));
    assert_eq!(
        mac.create_partitions("/dev/disk2", &layout, &vec![unmounted]),
        BackendStep::Ask(Request::Run {
            command: command(
                "diskutil",
                &["partitionDisk", "/dev/disk2", "512MB:fat32", "1MB:bios", "64000MB:ntfs"]
            ),
            read_output: false,
        })
    );
    let sizes = vec![partition(1023, "a"), partition(1024, "b"), partition(u64::MAX, "c"), partition(0, "d")];
    assert_eq!(
        MacOSDiskOps::create_partitions_commands("/dev/disk2", &sizes)[1].command.args[2..],
        ["1023MB:a", "1024MB:b", "18446744073709551615MB:c", "0:d"]
    );
}

#[test]
fn a_described_disk_is_offered_only_if_it_is_external_or_on_usb() {
    let mac = MacOSDiskOps::new();
    let listing = Report::Command(Ok(output(true, "/dev/disk0\n/dev/disk2\n/dev/disk3\n", "")));
    let describe = |text: &str| Report::Command(Ok(output(true, text, "")));
    let reports = vec![
        listing,
        describe("   Device / Media Name:  APPLE SSD\n   Total Size:  500 GB\n   Protocol: PCI-Express\n"),
        describe("   Device / Media Name:  Cruzer\n   Protocol: USB\n"),
        describe("   Device Location: External\n"),
    ];
    match mac.list_devices(&reports) {
        ListingStep::Done(Ok(devices)) => {
            let names: Vec<&str> = devices.iter().map(|device| device.name.as_str()).collect();
            assert_eq!(names, vec!["/dev/disk2", "/dev/disk3"]);
            assert!(devices.iter().all(|device| device.is_removable || device.is_usb));
        }
        other => panic!("unexpected {:?}", other),
    }
}

#[test]
fn disk_is_wiped_with_zeros() {
    assert_eq!(
        MacOSDiskOps::wipe_command("/dev/disk2"),
        planned("diskutil", &["zeroDisk", "/dev/disk2"], FailureKind::DeviceOperation, "Failed to wipe disk: ")
    );
}

#[test]
fn image_is_validated_by_attaching_it() {
    assert_eq!(
        MacOSDiskOps::validate_iso_command("a.iso"),
        command("hdiutil", &["attach", "-readonly", "-noverify", "a.iso"])
    );
    assert_eq!(
        MacOSDiskOps::attached_device("/dev/disk4          \tGUID_partition_scheme\n/dev/disk4s1\n"),
        Some("/dev/disk4          \tGUID_partition_scheme".to_string())
    );
    assert_eq!(MacOSDiskOps::attached_device("  /dev/disk4\n"), Some("/dev/disk4".to_string()));
    assert_eq!(MacOSDiskOps::attached_device("\n/dev/disk4\n"), None);
    assert_eq!(MacOSDiskOps::attached_device("expected CD image"), None);
    assert_eq!(MacOSDiskOps::attached_device(""), None);
    assert_eq!(
        MacOSDiskOps::detach_command("/dev/disk4"),
        planned("hdiutil", &["detach", "/dev/disk4"], FailureKind::IsoProcessing, "Failed to unmount ISO: ")
    );
}

#[test]
fn image_is_copied_from_where_it_is_attached() {
    assert_eq!(
        MacOSDiskOps::attach_command("a.iso"),
        planned("hdiutil", &["attach", "a.iso"], FailureKind::IsoProcessing, "Failed to mount ISO: ")
    );
    assert_eq!(
        MacOSDiskOps::volume_mount_point("/dev/disk4 scheme\n  /Volumes/Ubuntu 22.04\n/Volumes/Other\n"),
        Some("22.04".to_string())
    );
    assert_eq!(
        MacOSDiskOps::volume_mount_point("/Volumes/CDROM\n"),
        Some("/Volumes/CDROM".to_string())
    );
    assert_eq!(MacOSDiskOps::volume_mount_point("/dev/disk4s1 Apple_HFS /Volumes/X\n"), None);
    assert_eq!(MacOSDiskOps::volume_mount_point(""), None);
    assert_eq!(
        MacOSDiskOps::copy_command("/Volumes/CDROM", "/tmp/m"),
        planned("cp", &["-R", "/Volumes/CDROM", "/tmp/m"], FailureKind::IsoProcessing, "Failed to copy files: ")
    );
}

#[test]
fn no_bootloader_can_be_installed_from_macos() {
    assert_eq!(
        MacOSDiskOps::refuse_bootloader("grub2"),
        Err(WowUsbError::not_implemented("GRUB installation on macOS not yet implemented"))
    );
    assert_eq!(
        MacOSDiskOps::refuse_bootloader("refind"),
        Err(WowUsbError::not_implemented("Bootloader type not supported: refind"))
    );
}
