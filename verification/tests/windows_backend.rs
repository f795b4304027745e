use wowusb::backend::{BackendStep, Report};
use wowusb::command::{CommandOutput, CommandSpec, FailureKind, PlannedCommand};
use wowusb::disk::windows::{DiskEntry, WindowsDiskOps, DRIVE_PREFIX, LIST_DISKS_SCRIPT, MAX_PARTITIONS};
use wowusb::disk::{Device, PartitionConfig};
use wowusb::error::WowUsbError;
use wowusb::provision::Event;

fn powershell(script: &str) -> CommandSpec {
    CommandSpec {
        program: "powershell".to_string(),
        args: vec!["-Command".to_string(), script.to_string()],
    }
}

fn planned(script: &str, kind: FailureKind, prefix: &str) -> PlannedCommand {
    PlannedCommand { command: powershell(script), kind, prefix: prefix.to_string() }
}

fn output(success: bool, stdout: &str, stderr: &str) -> CommandOutput {
    CommandOutput { success, stdout: stdout.to_string(), stderr: stderr.to_string() }
}

fn partition(size_mb: u64) -> PartitionConfig {
    PartitionConfig { size_mb, filesystem: "ntfs".to_string(), label: "L".to_string(), bootable: false }
}

fn disk(number: i64, size: i64) -> DiskEntry {
    DiskEntry {
        number: Some(number),
        model: Some("Model".to_string()),
        size: Some(size),
        drive_letter: None,
        is_removable: Some(true),
        bus_type: None,
    }
}

fn fixed_disk(number: i64, size: i64) -> DiskEntry {
    DiskEntry { is_removable: None, ..disk(number, size) }
}

const DISKS: &str = r#"[
  {"Number": 1, "Model": "SanDisk Cruzer", "Size": 15504900096, "BusType": "USB", "MediaType": "Unspecified", "IsSystem": false, "IsRemovable": true, "DriveLetter": "E"},
  {"Number": 2, "Model": "WD Elements", "Size": 1000204886016, "BusType": "Usb 3.0", "IsRemovable": false, "DriveLetter": ""},
  {"Number": 3, "Model": "Internal", "Size": 1073741823, "BusType": "SATA", "DriveLetter": null},
  {"Number": "4", "Model": "Odd", "Size": 1},
  {"Number": 5, "Size": 1},
  {"Number": 6, "Model": "NoSize"}
]"#;

#[test]
fn drive_prefix_is_the_windows_device_namespace() {
    assert_eq!(DRIVE_PREFIX, r"\\.\PhysicalDrive");
}

#[test]
fn disks_are_listed_by_a_powershell_script() {
    assert_eq!(
        WindowsDiskOps::list_devices_command(),
        planned(LIST_DISKS_SCRIPT, FailureKind::DeviceOperation, "PowerShell command failed: ")
    );
    assert!(LIST_DISKS_SCRIPT.contains("Get-Disk | Where-Object {$_.IsSystem -eq $false}"));
    assert!(LIST_DISKS_SCRIPT.trim_end().ends_with("| ConvertTo-Json"));
}

#[test]
fn listed_disks_become_devices() {
    assert_eq!(
        WindowsDiskOps::devices_from_listing(&output(true, DISKS, "")),
        Ok(vec![
            Device {
                name: r"\\.\PhysicalDrive1".to_string(),
                size: "14 GB".to_string(),
                model: "SanDisk Cruzer".to_string(),
                filesystem: None,
                mountpoint: Some("E:".to_string()),
                is_removable: true,
                is_usb: true,
            },
            Device {
                name: r"\\.\PhysicalDrive2".to_string(),
                size: "931 GB".to_string(),
                model: "WD Elements".to_string(),
                filesystem: None,
                mountpoint: None,
                is_removable: false,
                is_usb: true,
            },
        ])
    );
}

#[test]
fn failed_listing_is_a_device_error() {
    assert_eq!(
        WindowsDiskOps::devices_from_listing(&output(false, DISKS, "access denied")),
        Err(WowUsbError::device_operation("PowerShell command failed: access denied"))
    );
}

#[test]
fn listing_that_is_no_array_is_a_device_error() {
    for text in ["", "{\"Number\": 1}", "not json"] {
        match WindowsDiskOps::devices_from_listing(&output(true, text, "")) {
            Err(WowUsbError::DeviceOperation(message)) => {
                assert!(message.starts_with("Failed to parse disk listing: "), "{}", message);
                assert!(message.len() > "Failed to parse disk listing: ".len());
            }
            other => panic!("unexpected {:?}", other),
        }
    }
    assert_eq!(WindowsDiskOps::devices_from_listing(&output(true, "[]", "")), Ok(vec![]));
}

#[test]
fn what_the_reader_found_becomes_devices_or_a_device_error() {
    assert_eq!(WindowsDiskOps::devices_of(Ok(vec![])), Ok(vec![]));
    assert_eq!(
        WindowsDiskOps::devices_of(Err("expected value".to_string())),
        Err(WowUsbError::device_operation("Failed to parse disk listing: expected value"))
    );
    assert_eq!(WindowsDiskOps::devices_of(Ok(vec![disk(0, 0)])).unwrap().len(), 1);
    assert_eq!(WindowsDiskOps::devices_of(Ok(vec![fixed_disk(0, 0), disk(1, 0)])).unwrap().len(), 1);
}

#[test]
fn disk_is_offered_only_if_it_is_removable_or_on_usb() {
    assert_eq!(WindowsDiskOps::device_from_disk(&fixed_disk(0, 1), None), None);
    assert_eq!(WindowsDiskOps::device_from_disk(&fixed_disk(0, 1), Some("sata")), None);
    assert_eq!(WindowsDiskOps::device_from_disk(&fixed_disk(0, 1), Some("USB")), None);
    let mut declared_fixed = disk(0, 1);
    declared_fixed.is_removable = Some(false);
    assert_eq!(WindowsDiskOps::device_from_disk(&declared_fixed, Some("nvme")), None);
    let on_usb = WindowsDiskOps::device_from_disk(&fixed_disk(2, 1), Some("usb")).unwrap();
    assert!(on_usb.is_usb && !on_usb.is_removable);
    let removable = WindowsDiskOps::device_from_disk(&disk(2, 1), Some("sd")).unwrap();
    assert!(removable.is_removable && !removable.is_usb);
    let mut internal = fixed_disk(3, 1);
    internal.bus_type = Some("SATA".to_string());
    let mut stick = fixed_disk(4, 1);
    stick.bus_type = Some("USB".to_string());
    let devices = WindowsDiskOps::devices_from(&vec![internal, stick]);
    assert_eq!(devices.len(), 1);
    assert_eq!(devices[0].name, r"\\.\PhysicalDrive4");
}

#[test]
fn size_is_shown_in_whole_gigabytes_rounded_towards_zero() {
    let size_of = |size: i64| WindowsDiskOps::device_from_disk(&disk(0, size), None).unwrap().size;
    assert_eq!(size_of(0), "0 GB");
    assert_eq!(size_of(1073741823), "0 GB");
    assert_eq!(size_of(1073741824), "1 GB");
    assert_eq!(size_of(2147483647), "1 GB");
    assert_eq!(size_of(i64::MAX), "8589934591 GB");
    assert_eq!(size_of(-1), "0 GB");
    assert_eq!(size_of(-1073741824), "-1 GB");
    assert_eq!(size_of(-1073741825), "-1 GB");
    assert_eq!(size_of(i64::MIN), "-8589934592 GB");
}

#[test]
fn device_is_named_after_the_number_of_the_disk() {
    let name_of = |number: i64| WindowsDiskOps::device_from_disk(&disk(number, 0), None).unwrap().name;
    assert_eq!(name_of(0), r"\\.\PhysicalDrive0");
    assert_eq!(name_of(12), r"\\.\PhysicalDrive12");
    assert_eq!(name_of(-3), r"\\.\PhysicalDrive-3");
}

#[test]
fn bus_type_in_lower_case_decides_whether_a_disk_is_usb() {
    let entry = disk(1, 1);
    assert!(WindowsDiskOps::device_from_disk(&entry, Some("usb")).unwrap().is_usb);
    assert!(WindowsDiskOps::device_from_disk(&entry, Some("my usb 3")).unwrap().is_usb);
    assert!(!WindowsDiskOps::device_from_disk(&entry, Some("USB")).unwrap().is_usb);
    assert!(!WindowsDiskOps::device_from_disk(&entry, Some("sata")).unwrap().is_usb);
    assert!(!WindowsDiskOps::device_from_disk(&entry, None).unwrap().is_usb);
    let mut upper = disk(1, 1);
    upper.bus_type = Some("USB".to_string());
    assert!(WindowsDiskOps::devices_from(&vec![upper])[0].is_usb);
}

#[test]
fn disk_number_is_what_follows_the_drive_prefix() {
    let ops = WindowsDiskOps::new();
    assert_eq!(ops.extract_disk_number(r"\\.\PhysicalDrive0"), Ok(0));
    assert_eq!(ops.extract_disk_number(r"\\.\PhysicalDrive17"), Ok(17));
    assert_eq!(ops.extract_disk_number(r"\\.\PhysicalDrive+3"), Ok(3));
    assert_eq!(ops.extract_disk_number(r"\\.\PhysicalDrive4294967295"), Ok(u32::MAX));
}

#[test]
fn identifier_that_names_no_disk_is_a_validation_error() {
    let ops = WindowsDiskOps::new();
    let invalid = Err(WowUsbError::validation("Invalid device format"));
    for device in [
        "",
        "/dev/sdb",
        r"\\.\PhysicalDrive",
        r"\\.\PhysicalDrive-1",
        r"\\.\PhysicalDrive1a",
        r"\\.\PhysicalDrive 1",
        r"\\.\PhysicalDrive4294967296",
        r"\\.\physicaldrive1",
        r" \\.\PhysicalDrive1",
        r"\\.\PhysicalDriv",
    ] {
        assert_eq!(ops.extract_disk_number(device), invalid, "{:?}", device);
    }
}

#[test]
fn drive_letter_is_the_character_before_the_colon() {
    let ops = WindowsDiskOps::new();
    assert_eq!(ops.extract_drive_letter("E:"), Ok('E'));
    assert_eq!(ops.extract_drive_letter("e:\\data"), Ok('e'));
    assert_eq!(ops.extract_drive_letter("::"), Ok(':'));
    assert_eq!(ops.extract_drive_letter("é:"), Ok('é'));
    let invalid = Err(WowUsbError::validation("Invalid partition format"));
    for partition in ["", "E", ":", "EE:", "/dev/sdb1", " E:"] {
        assert_eq!(ops.extract_drive_letter(partition), invalid, "{:?}", partition);
    }
}

#[test]
fn device_is_verified_by_asking_for_its_disk() {
    assert_eq!(
        WindowsDiskOps::verify_device_command(r"\\.\PhysicalDrive2"),
        Some(powershell(
            "\n        try {\n            Get-Disk -Number 2 | Out-Null\n            $true\n        } catch {\n            $false\n        }\n        "
        ))
    );
    assert_eq!(WindowsDiskOps::verify_device_command("/dev/sdb"), None);
    assert_eq!(WindowsDiskOps::verify_device_command(""), None);
    let fallback = WindowsDiskOps::verify_device_command(r"\\.\PhysicalDriveX").unwrap();
    assert!(fallback.args[1].contains("Get-Disk -Number 0 |"));
    assert!(WindowsDiskOps::device_exists(&output(true, "True\r\n", "")));
    assert!(!WindowsDiskOps::device_exists(&output(true, "False\r\n", "")));
    assert!(!WindowsDiskOps::device_exists(&output(true, "true", "")));
    assert!(!WindowsDiskOps::device_exists(&output(false, "True", "")));
}

#[test]
fn disk_is_cleared_initialized_and_partitioned() {
    let ops = WindowsDiskOps::new();
    let plan = ops
        .create_partitions_commands(r"\\.\PhysicalDrive3", &vec![partition(512), partition(0)])
        .unwrap();
    let kind = FailureKind::DeviceOperation;
    assert_eq!(
        plan,
        vec![
            planned(
                "\n        Clear-Disk -Number 3 -RemoveData -Confirm:$false\n        ",
                kind,
                "Failed to clear disk: ",
            ),
            planned(
                "\n        Initialize-Disk -Number 3 -PartitionStyle GPT\n        ",
                kind,
                "Failed to initialize disk: ",
            ),
            planned(
                "\n            New-Partition -DiskNumber 3 -Size 512MB -DriveLetter C -AssignDriveLetter\n            ",
                kind,
                "Failed to create partition: ",
            ),
            planned(
                "\n            New-Partition -DiskNumber 3 -Size Max -DriveLetter D -AssignDriveLetter\n            ",
                kind,
                "Failed to create partition: ",
            ),
        ]
    );
}

#[test]
fn drive_letters_are_counted_up_from_c() {
    let layout: Vec<PartitionConfig> = (0..MAX_PARTITIONS).map(|_| partition(1)).collect();
    let plan = WindowsDiskOps::new().create_partitions_commands(r"\\.\PhysicalDrive0", &layout).unwrap();
    assert_eq!(plan.len(), MAX_PARTITIONS + 2);
    assert!(plan[2 + 23].command.args[1].contains("-DriveLetter Z "));
    assert!(plan[2 + 188].command.args[1].contains("-DriveLetter \u{ff} "));
}

#[test]
fn partitioning_an_identifier_that_names_no_disk_is_a_validation_error() {
    assert_eq!(
        WindowsDiskOps::new().create_partitions_commands("/dev/sdb", &vec![partition(1)]),
        Err(WowUsbError::validation("Invalid device format"))
    );
}

#[test]
fn volume_is_formatted_by_its_drive_letter() {
    let ops = WindowsDiskOps::new();
    for (filesystem, format) in [("fat32", "FAT32"), ("ntfs", "NTFS"), ("exfat", "exFAT")] {
        assert_eq!(
            ops.format_command("E:", filesystem, "MY USB"),
            Ok(planned(
                &format!(
                    "Format-Volume -DriveLetter E -FileSystem {} -NewFileSystemLabel \"MY USB\" -Confirm:$false",
                    format
                ),
                FailureKind::Filesystem,
                "Failed to format partition: ",
            ))
        );
    }
}

#[test]
fn format_checks_the_partition_before_the_filesystem() {
    let ops = WindowsDiskOps::new();
    assert_eq!(
        ops.format_command("E:", "ext4", "L"),
        Err(WowUsbError::filesystem("Unsupported filesystem: ext4"))
    );
    assert_eq!(
        ops.format_command("/dev/sdb1", "ext4", "L"),
        Err(WowUsbError::validation("Invalid partition format"))
    );
    assert_eq!(
        ops.format_command("E", "ntfs", "L"),
        Err(WowUsbError::validation("Invalid partition format"))
    );
}

#[test]
fn partition_is_found_at_its_drive_letter() {
    let ops = WindowsDiskOps::new();
    assert_eq!(ops.drive_path("E:"), Ok("E:".to_string()));
    assert_eq!(ops.drive_path("f:\\"), Ok("f:".to_string()));
    assert_eq!(ops.drive_path("nope"), Err(WowUsbError::validation("Invalid partition format")));
    assert_eq!(
        ops.mount_partition("f:\\", "/tmp/m", &vec![]),
        BackendStep::Done(Event::Mounted(Ok("f:".to_string())))
    );
    assert_eq!(
        ops.mount_partition("nope", "/tmp/m", &vec![]),
        BackendStep::Done(Event::Mounted(Err(WowUsbError::validation("Invalid partition format"))))
    );
}

#[test]
fn unmount_always_succeeds() {
    let ops = WindowsDiskOps::new();
    let done = BackendStep::Done(Event::Done(Ok(())));
    assert_eq!(ops.unmount_partition("E:", &vec![]), done);
    assert_eq!(ops.unmount_partition("E:", &vec![]), done);
    assert_eq!(ops.unmount_partition("", &vec![Report::Mounted(true)]), done);
}

#[test]
fn disk_is_wiped_by_clearing_it() {
    let ops = WindowsDiskOps::new();
    assert_eq!(
        ops.wipe_command(r"\\.\PhysicalDrive5"),
        Ok(planned(
            "\n        Clear-Disk -Number 5 -RemoveData -Confirm:$false\n        ",
            FailureKind::DeviceOperation,
            "Failed to wipe disk: ",
        ))
    );
    assert_eq!(ops.wipe_command("E:"), Err(WowUsbError::validation("Invalid device format")));
}

#[test]
fn image_is_tested_and_extracted_with_7z() {
    assert_eq!(WindowsDiskOps::validate_iso_command("a.iso").args, vec!["t", "a.iso"]);
    let extract = WindowsDiskOps::extract_command("a.iso", "E:");
    assert_eq!(extract.command.program, "7z");
    assert_eq!(extract.command.args, vec!["x", "a.iso", "-oE:", "-y"]);
    assert_eq!(extract.kind, FailureKind::IsoProcessing);
    assert_eq!(extract.prefix, "Failed to extract ISO: ");
}

#[test]
fn no_bootloader_can_be_installed_from_windows() {
    assert_eq!(
        WindowsDiskOps::refuse_bootloader("grub2"),
        Err(WowUsbError::not_implemented("Windows bootloader installation not yet implemented"))
    );
    assert_eq!(
        WindowsDiskOps::refuse_bootloader("bootmgr"),
        Err(WowUsbError::not_implemented("Bootloader type not supported: bootmgr"))
    );
}
