use wowusb::backend::{BackendStep, ListingStep, PlatformDiskOps, Report, Request};
use wowusb::command::{CommandOutput, CommandSpec, FailureKind};
use wowusb::disk::linux::LinuxDiskOps;
use wowusb::disk::macos::MacOSDiskOps;
use wowusb::disk::windows::{WindowsDiskOps, LIST_DISKS_SCRIPT, MAX_PARTITIONS};
use wowusb::disk::{CreateConfig, Device, DiskManager, PartitionConfig};
use wowusb::error::WowUsbError;
use wowusb::progress::ProgressManager;
use wowusb::provision::{Action, Event, Outcome, Stage};

fn command(program: &str, args: &[&str]) -> CommandSpec {
    CommandSpec { program: program.to_string(), args: args.iter().map(|a| a.to_string()).collect() }
}

fn run(program: &str, args: &[&str]) -> BackendStep {
    BackendStep::Ask(Request::Run { command: command(program, args), read_output: false })
}

fn run_and_read(program: &str, args: &[&str]) -> BackendStep {
    BackendStep::Ask(Request::Run { command: command(program, args), read_output: true })
}

fn ok(stdout: &str) -> Report {
    Report::Command(Ok(CommandOutput {
        success: true,
        stdout: stdout.to_string(),
        stderr: String::new(),
    }))
}

fn failed(stderr: &str) -> Report {
    Report::Command(Ok(CommandOutput {
        success: false,
        stdout: String::new(),
        stderr: stderr.to_string(),
    }))
}

fn not_run() -> Report {
    Report::Command(Err(WowUsbError::Io("No such file or directory".to_string())))
}

fn spawn_error() -> WowUsbError {
    WowUsbError::Io("No such file or directory".to_string())
}

fn unexpected() -> WowUsbError {
    WowUsbError::configuration("Unexpected report for the current step")
}

fn partition(size_mb: u64, filesystem: &str, bootable: bool) -> PartitionConfig {
    PartitionConfig { size_mb, filesystem: filesystem.to_string(), label: "L".to_string(), bootable }
}

fn s(text: &str) -> String {
    text.to_string()
}

fn linux() -> LinuxDiskOps {
    LinuxDiskOps::new(1)
}

fn validate(path: &str) -> Action {
    Action::ValidateIso { iso_path: s(path) }
}

fn verify(device: &str) -> Action {
    Action::VerifyDevice { device: s(device) }
}

fn mount(partition: &str, mountpoint: &str) -> Action {
    Action::MountPartition { partition: s(partition), mountpoint: s(mountpoint) }
}

fn unmount(mountpoint: &str) -> Action {
    Action::UnmountPartition { mountpoint: s(mountpoint) }
}

fn extract(iso: &str, target: &str) -> Action {
    Action::ExtractIso { iso_path: s(iso), target_path: s(target) }
}

fn bootloader(kind: &str) -> Action {
    Action::InstallBootloader { device: s("/dev/sdb"), bootloader_type: s(kind) }
}

fn format(partition: &str, filesystem: &str) -> Action {
    Action::FormatPartition { partition: s(partition), filesystem: s(filesystem), label: s("L") }
}

fn partitions(device: &str, layout: Vec<PartitionConfig>) -> Action {
    Action::CreatePartitions { device: s(device), layout }
}

#[test]
fn linux_validates_an_image_by_the_exit_of_7z() {
    let action = validate("a.iso");
    assert_eq!(linux().advance(&action, &vec![]), run("7z", &["t", "a.iso"]));
    assert_eq!(linux().advance(&action, &vec![ok("")]), BackendStep::Done(Event::Flag(Ok(true))));
    assert_eq!(
        linux().advance(&action, &vec![failed("bad")]),
        BackendStep::Done(Event::Flag(Ok(false)))
    );
    assert_eq!(
        linux().advance(&action, &vec![not_run()]),
        BackendStep::Done(Event::Flag(Err(spawn_error())))
    );
    assert_eq!(
        linux().advance(&action, &vec![Report::Exists(true)]),
        BackendStep::Done(Event::Flag(Err(unexpected())))
    );
}

#[test]
fn linux_verifies_a_device_that_exists_with_stat() {
    let action = verify("/dev/sdb");
    assert_eq!(
        linux().advance(&action, &vec![]),
        BackendStep::Ask(Request::PathExists { path: s("/dev/sdb") })
    );
    assert_eq!(
        linux().advance(&action, &vec![Report::Exists(false)]),
        BackendStep::Done(Event::Flag(Ok(false)))
    );
    assert_eq!(
        linux().advance(&action, &vec![Report::Exists(true)]),
        run_and_read("stat", &["-c", "%F", "/dev/sdb"])
    );
    assert_eq!(
        linux().advance(&action, &vec![Report::Exists(true), ok("block special file\n")]),
        BackendStep::Done(Event::Flag(Ok(true)))
    );
    assert_eq!(
        linux().advance(&action, &vec![Report::Exists(true), ok("directory\n")]),
        BackendStep::Done(Event::Flag(Ok(false)))
    );
    assert_eq!(
        linux().advance(&action, &vec![Report::Exists(true), failed("")]),
        BackendStep::Done(Event::Flag(Ok(false)))
    );
    assert_eq!(
        linux().advance(&action, &vec![Report::Exists(true), not_run()]),
        BackendStep::Done(Event::Flag(Err(spawn_error())))
    );
    assert_eq!(
        linux().advance(&action, &vec![ok("")]),
        BackendStep::Done(Event::Flag(Err(unexpected())))
    );
}

#[test]
fn linux_partitions_command_by_command_until_one_fails() {
    let action = partitions("/dev/sdb", vec![partition(512, "fat32", true), partition(0, "ext4", false)]);
    let plan = LinuxDiskOps::create_partitions_commands(
        "/dev/sdb",
        &vec![partition(512, "fat32", true), partition(0, "ext4", false)],
    );
    assert_eq!(plan.len(), 4);
    let mut reports = Vec::new();
    for planned in &plan {
        assert_eq!(
            linux().advance(&action, &reports),
            BackendStep::Ask(Request::Run { command: planned.command.clone(), read_output: false })
        );
        reports.push(ok(""));
    }
    assert_eq!(linux().advance(&action, &reports), BackendStep::Done(Event::Done(Ok(()))));

    let reports = vec![ok(""), failed("no room")];
    assert_eq!(
        linux().advance(&action, &reports),
        BackendStep::Done(Event::Done(Err(WowUsbError::device_operation(
            "Failed to create partition 1: no room"
        ))))
    );
    let reports = vec![ok(""), failed("no room"), ok(""), ok("")];
    assert_eq!(
        linux().advance(&action, &reports),
        BackendStep::Done(Event::Done(Err(WowUsbError::device_operation(
            "Failed to create partition 1: no room"
        ))))
    );
    let reports = vec![ok(""), ok(""), failed("read-only")];
    assert_eq!(
        linux().advance(&action, &reports),
        BackendStep::Done(Event::Done(Err(WowUsbError::device_operation(
            "Failed to set boot flag on partition 1: read-only"
        ))))
    );
    assert_eq!(
        linux().advance(&action, &vec![not_run()]),
        BackendStep::Done(Event::Done(Err(spawn_error())))
    );
}

#[test]
fn linux_refuses_a_layout_that_does_not_fit_before_anything_is_run() {
    let action = partitions("/dev/sdb", vec![partition(u64::MAX, "fat32", true)]);
    assert_eq!(
        linux().advance(&action, &vec![]),
        BackendStep::Done(Event::Done(Err(WowUsbError::device_operation(
            "Partition sizes are out of range"
        ))))
    );
}

#[test]
fn unsupported_filesystem_is_refused_before_anything_is_run() {
    let refused = |filesystem: &str| {
        BackendStep::Done(Event::Done(Err(WowUsbError::Filesystem(format!(
            "Unsupported filesystem: {}",
            filesystem
        )))))
    };
    assert_eq!(linux().advance(&format("/dev/sdb1", "apfs"), &vec![]), refused("apfs"));
    assert_eq!(MacOSDiskOps::new().advance(&format("disk2s1", "ext4"), &vec![]), refused("ext4"));
    assert_eq!(WindowsDiskOps::new().advance(&format("E:", "ext4"), &vec![ok("")]), refused("ext4"));
    assert_eq!(
        WindowsDiskOps::new().advance(&format("/dev/sdb1", "ntfs"), &vec![]),
        BackendStep::Done(Event::Done(Err(WowUsbError::validation("Invalid partition format"))))
    );
}

#[test]
fn formatting_is_one_command_whose_failure_is_a_filesystem_error() {
    let action = format("/dev/sdb1", "fat32");
    assert_eq!(
        linux().advance(&action, &vec![]),
        run("mkfs.fat", &["-F", "32", "-n", "L", "/dev/sdb1"])
    );
    assert_eq!(linux().advance(&action, &vec![ok("")]), BackendStep::Done(Event::Done(Ok(()))));
    assert_eq!(
        linux().advance(&action, &vec![failed("busy")]),
        BackendStep::Done(Event::Done(Err(WowUsbError::filesystem(
            "Failed to format partition: busy"
        ))))
    );
}

#[test]
fn linux_mounts_after_creating_the_mount_point() {
    let action = mount("/dev/sdb1", "/tmp/m");
    assert_eq!(
        linux().advance(&action, &vec![]),
        BackendStep::Ask(Request::CreateDir { path: s("/tmp/m") })
    );
    assert_eq!(
        linux().advance(&action, &vec![Report::Host(Err(WowUsbError::Io(s("denied"))))]),
        BackendStep::Done(Event::Mounted(Err(WowUsbError::Io(s("denied")))))
    );
    assert_eq!(
        linux().advance(&action, &vec![Report::Host(Ok(()))]),
        run("mount", &["/dev/sdb1", "/tmp/m"])
    );
    assert_eq!(
        linux().advance(&action, &vec![Report::Host(Ok(())), ok("")]),
        BackendStep::Done(Event::Mounted(Ok(s("/tmp/m"))))
    );
    assert_eq!(
        linux().advance(&action, &vec![Report::Host(Ok(())), failed("wrong fs")]),
        BackendStep::Done(Event::Mounted(Err(WowUsbError::device_operation(
            "Failed to mount partition: wrong fs"
        ))))
    );
    assert_eq!(
        linux().advance(&action, &vec![ok("")]),
        BackendStep::Done(Event::Mounted(Err(unexpected())))
    );
}

#[test]
fn unmounting_what_is_not_mounted_succeeds_on_every_platform() {
    let action = unmount("/tmp/m");
    let report = vec![failed("umount: /tmp/m: not mounted.")];
    let done = BackendStep::Done(Event::Done(Ok(())));
    assert_eq!(linux().advance(&action, &vec![]), run("umount", &["/tmp/m"]));
    assert_eq!(linux().advance(&action, &report), done);
    assert_eq!(linux().advance(&action, &vec![ok("")]), done);
    assert_eq!(MacOSDiskOps::new().advance(&action, &vec![]), run("diskutil", &["unmount", "/tmp/m"]));
    assert_eq!(MacOSDiskOps::new().advance(&action, &vec![ok("")]), done);
    assert_eq!(
        MacOSDiskOps::new().advance(&action, &vec![failed("Unmount failed for /tmp/m")]),
        BackendStep::Ask(Request::MountedAt { path: s("/tmp/m") })
    );
    assert_eq!(
        MacOSDiskOps::new().advance(
            &action,
            &vec![failed("Unmount failed for /tmp/m"), Report::Mounted(false)]
        ),
        done
    );
    assert_eq!(WindowsDiskOps::new().advance(&action, &vec![]), done);
    assert_eq!(WindowsDiskOps::new().advance(&action, &report), done);
    assert_eq!(
        linux().advance(&action, &vec![failed("target is busy")]),
        BackendStep::Done(Event::Done(Err(WowUsbError::device_operation(
            "Failed to unmount partition: target is busy"
        ))))
    );
}

#[test]
fn macos_unmount_fails_only_while_something_is_still_mounted() {
    let mac = MacOSDiskOps::new();
    let action = unmount("/Volumes/USB");
    let busy = || failed("Volume USB on disk2s1 failed to unmount: dissented by PID 1");
    assert_eq!(
        mac.advance(&action, &vec![busy(), Report::Mounted(true)]),
        BackendStep::Done(Event::Done(Err(WowUsbError::device_operation(
            "Failed to unmount partition: Volume USB on disk2s1 failed to unmount: dissented by PID 1"
        ))))
    );
    assert_eq!(
        mac.advance(&action, &vec![failed("not mounted"), Report::Mounted(true)]),
        BackendStep::Done(Event::Done(Err(WowUsbError::device_operation(
            "Failed to unmount partition: not mounted"
        ))))
    );
    assert_eq!(
        mac.advance(&action, &vec![busy(), Report::Mounted(false)]),
        BackendStep::Done(Event::Done(Ok(())))
    );
    assert_eq!(
        mac.advance(&action, &vec![not_run()]),
        BackendStep::Done(Event::Done(Err(spawn_error())))
    );
    assert_eq!(
        mac.advance(&action, &vec![busy(), Report::Exists(false)]),
        BackendStep::Done(Event::Done(Err(unexpected())))
    );
    assert_eq!(
        mac.advance(&action, &vec![Report::Mounted(false)]),
        BackendStep::Done(Event::Done(Err(unexpected())))
    );
}

#[test]
fn unmounting_twice_succeeds_twice() {
    let done = BackendStep::Done(Event::Done(Ok(())));
    let linux = linux();
    assert_eq!(linux.unmount_partition("/tmp/m", &vec![ok("")]), done);
    assert_eq!(linux.unmount_partition("/tmp/m", &vec![failed("umount: /tmp/m: not mounted.")]), done);
    let mac = MacOSDiskOps::new();
    assert_eq!(mac.unmount_partition("/tmp/m", &vec![ok("")]), done);
    assert_eq!(mac.unmount_partition("/tmp/m", &vec![failed("failed"), Report::Mounted(false)]), done);
    let windows = WindowsDiskOps::new();
    assert_eq!(windows.unmount_partition("E:", &vec![]), done);
    assert_eq!(windows.unmount_partition("E:", &vec![]), done);
}

#[test]
fn each_operation_is_the_step_of_its_action() {
    let layout = vec![partition(512, "fat32", true), partition(0, "ntfs", false)];
    let reports = vec![ok("")];
    let linux = linux();
    assert_eq!(linux.validate_iso("a.iso", &reports), linux.advance(&validate("a.iso"), &reports));
    assert_eq!(linux.verify_device("/dev/sdb", &vec![]), linux.advance(&verify("/dev/sdb"), &vec![]));
    assert_eq!(
        linux.create_partitions("/dev/sdb", &layout, &reports),
        linux.advance(&partitions("/dev/sdb", layout.clone()), &reports)
    );
    assert_eq!(
        linux.format_partition("/dev/sdb1", "ntfs", "L", &vec![]),
        linux.advance(&format("/dev/sdb1", "ntfs"), &vec![])
    );
    assert_eq!(
        linux.mount_partition("/dev/sdb1", "/tmp/m", &vec![]),
        linux.advance(&mount("/dev/sdb1", "/tmp/m"), &vec![])
    );
    assert_eq!(
        linux.extract_iso("a.iso", "/tmp/m", &vec![]),
        linux.advance(&extract("a.iso", "/tmp/m"), &vec![])
    );
    assert_eq!(
        linux.install_bootloader("/dev/sdb", "grub2", &reports),
        linux.advance(&bootloader("grub2"), &reports)
    );
    let mac = MacOSDiskOps::new();
    assert_eq!(mac.validate_iso("a.iso", &vec![]), mac.advance(&validate("a.iso"), &vec![]));
    assert_eq!(mac.verify_device("/dev/disk2", &reports), mac.advance(&verify("/dev/disk2"), &reports));
    assert_eq!(
        mac.create_partitions("/dev/disk2", &layout, &reports),
        mac.advance(&partitions("/dev/disk2", layout.clone()), &reports)
    );
    assert_eq!(
        mac.format_partition("disk2s1", "fat32", "L", &vec![]),
        mac.advance(&format("disk2s1", "fat32"), &vec![])
    );
    assert_eq!(
        mac.extract_iso("a.iso", "/tmp/m", &vec![]),
        mac.advance(&extract("a.iso", "/tmp/m"), &vec![])
    );
    let windows = WindowsDiskOps::new();
    assert_eq!(windows.validate_iso("a.iso", &vec![]), windows.advance(&validate("a.iso"), &vec![]));
    assert_eq!(
        windows.create_partitions(r"\\.\PhysicalDrive1", &layout, &vec![]),
        windows.advance(&partitions(r"\\.\PhysicalDrive1", layout.clone()), &vec![])
    );
    assert_eq!(
        windows.format_partition("E:", "ntfs", "L", &vec![]),
        windows.advance(&format("E:", "ntfs"), &vec![])
    );
    assert_eq!(
        windows.mount_partition("E:", "/tmp/m", &vec![]),
        BackendStep::Done(Event::Mounted(Ok(s("E:"))))
    );
    assert_eq!(
        windows.extract_iso("a.iso", "E:", &vec![]),
        windows.advance(&extract("a.iso", "E:"), &vec![])
    );
}

#[test]
fn bootloader_is_refused_by_name_before_anything_is_run() {
    let refused = |message: &str| BackendStep::Done(Event::Done(Err(WowUsbError::not_implemented(message))));
    assert_eq!(
        linux().install_bootloader("/dev/sdb", "lilo", &vec![]),
        refused("Bootloader type not supported: lilo")
    );
    assert_eq!(
        linux().install_bootloader("/dev/sdb", "lilo", &vec![ok("")]),
        refused("Bootloader type not supported: lilo")
    );
    assert_eq!(
        MacOSDiskOps::new().install_bootloader("/dev/disk2", "refind", &vec![]),
        refused("Bootloader type not supported: refind")
    );
    assert_eq!(
        MacOSDiskOps::new().install_bootloader("/dev/disk2", "grub2", &vec![]),
        refused("GRUB installation on macOS not yet implemented")
    );
    assert_eq!(
        WindowsDiskOps::new().install_bootloader(r"\\.\PhysicalDrive1", "bootmgr", &vec![]),
        refused("Bootloader type not supported: bootmgr")
    );
    assert_eq!(
        WindowsDiskOps::new().install_bootloader(r"\\.\PhysicalDrive1", "grub2", &vec![]),
        refused("Windows bootloader installation not yet implemented")
    );
}

#[test]
fn unknown_bootloader_is_not_implemented_on_every_platform() {
    let refused = BackendStep::Done(Event::Done(Err(WowUsbError::not_implemented(
        "Bootloader type not supported: lilo",
    ))));
    assert_eq!(linux().advance(&bootloader("lilo"), &vec![]), refused);
    assert_eq!(MacOSDiskOps::new().advance(&bootloader("lilo"), &vec![]), refused);
    assert_eq!(WindowsDiskOps::new().advance(&bootloader("lilo"), &vec![]), refused);
}

#[test]
fn grub_is_installed_on_linux_only() {
    let action = bootloader("grub2");
    assert_eq!(
        linux().advance(&action, &vec![]),
        run(
            "grub-install",
            &["--target=x86_64-efi", "--efi-directory=/boot/efi", "--removable", "/dev/sdb"]
        )
    );
    assert_eq!(
        linux().advance(&action, &vec![ok("")]),
        run("grub-install", &["--target=i386-pc", "--removable", "/dev/sdb"])
    );
    assert_eq!(linux().advance(&action, &vec![ok(""), ok("")]), BackendStep::Done(Event::Done(Ok(()))));
    assert_eq!(
        linux().advance(&action, &vec![failed("no efi")]),
        BackendStep::Done(Event::Done(Err(WowUsbError::device_operation(
            "Failed to install GRUB UEFI: no efi"
        ))))
    );
    assert_eq!(
        MacOSDiskOps::new().advance(&action, &vec![]),
        BackendStep::Done(Event::Done(Err(WowUsbError::not_implemented(
            "GRUB installation on macOS not yet implemented"
        ))))
    );
    assert_eq!(
        WindowsDiskOps::new().advance(&action, &vec![]),
        BackendStep::Done(Event::Done(Err(WowUsbError::not_implemented(
            "Windows bootloader installation not yet implemented"
        ))))
    );
}

#[test]
fn mount_directory_is_created_and_removed_by_the_host() {
    let create = Action::CreateMountDir { path: s("/tmp/m") };
    let remove = Action::RemoveMountDir { path: s("/tmp/m") };
    let error = WowUsbError::Io(s("not empty"));
    for backend in [0, 1, 2] {
        let advance = |action: &Action, reports: &Vec<Report>| match backend {
            0 => linux().advance(action, reports),
            1 => MacOSDiskOps::new().advance(action, reports),
            _ => WindowsDiskOps::new().advance(action, reports),
        };
        assert_eq!(advance(&create, &vec![]), BackendStep::Ask(Request::CreateDir { path: s("/tmp/m") }));
        assert_eq!(advance(&remove, &vec![]), BackendStep::Ask(Request::RemoveDir { path: s("/tmp/m") }));
        assert_eq!(advance(&create, &vec![Report::Host(Ok(()))]), BackendStep::Done(Event::Done(Ok(()))));
        assert_eq!(
            advance(&remove, &vec![Report::Host(Err(error.clone()))]),
            BackendStep::Done(Event::Done(Err(error.clone())))
        );
        assert_eq!(
            advance(&remove, &vec![Report::Exists(true)]),
            BackendStep::Done(Event::Done(Err(unexpected())))
        );
    }
}

#[test]
fn the_end_of_a_run_asks_nothing_of_a_backend() {
    let finish = Action::Finish { outcome: Outcome::Cancelled, cleanup_error: None };
    assert_eq!(linux().advance(&finish, &vec![]), BackendStep::Nothing);
    assert_eq!(linux().advance(&Action::Idle, &vec![ok("")]), BackendStep::Nothing);
    assert_eq!(MacOSDiskOps::new().advance(&finish, &vec![]), BackendStep::Nothing);
    assert_eq!(WindowsDiskOps::new().advance(&Action::Idle, &vec![]), BackendStep::Nothing);
}

#[test]
fn image_is_extracted_by_one_command_on_linux_and_windows() {
    let action = extract("a.iso", "/tmp/m");
    assert_eq!(linux().advance(&action, &vec![]), run("7z", &["x", "a.iso", "-o/tmp/m", "-y"]));
    assert_eq!(
        WindowsDiskOps::new().advance(&action, &vec![]),
        run("7z", &["x", "a.iso", "-o/tmp/m", "-y"])
    );
    assert_eq!(linux().advance(&action, &vec![ok("")]), BackendStep::Done(Event::Done(Ok(()))));
    assert_eq!(
        linux().advance(&action, &vec![failed("CRC")]),
        BackendStep::Done(Event::Done(Err(WowUsbError::iso_processing(
            "Failed to extract ISO: CRC"
        ))))
    );
}

#[test]
fn macos_validates_an_image_by_attaching_and_detaching_it() {
    let mac = MacOSDiskOps::new();
    let action = validate("a.iso");
    assert_eq!(
        mac.advance(&action, &vec![]),
        run_and_read("hdiutil", &["attach", "-readonly", "-noverify", "a.iso"])
    );
    assert_eq!(mac.advance(&action, &vec![failed("no image")]), BackendStep::Done(Event::Flag(Ok(false))));
    assert_eq!(
        mac.advance(&action, &vec![ok("/dev/disk4\n")]),
        run("hdiutil", &["detach", "/dev/disk4"])
    );
    assert_eq!(
        mac.advance(&action, &vec![ok("/dev/disk4\n"), failed("busy")]),
        BackendStep::Done(Event::Flag(Ok(true)))
    );
    assert_eq!(
        mac.advance(&action, &vec![ok("/dev/disk4\n"), not_run()]),
        BackendStep::Done(Event::Flag(Err(spawn_error())))
    );
    assert_eq!(mac.advance(&action, &vec![ok("attached\n")]), BackendStep::Done(Event::Flag(Ok(true))));
    assert_eq!(mac.advance(&action, &vec![not_run()]), BackendStep::Done(Event::Flag(Err(spawn_error()))));
}

#[test]
fn macos_copies_an_image_from_where_it_is_attached() {
    let mac = MacOSDiskOps::new();
    let action = extract("a.iso", "/tmp/m");
    let attached = ok("/Volumes/CDROM\n");
    assert_eq!(mac.advance(&action, &vec![]), run_and_read("hdiutil", &["attach", "a.iso"]));
    assert_eq!(
        mac.advance(&action, &vec![failed("no image")]),
        BackendStep::Done(Event::Done(Err(WowUsbError::iso_processing(
            "Failed to mount ISO: no image"
        ))))
    );
    assert_eq!(
        mac.advance(&action, &vec![ok("/dev/disk4 /Volumes/CDROM\n")]),
        BackendStep::Done(Event::Done(Ok(())))
    );
    assert_eq!(
        mac.advance(&action, &vec![ok("/Volumes/CDROM\n")]),
        run("cp", &["-R", "/Volumes/CDROM", "/tmp/m"])
    );
    assert_eq!(
        mac.advance(&action, &vec![attached, failed("disk full")]),
        BackendStep::Done(Event::Done(Err(WowUsbError::iso_processing(
            "Failed to copy files: disk full"
        ))))
    );
    assert_eq!(
        mac.advance(&action, &vec![ok("/Volumes/CDROM\n"), ok("")]),
        run("hdiutil", &["detach", "/Volumes/CDROM"])
    );
    assert_eq!(
        mac.advance(&action, &vec![ok("/Volumes/CDROM\n"), ok(""), failed("busy")]),
        BackendStep::Done(Event::Done(Err(WowUsbError::iso_processing(
            "Failed to unmount ISO: busy"
        ))))
    );
    assert_eq!(
        mac.advance(&action, &vec![ok("/Volumes/CDROM\n"), ok(""), ok("")]),
        BackendStep::Done(Event::Done(Ok(())))
    );
}

#[test]
fn macos_verifies_partitions_and_mounts_with_diskutil() {
    let mac = MacOSDiskOps::new();
    assert_eq!(mac.advance(&verify("/dev/disk2"), &vec![]), run("diskutil", &["info", "/dev/disk2"]));
    assert_eq!(mac.advance(&verify("/dev/disk2"), &vec![ok("")]), BackendStep::Done(Event::Flag(Ok(true))));
    assert_eq!(
        mac.advance(&verify("/dev/disk2"), &vec![failed("")]),
        BackendStep::Done(Event::Flag(Ok(false)))
    );
    let action = partitions("/dev/disk2", vec![partition(2048, "fat32", true)]);
    assert_eq!(
        mac.advance(&action, &vec![]),
        run("diskutil", &["unmountDisk", "force", "/dev/disk2"])
    );
    assert_eq!(
        mac.advance(&action, &vec![ok("")]),
        run("diskutil", &["partitionDisk", "/dev/disk2", "2048MB:fat32"])
    );
    assert_eq!(mac.advance(&action, &vec![ok(""), ok("")]), BackendStep::Done(Event::Done(Ok(()))));
    assert_eq!(
        mac.advance(&action, &vec![failed("in use")]),
        BackendStep::Done(Event::Done(Err(WowUsbError::device_operation(
            "Failed to unmount disk: in use"
        ))))
    );
    assert_eq!(
        mac.advance(&mount("disk2s1", "/tmp/m"), &vec![Report::Host(Ok(()))]),
        run("diskutil", &["mount", "-mountPoint", "/tmp/m", "disk2s1"])
    );
}

#[test]
fn windows_finds_a_partition_at_its_drive_letter_without_a_command() {
    let windows = WindowsDiskOps::new();
    assert_eq!(
        windows.advance(&mount("E:", "/tmp/m"), &vec![]),
        BackendStep::Done(Event::Mounted(Ok(s("E:"))))
    );
    assert_eq!(
        windows.advance(&mount("/dev/sdb1", "/tmp/m"), &vec![]),
        BackendStep::Done(Event::Mounted(Err(WowUsbError::validation("Invalid partition format"))))
    );
}

#[test]
fn windows_verifies_only_what_names_a_physical_drive() {
    let windows = WindowsDiskOps::new();
    assert_eq!(windows.advance(&verify("/dev/sdb"), &vec![]), BackendStep::Done(Event::Flag(Ok(false))));
    let command = WindowsDiskOps::verify_device_command(r"\\.\PhysicalDrive1").unwrap();
    assert_eq!(
        windows.advance(&verify(r"\\.\PhysicalDrive1"), &vec![]),
        BackendStep::Ask(Request::Run { command, read_output: true })
    );
    assert_eq!(
        windows.advance(&verify(r"\\.\PhysicalDrive1"), &vec![ok("True\r\n")]),
        BackendStep::Done(Event::Flag(Ok(true)))
    );
    assert_eq!(
        windows.advance(&verify(r"\\.\PhysicalDrive1"), &vec![ok("False\r\n")]),
        BackendStep::Done(Event::Flag(Ok(false)))
    );
}

#[test]
fn windows_partitions_script_by_script() {
    let windows = WindowsDiskOps::new();
    let layout = vec![partition(512, "fat32", true), partition(0, "ntfs", false)];
    let action = partitions(r"\\.\PhysicalDrive2", layout.clone());
    let plan = windows.create_partitions_commands(r"\\.\PhysicalDrive2", &layout).unwrap();
    let mut reports = Vec::new();
    for planned in &plan {
        assert_eq!(planned.kind, FailureKind::DeviceOperation);
        assert_eq!(
            windows.advance(&action, &reports),
            BackendStep::Ask(Request::Run { command: planned.command.clone(), read_output: false })
        );
        reports.push(ok(""));
    }
    assert_eq!(reports.len(), 4);
    assert_eq!(windows.advance(&action, &reports), BackendStep::Done(Event::Done(Ok(()))));
    assert_eq!(
        windows.advance(&partitions("/dev/sdb", layout), &vec![]),
        BackendStep::Done(Event::Done(Err(WowUsbError::validation("Invalid device format"))))
    );
    let many: Vec<PartitionConfig> = (0..=MAX_PARTITIONS).map(|_| partition(1, "ntfs", false)).collect();
    assert_eq!(
        windows.advance(&partitions(r"\\.\PhysicalDrive2", many), &vec![]),
        BackendStep::Done(Event::Done(Err(WowUsbError::device_operation("Too many partitions"))))
    );
}

const LSBLK: &str = r#"{"blockdevices": [
    {"name":"sda", "size":"238G", "model":"SSD"},
    {"name":"nosize"},
    {"name":"sdb", "size":"15G", "model":"Cruzer", "fstype":"vfat", "mountpoint":"/media/usb"},
    {"name":"mmcblk0", "size":"32G"},
    {"name":"nvme0n1", "size":"1T"}
]}"#;

fn usb_stick() -> Device {
    Device {
        name: s("/dev/sdb"),
        size: s("15G"),
        model: s("Cruzer"),
        filesystem: Some(s("vfat")),
        mountpoint: Some(s("/media/usb")),
        is_removable: true,
        is_usb: true,
    }
}

#[test]
fn linux_enumerates_by_asking_the_kernel_about_each_listed_device() {
    let backend = linux();
    let mut reports = Vec::new();
    let mut asked = Vec::new();
    let devices = loop {
        match backend.list_devices(&reports) {
            ListingStep::Ask(request) => {
                let report = match &request {
                    Request::Run { command, .. } if command.program == "lsblk" => ok(LSBLK),
                    Request::Run { command, .. } if command.args[0] == "/sys/block/sda/removable" => ok("0\n"),
                    Request::Run { command, .. } if command.args[0] == "/sys/block/sdb/removable" => ok("1\n"),
                    Request::Run { .. } => failed("cat: permission denied"),
                    Request::PathExists { path } => Report::Exists(!path.contains("nvme")),
                    other => panic!("unexpected request {:?}", other),
                };
                asked.push(request);
                reports.push(report);
            }
            ListingStep::Done(result) => break result.unwrap(),
        }
    };
    let exists = |path: &str| Request::PathExists { path: s(path) };
    let read = |path: &str| Request::Run { command: command("cat", &[path]), read_output: true };
    assert_eq!(
        asked,
        vec![
            Request::Run { command: LinuxDiskOps::list_devices_command(), read_output: true },
            exists("/sys/block/sda"),
            exists("/sys/block/sda/removable"),
            read("/sys/block/sda/removable"),
            exists("/sys/block/sdb"),
            exists("/sys/block/sdb/removable"),
            read("/sys/block/sdb/removable"),
            exists("/sys/block/mmcblk0"),
            exists("/sys/block/mmcblk0/removable"),
            read("/sys/block/mmcblk0/removable"),
            exists("/sys/block/nvme0n1"),
        ]
    );
    assert_eq!(
        devices,
        vec![usb_stick()]
    );
    assert!(devices.iter().all(|device| device.is_removable || device.is_usb));
}

#[test]
fn linux_enumeration_falls_back_to_the_name_where_the_kernel_says_nothing() {
    let reports = vec![
        ok(r#"{"blockdevices": [{"name":"sdc", "size":"8G"}, {"name":"sda", "size":"1T"}]}"#),
        Report::Exists(false),
        Report::Exists(true),
        Report::Exists(false),
    ];
    match linux().list_devices(&reports) {
        ListingStep::Done(Ok(devices)) => {
            assert_eq!(devices.len(), 1);
            assert_eq!(devices[0].name, "/dev/sdc");
            assert!(devices[0].is_removable && devices[0].is_usb);
        }
        other => panic!("unexpected {:?}", other),
    }
}

#[test]
fn failed_enumeration_is_a_device_error_on_every_platform() {
    assert_eq!(
        linux().list_devices(&vec![failed("not found")]),
        ListingStep::Done(Err(WowUsbError::device_operation("lsblk failed: not found")))
    );
    assert_eq!(
        MacOSDiskOps::new().list_devices(&vec![failed("not found")]),
        ListingStep::Done(Err(WowUsbError::device_operation("diskutil failed: not found")))
    );
    assert_eq!(
        WindowsDiskOps::new().list_devices(&vec![failed("not found")]),
        ListingStep::Done(Err(WowUsbError::device_operation("PowerShell command failed: not found")))
    );
    assert_eq!(linux().list_devices(&vec![not_run()]), ListingStep::Done(Err(spawn_error())));
    assert_eq!(
        linux().list_devices(&vec![ok(r#"{"blockdevices": [{"name":"sdb", "size":"1G"}]}"#), ok("")]),
        ListingStep::Done(Err(unexpected()))
    );
    assert_eq!(
        linux().list_devices(&vec![
            ok(r#"{"blockdevices": [{"name":"sdb", "size":"1G"}]}"#),
            Report::Exists(true),
            Report::Exists(true),
            not_run(),
        ]),
        ListingStep::Done(Err(spawn_error()))
    );
}

#[test]
fn macos_enumerates_by_describing_each_listed_device() {
    let mac = MacOSDiskOps::new();
    let listing = ok("/dev/disk2 (external, physical):\n   0: x\n/dev/disk3 (external):\n/dev/disk4\n");
    assert_eq!(
        mac.list_devices(&vec![]),
        ListingStep::Ask(Request::Run {
            command: command("diskutil", &["list", "-external", "-physical"]),
            read_output: true,
        })
    );
    let describe = |device: &str| {
        ListingStep::Ask(Request::Run { command: command("diskutil", &["info", device]), read_output: true })
    };
    assert_eq!(
        mac.list_devices(&vec![ok("/dev/disk2 (external, physical):\n/dev/disk3 (external):\n/dev/disk4\n")]),
        describe("/dev/disk2 (external, physical):")
    );
    let reports = vec![
        listing,
        ok("   Device / Media Name:  Cruzer\n   Total Size:  15.5 GB\n   Protocol: USB\n"),
        failed("could not find disk"),
    ];
    assert_eq!(mac.list_devices(&reports), describe("/dev/disk4"));
    let mut reports = reports;
    reports.push(ok("Device Location: External\n"));
    assert_eq!(
        mac.list_devices(&reports),
        ListingStep::Done(Ok(vec![
            Device {
                name: s("/dev/disk2 (external, physical):"),
                size: s("15.5 GB"),
                model: s("Cruzer"),
                filesystem: None,
                mountpoint: None,
                is_removable: false,
                is_usb: true,
            },
            Device {
                name: s("/dev/disk4"),
                size: s("Unknown"),
                model: s("Unknown"),
                filesystem: None,
                mountpoint: None,
                is_removable: true,
                is_usb: false,
            },
        ]))
    );
    assert_eq!(mac.list_devices(&vec![ok("nothing\n")]), ListingStep::Done(Ok(vec![])));
}

#[test]
fn windows_enumerates_with_one_script() {
    let windows = WindowsDiskOps::new();
    assert_eq!(
        windows.list_devices(&vec![]),
        ListingStep::Ask(Request::Run {
            command: command("powershell", &["-Command", LIST_DISKS_SCRIPT]),
            read_output: true,
        })
    );
    let listing = r#"[{"Number": 1, "Model": "Stick", "Size": 2147483648, "BusType": "USB", "IsRemovable": true, "DriveLetter": "E"}]"#;
    assert_eq!(
        windows.list_devices(&vec![ok(listing)]),
        ListingStep::Done(Ok(vec![Device {
            name: s(r"\\.\PhysicalDrive1"),
            size: s("2 GB"),
            model: s("Stick"),
            filesystem: None,
            mountpoint: Some(s("E:")),
            is_removable: true,
            is_usb: true,
        }]))
    );
}

#[test]
fn wipe_is_a_device_operation_on_every_platform() {
    let wipe = linux().wipe_device("/dev/sdb").unwrap();
    assert_eq!(wipe.command, command("wipefs", &["--all", "/dev/sdb"]));
    assert_eq!(wipe.kind, FailureKind::DeviceOperation);
    let wipe = MacOSDiskOps::new().wipe_device("/dev/disk2").unwrap();
    assert_eq!(wipe.command, command("diskutil", &["zeroDisk", "/dev/disk2"]));
    assert_eq!(wipe.kind, FailureKind::DeviceOperation);
    let wipe = WindowsDiskOps::new().wipe_device(r"\\.\PhysicalDrive3").unwrap();
    assert!(wipe.command.args[1].contains("Clear-Disk -Number 3 "));
    assert_eq!(wipe.kind, FailureKind::DeviceOperation);
    assert_eq!(
        WindowsDiskOps::new().wipe_device("E:"),
        Err(WowUsbError::validation("Invalid device format"))
    );
}

/// Performs what a backend asks for on a host where every command succeeds.
fn perform<B: PlatformDiskOps>(backend: &B, action: &Action, log: &mut Vec<String>) -> Event {
    let mut reports = Vec::new();
    loop {
        match backend.advance(action, &reports) {
            BackendStep::Ask(Request::Run { command, .. }) => {
                log.push(format!("{} {}", command.program, command.args.join(" ")));
                reports.push(if command.program == "stat" { ok("block special file\n") } else { ok("") });
            }
            BackendStep::Ask(Request::CreateDir { path }) => {
                log.push(format!("mkdir -p {}", path));
                reports.push(Report::Host(Ok(())));
            }
            BackendStep::Ask(Request::RemoveDir { path }) => {
                log.push(format!("rmdir {}", path));
                reports.push(Report::Host(Ok(())));
            }
            BackendStep::Ask(Request::PathExists { path }) => {
                log.push(format!("test -e {}", path));
                reports.push(Report::Exists(true));
            }
            BackendStep::Ask(other) => panic!("unexpected request {:?}", other),
            BackendStep::Done(event) => return event,
            BackendStep::Nothing => panic!("nothing to perform for {:?}", action),
        }
        assert!(reports.len() <= 16);
    }
}

#[test]
fn run_and_linux_backend_together_provision_a_device() {
    let config = CreateConfig {
        source_path: s("valid.iso"),
        target_device: s("/dev/sdX"),
        filesystem: s("fat32"),
        drive_label: s("BOOT"),
        wintogo_enabled: false,
        multiboot_enabled: false,
        target_os: s("linux"),
    };
    let mut run = DiskManager::new().create_bootable_usb(
        "valid.iso",
        "/dev/sdX",
        &config,
        77,
        &mut ProgressManager::new(),
    );
    let backend = linux();
    let mut log = Vec::new();
    let mut stages = Vec::new();
    let mut event = Event::Start;
    let outcome = loop {
        let (next, step) = run.step(event, false);
        run = next;
        stages.extend(step.notices.iter().map(|n| n.stage));
        match step.action {
            Action::Finish { outcome, cleanup_error } => {
                assert_eq!(cleanup_error, None);
                break outcome;
            }
            action => event = perform(&backend, &action, &mut log),
        }
    };
    assert_eq!(outcome, Outcome::Succeeded(s("Successfully created bootable USB on /dev/sdX")));
    assert_eq!(stages.len(), 9);
    assert_eq!(stages[8], Stage::Succeeded);
    assert_eq!(
        log,
        vec![
            "7z t valid.iso",
            "test -e /dev/sdX",
            "stat -c %F /dev/sdX",
            "parted --script /dev/sdX mklabel gpt",
            "parted --script /dev/sdX mkpart primary fat32 1MB 100%",
            "parted --script /dev/sdX set 1 boot on",
            "mkfs.fat -F 32 -n BOOT /dev/sdX1",
            "mkdir -p /tmp/wowusb_mount_77",
            "mkdir -p /tmp/wowusb_mount_77",
            "mount /dev/sdX1 /tmp/wowusb_mount_77",
            "7z x valid.iso -o/tmp/wowusb_mount_77 -y",
            "grub-install --target=x86_64-efi --efi-directory=/boot/efi --removable /dev/sdX",
            "grub-install --target=i386-pc --removable /dev/sdX",
            "umount /tmp/wowusb_mount_77",
            "rmdir /tmp/wowusb_mount_77",
        ]
    );
}
