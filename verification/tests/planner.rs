use wowusb::disk::{CreateConfig, DiskManager, PartitionConfig};

fn request(filesystem: &str, label: &str, multiboot: bool) -> CreateConfig {
    CreateConfig {
        source_path: "valid.iso".to_string(),
        target_device: "/dev/sdX".to_string(),
        filesystem: filesystem.to_string(),
        drive_label: label.to_string(),
        wintogo_enabled: false,
        multiboot_enabled: multiboot,
        target_os: "linux".to_string(),
    }
}

fn manager() -> DiskManager {
    DiskManager::new()
}

#[test]
fn single_mode_plans_one_partition_with_all_space() {
    let layout = manager().create_partition_config(&request("fat32", "BOOT", false)).unwrap();
    assert_eq!(
        layout,
        vec![PartitionConfig {
            size_mb: 0,
            filesystem: "fat32".to_string(),
            label: "BOOT".to_string(),
            bootable: true,
        }]
    );
}

#[test]
fn single_mode_keeps_filesystem_and_label_of_the_request() {
    for (filesystem, label) in [("ntfs", "WIN"), ("exfat", ""), ("", "x y"), ("ext4", "Größe")] {
        let layout = manager().create_partition_config(&request(filesystem, label, false)).unwrap();
        assert_eq!(layout.len(), 1);
        assert_eq!(layout[0].size_mb, 0);
        assert!(layout[0].bootable);
        assert_eq!(layout[0].filesystem, filesystem);
        assert_eq!(layout[0].label, label);
    }
}

#[test]
fn multiboot_plans_efi_then_bios_stub_then_system() {
    let layout = manager().create_partition_config(&request("fat32", "BOOT", true)).unwrap();
    assert_eq!(
        layout,
        vec![
            PartitionConfig {
                size_mb: 512,
                filesystem: "fat32".to_string(),
                label: "EFI".to_string(),
                bootable: true,
            },
            PartitionConfig {
                size_mb: 1,
                filesystem: "bios_grub".to_string(),
                label: "BIOS_GRUB".to_string(),
                bootable: false,
            },
            PartitionConfig {
                size_mb: 64000,
                filesystem: "ntfs".to_string(),
                label: "Windows".to_string(),
                bootable: false,
            },
        ]
    );
}

#[test]
fn multiboot_ignores_filesystem_and_label_of_the_request() {
    let a = manager().create_partition_config(&request("fat32", "BOOT", true)).unwrap();
    let b = manager().create_partition_config(&request("ext4", "OTHER", true)).unwrap();
    assert_eq!(a, b);
}

#[test]
fn only_the_last_partition_may_take_the_remaining_space() {
    for multiboot in [false, true] {
        let layout = manager().create_partition_config(&request("fat32", "BOOT", multiboot)).unwrap();
        assert!(!layout.is_empty());
        for partition in &layout[..layout.len() - 1] {
            assert_ne!(partition.size_mb, 0);
        }
    }
}

#[test]
fn planning_is_repeatable() {
    for multiboot in [false, true] {
        let config = request("ntfs", "DATA", multiboot);
        let first = manager().create_partition_config(&config).unwrap();
        let second = manager().create_partition_config(&config.clone()).unwrap();
        let third = DiskManager::new().create_partition_config(&config).unwrap();
        assert_eq!(first, second);
        assert_eq!(first, third);
        assert_eq!(first, DiskManager::plan_layout(&config));
    }
}

#[test]
fn planning_does_not_look_at_paths_or_target() {
    let mut other = request("fat32", "BOOT", false);
    other.source_path = "another.iso".to_string();
    other.target_device = "/dev/sdb".to_string();
    other.target_os = "windows".to_string();
    other.wintogo_enabled = true;
    assert_eq!(
        manager().create_partition_config(&request("fat32", "BOOT", false)).unwrap(),
        manager().create_partition_config(&other).unwrap()
    );
}

#[test]
fn device_without_number_gets_first_partition() {
    assert_eq!(manager().get_main_partition("/dev/sdb"), "/dev/sdb1");
    assert_eq!(manager().get_main_partition("/dev/sdX"), "/dev/sdX1");
    assert_eq!(manager().get_main_partition("x"), "x1");
}

#[test]
fn partition_is_its_own_main_partition() {
    assert_eq!(manager().get_main_partition("/dev/sdb1"), "/dev/sdb1");
    assert_eq!(manager().get_main_partition("/dev/sdc7"), "/dev/sdc7");
    assert_eq!(manager().get_main_partition("E9"), "E9");
}

#[test]
fn device_that_ends_in_zero_gets_first_partition() {
    assert_eq!(manager().get_main_partition("/dev/disk0"), "/dev/disk01");
    assert_eq!(manager().get_main_partition("\\\\.\\PhysicalDrive0"), "\\\\.\\PhysicalDrive01");
}

#[test]
fn numeric_characters_beyond_ascii_count_as_numbers() {
    // An Arabic-Indic digit and a vulgar fraction are numeric, a letter with
    // an accent is not.
    assert_eq!(manager().get_main_partition("disk\u{663}"), "disk\u{663}");
    assert_eq!(manager().get_main_partition("disk\u{bd}"), "disk\u{bd}");
    assert_eq!(manager().get_main_partition("disk\u{e9}"), "disk\u{e9}1");
}

#[test]
fn main_partition_follows_the_given_answer() {
    assert_eq!(DiskManager::main_partition_for("/dev/sdb", false), "/dev/sdb1");
    assert_eq!(DiskManager::main_partition_for("/dev/sdb", true), "/dev/sdb");
    assert_eq!(DiskManager::main_partition_for("/dev/sdb2", true), "/dev/sdb2");
    assert_eq!(DiskManager::main_partition_for("/dev/sdb2", false), "/dev/sdb21");
    assert_eq!(DiskManager::main_partition_for("/dev/sdb0", true), "/dev/sdb01");
}
