use wowusb::error::WowUsbError;
use wowusb::backend::{Report, Request};
use wowusb::filesystem::linux::{LinuxFilesystemOps, MkfsTools, SurveyStep};
use wowusb::filesystem::macos::MacOSFilesystemOps;
use wowusb::filesystem::size::{format_size, tenths_of};
use wowusb::filesystem::windows::WindowsFilesystemOps;
use wowusb::filesystem::{
    entry_or_unknown, FilesystemInfo, FilesystemManager, PlatformFilesystemOps, GIB, TIB,
};

fn list(items: &[&str]) -> Vec<String> {
    items.iter().map(|s| s.to_string()).collect()
}

fn tools(f2fs: bool, ntfs: bool, btrfs: bool) -> MkfsTools {
    MkfsTools { fat: true, ntfs, exfat: false, ext4: true, f2fs, btrfs }
}

fn ntfs() -> FilesystemInfo {
    FilesystemInfo {
        name: "NTFS".to_string(),
        supports_large_files: true,
        max_file_size: 17_592_186_044_416,
        max_volume_size: 281_474_976_710_656,
        recommended_for: list(&["Windows", "Large files"]),
        pros: list(&[
            "Excellent large file support",
            "Built-in Windows support",
            "Journaling filesystem",
            "Compression support",
        ]),
        cons: list(&["Limited compatibility with other OS", "Performance overhead on small files"]),
    }
}

fn fat32() -> FilesystemInfo {
    FilesystemInfo {
        name: "FAT32".to_string(),
        supports_large_files: false,
        max_file_size: 4_294_967_295,
        max_volume_size: 2_147_483_648,
        recommended_for: list(&["Maximum compatibility"]),
        pros: list(&[
            "Universal compatibility",
            "Simple and reliable",
            "Works on virtually all systems",
        ]),
        cons: list(&["4GB file size limit", "No journaling", "Inefficient with large volumes"]),
    }
}

fn exfat() -> FilesystemInfo {
    FilesystemInfo {
        name: "exFAT".to_string(),
        supports_large_files: true,
        max_file_size: 140_737_488_355_328,
        max_volume_size: 140_737_488_355_328,
        recommended_for: list(&["Cross-platform", "Flash drives"]),
        pros: list(&[
            "Large file support",
            "Good cross-platform support",
            "Optimized for flash media",
        ]),
        cons: list(&["Less robust than NTFS", "No journaling"]),
    }
}

#[test]
fn units_are_powers_of_1024() {
    assert_eq!(GIB, 1024 * 1024 * 1024);
    assert_eq!(TIB, 1024 * GIB);
}

#[test]
fn windows_offers_three_filesystems() {
    let ops = WindowsFilesystemOps::new();
    assert_eq!(ops.get_available_filesystems(), Ok(list(&["NTFS", "FAT32", "exFAT"])));
}

#[test]
fn windows_supports_its_filesystems_in_any_case() {
    let ops = WindowsFilesystemOps::new();
    for name in ["ntfs", "NTFS", "Ntfs", "fat32", "FAT32", "exfat", "exFAT", "EXFAT"] {
        assert_eq!(ops.check_filesystem_support(name), Ok(true), "{}", name);
    }
    for name in ["", "ext4", "apfs", "f2fs", "ntfs ", "fat", "fat 32"] {
        assert_eq!(ops.check_filesystem_support(name), Ok(false), "{}", name);
    }
}

#[test]
fn normalized_names_are_matched_exactly() {
    assert!(WindowsFilesystemOps::supports_normalized("ntfs"));
    assert!(!WindowsFilesystemOps::supports_normalized("NTFS"));
    assert!(MacOSFilesystemOps::supports_normalized("apfs"));
    assert!(!MacOSFilesystemOps::supports_normalized("APFS"));
    assert!(LinuxFilesystemOps::supports_normalized(tools(true, true, true), "f2fs"));
    assert!(!LinuxFilesystemOps::supports_normalized(tools(true, true, true), "F2FS"));
    assert!(WindowsFilesystemOps::common_info("NTFS").is_none());
    assert!(LinuxFilesystemOps::info_normalized("EXT4").is_none());
    assert!(MacOSFilesystemOps::info_normalized("APFS").is_none());
    assert_eq!(WindowsFilesystemOps::optimal_normalized(false, "WINDOWS"), "FAT32");
}

#[test]
fn windows_describes_ntfs() {
    assert_eq!(WindowsFilesystemOps::new().get_filesystem_info("NTFS"), Ok(ntfs()));
    assert_eq!(WindowsFilesystemOps::new().get_filesystem_info("ntfs"), Ok(ntfs()));
}

#[test]
fn windows_describes_fat32() {
    assert_eq!(WindowsFilesystemOps::new().get_filesystem_info("Fat32"), Ok(fat32()));
}

#[test]
fn windows_describes_exfat() {
    assert_eq!(WindowsFilesystemOps::new().get_filesystem_info("exFAT"), Ok(exfat()));
}

#[test]
fn unknown_filesystem_is_a_filesystem_error_that_names_it_as_written() {
    assert_eq!(
        WindowsFilesystemOps::new().get_filesystem_info("ReiserFS"),
        Err(WowUsbError::filesystem("Unknown filesystem: ReiserFS"))
    );
    assert_eq!(
        MacOSFilesystemOps::new().get_filesystem_info("NTFS "),
        Err(WowUsbError::filesystem("Unknown filesystem: NTFS "))
    );
    assert_eq!(
        LinuxFilesystemOps::new().get_filesystem_info(""),
        Err(WowUsbError::filesystem("Unknown filesystem: "))
    );
    assert_eq!(
        WindowsFilesystemOps::new().get_filesystem_info("ext4"),
        Err(WowUsbError::filesystem("Unknown filesystem: ext4"))
    );
    assert_eq!(
        WindowsFilesystemOps::new().get_filesystem_info("apfs"),
        Err(WowUsbError::filesystem("Unknown filesystem: apfs"))
    );
}

#[test]
fn entry_or_unknown_passes_the_entry_on() {
    assert_eq!(entry_or_unknown(Some(ntfs()), "whatever"), Ok(ntfs()));
    assert_eq!(
        entry_or_unknown(None, "whatever"),
        Err(WowUsbError::Filesystem("Unknown filesystem: whatever".to_string()))
    );
}

#[test]
fn windows_prefers_ntfs_for_windows_and_exfat_for_large_files() {
    let ops = WindowsFilesystemOps::new();
    assert_eq!(ops.get_optimal_filesystem(false, "windows"), Ok("NTFS".to_string()));
    assert_eq!(ops.get_optimal_filesystem(true, "Windows"), Ok("NTFS".to_string()));
    assert_eq!(ops.get_optimal_filesystem(true, "linux"), Ok("exFAT".to_string()));
    assert_eq!(ops.get_optimal_filesystem(false, "linux"), Ok("FAT32".to_string()));
    assert_eq!(ops.get_optimal_filesystem(false, ""), Ok("FAT32".to_string()));
}

#[test]
fn linux_always_offers_four_filesystems() {
    assert_eq!(
        LinuxFilesystemOps::new().get_available_filesystems(),
        Ok(list(&["FAT32", "NTFS", "exFAT", "ext4"]))
    );
}

#[test]
fn linux_offers_f2fs_and_btrfs_when_their_tools_are_installed() {
    assert_eq!(
        LinuxFilesystemOps::with_tools(tools(true, false, false)).get_available_filesystems(),
        Ok(list(&["FAT32", "NTFS", "exFAT", "ext4", "F2FS"]))
    );
    assert_eq!(
        LinuxFilesystemOps::with_tools(tools(false, false, true)).get_available_filesystems(),
        Ok(list(&["FAT32", "NTFS", "exFAT", "ext4", "BTRFS"]))
    );
    assert_eq!(
        LinuxFilesystemOps::listing_for(tools(true, true, true)),
        list(&["FAT32", "NTFS", "exFAT", "ext4", "F2FS", "BTRFS"])
    );
}

#[test]
fn linux_supports_what_it_has_a_tool_for() {
    let ops = LinuxFilesystemOps::with_tools(tools(true, false, false));
    assert_eq!(ops.check_filesystem_support("FAT32"), Ok(true));
    assert_eq!(ops.check_filesystem_support("ext4"), Ok(true));
    assert_eq!(ops.check_filesystem_support("F2FS"), Ok(true));
    assert_eq!(ops.check_filesystem_support("ntfs"), Ok(false));
    assert_eq!(ops.check_filesystem_support("exfat"), Ok(false));
    assert_eq!(ops.check_filesystem_support("btrfs"), Ok(false));
    assert_eq!(ops.check_filesystem_support("apfs"), Ok(false));
    assert_eq!(LinuxFilesystemOps::new().check_filesystem_support("fat32"), Ok(false));
}

#[test]
fn linux_tools_are_looked_for_under_sbin() {
    assert_eq!(LinuxFilesystemOps::tool_path("fat32"), Some("/sbin/mkfs.fat".to_string()));
    assert_eq!(LinuxFilesystemOps::tool_path("ntfs"), Some("/sbin/mkfs.ntfs".to_string()));
    assert_eq!(LinuxFilesystemOps::tool_path("exfat"), Some("/sbin/mkfs.exfat".to_string()));
    assert_eq!(LinuxFilesystemOps::tool_path("ext4"), Some("/sbin/mkfs.ext4".to_string()));
    assert_eq!(LinuxFilesystemOps::tool_path("f2fs"), Some("/sbin/mkfs.f2fs".to_string()));
    assert_eq!(LinuxFilesystemOps::tool_path("btrfs"), Some("/sbin/mkfs.btrfs".to_string()));
    assert_eq!(LinuxFilesystemOps::tool_path("apfs"), None);
    assert_eq!(LinuxFilesystemOps::tool_path("FAT32"), None);
}

#[test]
fn linux_describes_its_own_filesystems() {
    let ops = LinuxFilesystemOps::new();
    assert_eq!(
        ops.get_filesystem_info("F2FS"),
        Ok(FilesystemInfo {
            name: "F2FS".to_string(),
            supports_large_files: true,
            max_file_size: 16 * TIB,
            max_volume_size: 16 * TIB,
            recommended_for: list(&["Flash drives", "SSD", "Linux"]),
            pros: list(&["Optimized for flash memory", "Excellent performance", "Large file support"]),
            cons: list(&["Limited Windows support", "Relatively new filesystem"]),
        })
    );
    assert_eq!(
        ops.get_filesystem_info("btrfs"),
        Ok(FilesystemInfo {
            name: "BTRFS".to_string(),
            supports_large_files: true,
            max_file_size: 16 * TIB,
            max_volume_size: 16 * TIB,
            recommended_for: list(&["Advanced features", "Linux"]),
            pros: list(&["Copy-on-write", "Snapshots", "Self-healing", "Built-in compression"]),
            cons: list(&["Complex implementation", "Performance overhead"]),
        })
    );
    assert_eq!(
        ops.get_filesystem_info("Ext4"),
        Ok(FilesystemInfo {
            name: "ext4".to_string(),
            supports_large_files: true,
            max_file_size: 16 * TIB,
            max_volume_size: TIB,
            recommended_for: list(&["Linux", "Reliability"]),
            pros: list(&["Mature and stable", "Good performance", "Journaling filesystem"]),
            cons: list(&["Limited Windows support"]),
        })
    );
}

#[test]
fn linux_and_macos_share_the_common_entries() {
    assert_eq!(LinuxFilesystemOps::new().get_filesystem_info("ntfs"), Ok(ntfs()));
    assert_eq!(LinuxFilesystemOps::new().get_filesystem_info("FAT32"), Ok(fat32()));
    assert_eq!(MacOSFilesystemOps::new().get_filesystem_info("exfat"), Ok(exfat()));
    assert_eq!(MacOSFilesystemOps::new().get_filesystem_info("ntfs"), Ok(ntfs()));
}

#[test]
fn linux_prefers_f2fs_then_ntfs_for_large_files() {
    let with = |t| LinuxFilesystemOps::with_tools(t);
    assert_eq!(with(tools(true, true, false)).get_optimal_filesystem(true, "linux"), Ok("F2FS".to_string()));
    assert_eq!(with(tools(false, true, false)).get_optimal_filesystem(true, "Linux"), Ok("NTFS".to_string()));
    assert_eq!(with(tools(false, false, true)).get_optimal_filesystem(true, "linux"), Ok("FAT32".to_string()));
    assert_eq!(with(tools(true, true, true)).get_optimal_filesystem(false, "linux"), Ok("FAT32".to_string()));
    assert_eq!(with(tools(false, false, false)).get_optimal_filesystem(false, "WINDOWS"), Ok("NTFS".to_string()));
    assert_eq!(with(tools(true, true, true)).get_optimal_filesystem(true, "macos"), Ok("FAT32".to_string()));
}

#[test]
fn macos_offers_three_filesystems() {
    let ops = MacOSFilesystemOps::new();
    assert_eq!(ops.get_available_filesystems(), Ok(list(&["FAT32", "exFAT", "APFS"])));
    assert_eq!(ops.check_filesystem_support("APFS"), Ok(true));
    assert_eq!(ops.check_filesystem_support("exfat"), Ok(true));
    assert_eq!(ops.check_filesystem_support("Fat32"), Ok(true));
    assert_eq!(ops.check_filesystem_support("ntfs"), Ok(false));
}

#[test]
fn macos_describes_apfs() {
    assert_eq!(
        MacOSFilesystemOps::new().get_filesystem_info("APFS"),
        Ok(FilesystemInfo {
            name: "APFS".to_string(),
            supports_large_files: true,
            max_file_size: 8 * TIB,
            max_volume_size: 8 * TIB,
            recommended_for: list(&["macOS", "Modern features"]),
            pros: list(&[
                "Native macOS support",
                "Snapshots and clones",
                "Strong encryption",
                "Space sharing",
            ]),
            cons: list(&["Limited cross-platform support", "Apple ecosystem only"]),
        })
    );
}

#[test]
fn macos_prefers_apfs_for_macos() {
    let ops = MacOSFilesystemOps::new();
    assert_eq!(ops.get_optimal_filesystem(false, "macOS"), Ok("APFS".to_string()));
    assert_eq!(ops.get_optimal_filesystem(true, "MACOS"), Ok("APFS".to_string()));
    assert_eq!(ops.get_optimal_filesystem(true, "windows"), Ok("exFAT".to_string()));
    assert_eq!(ops.get_optimal_filesystem(false, "linux"), Ok("FAT32".to_string()));
}

#[test]
fn manager_answers_as_its_platform_does() {
    let manager = FilesystemManager::new(WindowsFilesystemOps::new());
    assert_eq!(
        manager.get_available_filesystems(),
        WindowsFilesystemOps::new().get_available_filesystems()
    );
    assert_eq!(manager.check_filesystem_support("NTFS"), Ok(true));
    assert_eq!(manager.check_filesystem_support("apfs"), Ok(false));
    assert_eq!(manager.get_optimal_filesystem(true, "linux"), Ok("exFAT".to_string()));
    let manager = FilesystemManager::new(LinuxFilesystemOps::with_tools(tools(true, true, true)));
    assert_eq!(manager.get_optimal_filesystem(true, "linux"), Ok("F2FS".to_string()));
    assert_eq!(manager.get_available_filesystems().unwrap().len(), 6);
}

#[test]
fn manager_gives_the_same_entry_from_memory() {
    let mut manager = FilesystemManager::new(MacOSFilesystemOps::new());
    let first = manager.get_filesystem_info("APFS");
    let second = manager.get_filesystem_info("APFS");
    let third = manager.get_filesystem_info("apfs");
    assert_eq!(first, MacOSFilesystemOps::new().get_filesystem_info("APFS"));
    assert_eq!(second, first);
    assert_eq!(third, first);
    assert_eq!(manager.get_filesystem_info("fat32"), Ok(fat32()));
    assert_eq!(manager.get_filesystem_info("APFS"), first);
}

#[test]
fn manager_does_not_remember_errors() {
    let mut manager = FilesystemManager::new(WindowsFilesystemOps::new());
    for _ in 0..2 {
        assert_eq!(
            manager.get_filesystem_info("zfs"),
            Err(WowUsbError::filesystem("Unknown filesystem: zfs"))
        );
    }
    assert_eq!(manager.get_filesystem_info("ntfs"), Ok(ntfs()));
}

#[test]
fn entry_is_described_by_its_parts() {
    let info = FilesystemInfo::describe("X", true, 1, 2, &vec!["a"], &vec!["b", "c"], &vec![]);
    assert_eq!(
        info,
        FilesystemInfo {
            name: "X".to_string(),
            supports_large_files: true,
            max_file_size: 1,
            max_volume_size: 2,
            recommended_for: list(&["a"]),
            pros: list(&["b", "c"]),
            cons: vec![],
        }
    );
    assert_eq!(info.duplicate(), info);
}

fn shown_by_floating_point(bytes: u64) -> String {
    const UNITS: &[&str] = &["B", "KB", "MB", "GB", "TB"];
    let mut size = bytes as f64;
    let mut unit_index = 0;
    while size >= 1024.0 && unit_index < UNITS.len() - 1 {
        size /= 1024.0;
        unit_index += 1;
    }
    if unit_index == 0 {
        format!("{} {}", bytes, UNITS[unit_index])
    } else {
        format!("{:.1} {}", size, UNITS[unit_index])
    }
}

fn shown(bytes: u64) -> String {
    FilesystemManager::new(WindowsFilesystemOps::new()).format_size_bytes(bytes)
}

#[test]
fn sizes_are_shown_in_the_largest_unit_that_leaves_at_least_one() {
    assert_eq!(shown(0), "0 B");
    assert_eq!(shown(1), "1 B");
    assert_eq!(shown(1023), "1023 B");
    assert_eq!(shown(1024), "1.0 KB");
    assert_eq!(shown(1536), "1.5 KB");
    assert_eq!(shown(1048575), "1024.0 KB");
    assert_eq!(shown(1048576), "1.0 MB");
    assert_eq!(shown(15504900096), "14.4 GB");
    assert_eq!(shown(4294967295), "4.0 GB");
    assert_eq!(shown(1099511627776), "1.0 TB");
    assert_eq!(shown(17592186044416), "16.0 TB");
    assert_eq!(shown(u64::MAX), "16777216.0 TB");
}

#[test]
fn half_way_sizes_are_rounded_to_the_even_tenth() {
    // 1.25, 1.35, 1.45 and 1.75 kilobytes lie half-way between two tenths.
    assert_eq!(shown(1280), "1.2 KB");
    assert_eq!(shown(1792), "1.8 KB");
    assert_eq!(shown(1024 + 51), "1.0 KB");
    assert_eq!(shown(1024 + 52), "1.1 KB");
    assert_eq!(shown(1024 * 1024 + 1024 * 256), "1.2 MB");
    assert_eq!(shown(1024 * 1024 + 1024 * 768), "1.8 MB");
    for bytes in [1280u64, 1792, 2304, 2816, 1310720, 1835008, 1342177280, 1374389534720] {
        assert_eq!(shown(bytes), shown_by_floating_point(bytes), "{}", bytes);
    }
}

#[test]
fn shown_sizes_agree_with_floating_point_at_the_unit_boundaries() {
    for exponent in 0..64u32 {
        let power = 1u64 << exponent;
        for delta in 0..=66u64 {
            for bytes in [power.wrapping_sub(delta), power.wrapping_add(delta)] {
                assert_eq!(shown(bytes), shown_by_floating_point(bytes), "{}", bytes);
            }
        }
    }
}

#[test]
fn shown_sizes_agree_with_floating_point_for_small_sizes() {
    for bytes in 0..300_000u64 {
        assert_eq!(shown(bytes), shown_by_floating_point(bytes), "{}", bytes);
    }
}

#[test]
fn shown_sizes_agree_with_floating_point_across_the_range() {
    // A fixed sequence that visits every magnitude.
    let mut state = 0x9e37_79b9_7f4a_7c15u64;
    for round in 0..200_000u32 {
        state ^= state << 13;
        state ^= state >> 7;
        state ^= state << 17;
        let bytes = state >> (round % 64);
        assert_eq!(shown(bytes), shown_by_floating_point(bytes), "{}", bytes);
    }
}

#[test]
fn shown_sizes_agree_with_floating_point_where_precision_ends() {
    // From 2^53 on not every size is a number of double precision; sizes
    // half-way between two such numbers go to the even one.
    for exponent in 53..64u32 {
        let base = 1u64 << exponent;
        let spacing = 1u64 << (exponent - 52);
        for step in 0..40u64 {
            for offset in [0, 1, spacing / 2, spacing / 2 + 1, spacing - 1] {
                let bytes = base.wrapping_add(step * spacing).wrapping_add(offset);
                assert_eq!(shown(bytes), shown_by_floating_point(bytes), "{}", bytes);
            }
        }
    }
    for bytes in (u64::MAX - 5000)..=u64::MAX {
        assert_eq!(shown(bytes), shown_by_floating_point(bytes), "{}", bytes);
    }
}

#[test]
fn tenths_are_rounded_from_the_exact_quotient() {
    assert_eq!(tenths_of(1024), 10);
    assert_eq!(tenths_of(1280), 12);
    assert_eq!(tenths_of(1281), 13);
    assert_eq!(tenths_of(1048575), 10240);
    assert_eq!(tenths_of(u64::MAX), 167772160);
    assert_eq!(format_size(2048), "2.0 KB");
}

#[test]
fn tools_are_looked_for_one_after_the_other() {
    let mut reports = Vec::new();
    let mut asked = Vec::new();
    let tools = loop {
        match LinuxFilesystemOps::survey(&reports) {
            SurveyStep::Ask(Request::PathExists { path }) => {
                reports.push(Report::Exists(path.ends_with("fat") || path.ends_with("f2fs")));
                asked.push(path);
            }
            SurveyStep::Ask(other) => panic!("unexpected request {:?}", other),
            SurveyStep::Done(tools) => break tools,
        }
    };
    assert_eq!(
        asked,
        vec![
            "/sbin/mkfs.fat",
            "/sbin/mkfs.ntfs",
            "/sbin/mkfs.exfat",
            "/sbin/mkfs.ext4",
            "/sbin/mkfs.f2fs",
            "/sbin/mkfs.btrfs",
        ]
    );
    assert_eq!(
        tools,
        MkfsTools { fat: true, ntfs: false, exfat: true, ext4: false, f2fs: true, btrfs: false }
    );
}

#[test]
fn report_of_another_kind_counts_as_a_tool_not_found() {
    let reports = vec![
        Report::Exists(true),
        Report::Host(Ok(())),
        Report::Size(Ok(1)),
        Report::Exists(false),
        Report::Exists(true),
        Report::Exists(true),
    ];
    assert_eq!(
        LinuxFilesystemOps::survey(&reports),
        SurveyStep::Done(MkfsTools {
            fat: true,
            ntfs: false,
            exfat: false,
            ext4: false,
            f2fs: true,
            btrfs: true,
        })
    );
}
