//! The filesystems of macOS.

use crate::error::WowUsbError;
use crate::filesystem::windows::{common_entry, WindowsFilesystemOps};
use crate::filesystem::{entry_or_unknown, FilesystemInfo, InfoView, PlatformFilesystemOps, TIB};
use crate::text::{owned_list, str_eq, str_views, to_lowercase};
use vstd::prelude::*;

verus! {

pub open spec fn apfs_entry() -> InfoView {
    InfoView {
        name: "APFS"@,
        supports_large_files: true,
        max_file_size: (8 * TIB) as u64,
        max_volume_size: (8 * TIB) as u64,
        recommended_for: seq!["macOS"@, "Modern features"@],
        pros: seq![
            "Native macOS support"@,
            "Snapshots and clones"@,
            "Strong encryption"@,
            "Space sharing"@,
        ],
        cons: seq!["Limited cross-platform support"@, "Apple ecosystem only"@],
    }
}

/// The entries of macOS: its own, then those that every platform knows.
pub open spec fn macos_entry(lower: Seq<char>) -> Option<InfoView> {
    if lower == "apfs"@ {
        Some(apfs_entry())
    } else {
        common_entry(lower)
    }
}

pub open spec fn macos_listing() -> Seq<Seq<char>> {
    seq!["FAT32"@, "exFAT"@, "APFS"@]
}

pub open spec fn macos_supports(lower: Seq<char>) -> bool {
    lower == "fat32"@ || lower == "exfat"@ || lower == "apfs"@
}

pub open spec fn macos_optimal(has_large_files: bool, lower_os: Seq<char>) -> Seq<char> {
    if lower_os == "macos"@ {
        "APFS"@
    } else if has_large_files {
        "exFAT"@
    } else {
        "FAT32"@
    }
}

pub struct MacOSFilesystemOps;

impl MacOSFilesystemOps {
    pub fn new() -> Self {
        MacOSFilesystemOps
    }

    /// Whether macOS can make the filesystem of this lower-case name.
    pub fn supports_normalized(lower: &str) -> (supported: bool)
        ensures
            supported == macos_supports(lower@),
    {
        str_eq(lower, "fat32") || str_eq(lower, "exfat") || str_eq(lower, "apfs")
    }

    /// The entry for a name that is in lower case already.
    pub fn info_normalized(lower: &str) -> (entry: Option<FilesystemInfo>)
        ensures
            match macos_entry(lower@) {
                Some(expected) => entry matches Some(info) && info@ == expected,
                None => entry is None,
            },
    {
        if str_eq(lower, "apfs") {
            let recommended = vec!["macOS", "Modern features"];
            let pros = vec![
                "Native macOS support",
                "Snapshots and clones",
                "Strong encryption",
                "Space sharing",
            ];
            let cons = vec!["Limited cross-platform support", "Apple ecosystem only"];
            assert(str_views(recommended@) =~= apfs_entry().recommended_for);
            assert(str_views(pros@) =~= apfs_entry().pros);
            assert(str_views(cons@) =~= apfs_entry().cons);
            Some(
                FilesystemInfo::describe("APFS", true, 8 * TIB, 8 * TIB, &recommended, &pros, &cons),
            )
        } else {
            WindowsFilesystemOps::common_info(lower)
        }
    }

    /// The filesystem that fits best, for the lower-case name of the target
    /// operating system.
    pub fn optimal_normalized(has_large_files: bool, lower_os: &str) -> (name: String)
        ensures
            name@ == macos_optimal(has_large_files, lower_os@),
    {
        if str_eq(lower_os, "macos") {
            String::from_str("APFS")
        } else if has_large_files {
            String::from_str("exFAT")
        } else {
            String::from_str("FAT32")
        }
    }
}

impl PlatformFilesystemOps for MacOSFilesystemOps {
    open spec fn listing(&self) -> Seq<Seq<char>> {
        macos_listing()
    }

    open spec fn supports(&self, lower: Seq<char>) -> bool {
        macos_supports(lower)
    }

    open spec fn info_for(&self, lower: Seq<char>) -> Option<InfoView> {
        macos_entry(lower)
    }

    open spec fn optimal(&self, has_large_files: bool, lower_os: Seq<char>) -> Seq<char> {
        macos_optimal(has_large_files, lower_os)
    }

    fn get_available_filesystems(&self) -> (r: Result<Vec<String>, WowUsbError>) {
        let names = vec!["FAT32", "exFAT", "APFS"];
        assert(str_views(names@) =~= macos_listing());
        Ok(owned_list(&names))
    }

    fn check_filesystem_support(&self, fs_type: &str) -> (r: Result<bool, WowUsbError>) {
        let lower = to_lowercase(fs_type);
        Ok(Self::supports_normalized(lower.as_str()))
    }

    fn get_filesystem_info(&self, fs_type: &str) -> (r: Result<FilesystemInfo, WowUsbError>) {
        let lower = to_lowercase(fs_type);
        entry_or_unknown(Self::info_normalized(lower.as_str()), fs_type)
    }

    fn get_optimal_filesystem(&self, has_large_files: bool, target_os: &str) -> (r: Result<
        String,
        WowUsbError,
    >) {
        let lower = to_lowercase(target_os);
        Ok(Self::optimal_normalized(has_large_files, lower.as_str()))
    }
}

} // verus!
