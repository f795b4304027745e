//! The filesystems of Windows, and the entries that the other platforms
//! share with it.

use crate::error::WowUsbError;
use crate::filesystem::{
    entry_or_unknown, FilesystemInfo, GIB, InfoView, PlatformFilesystemOps, TIB,
};
use crate::text::{owned_list, str_eq, str_views, to_lowercase};
use vstd::prelude::*;

verus! {

pub open spec fn ntfs_entry() -> InfoView {
    InfoView {
        name: "NTFS"@,
        supports_large_files: true,
        max_file_size: (16 * TIB) as u64,
        max_volume_size: (256 * TIB) as u64,
        recommended_for: seq!["Windows"@, "Large files"@],
        pros: seq![
            "Excellent large file support"@,
            "Built-in Windows support"@,
            "Journaling filesystem"@,
            "Compression support"@,
        ],
        cons: seq!["Limited compatibility with other OS"@, "Performance overhead on small files"@],
    }
}

pub open spec fn fat32_entry() -> InfoView {
    InfoView {
        name: "FAT32"@,
        supports_large_files: false,
        max_file_size: (4 * GIB - 1) as u64,
        max_volume_size: (2 * GIB) as u64,
        recommended_for: seq!["Maximum compatibility"@],
        pros: seq![
            "Universal compatibility"@,
            "Simple and reliable"@,
            "Works on virtually all systems"@,
        ],
        cons: seq!["4GB file size limit"@, "No journaling"@, "Inefficient with large volumes"@],
    }
}

pub open spec fn exfat_entry() -> InfoView {
    InfoView {
        name: "exFAT"@,
        supports_large_files: true,
        max_file_size: (128 * TIB) as u64,
        max_volume_size: (128 * TIB) as u64,
        recommended_for: seq!["Cross-platform"@, "Flash drives"@],
        pros: seq![
            "Large file support"@,
            "Good cross-platform support"@,
            "Optimized for flash media"@,
        ],
        cons: seq!["Less robust than NTFS"@, "No journaling"@],
    }
}

/// The entries of the filesystems that every platform knows.
pub open spec fn common_entry(lower: Seq<char>) -> Option<InfoView> {
    if lower == "ntfs"@ {
        Some(ntfs_entry())
    } else if lower == "fat32"@ {
        Some(fat32_entry())
    } else if lower == "exfat"@ {
        Some(exfat_entry())
    } else {
        None
    }
}

pub open spec fn windows_listing() -> Seq<Seq<char>> {
    seq!["NTFS"@, "FAT32"@, "exFAT"@]
}

pub open spec fn windows_supports(lower: Seq<char>) -> bool {
    lower == "ntfs"@ || lower == "fat32"@ || lower == "exfat"@
}

pub open spec fn windows_optimal(has_large_files: bool, lower_os: Seq<char>) -> Seq<char> {
    if lower_os == "windows"@ {
        "NTFS"@
    } else if has_large_files {
        "exFAT"@
    } else {
        "FAT32"@
    }
}

pub struct WindowsFilesystemOps;

impl WindowsFilesystemOps {
    pub fn new() -> Self {
        WindowsFilesystemOps
    }

    /// The entry of one of the filesystems that every platform knows, for a
    /// name that is in lower case already.
    pub fn common_info(lower: &str) -> (entry: Option<FilesystemInfo>)
        ensures
            match common_entry(lower@) {
                Some(expected) => entry matches Some(info) && info@ == expected,
                None => entry is None,
            },
    {
        if str_eq(lower, "ntfs") {
            let recommended = vec!["Windows", "Large files"];
            let pros = vec![
                "Excellent large file support",
                "Built-in Windows support",
                "Journaling filesystem",
                "Compression support",
            ];
            let cons = vec!["Limited compatibility with other OS", "Performance overhead on small files"];
            assert(str_views(recommended@) =~= ntfs_entry().recommended_for);
            assert(str_views(pros@) =~= ntfs_entry().pros);
            assert(str_views(cons@) =~= ntfs_entry().cons);
            Some(
                FilesystemInfo::describe(
                    "NTFS",
                    true,
                    16 * TIB,
                    256 * TIB,
                    &recommended,
                    &pros,
                    &cons,
                ),
            )
        } else if str_eq(lower, "fat32") {
            let recommended = vec!["Maximum compatibility"];
            let pros = vec![
                "Universal compatibility",
                "Simple and reliable",
                "Works on virtually all systems",
            ];
            let cons = vec!["4GB file size limit", "No journaling", "Inefficient with large volumes"];
            assert(str_views(recommended@) =~= fat32_entry().recommended_for);
            assert(str_views(pros@) =~= fat32_entry().pros);
            assert(str_views(cons@) =~= fat32_entry().cons);
            Some(
                FilesystemInfo::describe(
                    "FAT32",
                    false,
                    4 * GIB - 1,
                    2 * GIB,
                    &recommended,
                    &pros,
                    &cons,
                ),
            )
        } else if str_eq(lower, "exfat") {
            let recommended = vec!["Cross-platform", "Flash drives"];
            let pros = vec![
                "Large file support",
                "Good cross-platform support",
                "Optimized for flash media",
            ];
            let cons = vec!["Less robust than NTFS", "No journaling"];
            assert(str_views(recommended@) =~= exfat_entry().recommended_for);
            assert(str_views(pros@) =~= exfat_entry().pros);
            assert(str_views(cons@) =~= exfat_entry().cons);
            Some(
                FilesystemInfo::describe(
                    "exFAT",
                    true,
                    128 * TIB,
                    128 * TIB,
                    &recommended,
                    &pros,
                    &cons,
                ),
            )
        } else {
            None
        }
    }

    /// Whether Windows can make the filesystem of this lower-case name.
    pub fn supports_normalized(lower: &str) -> (supported: bool)
        ensures
            supported == windows_supports(lower@),
    {
        str_eq(lower, "ntfs") || str_eq(lower, "fat32") || str_eq(lower, "exfat")
    }

    /// The filesystem that fits best, for the lower-case name of the target
    /// operating system.
    pub fn optimal_normalized(has_large_files: bool, lower_os: &str) -> (name: String)
        ensures
            name@ == windows_optimal(has_large_files, lower_os@),
    {
        if str_eq(lower_os, "windows") {
            String::from_str("NTFS")
        } else if has_large_files {
            String::from_str("exFAT")
        } else {
            String::from_str("FAT32")
        }
    }
}

impl PlatformFilesystemOps for WindowsFilesystemOps {
    open spec fn listing(&self) -> Seq<Seq<char>> {
        windows_listing()
    }

    open spec fn supports(&self, lower: Seq<char>) -> bool {
        windows_supports(lower)
    }

    open spec fn info_for(&self, lower: Seq<char>) -> Option<InfoView> {
        common_entry(lower)
    }

    open spec fn optimal(&self, has_large_files: bool, lower_os: Seq<char>) -> Seq<char> {
        windows_optimal(has_large_files, lower_os)
    }

    fn get_available_filesystems(&self) -> (r: Result<Vec<String>, WowUsbError>) {
        let names = vec!["NTFS", "FAT32", "exFAT"];
        assert(str_views(names@) =~= windows_listing());
        Ok(owned_list(&names))
    }

    fn check_filesystem_support(&self, fs_type: &str) -> (r: Result<bool, WowUsbError>) {
        let lower = to_lowercase(fs_type);
        Ok(Self::supports_normalized(lower.as_str()))
    }

    fn get_filesystem_info(&self, fs_type: &str) -> (r: Result<FilesystemInfo, WowUsbError>) {
        let lower = to_lowercase(fs_type);
        entry_or_unknown(Self::common_info(lower.as_str()), fs_type)
    }

    fn get_optimal_filesystem(&self, has_large_files: bool, target_os: &str) -> (r: Result<
        String,
        WowUsbError,
    >) {
        let lower = to_lowercase(target_os);
        Ok(Self::optimal_normalized(has_large_files, lower.as_str()))
    }
}

} // verus!
