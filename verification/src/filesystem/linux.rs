//! The filesystems of Linux. What Linux can make depends on which `mkfs`
//! tools are installed; the catalogue works on a snapshot of that.

use crate::backend::{report_views, Report, ReportView, Request, RequestView};
use crate::error::WowUsbError;
use crate::filesystem::windows::{common_entry, WindowsFilesystemOps};
use crate::filesystem::{entry_or_unknown, FilesystemInfo, InfoView, PlatformFilesystemOps, TIB};
use crate::text::{owned_list, str_eq, str_views, string_views, to_lowercase};
use vstd::prelude::*;

verus! {

/// Which `mkfs` tools were found under `/sbin`.
#[derive(Debug, Clone, Copy, PartialEq, Eq, Structural)]
pub struct MkfsTools {
    pub fat: bool,
    pub ntfs: bool,
    pub exfat: bool,
    pub ext4: bool,
    pub f2fs: bool,
    pub btrfs: bool,
}

pub open spec fn f2fs_entry() -> InfoView {
    InfoView {
        name: "F2FS"@,
        supports_large_files: true,
        max_file_size: (16 * TIB) as u64,
        max_volume_size: (16 * TIB) as u64,
        recommended_for: seq!["Flash drives"@, "SSD"@, "Linux"@],
        pros: seq!["Optimized for flash memory"@, "Excellent performance"@, "Large file support"@],
        cons: seq!["Limited Windows support"@, "Relatively new filesystem"@],
    }
}

pub open spec fn btrfs_entry() -> InfoView {
    InfoView {
        name: "BTRFS"@,
        supports_large_files: true,
        max_file_size: (16 * TIB) as u64,
        max_volume_size: (16 * TIB) as u64,
        recommended_for: seq!["Advanced features"@, "Linux"@],
        pros: seq!["Copy-on-write"@, "Snapshots"@, "Self-healing"@, "Built-in compression"@],
        cons: seq!["Complex implementation"@, "Performance overhead"@],
    }
}

pub open spec fn ext4_entry() -> InfoView {
    InfoView {
        name: "ext4"@,
        supports_large_files: true,
        max_file_size: (16 * TIB) as u64,
        max_volume_size: TIB,
        recommended_for: seq!["Linux"@, "Reliability"@],
        pros: seq!["Mature and stable"@, "Good performance"@, "Journaling filesystem"@],
        cons: seq!["Limited Windows support"@],
    }
}

/// The entries of Linux: its own three, then those that every platform
/// knows.
pub open spec fn linux_entry(lower: Seq<char>) -> Option<InfoView> {
    if lower == "f2fs"@ {
        Some(f2fs_entry())
    } else if lower == "btrfs"@ {
        Some(btrfs_entry())
    } else if lower == "ext4"@ {
        Some(ext4_entry())
    } else {
        common_entry(lower)
    }
}

/// The name of the tool that makes the filesystem of this lower-case name.
pub open spec fn mkfs_tool(lower: Seq<char>) -> Option<Seq<char>> {
    if lower == "fat32"@ {
        Some("mkfs.fat"@)
    } else if lower == "ntfs"@ {
        Some("mkfs.ntfs"@)
    } else if lower == "exfat"@ {
        Some("mkfs.exfat"@)
    } else if lower == "ext4"@ {
        Some("mkfs.ext4"@)
    } else if lower == "f2fs"@ {
        Some("mkfs.f2fs"@)
    } else if lower == "btrfs"@ {
        Some("mkfs.btrfs"@)
    } else {
        None
    }
}

/// Linux can make a filesystem when its tool is installed.
pub open spec fn linux_supports(tools: MkfsTools, lower: Seq<char>) -> bool {
    if lower == "fat32"@ {
        tools.fat
    } else if lower == "ntfs"@ {
        tools.ntfs
    } else if lower == "exfat"@ {
        tools.exfat
    } else if lower == "ext4"@ {
        tools.ext4
    } else if lower == "f2fs"@ {
        tools.f2fs
    } else if lower == "btrfs"@ {
        tools.btrfs
    } else {
        false
    }
}

/// Four filesystems are always offered; F2FS and BTRFS join them, in this
/// order, when their tools are installed.
pub open spec fn linux_listing(tools: MkfsTools) -> Seq<Seq<char>> {
    seq!["FAT32"@, "NTFS"@, "exFAT"@, "ext4"@] + (if tools.f2fs {
        seq!["F2FS"@]
    } else {
        Seq::empty()
    }) + (if tools.btrfs {
        seq!["BTRFS"@]
    } else {
        Seq::empty()
    })
}

pub open spec fn linux_optimal(tools: MkfsTools, has_large_files: bool, lower_os: Seq<char>) -> Seq<
    char,
> {
    if lower_os == "windows"@ {
        "NTFS"@
    } else if lower_os == "linux"@ && has_large_files {
        if tools.f2fs {
            "F2FS"@
        } else if tools.ntfs {
            "NTFS"@
        } else {
            "FAT32"@
        }
    } else {
        "FAT32"@
    }
}

/// The lower-case names of the filesystems whose tools are looked for, in
/// the order in which they are looked for.
pub open spec fn surveyed(index: int) -> Seq<char> {
    if index == 0 {
        "fat32"@
    } else if index == 1 {
        "ntfs"@
    } else if index == 2 {
        "exfat"@
    } else if index == 3 {
        "ext4"@
    } else if index == 4 {
        "f2fs"@
    } else {
        "btrfs"@
    }
}

/// Whether a report says that a path exists.
pub open spec fn found(report: ReportView) -> bool {
    report == ReportView::Exists(true)
}

/// What looking for the tools asks for next, or which tools were found.
#[derive(Debug, PartialEq, Eq)]
pub enum SurveyStep {
    /// Do this and come back with the report.
    Ask(Request),
    /// All tools have been looked for.
    Done(MkfsTools),
}

pub enum SurveyStepView {
    Ask(RequestView),
    Done(MkfsTools),
}

impl View for SurveyStep {
    type V = SurveyStepView;

    open spec fn view(&self) -> SurveyStepView {
        match self {
            SurveyStep::Ask(request) => SurveyStepView::Ask(request@),
            SurveyStep::Done(tools) => SurveyStepView::Done(*tools),
        }
    }
}

/// Where looking for the tools stands: each of the six tools is looked for
/// in turn, and a tool is installed if its path exists.
pub open spec fn survey(reports: Seq<ReportView>) -> SurveyStepView {
    if reports.len() < 6 {
        SurveyStepView::Ask(
            RequestView::PathExists {
                path: "/sbin/"@ + mkfs_tool(surveyed(reports.len() as int))->0,
            },
        )
    } else {
        SurveyStepView::Done(
            MkfsTools {
                fat: found(reports[0]),
                ntfs: found(reports[1]),
                exfat: found(reports[2]),
                ext4: found(reports[3]),
                f2fs: found(reports[4]),
                btrfs: found(reports[5]),
            },
        )
    }
}

pub struct LinuxFilesystemOps {
    tools: MkfsTools,
}

impl LinuxFilesystemOps {
    pub closed spec fn tools(&self) -> MkfsTools {
        self.tools
    }

    /// The catalogue of a system on which no `mkfs` tool has been found.
    pub fn new() -> (ops: Self)
        ensures
            ops.tools() == (MkfsTools {
                fat: false,
                ntfs: false,
                exfat: false,
                ext4: false,
                f2fs: false,
                btrfs: false,
            }),
    {
        LinuxFilesystemOps {
            tools: MkfsTools {
                fat: false,
                ntfs: false,
                exfat: false,
                ext4: false,
                f2fs: false,
                btrfs: false,
            },
        }
    }

    /// The catalogue of a system with the given tools.
    pub fn with_tools(tools: MkfsTools) -> (ops: Self)
        ensures
            ops.tools() == tools,
    {
        LinuxFilesystemOps { tools }
    }

    fn found(report: &Report) -> (r: bool)
        ensures
            r == found(report@),
    {
        match report {
            Report::Exists(exists) => *exists,
            _ => false,
        }
    }

    /// What looking for the tools asks for next, given the reports so far,
    /// or which tools were found.
    pub fn survey(reports: &Vec<Report>) -> (step: SurveyStep)
        ensures
            step@ == survey(report_views(reports@)),
    {
        let count = reports.len();
        if count < 6 {
            let name = if count == 0 {
                "fat32"
            } else if count == 1 {
                "ntfs"
            } else if count == 2 {
                "exfat"
            } else if count == 3 {
                "ext4"
            } else if count == 4 {
                "f2fs"
            } else {
                "btrfs"
            };
            proof {
                reveal_strlit("fat32");
                reveal_strlit("ntfs");
                reveal_strlit("exfat");
                reveal_strlit("ext4");
                reveal_strlit("f2fs");
                reveal_strlit("btrfs");
            }
            match Self::tool_path(name) {
                Some(path) => SurveyStep::Ask(Request::PathExists { path }),
                None => unreached(),
            }
        } else {
            assert(report_views(reports@)[0] == reports@[0]@);
            assert(report_views(reports@)[1] == reports@[1]@);
            assert(report_views(reports@)[2] == reports@[2]@);
            assert(report_views(reports@)[3] == reports@[3]@);
            assert(report_views(reports@)[4] == reports@[4]@);
            assert(report_views(reports@)[5] == reports@[5]@);
            SurveyStep::Done(
                MkfsTools {
                    fat: Self::found(&reports[0]),
                    ntfs: Self::found(&reports[1]),
                    exfat: Self::found(&reports[2]),
                    ext4: Self::found(&reports[3]),
                    f2fs: Self::found(&reports[4]),
                    btrfs: Self::found(&reports[5]),
                },
            )
        }
    }

    /// Where the tool that makes a filesystem is looked for, given the name
    /// of the filesystem in lower case.
    pub fn tool_path(lower: &str) -> (path: Option<String>)
        ensures
            match mkfs_tool(lower@) {
                Some(tool) => path matches Some(p) && p@ == "/sbin/"@ + tool,
                None => path is None,
            },
    {
        let tool = if str_eq(lower, "fat32") {
            "mkfs.fat"
        } else if str_eq(lower, "ntfs") {
            "mkfs.ntfs"
        } else if str_eq(lower, "exfat") {
            "mkfs.exfat"
        } else if str_eq(lower, "ext4") {
            "mkfs.ext4"
        } else if str_eq(lower, "f2fs") {
            "mkfs.f2fs"
        } else if str_eq(lower, "btrfs") {
            "mkfs.btrfs"
        } else {
            return None;
        };
        Some(String::from_str("/sbin/").concat(tool))
    }

    /// Whether a system with these tools can make the filesystem of this
    /// lower-case name.
    pub fn supports_normalized(tools: MkfsTools, lower: &str) -> (supported: bool)
        ensures
            supported == linux_supports(tools, lower@),
    {
        if str_eq(lower, "fat32") {
            tools.fat
        } else if str_eq(lower, "ntfs") {
            tools.ntfs
        } else if str_eq(lower, "exfat") {
            tools.exfat
        } else if str_eq(lower, "ext4") {
            tools.ext4
        } else if str_eq(lower, "f2fs") {
            tools.f2fs
        } else if str_eq(lower, "btrfs") {
            tools.btrfs
        } else {
            false
        }
    }

    /// The entry for a name that is in lower case already.
    pub fn info_normalized(lower: &str) -> (entry: Option<FilesystemInfo>)
        ensures
            match linux_entry(lower@) {
                Some(expected) => entry matches Some(info) && info@ == expected,
                None => entry is None,
            },
    {
        if str_eq(lower, "f2fs") {
            let recommended = vec!["Flash drives", "SSD", "Linux"];
            let pros = vec!["Optimized for flash memory", "Excellent performance", "Large file support"];
            let cons = vec!["Limited Windows support", "Relatively new filesystem"];
            assert(str_views(recommended@) =~= f2fs_entry().recommended_for);
            assert(str_views(pros@) =~= f2fs_entry().pros);
            assert(str_views(cons@) =~= f2fs_entry().cons);
            Some(
                FilesystemInfo::describe(
                    "F2FS",
                    true,
                    16 * TIB,
                    16 * TIB,
                    &recommended,
                    &pros,
                    &cons,
                ),
            )
        } else if str_eq(lower, "btrfs") {
            let recommended = vec!["Advanced features", "Linux"];
            let pros = vec!["Copy-on-write", "Snapshots", "Self-healing", "Built-in compression"];
            let cons = vec!["Complex implementation", "Performance overhead"];
            assert(str_views(recommended@) =~= btrfs_entry().recommended_for);
            assert(str_views(pros@) =~= btrfs_entry().pros);
            assert(str_views(cons@) =~= btrfs_entry().cons);
            Some(
                FilesystemInfo::describe(
                    "BTRFS",
                    true,
                    16 * TIB,
                    16 * TIB,
                    &recommended,
                    &pros,
                    &cons,
                ),
            )
        } else if str_eq(lower, "ext4") {
            let recommended = vec!["Linux", "Reliability"];
            let pros = vec!["Mature and stable", "Good performance", "Journaling filesystem"];
            let cons = vec!["Limited Windows support"];
            assert(str_views(recommended@) =~= ext4_entry().recommended_for);
            assert(str_views(pros@) =~= ext4_entry().pros);
            assert(str_views(cons@) =~= ext4_entry().cons);
            Some(FilesystemInfo::describe("ext4", true, 16 * TIB, TIB, &recommended, &pros, &cons))
        } else {
            WindowsFilesystemOps::common_info(lower)
        }
    }

    /// The filesystems that a system with these tools offers.
    pub fn listing_for(tools: MkfsTools) -> (names: Vec<String>)
        ensures
            string_views(names@) == linux_listing(tools),
    {
        let base = vec!["FAT32", "NTFS", "exFAT", "ext4"];
        let mut names = owned_list(&base);
        assert(string_views(names@) =~= seq!["FAT32"@, "NTFS"@, "exFAT"@, "ext4"@]);
        if tools.f2fs {
            let ghost before = names@;
            names.push(String::from_str("F2FS"));
            assert(string_views(names@) =~= string_views(before) + seq!["F2FS"@]);
        } else {
            assert(string_views(names@) =~= string_views(names@) + Seq::<Seq<char>>::empty());
        }
        if tools.btrfs {
            let ghost before = names@;
            names.push(String::from_str("BTRFS"));
            assert(string_views(names@) =~= string_views(before) + seq!["BTRFS"@]);
        } else {
            assert(string_views(names@) =~= string_views(names@) + Seq::<Seq<char>>::empty());
        }
        names
    }

    /// The filesystem that fits best on a system with these tools, for the
    /// lower-case name of the target operating system.
    pub fn optimal_normalized(tools: MkfsTools, has_large_files: bool, lower_os: &str) -> (name:
        String)
        ensures
            name@ == linux_optimal(tools, has_large_files, lower_os@),
    {
        if str_eq(lower_os, "windows") {
            String::from_str("NTFS")
        } else if str_eq(lower_os, "linux") && has_large_files {
            if tools.f2fs {
                String::from_str("F2FS")
            } else if tools.ntfs {
                String::from_str("NTFS")
            } else {
                String::from_str("FAT32")
            }
        } else {
            String::from_str("FAT32")
        }
    }
}

impl PlatformFilesystemOps for LinuxFilesystemOps {
    open spec fn listing(&self) -> Seq<Seq<char>> {
        linux_listing(self.tools())
    }

    open spec fn supports(&self, lower: Seq<char>) -> bool {
        linux_supports(self.tools(), lower)
    }

    open spec fn info_for(&self, lower: Seq<char>) -> Option<InfoView> {
        linux_entry(lower)
    }

    open spec fn optimal(&self, has_large_files: bool, lower_os: Seq<char>) -> Seq<char> {
        linux_optimal(self.tools(), has_large_files, lower_os)
    }

    fn get_available_filesystems(&self) -> (r: Result<Vec<String>, WowUsbError>) {
        Ok(Self::listing_for(self.tools))
    }

    fn check_filesystem_support(&self, fs_type: &str) -> (r: Result<bool, WowUsbError>) {
        let lower = to_lowercase(fs_type);
        Ok(Self::supports_normalized(self.tools, lower.as_str()))
    }

    fn get_filesystem_info(&self, fs_type: &str) -> (r: Result<FilesystemInfo, WowUsbError>) {
        let lower = to_lowercase(fs_type);
        entry_or_unknown(Self::info_normalized(lower.as_str()), fs_type)
    }

    fn get_optimal_filesystem(&self, has_large_files: bool, target_os: &str) -> (r: Result<
        String,
        WowUsbError,
    >) {
        let lower = to_lowercase(target_os);
        Ok(Self::optimal_normalized(self.tools, has_large_files, lower.as_str()))
    }
}

} // verus!
