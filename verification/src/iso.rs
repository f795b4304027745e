//! What a listing of an image tells about the image: the operating system,
//! its version and architecture, whether it holds large files, and how it
//! boots. The findings are advice; no step of provisioning depends on them.

use crate::backend::{
    command_output, output_of, report_views, size_outcome, size_result, unexpected_report, Report,
    ReportView, Request, RequestView,
};
use crate::command::{
    check_output, CommandOutput, CommandSpec, CommandView, FailureKind, OutputView,
};
use crate::disk::opt_view;
use crate::error::{ErrorView, WowUsbError};
use crate::text::{
    chars_contain, concat2, contains, decimal, decimal_string, ends_with, fields, from_chars,
    lemma_ends_with_char, lines, lowercase, parse_bounded, parse_unsigned, split_fields,
    split_lines, str_eq, str_trim, str_views, string_views, to_chars, to_lowercase, to_uppercase,
    trim, trim_chars, uppercase, views,
};
use vstd::prelude::*;

verus! {

/// What is known of an image.
#[derive(Debug, Clone, PartialEq, Eq)]
pub struct IsoInfo {
    pub path: String,
    pub size: u64,
    pub os_type: String,
    pub version: Option<String>,
    pub architecture: Option<String>,
    pub has_large_files: bool,
    pub bootable: bool,
    pub supports_uefi: bool,
    pub supports_legacy: bool,
}

pub struct IsoInfoView {
    pub path: Seq<char>,
    pub size: u64,
    pub os_type: Seq<char>,
    pub version: Option<Seq<char>>,
    pub architecture: Option<Seq<char>>,
    pub has_large_files: bool,
    pub bootable: bool,
    pub supports_uefi: bool,
    pub supports_legacy: bool,
}

impl View for IsoInfo {
    type V = IsoInfoView;

    open spec fn view(&self) -> IsoInfoView {
        IsoInfoView {
            path: self.path@,
            size: self.size,
            os_type: self.os_type@,
            version: opt_view(self.version),
            architecture: opt_view(self.architecture),
            has_large_files: self.has_large_files,
            bootable: self.bootable,
            supports_uefi: self.supports_uefi,
            supports_legacy: self.supports_legacy,
        }
    }
}

/// The size above which a file does not fit a FAT32 filesystem: four
/// gibibytes.
pub const FOUR_GB: u64 = 4294967296;

/// The operating system that a listing in lower case tells of.
pub open spec fn os_type_of(lower: Seq<char>) -> Seq<char> {
    if contains(lower, "windows"@) || contains(lower, "sources/install.wim"@) || contains(
        lower,
        "sources/install.esd"@,
    ) {
        "Windows"@
    } else if contains(lower, "ubuntu"@) {
        "Ubuntu"@
    } else if contains(lower, "debian"@) {
        "Debian"@
    } else if contains(lower, "linux"@) {
        if contains(lower, "fedora"@) {
            "Fedora"@
        } else if contains(lower, "arch"@) {
            "Arch Linux"@
        } else {
            "Linux"@
        }
    } else if contains(lower, "install"@) {
        "Unknown (but likely bootable)"@
    } else {
        "Unknown"@
    }
}

/// The architecture that a listing in lower case tells of, if any.
pub open spec fn architecture_of(lower: Seq<char>) -> Option<Seq<char>> {
    if contains(lower, "x64"@) || contains(lower, "amd64"@) {
        Some("x86_64"@)
    } else if contains(lower, "x86"@) || contains(lower, "i386"@) {
        Some("i386"@)
    } else if contains(lower, "arm64"@) || contains(lower, "aarch64"@) {
        Some("aarch64"@)
    } else if contains(lower, "arm"@) {
        Some("ARM"@)
    } else {
        None
    }
}

/// Whether a listing in lower case tells of a UEFI boot loader.
pub open spec fn uefi_in(lower: Seq<char>) -> bool {
    contains(lower, "efi"@) || contains(lower, "boot"@) || contains(lower, "efi/boot"@)
}

/// Whether a listing in lower case tells of a legacy boot loader.
pub open spec fn legacy_in(lower: Seq<char>) -> bool {
    contains(lower, "boot"@) || contains(lower, "syslinux"@) || contains(lower, "grub"@)
}

/// The first of the lines from index `from` on that speaks of a version or
/// a build.
pub open spec fn version_line(text: Seq<Seq<char>>, from: int) -> Option<Seq<char>>
    decreases text.len() - from,
{
    if from < 0 || from >= text.len() {
        None
    } else if contains(text[from], "Version"@) || contains(text[from], "Build"@) {
        Some(trim(text[from]))
    } else {
        version_line(text, from + 1)
    }
}

/// The version that the build information of a Windows image tells, where
/// it could be read.
pub open spec fn windows_version(output: OutputView) -> Option<Seq<char>> {
    if output.success {
        version_line(lines(output.stdout), 0)
    } else {
        None
    }
}

/// The version that the disk information of an Ubuntu image tells, where it
/// could be read.
pub open spec fn ubuntu_version(output: OutputView) -> Option<Seq<char>> {
    if output.success {
        Some(trim(output.stdout))
    } else {
        None
    }
}

/// Whether a line of a listing describes a file: it is not blank and does
/// not begin with a dash.
pub open spec fn is_entry(line: Seq<char>) -> bool {
    trim(line).len() > 0 && !(line.len() > 0 && line[0] == '-')
}

/// The size column of the first `count` lines of a listing: the fourth word
/// of each line that describes a file and has four words or more.
pub open spec fn size_fields_among(listing: Seq<Seq<char>>, count: int) -> Seq<Seq<char>>
    decreases count,
{
    if count <= 0 {
        Seq::empty()
    } else {
        let earlier = size_fields_among(listing, count - 1);
        let line = listing[count - 1];
        if is_entry(line) && fields(line).len() >= 4 {
            earlier.push(fields(line)[3])
        } else {
            earlier
        }
    }
}

/// The size column of a listing.
pub open spec fn size_fields(stdout: Seq<char>) -> Seq<Seq<char>> {
    size_fields_among(lines(stdout), lines(stdout).len() as int)
}

/// The units in which a size can be written.
#[derive(Debug, Clone, Copy, PartialEq, Eq, Structural)]
pub enum SizeUnit {
    Kilobytes,
    Megabytes,
    Gigabytes,
}

/// What the text of a size says: a number of bytes, a decimal number in a
/// unit, or nothing that can be read.
#[derive(Debug, PartialEq, Eq)]
pub enum SizeText {
    Bytes(u64),
    /// The text before the unit, which is yet to be read as a decimal
    /// number, and the unit.
    Scaled { number: String, unit: SizeUnit },
    Invalid(WowUsbError),
}

pub enum SizeTextView {
    Bytes(u64),
    Scaled { number: Seq<char>, unit: SizeUnit },
    Invalid(ErrorView),
}

impl View for SizeText {
    type V = SizeTextView;

    open spec fn view(&self) -> SizeTextView {
        match self {
            SizeText::Bytes(n) => SizeTextView::Bytes(*n),
            SizeText::Scaled { number, unit } => SizeTextView::Scaled {
                number: number@,
                unit: *unit,
            },
            SizeText::Invalid(e) => SizeTextView::Invalid(e@),
        }
    }
}

pub open spec fn invalid_size(text: Seq<char>) -> ErrorView {
    ErrorView::Validation("Invalid size format: "@ + text)
}

/// What a size in upper case, without whitespace around it, says. A text
/// that ends in `G`, `M` or `K` is a decimal number in that unit; any other
/// is a number of bytes.
pub open spec fn classify_size(upper: Seq<char>) -> SizeTextView {
    if ends_with(upper, seq!['G']) {
        SizeTextView::Scaled { number: upper.drop_last(), unit: SizeUnit::Gigabytes }
    } else if ends_with(upper, seq!['M']) {
        SizeTextView::Scaled { number: upper.drop_last(), unit: SizeUnit::Megabytes }
    } else if ends_with(upper, seq!['K']) {
        SizeTextView::Scaled { number: upper.drop_last(), unit: SizeUnit::Kilobytes }
    } else {
        match parse_unsigned(upper, u64::MAX as nat) {
            Some(n) => SizeTextView::Bytes(n as u64),
            None => SizeTextView::Invalid(invalid_size(upper)),
        }
    }
}

/// Whether an image for `os_type` can be written for a target operating
/// system whose name in lower case is `lower_target`.
pub open spec fn fits_target(os_type: Seq<char>, lower_target: Seq<char>) -> bool {
    ||| os_type == "Windows"@ && (lower_target == "linux"@ || lower_target == "windows"@)
    ||| (os_type == "Ubuntu"@ || os_type == "Debian"@ || os_type == "Fedora"@ || os_type
        == "Arch Linux"@ || os_type == "Linux"@) && lower_target == "linux"@
}

/// The filesystem that is recommended for an image.
pub open spec fn recommended_filesystem(os_type: Seq<char>, has_large_files: bool) -> Seq<char> {
    if !has_large_files {
        "FAT32"@
    } else if os_type == "Windows"@ {
        "NTFS"@
    } else {
        "F2FS"@
    }
}

pub open spec fn list_command(iso_path: Seq<char>) -> CommandView {
    CommandView { program: "7z"@, args: seq!["l"@, iso_path] }
}

pub open spec fn read_file_command(iso_path: Seq<char>, file: Seq<char>) -> CommandView {
    CommandView { program: "7z"@, args: seq!["e"@, iso_path, file, "-so"@] }
}

/// The command that reads the file that tells the version of an image for
/// `os_type`, for the operating systems that have such a file.
pub open spec fn version_command(iso_path: Seq<char>, os_type: Seq<char>) -> Option<CommandView> {
    if os_type == "Windows"@ {
        Some(read_file_command(iso_path, "sources/idwbinfo.txt"@))
    } else if os_type == "Ubuntu"@ {
        Some(read_file_command(iso_path, ".disk/info"@))
    } else {
        None
    }
}

/// The version of an image for `os_type`, given what the command that reads
/// its version file reported.
pub open spec fn version_of(os_type: Seq<char>, output: OutputView) -> Option<Seq<char>> {
    if os_type == "Windows"@ {
        windows_version(output)
    } else if os_type == "Ubuntu"@ {
        ubuntu_version(output)
    } else {
        None
    }
}

pub open spec fn listing_failure(output: OutputView) -> ErrorView {
    ErrorView::IsoProcessing("Failed to list ISO contents: "@ + output.stderr)
}

/// What the analysis of an image asks for next, or what it found.
#[derive(Debug, PartialEq, Eq)]
pub enum AnalysisStep {
    /// Do this and come back with the report.
    Ask(Request),
    /// Read `number` as a decimal fraction, scale it by the unit, cut the
    /// product to whole bytes, and come back with the size.
    Scale { number: String, unit: SizeUnit },
    /// The analysis is over.
    Done(Result<IsoInfo, WowUsbError>),
}

pub enum AnalysisStepView {
    Ask(RequestView),
    Scale { number: Seq<char>, unit: SizeUnit },
    Done(Result<IsoInfoView, ErrorView>),
}

impl View for AnalysisStep {
    type V = AnalysisStepView;

    open spec fn view(&self) -> AnalysisStepView {
        match self {
            AnalysisStep::Ask(request) => AnalysisStepView::Ask(request@),
            AnalysisStep::Scale { number, unit } => AnalysisStepView::Scale {
                number: number@,
                unit: *unit,
            },
            AnalysisStep::Done(Ok(info)) => AnalysisStepView::Done(Ok(info@)),
            AnalysisStep::Done(Err(error)) => AnalysisStepView::Done(Err(error@)),
        }
    }
}

/// Where the search for a large file stands.
pub enum SizeScan {
    /// This size is to be scaled next.
    Scaling { number: Seq<char>, unit: SizeUnit },
    /// A report was of the wrong kind.
    Failed(ErrorView),
    /// Whether a file above four gibibytes was found.
    Known { large: bool },
}

/// Where the search for a large file stands from the size of index `index`
/// on, when the reports from index `at` on are still unread. The sizes are
/// read in order until one is above four gibibytes. A size in bytes is read
/// at once; for a size with a unit the host is asked; a size that cannot be
/// read is passed over.
pub open spec fn scan_sizes(
    texts: Seq<Seq<char>>,
    index: int,
    reports: Seq<ReportView>,
    at: int,
) -> SizeScan
    decreases texts.len() - index,
{
    if index < 0 || index >= texts.len() {
        SizeScan::Known { large: false }
    } else {
        match classify_size(uppercase(trim(texts[index]))) {
            SizeTextView::Bytes(bytes) => if bytes > FOUR_GB {
                SizeScan::Known { large: true }
            } else {
                scan_sizes(texts, index + 1, reports, at)
            },
            SizeTextView::Invalid(_) => scan_sizes(texts, index + 1, reports, at),
            SizeTextView::Scaled { number, unit } => if at < 0 || at >= reports.len() {
                SizeScan::Scaling { number, unit }
            } else {
                match reports[at] {
                    ReportView::Size(Ok(bytes)) => if bytes > FOUR_GB {
                        SizeScan::Known { large: true }
                    } else {
                        scan_sizes(texts, index + 1, reports, at + 1)
                    },
                    ReportView::Size(Err(_)) => scan_sizes(texts, index + 1, reports, at + 1),
                    _ => SizeScan::Failed(unexpected_report()),
                }
            },
        }
    }
}

/// The end of an analysis: the sizes of the listing are searched for a
/// large file, and what was found is put together.
pub open spec fn analysis_after_version(
    iso_path: Seq<char>,
    size: u64,
    stdout: Seq<char>,
    version: Option<Seq<char>>,
    reports: Seq<ReportView>,
    at: int,
) -> AnalysisStepView {
    match scan_sizes(size_fields(stdout), 0, reports, at) {
        SizeScan::Scaling { number, unit } => AnalysisStepView::Scale { number, unit },
        SizeScan::Failed(error) => AnalysisStepView::Done(Err(error)),
        SizeScan::Known { large } => AnalysisStepView::Done(
            Ok(
                IsoInfoView {
                    path: iso_path,
                    size,
                    os_type: os_type_of(lowercase(stdout)),
                    version,
                    architecture: architecture_of(lowercase(stdout)),
                    has_large_files: large,
                    bootable: uefi_in(lowercase(stdout)) || legacy_in(lowercase(stdout)),
                    supports_uefi: uefi_in(lowercase(stdout)),
                    supports_legacy: legacy_in(lowercase(stdout)),
                },
            ),
        ),
    }
}

/// The analysis once the image is listed: the version is read from its
/// file where the operating system has one, then the analysis ends.
pub open spec fn analysis_after_listing(
    iso_path: Seq<char>,
    size: u64,
    stdout: Seq<char>,
    reports: Seq<ReportView>,
) -> AnalysisStepView {
    let os_type = os_type_of(lowercase(stdout));
    match version_command(iso_path, os_type) {
        None => analysis_after_version(iso_path, size, stdout, None, reports, 3),
        Some(command) => if reports.len() <= 3 {
            AnalysisStepView::Ask(RequestView::Run { command, read_output: true })
        } else {
            match output_of(reports[3]) {
                Ok(output) => analysis_after_version(
                    iso_path,
                    size,
                    stdout,
                    version_of(os_type, output),
                    reports,
                    4,
                ),
                Err(error) => AnalysisStepView::Done(Err(error)),
            }
        },
    }
}

pub open spec fn missing_image() -> ErrorView {
    ErrorView::Validation("ISO file does not exist"@)
}

/// What the analysis of an image asks for next, given the reports so far:
/// whether the file exists, how large it is, the listing of its contents,
/// the file that tells its version, and the sizes that are written with a
/// unit. A file that does not exist is a validation error; a listing that
/// fails is an image error.
pub open spec fn analysis(iso_path: Seq<char>, reports: Seq<ReportView>) -> AnalysisStepView {
    if reports.len() == 0 {
        AnalysisStepView::Ask(RequestView::PathExists { path: iso_path })
    } else {
        match reports[0] {
            ReportView::Exists(exists) => if !exists {
                AnalysisStepView::Done(Err(missing_image()))
            } else if reports.len() == 1 {
                AnalysisStepView::Ask(RequestView::FileSize { path: iso_path })
            } else {
                match size_result(reports[1]) {
                    Err(error) => AnalysisStepView::Done(Err(error)),
                    Ok(size) => if reports.len() == 2 {
                        AnalysisStepView::Ask(
                            RequestView::Run { command: list_command(iso_path), read_output: true },
                        )
                    } else {
                        match output_of(reports[2]) {
                            Err(error) => AnalysisStepView::Done(Err(error)),
                            Ok(listing) => if !listing.success {
                                AnalysisStepView::Done(Err(listing_failure(listing)))
                            } else {
                                analysis_after_listing(iso_path, size, listing.stdout, reports)
                            },
                        }
                    },
                }
            },
            _ => AnalysisStepView::Done(Err(unexpected_report())),
        }
    }
}

/// Where the search for a large file stands.
enum Scan {
    Scaling { number: String, unit: SizeUnit },
    Failed(WowUsbError),
    Known { large: bool },
}

impl View for Scan {
    type V = SizeScan;

    closed spec fn view(&self) -> SizeScan {
        match self {
            Scan::Scaling { number, unit } => SizeScan::Scaling { number: number@, unit: *unit },
            Scan::Failed(error) => SizeScan::Failed(error@),
            Scan::Known { large } => SizeScan::Known { large: *large },
        }
    }
}

/// Analyses images.
pub struct IsoProcessor {
    temp_dir: String,
}

impl IsoInfo {
    /// What is known of an image, from the findings. An image is bootable
    /// if it boots in either way.
    pub fn assemble(
        path: &str,
        size: u64,
        os_type: String,
        version: Option<String>,
        architecture: Option<String>,
        has_large_files: bool,
        supports_uefi: bool,
        supports_legacy: bool,
    ) -> (info: Self)
        ensures
            info@ == (IsoInfoView {
                path: path@,
                size,
                os_type: os_type@,
                version: opt_view(version),
                architecture: opt_view(architecture),
                has_large_files,
                bootable: supports_uefi || supports_legacy,
                supports_uefi,
                supports_legacy,
            }),
    {
        IsoInfo {
            path: String::from_str(path),
            size,
            os_type,
            version,
            architecture,
            has_large_files,
            bootable: supports_uefi || supports_legacy,
            supports_uefi,
            supports_legacy,
        }
    }
}

impl IsoProcessor {
    pub closed spec fn spec_temp_dir(&self) -> Seq<char> {
        self.temp_dir@
    }

    /// The analyser of the process `process_id`, which names its scratch
    /// directory.
    pub fn new(process_id: u32) -> (processor: Self)
        ensures
            processor.spec_temp_dir() == "/tmp/wowusb_iso_"@ + decimal(process_id as nat),
    {
        let number = decimal_string(process_id as u64);
        IsoProcessor { temp_dir: concat2("/tmp/wowusb_iso_", number.as_str()) }
    }

    /// The scratch directory of this analyser.
    pub fn temp_dir(&self) -> (path: String)
        ensures
            path@ == self.spec_temp_dir(),
    {
        self.temp_dir.clone()
    }

    /// The command that lists the contents of the image.
    pub fn list_command(iso_path: &str) -> (command: CommandSpec)
        ensures
            command@ == list_command(iso_path@),
    {
        let args = vec!["l", iso_path];
        assert(str_views(args@) =~= seq!["l"@, iso_path@]);
        CommandSpec::new("7z", &args)
    }

    fn has(hay: &Vec<char>, needle: &str) -> (r: bool)
        ensures
            r == contains(hay@, needle@),
    {
        let pattern = to_chars(needle);
        chars_contain(hay, &pattern)
    }

    /// The operating system that a listing in lower case tells of.
    pub fn os_type_for(lower: &str) -> (os_type: String)
        ensures
            os_type@ == os_type_of(lower@),
    {
        let text = to_chars(lower);
        if Self::has(&text, "windows") || Self::has(&text, "sources/install.wim") || Self::has(
            &text,
            "sources/install.esd",
        ) {
            String::from_str("Windows")
        } else if Self::has(&text, "ubuntu") {
            String::from_str("Ubuntu")
        } else if Self::has(&text, "debian") {
            String::from_str("Debian")
        } else if Self::has(&text, "linux") {
            if Self::has(&text, "fedora") {
                String::from_str("Fedora")
            } else if Self::has(&text, "arch") {
                String::from_str("Arch Linux")
            } else {
                String::from_str("Linux")
            }
        } else if Self::has(&text, "install") {
            String::from_str("Unknown (but likely bootable)")
        } else {
            String::from_str("Unknown")
        }
    }

    /// Reads the listing of an image for its operating system: an image
    /// error if the listing failed.
    pub fn detect_os_type(output: &CommandOutput) -> (r: Result<String, WowUsbError>)
        ensures
            if output@.success {
                r matches Ok(os_type) && os_type@ == os_type_of(lowercase(output@.stdout))
            } else {
                r matches Err(e) && e@ == listing_failure(output@)
            },
    {
        match check_output(FailureKind::IsoProcessing, "Failed to list ISO contents: ", output) {
            Ok(_) => {
                let lower = to_lowercase(output.stdout.as_str());
                Ok(Self::os_type_for(lower.as_str()))
            },
            Err(e) => Err(e),
        }
    }

    /// The command that reads the file that tells the version, if the
    /// operating system has one.
    pub fn version_command(iso_path: &str, os_type: &str) -> (r: Option<CommandSpec>)
        ensures
            match version_command(iso_path@, os_type@) {
                Some(expected) => r matches Some(command) && command@ == expected,
                None => r is None,
            },
    {
        let file = if str_eq(os_type, "Windows") {
            "sources/idwbinfo.txt"
        } else if str_eq(os_type, "Ubuntu") {
            ".disk/info"
        } else {
            return None;
        };
        let args = vec!["e", iso_path, file, "-so"];
        assert(str_views(args@) =~= seq!["e"@, iso_path@, file@, "-so"@]);
        Some(CommandSpec::new("7z", &args))
    }

    /// The version that the build information of a Windows image tells.
    pub fn extract_windows_version(output: &CommandOutput) -> (r: Option<String>)
        ensures
            opt_view(r) == windows_version(output@),
    {
        if !output.success {
            return None;
        }
        let text = to_chars(output.stdout.as_str());
        let content = split_lines(&text);
        let version = to_chars("Version");
        let build = to_chars("Build");
        let mut i: usize = 0;
        while i < content.len()
            invariant
                i <= content.len(),
                output@.success,
                version@ == "Version"@,
                build@ == "Build"@,
                views(content@) == lines(output@.stdout),
                version_line(views(content@), 0) == version_line(views(content@), i as int),
            decreases content.len() - i,
        {
            assert(views(content@)[i as int] == content@[i as int]@);
            if chars_contain(&content[i], &version) || chars_contain(&content[i], &build) {
                let line = trim_chars(&content[i]);
                return Some(from_chars(&line));
            }
            i += 1;
        }
        None
    }

    /// The version that the disk information of an Ubuntu image tells.
    pub fn extract_ubuntu_version(output: &CommandOutput) -> (r: Option<String>)
        ensures
            opt_view(r) == ubuntu_version(output@),
    {
        if output.success {
            Some(str_trim(output.stdout.as_str()))
        } else {
            None
        }
    }

    /// The version of an image for `os_type`, given what the command that
    /// reads its version file reported.
    pub fn extract_version(os_type: &str, output: &CommandOutput) -> (r: Option<String>)
        ensures
            opt_view(r) == version_of(os_type@, output@),
    {
        if str_eq(os_type, "Windows") {
            Self::extract_windows_version(output)
        } else if str_eq(os_type, "Ubuntu") {
            Self::extract_ubuntu_version(output)
        } else {
            None
        }
    }

    /// The architecture that a listing in lower case tells of.
    pub fn architecture_for(lower: &str) -> (r: Option<String>)
        ensures
            opt_view(r) == architecture_of(lower@),
    {
        let text = to_chars(lower);
        if Self::has(&text, "x64") || Self::has(&text, "amd64") {
            Some(String::from_str("x86_64"))
        } else if Self::has(&text, "x86") || Self::has(&text, "i386") {
            Some(String::from_str("i386"))
        } else if Self::has(&text, "arm64") || Self::has(&text, "aarch64") {
            Some(String::from_str("aarch64"))
        } else if Self::has(&text, "arm") {
            Some(String::from_str("ARM"))
        } else {
            None
        }
    }

    /// Reads the listing of an image for its architecture; a listing that
    /// failed tells none.
    pub fn detect_architecture(output: &CommandOutput) -> (r: Option<String>)
        ensures
            opt_view(r) == if output@.success {
                architecture_of(lowercase(output@.stdout))
            } else {
                None
            },
    {
        if output.success {
            let lower = to_lowercase(output.stdout.as_str());
            Self::architecture_for(lower.as_str())
        } else {
            None
        }
    }

    /// How an image boots, by its listing in lower case: by UEFI, and in
    /// the legacy way.
    pub fn boot_support_for(lower: &str) -> (r: (bool, bool))
        ensures
            r.0 == uefi_in(lower@),
            r.1 == legacy_in(lower@),
    {
        let text = to_chars(lower);
        let boot = Self::has(&text, "boot");
        let uefi = Self::has(&text, "efi") || boot || Self::has(&text, "efi/boot");
        let legacy = boot || Self::has(&text, "syslinux") || Self::has(&text, "grub");
        (uefi, legacy)
    }

    /// Reads the listing of an image for how it boots; a listing that
    /// failed tells of no way.
    pub fn check_boot_support(output: &CommandOutput) -> (r: (bool, bool))
        ensures
            r.0 == (output@.success && uefi_in(lowercase(output@.stdout))),
            r.1 == (output@.success && legacy_in(lowercase(output@.stdout))),
    {
        if output.success {
            let lower = to_lowercase(output.stdout.as_str());
            Self::boot_support_for(lower.as_str())
        } else {
            (false, false)
        }
    }

    /// Reads the listing of an image for the sizes of its files, as they
    /// are written: an image error if the listing failed.
    pub fn size_fields(output: &CommandOutput) -> (r: Result<Vec<String>, WowUsbError>)
        ensures
            if output@.success {
                r matches Ok(texts) && string_views(texts@) == size_fields(output@.stdout)
            } else {
                r matches Err(e) && e@ == listing_failure(output@)
            },
    {
        match check_output(FailureKind::IsoProcessing, "Failed to list ISO contents: ", output) {
            Ok(_) => {},
            Err(e) => {
                return Err(e);
            },
        }
        let text = to_chars(output.stdout.as_str());
        let listing = split_lines(&text);
        let mut texts: Vec<String> = Vec::new();
        let mut i: usize = 0;
        assert(string_views(texts@) =~= Seq::<Seq<char>>::empty());
        while i < listing.len()
            invariant
                i <= listing.len(),
                string_views(texts@) == size_fields_among(views(listing@), i as int),
            decreases listing.len() - i,
        {
            let line = &listing[i];
            assert(views(listing@)[i as int] == line@);
            let (a, b) = crate::text::trim_range(line);
            if a < b && !(line.len() > 0 && line[0] == '-') {
                let words = split_fields(line);
                if words.len() >= 4 {
                    assert(views(words@)[3] == words@[3]@);
                    let ghost before = string_views(texts@);
                    texts.push(from_chars(&words[3]));
                    assert(string_views(texts@) =~= before.push(words@[3]@));
                }
            }
            i += 1;
        }
        Ok(texts)
    }

    fn scan_sizes(&self, texts: &Vec<String>, reports: &Vec<Report>, first: usize) -> (scan: Scan)
        requires
            first <= reports.len(),
        ensures
            scan@ == scan_sizes(string_views(texts@), 0, report_views(reports@), first as int),
    {
        let mut at: usize = first;
        let mut i: usize = 0;
        while i < texts.len()
            invariant
                i <= texts.len(),
                at <= reports.len(),
                scan_sizes(string_views(texts@), 0, report_views(reports@), first as int)
                    == scan_sizes(string_views(texts@), i as int, report_views(reports@), at as int),
            decreases texts.len() - i,
        {
            assert(string_views(texts@)[i as int] == texts@[i as int]@);
            match self.parse_size_string(texts[i].as_str()) {
                SizeText::Bytes(bytes) => {
                    if bytes > FOUR_GB {
                        return Scan::Known { large: true };
                    }
                },
                SizeText::Invalid(_) => {},
                SizeText::Scaled { number, unit } => {
                    if at >= reports.len() {
                        return Scan::Scaling { number, unit };
                    }
                    assert(report_views(reports@)[at as int] == reports@[at as int]@);
                    match &reports[at] {
                        Report::Size(Ok(bytes)) => {
                            if *bytes > FOUR_GB {
                                return Scan::Known { large: true };
                            }
                        },
                        Report::Size(Err(_)) => {},
                        _ => {
                            return Scan::Failed(
                                WowUsbError::configuration("Unexpected report for the current step"),
                            );
                        },
                    }
                    at += 1;
                },
            }
            i += 1;
        }
        Scan::Known { large: false }
    }

    fn check_for_large_files(&self, listing: &CommandOutput, reports: &Vec<Report>, at: usize) -> (scan:
        Scan)
        requires
            listing@.success,
            at <= reports.len(),
        ensures
            scan@ == scan_sizes(
                size_fields(listing@.stdout),
                0,
                report_views(reports@),
                at as int,
            ),
    {
        match Self::size_fields(listing) {
            Ok(texts) => self.scan_sizes(&texts, reports, at),
            Err(error) => Scan::Failed(error),
        }
    }

    fn analysis_after_version(
        &self,
        iso_path: &str,
        size: u64,
        listing: &CommandOutput,
        version: Option<String>,
        reports: &Vec<Report>,
        at: usize,
    ) -> (step: AnalysisStep)
        requires
            listing@.success,
            at <= reports.len(),
        ensures
            step@ == analysis_after_version(
                iso_path@,
                size,
                listing@.stdout,
                opt_view(version),
                report_views(reports@),
                at as int,
            ),
    {
        match self.check_for_large_files(listing, reports, at) {
            Scan::Scaling { number, unit } => AnalysisStep::Scale { number, unit },
            Scan::Failed(error) => AnalysisStep::Done(Err(error)),
            Scan::Known { large } => {
                let os_type = match Self::detect_os_type(listing) {
                    Ok(os_type) => os_type,
                    Err(error) => {
                        return AnalysisStep::Done(Err(error));
                    },
                };
                let architecture = Self::detect_architecture(listing);
                let (uefi, legacy) = Self::check_boot_support(listing);
                AnalysisStep::Done(
                    Ok(
                        IsoInfo::assemble(
                            iso_path,
                            size,
                            os_type,
                            version,
                            architecture,
                            large,
                            uefi,
                            legacy,
                        ),
                    ),
                )
            },
        }
    }

    fn analysis_after_listing(
        &self,
        iso_path: &str,
        size: u64,
        listing: &CommandOutput,
        reports: &Vec<Report>,
    ) -> (step: AnalysisStep)
        requires
            listing@.success,
            reports.len() >= 3,
        ensures
            step@ == analysis_after_listing(
                iso_path@,
                size,
                listing@.stdout,
                report_views(reports@),
            ),
    {
        let os_type = match Self::detect_os_type(listing) {
            Ok(os_type) => os_type,
            Err(error) => {
                return AnalysisStep::Done(Err(error));
            },
        };
        match Self::version_command(iso_path, os_type.as_str()) {
            None => self.analysis_after_version(iso_path, size, listing, None, reports, 3),
            Some(command) => {
                if reports.len() <= 3 {
                    return AnalysisStep::Ask(Request::Run { command, read_output: true });
                }
                assert(report_views(reports@)[3] == reports@[3]@);
                match command_output(&reports[3]) {
                    Ok(output) => {
                        let version = Self::extract_version(os_type.as_str(), output);
                        self.analysis_after_version(iso_path, size, listing, version, reports, 4)
                    },
                    Err(error) => AnalysisStep::Done(Err(error)),
                }
            },
        }
    }

    /// What the analysis of the image at `iso_path` asks for next, given
    /// the reports so far, or what it found.
    pub fn analyze_iso(&self, iso_path: &str, reports: &Vec<Report>) -> (step: AnalysisStep)
        ensures
            step@ == analysis(iso_path@, report_views(reports@)),
    {
        if reports.len() == 0 {
            return AnalysisStep::Ask(Request::PathExists { path: String::from_str(iso_path) });
        }
        assert(report_views(reports@)[0] == reports@[0]@);
        match &reports[0] {
            Report::Exists(exists) => {
                if !*exists {
                    return AnalysisStep::Done(
                        Err(WowUsbError::validation("ISO file does not exist")),
                    );
                }
            },
            _ => {
                return AnalysisStep::Done(
                    Err(WowUsbError::configuration("Unexpected report for the current step")),
                );
            },
        }
        if reports.len() == 1 {
            return AnalysisStep::Ask(Request::FileSize { path: String::from_str(iso_path) });
        }
        assert(report_views(reports@)[1] == reports@[1]@);
        let size = match size_outcome(&reports[1]) {
            Ok(size) => size,
            Err(error) => {
                return AnalysisStep::Done(Err(error));
            },
        };
        if reports.len() == 2 {
            return AnalysisStep::Ask(
                Request::Run { command: Self::list_command(iso_path), read_output: true },
            );
        }
        assert(report_views(reports@)[2] == reports@[2]@);
        let listing = match command_output(&reports[2]) {
            Ok(listing) => listing,
            Err(error) => {
                return AnalysisStep::Done(Err(error));
            },
        };
        if listing.success {
            self.analysis_after_listing(iso_path, size, listing, reports)
        } else {
            match Self::detect_os_type(listing) {
                Ok(_) => AnalysisStep::Done(
                    Err(WowUsbError::configuration("Unexpected report for the current step")),
                ),
                Err(error) => AnalysisStep::Done(Err(error)),
            }
        }
    }

    /// What a size in upper case, without whitespace around it, says.
    pub fn classify_size(upper: &str) -> (r: SizeText)
        ensures
            r@ == classify_size(upper@),
    {
        let text = to_chars(upper);
        let n = text.len();
        proof {
            lemma_ends_with_char(text@, 'G');
            lemma_ends_with_char(text@, 'M');
            lemma_ends_with_char(text@, 'K');
        }
        if n > 0 && (text[n - 1] == 'G' || text[n - 1] == 'M' || text[n - 1] == 'K') {
            let unit = if text[n - 1] == 'G' {
                SizeUnit::Gigabytes
            } else if text[n - 1] == 'M' {
                SizeUnit::Megabytes
            } else {
                SizeUnit::Kilobytes
            };
            assert(text@.subrange(0, n - 1) =~= text@.drop_last());
            let number = crate::text::string_of(&text, 0, n - 1);
            SizeText::Scaled { number, unit }
        } else {
            match parse_bounded(&text, u64::MAX) {
                Some(bytes) => SizeText::Bytes(bytes),
                None => {
                    let message = concat2("Invalid size format: ", upper);
                    SizeText::Invalid(WowUsbError::validation(message.as_str()))
                },
            }
        }
    }

    /// What the text of a size says, whatever its case and the whitespace
    /// around it.
    pub fn parse_size_string(&self, size_str: &str) -> (r: SizeText)
        ensures
            r@ == classify_size(uppercase(trim(size_str@))),
    {
        let trimmed = str_trim(size_str);
        let upper = to_uppercase(trimmed.as_str());
        Self::classify_size(upper.as_str())
    }

    /// Whether an image for `os_type` can be written for a target operating
    /// system whose name in lower case is `lower_target`.
    pub fn fits_target(os_type: &str, lower_target: &str) -> (r: bool)
        ensures
            r == fits_target(os_type@, lower_target@),
    {
        let to_linux = str_eq(lower_target, "linux");
        if str_eq(os_type, "Windows") {
            to_linux || str_eq(lower_target, "windows")
        } else if str_eq(os_type, "Ubuntu") || str_eq(os_type, "Debian") || str_eq(
            os_type,
            "Fedora",
        ) || str_eq(os_type, "Arch Linux") || str_eq(os_type, "Linux") {
            to_linux
        } else {
            false
        }
    }

    /// Whether the image can be written for the target operating system.
    pub fn validate_iso_for_target(&self, iso_info: &IsoInfo, target_os: &str) -> (r: Result<
        bool,
        WowUsbError,
    >)
        ensures
            r matches Ok(fits) && fits == fits_target(iso_info@.os_type, lowercase(target_os@)),
    {
        let lower = to_lowercase(target_os);
        Ok(Self::fits_target(iso_info.os_type.as_str(), lower.as_str()))
    }

    /// The filesystem that is recommended for the image: FAT32 unless it
    /// holds large files, else NTFS for Windows and F2FS for the others.
    pub fn get_recommended_filesystem(&self, iso_info: &IsoInfo) -> (r: Result<String, WowUsbError>)
        ensures
            r matches Ok(name) && name@ == recommended_filesystem(
                iso_info@.os_type,
                iso_info@.has_large_files,
            ),
    {
        if !iso_info.has_large_files {
            Ok(String::from_str("FAT32"))
        } else if str_eq(iso_info.os_type.as_str(), "Windows") {
            Ok(String::from_str("NTFS"))
        } else {
            Ok(String::from_str("F2FS"))
        }
    }
}

/// The search for a large file asks for one size at most for each size
/// that is left.
pub proof fn lemma_scan_ends(
    texts: Seq<Seq<char>>,
    index: int,
    reports: Seq<ReportView>,
    at: int,
)
    requires
        0 <= index,
        0 <= at,
        reports.len() - at >= texts.len() - index,
    ensures
        !(scan_sizes(texts, index, reports, at) is Scaling),
    decreases texts.len() - index,
{
    if index < texts.len() {
        lemma_scan_ends(texts, index + 1, reports, at);
        lemma_scan_ends(texts, index + 1, reports, at + 1);
    }
}

/// Every analysis comes to its end: four reports and one for each size in
/// the listing are enough.
pub proof fn lemma_analysis_ends(iso_path: Seq<char>, reports: Seq<ReportView>)
    requires
        reports.len() >= 4,
        output_of(reports[2]) matches Ok(listing) ==> reports.len() >= 4 + size_fields(
            listing.stdout,
        ).len(),
    ensures
        analysis(iso_path, reports) is Done,
{
    if output_of(reports[2]) is Ok {
        let stdout = output_of(reports[2])->Ok_0.stdout;
        lemma_scan_ends(size_fields(stdout), 0, reports, 3);
        lemma_scan_ends(size_fields(stdout), 0, reports, 4);
    }
}

} // verus!
