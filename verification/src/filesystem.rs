//! The catalogue of filesystems: which of them a platform can make, what
//! each can hold, and which fits an image best.

use crate::error::{ErrorView, WowUsbError};
use crate::text::{copy_list, lowercase, owned_list, str_views, string_views};
use vstd::hash_map::StringHashMap;
use vstd::prelude::*;

pub mod linux;
pub mod macos;
pub mod size;
pub mod windows;

verus! {

/// Bytes in a tebibyte.
pub const TIB: u64 = 1099511627776;

/// Bytes in a gibibyte.
pub const GIB: u64 = 1073741824;

/// What the catalogue knows of one filesystem.
#[derive(Debug, Clone, PartialEq, Eq)]
pub struct FilesystemInfo {
    pub name: String,
    pub supports_large_files: bool,
    pub max_file_size: u64,
    pub max_volume_size: u64,
    pub recommended_for: Vec<String>,
    pub pros: Vec<String>,
    pub cons: Vec<String>,
}

pub struct InfoView {
    pub name: Seq<char>,
    pub supports_large_files: bool,
    pub max_file_size: u64,
    pub max_volume_size: u64,
    pub recommended_for: Seq<Seq<char>>,
    pub pros: Seq<Seq<char>>,
    pub cons: Seq<Seq<char>>,
}

impl View for FilesystemInfo {
    type V = InfoView;

    open spec fn view(&self) -> InfoView {
        InfoView {
            name: self.name@,
            supports_large_files: self.supports_large_files,
            max_file_size: self.max_file_size,
            max_volume_size: self.max_volume_size,
            recommended_for: string_views(self.recommended_for@),
            pros: string_views(self.pros@),
            cons: string_views(self.cons@),
        }
    }
}

impl FilesystemInfo {
    /// The entry with the given contents.
    pub fn describe(
        name: &str,
        supports_large_files: bool,
        max_file_size: u64,
        max_volume_size: u64,
        recommended_for: &Vec<&str>,
        pros: &Vec<&str>,
        cons: &Vec<&str>,
    ) -> (info: Self)
        ensures
            info@ == (InfoView {
                name: name@,
                supports_large_files,
                max_file_size,
                max_volume_size,
                recommended_for: str_views(recommended_for@),
                pros: str_views(pros@),
                cons: str_views(cons@),
            }),
    {
        FilesystemInfo {
            name: String::from_str(name),
            supports_large_files,
            max_file_size,
            max_volume_size,
            recommended_for: owned_list(recommended_for),
            pros: owned_list(pros),
            cons: owned_list(cons),
        }
    }

    /// An entry with the same contents.
    pub fn duplicate(&self) -> (info: Self)
        ensures
            info@ == self@,
    {
        FilesystemInfo {
            name: self.name.clone(),
            supports_large_files: self.supports_large_files,
            max_file_size: self.max_file_size,
            max_volume_size: self.max_volume_size,
            recommended_for: copy_list(&self.recommended_for),
            pros: copy_list(&self.pros),
            cons: copy_list(&self.cons),
        }
    }
}

/// The error for a filesystem that the catalogue does not hold.
pub open spec fn unknown_filesystem(fs_type: Seq<char>) -> ErrorView {
    ErrorView::Filesystem("Unknown filesystem: "@ + fs_type)
}

/// The catalogue of one platform. Names are matched in lower case.
pub trait PlatformFilesystemOps: Send + Sync {
    /// The filesystems that the platform offers, as they are shown.
    spec fn listing(&self) -> Seq<Seq<char>>;

    /// Whether the platform can make the filesystem of this lower-case name.
    spec fn supports(&self, lower: Seq<char>) -> bool;

    /// The entry for the filesystem of this lower-case name, if there is one.
    spec fn info_for(&self, lower: Seq<char>) -> Option<InfoView>;

    /// The filesystem that fits best an image for the operating system of
    /// this lower-case name.
    spec fn optimal(&self, has_large_files: bool, lower_os: Seq<char>) -> Seq<char>;

    fn get_available_filesystems(&self) -> (r: Result<Vec<String>, WowUsbError>)
        ensures
            r matches Ok(names) && string_views(names@) == self.listing(),
    ;

    fn check_filesystem_support(&self, fs_type: &str) -> (r: Result<bool, WowUsbError>)
        ensures
            r matches Ok(supported) && supported == self.supports(lowercase(fs_type@)),
    ;

    fn get_filesystem_info(&self, fs_type: &str) -> (r: Result<FilesystemInfo, WowUsbError>)
        ensures
            match self.info_for(lowercase(fs_type@)) {
                Some(entry) => r matches Ok(info) && info@ == entry,
                None => r matches Err(e) && e@ == unknown_filesystem(fs_type@),
            },
    ;

    fn get_optimal_filesystem(&self, has_large_files: bool, target_os: &str) -> (r: Result<
        String,
        WowUsbError,
    >)
        ensures
            r matches Ok(name) && name@ == self.optimal(has_large_files, lowercase(target_os@)),
    ;
}

/// The entry that `entry` stands for, or the error for an unknown
/// filesystem.
pub fn entry_or_unknown(entry: Option<FilesystemInfo>, fs_type: &str) -> (r: Result<
    FilesystemInfo,
    WowUsbError,
>)
    ensures
        match entry {
            Some(found) => r matches Ok(info) && info@ == found@,
            None => r matches Err(e) && e@ == unknown_filesystem(fs_type@),
        },
{
    match entry {
        Some(info) => Ok(info),
        None => {
            let message = String::from_str("Unknown filesystem: ").concat(fs_type);
            Err(WowUsbError::filesystem(message.as_str()))
        },
    }
}

/// The catalogue of a platform, with the entries it has been asked for
/// remembered under the names by which they were asked for.
pub struct FilesystemManager<O: PlatformFilesystemOps> {
    ops: O,
    filesystem_cache: StringHashMap<FilesystemInfo>,
}

impl<O: PlatformFilesystemOps> FilesystemManager<O> {
    pub closed spec fn ops(&self) -> O {
        self.ops
    }

    /// The answers that are remembered, each under the name by which it
    /// was asked for.
    pub closed spec fn cached(&self) -> Map<Seq<char>, InfoView> {
        Map::new(
            |name: Seq<char>| self.filesystem_cache@.contains_key(name),
            |name: Seq<char>| self.filesystem_cache@[name]@,
        )
    }

    /// Every remembered answer is the answer that the platform gives.
    pub closed spec fn wf(&self) -> bool {
        forall|name: Seq<char>| #[trigger]
            self.cached().contains_key(name) ==> self.ops.info_for(lowercase(name)) == Some(
                self.cached()[name],
            )
    }

    pub fn new(ops: O) -> (manager: Self)
        ensures
            manager.wf(),
            manager.ops() == ops,
            manager.cached() == Map::<Seq<char>, InfoView>::empty(),
    {
        let manager = FilesystemManager { ops, filesystem_cache: StringHashMap::new() };
        assert(manager.cached() =~= Map::<Seq<char>, InfoView>::empty());
        manager
    }

    pub fn get_available_filesystems(&self) -> (r: Result<Vec<String>, WowUsbError>)
        ensures
            r matches Ok(names) && string_views(names@) == self.ops().listing(),
    {
        self.ops.get_available_filesystems()
    }

    pub fn check_filesystem_support(&self, fs_type: &str) -> (r: Result<bool, WowUsbError>)
        ensures
            r matches Ok(supported) && supported == self.ops().supports(lowercase(fs_type@)),
    {
        self.ops.check_filesystem_support(fs_type)
    }

    /// The entry for `fs_type`. An answer that was given before is given
    /// again from memory; a new answer is remembered. Either way it is the
    /// answer of the platform.
    pub fn get_filesystem_info(&mut self, fs_type: &str) -> (r: Result<FilesystemInfo, WowUsbError>)
        requires
            old(self).wf(),
        ensures
            final(self).wf(),
            final(self).ops() == old(self).ops(),
            match old(self).ops().info_for(lowercase(fs_type@)) {
                Some(entry) => r matches Ok(info) && info@ == entry,
                None => r matches Err(e) && e@ == unknown_filesystem(fs_type@),
            },
            final(self).cached() == match r {
                Ok(info) => old(self).cached().insert(fs_type@, info@),
                Err(_) => old(self).cached(),
            },
    {
        let ghost before = self.cached();
        match self.filesystem_cache.get(fs_type) {
            Some(info) => {
                assert(before.contains_key(fs_type@));
                assert(before.insert(fs_type@, info@) =~= before);
                return Ok(info.duplicate());
            },
            None => {},
        }
        match self.ops.get_filesystem_info(fs_type) {
            Ok(info) => {
                self.filesystem_cache.insert(String::from_str(fs_type), info.duplicate());
                assert(self.cached() =~= before.insert(fs_type@, info@));
                Ok(info)
            },
            Err(e) => Err(e),
        }
    }

    pub fn get_optimal_filesystem(&self, has_large_files: bool, target_os: &str) -> (r: Result<
        String,
        WowUsbError,
    >)
        ensures
            r matches Ok(name) && name@ == self.ops().optimal(
                has_large_files,
                lowercase(target_os@),
            ),
    {
        self.ops.get_optimal_filesystem(has_large_files, target_os)
    }

    /// A size as it is shown to the user: in bytes below 1024, else in the
    /// largest unit up to terabytes that leaves at least one, with one
    /// decimal.
    pub fn format_size_bytes(&self, bytes: u64) -> (text: String)
        ensures
            text@ == size::size_text(bytes),
    {
        size::format_size(bytes)
    }
}

} // verus!
