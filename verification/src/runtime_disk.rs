//! The content-addressed ext4 disk that carries the VM guest runtime: what its
//! cache entry looks like and when an entry may be reused.
use vstd::prelude::*;
use vstd::string::*;
use vstd::utf8::*;

use crate::digest::{hex_text, is_digest_text, is_sha256_digest, lower_hex, sha256, sha256_of};
use crate::path::{path_join, shown, HostPath};

verus! {

/// Block size of a runtime disk.
pub const BLOCK_SIZE: u32 = 4096;

/// Exact size of a runtime disk.
pub const DISK_BYTES: u64 = 134217728;

/// Where the runtime binary stands inside the disk.
pub const GUEST_PATH: &'static str = "/nanocodex-vm-guest";

/// Version of the cache record that this library reads and writes.
pub const RECORD_VERSION: u32 = 1;

/// Marks the identity of a cache record apart from any other hash.
pub const RECORD_IDENTITY: &'static str = "nanocodex-vm-runtime-record-v1\0";

/// Permission bits of the runtime binary inside the disk.
pub const GUEST_PERMISSIONS: u16 = 0o755;

/// File-type bits of a regular file.
pub const REGULAR_FILE: u16 = 0x8000;

/// Whether preparing a guest runtime disk reused or created its cache entry.
#[derive(Clone, Copy, Debug, PartialEq, Eq, Structural)]
pub enum GuestRuntimeDiskStatus {
    /// A validated content-addressed disk already existed.
    Hit,
    /// This call formatted and atomically published the disk.
    Created,
}

impl GuestRuntimeDiskStatus {
    /// The spelling of this status in telemetry.
    pub fn as_str(self) -> (text: &'static str)
        ensures
            text@ == match self {
                GuestRuntimeDiskStatus::Hit => "hit"@,
                GuestRuntimeDiskStatus::Created => "created"@,
            },
    {
        match self {
            GuestRuntimeDiskStatus::Hit => "hit",
            GuestRuntimeDiskStatus::Created => "created",
        }
    }
}

/// A content-addressed ext4 disk containing the VM guest runtime.
///
/// The disk remains in the caller-selected cache after this value is dropped,
/// so it can be mounted read-only by many VM attempts.
#[derive(Clone, Debug, PartialEq, Eq)]
pub struct GuestRuntimeDisk {
    path: HostPath,
    digest: String,
    status: GuestRuntimeDiskStatus,
}

/// What a [`GuestRuntimeDisk`] says.
pub struct DiskView {
    pub path: Seq<u8>,
    pub digest: Seq<char>,
    pub status: GuestRuntimeDiskStatus,
}

impl View for GuestRuntimeDisk {
    type V = DiskView;

    closed spec fn view(&self) -> DiskView {
        DiskView { path: self.path@, digest: self.digest@, status: self.status }
    }
}

impl GuestRuntimeDisk {
    pub(crate) fn new(path: HostPath, digest: String, status: GuestRuntimeDiskStatus) -> (disk: Self)
        ensures
            disk@ == (DiskView { path: path@, digest: digest@, status }),
    {
        GuestRuntimeDisk { path, digest, status }
    }

    /// The prepared ext4 disk path.
    pub fn path(&self) -> (path: &HostPath)
        ensures
            path@ == self@.path,
    {
        &self.path
    }

    /// The lowercase SHA-256 cache identity.
    pub fn digest(&self) -> (digest: &str)
        ensures
            digest@ == self@.digest,
    {
        self.digest.as_str()
    }

    /// Whether the disk was reused or created.
    pub fn status(&self) -> (status: GuestRuntimeDiskStatus)
        ensures
            status == self@.status,
    {
        self.status
    }
}

/// Why the host could not supply what was asked of it.
#[derive(Debug)]
pub enum Fault<S> {
    /// The host operation failed.
    Host(S),
    /// The runtime binary is not a regular file.
    NotAFile,
    /// A modification time does not fit the record format.
    ModifiedOutOfRange,
}

impl<S> Fault<S> {
    /// Describes the fault, unless it is the host's, which describes itself.
    pub fn reason(&self) -> (reason: Option<&'static str>)
        ensures
            match (*self, reason) {
                (Fault::Host(_), None) => true,
                (Fault::NotAFile, Some(text)) => text@ == "runtime binary is not a file"@,
                (Fault::ModifiedOutOfRange, Some(text)) => text@
                    == "out of range integral type conversion attempted"@,
                _ => false,
            },
    {
        match self {
            Fault::Host(_) => None,
            Fault::NotAFile => Some("runtime binary is not a file"),
            Fault::ModifiedOutOfRange => Some("out of range integral type conversion attempted"),
        }
    }
}

/// Failure while preparing a content-addressed VM guest runtime disk. `S` is
/// the host's own error.
#[derive(Debug)]
#[allow(inconsistent_fields)]
pub enum GuestRuntimeDiskError<S, P = HostPath> {
    /// The guest runtime binary could not be read.
    ReadBinary {
        /// Binary path supplied by the caller.
        path: P,
        /// What went wrong.
        source: Fault<S>,
    },
    /// The runtime binary changed while it was being indexed.
    BinaryChanged(P),
    /// The supplied runtime is not a Linux ELF executable.
    NotElf(P),
    /// A cache directory, lock, temporary file, or publication failed.
    Cache {
        /// Cache path being accessed.
        path: P,
        /// What went wrong.
        source: Fault<S>,
    },
    /// Formatting the ext4 disk failed.
    Format(S),
    /// A newly formatted ext4 disk did not contain the expected runtime.
    InvalidPreparedDisk {
        /// Temporary disk path that failed validation.
        path: P,
        /// Underlying ext4 read error, when one was available.
        source: Option<S>,
    },
}

impl<S> View for GuestRuntimeDiskError<S> {
    type V = GuestRuntimeDiskError<S, Seq<u8>>;

    open spec fn view(&self) -> GuestRuntimeDiskError<S, Seq<u8>> {
        match *self {
            GuestRuntimeDiskError::ReadBinary { path, source } => GuestRuntimeDiskError::ReadBinary {
                path: path@,
                source,
            },
            GuestRuntimeDiskError::BinaryChanged(path) => GuestRuntimeDiskError::BinaryChanged(path@),
            GuestRuntimeDiskError::NotElf(path) => GuestRuntimeDiskError::NotElf(path@),
            GuestRuntimeDiskError::Cache { path, source } => GuestRuntimeDiskError::Cache {
                path: path@,
                source,
            },
            GuestRuntimeDiskError::Format(source) => GuestRuntimeDiskError::Format(source),
            GuestRuntimeDiskError::InvalidPreparedDisk { path, source } =>
                GuestRuntimeDiskError::InvalidPreparedDisk { path: path@, source },
        }
    }
}

/// The description of an error.
pub open spec fn disk_error_text<S>(error: GuestRuntimeDiskError<S, Seq<u8>>) -> Seq<char> {
    match error {
        GuestRuntimeDiskError::ReadBinary { path, source } =>
            "failed to read VM guest runtime binary "@ + shown(path),
        GuestRuntimeDiskError::BinaryChanged(path) => "VM guest runtime binary "@ + shown(path)
            + " changed while it was being indexed"@,
        GuestRuntimeDiskError::NotElf(path) => "VM guest runtime "@ + shown(path)
            + " is not an ELF executable"@,
        GuestRuntimeDiskError::Cache { path, source } =>
            "failed to access VM guest runtime cache at "@ + shown(path),
        GuestRuntimeDiskError::Format(source) => "failed to format VM guest runtime disk"@,
        GuestRuntimeDiskError::InvalidPreparedDisk { path, source } =>
            "prepared VM guest runtime disk "@ + shown(path) + " failed validation"@,
    }
}

impl<S> GuestRuntimeDiskError<S> {
    /// Describes the error. What lies beneath it is described by its source.
    pub fn message(&self) -> (text: String)
        ensures
            text@ == disk_error_text(self@),
    {
        match self {
            GuestRuntimeDiskError::ReadBinary { path, .. } => String::from_str(
                "failed to read VM guest runtime binary ",
            ).concat(path.display().as_str()),
            GuestRuntimeDiskError::BinaryChanged(path) => String::from_str(
                "VM guest runtime binary ",
            ).concat(path.display().as_str()).concat(" changed while it was being indexed"),
            GuestRuntimeDiskError::NotElf(path) => String::from_str("VM guest runtime ").concat(
                path.display().as_str(),
            ).concat(" is not an ELF executable"),
            GuestRuntimeDiskError::Cache { path, .. } => String::from_str(
                "failed to access VM guest runtime cache at ",
            ).concat(path.display().as_str()),
            GuestRuntimeDiskError::Format(_) => String::from_str(
                "failed to format VM guest runtime disk",
            ),
            GuestRuntimeDiskError::InvalidPreparedDisk { path, .. } => String::from_str(
                "prepared VM guest runtime disk ",
            ).concat(path.display().as_str()).concat(" failed validation"),
        }
    }
}

/// What the host reports of a file: its modification time is nanoseconds since
/// the Unix epoch, or the host's error when there is none.
#[derive(Debug)]
pub struct FileFacts<S> {
    pub is_file: bool,
    pub bytes: u64,
    pub modified: Result<u128, S>,
}

/// Size and modification time of a file, as a cache record keeps them.
#[derive(Clone, Copy, Debug, PartialEq, Eq, Structural)]
pub struct FileSnapshot {
    pub bytes: u64,
    pub modified_unix_ns: u64,
}

/// The snapshot of a file with the given facts.
pub open spec fn snapshot_of<S>(facts: FileFacts<S>) -> Result<FileSnapshot, Fault<S>> {
    match facts.modified {
        Err(error) => Err(Fault::Host(error)),
        Ok(modified) => if modified <= u64::MAX {
            Ok(FileSnapshot { bytes: facts.bytes, modified_unix_ns: modified as u64 })
        } else {
            Err(Fault::ModifiedOutOfRange)
        },
    }
}

impl FileSnapshot {
    /// Takes the snapshot of a file.
    pub fn from_metadata<S>(facts: FileFacts<S>) -> (snapshot: Result<FileSnapshot, Fault<S>>)
        ensures
            snapshot == snapshot_of(facts),
    {
        match facts.modified {
            Err(error) => Err(Fault::Host(error)),
            Ok(modified) => if modified <= u64::MAX as u128 {
                Ok(FileSnapshot { bytes: facts.bytes, modified_unix_ns: modified as u64 })
            } else {
                Err(Fault::ModifiedOutOfRange)
            },
        }
    }
}

/// The snapshot of a runtime binary, which must be a regular file. An error names
/// the binary by `path`.
pub open spec fn binary_snapshot_of<S>(
    path: Seq<u8>,
    facts: Result<FileFacts<S>, S>,
) -> Result<FileSnapshot, GuestRuntimeDiskError<S, Seq<u8>>> {
    let snapshot = match facts {
        Err(error) => Err(Fault::Host(error)),
        Ok(facts) => if facts.is_file {
            snapshot_of(facts)
        } else {
            Err(Fault::NotAFile)
        },
    };
    match snapshot {
        Ok(snapshot) => Ok(snapshot),
        Err(source) => Err(GuestRuntimeDiskError::ReadBinary { path, source }),
    }
}

/// Takes the snapshot of the runtime binary that the caller supplied as `path`.
pub fn binary_snapshot<S>(path: &HostPath, facts: Result<FileFacts<S>, S>) -> (snapshot: Result<
    FileSnapshot,
    GuestRuntimeDiskError<S>,
>)
    ensures
        match snapshot {
            Ok(snapshot) => binary_snapshot_of(path@, facts) == Ok::<
                FileSnapshot,
                GuestRuntimeDiskError<S, Seq<u8>>,
            >(snapshot),
            Err(error) => binary_snapshot_of(path@, facts) == Err::<
                FileSnapshot,
                GuestRuntimeDiskError<S, Seq<u8>>,
            >(error@),
        },
{
    let source = match facts {
        Err(error) => Fault::Host(error),
        Ok(facts) => if facts.is_file {
            match FileSnapshot::from_metadata(facts) {
                Ok(snapshot) => {
                    return Ok(snapshot);
                },
                Err(source) => source,
            }
        } else {
            Fault::NotAFile
        },
    };
    Err(GuestRuntimeDiskError::ReadBinary { path: path.duplicate(), source })
}

/// A cache record: the binary and the disk that were seen to belong together.
#[derive(Clone, Debug)]
pub struct GuestRuntimeRecord<T = String> {
    pub version: u32,
    pub binary_bytes: u64,
    pub binary_modified_unix_ns: u64,
    pub digest: T,
    pub disk_bytes: u64,
    pub disk_modified_unix_ns: u64,
}

impl View for GuestRuntimeRecord {
    type V = GuestRuntimeRecord<Seq<char>>;

    open spec fn view(&self) -> GuestRuntimeRecord<Seq<char>> {
        GuestRuntimeRecord {
            version: self.version,
            binary_bytes: self.binary_bytes,
            binary_modified_unix_ns: self.binary_modified_unix_ns,
            digest: self.digest@,
            disk_bytes: self.disk_bytes,
            disk_modified_unix_ns: self.disk_modified_unix_ns,
        }
    }
}

/// The record of a binary and its disk.
pub open spec fn record_of(
    source: FileSnapshot,
    digest: Seq<char>,
    disk: FileSnapshot,
) -> GuestRuntimeRecord<Seq<char>> {
    GuestRuntimeRecord {
        version: RECORD_VERSION,
        binary_bytes: source.bytes,
        binary_modified_unix_ns: source.modified_unix_ns,
        digest,
        disk_bytes: disk.bytes,
        disk_modified_unix_ns: disk.modified_unix_ns,
    }
}

/// Whether a record speaks of the binary with the given snapshot, in this
/// version, and names a disk of the right size by a well-formed digest.
pub open spec fn record_admits(
    record: GuestRuntimeRecord<Seq<char>>,
    source: FileSnapshot,
) -> bool {
    &&& record.version == RECORD_VERSION
    &&& record.binary_bytes == source.bytes
    &&& record.binary_modified_unix_ns == source.modified_unix_ns
    &&& is_digest_text(record.digest)
    &&& record.disk_bytes == DISK_BYTES
}

/// Whether a disk still has the size and time that the record saw.
pub open spec fn record_keeps(record: GuestRuntimeRecord<Seq<char>>, disk: FileSnapshot) -> bool {
    record.disk_bytes == disk.bytes && record.disk_modified_unix_ns == disk.modified_unix_ns
}

impl GuestRuntimeRecord {
    /// The record to keep of a binary and its disk.
    pub fn new(source: FileSnapshot, digest: &str, disk: FileSnapshot) -> (record: Self)
        ensures
            record@ == record_of(source, digest@, disk),
    {
        GuestRuntimeRecord {
            version: RECORD_VERSION,
            binary_bytes: source.bytes,
            binary_modified_unix_ns: source.modified_unix_ns,
            digest: digest.to_owned(),
            disk_bytes: disk.bytes,
            disk_modified_unix_ns: disk.modified_unix_ns,
        }
    }

    /// Whether this record may answer for a binary with the given snapshot.
    pub fn admits(&self, source: FileSnapshot) -> (admitted: bool)
        ensures
            admitted == record_admits(self@, source),
    {
        self.version == RECORD_VERSION && self.binary_bytes == source.bytes
            && self.binary_modified_unix_ns == source.modified_unix_ns && is_sha256_digest(
            self.digest.as_str(),
        ) && self.disk_bytes == DISK_BYTES
    }

    /// Whether the disk is still the one that this record saw.
    pub fn keeps(&self, disk: FileSnapshot) -> (kept: bool)
        ensures
            kept == record_keeps(self@, disk),
    {
        self.disk_bytes == disk.bytes && self.disk_modified_unix_ns == disk.modified_unix_ns
    }
}

/// Where the cache keeps the disks of one digest.
pub open spec fn disk_directory_path(cache: Seq<u8>, digest: Seq<char>) -> Seq<u8> {
    path_join(path_join(cache, encode_utf8("runtimes"@)), encode_utf8(digest))
}

/// Where the cache keeps the disk with the given digest.
pub open spec fn disk_path(cache: Seq<u8>, digest: Seq<char>) -> Seq<u8> {
    path_join(disk_directory_path(cache, digest), encode_utf8("runtime.ext4"@))
}

/// Where the cache keeps its locks.
pub open spec fn lock_directory_path(cache: Seq<u8>) -> Seq<u8> {
    path_join(path_join(cache, encode_utf8("locks"@)), encode_utf8("runtimes"@))
}

/// The file whose lock serializes callers that prepare the given digest.
pub open spec fn lock_path(cache: Seq<u8>, digest: Seq<char>) -> Seq<u8> {
    path_join(lock_directory_path(cache), encode_utf8(digest + ".lock"@))
}

/// Where the cache keeps its records.
pub open spec fn record_directory_path(cache: Seq<u8>) -> Seq<u8> {
    path_join(cache, encode_utf8("runtime-records"@))
}

/// The name of the record for the binary at the given path.
pub open spec fn record_name(binary: Seq<u8>) -> Seq<char> {
    lower_hex(sha256(encode_utf8(RECORD_IDENTITY@) + binary)) + ".json"@
}

/// Where the cache keeps the record of the binary at the given path.
pub open spec fn record_path(cache: Seq<u8>, binary: Seq<u8>) -> Seq<u8> {
    path_join(record_directory_path(cache), encode_utf8(record_name(binary)))
}

/// The directory of the disk with the given digest.
pub fn runtime_disk_directory(cache: &HostPath, digest: &str) -> (path: HostPath)
    ensures
        path@ == disk_directory_path(cache@, digest@),
{
    cache.join("runtimes").join(digest)
}

/// The disk with the given digest.
pub fn runtime_disk_path(cache: &HostPath, digest: &str) -> (path: HostPath)
    ensures
        path@ == disk_path(cache@, digest@),
{
    runtime_disk_directory(cache, digest).join("runtime.ext4")
}

/// The directory of the cache's locks.
pub fn runtime_lock_directory(cache: &HostPath) -> (path: HostPath)
    ensures
        path@ == lock_directory_path(cache@),
{
    cache.join("locks").join("runtimes")
}

/// The lock file of the given digest.
pub fn runtime_lock_path(cache: &HostPath, digest: &str) -> (path: HostPath)
    ensures
        path@ == lock_path(cache@, digest@),
{
    let mut name = digest.to_owned();
    name.append(".lock");
    runtime_lock_directory(cache).join(name.as_str())
}

/// The directory of the cache's records.
pub fn runtime_record_directory(cache: &HostPath) -> (path: HostPath)
    ensures
        path@ == record_directory_path(cache@),
{
    cache.join("runtime-records")
}

/// The record of the binary at the given path.
pub fn runtime_record_path(cache: &HostPath, binary: &HostPath) -> (path: HostPath)
    ensures
        path@ == record_path(cache@, binary@),
{
    let identity = sha256_of(RECORD_IDENTITY.as_bytes(), binary.as_bytes());
    let mut name = hex_text(identity.as_slice());
    name.append(".json");
    runtime_record_directory(cache).join(name.as_str())
}

/// The four bytes that open every ELF file.
pub open spec fn elf_magic() -> Seq<u8> {
    seq![0x7fu8, 0x45u8, 0x4cu8, 0x46u8]
}

/// Whether a file starts as an ELF file does.
pub open spec fn starts_as_elf(contents: Seq<u8>) -> bool {
    elf_magic().is_prefix_of(contents)
}

/// Whether `bytes` start as an ELF file does.
pub fn is_elf(bytes: &[u8]) -> (elf: bool)
    ensures
        elf == starts_as_elf(bytes@),
{
    let elf = bytes.len() >= 4 && bytes[0] == 0x7f && bytes[1] == 0x45 && bytes[2] == 0x4c
        && bytes[3] == 0x46;
    proof {
        if elf {
            assert(elf_magic() =~= bytes@.subrange(0, 4));
        } else if starts_as_elf(bytes@) {
            assert(bytes@.subrange(0, 4)[0] == elf_magic()[0]);
            assert(bytes@.subrange(0, 4)[1] == elf_magic()[1]);
            assert(bytes@.subrange(0, 4)[2] == elf_magic()[2]);
            assert(bytes@.subrange(0, 4)[3] == elf_magic()[3]);
        }
    }
    elf
}

/// `arcbox_ext4::constants::make_mode` puts file-type bits and permission bits together.
pub assume_specification[ arcbox_ext4::constants::make_mode ](file_type: u16, perm: u16) -> (mode: u16)
    ensures
        mode == file_type | perm,
;

/// `arcbox_ext4::constants::is_reg` tells whether the file-type bits are those of a regular file.
pub assume_specification[ arcbox_ext4::constants::is_reg ](mode: u16) -> (regular: bool)
    ensures
        regular == (mode & 0xF000 == 0x8000),
;

/// The inode mode of the runtime binary inside a disk.
pub fn guest_mode() -> (mode: u16)
    ensures
        mode == 0o100755,
{
    let mode = arcbox_ext4::constants::make_mode(REGULAR_FILE, GUEST_PERMISSIONS);
    assert(0x8000u16 | 0o755u16 == 0o100755u16) by (bit_vector);
    mode
}

/// What a disk says of the runtime binary inside it.
#[derive(Clone, Copy, Debug, PartialEq, Eq, Structural)]
pub struct GuestInode {
    pub mode: u16,
    pub bytes: u64,
}

/// Whether an inode is that of an executable regular file of the given size.
pub open spec fn inode_fits(inode: GuestInode, bytes: nat) -> bool {
    &&& inode.mode & 0xF000 == 0x8000
    &&& inode.bytes == bytes
    &&& inode.mode & 0o777 == 0o755
}

impl GuestInode {
    /// Whether this inode is that of a runtime binary of the given size.
    pub fn fits(self, bytes: usize) -> (fits: bool)
        ensures
            fits == inode_fits(self, bytes as nat),
    {
        arcbox_ext4::constants::is_reg(self.mode) && self.bytes == bytes as u64 && self.mode
            & 0o777 == 0o755
    }
}

/// The mode given to a new runtime binary is the mode that validation accepts.
pub proof fn law_guest_mode_fits(bytes: u64)
    ensures
        inode_fits(GuestInode { mode: 0o100755, bytes }, bytes as nat),
{
    assert(0o100755u16 & 0xF000 == 0x8000) by (bit_vector);
    assert(0o100755u16 & 0o777 == 0o755) by (bit_vector);
}

} // verus!
