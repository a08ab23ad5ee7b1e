//! What the cache of guest runtime disks holds, and where.
use vstd::prelude::*;
use vstd::string::*;
use vstd::utf8::*;

use crate::digest::{hex_value, is_digest_text, law_digest_texts, lower_hex, sha256};
use crate::path::{law_names_are_told_apart, path_join, shown, HostPath};
use crate::runtime_disk::{
    binary_snapshot, disk_directory_path, disk_path, guest_mode, inode_fits, is_elf,
    lock_directory_path, lock_path, record_admits, record_directory_path, record_keeps, record_of,
    record_path, runtime_disk_directory, runtime_disk_path, runtime_lock_directory,
    runtime_lock_path, runtime_record_directory, runtime_record_path, snapshot_of, starts_as_elf,
    Fault, FileFacts, FileSnapshot, GuestInode, GuestRuntimeDisk, GuestRuntimeDiskError,
    GuestRuntimeDiskStatus, GuestRuntimeRecord, BLOCK_SIZE, DISK_BYTES, GUEST_PATH,
};

verus! {

/// A snapshot of a file can be taken exactly when its modification time is known
/// and fits in 64 bits; it holds the file's size and that time, to the nanosecond.
pub proof fn law_snapshots_hold_size_and_time<S>(
    facts: FileFacts<S>,
    snapshot: Result<FileSnapshot, Fault<S>>,
)
    requires
        call_ensures(FileSnapshot::from_metadata::<S>, (facts,), snapshot),
    ensures
        snapshot == snapshot_of(facts),
        snapshot is Ok <==> facts.modified is Ok && facts.modified->Ok_0 <= 0xffff_ffff_ffff_ffff,
        snapshot matches Ok(taken) ==> taken.bytes == facts.bytes && taken.modified_unix_ns as int
            == facts.modified->Ok_0 as int,
        facts.modified matches Err(error) ==> snapshot == Err::<FileSnapshot, Fault<S>>(
            Fault::Host(error),
        ),
        facts.modified matches Ok(modified) && modified > 0xffff_ffff_ffff_ffff ==> snapshot == Err::<
            FileSnapshot,
            Fault<S>,
        >(Fault::ModifiedOutOfRange),
{
}

/// A binary must be a regular file of which a snapshot can be taken; otherwise the
/// error names the path that was supplied, and the host's error where there is one.
pub proof fn law_binaries_are_regular_files<S>(
    path: HostPath,
    facts: Result<FileFacts<S>, S>,
    snapshot: Result<FileSnapshot, GuestRuntimeDiskError<S>>,
)
    requires
        call_ensures(binary_snapshot::<S>, (&path, facts), snapshot),
    ensures
        snapshot is Ok <==> facts is Ok && facts->Ok_0.is_file && facts->Ok_0.modified is Ok
            && facts->Ok_0.modified->Ok_0 <= 0xffff_ffff_ffff_ffff,
        snapshot matches Ok(taken) ==> taken.bytes == facts->Ok_0.bytes && taken.modified_unix_ns
            as int == facts->Ok_0.modified->Ok_0 as int,
        snapshot matches Err(error) ==> (error matches GuestRuntimeDiskError::ReadBinary {
            path: named,
            source,
        } && named@ == path@ && match facts {
            Err(error) => source == Fault::Host(error),
            Ok(facts) => if !facts.is_file {
                source is NotAFile
            } else {
                match facts.modified {
                    Err(error) => source == Fault::Host(error),
                    Ok(_) => source is ModifiedOutOfRange,
                }
            },
        }),
{
}

/// The record of a binary and its disk answers for exactly that binary, as long as
/// its digest is one and its disk has the one size that disks have; and it keeps
/// exactly that disk. A record of another version answers for nothing.
pub proof fn law_records_answer_for_what_they_saw(
    source: FileSnapshot,
    digest: Seq<char>,
    disk: FileSnapshot,
    later: FileSnapshot,
    other: GuestRuntimeRecord<Seq<char>>,
)
    ensures
        record_admits(record_of(source, digest, disk), later) <==> later.bytes == source.bytes
            && later.modified_unix_ns == source.modified_unix_ns && is_digest_text(digest)
            && disk.bytes == 134217728,
        record_keeps(record_of(source, digest, disk), later) <==> later.bytes == disk.bytes
            && later.modified_unix_ns == disk.modified_unix_ns,
        record_of(source, digest, disk).digest == digest,
        record_admits(other, later) ==> other.version == 1 && is_digest_text(other.digest)
            && other.disk_bytes == 134217728,
{
}

/// The calls on records say what the records say.
pub proof fn law_record_calls(
    source: FileSnapshot,
    digest: &str,
    disk: FileSnapshot,
    record: GuestRuntimeRecord,
    later: FileSnapshot,
    admitted: bool,
    kept: bool,
)
    requires
        call_ensures(GuestRuntimeRecord::new, (source, digest, disk), record),
        call_ensures(GuestRuntimeRecord::admits, (&record, later), admitted),
        call_ensures(GuestRuntimeRecord::keeps, (&record, later), kept),
    ensures
        record.version == 1,
        record.digest@ == digest@,
        record.binary_bytes == source.bytes && record.binary_modified_unix_ns
            == source.modified_unix_ns,
        record.disk_bytes == disk.bytes && record.disk_modified_unix_ns == disk.modified_unix_ns,
        admitted <==> later == source && is_digest_text(digest@) && disk.bytes == 134217728,
        kept <==> later == disk,
{
}

/// The name of one entry of the cache inside another.
pub open spec fn entry(directory: Seq<u8>, name: Seq<char>) -> Seq<u8> {
    path_join(directory, encode_utf8(name))
}

/// Where the cache keeps what: a disk under its digest in a directory of its own,
/// the lock of a digest apart from it, and a record under the hash of its binary's
/// path.
pub proof fn law_places_in_the_cache(cache: Seq<u8>, digest: Seq<char>, binary: Seq<u8>)
    ensures
        disk_directory_path(cache, digest) == entry(entry(cache, "runtimes"@), digest),
        disk_path(cache, digest) == entry(disk_directory_path(cache, digest), "runtime.ext4"@),
        lock_directory_path(cache) == entry(entry(cache, "locks"@), "runtimes"@),
        lock_path(cache, digest) == entry(lock_directory_path(cache), digest + ".lock"@),
        record_directory_path(cache) == entry(cache, "runtime-records"@),
        record_path(cache, binary) == entry(
            record_directory_path(cache),
            lower_hex(sha256(encode_utf8("nanocodex-vm-runtime-record-v1\0"@) + binary)) + ".json"@,
        ),
{
}

/// The calls that name places in the cache name these.
pub proof fn law_calls_name_places_in_the_cache(
    cache: HostPath,
    digest: &str,
    binary: HostPath,
    directory: HostPath,
    disk: HostPath,
    locks: HostPath,
    lock: HostPath,
    records: HostPath,
    record: HostPath,
)
    requires
        call_ensures(runtime_disk_directory, (&cache, digest), directory),
        call_ensures(runtime_disk_path, (&cache, digest), disk),
        call_ensures(runtime_lock_directory, (&cache,), locks),
        call_ensures(runtime_lock_path, (&cache, digest), lock),
        call_ensures(runtime_record_directory, (&cache,), records),
        call_ensures(runtime_record_path, (&cache, &binary), record),
    ensures
        directory@ == entry(entry(cache@, "runtimes"@), digest@),
        disk@ == entry(directory@, "runtime.ext4"@),
        locks@ == entry(entry(cache@, "locks"@), "runtimes"@),
        lock@ == entry(locks@, digest@ + ".lock"@),
        records@ == entry(cache@, "runtime-records"@),
        record@ == entry(
            records@,
            lower_hex(sha256(encode_utf8("nanocodex-vm-runtime-record-v1\0"@) + binary@))
                + ".json"@,
        ),
{
}

proof fn lemma_digests_are_plain_names(digest: Seq<char>, rest: Seq<char>)
    requires
        is_digest_text(digest),
    ensures
        encode_utf8(digest + rest).len() > 0,
        encode_utf8(digest + rest)[0] != 47,
{
    law_digest_texts(digest, Seq::empty());
    let text = digest + rest;
    assert(text[0] == digest[0]);
    assert(hex_value(digest[0]) >= 0);
    let code = digest[0] as u32;
    assert(48 <= code <= 102);
    assert((code & 0x7F) as u8 == code as u8 && code as u8 >= 48) by (bit_vector)
        requires
            48 <= code <= 102,
    ;
    assert(encode_utf8(text)[0] == encode_scalar(code)[0]);
}

/// Disks with different digests have different directories and different locks.
pub proof fn law_digests_share_no_place(cache: Seq<u8>, one: Seq<char>, other: Seq<char>)
    requires
        is_digest_text(one),
        is_digest_text(other),
        one != other,
    ensures
        disk_directory_path(cache, one) != disk_directory_path(cache, other),
        lock_path(cache, one) != lock_path(cache, other),
{
    let nothing = Seq::<char>::empty();
    assert(one + nothing =~= one && other + nothing =~= other);
    lemma_digests_are_plain_names(one, nothing);
    lemma_digests_are_plain_names(other, nothing);
    lemma_digests_are_plain_names(one, ".lock"@);
    lemma_digests_are_plain_names(other, ".lock"@);
    encode_utf8_decode_utf8(one);
    encode_utf8_decode_utf8(other);
    encode_utf8_decode_utf8(one + ".lock"@);
    encode_utf8_decode_utf8(other + ".lock"@);
    if disk_directory_path(cache, one) == disk_directory_path(cache, other) {
        law_names_are_told_apart(
            entry(cache, "runtimes"@),
            encode_utf8(one),
            encode_utf8(other),
        );
    }
    if lock_path(cache, one) == lock_path(cache, other) {
        law_names_are_told_apart(
            lock_directory_path(cache),
            encode_utf8(one + ".lock"@),
            encode_utf8(other + ".lock"@),
        );
        assert((one + ".lock"@).take(64) =~= one);
        assert((other + ".lock"@).take(64) =~= other);
    }
}

/// A binary is an ELF file when it opens with the byte 127 and the letters E, L, F.
pub proof fn law_elf_files(bytes: &[u8], elf: bool)
    requires
        call_ensures(is_elf, (bytes,), elf),
    ensures
        elf == starts_as_elf(bytes@),
        elf <==> bytes@.len() >= 4 && bytes@[0] == 127 && bytes@[1] as int == 'E' as int && bytes@[2]
            as int == 'L' as int && bytes@[3] as int == 'F' as int,
{
    let magic = seq![127u8, 69u8, 76u8, 70u8];
    if bytes@.len() >= 4 {
        if bytes@[0] == 127 && bytes@[1] == 69 && bytes@[2] == 76 && bytes@[3] == 70 {
            assert(magic =~= bytes@.subrange(0, 4));
        }
        if starts_as_elf(bytes@) {
            assert(bytes@.subrange(0, 4)[0] == magic[0]);
            assert(bytes@.subrange(0, 4)[1] == magic[1]);
            assert(bytes@.subrange(0, 4)[2] == magic[2]);
            assert(bytes@.subrange(0, 4)[3] == magic[3]);
        }
    }
}

/// The binary inside a disk must be a regular file, which everyone may read and
/// execute and its owner may write, of exactly the size of the runtime; special
/// permission bits are not looked at.
pub proof fn law_guest_inodes(inode: GuestInode, bytes: usize, fits: bool)
    requires
        call_ensures(GuestInode::fits, (inode, bytes), fits),
    ensures
        fits == inode_fits(inode, bytes as nat),
        fits <==> inode.mode / 4096 == 8 && inode.mode % 512 == 0o755 && inode.bytes == bytes,
{
    let mode = inode.mode;
    assert(mode & 0xF000 == 0x8000 <==> mode / 4096 == 8) by (bit_vector);
    assert(mode & 0o777 == mode % 512) by (bit_vector);
}

/// A new disk has 128 MiB in blocks of 4 KiB, and holds the runtime as an executable
/// regular file.
pub proof fn law_new_disks(mode: u16)
    requires
        call_ensures(guest_mode, (), mode),
    ensures
        DISK_BYTES == 128 * 1024 * 1024,
        BLOCK_SIZE == 4 * 1024,
        GUEST_PATH@ == "/nanocodex-vm-guest"@,
        mode / 4096 == 8 && mode % 4096 == 0o755,
{
}

/// A prepared disk says where it is, under which digest, and whether it was reused.
pub(crate) proof fn law_prepared_disks_speak(
    path: HostPath,
    digest: String,
    status: GuestRuntimeDiskStatus,
    disk: GuestRuntimeDisk,
    place: &HostPath,
    name: &str,
    told: GuestRuntimeDiskStatus,
    spelled: &'static str,
)
    requires
        call_ensures(GuestRuntimeDisk::new, (path, digest, status), disk),
        call_ensures(GuestRuntimeDisk::path, (&disk,), place),
        call_ensures(GuestRuntimeDisk::digest, (&disk,), name),
        call_ensures(GuestRuntimeDisk::status, (&disk,), told),
        call_ensures(GuestRuntimeDiskStatus::as_str, (status,), spelled),
    ensures
        place@ == path@,
        name@ == digest@,
        told == status,
        status is Hit ==> spelled@ == "hit"@,
        status is Created ==> spelled@ == "created"@,
{
}

/// An error is described in words of its sort, with the path it names.
pub proof fn law_disk_errors_are_described<S>(error: GuestRuntimeDiskError<S>, text: String)
    requires
        call_ensures(GuestRuntimeDiskError::<S>::message, (&error,), text),
    ensures
        error matches GuestRuntimeDiskError::ReadBinary { path, .. } ==> text@
            == "failed to read VM guest runtime binary "@ + shown(path@),
        error matches GuestRuntimeDiskError::BinaryChanged(path) ==> text@
            == "VM guest runtime binary "@ + shown(path@) + " changed while it was being indexed"@,
        error matches GuestRuntimeDiskError::NotElf(path) ==> text@ == "VM guest runtime "@ + shown(
            path@,
        ) + " is not an ELF executable"@,
        error matches GuestRuntimeDiskError::Cache { path, .. } ==> text@
            == "failed to access VM guest runtime cache at "@ + shown(path@),
        error is Format ==> text@ == "failed to format VM guest runtime disk"@,
        error matches GuestRuntimeDiskError::InvalidPreparedDisk { path, .. } ==> text@
            == "prepared VM guest runtime disk "@ + shown(path@) + " failed validation"@,
{
}

/// A fault that is not the host's own is described, each in words of its own.
pub proof fn law_faults_are_described<S>(fault: Fault<S>, reason: Option<&'static str>)
    requires
        call_ensures(Fault::<S>::reason, (&fault,), reason),
    ensures
        reason is None <==> fault is Host,
        fault is NotAFile ==> reason->0@ == "runtime binary is not a file"@,
        fault is ModifiedOutOfRange ==> reason->0@
            == "out of range integral type conversion attempted"@,
{
}

} // verus!
