//! What the host is asked in the course of a preparation, and what each of its
//! answers does to the outcome.
use vstd::prelude::*;
use vstd::utf8::*;

use crate::digest::{lower_hex, runtime_identity, sha256};
use crate::disk_laws::entry;
use crate::path::HostPath;
use crate::preparation::{
    advanced, asked, expects, known_at_start, Advance, Answer, Ask, Known, Lookup, Preparation,
    Probe, Progress, RecordRead, Step, StoreFault,
};
use crate::preparation_laws::{
    law_preparation_outcome, prepared, run, standing, DiskAnswers, Refusal, World,
};
use crate::runtime_disk::{
    DiskView, Fault, FileFacts, FileSnapshot, GuestInode, GuestRuntimeDiskError,
    GuestRuntimeDiskStatus, GuestRuntimeRecord,
};

verus! {

/// The directory of the disk with the given digest.
pub open spec fn disk_home(cache: Seq<u8>, digest: Seq<char>) -> Seq<u8> {
    entry(entry(cache, "runtimes"@), digest)
}

/// The disk with the given digest.
pub open spec fn disk_place(cache: Seq<u8>, digest: Seq<char>) -> Seq<u8> {
    entry(disk_home(cache, digest), "runtime.ext4"@)
}

/// The directory of the locks.
pub open spec fn lock_home(cache: Seq<u8>) -> Seq<u8> {
    entry(entry(cache, "locks"@), "runtimes"@)
}

/// The directory of the records.
pub open spec fn record_home(cache: Seq<u8>) -> Seq<u8> {
    entry(cache, "runtime-records"@)
}

/// The record of the binary at the given path.
pub open spec fn record_place(cache: Seq<u8>, binary: Seq<u8>) -> Seq<u8> {
    entry(
        record_home(cache),
        lower_hex(sha256(encode_utf8("nanocodex-vm-runtime-record-v1\0"@) + binary)) + ".json"@,
    )
}

/// Whether a file with the given facts has this size and this time, to the
/// nanosecond.
pub open spec fn has_size_and_time<S>(facts: FileFacts<S>, snapshot: FileSnapshot) -> bool {
    &&& snapshot.bytes == facts.bytes
    &&& facts.modified matches Ok(modified) && modified as int == snapshot.modified_unix_ns as int
}

/// Whether a step comes only after the binary was read and found unchanged.
pub open spec fn is_indexed(step: Step) -> bool {
    match step {
        Step::Canonicalize
        | Step::SnapshotBinary
        | Step::ReadRecord
        | Step::InspectRecorded
        | Step::ReadBinary
        | Step::RecheckBinary => false,
        _ => true,
    }
}

/// Whether a step looks at or writes a new disk before it is in place.
pub open spec fn is_making(step: Step) -> bool {
    match step {
        Step::InspectDisk(probe) | Step::StatGuest(probe) | Step::ReadGuest(probe) => probe
            == Probe::Prepared,
        Step::Format | Step::Publish => true,
        _ => false,
    }
}

/// What a preparation has learnt by a step is what the host has answered.
pub open spec fn has_learnt<S>(
    known: Known,
    step: Step,
    given: Seq<u8>,
    cache: Seq<u8>,
    world: World<S>,
) -> bool {
    &&& known.given == given
    &&& known.cache == cache
    &&& !(step is Canonicalize) ==> world.canonical == Ok::<Seq<u8>, S>(known.binary)
    &&& !(step is Canonicalize) && !(step is SnapshotBinary) ==> (world.source matches Ok(facts)
        && facts.is_file && has_size_and_time(facts, known.source))
    &&& step is InspectRecorded ==> world.record == RecordRead::<
        S,
        GuestRuntimeRecord<Seq<char>>,
    >::Found(known.record)
    &&& is_indexed(step) || step is RecheckBinary ==> world.contents == Ok::<Seq<u8>, S>(
        known.contents,
    )
    &&& is_indexed(step) ==> known.digest == runtime_identity(known.contents)
    &&& is_making(step) ==> world.temporary == Ok::<Seq<u8>, S>(known.temporary)
    &&& match step {
        Step::CreateRecordDirectory(_, snapshot) | Step::StoreRecord(_, snapshot) => world.published
            matches Ok(facts) && has_size_and_time(facts, snapshot),
        _ => true,
    }
}

proof fn lemma_has_learnt<S>(given: Seq<u8>, cache: Seq<u8>, world: World<S>, answers: nat)
    ensures
        standing(given, cache, world, answers) matches Some((known, step)) ==> has_learnt(
            known,
            step,
            given,
            cache,
            world,
        ),
    decreases answers,
{
    if answers > 0 {
        lemma_has_learnt(given, cache, world, (answers - 1) as nat);
    }
}

/// At every step the host is asked for the file that the step is about: the binary
/// under its canonical path, the entries of the cache by the digest of what was read
/// from it, and the temporary disk that the host itself made.
pub proof fn law_what_the_host_is_asked<S>(
    given: Seq<u8>,
    cache: Seq<u8>,
    world: World<S>,
    answers: nat,
)
    ensures
        standing(given, cache, world, answers) matches Some((known, step)) ==> {
            let binary = world.canonical->Ok_0;
            let digest = runtime_identity(world.contents->Ok_0);
            let temporary = world.temporary->Ok_0;
            let disk = disk_place(cache, digest);
            match step {
                Step::Canonicalize => asked(known, step) == Ask::<
                    Seq<u8>,
                    GuestRuntimeRecord<Seq<char>>,
                >::Canonicalize(given),
                Step::SnapshotBinary | Step::RecheckBinary => asked(known, step) == Ask::<
                    Seq<u8>,
                    GuestRuntimeRecord<Seq<char>>,
                >::Inspect(binary),
                Step::ReadBinary => asked(known, step) == Ask::<
                    Seq<u8>,
                    GuestRuntimeRecord<Seq<char>>,
                >::Read(binary),
                Step::ReadRecord => asked(known, step) == Ask::<
                    Seq<u8>,
                    GuestRuntimeRecord<Seq<char>>,
                >::ReadRecord(record_place(cache, binary)),
                Step::InspectRecorded => world.record matches RecordRead::Found(record) && asked(
                    known,
                    step,
                ) == Ask::<Seq<u8>, GuestRuntimeRecord<Seq<char>>>::LookUp(
                    disk_place(cache, record.digest),
                ),
                Step::InspectDisk(Probe::Prepared) => asked(known, step) == Ask::<
                    Seq<u8>,
                    GuestRuntimeRecord<Seq<char>>,
                >::Inspect(temporary),
                Step::InspectDisk(_) => asked(known, step) == Ask::<
                    Seq<u8>,
                    GuestRuntimeRecord<Seq<char>>,
                >::LookUp(disk),
                Step::StatGuest(probe) => asked(known, step) == Ask::<
                    Seq<u8>,
                    GuestRuntimeRecord<Seq<char>>,
                >::StatGuest(
                    if probe == Probe::Prepared {
                        temporary
                    } else {
                        disk
                    },
                ),
                Step::ReadGuest(probe) => asked(known, step) == Ask::<
                    Seq<u8>,
                    GuestRuntimeRecord<Seq<char>>,
                >::ReadGuest(
                    if probe == Probe::Prepared {
                        temporary
                    } else {
                        disk
                    },
                ),
                Step::CreateDirectory => asked(known, step) == Ask::<
                    Seq<u8>,
                    GuestRuntimeRecord<Seq<char>>,
                >::CreateDirectory(disk_home(cache, digest)),
                Step::CreateLockDirectory => asked(known, step) == Ask::<
                    Seq<u8>,
                    GuestRuntimeRecord<Seq<char>>,
                >::CreateDirectory(lock_home(cache)),
                Step::AcquireLock => asked(known, step) == Ask::<
                    Seq<u8>,
                    GuestRuntimeRecord<Seq<char>>,
                >::Lock(entry(lock_home(cache), digest + ".lock"@)),
                Step::CreateTemporary => asked(known, step) == Ask::<
                    Seq<u8>,
                    GuestRuntimeRecord<Seq<char>>,
                >::CreateTemporary(disk_home(cache, digest)),
                Step::Format => asked(known, step) == Ask::<
                    Seq<u8>,
                    GuestRuntimeRecord<Seq<char>>,
                >::Format(temporary) && known.contents == world.contents->Ok_0,
                Step::Publish => asked(known, step) == (Ask::<
                    Seq<u8>,
                    GuestRuntimeRecord<Seq<char>>,
                >::Persist { from: temporary, to: disk }),
                Step::InspectPublished(_) => asked(known, step) == Ask::<
                    Seq<u8>,
                    GuestRuntimeRecord<Seq<char>>,
                >::Inspect(disk),
                Step::CreateRecordDirectory(..) => asked(known, step) == Ask::<
                    Seq<u8>,
                    GuestRuntimeRecord<Seq<char>>,
                >::CreateDirectory(record_home(cache)),
                Step::StoreRecord(..) => asked(known, step) matches Ask::StoreRecord {
                    directory,
                    path,
                    record,
                } && {
                    &&& directory == record_home(cache)
                    &&& path == record_place(cache, binary)
                    &&& record.version == 1
                    &&& record.digest == digest
                    &&& world.source matches Ok(facts) && has_size_and_time(
                        facts,
                        FileSnapshot {
                            bytes: record.binary_bytes,
                            modified_unix_ns: record.binary_modified_unix_ns,
                        },
                    )
                    &&& world.published matches Ok(facts) && has_size_and_time(
                        facts,
                        FileSnapshot {
                            bytes: record.disk_bytes,
                            modified_unix_ns: record.disk_modified_unix_ns,
                        },
                    )
                },
            }
        },
{
    lemma_has_learnt(given, cache, world, answers);
}

/// The directories that the host was asked to create and did create, in the course
/// of the given number of answers.
pub open spec fn directories_made<S>(
    given: Seq<u8>,
    cache: Seq<u8>,
    world: World<S>,
    answers: nat,
) -> Set<Seq<u8>>
    decreases answers,
{
    if answers == 0 {
        Set::empty()
    } else {
        let before = directories_made(given, cache, world, (answers - 1) as nat);
        match standing(given, cache, world, (answers - 1) as nat) {
            Some((known, step)) => match (asked(known, step), world.reply(step)) {
                (Ask::CreateDirectory(directory), Answer::Done(Ok(_))) => before.insert(directory),
                _ => before,
            },
            None => before,
        }
    }
}

proof fn lemma_directories_made<S>(given: Seq<u8>, cache: Seq<u8>, world: World<S>, answers: nat)
    ensures
        standing(given, cache, world, answers) matches Some((known, step)) ==> {
            let made = directories_made(given, cache, world, answers);
            let home = disk_home(cache, known.digest);
            &&& match step {
                Step::CreateLockDirectory => made.contains(home),
                Step::AcquireLock | Step::CreateTemporary | Step::Format | Step::Publish =>
                    made.contains(home) && made.contains(lock_home(cache)),
                Step::InspectDisk(probe) | Step::StatGuest(probe) | Step::ReadGuest(probe) => probe
                    != Probe::Cached ==> made.contains(home) && made.contains(lock_home(cache)),
                Step::StoreRecord(..) => made.contains(record_home(cache)),
                _ => true,
            }
        },
    decreases answers,
{
    if answers > 0 {
        lemma_directories_made(given, cache, world, (answers - 1) as nat);
        lemma_has_learnt(given, cache, world, (answers - 1) as nat);
        lemma_has_learnt(given, cache, world, answers);
    }
}

/// Whether a path names an entry of one of the given directories.
pub open spec fn stands_in(path: Seq<u8>, directories: Set<Seq<u8>>) -> bool {
    exists|directory: Seq<u8>, name: Seq<char>|
        directories.contains(directory) && path == #[trigger] entry(directory, name)
}

/// Whatever the host is asked to create stands in a directory that it was asked to
/// create before, and did create: the temporary disk and the disk itself, the lock,
/// and the record.
pub proof fn law_files_stand_in_directories_that_were_made<S>(
    given: Seq<u8>,
    cache: Seq<u8>,
    world: World<S>,
    answers: nat,
)
    ensures
        standing(given, cache, world, answers) matches Some((known, step)) ==> {
            let made = directories_made(given, cache, world, answers);
            match asked(known, step) {
                Ask::CreateTemporary(directory) => made.contains(directory),
                Ask::Lock(path) => stands_in(path, made),
                Ask::Persist { from, to } => stands_in(to, made),
                Ask::StoreRecord { directory, path, .. } => made.contains(directory) && stands_in(
                    path,
                    set![directory],
                ),
                _ => true,
            }
        },
{
    lemma_directories_made(given, cache, world, answers);
    lemma_has_learnt(given, cache, world, answers);
    if let Some((known, step)) = standing(given, cache, world, answers) {
        let made = directories_made(given, cache, world, answers);
        match step {
            Step::AcquireLock => {
                lemma_stands_in(lock_home(cache), known.digest + ".lock"@, made);
            },
            Step::Publish => {
                lemma_stands_in(disk_home(cache, known.digest), "runtime.ext4"@, made);
            },
            Step::StoreRecord(..) => {
                lemma_stands_in(
                    record_home(cache),
                    lower_hex(
                        sha256(encode_utf8("nanocodex-vm-runtime-record-v1\0"@) + known.binary),
                    ) + ".json"@,
                    set![record_home(cache)],
                );
            },
            _ => {},
        }
    }
}

proof fn lemma_stands_in(directory: Seq<u8>, name: Seq<char>, directories: Set<Seq<u8>>)
    requires
        directories.contains(directory),
    ensures
        stands_in(entry(directory, name), directories),
{
}

/// Whether the facts of a binary keep it from being indexed, and why.
pub open spec fn unfit_binary<S>(facts: Result<FileFacts<S>, S>, fault: Fault<S>) -> bool {
    match facts {
        Err(error) => fault == Fault::Host(error),
        Ok(facts) => if !facts.is_file {
            fault is NotAFile
        } else {
            unfit_time(facts, fault)
        },
    }
}

/// Whether the time of a file keeps it from being recorded, and why.
pub open spec fn unfit_time<S>(facts: FileFacts<S>, fault: Fault<S>) -> bool {
    match facts.modified {
        Err(error) => fault == Fault::Host(error),
        Ok(modified) => modified > 0xffff_ffff_ffff_ffff && fault is ModifiedOutOfRange,
    }
}

/// Whether contents are those of an ELF file.
pub open spec fn opens_as_elf(contents: Seq<u8>) -> bool {
    contents.len() >= 4 && contents[0] == 127 && contents[1] == 69 && contents[2] == 76
        && contents[3] == 70
}

proof fn lemma_elf(contents: Seq<u8>)
    ensures
        crate::runtime_disk::starts_as_elf(contents) <==> opens_as_elf(contents),
{
    let magic = seq![127u8, 69u8, 76u8, 70u8];
    if contents.len() >= 4 {
        if opens_as_elf(contents) {
            assert(magic =~= contents.subrange(0, 4));
        }
        if crate::runtime_disk::starts_as_elf(contents) {
            assert(contents.subrange(0, 4)[0] == magic[0]);
            assert(contents.subrange(0, 4)[1] == magic[1]);
            assert(contents.subrange(0, 4)[2] == magic[2]);
            assert(contents.subrange(0, 4)[3] == magic[3]);
        }
    }
}

/// Whether a disk is a file of 128 MiB.
pub open spec fn has_disk_size<S>(facts: FileFacts<S>) -> bool {
    facts.is_file && facts.bytes == 134217728
}

/// Whether an inode is that of the runtime: an executable regular file of its size.
pub open spec fn is_runtime_inode(inode: GuestInode, contents: Seq<u8>) -> bool {
    inode.mode / 4096 == 8 && inode.mode % 512 == 0o755 && inode.bytes == contents.len()
}

proof fn lemma_inode(inode: GuestInode, contents: Seq<u8>)
    ensures
        crate::runtime_disk::inode_fits(inode, contents.len()) <==> is_runtime_inode(
            inode,
            contents,
        ),
{
    let mode = inode.mode;
    assert(mode & 0xF000 == 0x8000 <==> mode / 4096 == 8) by (bit_vector);
    assert(mode & 0o777 == mode % 512) by (bit_vector);
}

/// Why a new disk is not published, if it is not: what the host answers when the
/// disk is looked at.
pub open spec fn unfit_disk<S>(world: World<S>, source: Option<S>) -> bool {
    let contents = world.contents->Ok_0;
    match (world.prepared, world.prepared_inode, world.prepared_contents) {
        (Ok(facts), inode, read) => if !has_disk_size(facts) {
            source is None
        } else {
            match (inode, read) {
                (Err(error), _) => source == Some(error),
                (Ok(inode), _) if !is_runtime_inode(inode, contents) => source is None,
                (_, Err(error)) => source == Some(error),
                (_, Ok(read)) => read != contents && source is None,
            }
        },
        _ => false,
    }
}

/// Whether an access to the cache failed at this path, for this reason.
pub open spec fn failed_access<S>(
    cache: Seq<u8>,
    world: World<S>,
    path: Seq<u8>,
    fault: Fault<S>,
) -> bool {
    let binary = world.canonical->Ok_0;
    let digest = runtime_identity(world.contents->Ok_0);
    let disk = disk_place(cache, digest);
    ||| path == record_place(cache, binary) && (world.record matches RecordRead::Failed(error)
        && fault == Fault::Host(error))
    ||| {
        &&& world.record matches RecordRead::Found(record) && path == disk_place(
            cache,
            record.digest,
        )
        &&& match world.recorded {
            Lookup::Failed(error) => fault == Fault::Host(error),
            Lookup::Found(facts) => unfit_time(facts, fault),
            Lookup::Missing => false,
        }
    }
    ||| path == disk && ((world.cached.lookup matches Lookup::Failed(error) && fault == Fault::Host(
        error,
    )) || (world.locked.lookup matches Lookup::Failed(error) && fault == Fault::Host(error)))
    ||| path == disk_home(cache, digest) && ((world.directory matches Err(error) && fault
        == Fault::Host(error)) || (world.temporary matches Err(error) && fault == Fault::Host(
        error,
    )))
    ||| path == lock_home(cache) && (world.lock_directory matches Err(error) && fault
        == Fault::Host(error))
    ||| path == entry(lock_home(cache), digest + ".lock"@) && (world.lock matches Err(error)
        && fault == Fault::Host(error))
    ||| world.temporary == Ok::<Seq<u8>, S>(path) && (world.prepared matches Err(error) && fault
        == Fault::Host(error))
    ||| path == disk && (world.publish matches Err(error) && fault == Fault::Host(error))
    ||| path == disk && match world.published {
        Err(error) => fault == Fault::Host(error),
        Ok(facts) => unfit_time(facts, fault),
    }
    ||| path == record_home(cache) && ((world.record_directory matches Err(error) && fault
        == Fault::Host(error)) || (world.store matches Err(StoreFault::Temporary(error)) && fault
        == Fault::Host(error)))
    ||| path == record_place(cache, binary) && (world.store matches Err(StoreFault::Record(error))
        && fault == Fault::Host(error))
}

/// Every error of a preparation has its cause in an answer of the host, and names
/// the path and the host's error that belong to it.
pub proof fn law_errors_have_their_cause<S>(given: Seq<u8>, cache: Seq<u8>, world: World<S>)
    ensures
        run(known_at_start(given, cache), Step::Canonicalize, world, 24) matches Some(
            Err(error),
        ) ==> match error {
            GuestRuntimeDiskError::ReadBinary { path, source } => path == given && {
                ||| world.canonical matches Err(error) && source == Fault::Host(error)
                ||| world.canonical is Ok && unfit_binary(world.source, source)
                ||| world.canonical is Ok && (world.contents matches Err(error) && source
                    == Fault::Host(error))
                ||| world.canonical is Ok && unfit_binary(world.source_again, source)
            },
            GuestRuntimeDiskError::NotElf(path) => world.canonical == Ok::<Seq<u8>, S>(path)
                && world.contents is Ok && !opens_as_elf(world.contents->Ok_0),
            GuestRuntimeDiskError::BinaryChanged(path) => world.canonical == Ok::<Seq<u8>, S>(path)
                && world.source is Ok && world.source_again is Ok && (world.source->Ok_0.bytes
                != world.source_again->Ok_0.bytes || world.source->Ok_0.modified->Ok_0
                != world.source_again->Ok_0.modified->Ok_0),
            GuestRuntimeDiskError::Format(error) => world.format == Err::<(), S>(error),
            GuestRuntimeDiskError::InvalidPreparedDisk { path, source } => world.temporary == Ok::<
                Seq<u8>,
                S,
            >(path) && world.format is Ok && unfit_disk(world, source),
            GuestRuntimeDiskError::Cache { path, source } => failed_access(
                cache,
                world,
                path,
                source,
            ),
        },
{
    law_preparation_outcome(given, cache, world);
    if world.contents is Ok {
        lemma_elf(world.contents->Ok_0);
        if world.prepared_inode is Ok {
            lemma_inode(world.prepared_inode->Ok_0, world.contents->Ok_0);
        }
    }
}

/// Whether the binary can be indexed: it is an ELF file whose size and time are the
/// same before and after it is read.
pub open spec fn binary_is_steady<S>(world: World<S>) -> bool {
    &&& world.canonical is Ok
    &&& world.source matches Ok(facts) && facts.is_file && (facts.modified matches Ok(modified)
        && modified <= 0xffff_ffff_ffff_ffff)
    &&& world.source_again matches Ok(facts) && facts.is_file && facts.bytes
        == world.source->Ok_0.bytes && facts.modified == world.source->Ok_0.modified
    &&& world.contents matches Ok(contents) && opens_as_elf(contents)
}

/// Whether the record of the cache is there and answers for the binary.
pub open spec fn record_is_current<S>(world: World<S>) -> bool {
    world.record matches RecordRead::Found(record) && {
        &&& record.version == 1
        &&& record.disk_bytes == 134217728
        &&& crate::digest::is_digest_text(record.digest)
        &&& world.source matches Ok(facts) && has_size_and_time(
            facts,
            FileSnapshot {
                bytes: record.binary_bytes,
                modified_unix_ns: record.binary_modified_unix_ns,
            },
        )
    }
}

/// Whether what was found under a digest is a disk that holds exactly the runtime.
pub open spec fn holds_the_runtime<S>(found: DiskAnswers<S>, contents: Seq<u8>) -> bool {
    &&& found.lookup matches Lookup::Found(facts) && has_disk_size(facts)
    &&& found.inode matches Ok(inode) && is_runtime_inode(inode, contents)
    &&& found.contents matches Ok(read) && read == contents
}

/// Whether the disk in place can be recorded.
pub open spec fn can_be_recorded<S>(world: World<S>) -> bool {
    &&& world.published matches Ok(facts) && (facts.modified matches Ok(modified) && modified
        <= 0xffff_ffff_ffff_ffff)
    &&& world.record_directory is Ok
    &&& world.store is Ok
}

proof fn lemma_holds<S>(found: DiskAnswers<S>, contents: Seq<u8>)
    ensures
        crate::preparation_laws::entry_holds(found, contents) <==> holds_the_runtime(
            found,
            contents,
        ),
{
    if found.inode is Ok {
        lemma_inode(found.inode->Ok_0, contents);
    }
}

/// Where no record answers for a steady binary and its disk is in the cache and
/// holds it, that disk is reused; it is found under the identity of the binary.
pub proof fn law_identical_disk_is_reused<S>(given: Seq<u8>, cache: Seq<u8>, world: World<S>)
    requires
        binary_is_steady(world),
        !(world.record is Failed),
        !record_is_current(world),
        holds_the_runtime(world.cached, world.contents->Ok_0),
        can_be_recorded(world),
    ensures
        ({
            let digest = runtime_identity(world.contents->Ok_0);
            run(known_at_start(given, cache), Step::Canonicalize, world, 24) == Some(
                Ok::<DiskView, Refusal<S>>(
                    DiskView {
                        path: disk_place(cache, digest),
                        digest,
                        status: GuestRuntimeDiskStatus::Hit,
                    },
                ),
            )
        }),
{
    law_preparation_outcome(given, cache, world);
    lemma_elf(world.contents->Ok_0);
    lemma_holds(world.cached, world.contents->Ok_0);
}

/// Where no record answers for a steady binary and the cache has no such disk, a
/// disk is made and put in place, if the host lets it: the first preparation of a
/// binary ends with its disk, as created. Where another caller was faster, its disk
/// is reused.
pub proof fn law_missing_disk_is_created<S>(given: Seq<u8>, cache: Seq<u8>, world: World<S>)
    requires
        binary_is_steady(world),
        !(world.record is Failed),
        !record_is_current(world),
        !(world.cached.lookup is Failed) && !(world.locked.lookup is Failed),
        !holds_the_runtime(world.cached, world.contents->Ok_0),
        world.directory is Ok && world.lock_directory is Ok && world.lock is Ok,
        !holds_the_runtime(world.locked, world.contents->Ok_0) ==> {
            &&& world.temporary is Ok && world.format is Ok && world.publish is Ok
            &&& world.prepared matches Ok(facts) && has_disk_size(facts)
            &&& world.prepared_inode matches Ok(inode) && is_runtime_inode(
                inode,
                world.contents->Ok_0,
            )
            &&& world.prepared_contents == world.contents
        },
        can_be_recorded(world),
    ensures
        ({
            let digest = runtime_identity(world.contents->Ok_0);
            run(known_at_start(given, cache), Step::Canonicalize, world, 24) == Some(
                Ok::<DiskView, Refusal<S>>(
                    DiskView {
                        path: disk_place(cache, digest),
                        digest,
                        status: if holds_the_runtime(world.locked, world.contents->Ok_0) {
                            GuestRuntimeDiskStatus::Hit
                        } else {
                            GuestRuntimeDiskStatus::Created
                        },
                    },
                ),
            )
        }),
{
    law_preparation_outcome(given, cache, world);
    lemma_elf(world.contents->Ok_0);
    lemma_holds(world.cached, world.contents->Ok_0);
    lemma_holds(world.locked, world.contents->Ok_0);
    if world.prepared_inode is Ok {
        lemma_inode(world.prepared_inode->Ok_0, world.contents->Ok_0);
    }
}

/// A record that answers for the binary, and whose disk is as it was recorded, is
/// trusted: the disk is reused without being read. Where the disk is gone or has
/// changed, the binary is indexed as if there were no record.
pub proof fn law_current_record_is_trusted<S>(
    given: Seq<u8>,
    cache: Seq<u8>,
    world: World<S>,
    bare: World<S>,
    record: GuestRuntimeRecord<Seq<char>>,
)
    requires
        world.canonical is Ok,
        world.source matches Ok(facts) && facts.is_file,
        world.record == RecordRead::<S, GuestRuntimeRecord<Seq<char>>>::Found(record),
        record_is_current(world),
        bare == (World { record: RecordRead::Missing, ..world }),
        !(world.recorded is Failed),
        world.recorded matches Lookup::Found(facts) ==> facts.modified is Ok
            && facts.modified->Ok_0 <= 0xffff_ffff_ffff_ffff,
    ensures
        ({
            let outcome = run(known_at_start(given, cache), Step::Canonicalize, world, 24);
            let unchanged = world.recorded matches Lookup::Found(facts) && facts.is_file
                && has_size_and_time(
                facts,
                FileSnapshot {
                    bytes: record.disk_bytes,
                    modified_unix_ns: record.disk_modified_unix_ns,
                },
            );
            if unchanged {
                outcome == Some(
                    Ok::<DiskView, Refusal<S>>(
                        DiskView {
                            path: disk_place(cache, record.digest),
                            digest: record.digest,
                            status: GuestRuntimeDiskStatus::Hit,
                        },
                    ),
                )
            } else {
                outcome == run(known_at_start(given, cache), Step::Canonicalize, bare, 24)
            }
        }),
{
    law_preparation_outcome(given, cache, world);
    law_preparation_outcome(given, cache, bare);
}

/// The failures that come first are reported first: the path, the binary, what it
/// holds, and whether it stayed as it was.
pub proof fn law_unfit_binaries_are_refused<S>(given: Seq<u8>, cache: Seq<u8>, world: World<S>)
    ensures
        ({
            let outcome = run(known_at_start(given, cache), Step::Canonicalize, world, 24);
            &&& world.canonical matches Err(error) ==> outcome == Some(
                Err::<DiskView, Refusal<S>>(
                    GuestRuntimeDiskError::ReadBinary { path: given, source: Fault::Host(error) },
                ),
            )
            &&& world.canonical is Ok ==> (world.source matches Err(error) ==> outcome == Some(
                Err::<DiskView, Refusal<S>>(
                    GuestRuntimeDiskError::ReadBinary { path: given, source: Fault::Host(error) },
                ),
            ))
            &&& world.canonical is Ok && (world.source matches Ok(facts) && !facts.is_file)
                ==> outcome == Some(
                Err::<DiskView, Refusal<S>>(
                    GuestRuntimeDiskError::ReadBinary { path: given, source: Fault::NotAFile },
                ),
            )
            &&& world.canonical is Ok && (world.source matches Ok(facts) && facts.is_file && (
            facts.modified matches Ok(modified) && modified <= 0xffff_ffff_ffff_ffff))
                && !(world.record is Failed) && !record_is_current(world) ==> {
                &&& world.contents matches Err(error) ==> outcome == Some(
                    Err::<DiskView, Refusal<S>>(
                        GuestRuntimeDiskError::ReadBinary {
                            path: given,
                            source: Fault::Host(error),
                        },
                    ),
                )
                &&& (world.contents matches Ok(contents) && !opens_as_elf(contents)) ==> outcome
                    == Some(
                    Err::<DiskView, Refusal<S>>(
                        GuestRuntimeDiskError::NotElf(world.canonical->Ok_0),
                    ),
                )
                &&& (world.contents matches Ok(contents) && opens_as_elf(contents)) && (
                world.source_again matches Ok(again) && again.is_file && (again.modified
                    matches Ok(modified) && modified <= 0xffff_ffff_ffff_ffff) && (again.bytes
                    != world.source->Ok_0.bytes || again.modified->Ok_0
                    != world.source->Ok_0.modified->Ok_0)) ==> outcome == Some(
                    Err::<DiskView, Refusal<S>>(
                        GuestRuntimeDiskError::BinaryChanged(world.canonical->Ok_0),
                    ),
                )
            }
        }),
{
    law_preparation_outcome(given, cache, world);
    if world.contents is Ok {
        lemma_elf(world.contents->Ok_0);
    }
}

/// Whether the disk that a current record names is as it was recorded.
pub open spec fn recorded_disk_is_unchanged<S>(world: World<S>) -> bool {
    &&& record_is_current(world)
    &&& world.record matches RecordRead::Found(record) && (world.recorded matches Lookup::Found(
        facts,
    ) && facts.is_file && has_size_and_time(
        facts,
        FileSnapshot {
            bytes: record.disk_bytes,
            modified_unix_ns: record.disk_modified_unix_ns,
        },
    ))
}

/// Whether looking for the disk of a current record fails.
pub open spec fn recorded_disk_is_unreadable<S>(world: World<S>) -> bool {
    record_is_current(world) && match world.recorded {
        Lookup::Failed(_) => true,
        Lookup::Found(facts) => facts.is_file && !(facts.modified is Ok && facts.modified->Ok_0
            <= 0xffff_ffff_ffff_ffff),
        Lookup::Missing => false,
    }
}

/// Whether a new disk can be made and put in place.
pub open spec fn disk_can_be_made<S>(world: World<S>) -> bool {
    &&& world.temporary is Ok && world.format is Ok && world.publish is Ok
    &&& world.prepared matches Ok(facts) && has_disk_size(facts)
    &&& world.prepared_inode matches Ok(inode) && is_runtime_inode(inode, world.contents->Ok_0)
    &&& world.prepared_contents == world.contents
}

/// A preparation succeeds exactly when the binary is fit and a disk is to be had:
/// the one of a current record, unchanged; or, for a steady binary, one in the cache
/// that holds it, or one that can be made under the lock, and that can be recorded.
pub proof fn law_when_a_preparation_succeeds<S>(given: Seq<u8>, cache: Seq<u8>, world: World<S>)
    ensures
        run(known_at_start(given, cache), Step::Canonicalize, world, 24) is Some,
        run(known_at_start(given, cache), Step::Canonicalize, world, 24)->0 is Ok <==> {
            &&& world.canonical is Ok
            &&& world.source matches Ok(facts) && facts.is_file && (facts.modified matches Ok(
                modified,
            ) && modified <= 0xffff_ffff_ffff_ffff)
            &&& recorded_disk_is_unchanged(world) || {
                &&& !(world.record is Failed)
                &&& !recorded_disk_is_unreadable(world)
                &&& binary_stays_the_same(world)
                &&& !(world.cached.lookup is Failed)
                &&& can_be_recorded(world)
                &&& holds_the_runtime(world.cached, world.contents->Ok_0) || {
                    &&& world.directory is Ok && world.lock_directory is Ok && world.lock is Ok
                    &&& !(world.locked.lookup is Failed)
                    &&& holds_the_runtime(world.locked, world.contents->Ok_0) || disk_can_be_made(
                        world,
                    )
                }
            }
        },
{
    law_preparation_outcome(given, cache, world);
    if world.contents is Ok {
        lemma_elf(world.contents->Ok_0);
        lemma_holds(world.cached, world.contents->Ok_0);
        lemma_holds(world.locked, world.contents->Ok_0);
        if world.prepared_inode is Ok {
            lemma_inode(world.prepared_inode->Ok_0, world.contents->Ok_0);
        }
    }
}

/// Whether the binary is an ELF file that is seen with one size and one time before
/// and after it is read.
pub open spec fn binary_stays_the_same<S>(world: World<S>) -> bool {
    &&& world.source_again matches Ok(facts) && facts.is_file && facts.bytes
        == world.source->Ok_0.bytes && facts.modified is Ok && facts.modified->Ok_0
        == world.source->Ok_0.modified->Ok_0
    &&& world.contents matches Ok(contents) && opens_as_elf(contents)
}

/// A preparation starts from what it was given, and says at every step what it waits
/// for and which binary a new disk must hold.
pub proof fn law_preparations_start(
    binary: HostPath,
    cache: HostPath,
    preparation: Preparation,
    later: Preparation,
    step: Step,
    contents: &[u8],
)
    requires
        call_ensures(Preparation::start, (binary, cache), preparation),
        call_ensures(Preparation::step, (&later,), step),
        call_ensures(Preparation::contents, (&later,), contents),
    ensures
        preparation.known() == known_at_start(binary@, cache@),
        preparation.at() is Canonicalize,
        preparation.known().given == binary@,
        preparation.known().cache == cache@,
        step == later.at(),
        contents@ == later.known().contents,
{
}

/// What a preparation asks of the host is what its step is about, and the paths and
/// the record in it are those that were meant.
pub proof fn law_preparations_ask(preparation: Preparation, ask: Ask)
    requires
        call_ensures(Preparation::ask, (&preparation,), ask),
    ensures
        match (ask, asked(preparation.known(), preparation.at())) {
            (Ask::Canonicalize(path), Ask::Canonicalize(meant)) => path@ == meant,
            (Ask::Inspect(path), Ask::Inspect(meant)) => path@ == meant,
            (Ask::LookUp(path), Ask::LookUp(meant)) => path@ == meant,
            (Ask::ReadRecord(path), Ask::ReadRecord(meant)) => path@ == meant,
            (Ask::Read(path), Ask::Read(meant)) => path@ == meant,
            (Ask::StatGuest(path), Ask::StatGuest(meant)) => path@ == meant,
            (Ask::ReadGuest(path), Ask::ReadGuest(meant)) => path@ == meant,
            (Ask::CreateDirectory(path), Ask::CreateDirectory(meant)) => path@ == meant,
            (Ask::Lock(path), Ask::Lock(meant)) => path@ == meant,
            (Ask::CreateTemporary(path), Ask::CreateTemporary(meant)) => path@ == meant,
            (Ask::Format(path), Ask::Format(meant)) => path@ == meant,
            (Ask::Persist { from, to }, Ask::Persist { from: meant, to: place }) => from@ == meant
                && to@ == place,
            (
                Ask::StoreRecord { directory, path, record },
                Ask::StoreRecord { directory: home, path: place, record: meant },
            ) => {
                &&& directory@ == home && path@ == place
                &&& record.version == meant.version && record.digest@ == meant.digest
                &&& record.binary_bytes == meant.binary_bytes
                &&& record.binary_modified_unix_ns == meant.binary_modified_unix_ns
                &&& record.disk_bytes == meant.disk_bytes
                &&& record.disk_modified_unix_ns == meant.disk_modified_unix_ns
            },
            _ => false,
        },
{
}

/// A preparation takes the host's answers as they are, and goes on, gives up a
/// temporary disk or finishes as the answer says.
pub proof fn law_preparations_take_answers<S>(
    preparation: Preparation,
    answer: Answer<S>,
    progress: Progress<S>,
)
    requires
        call_ensures(Preparation::advance::<S>, (preparation, answer), progress),
        expects(preparation.at(), answer@),
    ensures
        match (progress, advanced(preparation.known(), preparation.at(), answer@)) {
            (Progress::Continue(next), Advance::Continue(known, step)) => next.known() == known
                && next.at() == step,
            (Progress::Discard { temporary, error }, Advance::Discard(place, expected)) => {
                temporary@ == place && is_error(error, expected)
            },
            (Progress::Finished(Ok(disk)), Advance::Finished(Ok(expected))) => disk@ == expected,
            (Progress::Finished(Err(error)), Advance::Finished(Err(expected))) => is_error(
                error,
                expected,
            ),
            _ => false,
        },
        match (answer, answer@) {
            (Answer::Path(Ok(path)), Answer::Path(Ok(name))) => path@ == name,
            (Answer::Path(Err(error)), Answer::Path(Err(given))) => error == given,
            (Answer::Facts(facts), Answer::Facts(given)) => facts == given,
            (Answer::Lookup(lookup), Answer::Lookup(given)) => lookup == given,
            (Answer::Contents(Ok(bytes)), Answer::Contents(Ok(given))) => bytes@ == given,
            (Answer::Contents(Err(error)), Answer::Contents(Err(given))) => error == given,
            (Answer::Inode(inode), Answer::Inode(given)) => inode == given,
            (Answer::Done(done), Answer::Done(given)) => done == given,
            (Answer::Stored(stored), Answer::Stored(given)) => stored == given,
            (Answer::Record(RecordRead::Missing), Answer::Record(RecordRead::Missing)) => true,
            (Answer::Record(RecordRead::Malformed), Answer::Record(RecordRead::Malformed)) => true,
            (
                Answer::Record(RecordRead::Failed(error)),
                Answer::Record(RecordRead::Failed(given)),
            ) => error == given,
            (
                Answer::Record(RecordRead::Found(record)),
                Answer::Record(RecordRead::Found(given)),
            ) => {
                &&& record.version == given.version && record.digest@ == given.digest
                &&& record.binary_bytes == given.binary_bytes
                &&& record.binary_modified_unix_ns == given.binary_modified_unix_ns
                &&& record.disk_bytes == given.disk_bytes
                &&& record.disk_modified_unix_ns == given.disk_modified_unix_ns
            },
            _ => false,
        },
{
}

/// Whether an error is the expected one, for the expected path and reason.
pub open spec fn is_error<S>(
    error: GuestRuntimeDiskError<S>,
    expected: GuestRuntimeDiskError<S, Seq<u8>>,
) -> bool {
    match (error, expected) {
        (
            GuestRuntimeDiskError::ReadBinary { path, source },
            GuestRuntimeDiskError::ReadBinary { path: place, source: reason },
        ) => path@ == place && source == reason,
        (
            GuestRuntimeDiskError::BinaryChanged(path),
            GuestRuntimeDiskError::BinaryChanged(place),
        ) => path@ == place,
        (GuestRuntimeDiskError::NotElf(path), GuestRuntimeDiskError::NotElf(place)) => path@
            == place,
        (
            GuestRuntimeDiskError::Cache { path, source },
            GuestRuntimeDiskError::Cache { path: place, source: reason },
        ) => path@ == place && source == reason,
        (GuestRuntimeDiskError::Format(source), GuestRuntimeDiskError::Format(reason)) => source
            == reason,
        (
            GuestRuntimeDiskError::InvalidPreparedDisk { path, source },
            GuestRuntimeDiskError::InvalidPreparedDisk { path: place, source: reason },
        ) => path@ == place && source == reason,
        _ => false,
    }
}

} // verus!
