//! What a whole preparation comes to, whatever the host answers.
use vstd::prelude::*;

use crate::digest::{is_digest_text, runtime_identity};
use crate::preparation::{
    advanced, disk_sized, expects, known_at_start, without_entry, Advance, Answer, AnswerView,
    Known, Lookup, Probe, RecordRead, Step, StoreFault,
};
use crate::runtime_disk::{
    binary_snapshot_of, disk_directory_path, disk_path, inode_fits, lock_directory_path, lock_path,
    record_admits, record_directory_path, record_keeps, record_of, record_path, snapshot_of, starts_as_elf,
    DiskView, Fault, FileFacts, FileSnapshot, GuestInode, GuestRuntimeDiskError,
    GuestRuntimeDiskStatus, GuestRuntimeRecord,
};

verus! {

/// What the host answers when a disk is examined.
pub struct DiskAnswers<S> {
    pub lookup: Lookup<S>,
    pub inode: Result<GuestInode, S>,
    pub contents: Result<Seq<u8>, S>,
}

/// Everything that the host would answer in the course of one preparation.
pub struct World<S> {
    pub canonical: Result<Seq<u8>, S>,
    pub source: Result<FileFacts<S>, S>,
    pub record: RecordRead<S, GuestRuntimeRecord<Seq<char>>>,
    pub recorded: Lookup<S>,
    pub contents: Result<Seq<u8>, S>,
    pub source_again: Result<FileFacts<S>, S>,
    pub cached: DiskAnswers<S>,
    pub directory: Result<(), S>,
    pub lock_directory: Result<(), S>,
    pub lock: Result<(), S>,
    pub locked: DiskAnswers<S>,
    pub temporary: Result<Seq<u8>, S>,
    pub format: Result<(), S>,
    pub prepared: Result<FileFacts<S>, S>,
    pub prepared_inode: Result<GuestInode, S>,
    pub prepared_contents: Result<Seq<u8>, S>,
    pub publish: Result<(), S>,
    pub published: Result<FileFacts<S>, S>,
    pub record_directory: Result<(), S>,
    pub store: Result<(), StoreFault<S>>,
}

/// An error of a preparation.
pub type Refusal<S> = GuestRuntimeDiskError<S, Seq<u8>>;

impl<S> World<S> {
    /// The host's answer at a step.
    pub open spec fn reply(self, step: Step) -> AnswerView<S> {
        match step {
            Step::Canonicalize => Answer::Path(self.canonical),
            Step::SnapshotBinary => Answer::Facts(self.source),
            Step::ReadRecord => Answer::Record(self.record),
            Step::InspectRecorded => Answer::Lookup(self.recorded),
            Step::ReadBinary => Answer::Contents(self.contents),
            Step::RecheckBinary => Answer::Facts(self.source_again),
            Step::InspectDisk(Probe::Cached) => Answer::Lookup(self.cached.lookup),
            Step::InspectDisk(Probe::Locked) => Answer::Lookup(self.locked.lookup),
            Step::InspectDisk(Probe::Prepared) => Answer::Facts(self.prepared),
            Step::StatGuest(Probe::Cached) => Answer::Inode(self.cached.inode),
            Step::StatGuest(Probe::Locked) => Answer::Inode(self.locked.inode),
            Step::StatGuest(Probe::Prepared) => Answer::Inode(self.prepared_inode),
            Step::ReadGuest(Probe::Cached) => Answer::Contents(self.cached.contents),
            Step::ReadGuest(Probe::Locked) => Answer::Contents(self.locked.contents),
            Step::ReadGuest(Probe::Prepared) => Answer::Contents(self.prepared_contents),
            Step::CreateDirectory => Answer::Done(self.directory),
            Step::CreateLockDirectory => Answer::Done(self.lock_directory),
            Step::AcquireLock => Answer::Done(self.lock),
            Step::CreateTemporary => Answer::Path(self.temporary),
            Step::Format => Answer::Done(self.format),
            Step::Publish => Answer::Done(self.publish),
            Step::InspectPublished(_) => Answer::Facts(self.published),
            Step::CreateRecordDirectory(..) => Answer::Done(self.record_directory),
            Step::StoreRecord(..) => Answer::Stored(self.store),
        }
    }
}

/// The outcome after at most `steps` answers; `None` when more are needed.
pub open spec fn run<S>(known: Known, step: Step, world: World<S>, steps: nat) -> Option<
    Result<DiskView, Refusal<S>>,
>
    decreases steps,
{
    if steps == 0 {
        None
    } else {
        match advanced(known, step, world.reply(step)) {
            Advance::Finished(outcome) => Some(outcome),
            Advance::Discard(_, error) => Some(Err(error)),
            Advance::Continue(known, step) => run(known, step, world, (steps - 1) as nat),
        }
    }
}

/// The error of a cache operation at `path`.
pub open spec fn at_cache<S>(path: Seq<u8>, error: S) -> Refusal<S> {
    GuestRuntimeDiskError::Cache { path, source: Fault::Host(error) }
}

/// The disk that the cache record vouches for, if it vouches for one.
pub open spec fn vouched<S>(
    cache: Seq<u8>,
    binary: Seq<u8>,
    source: FileSnapshot,
    world: World<S>,
) -> Result<Option<DiskView>, Refusal<S>> {
    match world.record {
        RecordRead::Failed(error) => Err(at_cache(record_path(cache, binary), error)),
        RecordRead::Found(record) if record_admits(record, source) => {
            let path = disk_path(cache, record.digest);
            match world.recorded {
                Lookup::Failed(error) => Err(at_cache(path, error)),
                Lookup::Found(facts) if facts.is_file => match snapshot_of(facts) {
                    Err(source) => Err(GuestRuntimeDiskError::Cache { path, source }),
                    Ok(disk) if record_keeps(record, disk) => Ok(
                        Some(
                            DiskView {
                                path,
                                digest: record.digest,
                                status: GuestRuntimeDiskStatus::Hit,
                            },
                        ),
                    ),
                    _ => Ok(None),
                },
                _ => Ok(None),
            }
        },
        _ => Ok(None),
    }
}

/// Whether a cached disk holds exactly `contents`, byte for byte.
pub open spec fn entry_holds<S>(entry: DiskAnswers<S>, contents: Seq<u8>) -> bool {
    &&& entry.lookup matches Lookup::Found(facts) && disk_sized(facts)
    &&& entry.inode matches Ok(inode) && inode_fits(inode, contents.len())
    &&& entry.contents matches Ok(read) && read == contents
}

/// Whether a cached disk is valid; an error when it cannot be looked up.
pub open spec fn entry_valid<S>(
    path: Seq<u8>,
    entry: DiskAnswers<S>,
    contents: Seq<u8>,
) -> Result<bool, Refusal<S>> {
    match entry.lookup {
        Lookup::Failed(error) => Err(at_cache(path, error)),
        _ => Ok(entry_holds(entry, contents)),
    }
}

/// Whether a new disk at `path` holds exactly `contents`.
pub open spec fn new_disk_valid<S>(path: Seq<u8>, contents: Seq<u8>, world: World<S>) -> Result<
    (),
    Refusal<S>,
> {
    let invalid = |source: Option<S>| GuestRuntimeDiskError::InvalidPreparedDisk { path, source };
    match (world.prepared, world.prepared_inode, world.prepared_contents) {
        (Err(error), _, _) => Err(at_cache(path, error)),
        (Ok(facts), _, _) if !disk_sized(facts) => Err(invalid(None)),
        (_, Err(error), _) => Err(invalid(Some(error))),
        (_, Ok(inode), _) if !inode_fits(inode, contents.len()) => Err(invalid(None)),
        (_, _, Err(error)) => Err(invalid(Some(error))),
        (_, _, Ok(read)) => if read == contents {
            Ok(())
        } else {
            Err(invalid(None))
        },
    }
}

/// Records the published disk and reports it.
pub open spec fn recorded_as<S>(
    cache: Seq<u8>,
    binary: Seq<u8>,
    digest: Seq<char>,
    status: GuestRuntimeDiskStatus,
    world: World<S>,
) -> Result<DiskView, Refusal<S>> {
    let path = disk_path(cache, digest);
    match (world.published, world.record_directory, world.store) {
        (Err(error), _, _) => Err(at_cache(path, error)),
        (Ok(facts), _, _) if snapshot_of(facts) is Err => Err(
            GuestRuntimeDiskError::Cache { path, source: snapshot_of(facts)->Err_0 },
        ),
        (_, Err(error), _) => Err(at_cache(record_directory_path(cache), error)),
        (_, _, Err(StoreFault::Temporary(error))) => Err(
            at_cache(record_directory_path(cache), error),
        ),
        (_, _, Err(StoreFault::Record(error))) => Err(at_cache(record_path(cache, binary), error)),
        (_, _, Ok(_)) => Ok(DiskView { path, digest, status }),
    }
}

/// Formats, validates and publishes a new disk; the caller holds the lock.
pub open spec fn created<S>(
    cache: Seq<u8>,
    binary: Seq<u8>,
    contents: Seq<u8>,
    world: World<S>,
) -> Result<DiskView, Refusal<S>> {
    let digest = runtime_identity(contents);
    match world.temporary {
        Err(error) => Err(at_cache(disk_directory_path(cache, digest), error)),
        Ok(temporary) => match world.format {
            Err(error) => Err(GuestRuntimeDiskError::Format(error)),
            Ok(_) => match new_disk_valid(temporary, contents, world) {
                Err(error) => Err(error),
                Ok(_) => match world.publish {
                    Err(error) => Err(at_cache(disk_path(cache, digest), error)),
                    Ok(_) => recorded_as(
                        cache,
                        binary,
                        digest,
                        GuestRuntimeDiskStatus::Created,
                        world,
                    ),
                },
            },
        },
    }
}

/// Takes the lock, looks at the entry once more, and creates it when it is not valid.
pub open spec fn created_under_lock<S>(
    cache: Seq<u8>,
    binary: Seq<u8>,
    contents: Seq<u8>,
    world: World<S>,
) -> Result<DiskView, Refusal<S>> {
    let digest = runtime_identity(contents);
    match (world.directory, world.lock_directory, world.lock) {
        (Err(error), _, _) => Err(at_cache(disk_directory_path(cache, digest), error)),
        (_, Err(error), _) => Err(at_cache(lock_directory_path(cache), error)),
        (_, _, Err(error)) => Err(at_cache(lock_path(cache, digest), error)),
        _ => match entry_valid(disk_path(cache, digest), world.locked, contents) {
            Err(error) => Err(error),
            Ok(true) => recorded_as(cache, binary, digest, GuestRuntimeDiskStatus::Hit, world),
            Ok(false) => created(cache, binary, contents, world),
        },
    }
}

/// Indexes the binary, whose canonical path is `binary`, by its contents.
pub open spec fn indexed<S>(
    given: Seq<u8>,
    cache: Seq<u8>,
    binary: Seq<u8>,
    source: FileSnapshot,
    world: World<S>,
) -> Result<DiskView, Refusal<S>> {
    match world.contents {
        Err(error) => Err(
            GuestRuntimeDiskError::ReadBinary { path: given, source: Fault::Host(error) },
        ),
        Ok(contents) => if !starts_as_elf(contents) {
            Err(GuestRuntimeDiskError::NotElf(binary))
        } else {
            match binary_snapshot_of(given, world.source_again) {
                Err(error) => Err(error),
                Ok(again) => if again != source {
                    Err(GuestRuntimeDiskError::BinaryChanged(binary))
                } else {
                    let digest = runtime_identity(contents);
                    match entry_valid(disk_path(cache, digest), world.cached, contents) {
                        Err(error) => Err(error),
                        Ok(true) => recorded_as(
                            cache,
                            binary,
                            digest,
                            GuestRuntimeDiskStatus::Hit,
                            world,
                        ),
                        Ok(false) => created_under_lock(cache, binary, contents, world),
                    }
                },
            }
        },
    }
}

/// The outcome of preparing the disk of the binary named `given` in `cache`.
pub open spec fn prepared<S>(given: Seq<u8>, cache: Seq<u8>, world: World<S>) -> Result<
    DiskView,
    Refusal<S>,
> {
    match world.canonical {
        Err(error) => Err(
            GuestRuntimeDiskError::ReadBinary { path: given, source: Fault::Host(error) },
        ),
        Ok(binary) => match binary_snapshot_of(given, world.source) {
            Err(error) => Err(error),
            Ok(source) => match vouched(cache, binary, source, world) {
                Err(error) => Err(error),
                Ok(Some(disk)) => Ok(disk),
                Ok(None) => indexed(given, cache, binary, source, world),
            },
        },
    }
}

proof fn lemma_record<S>(
    known: Known,
    status: GuestRuntimeDiskStatus,
    world: World<S>,
    steps: nat,
)
    requires
        steps >= 3,
    ensures
        run(known, Step::InspectPublished(status), world, steps) == Some(
            recorded_as(known.cache, known.binary, known.digest, status, world),
        ),
{
    reveal_with_fuel(run, 4);
}

proof fn lemma_create<S>(known: Known, world: World<S>, steps: nat)
    requires
        steps >= 9,
        known.digest == runtime_identity(known.contents),
    ensures
        run(known, Step::CreateTemporary, world, steps) == Some(
            created(known.cache, known.binary, known.contents, world),
        ),
{
    reveal_with_fuel(run, 7);
    if world.temporary is Ok {
        let known = Known { temporary: world.temporary->Ok_0, ..known };
        lemma_record(known, GuestRuntimeDiskStatus::Created, world, (steps - 6) as nat);
    }
}

proof fn lemma_entry<S>(known: Known, probe: Probe, entry: DiskAnswers<S>, world: World<S>, steps: nat)
    requires
        steps >= 6,
        probe == Probe::Cached && entry == world.cached || probe == Probe::Locked && entry
            == world.locked,
    ensures
        ({
            let outcome = run(known, Step::InspectDisk(probe), world, steps);
            match entry_valid(disk_path(known.cache, known.digest), entry, known.contents) {
                Err(error) => outcome == Some(Err::<DiskView, Refusal<S>>(error)),
                Ok(true) => outcome == Some(
                    recorded_as(
                        known.cache,
                        known.binary,
                        known.digest,
                        GuestRuntimeDiskStatus::Hit,
                        world,
                    ),
                ),
                Ok(false) => exists|left: nat|
                    steps - 3 <= left && outcome == #[trigger] run(
                        known,
                        without_entry(probe),
                        world,
                        left,
                    ),
            }
        }),
{
    reveal_with_fuel(run, 4);
    let after = without_entry(probe);
    let outcome = run(known, Step::InspectDisk(probe), world, steps);
    if entry_holds(entry, known.contents) {
        lemma_record(known, GuestRuntimeDiskStatus::Hit, world, (steps - 3) as nat);
    } else if !(entry.lookup is Failed) {
        assert(outcome == run(known, after, world, (steps - 1) as nat) || outcome == run(
            known,
            after,
            world,
            (steps - 2) as nat,
        ) || outcome == run(known, after, world, (steps - 3) as nat));
    }
}

proof fn lemma_create_under_lock<S>(known: Known, world: World<S>, steps: nat)
    requires
        steps >= 15,
        known.digest == runtime_identity(known.contents),
    ensures
        run(known, Step::CreateDirectory, world, steps) == Some(
            created_under_lock(known.cache, known.binary, known.contents, world),
        ),
{
    reveal_with_fuel(run, 4);
    if world.directory is Ok && world.lock_directory is Ok && world.lock is Ok {
        let steps = (steps - 3) as nat;
        lemma_entry(known, Probe::Locked, world.locked, world, steps);
        assert forall|left: nat| steps - 3 <= left implies #[trigger] run(
            known,
            Step::CreateTemporary,
            world,
            left,
        ) == Some(created(known.cache, known.binary, known.contents, world)) by {
            lemma_create(known, world, left);
        }
    }
}

proof fn lemma_index<S>(known: Known, world: World<S>, steps: nat)
    requires
        steps >= 20,
    ensures
        run(known, Step::ReadBinary, world, steps) == Some(
            indexed(known.given, known.cache, known.binary, known.source, world),
        ),
{
    reveal_with_fuel(run, 3);
    if world.contents is Ok {
        let contents = world.contents->Ok_0;
        let known = Known { contents, digest: runtime_identity(contents), ..known };
        let steps = (steps - 2) as nat;
        lemma_entry(known, Probe::Cached, world.cached, world, steps);
        assert forall|left: nat| steps - 3 <= left implies #[trigger] run(
            known,
            Step::CreateDirectory,
            world,
            left,
        ) == Some(created_under_lock(known.cache, known.binary, known.contents, world)) by {
            lemma_create_under_lock(known, world, left);
        }
    }
}

/// A preparation that is answered at every step finishes within 24 answers, and
/// its outcome is `prepared`, whatever the answers are.
pub proof fn law_preparation_outcome<S>(given: Seq<u8>, cache: Seq<u8>, world: World<S>)
    ensures
        run(known_at_start(given, cache), Step::Canonicalize, world, 24) == Some(
            prepared(given, cache, world),
        ),
{
    reveal_with_fuel(run, 5);
    if world.canonical is Ok {
        let binary = world.canonical->Ok_0;
        let known = Known { binary, ..known_at_start(given, cache) };
        match binary_snapshot_of(given, world.source) {
            Err(_) => {},
            Ok(source) => {
                let known = Known { source, ..known };
                lemma_index(known, world, 21);
                match world.record {
                    RecordRead::Found(record) => {
                        lemma_index(Known { record, ..known }, world, 20);
                    },
                    _ => {},
                }
            },
        }
    }
}

/// The host is asked, at every step, for the kind of answer that the step takes.
pub proof fn law_answers_fit<S>(world: World<S>, step: Step)
    ensures
        expects(step, world.reply(step)),
{
}

/// A warm call ends after the binary, the record and the disk were looked at:
/// the binary is not read and the disk is not opened.
pub proof fn law_warm_call_reads_no_contents<S>(
    given: Seq<u8>,
    cache: Seq<u8>,
    world: World<S>,
    binary: Seq<u8>,
    source: FileSnapshot,
    record: GuestRuntimeRecord<Seq<char>>,
    disk: FileFacts<S>,
)
    requires
        world.canonical == Ok::<Seq<u8>, S>(binary),
        binary_snapshot_of(given, world.source) == Ok::<FileSnapshot, Refusal<S>>(source),
        world.record == RecordRead::<S, GuestRuntimeRecord<Seq<char>>>::Found(record),
        record_admits(record, source),
        world.recorded == Lookup::Found(disk),
        disk.is_file,
        snapshot_of(disk) is Ok,
        record_keeps(record, snapshot_of(disk)->Ok_0),
    ensures
        run(known_at_start(given, cache), Step::Canonicalize, world, 4) == Some(
            Ok::<DiskView, Refusal<S>>(
                DiskView {
                    path: disk_path(cache, record.digest),
                    digest: record.digest,
                    status: GuestRuntimeDiskStatus::Hit,
                },
            ),
        ),
{
    reveal_with_fuel(run, 5);
}

/// The record that one preparation writes makes the next one reuse its disk, as
/// long as neither the binary nor the disk has changed.
pub proof fn law_recorded_disk_is_reused<S>(
    given: Seq<u8>,
    cache: Seq<u8>,
    world: World<S>,
    binary: Seq<u8>,
    source: FileSnapshot,
    digest: Seq<char>,
    disk: FileFacts<S>,
)
    requires
        is_digest_text(digest),
        disk_sized(disk),
        snapshot_of(disk) is Ok,
        world.canonical == Ok::<Seq<u8>, S>(binary),
        binary_snapshot_of(given, world.source) == Ok::<FileSnapshot, Refusal<S>>(source),
        world.record == RecordRead::<S, GuestRuntimeRecord<Seq<char>>>::Found(
            record_of(source, digest, snapshot_of(disk)->Ok_0),
        ),
        world.recorded == Lookup::Found(disk),
    ensures
        prepared(given, cache, world) == Ok::<DiskView, Refusal<S>>(
            DiskView {
                path: disk_path(cache, digest),
                digest,
                status: GuestRuntimeDiskStatus::Hit,
            },
        ),
{
}

/// Every prepared disk stands in the cache under its own digest.
pub proof fn law_disk_is_content_addressed<S>(given: Seq<u8>, cache: Seq<u8>, world: World<S>)
    ensures
        prepared(given, cache, world) matches Ok(disk) ==> disk.path == disk_path(
            cache,
            disk.digest,
        ),
{
}

/// Binaries with equal bytes, when they are indexed by their contents, get the
/// same digest and the same disk.
pub proof fn law_equal_binaries_share_a_disk<S>(
    cache: Seq<u8>,
    first_given: Seq<u8>,
    first: Seq<u8>,
    first_source: FileSnapshot,
    first_world: World<S>,
    second_given: Seq<u8>,
    second: Seq<u8>,
    second_source: FileSnapshot,
    second_world: World<S>,
)
    requires
        first_world.contents is Ok,
        second_world.contents is Ok,
        first_world.contents->Ok_0 == second_world.contents->Ok_0,
        indexed(first_given, cache, first, first_source, first_world) is Ok,
        indexed(second_given, cache, second, second_source, second_world) is Ok,
    ensures
        ({
            let one = indexed(first_given, cache, first, first_source, first_world)->Ok_0;
            let two = indexed(second_given, cache, second, second_source, second_world)->Ok_0;
            one.digest == two.digest && one.path == two.path && one.digest == runtime_identity(
                first_world.contents->Ok_0,
            )
        }),
{
}

/// A disk is reused only when the record vouches for it or when it was read back
/// and holds the binary byte for byte.
pub proof fn law_hit_is_vouched_or_identical<S>(given: Seq<u8>, cache: Seq<u8>, world: World<S>)
    requires
        prepared(given, cache, world) is Ok,
        prepared(given, cache, world)->Ok_0.status == GuestRuntimeDiskStatus::Hit,
    ensures
        ({
            let disk = prepared(given, cache, world)->Ok_0;
            let binary = world.canonical->Ok_0;
            let source = binary_snapshot_of(given, world.source)->Ok_0;
            ||| vouched(cache, binary, source, world) == Ok::<Option<DiskView>, Refusal<S>>(
                Some(disk),
            )
            ||| {
                &&& world.contents matches Ok(contents) && disk.digest == runtime_identity(contents)
                    && (entry_holds(world.cached, contents) || entry_holds(world.locked, contents))
            }
        }),
{
}

/// A disk is reported as created only when it was formatted under the lock, its
/// contents were read back equal to the binary, and it was published.
pub proof fn law_created_disk_is_validated<S>(given: Seq<u8>, cache: Seq<u8>, world: World<S>)
    requires
        prepared(given, cache, world) is Ok,
        prepared(given, cache, world)->Ok_0.status == GuestRuntimeDiskStatus::Created,
    ensures
        world.contents matches Ok(contents) && {
            &&& prepared(given, cache, world)->Ok_0.digest == runtime_identity(contents)
            &&& starts_as_elf(contents)
            &&& world.lock is Ok
            &&& !entry_holds(world.cached, contents)
            &&& !entry_holds(world.locked, contents)
            &&& world.format is Ok
            &&& world.prepared matches Ok(facts) && disk_sized(facts)
            &&& world.prepared_inode matches Ok(inode) && inode_fits(inode, contents.len())
            &&& world.prepared_contents == Ok::<Seq<u8>, S>(contents)
            &&& world.publish is Ok
            &&& world.store is Ok
        },
{
}

/// Where a preparation stands after the given number of answers; `None` once it is finished.
pub open spec fn standing<S>(given: Seq<u8>, cache: Seq<u8>, world: World<S>, answers: nat) -> Option<
    (Known, Step),
>
    decreases answers,
{
    if answers == 0 {
        Some((known_at_start(given, cache), Step::Canonicalize))
    } else {
        match standing(given, cache, world, (answers - 1) as nat) {
            None => None,
            Some((known, step)) => match advanced(known, step, world.reply(step)) {
                Advance::Continue(known, step) => Some((known, step)),
                _ => None,
            },
        }
    }
}

/// Whether a temporary disk exists at a step.
pub open spec fn holds_temporary(step: Step) -> bool {
    match step {
        Step::InspectDisk(probe) | Step::StatGuest(probe) | Step::ReadGuest(probe) => probe
            == Probe::Prepared,
        Step::Format | Step::Publish => true,
        _ => false,
    }
}

/// The temporary disk that exists after a step, given the one before it: it is
/// created and moved into place at the steps of that name, and removed when the
/// preparation says so.
pub open spec fn temporary_after<S>(
    before: Option<Seq<u8>>,
    step: Step,
    world: World<S>,
    advance: Advance<S>,
) -> Option<Seq<u8>> {
    match (step, world.reply(step), advance) {
        (Step::CreateTemporary, Answer::Path(Ok(path)), _) => Some(path),
        (Step::Publish, Answer::Done(Ok(_)), _) => None,
        (_, _, Advance::Discard(path, _)) if before == Some(path) => None,
        _ => before,
    }
}

/// The temporary disk that is left when a preparation has ended, after at most
/// `steps` answers; `None` when more are needed.
pub open spec fn left_behind<S>(
    known: Known,
    step: Step,
    world: World<S>,
    before: Option<Seq<u8>>,
    steps: nat,
) -> Option<Option<Seq<u8>>>
    decreases steps,
{
    if steps == 0 {
        None
    } else {
        let advance = advanced(known, step, world.reply(step));
        let after = temporary_after(before, step, world, advance);
        match advance {
            Advance::Continue(known, step) => left_behind(
                known,
                step,
                world,
                after,
                (steps - 1) as nat,
            ),
            _ => Some(after),
        }
    }
}

proof fn lemma_left_behind<S>(
    known: Known,
    step: Step,
    world: World<S>,
    before: Option<Seq<u8>>,
    steps: nat,
)
    requires
        before == if holds_temporary(step) {
            Some(known.temporary)
        } else {
            None
        },
    ensures
        left_behind(known, step, world, before, steps) is Some <==> run(known, step, world, steps)
            is Some,
        left_behind(known, step, world, before, steps) matches Some(left) ==> left is None,
    decreases steps,
{
    if steps > 0 {
        let advance = advanced(known, step, world.reply(step));
        let after = temporary_after(before, step, world, advance);
        match advance {
            Advance::Continue(known, step) => {
                lemma_left_behind(known, step, world, after, (steps - 1) as nat);
            },
            _ => {},
        }
    }
}

/// However a preparation ends, no temporary disk is left: it was moved into
/// place, or the host was told to remove it.
pub proof fn law_no_temporary_disk_is_left<S>(given: Seq<u8>, cache: Seq<u8>, world: World<S>)
    ensures
        left_behind(known_at_start(given, cache), Step::Canonicalize, world, None, 24) == Some(
            None::<Seq<u8>>,
        ),
{
    law_preparation_outcome(given, cache, world);
    lemma_left_behind(known_at_start(given, cache), Step::Canonicalize, world, None, 24);
}

/// Whether a step comes only after the lock was taken.
pub open spec fn needs_lock(step: Step) -> bool {
    match step {
        Step::InspectDisk(probe) | Step::StatGuest(probe) | Step::ReadGuest(probe) => probe
            != Probe::Cached,
        Step::CreateTemporary | Step::Format | Step::Publish => true,
        _ => false,
    }
}

/// In every state of a preparation: a temporary disk is created, formatted and
/// published only while the lock of its digest is held, and it is published only
/// after it was found to hold the binary byte for byte.
pub proof fn law_disk_is_written_under_lock_and_published_valid<S>(
    given: Seq<u8>,
    cache: Seq<u8>,
    world: World<S>,
    answers: nat,
)
    ensures
        standing(given, cache, world, answers) matches Some((known, step)) ==> {
            &&& known.cache == cache
            &&& needs_lock(step) ==> world.lock is Ok && known.digest == runtime_identity(
                known.contents,
            )
            &&& step == Step::Publish ==> new_disk_valid(known.temporary, known.contents, world)
                is Ok
        },
    decreases answers,
{
    lemma_standing(given, cache, world, answers);
}

proof fn lemma_standing<S>(given: Seq<u8>, cache: Seq<u8>, world: World<S>, answers: nat)
    ensures
        standing(given, cache, world, answers) matches Some((known, step)) ==> {
            &&& known.cache == cache
            &&& needs_lock(step) ==> world.lock is Ok
            &&& match step {
                Step::Canonicalize
                | Step::SnapshotBinary
                | Step::ReadRecord
                | Step::InspectRecorded
                | Step::ReadBinary
                | Step::RecheckBinary => true,
                _ => known.digest == runtime_identity(known.contents),
            }
            &&& match step {
                Step::StatGuest(Probe::Prepared) => world.prepared matches Ok(facts) && disk_sized(
                    facts,
                ),
                Step::ReadGuest(Probe::Prepared) => {
                    &&& world.prepared matches Ok(facts) && disk_sized(facts)
                    &&& world.prepared_inode matches Ok(inode) && inode_fits(
                        inode,
                        known.contents.len(),
                    )
                },
                Step::Publish => new_disk_valid(known.temporary, known.contents, world) is Ok,
                _ => true,
            }
        },
    decreases answers,
{
    if answers > 0 {
        lemma_standing(given, cache, world, (answers - 1) as nat);
    }
}

} // verus!
