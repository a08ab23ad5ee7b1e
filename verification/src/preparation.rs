//! Preparing a guest runtime disk, one host operation at a time.
//!
//! A [`Preparation`] says what it needs of the host with [`Preparation::ask`] and
//! takes the host's answer with [`Preparation::advance`], until it is finished.
use vstd::prelude::*;

use crate::digest::{runtime_digest, runtime_identity};
use crate::path::HostPath;
use crate::runtime_disk::{
    binary_snapshot, binary_snapshot_of, disk_directory_path, disk_path, inode_fits, is_elf,
    lock_directory_path, lock_path, record_admits, record_directory_path, record_keeps, record_of,
    record_path, runtime_disk_directory, runtime_disk_path, runtime_lock_directory,
    runtime_lock_path, runtime_record_directory, runtime_record_path, snapshot_of, starts_as_elf,
    DiskView, Fault, FileFacts, FileSnapshot, GuestInode, GuestRuntimeDisk, GuestRuntimeDiskError,
    GuestRuntimeDiskStatus, GuestRuntimeRecord, DISK_BYTES,
};
use crate::text::same_bytes;

verus! {

/// Which disk is being examined for the runtime binary.
#[derive(Clone, Copy, Debug, PartialEq, Eq, Structural)]
pub enum Probe {
    /// The cache entry, before its lock is taken.
    Cached,
    /// The cache entry, under its lock.
    Locked,
    /// The disk that was just formatted.
    Prepared,
}

/// The host operation that a preparation waits for.
#[derive(Clone, Copy, Debug, PartialEq, Eq, Structural)]
pub enum Step {
    Canonicalize,
    SnapshotBinary,
    ReadRecord,
    InspectRecorded,
    ReadBinary,
    RecheckBinary,
    InspectDisk(Probe),
    StatGuest(Probe),
    ReadGuest(Probe),
    CreateDirectory,
    CreateLockDirectory,
    AcquireLock,
    CreateTemporary,
    Format,
    Publish,
    InspectPublished(GuestRuntimeDiskStatus),
    CreateRecordDirectory(GuestRuntimeDiskStatus, FileSnapshot),
    StoreRecord(GuestRuntimeDiskStatus, FileSnapshot),
}

/// What the host is asked to do.
#[derive(Debug)]
pub enum Ask<P = HostPath, R = GuestRuntimeRecord> {
    /// Resolve a path to its canonical form.
    Canonicalize(P),
    /// Report the facts of a file that must exist.
    Inspect(P),
    /// Report the facts of a file that may be missing.
    LookUp(P),
    /// Read and decode a cache record.
    ReadRecord(P),
    /// Read a whole file.
    Read(P),
    /// Report the inode of the runtime binary inside a disk.
    StatGuest(P),
    /// Read the runtime binary inside a disk.
    ReadGuest(P),
    /// Create a directory and its parents.
    CreateDirectory(P),
    /// Open a file, creating it when missing, and lock it exclusively.
    Lock(P),
    /// Create a unique temporary file in a directory.
    CreateTemporary(P),
    /// Format a disk that holds the runtime binary.
    Format(P),
    /// Move a temporary file into place.
    Persist { from: P, to: P },
    /// Write a cache record through a temporary file in its directory.
    StoreRecord { directory: P, path: P, record: R },
}

/// Facts of a file that may be missing.
#[derive(Debug)]
pub enum Lookup<S> {
    Missing,
    Failed(S),
    Found(FileFacts<S>),
}

/// What reading a cache record gave.
#[derive(Debug)]
pub enum RecordRead<S, R = GuestRuntimeRecord> {
    Missing,
    Failed(S),
    Malformed,
    Found(R),
}

/// Where writing a cache record failed.
#[derive(Debug)]
pub enum StoreFault<S> {
    /// No temporary file could be created in the directory.
    Temporary(S),
    /// The record could not be written or moved into place.
    Record(S),
}

/// What the host answers.
#[derive(Debug)]
pub enum Answer<S, P = HostPath, B = Vec<u8>, R = GuestRuntimeRecord> {
    Path(Result<P, S>),
    Facts(Result<FileFacts<S>, S>),
    Lookup(Lookup<S>),
    Record(RecordRead<S, R>),
    Contents(Result<B, S>),
    Inode(Result<GuestInode, S>),
    Done(Result<(), S>),
    Stored(Result<(), StoreFault<S>>),
}

/// An answer over the values it carries.
pub type AnswerView<S> = Answer<S, Seq<u8>, Seq<u8>, GuestRuntimeRecord<Seq<char>>>;

impl<S> View for Answer<S> {
    type V = AnswerView<S>;

    open spec fn view(&self) -> AnswerView<S> {
        match *self {
            Answer::Path(Ok(path)) => Answer::Path(Ok(path@)),
            Answer::Path(Err(error)) => Answer::Path(Err(error)),
            Answer::Facts(facts) => Answer::Facts(facts),
            Answer::Lookup(lookup) => Answer::Lookup(lookup),
            Answer::Record(read) => Answer::Record(
                match read {
                    RecordRead::Missing => RecordRead::Missing,
                    RecordRead::Failed(error) => RecordRead::Failed(error),
                    RecordRead::Malformed => RecordRead::Malformed,
                    RecordRead::Found(record) => RecordRead::Found(record@),
                },
            ),
            Answer::Contents(Ok(contents)) => Answer::Contents(Ok(contents@)),
            Answer::Contents(Err(error)) => Answer::Contents(Err(error)),
            Answer::Inode(inode) => Answer::Inode(inode),
            Answer::Done(done) => Answer::Done(done),
            Answer::Stored(stored) => Answer::Stored(stored),
        }
    }
}

/// What a preparation has learnt so far; a field is empty before its step.
pub struct Known {
    pub given: Seq<u8>,
    pub cache: Seq<u8>,
    pub binary: Seq<u8>,
    pub source: FileSnapshot,
    pub record: GuestRuntimeRecord<Seq<char>>,
    pub contents: Seq<u8>,
    pub digest: Seq<char>,
    pub temporary: Seq<u8>,
}

/// What one answer leads to.
pub enum Advance<S> {
    Continue(Known, Step),
    Discard(Seq<u8>, GuestRuntimeDiskError<S, Seq<u8>>),
    Finished(Result<DiskView, GuestRuntimeDiskError<S, Seq<u8>>>),
}

/// Whether a step takes an answer of this kind.
pub open spec fn expects<S>(step: Step, answer: AnswerView<S>) -> bool {
    match step {
        Step::Canonicalize | Step::CreateTemporary => answer is Path,
        Step::SnapshotBinary | Step::RecheckBinary | Step::InspectPublished(_) => answer is Facts,
        Step::InspectDisk(Probe::Prepared) => answer is Facts,
        Step::InspectRecorded | Step::InspectDisk(_) => answer is Lookup,
        Step::ReadRecord => answer is Record,
        Step::ReadBinary | Step::ReadGuest(_) => answer is Contents,
        Step::StatGuest(_) => answer is Inode,
        Step::StoreRecord(..) => answer is Stored,
        _ => answer is Done,
    }
}

/// What the host is asked at a step.
pub open spec fn asked(known: Known, step: Step) -> Ask<Seq<u8>, GuestRuntimeRecord<Seq<char>>> {
    let disk = disk_path(known.cache, known.digest);
    match step {
        Step::Canonicalize => Ask::Canonicalize(known.given),
        Step::SnapshotBinary | Step::RecheckBinary => Ask::Inspect(known.binary),
        Step::ReadRecord => Ask::ReadRecord(record_path(known.cache, known.binary)),
        Step::InspectRecorded => Ask::LookUp(disk_path(known.cache, known.record.digest)),
        Step::ReadBinary => Ask::Read(known.binary),
        Step::InspectDisk(Probe::Prepared) => Ask::Inspect(known.temporary),
        Step::InspectDisk(_) => Ask::LookUp(disk),
        Step::StatGuest(Probe::Prepared) => Ask::StatGuest(known.temporary),
        Step::StatGuest(_) => Ask::StatGuest(disk),
        Step::ReadGuest(Probe::Prepared) => Ask::ReadGuest(known.temporary),
        Step::ReadGuest(_) => Ask::ReadGuest(disk),
        Step::CreateDirectory => Ask::CreateDirectory(
            disk_directory_path(known.cache, known.digest),
        ),
        Step::CreateLockDirectory => Ask::CreateDirectory(lock_directory_path(known.cache)),
        Step::AcquireLock => Ask::Lock(lock_path(known.cache, known.digest)),
        Step::CreateTemporary => Ask::CreateTemporary(
            disk_directory_path(known.cache, known.digest),
        ),
        Step::Format => Ask::Format(known.temporary),
        Step::Publish => Ask::Persist { from: known.temporary, to: disk },
        Step::InspectPublished(_) => Ask::Inspect(disk),
        Step::CreateRecordDirectory(..) => Ask::CreateDirectory(record_directory_path(known.cache)),
        Step::StoreRecord(_, snapshot) => Ask::StoreRecord {
            directory: record_directory_path(known.cache),
            path: record_path(known.cache, known.binary),
            record: record_of(known.source, known.digest, snapshot),
        },
    }
}

/// Ends a preparation with an error.
pub open spec fn failed<S>(error: GuestRuntimeDiskError<S, Seq<u8>>) -> Advance<S> {
    Advance::Finished(Err(error))
}

/// Ends a preparation because the cache could not be accessed at `path`.
pub open spec fn cache_failed<S>(path: Seq<u8>, error: S) -> Advance<S> {
    failed(GuestRuntimeDiskError::Cache { path, source: Fault::Host(error) })
}

/// Ends a preparation with an error, and its temporary disk with it.
pub open spec fn discarded<S>(known: Known, error: GuestRuntimeDiskError<S, Seq<u8>>) -> Advance<S> {
    Advance::Discard(known.temporary, error)
}

/// Ends a preparation because the new disk is not what it should be.
pub open spec fn invalid_disk<S>(known: Known, source: Option<S>) -> Advance<S> {
    discarded(
        known,
        GuestRuntimeDiskError::InvalidPreparedDisk { path: known.temporary, source },
    )
}

/// Whether a file can be a runtime disk at all.
pub open spec fn disk_sized<S>(facts: FileFacts<S>) -> bool {
    facts.is_file && facts.bytes == DISK_BYTES
}

/// Where a preparation goes on when the cache entry is not valid.
pub open spec fn without_entry(probe: Probe) -> Step {
    match probe {
        Probe::Cached => Step::CreateDirectory,
        _ => Step::CreateTemporary,
    }
}

/// What the answer to a step leads to.
pub open spec fn advanced<S>(known: Known, step: Step, answer: AnswerView<S>) -> Advance<S> {
    let disk = disk_path(known.cache, known.digest);
    match (step, answer) {
        (Step::Canonicalize, Answer::Path(Err(error))) => failed(
            GuestRuntimeDiskError::ReadBinary { path: known.given, source: Fault::Host(error) },
        ),
        (Step::Canonicalize, Answer::Path(Ok(binary))) => Advance::Continue(
            Known { binary, ..known },
            Step::SnapshotBinary,
        ),
        (Step::SnapshotBinary, Answer::Facts(facts)) => match binary_snapshot_of(
            known.given,
            facts,
        ) {
            Err(error) => failed(error),
            Ok(source) => Advance::Continue(Known { source, ..known }, Step::ReadRecord),
        },
        (Step::ReadRecord, Answer::Record(read)) => match read {
            RecordRead::Failed(error) => cache_failed(
                record_path(known.cache, known.binary),
                error,
            ),
            RecordRead::Found(record) if record_admits(record, known.source) => Advance::Continue(
                Known { record, ..known },
                Step::InspectRecorded,
            ),
            _ => Advance::Continue(known, Step::ReadBinary),
        },
        (Step::InspectRecorded, Answer::Lookup(lookup)) => {
            let recorded = disk_path(known.cache, known.record.digest);
            match lookup {
                Lookup::Missing => Advance::Continue(known, Step::ReadBinary),
                Lookup::Failed(error) => cache_failed(recorded, error),
                Lookup::Found(facts) => if !facts.is_file {
                    Advance::Continue(known, Step::ReadBinary)
                } else {
                    match snapshot_of(facts) {
                        Err(source) => failed(
                            GuestRuntimeDiskError::Cache { path: recorded, source },
                        ),
                        Ok(snapshot) => if record_keeps(known.record, snapshot) {
                            Advance::Finished(
                                Ok(
                                    DiskView {
                                        path: recorded,
                                        digest: known.record.digest,
                                        status: GuestRuntimeDiskStatus::Hit,
                                    },
                                ),
                            )
                        } else {
                            Advance::Continue(known, Step::ReadBinary)
                        },
                    }
                },
            }
        },
        (Step::ReadBinary, Answer::Contents(Err(error))) => failed(
            GuestRuntimeDiskError::ReadBinary { path: known.given, source: Fault::Host(error) },
        ),
        (Step::ReadBinary, Answer::Contents(Ok(contents))) => if starts_as_elf(contents) {
            Advance::Continue(Known { contents, ..known }, Step::RecheckBinary)
        } else {
            failed(GuestRuntimeDiskError::NotElf(known.binary))
        },
        (Step::RecheckBinary, Answer::Facts(facts)) => match binary_snapshot_of(
            known.given,
            facts,
        ) {
            Err(error) => failed(error),
            Ok(source) => if source == known.source {
                Advance::Continue(
                    Known { digest: runtime_identity(known.contents), ..known },
                    Step::InspectDisk(Probe::Cached),
                )
            } else {
                failed(GuestRuntimeDiskError::BinaryChanged(known.binary))
            },
        },
        (Step::InspectDisk(Probe::Prepared), Answer::Facts(facts)) => match facts {
            Err(error) => discarded(
                known,
                GuestRuntimeDiskError::Cache { path: known.temporary, source: Fault::Host(error) },
            ),
            Ok(facts) => if disk_sized(facts) {
                Advance::Continue(known, Step::StatGuest(Probe::Prepared))
            } else {
                invalid_disk(known, None)
            },
        },
        (Step::InspectDisk(probe), Answer::Lookup(lookup)) => match lookup {
            Lookup::Failed(error) => cache_failed(disk, error),
            Lookup::Found(facts) if disk_sized(facts) => Advance::Continue(
                known,
                Step::StatGuest(probe),
            ),
            _ => Advance::Continue(known, without_entry(probe)),
        },
        (Step::StatGuest(probe), Answer::Inode(inode)) => match inode {
            Ok(inode) if inode_fits(inode, known.contents.len()) => Advance::Continue(
                known,
                Step::ReadGuest(probe),
            ),
            Ok(_) if probe is Prepared => invalid_disk(known, None),
            Err(error) if probe is Prepared => invalid_disk(known, Some(error)),
            _ => Advance::Continue(known, without_entry(probe)),
        },
        (Step::ReadGuest(probe), Answer::Contents(read)) => match read {
            Ok(contents) if contents == known.contents => Advance::Continue(
                known,
                if probe is Prepared {
                    Step::Publish
                } else {
                    Step::InspectPublished(GuestRuntimeDiskStatus::Hit)
                },
            ),
            Ok(_) if probe is Prepared => invalid_disk(known, None),
            Err(error) if probe is Prepared => invalid_disk(known, Some(error)),
            _ => Advance::Continue(known, without_entry(probe)),
        },
        (Step::CreateTemporary, Answer::Path(Err(error))) => cache_failed(
            disk_directory_path(known.cache, known.digest),
            error,
        ),
        (Step::CreateTemporary, Answer::Path(Ok(temporary))) => Advance::Continue(
            Known { temporary, ..known },
            Step::Format,
        ),
        (Step::Format, Answer::Done(Err(error))) => discarded(
            known,
            GuestRuntimeDiskError::Format(error),
        ),
        (Step::Publish, Answer::Done(Err(error))) => discarded(
            known,
            GuestRuntimeDiskError::Cache { path: disk, source: Fault::Host(error) },
        ),
        (Step::InspectPublished(status), Answer::Facts(facts)) => match facts {
            Err(error) => cache_failed(disk, error),
            Ok(facts) => match snapshot_of(facts) {
                Err(source) => failed(GuestRuntimeDiskError::Cache { path: disk, source }),
                Ok(snapshot) => Advance::Continue(
                    known,
                    Step::CreateRecordDirectory(status, snapshot),
                ),
            },
        },
        (Step::StoreRecord(status, _), Answer::Stored(stored)) => match stored {
            Err(StoreFault::Temporary(error)) => cache_failed(
                record_directory_path(known.cache),
                error,
            ),
            Err(StoreFault::Record(error)) => cache_failed(
                record_path(known.cache, known.binary),
                error,
            ),
            Ok(_) => Advance::Finished(
                Ok(DiskView { path: disk, digest: known.digest, status }),
            ),
        },
        (_, Answer::Done(Err(error))) => cache_failed(
            match step {
                Step::CreateDirectory => disk_directory_path(known.cache, known.digest),
                Step::CreateLockDirectory => lock_directory_path(known.cache),
                Step::AcquireLock => lock_path(known.cache, known.digest),
                Step::CreateRecordDirectory(..) => record_directory_path(known.cache),
                _ => disk,
            },
            error,
        ),
        _ => Advance::Continue(
            known,
            match step {
                Step::CreateDirectory => Step::CreateLockDirectory,
                Step::CreateLockDirectory => Step::AcquireLock,
                Step::AcquireLock => Step::InspectDisk(Probe::Locked),
                Step::Format => Step::InspectDisk(Probe::Prepared),
                Step::Publish => Step::InspectPublished(GuestRuntimeDiskStatus::Created),
                Step::CreateRecordDirectory(status, snapshot) => Step::StoreRecord(
                    status,
                    snapshot,
                ),
                other => other,
            },
        ),
    }
}

/// A guest runtime disk in preparation.
#[derive(Debug)]
pub struct Preparation {
    given: HostPath,
    cache: HostPath,
    binary: HostPath,
    source: FileSnapshot,
    record: GuestRuntimeRecord,
    contents: Vec<u8>,
    digest: String,
    temporary: HostPath,
    step: Step,
}

/// What an answer led to.
#[derive(Debug)]
pub enum Progress<S> {
    /// The host is needed again.
    Continue(Preparation),
    /// The disk cannot be prepared. The host removes what there is of it at
    /// `temporary`; whether it can changes nothing about the error.
    Discard { temporary: HostPath, error: GuestRuntimeDiskError<S> },
    /// The disk is ready, or cannot be prepared.
    Finished(Result<GuestRuntimeDisk, GuestRuntimeDiskError<S>>),
}

impl<S> View for Progress<S> {
    type V = Advance<S>;

    open spec fn view(&self) -> Advance<S> {
        match *self {
            Progress::Continue(preparation) => Advance::Continue(
                preparation.known(),
                preparation.at(),
            ),
            Progress::Discard { temporary, error } => Advance::Discard(temporary@, error@),
            Progress::Finished(Ok(disk)) => Advance::Finished(Ok(disk@)),
            Progress::Finished(Err(error)) => Advance::Finished(Err(error@)),
        }
    }
}

/// What is known when a preparation starts.
pub open spec fn known_at_start(given: Seq<u8>, cache: Seq<u8>) -> Known {
    let nothing = FileSnapshot { bytes: 0, modified_unix_ns: 0 };
    Known {
        given,
        cache,
        binary: Seq::empty(),
        source: nothing,
        record: record_of(nothing, Seq::empty(), nothing),
        contents: Seq::empty(),
        digest: Seq::empty(),
        temporary: Seq::empty(),
    }
}

fn cache_failure<S>(path: HostPath, source: Fault<S>) -> (progress: Progress<S>)
    ensures
        progress@ == failed::<S>(GuestRuntimeDiskError::Cache { path: path@, source }),
{
    Progress::Finished(Err(GuestRuntimeDiskError::Cache { path, source }))
}

impl Preparation {
    /// What this preparation has learnt.
    pub closed spec fn known(&self) -> Known {
        Known {
            given: self.given@,
            cache: self.cache@,
            binary: self.binary@,
            source: self.source,
            record: self.record@,
            contents: self.contents@,
            digest: self.digest@,
            temporary: self.temporary@,
        }
    }

    /// The step that this preparation waits at.
    pub closed spec fn at(&self) -> Step {
        self.step
    }

    /// Starts preparing the disk of `binary` in the VM cache rooted at `cache`.
    pub fn start(binary: HostPath, cache: HostPath) -> (preparation: Preparation)
        ensures
            preparation.known() == known_at_start(binary@, cache@),
            preparation.at() == Step::Canonicalize,
    {
        let nothing = FileSnapshot { bytes: 0, modified_unix_ns: 0 };
        proof {
            reveal_strlit("");
        }
        assert(""@ =~= Seq::<char>::empty());
        let preparation = Preparation {
            given: binary,
            cache,
            binary: HostPath::from_bytes(Vec::new()),
            source: nothing,
            record: GuestRuntimeRecord::new(nothing, "", nothing),
            contents: Vec::new(),
            digest: String::new(),
            temporary: HostPath::from_bytes(Vec::new()),
            step: Step::Canonicalize,
        };
        preparation
    }

    /// The step that this preparation waits at.
    pub fn step(&self) -> (step: Step)
        ensures
            step == self.at(),
    {
        self.step
    }

    /// The runtime binary that a new disk must hold.
    pub fn contents(&self) -> (contents: &[u8])
        ensures
            contents@ == self.known().contents,
    {
        self.contents.as_slice()
    }

    fn disk(&self) -> (path: HostPath)
        ensures
            path@ == disk_path(self.known().cache, self.known().digest),
    {
        runtime_disk_path(&self.cache, self.digest.as_str())
    }

    fn directory(&self) -> (path: HostPath)
        ensures
            path@ == disk_directory_path(self.known().cache, self.known().digest),
    {
        runtime_disk_directory(&self.cache, self.digest.as_str())
    }

    fn go<S>(self, step: Step) -> (progress: Progress<S>)
        ensures
            progress@ == Advance::<S>::Continue(self.known(), step),
    {
        let mut next = self;
        next.step = step;
        Progress::Continue(next)
    }

    fn invalid<S>(self, source: Option<S>) -> (progress: Progress<S>)
        ensures
            progress@ == invalid_disk(self.known(), source),
    {
        let path = self.temporary.duplicate();
        self.discard(GuestRuntimeDiskError::InvalidPreparedDisk { path, source })
    }

    fn discard<S>(self, error: GuestRuntimeDiskError<S>) -> (progress: Progress<S>)
        ensures
            progress@ == discarded(self.known(), error@),
    {
        Progress::Discard { temporary: self.temporary, error }
    }
}

impl View for Ask {
    type V = Ask<Seq<u8>, GuestRuntimeRecord<Seq<char>>>;

    open spec fn view(&self) -> Ask<Seq<u8>, GuestRuntimeRecord<Seq<char>>> {
        match *self {
            Ask::Canonicalize(path) => Ask::Canonicalize(path@),
            Ask::Inspect(path) => Ask::Inspect(path@),
            Ask::LookUp(path) => Ask::LookUp(path@),
            Ask::ReadRecord(path) => Ask::ReadRecord(path@),
            Ask::Read(path) => Ask::Read(path@),
            Ask::StatGuest(path) => Ask::StatGuest(path@),
            Ask::ReadGuest(path) => Ask::ReadGuest(path@),
            Ask::CreateDirectory(path) => Ask::CreateDirectory(path@),
            Ask::Lock(path) => Ask::Lock(path@),
            Ask::CreateTemporary(path) => Ask::CreateTemporary(path@),
            Ask::Format(path) => Ask::Format(path@),
            Ask::Persist { from, to } => Ask::Persist { from: from@, to: to@ },
            Ask::StoreRecord { directory, path, record } => Ask::StoreRecord {
                directory: directory@,
                path: path@,
                record: record@,
            },
        }
    }
}

impl Preparation {
    /// What the host must do next.
    pub fn ask(&self) -> (ask: Ask)
        ensures
            ask@ == asked(self.known(), self.at()),
    {
        match self.step {
            Step::Canonicalize => Ask::Canonicalize(self.given.duplicate()),
            Step::SnapshotBinary | Step::RecheckBinary => Ask::Inspect(self.binary.duplicate()),
            Step::ReadRecord => Ask::ReadRecord(runtime_record_path(&self.cache, &self.binary)),
            Step::InspectRecorded => Ask::LookUp(
                runtime_disk_path(&self.cache, self.record.digest.as_str()),
            ),
            Step::ReadBinary => Ask::Read(self.binary.duplicate()),
            Step::InspectDisk(Probe::Prepared) => Ask::Inspect(self.temporary.duplicate()),
            Step::InspectDisk(_) => Ask::LookUp(self.disk()),
            Step::StatGuest(Probe::Prepared) => Ask::StatGuest(self.temporary.duplicate()),
            Step::StatGuest(_) => Ask::StatGuest(self.disk()),
            Step::ReadGuest(Probe::Prepared) => Ask::ReadGuest(self.temporary.duplicate()),
            Step::ReadGuest(_) => Ask::ReadGuest(self.disk()),
            Step::CreateDirectory => Ask::CreateDirectory(self.directory()),
            Step::CreateLockDirectory => Ask::CreateDirectory(runtime_lock_directory(&self.cache)),
            Step::AcquireLock => Ask::Lock(runtime_lock_path(&self.cache, self.digest.as_str())),
            Step::CreateTemporary => Ask::CreateTemporary(self.directory()),
            Step::Format => Ask::Format(self.temporary.duplicate()),
            Step::Publish => Ask::Persist { from: self.temporary.duplicate(), to: self.disk() },
            Step::InspectPublished(_) => Ask::Inspect(self.disk()),
            Step::CreateRecordDirectory(_, _) => Ask::CreateDirectory(
                runtime_record_directory(&self.cache),
            ),
            Step::StoreRecord(_, snapshot) => Ask::StoreRecord {
                directory: runtime_record_directory(&self.cache),
                path: runtime_record_path(&self.cache, &self.binary),
                record: GuestRuntimeRecord::new(self.source, self.digest.as_str(), snapshot),
            },
        }
    }

    fn without_entry<S>(self, probe: Probe) -> (progress: Progress<S>)
        ensures
            progress@ == Advance::<S>::Continue(self.known(), without_entry(probe)),
    {
        match probe {
            Probe::Cached => self.go(Step::CreateDirectory),
            _ => self.go(Step::CreateTemporary),
        }
    }

    fn took_record<S>(self, read: RecordRead<S>) -> (progress: Progress<S>)
        ensures
            progress@ == advanced(self.known(), Step::ReadRecord, Answer::Record(read)@),
    {
        match read {
            RecordRead::Failed(error) => cache_failure(
                runtime_record_path(&self.cache, &self.binary),
                Fault::Host(error),
            ),
            RecordRead::Found(record) => {
                if record.admits(self.source) {
                    let mut next = self;
                    next.record = record;
                    next.go(Step::InspectRecorded)
                } else {
                    self.go(Step::ReadBinary)
                }
            },
            _ => self.go(Step::ReadBinary),
        }
    }

    fn took_recorded_disk<S>(self, lookup: Lookup<S>) -> (progress: Progress<S>)
        ensures
            progress@ == advanced(self.known(), Step::InspectRecorded, Answer::Lookup(lookup)@),
    {
        let path = runtime_disk_path(&self.cache, self.record.digest.as_str());
        match lookup {
            Lookup::Missing => self.go(Step::ReadBinary),
            Lookup::Failed(error) => cache_failure(path, Fault::Host(error)),
            Lookup::Found(facts) => {
                if !facts.is_file {
                    return self.go(Step::ReadBinary);
                }
                match FileSnapshot::from_metadata(facts) {
                    Err(source) => cache_failure(path, source),
                    Ok(snapshot) => {
                        if self.record.keeps(snapshot) {
                            Progress::Finished(
                                Ok(
                                    GuestRuntimeDisk::new(
                                        path,
                                        self.record.digest,
                                        GuestRuntimeDiskStatus::Hit,
                                    ),
                                ),
                            )
                        } else {
                            self.go(Step::ReadBinary)
                        }
                    },
                }
            },
        }
    }

    fn took_inode<S>(self, probe: Probe, inode: Result<GuestInode, S>) -> (progress: Progress<S>)
        ensures
            progress@ == advanced(self.known(), Step::StatGuest(probe), Answer::Inode(inode)@),
    {
        match inode {
            Ok(inode) => {
                if inode.fits(self.contents.len()) {
                    self.go(Step::ReadGuest(probe))
                } else if probe == Probe::Prepared {
                    self.invalid(None)
                } else {
                    self.without_entry(probe)
                }
            },
            Err(error) => {
                if probe == Probe::Prepared {
                    self.invalid(Some(error))
                } else {
                    self.without_entry(probe)
                }
            },
        }
    }

    fn took_guest<S>(self, probe: Probe, read: Result<Vec<u8>, S>) -> (progress: Progress<S>)
        ensures
            progress@ == advanced(self.known(), Step::ReadGuest(probe), Answer::Contents(read)@),
    {
        match read {
            Ok(contents) => {
                if same_bytes(contents.as_slice(), self.contents.as_slice()) {
                    if probe == Probe::Prepared {
                        self.go(Step::Publish)
                    } else {
                        self.go(Step::InspectPublished(GuestRuntimeDiskStatus::Hit))
                    }
                } else if probe == Probe::Prepared {
                    self.invalid(None)
                } else {
                    self.without_entry(probe)
                }
            },
            Err(error) => {
                if probe == Probe::Prepared {
                    self.invalid(Some(error))
                } else {
                    self.without_entry(probe)
                }
            },
        }
    }

    fn took_done<S>(self, done: Result<(), S>) -> (progress: Progress<S>)
        requires
            expects(self.at(), AnswerView::<S>::Done(done)),
        ensures
            progress@ == advanced(self.known(), self.at(), Answer::Done(done)@),
    {
        match done {
            Ok(_) => match self.step {
                Step::CreateDirectory => self.go(Step::CreateLockDirectory),
                Step::CreateLockDirectory => self.go(Step::AcquireLock),
                Step::AcquireLock => self.go(Step::InspectDisk(Probe::Locked)),
                Step::Format => self.go(Step::InspectDisk(Probe::Prepared)),
                Step::Publish => self.go(Step::InspectPublished(GuestRuntimeDiskStatus::Created)),
                Step::CreateRecordDirectory(status, snapshot) => self.go(
                    Step::StoreRecord(status, snapshot),
                ),
                other => self.go(other),
            },
            Err(error) => match self.step {
                Step::Format => self.discard(GuestRuntimeDiskError::Format(error)),
                Step::Publish => {
                    let path = self.disk();
                    self.discard(GuestRuntimeDiskError::Cache { path, source: Fault::Host(error) })
                },
                Step::CreateDirectory => cache_failure(self.directory(), Fault::Host(error)),
                Step::CreateLockDirectory => cache_failure(
                    runtime_lock_directory(&self.cache),
                    Fault::Host(error),
                ),
                Step::AcquireLock => cache_failure(
                    runtime_lock_path(&self.cache, self.digest.as_str()),
                    Fault::Host(error),
                ),
                Step::CreateRecordDirectory(_, _) => cache_failure(
                    runtime_record_directory(&self.cache),
                    Fault::Host(error),
                ),
                _ => cache_failure(self.disk(), Fault::Host(error)),
            },
        }
    }

    /// Takes the host's answer to what was asked.
    pub fn advance<S>(self, answer: Answer<S>) -> (progress: Progress<S>)
        requires
            expects(self.at(), answer@),
        ensures
            progress@ == advanced(self.known(), self.at(), answer@),
    {
        match (self.step, answer) {
            (Step::Canonicalize, Answer::Path(Err(error))) => Progress::Finished(
                Err(
                    GuestRuntimeDiskError::ReadBinary {
                        path: self.given,
                        source: Fault::Host(error),
                    },
                ),
            ),
            (Step::Canonicalize, Answer::Path(Ok(binary))) => {
                let mut next = self;
                next.binary = binary;
                next.go(Step::SnapshotBinary)
            },
            (Step::SnapshotBinary, Answer::Facts(facts)) => match binary_snapshot(
                &self.given,
                facts,
            ) {
                Err(error) => Progress::Finished(Err(error)),
                Ok(source) => {
                    let mut next = self;
                    next.source = source;
                    next.go(Step::ReadRecord)
                },
            },
            (Step::ReadRecord, Answer::Record(read)) => self.took_record(read),
            (Step::InspectRecorded, Answer::Lookup(lookup)) => self.took_recorded_disk(lookup),
            (Step::ReadBinary, Answer::Contents(Err(error))) => Progress::Finished(
                Err(
                    GuestRuntimeDiskError::ReadBinary {
                        path: self.given,
                        source: Fault::Host(error),
                    },
                ),
            ),
            (Step::ReadBinary, Answer::Contents(Ok(contents))) => {
                if is_elf(contents.as_slice()) {
                    let mut next = self;
                    next.contents = contents;
                    next.go(Step::RecheckBinary)
                } else {
                    Progress::Finished(Err(GuestRuntimeDiskError::NotElf(self.binary)))
                }
            },
            (Step::RecheckBinary, Answer::Facts(facts)) => match binary_snapshot(
                &self.given,
                facts,
            ) {
                Err(error) => Progress::Finished(Err(error)),
                Ok(source) => {
                    if source == self.source {
                        let mut next = self;
                        next.digest = runtime_digest(next.contents.as_slice());
                        next.go(Step::InspectDisk(Probe::Cached))
                    } else {
                        Progress::Finished(Err(GuestRuntimeDiskError::BinaryChanged(self.binary)))
                    }
                },
            },
            (Step::InspectDisk(Probe::Prepared), Answer::Facts(facts)) => match facts {
                Err(error) => {
                    let path = self.temporary.duplicate();
                    self.discard(GuestRuntimeDiskError::Cache { path, source: Fault::Host(error) })
                },
                Ok(facts) => {
                    if facts.is_file && facts.bytes == DISK_BYTES {
                        self.go(Step::StatGuest(Probe::Prepared))
                    } else {
                        self.invalid(None)
                    }
                },
            },
            (Step::InspectDisk(probe), Answer::Lookup(lookup)) => match lookup {
                Lookup::Missing => self.without_entry(probe),
                Lookup::Failed(error) => cache_failure(self.disk(), Fault::Host(error)),
                Lookup::Found(facts) => {
                    if facts.is_file && facts.bytes == DISK_BYTES {
                        self.go(Step::StatGuest(probe))
                    } else {
                        self.without_entry(probe)
                    }
                },
            },
            (Step::StatGuest(probe), Answer::Inode(inode)) => self.took_inode(probe, inode),
            (Step::ReadGuest(probe), Answer::Contents(read)) => self.took_guest(probe, read),
            (Step::CreateTemporary, Answer::Path(Err(error))) => cache_failure(
                self.directory(),
                Fault::Host(error),
            ),
            (Step::CreateTemporary, Answer::Path(Ok(temporary))) => {
                let mut next = self;
                next.temporary = temporary;
                next.go(Step::Format)
            },
            (Step::InspectPublished(status), Answer::Facts(facts)) => match facts {
                Err(error) => cache_failure(self.disk(), Fault::Host(error)),
                Ok(facts) => match FileSnapshot::from_metadata(facts) {
                    Err(source) => cache_failure(self.disk(), source),
                    Ok(snapshot) => self.go(Step::CreateRecordDirectory(status, snapshot)),
                },
            },
            (Step::StoreRecord(status, _), Answer::Stored(stored)) => match stored {
                Err(StoreFault::Temporary(error)) => cache_failure(
                    runtime_record_directory(&self.cache),
                    Fault::Host(error),
                ),
                Err(StoreFault::Record(error)) => cache_failure(
                    runtime_record_path(&self.cache, &self.binary),
                    Fault::Host(error),
                ),
                Ok(_) => {
                    let path = self.disk();
                    Progress::Finished(Ok(GuestRuntimeDisk::new(path, self.digest, status)))
                },
            },
            (_, Answer::Done(done)) => self.took_done(done),
            (step, _) => self.go(step),
        }
    }
}

} // verus!
