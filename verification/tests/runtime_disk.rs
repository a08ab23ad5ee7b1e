use std::collections::BTreeMap;

use nanocodex::digest::{hex_text, is_sha256_digest, runtime_digest};
use nanocodex::path::HostPath;
use nanocodex::preparation::{
    Answer, Ask, Lookup, Preparation, Progress, RecordRead, Step, StoreFault,
};
use nanocodex::runtime_disk::{
    binary_snapshot, guest_mode, is_elf, runtime_lock_path, runtime_record_path, Fault, FileFacts,
    FileSnapshot, GuestInode, GuestRuntimeDisk, GuestRuntimeDiskError, GuestRuntimeDiskStatus,
    GuestRuntimeRecord, DISK_BYTES,
};

type DiskError = GuestRuntimeDiskError<String>;

/// What one path of the host leads to.
#[derive(Clone)]
enum Node {
    File(Vec<u8>),
    Disk { mode: u16, guest: Vec<u8> },
    Record(GuestRuntimeRecord),
    Malformed,
    Directory,
}

/// A host in memory. Every change of a node gives it a new modification time.
#[derive(Default)]
struct Host {
    nodes: BTreeMap<Vec<u8>, (Node, u64)>,
    clock: u64,
    asked: Vec<String>,
    /// A name of a path, and its canonical form.
    alias: Option<(HostPath, HostPath)>,
    /// Asks that fail, by their beginning.
    fails: Option<&'static str>,
    /// Whether the binary changes after it was read.
    unstable: bool,
    /// Whether a temporary disk was discarded.
    discarded: bool,
    /// Contents that a formatter writes in place of the right ones.
    damages: bool,
}

impl Host {
    fn put(&mut self, path: &HostPath, node: Node) {
        self.clock += 1;
        self.nodes
            .insert(path.as_bytes().to_vec(), (node, self.clock));
    }

    fn get(&self, path: &HostPath) -> Option<&(Node, u64)> {
        self.nodes.get(path.as_bytes())
    }

    fn facts(&self, path: &HostPath) -> Option<FileFacts<String>> {
        self.get(path).map(|(node, modified)| FileFacts {
            is_file: !matches!(node, Node::Directory),
            bytes: match node {
                Node::File(bytes) => bytes.len() as u64,
                Node::Disk { .. } => DISK_BYTES,
                _ => 100,
            },
            modified: Ok(u128::from(*modified)),
        })
    }

    fn missing(path: &HostPath) -> String {
        format!("{} is missing", path.display())
    }

    fn guest(&self, path: &HostPath) -> Result<(u16, Vec<u8>), String> {
        match self.get(path) {
            Some((Node::Disk { mode, guest }, _)) => Ok((*mode, guest.clone())),
            _ => Err("not a disk".to_owned()),
        }
    }

    fn answer(&mut self, preparation: &Preparation) -> Answer<String> {
        let ask = preparation.ask();
        let name = format!("{ask:?}");
        self.asked
            .push(name.chars().take_while(|c| c.is_alphabetic()).collect());
        let failing = self.fails.is_some_and(|start| name.starts_with(start));
        let done = if failing {
            Err("refused".to_owned())
        } else {
            Ok(())
        };
        match ask {
            Ask::Canonicalize(path) => Answer::Path(match (&self.alias, self.get(&path)) {
                (Some((name, canonical)), _) if *name == path => Ok(canonical.duplicate()),
                (_, Some(_)) => Ok(path),
                (_, None) => Err(Host::missing(&path)),
            }),
            Ask::Inspect(path) => {
                Answer::Facts(self.facts(&path).ok_or_else(|| Host::missing(&path)))
            }
            Ask::LookUp(path) => Answer::Lookup(match self.facts(&path) {
                _ if failing => Lookup::Failed("refused".to_owned()),
                Some(facts) => Lookup::Found(facts),
                None => Lookup::Missing,
            }),
            Ask::ReadRecord(path) => Answer::Record(match self.get(&path) {
                _ if failing => RecordRead::Failed("refused".to_owned()),
                Some((Node::Record(record), _)) => RecordRead::Found(record.clone()),
                Some(_) => RecordRead::Malformed,
                None => RecordRead::Missing,
            }),
            Ask::Read(path) => {
                let contents = match self.get(&path) {
                    Some((Node::File(bytes), _)) => Ok(bytes.clone()),
                    _ => Err(Host::missing(&path)),
                };
                if self.unstable {
                    self.put(&path, Node::File(b"\x7fELF other".to_vec()));
                }
                Answer::Contents(contents)
            }
            Ask::StatGuest(path) => Answer::Inode(self.guest(&path).map(|(mode, guest)| {
                GuestInode {
                    mode,
                    bytes: guest.len() as u64,
                }
            })),
            Ask::ReadGuest(path) => Answer::Contents(self.guest(&path).map(|(_, guest)| guest)),
            Ask::CreateDirectory(path) => {
                self.put(&path, Node::Directory);
                Answer::Done(done)
            }
            Ask::Lock(_) => Answer::Done(done),
            Ask::CreateTemporary(directory) => Answer::Path(if failing {
                Err("refused".to_owned())
            } else {
                Ok(directory.join(".runtime.tmp"))
            }),
            Ask::Format(path) => {
                let mut guest = preparation.contents().to_vec();
                if self.damages {
                    guest.reverse();
                }
                let mode = guest_mode();
                self.put(&path, Node::Disk { mode, guest });
                Answer::Done(done)
            }
            Ask::Persist { from, to } => {
                if !failing {
                    let node = self.get(&from).unwrap().0.clone();
                    self.nodes.remove(from.as_bytes());
                    self.put(&to, node);
                }
                Answer::Done(done)
            }
            Ask::StoreRecord { path, record, .. } => {
                self.put(&path, Node::Record(record));
                Answer::Stored(done.map_err(StoreFault::Record))
            }
        }
    }

    fn prepare(&mut self, binary: &HostPath, cache: &HostPath) -> Result<GuestRuntimeDisk, DiskError> {
        self.asked.clear();
        let mut preparation = Preparation::start(binary.duplicate(), cache.duplicate());
        for _ in 0..24 {
            let answer = self.answer(&preparation);
            match preparation.advance(answer) {
                Progress::Continue(next) => preparation = next,
                Progress::Discard { temporary, error } => {
                    self.discarded = true;
                    self.nodes.remove(temporary.as_bytes());
                    return Err(error);
                }
                Progress::Finished(outcome) => return outcome,
            }
        }
        panic!("a preparation ends within twenty-four answers");
    }
}

fn scene(bytes: &[u8]) -> (Host, HostPath, HostPath) {
    let mut host = Host::default();
    let binary = HostPath::from_text("/bin/nanocodex-vm-guest");
    host.put(&binary, Node::File(bytes.to_vec()));
    (host, binary, HostPath::from_text("/cache"))
}

#[test]
fn prepares_valid_content_addressed_disk_and_reuses_it() {
    let bytes = b"\x7fELF deterministic guest runtime";
    let (mut host, binary, cache) = scene(bytes);

    let created = host.prepare(&binary, &cache).unwrap();
    assert_eq!(created.status(), GuestRuntimeDiskStatus::Created);
    assert_eq!(created.digest(), runtime_digest(bytes));
    assert_eq!(
        *created.path(),
        cache
            .join("runtimes")
            .join(created.digest())
            .join("runtime.ext4")
    );

    let (mode, guest) = host.guest(created.path()).unwrap();
    assert_eq!(mode & 0xF000, 0x8000);
    assert_eq!(guest.len(), bytes.len());
    assert_eq!(mode & 0o777, 0o755);
    assert_eq!(guest, bytes);

    let reused = host.prepare(&binary, &cache).unwrap();
    assert_eq!(reused.status(), GuestRuntimeDiskStatus::Hit);
    assert_eq!(reused.path(), created.path());
    assert_eq!(reused.digest(), created.digest());
    assert_eq!(
        host.asked,
        ["Canonicalize", "Inspect", "ReadRecord", "LookUp"]
    );
}

#[test]
fn repairs_an_invalid_cache_entry_under_the_same_identity() {
    let bytes = b"\x7fELF repaired guest runtime";
    let (mut host, binary, cache) = scene(bytes);
    let first = host.prepare(&binary, &cache).unwrap();
    host.put(first.path(), Node::File(b"corrupt".to_vec()));

    let repaired = host.prepare(&binary, &cache).unwrap();

    assert_eq!(repaired.status(), GuestRuntimeDiskStatus::Created);
    assert_eq!(host.guest(repaired.path()).unwrap().1, bytes);
}

#[test]
fn repairs_same_sized_runtime_content_corruption() {
    let bytes = b"\x7fELF original guest runtime";
    let (mut host, binary, cache) = scene(bytes);
    let first = host.prepare(&binary, &cache).unwrap();

    let mut replacement = bytes.to_vec();
    let last = replacement.last_mut().unwrap();
    *last ^= 1;
    host.put(
        first.path(),
        Node::Disk {
            mode: guest_mode(),
            guest: replacement,
        },
    );

    let repaired = host.prepare(&binary, &cache).unwrap();

    assert_eq!(repaired.status(), GuestRuntimeDiskStatus::Created);
    assert_eq!(host.guest(repaired.path()).unwrap().1, bytes);
}

#[test]
fn an_identical_disk_is_reused_without_its_record() {
    let (mut host, binary, cache) = scene(b"\x7fELF one");
    let created = host.prepare(&binary, &cache).unwrap();
    let record = runtime_record_path(&cache, &binary);
    host.put(&record, Node::Malformed);
    let reused = host.prepare(&binary, &cache).unwrap();
    assert_eq!(reused.status(), GuestRuntimeDiskStatus::Hit);
    assert_eq!(reused.path(), created.path());
    assert!(host.asked.iter().any(|ask| ask == "ReadGuest"));
    assert!(!host.asked.iter().any(|ask| ask == "Lock"));
}

#[test]
fn equal_binaries_share_a_disk() {
    let (mut host, binary, cache) = scene(b"\x7fELF one");
    let other = HostPath::from_text("/usr/bin/other");
    host.put(&other, Node::File(b"\x7fELF one".to_vec()));
    let first = host.prepare(&binary, &cache).unwrap();
    let second = host.prepare(&other, &cache).unwrap();
    assert_eq!(second.status(), GuestRuntimeDiskStatus::Hit);
    assert_eq!(first.digest(), second.digest());
    assert_eq!(first.path(), second.path());
}

#[test]
fn a_disk_is_written_only_under_its_lock() {
    let (mut host, binary, cache) = scene(b"\x7fELF one");
    host.prepare(&binary, &cache).unwrap();
    let at = |name: &str| host.asked.iter().position(|ask| ask == name).unwrap();
    assert!(at("Lock") < at("CreateTemporary"));
    assert!(at("CreateTemporary") < at("Format"));
    assert!(at("Format") < at("Persist"));
    assert!(at("Persist") < at("StoreRecord"));
}

#[test]
fn preparation_errors_are_told_apart() {
    let absent = HostPath::from_text("/absent");
    let (mut host, binary, cache) = scene(b"#!/bin/sh");
    assert!(matches!(
        host.prepare(&absent, &cache),
        Err(GuestRuntimeDiskError::ReadBinary { source: Fault::Host(_), .. })
    ));
    let refused = host.prepare(&binary, &cache).err().unwrap();
    assert!(matches!(refused, GuestRuntimeDiskError::NotElf(_)));
    assert_eq!(
        refused.message(),
        "VM guest runtime /bin/nanocodex-vm-guest is not an ELF executable"
    );

    host.put(&binary, Node::Directory);
    let directory = host.prepare(&binary, &cache).err().unwrap();
    assert!(matches!(
        directory,
        GuestRuntimeDiskError::ReadBinary { source: Fault::NotAFile, .. }
    ));
    assert_eq!(
        directory.message(),
        "failed to read VM guest runtime binary /bin/nanocodex-vm-guest"
    );

    let (mut host, binary, cache) = scene(b"\x7fELF one");
    host.unstable = true;
    let changed = host.prepare(&binary, &cache).err().unwrap();
    assert!(matches!(changed, GuestRuntimeDiskError::BinaryChanged(_)));
    assert_eq!(
        changed.message(),
        "VM guest runtime binary /bin/nanocodex-vm-guest changed while it was being indexed"
    );

    let (mut host, binary, cache) = scene(b"\x7fELF one");
    host.fails = Some("Format");
    let format = host.prepare(&binary, &cache).err().unwrap();
    assert!(matches!(format, GuestRuntimeDiskError::Format(_)));
    assert_eq!(format.message(), "failed to format VM guest runtime disk");

    let (mut host, binary, cache) = scene(b"\x7fELF one");
    host.damages = true;
    let invalid = host.prepare(&binary, &cache).err().unwrap();
    assert!(matches!(
        invalid,
        GuestRuntimeDiskError::InvalidPreparedDisk { source: None, .. }
    ));
    assert!(invalid.message().starts_with("prepared VM guest runtime disk /cache/runtimes/"));
    assert!(invalid.message().ends_with("/.runtime.tmp failed validation"));

    for (ask, place) in [
        ("ReadRecord", "/cache/runtime-records/"),
        ("LookUp", "/cache/runtimes/"),
        ("CreateDirectory", "/cache/runtimes/"),
        ("Lock", "/cache/locks/runtimes/"),
        ("CreateTemporary", "/cache/runtimes/"),
        ("Persist", "/cache/runtimes/"),
        ("StoreRecord", "/cache/runtime-records/"),
    ] {
        let (mut host, binary, cache) = scene(b"\x7fELF one");
        host.fails = Some(ask);
        let error = host.prepare(&binary, &cache).err().unwrap();
        assert!(matches!(
            error,
            GuestRuntimeDiskError::Cache { source: Fault::Host(_), .. }
        ));
        let expected = format!("failed to access VM guest runtime cache at {place}");
        assert!(error.message().starts_with(&expected), "{}", error.message());
    }
}

#[test]
fn binary_errors_name_the_path_that_was_supplied() {
    let cache = HostPath::from_text("/cache");
    let given = HostPath::from_text(".");
    let canonical = HostPath::from_text("/w");
    let aliased = || Host {
        alias: Some((given.duplicate(), canonical.duplicate())),
        ..Host::default()
    };
    let names_given = |outcome: Result<GuestRuntimeDisk, DiskError>| match outcome {
        Err(GuestRuntimeDiskError::ReadBinary { path, source }) => {
            assert_eq!(path, given);
            source
        }
        other => panic!("unexpected outcome: {other:?}"),
    };

    let mut host = aliased();
    host.put(&canonical, Node::Directory);
    let outcome = host.prepare(&given, &cache);
    let fault = names_given(outcome);
    assert!(matches!(fault, Fault::NotAFile));
    assert_eq!(fault.reason(), Some("runtime binary is not a file"));

    let mut host = aliased();
    let outcome = host.prepare(&given, &cache);
    let fault = names_given(outcome);
    assert!(matches!(fault, Fault::Host(_)));
    assert_eq!(fault.reason(), None);

    let mut host = aliased();
    host.put(&canonical, Node::Malformed);
    let outcome = host.prepare(&given, &cache);
    assert!(matches!(names_given(outcome), Fault::Host(_)));
    assert_eq!(host.asked.last().map(String::as_str), Some("Read"));

    let mut host = aliased();
    host.put(&canonical, Node::File(b"text".to_vec()));
    match host.prepare(&given, &cache) {
        Err(GuestRuntimeDiskError::NotElf(path)) => assert_eq!(path, canonical),
        other => panic!("unexpected outcome: {other:?}"),
    }
}

#[test]
fn failed_preparations_leave_no_temporary_disk() {
    let leftover = |host: &Host| {
        host.nodes
            .keys()
            .any(|path| path.ends_with(b"/.runtime.tmp"))
    };
    let bytes = b"\x7fELF discarded guest runtime";

    let (mut host, binary, cache) = scene(bytes);
    host.fails = Some("Format");
    assert!(matches!(
        host.prepare(&binary, &cache),
        Err(GuestRuntimeDiskError::Format(_))
    ));
    assert!(host.discarded);
    assert!(!leftover(&host));

    let (mut host, binary, cache) = scene(bytes);
    host.damages = true;
    assert!(matches!(
        host.prepare(&binary, &cache),
        Err(GuestRuntimeDiskError::InvalidPreparedDisk { .. })
    ));
    assert!(host.discarded);
    assert!(!leftover(&host));

    let (mut host, binary, cache) = scene(bytes);
    host.fails = Some("Persist");
    assert!(matches!(
        host.prepare(&binary, &cache),
        Err(GuestRuntimeDiskError::Cache { .. })
    ));
    assert!(host.discarded);
    assert!(!leftover(&host));

    let (mut host, binary, cache) = scene(bytes);
    assert!(host.prepare(&binary, &cache).is_ok());
    assert!(!host.discarded);
    assert!(!leftover(&host));
}

#[test]
fn preparations_start_with_the_binary() {
    let preparation = Preparation::start(
        HostPath::from_text("guest"),
        HostPath::from_text(".cache/vm"),
    );
    assert_eq!(preparation.step(), Step::Canonicalize);
    assert!(preparation.contents().is_empty());
}

#[test]
fn identities_are_exact() {
    assert_eq!(
        runtime_digest(b"\x7fELF deterministic guest runtime"),
        "9d67d7918808ba21324eee974e70e6be4053e7c94abaea751ee71d5bf831b1d2"
    );
    let record = runtime_record_path(
        &HostPath::from_text("/cache/"),
        &HostPath::from_text("/bin/nanocodex-vm-guest"),
    );
    assert_eq!(
        record.display(),
        "/cache/runtime-records/f692f0f7e506449aa5fbd8ef3b78286702f546143e35b1ae9a8ea1d65b0e4f19.json"
    );
    let lock = runtime_lock_path(&HostPath::from_text(".cache/vm"), "00");
    assert_eq!(lock.display(), ".cache/vm/locks/runtimes/00.lock");
    assert_eq!(hex_text(&[0, 15, 160, 255]), "000fa0ff");
    assert!(is_sha256_digest(&"0f".repeat(32)));
    assert!(!is_sha256_digest(&"0F".repeat(32)));
    assert!(!is_sha256_digest(&"0f".repeat(31)));
    assert!(!is_sha256_digest("\u{e9}"));
}

#[test]
fn modes_and_contents_are_recognized() {
    assert_eq!(guest_mode(), 0o100_755);
    let fits = |mode: u16, bytes: u64| GuestInode { mode, bytes }.fits(7);
    assert!(fits(0o100_755, 7));
    assert!(!fits(0o100_755, 8));
    assert!(!fits(0o100_644, 7));
    assert!(!fits(0o040_755, 7));
    assert!(is_elf(b"\x7fELF"));
    assert!(!is_elf(b"\x7fEL"));
    assert!(!is_elf(b"\x7fELf"));
    assert_eq!(GuestRuntimeDiskStatus::Hit.as_str(), "hit");
    assert_eq!(GuestRuntimeDiskStatus::Created.as_str(), "created");
}

#[test]
fn times_beyond_the_record_format_are_refused() {
    let path = HostPath::from_text("/bin/guest");
    let facts = |modified: Result<u128, String>| {
        Ok(FileFacts {
            is_file: true,
            bytes: 3,
            modified,
        })
    };
    assert_eq!(
        binary_snapshot(&path, facts(Ok(u128::from(u64::MAX)))).ok(),
        Some(FileSnapshot {
            bytes: 3,
            modified_unix_ns: u64::MAX,
        })
    );
    assert!(matches!(
        binary_snapshot(&path, facts(Ok(u128::from(u64::MAX) + 1))),
        Err(GuestRuntimeDiskError::ReadBinary { source: Fault::ModifiedOutOfRange, .. })
    ));
    assert!(matches!(
        binary_snapshot(&path, facts(Err("before the epoch".to_owned()))),
        Err(GuestRuntimeDiskError::ReadBinary { source: Fault::Host(_), .. })
    ));
}

#[test]
fn records_vouch_for_exactly_what_they_saw() {
    let source = FileSnapshot {
        bytes: 10,
        modified_unix_ns: 20,
    };
    let disk = FileSnapshot {
        bytes: DISK_BYTES,
        modified_unix_ns: 30,
    };
    let record = GuestRuntimeRecord::new(source, &"ab".repeat(32), disk);
    assert!(record.admits(source));
    assert!(record.keeps(disk));
    assert!(!record.keeps(FileSnapshot {
        modified_unix_ns: 31,
        ..disk
    }));
    assert!(!record.admits(FileSnapshot {
        bytes: 11,
        ..source
    }));
    assert!(!record.admits(FileSnapshot {
        modified_unix_ns: 21,
        ..source
    }));
    let mut other = record.clone();
    other.version = 2;
    assert!(!other.admits(source));
    let mut other = record.clone();
    other.digest = "AB".repeat(32);
    assert!(!other.admits(source));
    let mut other = record;
    other.disk_bytes = 1;
    assert!(!other.admits(source));
}

#[test]
fn paths_are_joined_and_shown() {
    let base = HostPath::from_text("/a");
    assert_eq!(base.join("b"), HostPath::from_text("/a/b"));
    assert_eq!(base.join("/b"), HostPath::from_text("/b"));
    assert_eq!(
        HostPath::from_text("").join("b"),
        HostPath::from_text("b")
    );
    assert_eq!(
        HostPath::from_text("a/").join("b"),
        HostPath::from_text("a/b")
    );
    assert_eq!(
        HostPath::from_bytes(vec![0x2f, 0xff, 0x61]).display(),
        "/\u{fffd}a"
    );
}
