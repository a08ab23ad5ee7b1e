//! Preparing the VM images of a list of tasks: which image is next, what is
//! reported of each, and how the whole run ends.
use vstd::prelude::*;
use vstd::string::*;
use vstd::utf8::*;

use crate::path::{path_join, shown, HostPath};
use crate::task::{Task, VerifierEnvironmentMode};
use crate::text::{decimal, decimal_text, join, joined, texts};

verus! {

/// Bytes of a mebibyte.
pub const BYTES_PER_MIB: u64 = 1048576;

/// Whether cached image references are resolved again.
#[derive(Clone, Copy, Debug, PartialEq, Eq, Structural)]
pub enum CachePolicy {
    Reuse,
    Refresh,
}

impl CachePolicy {
    /// The policy for a run that does or does not refresh.
    pub fn of(refresh: bool) -> (policy: CachePolicy)
        ensures
            policy == if refresh {
                CachePolicy::Refresh
            } else {
                CachePolicy::Reuse
            },
    {
        if refresh {
            CachePolicy::Refresh
        } else {
            CachePolicy::Reuse
        }
    }
}

/// Whether a root disk was found in the cache or made.
#[derive(Clone, Copy, Debug, PartialEq, Eq, Structural)]
pub enum DiskStatus {
    Hit,
    Created,
}

/// A prepared root disk. The manifest source and the disk status come with the
/// names that the image builder gives them.
#[derive(Clone, Debug, PartialEq, Eq)]
pub struct PreparedRootDisk {
    pub manifest_digest: String,
    pub manifest_source: String,
    pub disk_status: DiskStatus,
    pub disk_status_name: String,
    pub path: HostPath,
}

/// An image to prepare: the directory that describes it, and its size.
#[derive(Clone, Debug, PartialEq, Eq)]
pub struct ImageRequest<P = HostPath> {
    pub directory: P,
    pub bytes: u64,
}

impl View for ImageRequest {
    type V = ImageRequest<Seq<u8>>;

    open spec fn view(&self) -> ImageRequest<Seq<u8>> {
        ImageRequest { directory: self.directory@, bytes: self.bytes }
    }
}

/// The bytes of `mebibytes`, or the largest number where they do not fit.
pub open spec fn storage_bytes(mebibytes: u64) -> u64 {
    if mebibytes * BYTES_PER_MIB <= u64::MAX {
        (mebibytes * BYTES_PER_MIB) as u64
    } else {
        u64::MAX
    }
}

/// The image of a task's environment.
pub open spec fn task_image(task: Task) -> ImageRequest<Seq<u8>> {
    ImageRequest {
        directory: task.environment_directory@,
        bytes: storage_bytes(task.resources.storage_mb),
    }
}

/// The image of a task's separate verifier.
pub open spec fn verifier_image(task: Task) -> ImageRequest<Seq<u8>> {
    ImageRequest {
        directory: path_join(task.root@, encode_utf8("tests"@)),
        bytes: storage_bytes(task.resources.storage_mb),
    }
}

fn bytes_of_mebibytes(mebibytes: u64) -> (bytes: u64)
    ensures
        bytes == storage_bytes(mebibytes),
{
    match mebibytes.checked_mul(BYTES_PER_MIB) {
        Some(bytes) => bytes,
        None => u64::MAX,
    }
}

/// The image to prepare for a task's environment.
pub fn prepare_task_image(task: &Task) -> (request: ImageRequest)
    ensures
        request@ == task_image(*task),
{
    ImageRequest {
        directory: task.environment_directory.duplicate(),
        bytes: bytes_of_mebibytes(task.resources.storage_mb),
    }
}

/// The image to prepare for a task's separate verifier.
pub fn prepare_verifier_image(task: &Task) -> (request: ImageRequest)
    ensures
        request@ == verifier_image(*task),
{
    ImageRequest {
        directory: task.root.join("tests"),
        bytes: bytes_of_mebibytes(task.resources.storage_mb),
    }
}

/// An image as it is handed to the image builder: what to prepare, in which
/// cache, and whether its reference is resolved again.
#[derive(Clone, Debug, PartialEq, Eq)]
pub struct ImageOrder {
    pub directory: HostPath,
    pub bytes: u64,
    pub cache: HostPath,
    pub policy: CachePolicy,
}

/// The order for an image of a run that does or does not refresh.
pub fn image_order(request: ImageRequest, cache: &HostPath, refresh: bool) -> (order: ImageOrder)
    ensures
        order.directory@ == request@.directory,
        order.bytes == request@.bytes,
        order.cache@ == cache@,
        order.policy == if refresh {
            CachePolicy::Refresh
        } else {
            CachePolicy::Reuse
        },
{
    ImageOrder {
        directory: request.directory,
        bytes: request.bytes,
        cache: cache.duplicate(),
        policy: CachePolicy::of(refresh),
    }
}

/// Where the image builder finds the firmware of its machines.
pub const FIRMWARE_DIRECTORY: &'static str = ".cache/libkrunfw/libkrunfw";

/// How the image builder is set up.
#[derive(Debug)]
pub struct BuilderPlan {
    /// The executable that runs a machine.
    pub vmm: HostPath,
    /// What it is given in front of the configuration file.
    pub vmm_args: Vec<String>,
    /// The disk of the guest runtime.
    pub runtime: HostPath,
    pub firmware_directory: HostPath,
}

/// Sets up the image builder: its machines are run by this program's command that
/// takes a private configuration.
pub fn image_builder(vmm: HostPath, runtime: HostPath) -> (plan: BuilderPlan)
    ensures
        plan.vmm == vmm,
        texts(plan.vmm_args@) == seq!["eval"@, "vm"@, "run-config"@, "--config"@],
        plan.runtime == runtime,
        plan.firmware_directory@ == encode_utf8(FIRMWARE_DIRECTORY@),
{
    let mut vmm_args: Vec<String> = Vec::new();
    vmm_args.push("eval".to_owned());
    vmm_args.push("vm".to_owned());
    vmm_args.push("run-config".to_owned());
    vmm_args.push("--config".to_owned());
    assert(texts(vmm_args@) =~= seq!["eval"@, "vm"@, "run-config"@, "--config"@]);
    BuilderPlan {
        vmm,
        vmm_args,
        runtime,
        firmware_directory: HostPath::from_text(FIRMWARE_DIRECTORY),
    }
}

/// The images of a list of tasks, prepared one after another.
#[derive(Debug)]
pub struct PrepareTasks {
    tasks: Vec<Task>,
    at: usize,
    verifying: bool,
    cache_hits: usize,
    cache_creations: usize,
    failures: Vec<String>,
}

/// How far a preparation is: the task at hand, whether its verifier is at hand,
/// and the tally so far.
#[verifier::ext_equal]
pub struct PrepareView {
    pub tasks: Seq<Task>,
    pub at: nat,
    pub verifying: bool,
    pub tally: Tally,
}

/// Disks found, disks made, and the names of the environments that failed.
#[verifier::ext_equal]
pub struct Tally {
    pub hits: nat,
    pub creations: nat,
    pub failures: Seq<Seq<char>>,
}

/// The tally of nothing.
pub open spec fn no_tally() -> Tally {
    Tally { hits: 0, creations: 0, failures: Seq::empty() }
}

/// The tally after one more disk.
pub open spec fn counted(tally: Tally, status: DiskStatus) -> Tally {
    match status {
        DiskStatus::Hit => Tally { hits: tally.hits + 1, ..tally },
        DiskStatus::Created => Tally { creations: tally.creations + 1, ..tally },
    }
}

/// The tally after one more failure.
pub open spec fn failed(tally: Tally, name: Seq<char>) -> Tally {
    Tally { failures: tally.failures.push(name), ..tally }
}

/// Whether a task's verifier has an image of its own.
pub open spec fn has_verifier_image(task: Task) -> bool {
    task.verifier.environment_mode is Separate
}

/// The name under which an environment of a task is reported.
pub open spec fn environment_name(task: Task, verifier: bool) -> Seq<char> {
    if verifier {
        task.name@ + " verifier"@
    } else {
        task.name@
    }
}

impl PrepareView {
    /// Whether every image was asked for.
    pub open spec fn done(self) -> bool {
        self.at >= self.tasks.len()
    }

    /// The task at hand.
    pub open spec fn task(self) -> Task {
        self.tasks[self.at as int]
    }

    /// The image at hand.
    pub open spec fn request(self) -> ImageRequest<Seq<u8>> {
        if self.verifying {
            verifier_image(self.task())
        } else {
            task_image(self.task())
        }
    }

    /// The name of the environment at hand.
    pub open spec fn name(self) -> Seq<char> {
        environment_name(self.task(), self.verifying)
    }

    /// The state after the image at hand was prepared or, with `None`, failed.
    /// A verifier's image follows only where the task's own image succeeded.
    pub open spec fn after(self, outcome: Option<DiskStatus>) -> PrepareView {
        match outcome {
            None => PrepareView {
                at: self.at + 1,
                verifying: false,
                tally: failed(self.tally, self.name()),
                ..self
            },
            Some(status) => if !self.verifying && has_verifier_image(self.task()) {
                PrepareView { verifying: true, tally: counted(self.tally, status), ..self }
            } else {
                PrepareView {
                    at: self.at + 1,
                    verifying: false,
                    tally: counted(self.tally, status),
                    ..self
                }
            },
        }
    }
}

/// What is reported of one image: a line for the log, and for a prepared image
/// its path.
#[derive(Clone, Debug, PartialEq, Eq)]
pub struct ImageReport {
    pub log: String,
    pub path: Option<String>,
}

/// The log line of a prepared image.
pub open spec fn prepared_line(
    name: Seq<char>,
    prepared: PreparedRootDisk,
    duration: Seq<char>,
) -> Seq<char> {
    name + ": manifest="@ + prepared.manifest_digest@ + " ("@ + prepared.manifest_source@
        + ") root_disk="@ + prepared.disk_status_name@ + " duration="@ + duration
}

/// The log lines of an image that failed.
pub open spec fn failed_line(name: Seq<char>, error: Seq<char>, duration: Seq<char>) -> Seq<char> {
    name + ": failed duration="@ + duration + "\n"@ + error
}

/// The disk status of a prepared image; nothing for one that failed.
pub open spec fn status_of(outcome: Result<PreparedRootDisk, String>) -> Option<DiskStatus> {
    match outcome {
        Ok(prepared) => Some(prepared.disk_status),
        Err(_) => None,
    }
}

/// One or more images failed.
#[derive(Clone, Debug, PartialEq, Eq)]
pub struct PreparationFailed {
    pub failures: Vec<String>,
}

impl PreparationFailed {
    /// Names every environment that failed.
    pub fn message(&self) -> (text: String)
        ensures
            text@ == decimal(self.failures@.len()) + " VM environment(s) failed preparation: "@
                + joined(texts(self.failures@), ", "@),
    {
        decimal_text(self.failures.len() as u64).concat(
            " VM environment(s) failed preparation: ",
        ).concat(join(&self.failures, ", ").as_str())
    }
}

proof fn lemma_texts_push(parts: Seq<String>, part: String)
    ensures
        texts(parts.push(part)) == texts(parts).push(part@),
{
    assert(texts(parts.push(part)) =~= texts(parts).push(part@));
}

impl PrepareTasks {
    /// How far the preparation is.
    pub closed spec fn state(&self) -> PrepareView {
        PrepareView {
            tasks: self.tasks@,
            at: self.at as nat,
            verifying: self.verifying,
            tally: Tally {
                hits: self.cache_hits as nat,
                creations: self.cache_creations as nat,
                failures: texts(self.failures@),
            },
        }
    }

    #[verifier::type_invariant]
    spec fn well_formed(&self) -> bool {
        &&& self.at <= self.tasks@.len()
        &&& 2 * self.tasks@.len() <= usize::MAX
        &&& self.verifying ==> self.at < self.tasks@.len()
        &&& self.cache_hits + self.cache_creations <= 2 * self.at + (if self.verifying {
            1int
        } else {
            0
        })
    }

    /// Starts on the first task. A list so long that the environments of its
    /// tasks cannot be counted does not fit into memory.
    pub fn start(tasks: Vec<Task>) -> (preparation: PrepareTasks)
        requires
            2 * tasks@.len() <= usize::MAX,
        ensures
            preparation.state() == (PrepareView {
                tasks: tasks@,
                at: 0,
                verifying: false,
                tally: no_tally(),
            }),
    {
        let failures: Vec<String> = Vec::new();
        assert(texts(failures@) =~= Seq::empty());
        PrepareTasks {
            tasks,
            at: 0,
            verifying: false,
            cache_hits: 0,
            cache_creations: 0,
            failures,
        }
    }

    /// The image to prepare next; `None` once every image was asked for.
    pub fn next(&self) -> (request: Option<ImageRequest>)
        ensures
            request is None <==> self.state().done(),
            request matches Some(request) ==> request@ == self.state().request(),
    {
        if self.at >= self.tasks.len() {
            None
        } else if self.verifying {
            Some(prepare_verifier_image(&self.tasks[self.at]))
        } else {
            Some(prepare_task_image(&self.tasks[self.at]))
        }
    }

    fn name(&self) -> (name: String)
        requires
            !self.state().done(),
        ensures
            name@ == self.state().name(),
    {
        let name = self.tasks[self.at].name.clone();
        if self.verifying {
            name.concat(" verifier")
        } else {
            name
        }
    }

    /// Takes what became of the image at hand, which took `duration`, and says
    /// what to report of it.
    pub fn report(
        self,
        outcome: Result<PreparedRootDisk, String>,
        duration: &str,
    ) -> (reported: (PrepareTasks, ImageReport))
        requires
            !self.state().done(),
        ensures
            reported.0.state() == self.state().after(status_of(outcome)),
            match outcome {
                Ok(prepared) => {
                    &&& reported.1.log@ == prepared_line(self.state().name(), prepared, duration@)
                    &&& reported.1.path matches Some(path) && path@ == shown(prepared.path@)
                },
                Err(error) => {
                    &&& reported.1.log@ == failed_line(self.state().name(), error@, duration@)
                    &&& reported.1.path is None
                },
            },
    {
        proof {
            use_type_invariant(&self);
        }
        let name = self.name();
        let separate = match &self.tasks[self.at].verifier.environment_mode {
            VerifierEnvironmentMode::Separate => true,
            VerifierEnvironmentMode::Other(_) => false,
        };
        match outcome {
            Err(error) => {
                let log = name.clone().concat(": failed duration=").concat(duration).concat(
                    "\n",
                ).concat(error.as_str());
                let mut failures = self.failures;
                proof {
                    lemma_texts_push(failures@, name);
                }
                failures.push(name);
                (
                    PrepareTasks {
                        tasks: self.tasks,
                        at: self.at + 1,
                        verifying: false,
                        cache_hits: self.cache_hits,
                        cache_creations: self.cache_creations,
                        failures,
                    },
                    ImageReport { log, path: None },
                )
            },
            Ok(prepared) => {
                let log = name.concat(": manifest=").concat(
                    prepared.manifest_digest.as_str(),
                ).concat(" (").concat(prepared.manifest_source.as_str()).concat(
                    ") root_disk=",
                ).concat(prepared.disk_status_name.as_str()).concat(" duration=").concat(duration);
                let path = prepared.path.display();
                let cache_hits = match prepared.disk_status {
                    DiskStatus::Hit => self.cache_hits + 1,
                    DiskStatus::Created => self.cache_hits,
                };
                let cache_creations = match prepared.disk_status {
                    DiskStatus::Hit => self.cache_creations,
                    DiskStatus::Created => self.cache_creations + 1,
                };
                let verifying = !self.verifying && separate;
                (
                    PrepareTasks {
                        tasks: self.tasks,
                        at: if verifying {
                            self.at
                        } else {
                            self.at + 1
                        },
                        verifying,
                        cache_hits,
                        cache_creations,
                        failures: self.failures,
                    },
                    ImageReport { log, path: Some(path) },
                )
            },
        }
    }

    /// The closing log line. `runtime` and `total` are the times that the guest
    /// runtime and the whole run took.
    pub fn summary(&self, runtime: &str, total: &str) -> (line: String)
        ensures
            line@ == "VM preparation: runtime="@ + runtime@ + " environments="@ + decimal(
                self.state().tally.hits + self.state().tally.creations,
            ) + " hits="@ + decimal(self.state().tally.hits) + " created="@ + decimal(
                self.state().tally.creations,
            ) + " failed="@ + decimal(self.state().tally.failures.len()) + " total="@ + total@,
    {
        proof {
            use_type_invariant(self);
        }
        String::from_str("VM preparation: runtime=").concat(runtime).concat(
            " environments=",
        ).concat(decimal_text((self.cache_hits + self.cache_creations) as u64).as_str()).concat(
            " hits=",
        ).concat(decimal_text(self.cache_hits as u64).as_str()).concat(" created=").concat(
            decimal_text(self.cache_creations as u64).as_str(),
        ).concat(" failed=").concat(decimal_text(self.failures.len() as u64).as_str()).concat(
            " total=",
        ).concat(total)
    }

    /// How the run ends: in success, or with the environments that failed.
    pub fn finish(self) -> (end: Result<(), PreparationFailed>)
        ensures
            end is Ok <==> self.state().tally.failures.len() == 0,
            end matches Err(error) ==> texts(error.failures@) == self.state().tally.failures,
    {
        if self.failures.len() == 0 {
            Ok(())
        } else {
            Err(PreparationFailed { failures: self.failures })
        }
    }
}

/// The state in which a preparation ends when `answers` says what becomes of
/// each image: the index of the task, and whether it is its verifier's.
pub open spec fn run(
    state: PrepareView,
    answers: spec_fn(int, bool) -> Option<DiskStatus>,
) -> PrepareView
    decreases
            2 * (state.tasks.len() - state.at) + (if state.verifying {
                0int
            } else {
                1int
            }),
{
    if state.done() {
        state
    } else {
        run(state.after(answers(state.at as int, state.verifying)), answers)
    }
}

/// The tally after one more task.
pub open spec fn with_task(
    tally: Tally,
    task: Task,
    environment: Option<DiskStatus>,
    verifier: Option<DiskStatus>,
) -> Tally {
    match environment {
        None => failed(tally, task.name@),
        Some(status) => if !has_verifier_image(task) {
            counted(tally, status)
        } else {
            match verifier {
                None => failed(counted(tally, status), task.name@ + " verifier"@),
                Some(other) => counted(counted(tally, status), other),
            }
        },
    }
}

/// The tally of the first `n` tasks.
pub open spec fn tally_of(
    tasks: Seq<Task>,
    answers: spec_fn(int, bool) -> Option<DiskStatus>,
    n: nat,
) -> Tally
    decreases n,
{
    if n == 0 {
        no_tally()
    } else {
        with_task(
            tally_of(tasks, answers, (n - 1) as nat),
            tasks[n - 1],
            answers(n - 1, false),
            answers(n - 1, true),
        )
    }
}

/// Whether every image that a task needs was prepared.
pub open spec fn fully_prepared(
    task: Task,
    environment: Option<DiskStatus>,
    verifier: Option<DiskStatus>,
) -> bool {
    environment is Some && (has_verifier_image(task) ==> verifier is Some)
}

/// The state before the first task.
pub open spec fn started(tasks: Seq<Task>) -> PrepareView {
    PrepareView { tasks, at: 0, verifying: false, tally: no_tally() }
}

proof fn lemma_run(
    state: PrepareView,
    answers: spec_fn(int, bool) -> Option<DiskStatus>,
)
    requires
        state.at <= state.tasks.len(),
        !state.verifying,
        state.tally == tally_of(state.tasks, answers, state.at),
    ensures
        run(state, answers) == (PrepareView {
            tasks: state.tasks,
            at: state.tasks.len(),
            verifying: false,
            tally: tally_of(state.tasks, answers, state.tasks.len()),
        }),
    decreases state.tasks.len() - state.at,
{
    if !state.done() {
        let first = state.after(answers(state.at as int, false));
        if first.verifying {
            let second = first.after(answers(state.at as int, true));
            assert(run(first, answers) == run(second, answers));
            assert(second.tally == tally_of(state.tasks, answers, second.at));
            lemma_run(second, answers);
        } else {
            assert(first.tally == tally_of(state.tasks, answers, first.at));
            lemma_run(first, answers);
        }
    }
}

/// A run goes through every task in order, whatever fails on the way, and its
/// tally is the tally of the tasks one by one.
pub proof fn law_every_task_is_tried(
    tasks: Seq<Task>,
    answers: spec_fn(int, bool) -> Option<DiskStatus>,
)
    ensures
        run(started(tasks), answers).done(),
        run(started(tasks), answers).tally == tally_of(tasks, answers, tasks.len()),
{
    lemma_run(started(tasks), answers);
}

proof fn lemma_failures(
    tasks: Seq<Task>,
    answers: spec_fn(int, bool) -> Option<DiskStatus>,
    n: nat,
)
    requires
        n <= tasks.len(),
    ensures
        tally_of(tasks, answers, n).failures.len() <= n,
        tally_of(tasks, answers, n).failures.len() == 0 <==> forall|i: int|
            0 <= i < n ==> fully_prepared(
                #[trigger] tasks[i],
                answers(i, false),
                answers(i, true),
            ),
    decreases n,
{
    if n > 0 {
        lemma_failures(tasks, answers, (n - 1) as nat);
        assert(fully_prepared(tasks[n - 1], answers(n - 1, false), answers(n - 1, true)) ==>
            tally_of(tasks, answers, n).failures == tally_of(tasks, answers, (n - 1) as nat).failures);
    }
}

/// A run ends without a failure exactly when every image that its tasks need was
/// prepared.
pub proof fn law_success_means_every_image_was_prepared(
    tasks: Seq<Task>,
    answers: spec_fn(int, bool) -> Option<DiskStatus>,
)
    ensures
        run(started(tasks), answers).tally.failures.len() == 0 <==> forall|i: int|
            0 <= i < tasks.len() ==> fully_prepared(
                #[trigger] tasks[i],
                answers(i, false),
                answers(i, true),
            ),
{
    law_every_task_is_tried(tasks, answers);
    lemma_failures(tasks, answers, tasks.len());
}

} // verus!
