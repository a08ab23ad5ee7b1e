//! What preparing the images of tasks, and showing a task, come to.
use vstd::prelude::*;
use vstd::string::*;
use vstd::utf8::*;

use crate::path::{path_join, shown, HostPath};
use crate::task::{human_text, Task, TaskOutput, VerifierEnvironmentMode};
use crate::task_images::{
    image_builder, image_order, law_every_task_is_tried, prepare_task_image, prepare_verifier_image,
    run, started, storage_bytes, tally_of, BuilderPlan, CachePolicy, DiskStatus, ImageOrder,
    ImageReport, ImageRequest, PreparationFailed, PrepareTasks, PrepareView, PreparedRootDisk,
};
use crate::text::{decimal, joined, texts};

verus! {

/// The image of a task has as many bytes as its storage in mebibytes, wherever that
/// number fits, and the largest number there is where it does not; so more storage
/// never means a smaller image, and different sizes stay different as long as they
/// fit. Both images of a task have the same size.
pub proof fn law_images_have_the_size_of_the_storage(
    task: Task,
    own: ImageRequest,
    verifier: ImageRequest,
    larger: u64,
)
    requires
        call_ensures(prepare_task_image, (&task,), own),
        call_ensures(prepare_verifier_image, (&task,), verifier),
    ensures
        task.resources.storage_mb as int * 1048576 <= 0xffff_ffff_ffff_ffff ==> own.bytes as int
            == task.resources.storage_mb as int * 1048576,
        task.resources.storage_mb as int * 1048576 > 0xffff_ffff_ffff_ffff ==> own.bytes
            == 0xffff_ffff_ffff_ffff,
        verifier.bytes == own.bytes,
        task.resources.storage_mb < larger && larger as int * 1048576 <= 0xffff_ffff_ffff_ffff
            ==> own.bytes < storage_bytes(larger),
        task.resources.storage_mb <= larger ==> own.bytes <= storage_bytes(larger),
{
}

/// A task's own image is described by its environment directory, and its verifier's
/// by the directory `tests` in its root.
pub proof fn law_images_are_described_by_directories(
    task: Task,
    own: ImageRequest,
    verifier: ImageRequest,
)
    requires
        call_ensures(prepare_task_image, (&task,), own),
        call_ensures(prepare_verifier_image, (&task,), verifier),
    ensures
        own.directory@ == task.environment_directory@,
        verifier.directory@ == path_join(task.root@, encode_utf8("tests"@)),
{
}

/// An image is ordered as it was requested, in the cache of the run, and its
/// reference is resolved again exactly when the run refreshes.
pub proof fn law_images_are_ordered_as_requested(
    request: ImageRequest,
    cache: HostPath,
    refresh: bool,
    order: ImageOrder,
    policy: CachePolicy,
)
    requires
        call_ensures(image_order, (request, &cache, refresh), order),
        call_ensures(CachePolicy::of, (refresh,), policy),
    ensures
        order.directory@ == request.directory@,
        order.bytes == request.bytes,
        order.cache@ == cache@,
        order.policy is Refresh <==> refresh,
        policy == order.policy,
{
}

/// The image builder runs its machines by this program's private command, with the
/// runtime it was given and the firmware of the cache.
pub proof fn law_builders_run_the_private_command(
    vmm: HostPath,
    runtime: HostPath,
    plan: BuilderPlan,
)
    requires
        call_ensures(image_builder, (vmm, runtime), plan),
    ensures
        plan.vmm == vmm,
        plan.runtime == runtime,
        plan.vmm_args@.len() == 4,
        plan.vmm_args@[0]@ == "eval"@ && plan.vmm_args@[1]@ == "vm"@ && plan.vmm_args@[2]@
            == "run-config"@ && plan.vmm_args@[3]@ == "--config"@,
        plan.firmware_directory@ == encode_utf8(".cache/libkrunfw/libkrunfw"@),
{
    let arguments = texts(plan.vmm_args@);
    assert(arguments.len() == 4);
    assert(arguments[0] == plan.vmm_args@[0]@ && arguments[1] == plan.vmm_args@[1]@ && arguments[2]
        == plan.vmm_args@[2]@ && arguments[3] == plan.vmm_args@[3]@);
}

/// Whether an image is asked for: a task's own always, its verifier's exactly where
/// it has a fresh environment and the task's own image was prepared.
pub open spec fn is_asked_for(
    tasks: Seq<Task>,
    answers: spec_fn(int, bool) -> Option<DiskStatus>,
    at: int,
    verifier: bool,
) -> bool {
    !verifier || tasks[at].verifier.environment_mode is Separate && answers(at, false) is Some
}

/// How many of the images of the first `n` tasks were asked for and ended so.
pub open spec fn ended_so(
    tasks: Seq<Task>,
    answers: spec_fn(int, bool) -> Option<DiskStatus>,
    n: nat,
    outcome: Option<DiskStatus>,
) -> nat
    decreases n,
{
    if n == 0 {
        0
    } else {
        let at = n - 1;
        ended_so(tasks, answers, (n - 1) as nat, outcome) + (if answers(at, false) == outcome {
            1nat
        } else {
            0nat
        }) + (if is_asked_for(tasks, answers, at, true) && answers(at, true) == outcome {
            1nat
        } else {
            0nat
        })
    }
}

proof fn lemma_tally(
    tasks: Seq<Task>,
    answers: spec_fn(int, bool) -> Option<DiskStatus>,
    n: nat,
)
    requires
        n <= tasks.len(),
    ensures
        tally_of(tasks, answers, n).hits == ended_so(tasks, answers, n, Some(DiskStatus::Hit)),
        tally_of(tasks, answers, n).creations == ended_so(
            tasks,
            answers,
            n,
            Some(DiskStatus::Created),
        ),
        tally_of(tasks, answers, n).failures.len() == ended_so(tasks, answers, n, None),
    decreases n,
{
    if n > 0 {
        lemma_tally(tasks, answers, (n - 1) as nat);
    }
}

/// The tally of a run counts every image that was asked for once: as found, as
/// made, or as failed.
pub proof fn law_tallies_count_the_images(
    tasks: Seq<Task>,
    answers: spec_fn(int, bool) -> Option<DiskStatus>,
)
    ensures
        run(started(tasks), answers).tally.hits == ended_so(
            tasks,
            answers,
            tasks.len(),
            Some(DiskStatus::Hit),
        ),
        run(started(tasks), answers).tally.creations == ended_so(
            tasks,
            answers,
            tasks.len(),
            Some(DiskStatus::Created),
        ),
        run(started(tasks), answers).tally.failures.len() == ended_so(
            tasks,
            answers,
            tasks.len(),
            None,
        ),
{
    law_every_task_is_tried(tasks, answers);
    lemma_tally(tasks, answers, tasks.len());
}

/// The names of the images of the first `n` tasks that were asked for and failed, in
/// order: a task's own image goes by the task's name, a verifier's by that name and
/// the word `verifier`.
pub open spec fn failed_names(
    tasks: Seq<Task>,
    answers: spec_fn(int, bool) -> Option<DiskStatus>,
    n: nat,
) -> Seq<Seq<char>>
    decreases n,
{
    if n == 0 {
        Seq::empty()
    } else {
        let at = n - 1;
        let before = failed_names(tasks, answers, (n - 1) as nat);
        if answers(at, false) is None {
            before.push(tasks[at].name@)
        } else if is_asked_for(tasks, answers, at, true) && answers(at, true) is None {
            before.push(tasks[at].name@ + " verifier"@)
        } else {
            before
        }
    }
}

proof fn lemma_failed_names(
    tasks: Seq<Task>,
    answers: spec_fn(int, bool) -> Option<DiskStatus>,
    n: nat,
)
    requires
        n <= tasks.len(),
    ensures
        tally_of(tasks, answers, n).failures == failed_names(tasks, answers, n),
    decreases n,
{
    if n > 0 {
        lemma_failed_names(tasks, answers, (n - 1) as nat);
    }
}

/// The failures of a run are the images that failed, by name and in order.
pub proof fn law_failures_are_named(
    tasks: Seq<Task>,
    answers: spec_fn(int, bool) -> Option<DiskStatus>,
)
    ensures
        run(started(tasks), answers).tally.failures == failed_names(tasks, answers, tasks.len()),
{
    law_every_task_is_tried(tasks, answers);
    lemma_failed_names(tasks, answers, tasks.len());
}

/// One answer: the image at hand is a task's own or its verifier's; a verifier's
/// image comes next exactly after a prepared image of its task, and otherwise the
/// next task does; exactly one count grows by one.
pub proof fn law_one_image_at_a_time(state: PrepareView, outcome: Option<DiskStatus>)
    requires
        !state.done(),
    ensures
        ({
            let next = state.after(outcome);
            let task = state.tasks[state.at as int];
            let verifier_follows = !state.verifying && outcome is Some
                && task.verifier.environment_mode is Separate;
            &&& state.at < state.tasks.len()
            &&& state.request().directory == if state.verifying {
                path_join(task.root@, encode_utf8("tests"@))
            } else {
                task.environment_directory@
            }
            &&& next.tasks == state.tasks
            &&& next.verifying == verifier_follows
            &&& next.at == if verifier_follows {
                state.at
            } else {
                state.at + 1
            }
            &&& next.tally.hits == state.tally.hits + (if outcome == Some(DiskStatus::Hit) {
                1int
            } else {
                0
            })
            &&& next.tally.creations == state.tally.creations + (if outcome == Some(
                DiskStatus::Created,
            ) {
                1int
            } else {
                0
            })
            &&& outcome is Some ==> next.tally.failures == state.tally.failures
            &&& outcome is None ==> next.tally.failures == state.tally.failures.push(
                if state.verifying {
                    task.name@ + " verifier"@
                } else {
                    task.name@
                },
            )
        }),
{
}

/// A run starts at the first task with nothing counted, asks for images until every
/// task was tried, and asks for the image at hand.
pub proof fn law_runs_ask_for_images(
    tasks: Vec<Task>,
    preparation: PrepareTasks,
    later: PrepareTasks,
    request: Option<ImageRequest>,
)
    requires
        call_ensures(PrepareTasks::start, (tasks,), preparation),
        call_ensures(PrepareTasks::next, (&later,), request),
    ensures
        preparation.state().tasks == tasks@,
        preparation.state().at == 0 && !preparation.state().verifying,
        preparation.state().tally.hits == 0 && preparation.state().tally.creations == 0
            && preparation.state().tally.failures.len() == 0,
        preparation.state() == started(tasks@),
        request is Some <==> later.state().at < later.state().tasks.len(),
        request matches Some(image) ==> {
            let task = later.state().tasks[later.state().at as int];
            &&& later.state().verifying ==> image.directory@ == path_join(
                task.root@,
                encode_utf8("tests"@),
            )
            &&& !later.state().verifying ==> image.directory@ == task.environment_directory@
            &&& task.resources.storage_mb as int * 1048576 <= 0xffff_ffff_ffff_ffff
                ==> image.bytes as int == task.resources.storage_mb as int * 1048576
            &&& task.resources.storage_mb as int * 1048576 > 0xffff_ffff_ffff_ffff ==> image.bytes
                == 0xffff_ffff_ffff_ffff
        },
{
}

/// An image that was prepared is reported with its manifest, where that came from,
/// what became of its disk and how long it took, and its path is printed; one that
/// failed with how long it took and why. A report counts what it reports.
pub proof fn law_images_are_reported(
    preparation: PrepareTasks,
    outcome: Result<PreparedRootDisk, String>,
    duration: &str,
    next: PrepareTasks,
    report: ImageReport,
)
    requires
        !preparation.state().done(),
        call_ensures(PrepareTasks::report, (preparation, outcome, duration), (next, report)),
    ensures
        ({
            let state = preparation.state();
            let task = state.tasks[state.at as int];
            let name = if state.verifying {
                task.name@ + " verifier"@
            } else {
                task.name@
            };
            match outcome {
                Ok(prepared) => {
                    &&& report.log@ == name + ": manifest="@ + prepared.manifest_digest@ + " ("@
                        + prepared.manifest_source@ + ") root_disk="@ + prepared.disk_status_name@
                        + " duration="@ + duration@
                    &&& report.path is Some && report.path->0@ == shown(prepared.path@)
                    &&& next.state() == state.after(Some(prepared.disk_status))
                },
                Err(error) => {
                    &&& report.log@ == name + ": failed duration="@ + duration@ + "\n"@ + error@
                    &&& report.path is None
                    &&& next.state() == state.after(None)
                },
            }
        }),
{
}

/// A run ends well exactly when nothing failed; otherwise the error lists what
/// failed, in order, and says how much.
pub proof fn law_runs_end(
    preparation: PrepareTasks,
    end: Result<(), PreparationFailed>,
    failed: PreparationFailed,
    text: String,
)
    requires
        call_ensures(PrepareTasks::finish, (preparation,), end),
        call_ensures(PreparationFailed::message, (&failed,), text),
    ensures
        end is Ok <==> preparation.state().tally.failures.len() == 0,
        end matches Err(error) ==> error.failures@.len() == preparation.state().tally.failures.len()
            && forall|i: int|
            0 <= i < error.failures@.len() ==> (#[trigger] error.failures@[i])@
                == preparation.state().tally.failures[i],
        text@ == decimal(failed.failures@.len()) + " VM environment(s) failed preparation: "@
            + joined(texts(failed.failures@), ", "@),
{
    if let Err(error) = end {
        let listed = error.failures@;
        assert(texts(listed).len() == listed.len());
        assert forall|i: int| 0 <= i < listed.len() implies (#[trigger] listed[i])@
            == preparation.state().tally.failures[i] by {
            assert(texts(listed)[i] == listed[i]@);
        }
    }
}

/// The closing line counts the prepared environments, found and made together, then
/// each of the two, then the failures.
pub proof fn law_runs_are_summed_up(
    preparation: PrepareTasks,
    runtime: &str,
    total: &str,
    line: String,
)
    requires
        call_ensures(PrepareTasks::summary, (&preparation, runtime, total), line),
    ensures
        ({
            let tally = preparation.state().tally;
            line@ == "VM preparation: runtime="@ + runtime@ + " environments="@ + decimal(
                tally.hits + tally.creations,
            ) + " hits="@ + decimal(tally.hits) + " created="@ + decimal(tally.creations)
                + " failed="@ + decimal(tally.failures.len()) + " total="@ + total@
        }),
{
}

/// Whether a text has a line with the given label and value.
pub open spec fn has_line(text: Seq<char>, label: Seq<char>, value: Seq<char>) -> bool {
    exists|before: Seq<char>|
        (#[trigger] (before + ((label + value) + "\n"@))).is_prefix_of(text)
}

proof fn lemma_assoc(a: Seq<char>, b: Seq<char>, c: Seq<char>)
    ensures
        (a + b) + c == a + (b + c),
{
    assert((a + b) + c =~= a + (b + c));
}

/// A label, a value and the end of a line that follow a text one by one are a line
/// behind it.
proof fn lemma_line(
    before: Seq<char>,
    label: Seq<char>,
    value: Seq<char>,
    tail: Seq<char>,
    ending: Seq<char>,
)
    requires
        ending == tail + "\n"@,
    ensures
        ((before + label) + value) + ending == before + ((label + (value + tail)) + "\n"@),
{
    assert(((before + label) + value) + ending =~= before + ((label + (value + tail)) + "\n"@));
}

proof fn lemma_has_line(before: Seq<char>, label: Seq<char>, value: Seq<char>, text: Seq<char>)
    requires
        (before + ((label + value) + "\n"@)).is_prefix_of(text),
    ensures
        has_line(text, label, value),
        before.is_prefix_of(text),
{
    let line = (label + value) + "\n"@;
    assert(before =~= (before + line).subrange(0, before.len() as int));
    assert(before =~= text.subrange(0, before.len() as int));
}

/// A task is shown by its name and a line for each of its properties, whatever they
/// are; the prompt follows, after an empty line, exactly where it is asked for.
pub proof fn law_tasks_are_shown<'a>(
    output: TaskOutput<'a>,
    agent: Seq<char>,
    verifier: Seq<char>,
)
    ensures
        ({
            let text = human_text(output, agent, verifier, false);
            let mode = match *output.verifier.environment_mode {
                VerifierEnvironmentMode::Separate => "separate"@,
                VerifierEnvironmentMode::Other(name) => name@,
            };
            &&& (output.name@ + "\n"@).is_prefix_of(text)
            &&& has_line(text, "  root: "@, shown(output.root@))
            &&& has_line(text, "  image: "@, output.image@)
            &&& has_line(
                text,
                "  prompt: "@,
                decimal(encode_utf8(output.prompt@).len()) + " bytes"@,
            )
            &&& has_line(text, "  timeout: "@, agent + "s agent, "@ + verifier + "s verifier"@)
            &&& has_line(
                text,
                "  resources: "@,
                decimal(output.resources.cpus as nat) + " CPU, "@ + decimal(
                    output.resources.memory_mb as nat,
                ) + " MiB memory, "@ + decimal(output.resources.storage_mb as nat)
                    + " MiB storage, "@ + decimal(output.resources.gpus as nat) + " GPU"@,
            )
            &&& has_line(text, "  network: "@, output.network@)
            &&& has_line(
                text,
                "  verifier: "@,
                shown(output.verifier.script@) + " ("@ + mode + ")"@,
            )
            &&& has_line(text, "  artifacts: "@, decimal(output.artifacts@.len()))
            &&& has_line(
                text,
                "  requires compose: "@,
                if output.requires_compose {
                    "true"@
                } else {
                    "false"@
                },
            )
            &&& human_text(output, agent, verifier, true) == text + "\n"@ + output.prompt@ + "\n"@
        }),
{
    let text = human_text(output, agent, verifier, false);
    let n = "\n"@;
    let nothing = Seq::<char>::empty();
    let root = shown(output.root@);
    let mode = output.verifier.environment_mode.name();
    let script = shown(output.verifier.script@);
    let bytes = decimal(encode_utf8(output.prompt@).len());
    let cpus = decimal(output.resources.cpus as nat);
    let memory = decimal(output.resources.memory_mb as nat);
    let storage = decimal(output.resources.storage_mb as nat);
    let gpus = decimal(output.resources.gpus as nat);
    let compose = crate::task::truth(output.requires_compose);
    let artifacts = decimal(output.artifacts@.len());
    lemma_line_ends();
    assert(n =~= nothing + n);
    let p0 = output.name@ + n;

    lemma_line(p0, "  root: "@, root, nothing, n);
    assert(root + nothing =~= root);
    let p1 = p0 + (("  root: "@ + root) + n);

    lemma_line(p1, "  image: "@, output.image@, nothing, n);
    assert(output.image@ + nothing =~= output.image@);
    let p2 = p1 + (("  image: "@ + output.image@) + n);

    lemma_line(p2, "  prompt: "@, bytes, " bytes"@, " bytes\n"@);
    let p3 = p2 + (("  prompt: "@ + (bytes + " bytes"@)) + n);

    let q = p3 + "  timeout: "@;
    lemma_assoc(q, agent, "s agent, "@);
    lemma_assoc(q, agent + "s agent, "@, verifier);
    lemma_line(p3, "  timeout: "@, agent + "s agent, "@ + verifier, "s verifier"@, "s verifier\n"@);
    let timeout = agent + "s agent, "@ + verifier + "s verifier"@;
    let p4 = p3 + (("  timeout: "@ + timeout) + n);

    let q = p4 + "  resources: "@;
    let v2 = cpus + " CPU, "@;
    let v3 = v2 + memory;
    let v4 = v3 + " MiB memory, "@;
    let v5 = v4 + storage;
    let v6 = v5 + " MiB storage, "@;
    let v7 = v6 + gpus;
    lemma_assoc(q, cpus, " CPU, "@);
    lemma_assoc(q, v2, memory);
    lemma_assoc(q, v3, " MiB memory, "@);
    lemma_assoc(q, v4, storage);
    lemma_assoc(q, v5, " MiB storage, "@);
    lemma_assoc(q, v6, gpus);
    lemma_line(p4, "  resources: "@, v7, " GPU"@, " GPU\n"@);
    let p5 = p4 + (("  resources: "@ + (v7 + " GPU"@)) + n);

    lemma_line(p5, "  network: "@, output.network@, nothing, n);
    assert(output.network@ + nothing =~= output.network@);
    let p6 = p5 + (("  network: "@ + output.network@) + n);

    let q = p6 + "  verifier: "@;
    lemma_assoc(q, script, " ("@);
    lemma_assoc(q, script + " ("@, mode);
    lemma_line(p6, "  verifier: "@, script + " ("@ + mode, ")"@, ")\n"@);
    let p7 = p6 + (("  verifier: "@ + (script + " ("@ + mode + ")"@)) + n);

    lemma_line(p7, "  artifacts: "@, artifacts, nothing, n);
    assert(artifacts + nothing =~= artifacts);
    let p8 = p7 + (("  artifacts: "@ + artifacts) + n);

    lemma_line(p8, "  requires compose: "@, compose, nothing, n);
    assert(compose + nothing =~= compose);
    let p9 = p8 + (("  requires compose: "@ + compose) + n);

    assert(text == p9);
    assert(p9 =~= text.subrange(0, p9.len() as int));
    lemma_has_line(p8, "  requires compose: "@, compose, text);
    lemma_has_line(p7, "  artifacts: "@, artifacts, text);
    lemma_has_line(p6, "  verifier: "@, script + " ("@ + mode + ")"@, text);
    lemma_has_line(p5, "  network: "@, output.network@, text);
    lemma_has_line(p4, "  resources: "@, v7 + " GPU"@, text);
    lemma_has_line(p3, "  timeout: "@, timeout, text);
    lemma_has_line(p2, "  prompt: "@, bytes + " bytes"@, text);
    lemma_has_line(p1, "  image: "@, output.image@, text);
    lemma_has_line(p0, "  root: "@, root, text);
}

proof fn lemma_line_ends()
    ensures
        " bytes\n"@ == " bytes"@ + "\n"@,
        "s verifier\n"@ == "s verifier"@ + "\n"@,
        " GPU\n"@ == " GPU"@ + "\n"@,
        ")\n"@ == ")"@ + "\n"@,
{
    reveal_strlit(" bytes\n");
    reveal_strlit(" bytes");
    reveal_strlit("s verifier\n");
    reveal_strlit("s verifier");
    reveal_strlit(" GPU\n");
    reveal_strlit(" GPU");
    reveal_strlit(")\n");
    reveal_strlit(")");
    reveal_strlit("\n");
    assert(" bytes\n"@ =~= " bytes"@ + "\n"@);
    assert("s verifier\n"@ =~= "s verifier"@ + "\n"@);
    assert(" GPU\n"@ =~= " GPU"@ + "\n"@);
    assert(")\n"@ =~= ")"@ + "\n"@);
}

/// What is shown of a task is what the task says.
pub proof fn law_shown_tasks_say_what_the_task_says<'a>(task: &'a Task, output: TaskOutput<'a>)
    requires
        call_ensures(TaskOutput::<'a>::from, (task,), output),
    ensures
        output.name@ == task.name@ && output.description@ == task.description@,
        output.root@ == task.root@,
        output.prompt@ == task.prompt@ && output.image@ == task.image@,
        output.agent_timeout == task.agent_timeout,
        output.verifier.script@ == task.verifier.script@,
        output.verifier.timeout == task.verifier.timeout,
        *output.verifier.environment == task.verifier.environment,
        *output.verifier.environment_mode == task.verifier.environment_mode,
        *output.verifier.collect == task.verifier.collect,
        *output.artifacts == task.artifacts,
        output.resources == task.resources,
        output.network@ == task.network@,
        *output.environment == task.environment,
        output.requires_compose == task.requires_compose,
{
}

/// A task is written for people as it is shown, and a verifier's mode by its name.
pub proof fn law_tasks_are_written<'a>(
    output: TaskOutput<'a>,
    agent: &str,
    verifier: &str,
    include_prompt: bool,
    text: String,
    mode: VerifierEnvironmentMode,
    name: &str,
)
    requires
        call_ensures(
            TaskOutput::<'a>::write_human,
            (&output, agent, verifier, include_prompt),
            text,
        ),
        call_ensures(VerifierEnvironmentMode::as_str, (&mode,), name),
    ensures
        text@ == human_text(output, agent@, verifier@, include_prompt),
        mode is Separate ==> name@ == "separate"@,
        mode matches VerifierEnvironmentMode::Other(given) ==> name@ == given@,
{
}

/// Apart from its lines, nothing is shown of a task: the texts of the lines make up
/// the whole length of what is shown.
pub proof fn law_nothing_else_is_shown<'a>(
    output: TaskOutput<'a>,
    agent: Seq<char>,
    verifier: Seq<char>,
)
    ensures
        human_text(output, agent, verifier, false).len() == output.name@.len() + shown(
            output.root@,
        ).len() + output.image@.len() + decimal(encode_utf8(output.prompt@).len()).len()
            + agent.len() + verifier.len() + decimal(output.resources.cpus as nat).len() + decimal(
            output.resources.memory_mb as nat,
        ).len() + decimal(output.resources.storage_mb as nat).len() + decimal(
            output.resources.gpus as nat,
        ).len() + output.network@.len() + shown(output.verifier.script@).len() + (
        match *output.verifier.environment_mode {
            VerifierEnvironmentMode::Separate => 8,
            VerifierEnvironmentMode::Other(name) => name@.len(),
        }) + decimal(output.artifacts@.len()).len() + (if output.requires_compose {
            4int
        } else {
            5
        }) + 182,
{
    reveal_strlit("\n");
    reveal_strlit("  root: ");
    reveal_strlit("  image: ");
    reveal_strlit("  prompt: ");
    reveal_strlit(" bytes\n");
    reveal_strlit("  timeout: ");
    reveal_strlit("s agent, ");
    reveal_strlit("s verifier\n");
    reveal_strlit("  resources: ");
    reveal_strlit(" CPU, ");
    reveal_strlit(" MiB memory, ");
    reveal_strlit(" MiB storage, ");
    reveal_strlit(" GPU\n");
    reveal_strlit("  network: ");
    reveal_strlit("  verifier: ");
    reveal_strlit(" (");
    reveal_strlit(")\n");
    reveal_strlit("  artifacts: ");
    reveal_strlit("  requires compose: ");
    reveal_strlit("separate");
    reveal_strlit("true");
    reveal_strlit("false");
}

} // verus!
