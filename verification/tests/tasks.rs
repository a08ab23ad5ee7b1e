use std::collections::BTreeMap;

use nanocodex::path::HostPath;
use nanocodex::task::{Resources, Task, TaskOutput, Timeout, Verifier, VerifierEnvironmentMode};
use nanocodex::task_images::{
    image_builder, image_order, prepare_task_image, prepare_verifier_image, CachePolicy,
    DiskStatus, PrepareTasks, PreparedRootDisk,
};

fn task(name: &str, mode: VerifierEnvironmentMode, storage_mb: u64) -> Task {
    Task {
        name: name.to_owned(),
        description: "about".to_owned(),
        root: HostPath::from_text("/tasks/one"),
        environment_directory: HostPath::from_text("/tasks/one/environment"),
        prompt: "Gr\u{fc}\u{df} dich".to_owned(),
        image: "docker.io/library/debian".to_owned(),
        agent_timeout: Timeout {
            seconds: 900,
            nanoseconds: 0,
        },
        verifier: Verifier {
            script: HostPath::from_text("/tasks/one/tests/test.sh"),
            timeout: Timeout {
                seconds: 12,
                nanoseconds: 500_000_000,
            },
            environment: BTreeMap::new(),
            environment_mode: mode,
            collect: Vec::new(),
        },
        artifacts: vec![HostPath::from_text("/app")],
        resources: Resources {
            cpus: 2,
            memory_mb: 4096,
            storage_mb,
            gpus: 0,
        },
        network: "public".to_owned(),
        environment: BTreeMap::new(),
        requires_compose: false,
    }
}

fn shared(name: &str) -> Task {
    task(
        name,
        VerifierEnvironmentMode::Other("shared".to_owned()),
        10,
    )
}

fn separate(name: &str) -> Task {
    task(name, VerifierEnvironmentMode::Separate, 10)
}

fn disk(status: DiskStatus) -> PreparedRootDisk {
    PreparedRootDisk {
        manifest_digest: "sha256:00".to_owned(),
        manifest_source: "cache".to_owned(),
        disk_status: status,
        disk_status_name: match status {
            DiskStatus::Hit => "hit".to_owned(),
            DiskStatus::Created => "created".to_owned(),
        },
        path: HostPath::from_text("/cache/root.ext4"),
    }
}

#[test]
fn tasks_are_shown_to_people() {
    let task = separate("one");
    let output = TaskOutput::from(&task);
    assert_eq!(output.description, "about");
    assert_eq!(
        output.write_human("900", "12.5", false),
        "one\n  root: /tasks/one\n  image: docker.io/library/debian\n  prompt: 11 bytes\n  \
         timeout: 900s agent, 12.5s verifier\n  resources: 2 CPU, 4096 MiB memory, 10 MiB \
         storage, 0 GPU\n  network: public\n  verifier: /tasks/one/tests/test.sh (separate)\n  \
         artifacts: 1\n  requires compose: false\n"
    );
    let with_prompt = output.write_human("900", "12.5", true);
    assert!(with_prompt.ends_with("  requires compose: false\n\nGr\u{fc}\u{df} dich\n"));
    let compose = Task {
        requires_compose: true,
        ..shared("two")
    };
    let text = TaskOutput::from(&compose).write_human("1", "1", false);
    assert!(text.contains("(shared)"));
    assert!(text.ends_with("  requires compose: true\n"));
}

#[test]
fn images_have_a_directory_and_a_size() {
    let task = separate("one");
    let environment = prepare_task_image(&task);
    assert_eq!(
        environment.directory,
        HostPath::from_text("/tasks/one/environment")
    );
    assert_eq!(environment.bytes, 10_485_760);
    let verifier = prepare_verifier_image(&task);
    assert_eq!(verifier.directory, HostPath::from_text("/tasks/one/tests"));
    assert_eq!(verifier.bytes, 10_485_760);

    let huge = super_sized();
    assert_eq!(prepare_task_image(&huge).bytes, u64::MAX);
    assert_eq!(CachePolicy::of(true), CachePolicy::Refresh);
    assert_eq!(CachePolicy::of(false), CachePolicy::Reuse);
}

#[test]
fn image_orders_carry_the_cache_and_its_policy() {
    let cache = HostPath::from_text(".cache/vm");
    for (refresh, policy) in [(true, CachePolicy::Refresh), (false, CachePolicy::Reuse)] {
        let order = image_order(prepare_task_image(&separate("one")), &cache, refresh);
        assert_eq!(
            order.directory,
            HostPath::from_text("/tasks/one/environment")
        );
        assert_eq!(order.bytes, 10_485_760);
        assert_eq!(order.cache, cache);
        assert_eq!(order.policy, policy);
    }

    let builder = image_builder(
        HostPath::from_text("/bin/nanocodex"),
        HostPath::from_text("/runtime.ext4"),
    );
    assert_eq!(builder.vmm, HostPath::from_text("/bin/nanocodex"));
    assert_eq!(builder.vmm_args, ["eval", "vm", "run-config", "--config"]);
    assert_eq!(builder.runtime, HostPath::from_text("/runtime.ext4"));
    assert_eq!(
        builder.firmware_directory,
        HostPath::from_text(".cache/libkrunfw/libkrunfw")
    );
}

fn super_sized() -> Task {
    task("huge", VerifierEnvironmentMode::Separate, u64::MAX / 1024)
}

#[test]
fn a_run_goes_on_after_failures_and_names_them() {
    let tasks = vec![shared("a"), separate("b"), separate("c"), shared("d")];
    let run = PrepareTasks::start(tasks);

    assert_eq!(
        run.next().unwrap().directory,
        HostPath::from_text("/tasks/one/environment")
    );
    let (run, report) = run.report(Err("no registry".to_owned()), "1.500s");
    assert_eq!(report.log, "a: failed duration=1.500s\nno registry");
    assert_eq!(report.path, None);

    let (run, report) = run.report(Ok(disk(DiskStatus::Created)), "2.000s");
    assert_eq!(
        report.log,
        "b: manifest=sha256:00 (cache) root_disk=created duration=2.000s"
    );
    assert_eq!(report.path.as_deref(), Some("/cache/root.ext4"));

    assert_eq!(
        run.next().unwrap().directory,
        HostPath::from_text("/tasks/one/tests")
    );
    let (run, report) = run.report(Err("broken".to_owned()), "0.001s");
    assert_eq!(report.log, "b verifier: failed duration=0.001s\nbroken");

    let (run, _) = run.report(Ok(disk(DiskStatus::Hit)), "1s");
    let (run, report) = run.report(Ok(disk(DiskStatus::Hit)), "1s");
    assert_eq!(
        report.log,
        "c verifier: manifest=sha256:00 (cache) root_disk=hit duration=1s"
    );
    let (run, _) = run.report(Ok(disk(DiskStatus::Created)), "1s");

    assert!(run.next().is_none());
    assert_eq!(
        run.summary("0.100s", "9.000s"),
        "VM preparation: runtime=0.100s environments=4 hits=2 created=2 failed=2 total=9.000s"
    );
    assert_eq!(
        run.finish().unwrap_err().message(),
        "2 VM environment(s) failed preparation: a, b verifier"
    );
}

#[test]
fn a_failed_environment_has_no_verifier_image() {
    let run = PrepareTasks::start(vec![separate("only")]);
    let (run, _) = run.report(Err("no".to_owned()), "1s");
    assert!(run.next().is_none());
    assert_eq!(
        run.finish().unwrap_err().message(),
        "1 VM environment(s) failed preparation: only"
    );
}

#[test]
fn a_run_without_failures_succeeds() {
    let run = PrepareTasks::start(vec![separate("only")]);
    let (run, _) = run.report(Ok(disk(DiskStatus::Hit)), "1s");
    let (run, _) = run.report(Ok(disk(DiskStatus::Created)), "1s");
    assert!(run.next().is_none());
    assert_eq!(run.finish(), Ok(()));
    assert_eq!(PrepareTasks::start(Vec::new()).finish(), Ok(()));
}
