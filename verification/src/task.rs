//! What the library reads of a benchmark task, and how a task is shown.
use std::collections::BTreeMap;
use vstd::prelude::*;
use vstd::string::*;
use vstd::utf8::*;

use crate::path::{shown, HostPath};
use crate::text::{decimal, decimal_text};

verus! {

/// Compute resources that a task asks for.
#[derive(Clone, Copy, Debug, PartialEq, Eq, Structural)]
pub struct Resources {
    pub cpus: u32,
    pub memory_mb: u64,
    pub storage_mb: u64,
    pub gpus: u32,
}

/// A length of time: whole seconds, and nanoseconds below one second.
#[derive(Clone, Copy, Debug, PartialEq, Eq, Structural)]
pub struct Timeout {
    pub seconds: u64,
    pub nanoseconds: u32,
}

/// Where a task's verifier runs.
#[derive(Clone, Debug, PartialEq, Eq)]
pub enum VerifierEnvironmentMode {
    /// In a fresh environment of its own.
    Separate,
    /// In another mode, known by its name.
    Other(String),
}

impl VerifierEnvironmentMode {
    /// The name of a mode.
    pub open spec fn name(self) -> Seq<char> {
        match self {
            VerifierEnvironmentMode::Separate => "separate"@,
            VerifierEnvironmentMode::Other(name) => name@,
        }
    }

    /// The name of the mode.
    pub fn as_str(&self) -> (name: &str)
        ensures
            name@ == self.name(),
    {
        match self {
            VerifierEnvironmentMode::Separate => "separate",
            VerifierEnvironmentMode::Other(name) => name.as_str(),
        }
    }
}

/// One rule for what is collected for the verifier, as its JSON text.
#[derive(Clone, Debug, PartialEq, Eq)]
pub struct VerifierCollect {
    pub json: String,
}

/// How a task's outcome is verified.
#[derive(Clone, Debug, PartialEq, Eq)]
pub struct Verifier {
    pub script: HostPath,
    pub timeout: Timeout,
    pub environment: BTreeMap<String, String>,
    pub environment_mode: VerifierEnvironmentMode,
    pub collect: Vec<VerifierCollect>,
}

/// A loaded benchmark task.
#[derive(Clone, Debug, PartialEq, Eq)]
pub struct Task {
    pub name: String,
    pub description: String,
    pub root: HostPath,
    /// Directory that describes the task's environment image.
    pub environment_directory: HostPath,
    pub prompt: String,
    /// Reference of the container image.
    pub image: String,
    pub agent_timeout: Timeout,
    pub verifier: Verifier,
    pub artifacts: Vec<HostPath>,
    pub resources: Resources,
    /// Name of the network policy.
    pub network: String,
    pub environment: BTreeMap<String, String>,
    pub requires_compose: bool,
}

/// What is shown of a task's verifier.
#[derive(Clone, Copy, Debug)]
pub struct VerifierOutput<'a> {
    pub script: &'a HostPath,
    pub timeout: Timeout,
    pub environment: &'a BTreeMap<String, String>,
    pub environment_mode: &'a VerifierEnvironmentMode,
    pub collect: &'a Vec<VerifierCollect>,
}

/// What is shown of a task.
#[derive(Clone, Copy, Debug)]
pub struct TaskOutput<'a> {
    pub name: &'a str,
    pub description: &'a str,
    pub root: &'a HostPath,
    pub prompt: &'a str,
    pub image: &'a str,
    pub agent_timeout: Timeout,
    pub verifier: VerifierOutput<'a>,
    pub artifacts: &'a Vec<HostPath>,
    pub resources: Resources,
    pub network: &'a str,
    pub environment: &'a BTreeMap<String, String>,
    pub requires_compose: bool,
}

/// `true` or `false`.
pub open spec fn truth(value: bool) -> Seq<char> {
    if value {
        "true"@
    } else {
        "false"@
    }
}

/// The text that shows a task to people. The two timeouts are given as the
/// texts of their numbers of seconds.
pub open spec fn human_text(
    output: TaskOutput,
    agent_timeout: Seq<char>,
    verifier_timeout: Seq<char>,
    include_prompt: bool,
) -> Seq<char> {
    let summary = output.name@ + "\n"@
        + "  root: "@ + shown(output.root@) + "\n"@
        + "  image: "@ + output.image@ + "\n"@
        + "  prompt: "@ + decimal(encode_utf8(output.prompt@).len()) + " bytes\n"@
        + "  timeout: "@ + agent_timeout + "s agent, "@ + verifier_timeout + "s verifier\n"@
        + "  resources: "@ + decimal(output.resources.cpus as nat) + " CPU, "@
        + decimal(output.resources.memory_mb as nat) + " MiB memory, "@
        + decimal(output.resources.storage_mb as nat) + " MiB storage, "@
        + decimal(output.resources.gpus as nat) + " GPU\n"@
        + "  network: "@ + output.network@ + "\n"@
        + "  verifier: "@ + shown(output.verifier.script@) + " ("@
        + output.verifier.environment_mode.name() + ")\n"@
        + "  artifacts: "@ + decimal(output.artifacts@.len()) + "\n"@
        + "  requires compose: "@ + truth(output.requires_compose) + "\n"@;
    if include_prompt {
        summary + "\n"@ + output.prompt@ + "\n"@
    } else {
        summary
    }
}

impl<'a> TaskOutput<'a> {
    /// Picks what is shown of a task.
    pub fn from(task: &'a Task) -> (output: TaskOutput<'a>)
        ensures
            output.name@ == task.name@,
            output.description@ == task.description@,
            *output.root == task.root,
            output.prompt@ == task.prompt@,
            output.image@ == task.image@,
            output.agent_timeout == task.agent_timeout,
            *output.verifier.script == task.verifier.script,
            output.verifier.timeout == task.verifier.timeout,
            *output.verifier.environment == task.verifier.environment,
            *output.verifier.environment_mode == task.verifier.environment_mode,
            *output.verifier.collect == task.verifier.collect,
            *output.artifacts == task.artifacts,
            output.resources == task.resources,
            output.network@ == task.network@,
            *output.environment == task.environment,
            output.requires_compose == task.requires_compose,
    {
        TaskOutput {
            name: task.name.as_str(),
            description: task.description.as_str(),
            root: &task.root,
            prompt: task.prompt.as_str(),
            image: task.image.as_str(),
            agent_timeout: task.agent_timeout,
            verifier: VerifierOutput {
                script: &task.verifier.script,
                timeout: task.verifier.timeout,
                environment: &task.verifier.environment,
                environment_mode: &task.verifier.environment_mode,
                collect: &task.verifier.collect,
            },
            artifacts: &task.artifacts,
            resources: task.resources,
            network: task.network.as_str(),
            environment: &task.environment,
            requires_compose: task.requires_compose,
        }
    }

    /// Writes the text that shows the task to people, with the whole prompt at
    /// the end where it is asked for. `agent_timeout` and `verifier_timeout` are
    /// the two timeouts in seconds.
    pub fn write_human(
        &self,
        agent_timeout: &str,
        verifier_timeout: &str,
        include_prompt: bool,
    ) -> (text: String)
        ensures
            text@ == human_text(*self, agent_timeout@, verifier_timeout@, include_prompt),
    {
        let mut text = String::from_str(self.name);
        text.append("\n");
        text.append("  root: ");
        text.append(self.root.display().as_str());
        text.append("\n");
        text.append("  image: ");
        text.append(self.image);
        text.append("\n");
        text.append("  prompt: ");
        text.append(decimal_text(self.prompt.as_bytes().len() as u64).as_str());
        text.append(" bytes\n");
        text.append("  timeout: ");
        text.append(agent_timeout);
        text.append("s agent, ");
        text.append(verifier_timeout);
        text.append("s verifier\n");
        text.append("  resources: ");
        text.append(decimal_text(self.resources.cpus as u64).as_str());
        text.append(" CPU, ");
        text.append(decimal_text(self.resources.memory_mb).as_str());
        text.append(" MiB memory, ");
        text.append(decimal_text(self.resources.storage_mb).as_str());
        text.append(" MiB storage, ");
        text.append(decimal_text(self.resources.gpus as u64).as_str());
        text.append(" GPU\n");
        text.append("  network: ");
        text.append(self.network);
        text.append("\n");
        text.append("  verifier: ");
        text.append(self.verifier.script.display().as_str());
        text.append(" (");
        text.append(self.verifier.environment_mode.as_str());
        text.append(")\n");
        text.append("  artifacts: ");
        text.append(decimal_text(self.artifacts.len() as u64).as_str());
        text.append("\n");
        text.append("  requires compose: ");
        text.append(
            if self.requires_compose {
                "true"
            } else {
                "false"
            },
        );
        text.append("\n");
        if include_prompt {
            text.append("\n");
            text.append(self.prompt);
            text.append("\n");
        }
        text
    }
}

} // verus!
