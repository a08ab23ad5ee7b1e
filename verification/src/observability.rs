//! How an evaluation command traces its work.
use vstd::prelude::*;
use vstd::string::*;

use crate::path::HostPath;
use crate::text::same_text;

verus! {

/// Filter for traces that were given none of their own.
pub const DEFAULT_FILTER: &'static str =
    "warn,nanocodex_eval=info,nanocodex_vm=info,nanocodex=info,nanocodex_service=info,nanocodex_tools=info,nanocodex_mcp=info";

/// Deployment environment of exported spans that were given none.
pub const DEFAULT_ENVIRONMENT: &'static str = "development";

/// Name under which spans are exported.
pub const SERVICE: &'static str = "nanocodex-eval";

/// A requested format of local tracing output.
#[derive(Clone, Copy, Debug, PartialEq, Eq, Structural)]
pub enum LogFormatArg {
    Pretty,
    Compact,
    Json,
}

/// The format that a name stands for.
pub open spec fn format_named(name: Seq<char>) -> Option<LogFormatArg> {
    if name == "pretty"@ {
        Some(LogFormatArg::Pretty)
    } else if name == "compact"@ {
        Some(LogFormatArg::Compact)
    } else if name == "json"@ {
        Some(LogFormatArg::Json)
    } else {
        None
    }
}

impl LogFormatArg {
    /// The format that a name stands for, if it stands for one.
    pub fn from_name(name: &str) -> (format: Option<LogFormatArg>)
        ensures
            format == format_named(name@),
    {
        if same_text(name, "pretty") {
            Some(LogFormatArg::Pretty)
        } else if same_text(name, "compact") {
            Some(LogFormatArg::Compact)
        } else if same_text(name, "json") {
            Some(LogFormatArg::Json)
        } else {
            None
        }
    }
}

/// The format of local tracing output.
#[derive(Clone, Copy, Debug, PartialEq, Eq, Structural)]
pub enum LogFormat {
    Pretty,
    Compact,
    Json,
}

/// Where local tracing output goes.
#[derive(Clone, Debug, PartialEq, Eq)]
pub enum LogOutput {
    Stderr,
    File(HostPath),
}

impl Default for LogFormatArg {
    fn default() -> (format: LogFormatArg)
        ensures
            format == LogFormatArg::Compact,
    {
        LogFormatArg::Compact
    }
}

impl From<LogFormatArg> for LogFormat {
    fn from(format: LogFormatArg) -> (made: LogFormat) {
        match format {
            LogFormatArg::Pretty => LogFormat::Pretty,
            LogFormatArg::Compact => LogFormat::Compact,
            LogFormatArg::Json => LogFormat::Json,
        }
    }
}

impl vstd::std_specs::convert::FromSpecImpl<LogFormatArg> for LogFormat {
    open spec fn obeys_from_spec() -> bool {
        true
    }

    open spec fn from_spec(format: LogFormatArg) -> LogFormat {
        match format {
            LogFormatArg::Pretty => LogFormat::Pretty,
            LogFormatArg::Compact => LogFormat::Compact,
            LogFormatArg::Json => LogFormat::Json,
        }
    }
}

/// What the command line says of tracing.
#[derive(Clone, Debug, PartialEq, Eq)]
pub struct TracingFlags {
    pub log_filter: Option<String>,
    pub otel_filter: Option<String>,
    pub log_format: Option<LogFormatArg>,
    pub legacy_log_format: Option<LogFormatArg>,
    pub log_file: Option<HostPath>,
    pub legacy_log_file: Option<HostPath>,
    pub otel_endpoint: Option<String>,
    pub otel_environment: Option<String>,
}

/// What the environment says of tracing: the values of its variables.
#[derive(Clone, Debug, PartialEq, Eq)]
pub struct TracingEnvironment {
    /// `RUST_LOG`
    pub log_filter: Option<String>,
    /// `OTEL_LEVEL`
    pub otel_filter: Option<String>,
    /// `NANOCODEX_EVAL_LOG_FORMAT`
    pub log_format: Option<String>,
    /// `NANOEVAL_LOG_FORMAT`
    pub legacy_log_format: Option<String>,
    /// `NANOCODEX_EVAL_LOG_FILE`
    pub log_file: Option<HostPath>,
    /// `NANOEVAL_LOG_FILE`
    pub legacy_log_file: Option<HostPath>,
    /// `OTEL_EXPORTER_OTLP_ENDPOINT`
    pub otel_endpoint: Option<String>,
    /// `OTEL_DEPLOYMENT_ENVIRONMENT`
    pub otel_environment: Option<String>,
}

/// An environment variable that holds a value which its flag would not take.
#[derive(Clone, Copy, Debug, PartialEq, Eq)]
pub struct EnvironmentError {
    pub variable: &'static str,
}

impl EnvironmentError {
    /// The message of the error.
    pub fn message(&self) -> (text: String)
        ensures
            text@ == "invalid value in the environment variable "@ + self.variable@,
    {
        String::from_str("invalid value in the environment variable ").concat(self.variable)
    }
}

/// Whether a variable that stands in for a missing flag holds no text.
pub open spec fn bad_text(flag: Option<String>, variable: Option<String>) -> bool {
    flag is None && (variable matches Some(value) && value@.len() == 0)
}

/// Whether a variable that stands in for a missing flag names no file.
pub open spec fn bad_path(flag: Option<HostPath>, variable: Option<HostPath>) -> bool {
    flag is None && (variable matches Some(value) && value@.len() == 0)
}

/// Whether a variable that stands in for a missing flag names no format.
pub open spec fn bad_format(flag: Option<LogFormatArg>, variable: Option<String>) -> bool {
    flag is None && (variable matches Some(value) && format_named(value@) is None)
}

/// The first variable whose value is not one that its missing flag would take.
pub open spec fn bad_variable(flags: TracingFlags, environment: TracingEnvironment) -> Option<
    Seq<char>,
> {
    if bad_text(flags.log_filter, environment.log_filter) {
        Some("RUST_LOG"@)
    } else if bad_text(flags.otel_filter, environment.otel_filter) {
        Some("OTEL_LEVEL"@)
    } else if bad_format(flags.log_format, environment.log_format) {
        Some("NANOCODEX_EVAL_LOG_FORMAT"@)
    } else if bad_format(flags.legacy_log_format, environment.legacy_log_format) {
        Some("NANOEVAL_LOG_FORMAT"@)
    } else if bad_path(flags.log_file, environment.log_file) {
        Some("NANOCODEX_EVAL_LOG_FILE"@)
    } else if bad_path(flags.legacy_log_file, environment.legacy_log_file) {
        Some("NANOEVAL_LOG_FILE"@)
    } else if bad_text(flags.otel_endpoint, environment.otel_endpoint) {
        Some("OTEL_EXPORTER_OTLP_ENDPOINT"@)
    } else if bad_text(flags.otel_environment, environment.otel_environment) {
        Some("OTEL_DEPLOYMENT_ENVIRONMENT"@)
    } else {
        None
    }
}

/// The format that a variable names.
pub open spec fn variable_format(variable: Option<String>) -> Option<LogFormatArg> {
    match variable {
        Some(name) => format_named(name@),
        None => None,
    }
}

/// Whether `text` is the value that is there, or the default where none is.
pub open spec fn is_or_default(
    text: Seq<char>,
    value: Option<String>,
    default: Seq<char>,
) -> bool {
    match value {
        Some(value) => text == value@,
        None => text == default,
    }
}

fn settle_text(flag: Option<String>, variable: Option<String>, name: &'static str) -> (settled:
    Result<Option<String>, EnvironmentError>)
    ensures
        match settled {
            Ok(text) => !bad_text(flag, variable) && text == first_of(flag, variable),
            Err(error) => bad_text(flag, variable) && error.variable == name,
        },
{
    match (flag, variable) {
        (Some(text), _) => Ok(Some(text)),
        (None, None) => Ok(None),
        (None, Some(text)) => if text.as_str().is_empty() {
            Err(EnvironmentError { variable: name })
        } else {
            Ok(Some(text))
        },
    }
}

fn settle_path(flag: Option<HostPath>, variable: Option<HostPath>, name: &'static str) -> (settled:
    Result<Option<HostPath>, EnvironmentError>)
    ensures
        match settled {
            Ok(path) => !bad_path(flag, variable) && path == first_of(flag, variable),
            Err(error) => bad_path(flag, variable) && error.variable == name,
        },
{
    match (flag, variable) {
        (Some(path), _) => Ok(Some(path)),
        (None, None) => Ok(None),
        (None, Some(path)) => if path.as_bytes().len() == 0 {
            Err(EnvironmentError { variable: name })
        } else {
            Ok(Some(path))
        },
    }
}

fn settle_format(
    flag: Option<LogFormatArg>,
    variable: Option<String>,
    name: &'static str,
) -> (settled: Result<Option<LogFormatArg>, EnvironmentError>)
    ensures
        match settled {
            Ok(format) => !bad_format(flag, variable) && format == first_of(
                flag,
                variable_format(variable),
            ),
            Err(error) => bad_format(flag, variable) && error.variable == name,
        },
{
    match (flag, variable) {
        (Some(format), _) => Ok(Some(format)),
        (None, None) => Ok(None),
        (None, Some(text)) => match LogFormatArg::from_name(text.as_str()) {
            Some(format) => Ok(Some(format)),
            None => Err(EnvironmentError { variable: name }),
        },
    }
}

fn text_or_default(value: Option<String>, default: &'static str) -> (text: String)
    ensures
        is_or_default(text@, value, default@),
{
    match value {
        Some(text) => text,
        None => String::from_str(default),
    }
}

/// What the command line and the environment say of tracing. The legacy values
/// are read where the current ones are missing.
#[derive(Clone, Debug, PartialEq, Eq)]
pub struct ObservabilityArgs {
    pub log_filter: String,
    pub otel_filter: String,
    pub log_format: Option<LogFormatArg>,
    pub legacy_log_format: Option<LogFormatArg>,
    pub log_file: Option<HostPath>,
    pub legacy_log_file: Option<HostPath>,
    pub otel_endpoint: Option<String>,
    pub otel_environment: String,
}

/// A tracing setup that is ready to be installed.
#[derive(Clone, Debug, PartialEq, Eq)]
pub struct ObservabilityPlan {
    pub service: &'static str,
    pub filter: String,
    pub otel_filter: String,
    pub format: LogFormat,
    pub output: LogOutput,
    pub environment: String,
    pub otlp_endpoint: Option<String>,
}

/// The first value that is there.
pub open spec fn first_of<T>(current: Option<T>, legacy: Option<T>) -> Option<T> {
    match current {
        Some(value) => Some(value),
        None => legacy,
    }
}

impl ObservabilityArgs {
    /// Puts together what the command line and the environment say: a flag over
    /// its variable, a variable over the default. A variable that is needed must
    /// hold a value that its flag would take.
    pub fn gather(flags: TracingFlags, environment: TracingEnvironment) -> (gathered: Result<
        ObservabilityArgs,
        EnvironmentError,
    >)
        ensures
            match gathered {
                Ok(found) => {
                    &&& bad_variable(flags, environment) is None
                    &&& is_or_default(
                        found.log_filter@,
                        first_of(flags.log_filter, environment.log_filter),
                        DEFAULT_FILTER@,
                    )
                    &&& is_or_default(
                        found.otel_filter@,
                        first_of(flags.otel_filter, environment.otel_filter),
                        DEFAULT_FILTER@,
                    )
                    &&& found.log_format == first_of(
                        flags.log_format,
                        variable_format(environment.log_format),
                    )
                    &&& found.legacy_log_format == first_of(
                        flags.legacy_log_format,
                        variable_format(environment.legacy_log_format),
                    )
                    &&& found.log_file == first_of(flags.log_file, environment.log_file)
                    &&& found.legacy_log_file == first_of(
                        flags.legacy_log_file,
                        environment.legacy_log_file,
                    )
                    &&& found.otel_endpoint == first_of(
                        flags.otel_endpoint,
                        environment.otel_endpoint,
                    )
                    &&& is_or_default(
                        found.otel_environment@,
                        first_of(flags.otel_environment, environment.otel_environment),
                        DEFAULT_ENVIRONMENT@,
                    )
                },
                Err(error) => bad_variable(flags, environment) == Some(error.variable@),
            },
    {
        let log_filter = match settle_text(flags.log_filter, environment.log_filter, "RUST_LOG") {
            Ok(filter) => filter,
            Err(error) => return Err(error),
        };
        let otel_filter = match settle_text(
            flags.otel_filter,
            environment.otel_filter,
            "OTEL_LEVEL",
        ) {
            Ok(filter) => filter,
            Err(error) => return Err(error),
        };
        let log_format = match settle_format(
            flags.log_format,
            environment.log_format,
            "NANOCODEX_EVAL_LOG_FORMAT",
        ) {
            Ok(format) => format,
            Err(error) => return Err(error),
        };
        let legacy_log_format = match settle_format(
            flags.legacy_log_format,
            environment.legacy_log_format,
            "NANOEVAL_LOG_FORMAT",
        ) {
            Ok(format) => format,
            Err(error) => return Err(error),
        };
        let log_file = match settle_path(
            flags.log_file,
            environment.log_file,
            "NANOCODEX_EVAL_LOG_FILE",
        ) {
            Ok(file) => file,
            Err(error) => return Err(error),
        };
        let legacy_log_file = match settle_path(
            flags.legacy_log_file,
            environment.legacy_log_file,
            "NANOEVAL_LOG_FILE",
        ) {
            Ok(file) => file,
            Err(error) => return Err(error),
        };
        let otel_endpoint = match settle_text(
            flags.otel_endpoint,
            environment.otel_endpoint,
            "OTEL_EXPORTER_OTLP_ENDPOINT",
        ) {
            Ok(endpoint) => endpoint,
            Err(error) => return Err(error),
        };
        let otel_environment = match settle_text(
            flags.otel_environment,
            environment.otel_environment,
            "OTEL_DEPLOYMENT_ENVIRONMENT",
        ) {
            Ok(deployment) => deployment,
            Err(error) => return Err(error),
        };
        Ok(
            ObservabilityArgs {
                log_filter: text_or_default(log_filter, DEFAULT_FILTER),
                otel_filter: text_or_default(otel_filter, DEFAULT_FILTER),
                log_format,
                legacy_log_format,
                log_file,
                legacy_log_file,
                otel_endpoint,
                otel_environment: text_or_default(otel_environment, DEFAULT_ENVIRONMENT),
            },
        )
    }

    /// Settles the tracing setup: a log file, current or legacy, over standard
    /// error; a format, current or legacy, over the compact one.
    pub fn install(self) -> (plan: ObservabilityPlan)
        ensures
            plan.service@ == SERVICE@,
            plan.filter == self.log_filter,
            plan.otel_filter == self.otel_filter,
            plan.environment == self.otel_environment,
            plan.otlp_endpoint == self.otel_endpoint,
            plan.output == match first_of(self.log_file, self.legacy_log_file) {
                Some(file) => LogOutput::File(file),
                None => LogOutput::Stderr,
            },
            plan.format == match first_of(self.log_format, self.legacy_log_format) {
                Some(LogFormatArg::Pretty) => LogFormat::Pretty,
                Some(LogFormatArg::Json) => LogFormat::Json,
                Some(LogFormatArg::Compact) => LogFormat::Compact,
                None => LogFormat::Compact,
            },
    {
        let output = match self.log_file {
            Some(file) => LogOutput::File(file),
            None => match self.legacy_log_file {
                Some(file) => LogOutput::File(file),
                None => LogOutput::Stderr,
            },
        };
        let requested = match self.log_format {
            Some(format) => format,
            None => match self.legacy_log_format {
                Some(format) => format,
                None => LogFormatArg::default(),
            },
        };
        ObservabilityPlan {
            service: SERVICE,
            filter: self.log_filter,
            otel_filter: self.otel_filter,
            format: LogFormat::from(requested),
            output,
            environment: self.otel_environment,
            otlp_endpoint: self.otel_endpoint,
        }
    }
}

} // verus!
