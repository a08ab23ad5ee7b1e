use nanocodex::observability::{
    LogFormat, LogFormatArg, LogOutput, ObservabilityArgs, TracingEnvironment, TracingFlags,
    DEFAULT_ENVIRONMENT, DEFAULT_FILTER,
};
use nanocodex::path::HostPath;

fn args() -> ObservabilityArgs {
    ObservabilityArgs {
        log_filter: DEFAULT_FILTER.to_owned(),
        otel_filter: "info".to_owned(),
        log_format: None,
        legacy_log_format: None,
        log_file: None,
        legacy_log_file: None,
        otel_endpoint: None,
        otel_environment: DEFAULT_ENVIRONMENT.to_owned(),
    }
}

#[test]
fn tracing_goes_to_standard_error_in_compact_form() {
    let plan = args().install();
    assert_eq!(plan.service, "nanocodex-eval");
    assert_eq!(plan.filter, DEFAULT_FILTER);
    assert_eq!(plan.otel_filter, "info");
    assert_eq!(plan.format, LogFormat::Compact);
    assert_eq!(plan.output, LogOutput::Stderr);
    assert_eq!(plan.environment, "development");
    assert_eq!(plan.otlp_endpoint, None);
}

#[test]
fn legacy_values_fill_in_for_missing_ones() {
    let mut legacy = args();
    legacy.legacy_log_format = Some(LogFormatArg::Json);
    legacy.legacy_log_file = Some(HostPath::from_text("/old.log"));
    legacy.otel_endpoint = Some("http://collector".to_owned());
    let plan = legacy.clone().install();
    assert_eq!(plan.format, LogFormat::Json);
    assert_eq!(plan.output, LogOutput::File(HostPath::from_text("/old.log")));
    assert_eq!(plan.otlp_endpoint.as_deref(), Some("http://collector"));

    legacy.log_format = Some(LogFormatArg::Pretty);
    legacy.log_file = Some(HostPath::from_text("/new.log"));
    let plan = legacy.install();
    assert_eq!(plan.format, LogFormat::Pretty);
    assert_eq!(plan.output, LogOutput::File(HostPath::from_text("/new.log")));
    assert_eq!(LogFormatArg::default(), LogFormatArg::Compact);
}

fn flags() -> TracingFlags {
    TracingFlags {
        log_filter: None,
        otel_filter: None,
        log_format: None,
        legacy_log_format: None,
        log_file: None,
        legacy_log_file: None,
        otel_endpoint: None,
        otel_environment: None,
    }
}

fn environment() -> TracingEnvironment {
    TracingEnvironment {
        log_filter: None,
        otel_filter: None,
        log_format: None,
        legacy_log_format: None,
        log_file: None,
        legacy_log_file: None,
        otel_endpoint: None,
        otel_environment: None,
    }
}

#[test]
fn flags_come_before_variables_and_defaults() {
    let defaults = ObservabilityArgs::gather(flags(), environment()).unwrap();
    assert_eq!(defaults.log_filter, DEFAULT_FILTER);
    assert_eq!(defaults.otel_filter, DEFAULT_FILTER);
    assert_eq!(defaults.otel_environment, "development");
    assert_eq!(defaults.log_format, None);
    assert_eq!(defaults.otel_endpoint, None);

    let mut variables = environment();
    variables.log_filter = Some("trace".to_owned());
    variables.log_format = Some("json".to_owned());
    variables.legacy_log_format = Some("compact".to_owned());
    variables.log_file = Some(HostPath::from_text("/variable.log"));
    variables.otel_endpoint = Some("http://variable".to_owned());
    variables.otel_environment = Some("staging".to_owned());
    let found = ObservabilityArgs::gather(flags(), variables.clone()).unwrap();
    assert_eq!(found.log_filter, "trace");
    assert_eq!(found.otel_filter, DEFAULT_FILTER);
    assert_eq!(found.log_format, Some(LogFormatArg::Json));
    assert_eq!(found.legacy_log_format, Some(LogFormatArg::Compact));
    assert_eq!(found.log_file, Some(HostPath::from_text("/variable.log")));
    assert_eq!(found.otel_endpoint.as_deref(), Some("http://variable"));
    assert_eq!(found.otel_environment, "staging");

    let mut given = flags();
    given.log_filter = Some("debug".to_owned());
    given.log_format = Some(LogFormatArg::Pretty);
    given.log_file = Some(HostPath::from_text("/flag.log"));
    given.otel_environment = Some("production".to_owned());
    let found = ObservabilityArgs::gather(given, variables).unwrap();
    assert_eq!(found.log_filter, "debug");
    assert_eq!(found.log_format, Some(LogFormatArg::Pretty));
    assert_eq!(found.log_file, Some(HostPath::from_text("/flag.log")));
    assert_eq!(found.otel_environment, "production");
}

#[test]
fn variables_hold_what_their_flags_would_take() {
    let mut variables = environment();
    variables.log_format = Some("yaml".to_owned());
    variables.log_file = Some(HostPath::from_text(""));
    let error = ObservabilityArgs::gather(flags(), variables.clone()).unwrap_err();
    assert_eq!(error.variable, "NANOCODEX_EVAL_LOG_FORMAT");
    assert_eq!(
        error.message(),
        "invalid value in the environment variable NANOCODEX_EVAL_LOG_FORMAT"
    );

    let mut given = flags();
    given.log_format = Some(LogFormatArg::Json);
    let error = ObservabilityArgs::gather(given.clone(), variables.clone()).unwrap_err();
    assert_eq!(error.variable, "NANOCODEX_EVAL_LOG_FILE");
    given.log_file = Some(HostPath::from_text("/flag.log"));
    assert!(ObservabilityArgs::gather(given, variables).is_ok());

    let mut empty = environment();
    empty.otel_endpoint = Some(String::new());
    let error = ObservabilityArgs::gather(flags(), empty.clone()).unwrap_err();
    assert_eq!(error.variable, "OTEL_EXPORTER_OTLP_ENDPOINT");
    empty.log_filter = Some(String::new());
    let error = ObservabilityArgs::gather(flags(), empty).unwrap_err();
    assert_eq!(error.variable, "RUST_LOG");
}
