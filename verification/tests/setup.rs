//! Sink assembly, the fallback pipeline, the timestamp token and the
//! command-line validators.

use aitios_cli::aggregate::DestinationSet;
use aitios_cli::sink::{
    SetupPhase, SetupPipeline, Severity, Sink, assemble_plan, console_floor, fallback_plan,
};
use aitios_cli::timestamp::{is_filesystem_safe, synthesize_datetime_log_filename};
use aitios_cli::validate::{parse_thread_count, validate_simulation_spec, validate_thread_count};

#[test]
fn console_floor_follows_verbosity() {
    assert!(console_floor(0) == Severity::Warn);
    assert!(console_floor(1) == Severity::Info);
    assert!(console_floor(2) == Severity::Debug);
    assert!(console_floor(17) == Severity::Debug);
}

#[test]
fn assembled_plan_holds_console_then_files() {
    let mut dests = DestinationSet::new();
    dests.insert("/work/a.log".to_string());
    dests.insert("/work/b.log".to_string());
    let plan = assemble_plan(1, &dests);
    assert_eq!(3, plan.len());
    match &plan[0] {
        Sink::Console { floor } => assert!(*floor == Severity::Info),
        _ => panic!("expected the console sink first"),
    }
    match &plan[1] {
        Sink::File { path, floor } => {
            assert_eq!("/work/a.log", path.as_str());
            assert!(*floor == Severity::Debug);
        }
        _ => panic!("expected a file sink"),
    }
    match &plan[2] {
        Sink::File { path, floor } => {
            assert_eq!("/work/b.log", path.as_str());
            assert!(*floor == Severity::Debug);
        }
        _ => panic!("expected a file sink"),
    }
}

#[test]
fn fallback_plan_is_console_only_warn() {
    let plan = fallback_plan();
    assert_eq!(1, plan.len());
    match &plan[0] {
        Sink::Console { floor } => assert!(*floor == Severity::Warn),
        _ => panic!("expected the console sink"),
    }
}

#[test]
fn failed_primary_install_falls_back_to_console_warn() {
    let mut pipeline = SetupPipeline::new();
    assert!(pipeline.current_phase() == SetupPhase::Primary);
    let retry = pipeline.report(false).expect("a failed primary attempt must hand out the fallback");
    assert_eq!(1, retry.len());
    match &retry[0] {
        Sink::Console { floor } => assert!(*floor == Severity::Warn),
        _ => panic!("expected the console-only fallback"),
    }
    assert!(pipeline.current_phase() == SetupPhase::Fallback);
    assert!(pipeline.report(true).is_none());
    assert!(pipeline.current_phase() == SetupPhase::Done);
}

#[test]
fn successful_install_is_one_shot() {
    let mut pipeline = SetupPipeline::new();
    assert!(pipeline.report(true).is_none());
    assert!(pipeline.current_phase() == SetupPhase::Done);
    assert!(pipeline.report(false).is_none());
    assert!(pipeline.current_phase() == SetupPhase::Done);
}

#[test]
fn failed_fallback_ends_the_run() {
    let mut pipeline = SetupPipeline::new();
    pipeline.report(false);
    assert!(pipeline.report(false).is_none());
    assert!(pipeline.current_phase() == SetupPhase::Failed);
    assert!(pipeline.report(true).is_none());
    assert!(pipeline.current_phase() == SetupPhase::Failed);
}

#[test]
fn default_filename_follows_the_pattern() {
    assert_eq!(
        "aitios-log-2018-07-17T18_06_53.800963444+02_00.log",
        synthesize_datetime_log_filename("2018-07-17T18_06_53.800963444+02_00")
    );
}

#[test]
fn filesystem_safety_rejects_separators_and_colons() {
    assert!(is_filesystem_safe("2018-07-17T18_06_53.800963444+02_00"));
    assert!(is_filesystem_safe(""));
    assert!(!is_filesystem_safe("18:06:53"));
    assert!(!is_filesystem_safe("2018/07/17"));
}

#[test]
fn thread_count_validation_accepts_decimals_only() {
    assert!(validate_thread_count("8".to_string()).is_ok());
    assert!(validate_thread_count("+8".to_string()).is_ok());
    assert!(validate_thread_count("0".to_string()).is_ok());
    assert_eq!(
        Err("Invalid thread count specified: eight".to_string()),
        validate_thread_count("eight".to_string())
    );
    assert!(validate_thread_count("".to_string()).is_err());
    assert!(validate_thread_count("+".to_string()).is_err());
    assert!(validate_thread_count("99999999999999999999999".to_string()).is_err());
    assert!(validate_thread_count("-3".to_string()).is_err());
}

#[test]
fn thread_count_parses_to_its_value() {
    assert_eq!(Some(42), parse_thread_count("42"));
    assert_eq!(Some(7), parse_thread_count("+7"));
    assert_eq!(None, parse_thread_count("4x"));
    assert_eq!(None, parse_thread_count(""));
}

#[test]
fn simulation_spec_path_must_not_be_empty() {
    assert!(validate_simulation_spec("tests/examples/simulation.yml".to_string()).is_ok());
    assert_eq!(
        Err("Specified simulation spec file path is empty".to_string()),
        validate_simulation_spec("".to_string())
    );
}
