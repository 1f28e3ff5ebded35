//! Tests for the execution model: construction, mode predicates, reporter
//! selection, and the exit decision.

use rule_signals::execution::{
    CliDiagnostic, CliOptions, CliReporter, Execution, ExecutionEnvironment, FeatureName,
    FixFileMode, ReportMode, Stdin, TraversalMode, TraversalSummary, VcsTargeted,
    execution_result, resolve_max_diagnostics,
};

fn vcs(staged: bool, changed: bool) -> VcsTargeted {
    VcsTargeted { staged, changed }
}

fn check_mode(fix: Option<FixFileMode>) -> TraversalMode {
    TraversalMode::Check { fix_file_mode: fix, stdin: None, vcs_targeted: vcs(false, false) }
}

fn cli(reporter: CliReporter) -> CliOptions {
    CliOptions {
        reporter,
        verbose: false,
        max_diagnostics: 20,
        error_on_warnings: false,
        no_errors_on_unmatched: false,
    }
}

fn summary(changed: usize, unchanged: usize, skipped: usize, errors: usize, warnings: usize) -> TraversalSummary {
    TraversalSummary { changed, unchanged, skipped, errors, warnings }
}

#[test]
fn new_format_starts_with_defaults() {
    let e = Execution::new_format(vcs(false, true));
    assert_eq!(*e.report_mode(), ReportMode::Terminal { with_summary: false });
    assert_eq!(e.get_max_diagnostics(), 0);
    assert!(e.is_format());
    assert!(!e.is_format_write());
    assert!(e.is_vcs_targeted());
}

#[test]
fn new_ci_records_the_github_environment() {
    let e = Execution::new_ci(vcs(false, false), true);
    assert!(e.is_ci());
    match e.traversal_mode() {
        TraversalMode::CI { environment, .. } => {
            assert_eq!(*environment, Some(ExecutionEnvironment::GitHub));
        }
        _ => panic!("expected a CI mode"),
    }
    let e = Execution::new_ci(vcs(false, false), false);
    match e.traversal_mode() {
        TraversalMode::CI { environment, .. } => assert_eq!(*environment, None),
        _ => panic!("expected a CI mode"),
    }
    assert_eq!(e.get_max_diagnostics(), 20);
}

#[test]
fn set_report_reads_the_cli_reporter() {
    let e = Execution::new(check_mode(None)).set_report(&cli(CliReporter::JsonPretty));
    assert_eq!(*e.report_mode(), ReportMode::Json { pretty: true });
    let e = Execution::new(check_mode(None)).set_report(&cli(CliReporter::Summary));
    assert_eq!(*e.report_mode(), ReportMode::Terminal { with_summary: true });
}

#[test]
fn report_mode_from_covers_every_reporter() {
    assert_eq!(ReportMode::from(CliReporter::Default), ReportMode::Terminal { with_summary: false });
    assert_eq!(ReportMode::from(CliReporter::Summary), ReportMode::Terminal { with_summary: true });
    assert_eq!(ReportMode::from(CliReporter::Json), ReportMode::Json { pretty: false });
    assert_eq!(ReportMode::from(CliReporter::JsonPretty), ReportMode::Json { pretty: true });
    assert_eq!(ReportMode::from(CliReporter::GitHub), ReportMode::GitHub);
    assert_eq!(ReportMode::from(CliReporter::Junit), ReportMode::Junit);
    assert_eq!(ReportMode::from(CliReporter::GitLab), ReportMode::GitLab);
    assert_eq!(ReportMode::default(), ReportMode::Terminal { with_summary: false });
}

#[test]
fn check_apply_predicates_follow_the_fix_mode() {
    let safe = Execution::new(check_mode(Some(FixFileMode::SafeFixes)));
    assert!(safe.is_check_apply());
    assert!(!safe.is_check_apply_unsafe());
    assert!(safe.is_write());
    assert!(safe.requires_write_access());
    let unsafe_fixes = Execution::new(check_mode(Some(FixFileMode::SafeAndUnsafeFixes)));
    assert!(!unsafe_fixes.is_check_apply());
    assert!(unsafe_fixes.is_check_apply_unsafe());
    let plain = Execution::new(check_mode(None));
    assert!(!plain.is_check_apply());
    assert!(!plain.is_write());
    assert!(!plain.requires_write_access());
    assert_eq!(plain.as_fix_file_mode(), None);
    assert_eq!(safe.as_fix_file_mode(), Some(&FixFileMode::SafeFixes));
}

#[test]
fn stdin_round_trip() {
    let stdin = Stdin::from(("virtual.jsx".to_string(), "<div />".to_string()));
    assert_eq!(stdin.as_path(), "virtual.jsx");
    assert_eq!(stdin.as_content(), "<div />");
    let e = Execution::new(TraversalMode::Check {
        fix_file_mode: None,
        stdin: Some(Stdin::from(("a".to_string(), "b".to_string()))),
        vcs_targeted: vcs(false, false),
    });
    let s = e.as_stdin_file().expect("a stdin payload");
    assert_eq!(s.as_path(), "a");
    let none = Execution::new_ci(vcs(false, false), false);
    assert!(none.as_stdin_file().is_none());
}

#[test]
fn to_feature_enables_the_mode_features() {
    let check = Execution::new(check_mode(None)).to_feature();
    assert!(check.formatter && check.linter && check.organize_imports && check.assists);
    assert!(!check.search);
    let format = Execution::new_format(vcs(false, false)).to_feature();
    assert!(format.formatter && !format.linter);
    let search = Execution::new(TraversalMode::Search {
        pattern: "p".to_string(),
        stdin: None,
    })
    .to_feature();
    assert!(search.search && !search.formatter);
    let migrate = Execution::new(TraversalMode::Migrate {
        write: false,
        configuration_file_path: "biome.json".to_string(),
        configuration_directory_path: ".".to_string(),
        sub_command: None,
    })
    .to_feature();
    assert_eq!(migrate, FeatureName::empty());
}

#[test]
fn diagnostic_category_names_the_mode() {
    assert_eq!(Execution::new(check_mode(None)).as_diagnostic_category(), "check");
    assert_eq!(Execution::new_format(vcs(false, false)).as_diagnostic_category(), "format");
    assert_eq!(Execution::new_ci(vcs(false, false), false).as_diagnostic_category(), "ci");
}

#[test]
fn write_suppressions_only_in_lint_mode() {
    let lint = Execution::new(TraversalMode::Lint {
        fix_file_mode: None,
        stdin: None,
        only: vec![],
        skip: vec![],
        vcs_targeted: vcs(false, false),
        suppress: true,
    });
    assert!(lint.as_write_suppressions_mode());
    assert!(lint.is_lint());
    assert!(!Execution::new(check_mode(None)).as_write_suppressions_mode());
}

#[test]
fn max_diagnostics_limit_is_lifted_for_custom_reporters() {
    assert_eq!(resolve_max_diagnostics(&cli(CliReporter::Default)), 20);
    assert_eq!(resolve_max_diagnostics(&cli(CliReporter::Json)), u32::MAX);
}

#[test]
fn no_processed_files_is_an_error() {
    let e = Execution::new(check_mode(None));
    let r = execution_result(&e, &summary(0, 0, 0, 0, 0), &cli(CliReporter::Default));
    assert_eq!(r, Err(CliDiagnostic::NoFilesProcessed));
    // All processed files skipped counts as nothing processed.
    let r = execution_result(&e, &summary(1, 1, 2, 0, 0), &cli(CliReporter::Default));
    assert_eq!(r, Err(CliDiagnostic::NoFilesProcessed));
    // Unless unmatched inputs were explicitly allowed.
    let mut allow = cli(CliReporter::Default);
    allow.no_errors_on_unmatched = true;
    let r = execution_result(&e, &summary(0, 0, 0, 0, 0), &allow);
    assert_eq!(r, Ok(()));
}

#[test]
fn errors_fail_the_run_with_the_apply_variant_when_fixing() {
    let plain = Execution::new(check_mode(None));
    let r = execution_result(&plain, &summary(1, 1, 0, 3, 0), &cli(CliReporter::Default));
    assert_eq!(r, Err(CliDiagnostic::CheckError));
    let applying = Execution::new(check_mode(Some(FixFileMode::SafeFixes)));
    let r = execution_result(&applying, &summary(1, 1, 0, 3, 0), &cli(CliReporter::Default));
    assert_eq!(r, Err(CliDiagnostic::ApplyError));
}

#[test]
fn warnings_fail_the_run_only_when_asked() {
    let e = Execution::new(check_mode(None));
    let r = execution_result(&e, &summary(2, 0, 0, 0, 4), &cli(CliReporter::Default));
    assert_eq!(r, Ok(()));
    let mut strict = cli(CliReporter::Default);
    strict.error_on_warnings = true;
    let r = execution_result(&e, &summary(2, 0, 0, 0, 4), &strict);
    assert_eq!(r, Err(CliDiagnostic::CheckWarnings));
    let applying = Execution::new(check_mode(Some(FixFileMode::SafeFixes)));
    let r = execution_result(&applying, &summary(2, 0, 0, 0, 4), &strict);
    assert_eq!(r, Err(CliDiagnostic::ApplyWarnings));
}

#[test]
fn clean_run_succeeds() {
    let e = Execution::new(check_mode(None));
    let r = execution_result(&e, &summary(3, 4, 1, 0, 0), &cli(CliReporter::Default));
    assert_eq!(r, Ok(()));
}

#[test]
fn display_names_cover_every_mode() {
    assert_eq!(check_mode(None).display_name(), "check");
    assert_eq!(
        TraversalMode::Search { pattern: "p".to_string(), stdin: None }.display_name(),
        "search"
    );
    assert_eq!(
        TraversalMode::Migrate {
            write: true,
            configuration_file_path: "biome.json".to_string(),
            configuration_directory_path: ".".to_string(),
            sub_command: None,
        }
        .display_name(),
        "migrate"
    );
    assert_eq!(
        TraversalMode::Lint {
            fix_file_mode: None,
            stdin: None,
            only: vec![],
            skip: vec![],
            vcs_targeted: vcs(false, false),
            suppress: false,
        }
        .display_name(),
        "lint"
    );
}
