//! The execution model of the command-line traversal: what mode the run is
//! in, how results are reported, and the exit decision taken once the
//! traversal summary is known. File-system walking and report rendering
//! live outside the library; only the decisions are modelled here.

use vstd::prelude::*;

verus! {

/// The type of fixes that should be applied when analyzing a file.
#[derive(Clone, Copy, PartialEq, Eq, Structural, Debug)]
pub enum FixFileMode {
    /// Apply the safe fixes only.
    SafeFixes,
    /// Apply both safe and unsafe fixes.
    SafeAndUnsafeFixes,
}

/// The environment a continuous-integration run executes in.
#[derive(Clone, Copy, PartialEq, Eq, Structural, Debug)]
pub enum ExecutionEnvironment {
    GitHub,
}

/// The sub-command of a configuration migration.
#[derive(Clone, Copy, PartialEq, Eq, Structural, Debug)]
pub enum MigrateSubCommand {
    Prettier,
    Eslint,
}

/// A type that holds the information to execute the traversal via standard
/// input: the virtual path to the file and its content.
#[derive(PartialEq, Eq, Debug)]
pub struct Stdin(pub String, pub String);

impl Stdin {
    pub fn as_path(&self) -> (r: &str)
        ensures
            r@ == self.0@,
    {
        self.0.as_str()
    }

    pub fn as_content(&self) -> (r: &str)
        ensures
            r@ == self.1@,
    {
        self.1.as_str()
    }
}

impl From<(String, String)> for Stdin {
    fn from(value: (String, String)) -> (r: Stdin) {
        Stdin(value.0, value.1)
    }
}

impl vstd::std_specs::convert::FromSpecImpl<(String, String)> for Stdin {
    open spec fn obeys_from_spec() -> bool {
        true
    }

    open spec fn from_spec(value: (String, String)) -> Stdin {
        Stdin(value.0, value.1)
    }
}

/// Whether version-control integrated options were requested.
#[derive(Clone, Copy, PartialEq, Eq, Structural, Debug)]
pub struct VcsTargeted {
    pub staged: bool,
    pub changed: bool,
}

/// A reference to a rule or group of rules, as written on the command
/// line.
pub type RuleSelector = String;

/// The identifier of a stored search pattern.
pub type PatternId = String;

/// The modality of execution of the traversal.
#[derive(PartialEq, Eq, Debug)]
pub enum TraversalMode {
    /// Check formatting, lints and import organization at once.
    Check {
        /// The fixes to apply, when fixing was requested at all.
        fix_file_mode: Option<FixFileMode>,
        /// Virtual path and content when reading from standard input.
        stdin: Option<Stdin>,
        vcs_targeted: VcsTargeted,
    },
    /// Run the lint rules.
    Lint {
        fix_file_mode: Option<FixFileMode>,
        stdin: Option<Stdin>,
        /// Run only the given rules or groups.
        only: Vec<RuleSelector>,
        /// Skip the given rules or groups; takes precedence over `only`.
        skip: Vec<RuleSelector>,
        vcs_targeted: VcsTargeted,
        /// Suppress existing diagnostics with an inline marker.
        suppress: bool,
    },
    /// Run as a continuous-integration gate.
    CI {
        environment: Option<ExecutionEnvironment>,
        vcs_targeted: VcsTargeted,
    },
    /// Format files.
    Format {
        ignore_errors: bool,
        write: bool,
        stdin: Option<Stdin>,
        vcs_targeted: VcsTargeted,
    },
    /// Migrate a configuration file.
    Migrate {
        write: bool,
        configuration_file_path: String,
        configuration_directory_path: String,
        sub_command: Option<MigrateSubCommand>,
    },
    /// Search for a pattern.
    Search {
        pattern: PatternId,
        stdin: Option<Stdin>,
    },
}

impl TraversalMode {
    /// The name the mode is displayed under.
    pub open spec fn spec_display_name(&self) -> Seq<char> {
        match self {
            TraversalMode::Check { .. } => "check"@,
            TraversalMode::CI { .. } => "ci"@,
            TraversalMode::Format { .. } => "format"@,
            TraversalMode::Migrate { .. } => "migrate"@,
            TraversalMode::Lint { .. } => "lint"@,
            TraversalMode::Search { .. } => "search"@,
        }
    }

    pub fn display_name(&self) -> (r: &'static str)
        ensures
            r@ == self.spec_display_name(),
    {
        match self {
            TraversalMode::Check { .. } => "check",
            TraversalMode::CI { .. } => "ci",
            TraversalMode::Format { .. } => "format",
            TraversalMode::Migrate { .. } => "migrate",
            TraversalMode::Lint { .. } => "lint",
            TraversalMode::Search { .. } => "search",
        }
    }
}

/// How the reporter was selected on the command line.
#[derive(Clone, Copy, PartialEq, Eq, Structural, Debug)]
pub enum CliReporter {
    Default,
    Summary,
    Json,
    JsonPretty,
    GitHub,
    Junit,
    GitLab,
}

impl CliReporter {
    pub fn is_default(&self) -> (r: bool)
        ensures
            r == (*self is Default),
    {
        matches!(self, CliReporter::Default)
    }
}

/// Tells the execution of the traversal how the information should be
/// reported.
#[derive(Clone, Copy, PartialEq, Eq, Structural, Debug)]
pub enum ReportMode {
    /// Reports information straight to the console, the default mode.
    Terminal { with_summary: bool },
    /// Reports information in JSON format.
    Json { pretty: bool },
    /// Reports information for GitHub annotations.
    GitHub,
    /// Reports information as a JUnit document.
    Junit,
    /// Reports information in the GitLab code-quality format.
    GitLab,
}

impl Default for ReportMode {
    fn default() -> (r: ReportMode)
        ensures
            r == (ReportMode::Terminal { with_summary: false }),
    {
        ReportMode::Terminal { with_summary: false }
    }
}

impl From<CliReporter> for ReportMode {
    fn from(value: CliReporter) -> (r: ReportMode) {
        match value {
            CliReporter::Default => ReportMode::Terminal { with_summary: false },
            CliReporter::Summary => ReportMode::Terminal { with_summary: true },
            CliReporter::Json => ReportMode::Json { pretty: false },
            CliReporter::JsonPretty => ReportMode::Json { pretty: true },
            CliReporter::GitHub => ReportMode::GitHub,
            CliReporter::Junit => ReportMode::Junit,
            CliReporter::GitLab => ReportMode::GitLab,
        }
    }
}

impl vstd::std_specs::convert::FromSpecImpl<CliReporter> for ReportMode {
    open spec fn obeys_from_spec() -> bool {
        true
    }

    open spec fn from_spec(value: CliReporter) -> ReportMode {
        match value {
            CliReporter::Default => ReportMode::Terminal { with_summary: false },
            CliReporter::Summary => ReportMode::Terminal { with_summary: true },
            CliReporter::Json => ReportMode::Json { pretty: false },
            CliReporter::JsonPretty => ReportMode::Json { pretty: true },
            CliReporter::GitHub => ReportMode::GitHub,
            CliReporter::Junit => ReportMode::Junit,
            CliReporter::GitLab => ReportMode::GitLab,
        }
    }
}

/// The features a traversal asks the workspace to enable.
#[derive(Clone, Copy, PartialEq, Eq, Structural, Debug)]
pub struct FeatureName {
    pub formatter: bool,
    pub linter: bool,
    pub organize_imports: bool,
    pub assists: bool,
    pub search: bool,
}

impl FeatureName {
    /// No feature at all.
    pub fn empty() -> (r: FeatureName)
        ensures
            r == (FeatureName {
                formatter: false,
                linter: false,
                organize_imports: false,
                assists: false,
                search: false,
            }),
    {
        FeatureName {
            formatter: false,
            linter: false,
            organize_imports: false,
            assists: false,
            search: false,
        }
    }
}

/// The command-line options the execution decisions read.
#[derive(Clone, Copy, PartialEq, Eq, Structural, Debug)]
pub struct CliOptions {
    pub reporter: CliReporter,
    pub verbose: bool,
    pub max_diagnostics: u16,
    pub error_on_warnings: bool,
    pub no_errors_on_unmatched: bool,
}

/// Useful information during the traversal of files and virtual content.
#[derive(PartialEq, Eq, Debug)]
pub struct Execution {
    /// How the information should be collected and reported.
    pub report_mode: ReportMode,
    /// The modality of execution of the traversal.
    pub traversal_mode: TraversalMode,
    /// The maximum number of diagnostics that can be printed to the
    /// console.
    pub max_diagnostics: u32,
}

/// The fix-file mode of a traversal: configured for checks and lints,
/// absent for every other mode.
pub open spec fn spec_fix_file_mode(e: Execution) -> Option<FixFileMode> {
    match e.traversal_mode {
        TraversalMode::Check { fix_file_mode, .. } => fix_file_mode,
        TraversalMode::Lint { fix_file_mode, .. } => fix_file_mode,
        _ => None,
    }
}

/// The standard-input payload of a traversal, when one was given.
pub open spec fn spec_stdin_file(e: Execution) -> Option<Stdin> {
    match e.traversal_mode {
        TraversalMode::Check { stdin, .. } => stdin,
        TraversalMode::Lint { stdin, .. } => stdin,
        TraversalMode::Format { stdin, .. } => stdin,
        TraversalMode::Search { stdin, .. } => stdin,
        _ => None,
    }
}

impl Execution {
    pub fn new(mode: TraversalMode) -> (r: Execution)
        ensures
            r.report_mode == (ReportMode::Terminal { with_summary: false }),
            r.traversal_mode == mode,
            r.max_diagnostics == 20u32,
    {
        Execution {
            report_mode: ReportMode::default(),
            traversal_mode: mode,
            max_diagnostics: 20,
        }
    }

    /// The execution of a plain format run.
    pub fn new_format(vcs_targeted: VcsTargeted) -> (r: Execution)
        ensures
            r.traversal_mode == (TraversalMode::Format {
                ignore_errors: false,
                write: false,
                stdin: None,
                vcs_targeted,
            }),
            r.report_mode == (ReportMode::Terminal { with_summary: false }),
            r.max_diagnostics == 0u32,
    {
        Execution {
            traversal_mode: TraversalMode::Format {
                ignore_errors: false,
                write: false,
                stdin: None,
                vcs_targeted,
            },
            report_mode: ReportMode::default(),
            max_diagnostics: 0,
        }
    }

    /// The execution of a continuous-integration run. Whether the run
    /// executes under GitHub is read from the environment by the caller.
    pub fn new_ci(vcs_targeted: VcsTargeted, is_github: bool) -> (r: Execution)
        ensures
            r.traversal_mode == (TraversalMode::CI {
                environment: if is_github {
                    Some(ExecutionEnvironment::GitHub)
                } else {
                    None
                },
                vcs_targeted,
            }),
            r.report_mode == (ReportMode::Terminal { with_summary: false }),
            r.max_diagnostics == 20u32,
    {
        Execution {
            report_mode: ReportMode::default(),
            traversal_mode: TraversalMode::CI {
                environment: if is_github {
                    Some(ExecutionEnvironment::GitHub)
                } else {
                    None
                },
                vcs_targeted,
            },
            max_diagnostics: 20,
        }
    }

    /// Set the reporting mode by reading the command-line options.
    pub fn set_report(self, cli_options: &CliOptions) -> (r: Execution)
        ensures
            r.report_mode == <ReportMode as vstd::std_specs::convert::FromSpec<CliReporter>>::from_spec(cli_options.reporter),
            r.traversal_mode == self.traversal_mode,
            r.max_diagnostics == self.max_diagnostics,
    {
        let report_mode = ReportMode::from(cli_options.reporter);
        Execution { report_mode, traversal_mode: self.traversal_mode, max_diagnostics: self.max_diagnostics }
    }

    pub fn report_mode(&self) -> (r: &ReportMode)
        ensures
            *r == self.report_mode,
    {
        &self.report_mode
    }

    pub fn traversal_mode(&self) -> (r: &TraversalMode)
        ensures
            r == &self.traversal_mode,
    {
        &self.traversal_mode
    }

    pub fn get_max_diagnostics(&self) -> (r: u32)
        ensures
            r == self.max_diagnostics,
    {
        self.max_diagnostics
    }

    /// The features this traversal asks the workspace to enable.
    pub fn to_feature(&self) -> (r: FeatureName)
        ensures
            self.traversal_mode is Format ==> r == (FeatureName {
                formatter: true,
                linter: false,
                organize_imports: false,
                assists: false,
                search: false,
            }),
            self.traversal_mode is Lint ==> r == (FeatureName {
                formatter: false,
                linter: true,
                organize_imports: false,
                assists: false,
                search: false,
            }),
            self.traversal_mode is Check || self.traversal_mode is CI ==> r == (FeatureName {
                formatter: true,
                linter: true,
                organize_imports: true,
                assists: true,
                search: false,
            }),
            self.traversal_mode is Migrate ==> r == (FeatureName {
                formatter: false,
                linter: false,
                organize_imports: false,
                assists: false,
                search: false,
            }),
            self.traversal_mode is Search ==> r == (FeatureName {
                formatter: false,
                linter: false,
                organize_imports: false,
                assists: false,
                search: true,
            }),
    {
        match &self.traversal_mode {
            TraversalMode::Format { .. } => FeatureName {
                formatter: true,
                linter: false,
                organize_imports: false,
                assists: false,
                search: false,
            },
            TraversalMode::Lint { .. } => FeatureName {
                formatter: false,
                linter: true,
                organize_imports: false,
                assists: false,
                search: false,
            },
            TraversalMode::Check { .. } | TraversalMode::CI { .. } => FeatureName {
                formatter: true,
                linter: true,
                organize_imports: true,
                assists: true,
                search: false,
            },
            TraversalMode::Migrate { .. } => FeatureName::empty(),
            TraversalMode::Search { .. } => FeatureName {
                formatter: false,
                linter: false,
                organize_imports: false,
                assists: false,
                search: true,
            },
        }
    }

    /// The fixes to apply, when running a check or lint with fixing
    /// requested.
    pub fn as_fix_file_mode(&self) -> (r: Option<&FixFileMode>)
        ensures
            match r {
                Some(m) => spec_fix_file_mode(*self) == Some(*m),
                None => spec_fix_file_mode(*self) is None,
            },
    {
        match &self.traversal_mode {
            TraversalMode::Check { fix_file_mode, .. } => fix_file_mode.as_ref(),
            TraversalMode::Lint { fix_file_mode, .. } => fix_file_mode.as_ref(),
            _ => None,
        }
    }

    /// Whether existing diagnostics should be suppressed with inline
    /// markers.
    pub fn as_write_suppressions_mode(&self) -> (r: bool)
        ensures
            r == (self.traversal_mode matches TraversalMode::Lint { suppress: true, .. }),
    {
        match &self.traversal_mode {
            TraversalMode::Lint { suppress, .. } => *suppress,
            _ => false,
        }
    }

    /// The diagnostic category the run reports under.
    pub fn as_diagnostic_category(&self) -> (r: &'static str)
        ensures
            r@ == self.traversal_mode.spec_display_name(),
    {
        self.traversal_mode.display_name()
    }

    pub fn is_ci(&self) -> (r: bool)
        ensures
            r == (self.traversal_mode is CI),
    {
        matches!(self.traversal_mode, TraversalMode::CI { .. })
    }

    pub fn is_search(&self) -> (r: bool)
        ensures
            r == (self.traversal_mode is Search),
    {
        matches!(self.traversal_mode, TraversalMode::Search { .. })
    }

    pub fn is_check(&self) -> (r: bool)
        ensures
            r == (self.traversal_mode is Check),
    {
        matches!(self.traversal_mode, TraversalMode::Check { .. })
    }

    pub fn is_lint(&self) -> (r: bool)
        ensures
            r == (self.traversal_mode is Lint),
    {
        matches!(self.traversal_mode, TraversalMode::Lint { .. })
    }

    /// Whether this is a check run applying the safe fixes.
    pub fn is_check_apply(&self) -> (r: bool)
        ensures
            r == (self.traversal_mode matches TraversalMode::Check {
                fix_file_mode: Some(FixFileMode::SafeFixes),
                ..
            }),
    {
        matches!(
            self.traversal_mode,
            TraversalMode::Check { fix_file_mode: Some(FixFileMode::SafeFixes), .. }
        )
    }

    /// Whether this is a check run applying both safe and unsafe fixes.
    pub fn is_check_apply_unsafe(&self) -> (r: bool)
        ensures
            r == (self.traversal_mode matches TraversalMode::Check {
                fix_file_mode: Some(FixFileMode::SafeAndUnsafeFixes),
                ..
            }),
    {
        matches!(
            self.traversal_mode,
            TraversalMode::Check { fix_file_mode: Some(FixFileMode::SafeAndUnsafeFixes), .. }
        )
    }

    pub fn is_format(&self) -> (r: bool)
        ensures
            r == (self.traversal_mode is Format),
    {
        matches!(self.traversal_mode, TraversalMode::Format { .. })
    }

    pub fn is_format_write(&self) -> (r: bool)
        ensures
            r == (self.traversal_mode matches TraversalMode::Format { write: true, .. }),
    {
        match &self.traversal_mode {
            TraversalMode::Format { write, .. } => *write,
            _ => false,
        }
    }

    /// Whether the traversal mode requires write access to files.
    pub fn requires_write_access(&self) -> (r: bool)
        ensures
            r == (match self.traversal_mode {
                TraversalMode::Check { fix_file_mode, .. } => fix_file_mode is Some,
                TraversalMode::Lint { fix_file_mode, .. } => fix_file_mode is Some,
                TraversalMode::CI { .. } => false,
                TraversalMode::Search { .. } => false,
                TraversalMode::Format { write, .. } => write,
                TraversalMode::Migrate { write, .. } => write,
            }),
    {
        match &self.traversal_mode {
            TraversalMode::Check { fix_file_mode, .. } => fix_file_mode.is_some(),
            TraversalMode::Lint { fix_file_mode, .. } => fix_file_mode.is_some(),
            TraversalMode::CI { .. } => false,
            TraversalMode::Search { .. } => false,
            TraversalMode::Format { write, .. } => *write,
            TraversalMode::Migrate { write, .. } => *write,
        }
    }

    /// The standard-input payload, when the traversal reads from it.
    pub fn as_stdin_file(&self) -> (r: Option<&Stdin>)
        ensures
            match r {
                Some(s) => spec_stdin_file(*self) == Some(*s),
                None => spec_stdin_file(*self) is None,
            },
    {
        match &self.traversal_mode {
            TraversalMode::Check { stdin, .. } => stdin.as_ref(),
            TraversalMode::Lint { stdin, .. } => stdin.as_ref(),
            TraversalMode::Format { stdin, .. } => stdin.as_ref(),
            TraversalMode::Search { stdin, .. } => stdin.as_ref(),
            _ => None,
        }
    }

    /// Whether staged or changed files were targeted.
    pub fn is_vcs_targeted(&self) -> (r: bool)
        ensures
            r == (match self.traversal_mode {
                TraversalMode::Check { vcs_targeted, .. } => vcs_targeted.staged
                    || vcs_targeted.changed,
                TraversalMode::Lint { vcs_targeted, .. } => vcs_targeted.staged
                    || vcs_targeted.changed,
                TraversalMode::Format { vcs_targeted, .. } => vcs_targeted.staged
                    || vcs_targeted.changed,
                TraversalMode::CI { vcs_targeted, .. } => vcs_targeted.staged
                    || vcs_targeted.changed,
                _ => false,
            }),
    {
        match &self.traversal_mode {
            TraversalMode::Check { vcs_targeted, .. } => vcs_targeted.staged
                || vcs_targeted.changed,
            TraversalMode::Lint { vcs_targeted, .. } => vcs_targeted.staged
                || vcs_targeted.changed,
            TraversalMode::Format { vcs_targeted, .. } => vcs_targeted.staged
                || vcs_targeted.changed,
            TraversalMode::CI { vcs_targeted, .. } => vcs_targeted.staged
                || vcs_targeted.changed,
            _ => false,
        }
    }

    /// Whether a write or fix option was requested.
    pub fn is_write(&self) -> (r: bool)
        ensures
            r == (match self.traversal_mode {
                TraversalMode::Check { fix_file_mode, .. } => fix_file_mode is Some,
                TraversalMode::Lint { fix_file_mode, .. } => fix_file_mode is Some,
                TraversalMode::CI { .. } => false,
                TraversalMode::Format { write, .. } => write,
                TraversalMode::Migrate { write, .. } => write,
                TraversalMode::Search { .. } => false,
            }),
    {
        match &self.traversal_mode {
            TraversalMode::Check { fix_file_mode, .. } => fix_file_mode.is_some(),
            TraversalMode::Lint { fix_file_mode, .. } => fix_file_mode.is_some(),
            TraversalMode::CI { .. } => false,
            TraversalMode::Format { write, .. } => *write,
            TraversalMode::Migrate { write, .. } => *write,
            TraversalMode::Search { .. } => false,
        }
    }
}

/// The counts a finished traversal reports.
#[derive(Clone, Copy, PartialEq, Eq, Structural, Debug)]
pub struct TraversalSummary {
    pub changed: usize,
    pub unchanged: usize,
    pub skipped: usize,
    pub errors: usize,
    pub warnings: usize,
}

/// The error a finished run exits with, when it exits with one. The
/// diagnostic category it is reported under is the execution's own.
#[derive(Clone, Copy, PartialEq, Eq, Structural, Debug)]
pub enum CliDiagnostic {
    /// No file was processed at all.
    NoFilesProcessed,
    /// Warnings were treated as errors while applying fixes.
    ApplyWarnings,
    /// Warnings were treated as errors while checking.
    CheckWarnings,
    /// Errors were found while applying fixes.
    ApplyError,
    /// Errors were found while checking.
    CheckError,
}

/// Whether warnings alone must fail the run.
pub open spec fn spec_should_exit_on_warnings(summary: TraversalSummary, cli: CliOptions) -> bool {
    summary.warnings > 0 && cli.error_on_warnings
}

/// The exit decision of a finished traversal.
pub open spec fn spec_execution_result(
    e: Execution,
    summary: TraversalSummary,
    cli: CliOptions,
) -> Result<(), CliDiagnostic> {
    let processed = summary.changed + summary.unchanged;
    let warn = spec_should_exit_on_warnings(summary, cli);
    if processed <= summary.skipped && !cli.no_errors_on_unmatched {
        Err(CliDiagnostic::NoFilesProcessed)
    } else if summary.errors > 0 || warn {
        if warn {
            if e.traversal_mode matches TraversalMode::Check {
                fix_file_mode: Some(FixFileMode::SafeFixes),
                ..
            } {
                Err(CliDiagnostic::ApplyWarnings)
            } else {
                Err(CliDiagnostic::CheckWarnings)
            }
        } else {
            if e.traversal_mode matches TraversalMode::Check {
                fix_file_mode: Some(FixFileMode::SafeFixes),
                ..
            } {
                Err(CliDiagnostic::ApplyError)
            } else {
                Err(CliDiagnostic::CheckError)
            }
        }
    } else {
        Ok(())
    }
}

/// The maximum number of diagnostics to print: the configured limit under
/// the default reporter, and no limit under a custom one, so users can see
/// all of them.
pub fn resolve_max_diagnostics(cli: &CliOptions) -> (r: u32)
    ensures
        cli.reporter is Default ==> r == cli.max_diagnostics as u32,
        !(cli.reporter is Default) ==> r == u32::MAX,
{
    if cli.reporter.is_default() {
        cli.max_diagnostics as u32
    } else {
        u32::MAX
    }
}

/// Decide how a finished traversal exits: an error when nothing was
/// processed, when errors were found, or when warnings must be treated as
/// errors; success otherwise.
pub fn execution_result(e: &Execution, summary: &TraversalSummary, cli: &CliOptions) -> (r:
    Result<(), CliDiagnostic>)
    requires
        summary.changed + summary.unchanged <= usize::MAX,
    ensures
        r == spec_execution_result(*e, *summary, *cli),
{
    let processed: usize = summary.changed + summary.unchanged;
    let remaining: usize = if processed >= summary.skipped {
        processed - summary.skipped
    } else {
        0
    };
    let should_exit_on_warnings = summary.warnings > 0 && cli.error_on_warnings;
    if remaining == 0 && !cli.no_errors_on_unmatched {
        Err(CliDiagnostic::NoFilesProcessed)
    } else if summary.errors > 0 || should_exit_on_warnings {
        if should_exit_on_warnings {
            if e.is_check_apply() {
                Err(CliDiagnostic::ApplyWarnings)
            } else {
                Err(CliDiagnostic::CheckWarnings)
            }
        } else {
            if e.is_check_apply() {
                Err(CliDiagnostic::ApplyError)
            } else {
                Err(CliDiagnostic::CheckError)
            }
        }
    } else {
        Ok(())
    }
}

} // verus!
