//! Configuration, findings and reports, with their mathematical views.
use vstd::prelude::*;

verus! {

// ---------------------------------------------------------------------------
// Errors
// ---------------------------------------------------------------------------

/// What can stop an analysis. Errors that come from the file system, the
/// directory walk or JSON encoding are carried by their message text.
#[derive(Debug, Clone)]
pub enum AppError {
    Io(String),
    Walkdir(String),
    Json(String),
    InvalidInput(String),
}

pub type AppResult<T> = Result<T, AppError>;

/// The text an error is displayed as.
pub open spec fn describe_error(e: AppError) -> Seq<char> {
    match e {
        AppError::Io(m) => "io error: "@ + m@,
        AppError::Walkdir(m) => "walkdir error: "@ + m@,
        AppError::Json(m) => "json error: "@ + m@,
        AppError::InvalidInput(m) => m@,
    }
}

impl AppError {
    /// The message shown for this error (what `Display` prints).
    pub fn describe(&self) -> (r: String)
        ensures
            r@ == describe_error(*self),
    {
        match self {
            AppError::Io(m) => {
                let mut s = String::from_str("io error: ");
                s.append(m.as_str());
                s
            },
            AppError::Walkdir(m) => {
                let mut s = String::from_str("walkdir error: ");
                s.append(m.as_str());
                s
            },
            AppError::Json(m) => {
                let mut s = String::from_str("json error: ");
                s.append(m.as_str());
                s
            },
            AppError::InvalidInput(m) => m.clone(),
        }
    }
}

// ---------------------------------------------------------------------------
// Configuration
// ---------------------------------------------------------------------------

#[derive(Debug, Clone, Copy, PartialEq, Eq, Structural)]
pub enum OutputFormat {
    Text,
    Json,
    Html,
}

/// Limits above which a rule reports a finding.
#[derive(Debug, Clone, Copy, PartialEq, Eq, Structural)]
pub struct RuleThresholds {
    pub max_line_length: usize,
    pub max_function_length: usize,
    pub max_parameters: usize,
    pub max_nesting_depth: usize,
    pub max_file_lines: usize,
}

/// The documented default limits.
pub open spec fn default_thresholds() -> RuleThresholds {
    RuleThresholds {
        max_line_length: 120,
        max_function_length: 80,
        max_parameters: 6,
        max_nesting_depth: 5,
        max_file_lines: 800,
    }
}

impl Default for RuleThresholds {
    fn default() -> (r: Self)
        ensures
            r == default_thresholds(),
    {
        RuleThresholds {
            max_line_length: 120,
            max_function_length: 80,
            max_parameters: 6,
            max_nesting_depth: 5,
            max_file_lines: 800,
        }
    }
}

/// What to analyse and how to report it. Paths are held as their text.
#[derive(Debug, Clone)]
pub struct AnalysisConfig {
    pub root_path: String,
    pub format: OutputFormat,
    pub output_path: Option<String>,
    pub thresholds: RuleThresholds,
}

impl Default for AnalysisConfig {
    fn default() -> (r: Self)
        ensures
            r.root_path@ == "."@,
            r.format == OutputFormat::Text,
            r.output_path is None,
            r.thresholds == default_thresholds(),
    {
        AnalysisConfig {
            root_path: String::from_str("."),
            format: OutputFormat::Text,
            output_path: None,
            thresholds: RuleThresholds::default(),
        }
    }
}

// ---------------------------------------------------------------------------
// Findings
// ---------------------------------------------------------------------------

#[derive(Debug, Clone, Copy, PartialEq, Eq, Structural, PartialOrd, Ord, Hash)]
pub enum Severity {
    Info,
    Warning,
    Error,
}

/// The name a severity is displayed with.
pub open spec fn severity_name(s: Severity) -> Seq<char> {
    match s {
        Severity::Info => "Info"@,
        Severity::Warning => "Warning"@,
        Severity::Error => "Error"@,
    }
}

impl Severity {
    /// The name this severity is displayed with (what `Display` prints).
    pub fn name(&self) -> (r: &'static str)
        ensures
            r@ == severity_name(*self),
    {
        match self {
            Severity::Info => "Info",
            Severity::Warning => "Warning",
            Severity::Error => "Error",
        }
    }
}

#[derive(Debug, Clone, Copy, PartialEq, Eq, Structural)]
pub struct Position {
    pub line: usize,
    pub column: usize,
}

#[derive(Debug, Clone)]
pub struct Issue {
    pub rule_name: String,
    pub severity: Severity,
    pub file_path: String,
    pub position: Position,
    pub message: String,
    pub snippet: String,
}

#[verifier::ext_equal]
pub struct IssueView {
    pub rule_name: Seq<char>,
    pub severity: Severity,
    pub file_path: Seq<char>,
    pub position: Position,
    pub message: Seq<char>,
    pub snippet: Seq<char>,
}

impl View for Issue {
    type V = IssueView;

    open spec fn view(&self) -> IssueView {
        IssueView {
            rule_name: self.rule_name@,
            severity: self.severity,
            file_path: self.file_path@,
            position: self.position,
            message: self.message@,
            snippet: self.snippet@,
        }
    }
}

#[derive(Debug, Clone)]
pub struct FunctionInfo {
    pub name: String,
    pub start_line: usize,
    pub end_line: usize,
    pub parameter_count: usize,
    pub line_count: usize,
}

#[verifier::ext_equal]
pub struct FunctionInfoView {
    pub name: Seq<char>,
    pub start_line: nat,
    pub end_line: nat,
    pub parameter_count: nat,
    pub line_count: nat,
}

impl View for FunctionInfo {
    type V = FunctionInfoView;

    open spec fn view(&self) -> FunctionInfoView {
        FunctionInfoView {
            name: self.name@,
            start_line: self.start_line as nat,
            end_line: self.end_line as nat,
            parameter_count: self.parameter_count as nat,
            line_count: self.line_count as nat,
        }
    }
}

/// Statistics of one source file. The length of all lines together is kept in
/// characters; the average line length is that total over `total_lines`.
#[derive(Debug, Clone)]
pub struct FileMetrics {
    pub total_lines: usize,
    pub code_lines: usize,
    pub comment_lines: usize,
    pub blank_lines: usize,
    pub function_count: usize,
    pub module_count: usize,
    pub impl_count: usize,
    pub struct_count: usize,
    pub enum_count: usize,
    pub trait_count: usize,
    pub match_count: usize,
    pub loop_count: usize,
    pub unsafe_count: usize,
    pub max_nesting_depth: usize,
    pub total_line_length: usize,
    pub longest_line_length: usize,
    pub functions: Vec<FunctionInfo>,
}

#[verifier::ext_equal]
pub struct FileMetricsView {
    pub total_lines: nat,
    pub code_lines: nat,
    pub comment_lines: nat,
    pub blank_lines: nat,
    pub function_count: nat,
    pub module_count: nat,
    pub impl_count: nat,
    pub struct_count: nat,
    pub enum_count: nat,
    pub trait_count: nat,
    pub match_count: nat,
    pub loop_count: nat,
    pub unsafe_count: nat,
    pub max_nesting_depth: nat,
    pub total_line_length: nat,
    pub longest_line_length: nat,
    pub functions: Seq<FunctionInfoView>,
}

pub open spec fn function_views(v: Seq<FunctionInfo>) -> Seq<FunctionInfoView> {
    v.map_values(|f: FunctionInfo| f@)
}

pub open spec fn issue_views(v: Seq<Issue>) -> Seq<IssueView> {
    v.map_values(|i: Issue| i@)
}

impl View for FileMetrics {
    type V = FileMetricsView;

    open spec fn view(&self) -> FileMetricsView {
        FileMetricsView {
            total_lines: self.total_lines as nat,
            code_lines: self.code_lines as nat,
            comment_lines: self.comment_lines as nat,
            blank_lines: self.blank_lines as nat,
            function_count: self.function_count as nat,
            module_count: self.module_count as nat,
            impl_count: self.impl_count as nat,
            struct_count: self.struct_count as nat,
            enum_count: self.enum_count as nat,
            trait_count: self.trait_count as nat,
            match_count: self.match_count as nat,
            loop_count: self.loop_count as nat,
            unsafe_count: self.unsafe_count as nat,
            max_nesting_depth: self.max_nesting_depth as nat,
            total_line_length: self.total_line_length as nat,
            longest_line_length: self.longest_line_length as nat,
            functions: function_views(self.functions@),
        }
    }
}

/// All counters zero and no functions.
pub open spec fn empty_metrics() -> FileMetricsView {
    FileMetricsView {
        total_lines: 0,
        code_lines: 0,
        comment_lines: 0,
        blank_lines: 0,
        function_count: 0,
        module_count: 0,
        impl_count: 0,
        struct_count: 0,
        enum_count: 0,
        trait_count: 0,
        match_count: 0,
        loop_count: 0,
        unsafe_count: 0,
        max_nesting_depth: 0,
        total_line_length: 0,
        longest_line_length: 0,
        functions: Seq::empty(),
    }
}

impl Default for FileMetrics {
    fn default() -> (r: Self)
        ensures
            r@ == empty_metrics(),
    {
        let r = FileMetrics {
            total_lines: 0,
            code_lines: 0,
            comment_lines: 0,
            blank_lines: 0,
            function_count: 0,
            module_count: 0,
            impl_count: 0,
            struct_count: 0,
            enum_count: 0,
            trait_count: 0,
            match_count: 0,
            loop_count: 0,
            unsafe_count: 0,
            max_nesting_depth: 0,
            total_line_length: 0,
            longest_line_length: 0,
            functions: Vec::new(),
        };
        assert(r@ =~= empty_metrics());
        r
    }
}

#[derive(Debug, Clone)]
pub struct FileReport {
    pub path: String,
    pub metrics: FileMetrics,
    pub issues: Vec<Issue>,
}

#[verifier::ext_equal]
pub struct FileReportView {
    pub path: Seq<char>,
    pub metrics: FileMetricsView,
    pub issues: Seq<IssueView>,
}

impl View for FileReport {
    type V = FileReportView;

    open spec fn view(&self) -> FileReportView {
        FileReportView {
            path: self.path@,
            metrics: self.metrics@,
            issues: issue_views(self.issues@),
        }
    }
}

pub open spec fn report_views(v: Seq<FileReport>) -> Seq<FileReportView> {
    v.map_values(|f: FileReport| f@)
}

// ---------------------------------------------------------------------------
// Summary
// ---------------------------------------------------------------------------

/// Number of findings of each severity.
#[derive(Debug, Clone, Copy, PartialEq, Eq, Structural, Default)]
pub struct SeverityCounts {
    pub info: usize,
    pub warning: usize,
    pub error: usize,
}

#[derive(Debug, Clone, Copy, PartialEq, Eq, Structural)]
pub struct Summary {
    pub file_count: usize,
    pub total_issues: usize,
    pub total_lines: usize,
    pub total_code_lines: usize,
    pub total_comment_lines: usize,
    pub total_blank_lines: usize,
    pub total_functions: usize,
    pub total_modules: usize,
    pub total_structs: usize,
    pub total_enums: usize,
    pub total_traits: usize,
    pub total_impls: usize,
    pub total_matches: usize,
    pub total_loops: usize,
    pub total_unsafe_blocks: usize,
    pub severity_count: SeverityCounts,
}

/// A per-file quantity that the summary adds up.
#[derive(Debug, Clone, Copy, PartialEq, Eq, Structural)]
pub enum Tally {
    Issues,
    Lines,
    Code,
    Comments,
    Blanks,
    Functions,
    Modules,
    Structs,
    Enums,
    Traits,
    Impls,
    Matches,
    Loops,
    Unsafe,
    Infos,
    Warnings,
    Errors,
}

/// How many of the findings have severity `s`.
pub open spec fn count_severity(issues: Seq<IssueView>, s: Severity) -> nat
    decreases issues.len(),
{
    if issues.len() == 0 {
        0
    } else {
        count_severity(issues.drop_last(), s) + (if issues.last().severity == s {
            1nat
        } else {
            0nat
        })
    }
}

/// The value of one tally for one file.
pub open spec fn tally(f: FileReportView, t: Tally) -> nat {
    match t {
        Tally::Issues => f.issues.len(),
        Tally::Lines => f.metrics.total_lines,
        Tally::Code => f.metrics.code_lines,
        Tally::Comments => f.metrics.comment_lines,
        Tally::Blanks => f.metrics.blank_lines,
        Tally::Functions => f.metrics.function_count,
        Tally::Modules => f.metrics.module_count,
        Tally::Structs => f.metrics.struct_count,
        Tally::Enums => f.metrics.enum_count,
        Tally::Traits => f.metrics.trait_count,
        Tally::Impls => f.metrics.impl_count,
        Tally::Matches => f.metrics.match_count,
        Tally::Loops => f.metrics.loop_count,
        Tally::Unsafe => f.metrics.unsafe_count,
        Tally::Infos => count_severity(f.issues, Severity::Info),
        Tally::Warnings => count_severity(f.issues, Severity::Warning),
        Tally::Errors => count_severity(f.issues, Severity::Error),
    }
}

/// The sum of a tally over the files.
pub open spec fn sum_files(files: Seq<FileReportView>, t: Tally) -> nat
    decreases files.len(),
{
    if files.len() == 0 {
        0
    } else {
        sum_files(files.drop_last(), t) + tally(files.last(), t)
    }
}

/// Every total of the summary fits in a `usize`.
pub open spec fn summary_fits(files: Seq<FileReportView>) -> bool {
    &&& sum_files(files, Tally::Issues) <= usize::MAX
    &&& sum_files(files, Tally::Lines) <= usize::MAX
    &&& sum_files(files, Tally::Code) <= usize::MAX
    &&& sum_files(files, Tally::Comments) <= usize::MAX
    &&& sum_files(files, Tally::Blanks) <= usize::MAX
    &&& sum_files(files, Tally::Functions) <= usize::MAX
    &&& sum_files(files, Tally::Modules) <= usize::MAX
    &&& sum_files(files, Tally::Structs) <= usize::MAX
    &&& sum_files(files, Tally::Enums) <= usize::MAX
    &&& sum_files(files, Tally::Traits) <= usize::MAX
    &&& sum_files(files, Tally::Impls) <= usize::MAX
    &&& sum_files(files, Tally::Matches) <= usize::MAX
    &&& sum_files(files, Tally::Loops) <= usize::MAX
    &&& sum_files(files, Tally::Unsafe) <= usize::MAX
}

/// The totals of `s` are the sums over `files` (all but the file count).
pub open spec fn totals_match(s: Summary, files: Seq<FileReportView>) -> bool {
    &&& s.total_issues == sum_files(files, Tally::Issues)
    &&& s.total_lines == sum_files(files, Tally::Lines)
    &&& s.total_code_lines == sum_files(files, Tally::Code)
    &&& s.total_comment_lines == sum_files(files, Tally::Comments)
    &&& s.total_blank_lines == sum_files(files, Tally::Blanks)
    &&& s.total_functions == sum_files(files, Tally::Functions)
    &&& s.total_modules == sum_files(files, Tally::Modules)
    &&& s.total_structs == sum_files(files, Tally::Structs)
    &&& s.total_enums == sum_files(files, Tally::Enums)
    &&& s.total_traits == sum_files(files, Tally::Traits)
    &&& s.total_impls == sum_files(files, Tally::Impls)
    &&& s.total_matches == sum_files(files, Tally::Matches)
    &&& s.total_loops == sum_files(files, Tally::Loops)
    &&& s.total_unsafe_blocks == sum_files(files, Tally::Unsafe)
    &&& s.severity_count.info == sum_files(files, Tally::Infos)
    &&& s.severity_count.warning == sum_files(files, Tally::Warnings)
    &&& s.severity_count.error == sum_files(files, Tally::Errors)
}

/// `s` is the summary of `files`.
pub open spec fn summarizes(s: Summary, files: Seq<FileReportView>) -> bool {
    s.file_count == files.len() && totals_match(s, files)
}

/// Adding the next file to a prefix sum: the step, and that it stays within the total.
pub proof fn lemma_sum_advance(files: Seq<FileReportView>, t: Tally, i: int)
    requires
        0 <= i < files.len(),
    ensures
        sum_files(files.take(i + 1), t) == sum_files(files.take(i), t) + tally(files[i], t),
        sum_files(files.take(i + 1), t) <= sum_files(files, t),
{
    assert(files.take(i + 1).drop_last() == files.take(i));
    lemma_sum_prefix(files, t, i + 1);
}

/// A sum over a prefix is at most the sum over the whole.
pub proof fn lemma_sum_prefix(files: Seq<FileReportView>, t: Tally, i: int)
    requires
        0 <= i <= files.len(),
    ensures
        sum_files(files.take(i), t) <= sum_files(files, t),
    decreases files.len() - i,
{
    if i < files.len() {
        lemma_sum_prefix(files, t, i + 1);
        assert(files.take(i + 1).drop_last() == files.take(i));
    } else {
        assert(files.take(i) == files);
    }
}

/// The three severity counts add up to the number of findings.
pub proof fn lemma_count_severity_total(issues: Seq<IssueView>)
    ensures
        count_severity(issues, Severity::Info) + count_severity(issues, Severity::Warning)
            + count_severity(issues, Severity::Error) == issues.len(),
    decreases issues.len(),
{
    if issues.len() > 0 {
        lemma_count_severity_total(issues.drop_last());
    }
}

/// Over any files, the per-severity totals add up to the number of findings.
pub proof fn lemma_severity_sums(files: Seq<FileReportView>)
    ensures
        sum_files(files, Tally::Infos) + sum_files(files, Tally::Warnings) + sum_files(
            files,
            Tally::Errors,
        ) == sum_files(files, Tally::Issues),
    decreases files.len(),
{
    if files.len() > 0 {
        lemma_severity_sums(files.drop_last());
        lemma_count_severity_total(files.last().issues);
    }
}

/// The summary of no files: every total zero.
pub open spec fn zero_summary() -> Summary {
    Summary {
        file_count: 0,
        total_issues: 0,
        total_lines: 0,
        total_code_lines: 0,
        total_comment_lines: 0,
        total_blank_lines: 0,
        total_functions: 0,
        total_modules: 0,
        total_structs: 0,
        total_enums: 0,
        total_traits: 0,
        total_impls: 0,
        total_matches: 0,
        total_loops: 0,
        total_unsafe_blocks: 0,
        severity_count: SeverityCounts { info: 0, warning: 0, error: 0 },
    }
}

impl Default for Summary {
    fn default() -> (r: Self)
        ensures
            r == zero_summary(),
    {
        Summary {
            file_count: 0,
            total_issues: 0,
            total_lines: 0,
            total_code_lines: 0,
            total_comment_lines: 0,
            total_blank_lines: 0,
            total_functions: 0,
            total_modules: 0,
            total_structs: 0,
            total_enums: 0,
            total_traits: 0,
            total_impls: 0,
            total_matches: 0,
            total_loops: 0,
            total_unsafe_blocks: 0,
            severity_count: SeverityCounts { info: 0, warning: 0, error: 0 },
        }
    }
}

impl Summary {
    /// Totals over the file reports, with the number of findings per severity.
    pub fn from_files(files: &[FileReport]) -> (r: Summary)
        requires
            summary_fits(report_views(files@)),
        ensures
            summarizes(r, report_views(files@)),
    {
        let ghost fv = report_views(files@);
        let mut s = Summary {
            file_count: files.len(),
            total_issues: 0,
            total_lines: 0,
            total_code_lines: 0,
            total_comment_lines: 0,
            total_blank_lines: 0,
            total_functions: 0,
            total_modules: 0,
            total_structs: 0,
            total_enums: 0,
            total_traits: 0,
            total_impls: 0,
            total_matches: 0,
            total_loops: 0,
            total_unsafe_blocks: 0,
            severity_count: SeverityCounts { info: 0, warning: 0, error: 0 },
        };
        proof {
            lemma_severity_sums(fv);
        }
        let mut i: usize = 0;
        while i < files.len()
            invariant
                0 <= i <= files.len(),
                fv == report_views(files@),
                fv.len() == files.len(),
                summary_fits(fv),
                sum_files(fv, Tally::Infos) + sum_files(fv, Tally::Warnings) + sum_files(
                    fv,
                    Tally::Errors,
                ) == sum_files(fv, Tally::Issues),
                s.file_count == files.len(),
                totals_match(s, fv.take(i as int)),
            decreases files.len() - i,
        {
            let file = &files[i];
            let ghost f = fv[i as int];
            assert(f == file@);
            proof {
                lemma_sum_advance(fv, Tally::Issues, i as int);
                lemma_sum_advance(fv, Tally::Lines, i as int);
                lemma_sum_advance(fv, Tally::Code, i as int);
                lemma_sum_advance(fv, Tally::Comments, i as int);
                lemma_sum_advance(fv, Tally::Blanks, i as int);
                lemma_sum_advance(fv, Tally::Functions, i as int);
                lemma_sum_advance(fv, Tally::Modules, i as int);
                lemma_sum_advance(fv, Tally::Structs, i as int);
                lemma_sum_advance(fv, Tally::Enums, i as int);
                lemma_sum_advance(fv, Tally::Traits, i as int);
                lemma_sum_advance(fv, Tally::Impls, i as int);
                lemma_sum_advance(fv, Tally::Matches, i as int);
                lemma_sum_advance(fv, Tally::Loops, i as int);
                lemma_sum_advance(fv, Tally::Unsafe, i as int);
                lemma_sum_advance(fv, Tally::Infos, i as int);
                lemma_sum_advance(fv, Tally::Warnings, i as int);
                lemma_sum_advance(fv, Tally::Errors, i as int);
                lemma_severity_sums(fv.take(i + 1));
            }
            s.total_lines = s.total_lines + file.metrics.total_lines;
            s.total_code_lines = s.total_code_lines + file.metrics.code_lines;
            s.total_comment_lines = s.total_comment_lines + file.metrics.comment_lines;
            s.total_blank_lines = s.total_blank_lines + file.metrics.blank_lines;
            s.total_functions = s.total_functions + file.metrics.function_count;
            s.total_modules = s.total_modules + file.metrics.module_count;
            s.total_structs = s.total_structs + file.metrics.struct_count;
            s.total_enums = s.total_enums + file.metrics.enum_count;
            s.total_traits = s.total_traits + file.metrics.trait_count;
            s.total_impls = s.total_impls + file.metrics.impl_count;
            s.total_matches = s.total_matches + file.metrics.match_count;
            s.total_loops = s.total_loops + file.metrics.loop_count;
            s.total_unsafe_blocks = s.total_unsafe_blocks + file.metrics.unsafe_count;
            s.total_issues = s.total_issues + file.issues.len();
            let mut info = s.severity_count.info;
            let mut warning = s.severity_count.warning;
            let mut error = s.severity_count.error;
            proof {
                lemma_severity_sums(fv.take(i as int));
                assert(f.issues.take(0) =~= Seq::<IssueView>::empty());
            }
            let mut j: usize = 0;
            while j < file.issues.len()
                invariant
                    0 <= j <= file.issues.len(),
                    f == file@,
                    f.issues == issue_views(file.issues@),
                    sum_files(fv.take(i as int), Tally::Issues) + f.issues.len() <= usize::MAX,
                    info + warning + error == sum_files(fv.take(i as int), Tally::Issues) + j,
                    info == sum_files(fv.take(i as int), Tally::Infos) + count_severity(
                        f.issues.take(j as int),
                        Severity::Info,
                    ),
                    warning == sum_files(fv.take(i as int), Tally::Warnings) + count_severity(
                        f.issues.take(j as int),
                        Severity::Warning,
                    ),
                    error == sum_files(fv.take(i as int), Tally::Errors) + count_severity(
                        f.issues.take(j as int),
                        Severity::Error,
                    ),
                decreases file.issues.len() - j,
            {
                assert(f.issues.take(j + 1).drop_last() == f.issues.take(j as int));
                match file.issues[j].severity {
                    Severity::Info => {
                        info = info + 1;
                    },
                    Severity::Warning => {
                        warning = warning + 1;
                    },
                    Severity::Error => {
                        error = error + 1;
                    },
                }
                j += 1;
            }
            s.severity_count = SeverityCounts { info, warning, error };
            assert(f.issues.take(file.issues.len() as int) == f.issues);
            i += 1;
        }
        assert(fv.take(files.len() as int) == fv);
        s
    }

    /// Whether every total over these reports fits in a `usize`, so that
    /// `from_files` can add them up.
    pub fn totals_fit(files: &[FileReport]) -> (r: bool)
        ensures
            r == summary_fits(report_views(files@)),
    {
        sum_fits(files, Tally::Issues) && sum_fits(files, Tally::Lines) && sum_fits(
            files,
            Tally::Code,
        ) && sum_fits(files, Tally::Comments) && sum_fits(files, Tally::Blanks) && sum_fits(
            files,
            Tally::Functions,
        ) && sum_fits(files, Tally::Modules) && sum_fits(files, Tally::Structs) && sum_fits(
            files,
            Tally::Enums,
        ) && sum_fits(files, Tally::Traits) && sum_fits(files, Tally::Impls) && sum_fits(
            files,
            Tally::Matches,
        ) && sum_fits(files, Tally::Loops) && sum_fits(files, Tally::Unsafe)
    }
}

/// Number of findings of severity `s`.
pub fn count_issue_severity(issues: &[Issue], s: Severity) -> (r: usize)
    ensures
        r == count_severity(issue_views(issues@), s),
{
    let ghost iv = issue_views(issues@);
    let mut n: usize = 0;
    let mut j: usize = 0;
    while j < issues.len()
        invariant
            0 <= j <= issues.len(),
            iv == issue_views(issues@),
            n == count_severity(iv.take(j as int), s),
            n <= j,
        decreases issues.len() - j,
    {
        assert(iv.take(j + 1).drop_last() == iv.take(j as int));
        if issues[j].severity == s {
            n = n + 1;
        }
        j += 1;
    }
    assert(iv.take(issues.len() as int) == iv);
    n
}

/// The value of a tally for one file.
pub fn tally_of(f: &FileReport, t: Tally) -> (r: usize)
    ensures
        r == tally(f@, t),
{
    match t {
        Tally::Issues => f.issues.len(),
        Tally::Lines => f.metrics.total_lines,
        Tally::Code => f.metrics.code_lines,
        Tally::Comments => f.metrics.comment_lines,
        Tally::Blanks => f.metrics.blank_lines,
        Tally::Functions => f.metrics.function_count,
        Tally::Modules => f.metrics.module_count,
        Tally::Structs => f.metrics.struct_count,
        Tally::Enums => f.metrics.enum_count,
        Tally::Traits => f.metrics.trait_count,
        Tally::Impls => f.metrics.impl_count,
        Tally::Matches => f.metrics.match_count,
        Tally::Loops => f.metrics.loop_count,
        Tally::Unsafe => f.metrics.unsafe_count,
        Tally::Infos => count_issue_severity(f.issues.as_slice(), Severity::Info),
        Tally::Warnings => count_issue_severity(f.issues.as_slice(), Severity::Warning),
        Tally::Errors => count_issue_severity(f.issues.as_slice(), Severity::Error),
    }
}

/// Whether the sum of a tally over the files fits in a `usize`.
pub fn sum_fits(files: &[FileReport], t: Tally) -> (r: bool)
    ensures
        r == (sum_files(report_views(files@), t) <= usize::MAX),
{
    let ghost fv = report_views(files@);
    let mut total: usize = 0;
    let mut i: usize = 0;
    while i < files.len()
        invariant
            0 <= i <= files.len(),
            fv == report_views(files@),
            total == sum_files(fv.take(i as int), t),
        decreases files.len() - i,
    {
        proof {
            lemma_sum_advance(fv, t, i as int);
        }
        let v = tally_of(&files[i], t);
        match total.checked_add(v) {
            Some(n) => {
                total = n;
            },
            None => {
                return false;
            },
        }
        i += 1;
    }
    assert(fv.take(files.len() as int) == fv);
    true
}


// ---------------------------------------------------------------------------
// Project report
// ---------------------------------------------------------------------------

#[derive(Debug, Clone)]
pub struct AnalysisReport {
    pub root_path: String,
    pub generated_at: String,
    pub summary: Summary,
    pub files: Vec<FileReport>,
}

#[verifier::ext_equal]
pub struct AnalysisReportView {
    pub root_path: Seq<char>,
    pub generated_at: Seq<char>,
    pub summary: Summary,
    pub files: Seq<FileReportView>,
}

impl View for AnalysisReport {
    type V = AnalysisReportView;

    open spec fn view(&self) -> AnalysisReportView {
        AnalysisReportView {
            root_path: self.root_path@,
            generated_at: self.generated_at@,
            summary: self.summary,
            files: report_views(self.files@),
        }
    }
}

} // verus!
