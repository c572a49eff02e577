//! Source-code statistics and rule checks for Rust, Python and C/C++ files,
//! with text and HTML report rendering.
//!
//! `analyzer` selects and analyses files, `rules` states what the analysis
//! reports, `model` holds configuration, findings and reports, `report`
//! renders them, `text` holds the character-level primitives, `laws`
//! proves properties that every analysis and report has, `rule_laws` states
//! where functions end and which lines give which findings, `report_laws`
//! where the reports show each figure and entry, and `html_laws` counts the
//! entries of the HTML report.
pub mod analyzer;
pub mod html_laws;
pub mod laws;
pub mod model;
pub mod report;
pub mod report_laws;
pub mod rule_laws;
pub mod rules;
pub mod text;

pub use analyzer::{analyze_project, SourceFile};
pub use model::{
    AnalysisConfig, AnalysisReport, AppError, FileMetrics, FileReport, FunctionInfo, Issue,
    OutputFormat, Position, RuleThresholds, Severity, SeverityCounts, Summary,
};
pub use report::render_report;
pub use rules::Language;
