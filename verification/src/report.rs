//! Text and HTML rendering of an analysis report. Both list only the findings
//! of severity Warning or Error; the JSON form, which keeps everything, is
//! produced by serialization outside this library.
use vstd::prelude::*;

use crate::analyzer::lemma_take_step;
use crate::model::{
    function_views, issue_views, report_views, severity_name, AnalysisReport, AnalysisReportView,
    FileReport, FileReportView, FunctionInfo, FunctionInfoView, Issue, IssueView, OutputFormat,
    Severity,
};
use crate::text::{
    ascii_lower, ascii_lower_exec, chars_of, decimal, push_decimal, same_text, string_from_chars,
    string_push, trim, trim_chars,
};

verus! {

/// The HTML report's document start, up to its style sheet.
pub const HTML_HEAD: &'static str = "<!DOCTYPE html>
<html lang=\"zh-CN\">
<head>
  <meta charset=\"UTF-8\">
  <meta name=\"viewport\" content=\"width=device-width, initial-scale=1.0\">
  <title>rust_homework report</title>
  <style>
";

/// The HTML report's style sheet.
pub const HTML_STYLE: &'static str = "    :root {
      --bg: #f5f1e8;
      --paper: rgba(255, 252, 246, 0.92);
      --panel: #fffdf8;
      --line: #ded6c8;
      --text: #2c2722;
      --muted: #74695e;
      --accent: #8c5a3c;
      --accent-soft: #efe3d3;
      --ok: #5b7f5f;
      --warn: #b7791f;
      --err: #b34a36;
      --shadow: 0 18px 48px rgba(89, 67, 44, 0.08);
    }
    * { box-sizing: border-box; }
    body {
      margin: 0;
      font-family: \"Noto Serif SC\", \"Source Han Serif SC\", \"PingFang SC\", \"Microsoft YaHei\", serif;
      color: var(--text);
      background:
        radial-gradient(circle at top left, rgba(140, 90, 60, 0.10), transparent 32%),
        linear-gradient(180deg, #f7f3eb 0%, #f1ebe1 100%);
      line-height: 1.7;
    }
    .page {
      max-width: 1100px;
      margin: 0 auto;
      padding: 48px 20px 64px;
    }
    .hero {
      background: var(--paper);
      border: 1px solid rgba(140, 90, 60, 0.14);
      border-radius: 24px;
      padding: 32px;
      box-shadow: var(--shadow);
      backdrop-filter: blur(10px);
      margin-bottom: 24px;
    }
    .eyebrow {
      font-size: 12px;
      letter-spacing: 0.14em;
      text-transform: uppercase;
      color: var(--muted);
      margin-bottom: 10px;
    }
    h1 {
      margin: 0;
      font-size: clamp(28px, 4vw, 42px);
      line-height: 1.2;
      font-weight: 700;
    }
    .subtitle {
      margin-top: 12px;
      color: var(--muted);
      font-size: 15px;
    }
    .summary-grid {
      display: grid;
      grid-template-columns: repeat(auto-fit, minmax(180px, 1fr));
      gap: 14px;
      margin-top: 28px;
    }
    .stat {
      background: var(--panel);
      border: 1px solid var(--line);
      border-radius: 18px;
      padding: 18px;
    }
    .stat-label {
      font-size: 13px;
      color: var(--muted);
      margin-bottom: 8px;
    }
    .stat-value {
      font-size: 28px;
      font-weight: 700;
      color: var(--accent);
    }
    .meta {
      margin-top: 20px;
      padding-top: 18px;
      border-top: 1px solid var(--line);
      color: var(--muted);
      font-size: 14px;
    }
    .files {
      display: grid;
      gap: 18px;
    }
    .file-card {
      background: var(--paper);
      border: 1px solid rgba(140, 90, 60, 0.12);
      border-radius: 22px;
      padding: 24px;
      box-shadow: var(--shadow);
    }
    .file-header {
      display: flex;
      justify-content: space-between;
      gap: 16px;
      align-items: flex-start;
      flex-wrap: wrap;
      margin-bottom: 16px;
    }
    .file-title {
      margin: 0;
      font-size: 20px;
      word-break: break-all;
    }
    .badge {
      display: inline-flex;
      align-items: center;
      gap: 8px;
      padding: 8px 12px;
      border-radius: 999px;
      background: var(--accent-soft);
      color: var(--accent);
      font-size: 13px;
      white-space: nowrap;
    }
    .metric-row {
      display: grid;
      grid-template-columns: repeat(auto-fit, minmax(140px, 1fr));
      gap: 10px;
      margin-bottom: 18px;
    }
    .metric-box {
      background: var(--panel);
      border: 1px solid var(--line);
      border-radius: 14px;
      padding: 12px 14px;
    }
    .metric-box strong {
      display: block;
      font-size: 12px;
      color: var(--muted);
      margin-bottom: 6px;
      font-weight: 500;
    }
    .metric-box span {
      font-size: 18px;
      font-weight: 700;
    }
    h2.section-title {
      margin: 0 0 14px;
      font-size: 16px;
    }
    .functions, .issues {
      margin-top: 16px;
    }
    ul.clean {
      list-style: none;
      padding: 0;
      margin: 0;
      display: grid;
      gap: 10px;
    }
    .list-card {
      background: var(--panel);
      border: 1px solid var(--line);
      border-radius: 14px;
      padding: 14px 16px;
    }
    .issue-top {
      display: flex;
      justify-content: space-between;
      gap: 12px;
      flex-wrap: wrap;
      margin-bottom: 8px;
    }
    .issue-rule {
      font-family: \"JetBrains Mono\", \"Consolas\", monospace;
      font-size: 13px;
      color: var(--accent);
    }
    .severity {
      padding: 4px 10px;
      border-radius: 999px;
      font-size: 12px;
      font-weight: 700;
    }
    .severity-warning { background: #fbefda; color: var(--warn); }
    .severity-error { background: #f8e1dc; color: var(--err); }
    .issue-message {
      margin: 0;
      font-size: 14px;
    }
    .issue-snippet {
      margin-top: 10px;
      padding: 12px 14px;
      background: #f8f5ef;
      border-radius: 12px;
      border: 1px dashed var(--line);
      font-family: \"JetBrains Mono\", \"Consolas\", monospace;
      font-size: 13px;
      overflow-x: auto;
      white-space: pre-wrap;
      word-break: break-word;
    }
    .empty {
      color: var(--muted);
      background: var(--panel);
      border: 1px solid var(--line);
      border-radius: 14px;
      padding: 14px 16px;
    }
    @media (max-width: 640px) {
      .page { padding: 24px 14px 40px; }
      .hero, .file-card { padding: 20px; border-radius: 18px; }
      .stat-value { font-size: 24px; }
    }
";

/// From the end of the style sheet up to the first total.
pub const HTML_HERO: &'static str = "  </style>
</head>
<body>
  <div class=\"page\">
    <section class=\"hero\">
      <div class=\"eyebrow\">rust_homework Static Analysis Report</div>
      <h1>Rust 作业静态分析报告</h1>
      <p class=\"subtitle\">本报告仅展示警告与严重问题，已隐藏提示级别信息，方便优先处理真正需要修复的项。</p>
      <div class=\"summary-grid\">
";

/// Everything of the HTML report after the last file card.
pub const HTML_TAIL: &'static str = "    </section>
  </div>
</body>
</html>
";

// ---------------------------------------------------------------------------
// Severities
// ---------------------------------------------------------------------------

/// The lower-case key of a severity.
pub open spec fn severity_key(s: Severity) -> Seq<char> {
    match s {
        Severity::Error => "error"@,
        Severity::Warning => "warning"@,
        Severity::Info => "info"@,
    }
}

impl Issue {
    /// The severity of the finding as a lower-case key.
    pub fn severity_key(&self) -> (r: &'static str)
        ensures
            r@ == severity_key(self.severity),
    {
        match self.severity {
            Severity::Error => "error",
            Severity::Warning => "warning",
            Severity::Info => "info",
        }
    }
}

/// A severity text, in any ASCII case, that names Warning or Error.
pub open spec fn is_visible_text(s: Seq<char>) -> bool {
    ascii_lower(s) == "warning"@ || ascii_lower(s) == "error"@
}

/// The label shown for a severity text.
pub open spec fn severity_label_text(s: Seq<char>) -> Seq<char> {
    if ascii_lower(s) == "error"@ {
        "严重"@
    } else if ascii_lower(s) == "warning"@ {
        "警告"@
    } else {
        ""@
    }
}

/// The style class of a severity text.
pub open spec fn severity_class_text(s: Seq<char>) -> Seq<char> {
    if ascii_lower(s) == "error"@ {
        "severity-error"@
    } else if ascii_lower(s) == "warning"@ {
        "severity-warning"@
    } else {
        ""@
    }
}

/// Whether findings of this severity are shown in the text and HTML reports.
pub fn is_visible(severity: &str) -> (r: bool)
    ensures
        r == is_visible_text(severity@),
{
    let c = chars_of(severity);
    let l = ascii_lower_exec(c.as_slice());
    same_text(l.as_slice(), "warning") || same_text(l.as_slice(), "error")
}

/// The label shown for a severity.
pub fn severity_label(severity: &str) -> (r: &'static str)
    ensures
        r@ == severity_label_text(severity@),
{
    let c = chars_of(severity);
    let l = ascii_lower_exec(c.as_slice());
    if same_text(l.as_slice(), "error") {
        "严重"
    } else if same_text(l.as_slice(), "warning") {
        "警告"
    } else {
        ""
    }
}

/// The style class of a severity.
pub fn severity_class(severity: &str) -> (r: &'static str)
    ensures
        r@ == severity_class_text(severity@),
{
    let c = chars_of(severity);
    let l = ascii_lower_exec(c.as_slice());
    if same_text(l.as_slice(), "error") {
        "severity-error"
    } else if same_text(l.as_slice(), "warning") {
        "severity-warning"
    } else {
        ""
    }
}

/// The findings that the reports show, in their order.
pub open spec fn visible_only(issues: Seq<IssueView>) -> Seq<IssueView>
    decreases issues.len(),
{
    if issues.len() == 0 {
        Seq::empty()
    } else {
        let rest = visible_only(issues.drop_last());
        if is_visible_text(severity_key(issues.last().severity)) {
            rest.push(issues.last())
        } else {
            rest
        }
    }
}

pub open spec fn ref_views(v: Seq<&Issue>) -> Seq<IssueView> {
    v.map_values(|i: &Issue| i@)
}

/// The findings that the reports show, in their order.
pub fn visible_issues(issues: &[Issue]) -> (r: Vec<&Issue>)
    ensures
        ref_views(r@) == visible_only(issue_views(issues@)),
{
    let ghost iv = issue_views(issues@);
    let mut r: Vec<&Issue> = Vec::new();
    let mut j: usize = 0;
    while j < issues.len()
        invariant
            0 <= j <= issues.len(),
            iv == issue_views(issues@),
            ref_views(r@) == visible_only(iv.take(j as int)),
        decreases issues.len() - j,
    {
        let issue = &issues[j];
        proof {
            lemma_take_step(iv, j as int);
        }
        if is_visible(issue.severity_key()) {
            r.push(issue);
        }
        j += 1;
        assert(ref_views(r@) =~= visible_only(iv.take(j as int)));
    }
    assert(iv.take(issues.len() as int) == iv);
    r
}

/// Number of shown findings over all files.
pub open spec fn visible_total(files: Seq<FileReportView>) -> nat
    decreases files.len(),
{
    if files.len() == 0 {
        0
    } else {
        visible_total(files.drop_last()) + visible_only(files.last().issues).len()
    }
}

pub proof fn lemma_visible_total_prefix(files: Seq<FileReportView>, i: int)
    requires
        0 <= i <= files.len(),
    ensures
        visible_total(files.take(i)) <= visible_total(files),
    decreases files.len() - i,
{
    if i < files.len() {
        lemma_visible_total_prefix(files, i + 1);
        assert(files.take(i + 1).drop_last() == files.take(i));
    } else {
        assert(files.take(i) == files);
    }
}

/// Number of shown findings over all files of the report.
pub fn visible_issue_count(report: &AnalysisReport) -> (r: usize)
    requires
        visible_total(report@.files) <= usize::MAX,
    ensures
        r == visible_total(report@.files),
{
    let ghost fv = report@.files;
    let mut n: usize = 0;
    let mut i: usize = 0;
    while i < report.files.len()
        invariant
            0 <= i <= report.files.len(),
            fv == report_views(report.files@),
            visible_total(fv) <= usize::MAX,
            n == visible_total(fv.take(i as int)),
        decreases report.files.len() - i,
    {
        proof {
            lemma_take_step(fv, i as int);
            lemma_visible_total_prefix(fv, i + 1);
        }
        let shown = visible_issues(report.files[i].issues.as_slice());
        n = n + shown.len();
        i += 1;
    }
    proof {
        assert(fv.take(report.files.len() as int) == fv);
    }
    n
}

// ---------------------------------------------------------------------------
// HTML escaping
// ---------------------------------------------------------------------------

/// The HTML escape of one character.
pub open spec fn escape_char_text(c: char) -> Seq<char> {
    if c == '&' {
        "&amp;"@
    } else if c == '<' {
        "&lt;"@
    } else if c == '>' {
        "&gt;"@
    } else if c == '"' {
        "&quot;"@
    } else if c == '\'' {
        "&#39;"@
    } else {
        seq![c]
    }
}

/// The HTML escape of a text, character by character.
pub open spec fn escape_text(s: Seq<char>) -> Seq<char>
    decreases s.len(),
{
    if s.len() == 0 {
        Seq::empty()
    } else {
        escape_text(s.drop_last()) + escape_char_text(s.last())
    }
}

/// Escapes `&`, `<`, `>`, `"` and `'` for HTML.
pub fn escape_html(input: &str) -> (r: String)
    ensures
        r@ == escape_text(input@),
{
    let c = chars_of(input);
    let mut out = String::new();
    let mut i: usize = 0;
    while i < c.len()
        invariant
            0 <= i <= c.len(),
            c@ == input@,
            out@ == escape_text(c@.take(i as int)),
        decreases c.len() - i,
    {
        proof {
            lemma_take_step(c@, i as int);
        }
        let ch = c[i];
        if ch == '&' {
            out.append("&amp;");
        } else if ch == '<' {
            out.append("&lt;");
        } else if ch == '>' {
            out.append("&gt;");
        } else if ch == '"' {
            out.append("&quot;");
        } else if ch == '\'' {
            out.append("&#39;");
        } else {
            let ghost before = out@;
            string_push(&mut out, ch);
            assert(out@ =~= before + seq![ch]);
        }
        i += 1;
    }
    proof {
        assert(c@.take(c.len() as int) == c@);
    }
    out
}

// ---------------------------------------------------------------------------
// Snippets
// ---------------------------------------------------------------------------

/// The code line of a text report entry, when the snippet is not blank.
pub open spec fn text_snippet(snippet: Seq<char>) -> Seq<char> {
    let t = trim(snippet);
    if t.len() == 0 {
        Seq::empty()
    } else {
        "      代码: "@ + t + "\n"@
    }
}

/// The code line of a text report entry, when the snippet is not blank.
pub fn render_text_snippet(snippet: &str) -> (r: String)
    ensures
        r@ == text_snippet(snippet@),
{
    let c = chars_of(snippet);
    let t = trim_chars(c.as_slice());
    if t.len() == 0 {
        return String::new();
    }
    let ts = string_from_chars(t.as_slice());
    let mut out = String::from_str("      代码: ");
    out.append(ts.as_str());
    out.append("\n");
    out
}

/// The snippet block of an HTML report entry, when the snippet is not blank.
pub open spec fn html_snippet(snippet: Seq<char>) -> Seq<char> {
    let t = trim(snippet);
    if t.len() == 0 {
        Seq::empty()
    } else {
        "              <div class=\"issue-snippet\">"@ + escape_text(t) + "</div>\n"@
    }
}

/// The snippet block of an HTML report entry, when the snippet is not blank.
pub fn render_html_snippet(snippet: &str) -> (r: String)
    ensures
        r@ == html_snippet(snippet@),
{
    let c = chars_of(snippet);
    let t = trim_chars(c.as_slice());
    if t.len() == 0 {
        return String::new();
    }
    let ts = string_from_chars(t.as_slice());
    let escaped = escape_html(ts.as_str());
    let mut out = String::from_str("              <div class=\"issue-snippet\">");
    out.append(escaped.as_str());
    out.append("</div>\n");
    out
}

// ---------------------------------------------------------------------------
// Entries
// ---------------------------------------------------------------------------

/// The opening of the text report: title, project and totals.
pub open spec fn text_head(r: AnalysisReportView, visible_total: nat) -> Seq<char> {
    "Rust Homework Static Analysis Report\nFile Count\n===================================\n\nRust 作业静态分析报告\n====================\n\n项目路径: "@
        + r.root_path
        + "\n生成时间: "@
        + r.generated_at
        + "\n文件数量: "@
        + decimal(r.summary.file_count as nat)
        + "\n问题总数: "@
        + decimal(visible_total)
        + "\n总行数: "@
        + decimal(r.summary.total_lines as nat)
        + "\n代码行数: "@
        + decimal(r.summary.total_code_lines as nat)
        + "\n注释行数: "@
        + decimal(r.summary.total_comment_lines as nat)
        + "\n空白行数: "@
        + decimal(r.summary.total_blank_lines as nat)
        + "\n\n"@
}

/// The opening of the text report: title, project and totals.
pub fn render_text_head(report: &AnalysisReport, visible_total: usize) -> (r: String)
    ensures
        r@ == text_head(report@, visible_total as nat),
{
    let mut out = String::from_str("Rust Homework Static Analysis Report\nFile Count\n===================================\n\nRust 作业静态分析报告\n====================\n\n项目路径: ");
    out.append(report.root_path.as_str());
    out.append("\n生成时间: ");
    out.append(report.generated_at.as_str());
    out.append("\n文件数量: ");
    push_decimal(&mut out, report.summary.file_count as u64);
    out.append("\n问题总数: ");
    push_decimal(&mut out, visible_total as u64);
    out.append("\n总行数: ");
    push_decimal(&mut out, report.summary.total_lines as u64);
    out.append("\n代码行数: ");
    push_decimal(&mut out, report.summary.total_code_lines as u64);
    out.append("\n注释行数: ");
    push_decimal(&mut out, report.summary.total_comment_lines as u64);
    out.append("\n空白行数: ");
    push_decimal(&mut out, report.summary.total_blank_lines as u64);
    out.append("\n\n");
    out
}

/// One entry of the text report's function list.
pub open spec fn text_function(f: FunctionInfoView) -> Seq<char> {
    "    - "@
        + f.name
        + " (第 "@
        + decimal(f.start_line)
        + "-"@
        + decimal(f.end_line)
        + " 行, 参数 "@
        + decimal(f.parameter_count)
        + ", 长度 "@
        + decimal(f.line_count)
        + " 行)\n"@
}

/// One entry of the text report's function list.
pub fn render_text_function(f: &FunctionInfo) -> (r: String)
    ensures
        r@ == text_function(f@),
{
    let mut out = String::from_str("    - ");
    out.append(f.name.as_str());
    out.append(" (第 ");
    push_decimal(&mut out, f.start_line as u64);
    out.append("-");
    push_decimal(&mut out, f.end_line as u64);
    out.append(" 行, 参数 ");
    push_decimal(&mut out, f.parameter_count as u64);
    out.append(", 长度 ");
    push_decimal(&mut out, f.line_count as u64);
    out.append(" 行)\n");
    out
}

/// One entry of the text report's findings.
pub open spec fn text_issue(i: IssueView) -> Seq<char> {
    "    - ["@
        + severity_label_text(severity_name(i.severity))
        + "] 规则: "@
        + i.rule_name
        + " | 第 "@
        + decimal(i.position.line as nat)
        + " 行 | "@
        + i.message
        + "\n"@
        + text_snippet(i.snippet)
}

/// One entry of the text report's findings.
pub fn render_text_issue(issue: &Issue) -> (r: String)
    ensures
        r@ == text_issue(issue@),
{
    let mut out = String::from_str("    - [");
    out.append(severity_label(issue.severity.name()));
    out.append("] 规则: ");
    out.append(issue.rule_name.as_str());
    out.append(" | 第 ");
    push_decimal(&mut out, issue.position.line as u64);
    out.append(" 行 | ");
    out.append(issue.message.as_str());
    out.append("\n");
    let part1 = render_text_snippet(issue.snippet.as_str());
    out.append(part1.as_str());
    out
}

/// The section of the text report on one file.
pub open spec fn text_file(f: FileReportView) -> Seq<char> {
    "文件: "@
        + f.path
        + "\n  问题数: "@
        + decimal(visible_only(f.issues).len())
        + "\n  总行数: "@
        + decimal(f.metrics.total_lines)
        + "\n  代码行: "@
        + decimal(f.metrics.code_lines)
        + "\n  注释行: "@
        + decimal(f.metrics.comment_lines)
        + "\n  空白行: "@
        + decimal(f.metrics.blank_lines)
        + "\n  函数数量: "@
        + decimal(f.metrics.function_count)
        + "\n  最大嵌套深度: "@
        + decimal(f.metrics.max_nesting_depth)
        + "\n"@
        + text_function_section(f.metrics.functions)
        + text_issue_section(visible_only(f.issues))
        + "\n"@
}

/// The section of the text report on one file.
pub fn render_text_file_entry(file: &FileReport) -> (r: String)
    ensures
        r@ == text_file(file@),
{
    let mut out = String::from_str("文件: ");
    out.append(file.path.as_str());
    out.append("\n  问题数: ");
    push_decimal(&mut out, visible_issues(file.issues.as_slice()).len() as u64);
    out.append("\n  总行数: ");
    push_decimal(&mut out, file.metrics.total_lines as u64);
    out.append("\n  代码行: ");
    push_decimal(&mut out, file.metrics.code_lines as u64);
    out.append("\n  注释行: ");
    push_decimal(&mut out, file.metrics.comment_lines as u64);
    out.append("\n  空白行: ");
    push_decimal(&mut out, file.metrics.blank_lines as u64);
    out.append("\n  函数数量: ");
    push_decimal(&mut out, file.metrics.function_count as u64);
    out.append("\n  最大嵌套深度: ");
    push_decimal(&mut out, file.metrics.max_nesting_depth as u64);
    out.append("\n");
    let part1 = render_text_function_section(file.metrics.functions.as_slice());
    out.append(part1.as_str());
    let part2 = render_text_issue_section(visible_issues(file.issues.as_slice()).as_slice());
    out.append(part2.as_str());
    out.append("\n");
    out
}

/// The opening of the HTML report: document head, style, totals and project.
pub open spec fn html_head(r: AnalysisReportView, visible_total: nat) -> Seq<char> {
    HTML_HEAD@
        + HTML_STYLE@
        + HTML_HERO@
        + "        <div class=\"stat\"><div class=\"stat-label\">文件数量</div><div class=\"stat-value\">"@
        + decimal(r.summary.file_count as nat)
        + "</div></div>\n        <div class=\"stat\"><div class=\"stat-label\">问题总数</div><div class=\"stat-value\">"@
        + decimal(visible_total)
        + "</div></div>\n        <div class=\"stat\"><div class=\"stat-label\">总行数</div><div class=\"stat-value\">"@
        + decimal(r.summary.total_lines as nat)
        + "</div></div>\n        <div class=\"stat\"><div class=\"stat-label\">代码行数</div><div class=\"stat-value\">"@
        + decimal(r.summary.total_code_lines as nat)
        + "</div></div>\n        <div class=\"stat\"><div class=\"stat-label\">注释行数</div><div class=\"stat-value\">"@
        + decimal(r.summary.total_comment_lines as nat)
        + "</div></div>\n        <div class=\"stat\"><div class=\"stat-label\">空白行数</div><div class=\"stat-value\">"@
        + decimal(r.summary.total_blank_lines as nat)
        + "</div></div>\n      </div>\n      <div class=\"meta\">\n        <div><strong>项目路径：</strong>"@
        + escape_text(r.root_path)
        + "</div>\n        <div><strong>生成时间：</strong>"@
        + escape_text(r.generated_at)
        + "</div>\n      </div>\n    </section>\n    <section class=\"files\">\n"@
}

/// The opening of the HTML report: document head, style, totals and project.
pub fn render_html_head(report: &AnalysisReport, visible_total: usize) -> (r: String)
    ensures
        r@ == html_head(report@, visible_total as nat),
{
    let mut out = String::from_str(HTML_HEAD);
    out.append(HTML_STYLE);
    out.append(HTML_HERO);
    out.append("        <div class=\"stat\"><div class=\"stat-label\">文件数量</div><div class=\"stat-value\">");
    push_decimal(&mut out, report.summary.file_count as u64);
    out.append("</div></div>\n        <div class=\"stat\"><div class=\"stat-label\">问题总数</div><div class=\"stat-value\">");
    push_decimal(&mut out, visible_total as u64);
    out.append("</div></div>\n        <div class=\"stat\"><div class=\"stat-label\">总行数</div><div class=\"stat-value\">");
    push_decimal(&mut out, report.summary.total_lines as u64);
    out.append("</div></div>\n        <div class=\"stat\"><div class=\"stat-label\">代码行数</div><div class=\"stat-value\">");
    push_decimal(&mut out, report.summary.total_code_lines as u64);
    out.append("</div></div>\n        <div class=\"stat\"><div class=\"stat-label\">注释行数</div><div class=\"stat-value\">");
    push_decimal(&mut out, report.summary.total_comment_lines as u64);
    out.append("</div></div>\n        <div class=\"stat\"><div class=\"stat-label\">空白行数</div><div class=\"stat-value\">");
    push_decimal(&mut out, report.summary.total_blank_lines as u64);
    out.append("</div></div>\n      </div>\n      <div class=\"meta\">\n        <div><strong>项目路径：</strong>");
    let part1 = escape_html(report.root_path.as_str());
    out.append(part1.as_str());
    out.append("</div>\n        <div><strong>生成时间：</strong>");
    let part2 = escape_html(report.generated_at.as_str());
    out.append(part2.as_str());
    out.append("</div>\n      </div>\n    </section>\n    <section class=\"files\">\n");
    out
}

/// One entry of the HTML report's function list.
pub open spec fn html_function(f: FunctionInfoView) -> Seq<char> {
    "            <li class=\"list-card\"><strong>"@
        + escape_text(f.name)
        + "</strong><br>第 "@
        + decimal(f.start_line)
        + "-"@
        + decimal(f.end_line)
        + " 行，参数 "@
        + decimal(f.parameter_count)
        + " 个，长度 "@
        + decimal(f.line_count)
        + " 行</li>\n"@
}

/// One entry of the HTML report's function list.
pub fn render_html_function(f: &FunctionInfo) -> (r: String)
    ensures
        r@ == html_function(f@),
{
    let mut out = String::from_str("            <li class=\"list-card\"><strong>");
    let part1 = escape_html(f.name.as_str());
    out.append(part1.as_str());
    out.append("</strong><br>第 ");
    push_decimal(&mut out, f.start_line as u64);
    out.append("-");
    push_decimal(&mut out, f.end_line as u64);
    out.append(" 行，参数 ");
    push_decimal(&mut out, f.parameter_count as u64);
    out.append(" 个，长度 ");
    push_decimal(&mut out, f.line_count as u64);
    out.append(" 行</li>\n");
    out
}

/// One entry of the HTML report's findings.
pub open spec fn html_issue(i: IssueView) -> Seq<char> {
    "            <li class=\"list-card\">\n              <div class=\"issue-top\">\n                <span class=\"issue-rule\">"@
        + escape_text(i.rule_name)
        + "</span>\n                <span class=\"severity "@
        + severity_class_text(severity_name(i.severity))
        + "\">"@
        + severity_label_text(severity_name(i.severity))
        + "</span>\n              </div>\n              <p class=\"issue-message\">第 "@
        + decimal(i.position.line as nat)
        + " 行: "@
        + escape_text(i.message)
        + "</p>\n"@
        + html_snippet(i.snippet)
        + "            </li>\n"@
}

/// One entry of the HTML report's findings.
pub fn render_html_issue(issue: &Issue) -> (r: String)
    ensures
        r@ == html_issue(issue@),
{
    let mut out = String::from_str("            <li class=\"list-card\">\n              <div class=\"issue-top\">\n                <span class=\"issue-rule\">");
    let part1 = escape_html(issue.rule_name.as_str());
    out.append(part1.as_str());
    out.append("</span>\n                <span class=\"severity ");
    out.append(severity_class(issue.severity.name()));
    out.append("\">");
    out.append(severity_label(issue.severity.name()));
    out.append("</span>\n              </div>\n              <p class=\"issue-message\">第 ");
    push_decimal(&mut out, issue.position.line as u64);
    out.append(" 行: ");
    let part2 = escape_html(issue.message.as_str());
    out.append(part2.as_str());
    out.append("</p>\n");
    let part3 = render_html_snippet(issue.snippet.as_str());
    out.append(part3.as_str());
    out.append("            </li>\n");
    out
}

/// The card of the HTML report on one file.
pub open spec fn html_file(f: FileReportView) -> Seq<char> {
    "      <article class=\"file-card\">\n        <div class=\"file-header\">\n          <h2 class=\"file-title\">"@
        + escape_text(f.path)
        + "</h2>\n          <div class=\"badge\">"@
        + decimal(visible_only(f.issues).len())
        + " 个问题</div>\n        </div>\n        <div class=\"metric-row\">\n"@
        + metric_box_text("总行数"@, f.metrics.total_lines)
        + metric_box_text("代码行"@, f.metrics.code_lines)
        + metric_box_text("注释行"@, f.metrics.comment_lines)
        + metric_box_text("空白行"@, f.metrics.blank_lines)
        + metric_box_text("函数数"@, f.metrics.function_count)
        + metric_box_text("最大嵌套"@, f.metrics.max_nesting_depth)
        + "        </div>\n        <div class=\"functions\">\n          <h2 class=\"section-title\">函数信息</h2>\n"@
        + html_function_section(f.metrics.functions)
        + "        </div>\n        <div class=\"issues\">\n          <h2 class=\"section-title\">问题详情</h2>\n"@
        + html_issue_section(visible_only(f.issues))
        + "        </div>\n      </article>\n"@
}

/// The card of the HTML report on one file.
pub fn render_html_file_entry(file: &FileReport) -> (r: String)
    ensures
        r@ == html_file(file@),
{
    let mut out = String::from_str("      <article class=\"file-card\">\n        <div class=\"file-header\">\n          <h2 class=\"file-title\">");
    let part1 = escape_html(file.path.as_str());
    out.append(part1.as_str());
    out.append("</h2>\n          <div class=\"badge\">");
    push_decimal(&mut out, visible_issues(file.issues.as_slice()).len() as u64);
    out.append(" 个问题</div>\n        </div>\n        <div class=\"metric-row\">\n");
    let part2 = metric_box("总行数", file.metrics.total_lines);
    out.append(part2.as_str());
    let part3 = metric_box("代码行", file.metrics.code_lines);
    out.append(part3.as_str());
    let part4 = metric_box("注释行", file.metrics.comment_lines);
    out.append(part4.as_str());
    let part5 = metric_box("空白行", file.metrics.blank_lines);
    out.append(part5.as_str());
    let part6 = metric_box("函数数", file.metrics.function_count);
    out.append(part6.as_str());
    let part7 = metric_box("最大嵌套", file.metrics.max_nesting_depth);
    out.append(part7.as_str());
    out.append("        </div>\n        <div class=\"functions\">\n          <h2 class=\"section-title\">函数信息</h2>\n");
    let part8 = render_html_function_section(file.metrics.functions.as_slice());
    out.append(part8.as_str());
    out.append("        </div>\n        <div class=\"issues\">\n          <h2 class=\"section-title\">问题详情</h2>\n");
    let part9 = render_html_issue_section(visible_issues(file.issues.as_slice()).as_slice());
    out.append(part9.as_str());
    out.append("        </div>\n      </article>\n");
    out
}

/// One metric of a file card in the HTML report.
pub open spec fn metric_box_text(label: Seq<char>, value: nat) -> Seq<char> {
    "          <div class=\"metric-box\"><strong>"@
        + label
        + "</strong><span>"@
        + decimal(value)
        + "</span></div>\n"@
}

/// One metric of a file card in the HTML report.
pub fn metric_box(label: &str, value: usize) -> (r: String)
    ensures
        r@ == metric_box_text(label@, value as nat),
{
    let mut out = String::from_str("          <div class=\"metric-box\"><strong>");
    out.append(label);
    out.append("</strong><span>");
    push_decimal(&mut out, value as u64);
    out.append("</span></div>\n");
    out
}

// ---------------------------------------------------------------------------
// Lists and sections
// ---------------------------------------------------------------------------

/// The entries of the text report's function list.
pub open spec fn text_functions(items: Seq<FunctionInfoView>) -> Seq<char>
    decreases items.len(),
{
    if items.len() == 0 {
        Seq::empty()
    } else {
        text_functions(items.drop_last()) + text_function(items.last())
    }
}

/// The entries of the text report's function list.
pub fn render_text_functions(items: &[FunctionInfo]) -> (r: String)
    ensures
        r@ == text_functions(function_views(items@)),
{
    let ghost v = function_views(items@);
    let mut out = String::new();
    let mut i: usize = 0;
    while i < items.len()
        invariant
            0 <= i <= items.len(),
            v == function_views(items@),
            out@ == text_functions(v.take(i as int)),
        decreases items.len() - i,
    {
        let piece = render_text_function(&items[i]);
        out.append(piece.as_str());
        proof {
            lemma_take_step(v, i as int);
        }
        i += 1;
    }
    proof {
        assert(v.take(items.len() as int) == v);
    }
    out
}

/// The entries of the text report's findings.
pub open spec fn text_issues(items: Seq<IssueView>) -> Seq<char>
    decreases items.len(),
{
    if items.len() == 0 {
        Seq::empty()
    } else {
        text_issues(items.drop_last()) + text_issue(items.last())
    }
}

/// The entries of the text report's findings.
pub fn render_text_issues(items: &[&Issue]) -> (r: String)
    ensures
        r@ == text_issues(ref_views(items@)),
{
    let ghost v = ref_views(items@);
    let mut out = String::new();
    let mut i: usize = 0;
    while i < items.len()
        invariant
            0 <= i <= items.len(),
            v == ref_views(items@),
            out@ == text_issues(v.take(i as int)),
        decreases items.len() - i,
    {
        let piece = render_text_issue(items[i]);
        out.append(piece.as_str());
        proof {
            lemma_take_step(v, i as int);
        }
        i += 1;
    }
    proof {
        assert(v.take(items.len() as int) == v);
    }
    out
}

/// The file sections of the text report.
pub open spec fn text_files(items: Seq<FileReportView>) -> Seq<char>
    decreases items.len(),
{
    if items.len() == 0 {
        Seq::empty()
    } else {
        text_files(items.drop_last()) + text_file(items.last())
    }
}

/// The file sections of the text report.
pub fn render_text_files(items: &[FileReport]) -> (r: String)
    ensures
        r@ == text_files(report_views(items@)),
{
    let ghost v = report_views(items@);
    let mut out = String::new();
    let mut i: usize = 0;
    while i < items.len()
        invariant
            0 <= i <= items.len(),
            v == report_views(items@),
            out@ == text_files(v.take(i as int)),
        decreases items.len() - i,
    {
        let piece = render_text_file_entry(&items[i]);
        out.append(piece.as_str());
        proof {
            lemma_take_step(v, i as int);
        }
        i += 1;
    }
    proof {
        assert(v.take(items.len() as int) == v);
    }
    out
}

/// The entries of the HTML report's function list.
pub open spec fn html_functions(items: Seq<FunctionInfoView>) -> Seq<char>
    decreases items.len(),
{
    if items.len() == 0 {
        Seq::empty()
    } else {
        html_functions(items.drop_last()) + html_function(items.last())
    }
}

/// The entries of the HTML report's function list.
pub fn render_html_functions(items: &[FunctionInfo]) -> (r: String)
    ensures
        r@ == html_functions(function_views(items@)),
{
    let ghost v = function_views(items@);
    let mut out = String::new();
    let mut i: usize = 0;
    while i < items.len()
        invariant
            0 <= i <= items.len(),
            v == function_views(items@),
            out@ == html_functions(v.take(i as int)),
        decreases items.len() - i,
    {
        let piece = render_html_function(&items[i]);
        out.append(piece.as_str());
        proof {
            lemma_take_step(v, i as int);
        }
        i += 1;
    }
    proof {
        assert(v.take(items.len() as int) == v);
    }
    out
}

/// The entries of the HTML report's findings.
pub open spec fn html_issues(items: Seq<IssueView>) -> Seq<char>
    decreases items.len(),
{
    if items.len() == 0 {
        Seq::empty()
    } else {
        html_issues(items.drop_last()) + html_issue(items.last())
    }
}

/// The entries of the HTML report's findings.
pub fn render_html_issues(items: &[&Issue]) -> (r: String)
    ensures
        r@ == html_issues(ref_views(items@)),
{
    let ghost v = ref_views(items@);
    let mut out = String::new();
    let mut i: usize = 0;
    while i < items.len()
        invariant
            0 <= i <= items.len(),
            v == ref_views(items@),
            out@ == html_issues(v.take(i as int)),
        decreases items.len() - i,
    {
        let piece = render_html_issue(items[i]);
        out.append(piece.as_str());
        proof {
            lemma_take_step(v, i as int);
        }
        i += 1;
    }
    proof {
        assert(v.take(items.len() as int) == v);
    }
    out
}

/// The file cards of the HTML report.
pub open spec fn html_files(items: Seq<FileReportView>) -> Seq<char>
    decreases items.len(),
{
    if items.len() == 0 {
        Seq::empty()
    } else {
        html_files(items.drop_last()) + html_file(items.last())
    }
}

/// The file cards of the HTML report.
pub fn render_html_files(items: &[FileReport]) -> (r: String)
    ensures
        r@ == html_files(report_views(items@)),
{
    let ghost v = report_views(items@);
    let mut out = String::new();
    let mut i: usize = 0;
    while i < items.len()
        invariant
            0 <= i <= items.len(),
            v == report_views(items@),
            out@ == html_files(v.take(i as int)),
        decreases items.len() - i,
    {
        let piece = render_html_file_entry(&items[i]);
        out.append(piece.as_str());
        proof {
            lemma_take_step(v, i as int);
        }
        i += 1;
    }
    proof {
        assert(v.take(items.len() as int) == v);
    }
    out
}

/// The function list of a file in the text report (nothing if it has none).
pub open spec fn text_function_section(fns: Seq<FunctionInfoView>) -> Seq<char> {
    if fns.len() == 0 {
        Seq::empty()
    } else {
        "  函数列表:\n"@ + text_functions(fns)
    }
}

/// The function list of a file in the text report (nothing if it has none).
pub fn render_text_function_section(fns: &[FunctionInfo]) -> (r: String)
    ensures
        r@ == text_function_section(function_views(fns@)),
{
    if fns.len() == 0 {
        return String::new();
    }
    let list = render_text_functions(fns);
    let mut out = String::from_str("  函数列表:\n");
    out.append(list.as_str());
    out
}

/// The findings of a file in the text report.
pub open spec fn text_issue_section(shown: Seq<IssueView>) -> Seq<char> {
    if shown.len() == 0 {
        "  未发现警告或严重问题。\n"@
    } else {
        "  问题详情:\n"@ + text_issues(shown)
    }
}

/// The findings of a file in the text report.
pub fn render_text_issue_section(shown: &[&Issue]) -> (r: String)
    ensures
        r@ == text_issue_section(ref_views(shown@)),
{
    if shown.len() == 0 {
        return String::from_str("  未发现警告或严重问题。\n");
    }
    let list = render_text_issues(shown);
    let mut out = String::from_str("  问题详情:\n");
    out.append(list.as_str());
    out
}

/// The function list of a file card in the HTML report.
pub open spec fn html_function_section(fns: Seq<FunctionInfoView>) -> Seq<char> {
    if fns.len() == 0 {
        "          <div class=\"empty\">未识别到函数。</div>\n"@
    } else {
        "          <ul class=\"clean\">\n"@ + html_functions(fns) + "          </ul>\n"@
    }
}

/// The function list of a file card in the HTML report.
pub fn render_html_function_section(fns: &[FunctionInfo]) -> (r: String)
    ensures
        r@ == html_function_section(function_views(fns@)),
{
    if fns.len() == 0 {
        return String::from_str("          <div class=\"empty\">未识别到函数。</div>\n");
    }
    let list = render_html_functions(fns);
    let mut out = String::from_str("          <ul class=\"clean\">\n");
    out.append(list.as_str());
    out.append("          </ul>\n");
    out
}

/// The findings of a file card in the HTML report.
pub open spec fn html_issue_section(shown: Seq<IssueView>) -> Seq<char> {
    if shown.len() == 0 {
        "          <div class=\"empty\">未发现警告或严重问题。</div>\n"@
    } else {
        "          <ul class=\"clean\">\n"@ + html_issues(shown) + "          </ul>\n"@
    }
}

/// The findings of a file card in the HTML report.
pub fn render_html_issue_section(shown: &[&Issue]) -> (r: String)
    ensures
        r@ == html_issue_section(ref_views(shown@)),
{
    if shown.len() == 0 {
        return String::from_str("          <div class=\"empty\">未发现警告或严重问题。</div>\n");
    }
    let list = render_html_issues(shown);
    let mut out = String::from_str("          <ul class=\"clean\">\n");
    out.append(list.as_str());
    out.append("          </ul>\n");
    out
}

// ---------------------------------------------------------------------------
// Reports
// ---------------------------------------------------------------------------

/// The text report.
pub open spec fn text_report(r: AnalysisReportView) -> Seq<char> {
    text_head(r, visible_total(r.files)) + text_files(r.files)
}

/// The HTML report.
pub open spec fn html_report(r: AnalysisReportView) -> Seq<char> {
    html_head(r, visible_total(r.files)) + html_files(r.files) + HTML_TAIL@
}

/// The text report.
pub fn render_text_report(report: &AnalysisReport) -> (r: String)
    requires
        visible_total(report@.files) <= usize::MAX,
    ensures
        r@ == text_report(report@),
{
    let shown = visible_issue_count(report);
    let mut out = render_text_head(report, shown);
    let body = render_text_files(report.files.as_slice());
    out.append(body.as_str());
    out
}

/// The HTML report.
pub fn render_html_report(report: &AnalysisReport) -> (r: String)
    requires
        visible_total(report@.files) <= usize::MAX,
    ensures
        r@ == html_report(report@),
{
    let shown = visible_issue_count(report);
    let mut out = render_html_head(report, shown);
    let body = render_html_files(report.files.as_slice());
    out.append(body.as_str());
    out.append(HTML_TAIL);
    out
}

/// The report in the given format: text or HTML. JSON is the serialization of
/// the report itself and is not produced here (`None`).
pub fn render_report(report: &AnalysisReport, format: OutputFormat) -> (r: Option<String>)
    requires
        visible_total(report@.files) <= usize::MAX,
    ensures
        match format {
            OutputFormat::Text => r matches Some(s) && s@ == text_report(report@),
            OutputFormat::Html => r matches Some(s) && s@ == html_report(report@),
            OutputFormat::Json => r is None,
        },
{
    match format {
        OutputFormat::Text => Some(render_text_report(report)),
        OutputFormat::Html => Some(render_html_report(report)),
        OutputFormat::Json => None,
    }
}

} // verus!
