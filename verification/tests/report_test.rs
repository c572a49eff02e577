use rust_homework::analyzer::{current_timestamp_string, timestamp_text};
use rust_homework::report::{
    escape_html, is_visible, metric_box, severity_class, severity_label, visible_issues,
};
use rust_homework::report;
use rust_homework::{
    analyze_project, render_report, AnalysisConfig, AnalysisReport, OutputFormat, RuleThresholds,
    SourceFile,
};

fn source(path: &str, text: &str) -> SourceFile {
    let extension = path.rsplit_once('.').map(|(_, e)| e.to_string());
    SourceFile {
        path: path.to_string(),
        extension,
        content: text.to_string(),
    }
}

fn report_of(path: &str, text: &str, format: OutputFormat) -> AnalysisReport {
    analyze_project(
        &AnalysisConfig {
            root_path: "proj".to_string(),
            format,
            output_path: None,
            thresholds: RuleThresholds::default(),
        },
        &[source(path, text)],
    )
    .unwrap()
}

#[test]
fn render_text_report() {
    let report = report_of("main.rs", "fn main() {}\n", OutputFormat::Text);
    let text = render_report(&report, OutputFormat::Text).unwrap();
    assert!(text.contains("Rust Homework Static Analysis Report"));
    assert!(text.contains("File Count"));
}

#[test]
fn render_html_report() {
    let report = report_of("lib.rs", "pub fn demo() {}\n", OutputFormat::Html);
    let text = render_report(&report, OutputFormat::Html).unwrap();
    assert!(text.contains("<!DOCTYPE html>"));
    assert!(text.contains("rust_homework report"));
}

#[test]
fn report_contains_issue_information() {
    let report = report_of(
        "main.rs",
        r#"
fn main() {
    let x = Some(1).unwrap();
    println!("{}", x);
}
"#,
        OutputFormat::Text,
    );
    let text = render_report(&report, OutputFormat::Text).unwrap();
    assert!(text.contains("rust.unwrap"));
}

// ---------------------------------------------------------------------------

#[test]
fn json_is_left_to_serialization() {
    let report = report_of("lib.rs", "pub fn demo() {}\n", OutputFormat::Json);
    assert!(render_report(&report, OutputFormat::Json).is_none());
}

fn fixed_report() -> AnalysisReport {
    let mut report = report_of(
        "a.rs",
        "fn go(a: i32) {\n    let v = x.unwrap(); dbg!(v);\n}\n",
        OutputFormat::Text,
    );
    report.generated_at = "1700000000".to_string();
    report
}

#[test]
fn text_report_exact() {
    let report = fixed_report();
    let expected = "Rust Homework Static Analysis Report\n\
File Count\n\
===================================\n\
\n\
Rust 作业静态分析报告\n\
====================\n\
\n\
项目路径: proj\n\
生成时间: 1700000000\n\
文件数量: 1\n\
问题总数: 1\n\
总行数: 3\n\
代码行数: 3\n\
注释行数: 0\n\
空白行数: 0\n\
\n\
文件: a.rs\n\
\x20 问题数: 1\n\
\x20 总行数: 3\n\
\x20 代码行: 3\n\
\x20 注释行: 0\n\
\x20 空白行: 0\n\
\x20 函数数量: 1\n\
\x20 最大嵌套深度: 1\n\
\x20 函数列表:\n\
\x20   - go (第 1-3 行, 参数 1, 长度 3 行)\n\
\x20 问题详情:\n\
\x20   - [警告] 规则: rust.unwrap | 第 2 行 | use of unwrap/expect may cause panic\n\
\x20     代码: let v = x.unwrap(); dbg!(v);\n\
\n";
    assert_eq!(report::render_text_report(&report), expected);
}

#[test]
fn text_report_without_findings() {
    let mut report = report_of("b.py", "x = 1\n", OutputFormat::Text);
    report.generated_at = "5".to_string();
    let text = report::render_text_report(&report);
    assert!(text.ends_with(
        "文件: b.py\n  问题数: 0\n  总行数: 1\n  代码行: 1\n  注释行: 0\n  空白行: 0\n  函数数量: 0\n  最大嵌套深度: 0\n  未发现警告或严重问题。\n\n"
    ));
}

#[test]
fn html_report_hides_info_findings() {
    let report = fixed_report();
    let html = report::render_html_report(&report);
    assert!(html.starts_with("<!DOCTYPE html>\n<html lang=\"zh-CN\">\n<head>\n"));
    assert!(html.ends_with("    </section>\n  </div>\n</body>\n</html>\n"));
    assert!(html.contains(
        "        <div class=\"stat\"><div class=\"stat-label\">问题总数</div><div class=\"stat-value\">1</div></div>\n"
    ));
    assert!(html.contains("<span class=\"issue-rule\">rust.unwrap</span>"));
    assert!(html.contains("<span class=\"severity severity-warning\">警告</span>"));
    assert!(!html.contains("rust.dbg"));
    assert!(html.contains("          <div class=\"badge\">1 个问题</div>\n"));
    assert!(html.contains(
        "            <li class=\"list-card\"><strong>go</strong><br>第 1-3 行，参数 1 个，长度 3 行</li>\n"
    ));
    assert!(html.contains("<p class=\"issue-message\">第 2 行: use of unwrap/expect may cause panic</p>"));
    assert!(html.contains("<div class=\"issue-snippet\">let v = x.unwrap(); dbg!(v);</div>"));
}

#[test]
fn html_report_escapes_text() {
    let mut report = fixed_report();
    report.root_path = "a<b>&\"c'".to_string();
    let html = report::render_html_report(&report);
    assert!(html.contains("<strong>项目路径：</strong>a&lt;b&gt;&amp;&quot;c&#39;</div>"));
}

#[test]
fn html_report_empty_sections() {
    let report = report_of("b.py", "x = 1\n", OutputFormat::Html);
    let html = report::render_html_report(&report);
    assert!(html.contains("          <div class=\"empty\">未识别到函数。</div>\n"));
    assert!(html.contains("          <div class=\"empty\">未发现警告或严重问题。</div>\n"));
}

#[test]
fn escape_html_exact() {
    assert_eq!(escape_html("<a href=\"x\">it's & more</a>"),
        "&lt;a href=&quot;x&quot;&gt;it&#39;s &amp; more&lt;/a&gt;");
    assert_eq!(escape_html("plain 文本"), "plain 文本");
    assert_eq!(escape_html("&amp;"), "&amp;amp;");
    assert_eq!(escape_html(""), "");
}

#[test]
fn severity_visibility_labels() {
    assert!(is_visible("warning"));
    assert!(is_visible("Error"));
    assert!(is_visible("WARNING"));
    assert!(!is_visible("info"));
    assert!(!is_visible("Info"));
    assert_eq!(severity_label("Error"), "严重");
    assert_eq!(severity_label("warning"), "警告");
    assert_eq!(severity_label("Info"), "");
    assert_eq!(severity_class("ERROR"), "severity-error");
    assert_eq!(severity_class("Warning"), "severity-warning");
    assert_eq!(severity_class("info"), "");
}

#[test]
fn shown_issues_exclude_info() {
    let report = fixed_report();
    let all = &report.files[0].issues;
    assert_eq!(all.len(), 2);
    let shown = visible_issues(all);
    assert_eq!(shown.len(), 1);
    assert_eq!(shown[0].rule_name, "rust.unwrap");
}

#[test]
fn metric_box_exact() {
    assert_eq!(
        metric_box("总行数", 120),
        "          <div class=\"metric-box\"><strong>总行数</strong><span>120</span></div>\n"
    );
    assert_eq!(
        metric_box("x", 0),
        "          <div class=\"metric-box\"><strong>x</strong><span>0</span></div>\n"
    );
}

#[test]
fn timestamp_is_decimal_seconds() {
    let t = current_timestamp_string();
    assert!(t.chars().all(|c| c.is_ascii_digit()));
    let secs: u64 = t.parse().unwrap();
    assert!(secs > 1_600_000_000);
}

#[test]
fn shown_total_matches_summary() {
    let report = report_of(
        "m.c",
        "int main() {\n  gets(b);\n  strcpy(a, b);\n  printf(\"x\");\n}\n",
        OutputFormat::Text,
    );
    let s = &report.summary;
    assert_eq!((s.severity_count.error, s.severity_count.warning, s.severity_count.info), (1, 1, 1));
    let text = report::render_text_report(&report);
    assert!(text.contains(&format!("问题总数: {}\n", s.severity_count.warning + s.severity_count.error)));
}

fn decode(s: &str) -> String {
    let mut out = String::new();
    let mut rest = s;
    while !rest.is_empty() {
        let mut done = false;
        for (ent, c) in [("&amp;", '&'), ("&lt;", '<'), ("&gt;", '>'), ("&quot;", '"'), ("&#39;", '\'')] {
            if rest.starts_with(ent) {
                out.push(c);
                rest = &rest[ent.len()..];
                done = true;
                break;
            }
        }
        if !done {
            let c = rest.chars().next().unwrap();
            out.push(c);
            rest = &rest[c.len_utf8()..];
        }
    }
    out
}

#[test]
fn escape_round_trip_and_identity() {
    for s in ["a<b>&\"c'", "&amp;&lt;", "plain", "", "<<>>''\"\"&&"] {
        let e = escape_html(s);
        assert_eq!(decode(&e), s);
        assert!(!e.contains('<') && !e.contains('>') && !e.contains('"') && !e.contains('\''));
        assert_eq!(e == s, !s.chars().any(|c| "&<>\"'".contains(c)));
    }
}

#[test]
fn html_entry_counts() {
    let report = analyze_project(
        &AnalysisConfig {
            root_path: "proj".to_string(),
            format: OutputFormat::Html,
            output_path: None,
            thresholds: RuleThresholds::default(),
        },
        &[
            source(
                "a.rs",
                "fn go(a: i32) {\n    let v = x.unwrap(); dbg!(v);\n}\nfn stop() {\n    todo!();\n}\n",
            ),
            source("b.py", "def f(x):\n    return eval(x)\n"),
            source("c.txt", "<article class=\"file-card\">\n"),
            source("d.cpp", "int main() {\n    char b[4];\n    gets(b);\n}\n"),
        ],
    )
    .unwrap();
    let html = report::render_html_report(&report);
    let cards = html.matches("<article class=\"file-card\">").count();
    let functions = html.matches("<li class=\"list-card\"><strong>").count();
    let findings = html.matches("<div class=\"issue-top\">").count();
    assert_eq!(cards, 3);
    assert_eq!(cards, report.files.len());
    let expected_functions: usize = report.files.iter().map(|f| f.metrics.functions.len()).sum();
    let expected_findings: usize = report
        .files
        .iter()
        .map(|f| f.issues.iter().filter(|i| is_visible(i.severity.name())).count())
        .sum();
    assert_eq!(functions, expected_functions);
    assert_eq!(findings, expected_findings);
    assert!(functions >= 4);
    assert!(findings >= 3);
}

#[test]
fn timestamp_text_exact() {
    assert_eq!(timestamp_text(Some(1700000000)), "1700000000");
    assert_eq!(timestamp_text(Some(0)), "0");
    assert_eq!(timestamp_text(Some(u64::MAX)), "18446744073709551615");
    assert_eq!(timestamp_text(None), "0");
}
