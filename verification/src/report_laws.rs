//! Where the report texts show each figure: every total of the summary, and
//! every figure of a file, stands beside its own label.
use vstd::prelude::*;

use crate::model::{
    severity_name, AnalysisReportView, FileReportView, FunctionInfoView, IssueView, Severity,
};
use crate::report::{
    escape_text, html_file, html_files, html_function, html_function_section, html_functions,
    html_head, html_issue, html_issue_section, html_issues, html_snippet, severity_class_text,
    html_report, metric_box_text, HTML_HEAD, HTML_HERO, HTML_STYLE, HTML_TAIL,
    severity_label_text, text_file, text_files, text_function, text_function_section, text_functions,
    text_head, text_issue, text_issue_section, text_issues, text_report, text_snippet,
    visible_only, visible_total,
};
use crate::text::{ascii_lower, contains, decimal, matches_at};

verus! {

/// A labelled figure followed by the start of the next line is found where
/// that line starts with a line break.
proof fn lemma_line_in(x: Seq<char>, label: Seq<char>, d: Seq<char>, y: Seq<char>)
    requires
        y.len() > 0,
        y[0] == '\n',
    ensures
        contains(x + label + d + y, label + d + "\n"@),
{
    reveal_strlit("\n");
    let p = label + d + "\n"@;
    assert((x + label + d + y).subrange(x.len() as int, x.len() + p.len() as int) =~= p);
    assert(matches_at(x + label + d + y, p, x.len() as int));
}

/// What is found in a text is found in a longer text that starts with it.
proof fn lemma_contains_prefix(x: Seq<char>, p: Seq<char>, y: Seq<char>)
    requires
        contains(x, p),
    ensures
        contains(x + y, p),
{
    let i = choose|i: int| matches_at(x, p, i);
    assert((x + y).subrange(i, i + p.len()) =~= x.subrange(i, i + p.len()));
    assert(matches_at(x + y, p, i));
}

/// What is found in a text is found in a longer text that ends with it.
proof fn lemma_contains_suffix(x: Seq<char>, y: Seq<char>, p: Seq<char>)
    requires
        contains(y, p),
    ensures
        contains(x + y, p),
{
    let i = choose|i: int| matches_at(y, p, i);
    assert((x + y).subrange(x.len() + i, x.len() + i + p.len()) =~= y.subrange(i, i + p.len()));
    assert(matches_at(x + y, p, x.len() + i));
}

proof fn lemma_text_files_contain(items: Seq<FileReportView>, k: int, p: Seq<char>)
    requires
        0 <= k < items.len(),
        contains(text_file(items[k]), p),
    ensures
        contains(text_files(items), p),
    decreases items.len(),
{
    if k < items.len() - 1 {
        lemma_text_files_contain(items.drop_last(), k, p);
        lemma_contains_prefix(text_files(items.drop_last()), p, text_file(items.last()));
    } else {
        lemma_contains_suffix(text_files(items.drop_last()), text_file(items.last()), p);
    }
}

proof fn lemma_file_in_report(r: AnalysisReportView, k: int, p: Seq<char>)
    requires
        0 <= k < r.files.len(),
        contains(text_file(r.files[k]), p),
    ensures
        contains(text_report(r), p),
{
    lemma_text_files_contain(r.files, k, p);
    lemma_contains_suffix(text_head(r, visible_total(r.files)), text_files(r.files), p);
}

/// A labelled figure at the very start of a text, followed by a line break.
proof fn lemma_line_at_start(label: Seq<char>, d: Seq<char>, y: Seq<char>)
    requires
        y.len() > 0,
        y[0] == '\n',
    ensures
        contains(label + d + y, label + d + "\n"@),
{
    reveal_strlit("\n");
    let p = label + d + "\n"@;
    assert((label + d + y).subrange(0, p.len() as int) =~= p);
    assert(matches_at(label + d + y, p, 0));
}

/// The head of the text report gives each total of the summary on a line of
/// its own, after its label: files, findings shown, lines, code lines,
/// comment lines and blank lines.
pub proof fn law_text_report_totals(r: AnalysisReportView)
    ensures
        contains(text_report(r), "\n文件数量: "@ + decimal(r.summary.file_count as nat) + "\n"@),
        contains(text_report(r), "\n问题总数: "@ + decimal(visible_total(r.files)) + "\n"@),
        contains(text_report(r), "\n总行数: "@ + decimal(r.summary.total_lines as nat) + "\n"@),
        contains(
            text_report(r),
            "\n代码行数: "@ + decimal(r.summary.total_code_lines as nat) + "\n"@,
        ),
        contains(
            text_report(r),
            "\n注释行数: "@ + decimal(r.summary.total_comment_lines as nat) + "\n"@,
        ),
        contains(
            text_report(r),
            "\n空白行数: "@ + decimal(r.summary.total_blank_lines as nat) + "\n"@,
        ),
{
    let vt = visible_total(r.files);
    let l0 = "Rust Homework Static Analysis Report\nFile Count\n===================================\n\nRust 作业静态分析报告\n====================\n\n项目路径: "@;
    let g = "\n生成时间: "@;
    let l1 = "\n文件数量: "@;
    let l2 = "\n问题总数: "@;
    let l3 = "\n总行数: "@;
    let l4 = "\n代码行数: "@;
    let l5 = "\n注释行数: "@;
    let l6 = "\n空白行数: "@;
    let e = "\n\n"@;
    reveal_strlit("\n问题总数: ");
    reveal_strlit("\n总行数: ");
    reveal_strlit("\n代码行数: ");
    reveal_strlit("\n注释行数: ");
    reveal_strlit("\n空白行数: ");
    reveal_strlit("\n\n");
    let d1 = decimal(r.summary.file_count as nat);
    let d2 = decimal(vt);
    let d3 = decimal(r.summary.total_lines as nat);
    let d4 = decimal(r.summary.total_code_lines as nat);
    let d5 = decimal(r.summary.total_comment_lines as nat);
    let d6 = decimal(r.summary.total_blank_lines as nat);
    let files = text_files(r.files);
    assert(text_head(r, vt) == l0 + r.root_path + g + r.generated_at + l1 + d1 + l2 + d2 + l3 + d3 + l4 + d4 + l5 + d5 + l6 + d6 + e);
    assert(text_report(r) == text_head(r, vt) + files);
    lemma_line_in(l0 + r.root_path + g + r.generated_at, l1, d1, l2);
    lemma_contains_prefix(l0 + r.root_path + g + r.generated_at + l1 + d1 + l2, l1 + d1 + "\n"@, d2);
    lemma_contains_prefix(l0 + r.root_path + g + r.generated_at + l1 + d1 + l2 + d2, l1 + d1 + "\n"@, l3);
    lemma_contains_prefix(l0 + r.root_path + g + r.generated_at + l1 + d1 + l2 + d2 + l3, l1 + d1 + "\n"@, d3);
    lemma_contains_prefix(l0 + r.root_path + g + r.generated_at + l1 + d1 + l2 + d2 + l3 + d3, l1 + d1 + "\n"@, l4);
    lemma_contains_prefix(l0 + r.root_path + g + r.generated_at + l1 + d1 + l2 + d2 + l3 + d3 + l4, l1 + d1 + "\n"@, d4);
    lemma_contains_prefix(l0 + r.root_path + g + r.generated_at + l1 + d1 + l2 + d2 + l3 + d3 + l4 + d4, l1 + d1 + "\n"@, l5);
    lemma_contains_prefix(l0 + r.root_path + g + r.generated_at + l1 + d1 + l2 + d2 + l3 + d3 + l4 + d4 + l5, l1 + d1 + "\n"@, d5);
    lemma_contains_prefix(l0 + r.root_path + g + r.generated_at + l1 + d1 + l2 + d2 + l3 + d3 + l4 + d4 + l5 + d5, l1 + d1 + "\n"@, l6);
    lemma_contains_prefix(l0 + r.root_path + g + r.generated_at + l1 + d1 + l2 + d2 + l3 + d3 + l4 + d4 + l5 + d5 + l6, l1 + d1 + "\n"@, d6);
    lemma_contains_prefix(l0 + r.root_path + g + r.generated_at + l1 + d1 + l2 + d2 + l3 + d3 + l4 + d4 + l5 + d5 + l6 + d6, l1 + d1 + "\n"@, e);
    lemma_contains_prefix(text_head(r, vt), l1 + d1 + "\n"@, files);
    lemma_line_in(l0 + r.root_path + g + r.generated_at + l1 + d1, l2, d2, l3);
    lemma_contains_prefix(l0 + r.root_path + g + r.generated_at + l1 + d1 + l2 + d2 + l3, l2 + d2 + "\n"@, d3);
    lemma_contains_prefix(l0 + r.root_path + g + r.generated_at + l1 + d1 + l2 + d2 + l3 + d3, l2 + d2 + "\n"@, l4);
    lemma_contains_prefix(l0 + r.root_path + g + r.generated_at + l1 + d1 + l2 + d2 + l3 + d3 + l4, l2 + d2 + "\n"@, d4);
    lemma_contains_prefix(l0 + r.root_path + g + r.generated_at + l1 + d1 + l2 + d2 + l3 + d3 + l4 + d4, l2 + d2 + "\n"@, l5);
    lemma_contains_prefix(l0 + r.root_path + g + r.generated_at + l1 + d1 + l2 + d2 + l3 + d3 + l4 + d4 + l5, l2 + d2 + "\n"@, d5);
    lemma_contains_prefix(l0 + r.root_path + g + r.generated_at + l1 + d1 + l2 + d2 + l3 + d3 + l4 + d4 + l5 + d5, l2 + d2 + "\n"@, l6);
    lemma_contains_prefix(l0 + r.root_path + g + r.generated_at + l1 + d1 + l2 + d2 + l3 + d3 + l4 + d4 + l5 + d5 + l6, l2 + d2 + "\n"@, d6);
    lemma_contains_prefix(l0 + r.root_path + g + r.generated_at + l1 + d1 + l2 + d2 + l3 + d3 + l4 + d4 + l5 + d5 + l6 + d6, l2 + d2 + "\n"@, e);
    lemma_contains_prefix(text_head(r, vt), l2 + d2 + "\n"@, files);
    lemma_line_in(l0 + r.root_path + g + r.generated_at + l1 + d1 + l2 + d2, l3, d3, l4);
    lemma_contains_prefix(l0 + r.root_path + g + r.generated_at + l1 + d1 + l2 + d2 + l3 + d3 + l4, l3 + d3 + "\n"@, d4);
    lemma_contains_prefix(l0 + r.root_path + g + r.generated_at + l1 + d1 + l2 + d2 + l3 + d3 + l4 + d4, l3 + d3 + "\n"@, l5);
    lemma_contains_prefix(l0 + r.root_path + g + r.generated_at + l1 + d1 + l2 + d2 + l3 + d3 + l4 + d4 + l5, l3 + d3 + "\n"@, d5);
    lemma_contains_prefix(l0 + r.root_path + g + r.generated_at + l1 + d1 + l2 + d2 + l3 + d3 + l4 + d4 + l5 + d5, l3 + d3 + "\n"@, l6);
    lemma_contains_prefix(l0 + r.root_path + g + r.generated_at + l1 + d1 + l2 + d2 + l3 + d3 + l4 + d4 + l5 + d5 + l6, l3 + d3 + "\n"@, d6);
    lemma_contains_prefix(l0 + r.root_path + g + r.generated_at + l1 + d1 + l2 + d2 + l3 + d3 + l4 + d4 + l5 + d5 + l6 + d6, l3 + d3 + "\n"@, e);
    lemma_contains_prefix(text_head(r, vt), l3 + d3 + "\n"@, files);
    lemma_line_in(l0 + r.root_path + g + r.generated_at + l1 + d1 + l2 + d2 + l3 + d3, l4, d4, l5);
    lemma_contains_prefix(l0 + r.root_path + g + r.generated_at + l1 + d1 + l2 + d2 + l3 + d3 + l4 + d4 + l5, l4 + d4 + "\n"@, d5);
    lemma_contains_prefix(l0 + r.root_path + g + r.generated_at + l1 + d1 + l2 + d2 + l3 + d3 + l4 + d4 + l5 + d5, l4 + d4 + "\n"@, l6);
    lemma_contains_prefix(l0 + r.root_path + g + r.generated_at + l1 + d1 + l2 + d2 + l3 + d3 + l4 + d4 + l5 + d5 + l6, l4 + d4 + "\n"@, d6);
    lemma_contains_prefix(l0 + r.root_path + g + r.generated_at + l1 + d1 + l2 + d2 + l3 + d3 + l4 + d4 + l5 + d5 + l6 + d6, l4 + d4 + "\n"@, e);
    lemma_contains_prefix(text_head(r, vt), l4 + d4 + "\n"@, files);
    lemma_line_in(l0 + r.root_path + g + r.generated_at + l1 + d1 + l2 + d2 + l3 + d3 + l4 + d4, l5, d5, l6);
    lemma_contains_prefix(l0 + r.root_path + g + r.generated_at + l1 + d1 + l2 + d2 + l3 + d3 + l4 + d4 + l5 + d5 + l6, l5 + d5 + "\n"@, d6);
    lemma_contains_prefix(l0 + r.root_path + g + r.generated_at + l1 + d1 + l2 + d2 + l3 + d3 + l4 + d4 + l5 + d5 + l6 + d6, l5 + d5 + "\n"@, e);
    lemma_contains_prefix(text_head(r, vt), l5 + d5 + "\n"@, files);
    lemma_line_in(l0 + r.root_path + g + r.generated_at + l1 + d1 + l2 + d2 + l3 + d3 + l4 + d4 + l5 + d5, l6, d6, e);
    lemma_contains_prefix(text_head(r, vt), l6 + d6 + "\n"@, files);
}

/// In the text report, the section of each file gives its path and each of
/// its figures on a line of its own, after its label: findings shown, lines,
/// code, comment and blank lines, functions and nesting depth.
pub proof fn law_text_report_file_figures(r: AnalysisReportView, k: int)
    requires
        0 <= k < r.files.len(),
    ensures
        ({
            let f = r.files[k];
            &&& contains(text_report(r), "文件: "@ + f.path + "\n"@)
            &&& contains(text_report(r), "\n  问题数: "@ + decimal(visible_only(f.issues).len()) + "\n"@)
            &&& contains(text_report(r), "\n  总行数: "@ + decimal(f.metrics.total_lines) + "\n"@)
            &&& contains(text_report(r), "\n  代码行: "@ + decimal(f.metrics.code_lines) + "\n"@)
            &&& contains(text_report(r), "\n  注释行: "@ + decimal(f.metrics.comment_lines) + "\n"@)
            &&& contains(text_report(r), "\n  空白行: "@ + decimal(f.metrics.blank_lines) + "\n"@)
            &&& contains(text_report(r), "\n  函数数量: "@ + decimal(f.metrics.function_count) + "\n"@)
            &&& contains(text_report(r), "\n  最大嵌套深度: "@ + decimal(f.metrics.max_nesting_depth) + "\n"@)
        }),
{
    let f = r.files[k];
    let l0 = "文件: "@;
    let l1 = "\n  问题数: "@;
    reveal_strlit("\n  问题数: ");
    let d1 = decimal(visible_only(f.issues).len());
    let l2 = "\n  总行数: "@;
    reveal_strlit("\n  总行数: ");
    let d2 = decimal(f.metrics.total_lines);
    let l3 = "\n  代码行: "@;
    reveal_strlit("\n  代码行: ");
    let d3 = decimal(f.metrics.code_lines);
    let l4 = "\n  注释行: "@;
    reveal_strlit("\n  注释行: ");
    let d4 = decimal(f.metrics.comment_lines);
    let l5 = "\n  空白行: "@;
    reveal_strlit("\n  空白行: ");
    let d5 = decimal(f.metrics.blank_lines);
    let l6 = "\n  函数数量: "@;
    reveal_strlit("\n  函数数量: ");
    let d6 = decimal(f.metrics.function_count);
    let l7 = "\n  最大嵌套深度: "@;
    reveal_strlit("\n  最大嵌套深度: ");
    let d7 = decimal(f.metrics.max_nesting_depth);
    let e = "\n"@;
    reveal_strlit("\n");
    let s1 = text_function_section(f.metrics.functions);
    let s2 = text_issue_section(visible_only(f.issues));
    assert(text_file(f) == l0 + f.path + l1 + d1 + l2 + d2 + l3 + d3 + l4 + d4 + l5 + d5 + l6 + d6 + l7 + d7 + e + s1 + s2 + e);
    lemma_line_at_start(l0, f.path, l1);
    lemma_contains_prefix(l0 + f.path + l1, l0 + f.path + "\n"@, d1);
    lemma_contains_prefix(l0 + f.path + l1 + d1, l0 + f.path + "\n"@, l2);
    lemma_contains_prefix(l0 + f.path + l1 + d1 + l2, l0 + f.path + "\n"@, d2);
    lemma_contains_prefix(l0 + f.path + l1 + d1 + l2 + d2, l0 + f.path + "\n"@, l3);
    lemma_contains_prefix(l0 + f.path + l1 + d1 + l2 + d2 + l3, l0 + f.path + "\n"@, d3);
    lemma_contains_prefix(l0 + f.path + l1 + d1 + l2 + d2 + l3 + d3, l0 + f.path + "\n"@, l4);
    lemma_contains_prefix(l0 + f.path + l1 + d1 + l2 + d2 + l3 + d3 + l4, l0 + f.path + "\n"@, d4);
    lemma_contains_prefix(l0 + f.path + l1 + d1 + l2 + d2 + l3 + d3 + l4 + d4, l0 + f.path + "\n"@, l5);
    lemma_contains_prefix(l0 + f.path + l1 + d1 + l2 + d2 + l3 + d3 + l4 + d4 + l5, l0 + f.path + "\n"@, d5);
    lemma_contains_prefix(l0 + f.path + l1 + d1 + l2 + d2 + l3 + d3 + l4 + d4 + l5 + d5, l0 + f.path + "\n"@, l6);
    lemma_contains_prefix(l0 + f.path + l1 + d1 + l2 + d2 + l3 + d3 + l4 + d4 + l5 + d5 + l6, l0 + f.path + "\n"@, d6);
    lemma_contains_prefix(l0 + f.path + l1 + d1 + l2 + d2 + l3 + d3 + l4 + d4 + l5 + d5 + l6 + d6, l0 + f.path + "\n"@, l7);
    lemma_contains_prefix(l0 + f.path + l1 + d1 + l2 + d2 + l3 + d3 + l4 + d4 + l5 + d5 + l6 + d6 + l7, l0 + f.path + "\n"@, d7);
    lemma_contains_prefix(l0 + f.path + l1 + d1 + l2 + d2 + l3 + d3 + l4 + d4 + l5 + d5 + l6 + d6 + l7 + d7, l0 + f.path + "\n"@, e);
    lemma_contains_prefix(l0 + f.path + l1 + d1 + l2 + d2 + l3 + d3 + l4 + d4 + l5 + d5 + l6 + d6 + l7 + d7 + e, l0 + f.path + "\n"@, s1);
    lemma_contains_prefix(l0 + f.path + l1 + d1 + l2 + d2 + l3 + d3 + l4 + d4 + l5 + d5 + l6 + d6 + l7 + d7 + e + s1, l0 + f.path + "\n"@, s2);
    lemma_contains_prefix(l0 + f.path + l1 + d1 + l2 + d2 + l3 + d3 + l4 + d4 + l5 + d5 + l6 + d6 + l7 + d7 + e + s1 + s2, l0 + f.path + "\n"@, e);
    lemma_file_in_report(r, k, l0 + f.path + "\n"@);
    lemma_line_in(l0 + f.path, l1, d1, l2);
    lemma_contains_prefix(l0 + f.path + l1 + d1 + l2, l1 + d1 + "\n"@, d2);
    lemma_contains_prefix(l0 + f.path + l1 + d1 + l2 + d2, l1 + d1 + "\n"@, l3);
    lemma_contains_prefix(l0 + f.path + l1 + d1 + l2 + d2 + l3, l1 + d1 + "\n"@, d3);
    lemma_contains_prefix(l0 + f.path + l1 + d1 + l2 + d2 + l3 + d3, l1 + d1 + "\n"@, l4);
    lemma_contains_prefix(l0 + f.path + l1 + d1 + l2 + d2 + l3 + d3 + l4, l1 + d1 + "\n"@, d4);
    lemma_contains_prefix(l0 + f.path + l1 + d1 + l2 + d2 + l3 + d3 + l4 + d4, l1 + d1 + "\n"@, l5);
    lemma_contains_prefix(l0 + f.path + l1 + d1 + l2 + d2 + l3 + d3 + l4 + d4 + l5, l1 + d1 + "\n"@, d5);
    lemma_contains_prefix(l0 + f.path + l1 + d1 + l2 + d2 + l3 + d3 + l4 + d4 + l5 + d5, l1 + d1 + "\n"@, l6);
    lemma_contains_prefix(l0 + f.path + l1 + d1 + l2 + d2 + l3 + d3 + l4 + d4 + l5 + d5 + l6, l1 + d1 + "\n"@, d6);
    lemma_contains_prefix(l0 + f.path + l1 + d1 + l2 + d2 + l3 + d3 + l4 + d4 + l5 + d5 + l6 + d6, l1 + d1 + "\n"@, l7);
    lemma_contains_prefix(l0 + f.path + l1 + d1 + l2 + d2 + l3 + d3 + l4 + d4 + l5 + d5 + l6 + d6 + l7, l1 + d1 + "\n"@, d7);
    lemma_contains_prefix(l0 + f.path + l1 + d1 + l2 + d2 + l3 + d3 + l4 + d4 + l5 + d5 + l6 + d6 + l7 + d7, l1 + d1 + "\n"@, e);
    lemma_contains_prefix(l0 + f.path + l1 + d1 + l2 + d2 + l3 + d3 + l4 + d4 + l5 + d5 + l6 + d6 + l7 + d7 + e, l1 + d1 + "\n"@, s1);
    lemma_contains_prefix(l0 + f.path + l1 + d1 + l2 + d2 + l3 + d3 + l4 + d4 + l5 + d5 + l6 + d6 + l7 + d7 + e + s1, l1 + d1 + "\n"@, s2);
    lemma_contains_prefix(l0 + f.path + l1 + d1 + l2 + d2 + l3 + d3 + l4 + d4 + l5 + d5 + l6 + d6 + l7 + d7 + e + s1 + s2, l1 + d1 + "\n"@, e);
    lemma_file_in_report(r, k, l1 + d1 + "\n"@);
    lemma_line_in(l0 + f.path + l1 + d1, l2, d2, l3);
    lemma_contains_prefix(l0 + f.path + l1 + d1 + l2 + d2 + l3, l2 + d2 + "\n"@, d3);
    lemma_contains_prefix(l0 + f.path + l1 + d1 + l2 + d2 + l3 + d3, l2 + d2 + "\n"@, l4);
    lemma_contains_prefix(l0 + f.path + l1 + d1 + l2 + d2 + l3 + d3 + l4, l2 + d2 + "\n"@, d4);
    lemma_contains_prefix(l0 + f.path + l1 + d1 + l2 + d2 + l3 + d3 + l4 + d4, l2 + d2 + "\n"@, l5);
    lemma_contains_prefix(l0 + f.path + l1 + d1 + l2 + d2 + l3 + d3 + l4 + d4 + l5, l2 + d2 + "\n"@, d5);
    lemma_contains_prefix(l0 + f.path + l1 + d1 + l2 + d2 + l3 + d3 + l4 + d4 + l5 + d5, l2 + d2 + "\n"@, l6);
    lemma_contains_prefix(l0 + f.path + l1 + d1 + l2 + d2 + l3 + d3 + l4 + d4 + l5 + d5 + l6, l2 + d2 + "\n"@, d6);
    lemma_contains_prefix(l0 + f.path + l1 + d1 + l2 + d2 + l3 + d3 + l4 + d4 + l5 + d5 + l6 + d6, l2 + d2 + "\n"@, l7);
    lemma_contains_prefix(l0 + f.path + l1 + d1 + l2 + d2 + l3 + d3 + l4 + d4 + l5 + d5 + l6 + d6 + l7, l2 + d2 + "\n"@, d7);
    lemma_contains_prefix(l0 + f.path + l1 + d1 + l2 + d2 + l3 + d3 + l4 + d4 + l5 + d5 + l6 + d6 + l7 + d7, l2 + d2 + "\n"@, e);
    lemma_contains_prefix(l0 + f.path + l1 + d1 + l2 + d2 + l3 + d3 + l4 + d4 + l5 + d5 + l6 + d6 + l7 + d7 + e, l2 + d2 + "\n"@, s1);
    lemma_contains_prefix(l0 + f.path + l1 + d1 + l2 + d2 + l3 + d3 + l4 + d4 + l5 + d5 + l6 + d6 + l7 + d7 + e + s1, l2 + d2 + "\n"@, s2);
    lemma_contains_prefix(l0 + f.path + l1 + d1 + l2 + d2 + l3 + d3 + l4 + d4 + l5 + d5 + l6 + d6 + l7 + d7 + e + s1 + s2, l2 + d2 + "\n"@, e);
    lemma_file_in_report(r, k, l2 + d2 + "\n"@);
    lemma_line_in(l0 + f.path + l1 + d1 + l2 + d2, l3, d3, l4);
    lemma_contains_prefix(l0 + f.path + l1 + d1 + l2 + d2 + l3 + d3 + l4, l3 + d3 + "\n"@, d4);
    lemma_contains_prefix(l0 + f.path + l1 + d1 + l2 + d2 + l3 + d3 + l4 + d4, l3 + d3 + "\n"@, l5);
    lemma_contains_prefix(l0 + f.path + l1 + d1 + l2 + d2 + l3 + d3 + l4 + d4 + l5, l3 + d3 + "\n"@, d5);
    lemma_contains_prefix(l0 + f.path + l1 + d1 + l2 + d2 + l3 + d3 + l4 + d4 + l5 + d5, l3 + d3 + "\n"@, l6);
    lemma_contains_prefix(l0 + f.path + l1 + d1 + l2 + d2 + l3 + d3 + l4 + d4 + l5 + d5 + l6, l3 + d3 + "\n"@, d6);
    lemma_contains_prefix(l0 + f.path + l1 + d1 + l2 + d2 + l3 + d3 + l4 + d4 + l5 + d5 + l6 + d6, l3 + d3 + "\n"@, l7);
    lemma_contains_prefix(l0 + f.path + l1 + d1 + l2 + d2 + l3 + d3 + l4 + d4 + l5 + d5 + l6 + d6 + l7, l3 + d3 + "\n"@, d7);
    lemma_contains_prefix(l0 + f.path + l1 + d1 + l2 + d2 + l3 + d3 + l4 + d4 + l5 + d5 + l6 + d6 + l7 + d7, l3 + d3 + "\n"@, e);
    lemma_contains_prefix(l0 + f.path + l1 + d1 + l2 + d2 + l3 + d3 + l4 + d4 + l5 + d5 + l6 + d6 + l7 + d7 + e, l3 + d3 + "\n"@, s1);
    lemma_contains_prefix(l0 + f.path + l1 + d1 + l2 + d2 + l3 + d3 + l4 + d4 + l5 + d5 + l6 + d6 + l7 + d7 + e + s1, l3 + d3 + "\n"@, s2);
    lemma_contains_prefix(l0 + f.path + l1 + d1 + l2 + d2 + l3 + d3 + l4 + d4 + l5 + d5 + l6 + d6 + l7 + d7 + e + s1 + s2, l3 + d3 + "\n"@, e);
    lemma_file_in_report(r, k, l3 + d3 + "\n"@);
    lemma_line_in(l0 + f.path + l1 + d1 + l2 + d2 + l3 + d3, l4, d4, l5);
    lemma_contains_prefix(l0 + f.path + l1 + d1 + l2 + d2 + l3 + d3 + l4 + d4 + l5, l4 + d4 + "\n"@, d5);
    lemma_contains_prefix(l0 + f.path + l1 + d1 + l2 + d2 + l3 + d3 + l4 + d4 + l5 + d5, l4 + d4 + "\n"@, l6);
    lemma_contains_prefix(l0 + f.path + l1 + d1 + l2 + d2 + l3 + d3 + l4 + d4 + l5 + d5 + l6, l4 + d4 + "\n"@, d6);
    lemma_contains_prefix(l0 + f.path + l1 + d1 + l2 + d2 + l3 + d3 + l4 + d4 + l5 + d5 + l6 + d6, l4 + d4 + "\n"@, l7);
    lemma_contains_prefix(l0 + f.path + l1 + d1 + l2 + d2 + l3 + d3 + l4 + d4 + l5 + d5 + l6 + d6 + l7, l4 + d4 + "\n"@, d7);
    lemma_contains_prefix(l0 + f.path + l1 + d1 + l2 + d2 + l3 + d3 + l4 + d4 + l5 + d5 + l6 + d6 + l7 + d7, l4 + d4 + "\n"@, e);
    lemma_contains_prefix(l0 + f.path + l1 + d1 + l2 + d2 + l3 + d3 + l4 + d4 + l5 + d5 + l6 + d6 + l7 + d7 + e, l4 + d4 + "\n"@, s1);
    lemma_contains_prefix(l0 + f.path + l1 + d1 + l2 + d2 + l3 + d3 + l4 + d4 + l5 + d5 + l6 + d6 + l7 + d7 + e + s1, l4 + d4 + "\n"@, s2);
    lemma_contains_prefix(l0 + f.path + l1 + d1 + l2 + d2 + l3 + d3 + l4 + d4 + l5 + d5 + l6 + d6 + l7 + d7 + e + s1 + s2, l4 + d4 + "\n"@, e);
    lemma_file_in_report(r, k, l4 + d4 + "\n"@);
    lemma_line_in(l0 + f.path + l1 + d1 + l2 + d2 + l3 + d3 + l4 + d4, l5, d5, l6);
    lemma_contains_prefix(l0 + f.path + l1 + d1 + l2 + d2 + l3 + d3 + l4 + d4 + l5 + d5 + l6, l5 + d5 + "\n"@, d6);
    lemma_contains_prefix(l0 + f.path + l1 + d1 + l2 + d2 + l3 + d3 + l4 + d4 + l5 + d5 + l6 + d6, l5 + d5 + "\n"@, l7);
    lemma_contains_prefix(l0 + f.path + l1 + d1 + l2 + d2 + l3 + d3 + l4 + d4 + l5 + d5 + l6 + d6 + l7, l5 + d5 + "\n"@, d7);
    lemma_contains_prefix(l0 + f.path + l1 + d1 + l2 + d2 + l3 + d3 + l4 + d4 + l5 + d5 + l6 + d6 + l7 + d7, l5 + d5 + "\n"@, e);
    lemma_contains_prefix(l0 + f.path + l1 + d1 + l2 + d2 + l3 + d3 + l4 + d4 + l5 + d5 + l6 + d6 + l7 + d7 + e, l5 + d5 + "\n"@, s1);
    lemma_contains_prefix(l0 + f.path + l1 + d1 + l2 + d2 + l3 + d3 + l4 + d4 + l5 + d5 + l6 + d6 + l7 + d7 + e + s1, l5 + d5 + "\n"@, s2);
    lemma_contains_prefix(l0 + f.path + l1 + d1 + l2 + d2 + l3 + d3 + l4 + d4 + l5 + d5 + l6 + d6 + l7 + d7 + e + s1 + s2, l5 + d5 + "\n"@, e);
    lemma_file_in_report(r, k, l5 + d5 + "\n"@);
    lemma_line_in(l0 + f.path + l1 + d1 + l2 + d2 + l3 + d3 + l4 + d4 + l5 + d5, l6, d6, l7);
    lemma_contains_prefix(l0 + f.path + l1 + d1 + l2 + d2 + l3 + d3 + l4 + d4 + l5 + d5 + l6 + d6 + l7, l6 + d6 + "\n"@, d7);
    lemma_contains_prefix(l0 + f.path + l1 + d1 + l2 + d2 + l3 + d3 + l4 + d4 + l5 + d5 + l6 + d6 + l7 + d7, l6 + d6 + "\n"@, e);
    lemma_contains_prefix(l0 + f.path + l1 + d1 + l2 + d2 + l3 + d3 + l4 + d4 + l5 + d5 + l6 + d6 + l7 + d7 + e, l6 + d6 + "\n"@, s1);
    lemma_contains_prefix(l0 + f.path + l1 + d1 + l2 + d2 + l3 + d3 + l4 + d4 + l5 + d5 + l6 + d6 + l7 + d7 + e + s1, l6 + d6 + "\n"@, s2);
    lemma_contains_prefix(l0 + f.path + l1 + d1 + l2 + d2 + l3 + d3 + l4 + d4 + l5 + d5 + l6 + d6 + l7 + d7 + e + s1 + s2, l6 + d6 + "\n"@, e);
    lemma_file_in_report(r, k, l6 + d6 + "\n"@);
    lemma_line_in(l0 + f.path + l1 + d1 + l2 + d2 + l3 + d3 + l4 + d4 + l5 + d5 + l6 + d6, l7, d7, e);
    lemma_contains_prefix(l0 + f.path + l1 + d1 + l2 + d2 + l3 + d3 + l4 + d4 + l5 + d5 + l6 + d6 + l7 + d7 + e, l7 + d7 + "\n"@, s1);
    lemma_contains_prefix(l0 + f.path + l1 + d1 + l2 + d2 + l3 + d3 + l4 + d4 + l5 + d5 + l6 + d6 + l7 + d7 + e + s1, l7 + d7 + "\n"@, s2);
    lemma_contains_prefix(l0 + f.path + l1 + d1 + l2 + d2 + l3 + d3 + l4 + d4 + l5 + d5 + l6 + d6 + l7 + d7 + e + s1 + s2, l7 + d7 + "\n"@, e);
    lemma_file_in_report(r, k, l7 + d7 + "\n"@);
}

/// A piece followed by the start of the next one is found in their
/// concatenation.
proof fn lemma_piece_in(x: Seq<char>, a: Seq<char>, d: Seq<char>, t: Seq<char>, y: Seq<char>)
    requires
        t.len() <= y.len(),
        y.take(t.len() as int) == t,
    ensures
        contains(x + a + d + y, a + d + t),
{
    let p = a + d + t;
    assert((x + a + d + y).subrange(x.len() as int, x.len() + p.len() as int) =~= p);
    assert(matches_at(x + a + d + y, p, x.len() as int));
}

/// The head of the HTML report shows each total of the summary in the box
/// labelled with its name: files, findings shown, lines, code lines, comment
/// lines and blank lines.
pub proof fn law_html_report_totals(r: AnalysisReportView)
    ensures
        contains(
            html_report(r),
            "<div class=\"stat-label\">文件数量</div><div class=\"stat-value\">"@ + decimal(r.summary.file_count as nat) + "</div>"@,
        ),
        contains(
            html_report(r),
            "<div class=\"stat-label\">问题总数</div><div class=\"stat-value\">"@ + decimal(visible_total(r.files)) + "</div>"@,
        ),
        contains(
            html_report(r),
            "<div class=\"stat-label\">总行数</div><div class=\"stat-value\">"@ + decimal(r.summary.total_lines as nat) + "</div>"@,
        ),
        contains(
            html_report(r),
            "<div class=\"stat-label\">代码行数</div><div class=\"stat-value\">"@ + decimal(r.summary.total_code_lines as nat) + "</div>"@,
        ),
        contains(
            html_report(r),
            "<div class=\"stat-label\">注释行数</div><div class=\"stat-value\">"@ + decimal(r.summary.total_comment_lines as nat) + "</div>"@,
        ),
        contains(
            html_report(r),
            "<div class=\"stat-label\">空白行数</div><div class=\"stat-value\">"@ + decimal(r.summary.total_blank_lines as nat) + "</div>"@,
        ),
{
    let vt = visible_total(r.files);
    let c = "</div>"@;
    reveal_strlit("</div>");
    let p1 = "        <div class=\"stat\">"@;
    let a1 = "<div class=\"stat-label\">文件数量</div><div class=\"stat-value\">"@;
    reveal_strlit("        <div class=\"stat\">");
    reveal_strlit("<div class=\"stat-label\">文件数量</div><div class=\"stat-value\">");
    reveal_strlit("        <div class=\"stat\"><div class=\"stat-label\">文件数量</div><div class=\"stat-value\">");
    assert("        <div class=\"stat\"><div class=\"stat-label\">文件数量</div><div class=\"stat-value\">"@ =~= p1 + a1);
    let d1 = decimal(r.summary.file_count as nat);
    let p2 = "</div></div>\n        <div class=\"stat\">"@;
    let a2 = "<div class=\"stat-label\">问题总数</div><div class=\"stat-value\">"@;
    reveal_strlit("</div></div>\n        <div class=\"stat\">");
    reveal_strlit("<div class=\"stat-label\">问题总数</div><div class=\"stat-value\">");
    reveal_strlit("</div></div>\n        <div class=\"stat\"><div class=\"stat-label\">问题总数</div><div class=\"stat-value\">");
    assert("</div></div>\n        <div class=\"stat\"><div class=\"stat-label\">问题总数</div><div class=\"stat-value\">"@ =~= p2 + a2);
    let d2 = decimal(vt);
    let p3 = "</div></div>\n        <div class=\"stat\">"@;
    let a3 = "<div class=\"stat-label\">总行数</div><div class=\"stat-value\">"@;
    reveal_strlit("</div></div>\n        <div class=\"stat\">");
    reveal_strlit("<div class=\"stat-label\">总行数</div><div class=\"stat-value\">");
    reveal_strlit("</div></div>\n        <div class=\"stat\"><div class=\"stat-label\">总行数</div><div class=\"stat-value\">");
    assert("</div></div>\n        <div class=\"stat\"><div class=\"stat-label\">总行数</div><div class=\"stat-value\">"@ =~= p3 + a3);
    let d3 = decimal(r.summary.total_lines as nat);
    let p4 = "</div></div>\n        <div class=\"stat\">"@;
    let a4 = "<div class=\"stat-label\">代码行数</div><div class=\"stat-value\">"@;
    reveal_strlit("</div></div>\n        <div class=\"stat\">");
    reveal_strlit("<div class=\"stat-label\">代码行数</div><div class=\"stat-value\">");
    reveal_strlit("</div></div>\n        <div class=\"stat\"><div class=\"stat-label\">代码行数</div><div class=\"stat-value\">");
    assert("</div></div>\n        <div class=\"stat\"><div class=\"stat-label\">代码行数</div><div class=\"stat-value\">"@ =~= p4 + a4);
    let d4 = decimal(r.summary.total_code_lines as nat);
    let p5 = "</div></div>\n        <div class=\"stat\">"@;
    let a5 = "<div class=\"stat-label\">注释行数</div><div class=\"stat-value\">"@;
    reveal_strlit("</div></div>\n        <div class=\"stat\">");
    reveal_strlit("<div class=\"stat-label\">注释行数</div><div class=\"stat-value\">");
    reveal_strlit("</div></div>\n        <div class=\"stat\"><div class=\"stat-label\">注释行数</div><div class=\"stat-value\">");
    assert("</div></div>\n        <div class=\"stat\"><div class=\"stat-label\">注释行数</div><div class=\"stat-value\">"@ =~= p5 + a5);
    let d5 = decimal(r.summary.total_comment_lines as nat);
    let p6 = "</div></div>\n        <div class=\"stat\">"@;
    let a6 = "<div class=\"stat-label\">空白行数</div><div class=\"stat-value\">"@;
    reveal_strlit("</div></div>\n        <div class=\"stat\">");
    reveal_strlit("<div class=\"stat-label\">空白行数</div><div class=\"stat-value\">");
    reveal_strlit("</div></div>\n        <div class=\"stat\"><div class=\"stat-label\">空白行数</div><div class=\"stat-value\">");
    assert("</div></div>\n        <div class=\"stat\"><div class=\"stat-label\">空白行数</div><div class=\"stat-value\">"@ =~= p6 + a6);
    let d6 = decimal(r.summary.total_blank_lines as nat);
    let t = "</div></div>\n      </div>\n      <div class=\"meta\">\n        <div><strong>项目路径：</strong>"@;
    reveal_strlit("</div></div>\n      </div>\n      <div class=\"meta\">\n        <div><strong>项目路径：</strong>");
    let u = "</div>\n        <div><strong>生成时间：</strong>"@;
    let w = "</div>\n      </div>\n    </section>\n    <section class=\"files\">\n"@;
    let e1 = escape_text(r.root_path);
    let e2 = escape_text(r.generated_at);
    let h = html_head(r, vt);
    assert(h =~= HTML_HEAD@ + HTML_STYLE@ + HTML_HERO@ + (p1 + a1) + d1 + (p2 + a2) + d2 + (p3 + a3) + d3 + (p4 + a4) + d4 + (p5 + a5) + d5 + (p6 + a6) + d6 + t + e1 + u + e2 + w);
    assert(h =~= HTML_HEAD@ + HTML_STYLE@ + HTML_HERO@ + p1 + a1 + d1 + p2 + a2 + d2 + p3 + a3 + d3 + p4 + a4 + d4 + p5 + a5 + d5 + p6 + a6 + d6 + t + e1 + u + e2 + w);
    let files = html_files(r.files);
    assert(html_report(r) == h + files + HTML_TAIL@);
    assert(p2.take(6) =~= c);
    lemma_piece_in(HTML_HEAD@ + HTML_STYLE@ + HTML_HERO@ + p1, a1, d1, c, p2);
    lemma_contains_prefix(HTML_HEAD@ + HTML_STYLE@ + HTML_HERO@ + p1 + a1 + d1 + p2, a1 + d1 + c, a2);
    lemma_contains_prefix(HTML_HEAD@ + HTML_STYLE@ + HTML_HERO@ + p1 + a1 + d1 + p2 + a2, a1 + d1 + c, d2);
    lemma_contains_prefix(HTML_HEAD@ + HTML_STYLE@ + HTML_HERO@ + p1 + a1 + d1 + p2 + a2 + d2, a1 + d1 + c, p3);
    lemma_contains_prefix(HTML_HEAD@ + HTML_STYLE@ + HTML_HERO@ + p1 + a1 + d1 + p2 + a2 + d2 + p3, a1 + d1 + c, a3);
    lemma_contains_prefix(HTML_HEAD@ + HTML_STYLE@ + HTML_HERO@ + p1 + a1 + d1 + p2 + a2 + d2 + p3 + a3, a1 + d1 + c, d3);
    lemma_contains_prefix(HTML_HEAD@ + HTML_STYLE@ + HTML_HERO@ + p1 + a1 + d1 + p2 + a2 + d2 + p3 + a3 + d3, a1 + d1 + c, p4);
    lemma_contains_prefix(HTML_HEAD@ + HTML_STYLE@ + HTML_HERO@ + p1 + a1 + d1 + p2 + a2 + d2 + p3 + a3 + d3 + p4, a1 + d1 + c, a4);
    lemma_contains_prefix(HTML_HEAD@ + HTML_STYLE@ + HTML_HERO@ + p1 + a1 + d1 + p2 + a2 + d2 + p3 + a3 + d3 + p4 + a4, a1 + d1 + c, d4);
    lemma_contains_prefix(HTML_HEAD@ + HTML_STYLE@ + HTML_HERO@ + p1 + a1 + d1 + p2 + a2 + d2 + p3 + a3 + d3 + p4 + a4 + d4, a1 + d1 + c, p5);
    lemma_contains_prefix(HTML_HEAD@ + HTML_STYLE@ + HTML_HERO@ + p1 + a1 + d1 + p2 + a2 + d2 + p3 + a3 + d3 + p4 + a4 + d4 + p5, a1 + d1 + c, a5);
    lemma_contains_prefix(HTML_HEAD@ + HTML_STYLE@ + HTML_HERO@ + p1 + a1 + d1 + p2 + a2 + d2 + p3 + a3 + d3 + p4 + a4 + d4 + p5 + a5, a1 + d1 + c, d5);
    lemma_contains_prefix(HTML_HEAD@ + HTML_STYLE@ + HTML_HERO@ + p1 + a1 + d1 + p2 + a2 + d2 + p3 + a3 + d3 + p4 + a4 + d4 + p5 + a5 + d5, a1 + d1 + c, p6);
    lemma_contains_prefix(HTML_HEAD@ + HTML_STYLE@ + HTML_HERO@ + p1 + a1 + d1 + p2 + a2 + d2 + p3 + a3 + d3 + p4 + a4 + d4 + p5 + a5 + d5 + p6, a1 + d1 + c, a6);
    lemma_contains_prefix(HTML_HEAD@ + HTML_STYLE@ + HTML_HERO@ + p1 + a1 + d1 + p2 + a2 + d2 + p3 + a3 + d3 + p4 + a4 + d4 + p5 + a5 + d5 + p6 + a6, a1 + d1 + c, d6);
    lemma_contains_prefix(HTML_HEAD@ + HTML_STYLE@ + HTML_HERO@ + p1 + a1 + d1 + p2 + a2 + d2 + p3 + a3 + d3 + p4 + a4 + d4 + p5 + a5 + d5 + p6 + a6 + d6, a1 + d1 + c, t);
    lemma_contains_prefix(HTML_HEAD@ + HTML_STYLE@ + HTML_HERO@ + p1 + a1 + d1 + p2 + a2 + d2 + p3 + a3 + d3 + p4 + a4 + d4 + p5 + a5 + d5 + p6 + a6 + d6 + t, a1 + d1 + c, e1);
    lemma_contains_prefix(HTML_HEAD@ + HTML_STYLE@ + HTML_HERO@ + p1 + a1 + d1 + p2 + a2 + d2 + p3 + a3 + d3 + p4 + a4 + d4 + p5 + a5 + d5 + p6 + a6 + d6 + t + e1, a1 + d1 + c, u);
    lemma_contains_prefix(HTML_HEAD@ + HTML_STYLE@ + HTML_HERO@ + p1 + a1 + d1 + p2 + a2 + d2 + p3 + a3 + d3 + p4 + a4 + d4 + p5 + a5 + d5 + p6 + a6 + d6 + t + e1 + u, a1 + d1 + c, e2);
    lemma_contains_prefix(HTML_HEAD@ + HTML_STYLE@ + HTML_HERO@ + p1 + a1 + d1 + p2 + a2 + d2 + p3 + a3 + d3 + p4 + a4 + d4 + p5 + a5 + d5 + p6 + a6 + d6 + t + e1 + u + e2, a1 + d1 + c, w);
    lemma_contains_prefix(h, a1 + d1 + c, files);
    lemma_contains_prefix(h + files, a1 + d1 + c, HTML_TAIL@);
    assert(p3.take(6) =~= c);
    lemma_piece_in(HTML_HEAD@ + HTML_STYLE@ + HTML_HERO@ + p1 + a1 + d1 + p2, a2, d2, c, p3);
    lemma_contains_prefix(HTML_HEAD@ + HTML_STYLE@ + HTML_HERO@ + p1 + a1 + d1 + p2 + a2 + d2 + p3, a2 + d2 + c, a3);
    lemma_contains_prefix(HTML_HEAD@ + HTML_STYLE@ + HTML_HERO@ + p1 + a1 + d1 + p2 + a2 + d2 + p3 + a3, a2 + d2 + c, d3);
    lemma_contains_prefix(HTML_HEAD@ + HTML_STYLE@ + HTML_HERO@ + p1 + a1 + d1 + p2 + a2 + d2 + p3 + a3 + d3, a2 + d2 + c, p4);
    lemma_contains_prefix(HTML_HEAD@ + HTML_STYLE@ + HTML_HERO@ + p1 + a1 + d1 + p2 + a2 + d2 + p3 + a3 + d3 + p4, a2 + d2 + c, a4);
    lemma_contains_prefix(HTML_HEAD@ + HTML_STYLE@ + HTML_HERO@ + p1 + a1 + d1 + p2 + a2 + d2 + p3 + a3 + d3 + p4 + a4, a2 + d2 + c, d4);
    lemma_contains_prefix(HTML_HEAD@ + HTML_STYLE@ + HTML_HERO@ + p1 + a1 + d1 + p2 + a2 + d2 + p3 + a3 + d3 + p4 + a4 + d4, a2 + d2 + c, p5);
    lemma_contains_prefix(HTML_HEAD@ + HTML_STYLE@ + HTML_HERO@ + p1 + a1 + d1 + p2 + a2 + d2 + p3 + a3 + d3 + p4 + a4 + d4 + p5, a2 + d2 + c, a5);
    lemma_contains_prefix(HTML_HEAD@ + HTML_STYLE@ + HTML_HERO@ + p1 + a1 + d1 + p2 + a2 + d2 + p3 + a3 + d3 + p4 + a4 + d4 + p5 + a5, a2 + d2 + c, d5);
    lemma_contains_prefix(HTML_HEAD@ + HTML_STYLE@ + HTML_HERO@ + p1 + a1 + d1 + p2 + a2 + d2 + p3 + a3 + d3 + p4 + a4 + d4 + p5 + a5 + d5, a2 + d2 + c, p6);
    lemma_contains_prefix(HTML_HEAD@ + HTML_STYLE@ + HTML_HERO@ + p1 + a1 + d1 + p2 + a2 + d2 + p3 + a3 + d3 + p4 + a4 + d4 + p5 + a5 + d5 + p6, a2 + d2 + c, a6);
    lemma_contains_prefix(HTML_HEAD@ + HTML_STYLE@ + HTML_HERO@ + p1 + a1 + d1 + p2 + a2 + d2 + p3 + a3 + d3 + p4 + a4 + d4 + p5 + a5 + d5 + p6 + a6, a2 + d2 + c, d6);
    lemma_contains_prefix(HTML_HEAD@ + HTML_STYLE@ + HTML_HERO@ + p1 + a1 + d1 + p2 + a2 + d2 + p3 + a3 + d3 + p4 + a4 + d4 + p5 + a5 + d5 + p6 + a6 + d6, a2 + d2 + c, t);
    lemma_contains_prefix(HTML_HEAD@ + HTML_STYLE@ + HTML_HERO@ + p1 + a1 + d1 + p2 + a2 + d2 + p3 + a3 + d3 + p4 + a4 + d4 + p5 + a5 + d5 + p6 + a6 + d6 + t, a2 + d2 + c, e1);
    lemma_contains_prefix(HTML_HEAD@ + HTML_STYLE@ + HTML_HERO@ + p1 + a1 + d1 + p2 + a2 + d2 + p3 + a3 + d3 + p4 + a4 + d4 + p5 + a5 + d5 + p6 + a6 + d6 + t + e1, a2 + d2 + c, u);
    lemma_contains_prefix(HTML_HEAD@ + HTML_STYLE@ + HTML_HERO@ + p1 + a1 + d1 + p2 + a2 + d2 + p3 + a3 + d3 + p4 + a4 + d4 + p5 + a5 + d5 + p6 + a6 + d6 + t + e1 + u, a2 + d2 + c, e2);
    lemma_contains_prefix(HTML_HEAD@ + HTML_STYLE@ + HTML_HERO@ + p1 + a1 + d1 + p2 + a2 + d2 + p3 + a3 + d3 + p4 + a4 + d4 + p5 + a5 + d5 + p6 + a6 + d6 + t + e1 + u + e2, a2 + d2 + c, w);
    lemma_contains_prefix(h, a2 + d2 + c, files);
    lemma_contains_prefix(h + files, a2 + d2 + c, HTML_TAIL@);
    assert(p4.take(6) =~= c);
    lemma_piece_in(HTML_HEAD@ + HTML_STYLE@ + HTML_HERO@ + p1 + a1 + d1 + p2 + a2 + d2 + p3, a3, d3, c, p4);
    lemma_contains_prefix(HTML_HEAD@ + HTML_STYLE@ + HTML_HERO@ + p1 + a1 + d1 + p2 + a2 + d2 + p3 + a3 + d3 + p4, a3 + d3 + c, a4);
    lemma_contains_prefix(HTML_HEAD@ + HTML_STYLE@ + HTML_HERO@ + p1 + a1 + d1 + p2 + a2 + d2 + p3 + a3 + d3 + p4 + a4, a3 + d3 + c, d4);
    lemma_contains_prefix(HTML_HEAD@ + HTML_STYLE@ + HTML_HERO@ + p1 + a1 + d1 + p2 + a2 + d2 + p3 + a3 + d3 + p4 + a4 + d4, a3 + d3 + c, p5);
    lemma_contains_prefix(HTML_HEAD@ + HTML_STYLE@ + HTML_HERO@ + p1 + a1 + d1 + p2 + a2 + d2 + p3 + a3 + d3 + p4 + a4 + d4 + p5, a3 + d3 + c, a5);
    lemma_contains_prefix(HTML_HEAD@ + HTML_STYLE@ + HTML_HERO@ + p1 + a1 + d1 + p2 + a2 + d2 + p3 + a3 + d3 + p4 + a4 + d4 + p5 + a5, a3 + d3 + c, d5);
    lemma_contains_prefix(HTML_HEAD@ + HTML_STYLE@ + HTML_HERO@ + p1 + a1 + d1 + p2 + a2 + d2 + p3 + a3 + d3 + p4 + a4 + d4 + p5 + a5 + d5, a3 + d3 + c, p6);
    lemma_contains_prefix(HTML_HEAD@ + HTML_STYLE@ + HTML_HERO@ + p1 + a1 + d1 + p2 + a2 + d2 + p3 + a3 + d3 + p4 + a4 + d4 + p5 + a5 + d5 + p6, a3 + d3 + c, a6);
    lemma_contains_prefix(HTML_HEAD@ + HTML_STYLE@ + HTML_HERO@ + p1 + a1 + d1 + p2 + a2 + d2 + p3 + a3 + d3 + p4 + a4 + d4 + p5 + a5 + d5 + p6 + a6, a3 + d3 + c, d6);
    lemma_contains_prefix(HTML_HEAD@ + HTML_STYLE@ + HTML_HERO@ + p1 + a1 + d1 + p2 + a2 + d2 + p3 + a3 + d3 + p4 + a4 + d4 + p5 + a5 + d5 + p6 + a6 + d6, a3 + d3 + c, t);
    lemma_contains_prefix(HTML_HEAD@ + HTML_STYLE@ + HTML_HERO@ + p1 + a1 + d1 + p2 + a2 + d2 + p3 + a3 + d3 + p4 + a4 + d4 + p5 + a5 + d5 + p6 + a6 + d6 + t, a3 + d3 + c, e1);
    lemma_contains_prefix(HTML_HEAD@ + HTML_STYLE@ + HTML_HERO@ + p1 + a1 + d1 + p2 + a2 + d2 + p3 + a3 + d3 + p4 + a4 + d4 + p5 + a5 + d5 + p6 + a6 + d6 + t + e1, a3 + d3 + c, u);
    lemma_contains_prefix(HTML_HEAD@ + HTML_STYLE@ + HTML_HERO@ + p1 + a1 + d1 + p2 + a2 + d2 + p3 + a3 + d3 + p4 + a4 + d4 + p5 + a5 + d5 + p6 + a6 + d6 + t + e1 + u, a3 + d3 + c, e2);
    lemma_contains_prefix(HTML_HEAD@ + HTML_STYLE@ + HTML_HERO@ + p1 + a1 + d1 + p2 + a2 + d2 + p3 + a3 + d3 + p4 + a4 + d4 + p5 + a5 + d5 + p6 + a6 + d6 + t + e1 + u + e2, a3 + d3 + c, w);
    lemma_contains_prefix(h, a3 + d3 + c, files);
    lemma_contains_prefix(h + files, a3 + d3 + c, HTML_TAIL@);
    assert(p5.take(6) =~= c);
    lemma_piece_in(HTML_HEAD@ + HTML_STYLE@ + HTML_HERO@ + p1 + a1 + d1 + p2 + a2 + d2 + p3 + a3 + d3 + p4, a4, d4, c, p5);
    lemma_contains_prefix(HTML_HEAD@ + HTML_STYLE@ + HTML_HERO@ + p1 + a1 + d1 + p2 + a2 + d2 + p3 + a3 + d3 + p4 + a4 + d4 + p5, a4 + d4 + c, a5);
    lemma_contains_prefix(HTML_HEAD@ + HTML_STYLE@ + HTML_HERO@ + p1 + a1 + d1 + p2 + a2 + d2 + p3 + a3 + d3 + p4 + a4 + d4 + p5 + a5, a4 + d4 + c, d5);
    lemma_contains_prefix(HTML_HEAD@ + HTML_STYLE@ + HTML_HERO@ + p1 + a1 + d1 + p2 + a2 + d2 + p3 + a3 + d3 + p4 + a4 + d4 + p5 + a5 + d5, a4 + d4 + c, p6);
    lemma_contains_prefix(HTML_HEAD@ + HTML_STYLE@ + HTML_HERO@ + p1 + a1 + d1 + p2 + a2 + d2 + p3 + a3 + d3 + p4 + a4 + d4 + p5 + a5 + d5 + p6, a4 + d4 + c, a6);
    lemma_contains_prefix(HTML_HEAD@ + HTML_STYLE@ + HTML_HERO@ + p1 + a1 + d1 + p2 + a2 + d2 + p3 + a3 + d3 + p4 + a4 + d4 + p5 + a5 + d5 + p6 + a6, a4 + d4 + c, d6);
    lemma_contains_prefix(HTML_HEAD@ + HTML_STYLE@ + HTML_HERO@ + p1 + a1 + d1 + p2 + a2 + d2 + p3 + a3 + d3 + p4 + a4 + d4 + p5 + a5 + d5 + p6 + a6 + d6, a4 + d4 + c, t);
    lemma_contains_prefix(HTML_HEAD@ + HTML_STYLE@ + HTML_HERO@ + p1 + a1 + d1 + p2 + a2 + d2 + p3 + a3 + d3 + p4 + a4 + d4 + p5 + a5 + d5 + p6 + a6 + d6 + t, a4 + d4 + c, e1);
    lemma_contains_prefix(HTML_HEAD@ + HTML_STYLE@ + HTML_HERO@ + p1 + a1 + d1 + p2 + a2 + d2 + p3 + a3 + d3 + p4 + a4 + d4 + p5 + a5 + d5 + p6 + a6 + d6 + t + e1, a4 + d4 + c, u);
    lemma_contains_prefix(HTML_HEAD@ + HTML_STYLE@ + HTML_HERO@ + p1 + a1 + d1 + p2 + a2 + d2 + p3 + a3 + d3 + p4 + a4 + d4 + p5 + a5 + d5 + p6 + a6 + d6 + t + e1 + u, a4 + d4 + c, e2);
    lemma_contains_prefix(HTML_HEAD@ + HTML_STYLE@ + HTML_HERO@ + p1 + a1 + d1 + p2 + a2 + d2 + p3 + a3 + d3 + p4 + a4 + d4 + p5 + a5 + d5 + p6 + a6 + d6 + t + e1 + u + e2, a4 + d4 + c, w);
    lemma_contains_prefix(h, a4 + d4 + c, files);
    lemma_contains_prefix(h + files, a4 + d4 + c, HTML_TAIL@);
    assert(p6.take(6) =~= c);
    lemma_piece_in(HTML_HEAD@ + HTML_STYLE@ + HTML_HERO@ + p1 + a1 + d1 + p2 + a2 + d2 + p3 + a3 + d3 + p4 + a4 + d4 + p5, a5, d5, c, p6);
    lemma_contains_prefix(HTML_HEAD@ + HTML_STYLE@ + HTML_HERO@ + p1 + a1 + d1 + p2 + a2 + d2 + p3 + a3 + d3 + p4 + a4 + d4 + p5 + a5 + d5 + p6, a5 + d5 + c, a6);
    lemma_contains_prefix(HTML_HEAD@ + HTML_STYLE@ + HTML_HERO@ + p1 + a1 + d1 + p2 + a2 + d2 + p3 + a3 + d3 + p4 + a4 + d4 + p5 + a5 + d5 + p6 + a6, a5 + d5 + c, d6);
    lemma_contains_prefix(HTML_HEAD@ + HTML_STYLE@ + HTML_HERO@ + p1 + a1 + d1 + p2 + a2 + d2 + p3 + a3 + d3 + p4 + a4 + d4 + p5 + a5 + d5 + p6 + a6 + d6, a5 + d5 + c, t);
    lemma_contains_prefix(HTML_HEAD@ + HTML_STYLE@ + HTML_HERO@ + p1 + a1 + d1 + p2 + a2 + d2 + p3 + a3 + d3 + p4 + a4 + d4 + p5 + a5 + d5 + p6 + a6 + d6 + t, a5 + d5 + c, e1);
    lemma_contains_prefix(HTML_HEAD@ + HTML_STYLE@ + HTML_HERO@ + p1 + a1 + d1 + p2 + a2 + d2 + p3 + a3 + d3 + p4 + a4 + d4 + p5 + a5 + d5 + p6 + a6 + d6 + t + e1, a5 + d5 + c, u);
    lemma_contains_prefix(HTML_HEAD@ + HTML_STYLE@ + HTML_HERO@ + p1 + a1 + d1 + p2 + a2 + d2 + p3 + a3 + d3 + p4 + a4 + d4 + p5 + a5 + d5 + p6 + a6 + d6 + t + e1 + u, a5 + d5 + c, e2);
    lemma_contains_prefix(HTML_HEAD@ + HTML_STYLE@ + HTML_HERO@ + p1 + a1 + d1 + p2 + a2 + d2 + p3 + a3 + d3 + p4 + a4 + d4 + p5 + a5 + d5 + p6 + a6 + d6 + t + e1 + u + e2, a5 + d5 + c, w);
    lemma_contains_prefix(h, a5 + d5 + c, files);
    lemma_contains_prefix(h + files, a5 + d5 + c, HTML_TAIL@);
    assert(t.take(6) =~= c);
    lemma_piece_in(HTML_HEAD@ + HTML_STYLE@ + HTML_HERO@ + p1 + a1 + d1 + p2 + a2 + d2 + p3 + a3 + d3 + p4 + a4 + d4 + p5 + a5 + d5 + p6, a6, d6, c, t);
    lemma_contains_prefix(HTML_HEAD@ + HTML_STYLE@ + HTML_HERO@ + p1 + a1 + d1 + p2 + a2 + d2 + p3 + a3 + d3 + p4 + a4 + d4 + p5 + a5 + d5 + p6 + a6 + d6 + t, a6 + d6 + c, e1);
    lemma_contains_prefix(HTML_HEAD@ + HTML_STYLE@ + HTML_HERO@ + p1 + a1 + d1 + p2 + a2 + d2 + p3 + a3 + d3 + p4 + a4 + d4 + p5 + a5 + d5 + p6 + a6 + d6 + t + e1, a6 + d6 + c, u);
    lemma_contains_prefix(HTML_HEAD@ + HTML_STYLE@ + HTML_HERO@ + p1 + a1 + d1 + p2 + a2 + d2 + p3 + a3 + d3 + p4 + a4 + d4 + p5 + a5 + d5 + p6 + a6 + d6 + t + e1 + u, a6 + d6 + c, e2);
    lemma_contains_prefix(HTML_HEAD@ + HTML_STYLE@ + HTML_HERO@ + p1 + a1 + d1 + p2 + a2 + d2 + p3 + a3 + d3 + p4 + a4 + d4 + p5 + a5 + d5 + p6 + a6 + d6 + t + e1 + u + e2, a6 + d6 + c, w);
    lemma_contains_prefix(h, a6 + d6 + c, files);
    lemma_contains_prefix(h + files, a6 + d6 + c, HTML_TAIL@);
}

/// `p` occurs in `x + p + y`.
proof fn lemma_contains_mid(x: Seq<char>, p: Seq<char>, y: Seq<char>)
    ensures
        contains(x + p + y, p),
{
    assert((x + p + y).subrange(x.len() as int, x.len() + p.len() as int) =~= p);
    assert(matches_at(x + p + y, p, x.len() as int));
}

/// A metric box shows its label and its value.
proof fn lemma_metric_box_shows(label: Seq<char>, v: nat)
    ensures
        contains(
            metric_box_text(label, v),
            "<strong>"@ + label + "</strong><span>"@ + decimal(v) + "</span>"@,
        ),
{
    let pre = "          <div class=\"metric-box\">"@;
    let open = "<strong>"@;
    let mid = "</strong><span>"@;
    let close = "</span>"@;
    let after = "</div>\n"@;
    reveal_strlit("          <div class=\"metric-box\"><strong>");
    reveal_strlit("          <div class=\"metric-box\">");
    reveal_strlit("<strong>");
    reveal_strlit("</span></div>\n");
    reveal_strlit("</span>");
    reveal_strlit("</div>\n");
    assert("          <div class=\"metric-box\"><strong>"@ =~= pre + open);
    assert("</span></div>\n"@ =~= close + after);
    let p = open + label + mid + decimal(v) + close;
    assert(metric_box_text(label, v) =~= pre + p + after);
    lemma_contains_mid(pre, p, after);
}

proof fn lemma_html_files_contain(items: Seq<FileReportView>, k: int, p: Seq<char>)
    requires
        0 <= k < items.len(),
        contains(html_file(items[k]), p),
    ensures
        contains(html_files(items), p),
    decreases items.len(),
{
    if k < items.len() - 1 {
        lemma_html_files_contain(items.drop_last(), k, p);
        lemma_contains_prefix(html_files(items.drop_last()), p, html_file(items.last()));
    } else {
        lemma_contains_suffix(html_files(items.drop_last()), html_file(items.last()), p);
    }
}

proof fn lemma_card_in_report(r: AnalysisReportView, k: int, p: Seq<char>)
    requires
        0 <= k < r.files.len(),
        contains(html_file(r.files[k]), p),
    ensures
        contains(html_report(r), p),
{
    let h = html_head(r, visible_total(r.files));
    lemma_html_files_contain(r.files, k, p);
    lemma_contains_suffix(h, html_files(r.files), p);
    lemma_contains_prefix(h + html_files(r.files), p, HTML_TAIL@);
}

/// In the HTML report, the card of each file shows its number of findings
/// shown in its badge, and each of its figures in the box labelled with its
/// name: lines, code, comment and blank lines, functions and nesting depth.
pub proof fn law_html_report_file_figures(r: AnalysisReportView, k: int)
    requires
        0 <= k < r.files.len(),
    ensures
        ({
            let f = r.files[k];
            &&& contains(
                html_report(r),
                "<div class=\"badge\">"@ + decimal(visible_only(f.issues).len()) + " 个问题</div>"@,
            )
            &&& contains(
                html_report(r),
                "<strong>"@ + "总行数"@ + "</strong><span>"@ + decimal(f.metrics.total_lines) + "</span>"@,
            )
            &&& contains(
                html_report(r),
                "<strong>"@ + "代码行"@ + "</strong><span>"@ + decimal(f.metrics.code_lines) + "</span>"@,
            )
            &&& contains(
                html_report(r),
                "<strong>"@ + "注释行"@ + "</strong><span>"@ + decimal(f.metrics.comment_lines) + "</span>"@,
            )
            &&& contains(
                html_report(r),
                "<strong>"@ + "空白行"@ + "</strong><span>"@ + decimal(f.metrics.blank_lines) + "</span>"@,
            )
            &&& contains(
                html_report(r),
                "<strong>"@ + "函数数"@ + "</strong><span>"@ + decimal(f.metrics.function_count) + "</span>"@,
            )
            &&& contains(
                html_report(r),
                "<strong>"@ + "最大嵌套"@ + "</strong><span>"@ + decimal(f.metrics.max_nesting_depth) + "</span>"@,
            )
        }),
{
    let f = r.files[k];
    let f0 = "      <article class=\"file-card\">\n        <div class=\"file-header\">\n          <h2 class=\"file-title\">"@;
    let e0 = escape_text(f.path);
    let q = "</h2>\n          "@;
    let a = "<div class=\"badge\">"@;
    reveal_strlit("</h2>\n          <div class=\"badge\">");
    reveal_strlit("</h2>\n          ");
    reveal_strlit("<div class=\"badge\">");
    assert("</h2>\n          <div class=\"badge\">"@ =~= q + a);
    let d = decimal(visible_only(f.issues).len());
    let f2 = " 个问题</div>\n        </div>\n        <div class=\"metric-row\">\n"@;
    let t = " 个问题</div>"@;
    reveal_strlit(" 个问题</div>\n        </div>\n        <div class=\"metric-row\">\n");
    reveal_strlit(" 个问题</div>");
    assert(f2.take(t.len() as int) =~= t);
    let m1 = metric_box_text("总行数"@, f.metrics.total_lines);
    let m2 = metric_box_text("代码行"@, f.metrics.code_lines);
    let m3 = metric_box_text("注释行"@, f.metrics.comment_lines);
    let m4 = metric_box_text("空白行"@, f.metrics.blank_lines);
    let m5 = metric_box_text("函数数"@, f.metrics.function_count);
    let m6 = metric_box_text("最大嵌套"@, f.metrics.max_nesting_depth);
    let f3 = "        </div>\n        <div class=\"functions\">\n          <h2 class=\"section-title\">函数信息</h2>\n"@;
    let s1 = html_function_section(f.metrics.functions);
    let f4 = "        </div>\n        <div class=\"issues\">\n          <h2 class=\"section-title\">问题详情</h2>\n"@;
    let s2 = html_issue_section(visible_only(f.issues));
    let f5 = "        </div>\n      </article>\n"@;
    assert(html_file(f) =~= f0 + e0 + q + a + d + f2 + m1 + m2 + m3 + m4 + m5 + m6 + f3 + s1 + f4 + s2 + f5);
    lemma_piece_in(f0 + e0 + q, a, d, t, f2);
    lemma_contains_prefix(f0 + e0 + q + a + d + f2, a + d + t, m1);
    lemma_contains_prefix(f0 + e0 + q + a + d + f2 + m1, a + d + t, m2);
    lemma_contains_prefix(f0 + e0 + q + a + d + f2 + m1 + m2, a + d + t, m3);
    lemma_contains_prefix(f0 + e0 + q + a + d + f2 + m1 + m2 + m3, a + d + t, m4);
    lemma_contains_prefix(f0 + e0 + q + a + d + f2 + m1 + m2 + m3 + m4, a + d + t, m5);
    lemma_contains_prefix(f0 + e0 + q + a + d + f2 + m1 + m2 + m3 + m4 + m5, a + d + t, m6);
    lemma_contains_prefix(f0 + e0 + q + a + d + f2 + m1 + m2 + m3 + m4 + m5 + m6, a + d + t, f3);
    lemma_contains_prefix(f0 + e0 + q + a + d + f2 + m1 + m2 + m3 + m4 + m5 + m6 + f3, a + d + t, s1);
    lemma_contains_prefix(f0 + e0 + q + a + d + f2 + m1 + m2 + m3 + m4 + m5 + m6 + f3 + s1, a + d + t, f4);
    lemma_contains_prefix(f0 + e0 + q + a + d + f2 + m1 + m2 + m3 + m4 + m5 + m6 + f3 + s1 + f4, a + d + t, s2);
    lemma_contains_prefix(f0 + e0 + q + a + d + f2 + m1 + m2 + m3 + m4 + m5 + m6 + f3 + s1 + f4 + s2, a + d + t, f5);
    lemma_card_in_report(r, k, a + d + t);
    lemma_metric_box_shows("总行数"@, f.metrics.total_lines);
    lemma_contains_suffix(f0 + e0 + q + a + d + f2, m1, "<strong>"@ + "总行数"@ + "</strong><span>"@ + decimal(f.metrics.total_lines) + "</span>"@);
    lemma_contains_prefix(f0 + e0 + q + a + d + f2 + m1, "<strong>"@ + "总行数"@ + "</strong><span>"@ + decimal(f.metrics.total_lines) + "</span>"@, m2);
    lemma_contains_prefix(f0 + e0 + q + a + d + f2 + m1 + m2, "<strong>"@ + "总行数"@ + "</strong><span>"@ + decimal(f.metrics.total_lines) + "</span>"@, m3);
    lemma_contains_prefix(f0 + e0 + q + a + d + f2 + m1 + m2 + m3, "<strong>"@ + "总行数"@ + "</strong><span>"@ + decimal(f.metrics.total_lines) + "</span>"@, m4);
    lemma_contains_prefix(f0 + e0 + q + a + d + f2 + m1 + m2 + m3 + m4, "<strong>"@ + "总行数"@ + "</strong><span>"@ + decimal(f.metrics.total_lines) + "</span>"@, m5);
    lemma_contains_prefix(f0 + e0 + q + a + d + f2 + m1 + m2 + m3 + m4 + m5, "<strong>"@ + "总行数"@ + "</strong><span>"@ + decimal(f.metrics.total_lines) + "</span>"@, m6);
    lemma_contains_prefix(f0 + e0 + q + a + d + f2 + m1 + m2 + m3 + m4 + m5 + m6, "<strong>"@ + "总行数"@ + "</strong><span>"@ + decimal(f.metrics.total_lines) + "</span>"@, f3);
    lemma_contains_prefix(f0 + e0 + q + a + d + f2 + m1 + m2 + m3 + m4 + m5 + m6 + f3, "<strong>"@ + "总行数"@ + "</strong><span>"@ + decimal(f.metrics.total_lines) + "</span>"@, s1);
    lemma_contains_prefix(f0 + e0 + q + a + d + f2 + m1 + m2 + m3 + m4 + m5 + m6 + f3 + s1, "<strong>"@ + "总行数"@ + "</strong><span>"@ + decimal(f.metrics.total_lines) + "</span>"@, f4);
    lemma_contains_prefix(f0 + e0 + q + a + d + f2 + m1 + m2 + m3 + m4 + m5 + m6 + f3 + s1 + f4, "<strong>"@ + "总行数"@ + "</strong><span>"@ + decimal(f.metrics.total_lines) + "</span>"@, s2);
    lemma_contains_prefix(f0 + e0 + q + a + d + f2 + m1 + m2 + m3 + m4 + m5 + m6 + f3 + s1 + f4 + s2, "<strong>"@ + "总行数"@ + "</strong><span>"@ + decimal(f.metrics.total_lines) + "</span>"@, f5);
    lemma_card_in_report(r, k, "<strong>"@ + "总行数"@ + "</strong><span>"@ + decimal(f.metrics.total_lines) + "</span>"@);
    lemma_metric_box_shows("代码行"@, f.metrics.code_lines);
    lemma_contains_suffix(f0 + e0 + q + a + d + f2 + m1, m2, "<strong>"@ + "代码行"@ + "</strong><span>"@ + decimal(f.metrics.code_lines) + "</span>"@);
    lemma_contains_prefix(f0 + e0 + q + a + d + f2 + m1 + m2, "<strong>"@ + "代码行"@ + "</strong><span>"@ + decimal(f.metrics.code_lines) + "</span>"@, m3);
    lemma_contains_prefix(f0 + e0 + q + a + d + f2 + m1 + m2 + m3, "<strong>"@ + "代码行"@ + "</strong><span>"@ + decimal(f.metrics.code_lines) + "</span>"@, m4);
    lemma_contains_prefix(f0 + e0 + q + a + d + f2 + m1 + m2 + m3 + m4, "<strong>"@ + "代码行"@ + "</strong><span>"@ + decimal(f.metrics.code_lines) + "</span>"@, m5);
    lemma_contains_prefix(f0 + e0 + q + a + d + f2 + m1 + m2 + m3 + m4 + m5, "<strong>"@ + "代码行"@ + "</strong><span>"@ + decimal(f.metrics.code_lines) + "</span>"@, m6);
    lemma_contains_prefix(f0 + e0 + q + a + d + f2 + m1 + m2 + m3 + m4 + m5 + m6, "<strong>"@ + "代码行"@ + "</strong><span>"@ + decimal(f.metrics.code_lines) + "</span>"@, f3);
    lemma_contains_prefix(f0 + e0 + q + a + d + f2 + m1 + m2 + m3 + m4 + m5 + m6 + f3, "<strong>"@ + "代码行"@ + "</strong><span>"@ + decimal(f.metrics.code_lines) + "</span>"@, s1);
    lemma_contains_prefix(f0 + e0 + q + a + d + f2 + m1 + m2 + m3 + m4 + m5 + m6 + f3 + s1, "<strong>"@ + "代码行"@ + "</strong><span>"@ + decimal(f.metrics.code_lines) + "</span>"@, f4);
    lemma_contains_prefix(f0 + e0 + q + a + d + f2 + m1 + m2 + m3 + m4 + m5 + m6 + f3 + s1 + f4, "<strong>"@ + "代码行"@ + "</strong><span>"@ + decimal(f.metrics.code_lines) + "</span>"@, s2);
    lemma_contains_prefix(f0 + e0 + q + a + d + f2 + m1 + m2 + m3 + m4 + m5 + m6 + f3 + s1 + f4 + s2, "<strong>"@ + "代码行"@ + "</strong><span>"@ + decimal(f.metrics.code_lines) + "</span>"@, f5);
    lemma_card_in_report(r, k, "<strong>"@ + "代码行"@ + "</strong><span>"@ + decimal(f.metrics.code_lines) + "</span>"@);
    lemma_metric_box_shows("注释行"@, f.metrics.comment_lines);
    lemma_contains_suffix(f0 + e0 + q + a + d + f2 + m1 + m2, m3, "<strong>"@ + "注释行"@ + "</strong><span>"@ + decimal(f.metrics.comment_lines) + "</span>"@);
    lemma_contains_prefix(f0 + e0 + q + a + d + f2 + m1 + m2 + m3, "<strong>"@ + "注释行"@ + "</strong><span>"@ + decimal(f.metrics.comment_lines) + "</span>"@, m4);
    lemma_contains_prefix(f0 + e0 + q + a + d + f2 + m1 + m2 + m3 + m4, "<strong>"@ + "注释行"@ + "</strong><span>"@ + decimal(f.metrics.comment_lines) + "</span>"@, m5);
    lemma_contains_prefix(f0 + e0 + q + a + d + f2 + m1 + m2 + m3 + m4 + m5, "<strong>"@ + "注释行"@ + "</strong><span>"@ + decimal(f.metrics.comment_lines) + "</span>"@, m6);
    lemma_contains_prefix(f0 + e0 + q + a + d + f2 + m1 + m2 + m3 + m4 + m5 + m6, "<strong>"@ + "注释行"@ + "</strong><span>"@ + decimal(f.metrics.comment_lines) + "</span>"@, f3);
    lemma_contains_prefix(f0 + e0 + q + a + d + f2 + m1 + m2 + m3 + m4 + m5 + m6 + f3, "<strong>"@ + "注释行"@ + "</strong><span>"@ + decimal(f.metrics.comment_lines) + "</span>"@, s1);
    lemma_contains_prefix(f0 + e0 + q + a + d + f2 + m1 + m2 + m3 + m4 + m5 + m6 + f3 + s1, "<strong>"@ + "注释行"@ + "</strong><span>"@ + decimal(f.metrics.comment_lines) + "</span>"@, f4);
    lemma_contains_prefix(f0 + e0 + q + a + d + f2 + m1 + m2 + m3 + m4 + m5 + m6 + f3 + s1 + f4, "<strong>"@ + "注释行"@ + "</strong><span>"@ + decimal(f.metrics.comment_lines) + "</span>"@, s2);
    lemma_contains_prefix(f0 + e0 + q + a + d + f2 + m1 + m2 + m3 + m4 + m5 + m6 + f3 + s1 + f4 + s2, "<strong>"@ + "注释行"@ + "</strong><span>"@ + decimal(f.metrics.comment_lines) + "</span>"@, f5);
    lemma_card_in_report(r, k, "<strong>"@ + "注释行"@ + "</strong><span>"@ + decimal(f.metrics.comment_lines) + "</span>"@);
    lemma_metric_box_shows("空白行"@, f.metrics.blank_lines);
    lemma_contains_suffix(f0 + e0 + q + a + d + f2 + m1 + m2 + m3, m4, "<strong>"@ + "空白行"@ + "</strong><span>"@ + decimal(f.metrics.blank_lines) + "</span>"@);
    lemma_contains_prefix(f0 + e0 + q + a + d + f2 + m1 + m2 + m3 + m4, "<strong>"@ + "空白行"@ + "</strong><span>"@ + decimal(f.metrics.blank_lines) + "</span>"@, m5);
    lemma_contains_prefix(f0 + e0 + q + a + d + f2 + m1 + m2 + m3 + m4 + m5, "<strong>"@ + "空白行"@ + "</strong><span>"@ + decimal(f.metrics.blank_lines) + "</span>"@, m6);
    lemma_contains_prefix(f0 + e0 + q + a + d + f2 + m1 + m2 + m3 + m4 + m5 + m6, "<strong>"@ + "空白行"@ + "</strong><span>"@ + decimal(f.metrics.blank_lines) + "</span>"@, f3);
    lemma_contains_prefix(f0 + e0 + q + a + d + f2 + m1 + m2 + m3 + m4 + m5 + m6 + f3, "<strong>"@ + "空白行"@ + "</strong><span>"@ + decimal(f.metrics.blank_lines) + "</span>"@, s1);
    lemma_contains_prefix(f0 + e0 + q + a + d + f2 + m1 + m2 + m3 + m4 + m5 + m6 + f3 + s1, "<strong>"@ + "空白行"@ + "</strong><span>"@ + decimal(f.metrics.blank_lines) + "</span>"@, f4);
    lemma_contains_prefix(f0 + e0 + q + a + d + f2 + m1 + m2 + m3 + m4 + m5 + m6 + f3 + s1 + f4, "<strong>"@ + "空白行"@ + "</strong><span>"@ + decimal(f.metrics.blank_lines) + "</span>"@, s2);
    lemma_contains_prefix(f0 + e0 + q + a + d + f2 + m1 + m2 + m3 + m4 + m5 + m6 + f3 + s1 + f4 + s2, "<strong>"@ + "空白行"@ + "</strong><span>"@ + decimal(f.metrics.blank_lines) + "</span>"@, f5);
    lemma_card_in_report(r, k, "<strong>"@ + "空白行"@ + "</strong><span>"@ + decimal(f.metrics.blank_lines) + "</span>"@);
    lemma_metric_box_shows("函数数"@, f.metrics.function_count);
    lemma_contains_suffix(f0 + e0 + q + a + d + f2 + m1 + m2 + m3 + m4, m5, "<strong>"@ + "函数数"@ + "</strong><span>"@ + decimal(f.metrics.function_count) + "</span>"@);
    lemma_contains_prefix(f0 + e0 + q + a + d + f2 + m1 + m2 + m3 + m4 + m5, "<strong>"@ + "函数数"@ + "</strong><span>"@ + decimal(f.metrics.function_count) + "</span>"@, m6);
    lemma_contains_prefix(f0 + e0 + q + a + d + f2 + m1 + m2 + m3 + m4 + m5 + m6, "<strong>"@ + "函数数"@ + "</strong><span>"@ + decimal(f.metrics.function_count) + "</span>"@, f3);
    lemma_contains_prefix(f0 + e0 + q + a + d + f2 + m1 + m2 + m3 + m4 + m5 + m6 + f3, "<strong>"@ + "函数数"@ + "</strong><span>"@ + decimal(f.metrics.function_count) + "</span>"@, s1);
    lemma_contains_prefix(f0 + e0 + q + a + d + f2 + m1 + m2 + m3 + m4 + m5 + m6 + f3 + s1, "<strong>"@ + "函数数"@ + "</strong><span>"@ + decimal(f.metrics.function_count) + "</span>"@, f4);
    lemma_contains_prefix(f0 + e0 + q + a + d + f2 + m1 + m2 + m3 + m4 + m5 + m6 + f3 + s1 + f4, "<strong>"@ + "函数数"@ + "</strong><span>"@ + decimal(f.metrics.function_count) + "</span>"@, s2);
    lemma_contains_prefix(f0 + e0 + q + a + d + f2 + m1 + m2 + m3 + m4 + m5 + m6 + f3 + s1 + f4 + s2, "<strong>"@ + "函数数"@ + "</strong><span>"@ + decimal(f.metrics.function_count) + "</span>"@, f5);
    lemma_card_in_report(r, k, "<strong>"@ + "函数数"@ + "</strong><span>"@ + decimal(f.metrics.function_count) + "</span>"@);
    lemma_metric_box_shows("最大嵌套"@, f.metrics.max_nesting_depth);
    lemma_contains_suffix(f0 + e0 + q + a + d + f2 + m1 + m2 + m3 + m4 + m5, m6, "<strong>"@ + "最大嵌套"@ + "</strong><span>"@ + decimal(f.metrics.max_nesting_depth) + "</span>"@);
    lemma_contains_prefix(f0 + e0 + q + a + d + f2 + m1 + m2 + m3 + m4 + m5 + m6, "<strong>"@ + "最大嵌套"@ + "</strong><span>"@ + decimal(f.metrics.max_nesting_depth) + "</span>"@, f3);
    lemma_contains_prefix(f0 + e0 + q + a + d + f2 + m1 + m2 + m3 + m4 + m5 + m6 + f3, "<strong>"@ + "最大嵌套"@ + "</strong><span>"@ + decimal(f.metrics.max_nesting_depth) + "</span>"@, s1);
    lemma_contains_prefix(f0 + e0 + q + a + d + f2 + m1 + m2 + m3 + m4 + m5 + m6 + f3 + s1, "<strong>"@ + "最大嵌套"@ + "</strong><span>"@ + decimal(f.metrics.max_nesting_depth) + "</span>"@, f4);
    lemma_contains_prefix(f0 + e0 + q + a + d + f2 + m1 + m2 + m3 + m4 + m5 + m6 + f3 + s1 + f4, "<strong>"@ + "最大嵌套"@ + "</strong><span>"@ + decimal(f.metrics.max_nesting_depth) + "</span>"@, s2);
    lemma_contains_prefix(f0 + e0 + q + a + d + f2 + m1 + m2 + m3 + m4 + m5 + m6 + f3 + s1 + f4 + s2, "<strong>"@ + "最大嵌套"@ + "</strong><span>"@ + decimal(f.metrics.max_nesting_depth) + "</span>"@, f5);
    lemma_card_in_report(r, k, "<strong>"@ + "最大嵌套"@ + "</strong><span>"@ + decimal(f.metrics.max_nesting_depth) + "</span>"@);
}

// ---------------------------------------------------------------------------
// Entries of the lists
// ---------------------------------------------------------------------------

/// A text contains itself.
proof fn lemma_contains_self(p: Seq<char>)
    ensures
        contains(p, p),
{
    assert(p.subrange(0, p.len() as int) =~= p);
    assert(matches_at(p, p, 0));
}

proof fn lemma_severity_labels()
    ensures
        severity_label_text(severity_name(Severity::Error)) == "严重"@,
        severity_label_text(severity_name(Severity::Warning)) == "警告"@,
{
    reveal_strlit("Error");
    reveal_strlit("error");
    reveal_strlit("Warning");
    reveal_strlit("warning");
    assert(ascii_lower("Error"@) =~= "error"@);
    assert(ascii_lower("Warning"@) =~= "warning"@);
    assert(ascii_lower("Warning"@) != "error"@) by {
        assert(ascii_lower("Warning"@).len() != "error"@.len());
    }
}

proof fn lemma_text_functions_contain(items: Seq<FunctionInfoView>, m: int, p: Seq<char>)
    requires
        0 <= m < items.len(),
        contains(text_function(items[m]), p),
    ensures
        contains(text_functions(items), p),
    decreases items.len(),
{
    if m < items.len() - 1 {
        lemma_text_functions_contain(items.drop_last(), m, p);
        lemma_contains_prefix(text_functions(items.drop_last()), p, text_function(items.last()));
    } else {
        lemma_contains_suffix(text_functions(items.drop_last()), text_function(items.last()), p);
    }
}

proof fn lemma_text_issues_contain(items: Seq<IssueView>, m: int, p: Seq<char>)
    requires
        0 <= m < items.len(),
        contains(text_issue(items[m]), p),
    ensures
        contains(text_issues(items), p),
    decreases items.len(),
{
    if m < items.len() - 1 {
        lemma_text_issues_contain(items.drop_last(), m, p);
        lemma_contains_prefix(text_issues(items.drop_last()), p, text_issue(items.last()));
    } else {
        lemma_contains_suffix(text_issues(items.drop_last()), text_issue(items.last()), p);
    }
}

/// What the function list or the findings of a file's section contain, the
/// section contains.
proof fn lemma_sections_in_file(f: FileReportView, p: Seq<char>)
    requires
        contains(text_function_section(f.metrics.functions), p) || contains(
            text_issue_section(visible_only(f.issues)),
            p,
        ),
    ensures
        contains(text_file(f), p),
{
    let x = "文件: "@ + f.path + "\n  问题数: "@ + decimal(visible_only(f.issues).len())
        + "\n  总行数: "@ + decimal(f.metrics.total_lines) + "\n  代码行: "@ + decimal(
        f.metrics.code_lines,
    ) + "\n  注释行: "@ + decimal(f.metrics.comment_lines) + "\n  空白行: "@ + decimal(
        f.metrics.blank_lines,
    ) + "\n  函数数量: "@ + decimal(f.metrics.function_count) + "\n  最大嵌套深度: "@ + decimal(
        f.metrics.max_nesting_depth,
    ) + "\n"@;
    let s1 = text_function_section(f.metrics.functions);
    let s2 = text_issue_section(visible_only(f.issues));
    assert(text_file(f) == x + s1 + s2 + "\n"@);
    if contains(s1, p) {
        lemma_contains_suffix(x, s1, p);
        lemma_contains_prefix(x + s1, p, s2);
    } else {
        lemma_contains_suffix(x + s1, s2, p);
    }
    lemma_contains_prefix(x + s1 + s2, p, "\n"@);
}

/// In the text report, the section of each file lists each of its functions
/// with its name, first and last line, parameter count and length, and each
/// finding it shows with its label (严重 for an error, 警告 for a warning),
/// rule, line and message.
pub proof fn law_text_report_entries(r: AnalysisReportView, k: int, m: int)
    requires
        0 <= k < r.files.len(),
    ensures
        ({
            let f = r.files[k];
            let g = f.metrics.functions[m];
            0 <= m < f.metrics.functions.len() ==> contains(
                text_report(r),
                "    - "@ + g.name + " (第 "@ + decimal(g.start_line) + "-"@ + decimal(g.end_line)
                    + " 行, 参数 "@ + decimal(g.parameter_count) + ", 长度 "@ + decimal(
                    g.line_count,
                ) + " 行)\n"@,
            )
        }),
        ({
            let f = r.files[k];
            let i = visible_only(f.issues)[m];
            0 <= m < visible_only(f.issues).len() ==> contains(
                text_report(r),
                "    - ["@ + (if i.severity == Severity::Error {
                    "严重"@
                } else {
                    "警告"@
                }) + "] 规则: "@ + i.rule_name + " | 第 "@ + decimal(i.position.line as nat)
                    + " 行 | "@ + i.message + "\n"@,
            )
        }),
{
    let f = r.files[k];
    let fns = f.metrics.functions;
    let shown = visible_only(f.issues);
    if 0 <= m < fns.len() {
        let p = text_function(fns[m]);
        lemma_contains_self(p);
        lemma_text_functions_contain(fns, m, p);
        lemma_contains_suffix("  函数列表:\n"@, text_functions(fns), p);
        lemma_sections_in_file(f, p);
        lemma_file_in_report(r, k, p);
    }
    if 0 <= m < shown.len() {
        let i = shown[m];
        crate::laws::law_shown_findings(f.issues);
        assert(i.severity != Severity::Info);
        lemma_severity_labels();
        let p = "    - ["@ + severity_label_text(severity_name(i.severity)) + "] 规则: "@ + i.rule_name
            + " | 第 "@ + decimal(i.position.line as nat) + " 行 | "@ + i.message + "\n"@;
        assert(text_issue(i) == p + text_snippet(i.snippet));
        lemma_contains_self(p);
        lemma_contains_prefix(p, p, text_snippet(i.snippet));
        lemma_text_issues_contain(shown, m, p);
        lemma_contains_suffix("  问题详情:\n"@, text_issues(shown), p);
        lemma_sections_in_file(f, p);
        lemma_file_in_report(r, k, p);
    }
}

proof fn lemma_severity_classes()
    ensures
        severity_class_text(severity_name(Severity::Error)) == "severity-error"@,
        severity_class_text(severity_name(Severity::Warning)) == "severity-warning"@,
{
    reveal_strlit("Error");
    reveal_strlit("error");
    reveal_strlit("Warning");
    reveal_strlit("warning");
    assert(ascii_lower("Error"@) =~= "error"@);
    assert(ascii_lower("Warning"@) =~= "warning"@);
    assert(ascii_lower("Warning"@) != "error"@) by {
        assert(ascii_lower("Warning"@).len() != "error"@.len());
    }
}

proof fn lemma_html_functions_contain(items: Seq<FunctionInfoView>, m: int, p: Seq<char>)
    requires
        0 <= m < items.len(),
        contains(html_function(items[m]), p),
    ensures
        contains(html_functions(items), p),
    decreases items.len(),
{
    if m < items.len() - 1 {
        lemma_html_functions_contain(items.drop_last(), m, p);
        lemma_contains_prefix(html_functions(items.drop_last()), p, html_function(items.last()));
    } else {
        lemma_contains_suffix(html_functions(items.drop_last()), html_function(items.last()), p);
    }
}

proof fn lemma_html_issues_contain(items: Seq<IssueView>, m: int, p: Seq<char>)
    requires
        0 <= m < items.len(),
        contains(html_issue(items[m]), p),
    ensures
        contains(html_issues(items), p),
    decreases items.len(),
{
    if m < items.len() - 1 {
        lemma_html_issues_contain(items.drop_last(), m, p);
        lemma_contains_prefix(html_issues(items.drop_last()), p, html_issue(items.last()));
    } else {
        lemma_contains_suffix(html_issues(items.drop_last()), html_issue(items.last()), p);
    }
}

/// What the function list or the findings of a file's card contain, the
/// card contains.
proof fn lemma_lists_in_card(f: FileReportView, p: Seq<char>)
    requires
        contains(html_function_section(f.metrics.functions), p) || contains(
            html_issue_section(visible_only(f.issues)),
            p,
        ),
    ensures
        contains(html_file(f), p),
{
    let x = "      <article class=\"file-card\">\n        <div class=\"file-header\">\n          <h2 class=\"file-title\">"@
        + escape_text(f.path) + "</h2>\n          <div class=\"badge\">"@ + decimal(
        visible_only(f.issues).len(),
    ) + " 个问题</div>\n        </div>\n        <div class=\"metric-row\">\n"@ + metric_box_text(
        "总行数"@,
        f.metrics.total_lines,
    ) + metric_box_text("代码行"@, f.metrics.code_lines) + metric_box_text(
        "注释行"@,
        f.metrics.comment_lines,
    ) + metric_box_text("空白行"@, f.metrics.blank_lines) + metric_box_text(
        "函数数"@,
        f.metrics.function_count,
    ) + metric_box_text("最大嵌套"@, f.metrics.max_nesting_depth)
        + "        </div>\n        <div class=\"functions\">\n          <h2 class=\"section-title\">函数信息</h2>\n"@;
    let s1 = html_function_section(f.metrics.functions);
    let y = "        </div>\n        <div class=\"issues\">\n          <h2 class=\"section-title\">问题详情</h2>\n"@;
    let s2 = html_issue_section(visible_only(f.issues));
    let z = "        </div>\n      </article>\n"@;
    assert(html_file(f) == x + s1 + y + s2 + z);
    if contains(s1, p) {
        lemma_contains_suffix(x, s1, p);
        lemma_contains_prefix(x + s1, p, y);
        lemma_contains_prefix(x + s1 + y, p, s2);
    } else {
        lemma_contains_suffix(x + s1 + y, s2, p);
    }
    lemma_contains_prefix(x + s1 + y + s2, p, z);
}

/// In the HTML report, the card of each file lists each of its functions
/// with its (escaped) name, first and last line, parameter count and length,
/// and each finding it shows with its (escaped) rule, its style class and
/// label (severity-error and 严重 for an error, severity-warning and 警告 for
/// a warning), its line and its (escaped) message.
pub proof fn law_html_report_entries(r: AnalysisReportView, k: int, m: int)
    requires
        0 <= k < r.files.len(),
    ensures
        ({
            let f = r.files[k];
            let g = f.metrics.functions[m];
            0 <= m < f.metrics.functions.len() ==> contains(
                html_report(r),
                "<li class=\"list-card\"><strong>"@ + escape_text(g.name) + "</strong><br>第 "@
                    + decimal(g.start_line) + "-"@ + decimal(g.end_line) + " 行，参数 "@ + decimal(
                    g.parameter_count,
                ) + " 个，长度 "@ + decimal(g.line_count) + " 行</li>\n"@,
            )
        }),
        ({
            let f = r.files[k];
            let i = visible_only(f.issues)[m];
            let error = i.severity == Severity::Error;
            0 <= m < visible_only(f.issues).len() ==> contains(
                html_report(r),
                "<span class=\"issue-rule\">"@ + escape_text(i.rule_name)
                    + "</span>\n                <span class=\"severity "@ + (if error {
                    "severity-error"@
                } else {
                    "severity-warning"@
                }) + "\">"@ + (if error {
                    "严重"@
                } else {
                    "警告"@
                }) + "</span>\n              </div>\n              <p class=\"issue-message\">第 "@
                    + decimal(i.position.line as nat) + " 行: "@ + escape_text(i.message)
                    + "</p>\n"@,
            )
        }),
{
    let f = r.files[k];
    let fns = f.metrics.functions;
    let shown = visible_only(f.issues);
    let open = "          <ul class=\"clean\">\n"@;
    let close = "          </ul>\n"@;
    if 0 <= m < fns.len() {
        let g = fns[m];
        let lead = "            "@;
        let p = "<li class=\"list-card\"><strong>"@ + escape_text(g.name) + "</strong><br>第 "@
            + decimal(g.start_line) + "-"@ + decimal(g.end_line) + " 行，参数 "@ + decimal(
            g.parameter_count,
        ) + " 个，长度 "@ + decimal(g.line_count) + " 行</li>\n"@;
        reveal_strlit("            <li class=\"list-card\"><strong>");
        reveal_strlit("            ");
        reveal_strlit("<li class=\"list-card\"><strong>");
        assert("            <li class=\"list-card\"><strong>"@ =~= lead
            + "<li class=\"list-card\"><strong>"@);
        assert(html_function(g) =~= lead + p);
        lemma_contains_self(p);
        lemma_contains_suffix(lead, p, p);
        lemma_html_functions_contain(fns, m, p);
        lemma_contains_suffix(open, html_functions(fns), p);
        lemma_contains_prefix(open + html_functions(fns), p, close);
        lemma_lists_in_card(f, p);
        lemma_card_in_report(r, k, p);
    }
    if 0 <= m < shown.len() {
        let i = shown[m];
        crate::laws::law_shown_findings(f.issues);
        assert(i.severity != Severity::Info);
        lemma_severity_labels();
        lemma_severity_classes();
        let lead = "            <li class=\"list-card\">\n              <div class=\"issue-top\">\n                "@;
        let p = "<span class=\"issue-rule\">"@ + escape_text(i.rule_name)
            + "</span>\n                <span class=\"severity "@ + severity_class_text(
            severity_name(i.severity),
        ) + "\">"@ + severity_label_text(severity_name(i.severity))
            + "</span>\n              </div>\n              <p class=\"issue-message\">第 "@
            + decimal(i.position.line as nat) + " 行: "@ + escape_text(i.message) + "</p>\n"@;
        let tail = html_snippet(i.snippet) + "            </li>\n"@;
        reveal_strlit("            <li class=\"list-card\">\n              <div class=\"issue-top\">\n                <span class=\"issue-rule\">");
        reveal_strlit("            <li class=\"list-card\">\n              <div class=\"issue-top\">\n                ");
        reveal_strlit("<span class=\"issue-rule\">");
        assert("            <li class=\"list-card\">\n              <div class=\"issue-top\">\n                <span class=\"issue-rule\">"@
            =~= lead + "<span class=\"issue-rule\">"@);
        assert(html_issue(i) =~= lead + p + tail);
        lemma_contains_mid(lead, p, tail);
        lemma_html_issues_contain(shown, m, p);
        lemma_contains_suffix(open, html_issues(shown), p);
        lemma_contains_prefix(open + html_issues(shown), p, close);
        lemma_lists_in_card(f, p);
        lemma_card_in_report(r, k, p);
    }
}

} // verus!
