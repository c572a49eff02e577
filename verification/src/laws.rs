//! Properties that hold of every analysis and every report.
use vstd::prelude::*;

use crate::model::{
    count_severity, lemma_severity_sums, sum_files, summarizes, tally, zero_summary, FileReportView, IssueView,
    Severity, Summary, Tally,
};
use crate::report::{
    escape_char_text, escape_text, is_visible_text, severity_class_text, severity_key,
    severity_label_text, visible_only, visible_total,
};
use crate::rules::{
    brace_end, count_lines, cpp_marker_issues, detected_function, emit_if, file_issues,
    file_metrics, function_issues, indent_end, issue_view, line_issues, line_issues_upto,
    long_line_issues, marker_issues, python_marker_issues, rust_marker_issues, shared_issues,
    Language, LineTest,
};
use crate::analyzer::{file_language, project_reports, SourceFile};
use crate::text::{ascii_lower, calls, contains, matches_at, split_lines_spec, starts_with};

verus! {

// ---------------------------------------------------------------------------
// Line classes
// ---------------------------------------------------------------------------

/// Every line is exactly one of blank, comment or code, so the three counts
/// add up to the number of lines.
pub proof fn law_line_classes_partition(lines: Seq<Seq<char>>)
    ensures
        count_lines(lines, LineTest::Code) + count_lines(lines, LineTest::Comment) + count_lines(
            lines,
            LineTest::Blank,
        ) == lines.len(),
    decreases lines.len(),
{
    if lines.len() > 0 {
        law_line_classes_partition(lines.drop_last());
    }
}

/// In the statistics of any file, code, comment and blank lines add up to the
/// total number of lines.
pub proof fn law_metrics_line_classes(lang: Language, lines: Seq<Seq<char>>)
    ensures
        file_metrics(lang, lines).code_lines + file_metrics(lang, lines).comment_lines
            + file_metrics(lang, lines).blank_lines == file_metrics(lang, lines).total_lines,
{
    law_line_classes_partition(lines);
}

proof fn lemma_functions_upto_len(lang: Language, lines: Seq<Seq<char>>, n: int)
    requires
        0 <= n,
    ensures
        crate::rules::functions_upto(lang, lines, n).len() <= n,
    decreases n,
{
    if n > 0 {
        lemma_functions_upto_len(lang, lines, n - 1);
    }
}

/// Every count in the statistics of a file is at most its number of lines.
pub proof fn law_counts_within_lines(lang: Language, lines: Seq<Seq<char>>)
    ensures
        ({
            let m = file_metrics(lang, lines);
            &&& m.code_lines <= m.total_lines
            &&& m.comment_lines <= m.total_lines
            &&& m.blank_lines <= m.total_lines
            &&& m.function_count <= m.total_lines
            &&& m.module_count <= m.total_lines
            &&& m.impl_count <= m.total_lines
            &&& m.struct_count <= m.total_lines
            &&& m.enum_count <= m.total_lines
            &&& m.trait_count <= m.total_lines
            &&& m.match_count <= m.total_lines
            &&& m.loop_count <= m.total_lines
            &&& m.unsafe_count <= m.total_lines
        }),
{
    law_line_classes_partition(lines);
    lemma_functions_upto_len(lang, lines, lines.len() as int);
    crate::analyzer::lemma_struct_class_disjoint(lines);
    crate::analyzer::lemma_count_lines_le(lines, LineTest::RustModule);
    crate::analyzer::lemma_count_lines_le(lines, LineTest::RustImpl);
    crate::analyzer::lemma_count_lines_le(lines, LineTest::RustStruct);
    crate::analyzer::lemma_count_lines_le(lines, LineTest::RustEnum);
    crate::analyzer::lemma_count_lines_le(lines, LineTest::RustTrait);
    crate::analyzer::lemma_count_lines_le(lines, LineTest::RustMatch);
    crate::analyzer::lemma_count_lines_le(lines, LineTest::RustLoop);
    crate::analyzer::lemma_count_lines_le(lines, LineTest::RustUnsafe);
    crate::analyzer::lemma_count_lines_le(lines, LineTest::PythonClass);
    crate::analyzer::lemma_count_lines_le(lines, LineTest::PythonLoop);
    crate::analyzer::lemma_count_lines_le(lines, LineTest::PythonMatch);
    crate::analyzer::lemma_count_lines_le(lines, LineTest::CppEnum);
    crate::analyzer::lemma_count_lines_le(lines, LineTest::CppLoop);
    crate::analyzer::lemma_count_lines_le(lines, LineTest::CppSwitch);
}

// ---------------------------------------------------------------------------
// Summary
// ---------------------------------------------------------------------------

/// The per-severity counts of a summary add up to its total number of findings.
pub proof fn law_severity_counts_add_up(s: Summary, files: Seq<FileReportView>)
    requires
        summarizes(s, files),
    ensures
        s.severity_count.info + s.severity_count.warning + s.severity_count.error
            == s.total_issues,
{
    lemma_severity_sums(files);
}

/// Sums over two lists of files add up.
pub proof fn lemma_sum_files_concat(a: Seq<FileReportView>, b: Seq<FileReportView>, t: Tally)
    ensures
        sum_files(a + b, t) == sum_files(a, t) + sum_files(b, t),
    decreases b.len(),
{
    if b.len() > 0 {
        lemma_sum_files_concat(a, b.drop_last(), t);
        assert((a + b).drop_last() == a + b.drop_last());
    } else {
        assert(a + b == a);
    }
}

/// Every total of `s` is that of `x` plus that of `y`.
pub open spec fn adds_up(s: Summary, x: Summary, y: Summary) -> bool {
    &&& s.file_count == x.file_count + y.file_count
    &&& s.total_issues == x.total_issues + y.total_issues
    &&& s.total_lines == x.total_lines + y.total_lines
    &&& s.total_code_lines == x.total_code_lines + y.total_code_lines
    &&& s.total_comment_lines == x.total_comment_lines + y.total_comment_lines
    &&& s.total_blank_lines == x.total_blank_lines + y.total_blank_lines
    &&& s.total_functions == x.total_functions + y.total_functions
    &&& s.total_modules == x.total_modules + y.total_modules
    &&& s.total_structs == x.total_structs + y.total_structs
    &&& s.total_enums == x.total_enums + y.total_enums
    &&& s.total_traits == x.total_traits + y.total_traits
    &&& s.total_impls == x.total_impls + y.total_impls
    &&& s.total_matches == x.total_matches + y.total_matches
    &&& s.total_loops == x.total_loops + y.total_loops
    &&& s.total_unsafe_blocks == x.total_unsafe_blocks + y.total_unsafe_blocks
    &&& s.severity_count.info == x.severity_count.info + y.severity_count.info
    &&& s.severity_count.warning == x.severity_count.warning + y.severity_count.warning
    &&& s.severity_count.error == x.severity_count.error + y.severity_count.error
}

/// The summary of no files is all zeros.
pub proof fn law_summary_of_nothing(s: Summary)
    requires
        summarizes(s, Seq::empty()),
    ensures
        s == zero_summary(),
{
}

/// The summary of two lists of files, one after the other, is the field-wise
/// sum of their summaries.
pub proof fn law_summary_concat(
    s: Summary,
    x: Summary,
    y: Summary,
    a: Seq<FileReportView>,
    b: Seq<FileReportView>,
)
    requires
        summarizes(x, a),
        summarizes(y, b),
        summarizes(s, a + b),
    ensures
        adds_up(s, x, y),
{
    lemma_sum_files_concat(a, b, Tally::Issues);
    lemma_sum_files_concat(a, b, Tally::Lines);
    lemma_sum_files_concat(a, b, Tally::Code);
    lemma_sum_files_concat(a, b, Tally::Comments);
    lemma_sum_files_concat(a, b, Tally::Blanks);
    lemma_sum_files_concat(a, b, Tally::Functions);
    lemma_sum_files_concat(a, b, Tally::Modules);
    lemma_sum_files_concat(a, b, Tally::Structs);
    lemma_sum_files_concat(a, b, Tally::Enums);
    lemma_sum_files_concat(a, b, Tally::Traits);
    lemma_sum_files_concat(a, b, Tally::Impls);
    lemma_sum_files_concat(a, b, Tally::Matches);
    lemma_sum_files_concat(a, b, Tally::Loops);
    lemma_sum_files_concat(a, b, Tally::Unsafe);
    lemma_sum_files_concat(a, b, Tally::Infos);
    lemma_sum_files_concat(a, b, Tally::Warnings);
    lemma_sum_files_concat(a, b, Tally::Errors);
}

/// How many of `issues` have severity `sev`, counted by filtering.
pub open spec fn with_severity(issues: Seq<IssueView>, sev: Severity) -> nat {
    issues.filter(|i: IssueView| i.severity == sev).len()
}

proof fn lemma_count_severity_filter(issues: Seq<IssueView>, sev: Severity)
    ensures
        count_severity(issues, sev) == with_severity(issues, sev),
    decreases issues.len(),
{
    reveal_with_fuel(Seq::filter, 1);
    if issues.len() > 0 {
        lemma_count_severity_filter(issues.drop_last(), sev);
    }
}

proof fn lemma_sum_one(f: FileReportView, t: Tally)
    ensures
        sum_files(seq![f], t) == tally(f, t),
{
    assert(seq![f].drop_last() =~= Seq::<FileReportView>::empty());
    assert(sum_files(seq![f].drop_last(), t) == 0);
    assert(seq![f].last() == f);
}

/// The summary of a single file holds that file's own figures: its lines by
/// class, its structures, and its findings in all and by severity.
pub proof fn law_summary_of_one_file(s: Summary, f: FileReportView)
    requires
        summarizes(s, seq![f]),
    ensures
        s.file_count == 1,
        s.total_lines == f.metrics.total_lines,
        s.total_code_lines == f.metrics.code_lines,
        s.total_comment_lines == f.metrics.comment_lines,
        s.total_blank_lines == f.metrics.blank_lines,
        s.total_functions == f.metrics.function_count,
        s.total_modules == f.metrics.module_count,
        s.total_structs == f.metrics.struct_count,
        s.total_enums == f.metrics.enum_count,
        s.total_traits == f.metrics.trait_count,
        s.total_impls == f.metrics.impl_count,
        s.total_matches == f.metrics.match_count,
        s.total_loops == f.metrics.loop_count,
        s.total_unsafe_blocks == f.metrics.unsafe_count,
        s.total_issues == f.issues.len(),
        s.severity_count.info == with_severity(f.issues, Severity::Info),
        s.severity_count.warning == with_severity(f.issues, Severity::Warning),
        s.severity_count.error == with_severity(f.issues, Severity::Error),
{
    lemma_sum_one(f, Tally::Issues);
    lemma_sum_one(f, Tally::Lines);
    lemma_sum_one(f, Tally::Code);
    lemma_sum_one(f, Tally::Comments);
    lemma_sum_one(f, Tally::Blanks);
    lemma_sum_one(f, Tally::Functions);
    lemma_sum_one(f, Tally::Modules);
    lemma_sum_one(f, Tally::Structs);
    lemma_sum_one(f, Tally::Enums);
    lemma_sum_one(f, Tally::Traits);
    lemma_sum_one(f, Tally::Impls);
    lemma_sum_one(f, Tally::Matches);
    lemma_sum_one(f, Tally::Loops);
    lemma_sum_one(f, Tally::Unsafe);
    lemma_sum_one(f, Tally::Infos);
    lemma_sum_one(f, Tally::Warnings);
    lemma_sum_one(f, Tally::Errors);
    lemma_count_severity_filter(f.issues, Severity::Info);
    lemma_count_severity_filter(f.issues, Severity::Warning);
    lemma_count_severity_filter(f.issues, Severity::Error);
}

proof fn lemma_project_line_classes(th: crate::model::RuleThresholds, files: Seq<SourceFile>)
    ensures
        ({
            let r = project_reports(th, files);
            sum_files(r, Tally::Code) + sum_files(r, Tally::Comments) + sum_files(r, Tally::Blanks)
                == sum_files(r, Tally::Lines)
        }),
    decreases files.len(),
{
    if files.len() > 0 {
        lemma_project_line_classes(th, files.drop_last());
        let prev = project_reports(th, files.drop_last());
        let last: Seq<FileReportView> = match file_language(files.last()) {
            Some(lang) => seq![
                crate::rules::file_report(
                    lang,
                    files.last().path@,
                    split_lines_spec(files.last().content@),
                    th,
                ),
            ],
            None => Seq::empty(),
        };
        assert(project_reports(th, files) == prev + last);
        lemma_sum_files_concat(prev, last, Tally::Code);
        lemma_sum_files_concat(prev, last, Tally::Comments);
        lemma_sum_files_concat(prev, last, Tally::Blanks);
        lemma_sum_files_concat(prev, last, Tally::Lines);
        if let Some(lang) = file_language(files.last()) {
            let r = crate::rules::file_report(
                lang,
                files.last().path@,
                split_lines_spec(files.last().content@),
                th,
            );
            law_metrics_line_classes(lang, split_lines_spec(files.last().content@));
            lemma_sum_one(r, Tally::Code);
            lemma_sum_one(r, Tally::Comments);
            lemma_sum_one(r, Tally::Blanks);
            lemma_sum_one(r, Tally::Lines);
        }
    }
}

/// In the summary of an analysis, code, comment and blank lines add up to
/// the total number of lines.
pub proof fn law_summary_line_classes(
    s: Summary,
    th: crate::model::RuleThresholds,
    files: Seq<SourceFile>,
)
    requires
        summarizes(s, project_reports(th, files)),
    ensures
        s.total_code_lines + s.total_comment_lines + s.total_blank_lines == s.total_lines,
{
    lemma_project_line_classes(th, files);
}

// ---------------------------------------------------------------------------
// Shown findings
// ---------------------------------------------------------------------------

proof fn lemma_lower_of_lowercase_literals()
    ensures
        ascii_lower("error"@) == "error"@,
        ascii_lower("warning"@) == "warning"@,
        ascii_lower("info"@) == "info"@,
        "error"@.len() == 5,
        "warning"@.len() == 7,
        "info"@.len() == 4,
{
    reveal_strlit("error");
    reveal_strlit("warning");
    reveal_strlit("info");
    assert(ascii_lower("error"@) =~= "error"@);
    assert(ascii_lower("warning"@) =~= "warning"@);
    assert(ascii_lower("info"@) =~= "info"@);
}

/// A severity is shown in the text and HTML reports exactly when it is
/// Warning or Error.
pub proof fn law_shown_severities(s: Severity)
    ensures
        is_visible_text(severity_key(s)) <==> s != Severity::Info,
{
    lemma_lower_of_lowercase_literals();
    if s == Severity::Info {
        assert(ascii_lower("info"@).len() == 4);
    }
}

/// The findings the reports show are those of severity Warning or Error, in
/// their order: none of them is Info, and there are as many as the warnings
/// and errors together.
pub proof fn law_shown_findings(issues: Seq<IssueView>)
    ensures
        forall|k: int|
            0 <= k < visible_only(issues).len() ==> #[trigger] visible_only(issues)[k].severity
                != Severity::Info,
        visible_only(issues).len() == count_severity(issues, Severity::Warning) + count_severity(
            issues,
            Severity::Error,
        ),
    decreases issues.len(),
{
    if issues.len() > 0 {
        law_shown_findings(issues.drop_last());
        law_shown_severities(issues.last().severity);
    }
}

/// A severity text gets a label and a style class exactly when it is shown.
pub proof fn law_label_class_visibility(s: Seq<char>)
    ensures
        is_visible_text(s) <==> severity_label_text(s).len() > 0,
        is_visible_text(s) <==> severity_class_text(s).len() > 0,
{
    reveal_strlit("");
    reveal_strlit("严重");
    reveal_strlit("警告");
    reveal_strlit("severity-error");
    reveal_strlit("severity-warning");
}

/// Over any files, the findings the reports show are the warnings and the
/// errors.
pub proof fn law_shown_total_by_severity(files: Seq<FileReportView>)
    ensures
        visible_total(files) == sum_files(files, Tally::Warnings) + sum_files(files, Tally::Errors),
    decreases files.len(),
{
    if files.len() > 0 {
        law_shown_total_by_severity(files.drop_last());
        law_shown_findings(files.last().issues);
    }
}

/// The findings the reports show are exactly the warnings and errors among
/// all findings, in their order.
pub proof fn law_shown_are_warnings_and_errors(issues: Seq<IssueView>)
    ensures
        visible_only(issues) == issues.filter(|i: IssueView| i.severity != Severity::Info),
    decreases issues.len(),
{
    reveal_with_fuel(Seq::filter, 1);
    if issues.len() > 0 {
        law_shown_are_warnings_and_errors(issues.drop_last());
        law_shown_severities(issues.last().severity);
    }
}

/// The number of findings the text and HTML reports announce is the number
/// of warnings and errors in the summary.
pub proof fn law_shown_total(s: Summary, files: Seq<FileReportView>)
    requires
        summarizes(s, files),
    ensures
        visible_total(files) == s.severity_count.warning + s.severity_count.error,
        visible_total(files) <= s.total_issues,
{
    law_shown_total_by_severity(files);
    lemma_severity_sums(files);
}

// ---------------------------------------------------------------------------
// HTML escaping
// ---------------------------------------------------------------------------

proof fn lemma_escape_char_safe(c: char)
    ensures
        forall|k: int|
            0 <= k < escape_char_text(c).len() ==> {
                let e = #[trigger] escape_char_text(c)[k];
                e != '<' && e != '>' && e != '"' && e != '\''
            },
{
    reveal_strlit("&amp;");
    reveal_strlit("&lt;");
    reveal_strlit("&gt;");
    reveal_strlit("&quot;");
    reveal_strlit("&#39;");
}

/// Escaped text holds none of `<`, `>`, `"` and `'`.
pub proof fn law_escape_removes_markup(s: Seq<char>)
    ensures
        forall|k: int|
            0 <= k < escape_text(s).len() ==> {
                let e = #[trigger] escape_text(s)[k];
                e != '<' && e != '>' && e != '"' && e != '\''
            },
    decreases s.len(),
{
    if s.len() > 0 {
        law_escape_removes_markup(s.drop_last());
        lemma_escape_char_safe(s.last());
        let a = escape_text(s.drop_last());
        let b = escape_char_text(s.last());
        assert forall|k: int| 0 <= k < escape_text(s).len() implies {
            let e = #[trigger] escape_text(s)[k];
            e != '<' && e != '>' && e != '"' && e != '\''
        } by {
            if k < a.len() {
                assert(escape_text(s)[k] == a[k]);
            } else {
                assert(escape_text(s)[k] == b[k - a.len()]);
            }
        }
    }
}

/// Text without `&`, `<`, `>`, `"` and `'` is left as it is.
pub proof fn law_escape_plain_text(s: Seq<char>)
    requires
        forall|k: int|
            0 <= k < s.len() ==> {
                let c = #[trigger] s[k];
                c != '&' && c != '<' && c != '>' && c != '"' && c != '\''
            },
    ensures
        escape_text(s) == s,
    decreases s.len(),
{
    if s.len() > 0 {
        law_escape_plain_text(s.drop_last());
        assert(s.drop_last().push(s.last()) =~= s);
        assert(escape_text(s) =~= s.drop_last() + seq![s.last()]);
    }
}

/// The five characters that HTML escaping replaces.
pub open spec fn is_markup_char(c: char) -> bool {
    c == '&' || c == '<' || c == '>' || c == '"' || c == '\''
}

/// Decoding of `&amp;`, `&lt;`, `&gt;`, `&quot;` and `&#39;` in one pass from
/// left to right; anything else is kept.
pub open spec fn unescape_text(s: Seq<char>) -> Seq<char>
    decreases s.len(),
{
    proof {
        lemma_reveal_entities();
    }
    if s.len() == 0 {
        Seq::empty()
    } else if starts_with(s, "&amp;"@) {
        seq!['&'] + unescape_text(s.skip("&amp;"@.len() as int))
    } else if starts_with(s, "&lt;"@) {
        seq!['<'] + unescape_text(s.skip("&lt;"@.len() as int))
    } else if starts_with(s, "&gt;"@) {
        seq!['>'] + unescape_text(s.skip("&gt;"@.len() as int))
    } else if starts_with(s, "&quot;"@) {
        seq!['"'] + unescape_text(s.skip("&quot;"@.len() as int))
    } else if starts_with(s, "&#39;"@) {
        seq!['\''] + unescape_text(s.skip("&#39;"@.len() as int))
    } else {
        seq![s[0]] + unescape_text(s.skip(1))
    }
}

/// At index `k` of `s` starts one of the five entities.
pub open spec fn entity_at(s: Seq<char>, k: int) -> bool {
    ||| matches_at(s, "&amp;"@, k)
    ||| matches_at(s, "&lt;"@, k)
    ||| matches_at(s, "&gt;"@, k)
    ||| matches_at(s, "&quot;"@, k)
    ||| matches_at(s, "&#39;"@, k)
}

pub proof fn lemma_reveal_entities()
    ensures
        "&amp;"@ == seq!['&', 'a', 'm', 'p', ';'],
        "&lt;"@ == seq!['&', 'l', 't', ';'],
        "&gt;"@ == seq!['&', 'g', 't', ';'],
        "&quot;"@ == seq!['&', 'q', 'u', 'o', 't', ';'],
        "&#39;"@ == seq!['&', '#', '3', '9', ';'],
{
    reveal_strlit("&amp;");
    reveal_strlit("&lt;");
    reveal_strlit("&gt;");
    reveal_strlit("&quot;");
    reveal_strlit("&#39;");
    assert("&amp;"@ =~= seq!['&', 'a', 'm', 'p', ';']);
    assert("&lt;"@ =~= seq!['&', 'l', 't', ';']);
    assert("&gt;"@ =~= seq!['&', 'g', 't', ';']);
    assert("&quot;"@ =~= seq!['&', 'q', 'u', 'o', 't', ';']);
    assert("&#39;"@ =~= seq!['&', '#', '3', '9', ';']);
}

/// Escaping distributes over concatenation.
pub proof fn lemma_escape_concat(a: Seq<char>, b: Seq<char>)
    ensures
        escape_text(a + b) == escape_text(a) + escape_text(b),
    decreases b.len(),
{
    if b.len() > 0 {
        lemma_escape_concat(a, b.drop_last());
        assert((a + b).drop_last() == a + b.drop_last());
    } else {
        assert(a + b == a);
        assert(escape_text(a) + escape_text(b) == escape_text(a));
    }
}

/// Escaping, seen from the front: the first character's escape, then the rest.
proof fn lemma_escape_front(s: Seq<char>)
    requires
        s.len() > 0,
    ensures
        escape_text(s) == escape_char_text(s[0]) + escape_text(s.skip(1)),
{
    assert(s == seq![s[0]] + s.skip(1));
    lemma_escape_concat(seq![s[0]], s.skip(1));
    let one = seq![s[0]];
    assert(one.drop_last() =~= Seq::<char>::empty());
    assert(escape_text(one.drop_last()) == Seq::<char>::empty());
    assert(escape_text(one) =~= escape_char_text(s[0]));
}

/// Decoding one escaped character in front of some text.
proof fn lemma_unescape_one(c: char, rest: Seq<char>)
    ensures
        unescape_text(escape_char_text(c) + rest) == seq![c] + unescape_text(rest),
{
    lemma_reveal_entities();
    let e = escape_char_text(c);
    let t = e + rest;
    assert(t.skip(e.len() as int) =~= rest);
    if c == '&' {
        assert(starts_with(t, "&amp;"@)) by {
            assert(t.subrange(0, 5) =~= "&amp;"@);
        }
    } else if c == '<' {
        assert(!starts_with(t, "&amp;"@)) by {
            if t.len() >= 5 {
                assert(t.subrange(0, 5)[1] != "&amp;"@[1]);
            }
        }
        assert(starts_with(t, "&lt;"@)) by {
            assert(t.subrange(0, 4) =~= "&lt;"@);
        }
    } else if c == '>' {
        assert(!starts_with(t, "&amp;"@)) by {
            if t.len() >= 5 {
                assert(t.subrange(0, 5)[1] != "&amp;"@[1]);
            }
        }
        assert(!starts_with(t, "&lt;"@)) by {
            assert(t.subrange(0, 4)[1] != "&lt;"@[1]);
        }
        assert(starts_with(t, "&gt;"@)) by {
            assert(t.subrange(0, 4) =~= "&gt;"@);
        }
    } else if c == '"' {
        assert(!starts_with(t, "&amp;"@)) by {
            assert(t.subrange(0, 5)[1] != "&amp;"@[1]);
        }
        assert(!starts_with(t, "&lt;"@)) by {
            assert(t.subrange(0, 4)[1] != "&lt;"@[1]);
        }
        assert(!starts_with(t, "&gt;"@)) by {
            assert(t.subrange(0, 4)[1] != "&gt;"@[1]);
        }
        assert(starts_with(t, "&quot;"@)) by {
            assert(t.subrange(0, 6) =~= "&quot;"@);
        }
    } else if c == '\'' {
        assert(!starts_with(t, "&amp;"@)) by {
            assert(t.subrange(0, 5)[1] != "&amp;"@[1]);
        }
        assert(!starts_with(t, "&lt;"@)) by {
            assert(t.subrange(0, 4)[1] != "&lt;"@[1]);
        }
        assert(!starts_with(t, "&gt;"@)) by {
            assert(t.subrange(0, 4)[1] != "&gt;"@[1]);
        }
        assert(!starts_with(t, "&quot;"@)) by {
            if t.len() >= 6 {
                assert(t.subrange(0, 6)[1] != "&quot;"@[1]);
            }
        }
        assert(starts_with(t, "&#39;"@)) by {
            assert(t.subrange(0, 5) =~= "&#39;"@);
        }
    } else {
        assert(t[0] == c);
        assert(!starts_with(t, "&amp;"@)) by {
            if t.len() >= 5 {
                assert(t.subrange(0, 5)[0] != "&amp;"@[0]);
            }
        }
        assert(!starts_with(t, "&lt;"@)) by {
            if t.len() >= 4 {
                assert(t.subrange(0, 4)[0] != "&lt;"@[0]);
            }
        }
        assert(!starts_with(t, "&gt;"@)) by {
            if t.len() >= 4 {
                assert(t.subrange(0, 4)[0] != "&gt;"@[0]);
            }
        }
        assert(!starts_with(t, "&quot;"@)) by {
            if t.len() >= 6 {
                assert(t.subrange(0, 6)[0] != "&quot;"@[0]);
            }
        }
        assert(!starts_with(t, "&#39;"@)) by {
            if t.len() >= 5 {
                assert(t.subrange(0, 5)[0] != "&#39;"@[0]);
            }
        }
        assert(t.skip(1) =~= rest);
    }
}

/// Decoding escaped text gives the text back.
pub proof fn law_escape_round_trip(s: Seq<char>)
    ensures
        unescape_text(escape_text(s)) == s,
    decreases s.len(),
{
    if s.len() == 0 {
        assert(escape_text(s) =~= Seq::<char>::empty());
    } else {
        lemma_escape_front(s);
        law_escape_round_trip(s.skip(1));
        lemma_unescape_one(s[0], escape_text(s.skip(1)));
        assert(seq![s[0]] + s.skip(1) =~= s);
    }
}

proof fn lemma_entity_extends(a: Seq<char>, b: Seq<char>, k: int)
    requires
        entity_at(a, k),
    ensures
        entity_at(a + b, k),
{
    lemma_reveal_entities();
    let p = if matches_at(a, "&amp;"@, k) {
        "&amp;"@
    } else if matches_at(a, "&lt;"@, k) {
        "&lt;"@
    } else if matches_at(a, "&gt;"@, k) {
        "&gt;"@
    } else if matches_at(a, "&quot;"@, k) {
        "&quot;"@
    } else {
        "&#39;"@
    };
    assert((a + b).subrange(k, k + p.len()) =~= a.subrange(k, k + p.len()));
}

proof fn lemma_entity_shifts(a: Seq<char>, b: Seq<char>, k: int)
    requires
        0 <= k,
        entity_at(b, k),
    ensures
        entity_at(a + b, a.len() + k),
{
    lemma_reveal_entities();
    let p = if matches_at(b, "&amp;"@, k) {
        "&amp;"@
    } else if matches_at(b, "&lt;"@, k) {
        "&lt;"@
    } else if matches_at(b, "&gt;"@, k) {
        "&gt;"@
    } else if matches_at(b, "&quot;"@, k) {
        "&quot;"@
    } else {
        "&#39;"@
    };
    assert((a + b).subrange(a.len() + k, a.len() + k + p.len()) =~= b.subrange(k, k + p.len()));
}

proof fn lemma_escape_char_entities(c: char)
    ensures
        forall|k: int|
            0 <= k < escape_char_text(c).len() && #[trigger] escape_char_text(c)[k] == '&'
                ==> entity_at(escape_char_text(c), k),
{
    lemma_reveal_entities();
    let e = escape_char_text(c);
    assert forall|k: int| 0 <= k < e.len() && #[trigger] e[k] == '&' implies entity_at(e, k) by {
        assert(k == 0);
        assert(e.subrange(0, e.len() as int) =~= e);
    }
}

/// Every `&` in escaped text starts one of the five entities.
pub proof fn law_escape_ampersands(s: Seq<char>)
    ensures
        forall|k: int|
            0 <= k < escape_text(s).len() && #[trigger] escape_text(s)[k] == '&' ==> entity_at(
                escape_text(s),
                k,
            ),
    decreases s.len(),
{
    if s.len() > 0 {
        law_escape_ampersands(s.drop_last());
        lemma_escape_char_entities(s.last());
        let a = escape_text(s.drop_last());
        let b = escape_char_text(s.last());
        assert forall|k: int|
            0 <= k < escape_text(s).len() && #[trigger] escape_text(s)[k] == '&' implies entity_at(
            escape_text(s),
            k,
        ) by {
            if k < a.len() {
                assert(a[k] == '&');
                lemma_entity_extends(a, b, k);
            } else {
                assert(b[k - a.len()] == '&');
                lemma_entity_shifts(a, b, k - a.len());
            }
        }
    }
}

proof fn lemma_escape_len(s: Seq<char>)
    ensures
        escape_text(s).len() >= s.len(),
        escape_text(s).len() == s.len() <==> forall|k: int|
            0 <= k < s.len() ==> !is_markup_char(#[trigger] s[k]),
    decreases s.len(),
{
    lemma_reveal_entities();
    if s.len() > 0 {
        lemma_escape_len(s.drop_last());
        let d = s.drop_last();
        if escape_text(s).len() == s.len() {
            assert forall|k: int| 0 <= k < s.len() implies !is_markup_char(#[trigger] s[k]) by {
                if k < d.len() {
                    assert(d[k] == s[k]);
                }
            }
        }
        if forall|k: int| 0 <= k < s.len() ==> !is_markup_char(#[trigger] s[k]) {
            assert forall|k: int| 0 <= k < d.len() implies !is_markup_char(#[trigger] d[k]) by {
                assert(d[k] == s[k]);
            }
            assert(!is_markup_char(s[s.len() - 1]));
        }
    }
}

/// Escaping leaves a text as it is exactly when it holds none of `&`, `<`,
/// `>`, `"` and `'`.
pub proof fn law_escape_identity(s: Seq<char>)
    ensures
        escape_text(s) == s <==> forall|k: int| 0 <= k < s.len() ==> !is_markup_char(#[trigger] s[k]),
{
    lemma_escape_len(s);
    if forall|k: int| 0 <= k < s.len() ==> !is_markup_char(#[trigger] s[k]) {
        law_escape_plain_text(s);
    }
}

// ---------------------------------------------------------------------------
// Function extents
// ---------------------------------------------------------------------------

proof fn lemma_brace_end_bounds(lines: Seq<Seq<char>>, a: int, k: int)
    requires
        0 <= a <= k,
        a < lines.len(),
    ensures
        a + 1 <= brace_end(lines, a, k) <= lines.len(),
    decreases lines.len() - k,
{
    if k < lines.len() && !crate::rules::body_closed(lines, a, k) {
        lemma_brace_end_bounds(lines, a, k + 1);
    }
}

proof fn lemma_indent_end_bounds(lines: Seq<Seq<char>>, base: nat, j: int, last: int)
    requires
        0 <= j,
        last <= j,
        last <= lines.len(),
    ensures
        last <= indent_end(lines, base, j, last) <= lines.len(),
        indent_end(lines, base, j, last) >= last,
    decreases lines.len() - j,
{
    if j < lines.len() {
        if crate::text::trim(lines[j]).len() == 0 {
            lemma_indent_end_bounds(lines, base, j + 1, last);
        } else if crate::text::leading_blanks(lines[j]) > base {
            lemma_indent_end_bounds(lines, base, j + 1, j + 1);
        }
    }
}

/// A function recorded for line `a` starts on that line (1-based), ends on
/// or after it and within the file, and spans `end_line - start_line + 1`
/// lines.
pub proof fn law_function_extent(lang: Language, lines: Seq<Seq<char>>, a: int)
    requires
        0 <= a < lines.len(),
    ensures
        detected_function(lang, lines, a) matches Some(f) ==> {
            &&& f.start_line == a + 1
            &&& f.start_line <= f.end_line <= lines.len()
            &&& f.line_count == f.end_line - f.start_line + 1
        },
{
    lemma_brace_end_bounds(lines, a, a);
    lemma_indent_end_bounds(lines, crate::text::leading_blanks(lines[a]), a + 1, a + 1);
}

// ---------------------------------------------------------------------------
// Finding positions
// ---------------------------------------------------------------------------

/// Every finding is on `path`, at column 1, on a line from 1 to `hi`.
pub open spec fn well_placed(issues: Seq<IssueView>, path: Seq<char>, hi: int) -> bool {
    forall|k: int|
        0 <= k < issues.len() ==> {
            let i = #[trigger] issues[k];
            &&& i.file_path == path
            &&& i.position.column == 1
            &&& 1 <= i.position.line <= hi
        }
}

proof fn lemma_well_placed_concat(a: Seq<IssueView>, b: Seq<IssueView>, path: Seq<char>, hi: int)
    requires
        well_placed(a, path, hi),
        well_placed(b, path, hi),
    ensures
        well_placed(a + b, path, hi),
{
    assert forall|k: int| 0 <= k < (a + b).len() implies {
        let i = #[trigger] (a + b)[k];
        &&& i.file_path == path
        &&& i.position.column == 1
        &&& 1 <= i.position.line <= hi
    } by {
        if k < a.len() {
            assert((a + b)[k] == a[k]);
        } else {
            assert((a + b)[k] == b[k - a.len()]);
        }
    }
}

proof fn lemma_emit_placed(
    cond: bool,
    sev: Severity,
    rule: Seq<char>,
    msg: Seq<char>,
    path: Seq<char>,
    n: int,
    snippet: Seq<char>,
    hi: int,
)
    requires
        1 <= n <= hi <= usize::MAX,
    ensures
        well_placed(emit_if(cond, issue_view(sev, rule, msg, path, n, snippet)), path, hi),
{
}

proof fn lemma_rust_marker_issues_placed(path: Seq<char>, line: Seq<char>, i: int, hi: int)
    requires
        0 <= i,
        i + 1 <= hi <= usize::MAX,
    ensures
        well_placed(rust_marker_issues(path, line, i), path, hi),
{
    let t = crate::text::trim(line);
    let n = i + 1;
    let e0 = emit_if(
        contains(t, ".unwrap()"@) || contains(t, ".expect("@),
        issue_view(
            Severity::Warning,
            "rust.unwrap"@,
            "use of unwrap/expect may cause panic"@,
            path,
            n,
            line,
        ),
    );
    assert(well_placed(e0, path, hi));
    let e1 = emit_if(
        contains(t, "todo!"@) || contains(t, "unimplemented!"@),
        issue_view(
            Severity::Warning,
            "rust.todo"@,
            "unfinished code marker found"@,
            path,
            n,
            line,
        ),
    );
    assert(well_placed(e1, path, hi));
    let e2 = emit_if(
        contains(t, "unsafe"@),
        issue_view(Severity::Info, "rust.unsafe"@, "unsafe code detected"@, path, n, line),
    );
    assert(well_placed(e2, path, hi));
    let e3 = emit_if(
        contains(t, "dbg!("@),
        issue_view(Severity::Info, "rust.dbg"@, "debug macro dbg!() found"@, path, n, line),
    );
    assert(well_placed(e3, path, hi));
    lemma_well_placed_concat(e0, e1, path, hi);
    lemma_well_placed_concat(e0 + e1, e2, path, hi);
    lemma_well_placed_concat(e0 + e1 + e2, e3, path, hi);
    assert(rust_marker_issues(path, line, i) == e0 + e1 + e2 + e3);
}

proof fn lemma_python_marker_issues_placed(path: Seq<char>, line: Seq<char>, i: int, hi: int)
    requires
        0 <= i,
        i + 1 <= hi <= usize::MAX,
    ensures
        well_placed(python_marker_issues(path, line, i), path, hi),
{
    let t = crate::text::trim(line);
    let n = i + 1;
    let e0 = emit_if(
        calls(t, "eval("@),
        issue_view(Severity::Warning, "python.eval"@, "use of eval() is risky"@, path, n, line),
    );
    assert(well_placed(e0, path, hi));
    let e1 = emit_if(
        calls(t, "exec("@),
        issue_view(Severity::Warning, "python.exec"@, "use of exec() is risky"@, path, n, line),
    );
    assert(well_placed(e1, path, hi));
    let e2 = emit_if(
        t == "except:"@ || starts_with(t, "except:"@),
        issue_view(
            Severity::Warning,
            "python.bare_except"@,
            "bare except clause found"@,
            path,
            n,
            line,
        ),
    );
    assert(well_placed(e2, path, hi));
    let e3 = emit_if(
        calls(t, "print("@),
        issue_view(
            Severity::Info,
            "python.print"@,
            "possible debug print found"@,
            path,
            n,
            line,
        ),
    );
    assert(well_placed(e3, path, hi));
    let e4 = emit_if(
        t == "pass"@,
        issue_view(
            Severity::Info,
            "python.pass"@,
            "pass statement found, check if logic is incomplete"@,
            path,
            n,
            line,
        ),
    );
    assert(well_placed(e4, path, hi));
    lemma_well_placed_concat(e0, e1, path, hi);
    lemma_well_placed_concat(e0 + e1, e2, path, hi);
    lemma_well_placed_concat(e0 + e1 + e2, e3, path, hi);
    lemma_well_placed_concat(e0 + e1 + e2 + e3, e4, path, hi);
    assert(python_marker_issues(path, line, i) == e0 + e1 + e2 + e3 + e4);
}

proof fn lemma_cpp_marker_issues_placed(path: Seq<char>, line: Seq<char>, i: int, hi: int)
    requires
        0 <= i,
        i + 1 <= hi <= usize::MAX,
    ensures
        well_placed(cpp_marker_issues(path, line, i), path, hi),
{
    let t = crate::text::trim(line);
    let n = i + 1;
    let e0 = emit_if(
        calls(t, "gets("@),
        issue_view(Severity::Error, "cpp.gets"@, "unsafe gets() usage found"@, path, n, line),
    );
    assert(well_placed(e0, path, hi));
    let e1 = emit_if(
        calls(t, "strcpy("@) || calls(t, "strcat("@),
        issue_view(
            Severity::Warning,
            "cpp.unsafe_string"@,
            "unsafe C string function found"@,
            path,
            n,
            line,
        ),
    );
    assert(well_placed(e1, path, hi));
    let e2 = emit_if(
        calls(t, "printf("@) || contains(t, "cout <<"@),
        issue_view(
            Severity::Info,
            "cpp.output"@,
            "possible debug output found"@,
            path,
            n,
            line,
        ),
    );
    assert(well_placed(e2, path, hi));
    let e3 = emit_if(
        calls(t, "malloc("@) || calls(t, "free("@) || contains(t, "new "@) || contains(
            t,
            "delete "@,
        ),
        issue_view(
            Severity::Info,
            "cpp.memory"@,
            "manual memory management detected"@,
            path,
            n,
            line,
        ),
    );
    assert(well_placed(e3, path, hi));
    let e4 = emit_if(
        calls(t, "system("@),
        issue_view(Severity::Warning, "cpp.system"@, "system() call found"@, path, n, line),
    );
    assert(well_placed(e4, path, hi));
    lemma_well_placed_concat(e0, e1, path, hi);
    lemma_well_placed_concat(e0 + e1, e2, path, hi);
    lemma_well_placed_concat(e0 + e1 + e2, e3, path, hi);
    lemma_well_placed_concat(e0 + e1 + e2 + e3, e4, path, hi);
    assert(cpp_marker_issues(path, line, i) == e0 + e1 + e2 + e3 + e4);
}

proof fn lemma_line_issues_placed(
    lang: Language,
    path: Seq<char>,
    lines: Seq<Seq<char>>,
    th: crate::model::RuleThresholds,
    i: int,
)
    requires
        0 <= i < lines.len() <= usize::MAX,
    ensures
        well_placed(line_issues(lang, path, lines, th, i), path, lines.len() as int),
{
    let hi = lines.len() as int;
    let line = lines[i];
    let t = crate::text::trim(line);
    law_function_extent(lang, lines, i);
    let fpart = match detected_function(lang, lines, i) {
        Some(f) => function_issues(lang, path, th, f, line),
        None => Seq::empty(),
    };
    match detected_function(lang, lines, i) {
        Some(f) => {
            lemma_emit_placed(
                f.line_count > th.max_function_length,
                Severity::Warning,
                crate::rules::long_function_rule(lang),
                "function is longer than configured threshold"@,
                path,
                f.start_line as int,
                line,
                hi,
            );
            lemma_emit_placed(
                f.parameter_count > th.max_parameters,
                Severity::Warning,
                crate::rules::many_parameters_rule(lang),
                "function has too many parameters"@,
                path,
                f.start_line as int,
                line,
                hi,
            );
            lemma_well_placed_concat(
                emit_if(
                    f.line_count > th.max_function_length,
                    issue_view(
                        Severity::Warning,
                        crate::rules::long_function_rule(lang),
                        "function is longer than configured threshold"@,
                        path,
                        f.start_line as int,
                        line,
                    ),
                ),
                emit_if(
                    f.parameter_count > th.max_parameters,
                    issue_view(
                        Severity::Warning,
                        crate::rules::many_parameters_rule(lang),
                        "function has too many parameters"@,
                        path,
                        f.start_line as int,
                        line,
                    ),
                ),
                path,
                hi,
            );
        },
        None => {},
    }
    assert(well_placed(fpart, path, hi));
    match lang {
        Language::Rust => lemma_rust_marker_issues_placed(path, line, i, hi),
        Language::Python => lemma_python_marker_issues_placed(path, line, i, hi),
        Language::Cpp => lemma_cpp_marker_issues_placed(path, line, i, hi),
    }
    lemma_well_placed_concat(fpart, marker_issues(lang, path, line, i), path, hi);
}

proof fn lemma_line_issues_upto_placed(
    lang: Language,
    path: Seq<char>,
    lines: Seq<Seq<char>>,
    th: crate::model::RuleThresholds,
    n: int,
)
    requires
        0 <= n <= lines.len() <= usize::MAX,
    ensures
        well_placed(line_issues_upto(lang, path, lines, th, n), path, lines.len() as int),
    decreases n,
{
    if n > 0 {
        lemma_line_issues_upto_placed(lang, path, lines, th, n - 1);
        lemma_line_issues_placed(lang, path, lines, th, n - 1);
        lemma_well_placed_concat(
            line_issues_upto(lang, path, lines, th, n - 1),
            line_issues(lang, path, lines, th, n - 1),
            path,
            lines.len() as int,
        );
    }
}

proof fn lemma_long_lines_placed(
    path: Seq<char>,
    lines: Seq<Seq<char>>,
    th: crate::model::RuleThresholds,
    n: int,
)
    requires
        0 <= n <= lines.len() <= usize::MAX,
    ensures
        well_placed(long_line_issues(path, lines, th, n), path, lines.len() as int),
    decreases n,
{
    if n > 0 {
        lemma_long_lines_placed(path, lines, th, n - 1);
        lemma_well_placed_concat(
            long_line_issues(path, lines, th, n - 1),
            emit_if(
                lines[n - 1].len() > th.max_line_length,
                issue_view(
                    Severity::Info,
                    "style.long_line"@,
                    "line longer than configured threshold"@,
                    path,
                    n,
                    lines[n - 1],
                ),
            ),
            path,
            lines.len() as int,
        );
    }
}

/// Every finding of a file names the file, stands at column 1, and is on a
/// line of the file (line 1 for an empty file).
pub proof fn law_findings_placed(
    lang: Language,
    path: Seq<char>,
    lines: Seq<Seq<char>>,
    th: crate::model::RuleThresholds,
)
    requires
        lines.len() <= usize::MAX,
    ensures
        well_placed(
            file_issues(lang, path, lines, th),
            path,
            if lines.len() == 0 {
                1
            } else {
                lines.len() as int
            },
        ),
{
    let hi = if lines.len() == 0 {
        1
    } else {
        lines.len() as int
    };
    lemma_line_issues_upto_placed(lang, path, lines, th, lines.len() as int);
    lemma_long_lines_placed(path, lines, th, lines.len() as int);
    let per_line = line_issues_upto(lang, path, lines, th, lines.len() as int);
    let longs = long_line_issues(path, lines, th, lines.len() as int);
    assert(well_placed(per_line, path, hi));
    assert(well_placed(longs, path, hi));
    let depth = crate::rules::nesting_depth(lang, lines);
    let large = emit_if(
        lines.len() > th.max_file_lines,
        issue_view(
            Severity::Warning,
            "size.large_file"@,
            "file is larger than configured threshold"@,
            path,
            1,
            if lines.len() > 0 {
                lines[0]
            } else {
                Seq::empty()
            },
        ),
    );
    let deep = emit_if(
        depth > th.max_nesting_depth,
        issue_view(
            Severity::Warning,
            "style.deep_nesting"@,
            "nesting depth is larger than configured threshold"@,
            path,
            1,
            Seq::empty(),
        ),
    );
    lemma_well_placed_concat(longs, large, path, hi);
    lemma_well_placed_concat(longs + large, deep, path, hi);
    assert(shared_issues(path, lines, th, depth) == longs + large + deep);
    lemma_well_placed_concat(per_line, longs + large + deep, path, hi);
}

} // verus!
