//! Properties of the rules as seen in a file's report: where a function ends,
//! and which lines give which findings.
use vstd::prelude::*;

use crate::analyzer::{analysis_outcome, project_reports, SourceFile};
use crate::model::{
    AnalysisConfig, AnalysisReport, AppError, AppResult, FileReportView, FunctionInfoView, IssueView,
    Position, RuleThresholds, Severity,
};
use crate::rules::{
    brace_end, brace_scan, brace_scan_lines, char_total, detected_function, emit_if, file_metrics, file_report, function_issues,
    functions_upto, indent_end, issue_view, line_issues, line_issues_upto, long_function_rule,
    long_line_issues, looks_like_cpp, many_parameters_rule, marker_issues, nesting_depth,
    parameter_count,
    shared_issues,
    Language,
};
use crate::text::{
    calls, contains, count_char, find, is_space, last_word_start, lead_end, leading_blanks, trail_start,
    lemma_find_contains, lemma_find_from,
    matches_at, split_lines_spec, starts_with, trim, trim_start, utf8_len,
};

verus! {

// ---------------------------------------------------------------------------
// Where a brace-delimited function ends
// ---------------------------------------------------------------------------

/// On lines `a..=k` at least one `{` was seen, and at least as many `}`.
pub open spec fn braces_balance(lines: Seq<Seq<char>>, a: int, k: int) -> bool {
    let opens = char_total(lines, a, k + 1, '{');
    opens > 0 && char_total(lines, a, k + 1, '}') >= opens
}

proof fn lemma_brace_end_first_balance(lines: Seq<Seq<char>>, a: int, k: int)
    requires
        0 <= a <= k,
        a < lines.len(),
        forall|j: int| a <= j < k ==> !braces_balance(lines, a, j),
    ensures
        ({
            let r = brace_end(lines, a, k);
            ||| (k + 1 <= r <= lines.len() && braces_balance(lines, a, r - 1) && forall|j: int|
                a <= j < r - 1 ==> !braces_balance(lines, a, j))
            ||| (r == a + 1 && forall|j: int| a <= j < lines.len() ==> !braces_balance(lines, a, j))
        }),
    decreases lines.len() - k,
{
    if k < lines.len() && !braces_balance(lines, a, k) {
        lemma_brace_end_first_balance(lines, a, k + 1);
    }
}

/// `f`, recorded for a function that starts on line `a` (0-based), ends on
/// the first line from there by which its braces balance; where they never
/// do, it is one line long.
pub open spec fn ends_at_balance(lines: Seq<Seq<char>>, a: int, f: FunctionInfoView) -> bool {
    let e = f.end_line - 1;
    &&& f.start_line == a + 1
    &&& f.line_count == f.end_line - f.start_line + 1
    &&& {
        ||| (a <= e < lines.len() && braces_balance(lines, a, e) && forall|k: int|
            a <= k < e ==> !braces_balance(lines, a, k))
        ||| (f.end_line == f.start_line && forall|k: int|
            a <= k < lines.len() ==> !braces_balance(lines, a, k))
    }
}

/// A Rust or C/C++ function ends on the first line, counting from the one it
/// starts on, by which its braces balance: some `{` has been seen and at
/// least as many `}`. Braces of blocks nested inside it balance among
/// themselves and do not end it early. Where its braces never balance, it is
/// recorded as one line long.
pub proof fn law_brace_function_end(lang: Language, lines: Seq<Seq<char>>, a: int)
    requires
        lang == Language::Rust || lang == Language::Cpp,
        0 <= a < lines.len(),
    ensures
        detected_function(lang, lines, a) matches Some(f) ==> ends_at_balance(lines, a, f),
{
    lemma_brace_end_first_balance(lines, a, a);
}

proof fn lemma_functions_upto_detected(lang: Language, lines: Seq<Seq<char>>, n: int, k: int)
    requires
        0 <= n <= lines.len(),
        0 <= k < functions_upto(lang, lines, n).len(),
    ensures
        exists|a: int|
            0 <= a < n && detected_function(lang, lines, a) == Some(
                #[trigger] functions_upto(lang, lines, n)[k],
            ),
    decreases n,
{
    let prev = functions_upto(lang, lines, n - 1);
    if k < prev.len() {
        lemma_functions_upto_detected(lang, lines, n - 1, k);
        let a = choose|a: int|
            0 <= a < n - 1 && detected_function(lang, lines, a) == Some(
                #[trigger] functions_upto(lang, lines, n - 1)[k],
            );
        assert(functions_upto(lang, lines, n)[k] == prev[k]);
        assert(detected_function(lang, lines, a) == Some(functions_upto(lang, lines, n)[k]));
    } else {
        assert(detected_function(lang, lines, n - 1) == Some(functions_upto(lang, lines, n)[k]));
    }
}

/// Every function in the report of a Rust or C/C++ file ends on the first
/// line, from its start line, by which its braces balance (or is one line
/// long where they never do).
pub proof fn law_reported_functions_end_at_balance(
    lang: Language,
    path: Seq<char>,
    lines: Seq<Seq<char>>,
    th: RuleThresholds,
    k: int,
)
    requires
        lang == Language::Rust || lang == Language::Cpp,
        0 <= k < file_report(lang, path, lines, th).metrics.functions.len(),
    ensures
        ({
            let f = file_report(lang, path, lines, th).metrics.functions[k];
            ends_at_balance(lines, f.start_line - 1, f)
        }),
{
    lemma_functions_upto_detected(lang, lines, lines.len() as int, k);
    let f = file_report(lang, path, lines, th).metrics.functions[k];
    let a = choose|a: int|
        0 <= a < lines.len() && detected_function(lang, lines, a) == Some(
            #[trigger] functions_upto(lang, lines, lines.len() as int)[k],
        );
    law_brace_function_end(lang, lines, a);
}

// ---------------------------------------------------------------------------
// Where an indented (Python) function ends
// ---------------------------------------------------------------------------

/// Line `j` is blank, or indented deeper than `base` blanks.
pub open spec fn inside_body(lines: Seq<Seq<char>>, base: nat, j: int) -> bool {
    trim(lines[j]).len() == 0 || leading_blanks(lines[j]) > base
}

/// Lines `e..stop` are all blank.
pub open spec fn blank_between(lines: Seq<Seq<char>>, e: int, stop: int) -> bool {
    forall|j: int| e <= j < stop ==> trim(lines[j]).len() == 0
}

/// After line `e` only blank lines follow before the end of the file or a
/// non-blank line indented no deeper than `base`.
pub open spec fn body_stops(lines: Seq<Seq<char>>, base: nat, e: int) -> bool {
    exists|stop: int|
        e <= stop <= lines.len() && (stop == lines.len() || !inside_body(lines, base, stop))
            && #[trigger] blank_between(lines, e, stop)
}

/// `f`, recorded for a function whose `def` is on line `a` (0-based) indented
/// by `base` blanks, ends on its last non-blank line indented deeper than
/// `base`, before the first non-blank line that is not (or the end of the
/// file); with no such line it is one line long.
pub open spec fn ends_at_dedent(lines: Seq<Seq<char>>, a: int, base: nat, f: FunctionInfoView) -> bool {
    let e = f.end_line as int;
    &&& f.start_line == a + 1
    &&& f.line_count == f.end_line - f.start_line + 1
    &&& a + 1 <= e <= lines.len()
    &&& forall|j: int| a < j < e ==> inside_body(lines, base, j)
    &&& e > a + 1 ==> trim(lines[e - 1]).len() > 0
    &&& body_stops(lines, base, e)
}

proof fn lemma_indent_end_shape(lines: Seq<Seq<char>>, a: int, base: nat, j: int, last: int)
    requires
        0 <= a < last <= j <= lines.len(),
        forall|i: int| a < i < last ==> inside_body(lines, base, i),
        forall|i: int| last <= i < j ==> trim(lines[i]).len() == 0,
        last > a + 1 ==> trim(lines[last - 1]).len() > 0,
    ensures
        ({
            let e = indent_end(lines, base, j, last);
            &&& last <= e <= lines.len()
            &&& forall|i: int| a < i < e ==> inside_body(lines, base, i)
            &&& e > a + 1 ==> trim(lines[e - 1]).len() > 0
            &&& body_stops(lines, base, e)
        }),
    decreases lines.len() - j,
{
    if j >= lines.len() {
        assert(indent_end(lines, base, j, last) == last);
        let stop = lines.len() as int;
        assert(blank_between(lines, last, stop));
    } else if trim(lines[j]).len() == 0 {
        lemma_indent_end_shape(lines, a, base, j + 1, last);
    } else if leading_blanks(lines[j]) <= base {
        let stop = j;
        assert(indent_end(lines, base, j, last) == last);
        assert(blank_between(lines, last, stop));
    } else {
        assert forall|i: int| a < i < j + 1 implies inside_body(lines, base, i) by {
            if i >= last && i < j {
                assert(trim(lines[i]).len() == 0);
            }
        }
        lemma_indent_end_shape(lines, a, base, j + 1, j + 1);
    }
}

/// A Python function ends on its last non-blank line indented deeper than
/// its `def`, before the first non-blank line that is not; blank lines in
/// between do not end it.
pub proof fn law_python_function_end(lines: Seq<Seq<char>>, a: int)
    requires
        0 <= a < lines.len(),
    ensures
        detected_function(Language::Python, lines, a) matches Some(f) ==> ends_at_dedent(
            lines,
            a,
            leading_blanks(lines[a]),
            f,
        ),
{
    let base = leading_blanks(lines[a]);
    lemma_indent_end_shape(lines, a, base, a + 1, a + 1);
    let e = indent_end(lines, base, a + 1, a + 1);
    if let Some(f) = detected_function(Language::Python, lines, a) {
        assert(f.end_line == e);
        assert(ends_at_dedent(lines, a, base, f));
    }
}

/// Every function in the report of a Python file ends on its last non-blank
/// line indented deeper than its `def`, before the first non-blank line that
/// is not.
pub proof fn law_reported_python_functions_end(
    path: Seq<char>,
    lines: Seq<Seq<char>>,
    th: RuleThresholds,
    k: int,
)
    requires
        0 <= k < file_report(Language::Python, path, lines, th).metrics.functions.len(),
    ensures
        ({
            let f = file_report(Language::Python, path, lines, th).metrics.functions[k];
            ends_at_dedent(lines, f.start_line - 1, leading_blanks(lines[f.start_line - 1]), f)
        }),
{
    lemma_functions_upto_detected(Language::Python, lines, lines.len() as int, k);
    let a = choose|a: int|
        0 <= a < lines.len() && detected_function(Language::Python, lines, a) == Some(
            #[trigger] functions_upto(Language::Python, lines, lines.len() as int)[k],
        );
    law_python_function_end(lines, a);
}

// ---------------------------------------------------------------------------
// What one more line adds to a file's statistics
// ---------------------------------------------------------------------------

/// One more line in a Rust file adds one line, counts it as blank, comment
/// or code by its trimmed text, and adds to each structure count it shows:
/// `mod `, `impl `, `struct `, `enum `, `trait `, `match `, a loop, `unsafe`.
pub proof fn law_rust_line_step(lines: Seq<Seq<char>>, l: Seq<char>)
    ensures
        ({
            let m0 = file_metrics(Language::Rust, lines);
            let m1 = file_metrics(Language::Rust, lines.push(l));
            let t = trim(l);
            let s = trim_start(l);
            &&& m1.total_lines == m0.total_lines + 1nat
            &&& m1.blank_lines == m0.blank_lines + (if t.len() == 0 {
                1nat
            } else {
                0nat
            })
            &&& m1.comment_lines == m0.comment_lines + (if t.len() != 0 && (starts_with(t, "//"@) || starts_with(t, "/*"@) || starts_with(t, "*"@) || starts_with(t, "#"@)) {
                1nat
            } else {
                0nat
            })
            &&& m1.code_lines == m0.code_lines + (if t.len() != 0 && !(starts_with(t, "//"@) || starts_with(t, "/*"@) || starts_with(t, "*"@) || starts_with(t, "#"@)) {
                1nat
            } else {
                0nat
            })
            &&& m1.total_line_length == m0.total_line_length + l.len()
            &&& m1.module_count == m0.module_count + (if starts_with(t, "mod "@) {
                1nat
            } else {
                0nat
            })
            &&& m1.impl_count == m0.impl_count + (if starts_with(t, "impl "@) {
                1nat
            } else {
                0nat
            })
            &&& m1.struct_count == m0.struct_count + (if starts_with(t, "struct "@) || contains(t, " struct "@) {
                1nat
            } else {
                0nat
            })
            &&& m1.enum_count == m0.enum_count + (if starts_with(t, "enum "@) || contains(t, " enum "@) {
                1nat
            } else {
                0nat
            })
            &&& m1.trait_count == m0.trait_count + (if starts_with(t, "trait "@) || contains(t, " trait "@) {
                1nat
            } else {
                0nat
            })
            &&& m1.match_count == m0.match_count + (if contains(t, "match "@) {
                1nat
            } else {
                0nat
            })
            &&& m1.loop_count == m0.loop_count + (if contains(t, " for "@) || starts_with(t, "for "@) || contains(t, "while "@) {
                1nat
            } else {
                0nat
            })
            &&& m1.unsafe_count == m0.unsafe_count + (if contains(t, "unsafe"@) {
                1nat
            } else {
                0nat
            })
            &&& m1.longest_line_length == if l.len() > m0.longest_line_length {
                l.len()
            } else {
                m0.longest_line_length
            }
        }),
{
    assert(lines.push(l).drop_last() == lines);
}

/// One more line in a Python file adds one line, counts it as blank,
/// comment or code by its trimmed text, and counts a `class `, a loop or a
/// `match ` that opens it (after indentation); the Rust-only counts stay 0.
pub proof fn law_python_line_step(lines: Seq<Seq<char>>, l: Seq<char>)
    ensures
        ({
            let m0 = file_metrics(Language::Python, lines);
            let m1 = file_metrics(Language::Python, lines.push(l));
            let t = trim(l);
            let s = trim_start(l);
            &&& m1.total_lines == m0.total_lines + 1nat
            &&& m1.blank_lines == m0.blank_lines + (if t.len() == 0 {
                1nat
            } else {
                0nat
            })
            &&& m1.comment_lines == m0.comment_lines + (if t.len() != 0 && (starts_with(t, "//"@) || starts_with(t, "/*"@) || starts_with(t, "*"@) || starts_with(t, "#"@)) {
                1nat
            } else {
                0nat
            })
            &&& m1.code_lines == m0.code_lines + (if t.len() != 0 && !(starts_with(t, "//"@) || starts_with(t, "/*"@) || starts_with(t, "*"@) || starts_with(t, "#"@)) {
                1nat
            } else {
                0nat
            })
            &&& m1.total_line_length == m0.total_line_length + l.len()
            &&& m1.struct_count == m0.struct_count + (if starts_with(s, "class "@) {
                1nat
            } else {
                0nat
            })
            &&& m1.loop_count == m0.loop_count + (if starts_with(s, "for "@) || starts_with(s, "while "@) {
                1nat
            } else {
                0nat
            })
            &&& m1.match_count == m0.match_count + (if starts_with(s, "match "@) {
                1nat
            } else {
                0nat
            })
            &&& m1.module_count == m0.module_count + 0nat
            &&& m1.enum_count == m0.enum_count + 0nat
            &&& m1.trait_count == m0.trait_count + 0nat
            &&& m1.impl_count == m0.impl_count + 0nat
            &&& m1.unsafe_count == m0.unsafe_count + 0nat
            &&& m1.longest_line_length == if l.len() > m0.longest_line_length {
                l.len()
            } else {
                m0.longest_line_length
            }
        }),
{
    assert(lines.push(l).drop_last() == lines);
}

/// One more line in a C/C++ file adds one line, counts it as blank, comment
/// or code by its trimmed text, and counts a `struct ` or `class `, an
/// `enum `, a loop or a `switch` on it; the Rust-only counts stay 0.
pub proof fn law_cpp_line_step(lines: Seq<Seq<char>>, l: Seq<char>)
    ensures
        ({
            let m0 = file_metrics(Language::Cpp, lines);
            let m1 = file_metrics(Language::Cpp, lines.push(l));
            let t = trim(l);
            let s = trim_start(l);
            &&& m1.total_lines == m0.total_lines + 1nat
            &&& m1.blank_lines == m0.blank_lines + (if t.len() == 0 {
                1nat
            } else {
                0nat
            })
            &&& m1.comment_lines == m0.comment_lines + (if t.len() != 0 && (starts_with(t, "//"@) || starts_with(t, "/*"@) || starts_with(t, "*"@) || starts_with(t, "#"@)) {
                1nat
            } else {
                0nat
            })
            &&& m1.code_lines == m0.code_lines + (if t.len() != 0 && !(starts_with(t, "//"@) || starts_with(t, "/*"@) || starts_with(t, "*"@) || starts_with(t, "#"@)) {
                1nat
            } else {
                0nat
            })
            &&& m1.total_line_length == m0.total_line_length + l.len()
            &&& m1.struct_count == m0.struct_count + (if starts_with(t, "struct "@) || starts_with(t, "class "@) {
                1nat
            } else {
                0nat
            })
            &&& m1.enum_count == m0.enum_count + (if starts_with(t, "enum "@) {
                1nat
            } else {
                0nat
            })
            &&& m1.loop_count == m0.loop_count + (if starts_with(t, "for "@) || starts_with(t, "while "@) {
                1nat
            } else {
                0nat
            })
            &&& m1.match_count == m0.match_count + (if contains(t, "switch"@) {
                1nat
            } else {
                0nat
            })
            &&& m1.module_count == m0.module_count + 0nat
            &&& m1.trait_count == m0.trait_count + 0nat
            &&& m1.impl_count == m0.impl_count + 0nat
            &&& m1.unsafe_count == m0.unsafe_count + 0nat
            &&& m1.longest_line_length == if l.len() > m0.longest_line_length {
                l.len()
            } else {
                m0.longest_line_length
            }
        }),
{
    assert(lines.push(l).drop_last() == lines);
    reveal_strlit("struct ");
    reveal_strlit("class ");
    let t = trim(l);
    if starts_with(t, "struct "@) && starts_with(t, "class "@) {
        assert(t.subrange(0, 7)[0] == 's');
        assert(t.subrange(0, 6)[0] == 'c');
    }
}

// ---------------------------------------------------------------------------
// Which lines give which findings
// ---------------------------------------------------------------------------

/// The finding of severity `severity`, rule `rule` and message `message` on
/// the line at index `i` of a file at `path`: column 1, the line itself as
/// its snippet.
pub open spec fn finding_on(
    path: Seq<char>,
    lines: Seq<Seq<char>>,
    i: int,
    severity: Severity,
    rule: Seq<char>,
    message: Seq<char>,
) -> IssueView {
    IssueView {
        rule_name: rule,
        severity,
        file_path: path,
        position: Position { line: (i + 1) as usize, column: 1 },
        message,
        snippet: lines[i],
    }
}

/// `issues` hold the finding `v`.
pub open spec fn has_issue(issues: Seq<IssueView>, v: IssueView) -> bool {
    exists|k: int| 0 <= k < issues.len() && issues[k] == v
}

proof fn lemma_has_issue_concat(a: Seq<IssueView>, b: Seq<IssueView>, v: IssueView)
    ensures
        has_issue(a, v) || has_issue(b, v) ==> has_issue(a + b, v),
{
    if has_issue(a, v) {
        let k = choose|k: int| 0 <= k < a.len() && a[k] == v;
        assert((a + b)[k] == v);
    } else if has_issue(b, v) {
        let k = choose|k: int| 0 <= k < b.len() && b[k] == v;
        assert((a + b)[a.len() + k] == v);
    }
}

proof fn lemma_emit_has(
    path: Seq<char>,
    lines: Seq<Seq<char>>,
    i: int,
    cond: bool,
    severity: Severity,
    rule: Seq<char>,
    message: Seq<char>,
)
    requires
        0 <= i < lines.len(),
        lines.len() <= usize::MAX,
    ensures
        cond ==> has_issue(
            emit_if(cond, issue_view(severity, rule, message, path, i + 1, lines[i])),
            finding_on(path, lines, i, severity, rule, message),
        ),
{
    if cond {
        let e = emit_if(cond, issue_view(severity, rule, message, path, i + 1, lines[i]));
        assert(e[0] == finding_on(path, lines, i, severity, rule, message));
    }
}

proof fn lemma_line_issue_in_upto(
    lang: Language,
    path: Seq<char>,
    lines: Seq<Seq<char>>,
    th: RuleThresholds,
    n: int,
    i: int,
    v: IssueView,
)
    requires
        0 <= i < n,
        has_issue(line_issues(lang, path, lines, th, i), v),
    ensures
        has_issue(line_issues_upto(lang, path, lines, th, n), v),
    decreases n,
{
    if i < n - 1 {
        lemma_line_issue_in_upto(lang, path, lines, th, n - 1, i, v);
    }
    lemma_has_issue_concat(
        line_issues_upto(lang, path, lines, th, n - 1),
        line_issues(lang, path, lines, th, n - 1),
        v,
    );
}

proof fn lemma_line_issue_in_file(
    lang: Language,
    path: Seq<char>,
    lines: Seq<Seq<char>>,
    th: RuleThresholds,
    i: int,
    v: IssueView,
)
    requires
        0 <= i < lines.len(),
    ensures
        has_issue(line_issues(lang, path, lines, th, i), v) ==> has_issue(
            file_report(lang, path, lines, th).issues,
            v,
        ),
{
    if has_issue(line_issues(lang, path, lines, th, i), v) {
        lemma_line_issue_in_upto(lang, path, lines, th, lines.len() as int, i, v);
        lemma_has_issue_concat(
            line_issues_upto(lang, path, lines, th, lines.len() as int),
            shared_issues(path, lines, th, nesting_depth(lang, lines)),
            v,
        );
    }
}

proof fn lemma_marker_issue_in_file(
    lang: Language,
    path: Seq<char>,
    lines: Seq<Seq<char>>,
    th: RuleThresholds,
    i: int,
    v: IssueView,
)
    requires
        0 <= i < lines.len(),
    ensures
        has_issue(marker_issues(lang, path, lines[i], i), v) ==> has_issue(
            file_report(lang, path, lines, th).issues,
            v,
        ),
{
    if has_issue(marker_issues(lang, path, lines[i], i), v) {
        let fpart = match detected_function(lang, lines, i) {
            Some(f) => function_issues(lang, path, th, f, lines[i]),
            None => Seq::empty(),
        };
        lemma_has_issue_concat(fpart, marker_issues(lang, path, lines[i], i), v);
        assert(line_issues(lang, path, lines, th, i) == fpart + marker_issues(lang, path, lines[i], i));
        lemma_line_issue_in_upto(lang, path, lines, th, lines.len() as int, i, v);
        lemma_has_issue_concat(
            line_issues_upto(lang, path, lines, th, lines.len() as int),
            shared_issues(path, lines, th, nesting_depth(lang, lines)),
            v,
        );
    }
}

/// Each Rust rule on a line gives its finding on that line: `.unwrap()` or
/// `.expect(`, `todo!` or `unimplemented!`, `unsafe`, and `dbg!(`.
pub proof fn law_rust_line_findings(path: Seq<char>, lines: Seq<Seq<char>>, th: RuleThresholds, i: int)
    requires
        0 <= i < lines.len(),
        lines.len() <= usize::MAX,
    ensures
        contains(trim(lines[i]), ".unwrap()"@) || contains(trim(lines[i]), ".expect("@) ==> has_issue(
            file_report(Language::Rust, path, lines, th).issues,
            finding_on(path, lines, i, Severity::Warning, "rust.unwrap"@, "use of unwrap/expect may cause panic"@),
        ),
        contains(trim(lines[i]), "todo!"@) || contains(trim(lines[i]), "unimplemented!"@) ==> has_issue(
            file_report(Language::Rust, path, lines, th).issues,
            finding_on(path, lines, i, Severity::Warning, "rust.todo"@, "unfinished code marker found"@),
        ),
        contains(trim(lines[i]), "unsafe"@) ==> has_issue(
            file_report(Language::Rust, path, lines, th).issues,
            finding_on(path, lines, i, Severity::Info, "rust.unsafe"@, "unsafe code detected"@),
        ),
        contains(trim(lines[i]), "dbg!("@) ==> has_issue(
            file_report(Language::Rust, path, lines, th).issues,
            finding_on(path, lines, i, Severity::Info, "rust.dbg"@, "debug macro dbg!() found"@),
        ),
{
    let t = trim(lines[i]);
    let line = lines[i];
    let n = i + 1;
    let e0 = emit_if(contains(t, ".unwrap()"@) || contains(t, ".expect("@), issue_view(Severity::Warning, "rust.unwrap"@, "use of unwrap/expect may cause panic"@, path, n, line));
    lemma_emit_has(path, lines, i, contains(t, ".unwrap()"@) || contains(t, ".expect("@), Severity::Warning, "rust.unwrap"@, "use of unwrap/expect may cause panic"@);
    let e1 = emit_if(contains(t, "todo!"@) || contains(t, "unimplemented!"@), issue_view(Severity::Warning, "rust.todo"@, "unfinished code marker found"@, path, n, line));
    lemma_emit_has(path, lines, i, contains(t, "todo!"@) || contains(t, "unimplemented!"@), Severity::Warning, "rust.todo"@, "unfinished code marker found"@);
    let e2 = emit_if(contains(t, "unsafe"@), issue_view(Severity::Info, "rust.unsafe"@, "unsafe code detected"@, path, n, line));
    lemma_emit_has(path, lines, i, contains(t, "unsafe"@), Severity::Info, "rust.unsafe"@, "unsafe code detected"@);
    let e3 = emit_if(contains(t, "dbg!("@), issue_view(Severity::Info, "rust.dbg"@, "debug macro dbg!() found"@, path, n, line));
    lemma_emit_has(path, lines, i, contains(t, "dbg!("@), Severity::Info, "rust.dbg"@, "debug macro dbg!() found"@);
    assert(marker_issues(Language::Rust, path, line, i) == e0 + e1 + e2 + e3);
    let v0 = finding_on(path, lines, i, Severity::Warning, "rust.unwrap"@, "use of unwrap/expect may cause panic"@);
    lemma_has_issue_concat(e0, e1, v0);
    lemma_has_issue_concat(e0 + e1, e2, v0);
    lemma_has_issue_concat(e0 + e1 + e2, e3, v0);
    lemma_marker_issue_in_file(Language::Rust, path, lines, th, i, v0);
    let v1 = finding_on(path, lines, i, Severity::Warning, "rust.todo"@, "unfinished code marker found"@);
    lemma_has_issue_concat(e0, e1, v1);
    lemma_has_issue_concat(e0 + e1, e2, v1);
    lemma_has_issue_concat(e0 + e1 + e2, e3, v1);
    lemma_marker_issue_in_file(Language::Rust, path, lines, th, i, v1);
    let v2 = finding_on(path, lines, i, Severity::Info, "rust.unsafe"@, "unsafe code detected"@);
    lemma_has_issue_concat(e0, e1, v2);
    lemma_has_issue_concat(e0 + e1, e2, v2);
    lemma_has_issue_concat(e0 + e1 + e2, e3, v2);
    lemma_marker_issue_in_file(Language::Rust, path, lines, th, i, v2);
    let v3 = finding_on(path, lines, i, Severity::Info, "rust.dbg"@, "debug macro dbg!() found"@);
    lemma_has_issue_concat(e0, e1, v3);
    lemma_has_issue_concat(e0 + e1, e2, v3);
    lemma_has_issue_concat(e0 + e1 + e2, e3, v3);
    lemma_marker_issue_in_file(Language::Rust, path, lines, th, i, v3);
}

/// Each Python rule on a line gives its finding on that line: a call of
/// `eval` or `exec`, a bare `except:`, a call of `print`, and a lone `pass`.
pub proof fn law_python_line_findings(path: Seq<char>, lines: Seq<Seq<char>>, th: RuleThresholds, i: int)
    requires
        0 <= i < lines.len(),
        lines.len() <= usize::MAX,
    ensures
        calls(trim(lines[i]), "eval("@) ==> has_issue(
            file_report(Language::Python, path, lines, th).issues,
            finding_on(path, lines, i, Severity::Warning, "python.eval"@, "use of eval() is risky"@),
        ),
        calls(trim(lines[i]), "exec("@) ==> has_issue(
            file_report(Language::Python, path, lines, th).issues,
            finding_on(path, lines, i, Severity::Warning, "python.exec"@, "use of exec() is risky"@),
        ),
        trim(lines[i]) == "except:"@ || starts_with(trim(lines[i]), "except:"@) ==> has_issue(
            file_report(Language::Python, path, lines, th).issues,
            finding_on(path, lines, i, Severity::Warning, "python.bare_except"@, "bare except clause found"@),
        ),
        calls(trim(lines[i]), "print("@) ==> has_issue(
            file_report(Language::Python, path, lines, th).issues,
            finding_on(path, lines, i, Severity::Info, "python.print"@, "possible debug print found"@),
        ),
        trim(lines[i]) == "pass"@ ==> has_issue(
            file_report(Language::Python, path, lines, th).issues,
            finding_on(path, lines, i, Severity::Info, "python.pass"@, "pass statement found, check if logic is incomplete"@),
        ),
{
    let t = trim(lines[i]);
    let line = lines[i];
    let n = i + 1;
    let e0 = emit_if(calls(t, "eval("@), issue_view(Severity::Warning, "python.eval"@, "use of eval() is risky"@, path, n, line));
    lemma_emit_has(path, lines, i, calls(t, "eval("@), Severity::Warning, "python.eval"@, "use of eval() is risky"@);
    let e1 = emit_if(calls(t, "exec("@), issue_view(Severity::Warning, "python.exec"@, "use of exec() is risky"@, path, n, line));
    lemma_emit_has(path, lines, i, calls(t, "exec("@), Severity::Warning, "python.exec"@, "use of exec() is risky"@);
    let e2 = emit_if(t == "except:"@ || starts_with(t, "except:"@), issue_view(Severity::Warning, "python.bare_except"@, "bare except clause found"@, path, n, line));
    lemma_emit_has(path, lines, i, t == "except:"@ || starts_with(t, "except:"@), Severity::Warning, "python.bare_except"@, "bare except clause found"@);
    let e3 = emit_if(calls(t, "print("@), issue_view(Severity::Info, "python.print"@, "possible debug print found"@, path, n, line));
    lemma_emit_has(path, lines, i, calls(t, "print("@), Severity::Info, "python.print"@, "possible debug print found"@);
    let e4 = emit_if(t == "pass"@, issue_view(Severity::Info, "python.pass"@, "pass statement found, check if logic is incomplete"@, path, n, line));
    lemma_emit_has(path, lines, i, t == "pass"@, Severity::Info, "python.pass"@, "pass statement found, check if logic is incomplete"@);
    assert(marker_issues(Language::Python, path, line, i) == e0 + e1 + e2 + e3 + e4);
    let v0 = finding_on(path, lines, i, Severity::Warning, "python.eval"@, "use of eval() is risky"@);
    lemma_has_issue_concat(e0, e1, v0);
    lemma_has_issue_concat(e0 + e1, e2, v0);
    lemma_has_issue_concat(e0 + e1 + e2, e3, v0);
    lemma_has_issue_concat(e0 + e1 + e2 + e3, e4, v0);
    lemma_marker_issue_in_file(Language::Python, path, lines, th, i, v0);
    let v1 = finding_on(path, lines, i, Severity::Warning, "python.exec"@, "use of exec() is risky"@);
    lemma_has_issue_concat(e0, e1, v1);
    lemma_has_issue_concat(e0 + e1, e2, v1);
    lemma_has_issue_concat(e0 + e1 + e2, e3, v1);
    lemma_has_issue_concat(e0 + e1 + e2 + e3, e4, v1);
    lemma_marker_issue_in_file(Language::Python, path, lines, th, i, v1);
    let v2 = finding_on(path, lines, i, Severity::Warning, "python.bare_except"@, "bare except clause found"@);
    lemma_has_issue_concat(e0, e1, v2);
    lemma_has_issue_concat(e0 + e1, e2, v2);
    lemma_has_issue_concat(e0 + e1 + e2, e3, v2);
    lemma_has_issue_concat(e0 + e1 + e2 + e3, e4, v2);
    lemma_marker_issue_in_file(Language::Python, path, lines, th, i, v2);
    let v3 = finding_on(path, lines, i, Severity::Info, "python.print"@, "possible debug print found"@);
    lemma_has_issue_concat(e0, e1, v3);
    lemma_has_issue_concat(e0 + e1, e2, v3);
    lemma_has_issue_concat(e0 + e1 + e2, e3, v3);
    lemma_has_issue_concat(e0 + e1 + e2 + e3, e4, v3);
    lemma_marker_issue_in_file(Language::Python, path, lines, th, i, v3);
    let v4 = finding_on(path, lines, i, Severity::Info, "python.pass"@, "pass statement found, check if logic is incomplete"@);
    lemma_has_issue_concat(e0, e1, v4);
    lemma_has_issue_concat(e0 + e1, e2, v4);
    lemma_has_issue_concat(e0 + e1 + e2, e3, v4);
    lemma_has_issue_concat(e0 + e1 + e2 + e3, e4, v4);
    lemma_marker_issue_in_file(Language::Python, path, lines, th, i, v4);
}

/// Each C/C++ rule on a line gives its finding on that line: a call of
/// `gets`, of `strcpy` or `strcat`, of `printf` or `cout <<`, of `malloc` or
/// `free` or `new `/`delete `, and of `system`.
pub proof fn law_cpp_line_findings(path: Seq<char>, lines: Seq<Seq<char>>, th: RuleThresholds, i: int)
    requires
        0 <= i < lines.len(),
        lines.len() <= usize::MAX,
    ensures
        calls(trim(lines[i]), "gets("@) ==> has_issue(
            file_report(Language::Cpp, path, lines, th).issues,
            finding_on(path, lines, i, Severity::Error, "cpp.gets"@, "unsafe gets() usage found"@),
        ),
        calls(trim(lines[i]), "strcpy("@) || calls(trim(lines[i]), "strcat("@) ==> has_issue(
            file_report(Language::Cpp, path, lines, th).issues,
            finding_on(path, lines, i, Severity::Warning, "cpp.unsafe_string"@, "unsafe C string function found"@),
        ),
        calls(trim(lines[i]), "printf("@) || contains(trim(lines[i]), "cout <<"@) ==> has_issue(
            file_report(Language::Cpp, path, lines, th).issues,
            finding_on(path, lines, i, Severity::Info, "cpp.output"@, "possible debug output found"@),
        ),
        calls(trim(lines[i]), "malloc("@) || calls(trim(lines[i]), "free("@) || contains(trim(lines[i]), "new "@) || contains(trim(lines[i]), "delete "@) ==> has_issue(
            file_report(Language::Cpp, path, lines, th).issues,
            finding_on(path, lines, i, Severity::Info, "cpp.memory"@, "manual memory management detected"@),
        ),
        calls(trim(lines[i]), "system("@) ==> has_issue(
            file_report(Language::Cpp, path, lines, th).issues,
            finding_on(path, lines, i, Severity::Warning, "cpp.system"@, "system() call found"@),
        ),
{
    let t = trim(lines[i]);
    let line = lines[i];
    let n = i + 1;
    let e0 = emit_if(calls(t, "gets("@), issue_view(Severity::Error, "cpp.gets"@, "unsafe gets() usage found"@, path, n, line));
    lemma_emit_has(path, lines, i, calls(t, "gets("@), Severity::Error, "cpp.gets"@, "unsafe gets() usage found"@);
    let e1 = emit_if(calls(t, "strcpy("@) || calls(t, "strcat("@), issue_view(Severity::Warning, "cpp.unsafe_string"@, "unsafe C string function found"@, path, n, line));
    lemma_emit_has(path, lines, i, calls(t, "strcpy("@) || calls(t, "strcat("@), Severity::Warning, "cpp.unsafe_string"@, "unsafe C string function found"@);
    let e2 = emit_if(calls(t, "printf("@) || contains(t, "cout <<"@), issue_view(Severity::Info, "cpp.output"@, "possible debug output found"@, path, n, line));
    lemma_emit_has(path, lines, i, calls(t, "printf("@) || contains(t, "cout <<"@), Severity::Info, "cpp.output"@, "possible debug output found"@);
    let e3 = emit_if(calls(t, "malloc("@) || calls(t, "free("@) || contains(t, "new "@) || contains(t, "delete "@), issue_view(Severity::Info, "cpp.memory"@, "manual memory management detected"@, path, n, line));
    lemma_emit_has(path, lines, i, calls(t, "malloc("@) || calls(t, "free("@) || contains(t, "new "@) || contains(t, "delete "@), Severity::Info, "cpp.memory"@, "manual memory management detected"@);
    let e4 = emit_if(calls(t, "system("@), issue_view(Severity::Warning, "cpp.system"@, "system() call found"@, path, n, line));
    lemma_emit_has(path, lines, i, calls(t, "system("@), Severity::Warning, "cpp.system"@, "system() call found"@);
    assert(marker_issues(Language::Cpp, path, line, i) == e0 + e1 + e2 + e3 + e4);
    let v0 = finding_on(path, lines, i, Severity::Error, "cpp.gets"@, "unsafe gets() usage found"@);
    lemma_has_issue_concat(e0, e1, v0);
    lemma_has_issue_concat(e0 + e1, e2, v0);
    lemma_has_issue_concat(e0 + e1 + e2, e3, v0);
    lemma_has_issue_concat(e0 + e1 + e2 + e3, e4, v0);
    lemma_marker_issue_in_file(Language::Cpp, path, lines, th, i, v0);
    let v1 = finding_on(path, lines, i, Severity::Warning, "cpp.unsafe_string"@, "unsafe C string function found"@);
    lemma_has_issue_concat(e0, e1, v1);
    lemma_has_issue_concat(e0 + e1, e2, v1);
    lemma_has_issue_concat(e0 + e1 + e2, e3, v1);
    lemma_has_issue_concat(e0 + e1 + e2 + e3, e4, v1);
    lemma_marker_issue_in_file(Language::Cpp, path, lines, th, i, v1);
    let v2 = finding_on(path, lines, i, Severity::Info, "cpp.output"@, "possible debug output found"@);
    lemma_has_issue_concat(e0, e1, v2);
    lemma_has_issue_concat(e0 + e1, e2, v2);
    lemma_has_issue_concat(e0 + e1 + e2, e3, v2);
    lemma_has_issue_concat(e0 + e1 + e2 + e3, e4, v2);
    lemma_marker_issue_in_file(Language::Cpp, path, lines, th, i, v2);
    let v3 = finding_on(path, lines, i, Severity::Info, "cpp.memory"@, "manual memory management detected"@);
    lemma_has_issue_concat(e0, e1, v3);
    lemma_has_issue_concat(e0 + e1, e2, v3);
    lemma_has_issue_concat(e0 + e1 + e2, e3, v3);
    lemma_has_issue_concat(e0 + e1 + e2 + e3, e4, v3);
    lemma_marker_issue_in_file(Language::Cpp, path, lines, th, i, v3);
    let v4 = finding_on(path, lines, i, Severity::Warning, "cpp.system"@, "system() call found"@);
    lemma_has_issue_concat(e0, e1, v4);
    lemma_has_issue_concat(e0 + e1, e2, v4);
    lemma_has_issue_concat(e0 + e1 + e2, e3, v4);
    lemma_has_issue_concat(e0 + e1 + e2 + e3, e4, v4);
    lemma_marker_issue_in_file(Language::Cpp, path, lines, th, i, v4);
}

/// A function too long or with too many parameters gives the matching
/// warning on the line it starts on.
pub proof fn law_function_findings(
    lang: Language,
    path: Seq<char>,
    lines: Seq<Seq<char>>,
    th: RuleThresholds,
    a: int,
)
    requires
        0 <= a < lines.len(),
        lines.len() <= usize::MAX,
    ensures
        detected_function(lang, lines, a) matches Some(f) ==> {
            &&& f.line_count > th.max_function_length ==> has_issue(
                file_report(lang, path, lines, th).issues,
                finding_on(
                    path,
                    lines,
                    a,
                    Severity::Warning,
                    match lang {
                        Language::Rust => "rust.long_function"@,
                        Language::Python => "python.long_function"@,
                        Language::Cpp => "cpp.long_function"@,
                    },
                    "function is longer than configured threshold"@,
                ),
            )
            &&& f.parameter_count > th.max_parameters ==> has_issue(
                file_report(lang, path, lines, th).issues,
                finding_on(
                    path,
                    lines,
                    a,
                    Severity::Warning,
                    match lang {
                        Language::Rust => "rust.too_many_parameters"@,
                        Language::Python => "python.too_many_parameters"@,
                        Language::Cpp => "cpp.too_many_parameters"@,
                    },
                    "function has too many parameters"@,
                ),
            )
        },
{
    crate::laws::law_function_extent(lang, lines, a);
    if let Some(f) = detected_function(lang, lines, a) {
        let line = lines[a];
        let e0 = emit_if(
            f.line_count > th.max_function_length,
            issue_view(
                Severity::Warning,
                long_function_rule(lang),
                "function is longer than configured threshold"@,
                path,
                f.start_line as int,
                line,
            ),
        );
        let e1 = emit_if(
            f.parameter_count > th.max_parameters,
            issue_view(
                Severity::Warning,
                many_parameters_rule(lang),
                "function has too many parameters"@,
                path,
                f.start_line as int,
                line,
            ),
        );
        lemma_emit_has(
            path,
            lines,
            a,
            f.line_count > th.max_function_length,
            Severity::Warning,
            long_function_rule(lang),
            "function is longer than configured threshold"@,
        );
        lemma_emit_has(
            path,
            lines,
            a,
            f.parameter_count > th.max_parameters,
            Severity::Warning,
            many_parameters_rule(lang),
            "function has too many parameters"@,
        );
        let v0 = finding_on(
            path,
            lines,
            a,
            Severity::Warning,
            long_function_rule(lang),
            "function is longer than configured threshold"@,
        );
        let v1 = finding_on(
            path,
            lines,
            a,
            Severity::Warning,
            many_parameters_rule(lang),
            "function has too many parameters"@,
        );
        assert(function_issues(lang, path, th, f, line) == e0 + e1);
        let m = marker_issues(lang, path, line, a);
        assert(line_issues(lang, path, lines, th, a) == e0 + e1 + m);
        lemma_has_issue_concat(e0, e1, v0);
        lemma_has_issue_concat(e0, e1, v1);
        lemma_has_issue_concat(e0 + e1, m, v0);
        lemma_has_issue_concat(e0 + e1, m, v1);
        lemma_line_issue_in_file(lang, path, lines, th, a, v0);
        lemma_line_issue_in_file(lang, path, lines, th, a, v1);
    }
}

proof fn lemma_long_line_in(path: Seq<char>, lines: Seq<Seq<char>>, th: RuleThresholds, n: int, i: int)
    requires
        0 <= i < n <= lines.len(),
        lines.len() <= usize::MAX,
        lines[i].len() > th.max_line_length,
    ensures
        has_issue(
            long_line_issues(path, lines, th, n),
            finding_on(
                path,
                lines,
                i,
                Severity::Info,
                "style.long_line"@,
                "line longer than configured threshold"@,
            ),
        ),
    decreases n,
{
    let v = finding_on(
        path,
        lines,
        i,
        Severity::Info,
        "style.long_line"@,
        "line longer than configured threshold"@,
    );
    let e = emit_if(
        lines[n - 1].len() > th.max_line_length,
        issue_view(
            Severity::Info,
            "style.long_line"@,
            "line longer than configured threshold"@,
            path,
            n,
            lines[n - 1],
        ),
    );
    if i < n - 1 {
        lemma_long_line_in(path, lines, th, n - 1, i);
    } else {
        lemma_emit_has(
            path,
            lines,
            i,
            true,
            Severity::Info,
            "style.long_line"@,
            "line longer than configured threshold"@,
        );
    }
    lemma_has_issue_concat(long_line_issues(path, lines, th, n - 1), e, v);
}

/// A line longer (in characters) than the threshold gives a `style.long_line`
/// finding on it, and a file of more lines than the threshold gives a
/// `size.large_file` warning on its first line.
pub proof fn law_size_findings(
    lang: Language,
    path: Seq<char>,
    lines: Seq<Seq<char>>,
    th: RuleThresholds,
    i: int,
)
    requires
        0 <= i < lines.len(),
        lines.len() <= usize::MAX,
    ensures
        lines[i].len() > th.max_line_length ==> has_issue(
            file_report(lang, path, lines, th).issues,
            finding_on(
                path,
                lines,
                i,
                Severity::Info,
                "style.long_line"@,
                "line longer than configured threshold"@,
            ),
        ),
        lines.len() > th.max_file_lines ==> has_issue(
            file_report(lang, path, lines, th).issues,
            finding_on(
                path,
                lines,
                0,
                Severity::Warning,
                "size.large_file"@,
                "file is larger than configured threshold"@,
            ),
        ),
{
    let n = lines.len() as int;
    let up = line_issues_upto(lang, path, lines, th, n);
    let l = long_line_issues(path, lines, th, n);
    let big = emit_if(
        lines.len() > th.max_file_lines,
        issue_view(
            Severity::Warning,
            "size.large_file"@,
            "file is larger than configured threshold"@,
            path,
            1,
            lines[0],
        ),
    );
    let deep = emit_if(
        nesting_depth(lang, lines) > th.max_nesting_depth,
        issue_view(
            Severity::Warning,
            "style.deep_nesting"@,
            "nesting depth is larger than configured threshold"@,
            path,
            1,
            Seq::empty(),
        ),
    );
    assert(shared_issues(path, lines, th, nesting_depth(lang, lines)) == l + big + deep);
    let v = finding_on(
        path,
        lines,
        i,
        Severity::Info,
        "style.long_line"@,
        "line longer than configured threshold"@,
    );
    let w = finding_on(
        path,
        lines,
        0,
        Severity::Warning,
        "size.large_file"@,
        "file is larger than configured threshold"@,
    );
    if lines[i].len() > th.max_line_length {
        lemma_long_line_in(path, lines, th, n, i);
    }
    lemma_emit_has(
        path,
        lines,
        0,
        lines.len() > th.max_file_lines,
        Severity::Warning,
        "size.large_file"@,
        "file is larger than configured threshold"@,
    );
    lemma_has_issue_concat(l, big, v);
    lemma_has_issue_concat(l, big, w);
    lemma_has_issue_concat(l + big, deep, v);
    lemma_has_issue_concat(l + big, deep, w);
    lemma_has_issue_concat(up, l + big + deep, v);
    lemma_has_issue_concat(up, l + big + deep, w);
}

/// A file nested deeper than the threshold gives a `style.deep_nesting`
/// warning on line 1, with no snippet.
pub proof fn law_deep_nesting_finding(
    lang: Language,
    path: Seq<char>,
    lines: Seq<Seq<char>>,
    th: RuleThresholds,
)
    ensures
        file_report(lang, path, lines, th).metrics.max_nesting_depth > th.max_nesting_depth
            ==> has_issue(
            file_report(lang, path, lines, th).issues,
            (IssueView {
                rule_name: "style.deep_nesting"@,
                severity: Severity::Warning,
                file_path: path,
                position: Position { line: 1, column: 1 },
                message: "nesting depth is larger than configured threshold"@,
                snippet: Seq::empty(),
            }),
        ),
{
    let n = lines.len() as int;
    let up = line_issues_upto(lang, path, lines, th, n);
    let l = long_line_issues(path, lines, th, n);
    let big = emit_if(
        lines.len() > th.max_file_lines,
        issue_view(
            Severity::Warning,
            "size.large_file"@,
            "file is larger than configured threshold"@,
            path,
            1,
            if lines.len() > 0 {
                lines[0]
            } else {
                Seq::empty()
            },
        ),
    );
    let deep = emit_if(
        nesting_depth(lang, lines) > th.max_nesting_depth,
        issue_view(
            Severity::Warning,
            "style.deep_nesting"@,
            "nesting depth is larger than configured threshold"@,
            path,
            1,
            Seq::empty(),
        ),
    );
    let v = IssueView {
        rule_name: "style.deep_nesting"@,
        severity: Severity::Warning,
        file_path: path,
        position: Position { line: 1, column: 1 },
        message: "nesting depth is larger than configured threshold"@,
        snippet: Seq::empty(),
    };
    assert(shared_issues(path, lines, th, nesting_depth(lang, lines)) == l + big + deep);
    if nesting_depth(lang, lines) > th.max_nesting_depth {
        assert(deep[0] == v);
    }
    lemma_has_issue_concat(l + big, deep, v);
    lemma_has_issue_concat(up, l + big + deep, v);
}

// ---------------------------------------------------------------------------
// Nesting depth
// ---------------------------------------------------------------------------

proof fn lemma_scan_bounds(st: (nat, nat), s: Seq<char>)
    requires
        st.0 <= st.1,
    ensures
        ({
            let r = brace_scan(st, s);
            &&& r.0 <= r.1
            &&& st.1 <= r.1
            &&& r.1 <= st.1 + count_char(s, '{')
            &&& count_char(s, '{') > 0 ==> r.1 >= 1
        }),
    decreases s.len(),
{
    if s.len() > 0 {
        lemma_scan_bounds(st, s.drop_last());
    }
}

proof fn lemma_scan_lines_bounds(lines: Seq<Seq<char>>)
    ensures
        brace_scan_lines(lines).0 <= brace_scan_lines(lines).1,
        brace_scan_lines(lines).1 <= char_total(lines, 0, lines.len() as int, '{'),
    decreases lines.len(),
{
    if lines.len() > 0 {
        lemma_scan_lines_bounds(lines.drop_last());
        lemma_scan_bounds(brace_scan_lines(lines.drop_last()), lines.last());
        lemma_char_total_drop_last(lines, '{');
    }
}

proof fn lemma_char_total_drop_last(lines: Seq<Seq<char>>, c: char)
    requires
        lines.len() > 0,
    ensures
        char_total(lines, 0, lines.len() as int, c) == char_total(
            lines.drop_last(),
            0,
            lines.len() - 1,
            c,
        ) + count_char(lines.last(), c),
{
    lemma_char_total_prefix(lines, c, lines.len() - 1);
}

proof fn lemma_char_total_prefix(lines: Seq<Seq<char>>, c: char, n: int)
    requires
        0 <= n < lines.len(),
    ensures
        char_total(lines, 0, n, c) == char_total(lines.drop_last(), 0, n, c),
    decreases n,
{
    if n > 0 {
        lemma_char_total_prefix(lines, c, n - 1);
    }
}

/// The brace nesting depth of a Rust or C/C++ file never falls when a line
/// is added, is at least 1 once a `{` has been seen, and is at most the
/// number of `{` in the file.
pub proof fn law_brace_depth(lang: Language, lines: Seq<Seq<char>>, l: Seq<char>)
    requires
        lang == Language::Rust || lang == Language::Cpp,
    ensures
        file_metrics(lang, lines).max_nesting_depth <= file_metrics(
            lang,
            lines.push(l),
        ).max_nesting_depth,
        file_metrics(lang, lines).max_nesting_depth <= char_total(
            lines,
            0,
            lines.len() as int,
            '{',
        ),
        count_char(l, '{') > 0 ==> file_metrics(lang, lines.push(l)).max_nesting_depth >= 1,
{
    lemma_scan_lines_bounds(lines);
    assert(lines.push(l).drop_last() == lines);
    lemma_scan_bounds(brace_scan_lines(lines), l);
}

/// The nesting depth of a Python file is the deepest indentation of its
/// lines, counted in steps of four bytes of leading whitespace: no line is
/// indented deeper, and some line is indented that deep.
pub proof fn law_indent_depth(lines: Seq<Seq<char>>)
    ensures
        forall|i: int|
            0 <= i < lines.len() ==> file_metrics(Language::Python, lines).max_nesting_depth >= utf8_len(
                #[trigger] lines[i].take(lead_end(lines[i], 0)),
            ) / 4,
        lines.len() > 0 ==> exists|i: int|
            0 <= i < lines.len() && file_metrics(Language::Python, lines).max_nesting_depth
                == utf8_len(#[trigger] lines[i].take(lead_end(lines[i], 0))) / 4,
    decreases lines.len(),
{
    if lines.len() > 0 {
        let prev = lines.drop_last();
        law_indent_depth(prev);
        assert forall|i: int| 0 <= i < prev.len() implies #[trigger] lines[i] == prev[i] by {}
        let last = lines.len() - 1;
        assert(lines.last() == lines[last]);
        if prev.len() > 0 {
            let j = choose|i: int|
                0 <= i < prev.len() && file_metrics(Language::Python, prev).max_nesting_depth
                    == utf8_len(#[trigger] prev[i].take(lead_end(prev[i], 0))) / 4;
            assert(lines[j] == prev[j]);
        }
    }
}

// ---------------------------------------------------------------------------
// Which files are analysed
// ---------------------------------------------------------------------------

/// One more source file adds one report to a project's analysis exactly when
/// its extension is `rs`, `py`, `c`, `cc` or `cpp`: a Rust report for `rs`, a
/// Python report for `py`, a C/C++ report for the others, each under the
/// file's path and over the lines of its text. Any other file adds nothing.
pub proof fn law_project_file_step(th: RuleThresholds, files: Seq<SourceFile>, x: SourceFile)
    ensures
        ({
            let before = project_reports(th, files);
            let after = project_reports(th, files.push(x));
            let lines = split_lines_spec(x.content@);
            match x.extension {
                Some(e) => if e@ == "rs"@ {
                    after == before.push(file_report(Language::Rust, x.path@, lines, th))
                } else if e@ == "py"@ {
                    after == before.push(file_report(Language::Python, x.path@, lines, th))
                } else if e@ == "c"@ || e@ == "cc"@ || e@ == "cpp"@ {
                    after == before.push(file_report(Language::Cpp, x.path@, lines, th))
                } else {
                    after == before
                },
                None => after == before,
            }
        }),
{
    let before = project_reports(th, files);
    assert(files.push(x).drop_last() == files);
    assert(files.push(x).last() == x);
    let lines = split_lines_spec(x.content@);
    match x.extension {
        Some(e) => {
            if e@ == "rs"@ {
                assert(before + seq![file_report(Language::Rust, x.path@, lines, th)] =~= before.push(
                    file_report(Language::Rust, x.path@, lines, th),
                ));
            } else if e@ == "py"@ {
                assert(before + seq![file_report(Language::Python, x.path@, lines, th)]
                    =~= before.push(file_report(Language::Python, x.path@, lines, th)));
            } else if e@ == "c"@ || e@ == "cc"@ || e@ == "cpp"@ {
                assert(before + seq![file_report(Language::Cpp, x.path@, lines, th)] =~= before.push(
                    file_report(Language::Cpp, x.path@, lines, th),
                ));
            } else {
                assert(before + Seq::<FileReportView>::empty() =~= before);
            }
        },
        None => {
            assert(before + Seq::<FileReportView>::empty() =~= before);
        },
    }
}

/// The file's extension is `rs`, `py`, `c`, `cc` or `cpp`.
pub open spec fn known_extension(x: SourceFile) -> bool {
    match x.extension {
        Some(e) => e@ == "rs"@ || e@ == "py"@ || e@ == "c"@ || e@ == "cc"@ || e@ == "cpp"@,
        None => false,
    }
}

proof fn lemma_no_reports(th: RuleThresholds, files: Seq<SourceFile>)
    ensures
        project_reports(th, files).len() == 0 <==> forall|i: int|
            0 <= i < files.len() ==> !known_extension(#[trigger] files[i]),
    decreases files.len(),
{
    if files.len() > 0 {
        let prev = files.drop_last();
        lemma_no_reports(th, prev);
        law_project_file_step(th, prev, files.last());
        assert(prev.push(files.last()) =~= files);
        assert forall|i: int| 0 <= i < prev.len() implies #[trigger] files[i] == prev[i] by {}
        if forall|i: int| 0 <= i < files.len() ==> !known_extension(#[trigger] files[i]) {
            assert(!known_extension(files[files.len() - 1]));
        }
    }
}

/// The analysis of a project is refused, with an invalid-input error that
/// says no supported source file was found, exactly when no file has the
/// extension of a known language; otherwise it keeps the root path and the
/// date it was given.
pub proof fn law_analysis_refusal(
    config: AnalysisConfig,
    files: Seq<SourceFile>,
    generated_at: Seq<char>,
    r: AppResult<AnalysisReport>,
)
    requires
        analysis_outcome(config, files, generated_at, r),
    ensures
        r is Err <==> forall|i: int| 0 <= i < files.len() ==> !known_extension(#[trigger] files[i]),
        r is Err ==> (r matches Err(AppError::InvalidInput(m))
            && m@ == "no supported source files found in target directory"@),
        r matches Ok(rep) ==> (rep.root_path@ == config.root_path@ && rep.generated_at@
            == generated_at),
{
    lemma_no_reports(config.thresholds, files);
}

// ---------------------------------------------------------------------------
// Signatures
// ---------------------------------------------------------------------------

proof fn lemma_find_first(s: Seq<char>, p: Seq<char>, k: int)
    requires
        0 <= k,
        matches_at(s, p, k),
        forall|j: int| 0 <= j < k ==> !matches_at(s, p, j),
    ensures
        find(s, p) == Some(k),
{
    lemma_find_from(s, p, 0);
}

/// The first `c` of `s` is at `k`: `find` of the one-character text `p`.
proof fn lemma_find_char(s: Seq<char>, p: Seq<char>, c: char, k: int)
    requires
        p.len() == 1,
        p[0] == c,
        0 <= k < s.len(),
        s[k] == c,
        forall|j: int| 0 <= j < k ==> s[j] != c,
    ensures
        find(s, p) == Some(k),
{
    assert(s.subrange(k, k + 1) =~= p);
    assert forall|j: int| 0 <= j < k implies !matches_at(s, p, j) by {
        if matches_at(s, p, j) {
            assert(s.subrange(j, j + 1)[0] == s[j]);
        }
    }
    lemma_find_first(s, p, k);
}

/// The parameters counted for a signature line: none when the text between
/// the first `(` and the next `)` is blank, else one more than its commas.
pub open spec fn counted_parameters(params: Seq<char>) -> nat {
    if trim(params).len() == 0 {
        0
    } else {
        count_char(trim(params), ',') + 1
    }
}

/// How a signature line `t = head + "(" + params + ")" + rest` is read when
/// `head` holds no `(` and `params` no `)`: the parameters are those of
/// `params`.
proof fn lemma_signature_parameters(t: Seq<char>, head: Seq<char>, params: Seq<char>, rest: Seq<char>)
    requires
        t == head + "("@ + params + ")"@ + rest,
        forall|j: int| 0 <= j < head.len() ==> head[j] != '(',
        forall|j: int| 0 <= j < params.len() ==> params[j] != ')',
    ensures
        parameter_count(t) == counted_parameters(params),
{
    reveal_strlit("(");
    reveal_strlit(")");
    let st = head.len() as int;
    lemma_find_char(t, "("@, '(', st);
    let u = t.subrange(st, t.len() as int);
    assert(u =~= "("@ + params + ")"@ + rest);
    lemma_find_char(u, ")"@, ')', 1 + params.len() as int);
    assert(t.subrange(st + 1, st + 1 + params.len()) =~= params);
}

/// A Rust line whose first `fn ` follows a text without `(`, and reads
/// `fn name(params)...`, records a function named by the trimmed `name`,
/// starting on that line, with the parameters of `params`; the report of the
/// file lists it.
pub proof fn law_rust_signature(
    path: Seq<char>,
    lines: Seq<Seq<char>>,
    th: RuleThresholds,
    a: int,
    pre: Seq<char>,
    name: Seq<char>,
    params: Seq<char>,
    rest: Seq<char>,
)
    requires
        0 <= a < lines.len(),
        trim(lines[a]) == pre + "fn "@ + name + "("@ + params + ")"@ + rest,
        forall|j: int| 0 <= j < pre.len() ==> !matches_at(trim(lines[a]), "fn "@, j),
        forall|j: int| 0 <= j < pre.len() ==> pre[j] != '(',
        forall|j: int| 0 <= j < name.len() ==> name[j] != '(',
        forall|j: int| 0 <= j < params.len() ==> params[j] != ')',
    ensures
        detected_function(Language::Rust, lines, a) matches Some(f) && f.name == trim(name)
            && f.start_line == a + 1 && f.parameter_count == counted_parameters(params)
            && has_function(file_report(Language::Rust, path, lines, th).metrics.functions, f),
{
    reveal_strlit("fn ");
    reveal_strlit("(");
    let t = trim(lines[a]);
    let k = pre.len() as int;
    assert(t.subrange(k, k + 3) =~= "fn "@);
    lemma_find_first(t, "fn "@, k);
    lemma_find_contains(t, "fn "@);
    let after = t.subrange(k + 3, t.len() as int);
    assert(after =~= name + "("@ + params + ")"@ + rest);
    lemma_find_char(after, "("@, '(', name.len() as int);
    assert(after.take(name.len() as int) =~= name);
    let head = pre + "fn "@ + name;
    assert forall|j: int| 0 <= j < head.len() implies head[j] != '(' by {
        if j >= pre.len() && j < pre.len() + 3 {
            assert(head[j] == "fn "@[j - pre.len()]);
        }
    }
    assert(t =~= head + "("@ + params + ")"@ + rest);
    lemma_signature_parameters(t, head, params, rest);
    lemma_detected_listed(Language::Rust, path, lines, th, a);
}

/// A Python line that reads `def name(params)...` once trimmed records a
/// function named by the trimmed `name`, starting on that line, with the
/// parameters of `params`; the report of the file lists it.
pub proof fn law_python_signature(
    path: Seq<char>,
    lines: Seq<Seq<char>>,
    th: RuleThresholds,
    a: int,
    name: Seq<char>,
    params: Seq<char>,
    rest: Seq<char>,
)
    requires
        0 <= a < lines.len(),
        trim(lines[a]) == "def "@ + name + "("@ + params + ")"@ + rest,
        forall|j: int| 0 <= j < name.len() ==> name[j] != '(',
        forall|j: int| 0 <= j < params.len() ==> params[j] != ')',
    ensures
        detected_function(Language::Python, lines, a) matches Some(f) && f.name == trim(name)
            && f.start_line == a + 1 && f.parameter_count == counted_parameters(params)
            && has_function(file_report(Language::Python, path, lines, th).metrics.functions, f),
{
    reveal_strlit("def ");
    reveal_strlit("(");
    let t = trim(lines[a]);
    assert(t.subrange(0, 4) =~= "def "@);
    let after = t.subrange(4, t.len() as int);
    assert(after =~= name + "("@ + params + ")"@ + rest);
    lemma_find_char(after, "("@, '(', name.len() as int);
    assert(after.take(name.len() as int) =~= name);
    let head = "def "@ + name;
    assert forall|j: int| 0 <= j < head.len() implies head[j] != '(' by {
        if j < 4 {
            assert(head[j] == "def "@[j]);
        }
    }
    assert(t =~= head + "("@ + params + ")"@ + rest);
    lemma_signature_parameters(t, head, params, rest);
    lemma_detected_listed(Language::Python, path, lines, th, a);
}

proof fn lemma_lead_end_bound(s: Seq<char>, i: int, k: int)
    requires
        0 <= i <= k < s.len(),
        !is_space(s[k]),
    ensures
        i <= lead_end(s, i) <= k,
    decreases s.len() - i,
{
    if i < k && is_space(s[i]) {
        lemma_lead_end_bound(s, i + 1, k);
    }
}

proof fn lemma_lead_end_spaces(s: Seq<char>, i: int)
    requires
        0 <= i <= s.len(),
    ensures
        forall|j: int| i <= j < lead_end(s, i) ==> is_space(#[trigger] s[j]),
        i <= lead_end(s, i) <= s.len(),
    decreases s.len() - i,
{
    if i < s.len() && is_space(s[i]) {
        lemma_lead_end_spaces(s, i + 1);
    }
}

proof fn lemma_last_word_start(s: Seq<char>, start: int, j: int)
    requires
        0 <= start <= j <= s.len(),
        forall|m: int| start <= m < j ==> !is_space(#[trigger] s[m]),
        start == 0 || is_space(s[start - 1]),
    ensures
        last_word_start(s, j) == start,
    decreases j,
{
    if j > start {
        lemma_last_word_start(s, start, j - 1);
    }
}

/// A C/C++ line that reads `head name(params)rest` once trimmed, with a
/// blank before `name`, no `(` before the one after `name`, no `)` in
/// `params`, a `{` in `rest`, and that does not open with `if `, `for `,
/// `while `, `switch ` or `//`, records a function named `name`, starting on
/// that line, with the parameters of `params`; the report of the file lists
/// it.
pub proof fn law_cpp_signature(
    path: Seq<char>,
    lines: Seq<Seq<char>>,
    th: RuleThresholds,
    a: int,
    head: Seq<char>,
    name: Seq<char>,
    params: Seq<char>,
    rest: Seq<char>,
)
    requires
        0 <= a < lines.len(),
        trim(lines[a]) == head + " "@ + name + "("@ + params + ")"@ + rest,
        name.len() > 0,
        forall|j: int| 0 <= j < head.len() ==> head[j] != '(',
        forall|j: int| 0 <= j < name.len() ==> name[j] != '(' && !is_space(#[trigger] name[j]),
        forall|j: int| 0 <= j < params.len() ==> params[j] != ')',
        contains(rest, "{"@),
        !starts_with(trim(lines[a]), "if "@),
        !starts_with(trim(lines[a]), "for "@),
        !starts_with(trim(lines[a]), "while "@),
        !starts_with(trim(lines[a]), "switch "@),
        !starts_with(trim(lines[a]), "//"@),
    ensures
        detected_function(Language::Cpp, lines, a) matches Some(f) && f.name == name && f.start_line
            == a + 1 && f.parameter_count == counted_parameters(params) && has_function(
            file_report(Language::Cpp, path, lines, th).metrics.functions,
            f,
        ),
{
    reveal_strlit("(");
    reveal_strlit(")");
    reveal_strlit(" ");
    let t = trim(lines[a]);
    let x = head + " "@ + name;
    let k = x.len() as int;
    assert(t =~= x + "("@ + params + ")"@ + rest);
    assert forall|j: int| 0 <= j < x.len() implies x[j] != '(' by {
        if j >= head.len() + 1 {
            assert(x[j] == name[j - head.len() - 1]);
        }
    }
    // looks like a function definition
    assert(t.subrange(k, k + 1) =~= "("@);
    assert(matches_at(t, "("@, k));
    let q = k + 1 + params.len();
    assert(t.subrange(q, q + 1) =~= ")"@);
    assert(matches_at(t, ")"@, q));
    reveal_strlit("{");
    let b = choose|b: int| matches_at(rest, "{"@, b);
    let off = q + 1;
    assert(t.subrange(off + b, off + b + 1) =~= rest.subrange(b, b + 1));
    assert(matches_at(t, "{"@, off + b));
    assert(looks_like_cpp(t));
    // the name is the last word before the `(`
    lemma_find_char(t, "("@, '(', k);
    assert(t.take(k) =~= x);
    let hl = head.len() as int;
    assert(is_space(x[hl]));
    assert(x[k - 1] == name[name.len() - 1]);
    assert(!is_space(x[k - 1]));
    lemma_lead_end_bound(x, 0, k - 1);
    lemma_lead_end_spaces(x, 0);
    let le = lead_end(x, 0);
    assert(crate::text::trail_start(x, le, k) == k);
    let y = x.subrange(le, k);
    assert(trim(x) == y);
    let start = if le <= hl {
        hl + 1 - le
    } else {
        0
    };
    if le > hl {
        assert(le == hl + 1) by {
            if le > hl + 1 {
                assert(is_space(x[hl + 1]));
                assert(x[hl + 1] == name[0]);
            }
        }
    }
    assert forall|m: int| start <= m < y.len() implies !is_space(#[trigger] y[m]) by {
        assert(y[m] == x[le + m]);
        assert(x[le + m] == name[le + m - hl - 1]);
    }
    if start > 0 {
        assert(y[start - 1] == x[hl]);
    }
    lemma_last_word_start(y, start, y.len() as int);
    assert(y.subrange(start, y.len() as int) =~= name);
    lemma_signature_parameters(t, x, params, rest);
    lemma_detected_listed(Language::Cpp, path, lines, th, a);
}

/// A line records a function only where it shows one: a Rust line holds
/// `fn ` and a `(`; a Python line, trimmed, opens with `def ` and holds a
/// `(`; a C/C++ line holds `(`, `)` and `{` and does not open with `if `,
/// `for `, `while `, `switch ` or `//`.
pub proof fn law_function_lines(lang: Language, lines: Seq<Seq<char>>, a: int)
    requires
        0 <= a < lines.len(),
    ensures
        ({
            let t = trim(lines[a]);
            detected_function(lang, lines, a) is Some ==> match lang {
                Language::Rust => contains(t, "fn "@) && contains(t, "("@),
                Language::Python => starts_with(t, "def "@) && contains(t, "("@),
                Language::Cpp => {
                    &&& contains(t, "("@)
                    &&& contains(t, ")"@)
                    &&& contains(t, "{"@)
                    &&& !starts_with(t, "if "@)
                    &&& !starts_with(t, "for "@)
                    &&& !starts_with(t, "while "@)
                    &&& !starts_with(t, "switch "@)
                    &&& !starts_with(t, "//"@)
                },
            }
        }),
{
    let t = trim(lines[a]);
    if detected_function(lang, lines, a) is Some {
        match lang {
            Language::Rust => {
                let p = find(t, "fn "@)->Some_0;
                lemma_find_contains(t, "fn "@);
                reveal_strlit("fn ");
                let after = t.subrange(p + 3, t.len() as int);
                let e = find(after, "("@)->Some_0;
                lemma_find_contains(after, "("@);
                reveal_strlit("(");
                assert(t.subrange(p + 3 + e, p + 3 + e + 1) =~= after.subrange(e, e + 1));
                assert(matches_at(t, "("@, p + 3 + e));
            },
            Language::Python => {
                reveal_strlit("def ");
                reveal_strlit("(");
                let after = t.subrange(4, t.len() as int);
                let e = find(after, "("@)->Some_0;
                lemma_find_contains(after, "("@);
                assert(t.subrange(4 + e, 4 + e + 1) =~= after.subrange(e, e + 1));
                assert(matches_at(t, "("@, 4 + e));
            },
            Language::Cpp => {},
        }
    }
}

/// `fns` list the function `f`.
pub open spec fn has_function(fns: Seq<FunctionInfoView>, f: FunctionInfoView) -> bool {
    exists|k: int| 0 <= k < fns.len() && fns[k] == f
}

proof fn lemma_detected_upto(lang: Language, lines: Seq<Seq<char>>, n: int, a: int)
    requires
        0 <= a < n <= lines.len(),
    ensures
        detected_function(lang, lines, a) matches Some(f) ==> has_function(
            functions_upto(lang, lines, n),
            f,
        ),
    decreases n,
{
    let prev = functions_upto(lang, lines, n - 1);
    let cur = functions_upto(lang, lines, n);
    if let Some(f) = detected_function(lang, lines, a) {
        if a < n - 1 {
            lemma_detected_upto(lang, lines, n - 1, a);
            let k = choose|k: int| 0 <= k < prev.len() && prev[k] == f;
            assert(cur[k] == prev[k]);
        } else {
            assert(cur[prev.len() as int] == f);
        }
    }
}

proof fn lemma_detected_listed(
    lang: Language,
    path: Seq<char>,
    lines: Seq<Seq<char>>,
    th: RuleThresholds,
    a: int,
)
    requires
        0 <= a < lines.len(),
    ensures
        detected_function(lang, lines, a) matches Some(f) ==> has_function(
            file_report(lang, path, lines, th).metrics.functions,
            f,
        ),
{
    lemma_detected_upto(lang, lines, lines.len() as int, a);
}

// ---------------------------------------------------------------------------
// Where every finding comes from
// ---------------------------------------------------------------------------

/// `v` is the finding of a marker rule of the language on the line at index
/// `i`, and the line shows that marker.
pub open spec fn marker_explains(
    lang: Language,
    path: Seq<char>,
    lines: Seq<Seq<char>>,
    i: int,
    v: IssueView,
) -> bool {
    let t = trim(lines[i]);
    match lang {
        Language::Rust => {
            ||| ((contains(t, ".unwrap()"@) || contains(t, ".expect("@)) && v == finding_on(path, lines, i, Severity::Warning, "rust.unwrap"@, "use of unwrap/expect may cause panic"@))
            ||| ((contains(t, "todo!"@) || contains(t, "unimplemented!"@)) && v == finding_on(path, lines, i, Severity::Warning, "rust.todo"@, "unfinished code marker found"@))
            ||| ((contains(t, "unsafe"@)) && v == finding_on(path, lines, i, Severity::Info, "rust.unsafe"@, "unsafe code detected"@))
            ||| ((contains(t, "dbg!("@)) && v == finding_on(path, lines, i, Severity::Info, "rust.dbg"@, "debug macro dbg!() found"@))
        },
        Language::Python => {
            ||| ((calls(t, "eval("@)) && v == finding_on(path, lines, i, Severity::Warning, "python.eval"@, "use of eval() is risky"@))
            ||| ((calls(t, "exec("@)) && v == finding_on(path, lines, i, Severity::Warning, "python.exec"@, "use of exec() is risky"@))
            ||| ((t == "except:"@ || starts_with(t, "except:"@)) && v == finding_on(path, lines, i, Severity::Warning, "python.bare_except"@, "bare except clause found"@))
            ||| ((calls(t, "print("@)) && v == finding_on(path, lines, i, Severity::Info, "python.print"@, "possible debug print found"@))
            ||| ((t == "pass"@) && v == finding_on(path, lines, i, Severity::Info, "python.pass"@, "pass statement found, check if logic is incomplete"@))
        },
        Language::Cpp => {
            ||| ((calls(t, "gets("@)) && v == finding_on(path, lines, i, Severity::Error, "cpp.gets"@, "unsafe gets() usage found"@))
            ||| ((calls(t, "strcpy("@) || calls(t, "strcat("@)) && v == finding_on(path, lines, i, Severity::Warning, "cpp.unsafe_string"@, "unsafe C string function found"@))
            ||| ((calls(t, "printf("@) || contains(t, "cout <<"@)) && v == finding_on(path, lines, i, Severity::Info, "cpp.output"@, "possible debug output found"@))
            ||| ((calls(t, "malloc("@) || calls(t, "free("@) || contains(t, "new "@) || contains(t, "delete "@)) && v == finding_on(path, lines, i, Severity::Info, "cpp.memory"@, "manual memory management detected"@))
            ||| ((calls(t, "system("@)) && v == finding_on(path, lines, i, Severity::Warning, "cpp.system"@, "system() call found"@))
        },
    }
}

/// `v` is the warning on a function that starts on the line at index `i`
/// and is too long, or has too many parameters.
pub open spec fn function_explains(
    lang: Language,
    path: Seq<char>,
    lines: Seq<Seq<char>>,
    th: RuleThresholds,
    i: int,
    v: IssueView,
) -> bool {
    match detected_function(lang, lines, i) {
        Some(f) => {
            ||| (f.line_count > th.max_function_length && v == finding_on(
                path,
                lines,
                i,
                Severity::Warning,
                match lang {
                    Language::Rust => "rust.long_function"@,
                    Language::Python => "python.long_function"@,
                    Language::Cpp => "cpp.long_function"@,
                },
                "function is longer than configured threshold"@,
            ))
            ||| (f.parameter_count > th.max_parameters && v == finding_on(
                path,
                lines,
                i,
                Severity::Warning,
                match lang {
                    Language::Rust => "rust.too_many_parameters"@,
                    Language::Python => "python.too_many_parameters"@,
                    Language::Cpp => "cpp.too_many_parameters"@,
                },
                "function has too many parameters"@,
            ))
        },
        None => false,
    }
}

/// `v` is a finding on the whole file: a line longer than the threshold, a
/// file with more lines than the threshold, or nesting deeper than the
/// threshold.
pub open spec fn file_rule_explains(
    lang: Language,
    path: Seq<char>,
    lines: Seq<Seq<char>>,
    th: RuleThresholds,
    v: IssueView,
) -> bool {
    ||| exists|i: int|
        0 <= i < lines.len() && lines[i].len() > th.max_line_length && v == #[trigger] finding_on(
            path,
            lines,
            i,
            Severity::Info,
            "style.long_line"@,
            "line longer than configured threshold"@,
        )
    ||| (lines.len() > th.max_file_lines && v == finding_on(
        path,
        lines,
        0,
        Severity::Warning,
        "size.large_file"@,
        "file is larger than configured threshold"@,
    ))
    ||| (file_metrics(lang, lines).max_nesting_depth > th.max_nesting_depth && v == (IssueView {
        rule_name: "style.deep_nesting"@,
        severity: Severity::Warning,
        file_path: path,
        position: Position { line: 1, column: 1 },
        message: "nesting depth is larger than configured threshold"@,
        snippet: Seq::empty(),
    }))
}

proof fn lemma_has_issue_split(a: Seq<IssueView>, b: Seq<IssueView>, v: IssueView)
    ensures
        has_issue(a + b, v) ==> has_issue(a, v) || has_issue(b, v),
{
    if has_issue(a + b, v) {
        let k = choose|k: int| 0 <= k < (a + b).len() && (a + b)[k] == v;
        if k < a.len() {
            assert(a[k] == v);
        } else {
            assert(b[k - a.len()] == v);
        }
    }
}

proof fn lemma_emit_only(c: bool, w: IssueView, v: IssueView)
    ensures
        has_issue(emit_if(c, w), v) ==> c && v == w,
{
}

proof fn lemma_upto_explained(
    lang: Language,
    path: Seq<char>,
    lines: Seq<Seq<char>>,
    th: RuleThresholds,
    n: int,
    v: IssueView,
)
    requires
        0 <= n,
    ensures
        has_issue(line_issues_upto(lang, path, lines, th, n), v) ==> exists|i: int|
            0 <= i < n && has_issue(#[trigger] line_issues(lang, path, lines, th, i), v),
    decreases n,
{
    if n > 0 {
        lemma_upto_explained(lang, path, lines, th, n - 1, v);
        lemma_has_issue_split(
            line_issues_upto(lang, path, lines, th, n - 1),
            line_issues(lang, path, lines, th, n - 1),
            v,
        );
    }
}

proof fn lemma_long_lines_explained(
    path: Seq<char>,
    lines: Seq<Seq<char>>,
    th: RuleThresholds,
    n: int,
    v: IssueView,
)
    requires
        0 <= n <= lines.len(),
    ensures
        has_issue(long_line_issues(path, lines, th, n), v) ==> exists|i: int|
            0 <= i < n && lines[i].len() > th.max_line_length && v == #[trigger] finding_on(
                path,
                lines,
                i,
                Severity::Info,
                "style.long_line"@,
                "line longer than configured threshold"@,
            ),
    decreases n,
{
    if n > 0 {
        lemma_long_lines_explained(path, lines, th, n - 1, v);
        let e = emit_if(
            lines[n - 1].len() > th.max_line_length,
            issue_view(
                Severity::Info,
                "style.long_line"@,
                "line longer than configured threshold"@,
                path,
                n,
                lines[n - 1],
            ),
        );
        lemma_has_issue_split(long_line_issues(path, lines, th, n - 1), e, v);
        if has_issue(e, v) {
            assert(v == finding_on(
                path,
                lines,
                n - 1,
                Severity::Info,
                "style.long_line"@,
                "line longer than configured threshold"@,
            ));
        }
    }
}

proof fn lemma_rust_markers_explained(
    path: Seq<char>,
    lines: Seq<Seq<char>>,
    i: int,
    v: IssueView,
)
    requires
        0 <= i < lines.len(),
        lines.len() <= usize::MAX,
    ensures
        has_issue(marker_issues(Language::Rust, path, lines[i], i), v) ==> marker_explains(
            Language::Rust,
            path,
            lines,
            i,
            v,
        ),
{
    let t = trim(lines[i]);
    let line = lines[i];
    let n = i + 1;
    let e0 = emit_if(contains(t, ".unwrap()"@) || contains(t, ".expect("@), issue_view(Severity::Warning, "rust.unwrap"@, "use of unwrap/expect may cause panic"@, path, n, line));
    lemma_emit_only(contains(t, ".unwrap()"@) || contains(t, ".expect("@), issue_view(Severity::Warning, "rust.unwrap"@, "use of unwrap/expect may cause panic"@, path, n, line), v);
    let e1 = emit_if(contains(t, "todo!"@) || contains(t, "unimplemented!"@), issue_view(Severity::Warning, "rust.todo"@, "unfinished code marker found"@, path, n, line));
    lemma_emit_only(contains(t, "todo!"@) || contains(t, "unimplemented!"@), issue_view(Severity::Warning, "rust.todo"@, "unfinished code marker found"@, path, n, line), v);
    let e2 = emit_if(contains(t, "unsafe"@), issue_view(Severity::Info, "rust.unsafe"@, "unsafe code detected"@, path, n, line));
    lemma_emit_only(contains(t, "unsafe"@), issue_view(Severity::Info, "rust.unsafe"@, "unsafe code detected"@, path, n, line), v);
    let e3 = emit_if(contains(t, "dbg!("@), issue_view(Severity::Info, "rust.dbg"@, "debug macro dbg!() found"@, path, n, line));
    lemma_emit_only(contains(t, "dbg!("@), issue_view(Severity::Info, "rust.dbg"@, "debug macro dbg!() found"@, path, n, line), v);
    assert(marker_issues(Language::Rust, path, line, i) == e0 + e1 + e2 + e3);
    lemma_has_issue_split(e0, e1, v);
    lemma_has_issue_split(e0 + e1, e2, v);
    lemma_has_issue_split(e0 + e1 + e2, e3, v);
}

proof fn lemma_python_markers_explained(
    path: Seq<char>,
    lines: Seq<Seq<char>>,
    i: int,
    v: IssueView,
)
    requires
        0 <= i < lines.len(),
        lines.len() <= usize::MAX,
    ensures
        has_issue(marker_issues(Language::Python, path, lines[i], i), v) ==> marker_explains(
            Language::Python,
            path,
            lines,
            i,
            v,
        ),
{
    let t = trim(lines[i]);
    let line = lines[i];
    let n = i + 1;
    let e0 = emit_if(calls(t, "eval("@), issue_view(Severity::Warning, "python.eval"@, "use of eval() is risky"@, path, n, line));
    lemma_emit_only(calls(t, "eval("@), issue_view(Severity::Warning, "python.eval"@, "use of eval() is risky"@, path, n, line), v);
    let e1 = emit_if(calls(t, "exec("@), issue_view(Severity::Warning, "python.exec"@, "use of exec() is risky"@, path, n, line));
    lemma_emit_only(calls(t, "exec("@), issue_view(Severity::Warning, "python.exec"@, "use of exec() is risky"@, path, n, line), v);
    let e2 = emit_if(t == "except:"@ || starts_with(t, "except:"@), issue_view(Severity::Warning, "python.bare_except"@, "bare except clause found"@, path, n, line));
    lemma_emit_only(t == "except:"@ || starts_with(t, "except:"@), issue_view(Severity::Warning, "python.bare_except"@, "bare except clause found"@, path, n, line), v);
    let e3 = emit_if(calls(t, "print("@), issue_view(Severity::Info, "python.print"@, "possible debug print found"@, path, n, line));
    lemma_emit_only(calls(t, "print("@), issue_view(Severity::Info, "python.print"@, "possible debug print found"@, path, n, line), v);
    let e4 = emit_if(t == "pass"@, issue_view(Severity::Info, "python.pass"@, "pass statement found, check if logic is incomplete"@, path, n, line));
    lemma_emit_only(t == "pass"@, issue_view(Severity::Info, "python.pass"@, "pass statement found, check if logic is incomplete"@, path, n, line), v);
    assert(marker_issues(Language::Python, path, line, i) == e0 + e1 + e2 + e3 + e4);
    lemma_has_issue_split(e0, e1, v);
    lemma_has_issue_split(e0 + e1, e2, v);
    lemma_has_issue_split(e0 + e1 + e2, e3, v);
    lemma_has_issue_split(e0 + e1 + e2 + e3, e4, v);
}

proof fn lemma_cpp_markers_explained(
    path: Seq<char>,
    lines: Seq<Seq<char>>,
    i: int,
    v: IssueView,
)
    requires
        0 <= i < lines.len(),
        lines.len() <= usize::MAX,
    ensures
        has_issue(marker_issues(Language::Cpp, path, lines[i], i), v) ==> marker_explains(
            Language::Cpp,
            path,
            lines,
            i,
            v,
        ),
{
    let t = trim(lines[i]);
    let line = lines[i];
    let n = i + 1;
    let e0 = emit_if(calls(t, "gets("@), issue_view(Severity::Error, "cpp.gets"@, "unsafe gets() usage found"@, path, n, line));
    lemma_emit_only(calls(t, "gets("@), issue_view(Severity::Error, "cpp.gets"@, "unsafe gets() usage found"@, path, n, line), v);
    let e1 = emit_if(calls(t, "strcpy("@) || calls(t, "strcat("@), issue_view(Severity::Warning, "cpp.unsafe_string"@, "unsafe C string function found"@, path, n, line));
    lemma_emit_only(calls(t, "strcpy("@) || calls(t, "strcat("@), issue_view(Severity::Warning, "cpp.unsafe_string"@, "unsafe C string function found"@, path, n, line), v);
    let e2 = emit_if(calls(t, "printf("@) || contains(t, "cout <<"@), issue_view(Severity::Info, "cpp.output"@, "possible debug output found"@, path, n, line));
    lemma_emit_only(calls(t, "printf("@) || contains(t, "cout <<"@), issue_view(Severity::Info, "cpp.output"@, "possible debug output found"@, path, n, line), v);
    let e3 = emit_if(calls(t, "malloc("@) || calls(t, "free("@) || contains(t, "new "@) || contains(t, "delete "@), issue_view(Severity::Info, "cpp.memory"@, "manual memory management detected"@, path, n, line));
    lemma_emit_only(calls(t, "malloc("@) || calls(t, "free("@) || contains(t, "new "@) || contains(t, "delete "@), issue_view(Severity::Info, "cpp.memory"@, "manual memory management detected"@, path, n, line), v);
    let e4 = emit_if(calls(t, "system("@), issue_view(Severity::Warning, "cpp.system"@, "system() call found"@, path, n, line));
    lemma_emit_only(calls(t, "system("@), issue_view(Severity::Warning, "cpp.system"@, "system() call found"@, path, n, line), v);
    assert(marker_issues(Language::Cpp, path, line, i) == e0 + e1 + e2 + e3 + e4);
    lemma_has_issue_split(e0, e1, v);
    lemma_has_issue_split(e0 + e1, e2, v);
    lemma_has_issue_split(e0 + e1 + e2, e3, v);
    lemma_has_issue_split(e0 + e1 + e2 + e3, e4, v);
}

proof fn lemma_line_explained(
    lang: Language,
    path: Seq<char>,
    lines: Seq<Seq<char>>,
    th: RuleThresholds,
    i: int,
    v: IssueView,
)
    requires
        0 <= i < lines.len(),
        lines.len() <= usize::MAX,
    ensures
        has_issue(line_issues(lang, path, lines, th, i), v) ==> marker_explains(
            lang,
            path,
            lines,
            i,
            v,
        ) || function_explains(lang, path, lines, th, i, v),
{
    let m = marker_issues(lang, path, lines[i], i);
    match lang {
        Language::Rust => lemma_rust_markers_explained(path, lines, i, v),
        Language::Python => lemma_python_markers_explained(path, lines, i, v),
        Language::Cpp => lemma_cpp_markers_explained(path, lines, i, v),
    }
    crate::laws::law_function_extent(lang, lines, i);
    match detected_function(lang, lines, i) {
        Some(f) => {
            let line = lines[i];
            let w0 = issue_view(
                Severity::Warning,
                long_function_rule(lang),
                "function is longer than configured threshold"@,
                path,
                f.start_line as int,
                line,
            );
            let w1 = issue_view(
                Severity::Warning,
                many_parameters_rule(lang),
                "function has too many parameters"@,
                path,
                f.start_line as int,
                line,
            );
            let e0 = emit_if(f.line_count > th.max_function_length, w0);
            let e1 = emit_if(f.parameter_count > th.max_parameters, w1);
            assert(line_issues(lang, path, lines, th, i) == e0 + e1 + m);
            lemma_has_issue_split(e0 + e1, m, v);
            lemma_has_issue_split(e0, e1, v);
            lemma_emit_only(f.line_count > th.max_function_length, w0, v);
            lemma_emit_only(f.parameter_count > th.max_parameters, w1, v);
        },
        None => {
            assert(line_issues(lang, path, lines, th, i) =~= m);
        },
    }
}

/// Every finding of a file comes from a rule whose condition holds: a
/// marker rule of the language on a line that shows its marker, a function
/// that is too long or has too many parameters, a line longer than the
/// threshold, a file with more lines than the threshold, or nesting deeper
/// than the threshold.
pub proof fn law_findings_explained(
    lang: Language,
    path: Seq<char>,
    lines: Seq<Seq<char>>,
    th: RuleThresholds,
    v: IssueView,
)
    requires
        lines.len() <= usize::MAX,
    ensures
        has_issue(file_report(lang, path, lines, th).issues, v) ==> {
            ||| exists|i: int|
                0 <= i < lines.len() && (marker_explains(lang, path, lines, i, v)
                    || function_explains(lang, path, lines, th, i, v))
            ||| file_rule_explains(lang, path, lines, th, v)
        },
{
    let n = lines.len() as int;
    let up = line_issues_upto(lang, path, lines, th, n);
    let l = long_line_issues(path, lines, th, n);
    let big_v = issue_view(
        Severity::Warning,
        "size.large_file"@,
        "file is larger than configured threshold"@,
        path,
        1,
        if lines.len() > 0 {
            lines[0]
        } else {
            Seq::empty()
        },
    );
    let deep_v = issue_view(
        Severity::Warning,
        "style.deep_nesting"@,
        "nesting depth is larger than configured threshold"@,
        path,
        1,
        Seq::empty(),
    );
    let big = emit_if(lines.len() > th.max_file_lines, big_v);
    let deep = emit_if(nesting_depth(lang, lines) > th.max_nesting_depth, deep_v);
    assert(shared_issues(path, lines, th, nesting_depth(lang, lines)) == l + big + deep);
    lemma_has_issue_split(up, l + big + deep, v);
    lemma_has_issue_split(l + big, deep, v);
    lemma_has_issue_split(l, big, v);
    lemma_emit_only(lines.len() > th.max_file_lines, big_v, v);
    lemma_emit_only(nesting_depth(lang, lines) > th.max_nesting_depth, deep_v, v);
    lemma_long_lines_explained(path, lines, th, n, v);
    lemma_upto_explained(lang, path, lines, th, n, v);
    if has_issue(up, v) {
        let i = choose|i: int| 0 <= i < n && has_issue(#[trigger] line_issues(lang, path, lines, th, i), v);
        lemma_line_explained(lang, path, lines, th, i, v);
    }
    if has_issue(big, v) {
        assert(v == finding_on(
            path,
            lines,
            0,
            Severity::Warning,
            "size.large_file"@,
            "file is larger than configured threshold"@,
        ));
    }
}

// ---------------------------------------------------------------------------
// Trimming
// ---------------------------------------------------------------------------

proof fn lemma_trail_start_spaces(s: Seq<char>, lo: int, j: int)
    requires
        0 <= lo <= j <= s.len(),
    ensures
        lo <= trail_start(s, lo, j) <= j,
        forall|m: int| trail_start(s, lo, j) <= m < j ==> is_space(#[trigger] s[m]),
        trail_start(s, lo, j) > lo ==> !is_space(s[trail_start(s, lo, j) - 1]),
    decreases j - lo,
{
    if lo < j && is_space(s[j - 1]) {
        lemma_trail_start_spaces(s, lo, j - 1);
    }
}

/// Trimming takes off exactly the whitespace at both ends: what is left is
/// a middle part of the text, everything before and after it is whitespace,
/// and it neither starts nor ends with whitespace.
pub proof fn law_trim(s: Seq<char>)
    ensures
        exists|a: int, b: int|
            0 <= a <= b <= s.len() && trim(s) == s.subrange(a, b) && (forall|m: int|
                0 <= m < a ==> is_space(#[trigger] s[m])) && (forall|m: int|
                b <= m < s.len() ==> is_space(#[trigger] s[m])),
        trim(s).len() > 0 ==> !is_space(trim(s)[0]) && !is_space(trim(s)[trim(s).len() - 1]),
{
    lemma_lead_end_spaces(s, 0);
    let a = lead_end(s, 0);
    lemma_trail_start_spaces(s, a, s.len() as int);
    let b = trail_start(s, a, s.len() as int);
    if b > a {
        assert(!is_space(s[a])) by {
            if a < s.len() && is_space(s[a]) {
                assert(lead_end(s, 0) != a) by {
                    lemma_lead_end_stops(s, 0);
                }
            }
        }
        assert(trim(s)[0] == s[a]);
        assert(trim(s)[trim(s).len() - 1] == s[b - 1]);
    }
    assert(0 <= a <= b <= s.len() && trim(s) == s.subrange(a, b) && (forall|m: int|
        0 <= m < a ==> is_space(#[trigger] s[m])) && (forall|m: int|
        b <= m < s.len() ==> is_space(#[trigger] s[m])));
}

proof fn lemma_lead_end_stops(s: Seq<char>, i: int)
    requires
        0 <= i <= s.len(),
    ensures
        lead_end(s, i) < s.len() ==> !is_space(s[lead_end(s, i)]),
    decreases s.len() - i,
{
    if i < s.len() && is_space(s[i]) {
        lemma_lead_end_stops(s, i + 1);
    }
}

} // verus!
