//! The analysis: file selection, per-file statistics and rule checks, and the
//! project report. Lines are worked on as character vectors.
use vstd::prelude::*;

use crate::model::{
    function_views, issue_views, report_views, summarizes, summary_fits, AnalysisConfig,
    AnalysisReport, AppError, AppResult, FileMetrics, FileMetricsView, FileReport, FileReportView,
    FunctionInfo, FunctionInfoView, Issue, Position, RuleThresholds, Severity, Summary,
};
use crate::rules::{
    brace_depth, brace_end, brace_scan, brace_scan_lines, char_total, count_lines, cpp_function,
    cpp_marker_issues, detected_function, emit_if, file_issues, file_metrics, file_report,
    function_issues, functions_upto, indent_depth, indent_end, is_comment_text,
    is_skipped_dir_name, issue_view, language_of, line_issues_upto, lines_fit, long_function_rule,
    long_line_issues, longest, looks_like_cpp, many_parameters_rule, marker_issues,
    parameter_count, passes, python_function, python_marker_issues, rust_function,
    rust_marker_issues, shared_issues, total_bytes, total_len, Language, LineTest,
};
use crate::text::{
    lemma_next_newline_bounds, lemma_utf8_len_add, lemma_utf8_len_prefix, next_newline,
    split_lines, split_lines_spec, strip_cr,
    begins, chars_of, copy_range, count_char_exec, decimal, find_chars, has, has_call, last_word_start_exec,
    leading_blanks, leading_blanks_exec, lemma_count_char_le, lemma_find_contains,
    lemma_trim_bounds, lemma_utf8_len_ge, push_decimal, same_text, starts_with, string_from_chars,
    trim, trim_bounds, trim_chars, trim_start_chars, utf8_len, utf8_len_prefix,
};

verus! {

/// The lines of a file as character sequences.
pub open spec fn line_views(lines: Seq<Vec<char>>) -> Seq<Seq<char>> {
    lines.map_values(|l: Vec<char>| l@)
}

pub open spec fn function_opt_view(o: Option<FunctionInfo>) -> Option<FunctionInfoView> {
    match o {
        Some(f) => Some(f@),
        None => None,
    }
}

// ---------------------------------------------------------------------------
// Lemmas on line sequences
// ---------------------------------------------------------------------------

pub proof fn lemma_total_bytes_prefix(lines: Seq<Seq<char>>, i: int)
    requires
        0 <= i <= lines.len(),
    ensures
        total_bytes(lines.take(i)) <= total_bytes(lines),
    decreases lines.len() - i,
{
    if i < lines.len() {
        lemma_total_bytes_prefix(lines, i + 1);
        assert(lines.take(i + 1).drop_last() == lines.take(i));
    } else {
        assert(lines.take(i) == lines);
    }
}

/// Each line's UTF-8 size is within the size of the file.
pub proof fn lemma_line_bytes(lines: Seq<Seq<char>>, i: int)
    requires
        0 <= i < lines.len(),
    ensures
        total_bytes(lines.take(i)) + utf8_len(lines[i]) == total_bytes(lines.take(i + 1)),
        utf8_len(lines[i]) <= total_bytes(lines),
        lines[i].len() <= utf8_len(lines[i]),
{
    assert(lines.take(i + 1).drop_last() == lines.take(i));
    lemma_total_bytes_prefix(lines, i + 1);
    lemma_utf8_len_ge(lines[i]);
}

pub proof fn lemma_total_len_le_bytes(lines: Seq<Seq<char>>)
    ensures
        total_len(lines) <= total_bytes(lines),
    decreases lines.len(),
{
    if lines.len() > 0 {
        lemma_total_len_le_bytes(lines.drop_last());
        lemma_utf8_len_ge(lines.last());
    }
}

pub proof fn lemma_count_lines_le(lines: Seq<Seq<char>>, t: LineTest)
    ensures
        count_lines(lines, t) <= lines.len(),
    decreases lines.len(),
{
    if lines.len() > 0 {
        lemma_count_lines_le(lines.drop_last(), t);
    }
}

/// Occurrences of a character in lines `a..b` are within the size of the lines before `b`.
pub proof fn lemma_char_total_bound(lines: Seq<Seq<char>>, a: int, b: int, c: char)
    requires
        0 <= a <= b <= lines.len(),
    ensures
        char_total(lines, a, b, c) <= total_bytes(lines.take(b)),
    decreases b - a,
{
    if b > a {
        lemma_char_total_bound(lines, a, b - 1, c);
        lemma_line_bytes(lines, b - 1);
        lemma_count_char_le(lines[b - 1], c);
        lemma_total_bytes_prefix(lines, b);
    }
}

/// Taking one more line of a prefix.
pub proof fn lemma_take_step<A>(s: Seq<A>, i: int)
    requires
        0 <= i < s.len(),
    ensures
        s.take(i + 1).drop_last() == s.take(i),
        s.take(i + 1).last() == s[i],
{
    assert(s.take(i + 1).drop_last() == s.take(i));
}

// ---------------------------------------------------------------------------
// File selection
// ---------------------------------------------------------------------------

/// Whether the directory walk should skip a directory with this name.
pub fn should_skip_dir(dir_name: Option<&str>) -> (r: bool)
    ensures
        r == match dir_name {
            Some(n) => is_skipped_dir_name(n@),
            None => false,
        },
{
    match dir_name {
        None => false,
        Some(n) => {
            let c = chars_of(n);
            let s = c.as_slice();
            same_text(s, "target") || same_text(s, ".git") || same_text(s, ".idea") || same_text(
                s,
                ".vscode",
            ) || same_text(s, "node_modules") || same_text(s, ".cargo")
        },
    }
}

/// The language of a file, from its extension.
pub fn detect_language(extension: Option<&str>) -> (r: Option<Language>)
    ensures
        r == match extension {
            Some(e) => language_of(e@),
            None => None,
        },
{
    match extension {
        None => None,
        Some(e) => {
            let c = chars_of(e);
            let s = c.as_slice();
            if same_text(s, "rs") {
                Some(Language::Rust)
            } else if same_text(s, "py") {
                Some(Language::Python)
            } else if same_text(s, "c") || same_text(s, "cc") || same_text(s, "cpp") {
                Some(Language::Cpp)
            } else {
                None
            }
        },
    }
}

/// Whether a file with this extension is analysed.
pub fn is_supported_file(extension: Option<&str>) -> (r: bool)
    ensures
        r == match extension {
            Some(e) => language_of(e@) is Some,
            None => false,
        },
{
    detect_language(extension).is_some()
}

// ---------------------------------------------------------------------------
// Shared helpers
// ---------------------------------------------------------------------------

/// Whether a trimmed line reads as a comment.
pub fn is_comment_line(trimmed: &[char]) -> (r: bool)
    ensures
        r == is_comment_text(trimmed@),
{
    begins(trimmed, "//") || begins(trimmed, "/*") || begins(trimmed, "*") || begins(trimmed, "#")
}

/// The text a path is recorded with in reports.
pub fn path_to_string(path: &str) -> (r: String)
    ensures
        r@ == path@,
{
    String::from_str(path)
}

/// A finding at column 1 of the given line.
pub fn build_issue(
    severity: Severity,
    rule_name: &str,
    message: &str,
    path: &str,
    line: usize,
    snippet: &str,
) -> (r: Issue)
    ensures
        r@ == issue_view(severity, rule_name@, message@, path@, line as int, snippet@),
{
    Issue {
        rule_name: String::from_str(rule_name),
        severity,
        file_path: path_to_string(path),
        position: Position { line, column: 1 },
        message: String::from_str(message),
        snippet: String::from_str(snippet),
    }
}

/// The report of one file.
pub fn build_file_report(path: &str, metrics: FileMetrics, issues: Vec<Issue>) -> (r: FileReport)
    ensures
        r@ == (FileReportView { path: path@, metrics: metrics@, issues: issue_views(issues@) }),
{
    FileReport { path: path_to_string(path), metrics, issues }
}

/// Appends a finding when `cond` holds.
fn push_when(
    issues: &mut Vec<Issue>,
    cond: bool,
    severity: Severity,
    rule_name: &str,
    message: &str,
    path: &str,
    line: usize,
    snippet: &str,
)
    ensures
        issue_views(final(issues)@) == issue_views(old(issues)@) + emit_if(
            cond,
            issue_view(severity, rule_name@, message@, path@, line as int, snippet@),
        ),
{
    if cond {
        let i = build_issue(severity, rule_name, message, path, line, snippet);
        issues.push(i);
        assert(issue_views(issues@) =~= issue_views(old(issues)@) + emit_if(
            cond,
            issue_view(severity, rule_name@, message@, path@, line as int, snippet@),
        ));
    } else {
        assert(issue_views(issues@) =~= issue_views(old(issues)@) + emit_if(
            cond,
            issue_view(severity, rule_name@, message@, path@, line as int, snippet@),
        ));
    }
}

/// The number of parameters of a signature.
pub fn count_parameters(signature: &[char]) -> (r: usize)
    ensures
        r == parameter_count(signature@),
{
    let open = chars_of("(");
    let close = chars_of(")");
    proof {
        reveal_strlit("(");
        reveal_strlit(")");
    }
    let start = match find_chars(signature, open.as_slice()) {
        Some(p) => p,
        None => {
            return 0;
        },
    };
    let rest = copy_range(signature, start, signature.len());
    let q = match find_chars(rest.as_slice(), close.as_slice()) {
        Some(q) => q,
        None => {
            return 0;
        },
    };
    proof {
        lemma_find_contains(signature@, open@);
        lemma_find_contains(rest@, close@);
        assert(signature@.subrange(start as int, start + 1)[0] == '(');
        assert(rest@[0] == '(');
        if q == 0 {
            assert(rest@.subrange(0, 1)[0] == ')');
        }
    }
    let end = start + q;
    let inner = copy_range(signature, start + 1, end);
    let params = trim_chars(inner.as_slice());
    if params.len() == 0 {
        0
    } else {
        let n = count_char_exec(params.as_slice(), ',');
        proof {
            lemma_count_char_le(params@, ',');
            lemma_trim_bounds(inner@);
        }
        n + 1
    }
}

// ---------------------------------------------------------------------------
// Statistics
// ---------------------------------------------------------------------------

/// Line counts by class, and the total and longest line length.
pub fn compute_basic_metrics(lines: &[Vec<char>], metrics: &mut FileMetrics)
    requires
        lines_fit(line_views(lines@)),
        old(metrics).code_lines + count_lines(line_views(lines@), LineTest::Code) <= usize::MAX,
        old(metrics).comment_lines + count_lines(line_views(lines@), LineTest::Comment)
            <= usize::MAX,
        old(metrics).blank_lines + count_lines(line_views(lines@), LineTest::Blank)
            <= usize::MAX,
    ensures
        final(metrics)@ == (FileMetricsView {
            total_lines: lines@.len(),
            code_lines: old(metrics)@.code_lines + count_lines(line_views(lines@), LineTest::Code),
            comment_lines: old(metrics)@.comment_lines + count_lines(
                line_views(lines@),
                LineTest::Comment,
            ),
            blank_lines: old(metrics)@.blank_lines + count_lines(
                line_views(lines@),
                LineTest::Blank,
            ),
            total_line_length: total_len(line_views(lines@)),
            longest_line_length: longest(line_views(lines@)),
            ..old(metrics)@
        }),
{
    let ghost lv = line_views(lines@);
    let mut total_length: usize = 0;
    let mut longest_len: usize = 0;
    let mut code = metrics.code_lines;
    let mut comment = metrics.comment_lines;
    let mut blank = metrics.blank_lines;
    proof {
        lemma_total_len_le_bytes(lv);
        assert(lv.take(0) =~= Seq::<Seq<char>>::empty());
    }
    let mut i: usize = 0;
    while i < lines.len()
        invariant
            0 <= i <= lines.len(),
            lv == line_views(lines@),
            lines_fit(lv),
            total_len(lv) <= total_bytes(lv),
            code == old(metrics).code_lines + count_lines(lv.take(i as int), LineTest::Code),
            comment == old(metrics).comment_lines + count_lines(
                lv.take(i as int),
                LineTest::Comment,
            ),
            blank == old(metrics).blank_lines + count_lines(lv.take(i as int), LineTest::Blank),
            old(metrics).code_lines + count_lines(lv, LineTest::Code) <= usize::MAX,
            old(metrics).comment_lines + count_lines(lv, LineTest::Comment) <= usize::MAX,
            old(metrics).blank_lines + count_lines(lv, LineTest::Blank) <= usize::MAX,
            total_length == total_len(lv.take(i as int)),
            longest_len == longest(lv.take(i as int)),
        decreases lines.len() - i,
    {
        let line = lines[i].as_slice();
        proof {
            lemma_take_step(lv, i as int);
            lemma_total_len_le_bytes(lv.take(i + 1));
            lemma_total_bytes_prefix(lv, i + 1);
            lemma_count_lines_prefix(lv, LineTest::Code, i + 1);
            lemma_count_lines_prefix(lv, LineTest::Comment, i + 1);
            lemma_count_lines_prefix(lv, LineTest::Blank, i + 1);
        }
        let line_len = line.len();
        total_length = total_length + line_len;
        if line_len > longest_len {
            longest_len = line_len;
        }
        let trimmed = trim_chars(line);
        if trimmed.len() == 0 {
            blank = blank + 1;
        } else if is_comment_line(trimmed.as_slice()) {
            comment = comment + 1;
        } else {
            code = code + 1;
        }
        i += 1;
    }
    proof {
        assert(lv.take(lines.len() as int) == lv);
    }
    metrics.total_lines = lines.len();
    metrics.code_lines = code;
    metrics.comment_lines = comment;
    metrics.blank_lines = blank;
    metrics.total_line_length = total_length;
    metrics.longest_line_length = longest_len;
}

pub proof fn lemma_count_lines_prefix(lines: Seq<Seq<char>>, t: LineTest, i: int)
    requires
        0 <= i <= lines.len(),
    ensures
        count_lines(lines.take(i), t) <= count_lines(lines, t),
    decreases lines.len() - i,
{
    if i < lines.len() {
        lemma_count_lines_prefix(lines, t, i + 1);
        assert(lines.take(i + 1).drop_last() == lines.take(i));
    } else {
        assert(lines.take(i) == lines);
    }
}

pub proof fn lemma_total_len_prefix(lines: Seq<Seq<char>>, i: int)
    requires
        0 <= i <= lines.len(),
    ensures
        total_len(lines.take(i)) <= total_len(lines),
    decreases lines.len() - i,
{
    if i < lines.len() {
        lemma_total_len_prefix(lines, i + 1);
        assert(lines.take(i + 1).drop_last() == lines.take(i));
    } else {
        assert(lines.take(i) == lines);
    }
}

/// Whether a line passes a line test.
pub fn line_passes(line: &[char], test: LineTest) -> (r: bool)
    ensures
        r == passes(line@, test),
{
    match test {
        LineTest::PythonClass | LineTest::PythonLoop | LineTest::PythonMatch => {
            let s = trim_start_chars(line);
            let s = s.as_slice();
            match test {
                LineTest::PythonClass => begins(s, "class "),
                LineTest::PythonLoop => begins(s, "for ") || begins(s, "while "),
                _ => begins(s, "match "),
            }
        },
        _ => {
            let t = trim_chars(line);
            let t = t.as_slice();
            match test {
                LineTest::Blank => t.len() == 0,
                LineTest::Comment => t.len() != 0 && is_comment_line(t),
                LineTest::Code => t.len() != 0 && !is_comment_line(t),
                LineTest::RustModule => begins(t, "mod "),
                LineTest::RustImpl => begins(t, "impl "),
                LineTest::RustStruct => begins(t, "struct ") || has(t, " struct "),
                LineTest::RustEnum => begins(t, "enum ") || has(t, " enum "),
                LineTest::RustTrait => begins(t, "trait ") || has(t, " trait "),
                LineTest::RustMatch => has(t, "match "),
                LineTest::RustLoop => has(t, " for ") || begins(t, "for ") || has(t, "while "),
                LineTest::RustUnsafe => has(t, "unsafe"),
                LineTest::CppStruct => begins(t, "struct "),
                LineTest::CppEnum => begins(t, "enum "),
                LineTest::CppClass => begins(t, "class "),
                LineTest::CppLoop => begins(t, "for ") || begins(t, "while "),
                _ => has(t, "switch"),
            }
        },
    }
}

/// How many lines pass a line test.
pub fn count_passing(lines: &[Vec<char>], test: LineTest) -> (r: usize)
    ensures
        r == count_lines(line_views(lines@), test),
{
    let ghost lv = line_views(lines@);
    let mut n: usize = 0;
    let mut i: usize = 0;
    while i < lines.len()
        invariant
            0 <= i <= lines.len(),
            lv == line_views(lines@),
            n == count_lines(lv.take(i as int), test),
            n <= i,
        decreases lines.len() - i,
    {
        proof {
            lemma_take_step(lv, i as int);
        }
        if line_passes(lines[i].as_slice(), test) {
            n = n + 1;
        }
        i += 1;
    }
    proof {
        assert(lv.take(lines.len() as int) == lv);
    }
    n
}

/// The deepest brace nesting over all lines.
pub fn scan_braces(lines: &[Vec<char>]) -> (r: usize)
    requires
        lines_fit(line_views(lines@)),
    ensures
        r == brace_depth(line_views(lines@)),
{
    let ghost lv = line_views(lines@);
    let mut cur: usize = 0;
    let mut mx: usize = 0;
    proof {
        lemma_total_len_le_bytes(lv);
        assert(lv.take(0) =~= Seq::<Seq<char>>::empty());
    }
    let mut i: usize = 0;
    while i < lines.len()
        invariant
            0 <= i <= lines.len(),
            lv == line_views(lines@),
            total_len(lv) <= isize::MAX,
            brace_scan_lines(lv.take(i as int)) == (cur as nat, mx as nat),
            cur <= total_len(lv.take(i as int)),
            mx <= total_len(lv.take(i as int)),
        decreases lines.len() - i,
    {
        let line = lines[i].as_slice();
        let ghost st0 = (cur as nat, mx as nat);
        let ghost base = total_len(lv.take(i as int));
        proof {
            lemma_take_step(lv, i as int);
            lemma_total_len_prefix(lv, i + 1);
            assert(line@.take(0) =~= Seq::<char>::empty());
        }
        let mut j: usize = 0;
        while j < line.len()
            invariant
                0 <= j <= line.len(),
                line@ == lv[i as int],
                base + line.len() <= isize::MAX,
                brace_scan(st0, line@.take(j as int)) == (cur as nat, mx as nat),
                cur <= base + j,
                mx <= base + j,
            decreases line.len() - j,
        {
            proof {
                lemma_take_step(line@, j as int);
            }
            let c = line[j];
            if c == '{' {
                cur = cur + 1;
                if cur > mx {
                    mx = cur;
                }
            } else if c == '}' && cur > 0 {
                cur = cur - 1;
            }
            j += 1;
        }
        proof {
            assert(line@.take(line.len() as int) == line@);
        }
        i += 1;
    }
    proof {
        assert(lv.take(lines.len() as int) == lv);
    }
    mx
}

/// Rust structure counts and brace nesting.
pub fn analyze_rust_structure(lines: &[Vec<char>], metrics: &mut FileMetrics)
    requires
        lines_fit(line_views(lines@)),
        old(metrics).module_count + count_lines(line_views(lines@), LineTest::RustModule)
            <= usize::MAX,
        old(metrics).impl_count + count_lines(line_views(lines@), LineTest::RustImpl)
            <= usize::MAX,
        old(metrics).struct_count + count_lines(line_views(lines@), LineTest::RustStruct)
            <= usize::MAX,
        old(metrics).enum_count + count_lines(line_views(lines@), LineTest::RustEnum)
            <= usize::MAX,
        old(metrics).trait_count + count_lines(line_views(lines@), LineTest::RustTrait)
            <= usize::MAX,
        old(metrics).match_count + count_lines(line_views(lines@), LineTest::RustMatch)
            <= usize::MAX,
        old(metrics).loop_count + count_lines(line_views(lines@), LineTest::RustLoop)
            <= usize::MAX,
        old(metrics).unsafe_count + count_lines(line_views(lines@), LineTest::RustUnsafe)
            <= usize::MAX,
    ensures
        final(metrics)@ == (FileMetricsView {
            module_count: old(metrics)@.module_count + count_lines(
                line_views(lines@),
                LineTest::RustModule,
            ),
            impl_count: old(metrics)@.impl_count + count_lines(
                line_views(lines@),
                LineTest::RustImpl,
            ),
            struct_count: old(metrics)@.struct_count + count_lines(
                line_views(lines@),
                LineTest::RustStruct,
            ),
            enum_count: old(metrics)@.enum_count + count_lines(
                line_views(lines@),
                LineTest::RustEnum,
            ),
            trait_count: old(metrics)@.trait_count + count_lines(
                line_views(lines@),
                LineTest::RustTrait,
            ),
            match_count: old(metrics)@.match_count + count_lines(
                line_views(lines@),
                LineTest::RustMatch,
            ),
            loop_count: old(metrics)@.loop_count + count_lines(
                line_views(lines@),
                LineTest::RustLoop,
            ),
            unsafe_count: old(metrics)@.unsafe_count + count_lines(
                line_views(lines@),
                LineTest::RustUnsafe,
            ),
            max_nesting_depth: brace_depth(line_views(lines@)),
            ..old(metrics)@
        }),
{
    metrics.module_count = metrics.module_count + count_passing(lines, LineTest::RustModule);
    metrics.impl_count = metrics.impl_count + count_passing(lines, LineTest::RustImpl);
    metrics.struct_count = metrics.struct_count + count_passing(lines, LineTest::RustStruct);
    metrics.enum_count = metrics.enum_count + count_passing(lines, LineTest::RustEnum);
    metrics.trait_count = metrics.trait_count + count_passing(lines, LineTest::RustTrait);
    metrics.match_count = metrics.match_count + count_passing(lines, LineTest::RustMatch);
    metrics.loop_count = metrics.loop_count + count_passing(lines, LineTest::RustLoop);
    metrics.unsafe_count = metrics.unsafe_count + count_passing(lines, LineTest::RustUnsafe);
    metrics.max_nesting_depth = scan_braces(lines);
}

/// The deepest indentation over all lines, in steps of four bytes.
pub fn scan_indentation(lines: &[Vec<char>]) -> (r: usize)
    requires
        lines_fit(line_views(lines@)),
    ensures
        r == indent_depth(line_views(lines@)),
{
    let ghost lv = line_views(lines@);
    let mut mx: usize = 0;
    let mut i: usize = 0;
    while i < lines.len()
        invariant
            0 <= i <= lines.len(),
            lv == line_views(lines@),
            lines_fit(lv),
            mx == indent_depth(lv.take(i as int)),
        decreases lines.len() - i,
    {
        let line = lines[i].as_slice();
        proof {
            lemma_take_step(lv, i as int);
            lemma_line_bytes(lv, i as int);
        }
        let (lead, _) = trim_bounds(line);
        let width = utf8_len_prefix(line, lead);
        let d = width / 4;
        if d > mx {
            mx = d;
        }
        i += 1;
    }
    proof {
        assert(lv.take(lines.len() as int) == lv);
    }
    mx
}

/// Python structure counts and indentation depth.
pub fn analyze_python_structure(lines: &[Vec<char>], metrics: &mut FileMetrics)
    requires
        lines_fit(line_views(lines@)),
        old(metrics).struct_count + count_lines(line_views(lines@), LineTest::PythonClass)
            <= usize::MAX,
        old(metrics).loop_count + count_lines(line_views(lines@), LineTest::PythonLoop)
            <= usize::MAX,
        old(metrics).match_count + count_lines(line_views(lines@), LineTest::PythonMatch)
            <= usize::MAX,
    ensures
        final(metrics)@ == (FileMetricsView {
            struct_count: old(metrics)@.struct_count + count_lines(
                line_views(lines@),
                LineTest::PythonClass,
            ),
            loop_count: old(metrics)@.loop_count + count_lines(
                line_views(lines@),
                LineTest::PythonLoop,
            ),
            match_count: old(metrics)@.match_count + count_lines(
                line_views(lines@),
                LineTest::PythonMatch,
            ),
            max_nesting_depth: indent_depth(line_views(lines@)),
            ..old(metrics)@
        }),
{
    metrics.struct_count = metrics.struct_count + count_passing(lines, LineTest::PythonClass);
    metrics.loop_count = metrics.loop_count + count_passing(lines, LineTest::PythonLoop);
    metrics.match_count = metrics.match_count + count_passing(lines, LineTest::PythonMatch);
    metrics.max_nesting_depth = scan_indentation(lines);
}

/// C/C++ structure counts and brace nesting.
pub fn analyze_cpp_structure(lines: &[Vec<char>], metrics: &mut FileMetrics)
    requires
        lines_fit(line_views(lines@)),
        old(metrics).struct_count + count_lines(line_views(lines@), LineTest::CppStruct)
            + count_lines(line_views(lines@), LineTest::CppClass) <= usize::MAX,
        old(metrics).enum_count + count_lines(line_views(lines@), LineTest::CppEnum)
            <= usize::MAX,
        old(metrics).loop_count + count_lines(line_views(lines@), LineTest::CppLoop)
            <= usize::MAX,
        old(metrics).match_count + count_lines(line_views(lines@), LineTest::CppSwitch)
            <= usize::MAX,
    ensures
        final(metrics)@ == (FileMetricsView {
            struct_count: old(metrics)@.struct_count + count_lines(
                line_views(lines@),
                LineTest::CppStruct,
            ) + count_lines(line_views(lines@), LineTest::CppClass),
            enum_count: old(metrics)@.enum_count + count_lines(
                line_views(lines@),
                LineTest::CppEnum,
            ),
            loop_count: old(metrics)@.loop_count + count_lines(
                line_views(lines@),
                LineTest::CppLoop,
            ),
            match_count: old(metrics)@.match_count + count_lines(
                line_views(lines@),
                LineTest::CppSwitch,
            ),
            max_nesting_depth: brace_depth(line_views(lines@)),
            ..old(metrics)@
        }),
{
    metrics.struct_count = metrics.struct_count + count_passing(lines, LineTest::CppStruct);
    metrics.enum_count = metrics.enum_count + count_passing(lines, LineTest::CppEnum);
    metrics.struct_count = metrics.struct_count + count_passing(lines, LineTest::CppClass);
    metrics.loop_count = metrics.loop_count + count_passing(lines, LineTest::CppLoop);
    metrics.match_count = metrics.match_count + count_passing(lines, LineTest::CppSwitch);
    metrics.max_nesting_depth = scan_braces(lines);
}

// ---------------------------------------------------------------------------
// Functions
// ---------------------------------------------------------------------------

/// Line number (1-based) where the brace-delimited body opened on line `a` closes.
pub fn brace_block_end(lines: &[Vec<char>], a: usize) -> (r: usize)
    requires
        a < lines.len(),
        lines_fit(line_views(lines@)),
    ensures
        r == brace_end(line_views(lines@), a as int, a as int),
        a + 1 <= r <= lines.len(),
{
    let ghost lv = line_views(lines@);
    let mut opens: usize = 0;
    let mut closes: usize = 0;
    let mut k: usize = a;
    while k < lines.len()
        invariant
            a <= k <= lines.len(),
            lv == line_views(lines@),
            lines_fit(lv),
            opens == char_total(lv, a as int, k as int, '{'),
            closes == char_total(lv, a as int, k as int, '}'),
            brace_end(lv, a as int, k as int) == brace_end(lv, a as int, a as int),
        decreases lines.len() - k,
    {
        proof {
            lemma_char_total_bound(lv, a as int, k + 1, '{');
            lemma_char_total_bound(lv, a as int, k + 1, '}');
            lemma_total_bytes_prefix(lv, k + 1);
        }
        let line = lines[k].as_slice();
        opens = opens + count_char_exec(line, '{');
        closes = closes + count_char_exec(line, '}');
        if opens > 0 && opens <= closes {
            return k + 1;
        }
        k += 1;
    }
    a + 1
}

/// Line number (1-based) where the indented body of the `def` on line `a` ends.
pub fn indented_block_end(lines: &[Vec<char>], a: usize) -> (r: usize)
    requires
        a < lines.len(),
    ensures
        r == indent_end(
            line_views(lines@),
            leading_blanks(lines@[a as int]@),
            a + 1,
            a + 1,
        ),
        a + 1 <= r <= lines.len(),
{
    let ghost lv = line_views(lines@);
    let base = leading_blanks_exec(lines[a].as_slice());
    let mut last: usize = a + 1;
    let mut j: usize = a + 1;
    while j < lines.len()
        invariant
            a + 1 <= last <= j <= lines.len(),
            lv == line_views(lines@),
            base == leading_blanks(lv[a as int]),
            indent_end(lv, base as nat, j as int, last as int) == indent_end(
                lv,
                base as nat,
                a + 1,
                a + 1,
            ),
        decreases lines.len() - j,
    {
        let line = lines[j].as_slice();
        let t = trim_chars(line);
        if t.len() != 0 {
            let indent = leading_blanks_exec(line);
            if indent <= base {
                return last;
            }
            last = j + 1;
        }
        j += 1;
    }
    last
}

/// The Rust function whose signature is on line `start_idx`.
pub fn build_rust_function_info(lines: &[Vec<char>], start_idx: usize) -> (r: Option<
    FunctionInfo,
>)
    requires
        lines_fit(line_views(lines@)),
    ensures
        function_opt_view(r) == if start_idx < lines.len() {
            rust_function(line_views(lines@), start_idx as int)
        } else {
            None
        },
{
    if start_idx >= lines.len() {
        return None;
    }
    let line = trim_chars(lines[start_idx].as_slice());
    let fn_pat = chars_of("fn ");
    let paren = chars_of("(");
    proof {
        reveal_strlit("fn ");
    }
    let p = match find_chars(line.as_slice(), fn_pat.as_slice()) {
        Some(p) => p,
        None => {
            return None;
        },
    };
    let after = copy_range(line.as_slice(), p + 3, line.len());
    let e = match find_chars(after.as_slice(), paren.as_slice()) {
        Some(e) => e,
        None => {
            return None;
        },
    };
    let name_part = copy_range(after.as_slice(), 0, e);
    let name_chars = trim_chars(name_part.as_slice());
    let parameter_count = count_parameters(line.as_slice());
    let end_line = brace_block_end(lines, start_idx);
    let f = FunctionInfo {
        name: string_from_chars(name_chars.as_slice()),
        start_line: start_idx + 1,
        end_line,
        parameter_count,
        line_count: end_line - start_idx,
    };
    proof {
        assert(after@.take(e as int) == name_part@);
    }
    Some(f)
}

/// The Python function whose `def` is on line `start_idx`.
pub fn build_python_function_info(lines: &[Vec<char>], start_idx: usize) -> (r: Option<
    FunctionInfo,
>)
    ensures
        function_opt_view(r) == if start_idx < lines.len() {
            python_function(line_views(lines@), start_idx as int)
        } else {
            None
        },
{
    if start_idx >= lines.len() {
        return None;
    }
    let line = trim_chars(lines[start_idx].as_slice());
    if !begins(line.as_slice(), "def ") {
        return None;
    }
    proof {
        reveal_strlit("def ");
    }
    let after = copy_range(line.as_slice(), 4, line.len());
    let paren = chars_of("(");
    let e = match find_chars(after.as_slice(), paren.as_slice()) {
        Some(e) => e,
        None => {
            return None;
        },
    };
    let name_part = copy_range(after.as_slice(), 0, e);
    let name_chars = trim_chars(name_part.as_slice());
    let parameter_count = count_parameters(line.as_slice());
    let end_line = indented_block_end(lines, start_idx);
    let f = FunctionInfo {
        name: string_from_chars(name_chars.as_slice()),
        start_line: start_idx + 1,
        end_line,
        parameter_count,
        line_count: end_line - start_idx,
    };
    proof {
        assert(after@.take(e as int) == name_part@);
    }
    Some(f)
}

/// Whether a trimmed C/C++ line reads as a function definition.
pub fn looks_like_cpp_function(trimmed: &[char]) -> (r: bool)
    ensures
        r == looks_like_cpp(trimmed@),
{
    has(trimmed, "(") && has(trimmed, ")") && has(trimmed, "{") && !begins(trimmed, "if ")
        && !begins(trimmed, "for ") && !begins(trimmed, "while ") && !begins(trimmed, "switch ")
        && !begins(trimmed, "//")
}

/// The C/C++ function whose definition starts on line `start_idx`.
pub fn build_cpp_function_info(lines: &[Vec<char>], start_idx: usize) -> (r: Option<FunctionInfo>)
    requires
        lines_fit(line_views(lines@)),
    ensures
        function_opt_view(r) == if start_idx < lines.len() {
            cpp_function(line_views(lines@), start_idx as int)
        } else {
            None
        },
{
    if start_idx >= lines.len() {
        return None;
    }
    let line = trim_chars(lines[start_idx].as_slice());
    if !looks_like_cpp_function(line.as_slice()) {
        return None;
    }
    let paren = chars_of("(");
    let before = match find_chars(line.as_slice(), paren.as_slice()) {
        Some(k) => copy_range(line.as_slice(), 0, k),
        None => copy_range(line.as_slice(), 0, line.len()),
    };
    proof {
        assert(line@.subrange(0, line@.len() as int) == line@);
    }
    let t = trim_chars(before.as_slice());
    if t.len() == 0 {
        return None;
    }
    let ws = last_word_start_exec(t.as_slice(), t.len());
    let name_chars = copy_range(t.as_slice(), ws, t.len());
    let parameter_count = count_parameters(line.as_slice());
    let end_line = brace_block_end(lines, start_idx);
    Some(
        FunctionInfo {
            name: string_from_chars(name_chars.as_slice()),
            start_line: start_idx + 1,
            end_line,
            parameter_count,
            line_count: end_line - start_idx,
        },
    )
}

// ---------------------------------------------------------------------------
// Findings
// ---------------------------------------------------------------------------

/// The function recorded for line `idx`, given the line trimmed.
pub fn detect_function(lang: Language, lines: &[Vec<char>], idx: usize, trimmed: &[char]) -> (r:
    Option<FunctionInfo>)
    requires
        idx < lines.len(),
        trimmed@ == trim(lines@[idx as int]@),
        lines_fit(line_views(lines@)),
    ensures
        function_opt_view(r) == detected_function(lang, line_views(lines@), idx as int),
{
    match lang {
        Language::Rust => {
            if has(trimmed, "fn ") {
                build_rust_function_info(lines, idx)
            } else {
                None
            }
        },
        Language::Python => {
            if begins(trimmed, "def ") {
                build_python_function_info(lines, idx)
            } else {
                None
            }
        },
        Language::Cpp => {
            if looks_like_cpp_function(trimmed) {
                build_cpp_function_info(lines, idx)
            } else {
                None
            }
        },
    }
}

fn long_function_rule_name(lang: Language) -> (r: &'static str)
    ensures
        r@ == long_function_rule(lang),
{
    match lang {
        Language::Rust => "rust.long_function",
        Language::Python => "python.long_function",
        Language::Cpp => "cpp.long_function",
    }
}

fn many_parameters_rule_name(lang: Language) -> (r: &'static str)
    ensures
        r@ == many_parameters_rule(lang),
{
    match lang {
        Language::Rust => "rust.too_many_parameters",
        Language::Python => "python.too_many_parameters",
        Language::Cpp => "cpp.too_many_parameters",
    }
}

/// Appends the findings on a detected function.
fn push_function_issues(
    issues: &mut Vec<Issue>,
    lang: Language,
    path: &str,
    f: &FunctionInfo,
    snippet: &str,
    th: &RuleThresholds,
)
    ensures
        issue_views(final(issues)@) == issue_views(old(issues)@) + function_issues(
            lang,
            path@,
            *th,
            f@,
            snippet@,
        ),
{
    push_when(
        issues,
        f.line_count > th.max_function_length,
        Severity::Warning,
        long_function_rule_name(lang),
        "function is longer than configured threshold",
        path,
        f.start_line,
        snippet,
    );
    push_when(
        issues,
        f.parameter_count > th.max_parameters,
        Severity::Warning,
        many_parameters_rule_name(lang),
        "function has too many parameters",
        path,
        f.start_line,
        snippet,
    );
    assert(issue_views(issues@) =~= issue_views(old(issues)@) + function_issues(
        lang,
        path@,
        *th,
        f@,
        snippet@,
    ));
}

/// Appends the findings of the Rust marker rules on line number `n`.
fn push_rust_markers(issues: &mut Vec<Issue>, path: &str, t: &[char], n: usize, snippet: &str)
    requires
        n >= 1,
        t@ == trim(snippet@),
    ensures
        issue_views(final(issues)@) == issue_views(old(issues)@) + rust_marker_issues(
            path@,
            snippet@,
            n - 1,
        ),
{
    push_when(
        issues,
        has(t, ".unwrap()") || has(t, ".expect("),
        Severity::Warning,
        "rust.unwrap",
        "use of unwrap/expect may cause panic",
        path,
        n,
        snippet,
    );
    push_when(
        issues,
        has(t, "todo!") || has(t, "unimplemented!"),
        Severity::Warning,
        "rust.todo",
        "unfinished code marker found",
        path,
        n,
        snippet,
    );
    push_when(
        issues,
        has(t, "unsafe"),
        Severity::Info,
        "rust.unsafe",
        "unsafe code detected",
        path,
        n,
        snippet,
    );
    push_when(
        issues,
        has(t, "dbg!("),
        Severity::Info,
        "rust.dbg",
        "debug macro dbg!() found",
        path,
        n,
        snippet,
    );
    
    assert(issue_views(issues@) =~= issue_views(old(issues)@) + rust_marker_issues(
        path@,
        snippet@,
        n - 1,
    ));
}

/// Appends the findings of the Python marker rules on line number `n`.
fn push_python_markers(issues: &mut Vec<Issue>, path: &str, t: &[char], n: usize, snippet: &str)
    requires
        n >= 1,
        t@ == trim(snippet@),
    ensures
        issue_views(final(issues)@) == issue_views(old(issues)@) + python_marker_issues(
            path@,
            snippet@,
            n - 1,
        ),
{
    push_when(
        issues,
        has_call(t, "eval("),
        Severity::Warning,
        "python.eval",
        "use of eval() is risky",
        path,
        n,
        snippet,
    );
    push_when(
        issues,
        has_call(t, "exec("),
        Severity::Warning,
        "python.exec",
        "use of exec() is risky",
        path,
        n,
        snippet,
    );
    push_when(
        issues,
        same_text(t, "except:") || begins(t, "except:"),
        Severity::Warning,
        "python.bare_except",
        "bare except clause found",
        path,
        n,
        snippet,
    );
    push_when(
        issues,
        has_call(t, "print("),
        Severity::Info,
        "python.print",
        "possible debug print found",
        path,
        n,
        snippet,
    );
    push_when(
        issues,
        same_text(t, "pass"),
        Severity::Info,
        "python.pass",
        "pass statement found, check if logic is incomplete",
        path,
        n,
        snippet,
    );
    
    assert(issue_views(issues@) =~= issue_views(old(issues)@) + python_marker_issues(
        path@,
        snippet@,
        n - 1,
    ));
}

/// Appends the findings of the C/C++ marker rules on line number `n`.
fn push_cpp_markers(issues: &mut Vec<Issue>, path: &str, t: &[char], n: usize, snippet: &str)
    requires
        n >= 1,
        t@ == trim(snippet@),
    ensures
        issue_views(final(issues)@) == issue_views(old(issues)@) + cpp_marker_issues(
            path@,
            snippet@,
            n - 1,
        ),
{
    push_when(
        issues,
        has_call(t, "gets("),
        Severity::Error,
        "cpp.gets",
        "unsafe gets() usage found",
        path,
        n,
        snippet,
    );
    push_when(
        issues,
        has_call(t, "strcpy(") || has_call(t, "strcat("),
        Severity::Warning,
        "cpp.unsafe_string",
        "unsafe C string function found",
        path,
        n,
        snippet,
    );
    push_when(
        issues,
        has_call(t, "printf(") || has(t, "cout <<"),
        Severity::Info,
        "cpp.output",
        "possible debug output found",
        path,
        n,
        snippet,
    );
    push_when(
        issues,
        has_call(t, "malloc(") || has_call(t, "free(") || has(t, "new ") || has(t, "delete "),
        Severity::Info,
        "cpp.memory",
        "manual memory management detected",
        path,
        n,
        snippet,
    );
    push_when(
        issues,
        has_call(t, "system("),
        Severity::Warning,
        "cpp.system",
        "system() call found",
        path,
        n,
        snippet,
    );
    
    assert(issue_views(issues@) =~= issue_views(old(issues)@) + cpp_marker_issues(
        path@,
        snippet@,
        n - 1,
    ));
}

/// Appends the findings of the language's marker rules on line number `n`.
fn push_marker_issues(
    issues: &mut Vec<Issue>,
    lang: Language,
    path: &str,
    trimmed: &[char],
    n: usize,
    snippet: &str,
)
    requires
        n >= 1,
        trimmed@ == trim(snippet@),
    ensures
        issue_views(final(issues)@) == issue_views(old(issues)@) + marker_issues(
            lang,
            path@,
            snippet@,
            n - 1,
        ),
{
    match lang {
        Language::Rust => push_rust_markers(issues, path, trimmed, n, snippet),
        Language::Python => push_python_markers(issues, path, trimmed, n, snippet),
        Language::Cpp => push_cpp_markers(issues, path, trimmed, n, snippet),
    }
}

/// Appends the findings of the rules every language shares: long lines, a
/// large file, deep nesting.
pub fn check_shared_rules(
    path: &str,
    lines: &[Vec<char>],
    issues: &mut Vec<Issue>,
    metrics: &FileMetrics,
    config: &AnalysisConfig,
)
    ensures
        issue_views(final(issues)@) == issue_views(old(issues)@) + shared_issues(
            path@,
            line_views(lines@),
            config.thresholds,
            metrics.max_nesting_depth as nat,
        ),
{
    let ghost lv = line_views(lines@);
    let ghost start = issue_views(issues@);
    let mut i: usize = 0;
    while i < lines.len()
        invariant
            0 <= i <= lines.len(),
            lv == line_views(lines@),
            start == issue_views(old(issues)@),
            issue_views(issues@) == start + long_line_issues(
                path@,
                lv,
                config.thresholds,
                i as int,
            ),
        decreases lines.len() - i,
    {
        let line = lines[i].as_slice();
        let snippet = string_from_chars(line);
        push_when(
            issues,
            line.len() > config.thresholds.max_line_length,
            Severity::Info,
            "style.long_line",
            "line longer than configured threshold",
            path,
            i + 1,
            snippet.as_str(),
        );
        i += 1;
        assert(issue_views(issues@) =~= start + long_line_issues(
            path@,
            lv,
            config.thresholds,
            i as int,
        ));
    }
    let first = if lines.len() > 0 {
        string_from_chars(lines[0].as_slice())
    } else {
        String::new()
    };
    push_when(
        issues,
        lines.len() > config.thresholds.max_file_lines,
        Severity::Warning,
        "size.large_file",
        "file is larger than configured threshold",
        path,
        1,
        first.as_str(),
    );
    let empty = String::new();
    push_when(
        issues,
        metrics.max_nesting_depth > config.thresholds.max_nesting_depth,
        Severity::Warning,
        "style.deep_nesting",
        "nesting depth is larger than configured threshold",
        path,
        1,
        empty.as_str(),
    );
    assert(issue_views(issues@) =~= issue_views(old(issues)@) + shared_issues(
        path@,
        lv,
        config.thresholds,
        metrics.max_nesting_depth as nat,
    ));
}

// ---------------------------------------------------------------------------
// Files
// ---------------------------------------------------------------------------

/// Statistics and findings of one file in the given language.
#[verifier::rlimit(40)]
pub fn analyze_source(lang: Language, path: &str, lines: &[Vec<char>], config: &AnalysisConfig) -> (r:
    FileReport)
    requires
        lines_fit(line_views(lines@)),
    ensures
        r@ == file_report(lang, path@, line_views(lines@), config.thresholds),
{
    let ghost lv = line_views(lines@);
    let ghost th = config.thresholds;
    let mut metrics = FileMetrics::default();
    let mut issues: Vec<Issue> = Vec::new();
    proof {
        lemma_count_lines_le(lv, LineTest::Code);
        lemma_count_lines_le(lv, LineTest::Comment);
        lemma_count_lines_le(lv, LineTest::Blank);
        lemma_count_lines_le(lv, LineTest::RustModule);
        lemma_count_lines_le(lv, LineTest::RustImpl);
        lemma_count_lines_le(lv, LineTest::RustStruct);
        lemma_count_lines_le(lv, LineTest::RustEnum);
        lemma_count_lines_le(lv, LineTest::RustTrait);
        lemma_count_lines_le(lv, LineTest::RustMatch);
        lemma_count_lines_le(lv, LineTest::RustLoop);
        lemma_count_lines_le(lv, LineTest::RustUnsafe);
        lemma_count_lines_le(lv, LineTest::PythonClass);
        lemma_count_lines_le(lv, LineTest::PythonLoop);
        lemma_count_lines_le(lv, LineTest::PythonMatch);
        lemma_count_lines_le(lv, LineTest::CppStruct);
        lemma_count_lines_le(lv, LineTest::CppEnum);
        lemma_count_lines_le(lv, LineTest::CppClass);
        lemma_count_lines_le(lv, LineTest::CppLoop);
        lemma_count_lines_le(lv, LineTest::CppSwitch);
        lemma_struct_class_disjoint(lv);
    }
    assert(metrics.code_lines == 0);
    assert(lv.len() == lines.len());
    compute_basic_metrics(lines, &mut metrics);
    match lang {
        Language::Rust => analyze_rust_structure(lines, &mut metrics),
        Language::Python => analyze_python_structure(lines, &mut metrics),
        Language::Cpp => analyze_cpp_structure(lines, &mut metrics),
    }
    let mut functions: Vec<FunctionInfo> = Vec::new();
    let mut idx: usize = 0;
    while idx < lines.len()
        invariant
            0 <= idx <= lines.len(),
            lv == line_views(lines@),
            th == config.thresholds,
            lines_fit(lv),
            issue_views(issues@) == line_issues_upto(lang, path@, lv, th, idx as int),
            function_views(functions@) == functions_upto(lang, lv, idx as int),
            functions.len() <= idx,
        decreases lines.len() - idx,
    {
        let line = lines[idx].as_slice();
        let snippet = string_from_chars(line);
        let trimmed = trim_chars(line);
        let function = detect_function(lang, lines, idx, trimmed.as_slice());
        match function {
            Some(f) => {
                push_function_issues(
                    &mut issues,
                    lang,
                    path,
                    &f,
                    snippet.as_str(),
                    &config.thresholds,
                );
                functions.push(f);
            },
            None => {},
        }
        push_marker_issues(&mut issues, lang, path, trimmed.as_slice(), idx + 1, snippet.as_str());
        idx += 1;
        assert(issue_views(issues@) =~= line_issues_upto(lang, path@, lv, th, idx as int));
        assert(function_views(functions@) =~= functions_upto(lang, lv, idx as int));
    }
    metrics.functions = functions;
    metrics.function_count = metrics.functions.len();
    check_shared_rules(path, lines, &mut issues, &metrics, config);
    let r = build_file_report(path, metrics, issues);
    assert(r@.metrics =~= file_metrics(lang, lv));
    assert(r@.issues =~= file_issues(lang, path@, lv, th));
    r
}

/// No trimmed line starts both with `struct ` and with `class `.
pub proof fn lemma_struct_class_disjoint(lines: Seq<Seq<char>>)
    ensures
        count_lines(lines, LineTest::CppStruct) + count_lines(lines, LineTest::CppClass)
            <= lines.len(),
    decreases lines.len(),
{
    if lines.len() > 0 {
        lemma_struct_class_disjoint(lines.drop_last());
        reveal_strlit("struct ");
        reveal_strlit("class ");
        let t = trim(lines.last());
        if starts_with(t, "struct "@) && starts_with(t, "class "@) {
            assert(t.subrange(0, 7)[0] == 's');
            assert(t.subrange(0, 6)[0] == 'c');
        }
    }
}

/// Statistics and findings of a Rust file.
pub fn analyze_rust_file(path: &str, lines: &[Vec<char>], config: &AnalysisConfig) -> (r:
    FileReport)
    requires
        lines_fit(line_views(lines@)),
    ensures
        r@ == file_report(Language::Rust, path@, line_views(lines@), config.thresholds),
{
    analyze_source(Language::Rust, path, lines, config)
}

/// Statistics and findings of a Python file.
pub fn analyze_python_file(path: &str, lines: &[Vec<char>], config: &AnalysisConfig) -> (r:
    FileReport)
    requires
        lines_fit(line_views(lines@)),
    ensures
        r@ == file_report(Language::Python, path@, line_views(lines@), config.thresholds),
{
    analyze_source(Language::Python, path, lines, config)
}

/// Statistics and findings of a C/C++ file.
pub fn analyze_cpp_file(path: &str, lines: &[Vec<char>], config: &AnalysisConfig) -> (r:
    FileReport)
    requires
        lines_fit(line_views(lines@)),
    ensures
        r@ == file_report(Language::Cpp, path@, line_views(lines@), config.thresholds),
{
    analyze_source(Language::Cpp, path, lines, config)
}

// ---------------------------------------------------------------------------
// Project
// ---------------------------------------------------------------------------

/// A source file handed to the analysis: its path, its extension if it has
/// one, and its text.
#[derive(Debug, Clone)]
pub struct SourceFile {
    pub path: String,
    pub extension: Option<String>,
    pub content: String,
}

/// The language a source file is analysed as.
pub open spec fn file_language(f: SourceFile) -> Option<Language> {
    match f.extension {
        Some(e) => language_of(e@),
        None => None,
    }
}

/// Every file's text is one that memory can hold: its size fits in an `isize`.
pub open spec fn sources_fit(files: Seq<SourceFile>) -> bool {
    forall|i: int| 0 <= i < files.len() ==> #[trigger] utf8_len(files[i].content@) <= isize::MAX
}

/// The reports of the files in a known language, in the order given.
pub open spec fn project_reports(th: RuleThresholds, files: Seq<SourceFile>) -> Seq<FileReportView>
    decreases files.len(),
{
    if files.len() == 0 {
        Seq::empty()
    } else {
        project_reports(th, files.drop_last()) + match file_language(files.last()) {
            Some(lang) => seq![
                file_report(lang, files.last().path@, split_lines_spec(files.last().content@), th),
            ],
            None => Seq::empty(),
        }
    }
}

pub proof fn lemma_total_bytes_add(a: Seq<Seq<char>>, b: Seq<Seq<char>>)
    ensures
        total_bytes(a + b) == total_bytes(a) + total_bytes(b),
    decreases b.len(),
{
    if b.len() > 0 {
        lemma_total_bytes_add(a, b.drop_last());
        assert((a + b).drop_last() == a + b.drop_last());
    } else {
        assert(a + b == a);
    }
}

proof fn lemma_total_bytes_single(x: Seq<char>)
    ensures
        total_bytes(seq![x]) == utf8_len(x),
{
    let one = seq![x];
    assert(one.drop_last() =~= Seq::<Seq<char>>::empty());
    assert(total_bytes(one.drop_last()) == 0);
    assert(one.last() == x);
}

/// The lines of a text are no larger, together, than the text.
pub proof fn lemma_split_lines_bytes(s: Seq<char>)
    ensures
        total_bytes(split_lines_spec(s)) <= utf8_len(s),
    decreases s.len(),
{
    if s.len() > 0 {
        let k = next_newline(s, 0);
        lemma_next_newline_bounds(s, 0);
        if k >= s.len() {
            lemma_total_bytes_single(s);
        } else {
            let head = strip_cr(s.take(k));
            let rest = s.skip(k + 1);
            assert(split_lines_spec(s) == seq![head] + split_lines_spec(rest));
            lemma_split_lines_bytes(rest);
            lemma_total_bytes_add(seq![head], split_lines_spec(rest));
            lemma_total_bytes_single(head);
            lemma_utf8_len_prefix(s.take(k), head.len() as int);
            assert(s.take(k).take(head.len() as int) =~= head);
            assert(utf8_len(head) <= utf8_len(s.take(k)));
            assert(s =~= s.take(k) + (seq![s[k]] + rest));
            lemma_utf8_len_add(s.take(k), seq![s[k]] + rest);
            lemma_utf8_len_add(seq![s[k]], rest);
            assert(seq![s[k]].drop_last() =~= Seq::<char>::empty());
            assert(utf8_len(s) >= utf8_len(s.take(k)) + utf8_len(rest));
        }
    }
}

/// The message given when there is nothing to analyse.
pub open spec fn no_sources_message() -> Seq<char> {
    "no supported source files found in target directory"@
}

/// A timestamp as `current_timestamp_string` renders it.
pub open spec fn is_timestamp_text(s: Seq<char>) -> bool {
    s == "0"@ || exists|n: u64| s == decimal(n as nat)
}

/// What analysing `files` under `config` gives, with the report dated `generated_at`.
pub open spec fn analysis_outcome(
    config: AnalysisConfig,
    files: Seq<SourceFile>,
    generated_at: Seq<char>,
    r: AppResult<AnalysisReport>,
) -> bool {
    let reports = project_reports(config.thresholds, files);
    if reports.len() == 0 {
        r matches Err(AppError::InvalidInput(m)) && m@ == no_sources_message()
    } else {
        r matches Ok(rep) && {
            &&& rep.root_path@ == config.root_path@
            &&& rep.generated_at@ == generated_at
            &&& report_views(rep.files@) == reports
            &&& summarizes(rep.summary, reports)
        }
    }
}

/// The reports of the files in a known language, in the order given; files
/// of another language are passed over.
pub fn analyze_files(config: &AnalysisConfig, files: &[SourceFile]) -> (r: Vec<FileReport>)
    requires
        sources_fit(files@),
    ensures
        report_views(r@) == project_reports(config.thresholds, files@),
{
    let mut reports: Vec<FileReport> = Vec::new();
    let mut i: usize = 0;
    while i < files.len()
        invariant
            0 <= i <= files.len(),
            sources_fit(files@),
            report_views(reports@) == project_reports(
                config.thresholds,
                files@.take(i as int),
            ),
        decreases files.len() - i,
    {
        let f = &files[i];
        assert(files@.take(i + 1).drop_last() == files@.take(i as int));
        let ext = match &f.extension {
            Some(e) => Some(e.as_str()),
            None => None,
        };
        match detect_language(ext) {
            Some(lang) => {
                let lines = split_lines(f.content.as_str());
                proof {
                    lemma_split_lines_bytes(files@[i as int].content@);
                    assert(line_views(lines@) == split_lines_spec(files@[i as int].content@));
                }
                let r = analyze_source(lang, f.path.as_str(), lines.as_slice(), config);
                reports.push(r);
            },
            None => {},
        }
        i += 1;
        assert(report_views(reports@) =~= project_reports(
            config.thresholds,
            files@.take(i as int),
        ));
    }
    assert(files@.take(files.len() as int) == files@);
    reports
}

/// Whether the totals of the analysis of `files` fit in a `usize`, the
/// condition under which `analyze_project` can add them up.
pub fn project_fits(config: &AnalysisConfig, files: &[SourceFile]) -> (r: bool)
    requires
        sources_fit(files@),
    ensures
        r == summary_fits(project_reports(config.thresholds, files@)),
{
    let reports = analyze_files(config, files);
    Summary::totals_fit(reports.as_slice())
}

/// The project report of the given files, dated `generated_at`; an error when
/// no file is in a language the analysis knows.
pub fn analyze_sources(config: &AnalysisConfig, files: &[SourceFile], generated_at: String) -> (r:
    AppResult<AnalysisReport>)
    requires
        sources_fit(files@),
        summary_fits(project_reports(config.thresholds, files@)),
    ensures
        analysis_outcome(*config, files@, generated_at@, r),
{
    let reports = analyze_files(config, files);
    if reports.len() == 0 {
        return Err(
            AppError::InvalidInput(
                String::from_str("no supported source files found in target directory"),
            ),
        );
    }
    let summary = Summary::from_files(reports.as_slice());
    Ok(AnalysisReport { root_path: config.root_path.clone(), generated_at, summary, files: reports })
}

#[verifier::external_type_specification]
#[verifier::external_body]
pub struct ExSystemTime(std::time::SystemTime);

/// `SystemTime::now`: the system clock's current reading. Nothing is claimed
/// of it.
#[verifier::external_body]
fn system_now() -> (r: std::time::SystemTime) {
    std::time::SystemTime::now()
}

/// `SystemTime::duration_since(UNIX_EPOCH)`: the time elapsed since the Unix
/// epoch, `None` where std reports an error (a reading earlier than the
/// epoch). Nothing is claimed of the value: it depends on the clock.
#[verifier::external_body]
fn since_epoch(t: &std::time::SystemTime) -> (r: Option<core::time::Duration>) {
    match t.duration_since(std::time::UNIX_EPOCH) {
        Ok(d) => Some(d),
        Err(_) => None,
    }
}

/// `Duration::as_secs`: the whole seconds of a duration. Nothing is claimed of
/// the value, since the duration is opaque here.
#[verifier::external_body]
fn whole_seconds(d: &core::time::Duration) -> (r: u64) {
    d.as_secs()
}

/// The text of a timestamp: the seconds in decimal, or `0` where the clock
/// gave no reading since the epoch.
pub open spec fn timestamp_of(secs: Option<u64>) -> Seq<char> {
    match secs {
        Some(n) => decimal(n as nat),
        None => "0"@,
    }
}

/// Writes a timestamp: the seconds in decimal, or `0` for `None`.
pub fn timestamp_text(secs: Option<u64>) -> (r: String)
    ensures
        r@ == timestamp_of(secs),
        is_timestamp_text(r@),
{
    match secs {
        Some(n) => {
            let mut s = String::new();
            push_decimal(&mut s, n);
            assert(s@ =~= decimal(n as nat));
            s
        },
        None => String::from_str("0"),
    }
}

/// The current time as decimal seconds since the Unix epoch, or `0` when the
/// clock reads earlier than the epoch.
pub fn current_timestamp_string() -> (r: String)
    ensures
        is_timestamp_text(r@),
{
    let now = system_now();
    let secs = match since_epoch(&now) {
        Some(d) => Some(whole_seconds(&d)),
        None => None,
    };
    timestamp_text(secs)
}

/// The project report of the given files, dated now; an error when no file is
/// in a language the analysis knows.
pub fn analyze_project(config: &AnalysisConfig, files: &[SourceFile]) -> (r: AppResult<
    AnalysisReport,
>)
    requires
        sources_fit(files@),
        summary_fits(project_reports(config.thresholds, files@)),
    ensures
        project_reports(config.thresholds, files@).len() == 0 ==> analysis_outcome(
            *config,
            files@,
            Seq::empty(),
            r,
        ),
        project_reports(config.thresholds, files@).len() > 0 ==> (r matches Ok(rep)
            && is_timestamp_text(rep.generated_at@) && analysis_outcome(
            *config,
            files@,
            rep.generated_at@,
            r,
        )),
{
    let generated_at = current_timestamp_string();
    analyze_sources(config, files, generated_at)
}

} // verus!
