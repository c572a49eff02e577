//! What the analysis of one source file reports, stated over its lines as
//! character sequences: line classes, structure counts, brace nesting,
//! function extents and the findings of every rule, in report order.
use vstd::prelude::*;

use crate::model::{
    FileMetricsView, FileReportView, FunctionInfoView, IssueView, Position, RuleThresholds,
    Severity,
};
use crate::text::{
    calls, contains, count_char, find, last_word, lead_end, leading_blanks, starts_with, trim,
    trim_start, utf8_len,
};

verus! {

/// The languages the analysis knows, chosen by file extension.
#[derive(Debug, Clone, Copy, PartialEq, Eq, Structural)]
pub enum Language {
    Rust,
    Python,
    Cpp,
}

// ---------------------------------------------------------------------------
// File selection
// ---------------------------------------------------------------------------

/// Directory names that the walk is meant to skip.
pub open spec fn is_skipped_dir_name(name: Seq<char>) -> bool {
    ||| name == "target"@
    ||| name == ".git"@
    ||| name == ".idea"@
    ||| name == ".vscode"@
    ||| name == "node_modules"@
    ||| name == ".cargo"@
}

/// The language of a file extension, if it is one the analysis knows.
pub open spec fn language_of(ext: Seq<char>) -> Option<Language> {
    if ext == "rs"@ {
        Some(Language::Rust)
    } else if ext == "py"@ {
        Some(Language::Python)
    } else if ext == "c"@ || ext == "cc"@ || ext == "cpp"@ {
        Some(Language::Cpp)
    } else {
        None
    }
}

// ---------------------------------------------------------------------------
// Sizes
// ---------------------------------------------------------------------------

/// UTF-8 size of all lines together.
pub open spec fn total_bytes(lines: Seq<Seq<char>>) -> nat
    decreases lines.len(),
{
    if lines.len() == 0 {
        0
    } else {
        total_bytes(lines.drop_last()) + utf8_len(lines.last())
    }
}

/// The lines came from one text held in memory: its size fits in an `isize`.
pub open spec fn lines_fit(lines: Seq<Seq<char>>) -> bool {
    total_bytes(lines) <= isize::MAX
}

/// Characters in all lines together.
pub open spec fn total_len(lines: Seq<Seq<char>>) -> nat
    decreases lines.len(),
{
    if lines.len() == 0 {
        0
    } else {
        total_len(lines.drop_last()) + lines.last().len()
    }
}

/// Length in characters of the longest line (0 for no lines).
pub open spec fn longest(lines: Seq<Seq<char>>) -> nat
    decreases lines.len(),
{
    if lines.len() == 0 {
        0
    } else {
        let m = longest(lines.drop_last());
        if lines.last().len() > m {
            lines.last().len()
        } else {
            m
        }
    }
}

// ---------------------------------------------------------------------------
// Line classes
// ---------------------------------------------------------------------------

/// A trimmed line that reads as a comment.
pub open spec fn is_comment_text(t: Seq<char>) -> bool {
    ||| starts_with(t, "//"@)
    ||| starts_with(t, "/*"@)
    ||| starts_with(t, "*"@)
    ||| starts_with(t, "#"@)
}

/// A test that a line passes or not; each is counted over the lines of a file.
#[derive(Debug, Clone, Copy, PartialEq, Eq, Structural)]
pub enum LineTest {
    Blank,
    Comment,
    Code,
    RustModule,
    RustImpl,
    RustStruct,
    RustEnum,
    RustTrait,
    RustMatch,
    RustLoop,
    RustUnsafe,
    PythonClass,
    PythonLoop,
    PythonMatch,
    CppStruct,
    CppEnum,
    CppClass,
    CppLoop,
    CppSwitch,
}

pub open spec fn passes(l: Seq<char>, test: LineTest) -> bool {
    let t = trim(l);
    let s = trim_start(l);
    match test {
        LineTest::Blank => t.len() == 0,
        LineTest::Comment => t.len() != 0 && is_comment_text(t),
        LineTest::Code => t.len() != 0 && !is_comment_text(t),
        LineTest::RustModule => starts_with(t, "mod "@),
        LineTest::RustImpl => starts_with(t, "impl "@),
        LineTest::RustStruct => starts_with(t, "struct "@) || contains(t, " struct "@),
        LineTest::RustEnum => starts_with(t, "enum "@) || contains(t, " enum "@),
        LineTest::RustTrait => starts_with(t, "trait "@) || contains(t, " trait "@),
        LineTest::RustMatch => contains(t, "match "@),
        LineTest::RustLoop => contains(t, " for "@) || starts_with(t, "for "@) || contains(
            t,
            "while "@,
        ),
        LineTest::RustUnsafe => contains(t, "unsafe"@),
        LineTest::PythonClass => starts_with(s, "class "@),
        LineTest::PythonLoop => starts_with(s, "for "@) || starts_with(s, "while "@),
        LineTest::PythonMatch => starts_with(s, "match "@),
        LineTest::CppStruct => starts_with(t, "struct "@),
        LineTest::CppEnum => starts_with(t, "enum "@),
        LineTest::CppClass => starts_with(t, "class "@),
        LineTest::CppLoop => starts_with(t, "for "@) || starts_with(t, "while "@),
        LineTest::CppSwitch => contains(t, "switch"@),
    }
}

/// How many lines pass the test.
pub open spec fn count_lines(lines: Seq<Seq<char>>, test: LineTest) -> nat
    decreases lines.len(),
{
    if lines.len() == 0 {
        0
    } else {
        count_lines(lines.drop_last(), test) + (if passes(lines.last(), test) {
            1nat
        } else {
            0nat
        })
    }
}

// ---------------------------------------------------------------------------
// Nesting
// ---------------------------------------------------------------------------

/// One character of the brace scan: `(current depth, deepest depth so far)`.
/// A `}` at depth 0 is ignored.
pub open spec fn brace_step(st: (nat, nat), c: char) -> (nat, nat) {
    if c == '{' {
        (st.0 + 1, if st.0 + 1 > st.1 {
            st.0 + 1
        } else {
            st.1
        })
    } else if c == '}' && st.0 > 0 {
        ((st.0 - 1) as nat, st.1)
    } else {
        st
    }
}

pub open spec fn brace_scan(st: (nat, nat), s: Seq<char>) -> (nat, nat)
    decreases s.len(),
{
    if s.len() == 0 {
        st
    } else {
        brace_step(brace_scan(st, s.drop_last()), s.last())
    }
}

pub open spec fn brace_scan_lines(lines: Seq<Seq<char>>) -> (nat, nat)
    decreases lines.len(),
{
    if lines.len() == 0 {
        (0, 0)
    } else {
        brace_scan(brace_scan_lines(lines.drop_last()), lines.last())
    }
}

/// The deepest brace nesting over the whole file.
pub open spec fn brace_depth(lines: Seq<Seq<char>>) -> nat {
    brace_scan_lines(lines).1
}

/// UTF-8 size of a line's leading whitespace.
pub open spec fn indent_width(l: Seq<char>) -> nat {
    utf8_len(l.take(lead_end(l, 0)))
}

/// The deepest indentation, in steps of four bytes.
pub open spec fn indent_depth(lines: Seq<Seq<char>>) -> nat
    decreases lines.len(),
{
    if lines.len() == 0 {
        0
    } else {
        let m = indent_depth(lines.drop_last());
        let d = indent_width(lines.last()) / 4;
        if d > m {
            d
        } else {
            m
        }
    }
}

/// The nesting depth reported for a file.
pub open spec fn nesting_depth(lang: Language, lines: Seq<Seq<char>>) -> nat {
    match lang {
        Language::Python => indent_depth(lines),
        _ => brace_depth(lines),
    }
}

// ---------------------------------------------------------------------------
// Functions
// ---------------------------------------------------------------------------

/// The number of parameters in a signature: the comma-separated items between
/// the first `(` and the first `)` after it, none if that text is blank.
pub open spec fn parameter_count(s: Seq<char>) -> nat {
    match find(s, "("@) {
        None => 0,
        Some(st) => match find(s.subrange(st, s.len() as int), ")"@) {
            None => 0,
            Some(q) => {
                let params = trim(s.subrange(st + 1, st + q));
                if params.len() == 0 {
                    0
                } else {
                    count_char(params, ',') + 1
                }
            },
        },
    }
}

/// Occurrences of `c` in lines `a..b`.
pub open spec fn char_total(lines: Seq<Seq<char>>, a: int, b: int, c: char) -> nat
    decreases b - a,
{
    if b <= a {
        0
    } else {
        char_total(lines, a, b - 1, c) + count_char(lines[b - 1], c)
    }
}

/// After line `k`, the braces opened since line `a` are all closed again.
pub open spec fn body_closed(lines: Seq<Seq<char>>, a: int, k: int) -> bool {
    let opens = char_total(lines, a, k + 1, '{');
    opens > 0 && opens <= char_total(lines, a, k + 1, '}')
}

/// Line number (1-based) where the brace-delimited body that starts on line
/// `a` ends, searching from line `k`; line `a + 1` if it never closes.
pub open spec fn brace_end(lines: Seq<Seq<char>>, a: int, k: int) -> int
    decreases lines.len() - k,
{
    if k < 0 || k >= lines.len() {
        a + 1
    } else if body_closed(lines, a, k) {
        k + 1
    } else {
        brace_end(lines, a, k + 1)
    }
}

/// Line number (1-based) where an indented body that starts on line `a` ends:
/// the last non-blank line, from `j` on, indented deeper than `base` blanks
/// before the first non-blank line that is not.
pub open spec fn indent_end(lines: Seq<Seq<char>>, base: nat, j: int, last: int) -> int
    decreases lines.len() - j,
{
    if j < 0 || j >= lines.len() {
        last
    } else if trim(lines[j]).len() == 0 {
        indent_end(lines, base, j + 1, last)
    } else if leading_blanks(lines[j]) <= base {
        last
    } else {
        indent_end(lines, base, j + 1, j + 1)
    }
}

pub open spec fn function_view(name: Seq<char>, a: int, end: int, params: nat) -> FunctionInfoView {
    FunctionInfoView {
        name,
        start_line: (a + 1) as nat,
        end_line: end as nat,
        parameter_count: params,
        line_count: (end - a) as nat,
    }
}

/// The Rust function whose signature is on line `a`.
pub open spec fn rust_function(lines: Seq<Seq<char>>, a: int) -> Option<FunctionInfoView> {
    let line = trim(lines[a]);
    match find(line, "fn "@) {
        None => None,
        Some(p) => {
            let after = line.subrange(p + 3, line.len() as int);
            match find(after, "("@) {
                None => None,
                Some(e) => Some(
                    function_view(
                        trim(after.take(e)),
                        a,
                        brace_end(lines, a, a),
                        parameter_count(line),
                    ),
                ),
            }
        },
    }
}

/// The Python function whose `def` is on line `a`.
pub open spec fn python_function(lines: Seq<Seq<char>>, a: int) -> Option<FunctionInfoView> {
    let line = trim(lines[a]);
    if !starts_with(line, "def "@) {
        None
    } else {
        let after = line.subrange(4, line.len() as int);
        match find(after, "("@) {
            None => None,
            Some(e) => Some(
                function_view(
                    trim(after.take(e)),
                    a,
                    indent_end(lines, leading_blanks(lines[a]), a + 1, a + 1),
                    parameter_count(line),
                ),
            ),
        }
    }
}

/// A trimmed C/C++ line that reads as a function definition.
pub open spec fn looks_like_cpp(t: Seq<char>) -> bool {
    &&& contains(t, "("@)
    &&& contains(t, ")"@)
    &&& contains(t, "{"@)
    &&& !starts_with(t, "if "@)
    &&& !starts_with(t, "for "@)
    &&& !starts_with(t, "while "@)
    &&& !starts_with(t, "switch "@)
    &&& !starts_with(t, "//"@)
}

/// The text of `t` before its first `(` (all of `t` if none).
pub open spec fn before_paren(t: Seq<char>) -> Seq<char> {
    match find(t, "("@) {
        Some(k) => t.take(k),
        None => t,
    }
}

/// The C/C++ function whose definition starts on line `a`.
pub open spec fn cpp_function(lines: Seq<Seq<char>>, a: int) -> Option<FunctionInfoView> {
    let line = trim(lines[a]);
    if !looks_like_cpp(line) {
        None
    } else {
        match last_word(trim(before_paren(line))) {
            None => None,
            Some(name) => Some(
                function_view(name, a, brace_end(lines, a, a), parameter_count(line)),
            ),
        }
    }
}

/// The function recorded for line `a`, if the line opens one.
pub open spec fn detected_function(lang: Language, lines: Seq<Seq<char>>, a: int) -> Option<
    FunctionInfoView,
> {
    let t = trim(lines[a]);
    match lang {
        Language::Rust => if contains(t, "fn "@) {
            rust_function(lines, a)
        } else {
            None
        },
        Language::Python => if starts_with(t, "def "@) {
            python_function(lines, a)
        } else {
            None
        },
        Language::Cpp => if looks_like_cpp(t) {
            cpp_function(lines, a)
        } else {
            None
        },
    }
}

/// The functions recorded for lines `0..n`, in line order.
pub open spec fn functions_upto(lang: Language, lines: Seq<Seq<char>>, n: int) -> Seq<
    FunctionInfoView,
>
    decreases n,
{
    if n <= 0 {
        Seq::empty()
    } else {
        functions_upto(lang, lines, n - 1) + match detected_function(lang, lines, n - 1) {
            Some(f) => seq![f],
            None => Seq::empty(),
        }
    }
}

// ---------------------------------------------------------------------------
// Findings
// ---------------------------------------------------------------------------

pub open spec fn issue_view(
    severity: Severity,
    rule_name: Seq<char>,
    message: Seq<char>,
    path: Seq<char>,
    line: int,
    snippet: Seq<char>,
) -> IssueView {
    IssueView {
        rule_name,
        severity,
        file_path: path,
        position: Position { line: line as usize, column: 1 },
        message,
        snippet,
    }
}

/// The finding if the condition holds, else nothing.
pub open spec fn emit_if(cond: bool, i: IssueView) -> Seq<IssueView> {
    if cond {
        seq![i]
    } else {
        Seq::empty()
    }
}

pub open spec fn long_function_rule(lang: Language) -> Seq<char> {
    match lang {
        Language::Rust => "rust.long_function"@,
        Language::Python => "python.long_function"@,
        Language::Cpp => "cpp.long_function"@,
    }
}

pub open spec fn many_parameters_rule(lang: Language) -> Seq<char> {
    match lang {
        Language::Rust => "rust.too_many_parameters"@,
        Language::Python => "python.too_many_parameters"@,
        Language::Cpp => "cpp.too_many_parameters"@,
    }
}

/// Findings on a detected function: too long, then too many parameters.
pub open spec fn function_issues(
    lang: Language,
    path: Seq<char>,
    th: RuleThresholds,
    f: FunctionInfoView,
    line: Seq<char>,
) -> Seq<IssueView> {
    emit_if(
        f.line_count > th.max_function_length,
        issue_view(
            Severity::Warning,
            long_function_rule(lang),
            "function is longer than configured threshold"@,
            path,
            f.start_line as int,
            line,
        ),
    ) + emit_if(
        f.parameter_count > th.max_parameters,
        issue_view(
            Severity::Warning,
            many_parameters_rule(lang),
            "function has too many parameters"@,
            path,
            f.start_line as int,
            line,
        ),
    )
}

/// Findings of the Rust marker rules on the line at index `i`.
pub open spec fn rust_marker_issues(path: Seq<char>, line: Seq<char>, i: int) -> Seq<IssueView> {
    let t = trim(line);
    let n = i + 1;
    emit_if(
        contains(t, ".unwrap()"@) || contains(t, ".expect("@),
        issue_view(
            Severity::Warning,
            "rust.unwrap"@,
            "use of unwrap/expect may cause panic"@,
            path,
            n,
            line,
        ),
    ) + emit_if(
        contains(t, "todo!"@) || contains(t, "unimplemented!"@),
        issue_view(
            Severity::Warning,
            "rust.todo"@,
            "unfinished code marker found"@,
            path,
            n,
            line,
        ),
    ) + emit_if(
        contains(t, "unsafe"@),
        issue_view(Severity::Info, "rust.unsafe"@, "unsafe code detected"@, path, n, line),
    ) + emit_if(
        contains(t, "dbg!("@),
        issue_view(Severity::Info, "rust.dbg"@, "debug macro dbg!() found"@, path, n, line),
    )
}

/// Findings of the Python marker rules on the line at index `i`.
pub open spec fn python_marker_issues(path: Seq<char>, line: Seq<char>, i: int) -> Seq<IssueView> {
    let t = trim(line);
    let n = i + 1;
    emit_if(
        calls(t, "eval("@),
        issue_view(Severity::Warning, "python.eval"@, "use of eval() is risky"@, path, n, line),
    ) + emit_if(
        calls(t, "exec("@),
        issue_view(Severity::Warning, "python.exec"@, "use of exec() is risky"@, path, n, line),
    ) + emit_if(
        t == "except:"@ || starts_with(t, "except:"@),
        issue_view(
            Severity::Warning,
            "python.bare_except"@,
            "bare except clause found"@,
            path,
            n,
            line,
        ),
    ) + emit_if(
        calls(t, "print("@),
        issue_view(
            Severity::Info,
            "python.print"@,
            "possible debug print found"@,
            path,
            n,
            line,
        ),
    ) + emit_if(
        t == "pass"@,
        issue_view(
            Severity::Info,
            "python.pass"@,
            "pass statement found, check if logic is incomplete"@,
            path,
            n,
            line,
        ),
    )
}

/// Findings of the C/C++ marker rules on the line at index `i`.
pub open spec fn cpp_marker_issues(path: Seq<char>, line: Seq<char>, i: int) -> Seq<IssueView> {
    let t = trim(line);
    let n = i + 1;
    emit_if(
        calls(t, "gets("@),
        issue_view(Severity::Error, "cpp.gets"@, "unsafe gets() usage found"@, path, n, line),
    ) + emit_if(
        calls(t, "strcpy("@) || calls(t, "strcat("@),
        issue_view(
            Severity::Warning,
            "cpp.unsafe_string"@,
            "unsafe C string function found"@,
            path,
            n,
            line,
        ),
    ) + emit_if(
        calls(t, "printf("@) || contains(t, "cout <<"@),
        issue_view(
            Severity::Info,
            "cpp.output"@,
            "possible debug output found"@,
            path,
            n,
            line,
        ),
    ) + emit_if(
        calls(t, "malloc("@) || calls(t, "free("@) || contains(t, "new "@) || contains(
            t,
            "delete "@,
        ),
        issue_view(
            Severity::Info,
            "cpp.memory"@,
            "manual memory management detected"@,
            path,
            n,
            line,
        ),
    ) + emit_if(
        calls(t, "system("@),
        issue_view(Severity::Warning, "cpp.system"@, "system() call found"@, path, n, line),
    )
}

/// Findings of the language's own rules on the line at index `i`.
pub open spec fn marker_issues(lang: Language, path: Seq<char>, line: Seq<char>, i: int) -> Seq<
    IssueView,
> {
    match lang {
        Language::Rust => rust_marker_issues(path, line, i),
        Language::Python => python_marker_issues(path, line, i),
        Language::Cpp => cpp_marker_issues(path, line, i),
    }
}

/// All findings the line at index `i` gives: those on the function it opens,
/// then the language's marker rules.
pub open spec fn line_issues(
    lang: Language,
    path: Seq<char>,
    lines: Seq<Seq<char>>,
    th: RuleThresholds,
    i: int,
) -> Seq<IssueView> {
    let fpart = match detected_function(lang, lines, i) {
        Some(f) => function_issues(lang, path, th, f, lines[i]),
        None => Seq::empty(),
    };
    fpart + marker_issues(lang, path, lines[i], i)
}

/// The per-line findings of lines `0..n`, in line order.
pub open spec fn line_issues_upto(
    lang: Language,
    path: Seq<char>,
    lines: Seq<Seq<char>>,
    th: RuleThresholds,
    n: int,
) -> Seq<IssueView>
    decreases n,
{
    if n <= 0 {
        Seq::empty()
    } else {
        line_issues_upto(lang, path, lines, th, n - 1) + line_issues(lang, path, lines, th, n - 1)
    }
}

/// `style.long_line` findings for lines `0..n`.
pub open spec fn long_line_issues(
    path: Seq<char>,
    lines: Seq<Seq<char>>,
    th: RuleThresholds,
    n: int,
) -> Seq<IssueView>
    decreases n,
{
    if n <= 0 {
        Seq::empty()
    } else {
        long_line_issues(path, lines, th, n - 1) + emit_if(
            lines[n - 1].len() > th.max_line_length,
            issue_view(
                Severity::Info,
                "style.long_line"@,
                "line longer than configured threshold"@,
                path,
                n,
                lines[n - 1],
            ),
        )
    }
}

/// Findings of the rules that every language shares, given the file's depth.
pub open spec fn shared_issues(
    path: Seq<char>,
    lines: Seq<Seq<char>>,
    th: RuleThresholds,
    depth: nat,
) -> Seq<IssueView> {
    long_line_issues(path, lines, th, lines.len() as int) + emit_if(
        lines.len() > th.max_file_lines,
        issue_view(
            Severity::Warning,
            "size.large_file"@,
            "file is larger than configured threshold"@,
            path,
            1,
            if lines.len() > 0 {
                lines[0]
            } else {
                Seq::empty()
            },
        ),
    ) + emit_if(
        depth > th.max_nesting_depth,
        issue_view(
            Severity::Warning,
            "style.deep_nesting"@,
            "nesting depth is larger than configured threshold"@,
            path,
            1,
            Seq::empty(),
        ),
    )
}

// ---------------------------------------------------------------------------
// Whole file
// ---------------------------------------------------------------------------

/// The statistics of a file.
pub open spec fn file_metrics(lang: Language, lines: Seq<Seq<char>>) -> FileMetricsView {
    let fns = functions_upto(lang, lines, lines.len() as int);
    let rust = lang == Language::Rust;
    FileMetricsView {
        total_lines: lines.len(),
        code_lines: count_lines(lines, LineTest::Code),
        comment_lines: count_lines(lines, LineTest::Comment),
        blank_lines: count_lines(lines, LineTest::Blank),
        function_count: fns.len(),
        module_count: if rust {
            count_lines(lines, LineTest::RustModule)
        } else {
            0
        },
        impl_count: if rust {
            count_lines(lines, LineTest::RustImpl)
        } else {
            0
        },
        struct_count: match lang {
            Language::Rust => count_lines(lines, LineTest::RustStruct),
            Language::Python => count_lines(lines, LineTest::PythonClass),
            Language::Cpp => count_lines(lines, LineTest::CppStruct) + count_lines(
                lines,
                LineTest::CppClass,
            ),
        },
        enum_count: match lang {
            Language::Rust => count_lines(lines, LineTest::RustEnum),
            Language::Python => 0,
            Language::Cpp => count_lines(lines, LineTest::CppEnum),
        },
        trait_count: if rust {
            count_lines(lines, LineTest::RustTrait)
        } else {
            0
        },
        match_count: match lang {
            Language::Rust => count_lines(lines, LineTest::RustMatch),
            Language::Python => count_lines(lines, LineTest::PythonMatch),
            Language::Cpp => count_lines(lines, LineTest::CppSwitch),
        },
        loop_count: match lang {
            Language::Rust => count_lines(lines, LineTest::RustLoop),
            Language::Python => count_lines(lines, LineTest::PythonLoop),
            Language::Cpp => count_lines(lines, LineTest::CppLoop),
        },
        unsafe_count: if rust {
            count_lines(lines, LineTest::RustUnsafe)
        } else {
            0
        },
        max_nesting_depth: nesting_depth(lang, lines),
        total_line_length: total_len(lines),
        longest_line_length: longest(lines),
        functions: fns,
    }
}

/// All findings of a file, in report order.
pub open spec fn file_issues(
    lang: Language,
    path: Seq<char>,
    lines: Seq<Seq<char>>,
    th: RuleThresholds,
) -> Seq<IssueView> {
    line_issues_upto(lang, path, lines, th, lines.len() as int) + shared_issues(
        path,
        lines,
        th,
        nesting_depth(lang, lines),
    )
}

/// The report of a file.
pub open spec fn file_report(
    lang: Language,
    path: Seq<char>,
    lines: Seq<Seq<char>>,
    th: RuleThresholds,
) -> FileReportView {
    FileReportView {
        path,
        metrics: file_metrics(lang, lines),
        issues: file_issues(lang, path, lines, th),
    }
}

} // verus!
