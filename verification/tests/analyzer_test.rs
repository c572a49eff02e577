use rust_homework::analyzer::{
    analyze_cpp_file, analyze_python_file, analyze_rust_file, build_cpp_function_info,
    build_python_function_info, build_rust_function_info, count_parameters, detect_language,
    is_comment_line, is_supported_file, looks_like_cpp_function, project_fits,
    should_skip_dir,
};
use rust_homework::{
    analyze_project, AnalysisConfig, AppError, Language, OutputFormat, RuleThresholds, Severity,
    SourceFile, Summary,
};

fn chars(s: &str) -> Vec<char> {
    s.chars().collect()
}

fn char_lines(text: &str) -> Vec<Vec<char>> {
    text.lines().map(chars).collect()
}

fn source(path: &str, text: &str) -> SourceFile {
    let extension = path.rsplit_once('.').map(|(_, e)| e.to_string());
    SourceFile {
        path: path.to_string(),
        extension,
        content: text.to_string(),
    }
}

fn config_with(thresholds: RuleThresholds) -> AnalysisConfig {
    AnalysisConfig {
        root_path: "project".to_string(),
        format: OutputFormat::Text,
        output_path: None,
        thresholds,
    }
}

fn rules_of(report: &rust_homework::FileReport) -> Vec<String> {
    report.issues.iter().map(|i| i.rule_name.clone()).collect()
}

#[test]
fn analyze_simple_project() {
    let files = vec![source(
        "main.rs",
        r#"
fn main() {
    let value = Some(1).unwrap();
    println!("{}", value);
}
"#,
    )];
    let config = config_with(RuleThresholds::default());
    assert!(project_fits(&config, &files));
    let report = analyze_project(&config, &files).unwrap();
    assert_eq!(report.summary.file_count, 1);
    assert!(report.summary.total_issues >= 1);
}

#[test]
fn detect_todo_and_expect() {
    let files = vec![source(
        "lib.rs",
        r#"
pub fn demo() {
    let _x = Some(1).expect("bad");
    todo!("finish");
}
"#,
    )];
    let report = analyze_project(&config_with(RuleThresholds::default()), &files).unwrap();
    let issues = &report.files[0].issues;

    assert!(issues.iter().any(|i| i.rule_name == "rust.unwrap"));
    assert!(issues.iter().any(|i| i.rule_name == "rust.todo"));
}

#[test]
fn detect_long_function() {
    let files = vec![source(
        "lib.rs",
        r#"
pub fn long_function() {
    println!("1");
    println!("2");
    println!("3");
    println!("4");
    println!("5");
    println!("6");
    println!("7");
    println!("8");
    println!("9");
}
"#,
    )];
    let config = config_with(RuleThresholds { max_function_length: 5, ..RuleThresholds::default() });
    let report = analyze_project(&config, &files).unwrap();
    assert!(report.files[0].issues.iter().any(|i| i.rule_name == "rust.long_function"));
}

#[test]
fn detect_too_many_parameters() {
    let files = vec![source(
        "lib.rs",
        r#"
pub fn many_params(a: i32, b: i32, c: i32, d: i32, e: i32, f: i32, g: i32) -> i32 {
    a + b + c + d + e + f + g
}
"#,
    )];
    let config = config_with(RuleThresholds { max_parameters: 4, ..RuleThresholds::default() });
    let report = analyze_project(&config, &files).unwrap();
    assert!(report.files[0].issues.iter().any(|i| i.rule_name == "rust.too_many_parameters"));
}

#[test]
fn detect_deep_nesting() {
    let files = vec![source(
        "main.rs",
        r#"
fn main() {
    if true {
        while true {
            for _ in 0..1 {
                if true {
                    loop {
                        break;
                    }
                }
            }
        }
    }
}
"#,
    )];
    let config = config_with(RuleThresholds { max_nesting_depth: 3, ..RuleThresholds::default() });
    let report = analyze_project(&config, &files).unwrap();
    assert!(report.files[0].issues.iter().any(|i| i.rule_name == "style.deep_nesting"));
}

#[test]
fn ignore_non_rust_files() {
    let files = vec![
        source("a.txt", "hello"),
        source("b.md", "# title"),
        source("main.rs", "fn main() {}\n"),
    ];
    let report = analyze_project(&config_with(RuleThresholds::default()), &files).unwrap();
    assert_eq!(report.summary.file_count, 1);
}

#[test]
fn count_basic_metrics() {
    let files = vec![source(
        "lib.rs",
        r#"
// comment
pub struct User {
    pub id: i32,
}

pub enum State {
    Ready,
}

pub trait Worker {
    fn work(&self);
}

impl User {
    pub fn work(&self) {}
}
"#,
    )];
    let report = analyze_project(&config_with(RuleThresholds::default()), &files).unwrap();
    let metrics = &report.files[0].metrics;

    assert_eq!(metrics.struct_count, 1);
    assert_eq!(metrics.enum_count, 1);
    assert_eq!(metrics.trait_count, 1);
    assert_eq!(metrics.impl_count, 1);
    assert!(metrics.function_count >= 1);
}

#[test]
fn detect_dbg_and_unwrap() {
    let files = vec![source(
        "main.rs",
        r#"
fn main() {
    dbg!(123);
    let x = Some(1).unwrap();
    println!("{}", x);
}
"#,
    )];
    let report = analyze_project(&config_with(RuleThresholds::default()), &files).unwrap();
    let issues = &report.files[0].issues;

    assert!(issues.iter().any(|i| i.rule_name == "rust.dbg"));
    assert!(issues.iter().any(|i| i.rule_name == "rust.unwrap"));
}

// ---------------------------------------------------------------------------

#[test]
fn empty_project_is_invalid_input() {
    let files: Vec<SourceFile> = Vec::new();
    match analyze_project(&config_with(RuleThresholds::default()), &files) {
        Err(AppError::InvalidInput(m)) => {
            assert_eq!(m, "no supported source files found in target directory")
        }
        other => panic!("unexpected: {:?}", other),
    }
}

#[test]
fn project_report_carries_root_and_timestamp() {
    let files = vec![source("main.rs", "fn main() {}\n")];
    let report = analyze_project(&config_with(RuleThresholds::default()), &files).unwrap();
    assert_eq!(report.root_path, "project");
    assert!(!report.generated_at.is_empty());
    assert!(report.generated_at.chars().all(|c| c.is_ascii_digit()));
    assert!(report.generated_at != "0");
}

#[test]
fn file_selection_rules() {
    assert!(should_skip_dir(Some("target")));
    assert!(should_skip_dir(Some(".git")));
    assert!(should_skip_dir(Some("node_modules")));
    assert!(!should_skip_dir(Some("src")));
    assert!(!should_skip_dir(None));
    assert!(is_supported_file(Some("rs")));
    assert!(is_supported_file(Some("cc")));
    assert!(!is_supported_file(Some("md")));
    assert!(!is_supported_file(None));
    assert_eq!(detect_language(Some("py")), Some(Language::Python));
    assert_eq!(detect_language(Some("cpp")), Some(Language::Cpp));
    assert_eq!(detect_language(Some("rs")), Some(Language::Rust));
    assert_eq!(detect_language(Some("RS")), None);
}

#[test]
fn comment_lines_recognised() {
    assert!(is_comment_line(&chars("// note")));
    assert!(is_comment_line(&chars("/* block")));
    assert!(is_comment_line(&chars("* more")));
    assert!(is_comment_line(&chars("# python")));
    assert!(!is_comment_line(&chars("let x = 1; // trailing")));
}

#[test]
fn parameters_counted() {
    assert_eq!(count_parameters(&chars("fn f(a: i32, b: i32, c: i32)")), 3);
    assert_eq!(count_parameters(&chars("fn f(   )")), 0);
    assert_eq!(count_parameters(&chars("fn f(x)")), 1);
    assert_eq!(count_parameters(&chars("no parens")), 0);
    assert_eq!(count_parameters(&chars("fn f(a, b")), 0);
    assert_eq!(count_parameters(&chars("def g(a, b=(1, 2)):")), 3);
}

#[test]
fn rust_function_extent() {
    let lines = char_lines("fn add(a: i32, b: i32) -> i32 {\n    a + b\n}\nfn other() {}");
    let f = build_rust_function_info(&lines, 0).unwrap();
    assert_eq!(f.name, "add");
    assert_eq!((f.start_line, f.end_line, f.parameter_count, f.line_count), (1, 3, 2, 3));
    let g = build_rust_function_info(&lines, 3).unwrap();
    assert_eq!(g.name, "other");
    assert_eq!((g.start_line, g.end_line, g.line_count), (4, 4, 1));
    assert!(build_rust_function_info(&lines, 1).is_none());
    assert!(build_rust_function_info(&lines, 9).is_none());
}

#[test]
fn rust_function_without_body_ends_on_its_line() {
    let lines = char_lines("    fn declared(&self);\n}\n");
    let f = build_rust_function_info(&lines, 0).unwrap();
    assert_eq!(f.name, "declared");
    assert_eq!((f.end_line, f.line_count), (1, 1));
}

#[test]
fn python_function_extent() {
    let lines = char_lines("def f(a, b):\n    x = a\n\n    return x\nprint(1)\n");
    let f = build_python_function_info(&lines, 0).unwrap();
    assert_eq!(f.name, "f");
    assert_eq!((f.start_line, f.end_line, f.parameter_count, f.line_count), (1, 4, 2, 4));
    assert!(build_python_function_info(&lines, 4).is_none());
}

#[test]
fn cpp_function_extent() {
    let lines = char_lines("static int add(int a, int b) {\n  return a + b;\n}\n");
    assert!(looks_like_cpp_function(&chars("static int add(int a, int b) {")));
    assert!(!looks_like_cpp_function(&chars("if (x) {")));
    let f = build_cpp_function_info(&lines, 0).unwrap();
    assert_eq!(f.name, "add");
    assert_eq!((f.start_line, f.end_line, f.parameter_count, f.line_count), (1, 3, 2, 3));
    let none = char_lines("(int a) {");
    assert!(build_cpp_function_info(&none, 0).is_none());
}

#[test]
fn rust_file_metrics_and_findings() {
    let lines = char_lines(
        "// top\nmod a;\n\nunsafe fn raw() {\n    match x { _ => {} }\n    for i in v { dbg!(i); }\n}\n",
    );
    let r = analyze_rust_file("x.rs", &lines, &config_with(RuleThresholds::default()));
    let m = &r.metrics;
    assert_eq!((m.total_lines, m.code_lines, m.comment_lines, m.blank_lines), (7, 5, 1, 1));
    assert_eq!(m.code_lines + m.comment_lines + m.blank_lines, m.total_lines);
    assert_eq!((m.module_count, m.match_count, m.loop_count, m.unsafe_count), (1, 1, 1, 1));
    assert_eq!(m.function_count, 1);
    assert_eq!(m.max_nesting_depth, 3);
    assert_eq!(m.longest_line_length, 27);
    assert_eq!(m.total_line_length, 6 + 6 + 0 + 17 + 23 + 27 + 1);
    assert_eq!(rules_of(&r), vec!["rust.unsafe", "rust.dbg"]);
    assert_eq!(r.issues[0].position.line, 4);
    assert_eq!(r.issues[1].position.line, 6);
    assert_eq!(r.issues[1].severity, Severity::Info);
    assert_eq!(r.issues[1].snippet, "    for i in v { dbg!(i); }");
    assert!(r.issues.iter().all(|i| i.position.column == 1 && i.file_path == "x.rs"));
}

#[test]
fn python_file_findings() {
    let lines = char_lines(
        "def run(a, b, c):\n    try:\n        eval(a)\n    except:\n        pass\n    print(b)\n",
    );
    let th = RuleThresholds { max_parameters: 2, ..RuleThresholds::default() };
    let r = analyze_python_file("s.py", &lines, &config_with(th));
    assert_eq!(
        rules_of(&r),
        vec![
            "python.too_many_parameters",
            "python.eval",
            "python.bare_except",
            "python.pass",
            "python.print"
        ]
    );
    assert_eq!(r.metrics.max_nesting_depth, 2);
    assert_eq!(r.metrics.function_count, 1);
    assert_eq!(r.metrics.functions[0].line_count, 6);
}

#[test]
fn cpp_file_findings() {
    let lines = char_lines(
        "struct P { int x; };\nclass Q {};\nint main(void) {\n  char b[8];\n  gets(b);\n  strcpy(b, \"x\");\n  printf(\"%s\", b);\n  int *p = malloc(4);\n  system(\"ls\");\n  switch (x) {}\n}\n",
    );
    let r = analyze_cpp_file("m.c", &lines, &config_with(RuleThresholds::default()));
    assert_eq!(
        rules_of(&r),
        vec!["cpp.gets", "cpp.unsafe_string", "cpp.output", "cpp.memory", "cpp.system"]
    );
    assert_eq!(r.issues[0].severity, Severity::Error);
    assert_eq!(r.metrics.struct_count, 2);
    assert_eq!(r.metrics.match_count, 1);
    assert_eq!(r.metrics.functions[0].name, "main");
}

#[test]
fn shared_rules_apply() {
    let long = "x".repeat(30);
    let text = format!("{}\nshort\nthird\n", long);
    let lines = char_lines(&text);
    let th = RuleThresholds { max_line_length: 10, max_file_lines: 2, ..RuleThresholds::default() };
    let r = analyze_rust_file("big.rs", &lines, &config_with(th));
    assert_eq!(rules_of(&r), vec!["style.long_line", "size.large_file"]);
    assert_eq!(r.issues[1].position.line, 1);
    assert_eq!(r.issues[1].snippet, long);
}

#[test]
fn summary_totals_over_files() {
    let files = vec![
        source("a.rs", "fn a() { x.unwrap() }\n\n"),
        source("b.py", "# c\nprint(1)\n"),
        source("c.c", "int f() { gets(s); }\n"),
    ];
    let report = analyze_project(&config_with(RuleThresholds::default()), &files).unwrap();
    let s = &report.summary;
    assert_eq!(s.file_count, 3);
    assert_eq!(s.total_lines, 5);
    assert_eq!(s.total_blank_lines, 1);
    assert_eq!(s.total_comment_lines, 1);
    assert_eq!(s.total_functions, 2);
    assert_eq!(s.total_issues, 3);
    assert_eq!(s.severity_count.warning, 1);
    assert_eq!(s.severity_count.info, 1);
    assert_eq!(s.severity_count.error, 1);
    assert_eq!(
        s.severity_count.info + s.severity_count.warning + s.severity_count.error,
        s.total_issues
    );
}

#[test]
fn counts_stay_within_line_count() {
    let lines = char_lines("struct A;\nclass B {};\nenum C { X };\nfor (;;) {}\n");
    let r = analyze_cpp_file("k.cc", &lines, &config_with(RuleThresholds::default()));
    let m = &r.metrics;
    assert_eq!(m.total_lines, 4);
    assert_eq!((m.struct_count, m.enum_count, m.loop_count), (2, 1, 1));
    assert!(m.struct_count <= m.total_lines && m.function_count <= m.total_lines);
}

#[test]
fn only_unsupported_files_is_invalid_input() {
    let files = vec![source("a.txt", "hello"), source("b.md", "# title")];
    match analyze_project(&config_with(RuleThresholds::default()), &files) {
        Err(AppError::InvalidInput(m)) => {
            assert_eq!(m, "no supported source files found in target directory")
        }
        other => panic!("unexpected: {:?}", other),
    }
}

#[test]
fn summary_of_concatenated_reports_adds_up() {
    let config = config_with(RuleThresholds::default());
    let a = rust_homework::analyzer::analyze_files(
        &config,
        &[source("a.rs", "fn a() { x.unwrap() }\n"), source("b.py", "print(1)\n")],
    );
    let b = rust_homework::analyzer::analyze_files(&config, &[source("c.c", "int f() { gets(s); }\n")]);
    let both: Vec<_> = a.iter().chain(b.iter()).cloned().collect();
    let (sa, sb, s) = (Summary::from_files(&a), Summary::from_files(&b), Summary::from_files(&both));
    assert_eq!(s.file_count, sa.file_count + sb.file_count);
    assert_eq!(s.total_issues, sa.total_issues + sb.total_issues);
    assert_eq!(s.total_lines, sa.total_lines + sb.total_lines);
    assert_eq!(s.total_functions, sa.total_functions + sb.total_functions);
    assert_eq!(s.severity_count.error, sa.severity_count.error + sb.severity_count.error);
    assert_eq!(Summary::from_files(&[]), Summary::default());
}

#[test]
fn gets_rule_ignores_fgets() {
    let lines = char_lines("int main() {\n    gets(a);\n    fgets(b, 9, stdin);\n}\n");
    let r = analyze_cpp_file("g.c", &lines, &config_with(RuleThresholds::default()));
    let found: Vec<(String, Severity, usize)> = r
        .issues
        .iter()
        .map(|i| (i.rule_name.clone(), i.severity, i.position.line))
        .collect();
    assert_eq!(found, vec![("cpp.gets".to_string(), Severity::Error, 2)]);
    assert_eq!(r.metrics.functions.len(), 1);
    assert_eq!(r.metrics.functions[0].name, "main");
    assert_eq!(r.metrics.functions[0].start_line, 1);
    assert_eq!(r.metrics.functions[0].end_line, 4);
    assert_eq!(r.metrics.functions[0].parameter_count, 0);
    assert_eq!(r.metrics.functions[0].line_count, 4);
}

#[test]
fn call_rules_need_the_whole_name() {
    let lines = char_lines(
        "int f() {\n    xfree(p);\n    filesystem(q);\n    snprintf(b, 4, \"x\");\n    free(p);\n    std::printf(\"y\");\n}\n",
    );
    let r = analyze_cpp_file("w.cpp", &lines, &config_with(RuleThresholds::default()));
    let found: Vec<(String, usize)> =
        r.issues.iter().map(|i| (i.rule_name.clone(), i.position.line)).collect();
    assert_eq!(found, vec![("cpp.memory".to_string(), 5), ("cpp.output".to_string(), 6)]);

    let py = char_lines("pprint(x)\nast.literal_eval(s)\nrun_exec(c)\nprint(y)\neval(z)\n");
    let r = analyze_python_file("w.py", &py, &config_with(RuleThresholds::default()));
    let found: Vec<(String, usize)> =
        r.issues.iter().map(|i| (i.rule_name.clone(), i.position.line)).collect();
    assert_eq!(found, vec![("python.print".to_string(), 4), ("python.eval".to_string(), 5)]);
}
