use rust_homework::text::{chars_of, push_decimal, split_lines, string_from_chars, trim_chars};
use rust_homework::{AnalysisConfig, AppError, OutputFormat, RuleThresholds, Severity};

#[test]
fn default_thresholds() {
    let t = RuleThresholds::default();
    assert_eq!(t.max_line_length, 120);
    assert_eq!(t.max_function_length, 80);
    assert_eq!(t.max_parameters, 6);
    assert_eq!(t.max_nesting_depth, 5);
    assert_eq!(t.max_file_lines, 800);
}

#[test]
fn default_config() {
    let c = AnalysisConfig::default();
    assert_eq!(c.root_path, ".");
    assert_eq!(c.format, OutputFormat::Text);
    assert!(c.output_path.is_none());
    assert_eq!(c.thresholds, RuleThresholds::default());
}

#[test]
fn severity_names() {
    assert_eq!(Severity::Info.name(), "Info");
    assert_eq!(Severity::Warning.name(), "Warning");
    assert_eq!(Severity::Error.name(), "Error");
}

#[test]
fn error_messages() {
    assert_eq!(AppError::Io("denied".to_string()).describe(), "io error: denied");
    assert_eq!(AppError::Walkdir("loop".to_string()).describe(), "walkdir error: loop");
    assert_eq!(AppError::Json("bad".to_string()).describe(), "json error: bad");
    assert_eq!(AppError::InvalidInput("nothing".to_string()).describe(), "nothing");
}

#[test]
fn decimal_rendering() {
    for (n, s) in [(0u64, "0"), (7, "7"), (10, "10"), (1234567890, "1234567890"), (u64::MAX, "18446744073709551615")] {
        let mut out = String::from("n=");
        push_decimal(&mut out, n);
        assert_eq!(out, format!("n={}", s));
    }
}

#[test]
fn trimming_unicode_whitespace() {
    let t = trim_chars(&chars_of("\u{3000} \tword  more\u{a0}\n"));
    assert_eq!(string_from_chars(&t), "word  more");
    let e = trim_chars(&chars_of(" \t "));
    assert!(e.is_empty());
}

#[test]
fn splitting_lines_like_str_lines() {
    for text in ["", "a", "a\n", "a\r\nb\n", "a\n\nb", "x\ry\n", "end\r", "\n\n", "多\r\n字节"] {
        let got: Vec<String> = split_lines(text).iter().map(|l| l.iter().collect()).collect();
        let want: Vec<String> = text.lines().map(|l| l.to_string()).collect();
        assert_eq!(got, want, "text {:?}", text);
    }
}
