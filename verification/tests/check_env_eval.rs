//! Environment-check evaluation and formatting.

use ten_manager::check_env::env::{
    cpp_overall_status, evaluate_os, go_version_supported, index_of_char, nodejs_overall_status,
    nodejs_status_for_major, parse_major_minor, parse_u32, python_version_supported,
    summary_lines, verdict_lines,
};
use ten_manager::check_env::formatter::{CheckResultFormatter, CliFormatter};
use ten_manager::check_env::types::{
    CheckStatus, CppCheckResult, EnvCheckResult, GoCheckResult, NodeJsCheckResult, OsCheckResult,
    PythonCheckResult, Suggestion, ToolInfo,
};

#[test]
fn parse_u32_accepts_digit_strings_only() {
    assert_eq!(parse_u32("0"), Some(0));
    assert_eq!(parse_u32("21"), Some(21));
    assert_eq!(parse_u32("4294967295"), Some(4294967295));
    assert_eq!(parse_u32("4294967296"), None);
    assert_eq!(parse_u32(""), None);
    assert_eq!(parse_u32("1a"), None);
    assert_eq!(parse_u32("-1"), None);
}

#[test]
fn parse_major_minor_splits_on_dots() {
    assert_eq!(parse_major_minor("1.21.5"), Some((1, 21)));
    assert_eq!(parse_major_minor("3.10"), Some((3, 10)));
    assert_eq!(parse_major_minor("22"), None);
    assert_eq!(parse_major_minor("a.b"), None);
    assert_eq!(parse_major_minor("1."), None);
    assert_eq!(index_of_char("go1.21", '.'), 3);
    assert_eq!(index_of_char("go121", '.'), 5);
}

#[test]
fn version_policies() {
    assert!(go_version_supported(1, 20));
    assert!(go_version_supported(1, 21));
    assert!(go_version_supported(2, 0));
    assert!(!go_version_supported(1, 19));
    assert!(python_version_supported(3, 10));
    assert!(!python_version_supported(3, 11));
    assert!(!python_version_supported(2, 10));
    assert_eq!(nodejs_status_for_major(15), CheckStatus::Warning);
    assert_eq!(nodejs_status_for_major(17), CheckStatus::Warning);
    assert_eq!(nodejs_status_for_major(18), CheckStatus::Okay);
    assert_eq!(nodejs_status_for_major(22), CheckStatus::Okay);
}

#[test]
fn overall_statuses() {
    assert_eq!(cpp_overall_status(true, true), CheckStatus::Okay);
    assert_eq!(cpp_overall_status(false, false), CheckStatus::Error);
    assert_eq!(cpp_overall_status(true, false), CheckStatus::Warning);
    assert_eq!(nodejs_overall_status(true, true, CheckStatus::Okay), CheckStatus::Okay);
    assert_eq!(nodejs_overall_status(true, true, CheckStatus::Warning), CheckStatus::Warning);
    assert_eq!(nodejs_overall_status(true, false, CheckStatus::Okay), CheckStatus::Warning);
    assert_eq!(nodejs_overall_status(false, false, CheckStatus::Okay), CheckStatus::Error);
}

#[test]
fn evaluate_os_supported_and_unsupported() {
    let linux = evaluate_os("linux", "x86_64");
    assert_eq!(linux.os_name, "Linux");
    assert_eq!(linux.arch, "x64");
    assert!(linux.is_supported);
    assert_eq!(linux.status, CheckStatus::Okay);
    assert!(linux.suggestions.is_empty());

    let mac = evaluate_os("macos", "aarch64");
    assert_eq!(mac.os_name, "macOS");
    assert_eq!(mac.arch, "arm64");
    assert!(mac.is_supported);

    let win = evaluate_os("windows", "x86_64");
    assert_eq!(win.os_name, "Windows");
    assert!(!win.is_supported);
    assert_eq!(win.status, CheckStatus::Warning);
    assert_eq!(win.suggestions.len(), 1);
    assert_eq!(win.suggestions[0].issue, "Windows support is under development");

    let odd = evaluate_os("freebsd", "riscv64");
    assert_eq!(odd.os_name, "freebsd");
    assert_eq!(odd.arch, "riscv64");
    assert!(!odd.is_supported);
    assert_eq!(odd.status, CheckStatus::Error);
    assert_eq!(odd.suggestions.len(), 1);
    assert_eq!(odd.suggestions[0].issue, "Platform freebsd riscv64 is not supported");
}

fn tool(name: &str, version: Option<&str>, status: CheckStatus) -> ToolInfo {
    ToolInfo {
        name: name.to_string(),
        version: version.map(|v| v.to_string()),
        path: None,
        status,
        notes: Vec::new(),
    }
}

#[test]
fn cli_formatter_tool_lines() {
    let fmt = CliFormatter;
    assert_eq!(fmt.format_status_icon(&CheckStatus::Okay), "\u{2705}");
    assert_eq!(fmt.format_status_icon(&CheckStatus::Error), "\u{274c}");

    let mut ok_tool = tool("go", Some("1.21.5"), CheckStatus::Okay);
    ok_tool.path = Some("/usr/bin/go".to_string());
    let lines = fmt.format_tool_info(&ok_tool);
    assert_eq!(lines, vec!["\u{2705} go 1.21.5 installed (/usr/bin/go)".to_string()]);

    let mut warn_tool = tool("python3", Some("3.11.2"), CheckStatus::Warning);
    warn_tool.notes.push("only 3.10 is supported".to_string());
    let lines = fmt.format_tool_info(&warn_tool);
    assert_eq!(
        lines,
        vec![
            "\u{26a0}\u{fe0f}  python3 3.11.2".to_string(),
            "   only 3.10 is supported".to_string(),
        ]
    );

    let mut err_tool = tool("node", None, CheckStatus::Error);
    err_tool.notes.push("Not found".to_string());
    let lines = fmt.format_tool_info(&err_tool);
    assert_eq!(lines, vec!["\u{274c} node Not found".to_string()]);

    let na_tool = tool("tgn", None, CheckStatus::NotApplicable);
    assert!(fmt.format_tool_info(&na_tool).is_empty());
}

#[test]
fn cli_formatter_suggestions_and_os_lines() {
    let fmt = CliFormatter;
    let suggestions = vec![Suggestion {
        issue: "Go not found".to_string(),
        command: Some("apt install golang".to_string()),
        help_text: Some("Install Go 1.20+".to_string()),
    }];
    let lines = fmt.format_suggestions(&suggestions);
    assert_eq!(
        lines,
        vec![
            "   \u{1f4a1} Go not found".to_string(),
            "      Install Go 1.20+".to_string(),
            "      apt install golang".to_string(),
        ]
    );

    let os = evaluate_os("freebsd", "riscv64");
    let lines = fmt.format_os_check(&os);
    assert_eq!(lines[0], "\u{274c} freebsd riscv64 (Not supported)");
    // Suggestions come next, then the supported-platform list.
    assert_eq!(lines[1], "   \u{1f4a1} Platform freebsd riscv64 is not supported");
    assert_eq!(lines.last().unwrap(), "     - macOS arm64 (Apple Silicon)");
    assert_eq!(lines.len(), 8);
}

fn sample_env(all_ok: bool) -> EnvCheckResult {
    let status = if all_ok { CheckStatus::Okay } else { CheckStatus::Error };
    EnvCheckResult {
        os: OsCheckResult {
            os_name: "Linux".to_string(),
            arch: "x64".to_string(),
            is_supported: true,
            status: CheckStatus::Okay,
            suggestions: Vec::new(),
        },
        cpp: CppCheckResult {
            tgn: Some(tool("tgn", None, status)),
            compilers: vec![tool("gcc", Some("11.4.0"), status)],
            tgn_installed: all_ok,
            has_compiler: all_ok,
            status,
            suggestions: Vec::new(),
        },
        python: PythonCheckResult {
            python: Some(tool("python3", Some("3.10.12"), status)),
            pip: None,
            is_correct_version: all_ok,
            status,
            suggestions: Vec::new(),
        },
        go: GoCheckResult {
            go: Some(tool("go", Some("1.21.5"), status)),
            goroot: Some("/usr/local/go".to_string()),
            gopath: None,
            is_version_ok: all_ok,
            status,
            suggestions: Vec::new(),
        },
        nodejs: NodeJsCheckResult {
            node: Some(tool("node", Some("v22.0.0"), status)),
            npm: Some(tool("npm", Some("10.0.0"), status)),
            has_nodejs: all_ok,
            has_npm: all_ok,
            status,
            suggestions: Vec::new(),
        },
    }
}

#[test]
fn cli_formatter_full_env_check() {
    let fmt = CliFormatter;
    let env = sample_env(true);
    let lines = fmt.format_env_check(&env);
    // Five sections separated by four empty lines; each section here is one
    // or two lines, and the Go section also reports GOROOT.
    assert!(lines.contains(&"".to_string()));
    assert!(lines.contains(&"   GOROOT: /usr/local/go".to_string()));
    assert!(lines.iter().any(|l| l.starts_with("\u{2705} go 1.21.5 installed")));
    assert_eq!(lines.iter().filter(|l| l.is_empty()).count(), 4);
}

#[test]
fn summary_and_verdict_lines() {
    let good = sample_env(true);
    assert_eq!(
        summary_lines(&good),
        vec![
            "   \u{2705} Operating System: Supported".to_string(),
            "   \u{2705} Python:   Ready".to_string(),
            "   \u{2705} Go:       Ready".to_string(),
            "   \u{2705} Node.js:  Ready".to_string(),
            "   \u{2705} C++:      Ready".to_string(),
        ]
    );
    assert_eq!(
        verdict_lines(&good),
        vec!["\u{2728} All development environments are ready!".to_string()]
    );

    let bad = sample_env(false);
    let summary = summary_lines(&bad);
    assert_eq!(summary[1], "   \u{274c} Python:   Not ready");
    let verdict = verdict_lines(&bad);
    assert_eq!(verdict[0], "\u{274c} Some development environments are not ready!");
    assert_eq!(verdict.len(), 4);

    // Core ready but C++ wanting.
    let mut partial = sample_env(true);
    partial.cpp.status = CheckStatus::Warning;
    let verdict = verdict_lines(&partial);
    assert_eq!(verdict[0], "\u{2728} Core development environments are ready!");
    assert_eq!(verdict.len(), 4);

    // Node.js present but npm missing.
    let mut npmless = sample_env(true);
    npmless.nodejs.status = CheckStatus::Warning;
    npmless.nodejs.has_npm = false;
    let summary = summary_lines(&npmless);
    assert_eq!(summary[3], "   \u{26a0}\u{fe0f}  Node.js:  Partially ready (npm missing)");
}
