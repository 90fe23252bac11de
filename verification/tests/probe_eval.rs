//! Evaluation of tool probes into check results.

use ten_manager::check_env::probe::{
    compiler_missing_suggestion, compiler_tool_entry, evaluate_go, evaluate_nodejs,
    evaluate_python, strip_prefix_str, tgn_missing_suggestion, tgn_tool_entry,
    CompilerProbeOutcome,
};
use ten_manager::check_env::types::CheckStatus;

#[test]
fn strip_prefix_behaves_like_a_prefix_test() {
    assert_eq!(strip_prefix_str("go1.21.5", "go"), Some("1.21.5"));
    assert_eq!(strip_prefix_str("go", "go"), Some(""));
    assert_eq!(strip_prefix_str("g", "go"), None);
    assert_eq!(strip_prefix_str("rust1.70", "go"), None);
    assert_eq!(strip_prefix_str("Python 3.10.12", "Python "), Some("3.10.12"));
}

#[test]
fn go_probe_supported_version() {
    let line = "go version go1.21.5 linux/amd64".to_string();
    let token = "go1.21.5".to_string();
    let r = evaluate_go(
        Some(&line),
        Some(&token),
        Some("/usr/bin/go".to_string()),
        Some("/usr/local/go".to_string()),
        Some("/home/user/go".to_string()),
    );
    assert!(r.is_version_ok);
    assert_eq!(r.status, CheckStatus::Okay);
    let go = r.go.unwrap();
    assert_eq!(go.version.as_deref(), Some("1.21.5"));
    assert_eq!(go.path.as_deref(), Some("/usr/bin/go"));
    assert_eq!(go.status, CheckStatus::Okay);
    assert_eq!(r.goroot.as_deref(), Some("/usr/local/go"));
    assert!(r.suggestions.is_empty());
}

#[test]
fn go_probe_old_and_unreadable_and_missing() {
    let line = "go version go1.19.1 linux/amd64".to_string();
    let token = "go1.19.1".to_string();
    let r = evaluate_go(Some(&line), Some(&token), None, None, None);
    assert!(!r.is_version_ok);
    assert_eq!(r.status, CheckStatus::Warning);
    assert_eq!(r.go.unwrap().version.as_deref(), Some("1.19.1"));
    assert_eq!(r.suggestions.len(), 1);
    assert_eq!(r.suggestions[0].issue, "Go 1.19.1 installed, but requires >= 1.20");

    let odd = "go version devel".to_string();
    let tok = "devel".to_string();
    let r = evaluate_go(Some(&odd), Some(&tok), None, None, None);
    assert_eq!(r.status, CheckStatus::Warning);
    let go = r.go.unwrap();
    assert_eq!(go.version.as_deref(), Some("go version devel"));
    assert_eq!(go.notes, vec!["Unable to parse version".to_string()]);

    let r = evaluate_go(None, None, None, None, None);
    assert_eq!(r.status, CheckStatus::Error);
    assert_eq!(r.go.unwrap().notes, vec!["Not found".to_string()]);
    assert_eq!(r.suggestions[0].issue, "Go not found");
}

#[test]
fn python_probe_cases() {
    let line = "Python 3.10.12".to_string();
    let r = evaluate_python(
        Some(&line),
        Some("/usr/bin/python3".to_string()),
        true,
        Some("23.1".to_string()),
    );
    assert!(r.is_correct_version);
    assert_eq!(r.status, CheckStatus::Okay);
    assert_eq!(r.python.unwrap().version.as_deref(), Some("3.10.12"));
    assert_eq!(r.pip.unwrap().version.as_deref(), Some("23.1"));

    let line = "Python 3.11.4".to_string();
    let r = evaluate_python(Some(&line), None, true, None);
    assert!(!r.is_correct_version);
    assert_eq!(r.status, CheckStatus::Warning);
    assert!(r.pip.is_none());
    assert_eq!(
        r.suggestions[0].issue,
        "Python 3.11.4 installed, but TEN Framework only supports Python 3.10"
    );
    assert_eq!(
        r.suggestions[0].command.as_deref(),
        Some("pyenv install 3.10.18 && pyenv local 3.10.18")
    );

    let odd = "PyPy 7.3".to_string();
    let r = evaluate_python(Some(&odd), None, false, None);
    assert_eq!(r.status, CheckStatus::Warning);
    assert_eq!(r.python.unwrap().notes, vec!["Unable to parse version".to_string()]);

    let r = evaluate_python(None, None, false, None);
    assert_eq!(r.status, CheckStatus::Error);
    assert_eq!(r.suggestions[0].issue, "Python not found");
}

#[test]
fn nodejs_probe_cases() {
    let node = "v22.0.0".to_string();
    let npm = "10.0.0".to_string();
    let r = evaluate_nodejs(
        Some(&node),
        Some("/usr/bin/node".to_string()),
        Some(&npm),
        Some("/usr/bin/npm".to_string()),
    );
    assert!(r.has_nodejs && r.has_npm);
    assert_eq!(r.status, CheckStatus::Okay);
    assert_eq!(r.node.as_ref().unwrap().version.as_deref(), Some("v22.0.0"));
    assert_eq!(r.npm.as_ref().unwrap().version.as_deref(), Some("10.0.0"));
    assert!(r.suggestions.is_empty());

    // An outdated runtime: warning, note, and an upgrade suggestion.
    let old = "v14.21.3".to_string();
    let r = evaluate_nodejs(Some(&old), None, Some(&npm), None);
    assert_eq!(r.status, CheckStatus::Warning);
    let node_tool = r.node.unwrap();
    assert_eq!(node_tool.status, CheckStatus::Warning);
    assert_eq!(
        node_tool.notes,
        vec!["Version is outdated, may affect some features".to_string()]
    );
    assert_eq!(r.suggestions[0].issue, "Node.js version v14.21.3 is outdated");

    // An aging runtime: warning and a note, but no suggestion.
    let aging = "v16.20.0".to_string();
    let r = evaluate_nodejs(Some(&aging), None, Some(&npm), None);
    assert_eq!(r.status, CheckStatus::Warning);
    assert!(r.suggestions.is_empty());

    // npm missing while the runtime is there.
    let r = evaluate_nodejs(Some(&node), None, None, None);
    assert_eq!(r.status, CheckStatus::Warning);
    assert_eq!(r.suggestions[0].issue, "npm not found");

    // Nothing there at all.
    let r = evaluate_nodejs(None, None, None, None);
    assert_eq!(r.status, CheckStatus::Error);
    assert_eq!(r.suggestions[0].issue, "Node.js not found");
}

#[test]
fn cpp_probe_entries_and_suggestions() {
    let t = tgn_tool_entry(true, Some("/usr/local/bin/tgn".to_string()));
    assert_eq!(t.status, CheckStatus::Okay);
    assert_eq!(t.path.as_deref(), Some("/usr/local/bin/tgn"));
    let t = tgn_tool_entry(false, None);
    assert_eq!(t.status, CheckStatus::Error);
    assert_eq!(t.notes, vec!["Not installed".to_string()]);

    let sugg = tgn_missing_suggestion();
    assert_eq!(sugg.issue, "tgn not installed");
    assert!(sugg.command.unwrap().starts_with("curl -fsSL"));

    let detected = compiler_tool_entry(
        "gcc",
        CompilerProbeOutcome::Detected {
            version: Some("11.4.0".to_string()),
            path: Some("/usr/bin/gcc".to_string()),
        },
    )
    .unwrap();
    assert_eq!(detected.status, CheckStatus::Okay);
    assert_eq!(detected.version.as_deref(), Some("11.4.0"));
    assert!(compiler_tool_entry("gcc", CompilerProbeOutcome::NoOutput).is_none());
    let missing = compiler_tool_entry("g++", CompilerProbeOutcome::Missing).unwrap();
    assert_eq!(missing.status, CheckStatus::Error);
    assert_eq!(missing.notes, vec!["Not found".to_string()]);

    assert_eq!(
        compiler_missing_suggestion("linux").unwrap().issue,
        "gcc/g++ not found"
    );
    assert_eq!(
        compiler_missing_suggestion("macos").unwrap().command.as_deref(),
        Some("xcode-select --install")
    );
    assert!(compiler_missing_suggestion("freebsd").is_none());
}
