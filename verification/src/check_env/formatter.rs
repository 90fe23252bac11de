//! Formatting of environment-check results into output lines.
//!
//! The formatters compute the lines; writing them to a terminal or a wire
//! is the caller's concern.

use vstd::prelude::*;
use vstd::string::*;

use super::types::{
    CheckStatus, CppCheckResult, EnvCheckResult, GoCheckResult, NodeJsCheckResult, OsCheckResult,
    PythonCheckResult, Suggestion, SuggestionView, ToolInfo, ToolInfoView,
};

verus! {

/// The icon a status is shown with.
pub open spec fn spec_status_icon(status: CheckStatus) -> Seq<char> {
    match status {
        CheckStatus::Okay => "\u{2705}"@,
        CheckStatus::Warning => "\u{26a0}\u{fe0f} "@,
        CheckStatus::Error => "\u{274c}"@,
        CheckStatus::NotApplicable => "\u{2796}"@,
    }
}

/// The version text of a tool line: the version string, or `unknown`.
pub open spec fn spec_version_str(t: ToolInfoView) -> Seq<char> {
    match t.version {
        Some(v) => v,
        None => "unknown"@,
    }
}

/// The path text of a tool line: the path in parentheses, or nothing.
pub open spec fn spec_path_str(t: ToolInfoView) -> Seq<char> {
    match t.path {
        Some(p) => " ("@ + p + ")"@,
        None => Seq::empty(),
    }
}

/// The head line of a tool description; none for a not-applicable tool.
pub open spec fn spec_tool_head_lines(t: ToolInfoView) -> Seq<Seq<char>> {
    match t.status {
        CheckStatus::Okay => seq![
            spec_status_icon(t.status) + " "@ + t.name + " "@ + spec_version_str(t) + " installed"@
                + spec_path_str(t),
        ],
        CheckStatus::Warning => seq![
            spec_status_icon(t.status) + " "@ + t.name + " "@ + spec_version_str(t) + spec_path_str(
                t,
            ),
        ],
        CheckStatus::Error => seq![
            spec_status_icon(t.status) + " "@ + t.name + " "@ + (if t.notes.len() > 0 {
                t.notes[0]
            } else {
                "error"@
            }),
        ],
        CheckStatus::NotApplicable => Seq::empty(),
    }
}

/// The indented note lines of a tool description.
pub open spec fn spec_note_lines(notes: Seq<Seq<char>>) -> Seq<Seq<char>> {
    notes.map_values(|n: Seq<char>| "   "@ + n)
}

/// Every line of a tool description: the head line, then — except for a
/// failed tool, whose head already shows its first note — one indented
/// line per note.
pub open spec fn spec_tool_info_lines(t: ToolInfoView) -> Seq<Seq<char>> {
    spec_tool_head_lines(t) + if t.status != CheckStatus::Error {
        spec_note_lines(t.notes)
    } else {
        Seq::empty()
    }
}

/// The lines of one suggestion: the issue, then the optional help text,
/// then the optional command.
pub open spec fn spec_suggestion_lines(s: SuggestionView) -> Seq<Seq<char>> {
    seq!["   \u{1f4a1} "@ + s.issue] + (match s.help_text {
        Some(h) => seq!["      "@ + h],
        None => Seq::empty(),
    }) + (match s.command {
        Some(c) => seq!["      "@ + c],
        None => Seq::empty(),
    })
}

/// The lines of a suggestion list, in order.
pub open spec fn spec_suggestions_lines(ss: Seq<SuggestionView>) -> Seq<Seq<char>>
    decreases ss.len(),
{
    if ss.len() == 0 {
        Seq::empty()
    } else {
        spec_suggestions_lines(ss.drop_last()) + spec_suggestion_lines(ss.last())
    }
}

/// The lines of a list of tool descriptions, in order.
pub open spec fn spec_tools_lines(ts: Seq<ToolInfoView>) -> Seq<Seq<char>>
    decreases ts.len(),
{
    if ts.len() == 0 {
        Seq::empty()
    } else {
        spec_tools_lines(ts.drop_last()) + spec_tool_info_lines(ts.last())
    }
}

/// The support text of the operating-system line.
pub open spec fn spec_os_support_text(os_name: Seq<char>, is_supported: bool) -> Seq<char> {
    if is_supported {
        "(Supported)"@
    } else if os_name == "Windows"@ {
        "(Not supported yet, coming soon)"@
    } else {
        "(Not supported)"@
    }
}

/// The static list of supported platforms, shown under an unsupported
/// non-Windows system.
pub open spec fn spec_platform_lines() -> Seq<Seq<char>> {
    seq![
        "   Supported platforms:"@,
        "     - Linux x64"@,
        "     - Linux arm64"@,
        "     - macOS x64 (Intel)"@,
        "     - macOS arm64 (Apple Silicon)"@,
    ]
}

/// The lines of the operating-system check.
pub open spec fn spec_os_check_lines(
    os_name: Seq<char>,
    arch: Seq<char>,
    is_supported: bool,
    status: CheckStatus,
    suggestions: Seq<SuggestionView>,
) -> Seq<Seq<char>> {
    seq![
        spec_status_icon(status) + " "@ + os_name + " "@ + arch + " "@ + spec_os_support_text(
            os_name,
            is_supported,
        ),
    ] + if suggestions.len() > 0 {
        spec_suggestions_lines(suggestions) + if !is_supported && os_name != "Windows"@ {
            spec_platform_lines()
        } else {
            Seq::empty()
        }
    } else {
        Seq::empty()
    }
}

/// The lines of the C++ check.
pub open spec fn spec_cpp_check_lines(r: CppCheckResult) -> Seq<Seq<char>> {
    (match r.tgn {
        Some(t) => spec_tool_info_lines(t@),
        None => Seq::empty(),
    }) + spec_tools_lines(r.compilers.deep_view()) + if r.suggestions@.len() > 0 {
        spec_suggestions_lines(r.suggestions.deep_view())
    } else {
        Seq::empty()
    }
}

/// The lines of the Python check.
pub open spec fn spec_python_check_lines(r: PythonCheckResult) -> Seq<Seq<char>> {
    (match r.python {
        Some(t) => spec_tool_info_lines(t@),
        None => Seq::empty(),
    }) + (match r.pip {
        Some(t) => spec_tool_info_lines(t@),
        None => Seq::empty(),
    }) + if r.suggestions@.len() > 0 {
        spec_suggestions_lines(r.suggestions.deep_view())
    } else {
        Seq::empty()
    }
}

/// The lines of the Go check: the tool, the GOROOT when the version is
/// acceptable and one is known, then any suggestions.
pub open spec fn spec_go_check_lines(r: GoCheckResult) -> Seq<Seq<char>> {
    (match r.go {
        Some(t) => spec_tool_info_lines(t@) + (if r.is_version_ok {
            match r.goroot {
                Some(g) => seq!["   GOROOT: "@ + g@],
                None => Seq::empty(),
            }
        } else {
            Seq::empty()
        }),
        None => Seq::empty(),
    }) + if r.suggestions@.len() > 0 {
        spec_suggestions_lines(r.suggestions.deep_view())
    } else {
        Seq::empty()
    }
}

/// The lines of the Node.js check.
pub open spec fn spec_nodejs_check_lines(r: NodeJsCheckResult) -> Seq<Seq<char>> {
    (match r.node {
        Some(t) => spec_tool_info_lines(t@),
        None => Seq::empty(),
    }) + (match r.npm {
        Some(t) => spec_tool_info_lines(t@),
        None => Seq::empty(),
    }) + if r.suggestions@.len() > 0 {
        spec_suggestions_lines(r.suggestions.deep_view())
    } else {
        Seq::empty()
    }
}

/// The lines of the whole environment check: each section separated by one
/// empty line.
pub open spec fn spec_env_check_lines(r: EnvCheckResult) -> Seq<Seq<char>> {
    spec_os_check_lines(
        r.os.os_name@,
        r.os.arch@,
        r.os.is_supported,
        r.os.status,
        r.os.suggestions.deep_view(),
    ) + seq![Seq::<char>::empty()] + spec_cpp_check_lines(r.cpp) + seq![Seq::<char>::empty()]
        + spec_python_check_lines(r.python) + seq![Seq::<char>::empty()] + spec_go_check_lines(r.go)
        + seq![Seq::<char>::empty()] + spec_nodejs_check_lines(r.nodejs)
}

/// Format check results into output lines.
pub trait CheckResultFormatter {
    /// Format the entire environment check result.
    fn format_env_check(&self, result: &EnvCheckResult) -> Vec<String>;

    /// Format the operating-system check result.
    fn format_os_check(&self, result: &OsCheckResult) -> Vec<String>;

    /// Format the C++ check result.
    fn format_cpp_check(&self, result: &CppCheckResult) -> Vec<String>;

    /// Format the Python check result.
    fn format_python_check(&self, result: &PythonCheckResult) -> Vec<String>;

    /// Format the Go check result.
    fn format_go_check(&self, result: &GoCheckResult) -> Vec<String>;

    /// Format the Node.js check result.
    fn format_nodejs_check(&self, result: &NodeJsCheckResult) -> Vec<String>;
}

/// Command-line formatter with icons and indentation.
#[derive(Debug)]
pub struct CliFormatter;

/// Structured formatter for wire output; its serialization lives with the
/// caller that owns the wire format.
#[derive(Debug)]
pub struct JsonFormatter;

impl CliFormatter {
    /// The icon shown for a status.
    pub fn format_status_icon(&self, status: &CheckStatus) -> (r: &'static str)
        ensures
            r@ == spec_status_icon(*status),
    {
        match status {
            CheckStatus::Okay => "\u{2705}",
            CheckStatus::Warning => "\u{26a0}\u{fe0f} ",
            CheckStatus::Error => "\u{274c}",
            CheckStatus::NotApplicable => "\u{2796}",
        }
    }

    /// The lines describing one tool.
    pub fn format_tool_info(&self, tool: &ToolInfo) -> (r: Vec<String>)
        ensures
            r.deep_view() == spec_tool_info_lines(tool@),
    {
        let icon = self.format_status_icon(&tool.status);
        let version_str: &str = match &tool.version {
            Some(v) => v.as_str(),
            None => "unknown",
        };
        let path_str: String = match &tool.path {
            Some(p) => {
                let mut s = String::from_str(" (");
                s.append(p.as_str());
                s.append(")");
                s
            },
            None => String::new(),
        };
        let mut lines: Vec<String> = Vec::new();
        match tool.status {
            CheckStatus::Okay => {
                let mut line = icon.to_owned();
                line.append(" ");
                line.append(tool.name.as_str());
                line.append(" ");
                line.append(version_str);
                line.append(" installed");
                line.append(path_str.as_str());
                lines.push(line);
            },
            CheckStatus::Warning => {
                let mut line = icon.to_owned();
                line.append(" ");
                line.append(tool.name.as_str());
                line.append(" ");
                line.append(version_str);
                line.append(path_str.as_str());
                lines.push(line);
            },
            CheckStatus::Error => {
                let mut line = icon.to_owned();
                line.append(" ");
                line.append(tool.name.as_str());
                line.append(" ");
                if tool.notes.len() > 0 {
                    line.append(tool.notes[0].as_str());
                } else {
                    line.append("error");
                }
                lines.push(line);
            },
            CheckStatus::NotApplicable => {},
        }
        proof {
            assert(lines.deep_view() =~= spec_tool_head_lines(tool@));
        }
        if !matches!(tool.status, CheckStatus::Error) {
            let ghost head = lines.deep_view();
            let mut i: usize = 0;
            while i < tool.notes.len()
                invariant
                    i <= tool.notes.len(),
                    lines.deep_view() == head + spec_note_lines(
                        tool.notes.deep_view().take(i as int),
                    ),
                decreases tool.notes.len() - i,
            {
                let ghost prev = lines.deep_view();
                let mut line = String::from_str("   ");
                line.append(tool.notes[i].as_str());
                lines.push(line);
                proof {
                    assert(lines.deep_view() =~= prev.push("   "@ + tool.notes.deep_view()[
                        i as int
                    ]));
                    assert(spec_note_lines(tool.notes.deep_view().take(i as int + 1))
                        =~= spec_note_lines(tool.notes.deep_view().take(i as int)).push(
                        "   "@ + tool.notes.deep_view()[i as int],
                    ));
                    assert(lines.deep_view() =~= head + spec_note_lines(
                        tool.notes.deep_view().take(i as int + 1),
                    ));
                }
                i += 1;
            }
            proof {
                assert(tool.notes.deep_view().take(tool.notes@.len() as int) =~= tool.notes.deep_view());
                assert(lines.deep_view() =~= spec_tool_info_lines(tool@));
            }
        }
        proof {
            assert(lines.deep_view() =~= spec_tool_info_lines(tool@));
        }
        lines
    }

    /// The lines describing a suggestion list.
    pub fn format_suggestions(&self, suggestions: &Vec<Suggestion>) -> (r: Vec<String>)
        ensures
            r.deep_view() == spec_suggestions_lines(suggestions.deep_view()),
    {
        let mut lines: Vec<String> = Vec::new();
        let mut i: usize = 0;
        while i < suggestions.len()
            invariant
                i <= suggestions.len(),
                lines.deep_view() == spec_suggestions_lines(
                    suggestions.deep_view().take(i as int),
                ),
            decreases suggestions.len() - i,
        {
            let s = &suggestions[i];
            let ghost before = lines.deep_view();
            let mut issue_line = String::from_str("   \u{1f4a1} ");
            issue_line.append(s.issue.as_str());
            lines.push(issue_line);
            let ghost after_issue = lines.deep_view();
            proof {
                assert(after_issue =~= before.push("   \u{1f4a1} "@ + s@.issue));
            }
            match &s.help_text {
                Some(h) => {
                    let ghost prev = lines.deep_view();
                    let mut l = String::from_str("      ");
                    l.append(h.as_str());
                    lines.push(l);
                    proof {
                        assert(lines.deep_view() =~= prev.push("      "@ + h@));
                    }
                },
                None => {},
            }
            match &s.command {
                Some(c) => {
                    let ghost prev = lines.deep_view();
                    let mut l = String::from_str("      ");
                    l.append(c.as_str());
                    lines.push(l);
                    proof {
                        assert(lines.deep_view() =~= prev.push("      "@ + c@));
                    }
                },
                None => {},
            }
            proof {
                let sv = suggestions.deep_view();
                assert(sv.take(i as int + 1).drop_last() =~= sv.take(i as int));
                assert(sv.take(i as int + 1).last() == sv[i as int]);
                assert(lines.deep_view() =~= before + spec_suggestion_lines(sv[i as int]));
                assert(lines.deep_view() =~= spec_suggestions_lines(sv.take(i as int + 1)));
            }
            i += 1;
        }
        proof {
            assert(suggestions.deep_view().take(suggestions@.len() as int)
                =~= suggestions.deep_view());
        }
        lines
    }

    /// The lines of a list of tools.
    fn format_tools(&self, tools: &Vec<ToolInfo>) -> (r: Vec<String>)
        ensures
            r.deep_view() == spec_tools_lines(tools.deep_view()),
    {
        let mut lines: Vec<String> = Vec::new();
        let mut i: usize = 0;
        while i < tools.len()
            invariant
                i <= tools.len(),
                lines.deep_view() == spec_tools_lines(tools.deep_view().take(i as int)),
            decreases tools.len() - i,
        {
            let ghost before = lines.deep_view();
            let mut tool_lines = self.format_tool_info(&tools[i]);
            lines.append(&mut tool_lines);
            proof {
                let tv = tools.deep_view();
                assert(tv.take(i as int + 1).drop_last() =~= tv.take(i as int));
                assert(tv.take(i as int + 1).last() == tv[i as int]);
                assert(lines.deep_view() =~= spec_tools_lines(tv.take(i as int + 1)));
            }
            i += 1;
        }
        proof {
            assert(tools.deep_view().take(tools@.len() as int) =~= tools.deep_view());
        }
        lines
    }
}

impl CheckResultFormatter for CliFormatter {
    fn format_env_check(&self, result: &EnvCheckResult) -> (r: Vec<String>)
        ensures
            r.deep_view() == spec_env_check_lines(*result),
    {
        let mut lines = self.format_os_check(&result.os);
        lines.push(String::new());
        let mut cpp = self.format_cpp_check(&result.cpp);
        lines.append(&mut cpp);
        lines.push(String::new());
        let mut python = self.format_python_check(&result.python);
        lines.append(&mut python);
        lines.push(String::new());
        let mut go = self.format_go_check(&result.go);
        lines.append(&mut go);
        lines.push(String::new());
        let mut nodejs = self.format_nodejs_check(&result.nodejs);
        lines.append(&mut nodejs);
        proof {
            assert(lines.deep_view() =~= spec_env_check_lines(*result));
        }
        lines
    }

    fn format_os_check(&self, result: &OsCheckResult) -> (r: Vec<String>)
        ensures
            r.deep_view() == spec_os_check_lines(
                result.os_name@,
                result.arch@,
                result.is_supported,
                result.status,
                result.suggestions.deep_view(),
            ),
    {
        let icon = self.format_status_icon(&result.status);
        let support_text: &str = if result.is_supported {
            "(Supported)"
        } else if crate::strings::string_eq_str(&result.os_name, "Windows") {
            "(Not supported yet, coming soon)"
        } else {
            "(Not supported)"
        };
        let mut line = icon.to_owned();
        line.append(" ");
        line.append(result.os_name.as_str());
        line.append(" ");
        line.append(result.arch.as_str());
        line.append(" ");
        line.append(support_text);
        let mut lines: Vec<String> = Vec::new();
        lines.push(line);
        if result.suggestions.len() > 0 {
            let mut suggestion_lines = self.format_suggestions(&result.suggestions);
            lines.append(&mut suggestion_lines);
            if !result.is_supported && !crate::strings::string_eq_str(&result.os_name, "Windows") {
                lines.push(String::from_str("   Supported platforms:"));
                lines.push(String::from_str("     - Linux x64"));
                lines.push(String::from_str("     - Linux arm64"));
                lines.push(String::from_str("     - macOS x64 (Intel)"));
                lines.push(String::from_str("     - macOS arm64 (Apple Silicon)"));
            }
        }
        proof {
            assert(lines.deep_view() =~= spec_os_check_lines(
                result.os_name@,
                result.arch@,
                result.is_supported,
                result.status,
                result.suggestions.deep_view(),
            ));
        }
        lines
    }

    fn format_cpp_check(&self, result: &CppCheckResult) -> (r: Vec<String>)
        ensures
            r.deep_view() == spec_cpp_check_lines(*result),
    {
        let mut lines: Vec<String> = Vec::new();
        match &result.tgn {
            Some(tgn) => {
                let mut tgn_lines = self.format_tool_info(tgn);
                lines.append(&mut tgn_lines);
            },
            None => {},
        }
        let mut compiler_lines = self.format_tools(&result.compilers);
        lines.append(&mut compiler_lines);
        if result.suggestions.len() > 0 {
            let mut suggestion_lines = self.format_suggestions(&result.suggestions);
            lines.append(&mut suggestion_lines);
        }
        proof {
            assert(lines.deep_view() =~= spec_cpp_check_lines(*result));
        }
        lines
    }

    fn format_python_check(&self, result: &PythonCheckResult) -> (r: Vec<String>)
        ensures
            r.deep_view() == spec_python_check_lines(*result),
    {
        let mut lines: Vec<String> = Vec::new();
        match &result.python {
            Some(python) => {
                let mut tool_lines = self.format_tool_info(python);
                lines.append(&mut tool_lines);
            },
            None => {},
        }
        match &result.pip {
            Some(pip) => {
                let mut tool_lines = self.format_tool_info(pip);
                lines.append(&mut tool_lines);
            },
            None => {},
        }
        if result.suggestions.len() > 0 {
            let mut suggestion_lines = self.format_suggestions(&result.suggestions);
            lines.append(&mut suggestion_lines);
        }
        proof {
            assert(lines.deep_view() =~= spec_python_check_lines(*result));
        }
        lines
    }

    fn format_go_check(&self, result: &GoCheckResult) -> (r: Vec<String>)
        ensures
            r.deep_view() == spec_go_check_lines(*result),
    {
        let mut lines: Vec<String> = Vec::new();
        match &result.go {
            Some(go) => {
                let mut tool_lines = self.format_tool_info(go);
                lines.append(&mut tool_lines);
                if result.is_version_ok {
                    match &result.goroot {
                        Some(goroot) => {
                            let mut l = String::from_str("   GOROOT: ");
                            l.append(goroot.as_str());
                            lines.push(l);
                        },
                        None => {},
                    }
                }
            },
            None => {},
        }
        if result.suggestions.len() > 0 {
            let mut suggestion_lines = self.format_suggestions(&result.suggestions);
            lines.append(&mut suggestion_lines);
        }
        proof {
            assert(lines.deep_view() =~= spec_go_check_lines(*result));
        }
        lines
    }

    fn format_nodejs_check(&self, result: &NodeJsCheckResult) -> (r: Vec<String>)
        ensures
            r.deep_view() == spec_nodejs_check_lines(*result),
    {
        let mut lines: Vec<String> = Vec::new();
        match &result.node {
            Some(node) => {
                let mut tool_lines = self.format_tool_info(node);
                lines.append(&mut tool_lines);
            },
            None => {},
        }
        match &result.npm {
            Some(npm) => {
                let mut tool_lines = self.format_tool_info(npm);
                lines.append(&mut tool_lines);
            },
            None => {},
        }
        if result.suggestions.len() > 0 {
            let mut suggestion_lines = self.format_suggestions(&result.suggestions);
            lines.append(&mut suggestion_lines);
        }
        proof {
            assert(lines.deep_view() =~= spec_nodejs_check_lines(*result));
        }
        lines
    }
}

} // verus!
