//! Evaluation of tool probes: given what running a tool reported, decide
//! the tool description, the version verdict, the suggestions and the
//! overall status of each check.

use vstd::prelude::*;
use vstd::string::*;

use super::env::{
    go_version_supported, index_of_char, nodejs_overall_status, nodejs_status_for_major,
    parse_major_minor, parse_u32, python_version_supported, spec_digits_val, spec_has_major_minor,
    spec_index_of, spec_major_part, spec_minor_part, spec_parseable_u32,
};
use super::types::{
    CheckStatus, GoCheckResult, NodeJsCheckResult, PythonCheckResult, Suggestion, SuggestionView,
    ToolInfo, ToolInfoView,
};
use crate::strings::str_eq;

verus! {

/// The text after a prefix, when the string starts with that prefix.
pub open spec fn spec_strip_prefix(s: Seq<char>, p: Seq<char>) -> Option<Seq<char>> {
    if p.len() <= s.len() && s.take(p.len() as int) == p {
        Some(s.skip(p.len() as int))
    } else {
        None
    }
}

/// Strips a prefix from a string slice, by characters.
#[verifier::loop_isolation(false)]
pub fn strip_prefix_str<'a>(s: &'a str, p: &str) -> (r: Option<&'a str>)
    ensures
        match spec_strip_prefix(s@, p@) {
            Some(t) => r matches Some(x) && x@ == t,
            None => r is None,
        },
{
    let n = s.unicode_len();
    let m = p.unicode_len();
    if m > n {
        return None;
    }
    let mut i: usize = 0;
    while i < m
        invariant
            i <= m,
            m == p@.len(),
            n == s@.len(),
            m <= n,
            forall|j: int| 0 <= j < i ==> s@[j] == p@[j],
        decreases m - i,
    {
        if s.get_char(i) != p.get_char(i) {
            proof {
                assert(s@.take(m as int)[i as int] != p@[i as int]);
            }
            return None;
        }
        i += 1;
    }
    proof {
        assert(s@.take(m as int) =~= p@);
    }
    Some(s.substring_char(m, n))
}

/// Whether a Go version token (`go1.21.5` with its `go` prefix removed)
/// names a supported release.
pub open spec fn spec_go_token_ok(vp: Seq<char>) -> bool {
    spec_has_major_minor(vp) && (spec_digits_val(spec_major_part(vp)) > 1 || (spec_digits_val(
        spec_major_part(vp),
    ) == 1 && spec_digits_val(spec_minor_part(vp)) >= 20))
}

/// The version part of a Go version token: the token with its `go` prefix
/// removed, when it has one.
pub open spec fn spec_go_version_part(token: Option<Seq<char>>) -> Option<Seq<char>> {
    match token {
        Some(t) => spec_strip_prefix(t, "go"@),
        None => None,
    }
}

/// Whether a Go probe yields a parsed, supported version.
pub open spec fn spec_go_probe_ok(token: Option<Seq<char>>) -> bool {
    match spec_go_version_part(token) {
        Some(vp) => spec_go_token_ok(vp),
        None => false,
    }
}

/// Whether a Go probe yields a parsed version at all (supported or not).
pub open spec fn spec_go_probe_parsed(token: Option<Seq<char>>) -> bool {
    match spec_go_version_part(token) {
        Some(vp) => spec_has_major_minor(vp),
        None => false,
    }
}

/// Evaluates the Go check from what the probe reported: `version_line` is
/// the trimmed output of the version query when it succeeded, `token` its
/// third whitespace-separated word, `path` where the tool was found, and
/// `goroot`/`gopath` what the environment queries reported. A supported
/// release passes and keeps the environment paths; an unsupported or
/// unreadable version earns a warning and a suggestion; a missing tool
/// fails with an installation suggestion.
pub fn evaluate_go(
    version_line: Option<&String>,
    token: Option<&String>,
    path: Option<String>,
    goroot: Option<String>,
    gopath: Option<String>,
) -> (r: GoCheckResult)
    ensures
        r.is_version_ok == (version_line is Some && spec_go_probe_ok(token.deep_view())),
        version_line is None ==> {
            &&& r.go matches Some(t) && t@ == (ToolInfoView {
                name: "go"@,
                version: None,
                path: None,
                status: CheckStatus::Error,
                notes: seq!["Not found"@],
            })
            &&& r.suggestions.deep_view() == seq![
                SuggestionView {
                    issue: "Go not found"@,
                    command: None,
                    help_text: Some("Please install Go 1.20 or higher from https://go.dev/dl/"@),
                },
            ]
            &&& r.status == CheckStatus::Error
            &&& r.goroot is None && r.gopath is None
        },
        version_line is Some && spec_go_probe_ok(token.deep_view()) ==> {
            let vp = spec_go_version_part(token.deep_view())->0;
            &&& r.go matches Some(t) && t@ == (ToolInfoView {
                name: "go"@,
                version: Some(vp),
                path: path.deep_view(),
                status: CheckStatus::Okay,
                notes: Seq::empty(),
            })
            &&& r.suggestions.deep_view() == Seq::<SuggestionView>::empty()
            &&& r.status == CheckStatus::Okay
            &&& r.goroot == goroot && r.gopath == gopath
        },
        version_line is Some && spec_go_probe_parsed(token.deep_view())
            && !spec_go_probe_ok(token.deep_view()) ==> {
            let vp = spec_go_version_part(token.deep_view())->0;
            &&& r.go matches Some(t) && t@ == (ToolInfoView {
                name: "go"@,
                version: Some(vp),
                path: path.deep_view(),
                status: CheckStatus::Warning,
                notes: seq!["Version too old, requires >= 1.20"@],
            })
            &&& r.suggestions.deep_view() == seq![
                SuggestionView {
                    issue: "Go "@ + vp + " installed, but requires >= 1.20"@,
                    command: None,
                    help_text: Some(
                        "Please upgrade to Go 1.20 or higher from https://go.dev/dl/"@,
                    ),
                },
            ]
            &&& r.status == CheckStatus::Warning
            &&& r.goroot is None && r.gopath is None
        },
        version_line is Some && !spec_go_probe_parsed(token.deep_view()) ==> {
            &&& r.go matches Some(t) && t@ == (ToolInfoView {
                name: "go"@,
                version: Some(version_line->0@),
                path: None,
                status: CheckStatus::Warning,
                notes: seq!["Unable to parse version"@],
            })
            &&& r.suggestions.deep_view() == seq![
                SuggestionView {
                    issue: "Unable to parse Go version"@,
                    command: None,
                    help_text: Some("Please ensure Go >= 1.20 is installed"@),
                },
            ]
            &&& r.status == CheckStatus::Warning
            &&& r.goroot is None && r.gopath is None
        },
{
    match version_line {
        Some(line) => {
            let parsed: Option<&str> = match token {
                Some(t) => strip_prefix_str(t.as_str(), "go"),
                None => None,
            };
            let parsed_nums: Option<(u32, u32)> = match parsed {
                Some(vp) => parse_major_minor(vp),
                None => None,
            };
            match (parsed, parsed_nums) {
                (Some(vp), Some((major, minor))) => {
                    if go_version_supported(major, minor) {
                        let go_tool = ToolInfo {
                            name: String::from_str("go"),
                            version: Some(vp.to_owned()),
                            path,
                            status: CheckStatus::Okay,
                            notes: Vec::new(),
                        };
                        proof {
                            assert(go_tool@ =~~= (ToolInfoView {
                                name: "go"@,
                                version: Some(vp@),
                                path: go_tool.path.deep_view(),
                                status: CheckStatus::Okay,
                                notes: Seq::empty(),
                            }));
                        }
                        GoCheckResult {
                            go: Some(go_tool),
                            goroot,
                            gopath,
                            is_version_ok: true,
                            status: CheckStatus::Okay,
                            suggestions: Vec::new(),
                        }
                    } else {
                        let mut notes: Vec<String> = Vec::new();
                        notes.push(String::from_str("Version too old, requires >= 1.20"));
                        let go_tool = ToolInfo {
                            name: String::from_str("go"),
                            version: Some(vp.to_owned()),
                            path,
                            status: CheckStatus::Warning,
                            notes,
                        };
                        let mut issue = String::from_str("Go ");
                        issue.append(vp);
                        issue.append(" installed, but requires >= 1.20");
                        let mut suggestions: Vec<Suggestion> = Vec::new();
                        suggestions.push(
                            Suggestion {
                                issue,
                                command: None,
                                help_text: Some(
                                    String::from_str(
                                        "Please upgrade to Go 1.20 or higher from https://go.dev/dl/",
                                    ),
                                ),
                            },
                        );
                        proof {
                            assert(go_tool@.notes =~= seq!["Version too old, requires >= 1.20"@]);
                            assert(suggestions.deep_view() =~= seq![
                                SuggestionView {
                                    issue: "Go "@ + vp@ + " installed, but requires >= 1.20"@,
                                    command: None,
                                    help_text: Some(
                                        "Please upgrade to Go 1.20 or higher from https://go.dev/dl/"@,
                                    ),
                                },
                            ]);
                        }
                        GoCheckResult {
                            go: Some(go_tool),
                            goroot: None,
                            gopath: None,
                            is_version_ok: false,
                            status: CheckStatus::Warning,
                            suggestions,
                        }
                    }
                },
                _ => {
                    let mut notes: Vec<String> = Vec::new();
                    notes.push(String::from_str("Unable to parse version"));
                    let go_tool = ToolInfo {
                        name: String::from_str("go"),
                        version: Some(line.clone()),
                        path: None,
                        status: CheckStatus::Warning,
                        notes,
                    };
                    let mut suggestions: Vec<Suggestion> = Vec::new();
                    suggestions.push(
                        Suggestion {
                            issue: String::from_str("Unable to parse Go version"),
                            command: None,
                            help_text: Some(
                                String::from_str("Please ensure Go >= 1.20 is installed"),
                            ),
                        },
                    );
                    proof {
                        assert(go_tool@.notes =~= seq!["Unable to parse version"@]);
                        assert(suggestions.deep_view() =~= seq![
                            SuggestionView {
                                issue: "Unable to parse Go version"@,
                                command: None,
                                help_text: Some("Please ensure Go >= 1.20 is installed"@),
                            },
                        ]);
                    }
                    GoCheckResult {
                        go: Some(go_tool),
                        goroot: None,
                        gopath: None,
                        is_version_ok: false,
                        status: CheckStatus::Warning,
                        suggestions,
                    }
                },
            }
        },
        None => {
            let mut notes: Vec<String> = Vec::new();
            notes.push(String::from_str("Not found"));
            let go_tool = ToolInfo {
                name: String::from_str("go"),
                version: None,
                path: None,
                status: CheckStatus::Error,
                notes,
            };
            let mut suggestions: Vec<Suggestion> = Vec::new();
            suggestions.push(
                Suggestion {
                    issue: String::from_str("Go not found"),
                    command: None,
                    help_text: Some(
                        String::from_str("Please install Go 1.20 or higher from https://go.dev/dl/"),
                    ),
                },
            );
            proof {
                assert(go_tool@.notes =~= seq!["Not found"@]);
                assert(suggestions.deep_view() =~= seq![
                    SuggestionView {
                        issue: "Go not found"@,
                        command: None,
                        help_text: Some(
                            "Please install Go 1.20 or higher from https://go.dev/dl/"@,
                        ),
                    },
                ]);
            }
            GoCheckResult {
                go: Some(go_tool),
                goroot: None,
                gopath: None,
                is_version_ok: false,
                status: CheckStatus::Error,
                suggestions,
            }
        },
    }
}

/// The version part of a Python version line: the line with its
/// `Python ` prefix removed, when it has one.
pub open spec fn spec_python_version_part(line: Seq<char>) -> Option<Seq<char>> {
    spec_strip_prefix(line, "Python "@)
}

/// Whether a Python version line parses to major and minor numbers.
pub open spec fn spec_python_parsed(line: Seq<char>) -> bool {
    match spec_python_version_part(line) {
        Some(vp) => spec_has_major_minor(vp),
        None => false,
    }
}

/// Whether a Python version line names the supported release, 3.10.
pub open spec fn spec_python_ok(line: Seq<char>) -> bool {
    match spec_python_version_part(line) {
        Some(vp) => spec_has_major_minor(vp) && spec_digits_val(spec_major_part(vp)) == 3
            && spec_digits_val(spec_minor_part(vp)) == 10,
        None => false,
    }
}

/// Evaluates the Python check from what the probe reported: `version_line`
/// is the trimmed output of the version query when it succeeded, `path`
/// where the tool was found, and the pip arguments what the pip probe
/// reported. Only the supported release passes, and only then is pip
/// reported; any other or unreadable version earns a warning; a missing
/// tool fails.
pub fn evaluate_python(
    version_line: Option<&String>,
    path: Option<String>,
    pip_succeeded: bool,
    pip_version: Option<String>,
) -> (r: PythonCheckResult)
    ensures
        r.is_correct_version == (match version_line.deep_view() {
            Some(l) => spec_python_ok(l),
            None => false,
        }),
        version_line is None ==> {
            &&& r.python matches Some(t) && t@ == (ToolInfoView {
                name: "python3"@,
                version: None,
                path: None,
                status: CheckStatus::Error,
                notes: seq!["Not found"@],
            })
            &&& r.pip is None
            &&& r.suggestions.deep_view() == seq![
                SuggestionView {
                    issue: "Python not found"@,
                    command: Some("pyenv install 3.10.18 && pyenv local 3.10.18"@),
                    help_text: Some("Please install Python 3.10 using pyenv (recommended)"@),
                },
            ]
            &&& r.status == CheckStatus::Error
        },
        version_line is Some && spec_python_ok(version_line->0@) ==> {
            let vp = spec_python_version_part(version_line->0@)->0;
            &&& r.python matches Some(t) && t@ == (ToolInfoView {
                name: "python3"@,
                version: Some(vp),
                path: path.deep_view(),
                status: CheckStatus::Okay,
                notes: Seq::empty(),
            })
            &&& (pip_succeeded ==> (r.pip matches Some(t) && t@ == (ToolInfoView {
                name: "pip3"@,
                version: pip_version.deep_view(),
                path: None,
                status: CheckStatus::Okay,
                notes: Seq::empty(),
            })))
            &&& (!pip_succeeded ==> r.pip is None)
            &&& r.suggestions.deep_view() == Seq::<SuggestionView>::empty()
            &&& r.status == CheckStatus::Okay
        },
        version_line is Some && spec_python_parsed(version_line->0@) && !spec_python_ok(
            version_line->0@,
        ) ==> {
            let vp = spec_python_version_part(version_line->0@)->0;
            &&& r.python matches Some(t) && t@ == (ToolInfoView {
                name: "python3"@,
                version: Some(vp),
                path: path.deep_view(),
                status: CheckStatus::Warning,
                notes: seq!["TEN Framework only supports Python 3.10"@],
            })
            &&& r.pip is None
            &&& r.suggestions.deep_view() == seq![
                SuggestionView {
                    issue: "Python "@ + vp + " installed, but TEN Framework only supports Python 3.10"@,
                    command: Some("pyenv install 3.10.18 && pyenv local 3.10.18"@),
                    help_text: Some("Please use pyenv to install Python 3.10"@),
                },
            ]
            &&& r.status == CheckStatus::Warning
        },
        version_line is Some && !spec_python_parsed(version_line->0@) ==> {
            &&& r.python matches Some(t) && t@ == (ToolInfoView {
                name: "python3"@,
                version: Some(version_line->0@),
                path: None,
                status: CheckStatus::Warning,
                notes: seq!["Unable to parse version"@],
            })
            &&& r.pip is None
            &&& r.suggestions.deep_view() == seq![
                SuggestionView {
                    issue: "Unable to parse Python version"@,
                    command: None,
                    help_text: Some("Please ensure Python 3.10 is installed"@),
                },
            ]
            &&& r.status == CheckStatus::Warning
        },
{
    match version_line {
        Some(line) => {
            let parsed: Option<&str> = strip_prefix_str(line.as_str(), "Python ");
            let parsed_nums: Option<(u32, u32)> = match parsed {
                Some(vp) => parse_major_minor(vp),
                None => None,
            };
            match (parsed, parsed_nums) {
                (Some(vp), Some((major, minor))) => {
                    if python_version_supported(major, minor) {
                        let python_tool = ToolInfo {
                            name: String::from_str("python3"),
                            version: Some(vp.to_owned()),
                            path,
                            status: CheckStatus::Okay,
                            notes: Vec::new(),
                        };
                        let pip_tool: Option<ToolInfo> = if pip_succeeded {
                            Some(
                                ToolInfo {
                                    name: String::from_str("pip3"),
                                    version: pip_version,
                                    path: None,
                                    status: CheckStatus::Okay,
                                    notes: Vec::new(),
                                },
                            )
                        } else {
                            None
                        };
                        proof {
                            assert(python_tool@ =~~= (ToolInfoView {
                                name: "python3"@,
                                version: Some(vp@),
                                path: python_tool.path.deep_view(),
                                status: CheckStatus::Okay,
                                notes: Seq::empty(),
                            }));
                            if pip_succeeded {
                                assert(pip_tool->0@ =~~= (ToolInfoView {
                                    name: "pip3"@,
                                    version: pip_tool->0.version.deep_view(),
                                    path: None,
                                    status: CheckStatus::Okay,
                                    notes: Seq::empty(),
                                }));
                            }
                        }
                        PythonCheckResult {
                            python: Some(python_tool),
                            pip: pip_tool,
                            is_correct_version: true,
                            status: CheckStatus::Okay,
                            suggestions: Vec::new(),
                        }
                    } else {
                        let mut notes: Vec<String> = Vec::new();
                        notes.push(String::from_str("TEN Framework only supports Python 3.10"));
                        let python_tool = ToolInfo {
                            name: String::from_str("python3"),
                            version: Some(vp.to_owned()),
                            path,
                            status: CheckStatus::Warning,
                            notes,
                        };
                        let mut issue = String::from_str("Python ");
                        issue.append(vp);
                        issue.append(" installed, but TEN Framework only supports Python 3.10");
                        let mut suggestions: Vec<Suggestion> = Vec::new();
                        suggestions.push(
                            Suggestion {
                                issue,
                                command: Some(
                                    String::from_str("pyenv install 3.10.18 && pyenv local 3.10.18"),
                                ),
                                help_text: Some(
                                    String::from_str("Please use pyenv to install Python 3.10"),
                                ),
                            },
                        );
                        proof {
                            assert(python_tool@.notes =~= seq![
                                "TEN Framework only supports Python 3.10"@,
                            ]);
                            assert(suggestions.deep_view() =~~= seq![
                                SuggestionView {
                                    issue: "Python "@ + vp@
                                        + " installed, but TEN Framework only supports Python 3.10"@,
                                    command: Some("pyenv install 3.10.18 && pyenv local 3.10.18"@),
                                    help_text: Some("Please use pyenv to install Python 3.10"@),
                                },
                            ]);
                        }
                        PythonCheckResult {
                            python: Some(python_tool),
                            pip: None,
                            is_correct_version: false,
                            status: CheckStatus::Warning,
                            suggestions,
                        }
                    }
                },
                _ => {
                    let mut notes: Vec<String> = Vec::new();
                    notes.push(String::from_str("Unable to parse version"));
                    let python_tool = ToolInfo {
                        name: String::from_str("python3"),
                        version: Some(line.clone()),
                        path: None,
                        status: CheckStatus::Warning,
                        notes,
                    };
                    let mut suggestions: Vec<Suggestion> = Vec::new();
                    suggestions.push(
                        Suggestion {
                            issue: String::from_str("Unable to parse Python version"),
                            command: None,
                            help_text: Some(
                                String::from_str("Please ensure Python 3.10 is installed"),
                            ),
                        },
                    );
                    proof {
                        assert(python_tool@.notes =~= seq!["Unable to parse version"@]);
                        assert(suggestions.deep_view() =~~= seq![
                            SuggestionView {
                                issue: "Unable to parse Python version"@,
                                command: None,
                                help_text: Some("Please ensure Python 3.10 is installed"@),
                            },
                        ]);
                    }
                    PythonCheckResult {
                        python: Some(python_tool),
                        pip: None,
                        is_correct_version: false,
                        status: CheckStatus::Warning,
                        suggestions,
                    }
                },
            }
        },
        None => {
            let mut notes: Vec<String> = Vec::new();
            notes.push(String::from_str("Not found"));
            let python_tool = ToolInfo {
                name: String::from_str("python3"),
                version: None,
                path: None,
                status: CheckStatus::Error,
                notes,
            };
            let mut suggestions: Vec<Suggestion> = Vec::new();
            suggestions.push(
                Suggestion {
                    issue: String::from_str("Python not found"),
                    command: Some(String::from_str("pyenv install 3.10.18 && pyenv local 3.10.18")),
                    help_text: Some(
                        String::from_str("Please install Python 3.10 using pyenv (recommended)"),
                    ),
                },
            );
            proof {
                assert(python_tool@ =~~= (ToolInfoView {
                    name: "python3"@,
                    version: None,
                    path: None,
                    status: CheckStatus::Error,
                    notes: seq!["Not found"@],
                }));
                assert(suggestions.deep_view() =~~= seq![
                    SuggestionView {
                        issue: "Python not found"@,
                        command: Some("pyenv install 3.10.18 && pyenv local 3.10.18"@),
                        help_text: Some("Please install Python 3.10 using pyenv (recommended)"@),
                    },
                ]);
            }
            PythonCheckResult {
                python: Some(python_tool),
                pip: None,
                is_correct_version: false,
                status: CheckStatus::Error,
                suggestions,
            }
        },
    }
}

/// The version number of a Node.js version line: the line with its `v`
/// prefix removed, when it has one; the line itself otherwise.
pub open spec fn spec_node_version_num(line: Seq<char>) -> Seq<char> {
    match spec_strip_prefix(line, "v"@) {
        Some(v) => v,
        None => line,
    }
}

/// The major version a Node.js version line names, when its leading
/// dot-separated part is a number.
pub open spec fn spec_node_major(line: Seq<char>) -> Option<int> {
    let num = spec_node_version_num(line);
    let major_str = num.take(spec_index_of(num, '.'));
    if spec_parseable_u32(major_str) {
        Some(spec_digits_val(major_str))
    } else {
        None
    }
}

/// The status a Node.js version line earns: a warning below major 18, fine
/// otherwise — also fine when the major cannot be read.
pub open spec fn spec_node_line_status(line: Seq<char>) -> CheckStatus {
    match spec_node_major(line) {
        Some(major) => if major < 18 {
            CheckStatus::Warning
        } else {
            CheckStatus::Okay
        },
        None => CheckStatus::Okay,
    }
}

/// The notes a Node.js version line earns: outdated below major 16, aging
/// below major 18, none otherwise.
pub open spec fn spec_node_notes(line: Seq<char>) -> Seq<Seq<char>> {
    match spec_node_major(line) {
        Some(major) => if major < 16 {
            seq!["Version is outdated, may affect some features"@]
        } else if major < 18 {
            seq!["Consider upgrading to Node.js v18 LTS or higher"@]
        } else {
            Seq::empty()
        },
        None => Seq::empty(),
    }
}

/// The suggestions the Node.js runtime itself earns: an upgrade suggestion
/// below major 16, an installation suggestion when missing.
pub open spec fn spec_node_suggestions(node_line: Option<Seq<char>>) -> Seq<SuggestionView> {
    match node_line {
        Some(l) => match spec_node_major(l) {
            Some(major) => if major < 16 {
                seq![
                    SuggestionView {
                        issue: "Node.js version "@ + l + " is outdated"@,
                        command: None,
                        help_text: Some("Recommend upgrading to Node.js 16 or higher"@),
                    },
                ]
            } else {
                Seq::empty()
            },
            None => Seq::empty(),
        },
        None => seq![
            SuggestionView {
                issue: "Node.js not found"@,
                command: None,
                help_text: Some(
                    "Please install Node.js (v18 LTS or higher recommended) from https://nodejs.org/"@,
                ),
            },
        ],
    }
}

/// The suggestion a missing npm earns — only when Node.js itself is there,
/// since npm normally comes with it.
pub open spec fn spec_npm_suggestions(
    has_nodejs: bool,
    npm_line: Option<Seq<char>>,
) -> Seq<SuggestionView> {
    if npm_line is None && has_nodejs {
        seq![
            SuggestionView {
                issue: "npm not found"@,
                command: None,
                help_text: Some(
                    "npm should be installed with Node.js, please check installation"@,
                ),
            },
        ]
    } else {
        Seq::empty()
    }
}

/// Evaluates the Node.js check from what the two probes reported: the
/// trimmed version lines when the commands succeeded, and where the tools
/// were found.
pub fn evaluate_nodejs(
    node_line: Option<&String>,
    node_path: Option<String>,
    npm_line: Option<&String>,
    npm_path: Option<String>,
) -> (r: NodeJsCheckResult)
    ensures
        r.has_nodejs == node_line is Some,
        r.has_npm == npm_line is Some,
        r.node matches Some(t) && t@ == (match node_line.deep_view() {
            Some(l) => ToolInfoView {
                name: "node"@,
                version: Some(l),
                path: node_path.deep_view(),
                status: spec_node_line_status(l),
                notes: spec_node_notes(l),
            },
            None => ToolInfoView {
                name: "node"@,
                version: None,
                path: None,
                status: CheckStatus::Error,
                notes: seq!["Not found"@],
            },
        }),
        r.npm matches Some(t) && t@ == (match npm_line.deep_view() {
            Some(l) => ToolInfoView {
                name: "npm"@,
                version: Some(l),
                path: npm_path.deep_view(),
                status: CheckStatus::Okay,
                notes: Seq::empty(),
            },
            None => ToolInfoView {
                name: "npm"@,
                version: None,
                path: None,
                status: CheckStatus::Error,
                notes: seq!["Not found"@],
            },
        }),
        r.suggestions.deep_view() == spec_node_suggestions(node_line.deep_view())
            + spec_npm_suggestions(node_line is Some, npm_line.deep_view()),
        node_line is Some && npm_line is Some ==> r.status == (if spec_node_line_status(
            node_line->0@,
        ) == CheckStatus::Warning {
            CheckStatus::Warning
        } else {
            CheckStatus::Okay
        }),
        (node_line is Some) != (npm_line is Some) ==> r.status == CheckStatus::Warning,
        node_line is None && npm_line is None ==> r.status == CheckStatus::Error,
{
    let mut suggestions: Vec<Suggestion> = Vec::new();
    let has_nodejs = node_line.is_some();
    let has_npm = npm_line.is_some();
    let node_tool: ToolInfo = match node_line {
        Some(line) => {
            let version_num: &str = match strip_prefix_str(line.as_str(), "v") {
                Some(v) => v,
                None => line.as_str(),
            };
            let dot = index_of_char(version_num, '.');
            proof {
                super::env::lemma_index_of(version_num@, '.');
            }
            let major_str = version_num.substring_char(0, dot);
            proof {
                assert(major_str@ =~= spec_node_version_num(line@).take(spec_index_of(
                    spec_node_version_num(line@),
                    '.',
                )));
            }
            let mut notes: Vec<String> = Vec::new();
            let status: CheckStatus = match parse_u32(major_str) {
                Some(major) => {
                    if major < 16 {
                        notes.push(
                            String::from_str("Version is outdated, may affect some features"),
                        );
                        let mut issue = String::from_str("Node.js version ");
                        issue.append(line.as_str());
                        issue.append(" is outdated");
                        suggestions.push(
                            Suggestion {
                                issue,
                                command: None,
                                help_text: Some(
                                    String::from_str(
                                        "Recommend upgrading to Node.js 16 or higher",
                                    ),
                                ),
                            },
                        );
                    } else if major < 18 {
                        notes.push(
                            String::from_str("Consider upgrading to Node.js v18 LTS or higher"),
                        );
                    }
                    nodejs_status_for_major(major)
                },
                None => CheckStatus::Okay,
            };
            proof {
                assert(notes.deep_view() =~= spec_node_notes(line@));
                assert(suggestions.deep_view() =~~= spec_node_suggestions(Some(line@)));
            }
            ToolInfo {
                name: String::from_str("node"),
                version: Some(line.clone()),
                path: node_path,
                status,
                notes,
            }
        },
        None => {
            suggestions.push(
                Suggestion {
                    issue: String::from_str("Node.js not found"),
                    command: None,
                    help_text: Some(
                        String::from_str(
                            "Please install Node.js (v18 LTS or higher recommended) from https://nodejs.org/",
                        ),
                    ),
                },
            );
            let mut notes: Vec<String> = Vec::new();
            notes.push(String::from_str("Not found"));
            proof {
                assert(suggestions.deep_view() =~~= spec_node_suggestions(None));
            }
            ToolInfo {
                name: String::from_str("node"),
                version: None,
                path: None,
                status: CheckStatus::Error,
                notes,
            }
        },
    };
    let ghost node_suggs = suggestions.deep_view();
    let node_status = node_tool.status;
    let npm_tool: ToolInfo = match npm_line {
        Some(line) => ToolInfo {
            name: String::from_str("npm"),
            version: Some(line.clone()),
            path: npm_path,
            status: CheckStatus::Okay,
            notes: Vec::new(),
        },
        None => {
            if has_nodejs {
                suggestions.push(
                    Suggestion {
                        issue: String::from_str("npm not found"),
                        command: None,
                        help_text: Some(
                            String::from_str(
                                "npm should be installed with Node.js, please check installation",
                            ),
                        ),
                    },
                );
            }
            let mut notes: Vec<String> = Vec::new();
            notes.push(String::from_str("Not found"));
            ToolInfo {
                name: String::from_str("npm"),
                version: None,
                path: None,
                status: CheckStatus::Error,
                notes,
            }
        },
    };
    proof {
        assert(suggestions.deep_view() =~~= node_suggs + spec_npm_suggestions(
            has_nodejs,
            npm_line.deep_view(),
        ));
        assert(node_tool@.notes =~= (match node_line.deep_view() {
            Some(l) => spec_node_notes(l),
            None => seq!["Not found"@],
        }));
        assert(npm_tool@.notes =~= (match npm_line.deep_view() {
            Some(l) => Seq::<Seq<char>>::empty(),
            None => seq!["Not found"@],
        }));
    }
    let status = nodejs_overall_status(has_nodejs, has_npm, node_status);
    NodeJsCheckResult {
        node: Some(node_tool),
        npm: Some(npm_tool),
        has_nodejs,
        has_npm,
        status,
        suggestions,
    }
}

/// What probing one compiler reported.
#[derive(Debug)]
pub enum CompilerProbeOutcome {
    /// The compiler answered with at least one output line; `version` is
    /// what could be read out of it.
    Detected { version: Option<String>, path: Option<String> },
    /// The compiler answered with no output to read a version from.
    NoOutput,
    /// The compiler is not there.
    Missing,
}

/// The tool entry one compiler probe contributes to the compiler list:
/// a detected compiler passes, a silent one contributes nothing, a missing
/// one fails with a note.
pub fn compiler_tool_entry(name: &str, outcome: CompilerProbeOutcome) -> (r: Option<ToolInfo>)
    ensures
        outcome matches CompilerProbeOutcome::Detected { version, path } ==> (r matches Some(t)
            && t@ == (ToolInfoView {
            name: name@,
            version: version.deep_view(),
            path: path.deep_view(),
            status: CheckStatus::Okay,
            notes: Seq::empty(),
        })),
        outcome is NoOutput ==> r is None,
        outcome is Missing ==> (r matches Some(t) && t@ == (ToolInfoView {
            name: name@,
            version: None,
            path: None,
            status: CheckStatus::Error,
            notes: seq!["Not found"@],
        })),
{
    match outcome {
        CompilerProbeOutcome::Detected { version, path } => {
            let t = ToolInfo {
                name: name.to_owned(),
                version,
                path,
                status: CheckStatus::Okay,
                notes: Vec::new(),
            };
            proof {
                assert(t@ =~~= (ToolInfoView {
                    name: name@,
                    version: t.version.deep_view(),
                    path: t.path.deep_view(),
                    status: CheckStatus::Okay,
                    notes: Seq::empty(),
                }));
            }
            Some(t)
        },
        CompilerProbeOutcome::NoOutput => None,
        CompilerProbeOutcome::Missing => {
            let mut notes: Vec<String> = Vec::new();
            notes.push(String::from_str("Not found"));
            let t = ToolInfo {
                name: name.to_owned(),
                version: None,
                path: None,
                status: CheckStatus::Error,
                notes,
            };
            proof {
                assert(t@ =~~= (ToolInfoView {
                    name: name@,
                    version: None,
                    path: None,
                    status: CheckStatus::Error,
                    notes: seq!["Not found"@],
                }));
            }
            Some(t)
        },
    }
}

/// The tool entry of the build tool: present and fine, or missing and
/// failed.
pub fn tgn_tool_entry(found: bool, path: Option<String>) -> (r: ToolInfo)
    ensures
        found ==> r@ == (ToolInfoView {
            name: "tgn"@,
            version: None,
            path: path.deep_view(),
            status: CheckStatus::Okay,
            notes: Seq::empty(),
        }),
        !found ==> r@ == (ToolInfoView {
            name: "tgn"@,
            version: None,
            path: None,
            status: CheckStatus::Error,
            notes: seq!["Not installed"@],
        }),
{
    if found {
        let t = ToolInfo {
            name: String::from_str("tgn"),
            version: None,
            path,
            status: CheckStatus::Okay,
            notes: Vec::new(),
        };
        proof {
            assert(t@ =~~= (ToolInfoView {
                name: "tgn"@,
                version: None,
                path: t.path.deep_view(),
                status: CheckStatus::Okay,
                notes: Seq::empty(),
            }));
        }
        t
    } else {
        let mut notes: Vec<String> = Vec::new();
        notes.push(String::from_str("Not installed"));
        let t = ToolInfo {
            name: String::from_str("tgn"),
            version: None,
            path: None,
            status: CheckStatus::Error,
            notes,
        };
        proof {
            assert(t@ =~~= (ToolInfoView {
                name: "tgn"@,
                version: None,
                path: None,
                status: CheckStatus::Error,
                notes: seq!["Not installed"@],
            }));
        }
        t
    }
}

/// The suggestion a missing build tool earns.
pub fn tgn_missing_suggestion() -> (r: Suggestion)
    ensures
        r@ == (SuggestionView {
            issue: "tgn not installed"@,
            command: Some(
                "curl -fsSL https://raw.githubusercontent.com/TEN-framework/ten-framework/main/tools/tgn/install_tgn.sh | bash"@,
            ),
            help_text: Some("To develop C++ extensions, please install tgn"@),
        }),
{
    let r = Suggestion {
        issue: String::from_str("tgn not installed"),
        command: Some(
            String::from_str(
                "curl -fsSL https://raw.githubusercontent.com/TEN-framework/ten-framework/main/tools/tgn/install_tgn.sh | bash",
            ),
        ),
        help_text: Some(String::from_str("To develop C++ extensions, please install tgn")),
    };
    proof {
        assert(r@ =~~= (SuggestionView {
            issue: "tgn not installed"@,
            command: Some(
                "curl -fsSL https://raw.githubusercontent.com/TEN-framework/ten-framework/main/tools/tgn/install_tgn.sh | bash"@,
            ),
            help_text: Some("To develop C++ extensions, please install tgn"@),
        }));
    }
    r
}

/// The suggestion a platform earns when no compiler was found: name the
/// platform's toolchain, or nothing on a platform whose compilers are not
/// probed.
pub fn compiler_missing_suggestion(os: &str) -> (r: Option<Suggestion>)
    ensures
        os@ == "linux"@ ==> (r matches Some(s) && s@ == (SuggestionView {
            issue: "gcc/g++ not found"@,
            command: Some("sudo apt-get install gcc g++"@),
            help_text: Some("To install gcc/g++"@),
        })),
        os@ != "linux"@ && os@ == "macos"@ ==> (r matches Some(s) && s@ == (SuggestionView {
            issue: "clang/clang++ not found"@,
            command: Some("xcode-select --install"@),
            help_text: Some("To install Xcode Command Line Tools"@),
        })),
        os@ != "linux"@ && os@ != "macos"@ ==> r is None,
{
    if str_eq(os, "linux") {
        let s = Suggestion {
            issue: String::from_str("gcc/g++ not found"),
            command: Some(String::from_str("sudo apt-get install gcc g++")),
            help_text: Some(String::from_str("To install gcc/g++")),
        };
        proof {
            assert(s@ =~~= (SuggestionView {
                issue: "gcc/g++ not found"@,
                command: Some("sudo apt-get install gcc g++"@),
                help_text: Some("To install gcc/g++"@),
            }));
        }
        Some(s)
    } else if str_eq(os, "macos") {
        let s = Suggestion {
            issue: String::from_str("clang/clang++ not found"),
            command: Some(String::from_str("xcode-select --install")),
            help_text: Some(String::from_str("To install Xcode Command Line Tools")),
        };
        proof {
            assert(s@ =~~= (SuggestionView {
                issue: "clang/clang++ not found"@,
                command: Some("xcode-select --install"@),
                help_text: Some("To install Xcode Command Line Tools"@),
            }));
        }
        Some(s)
    } else {
        None
    }
}

} // verus!
