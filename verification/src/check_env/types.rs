//! Structured results of the development-environment checks.

use vstd::prelude::*;

verus! {

/// Status of an individual check item.
#[derive(Clone, Copy, Debug, PartialEq, Eq, Structural)]
pub enum CheckStatus {
    /// Check passed successfully.
    Okay,
    /// Check passed with warnings.
    Warning,
    /// Check failed.
    Error,
    /// Check was not performed or not applicable.
    NotApplicable,
}

/// Information about a tool or component.
#[derive(Clone, Debug)]
pub struct ToolInfo {
    /// Tool name.
    pub name: String,
    /// Version string.
    pub version: Option<String>,
    /// Installation path.
    pub path: Option<String>,
    /// Check status.
    pub status: CheckStatus,
    /// Additional notes or warnings.
    pub notes: Vec<String>,
}

/// The mathematical value of a tool description.
#[verifier::ext_equal]
pub struct ToolInfoView {
    pub name: Seq<char>,
    pub version: Option<Seq<char>>,
    pub path: Option<Seq<char>>,
    pub status: CheckStatus,
    pub notes: Seq<Seq<char>>,
}

impl View for ToolInfo {
    type V = ToolInfoView;

    open spec fn view(&self) -> ToolInfoView {
        ToolInfoView {
            name: self.name@,
            version: self.version.deep_view(),
            path: self.path.deep_view(),
            status: self.status,
            notes: self.notes.deep_view(),
        }
    }
}

impl DeepView for ToolInfo {
    type V = ToolInfoView;

    open spec fn deep_view(&self) -> ToolInfoView {
        self@
    }
}

/// Suggestion for resolving an issue.
#[derive(Clone, Debug)]
pub struct Suggestion {
    /// Description of the issue.
    pub issue: String,
    /// Suggested command or action.
    pub command: Option<String>,
    /// Additional help text or URL.
    pub help_text: Option<String>,
}

/// The mathematical value of a suggestion.
#[verifier::ext_equal]
pub struct SuggestionView {
    pub issue: Seq<char>,
    pub command: Option<Seq<char>>,
    pub help_text: Option<Seq<char>>,
}

impl View for Suggestion {
    type V = SuggestionView;

    open spec fn view(&self) -> SuggestionView {
        SuggestionView {
            issue: self.issue@,
            command: self.command.deep_view(),
            help_text: self.help_text.deep_view(),
        }
    }
}

impl DeepView for Suggestion {
    type V = SuggestionView;

    open spec fn deep_view(&self) -> SuggestionView {
        self@
    }
}

/// Result of checking the operating system.
#[derive(Clone, Debug)]
pub struct OsCheckResult {
    /// OS name.
    pub os_name: String,
    /// Architecture.
    pub arch: String,
    /// Whether the platform is supported.
    pub is_supported: bool,
    /// Overall status.
    pub status: CheckStatus,
    /// Suggestions if not supported.
    pub suggestions: Vec<Suggestion>,
}

/// Result of checking the C++ development environment.
#[derive(Clone, Debug)]
pub struct CppCheckResult {
    /// Build-tool information.
    pub tgn: Option<ToolInfo>,
    /// Compiler information.
    pub compilers: Vec<ToolInfo>,
    /// Whether the build tool is installed.
    pub tgn_installed: bool,
    /// Whether any compiler is available.
    pub has_compiler: bool,
    /// Overall status.
    pub status: CheckStatus,
    /// Suggestions for missing tools.
    pub suggestions: Vec<Suggestion>,
}

/// Result of checking the Python environment.
#[derive(Clone, Debug)]
pub struct PythonCheckResult {
    /// Python tool information.
    pub python: Option<ToolInfo>,
    /// Pip tool information.
    pub pip: Option<ToolInfo>,
    /// Whether the supported Python version is installed.
    pub is_correct_version: bool,
    /// Overall status.
    pub status: CheckStatus,
    /// Suggestions for issues.
    pub suggestions: Vec<Suggestion>,
}

/// Result of checking the Go environment.
#[derive(Clone, Debug)]
pub struct GoCheckResult {
    /// Go tool information.
    pub go: Option<ToolInfo>,
    /// GOROOT path.
    pub goroot: Option<String>,
    /// GOPATH path.
    pub gopath: Option<String>,
    /// Whether a recent enough Go is installed.
    pub is_version_ok: bool,
    /// Overall status.
    pub status: CheckStatus,
    /// Suggestions for issues.
    pub suggestions: Vec<Suggestion>,
}

/// Result of checking the Node.js environment.
#[derive(Clone, Debug)]
pub struct NodeJsCheckResult {
    /// Node.js tool information.
    pub node: Option<ToolInfo>,
    /// npm tool information.
    pub npm: Option<ToolInfo>,
    /// Whether Node.js is installed.
    pub has_nodejs: bool,
    /// Whether npm is installed.
    pub has_npm: bool,
    /// Overall status.
    pub status: CheckStatus,
    /// Suggestions for issues.
    pub suggestions: Vec<Suggestion>,
}

/// Combined result of all environment checks.
#[derive(Clone, Debug)]
pub struct EnvCheckResult {
    /// Operating system check result.
    pub os: OsCheckResult,
    /// C++ environment check result.
    pub cpp: CppCheckResult,
    /// Python environment check result.
    pub python: PythonCheckResult,
    /// Go environment check result.
    pub go: GoCheckResult,
    /// Node.js environment check result.
    pub nodejs: NodeJsCheckResult,
}

} // verus!
