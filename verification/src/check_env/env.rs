//! Pure evaluation of environment probes: version-string parsing, version
//! policies, per-check status aggregation, and the summary lines of a full
//! check — everything the probes decide once their raw output is in hand.

use vstd::prelude::*;
use vstd::string::*;

use super::types::{CheckStatus, EnvCheckResult, OsCheckResult, Suggestion, SuggestionView};
use crate::strings::str_eq;

verus! {

/// Whether a character is a decimal digit.
pub open spec fn spec_is_digit(c: char) -> bool {
    '0' <= c <= '9'
}

/// Whether a string is all decimal digits.
pub open spec fn spec_all_digits(s: Seq<char>) -> bool {
    forall|i: int| 0 <= i < s.len() ==> spec_is_digit(#[trigger] s[i])
}

/// The number a digit string denotes, most significant digit first.
pub open spec fn spec_digits_val(s: Seq<char>) -> int
    decreases s.len(),
{
    if s.len() == 0 {
        0
    } else {
        spec_digits_val(s.drop_last()) * 10 + (s.last() as int - '0' as int)
    }
}

/// A digit string denotes a non-negative number.
proof fn lemma_digits_val_nonneg(s: Seq<char>)
    requires
        spec_all_digits(s),
    ensures
        spec_digits_val(s) >= 0,
    decreases s.len(),
{
    if s.len() > 0 {
        assert(forall|i: int|
            0 <= i < s.drop_last().len() ==> s.drop_last()[i] == s[i]);
        lemma_digits_val_nonneg(s.drop_last());
    }
}

/// A prefix of a digit string denotes no more than the whole string.
proof fn lemma_digits_val_prefix_le(s: Seq<char>, i: int)
    requires
        spec_all_digits(s),
        0 <= i <= s.len(),
    ensures
        spec_digits_val(s.take(i)) <= spec_digits_val(s),
    decreases s.len() - i,
{
    if i < s.len() {
        lemma_digits_val_prefix_le(s, i + 1);
        assert(s.take(i + 1).drop_last() =~= s.take(i));
        assert(s.take(i + 1).last() == s[i]);
        lemma_digits_val_nonneg(s.take(i));
        assert(spec_digits_val(s.take(i + 1)) == spec_digits_val(s.take(i)) * 10 + (s[i] as int
            - '0' as int));
    } else {
        assert(s.take(i) =~= s);
    }
}

/// Whether a string denotes a 32-bit number: non-empty, all digits, and in
/// range.
pub open spec fn spec_parseable_u32(s: Seq<char>) -> bool {
    s.len() > 0 && spec_all_digits(s) && spec_digits_val(s) <= u32::MAX
}

/// Parses a decimal digit string. Succeeds exactly on a non-empty string
/// of digits whose value fits in 32 bits.
#[verifier::loop_isolation(false)]
pub fn parse_u32(s: &str) -> (r: Option<u32>)
    ensures
        r is Some <==> spec_parseable_u32(s@),
        r matches Some(v) ==> v as int == spec_digits_val(s@),
{
    let n = s.unicode_len();
    if n == 0 {
        return None;
    }
    let mut acc: u64 = 0;
    let mut i: usize = 0;
    while i < n
        invariant
            i <= n,
            n == s@.len(),
            spec_all_digits(s@.take(i as int)),
            acc as int == spec_digits_val(s@.take(i as int)),
            acc <= u32::MAX,
        decreases n - i,
    {
        let c = s.get_char(i);
        let code = c as u32;
        if code < 48 || code > 57 {
            proof {
                assert(!spec_is_digit(s@[i as int]));
            }
            return None;
        }
        let d: u64 = (code - 48) as u64;
        let next: u64 = acc * 10 + d;
        proof {
            assert(s@.take(i as int + 1).drop_last() =~= s@.take(i as int));
            assert(s@.take(i as int + 1).last() == s@[i as int]);
        }
        if next > u32::MAX as u64 {
            proof {
                if spec_all_digits(s@) {
                    lemma_digits_val_prefix_le(s@, i as int + 1);
                    assert(spec_digits_val(s@) >= spec_digits_val(s@.take(i as int + 1)));
                }
            }
            return None;
        }
        acc = next;
        i += 1;
    }
    proof {
        assert(s@.take(n as int) =~= s@);
    }
    Some(acc as u32)
}

/// The index of the first occurrence of a character; the string's length
/// when it does not occur.
pub open spec fn spec_index_of(s: Seq<char>, c: char) -> int
    decreases s.len(),
{
    if s.len() == 0 {
        0
    } else if s[0] == c {
        0
    } else {
        1 + spec_index_of(s.skip(1), c)
    }
}

/// The first occurrence is in bounds, holds the character, and nothing
/// before it does.
pub proof fn lemma_index_of(s: Seq<char>, c: char)
    ensures
        0 <= spec_index_of(s, c) <= s.len(),
        spec_index_of(s, c) < s.len() ==> s[spec_index_of(s, c)] == c,
        forall|j: int| 0 <= j < spec_index_of(s, c) ==> s[j] != c,
    decreases s.len(),
{
    if s.len() > 0 && s[0] != c {
        lemma_index_of(s.skip(1), c);
        let k = spec_index_of(s.skip(1), c);
        if k < s.skip(1).len() {
            assert(s[k + 1] == s.skip(1)[k]);
        }
        assert forall|j: int| 0 <= j < spec_index_of(s, c) implies s[j] != c by {
            if j > 0 {
                assert(s.skip(1)[j - 1] != c);
                assert(s[j] == s.skip(1)[j - 1]);
            }
        }
    }
}

/// Finds the first occurrence of a character, or the character count when
/// it does not occur.
#[verifier::loop_isolation(false)]
pub fn index_of_char(s: &str, c: char) -> (r: usize)
    ensures
        r as int == spec_index_of(s@, c),
{
    let n = s.unicode_len();
    let mut i: usize = 0;
    proof {
        assert(s@.skip(0) =~= s@);
    }
    while i < n
        invariant
            i <= n,
            n == s@.len(),
            spec_index_of(s@, c) == i + spec_index_of(s@.skip(i as int), c),
            forall|j: int| 0 <= j < i ==> s@[j] != c,
        decreases n - i,
    {
        let ch = s.get_char(i);
        proof {
            assert(s@.skip(i as int)[0] == s@[i as int]);
        }
        if ch == c {
            return i;
        }
        proof {
            assert(s@.skip(i as int).skip(1) =~= s@.skip(i as int + 1));
        }
        i += 1;
    }
    proof {
        assert(s@.skip(n as int) =~= Seq::<char>::empty());
    }
    n
}

/// The text before the first dot.
pub open spec fn spec_major_part(s: Seq<char>) -> Seq<char> {
    s.take(spec_index_of(s, '.'))
}

/// The text after the first dot.
pub open spec fn spec_after_dot(s: Seq<char>) -> Seq<char> {
    s.skip(spec_index_of(s, '.') + 1)
}

/// The text between the first dot and the second (or the end).
pub open spec fn spec_minor_part(s: Seq<char>) -> Seq<char> {
    spec_after_dot(s).take(spec_index_of(spec_after_dot(s), '.'))
}

/// Whether a version string yields a major and a minor number: it has at
/// least two dot-separated parts and the first two parse as 32-bit
/// numbers.
pub open spec fn spec_has_major_minor(s: Seq<char>) -> bool {
    spec_index_of(s, '.') < s.len() && spec_parseable_u32(spec_major_part(s)) && spec_parseable_u32(
        spec_minor_part(s),
    )
}

/// Extracts the major and minor numbers of a dot-separated version string
/// such as a release number. Succeeds exactly when the string has at least
/// two parts and the first two are digit strings in 32-bit range.
pub fn parse_major_minor(s: &str) -> (r: Option<(u32, u32)>)
    ensures
        r is Some <==> spec_has_major_minor(s@),
        r matches Some(p) ==> p.0 as int == spec_digits_val(spec_major_part(s@)) && p.1 as int
            == spec_digits_val(spec_minor_part(s@)),
{
    let n = s.unicode_len();
    let d1 = index_of_char(s, '.');
    proof {
        lemma_index_of(s@, '.');
    }
    if d1 == n {
        return None;
    }
    let major_str = s.substring_char(0, d1);
    proof {
        assert(major_str@ =~= spec_major_part(s@));
    }
    let rest = s.substring_char(d1 + 1, n);
    proof {
        assert(rest@ =~= spec_after_dot(s@));
    }
    let d2 = index_of_char(rest, '.');
    proof {
        lemma_index_of(rest@, '.');
    }
    let minor_str = rest.substring_char(0, d2);
    proof {
        assert(minor_str@ =~= spec_minor_part(s@));
    }
    match parse_u32(major_str) {
        Some(major) => match parse_u32(minor_str) {
            Some(minor) => Some((major, minor)),
            None => None,
        },
        None => None,
    }
}

/// Whether a Go release is recent enough: any major above 1, or 1.20 and
/// later.
pub fn go_version_supported(major: u32, minor: u32) -> (r: bool)
    ensures
        r == (major > 1 || (major == 1 && minor >= 20)),
{
    major > 1 || (major == 1 && minor >= 20)
}

/// Whether a Python release is the supported one: exactly 3.10.
pub fn python_version_supported(major: u32, minor: u32) -> (r: bool)
    ensures
        r == (major == 3 && minor == 10),
{
    major == 3 && minor == 10
}

/// The status a Node.js release earns from its major version: outdated
/// below 16, aging below 18, fine from 18 on.
pub fn nodejs_status_for_major(major: u32) -> (r: CheckStatus)
    ensures
        major < 18 ==> r == CheckStatus::Warning,
        major >= 18 ==> r == CheckStatus::Okay,
{
    if major < 18 {
        CheckStatus::Warning
    } else {
        CheckStatus::Okay
    }
}

/// The overall status of the C++ check: fine with both the build tool and
/// a compiler, an error with neither, a warning in between.
pub fn cpp_overall_status(tgn_installed: bool, has_compiler: bool) -> (r: CheckStatus)
    ensures
        tgn_installed && has_compiler ==> r == CheckStatus::Okay,
        !tgn_installed && !has_compiler ==> r == CheckStatus::Error,
        (tgn_installed != has_compiler) ==> r == CheckStatus::Warning,
{
    if tgn_installed && has_compiler {
        CheckStatus::Okay
    } else if !tgn_installed && !has_compiler {
        CheckStatus::Error
    } else {
        CheckStatus::Warning
    }
}

/// The overall status of the Node.js check: with both tools, fine unless
/// the runtime itself carries a warning; with one tool, a warning; with
/// neither, an error.
pub fn nodejs_overall_status(has_nodejs: bool, has_npm: bool, node_status: CheckStatus) -> (r:
    CheckStatus)
    ensures
        has_nodejs && has_npm && node_status == CheckStatus::Warning ==> r == CheckStatus::Warning,
        has_nodejs && has_npm && node_status != CheckStatus::Warning ==> r == CheckStatus::Okay,
        (has_nodejs != has_npm) ==> r == CheckStatus::Warning,
        !has_nodejs && !has_npm ==> r == CheckStatus::Error,
{
    if has_nodejs && has_npm {
        if matches!(node_status, CheckStatus::Warning) {
            CheckStatus::Warning
        } else {
            CheckStatus::Okay
        }
    } else if has_nodejs || has_npm {
        CheckStatus::Warning
    } else {
        CheckStatus::Error
    }
}

/// The friendly name of an operating system identifier.
pub open spec fn spec_os_name(os: Seq<char>) -> Seq<char> {
    if os == "linux"@ {
        "Linux"@
    } else if os == "macos"@ {
        "macOS"@
    } else if os == "windows"@ {
        "Windows"@
    } else {
        os
    }
}

/// The common name of an architecture identifier.
pub open spec fn spec_arch_name(arch: Seq<char>) -> Seq<char> {
    if arch == "x86_64"@ {
        "x64"@
    } else if arch == "aarch64"@ {
        "arm64"@
    } else {
        arch
    }
}

/// Whether the platform is supported: Linux or macOS, on x86-64 or
/// 64-bit Arm.
pub open spec fn spec_os_supported(os: Seq<char>, arch: Seq<char>) -> bool {
    (os == "linux"@ || os == "macos"@) && (arch == "x86_64"@ || arch == "aarch64"@)
}

/// Evaluates the operating-system check from the platform identifiers: a
/// supported platform passes with no suggestions; Windows earns a warning
/// that support is under way; anything else fails with the platform named
/// in the suggestion.
pub fn evaluate_os(os: &str, arch: &str) -> (r: OsCheckResult)
    ensures
        r.os_name@ == spec_os_name(os@),
        r.arch@ == spec_arch_name(arch@),
        r.is_supported == spec_os_supported(os@, arch@),
        spec_os_supported(os@, arch@) ==> r.status == CheckStatus::Okay
            && r.suggestions.deep_view() == Seq::<SuggestionView>::empty(),
        !spec_os_supported(os@, arch@) && os@ == "windows"@ ==> r.status == CheckStatus::Warning
            && r.suggestions.deep_view() == seq![
            SuggestionView {
                issue: "Windows support is under development"@,
                command: None,
                help_text: Some("Coming soon"@),
            },
        ],
        !spec_os_supported(os@, arch@) && os@ != "windows"@ ==> r.status == CheckStatus::Error
            && r.suggestions.deep_view() == seq![
            SuggestionView {
                issue: "Platform "@ + spec_os_name(os@) + " "@ + spec_arch_name(arch@)
                    + " is not supported"@,
                command: None,
                help_text: Some("Supported platforms: Linux x64/arm64, macOS x64/arm64"@),
            },
        ],
{
    let os_name: &str = if str_eq(os, "linux") {
        "Linux"
    } else if str_eq(os, "macos") {
        "macOS"
    } else if str_eq(os, "windows") {
        "Windows"
    } else {
        os
    };
    let arch_name: &str = if str_eq(arch, "x86_64") {
        "x64"
    } else if str_eq(arch, "aarch64") {
        "arm64"
    } else {
        arch
    };
    let is_supported = (str_eq(os, "linux") || str_eq(os, "macos")) && (str_eq(arch, "x86_64")
        || str_eq(arch, "aarch64"));
    let mut suggestions: Vec<Suggestion> = Vec::new();
    let status: CheckStatus;
    if is_supported {
        status = CheckStatus::Okay;
    } else if str_eq(os, "windows") {
        status = CheckStatus::Warning;
        suggestions.push(
            Suggestion {
                issue: String::from_str("Windows support is under development"),
                command: None,
                help_text: Some(String::from_str("Coming soon")),
            },
        );
        proof {
            assert(suggestions.deep_view() =~= seq![
                SuggestionView {
                    issue: "Windows support is under development"@,
                    command: None,
                    help_text: Some("Coming soon"@),
                },
            ]);
        }
    } else {
        status = CheckStatus::Error;
        let mut issue = String::from_str("Platform ");
        issue.append(os_name);
        issue.append(" ");
        issue.append(arch_name);
        issue.append(" is not supported");
        suggestions.push(
            Suggestion {
                issue,
                command: None,
                help_text: Some(
                    String::from_str("Supported platforms: Linux x64/arm64, macOS x64/arm64"),
                ),
            },
        );
        proof {
            assert(suggestions.deep_view() =~= seq![
                SuggestionView {
                    issue: "Platform "@ + spec_os_name(os@) + " "@ + spec_arch_name(arch@)
                        + " is not supported"@,
                    command: None,
                    help_text: Some("Supported platforms: Linux x64/arm64, macOS x64/arm64"@),
                },
            ]);
        }
    }
    OsCheckResult {
        os_name: os_name.to_owned(),
        arch: arch_name.to_owned(),
        is_supported,
        status,
        suggestions,
    }
}

/// The summary line of the operating-system check.
pub open spec fn spec_os_summary(status: CheckStatus) -> Seq<char> {
    match status {
        CheckStatus::Okay => "   \u{2705} Operating System: Supported"@,
        CheckStatus::Warning => "   \u{26a0}\u{fe0f}  Operating System: Not fully supported"@,
        _ => "   \u{274c} Operating System: Not supported"@,
    }
}

/// The summary line of the Python check.
pub open spec fn spec_python_summary(status: CheckStatus) -> Seq<char> {
    match status {
        CheckStatus::Okay => "   \u{2705} Python:   Ready"@,
        CheckStatus::Warning => "   \u{26a0}\u{fe0f}  Python:   Version mismatch"@,
        _ => "   \u{274c} Python:   Not ready"@,
    }
}

/// The summary line of the Go check.
pub open spec fn spec_go_summary(status: CheckStatus) -> Seq<char> {
    match status {
        CheckStatus::Okay => "   \u{2705} Go:       Ready"@,
        CheckStatus::Warning => "   \u{26a0}\u{fe0f}  Go:       Version too old"@,
        _ => "   \u{274c} Go:       Not ready"@,
    }
}

/// The summary line of the Node.js check.
pub open spec fn spec_nodejs_summary(
    status: CheckStatus,
    has_nodejs: bool,
    has_npm: bool,
) -> Seq<char> {
    match status {
        CheckStatus::Okay => "   \u{2705} Node.js:  Ready"@,
        CheckStatus::Warning => if has_nodejs && !has_npm {
            "   \u{26a0}\u{fe0f}  Node.js:  Partially ready (npm missing)"@
        } else {
            "   \u{26a0}\u{fe0f}  Node.js:  Outdated version"@
        },
        _ => "   \u{274c} Node.js:  Not ready"@,
    }
}

/// The summary line of the C++ check.
pub open spec fn spec_cpp_summary(status: CheckStatus) -> Seq<char> {
    match status {
        CheckStatus::Okay => "   \u{2705} C++:      Ready"@,
        CheckStatus::Warning => "   \u{26a0}\u{fe0f}  C++:      Partially ready"@,
        _ => "   \u{274c} C++:      Not ready"@,
    }
}

/// The five summary lines of a full environment check, in the order
/// operating system, Python, Go, Node.js, C++.
pub open spec fn spec_summary_lines(r: EnvCheckResult) -> Seq<Seq<char>> {
    seq![
        spec_os_summary(r.os.status),
        spec_python_summary(r.python.status),
        spec_go_summary(r.go.status),
        spec_nodejs_summary(r.nodejs.status, r.nodejs.has_nodejs, r.nodejs.has_npm),
        spec_cpp_summary(r.cpp.status),
    ]
}

/// The closing lines of a full environment check: everything ready, the
/// core ready but C++ wanting, or some environment not ready.
pub open spec fn spec_verdict_lines(r: EnvCheckResult) -> Seq<Seq<char>> {
    let core_ready = r.os.status == CheckStatus::Okay && r.python.status == CheckStatus::Okay
        && r.go.status == CheckStatus::Okay && r.nodejs.status == CheckStatus::Okay;
    if core_ready && r.cpp.status == CheckStatus::Okay {
        seq!["\u{2728} All development environments are ready!"@]
    } else if core_ready {
        seq![
            "\u{2728} Core development environments are ready!"@,
            "   You can start developing Python/Go/TypeScript extensions"@,
            Seq::<char>::empty(),
            "\u{26a0}\u{fe0f}  C++ environment needs additional setup for C++ extension development"@,
        ]
    } else {
        seq![
            "\u{274c} Some development environments are not ready!"@,
            Seq::<char>::empty(),
            "\u{1f4a1} Installation guide:"@,
            "   https://theten.ai/docs/getting-started/quick-start"@,
        ]
    }
}

/// The five summary lines of a full environment check.
pub fn summary_lines(result: &EnvCheckResult) -> (r: Vec<String>)
    ensures
        r.deep_view() == spec_summary_lines(*result),
{
    let mut lines: Vec<String> = Vec::new();
    match result.os.status {
        CheckStatus::Okay => lines.push(String::from_str("   \u{2705} Operating System: Supported")),
        CheckStatus::Warning => lines.push(
            String::from_str("   \u{26a0}\u{fe0f}  Operating System: Not fully supported"),
        ),
        _ => lines.push(String::from_str("   \u{274c} Operating System: Not supported")),
    }
    match result.python.status {
        CheckStatus::Okay => lines.push(String::from_str("   \u{2705} Python:   Ready")),
        CheckStatus::Warning => lines.push(
            String::from_str("   \u{26a0}\u{fe0f}  Python:   Version mismatch"),
        ),
        _ => lines.push(String::from_str("   \u{274c} Python:   Not ready")),
    }
    match result.go.status {
        CheckStatus::Okay => lines.push(String::from_str("   \u{2705} Go:       Ready")),
        CheckStatus::Warning => lines.push(
            String::from_str("   \u{26a0}\u{fe0f}  Go:       Version too old"),
        ),
        _ => lines.push(String::from_str("   \u{274c} Go:       Not ready")),
    }
    match result.nodejs.status {
        CheckStatus::Okay => lines.push(String::from_str("   \u{2705} Node.js:  Ready")),
        CheckStatus::Warning => {
            if result.nodejs.has_nodejs && !result.nodejs.has_npm {
                lines.push(
                    String::from_str("   \u{26a0}\u{fe0f}  Node.js:  Partially ready (npm missing)"),
                );
            } else {
                lines.push(String::from_str("   \u{26a0}\u{fe0f}  Node.js:  Outdated version"));
            }
        },
        _ => lines.push(String::from_str("   \u{274c} Node.js:  Not ready")),
    }
    match result.cpp.status {
        CheckStatus::Okay => lines.push(String::from_str("   \u{2705} C++:      Ready")),
        CheckStatus::Warning => lines.push(
            String::from_str("   \u{26a0}\u{fe0f}  C++:      Partially ready"),
        ),
        _ => lines.push(String::from_str("   \u{274c} C++:      Not ready")),
    }
    proof {
        assert(lines.deep_view() =~= spec_summary_lines(*result));
    }
    lines
}

/// The closing lines of a full environment check.
pub fn verdict_lines(result: &EnvCheckResult) -> (r: Vec<String>)
    ensures
        r.deep_view() == spec_verdict_lines(*result),
{
    let os_ok = matches!(result.os.status, CheckStatus::Okay);
    let python_ok = matches!(result.python.status, CheckStatus::Okay);
    let go_ok = matches!(result.go.status, CheckStatus::Okay);
    let nodejs_ok = matches!(result.nodejs.status, CheckStatus::Okay);
    let cpp_ok = matches!(result.cpp.status, CheckStatus::Okay);
    let all_core_ready = os_ok && python_ok && go_ok && nodejs_ok;
    let mut lines: Vec<String> = Vec::new();
    if all_core_ready && cpp_ok {
        lines.push(String::from_str("\u{2728} All development environments are ready!"));
    } else if all_core_ready {
        lines.push(String::from_str("\u{2728} Core development environments are ready!"));
        lines.push(String::from_str("   You can start developing Python/Go/TypeScript extensions"));
        lines.push(String::new());
        lines.push(
            String::from_str(
                "\u{26a0}\u{fe0f}  C++ environment needs additional setup for C++ extension development",
            ),
        );
    } else {
        lines.push(String::from_str("\u{274c} Some development environments are not ready!"));
        lines.push(String::new());
        lines.push(String::from_str("\u{1f4a1} Installation guide:"));
        lines.push(String::from_str("   https://theten.ai/docs/getting-started/quick-start"));
    }
    proof {
        assert(lines.deep_view() =~= spec_verdict_lines(*result));
    }
    lines
}

} // verus!
