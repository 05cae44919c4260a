//! `oml doctor`: reading what the `codex` command printed, and the
//! report built from it.

use crate::format::decimal;
use crate::text::{chars_of, chars_have_prefix_at, owned, push_str, trim, trim_str};
use crate::wrapping::{lines_of, rust_lines};
use vstd::prelude::*;

verus! {

/// The outcome of one check: whether it passed, and what was found.
#[derive(Debug)]
pub struct CheckResult {
    pub available: bool,
    pub detail: String,
}

impl CheckResult {
    /// A passed check.
    pub fn ok(detail: String) -> (r: CheckResult)
        ensures
            r.available,
            r.detail == detail,
    {
        CheckResult { available: true, detail }
    }

    /// A failed check.
    pub fn failed(detail: String) -> (r: CheckResult)
        ensures
            !r.available,
            r.detail == detail,
    {
        CheckResult { available: false, detail }
    }
}

/// The text `String::from_utf8_lossy` makes of some bytes.
pub uninterp spec fn utf8_lossy(bytes: Seq<u8>) -> Seq<char>;

/// `String::from_utf8_lossy`: the bytes read as UTF-8, with each invalid
/// sequence replaced by U+FFFD.  The text is named, not stated.
#[verifier::external_body]
fn from_utf8_lossy(bytes: &[u8]) -> (s: String)
    ensures
        s@ == utf8_lossy(bytes@),
{
    String::from_utf8_lossy(bytes).into_owned()
}

/// The first line of a text, if it has one.
pub open spec fn first_line_spec(text: Seq<char>) -> Option<Seq<char>> {
    let lines = rust_lines(text);
    if lines.len() > 0 {
        Some(lines[0])
    } else {
        None
    }
}

/// The first line of a text.
fn first_line(text: &str) -> (r: Option<String>)
    ensures
        match first_line_spec(text@) {
            Some(l) => r matches Some(s) && s@ == l,
            None => r is None,
        },
{
    let lines = lines_of(text);
    if lines.len() > 0 {
        assert(crate::wrapping::strings_view(lines@)[0] == lines@[0]@);
        Some(lines[0].clone())
    } else {
        None
    }
}

/// The decimal form of a signed number.
pub open spec fn signed_decimal(n: int) -> Seq<char> {
    if n < 0 {
        seq!['-'] + decimal((-n) as nat)
    } else {
        decimal(n as nat)
    }
}

/// The decimal form of an `i32`.
pub fn i32_to_decimal(n: i32) -> (s: String)
    ensures
        s@ == signed_decimal(n as int),
{
    let wide = n as i64;
    if wide < 0 {
        let mut s = owned("-");
        let digits = crate::format::u64_to_decimal((-wide) as u64);
        proof {
            reveal_strlit("-");
        }
        push_str(&mut s, digits.as_str());
        s
    } else {
        crate::format::u64_to_decimal(wide as u64)
    }
}

/// Why a command failed: its exit code (or that a signal ended it) and
/// the first line of what it wrote to stderr.
pub open spec fn failure_detail_spec(code: Option<i32>, stderr: Seq<u8>) -> Seq<char> {
    let message = match first_line_spec(utf8_lossy(stderr)) {
        Some(l) => l,
        None => "no stderr"@,
    };
    match code {
        Some(c) => "exit "@ + signed_decimal(c as int) + ": "@ + message,
        None => "terminated by signal: "@ + message,
    }
}

/// Why a command failed.
pub fn command_failure_detail(code: Option<i32>, stderr: &[u8]) -> (r: String)
    ensures
        r@ == failure_detail_spec(code, stderr@),
{
    let text = from_utf8_lossy(stderr);
    let message = match first_line(text.as_str()) {
        Some(l) => l,
        None => owned("no stderr"),
    };
    match code {
        Some(c) => {
            let mut r = owned("exit ");
            let n = i32_to_decimal(c);
            push_str(&mut r, n.as_str());
            push_str(&mut r, ": ");
            push_str(&mut r, message.as_str());
            r
        },
        None => {
            let mut r = owned("terminated by signal: ");
            push_str(&mut r, message.as_str());
            r
        },
    }
}

/// The first line a command printed: on stdout, else on stderr.
pub fn first_output_line(stdout: &[u8], stderr: &[u8]) -> (r: Option<String>)
    ensures
        match first_line_spec(utf8_lossy(stdout@)) {
            Some(l) => r matches Some(s) && s@ == l,
            None => match first_line_spec(utf8_lossy(stderr@)) {
                Some(l) => r matches Some(s) && s@ == l,
                None => r is None,
            },
        },
{
    let out = from_utf8_lossy(stdout);
    match first_line(out.as_str()) {
        Some(l) => Some(l),
        None => {
            let err = from_utf8_lossy(stderr);
            first_line(err.as_str())
        },
    }
}

/// The check of `codex --version` from what the command did: the first
/// line it printed when it succeeded (a note when it printed nothing), the
/// failure otherwise.
pub fn version_check(success: bool, code: Option<i32>, stdout: &[u8], stderr: &[u8]) -> (r:
    CheckResult)
    ensures
        r.available == success,
        success ==> r.detail@ == match first_line_spec(utf8_lossy(stdout@)) {
            Some(l) => l,
            None => match first_line_spec(utf8_lossy(stderr@)) {
                Some(l) => l,
                None => "version output empty"@,
            },
        },
        !success ==> r.detail@ == failure_detail_spec(code, stderr@),
{
    if success {
        let version = match first_output_line(stdout, stderr) {
            Some(v) => v,
            None => owned("version output empty"),
        };
        CheckResult::ok(version)
    } else {
        CheckResult::failed(command_failure_detail(code, stderr))
    }
}

/// The check of a `--help` call from what the command did: its whole
/// output when it succeeded, the failure otherwise.
pub fn help_check(success: bool, code: Option<i32>, stdout: &[u8], stderr: &[u8]) -> (r: CheckResult)
    ensures
        r.available == success,
        success ==> r.detail@ == utf8_lossy(stdout@),
        !success ==> r.detail@ == failure_detail_spec(code, stderr@),
{
    if success {
        CheckResult::ok(from_utf8_lossy(stdout))
    } else {
        CheckResult::failed(command_failure_detail(code, stderr))
    }
}

/// Whether `p` occurs in `s`.
pub open spec fn contains_seq(s: Seq<char>, p: Seq<char>) -> bool {
    exists|i: int| 0 <= i <= s.len() - p.len() && #[trigger] s.subrange(i, i + p.len()) == p
}

/// Whether `p` occurs in `s`.
pub fn contains_str(s: &str, p: &str) -> (b: bool)
    ensures
        b == contains_seq(s@, p@),
{
    let v = chars_of(s);
    let n = p.unicode_len();
    if n > v.len() {
        return false;
    }
    if n == 0 {
        assert(s@.subrange(0int, 0int + p@.len()) =~= p@);
        return true;
    }
    let mut i: usize = 0;
    while i <= v.len() - n
        invariant
            v@ == s@,
            n == p@.len(),
            1 <= n <= v@.len(),
            i <= v@.len() - n + 1,
            forall|j: int| 0 <= j < i ==> #[trigger] v@.subrange(j, j + n) != p@,
        decreases v.len() - n + 1 - i,
    {
        if chars_have_prefix_at(&v, i, p) {
            assert(s@.subrange(i as int, i + n) == p@);
            return true;
        }
        i = i + 1;
    }
    false
}

/// The transport `app-server --help` names.
pub fn transport_label(help_text: &str) -> (r: &'static str)
    ensures
        r@ == (if contains_seq(help_text@, "stdio://"@) {
            "stdio JSONL"@
        } else {
            "unknown"@
        }),
{
    if contains_str(help_text, "stdio://") {
        "stdio JSONL"
    } else {
        "unknown"
    }
}

/// The runner to use: the app server when every check passed, else exec
/// when it is there, else none.
pub fn recommended_runner(codex: bool, app_server: bool, schema: bool, exec: bool) -> (r: &'static str)
    ensures
        r@ == (if codex && app_server && schema && exec {
            "app-server"@
        } else if exec {
            "exec"@
        } else {
            "unavailable"@
        }),
{
    if codex && app_server && schema && exec {
        "app-server"
    } else if exec {
        "exec"
    } else {
        "unavailable"
    }
}

/// The lines the report prints for a check: its state, and its detail when
/// it failed.
pub fn check_lines(label: &str, result: &CheckResult) -> (r: Vec<String>)
    ensures
        r@.len() == (if result.available {
            1nat
        } else {
            2nat
        }),
        r@[0]@ == label@ + (if result.available {
            ": available"@
        } else {
            ": unavailable"@
        }),
        !result.available ==> r@[1]@ == label@ + " detail: "@ + result.detail@,
{
    let mut first = owned(label);
    push_str(
        &mut first,
        if result.available {
            ": available"
        } else {
            ": unavailable"
        },
    );
    let mut out = vec![first];
    if !result.available {
        let mut second = owned(label);
        push_str(&mut second, " detail: ");
        push_str(&mut second, result.detail.as_str());
        out.push(second);
    }
    out
}

/// What `git` printed, as `/diff` shows it: the trimmed output when it
/// succeeded (a note when empty), else the trimmed error output (else the
/// exit status).
pub fn git_output_text(success: bool, stdout: &[u8], stderr: &[u8], status: &str) -> (r: String)
    ensures
        success ==> r@ == (if trim(utf8_lossy(stdout@)).len() == 0 {
            "(no output)"@
        } else {
            trim(utf8_lossy(stdout@))
        }),
        !success ==> r@ == (if trim(utf8_lossy(stderr@)).len() == 0 {
            "git exited with "@ + status@
        } else {
            trim(utf8_lossy(stderr@))
        }),
{
    if success {
        let text = trim_str(from_utf8_lossy(stdout).as_str());
        if text.as_str().unicode_len() == 0 {
            owned("(no output)")
        } else {
            text
        }
    } else {
        let text = trim_str(from_utf8_lossy(stderr).as_str());
        if text.as_str().unicode_len() == 0 {
            let mut r = owned("git exited with ");
            push_str(&mut r, status);
            r
        } else {
            text
        }
    }
}

} // verus!
