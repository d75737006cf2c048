//! Severity levels for the shutdown report, and parsing of the external
//! setting that selects the minimum severity to report.

use vstd::prelude::*;

verus! {

/// A severity level for a diagnostic message.
#[derive(Clone, Copy, Debug, PartialEq, Eq, Structural)]
pub enum Severity {
    Debug,
    Info,
    Warn,
    Error,
}

/// The character's code with an upper-case ASCII letter folded to lower case.
pub open spec fn lower_code(c: char) -> u32 {
    if 65 <= c as u32 && c as u32 <= 90 {
        (c as u32 + 32) as u32
    } else {
        c as u32
    }
}

/// Whether two character sequences agree up to ASCII case.
pub open spec fn eq_ignore_ascii_case(a: Seq<char>, b: Seq<char>) -> bool {
    a.len() == b.len() && forall|i: int| 0 <= i < a.len() ==> lower_code(a[i]) == lower_code(b[i])
}

fn lower_code_exec(c: char) -> (r: u32)
    ensures
        r == lower_code(c),
{
    let u = c as u32;
    if 65 <= u && u <= 90 {
        u + 32
    } else {
        u
    }
}

fn str_eq_ignore_ascii_case(a: &str, b: &str) -> (r: bool)
    ensures
        r == eq_ignore_ascii_case(a@, b@),
{
    let a_len = a.unicode_len();
    let b_len = b.unicode_len();
    if a_len != b_len {
        return false;
    }
    let mut i: usize = 0;
    while i < a_len
        invariant
            i <= a_len,
            a_len == a@.len(),
            b_len == b@.len(),
            a_len == b_len,
            forall|j: int| 0 <= j < i ==> lower_code(a@[j]) == lower_code(b@[j]),
        decreases a_len - i,
    {
        let ca = a.get_char(i);
        let cb = b.get_char(i);
        if lower_code_exec(ca) != lower_code_exec(cb) {
            return false;
        }
        i = i + 1;
    }
    true
}

/// The severity that an external setting selects: `debug`, `warn` and
/// `error` name their levels, compared without regard to ASCII case;
/// anything else, the empty string included, selects `Info`.
pub open spec fn parse_severity_spec(s: Seq<char>) -> Severity {
    if eq_ignore_ascii_case(s, "debug"@) {
        Severity::Debug
    } else if eq_ignore_ascii_case(s, "warn"@) {
        Severity::Warn
    } else if eq_ignore_ascii_case(s, "error"@) {
        Severity::Error
    } else {
        Severity::Info
    }
}

/// Parses the external minimum-severity setting.
pub fn parse_severity(s: &str) -> (r: Severity)
    ensures
        r == parse_severity_spec(s@),
{
    if str_eq_ignore_ascii_case(s, "debug") {
        Severity::Debug
    } else if str_eq_ignore_ascii_case(s, "warn") {
        Severity::Warn
    } else if str_eq_ignore_ascii_case(s, "error") {
        Severity::Error
    } else {
        Severity::Info
    }
}

} // verus!
