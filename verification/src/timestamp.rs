//! The timestamp token: a single formatted string standing for "now",
//! produced once per run by the embedding binary and reused wherever the
//! `{datetime}` placeholder appears, as well as for default filename
//! synthesis.
//!
//! This module checks that such a token is safe to embed in a filename and
//! synthesizes the default log filename from it.

use vstd::prelude::*;

verus! {

/// A character that may appear in a filesystem-safe timestamp token:
/// digits, letters, hyphens, underscores, `+` and `.`.
pub open spec fn is_safe_char(c: char) -> bool {
    ||| ('0' <= c && c <= '9')
    ||| ('a' <= c && c <= 'z')
    ||| ('A' <= c && c <= 'Z')
    ||| c == '-'
    ||| c == '_'
    ||| c == '+'
    ||| c == '.'
}

/// A timestamp token is filesystem safe when every character of it may
/// appear in a filename on the target platform: in particular it contains
/// no path separator and no colon.
pub open spec fn is_filesystem_safe_spec(s: Seq<char>) -> bool {
    forall|i: int| 0 <= i < s.len() ==> is_safe_char(#[trigger] s[i])
}

/// Checks that a timestamp token only holds characters that are legal in
/// filenames: digits, letters, hyphens, underscores, `+` and `.`.
pub fn is_filesystem_safe(s: &str) -> (r: bool)
    ensures
        r == is_filesystem_safe_spec(s@),
{
    let len = s.unicode_len();
    let mut i: usize = 0;
    while i < len
        invariant
            len == s@.len(),
            i <= len,
            forall|j: int| 0 <= j < i ==> is_safe_char(#[trigger] s@[j]),
        decreases len - i,
    {
        let c = s.get_char(i);
        let safe = ('0' <= c && c <= '9') || ('a' <= c && c <= 'z') || ('A' <= c && c <= 'Z')
            || c == '-' || c == '_' || c == '+' || c == '.';
        if !safe {
            return false;
        }
        i = i + 1;
    }
    true
}

/// The default log filename for a given timestamp token,
/// `aitios-log-<timestamp>.log`.
pub open spec fn default_log_filename(datetime: Seq<char>) -> Seq<char> {
    "aitios-log-"@ + datetime + ".log"@
}

/// Synthesize a default filename if the log flag is passed without an actual
/// filename, following the pattern `aitios-log-<timestamp>.log`.
pub fn synthesize_datetime_log_filename(datetime: &str) -> (r: String)
    ensures
        r@ == default_log_filename(datetime@),
{
    let mut r = String::new();
    r.append("aitios-log-");
    r.append(datetime);
    r.append(".log");
    r
}

} // verus!
