//! Text handling: line termination and the free-text reading of raw bytes.

use vstd::prelude::*;
use vstd::string::{StrSliceExecFns, StringExecFns};

verus! {

/// `s` with a line feed appended, unless it already ends with one.
pub open spec fn with_newline(s: Seq<char>) -> Seq<char> {
    if s.len() > 0 && s.last() == '\n' {
        s
    } else {
        s.push('\n')
    }
}

/// Returns `input` terminated by a line feed, adding one only where it is missing.
pub fn ensure_newline(input: String) -> (r: String)
    ensures
        r@ == with_newline(input@),
{
    let ghost before = input@;
    let mut input = input;
    let n = input.as_str().unicode_len();
    if n == 0 || input.as_str().get_char(n - 1) != '\n' {
        proof {
            reveal_strlit("\n");
        }
        input.append("\n");
        assert(input@ =~= with_newline(before));
    }
    input
}

} // verus!

verus! {

/// What `String::from_utf8_lossy` makes of a byte sequence.
pub uninterp spec fn lossy_text(b: Seq<u8>) -> Seq<char>;

/// What `str::trim` leaves of a text.
pub uninterp spec fn trimmed(s: Seq<char>) -> Seq<char>;

/// Relies on `String::from_utf8_lossy`: the bytes read as UTF-8, invalid
/// sequences replaced; no bytes give no text.
#[verifier::external_body]
fn utf8_lossy(b: &[u8]) -> (r: String)
    ensures
        r@ == lossy_text(b@),
        b@.len() == 0 ==> r@.len() == 0,
{
    String::from_utf8_lossy(b).into_owned()
}

/// Relies on `str::trim`: the text without leading and trailing white space,
/// so never longer than it.
#[verifier::external_body]
fn trim(s: &str) -> (r: String)
    ensures
        r@ == trimmed(s@),
        r@.len() <= s@.len(),
{
    s.trim().to_string()
}

/// The text that a frame which is not an envelope stands for: its bytes read
/// as UTF-8 (lossily), with surrounding white space removed.
pub open spec fn weak_text_of(b: Seq<u8>) -> Seq<char> {
    trimmed(lossy_text(b))
}

/// Reads raw bytes as free text: lossy UTF-8 decoding, then trimming.
pub fn weak_text(bytes: &[u8]) -> (r: String)
    ensures
        r@ == weak_text_of(bytes@),
        bytes@.len() == 0 ==> r@.len() == 0,
{
    let decoded = utf8_lossy(bytes);
    trim(decoded.as_str())
}

} // verus!
