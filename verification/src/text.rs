//! Small text helpers shared by the wire format and the front ends.

use vstd::prelude::*;
use vstd::utf8::*;

verus! {

/// The ASCII digit that stands for `d` (which is below ten).
pub open spec fn digit_char(d: nat) -> char {
    (48 + d) as char
}

/// The decimal notation of `n`, without leading zeros (so `0` is `"0"`).
pub open spec fn decimal(n: nat) -> Seq<char>
    decreases n,
{
    if n < 10 {
        seq![digit_char(n)]
    } else {
        decimal(n / 10) + seq![digit_char(n % 10)]
    }
}

/// A one-character string holding the digit `d`.
fn digit_text(d: u8) -> (res: String)
    requires
        d < 10,
    ensures
        res@ == seq![digit_char(d as nat)],
{
    let digits = "0123456789";
    proof {
        reveal_strlit("0123456789");
    }
    let one = digits.substring_char(d as usize, d as usize + 1);
    assert(one@ =~= seq![digit_char(d as nat)]);
    String::from_str(one)
}

/// The decimal notation of a byte, as `format!("{}", n)` writes it.
pub fn decimal_text(n: u8) -> (res: String)
    ensures
        res@ == decimal(n as nat),
{
    let mut res = String::new();
    if n >= 100 {
        let d = digit_text(n / 100);
        res.append(d.as_str());
    }
    if n >= 10 {
        let d = digit_text((n / 10) % 10);
        res.append(d.as_str());
    }
    let d = digit_text(n % 10);
    res.append(d.as_str());
    proof {
        let m = n as nat;
        if m >= 100 {
            assert(decimal(m / 100) == seq![digit_char(m / 100)]);
            assert(decimal(m / 10) == decimal((m / 10) / 10) + seq![digit_char((m / 10) % 10)]);
            assert((m / 10) / 10 == m / 100);
        } else if m >= 10 {
            assert(decimal(m / 10) == seq![digit_char(m / 10)]);
        }
        assert(res@ =~= decimal(m));
    }
    res
}

/// Whether two texts are the same.
pub fn same_text(a: &str, b: &str) -> (res: bool)
    ensures
        res == (a@ == b@),
{
    String::from_str(a) == String::from_str(b)
}

/// Whether `needle` occurs in `text` (the empty text occurs in every text).
pub open spec fn text_contains(text: Seq<char>, needle: Seq<char>) -> bool {
    exists|i: int|
        0 <= i && i + needle.len() <= text.len() && #[trigger] text.subrange(i, i + needle.len())
            == needle
}

/// Whether `needle` occurs in `text`.
pub fn contains_text(text: &str, needle: &str) -> (res: bool)
    ensures
        res == text_contains(text@, needle@),
{
    let n = text.unicode_len();
    let m = needle.unicode_len();
    if m == 0 {
        assert(text@.subrange(0, 0 + needle@.len() as int) =~= needle@);
        return true;
    }
    if m > n {
        assert forall|i: int| 0 <= i && i + m <= n implies #[trigger] text@.subrange(i, i + m)
            != needle@ by {}
        return false;
    }
    let mut i: usize = 0;
    while i <= n - m
        invariant
            n == text@.len(),
            m == needle@.len(),
            1 <= m <= n,
            i <= n - m + 1,
            forall|j: int| 0 <= j < i ==> #[trigger] text@.subrange(j, j + m) != needle@,
        decreases n - m + 1 - i,
    {
        let window = text.substring_char(i, i + m);
        if same_text(window, needle) {
            assert(text@.subrange(i as int, i + m) == needle@);
            return true;
        }
        i = i + 1;
    }
    assert forall|j: int| 0 <= j && j + m <= n implies #[trigger] text@.subrange(j, j + m)
        != needle@ by {
        assert(j < i);
    }
    false
}

/// The message of the error that `std::str::from_utf8` reports on `bytes`.
pub uninterp spec fn utf8_error_text(bytes: Seq<u8>) -> Seq<char>;

/// Reads `bytes` as UTF-8 text.
///
/// Calls `std::str::from_utf8`. Trusted: it succeeds exactly on valid UTF-8
/// (as vstd's `valid_utf8` defines it), with the decoded characters; on other
/// bytes the error's message is the named one.
#[verifier::external_body]
pub(crate) fn utf8_text(bytes: &[u8]) -> (res: Result<String, String>)
    ensures
        res is Ok <==> valid_utf8(bytes@),
        res matches Ok(s) ==> s@ == decode_utf8(bytes@),
        res matches Err(m) ==> m@ == utf8_error_text(bytes@),
{
    match std::str::from_utf8(bytes) {
        Ok(s) => Ok(s.to_string()),
        Err(e) => Err(e.to_string()),
    }
}

} // verus!
