//! Small text helpers shared by the whole library: string equality by
//! contents, the whitespace test behind prompt validation, and decimal
//! rendering of sizes.

use vstd::prelude::*;
use vstd::slice::slice_index_get;
use vstd::string::StringSliceAdditionalSpecFns;
use vstd::string::StrSliceExecFns;
use vstd::string::StringExecFns;

verus! {

/// Whether `c` has the Unicode `White_Space` property, exactly as
/// `char::is_whitespace` decides it; a fixed function of the character.
pub uninterp spec fn is_unicode_whitespace(c: char) -> bool;

/// Relies on char::is_whitespace: tests the Unicode `White_Space` property,
/// which depends on the character alone. The documentation lists the ASCII
/// space, tab, line feed and carriage return among the whitespace characters.
#[verifier::external_body]
fn char_is_whitespace(c: char) -> (r: bool)
    ensures
        r == is_unicode_whitespace(c),
        c == ' ' || c == '\t' || c == '\n' || c == '\r' ==> r,
{
    c.is_whitespace()
}

/// A string is blank when every character is whitespace; the empty string is
/// blank.
pub open spec fn all_whitespace(s: Seq<char>) -> bool {
    forall|i: int| 0 <= i < s.len() ==> is_unicode_whitespace(s[i])
}

/// Whether `s` trims to the empty string.
pub fn is_blank(s: &str) -> (r: bool)
    ensures
        r == all_whitespace(s@),
{
    let n = s.unicode_len();
    let mut i: usize = 0;
    while i < n
        invariant
            i <= n,
            n == s@.len(),
            forall|j: int| 0 <= j < i ==> is_unicode_whitespace(s@[j]),
        decreases n - i,
    {
        let c = s.get_char(i);
        if !char_is_whitespace(c) {
            return false;
        }
        i += 1;
    }
    true
}

/// The text without its leading whitespace.
pub open spec fn spec_trim_front(s: Seq<char>) -> Seq<char>
    decreases s.len(),
{
    if s.len() > 0 && is_unicode_whitespace(s[0]) {
        spec_trim_front(s.drop_first())
    } else {
        s
    }
}

/// The text without its leading and trailing whitespace.
pub open spec fn spec_trim(s: Seq<char>) -> Seq<char>
    decreases s.len(),
{
    if s.len() > 0 && is_unicode_whitespace(s.last()) {
        spec_trim(s.drop_last())
    } else {
        spec_trim_front(s)
    }
}

proof fn lemma_trim_front_skip(s: Seq<char>, k: int)
    requires
        0 <= k <= s.len(),
        forall|j: int| 0 <= j < k ==> is_unicode_whitespace(s[j]),
        k == s.len() || !is_unicode_whitespace(s[k]),
    ensures
        spec_trim_front(s) == s.skip(k),
    decreases k,
{
    if k > 0 {
        lemma_trim_front_skip(s.drop_first(), k - 1);
        assert(s.drop_first().skip(k - 1) =~= s.skip(k));
    } else {
        assert(s.skip(0) =~= s);
    }
}

proof fn lemma_trim_take(s: Seq<char>, e: int)
    requires
        0 <= e <= s.len(),
        forall|j: int| e <= j < s.len() ==> is_unicode_whitespace(s[j]),
        e == 0 || !is_unicode_whitespace(s[e - 1]),
    ensures
        spec_trim(s) == spec_trim_front(s.take(e)),
    decreases s.len(),
{
    if s.len() > e {
        assert(is_unicode_whitespace(s.last()));
        lemma_trim_take(s.drop_last(), e);
        assert(s.drop_last().take(e) =~= s.take(e));
    } else {
        assert(s.take(e) =~= s);
    }
}

/// Trims whitespace from both ends of `s`.
pub fn trim_str(s: &str) -> (r: String)
    ensures
        r@ == spec_trim(s@),
{
    let n = s.unicode_len();
    let mut e: usize = n;
    loop
        invariant
            e <= n,
            n == s@.len(),
            forall|j: int| e <= j < n ==> is_unicode_whitespace(s@[j]),
        ensures
            e <= n,
            forall|j: int| e <= j < n ==> is_unicode_whitespace(s@[j]),
            e == 0 || !is_unicode_whitespace(s@[e - 1]),
        decreases e,
    {
        if e == 0 {
            break ;
        }
        if !char_is_whitespace(s.get_char(e - 1)) {
            break ;
        }
        e -= 1;
    }
    let mut st: usize = 0;
    loop
        invariant
            st <= e,
            e <= n,
            n == s@.len(),
            forall|j: int| 0 <= j < st ==> is_unicode_whitespace(s@[j]),
        ensures
            st <= e <= n,
            forall|j: int| 0 <= j < st ==> is_unicode_whitespace(s@[j]),
            st == e || !is_unicode_whitespace(s@[st as int]),
        decreases e - st,
    {
        if st == e {
            break ;
        }
        if !char_is_whitespace(s.get_char(st)) {
            break ;
        }
        st += 1;
    }
    let piece = s.substring_char(st, e);
    proof {
        lemma_trim_take(s@, e as int);
        lemma_trim_front_skip(s@.take(e as int), st as int);
        assert(s@.take(e as int).skip(st as int) =~= s@.subrange(st as int, e as int));
    }
    piece.to_owned()
}

/// String equality, decided on the UTF-8 bytes and carried back to the
/// character sequences through the encoding's injectivity.
pub fn str_eq(a: &str, b: &str) -> (r: bool)
    ensures
        r == (a@ == b@),
{
    let ab = a.as_bytes();
    let bb = b.as_bytes();
    if ab.len() != bb.len() {
        return false;
    }
    let n = ab.len();
    let mut i: usize = 0;
    while i < n
        invariant
            i <= n,
            n == ab@.len(),
            n == bb@.len(),
            ab@ == a.spec_bytes(),
            bb@ == b.spec_bytes(),
            forall|j: int| 0 <= j < i ==> ab@[j] == bb@[j],
        decreases n - i,
    {
        if *slice_index_get(ab, i) != *slice_index_get(bb, i) {
            return false;
        }
        i += 1;
    }
    proof {
        assert(a.spec_bytes() =~= b.spec_bytes());
        vstd::utf8::encode_utf8_decode_utf8(a@);
        vstd::utf8::encode_utf8_decode_utf8(b@);
    }
    true
}

/// The decimal digit for a value below ten.
pub open spec fn decimal_digit(d: nat) -> char
    recommends
        d < 10,
{
    ((48 + d) as u8) as char
}

/// The decimal rendering of a natural number, most significant digit first,
/// without leading zeros.
pub open spec fn spec_decimal(n: nat) -> Seq<char>
    decreases n,
{
    if n < 10 {
        seq![decimal_digit(n)]
    } else {
        spec_decimal(n / 10).push(decimal_digit(n % 10))
    }
}

fn digit_str(d: usize) -> (r: &'static str)
    requires
        d < 10,
    ensures
        r@ =~= seq![decimal_digit(d as nat)],
{
    proof {
        reveal_strlit("0");
        reveal_strlit("1");
        reveal_strlit("2");
        reveal_strlit("3");
        reveal_strlit("4");
        reveal_strlit("5");
        reveal_strlit("6");
        reveal_strlit("7");
        reveal_strlit("8");
        reveal_strlit("9");
    }
    match d {
        0 => "0",
        1 => "1",
        2 => "2",
        3 => "3",
        4 => "4",
        5 => "5",
        6 => "6",
        7 => "7",
        8 => "8",
        _ => "9",
    }
}

/// Renders `n` in decimal.
pub fn usize_to_string(n: usize) -> (r: String)
    ensures
        r@ =~= spec_decimal(n as nat),
    decreases n,
{
    if n < 10 {
        digit_str(n).to_owned()
    } else {
        let mut prefix = usize_to_string(n / 10);
        prefix.append(digit_str(n % 10));
        prefix
    }
}

} // verus!
