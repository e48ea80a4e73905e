//! Text helpers over the characters of a string.

use vstd::prelude::*;
use vstd::std_specs::iter::IteratorSpec;
use vstd::string::StrSliceExecFns;
use vstd::string::StringExecFns;
use vstd::string::StringSliceAdditionalSpecFns;
use vstd::utf8::encode_utf8_decode_utf8;

verus! {

/// Whether `c` is white space in the sense of `char::is_whitespace`: whether
/// it has the Unicode property White_Space.
pub uninterp spec fn is_white_space(c: char) -> bool;

/// `char::is_whitespace` of std.  It decides the Unicode property White_Space;
/// the contract gives that decision its name and says nothing of which
/// characters have the property.
pub assume_specification[ char::is_whitespace ](c: char) -> (r: bool)
    ensures
        r == is_white_space(c),
;

/// `String::push` of std appends one character to the end of the string.
pub assume_specification[ String::push ](s: &mut String, c: char)
    ensures
        final(s)@ == old(s)@.push(c),
;

/// `s` without the white space at its front.
pub open spec fn trim_front(s: Seq<char>) -> Seq<char>
    decreases s.len(),
{
    if s.len() > 0 && is_white_space(s[0]) {
        trim_front(s.skip(1))
    } else {
        s
    }
}

/// `s` without the white space at its end.
pub open spec fn trim_back(s: Seq<char>) -> Seq<char>
    decreases s.len(),
{
    if s.len() > 0 && is_white_space(s.last()) {
        trim_back(s.drop_last())
    } else {
        s
    }
}

/// `s` without the white space at either end.
pub open spec fn trimmed(s: Seq<char>) -> Seq<char> {
    trim_back(trim_front(s))
}

/// Whether the six characters `&quot;` stand in `s` at position `i`.
pub open spec fn quote_entity_at(s: Seq<char>, i: int) -> bool {
    &&& 0 <= i
    &&& i + 6 <= s.len()
    &&& s[i] == '&'
    &&& s[i + 1] == 'q'
    &&& s[i + 2] == 'u'
    &&& s[i + 3] == 'o'
    &&& s[i + 4] == 't'
    &&& s[i + 5] == ';'
}

/// The text of `s` from position `i` on, with every `&quot;` turned into a
/// double quote.  Entities are found from left to right.
pub open spec fn unescaped_from(s: Seq<char>, i: int) -> Seq<char>
    decreases s.len() - i,
{
    if i < 0 || i >= s.len() {
        Seq::empty()
    } else if quote_entity_at(s, i) {
        seq!['"'] + unescaped_from(s, i + 6)
    } else {
        seq![s[i]] + unescaped_from(s, i + 1)
    }
}

/// `s` with every `&quot;` turned into a double quote.
pub open spec fn unescaped(s: Seq<char>) -> Seq<char> {
    unescaped_from(s, 0)
}

/// The character for one decimal digit.
pub open spec fn digit_char(d: int) -> char {
    if d == 0 {
        '0'
    } else if d == 1 {
        '1'
    } else if d == 2 {
        '2'
    } else if d == 3 {
        '3'
    } else if d == 4 {
        '4'
    } else if d == 5 {
        '5'
    } else if d == 6 {
        '6'
    } else if d == 7 {
        '7'
    } else if d == 8 {
        '8'
    } else {
        '9'
    }
}

/// The decimal digits of `n`, most significant first, without leading zeros.
pub open spec fn digits(n: nat) -> Seq<char>
    decreases n,
{
    if n < 10 {
        seq![digit_char(n as int)]
    } else {
        digits(n / 10).push(digit_char((n % 10) as int))
    }
}

/// The decimal form of `n`, with a minus sign in front where it is negative.
pub open spec fn decimal(n: int) -> Seq<char> {
    if n < 0 {
        seq!['-'] + digits((-n) as nat)
    } else {
        digits(n as nat)
    }
}

/// The text of an optional string.
pub open spec fn text_of(s: Option<String>) -> Option<Seq<char>> {
    match s {
        Some(s) => Some(s@),
        None => None,
    }
}

/// The first `n` characters of `s`, or all of `s` where it has fewer.
pub open spec fn leading(s: Seq<char>, n: nat) -> Seq<char> {
    if s.len() <= n {
        s
    } else {
        s.take(n as int)
    }
}

proof fn lemma_trim_front_skips(s: Seq<char>, k: int)
    requires
        0 <= k <= s.len(),
        forall|j: int| 0 <= j < k ==> is_white_space(s[j]),
        k == s.len() || !is_white_space(s[k]),
    ensures
        trim_front(s) == s.skip(k),
    decreases k,
{
    if k > 0 {
        lemma_trim_front_skips(s.skip(1), k - 1);
    }
}

proof fn lemma_trim_back_takes(s: Seq<char>, k: int)
    requires
        0 <= k <= s.len(),
        forall|j: int| k <= j < s.len() ==> is_white_space(s[j]),
        k == 0 || !is_white_space(s[k - 1]),
    ensures
        trim_back(s) == s.take(k),
    decreases s.len() - k,
{
    if k < s.len() {
        lemma_trim_back_takes(s.drop_last(), k);
    }
}

/// The characters of `s`, for access by position.
pub fn to_chars(s: &str) -> (v: Vec<char>)
    ensures
        v@ == s@,
{
    let mut v: Vec<char> = Vec::new();
    let chars = s.chars();
    for c in it: chars
        invariant
            it.seq() == s@,
            v@ =~= s@.take(it.index()),
    {
        v.push(c);
    }
    v
}

/// Whether `c` occurs in `s`.
pub fn contains_char(s: &str, c: char) -> (found: bool)
    ensures
        found == s@.contains(c),
{
    let chars = s.chars();
    for d in it: chars
        invariant
            it.seq() == s@,
            !s@.take(it.index()).contains(c),
    {
        if d == c {
            return true;
        }
    }
    assert(s@.take(s@.len() as int) =~= s@);
    false
}

/// `s` without the white space at either end.
pub fn trim(s: &str) -> (r: &str)
    ensures
        r@ == trimmed(s@),
{
    let chars = to_chars(s);
    let len: usize = chars.len();
    let mut start: usize = 0;
    while start < len && chars[start].is_whitespace()
        invariant
            start <= len,
            len == chars@.len(),
            forall|j: int| 0 <= j < start ==> is_white_space(chars@[j]),
        decreases len - start,
    {
        start += 1;
    }
    let mut end: usize = len;
    while end > start && chars[end - 1].is_whitespace()
        invariant
            start <= end <= len,
            len == chars@.len(),
            forall|j: int| end <= j < len ==> is_white_space(chars@[j]),
        decreases end,
    {
        end -= 1;
    }
    proof {
        lemma_trim_front_skips(s@, start as int);
        lemma_trim_back_takes(s@.skip(start as int), end - start);
    }
    s.substring_char(start, end)
}

/// `s` with every `&quot;` turned into a double quote.
pub fn unescape_quotes(s: &str) -> (r: String)
    ensures
        r@ == unescaped(s@),
{
    let chars = to_chars(s);
    let len: usize = chars.len();
    let mut out = String::new();
    let mut i: usize = 0;
    while i < len
        invariant
            i <= len,
            len == chars@.len(),
            chars@ == s@,
            out@ + unescaped_from(s@, i as int) == unescaped(s@),
        decreases len - i,
    {
        let ghost before = out@;
        if len - i >= 6 && chars[i] == '&' && chars[i + 1] == 'q' && chars[i + 2] == 'u'
            && chars[i + 3] == 'o' && chars[i + 4] == 't' && chars[i + 5] == ';' {
            out.push('"');
            assert(before.push('"') + unescaped_from(s@, i + 6) =~= before + (seq!['"']
                + unescaped_from(s@, i + 6)));
            i += 6;
        } else {
            out.push(chars[i]);
            assert(before.push(s@[i as int]) + unescaped_from(s@, i + 1) =~= before + (
            seq![s@[i as int]] + unescaped_from(s@, i + 1)));
            i += 1;
        }
    }
    out
}

fn digit(d: u64) -> (c: char)
    requires
        d < 10,
    ensures
        c == digit_char(d as int),
{
    if d == 0 {
        '0'
    } else if d == 1 {
        '1'
    } else if d == 2 {
        '2'
    } else if d == 3 {
        '3'
    } else if d == 4 {
        '4'
    } else if d == 5 {
        '5'
    } else if d == 6 {
        '6'
    } else if d == 7 {
        '7'
    } else if d == 8 {
        '8'
    } else {
        '9'
    }
}

fn push_digits(out: &mut String, n: u64)
    ensures
        final(out)@ == old(out)@ + digits(n as nat),
    decreases n,
{
    if n >= 10 {
        push_digits(out, n / 10);
    }
    out.push(digit(n % 10));
}

/// The decimal form of `n`.
pub fn to_decimal(n: i64) -> (r: String)
    ensures
        r@ == decimal(n as int),
{
    let mut out = String::new();
    if n < 0 {
        out.push('-');
        let magnitude: u64 = (-(n + 1)) as u64 + 1;
        push_digits(&mut out, magnitude);
    } else {
        push_digits(&mut out, n as u64);
    }
    out
}

/// Whether the two texts are the same.
pub fn same_text(a: &str, b: &str) -> (same: bool)
    ensures
        same == (a@ == b@),
{
    let x = a.as_bytes();
    let y = b.as_bytes();
    if x.len() != y.len() {
        return false;
    }
    let len: usize = x.len();
    let mut i: usize = 0;
    while i < len
        invariant
            i <= len,
            len == x@.len(),
            len == y@.len(),
            x@ == a.spec_bytes(),
            y@ == b.spec_bytes(),
            forall|j: int| 0 <= j < i ==> x@[j] == y@[j],
        decreases len - i,
    {
        if x[i] != y[i] {
            return false;
        }
        i += 1;
    }
    proof {
        // Two texts with the same UTF-8 bytes are one text.
        assert(x@ =~= y@);
        encode_utf8_decode_utf8(a@);
        encode_utf8_decode_utf8(b@);
    }
    true
}

/// The first `n` characters of `s`, or all of `s` where it has fewer.
pub fn leading_chars(s: &str, n: usize) -> (r: &str)
    ensures
        r@ == leading(s@, n as nat),
{
    let len: usize = s.unicode_len();
    if len <= n {
        s
    } else {
        s.substring_char(0, n)
    }
}

} // verus!
