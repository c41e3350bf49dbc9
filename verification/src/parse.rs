//! Character-level parsing used by the filter builder.
//!
//! Filter options arrive as text: `offset,data` pairs, `cmp:value` pairs and
//! unsigned decimal numbers. The functions here scan those forms directly and
//! each carries an exact statement of the grammar it accepts.

use vstd::prelude::*;
use vstd::string::StrSliceExecFns;
use vstd::string::StringExecFns;

verus! {

/// A decimal digit.
pub open spec fn is_digit(c: char) -> bool {
    '0' <= c && c <= '9'
}

/// Numeric value of a decimal digit.
pub open spec fn digit_val(c: char) -> nat
    recommends
        is_digit(c),
{
    ((c as u32) - ('0' as u32)) as nat
}

/// Every character of the sequence is a decimal digit.
pub open spec fn all_digits(s: Seq<char>) -> bool {
    forall|j: int| 0 <= j < s.len() ==> is_digit(#[trigger] s[j])
}

/// Value of a digit sequence read as a decimal number.
pub open spec fn digits_val(s: Seq<char>) -> nat
    decreases s.len(),
{
    if s.len() == 0 {
        0
    } else {
        digits_val(s.drop_last()) * 10 + digit_val(s.last())
    }
}

/// The digit part of an unsigned decimal literal: a single leading `+` sign
/// is allowed and ignored, as the standard library's integer parser does.
pub open spec fn u64_digits(s: Seq<char>) -> Seq<char> {
    if s.len() > 0 && s[0] == '+' {
        s.drop_first()
    } else {
        s
    }
}

/// The sequence is a decimal literal whose value fits in a `u64`.
pub open spec fn is_u64_string(s: Seq<char>) -> bool {
    let d = u64_digits(s);
    d.len() > 0 && all_digits(d) && digits_val(d) <= u64::MAX
}

/// Value of a valid decimal literal.
pub open spec fn u64_value(s: Seq<char>) -> nat
    recommends
        is_u64_string(s),
{
    digits_val(u64_digits(s))
}

/// Reading one more digit multiplies the value by ten and adds that digit.
proof fn lemma_digits_val_step(s: Seq<char>, k: int)
    requires
        0 <= k < s.len(),
    ensures
        digits_val(s.take(k + 1)) == digits_val(s.take(k)) * 10 + digit_val(s[k]),
{
    assert(s.take(k + 1).drop_last() =~= s.take(k));
    assert(s.take(k + 1).last() == s[k]);
}

/// The value of a digit prefix never exceeds the value of the whole.
proof fn lemma_digits_val_prefix_bound(s: Seq<char>, k: int)
    requires
        0 <= k <= s.len(),
        all_digits(s),
    ensures
        digits_val(s.take(k)) <= digits_val(s),
    decreases s.len() - k,
{
    if k == s.len() {
        assert(s.take(k) =~= s);
    } else {
        lemma_digits_val_step(s, k);
        lemma_digits_val_prefix_bound(s, k + 1);
    }
}

/// Parse an unsigned 64-bit decimal literal, in the grammar the standard
/// library's `u64` parser accepts: an optional `+` sign and at least one
/// digit, with the value within range.
pub fn parse_u64(s: &str) -> (r: Option<u64>)
    ensures
        is_u64_string(s@) ==> r == Some(u64_value(s@) as u64),
        !is_u64_string(s@) ==> r is None,
{
    let n = s.unicode_len();
    let mut i: usize = 0;
    if n > 0 && s.get_char(0) == '+' {
        i = 1;
    }
    let ghost start = i as int;
    let ghost d = u64_digits(s@);
    proof {
        assert(d =~= s@.skip(start));
    }
    if i >= n {
        return None;
    }
    let mut acc: u64 = 0;
    while i < n
        invariant
            start <= i <= n,
            n == s@.len(),
            d == s@.skip(start),
            0 <= start <= 1,
            d == u64_digits(s@),
            all_digits(d.take(i - start)),
            acc == digits_val(d.take(i - start)),
        decreases n - i,
    {
        let c = s.get_char(i);
        let u = c as u32;
        if u < 48 || u > 57 {
            proof {
                assert(d[i - start] == s@[i as int]);
                assert(!is_digit(s@[i as int]));
            }
            return None;
        }
        let dv = (u - 48) as u64;
        proof {
            assert(d[i - start] == s@[i as int]);
            assert(is_digit(d[i - start]));
            assert(digit_val(d[i - start]) == dv);
            lemma_digits_val_step(d, i - start);
        }
        if acc > 1844674407370955161 || (acc == 1844674407370955161 && dv > 5) {
            proof {
                assert(digits_val(d.take(i - start + 1)) > u64::MAX);
                if all_digits(d) {
                    lemma_digits_val_prefix_bound(d, i - start + 1);
                    assert(digits_val(d) > u64::MAX);
                }
            }
            return None;
        }
        acc = acc * 10 + dv;
        proof {
            assert(d.take(i - start + 1).drop_last() =~= d.take(i - start));
            assert(all_digits(d.take(i - start + 1)));
        }
        i = i + 1;
    }
    proof {
        assert(d.take(i - start) =~= d);
        assert(d.len() > 0);
    }
    Some(acc)
}

/// `i` is the position of the sole occurrence of `c` in `s`.
pub open spec fn sole_index(s: Seq<char>, c: char, i: int) -> bool {
    &&& 0 <= i < s.len()
    &&& s[i] == c
    &&& forall|j: int| 0 <= j < s.len() && j != i ==> #[trigger] s[j] != c
}

/// Split `s` at the separator, provided the separator occurs exactly once.
pub fn split_at_sole(s: &str, sep: char) -> (r: Option<(String, String)>)
    ensures
        r is Some <==> exists|i: int| sole_index(s@, sep, i),
        r matches Some((l, rr)) ==> forall|i: int|
            sole_index(s@, sep, i) ==> l@ == s@.take(i) && rr@ == s@.skip(i + 1),
{
    let n = s.unicode_len();
    let mut i: usize = 0;
    while i < n
        invariant
            0 <= i <= n,
            n == s@.len(),
            forall|j: int| 0 <= j < i ==> #[trigger] s@[j] != sep,
        decreases n - i,
    {
        if s.get_char(i) == sep {
            // make sure the separator does not occur again
            let mut k: usize = i + 1;
            while k < n
                invariant
                    i < k <= n,
                    n == s@.len(),
                    s@[i as int] == sep,
                    forall|j: int| 0 <= j < i ==> #[trigger] s@[j] != sep,
                    forall|j: int| i < j < k ==> #[trigger] s@[j] != sep,
                decreases n - k,
            {
                if s.get_char(k) == sep {
                    proof {
                        assert(!sole_index(s@, sep, i as int));
                        assert(forall|m: int| sole_index(s@, sep, m) ==> m == i);
                    }
                    return None;
                }
                k = k + 1;
            }
            let left = s.substring_char(0, i);
            let right = s.substring_char(i + 1, n);
            let l = String::from_str(left);
            let rr = String::from_str(right);
            proof {
                assert(sole_index(s@, sep, i as int));
                assert(forall|m: int| sole_index(s@, sep, m) ==> m == i);
                assert(l@ =~= s@.take(i as int));
                assert(rr@ =~= s@.skip(i as int + 1));
            }
            return Some((l, rr));
        }
        i = i + 1;
    }
    proof {
        assert(forall|m: int| !sole_index(s@, sep, m));
    }
    None
}

/// A character the trimmer strips: the common ASCII whitespace.
pub open spec fn is_blank(c: char) -> bool {
    c == ' ' || c == '\t' || c == '\n' || c == '\r' || c == '\u{b}' || c == '\u{c}'
}

/// Number of blank characters at the front.
pub open spec fn leading_blanks(s: Seq<char>) -> int
    decreases s.len(),
{
    if s.len() == 0 || !is_blank(s[0]) {
        0
    } else {
        1 + leading_blanks(s.drop_first())
    }
}

/// Number of blank characters at the back.
pub open spec fn trailing_blanks(s: Seq<char>) -> int
    decreases s.len(),
{
    if s.len() == 0 || !is_blank(s.last()) {
        0
    } else {
        1 + trailing_blanks(s.drop_last())
    }
}

/// The sequence with leading and trailing blanks removed.
pub open spec fn trim_spec(s: Seq<char>) -> Seq<char> {
    let a = leading_blanks(s);
    if a == s.len() {
        Seq::empty()
    } else {
        s.subrange(a, s.len() - trailing_blanks(s))
    }
}

proof fn lemma_leading_blanks_at(s: Seq<char>, a: int)
    requires
        0 <= a <= s.len(),
        forall|j: int| 0 <= j < a ==> is_blank(#[trigger] s[j]),
        a < s.len() ==> !is_blank(s[a]),
    ensures
        leading_blanks(s) == a,
    decreases a,
{
    if a == 0 {
    } else {
        assert(is_blank(s[0]));
        lemma_leading_blanks_at(s.drop_first(), a - 1);
    }
}

proof fn lemma_trailing_blanks_at(s: Seq<char>, b: int)
    requires
        0 <= b <= s.len(),
        forall|j: int| s.len() - b <= j < s.len() ==> is_blank(#[trigger] s[j]),
        b < s.len() ==> !is_blank(s[s.len() - b - 1]),
    ensures
        trailing_blanks(s) == b,
    decreases b,
{
    if b == 0 {
    } else {
        assert(is_blank(s.last()));
        lemma_trailing_blanks_at(s.drop_last(), b - 1);
    }
}

/// Whether the character at position `i` is blank.
fn blank_at(s: &str, i: usize) -> (r: bool)
    requires
        i < s@.len(),
    ensures
        r == is_blank(s@[i as int]),
{
    let c = s.get_char(i);
    c == ' ' || c == '\t' || c == '\n' || c == '\r' || c == '\u{b}' || c == '\u{c}'
}

/// Strip leading and trailing blanks.
pub fn trim_blanks(s: &str) -> (r: String)
    ensures
        r@ == trim_spec(s@),
{
    let n = s.unicode_len();
    let mut a: usize = 0;
    while a < n && blank_at(s, a)
        invariant
            0 <= a <= n,
            n == s@.len(),
            forall|j: int| 0 <= j < a ==> is_blank(#[trigger] s@[j]),
        decreases n - a,
    {
        a = a + 1;
    }
    if a == n {
        proof {
            lemma_leading_blanks_at(s@, n as int);
        }
        return String::new();
    }
    proof {
        lemma_leading_blanks_at(s@, a as int);
    }
    let mut b: usize = n;
    while b > a && blank_at(s, b - 1)
        invariant
            a < n,
            a <= b <= n,
            n == s@.len(),
            !is_blank(s@[a as int]),
            forall|j: int| b <= j < n ==> is_blank(#[trigger] s@[j]),
        decreases b,
    {
        b = b - 1;
    }
    proof {
        assert(b > a);
        assert(!is_blank(s@[b - 1]));
        lemma_trailing_blanks_at(s@, n - b);
    }
    let part = s.substring_char(a, b);
    let r = String::from_str(part);
    proof {
        assert(r@ =~= trim_spec(s@));
    }
    r
}

} // verus!
