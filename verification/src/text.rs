use vstd::prelude::*;

verus! {

/// A decimal digit character.
pub open spec fn is_decimal_digit(c: char) -> bool {
    '0' <= c && c <= '9'
}

/// The value of a decimal digit character.
pub open spec fn digit_value(c: char) -> int {
    (c as int) - ('0' as int)
}

/// Every character of `s` is a decimal digit.
pub open spec fn all_decimal_digits(s: Seq<char>) -> bool {
    forall|i: int| 0 <= i < s.len() ==> is_decimal_digit(#[trigger] s[i])
}

/// The number that the decimal digits `s` spell, most significant first.
pub open spec fn decimal_value(s: Seq<char>) -> int
    decreases s.len(),
{
    if s.len() == 0 {
        0
    } else {
        decimal_value(s.drop_last()) * 10 + digit_value(s.last())
    }
}

/// Whether `s` starts with a sign character, and the rest after it.
pub open spec fn sign_length(s: Seq<char>) -> int {
    if s.len() > 0 && (s[0] == '-' || s[0] == '+') {
        1
    } else {
        0
    }
}

/// What `str::parse::<i32>` gives for the text `s`: an optional `+` or `-`,
/// then one or more decimal digits whose signed value fits in an `i32`.
pub open spec fn parsed_i32(s: Seq<char>) -> Option<i32> {
    let digits = s.subrange(sign_length(s), s.len() as int);
    let negative = sign_length(s) == 1 && s[0] == '-';
    let v = if negative {
        -decimal_value(digits)
    } else {
        decimal_value(digits)
    };
    if digits.len() == 0 || !all_decimal_digits(digits) {
        None
    } else if i32::MIN <= v <= i32::MAX {
        Some(v as i32)
    } else {
        None
    }
}

/// How the parse treats signs and digits: a run of digits is its value where
/// that fits in `i32`; a leading `+` changes nothing; a leading `-` negates,
/// down to `i32::MIN`.
pub proof fn lemma_parse_i32_digits(d: Seq<char>)
    requires
        d.len() > 0,
        all_decimal_digits(d),
    ensures
        parsed_i32(d) == (if decimal_value(d) <= i32::MAX {
            Some(decimal_value(d) as i32)
        } else {
            None::<i32>
        }),
        parsed_i32(seq!['+'] + d) == parsed_i32(d),
        parsed_i32(seq!['-'] + d) == (if decimal_value(d) <= 2147483648 {
            Some((-decimal_value(d)) as i32)
        } else {
            None::<i32>
        }),
{
    lemma_decimal_value_nonneg(d);
    assert(is_decimal_digit(d[0]));
    assert(d.subrange(0, d.len() as int) =~= d);
    assert((seq!['+'] + d).subrange(1, (d.len() + 1) as int) =~= d);
    assert((seq!['-'] + d).subrange(1, (d.len() + 1) as int) =~= d);
}

/// The parse refuses the empty text, a sign alone, and any text with a
/// character that is neither a digit nor its leading sign.
pub proof fn lemma_parse_i32_refuses(s: Seq<char>, i: int)
    ensures
        s.len() == 0 ==> parsed_i32(s) is None,
        s == seq!['+'] || s == seq!['-'] ==> parsed_i32(s) is None,
        (0 <= i < s.len() && !is_decimal_digit(s[i]) && !(i == 0 && (s[0] == '+' || s[0] == '-')))
            ==> parsed_i32(s) is None,
{
    if 0 <= i < s.len() && !is_decimal_digit(s[i]) && !(i == 0 && (s[0] == '+' || s[0] == '-')) {
        let k = sign_length(s);
        let digits = s.subrange(k, s.len() as int);
        assert(i >= k);
        assert(digits[i - k] == s[i]);
    }
}

proof fn lemma_decimal_value_nonneg(s: Seq<char>)
    requires
        all_decimal_digits(s),
    ensures
        decimal_value(s) >= 0,
    decreases s.len(),
{
    if s.len() > 0 {
        lemma_decimal_value_nonneg(s.drop_last());
        assert(is_decimal_digit(s[s.len() - 1]));
    }
}

/// A prefix of a digit string never spells a larger number than the whole.
proof fn lemma_decimal_value_prefix(s: Seq<char>, j: int)
    requires
        all_decimal_digits(s),
        0 <= j <= s.len(),
    ensures
        decimal_value(s.take(j)) <= decimal_value(s),
    decreases s.len(),
{
    if j < s.len() {
        let d = s.drop_last();
        lemma_decimal_value_prefix(d, j);
        assert(d.take(j) =~= s.take(j));
        lemma_decimal_value_nonneg(d);
        assert(is_decimal_digit(s[s.len() - 1]));
    } else {
        assert(s.take(j) =~= s);
    }
}

/// Parses a decimal `i32` the way `str::parse::<i32>` does; `None` where it
/// reports an error.
pub fn parse_i32(s: &str) -> (r: Option<i32>)
    ensures
        r == parsed_i32(s@),
{
    let n = s.unicode_len();
    let mut start: usize = 0;
    let mut negative = false;
    if n > 0 {
        let c0 = s.get_char(0);
        if c0 == '-' {
            start = 1;
            negative = true;
        } else if c0 == '+' {
            start = 1;
        }
    }
    assert(start == sign_length(s@));
    if start == n {
        return None;
    }
    let ghost digits = s@.subrange(start as int, n as int);
    let mut acc: i64 = 0;
    let mut k: usize = start;
    while k < n
        invariant
            start <= k <= n,
            n == s@.len(),
            start == sign_length(s@),
            negative == (start == 1 && s@[0] == '-'),
            digits == s@.subrange(start as int, n as int),
            all_decimal_digits(digits.take(k - start)),
            acc == decimal_value(digits.take(k - start)),
            0 <= acc <= 2147483648,
        decreases n - k,
    {
        let c = s.get_char(k);
        if !('0' <= c && c <= '9') {
            assert(digits[k - start] == c);
            return None;
        }
        let d: i64 = ((c as u32) - ('0' as u32)) as i64;
        proof {
            let t = digits.take(k - start + 1);
            assert(t.drop_last() =~= digits.take(k - start));
            assert(t.last() == c);
            assert(all_decimal_digits(t));
        }
        if acc * 10 + d > 2147483648 {
            proof {
                let t = digits.take(k - start + 1);
                if all_decimal_digits(digits) {
                    lemma_decimal_value_prefix(digits, k - start + 1);
                }
            }
            return None;
        }
        acc = acc * 10 + d;
        k = k + 1;
    }
    assert(digits.take(n - start) =~= digits);
    if negative {
        Some((-acc) as i32)
    } else if acc > 2147483647 {
        None
    } else {
        Some(acc as i32)
    }
}

/// `needle` occurs in `hay` starting at `i`.
pub open spec fn occurs_at(hay: Seq<char>, needle: Seq<char>, i: int) -> bool {
    0 <= i && i + needle.len() <= hay.len() && hay.subrange(i, i + needle.len()) == needle
}

/// `needle` occurs somewhere in `hay`, as `str::contains` finds it.
pub open spec fn contains_text(hay: Seq<char>, needle: Seq<char>) -> bool {
    exists|i: int| occurs_at(hay, needle, i)
}

/// Whether `needle` occurs in `hay` at character `i`.
fn matches_at(hay: &str, needle: &str, i: usize) -> (r: bool)
    requires
        i + needle@.len() <= hay@.len(),
        hay@.len() <= usize::MAX,
    ensures
        r == occurs_at(hay@, needle@, i as int),
{
    let m = needle.unicode_len();
    let mut j: usize = 0;
    while j < m
        invariant
            m == needle@.len(),
            i + m <= hay@.len(),
            hay@.len() <= usize::MAX,
            0 <= j <= m,
            forall|k: int| 0 <= k < j ==> hay@[i + k] == needle@[k],
        decreases m - j,
    {
        if hay.get_char(i + j) != needle.get_char(j) {
            assert(hay@.subrange(i as int, i + m)[j as int] != needle@[j as int]);
            return false;
        }
        j = j + 1;
    }
    assert(hay@.subrange(i as int, i + m) =~= needle@);
    true
}

/// Whether `needle` occurs in `hay`.
pub fn contains(hay: &str, needle: &str) -> (r: bool)
    ensures
        r == contains_text(hay@, needle@),
{
    let n = hay.unicode_len();
    let m = needle.unicode_len();
    if m > n {
        assert forall|i: int| !occurs_at(hay@, needle@, i) by {}
        return false;
    }
    let last = n - m;
    let mut i: usize = 0;
    while i < last
        invariant
            n == hay@.len(),
            m == needle@.len(),
            last == n - m,
            0 <= i <= last,
            forall|k: int| 0 <= k < i ==> !occurs_at(hay@, needle@, k),
        decreases last - i,
    {
        if matches_at(hay, needle, i) {
            return true;
        }
        i = i + 1;
    }
    if matches_at(hay, needle, last) {
        return true;
    }
    assert forall|k: int| !occurs_at(hay@, needle@, k) by {
        if 0 <= k <= last {
        }
    }
    false
}

} // verus!
