//! Small verified string helpers shared by the decision modules.
use vstd::prelude::*;

verus! {

/// Character-wise equality of two string slices.
pub fn str_eq(a: &str, b: &str) -> (r: bool)
    ensures
        r == (a@ == b@),
{
    let n = a.unicode_len();
    let m = b.unicode_len();
    if n != m {
        return false;
    }
    let mut i: usize = 0;
    while i < n
        invariant
            n == a@.len(),
            m == b@.len(),
            n == m,
            i <= n,
            forall|j: int| 0 <= j < i ==> a@[j] == b@[j],
        decreases n - i,
    {
        if a.get_char(i) != b.get_char(i) {
            return false;
        }
        i = i + 1;
    }
    assert(a@ =~= b@);
    true
}

/// Whether `s` begins with `prefix`.
pub fn starts_with(s: &str, prefix: &str) -> (r: bool)
    ensures
        r == (prefix@.len() <= s@.len() && s@.subrange(0, prefix@.len() as int) == prefix@),
{
    let n = s.unicode_len();
    let m = prefix.unicode_len();
    if m > n {
        return false;
    }
    let mut i: usize = 0;
    while i < m
        invariant
            n == s@.len(),
            m == prefix@.len(),
            m <= n,
            i <= m,
            forall|j: int| 0 <= j < i ==> s@[j] == prefix@[j],
        decreases m - i,
    {
        if s.get_char(i) != prefix.get_char(i) {
            assert(s@.subrange(0, m as int)[i as int] != prefix@[i as int]);
            return false;
        }
        i = i + 1;
    }
    assert(s@.subrange(0, m as int) =~= prefix@);
    true
}

} // verus!

verus! {

/// The character of a decimal digit `0 <= d < 10`.
pub open spec fn digit_char(d: int) -> char {
    (('0' as int) + d) as char
}

/// Decimal digits of a natural number, most significant first, no leading zeros.
pub open spec fn decimal_digits(n: nat) -> Seq<char>
    decreases n,
{
    if n < 10 {
        seq![digit_char(n as int)]
    } else {
        decimal_digits(n / 10).push(digit_char((n % 10) as int))
    }
}

/// Decimal text of an integer, with a leading `-` when negative.
pub open spec fn decimal(n: int) -> Seq<char> {
    if n < 0 {
        seq!['-'] + decimal_digits((-n) as nat)
    } else {
        decimal_digits(n as nat)
    }
}

/// `<i64 as ToString>::to_string` from std: the `Display` form of an
/// integer, which std documents as its decimal representation with a
/// leading minus sign for negative values.
#[verifier::external_body]
pub(crate) fn decimal_text(n: i64) -> (s: String)
    ensures
        s@ == decimal(n as int),
{
    n.to_string()
}

} // verus!

verus! {

/// Whether `c` has the Unicode `White_Space` property, the notion of
/// whitespace that std's `char::is_whitespace`, `str::trim` and
/// `str::split_whitespace` share.
pub uninterp spec fn white_space(c: char) -> bool;

/// `char::is_whitespace` from std.
#[verifier::external_body]
pub(crate) fn is_whitespace(c: char) -> (b: bool)
    ensures
        b == white_space(c),
{
    c.is_whitespace()
}

/// Every character of `s` is whitespace (so is the empty text).
pub open spec fn blank(s: Seq<char>) -> bool {
    forall|k: int| 0 <= k < s.len() ==> white_space(#[trigger] s[k])
}

/// Whether `s` holds nothing but whitespace.
pub fn is_blank(s: &str) -> (b: bool)
    ensures
        b == blank(s@),
{
    let n = s.unicode_len();
    let mut i: usize = 0;
    while i < n
        invariant
            n == s@.len(),
            i <= n,
            forall|k: int| 0 <= k < i ==> white_space(#[trigger] s@[k]),
        decreases n - i,
    {
        if !is_whitespace(s.get_char(i)) {
            return false;
        }
        i = i + 1;
    }
    true
}

/// `t` is `s` without its leading and trailing whitespace: a slice of `s`
/// preceded and followed only by whitespace, which neither starts nor ends
/// with whitespace.
pub open spec fn trimmed_from(s: Seq<char>, t: Seq<char>) -> bool {
    exists|i: int, j: int|
        #![trigger s.subrange(i, j)]
        0 <= i <= j <= s.len() && t == s.subrange(i, j) && (forall|k: int|
            0 <= k < i ==> white_space(#[trigger] s[k])) && (forall|k: int|
            j <= k < s.len() ==> white_space(#[trigger] s[k])) && (t.len() > 0 ==> !white_space(
            t[0],
        ) && !white_space(t[t.len() - 1]))
}

/// `str::trim` from std.
#[verifier::external_body]
pub(crate) fn trim(s: &str) -> (t: &str)
    ensures
        trimmed_from(s@, t@),
{
    s.trim()
}

/// Trimming leaves nothing exactly when the text is blank.
pub proof fn lemma_trimmed_empty_iff_blank(s: Seq<char>, t: Seq<char>)
    requires
        trimmed_from(s, t),
    ensures
        t.len() == 0 <==> blank(s),
{
    let (i, j) = choose|i: int, j: int|
        #![trigger s.subrange(i, j)]
        0 <= i <= j <= s.len() && t == s.subrange(i, j) && (forall|k: int|
            0 <= k < i ==> white_space(#[trigger] s[k])) && (forall|k: int|
            j <= k < s.len() ==> white_space(#[trigger] s[k])) && (t.len() > 0 ==> !white_space(
            t[0],
        ) && !white_space(t[t.len() - 1]));
    if t.len() == 0 {
        assert forall|k: int| 0 <= k < s.len() implies white_space(#[trigger] s[k]) by {
            if k >= j {
            } else {
                assert(k < i);
            }
        }
    } else {
        assert(t[0] == s[i]);
    }
}

/// The whitespace-separated fields of `s`, in order, as std's
/// `str::split_whitespace` yields them.
pub uninterp spec fn whitespace_fields(s: Seq<char>) -> Seq<Seq<char>>;

/// `str::split_whitespace` from std, its fields collected in order.
#[verifier::external_body]
pub(crate) fn split_whitespace(s: &str) -> (fields: Vec<&str>)
    ensures
        fields.deep_view() == whitespace_fields(s@),
{
    s.split_whitespace().collect()
}

/// The whitespace-separated fields of `s`, each as an owned string.
pub fn whitespace_separated(s: &str) -> (fields: Vec<String>)
    ensures
        fields.deep_view() == whitespace_fields(s@),
{
    let parts = split_whitespace(s);
    let mut fields: Vec<String> = Vec::new();
    let n = parts.len();
    let mut i: usize = 0;
    while i < n
        invariant
            n == parts@.len(),
            i <= n,
            fields@.len() == i,
            forall|k: int| 0 <= k < i ==> fields@[k]@ == parts@[k]@,
        decreases n - i,
    {
        fields.push(String::from_str(parts[i]));
        i = i + 1;
    }
    proof {
        assert(fields.deep_view() =~= parts.deep_view());
    }
    fields
}

} // verus!
