//! The strings that a list row shows, derived from a story's fields.

use vstd::prelude::*;

verus! {

/// The digit characters, indexed by their value.
pub open spec fn digit_chars() -> Seq<char> {
    seq!['0', '1', '2', '3', '4', '5', '6', '7', '8', '9']
}

/// The decimal notation of `n`, without leading zeros.
pub open spec fn decimal(n: nat) -> Seq<char>
    decreases n,
{
    if n < 10 {
        seq![digit_chars()[n as int]]
    } else {
        decimal(n / 10).push(digit_chars()[(n % 10) as int])
    }
}

/// Decimal notation with a leading zero below ten.
pub open spec fn two_digits(n: nat) -> Seq<char> {
    if n < 10 {
        seq!['0'] + decimal(n)
    } else {
        decimal(n)
    }
}

/// Appends the decimal digits of `n` to `out`.
pub fn push_decimal(out: &mut String, n: u64)
    ensures
        final(out)@ == old(out)@ + decimal(n as nat),
    decreases n,
{
    if n >= 10 {
        push_decimal(out, n / 10);
    }
    let digits = "0123456789";
    proof {
        reveal_strlit("0123456789");
    }
    assert(digits@ =~= digit_chars());
    let d = (n % 10) as usize;
    let piece = digits.substring_char(d, d + 1);
    assert(piece@ =~= seq![digit_chars()[d as int]]);
    out.append(piece);
}

/// Appends `n` in decimal, with a leading zero below ten.
pub fn push_two_digits(out: &mut String, n: u64)
    ensures
        final(out)@ == old(out)@ + two_digits(n as nat),
{
    if n < 10 {
        out.append("0");
        proof {
            reveal_strlit("0");
        }
    }
    push_decimal(out, n);
    assert(out@ =~= old(out)@ + two_digits(n as nat));
}

/// The decimal notation of `n`.
pub fn decimal_string(n: u64) -> (r: String)
    ensures
        r@ == decimal(n as nat),
{
    let mut out = String::new();
    push_decimal(&mut out, n);
    assert(out@ =~= decimal(n as nat));
    out
}

/// `p` stands at the start of `s`.
pub open spec fn starts_with(s: Seq<char>, p: Seq<char>) -> bool {
    p.len() <= s.len() && s.subrange(0, p.len() as int) == p
}

/// `s` without a leading `p`; `s` itself where it does not start with `p`.
pub open spec fn strip_prefix(s: Seq<char>, p: Seq<char>) -> Seq<char> {
    if starts_with(s, p) {
        s.subrange(p.len() as int, s.len() as int)
    } else {
        s
    }
}

/// A URL without a leading `https://` or else `http://`.
pub open spec fn without_scheme(url: Seq<char>) -> Seq<char> {
    if starts_with(url, "https://"@) {
        strip_prefix(url, "https://"@)
    } else {
        strip_prefix(url, "http://"@)
    }
}

/// The host part that a row shows: the URL without its scheme and then without a leading `www.`.
pub open spec fn hostname_of(url: Seq<char>) -> Seq<char> {
    strip_prefix(without_scheme(url), "www."@)
}

/// Whether `s` starts with `p`.
pub fn has_prefix(s: &str, p: &str) -> (r: bool)
    ensures
        r == starts_with(s@, p@),
{
    let n = s.unicode_len();
    let k = p.unicode_len();
    if k > n {
        return false;
    }
    let mut i: usize = 0;
    while i < k
        invariant
            n == s@.len(),
            k == p@.len(),
            k <= n,
            i <= k,
            forall|j: int| 0 <= j < i ==> s@[j] == p@[j],
        decreases k - i,
    {
        if s.get_char(i) != p.get_char(i) {
            assert(s@.subrange(0, k as int)[i as int] != p@[i as int]);
            return false;
        }
        i += 1;
    }
    assert(s@.subrange(0, k as int) =~= p@);
    true
}

/// `s` without a leading `p`.
pub fn without_prefix<'a>(s: &'a str, p: &str) -> (r: &'a str)
    ensures
        r@ == strip_prefix(s@, p@),
{
    if has_prefix(s, p) {
        s.substring_char(p.unicode_len(), s.unicode_len())
    } else {
        s
    }
}

/// The host part of a URL, as a row shows it next to the title.
pub fn hostname(url: &str) -> (r: String)
    ensures
        r@ == hostname_of(url@),
{
    let rest = if has_prefix(url, "https://") {
        without_prefix(url, "https://")
    } else {
        without_prefix(url, "http://")
    };
    String::from_str(without_prefix(rest, "www."))
}

/// Stripping the scheme and `www.` a second time changes nothing exactly when the
/// first result no longer starts with `https://`, `http://` or `www.`.
pub proof fn lemma_hostname_idempotent(url: Seq<char>)
    ensures
        hostname_of(hostname_of(url)) == hostname_of(url) <==> !(starts_with(
            hostname_of(url),
            "https://"@,
        ) || starts_with(hostname_of(url), "http://"@) || starts_with(hostname_of(url), "www."@)),
{
    reveal_strlit("https://");
    reveal_strlit("http://");
    reveal_strlit("www.");
    let h = hostname_of(url);
    if starts_with(h, "https://"@) {
        assert(hostname_of(h).len() < h.len());
    } else if starts_with(h, "http://"@) {
        assert(hostname_of(h).len() < h.len());
    } else if starts_with(h, "www."@) {
        assert(hostname_of(h).len() < h.len());
    }
}

} // verus!
