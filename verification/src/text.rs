//! Text primitives over `str` and `String`, specified over sequences of
//! Unicode scalar values (`Seq<char>`).

use vstd::prelude::*;
use vstd::string::*;

verus! {

/// `suffix` ends `s`.
pub open spec fn has_suffix(s: Seq<char>, suffix: Seq<char>) -> bool {
    suffix.len() <= s.len() && s.skip(s.len() - suffix.len()) == suffix
}

/// Character-wise equality of two string slices.
pub fn str_equal(a: &str, b: &str) -> (res: bool)
    ensures
        res == (a@ == b@),
{
    let n = a.unicode_len();
    let m = b.unicode_len();
    if n != m {
        return false;
    }
    let mut i: usize = 0;
    while i < n
        invariant
            n == a@.len(),
            m == b@.len(),
            n == m,
            i <= n,
            forall|k: int| 0 <= k < i ==> a@[k] == b@[k],
        decreases n - i,
    {
        if a.get_char(i) != b.get_char(i) {
            return false;
        }
        i = i + 1;
    }
    assert(a@ =~= b@);
    true
}


/// `s` with its last `suffix.len()` characters removed, when `suffix` ends `s`.
pub fn strip_suffix<'a>(s: &'a str, suffix: &str) -> (res: Option<&'a str>)
    ensures
        res is Some <==> has_suffix(s@, suffix@),
        res matches Some(r) ==> r@ == s@.take(s@.len() - suffix@.len()),
{
    let n = s.unicode_len();
    let m = suffix.unicode_len();
    if m > n {
        return None;
    }
    let start = n - m;
    let tail = s.substring_char(start, n);
    if str_equal(tail, suffix) {
        Some(s.substring_char(0, start))
    } else {
        None
    }
}

/// `s` with, from the left, at most `count` non-overlapping occurrences of the
/// non-empty pattern `pat` replaced by `to`.
pub open spec fn replace_first(s: Seq<char>, pat: Seq<char>, to: Seq<char>, count: nat) -> Seq<char>
    decreases s.len(),
{
    if count == 0 || s.len() == 0 {
        s
    } else if 0 < pat.len() <= s.len() && s.take(pat.len() as int) == pat {
        to + replace_first(s.skip(pat.len() as int), pat, to, (count - 1) as nat)
    } else {
        seq![s[0]] + replace_first(s.drop_first(), pat, to, count)
    }
}

/// `s` with, from the left, every non-overlapping occurrence of the non-empty
/// pattern `pat` replaced by `to`.
pub open spec fn replace_all(s: Seq<char>, pat: Seq<char>, to: Seq<char>) -> Seq<char>
    decreases s.len(),
{
    if s.len() == 0 {
        s
    } else if 0 < pat.len() <= s.len() && s.take(pat.len() as int) == pat {
        to + replace_all(s.skip(pat.len() as int), pat, to)
    } else {
        seq![s[0]] + replace_all(s.drop_first(), pat, to)
    }
}

/// A budget of zero replacements leaves the text unchanged.
pub proof fn lemma_replace_nothing(s: Seq<char>, pat: Seq<char>, to: Seq<char>)
    ensures
        replace_first(s, pat, to, 0) == s,
{
}

/// `pat` occurs in `s` starting at position `i`.
pub open spec fn occurs_at(s: Seq<char>, pat: Seq<char>, i: int) -> bool {
    0 <= i && i + pat.len() <= s.len() && s.subrange(i, i + pat.len() as int) == pat
}

/// A text in which the pattern does not occur comes out unchanged.
pub proof fn lemma_replace_without_occurrence(s: Seq<char>, pat: Seq<char>, to: Seq<char>, count: nat)
    requires
        pat.len() > 0,
        forall|i: int| !occurs_at(s, pat, i),
    ensures
        replace_all(s, pat, to) == s,
        replace_first(s, pat, to, count) == s,
    decreases s.len(),
{
    if s.len() > 0 {
        assert(!occurs_at(s, pat, 0));
        if pat.len() <= s.len() {
            assert(s.take(pat.len() as int) =~= s.subrange(0, pat.len() as int));
        }
        let t = s.drop_first();
        assert forall|i: int| !occurs_at(t, pat, i) by {
            if occurs_at(t, pat, i) {
                assert(s.subrange(i + 1, i + 1 + pat.len()) =~= t.subrange(i, i + pat.len()));
                assert(occurs_at(s, pat, i + 1));
            }
        }
        lemma_replace_without_occurrence(t, pat, to, count);
        assert(seq![s[0]] + t =~= s);
    }
}

/// Replacement at the first occurrence: the text before it is kept, the
/// occurrence becomes `to`, and the rest is processed in turn (with one
/// replacement fewer for the bounded form).
pub proof fn lemma_replace_first_occurrence(a: Seq<char>, pat: Seq<char>, b: Seq<char>, to: Seq<char>, count: nat)
    requires
        pat.len() > 0,
        forall|i: int| 0 <= i < a.len() ==> !occurs_at(a + pat + b, pat, i),
    ensures
        replace_all(a + pat + b, pat, to) == a + to + replace_all(b, pat, to),
        count > 0 ==> replace_first(a + pat + b, pat, to, count) == a + to + replace_first(b, pat, to, (count - 1) as nat),
    decreases a.len(),
{
    let s = a + pat + b;
    if a.len() == 0 {
        assert(s.take(pat.len() as int) =~= pat);
        assert(s.skip(pat.len() as int) =~= b);
        assert(a + to + replace_all(b, pat, to) =~= to + replace_all(b, pat, to));
        assert(a + to + replace_first(b, pat, to, (count - 1) as nat) =~= to + replace_first(b, pat, to, (count - 1) as nat));
    } else {
        assert(!occurs_at(s, pat, 0));
        if pat.len() <= s.len() {
            assert(s.take(pat.len() as int) =~= s.subrange(0, pat.len() as int));
        }
        let a1 = a.drop_first();
        assert(s.drop_first() =~= a1 + pat + b);
        assert forall|i: int| 0 <= i < a1.len() implies !occurs_at(a1 + pat + b, pat, i) by {
            if occurs_at(a1 + pat + b, pat, i) {
                assert(s.subrange(i + 1, i + 1 + pat.len()) =~= (a1 + pat + b).subrange(i, i + pat.len()));
                assert(occurs_at(s, pat, i + 1));
            }
        }
        lemma_replace_first_occurrence(a1, pat, b, to, count);
        assert(seq![s[0]] + (a1 + to + replace_all(b, pat, to)) =~= a + to + replace_all(b, pat, to));
        assert(seq![s[0]] + (a1 + to + replace_first(b, pat, to, (count - 1) as nat))
            =~= a + to + replace_first(b, pat, to, (count - 1) as nat));
    }
}

/// With a budget no smaller than the text, bounded replacement replaces everything.
pub proof fn lemma_replace_first_unbounded(s: Seq<char>, pat: Seq<char>, to: Seq<char>, count: nat)
    requires
        count >= s.len(),
        pat.len() > 0,
    ensures
        replace_first(s, pat, to, count) == replace_all(s, pat, to),
    decreases s.len(),
{
    if s.len() == 0 {
    } else if 0 < pat.len() <= s.len() && s.take(pat.len() as int) == pat {
        lemma_replace_first_unbounded(s.skip(pat.len() as int), pat, to, (count - 1) as nat);
    } else {
        lemma_replace_first_unbounded(s.drop_first(), pat, to, count);
    }
}

/// Replaces, from the left, the first `count` non-overlapping occurrences of
/// `pat` in `s` by `to`.
pub fn replacen(s: &str, pat: &str, to: &str, count: usize) -> (res: String)
    requires
        pat@.len() > 0,
    ensures
        res@ == replace_first(s@, pat@, to@, count as nat),
{
    let n = s.unicode_len();
    let m = pat.unicode_len();
    let mut res = String::new();
    let mut i: usize = 0;
    let mut left: usize = count;
    assert(s@.skip(0) =~= s@);
    assert(res@ + replace_first(s@, pat@, to@, count as nat) =~= replace_first(s@, pat@, to@, count as nat));
    while i < n
        invariant
            n == s@.len(),
            m == pat@.len(),
            m > 0,
            i <= n,
            replace_first(s@, pat@, to@, count as nat)
                == res@ + replace_first(s@.skip(i as int), pat@, to@, left as nat),
        decreases n - i,
    {
        let ghost rest = s@.skip(i as int);
        if left == 0 {
            let tail = s.substring_char(i, n);
            res.append(tail);
            assert(tail@ =~= rest);
            i = n;
            assert(s@.skip(i as int) =~= Seq::<char>::empty());
        } else if m <= n - i && str_equal(s.substring_char(i, i + m), pat) {
            assert(rest.take(m as int) =~= s@.subrange(i as int, (i + m) as int));
            assert(rest.skip(m as int) =~= s@.skip((i + m) as int));
            res.append(to);
            i = i + m;
            left = left - 1;
        } else {
            assert(!(0 < m <= rest.len() && rest.take(m as int) == pat@)) by {
                if 0 < m <= rest.len() && rest.take(m as int) == pat@ {
                    assert(rest.take(m as int) =~= s@.subrange(i as int, (i + m) as int));
                }
            }
            let one = s.substring_char(i, i + 1);
            assert(one@ =~= seq![rest[0]]);
            assert(rest.drop_first() =~= s@.skip((i + 1) as int));
            res.append(one);
            i = i + 1;
        }
    }
    assert(s@.skip(n as int) =~= Seq::<char>::empty());
    res
}

/// Replaces, from the left, every non-overlapping occurrence of `pat` in `s`
/// by `to`.
pub fn replace(s: &str, pat: &str, to: &str) -> (res: String)
    requires
        pat@.len() > 0,
    ensures
        res@ == replace_all(s@, pat@, to@),
{
    let n = s.unicode_len();
    proof {
        lemma_replace_first_unbounded(s@, pat@, to@, n as nat);
    }
    replacen(s, pat, to, n)
}


/// Strict lexicographic order on character sequences, characters compared by
/// code point (the order of Rust's `str` and `String`).
pub open spec fn lex_lt(a: Seq<char>, b: Seq<char>) -> bool
    decreases a.len(),
{
    if b.len() == 0 {
        false
    } else if a.len() == 0 {
        true
    } else if a[0] != b[0] {
        (a[0] as int) < (b[0] as int)
    } else {
        lex_lt(a.drop_first(), b.drop_first())
    }
}

/// No sequence comes before itself.
pub proof fn lemma_lex_irreflexive(a: Seq<char>)
    ensures
        !lex_lt(a, a),
    decreases a.len(),
{
    if a.len() > 0 {
        lemma_lex_irreflexive(a.drop_first());
    }
}

/// The order is transitive.
pub proof fn lemma_lex_transitive(a: Seq<char>, b: Seq<char>, c: Seq<char>)
    requires
        lex_lt(a, b),
        lex_lt(b, c),
    ensures
        lex_lt(a, c),
    decreases a.len(),
{
    if a.len() > 0 && b.len() > 0 && c.len() > 0 && a[0] == b[0] && b[0] == c[0] {
        lemma_lex_transitive(a.drop_first(), b.drop_first(), c.drop_first());
    }
}

/// Two different sequences are ordered one way or the other.
pub proof fn lemma_lex_total(a: Seq<char>, b: Seq<char>)
    requires
        a != b,
    ensures
        lex_lt(a, b) || lex_lt(b, a),
    decreases a.len(),
{
    if a.len() > 0 && b.len() > 0 && a[0] == b[0] {
        if a.drop_first() == b.drop_first() {
            assert(a =~= seq![a[0]] + a.drop_first());
            assert(b =~= seq![b[0]] + b.drop_first());
        }
        lemma_lex_total(a.drop_first(), b.drop_first());
    } else if a.len() == 0 && b.len() == 0 {
        assert(a =~= b);
    } else if a.len() > 0 && b.len() > 0 {
        assert((a[0] as int) != (b[0] as int));
    }
}

/// A proper prefix comes first, and at the first position where two
/// sequences differ, the smaller code point comes first.
pub proof fn lemma_lex_prefix_and_first_difference(p: Seq<char>, x: Seq<char>, y: Seq<char>, c: char, d: char)
    ensures
        lex_lt(p, p + seq![c] + x),
        (c as int) < (d as int) ==> lex_lt(p + seq![c] + x, p + seq![d] + y),
    decreases p.len(),
{
    if p.len() > 0 {
        assert((p + seq![c] + x).drop_first() =~= p.drop_first() + seq![c] + x);
        assert((p + seq![d] + y).drop_first() =~= p.drop_first() + seq![d] + y);
        lemma_lex_prefix_and_first_difference(p.drop_first(), x, y, c, d);
    } else {
        assert((p + seq![c] + x)[0] == c);
        assert((p + seq![d] + y)[0] == d);
    }
}

/// Whether `a` comes strictly before `b` in the order of Rust strings.
pub fn str_lt(a: &str, b: &str) -> (res: bool)
    ensures
        res == lex_lt(a@, b@),
{
    let n = a.unicode_len();
    let m = b.unicode_len();
    let mut i: usize = 0;
    assert(a@.skip(0) =~= a@);
    assert(b@.skip(0) =~= b@);
    while i < n && i < m
        invariant
            n == a@.len(),
            m == b@.len(),
            i <= n,
            i <= m,
            lex_lt(a@, b@) == lex_lt(a@.skip(i as int), b@.skip(i as int)),
        decreases n - i,
    {
        let c = a.get_char(i);
        let d = b.get_char(i);
        if c != d {
            return c < d;
        }
        assert(a@.skip(i as int).drop_first() =~= a@.skip(i + 1));
        assert(b@.skip(i as int).drop_first() =~= b@.skip(i + 1));
        i = i + 1;
    }
    i < m
}

/// The decimal digit `d` (`d < 10`).
pub open spec fn digit_char(d: nat) -> char {
    seq!['0', '1', '2', '3', '4', '5', '6', '7', '8', '9'][d as int]
}

/// The decimal notation of `n`: no sign, no leading zero.
pub open spec fn decimal(n: nat) -> Seq<char>
    decreases n,
{
    if n < 10 {
        seq![digit_char(n)]
    } else {
        decimal(n / 10).push(digit_char(n % 10))
    }
}

/// The number a string of ASCII decimal digits denotes.
pub open spec fn decimal_value(s: Seq<char>) -> int
    decreases s.len(),
{
    if s.len() == 0 {
        0
    } else {
        decimal_value(s.drop_last()) * 10 + ((s.last() as int) - ('0' as int))
    }
}

/// The decimal notation is made of ASCII digits, has no leading zero unless
/// it is "0", and reads back as the number.
pub proof fn lemma_decimal_reads_back(n: nat)
    ensures
        decimal_value(decimal(n)) == n,
        forall|i: int| 0 <= i < decimal(n).len() ==> '0' <= #[trigger] decimal(n)[i] <= '9',
        decimal(n).len() > 0,
        decimal(n)[0] == '0' ==> n == 0,
    decreases n,
{
    let d = n % 10;
    assert(digit_char(d) as int == '0' as int + d) by {
        assert(d < 10);
        if d == 0 {} else if d == 1 {} else if d == 2 {} else if d == 3 {} else if d == 4 {}
        else if d == 5 {} else if d == 6 {} else if d == 7 {} else if d == 8 {} else {}
    }
    if n >= 10 {
        lemma_decimal_reads_back(n / 10);
        assert(decimal(n).drop_last() =~= decimal(n / 10));
        assert((n / 10) * 10 + n % 10 == n) by (nonlinear_arith);
        assert forall|i: int| 0 <= i < decimal(n).len() implies '0' <= #[trigger] decimal(n)[i] <= '9' by {
            if i < decimal(n).len() - 1 {
                assert(decimal(n)[i] == decimal(n / 10)[i]);
            }
        }
        assert(decimal(n)[0] == decimal(n / 10)[0]);
        assert(decimal(n).last() == digit_char(d));
        assert(decimal_value(decimal(n)) == decimal_value(decimal(n / 10)) * 10 + d);
        assert(decimal_value(decimal(n)) == n);
    } else {
        assert(n % 10 == n);
        assert(decimal(n).drop_last() =~= Seq::<char>::empty());
        assert(decimal(n).last() == digit_char(n));
        assert(decimal_value(decimal(n).drop_last()) == 0);
        assert(decimal_value(decimal(n)) == n);
    }
}

/// The decimal notation of `n`, as `u64::to_string` writes it.
pub fn u64_to_string(n: u64) -> (res: String)
    ensures
        res@ == decimal(n as nat),
    decreases n,
{
    let digits = "0123456789";
    proof {
        reveal_strlit("0123456789");
    }
    if n < 10 {
        let d = n as usize;
        let one = digits.substring_char(d, d + 1);
        assert(one@ =~= seq![digit_char(n as nat)]);
        one.to_string()
    } else {
        let mut res = u64_to_string(n / 10);
        let d = (n % 10) as usize;
        let one = digits.substring_char(d, d + 1);
        assert(one@ =~= seq![digit_char((n % 10) as nat)]);
        res.append(one);
        assert(res@ =~= decimal((n / 10) as nat).push(digit_char((n % 10) as nat)));
        res
    }
}

} // verus!
