//! Canonical text of a computed number, from its twelve-digit fixed form.
use vstd::prelude::*;

verus! {

/// Drops trailing zeros while the text holds a decimal point.
pub open spec fn strip_zeros(s: Seq<char>) -> Seq<char>
    decreases s.len(),
{
    if s.contains('.') && s.len() > 0 && s.last() == '0' {
        strip_zeros(s.drop_last())
    } else {
        s
    }
}

/// Drops one trailing decimal point.
pub open spec fn strip_point(s: Seq<char>) -> Seq<char> {
    if s.len() > 0 && s.last() == '.' {
        s.drop_last()
    } else {
        s
    }
}

/// The canonical text for a fixed form: trailing zeros after the point go,
/// then a bare trailing point, and nothing left reads as `0`.
pub open spec fn canonical(fixed: Seq<char>) -> Seq<char> {
    let t = strip_point(strip_zeros(fixed));
    if t.len() == 0 {
        seq!['0']
    } else {
        t
    }
}

/// Characters of a string, in order.
pub fn chars_of(s: &str) -> (r: Vec<char>)
    ensures
        r@ == s@,
{
    let n = s.unicode_len();
    let mut r: Vec<char> = Vec::new();
    let mut i: usize = 0;
    while i < n
        invariant
            n == s@.len(),
            i <= n,
            r@ == s@.subrange(0, i as int),
        decreases n - i,
    {
        r.push(s.get_char(i));
        i = i + 1;
        assert(r@ =~= s@.subrange(0, i as int));
    }
    assert(r@ =~= s@);
    r
}

/// Whether `v` holds `c`.
pub fn holds(v: &Vec<char>, c: char) -> (r: bool)
    ensures
        r == v@.contains(c),
{
    let mut i: usize = 0;
    while i < v.len()
        invariant
            i <= v.len(),
            forall|j: int| 0 <= j < i ==> v@[j] != c,
        decreases v.len() - i,
    {
        if v[i] == c {
            return true;
        }
        i = i + 1;
    }
    false
}

/// Removing the last element keeps any element that is not the last one.
proof fn lemma_drop_last_contains(s: Seq<char>, c: char)
    requires
        s.len() > 0,
        s.contains(c),
        s.last() != c,
    ensures
        s.drop_last().contains(c),
{
    let j = choose|j: int| 0 <= j < s.len() && s[j] == c;
    assert(j < s.len() - 1);
    assert(s.drop_last()[j] == c);
}

/// The canonical text of a number given in fixed form with twelve
/// fractional digits (as `format!("{:.12}", x)` writes it).
pub fn trim_fixed(fixed: &str) -> (r: Vec<char>)
    ensures
        r@ == canonical(fixed@),
{
    let mut s = chars_of(fixed);
    if holds(&s, '.') {
        while s.len() > 0 && s[s.len() - 1] == '0'
            invariant
                s@.contains('.'),
                strip_zeros(s@) == strip_zeros(fixed@),
            decreases s.len(),
        {
            proof {
                lemma_drop_last_contains(s@, '.');
            }
            s.pop();
        }
    }
    assert(s@ == strip_zeros(fixed@));
    if s.len() > 0 && s[s.len() - 1] == '.' {
        s.pop();
    }
    if s.len() == 0 {
        s.push('0');
    }
    proof {
        assert(s@ =~= canonical(fixed@));
    }
    s
}

/// A whole number written with a point and trailing zeros loses both:
/// `canonical("42.000")` is `"42"`.
pub proof fn lemma_whole_number(digits: Seq<char>, zeros: nat)
    requires
        digits.len() > 0,
        !digits.contains('.'),
    ensures
        canonical(digits + seq!['.'] + Seq::new(zeros, |i: int| '0')) == digits,
    decreases zeros,
{
    let with_point = digits + seq!['.'];
    let s = with_point + Seq::new(zeros, |i: int| '0');
    assert(with_point.contains('.')) by {
        assert(with_point[digits.len() as int] == '.');
    }
    assert(s.contains('.')) by {
        assert(s[digits.len() as int] == '.');
    }
    if zeros == 0 {
        assert(s =~= with_point);
        assert(strip_zeros(s) == s);
        assert(strip_point(s) =~= digits);
    } else {
        let shorter = with_point + Seq::new((zeros - 1) as nat, |i: int| '0');
        assert(s.drop_last() =~= shorter);
        lemma_whole_number(digits, (zeros - 1) as nat);
        assert(strip_zeros(s) == strip_zeros(shorter));
    }
}

/// How many leading fractional digits remain once trailing zeros go: the
/// position just past the last nonzero digit among the first `k`.
pub open spec fn kept_digits(frac: Seq<char>, k: nat) -> nat
    decreases k,
{
    if k == 0 {
        0
    } else if frac[k - 1] == '0' {
        kept_digits(frac, (k - 1) as nat)
    } else {
        k
    }
}

proof fn lemma_kept_digits_bound(frac: Seq<char>, k: nat)
    ensures
        kept_digits(frac, k) <= k,
        kept_digits(frac, k) > 0 ==> frac[kept_digits(frac, k) - 1] != '0',
    decreases k,
{
    if k > 0 && frac[k - 1] == '0' {
        lemma_kept_digits_bound(frac, (k - 1) as nat);
    }
}

proof fn lemma_strip_fraction(int_part: Seq<char>, frac: Seq<char>, k: nat)
    requires
        k <= frac.len(),
    ensures
        strip_zeros(int_part + seq!['.'] + frac.subrange(0, k as int))
            == int_part + seq!['.'] + frac.subrange(0, kept_digits(frac, k) as int),
    decreases k,
{
    let w = int_part + seq!['.'];
    let s = w + frac.subrange(0, k as int);
    assert(s.contains('.')) by {
        assert(s[int_part.len() as int] == '.');
    }
    if k == 0 {
        assert(s =~= w);
    } else {
        assert(s.last() == frac[k - 1]);
        if frac[k - 1] == '0' {
            assert(s.drop_last() =~= w + frac.subrange(0, k - 1));
            lemma_strip_fraction(int_part, frac, (k - 1) as nat);
        }
    }
}

/// The canonical text of a fixed form `int_part.frac` (the host writes twelve
/// fractional digits) is never empty and never ends in a point: it is the
/// integer part alone, or the integer part, a point and a prefix of the
/// fraction that ends in a nonzero digit.
pub proof fn lemma_fixed_shape(int_part: Seq<char>, frac: Seq<char>)
    requires
        int_part.len() > 0,
        !int_part.contains('.'),
        !frac.contains('.'),
    ensures
        ({
            let r = canonical(int_part + seq!['.'] + frac);
            &&& r.len() > 0
            &&& r.last() != '.'
            &&& (r == int_part || exists|k: int|
                1 <= k <= frac.len() && frac[k - 1] != '0' && r == int_part + seq!['.']
                    + frac.subrange(0, k))
        }),
{
    let n = frac.len();
    assert(frac.subrange(0, n as int) =~= frac);
    lemma_strip_fraction(int_part, frac, n);
    lemma_kept_digits_bound(frac, n);
    let t = kept_digits(frac, n);
    let w = int_part + seq!['.'];
    let z = w + frac.subrange(0, t as int);
    if t == 0 {
        assert(z =~= w);
        assert(strip_point(z) =~= int_part);
        assert(int_part.last() != '.') by {
            if int_part.last() == '.' {
                assert(int_part[int_part.len() - 1] == '.');
            }
        }
    } else {
        assert(z.last() == frac[t - 1]);
        assert(frac[t - 1] != '.') by {
            if frac[t - 1] == '.' {
                assert(frac.contains('.'));
            }
        }
        assert(strip_point(z) == z);
    }
}

} // verus!
