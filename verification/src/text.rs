//! Character-level helpers shared by the rest of the library: whitespace
//! trimming and decimal rendering of integers.
use vstd::prelude::*;

verus! {

broadcast use vstd::string::group_string_axioms;

/// The characters of `s`, in order.
pub fn chars_of(s: &str) -> (v: Vec<char>)
    ensures
        v@ == s@,
{
    let mut v: Vec<char> = Vec::new();
    for c in it: s.chars()
        invariant
            v@ == it.history(),
    {
        v.push(c);
    }
    v
}

/// Whether `a` and `b` hold the same characters.
pub fn same_text(a: &str, b: &str) -> (r: bool)
    ensures
        r == (a@ == b@),
{
    a.to_owned() == b.to_owned()
}

/// Whether `c` has the Unicode `White_Space` property (the characters that
/// `char::is_whitespace` and `str::trim` treat as whitespace).
pub open spec fn is_white_space(c: char) -> bool {
    let u = c as u32;
    ||| 0x09 <= u <= 0x0d
    ||| u == 0x20
    ||| u == 0x85
    ||| u == 0xa0
    ||| u == 0x1680
    ||| 0x2000 <= u <= 0x200a
    ||| u == 0x2028
    ||| u == 0x2029
    ||| u == 0x202f
    ||| u == 0x205f
    ||| u == 0x3000
}

/// Executable test for `is_white_space`.
pub fn white_space(c: char) -> (b: bool)
    ensures
        b == is_white_space(c),
{
    let u = c as u32;
    (0x09 <= u && u <= 0x0d) || u == 0x20 || u == 0x85 || u == 0xa0 || u == 0x1680 || (0x2000
        <= u && u <= 0x200a) || u == 0x2028 || u == 0x2029 || u == 0x202f || u == 0x205f || u
        == 0x3000
}

/// `s` without its leading whitespace.
pub open spec fn trim_start(s: Seq<char>) -> Seq<char>
    decreases s.len(),
{
    if s.len() > 0 && is_white_space(s[0]) {
        trim_start(s.drop_first())
    } else {
        s
    }
}

/// `s` without its trailing whitespace.
pub open spec fn trim_end(s: Seq<char>) -> Seq<char>
    decreases s.len(),
{
    if s.len() > 0 && is_white_space(s.last()) {
        trim_end(s.drop_last())
    } else {
        s
    }
}

/// `s` without leading and trailing whitespace.
pub open spec fn trim(s: Seq<char>) -> Seq<char> {
    trim_end(trim_start(s))
}

proof fn lemma_trim_start(s: Seq<char>) -> (lo: int)
    ensures
        0 <= lo <= s.len(),
        trim_start(s) == s.skip(lo),
        forall|i: int| 0 <= i < lo ==> is_white_space(s[i]),
        lo < s.len() ==> !is_white_space(s[lo]),
    decreases s.len(),
{
    if s.len() > 0 && is_white_space(s[0]) {
        let k = lemma_trim_start(s.drop_first());
        assert(s.drop_first().skip(k) =~= s.skip(k + 1));
        assert forall|i: int| 0 <= i < k + 1 implies is_white_space(s[i]) by {
            if i > 0 {
                assert(s[i] == s.drop_first()[i - 1]);
            }
        }
        k + 1
    } else {
        assert(s.skip(0) =~= s);
        0
    }
}

proof fn lemma_trim_end(s: Seq<char>) -> (hi: int)
    ensures
        0 <= hi <= s.len(),
        trim_end(s) == s.subrange(0, hi),
        forall|i: int| hi <= i < s.len() ==> is_white_space(s[i]),
        hi > 0 ==> !is_white_space(s[hi - 1]),
    decreases s.len(),
{
    if s.len() > 0 && is_white_space(s.last()) {
        let k = lemma_trim_end(s.drop_last());
        assert(s.drop_last().subrange(0, k) =~= s.subrange(0, k));
        assert forall|i: int| k <= i < s.len() implies is_white_space(s[i]) by {
            if i < s.len() - 1 {
                assert(s[i] == s.drop_last()[i]);
            }
        }
        if k > 0 {
            assert(s[k - 1] == s.drop_last()[k - 1]);
        }
        k
    } else {
        assert(s.subrange(0, s.len() as int) =~= s);
        s.len() as int
    }
}

/// Trimming removes exactly the whitespace at both ends: the result is a
/// stretch of `s` with only whitespace before and after it, and it neither
/// starts nor ends with whitespace.
pub proof fn law_trim_strips_edges(s: Seq<char>)
    ensures
        exists|lo: int, hi: int|
            0 <= lo <= hi <= s.len() && trim(s) == s.subrange(lo, hi) && (forall|i: int|
                0 <= i < lo ==> is_white_space(#[trigger] s[i])) && (forall|i: int|
                hi <= i < s.len() ==> is_white_space(#[trigger] s[i])),
        trim(s).len() > 0 ==> !is_white_space(trim(s)[0]) && !is_white_space(trim(s).last()),
{
    let lo = lemma_trim_start(s);
    let t = s.skip(lo);
    let h = lemma_trim_end(t);
    let hi = lo + h;
    assert(t.subrange(0, h) =~= s.subrange(lo, hi));
    assert forall|i: int| hi <= i < s.len() implies is_white_space(s[i]) by {
        assert(s[i] == t[i - lo]);
    }
    if h > 0 {
        assert(trim(s)[0] == s[lo]);
        assert(!is_white_space(t[0]) || h == 0) by {
            if lo < s.len() {
                assert(t[0] == s[lo]);
            }
        }
    }
    assert(0 <= lo <= hi <= s.len() && trim(s) == s.subrange(lo, hi));
}

/// Returns `s` with leading and trailing Unicode whitespace removed.
pub fn trim_whitespace(s: &str) -> (r: String)
    ensures
        r@ == trim(s@),
{
    let v = chars_of(s);
    let n = v.len();
    let mut lo: usize = 0;
    assert(s@.skip(0) =~= s@);
    while lo < n && white_space(v[lo])
        invariant
            v@ == s@,
            n == v@.len(),
            lo <= n,
            trim_start(s@) == trim_start(s@.skip(lo as int)),
        decreases n - lo,
    {
        assert(s@.skip(lo as int).drop_first() =~= s@.skip(lo + 1));
        lo = lo + 1;
    }
    assert(trim_start(s@) == s@.subrange(lo as int, n as int)) by {
        assert(s@.skip(lo as int) =~= s@.subrange(lo as int, n as int));
    }
    let mut hi: usize = n;
    while hi > lo && white_space(v[hi - 1])
        invariant
            v@ == s@,
            n == v@.len(),
            lo <= hi <= n,
            trim(s@) == trim_end(s@.subrange(lo as int, hi as int)),
        decreases hi - lo,
    {
        assert(s@.subrange(lo as int, hi as int).drop_last() =~= s@.subrange(
            lo as int,
            hi - 1,
        ));
        hi = hi - 1;
    }
    let piece = s.substring_char(lo, hi);
    piece.to_owned()
}

/// The decimal digit character for `d` (`'0'` to `'9'`).
pub open spec fn digit_char(d: nat) -> char {
    (d + 48) as char
}

/// The decimal representation of `n`, most significant digit first, with no
/// leading zeros (`0` is written as `"0"`).
pub open spec fn decimal(n: nat) -> Seq<char>
    decreases n,
{
    if n < 10 {
        seq![digit_char(n)]
    } else {
        decimal(n / 10).push(digit_char(n % 10))
    }
}

/// The number that a string of decimal digits denotes.
pub open spec fn decimal_value(s: Seq<char>) -> int
    decreases s.len(),
{
    if s.len() == 0 {
        0
    } else {
        decimal_value(s.drop_last()) * 10 + (s.last() as int - 48)
    }
}

/// Reading back the decimal representation of `n` gives `n`.
pub proof fn lemma_decimal_value(n: nat)
    ensures
        decimal_value(decimal(n)) == n,
        decimal(n).len() >= 1,
    decreases n,
{
    if n < 10 {
        assert(digit_char(n) as int == n + 48);
        assert(seq![digit_char(n)].drop_last() =~= Seq::<char>::empty());
        assert(decimal_value(Seq::<char>::empty()) == 0);
    } else {
        assert(digit_char(n % 10) as int == n % 10 + 48);
        lemma_decimal_value(n / 10);
        assert(decimal(n).drop_last() =~= decimal(n / 10));
        assert((n / 10) * 10 + n % 10 == n) by (nonlinear_arith);
        assert(decimal(n).last() == digit_char(n % 10));
    }
}

/// Distinct numbers have distinct decimal representations.
pub proof fn lemma_decimal_injective(a: nat, b: nat)
    requires
        decimal(a) == decimal(b),
    ensures
        a == b,
{
    lemma_decimal_value(a);
    lemma_decimal_value(b);
}

/// Appends the decimal representation of `n` to `out`.
pub fn push_decimal(out: &mut String, n: u128)
    ensures
        final(out)@ == old(out)@ + decimal(n as nat),
    decreases n,
{
    if n >= 10 {
        push_decimal(out, n / 10);
    }
    let d = n % 10;
    let digits = "0123456789";
    proof {
        reveal_strlit("0123456789");
    }
    let ds = digits.substring_char(d as usize, d as usize + 1);
    assert(ds@ =~= seq![digit_char(d as nat)]);
    out.append(ds);
    proof {
        if n >= 10 {
            assert(decimal(n as nat) == decimal((n / 10) as nat).push(digit_char((n % 10) as nat)));
        }
    }
    assert(final(out)@ =~= old(out)@ + decimal(n as nat));
}


/// The decimal representation of a number's first digit is `'0'` only for
/// zero: there are no leading zeros.
pub proof fn lemma_decimal_leading_digit(n: nat)
    ensures
        decimal(n)[0] == '0' ==> n == 0,
        decimal(n).len() >= 1,
    decreases n,
{
    lemma_decimal_value(n);
    if n >= 10 {
        lemma_decimal_leading_digit(n / 10);
        assert(decimal(n)[0] == decimal(n / 10)[0]);
    } else {
        assert(digit_char(n) as int == n + 48);
    }
}

/// A number below `10^w` has at most `w` decimal digits (for `w` up to 4).
pub proof fn lemma_decimal_len_bound(n: nat, w: nat)
    requires
        1 <= w <= 4,
        n < pow10(w),
    ensures
        decimal(n).len() <= w,
    decreases w,
{
    assert(pow10(0) == 1);
    assert(pow10(1) == 10);
    if n >= 10 {
        assert(w >= 2);
        assert(pow10(w) == 10 * pow10((w - 1) as nat));
        assert(n / 10 < pow10((w - 1) as nat)) by (nonlinear_arith)
            requires
                n < 10 * pow10((w - 1) as nat),
        ;
        lemma_decimal_len_bound(n / 10, (w - 1) as nat);
    }
}

/// `10` to the power `w`, for the small widths used here.
pub open spec fn pow10(w: nat) -> nat
    decreases w,
{
    if w == 0 {
        1
    } else {
        10 * pow10((w - 1) as nat)
    }
}

/// `k` zero digits.
pub open spec fn zeros(k: nat) -> Seq<char> {
    Seq::new(k, |i: int| '0')
}

/// The decimal representation of `n`, zero-padded on the left to at least
/// `w` characters.
pub open spec fn padded(n: nat, w: nat) -> Seq<char> {
    let d = decimal(n);
    if d.len() < w {
        zeros((w - d.len()) as nat) + d
    } else {
        d
    }
}

/// Zero-padded numbers of a width they fit in are different for different
/// numbers.
proof fn lemma_padded_injective_within(a: nat, b: nat, w: nat)
    requires
        decimal(a).len() <= w,
        decimal(b).len() <= w,
        padded(a, w) == padded(b, w),
    ensures
        a == b,
{
    let da = decimal(a);
    let db = decimal(b);
    lemma_decimal_leading_digit(a);
    lemma_decimal_leading_digit(b);
    let ka = w - da.len();
    let kb = w - db.len();
    let p = padded(a, w);
    assert(p.len() == w);
    assert(forall|i: int| 0 <= i < ka ==> p[i] == '0');
    assert(forall|i: int| ka <= i < w ==> p[i] == da[i - ka]);
    assert(forall|i: int| 0 <= i < kb ==> padded(b, w)[i] == '0');
    assert(forall|i: int| kb <= i < w ==> padded(b, w)[i] == db[i - kb]);
    assert(decimal(0) == seq![digit_char(0)]);
    if da.len() == db.len() {
        assert forall|i: int| 0 <= i < da.len() implies da[i] == db[i] by {
            assert(p[ka + i] == da[i]);
            assert(padded(b, w)[kb + i] == db[i]);
        }
        assert(da =~= db);
        lemma_decimal_injective(a, b);
    } else if da.len() < db.len() {
        assert(p[kb] == '0');
        assert(padded(b, w)[kb] == db[0]);
    } else {
        assert(padded(b, w)[ka] == '0');
        assert(p[ka] == da[0]);
    }
}

proof fn lemma_zeros_value(k: nat)
    ensures
        decimal_value(zeros(k)) == 0,
    decreases k,
{
    if k > 0 {
        assert(zeros(k).drop_last() =~= zeros((k - 1) as nat));
        lemma_zeros_value((k - 1) as nat);
    }
}

proof fn lemma_leading_zeros_value(k: nat, d: Seq<char>)
    ensures
        decimal_value(zeros(k) + d) == decimal_value(d),
    decreases d.len(),
{
    if d.len() == 0 {
        assert(zeros(k) + d =~= zeros(k));
        lemma_zeros_value(k);
    } else {
        assert((zeros(k) + d).drop_last() =~= zeros(k) + d.drop_last());
        assert((zeros(k) + d).last() == d.last());
        lemma_leading_zeros_value(k, d.drop_last());
    }
}

/// Reading back a zero-padded number gives the number.
pub proof fn lemma_padded_value(n: nat, w: nat)
    ensures
        decimal_value(padded(n, w)) == n,
{
    lemma_decimal_value(n);
    if decimal(n).len() < w {
        lemma_leading_zeros_value((w - decimal(n).len()) as nat, decimal(n));
    }
}

/// Zero-padded numbers are different for different numbers, whatever
/// their number of digits.
pub proof fn lemma_padded_injective(a: nat, b: nat, w: nat)
    requires
        padded(a, w) == padded(b, w),
    ensures
        a == b,
{
    let la = decimal(a).len();
    let lb = decimal(b).len();
    if la <= w && lb <= w {
        lemma_padded_injective_within(a, b, w);
    } else if la >= w && lb >= w {
        assert(padded(a, w) == decimal(a));
        assert(padded(b, w) == decimal(b));
        lemma_decimal_injective(a, b);
    } else {
        assert(padded(a, w).len() != padded(b, w).len());
    }
}

/// A zero-padded number has at least its width, and exactly its width where
/// it fits.
pub proof fn lemma_padded_len(n: nat, w: nat)
    ensures
        padded(n, w).len() >= w,
        padded(n, w).len() >= decimal(n).len(),
        decimal(n).len() <= w ==> padded(n, w).len() == w,
{
}

/// A number has no more decimal digits than one plus itself.
proof fn lemma_decimal_len_small(n: nat)
    ensures
        decimal(n).len() <= n + 1,
    decreases n,
{
    if n >= 10 {
        lemma_decimal_len_small(n / 10);
    }
}

/// The number of decimal digits of `n`.
pub fn decimal_len(n: u32) -> (len: u64)
    ensures
        len == decimal(n as nat).len(),
    decreases n,
{
    proof {
        lemma_decimal_len_small(n as nat);
    }
    if n < 10 {
        1
    } else {
        let k = decimal_len(n / 10);
        k + 1
    }
}

/// Appends `n` in decimal, zero-padded on the left to at least `w` digits.
pub fn push_padded(out: &mut String, n: u32, w: u64)
    ensures
        final(out)@ == old(out)@ + padded(n as nat, w as nat),
{
    let len = decimal_len(n);
    proof {
        reveal_strlit("0");
    }
    if len < w {
        let mut k: u64 = 0;
        while k < w - len
            invariant
                k <= w - len,
                len < w,
                out@ == old(out)@ + zeros(k as nat),
            decreases w - len - k,
        {
            out.append("0");
            proof {
                reveal_strlit("0");
            }
            assert(out@ =~= old(out)@ + zeros((k + 1) as nat));
            k = k + 1;
        }
    }
    let ghost before = out@;
    push_decimal(out, n as u128);
    assert(final(out)@ =~= old(out)@ + padded(n as nat, w as nat));
}

} // verus!
