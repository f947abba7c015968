//! Character-level string helpers shared by the parsers and formatters.
//!
//! Strings are reasoned about through their views, `Seq<char>`.

use vstd::prelude::*;

verus! {

/// The Unicode `White_Space` property, which decides what `str::trim` removes.
pub open spec fn is_white_space(c: char) -> bool {
    let n = c as u32;
    ||| (0x09 <= n && n <= 0x0D)
    ||| n == 0x20
    ||| n == 0x85
    ||| n == 0xA0
    ||| n == 0x1680
    ||| (0x2000 <= n && n <= 0x200A)
    ||| n == 0x2028
    ||| n == 0x2029
    ||| n == 0x202F
    ||| n == 0x205F
    ||| n == 0x3000
}

/// Number of leading white-space characters of `s`.
pub open spec fn leading_ws(s: Seq<char>) -> nat
    decreases s.len(),
{
    if s.len() > 0 && is_white_space(s[0]) {
        1 + leading_ws(s.drop_first())
    } else {
        0
    }
}

/// Number of trailing white-space characters of `s`.
pub open spec fn trailing_ws(s: Seq<char>) -> nat
    decreases s.len(),
{
    if s.len() > 0 && is_white_space(s.last()) {
        1 + trailing_ws(s.drop_last())
    } else {
        0
    }
}

/// `s` with leading and trailing white space removed.
pub open spec fn trim_spec(s: Seq<char>) -> Seq<char> {
    let lo = leading_ws(s) as int;
    if lo == s.len() {
        Seq::empty()
    } else {
        s.subrange(lo, s.len() - trailing_ws(s) as int)
    }
}

pub proof fn lemma_leading_ws_bounds(s: Seq<char>)
    ensures
        leading_ws(s) <= s.len(),
        forall|i: int| 0 <= i < leading_ws(s) ==> is_white_space(#[trigger] s[i]),
        leading_ws(s) < s.len() ==> !is_white_space(s[leading_ws(s) as int]),
    decreases s.len(),
{
    if s.len() > 0 && is_white_space(s[0]) {
        lemma_leading_ws_bounds(s.drop_first());
        assert forall|i: int| 0 <= i < leading_ws(s) implies is_white_space(#[trigger] s[i]) by {
            if i > 0 {
                assert(s[i] == s.drop_first()[i - 1]);
            }
        }
    }
}

pub proof fn lemma_trailing_ws_bounds(s: Seq<char>)
    ensures
        trailing_ws(s) <= s.len(),
        forall|i: int| s.len() - trailing_ws(s) <= i < s.len() ==> is_white_space(#[trigger] s[i]),
        trailing_ws(s) < s.len() ==> !is_white_space(s[s.len() - trailing_ws(s) - 1]),
    decreases s.len(),
{
    if s.len() > 0 && is_white_space(s.last()) {
        lemma_trailing_ws_bounds(s.drop_last());
        assert forall|i: int| s.len() - trailing_ws(s) <= i < s.len() implies is_white_space(
            #[trigger] s[i],
        ) by {
            if i < s.len() - 1 {
                assert(s[i] == s.drop_last()[i]);
            }
        }
    }
}

/// A leading run of white space of length `k` followed by a non-space determines `leading_ws`.
proof fn lemma_leading_ws_is(s: Seq<char>, k: int)
    requires
        0 <= k <= s.len(),
        forall|i: int| 0 <= i < k ==> is_white_space(#[trigger] s[i]),
        k < s.len() ==> !is_white_space(s[k]),
    ensures
        leading_ws(s) == k,
    decreases k,
{
    if k > 0 {
        assert(is_white_space(s[0]));
        let t = s.drop_first();
        assert forall|i: int| 0 <= i < k - 1 implies is_white_space(#[trigger] t[i]) by {
            assert(t[i] == s[i + 1]);
        }
        if k - 1 < t.len() {
            assert(t[k - 1] == s[k]);
        }
        lemma_leading_ws_is(t, k - 1);
    }
}

proof fn lemma_trailing_ws_is(s: Seq<char>, k: int)
    requires
        0 <= k <= s.len(),
        forall|i: int| s.len() - k <= i < s.len() ==> is_white_space(#[trigger] s[i]),
        k < s.len() ==> !is_white_space(s[s.len() - k - 1]),
    ensures
        trailing_ws(s) == k,
    decreases k,
{
    if k > 0 {
        assert(is_white_space(s[s.len() - 1]));
        let t = s.drop_last();
        assert forall|i: int| t.len() - (k - 1) <= i < t.len() implies is_white_space(
            #[trigger] t[i],
        ) by {
            assert(t[i] == s[i]);
        }
        if k - 1 < t.len() {
            assert(t[t.len() - (k - 1) - 1] == s[s.len() - k - 1]);
        }
        lemma_trailing_ws_is(t, k - 1);
    }
}

/// Trimming twice is trimming once.
pub proof fn lemma_trim_idempotent(s: Seq<char>)
    ensures
        trim_spec(trim_spec(s)) == trim_spec(s),
{
    let t = trim_spec(s);
    lemma_leading_ws_bounds(s);
    lemma_trailing_ws_bounds(s);
    if t.len() == 0 {
        assert(leading_ws(t) == 0);
        assert(trim_spec(t) =~= t);
    } else {
        let lo = leading_ws(s) as int;
        let hi = s.len() - trailing_ws(s) as int;
        if hi <= lo {
            // a non-space at index lo lies in the trailing run: impossible
            assert(is_white_space(s[lo]));
        }
        assert(t[0] == s[lo]);
        assert(t[t.len() - 1] == s[hi - 1]);
        lemma_leading_ws_is(t, 0);
        lemma_trailing_ws_is(t, 0);
        assert(trim_spec(t) =~= t);
    }
}

/// Whether `c` is Unicode white space.
pub fn is_white_space_char(c: char) -> (b: bool)
    ensures
        b == is_white_space(c),
{
    let n = c as u32;
    (0x09 <= n && n <= 0x0D) || n == 0x20 || n == 0x85 || n == 0xA0 || n == 0x1680 || (0x2000
        <= n && n <= 0x200A) || n == 0x2028 || n == 0x2029 || n == 0x202F || n == 0x205F || n
        == 0x3000
}

/// `s` with leading and trailing Unicode white space removed, as `str::trim` does.
pub fn trim(s: &str) -> (r: &str)
    ensures
        r@ == trim_spec(s@),
{
    let n = s.unicode_len();
    let mut lo: usize = 0;
    while lo < n && is_white_space_char(s.get_char(lo))
        invariant
            n == s@.len(),
            lo <= n,
            forall|i: int| 0 <= i < lo ==> is_white_space(#[trigger] s@[i]),
        decreases n - lo,
    {
        lo = lo + 1;
    }
    proof {
        lemma_leading_ws_is(s@, lo as int);
    }
    if lo == n {
        return s.substring_char(n, n);
    }
    let mut hi: usize = n;
    while hi > lo && is_white_space_char(s.get_char(hi - 1))
        invariant
            n == s@.len(),
            lo < n,
            lo <= hi <= n,
            !is_white_space(s@[lo as int]),
            forall|i: int| hi <= i < n ==> is_white_space(#[trigger] s@[i]),
        decreases hi,
    {
        hi = hi - 1;
    }
    proof {
        lemma_trailing_ws_is(s@, (n - hi) as int);
    }
    s.substring_char(lo, hi)
}

/// Whether the characters of `a` and `b` are the same.
pub fn str_eq(a: &str, b: &str) -> (r: bool)
    ensures
        r == (a@ == b@),
{
    let n = a.unicode_len();
    let m = b.unicode_len();
    if n != m {
        return false;
    }
    let mut i: usize = 0;
    while i < n
        invariant
            n == a@.len(),
            m == b@.len(),
            n == m,
            i <= n,
            forall|j: int| 0 <= j < i ==> a@[j] == b@[j],
        decreases n - i,
    {
        if a.get_char(i) != b.get_char(i) {
            return false;
        }
        i = i + 1;
    }
    assert(a@ =~= b@);
    true
}

/// Whether `p` is a prefix of `s`.
pub open spec fn has_prefix(s: Seq<char>, p: Seq<char>) -> bool {
    p.len() <= s.len() && s.subrange(0, p.len() as int) == p
}

/// `s` without the prefix `p`, when `s` starts with `p`, as `str::strip_prefix` does.
pub fn strip_prefix<'a>(s: &'a str, p: &str) -> (r: Option<&'a str>)
    ensures
        has_prefix(s@, p@) ==> (r matches Some(rest) && rest@ == s@.subrange(
            p@.len() as int,
            s@.len() as int,
        )),
        !has_prefix(s@, p@) ==> r is None,
{
    let n = s.unicode_len();
    let m = p.unicode_len();
    if m > n {
        return None;
    }
    let mut i: usize = 0;
    while i < m
        invariant
            n == s@.len(),
            m == p@.len(),
            m <= n,
            i <= m,
            forall|j: int| 0 <= j < i ==> s@[j] == p@[j],
        decreases m - i,
    {
        if s.get_char(i) != p.get_char(i) {
            assert(s@.subrange(0, m as int)[i as int] != p@[i as int]);
            return None;
        }
        i = i + 1;
    }
    assert(s@.subrange(0, m as int) =~= p@);
    Some(s.substring_char(m, n))
}

/// Splits `s` at the first `c`, as `str::split_once` with a character does.
pub fn split_once<'a>(s: &'a str, c: char) -> (r: Option<(&'a str, &'a str)>)
    ensures
        match r {
            Some((a, b)) => exists|i: int|
                0 <= i < s@.len() && s@[i] == c && (forall|j: int| 0 <= j < i ==> s@[j] != c)
                    && a@ == s@.subrange(0, i) && b@ == s@.subrange(i + 1, s@.len() as int),
            None => forall|i: int| 0 <= i < s@.len() ==> s@[i] != c,
        },
{
    let n = s.unicode_len();
    let mut i: usize = 0;
    while i < n
        invariant
            n == s@.len(),
            i <= n,
            forall|j: int| 0 <= j < i ==> s@[j] != c,
        decreases n - i,
    {
        if s.get_char(i) == c {
            return Some((s.substring_char(0, i), s.substring_char(i + 1, n)));
        }
        i = i + 1;
    }
    None
}

} // verus!

verus! {

/// The decimal digit character of `d < 10`.
pub open spec fn digit_char(d: nat) -> char {
    if d == 0 { '0' }
    else if d == 1 { '1' }
    else if d == 2 { '2' }
    else if d == 3 { '3' }
    else if d == 4 { '4' }
    else if d == 5 { '5' }
    else if d == 6 { '6' }
    else if d == 7 { '7' }
    else if d == 8 { '8' }
    else { '9' }
}

/// Decimal representation of `n`, without leading zeros.
pub open spec fn decimal(n: nat) -> Seq<char>
    decreases n,
{
    if n < 10 {
        seq![digit_char(n)]
    } else {
        decimal(n / 10).push(digit_char(n % 10))
    }
}

/// `s` preceded by zeros up to `width` characters.
pub open spec fn zero_padded(s: Seq<char>, width: nat) -> Seq<char> {
    if s.len() >= width {
        s
    } else {
        Seq::new((width - s.len()) as nat, |i: int| '0') + s
    }
}

/// The one-character string of a decimal digit.
pub fn digit_str(d: u64) -> (r: &'static str)
    requires
        d < 10,
    ensures
        r@ == seq![digit_char(d as nat)],
{
    proof {
        reveal_strlit("0");
        reveal_strlit("1");
        reveal_strlit("2");
        reveal_strlit("3");
        reveal_strlit("4");
        reveal_strlit("5");
        reveal_strlit("6");
        reveal_strlit("7");
        reveal_strlit("8");
        reveal_strlit("9");
    }
    if d == 0 { "0" }
    else if d == 1 { "1" }
    else if d == 2 { "2" }
    else if d == 3 { "3" }
    else if d == 4 { "4" }
    else if d == 5 { "5" }
    else if d == 6 { "6" }
    else if d == 7 { "7" }
    else if d == 8 { "8" }
    else { "9" }
}

/// Decimal representation of `n`.
pub fn to_decimal(n: u64) -> (r: String)
    ensures
        r@ == decimal(n as nat),
    decreases n,
{
    if n < 10 {
        String::from_str(digit_str(n))
    } else {
        let mut s = to_decimal(n / 10);
        s.append(digit_str(n % 10));
        s
    }
}

/// Decimal representation of `n`, with leading zeros up to `width` characters.
pub fn to_decimal_padded(n: u64, width: usize) -> (r: String)
    ensures
        r@ == zero_padded(decimal(n as nat), width as nat),
{
    let s = to_decimal(n);
    let len = s.as_str().unicode_len();
    if len >= width {
        return s;
    }
    let mut r = String::from_str("");
    proof {
        reveal_strlit("");
        reveal_strlit("0");
        assert("0"@ =~= seq!['0']);
        assert(r@ =~= Seq::new(0, |k: int| '0'));
    }
    let mut i: usize = 0;
    while i < width - len
        invariant
            len == s@.len(),
            len < width,
            i <= width - len,
            r@ == Seq::new(i as nat, |k: int| '0'),
            "0"@ == seq!['0'],
        decreases width - len - i,
    {
        r.append("0");
        i = i + 1;
        assert(r@ =~= Seq::new(i as nat, |k: int| '0'));
    }
    r.append(s.as_str());
    assert(r@ =~= zero_padded(decimal(n as nat), width as nat));
    r
}

/// The decimal representation is never empty.
pub proof fn lemma_decimal_nonempty(n: nat)
    ensures
        decimal(n).len() >= 1,
    decreases n,
{
    if n >= 10 {
        lemma_decimal_nonempty(n / 10);
    }
}

/// A number below `10^k` has at most `k` digits.
pub proof fn lemma_decimal_len_bound(n: nat, k: nat, bound: nat)
    requires
        n < bound,
        bound == vstd::arithmetic::power::pow(10, k),
        k >= 1,
    ensures
        decimal(n).len() <= k,
    decreases n,
{
    vstd::arithmetic::power::lemma_pow_positive(10, k);
    if n >= 10 {
        if k == 1 {
            vstd::arithmetic::power::lemma_pow1(10);
        } else {
            vstd::arithmetic::power::lemma_pow_adds(10, 1, (k - 1) as nat);
            vstd::arithmetic::power::lemma_pow1(10);
            let b2 = vstd::arithmetic::power::pow(10, (k - 1) as nat);
            assert(bound == 10 * b2);
            assert(n / 10 < b2) by (nonlinear_arith)
                requires n < bound, bound == 10 * b2, b2 > 0;
            lemma_decimal_len_bound(n / 10, (k - 1) as nat, b2 as nat);
        }
    }
}

} // verus!

verus! {

/// Decimal representation of a signed number, zero-padded to `width` characters with the
/// sign counted in the width (as `format!("{:0width$}", v)` writes it).
pub open spec fn signed_padded(v: int, width: nat) -> Seq<char> {
    if v >= 0 {
        zero_padded(decimal(v as nat), width)
    } else {
        seq!['-'] + zero_padded(decimal((-v) as nat), if width >= 1 { (width - 1) as nat } else { 0 })
    }
}

/// Decimal representation of a signed number, zero-padded to `width` characters with the
/// sign counted in the width.
pub fn to_signed_padded(v: i64, width: usize) -> (r: String)
    requires
        width >= 1,
    ensures
        r@ == signed_padded(v as int, width as nat),
{
    if v >= 0 {
        to_decimal_padded(v as u64, width)
    } else {
        let m: u64 = (-(v as i128)) as u64;
        let mut s = String::from_str("-");
        proof {
            reveal_strlit("-");
        }
        let d = to_decimal_padded(m, width - 1);
        s.append(d.as_str());
        assert(s@ =~= signed_padded(v as int, width as nat));
        s
    }
}


/// Decimal representation of a signed number, with a '-' before negative ones (as
/// `format!("{}", v)` writes it).
pub open spec fn signed_decimal(v: int) -> Seq<char> {
    if v >= 0 {
        decimal(v as nat)
    } else {
        seq!['-'] + decimal((-v) as nat)
    }
}

/// Decimal representation of a signed number.
pub fn to_signed_decimal(v: i64) -> (r: String)
    ensures
        r@ == signed_decimal(v as int),
{
    if v >= 0 {
        to_decimal(v as u64)
    } else {
        let m: u64 = (-(v as i128)) as u64;
        let mut s = String::from_str("-");
        proof {
            reveal_strlit("-");
        }
        let d = to_decimal(m);
        s.append(d.as_str());
        assert(s@ =~= signed_decimal(v as int));
        s
    }
}
} // verus!

verus! {

/// The characters of an optional string.
pub open spec fn opt_chars(o: Option<String>) -> Option<Seq<char>> {
    match o {
        Some(s) => Some(s@),
        None => None,
    }
}

/// A string trimmed of white space; empty or blank strings count as absent.
pub open spec fn normalized(o: Option<Seq<char>>) -> Option<Seq<char>> {
    match o {
        Some(s) => if trim_spec(s).len() == 0 {
            None
        } else {
            Some(trim_spec(s))
        },
        None => None,
    }
}

/// The characters of an optional string slice.
pub open spec fn opt_chars_str(o: Option<&str>) -> Option<Seq<char>> {
    match o {
        Some(s) => Some(s@),
        None => None,
    }
}


/// A copy of an optional string.
pub fn clone_opt_string(o: &Option<String>) -> (r: Option<String>)
    ensures
        r == *o,
{
    match o {
        Some(s) => Some(s.clone()),
        None => None,
    }
}

} // verus!
