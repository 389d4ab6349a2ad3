use vstd::prelude::*;

verus! {

/// An ASCII decimal digit.
pub open spec fn is_digit(c: char) -> bool {
    '0' <= c <= '9'
}

/// The value of a digit; zero for any other character.
pub open spec fn digit_value(c: char) -> nat {
    if is_digit(c) {
        (c as int - '0' as int) as nat
    } else {
        0
    }
}

/// The value of a run of decimal digits, most significant first.
pub open spec fn digits_value(t: Seq<char>) -> nat
    decreases t.len(),
{
    if t.len() == 0 {
        0
    } else {
        digits_value(t.drop_last()) * 10 + digit_value(t.last())
    }
}

/// Every character of `t` is a digit.
pub open spec fn all_digits(t: Seq<char>) -> bool {
    forall|i: int| 0 <= i < t.len() ==> is_digit(t[i])
}

/// A token of digits read as a count: none where it is empty, holds another
/// character, or stands for a count beyond `u64::MAX`.
pub open spec fn parse_count(t: Seq<char>) -> Option<nat> {
    if t.len() > 0 && all_digits(t) && digits_value(t) <= u64::MAX {
        Some(digits_value(t))
    } else {
        None
    }
}

/// A prefix of a digit run is worth no more than the whole run.
pub proof fn lemma_prefix_value_le(t: Seq<char>, i: int)
    requires
        0 <= i <= t.len(),
    ensures
        digits_value(t.take(i)) <= digits_value(t),
    decreases t.len(),
{
    if i < t.len() {
        assert(t.drop_last().take(i) =~= t.take(i));
        lemma_prefix_value_le(t.drop_last(), i);
    } else {
        assert(t.take(i) =~= t);
    }
}

/// The value of the digits `t[lo..hi]`, or none where it exceeds `u64::MAX`.
pub fn digits_value_of(t: &Vec<char>, lo: usize, hi: usize) -> (r: Option<u64>)
    requires
        lo <= hi <= t.len(),
        all_digits(t@.subrange(lo as int, hi as int)),
    ensures
        r == (if digits_value(t@.subrange(lo as int, hi as int)) <= u64::MAX {
            Some(digits_value(t@.subrange(lo as int, hi as int)) as u64)
        } else {
            None::<u64>
        }),
{
    let ghost s = t@.subrange(lo as int, hi as int);
    let mut v: u64 = 0;
    let mut i: usize = lo;
    assert(s.take(0) =~= Seq::<char>::empty());
    while i < hi
        invariant
            lo <= i <= hi <= t.len(),
            s == t@.subrange(lo as int, hi as int),
            all_digits(s),
            v == digits_value(s.take(i - lo)),
        decreases hi - i,
    {
        let c = t[i];
        assert(s[i - lo] == c);
        assert(is_digit(c));
        let d = (c as u32 - '0' as u32) as u64;
        assert(s.take(i - lo + 1).drop_last() =~= s.take(i - lo));
        assert(d == digit_value(c));
        if v > (u64::MAX - d) / 10 {
            assert(digits_value(s.take(i - lo + 1)) > u64::MAX) by (nonlinear_arith)
                requires
                    digits_value(s.take(i - lo + 1)) == v * 10 + d,
                    v > (u64::MAX - d) / 10,
                    d <= 9,
            ;
            proof {
                lemma_prefix_value_le(s, i - lo + 1);
            }
            return None;
        }
        v = v * 10 + d;
        i = i + 1;
    }
    assert(s.take(hi - lo) =~= s);
    Some(v)
}

/// Reads a token of digits as a count.
pub fn parse_count_exec(t: &Vec<char>) -> (r: Option<u64>)
    ensures
        r matches Some(v) ==> parse_count(t@) == Some(v as nat),
        r is None ==> parse_count(t@) is None,
{
    if t.len() == 0 {
        return None;
    }
    let mut i: usize = 0;
    while i < t.len()
        invariant
            i <= t.len(),
            forall|k: int| 0 <= k < i ==> is_digit(t@[k]),
        decreases t.len() - i,
    {
        if !(t[i] >= '0' && t[i] <= '9') {
            return None;
        }
        i = i + 1;
    }
    assert(t@.subrange(0, t.len() as int) =~= t@);
    digits_value_of(t, 0, t.len())
}

/// The number of dots in `t`.
pub open spec fn dot_count(t: Seq<char>) -> nat
    decreases t.len(),
{
    if t.len() == 0 {
        0
    } else {
        dot_count(t.drop_last()) + if t.last() == '.' {
            1nat
        } else {
            0nat
        }
    }
}

/// A token of digits and dots that reads as a decimal number: at most one dot
/// and at least one digit (the tokens that `f32::from_str` accepts among them).
pub open spec fn amount_ok(t: Seq<char>) -> bool {
    &&& forall|i: int| 0 <= i < t.len() ==> (is_digit(t[i]) || t[i] == '.')
    &&& dot_count(t) <= 1
    &&& t.len() > dot_count(t)
}

/// Where the dot stands in `t`, or its length if it has none.
pub open spec fn dot_index(t: Seq<char>) -> int {
    if exists|i: int| 0 <= i < t.len() && t[i] == '.' {
        choose|i: int| 0 <= i < t.len() && t[i] == '.'
    } else {
        t.len() as int
    }
}

/// The first three digits of a fraction, padded with zeros.
pub open spec fn three_places(f: Seq<char>) -> Seq<char> {
    if f.len() >= 3 {
        f.take(3)
    } else if f.len() == 2 {
        f + seq!['0']
    } else if f.len() == 1 {
        f + seq!['0', '0']
    } else {
        seq!['0', '0', '0']
    }
}

/// The digits after the dot of `t`; none where it has no dot.
pub open spec fn fraction_part(t: Seq<char>) -> Seq<char> {
    if dot_index(t) < t.len() {
        t.skip(dot_index(t) + 1)
    } else {
        Seq::empty()
    }
}

/// The amount a decimal token stands for, in thousandths; places past the third
/// are dropped.
pub open spec fn amount_thousandths(t: Seq<char>) -> nat {
    digits_value(t.take(dot_index(t))) * 1000 + digits_value(three_places(fraction_part(t)))
}

/// `v`, or `u64::MAX` where it is larger.
pub open spec fn saturate(v: nat) -> nat {
    if v <= u64::MAX {
        v
    } else {
        u64::MAX as nat
    }
}

proof fn lemma_dot_count_split(t: Seq<char>, i: int)
    requires
        0 <= i <= t.len(),
    ensures
        dot_count(t) == dot_count(t.take(i)) + dot_count(t.skip(i)),
    decreases t.len() - i,
{
    if i < t.len() {
        lemma_dot_count_split(t, i + 1);
        assert(t.take(i + 1).drop_last() =~= t.take(i));
        lemma_dot_count_prepend(t.skip(i));
        assert(t.skip(i).drop_first() =~= t.skip(i + 1));
    } else {
        assert(t.take(i) =~= t);
        assert(t.skip(i) =~= Seq::<char>::empty());
    }
}

proof fn lemma_dot_count_prepend(t: Seq<char>)
    requires
        t.len() > 0,
    ensures
        dot_count(t) == dot_count(t.drop_first()) + if t[0] == '.' {
            1nat
        } else {
            0nat
        },
    decreases t.len(),
{
    if t.len() > 1 {
        lemma_dot_count_prepend(t.drop_last());
        assert(t.drop_last().drop_first() =~= t.drop_first().drop_last());
    } else {
        assert(t.drop_first() =~= Seq::<char>::empty());
        assert(t.drop_last() =~= Seq::<char>::empty());
    }
}

/// Reads a token of digits and dots as thousandths, saturating at `u64::MAX`.
pub fn parse_amount(t: &Vec<char>) -> (r: Option<u64>)
    ensures
        amount_ok(t@) ==> r == Some(saturate(amount_thousandths(t@)) as u64),
        !amount_ok(t@) ==> r is None,
{
    let mut dot: usize = t.len();
    let mut dots: usize = 0;
    let mut digits: usize = 0;
    let mut i: usize = 0;
    while i < t.len()
        invariant
            i <= t.len(),
            forall|k: int| 0 <= k < i ==> (is_digit(t@[k]) || t@[k] == '.'),
            dots == dot_count(t@.take(i as int)),
            digits + dots == i,
            dots <= 1,
            dots == 0 ==> dot == t.len() && forall|k: int| 0 <= k < i ==> t@[k] != '.',
            dots == 1 ==> dot < i && t@[dot as int] == '.' && forall|k: int|
                0 <= k < i && k != dot ==> t@[k] != '.',
        decreases t.len() - i,
    {
        let c = t[i];
        assert(t@.take(i + 1).drop_last() =~= t@.take(i as int));
        if c == '.' {
            if dots == 1 {
                proof {
                    lemma_dot_count_split(t@, i + 1);
                }
                return None;
            }
            dot = i;
            dots = 1;
        } else if c >= '0' && c <= '9' {
            digits = digits + 1;
        } else {
            return None;
        }
        i = i + 1;
    }
    assert(t@.take(t.len() as int) =~= t@);
    if digits == 0 {
        return None;
    }
    assert(amount_ok(t@));
    assert(dot_index(t@) == dot) by {
        if dots == 1 {
            let j = choose|j: int| 0 <= j < t@.len() && t@[j] == '.';
            assert(j == dot);
        }
    }
    assert(all_digits(t@.subrange(0, dot as int)));
    assert(t@.subrange(0, dot as int) =~= t@.take(dot as int));
    let whole = digits_value_of(t, 0, dot);
    let start: usize = if dot < t.len() { dot + 1 } else { t.len() };
    let ghost frac = fraction_part(t@);
    assert(t@.subrange(start as int, t.len() as int) =~= frac);
    let mut places: Vec<char> = Vec::new();
    let mut k: usize = 0;
    while k < 3
        invariant
            k <= 3,
            start <= t.len(),
            t@.subrange(start as int, t.len() as int) == frac,
            places@ == three_places(frac).take(k as int),
        decreases 3 - k,
    {
        if k < t.len() - start {
            places.push(t[start + k]);
        } else {
            places.push('0');
        }
        assert(places@ =~= three_places(frac).take(k + 1));
        k = k + 1;
    }
    assert(places@ =~= three_places(frac));
    assert(all_digits(places@));
    assert(places@.subrange(0, 3) =~= places@);
    let fraction = digits_value_of(&places, 0, 3);
    assert(digits_value(places@) <= 999) by {
        reveal_with_fuel(digits_value, 4);
        assert(places@.drop_last().drop_last().drop_last() =~= Seq::<char>::empty());
    }
    let fraction = match fraction {
        Some(f) => f,
        None => 0,
    };
    match whole {
        Some(w) => {
            if w > (u64::MAX - fraction) / 1000 {
                assert(w * 1000 + fraction > u64::MAX) by (nonlinear_arith)
                    requires
                        w > (u64::MAX - fraction) / 1000,
                        fraction <= 999,
                ;
                Some(u64::MAX)
            } else {
                assert(w * 1000 + fraction <= u64::MAX) by (nonlinear_arith)
                    requires
                        w <= (u64::MAX - fraction) / 1000,
                        fraction <= 999,
                ;
                Some(w * 1000 + fraction)
            }
        },
        None => {
            assert(amount_thousandths(t@) > u64::MAX) by (nonlinear_arith)
                requires
                    amount_thousandths(t@) >= digits_value(t@.take(dot as int)) * 1000,
                    digits_value(t@.take(dot as int)) > u64::MAX,
            ;
            Some(u64::MAX)
        },
    }
}

/// The digit character for `d`, below ten.
pub open spec fn digit_char(d: nat) -> char {
    seq!['0', '1', '2', '3', '4', '5', '6', '7', '8', '9'][d as int]
}

/// `n` written in decimal, without leading zeros.
pub open spec fn decimal(n: nat) -> Seq<char>
    decreases n,
{
    if n < 10 {
        seq![digit_char(n)]
    } else {
        decimal(n / 10).push(digit_char(n % 10))
    }
}

fn digit_exec(d: u64) -> (c: char)
    requires
        d < 10,
    ensures
        c == digit_char(d as nat),
{
    let digits = ['0', '1', '2', '3', '4', '5', '6', '7', '8', '9'];
    assert(digits@ == seq!['0', '1', '2', '3', '4', '5', '6', '7', '8', '9']);
    digits[d as usize]
}

fn push_decimal(n: u64, out: &mut Vec<char>)
    ensures
        final(out)@ == old(out)@ + decimal(n as nat),
    decreases n,
{
    if n >= 10 {
        push_decimal(n / 10, out);
    }
    let ghost before = out@;
    out.push(digit_exec(n % 10));
    proof {
        if n >= 10 {
            assert(out@ =~= old(out)@ + decimal(n as nat));
        } else {
            assert(out@ =~= old(out)@ + decimal(n as nat));
        }
    }
}

/// `n` written in decimal.
pub fn decimal_text(n: u64) -> (r: String)
    ensures
        r@ == decimal(n as nat),
{
    let mut out: Vec<char> = Vec::new();
    push_decimal(n, &mut out);
    assert(out@ =~= decimal(n as nat));
    crate::text::string_of(&out)
}

} // verus!
