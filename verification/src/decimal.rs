//! Decimal rendering of unsigned integers, as used for record ids and dates.
use vstd::prelude::*;

verus! {

/// The ASCII digit for `d` (meant for `d < 10`).
pub open spec fn digit_char(d: nat) -> char {
    (48 + d) as char
}

/// The shortest decimal rendering of `n`: no leading zero except for `0` itself.
pub open spec fn decimal(n: nat) -> Seq<char>
    decreases n,
{
    if n < 10 {
        seq![digit_char(n)]
    } else {
        decimal(n / 10).push(digit_char(n % 10))
    }
}

/// The one-character string holding the digit `d`.
fn digit_str(d: u64) -> (s: &'static str)
    requires
        d < 10,
    ensures
        s@ == seq![digit_char(d as nat)],
{
    proof {
        reveal_strlit("0");
        reveal_strlit("1");
        reveal_strlit("2");
        reveal_strlit("3");
        reveal_strlit("4");
        reveal_strlit("5");
        reveal_strlit("6");
        reveal_strlit("7");
        reveal_strlit("8");
        reveal_strlit("9");
    }
    match d {
        0 => "0",
        1 => "1",
        2 => "2",
        3 => "3",
        4 => "4",
        5 => "5",
        6 => "6",
        7 => "7",
        8 => "8",
        _ => "9",
    }
}

/// Renders `n` in decimal, as `format!("{}", n)` does.
pub fn u64_to_decimal(n: u64) -> (s: String)
    ensures
        s@ == decimal(n as nat),
    decreases n,
{
    if n < 10 {
        let mut s = String::new();
        s.append(digit_str(n));
        s
    } else {
        let mut s = u64_to_decimal(n / 10);
        s.append(digit_str(n % 10));
        s
    }
}

/// `s` preceded by as many `0` as it takes to reach `width` characters.
pub open spec fn zero_pad(s: Seq<char>, width: nat) -> Seq<char> {
    if s.len() < width {
        Seq::new((width - s.len()) as nat, |i: int| '0') + s
    } else {
        s
    }
}

/// Renders `n` in decimal with at least `width` digits, as `format!("{:0w$}", n)` does.
pub fn u64_to_padded_decimal(n: u64, width: usize) -> (s: String)
    ensures
        s@ == zero_pad(decimal(n as nat), width as nat),
{
    let digits = u64_to_decimal(n);
    let len: usize = digits.as_str().unicode_len();
    let mut s = String::new();
    if len < width {
        let mut k: usize = 0;
        while k < width - len
            invariant
                len < width,
                k <= width - len,
                s@ == Seq::new(k as nat, |i: int| '0'),
            decreases width - len - k,
        {
            proof {
                reveal_strlit("0");
            }
            s.append("0");
            k = k + 1;
            assert(s@ =~= Seq::new(k as nat, |i: int| '0'));
        }
    }
    s.append(digits.as_str());
    assert(s@ =~= zero_pad(decimal(n as nat), width as nat));
    s
}

/// Every character of a decimal rendering is a digit.
pub open spec fn all_digits(s: Seq<char>) -> bool {
    forall|i: int| 0 <= i < s.len() ==> '0' <= #[trigger] s[i] <= '9'
}

/// A decimal rendering is non-empty and made of digits; it has more than
/// one digit exactly for numbers from ten on.
pub proof fn lemma_decimal_shape(n: nat)
    ensures
        decimal(n).len() >= 1,
        all_digits(decimal(n)),
        n >= 10 <==> decimal(n).len() >= 2,
    decreases n,
{
    if n >= 10 {
        lemma_decimal_shape(n / 10);
    }
}

/// Different numbers have different decimal renderings.
pub proof fn lemma_decimal_injective(a: nat, b: nat)
    requires
        decimal(a) == decimal(b),
    ensures
        a == b,
    decreases a,
{
    lemma_decimal_shape(a);
    lemma_decimal_shape(b);
    if a >= 10 && b >= 10 {
        let da = decimal(a);
        let db = decimal(b);
        assert(da.last() == digit_char(a % 10));
        assert(db.last() == digit_char(b % 10));
        assert(da.drop_last() =~= decimal(a / 10));
        assert(db.drop_last() =~= decimal(b / 10));
        lemma_decimal_injective(a / 10, b / 10);
    } else if a < 10 && b < 10 {
        assert(decimal(a)[0] == digit_char(a));
        assert(decimal(b)[0] == digit_char(b));
    }
}

/// A decimal rendering starts with `0` only for zero itself.
pub proof fn lemma_decimal_leading_digit(n: nat)
    ensures
        decimal(n)[0] == '0' ==> n == 0,
    decreases n,
{
    lemma_decimal_shape(n);
    if n >= 10 {
        lemma_decimal_shape(n / 10);
        lemma_decimal_leading_digit(n / 10);
        assert(decimal(n)[0] == decimal(n / 10)[0]);
    }
}

/// Numbers below a hundred have at most two digits.
pub proof fn lemma_decimal_two_digits(n: nat)
    requires
        n < 100,
    ensures
        decimal(n).len() <= 2,
{
    if n >= 10 {
        lemma_decimal_shape(n / 10);
    }
}

/// A zero-padded rendering has the width asked for, or more when the
/// number needs more digits.
pub proof fn lemma_zero_pad_len(n: nat, width: nat)
    ensures
        zero_pad(decimal(n), width).len() == if decimal(n).len() < width {
            width
        } else {
            decimal(n).len()
        },
{
}

/// Different numbers have different zero-padded renderings.
pub proof fn lemma_zero_pad_injective(a: nat, b: nat, width: nat)
    requires
        zero_pad(decimal(a), width) == zero_pad(decimal(b), width),
    ensures
        a == b,
{
    let da = decimal(a);
    let db = decimal(b);
    let pa = zero_pad(da, width);
    let pb = zero_pad(db, width);
    lemma_decimal_shape(a);
    lemma_decimal_shape(b);
    lemma_decimal_leading_digit(a);
    lemma_decimal_leading_digit(b);
    if da.len() == db.len() {
        if da.len() < width {
            let k = (width - da.len()) as int;
            assert(da =~= pa.subrange(k, pa.len() as int));
            assert(db =~= pb.subrange(k, pb.len() as int));
        }
        lemma_decimal_injective(a, b);
    } else if da.len() < db.len() {
        if db.len() < width {
            let k = (width - db.len()) as int;
            assert(pb[k] == db[0]);
            assert(pa[k] == '0');
            assert(db.len() >= 2);
        }
    } else {
        if da.len() < width {
            let k = (width - da.len()) as int;
            assert(pa[k] == da[0]);
            assert(pb[k] == '0');
            assert(da.len() >= 2);
        }
    }
}

} // verus!
