use vstd::prelude::*;

verus! {

broadcast use vstd::string::group_string_axioms;

/// The digit character for one decimal digit.
pub open spec fn dec_digit(d: nat) -> char
    recommends
        d < 10,
{
    if d == 0 {
        '0'
    } else if d == 1 {
        '1'
    } else if d == 2 {
        '2'
    } else if d == 3 {
        '3'
    } else if d == 4 {
        '4'
    } else if d == 5 {
        '5'
    } else if d == 6 {
        '6'
    } else if d == 7 {
        '7'
    } else if d == 8 {
        '8'
    } else {
        '9'
    }
}

/// The decimal rendering of `n`, without leading zeros (`0` renders as "0").
pub open spec fn dec_digits(n: nat) -> Seq<char>
    decreases n,
{
    if n < 10 {
        seq![dec_digit(n)]
    } else {
        dec_digits(n / 10) + seq![dec_digit(n % 10)]
    }
}

/// Whether `c` is a decimal digit character.
pub open spec fn is_digit_char(c: char) -> bool {
    ||| c == '0'
    ||| c == '1'
    ||| c == '2'
    ||| c == '3'
    ||| c == '4'
    ||| c == '5'
    ||| c == '6'
    ||| c == '7'
    ||| c == '8'
    ||| c == '9'
}

/// The ten digit characters, spelled out.
pub proof fn lemma_digit_chars()
    ensures
        dec_digit(0) == '0',
        dec_digit(1) == '1',
        dec_digit(2) == '2',
        dec_digit(3) == '3',
        dec_digit(4) == '4',
        dec_digit(5) == '5',
        dec_digit(6) == '6',
        dec_digit(7) == '7',
        dec_digit(8) == '8',
        dec_digit(9) == '9',
{
}

/// A rendering has at least one digit, and at least two from ten up.
pub proof fn lemma_dec_digits_len(n: nat)
    ensures
        dec_digits(n).len() >= 1,
        n >= 10 ==> dec_digits(n).len() >= 2,
    decreases n,
{
    if n >= 10 {
        lemma_dec_digits_len(n / 10);
    }
}

/// Every character of a rendering is a digit.
pub proof fn lemma_dec_all_digits(n: nat)
    ensures
        forall|i: int| 0 <= i < dec_digits(n).len() ==> is_digit_char(#[trigger] dec_digits(n)[i]),
    decreases n,
{
    assert(is_digit_char(dec_digit(n % 10)));
    if n >= 10 {
        lemma_dec_all_digits(n / 10);
        assert forall|i: int| 0 <= i < dec_digits(n).len() implies is_digit_char(
            dec_digits(n)[i],
        ) by {
            if i < dec_digits(n / 10).len() {
                assert(dec_digits(n)[i] == dec_digits(n / 10)[i]);
            } else {
                assert(dec_digits(n)[i] == dec_digit(n % 10));
            }
        }
    } else {
        assert(is_digit_char(dec_digit(n)));
    }
}

/// A nonzero value never renders with a leading zero.
pub proof fn lemma_dec_leading(n: nat)
    ensures
        n >= 1 ==> dec_digits(n)[0] != '0',
    decreases n,
{
    if n >= 10 {
        lemma_dec_leading(n / 10);
        lemma_dec_digits_len(n / 10);
        assert(dec_digits(n)[0] == dec_digits(n / 10)[0]);
    }
}

/// A rendering that is a prefix of another rendering names a value no
/// larger; with equal lengths the values are equal, so the rendering is
/// injective.
pub proof fn lemma_dec_prefix(m: nat, n: nat)
    requires
        dec_digits(m).len() <= dec_digits(n).len(),
        dec_digits(m) == dec_digits(n).subrange(0, dec_digits(m).len() as int),
    ensures
        m <= n,
        dec_digits(m).len() == dec_digits(n).len() ==> m == n,
    decreases n,
{
    lemma_dec_digits_len(m);
    lemma_dec_digits_len(n);
    if dec_digits(m).len() == dec_digits(n).len() {
        assert(dec_digits(n).subrange(0, dec_digits(n).len() as int) =~= dec_digits(n));
        assert(dec_digits(m) == dec_digits(n));
        if n < 10 {
            if m >= 10 {
                assert(false);
            }
            assert(dec_digits(m)[0] == dec_digits(n)[0]);
            assert(m == n);
        } else {
            if m < 10 {
                assert(false);
            }
            assert(dec_digits(m).last() == dec_digits(n).last());
            assert(dec_digit(m % 10) == dec_digit(n % 10));
            assert(m % 10 == n % 10);
            assert(dec_digits(m).drop_last() =~= dec_digits(m / 10));
            assert(dec_digits(n).drop_last() =~= dec_digits(n / 10));
            assert(dec_digits(m / 10) == dec_digits(n / 10));
            assert(dec_digits(m / 10) =~= dec_digits(n / 10).subrange(
                0,
                dec_digits(m / 10).len() as int,
            ));
            lemma_dec_prefix(m / 10, n / 10);
            assert(m / 10 == n / 10);
            assert(m == n) by (nonlinear_arith)
                requires
                    m / 10 == n / 10,
                    m % 10 == n % 10,
                    m >= 0,
                    n >= 0,
            ;
        }
    } else {
        if n < 10 {
            assert(false);
        } else {
            assert(dec_digits(m) =~= dec_digits(n / 10).subrange(0, dec_digits(m).len() as int));
            lemma_dec_prefix(m, n / 10);
            assert(m <= n / 10);
            assert(n / 10 <= n);
        }
    }
}

fn digit_str(d: usize) -> (r: String)
    requires
        d < 10,
    ensures
        r@ == seq![dec_digit(d as nat)],
{
    let s = if d == 0 {
        String::from_str("0")
    } else if d == 1 {
        String::from_str("1")
    } else if d == 2 {
        String::from_str("2")
    } else if d == 3 {
        String::from_str("3")
    } else if d == 4 {
        String::from_str("4")
    } else if d == 5 {
        String::from_str("5")
    } else if d == 6 {
        String::from_str("6")
    } else if d == 7 {
        String::from_str("7")
    } else if d == 8 {
        String::from_str("8")
    } else {
        String::from_str("9")
    };
    proof {
        reveal_strlit("0");
        reveal_strlit("1");
        reveal_strlit("2");
        reveal_strlit("3");
        reveal_strlit("4");
        reveal_strlit("5");
        reveal_strlit("6");
        reveal_strlit("7");
        reveal_strlit("8");
        reveal_strlit("9");
        assert(s@ =~= seq![dec_digit(d as nat)]);
    }
    s
}

/// Render a machine-word index in decimal.
pub fn usize_to_string(n: usize) -> (r: String)
    ensures
        r@ == dec_digits(n as nat),
    decreases n,
{
    if n < 10 {
        digit_str(n)
    } else {
        let mut s = usize_to_string(n / 10);
        let d = digit_str(n % 10);
        s.append(d.as_str());
        s
    }
}

/// Render a discriminant value in decimal.
pub fn u64_to_string(n: u64) -> (r: String)
    ensures
        r@ == dec_digits(n as nat),
    decreases n,
{
    if n < 10 {
        digit_str((n % 10) as usize)
    } else {
        let mut s = u64_to_string(n / 10);
        let d = digit_str((n % 10) as usize);
        s.append(d.as_str());
        s
    }
}

} // verus!
