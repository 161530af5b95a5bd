//! Decimal numerals inside the wire text: spec-level printing and scanning,
//! proved inverse to each other, with the executable counterparts.
use vstd::prelude::*;
use crate::ext::push_char;

verus! {

pub open spec fn is_digit(c: char) -> bool {
    48 <= c as u32 <= 57
}

pub open spec fn digit_char(d: nat) -> char {
    if d == 0 {
        '0'
    } else if d == 1 {
        '1'
    } else if d == 2 {
        '2'
    } else if d == 3 {
        '3'
    } else if d == 4 {
        '4'
    } else if d == 5 {
        '5'
    } else if d == 6 {
        '6'
    } else if d == 7 {
        '7'
    } else if d == 8 {
        '8'
    } else {
        '9'
    }
}

pub open spec fn digit_val(c: char) -> nat {
    (c as u32 - 48) as nat
}

/// Decimal text of a number: most significant digit first, no leading zeros.
pub open spec fn dec_digits(n: nat) -> Seq<char>
    decreases n,
{
    if n < 10 {
        seq![digit_char(n)]
    } else {
        dec_digits(n / 10) + seq![digit_char(n % 10)]
    }
}

/// The longest digit prefix of a text.
pub open spec fn leading_digits(t: Seq<char>) -> Seq<char>
    decreases t.len(),
{
    if t.len() > 0 && is_digit(t[0]) {
        seq![t[0]] + leading_digits(t.drop_first())
    } else {
        Seq::empty()
    }
}

/// Value of a digit text.
pub open spec fn digits_val(ds: Seq<char>) -> nat
    decreases ds.len(),
{
    if ds.len() == 0 {
        0
    } else {
        digits_val(ds.drop_last()) * 10 + digit_val(ds.last())
    }
}

pub open spec fn all_digits(ds: Seq<char>) -> bool {
    forall|i: int| 0 <= i < ds.len() ==> is_digit(ds[i])
}

pub proof fn lemma_dec_digits_wf(n: nat)
    ensures
        dec_digits(n).len() >= 1,
        all_digits(dec_digits(n)),
    decreases n,
{
    if n >= 10 {
        lemma_dec_digits_wf(n / 10);
        assert forall|i: int| 0 <= i < dec_digits(n).len() implies is_digit(dec_digits(n)[i]) by {
            if i < dec_digits(n / 10).len() {
                assert(dec_digits(n)[i] == dec_digits(n / 10)[i]);
            } else {
                assert(dec_digits(n)[i] == digit_char(n % 10));
            }
        }
    }
}

/// Printing then reading a number gives the number back.
pub proof fn lemma_digits_val_dec(n: nat)
    ensures
        digits_val(dec_digits(n)) == n,
    decreases n,
{
    if n < 10 {
        let ds = dec_digits(n);
        assert(ds.len() == 1);
        assert(ds.last() == digit_char(n));
        assert(ds.drop_last() =~= Seq::<char>::empty());
        assert(digits_val(ds.drop_last()) == 0);
        assert(digits_val(ds) == digit_val(digit_char(n)));
        assert(digit_val(digit_char(n)) == n);
    } else {
        lemma_digits_val_dec(n / 10);
        let ds = dec_digits(n);
        assert(ds.drop_last() =~= dec_digits(n / 10));
        assert(ds.last() == digit_char(n % 10));
        assert(digit_val(digit_char(n % 10)) == n % 10);
        vstd::arithmetic::div_mod::lemma_fundamental_div_mod(n as int, 10);
    }
}

/// Scanning a digit text followed by anything that does not begin with a
/// digit finds exactly that digit text.
pub proof fn lemma_leading_digits_concat(ds: Seq<char>, rest: Seq<char>)
    requires
        all_digits(ds),
        rest.len() == 0 || !is_digit(rest[0]),
    ensures
        leading_digits(ds + rest) == ds,
    decreases ds.len(),
{
    if ds.len() == 0 {
        assert(ds + rest =~= rest);
        assert(leading_digits(rest) =~= Seq::<char>::empty());
        assert(ds =~= Seq::<char>::empty());
    } else {
        assert((ds + rest)[0] == ds[0]);
        assert(is_digit(ds[0]));
        assert((ds + rest).drop_first() =~= ds.drop_first() + rest);
        assert(all_digits(ds.drop_first()));
        lemma_leading_digits_concat(ds.drop_first(), rest);
        assert(seq![ds[0]] + ds.drop_first() =~= ds);
    }
}

fn digit_char_x(d: u64) -> (r: char)
    requires
        d < 10,
    ensures
        r == digit_char(d as nat),
{
    if d == 0 {
        '0'
    } else if d == 1 {
        '1'
    } else if d == 2 {
        '2'
    } else if d == 3 {
        '3'
    } else if d == 4 {
        '4'
    } else if d == 5 {
        '5'
    } else if d == 6 {
        '6'
    } else if d == 7 {
        '7'
    } else if d == 8 {
        '8'
    } else {
        '9'
    }
}

/// Appends the decimal text of `n`.
pub fn push_dec_u64(out: &mut String, n: u64)
    ensures
        final(out)@ == old(out)@ + dec_digits(n as nat),
    decreases n,
{
    if n < 10 {
        let c = digit_char_x(n);
        push_char(out, c);
        assert(out@ =~= old(out)@ + dec_digits(n as nat));
    } else {
        push_dec_u64(out, n / 10);
        let c = digit_char_x(n % 10);
        push_char(out, c);
        assert(out@ =~= old(out)@ + dec_digits(n as nat));
    }
}

/// Scans the digit run beginning at `pos`, returning the position after it
/// and its value, or `None` for the value where the run is empty or does
/// not fit in a `u64`.
pub fn scan_number(t: &Vec<char>, pos: usize) -> (r: (usize, Option<u64>))
    requires
        pos <= t.len(),
    ensures
        ({
            let ds = leading_digits(t@.subrange(pos as int, t@.len() as int));
            &&& r.0 == pos + ds.len()
            &&& r.0 <= t.len()
            &&& match r.1 {
                Some(v) => ds.len() >= 1 && v as nat == digits_val(ds),
                None => ds.len() == 0 || digits_val(ds) > u64::MAX,
            }
        }),
{
    let ghost whole = t@.subrange(pos as int, t@.len() as int);
    let mut j: usize = pos;
    while j < t.len() && 48 <= t[j] as u32 && t[j] as u32 <= 57
        invariant
            pos <= j <= t.len(),
            forall|k: int| pos <= k < j ==> is_digit(t@[k]),
        decreases t.len() - j,
    {
        j = j + 1;
    }
    proof {
        let ds = t@.subrange(pos as int, j as int);
        let rest = t@.subrange(j as int, t@.len() as int);
        assert(whole =~= ds + rest);
        assert(all_digits(ds));
        lemma_leading_digits_concat(ds, rest);
    }
    let ghost ds = leading_digits(whole);
    let mut v: Option<u64> = Some(0);
    let mut k: usize = pos;
    while k < j
        invariant
            pos <= k <= j <= t.len(),
            ds == t@.subrange(pos as int, j as int),
            forall|i: int| pos <= i < j ==> is_digit(t@[i]),
            match v {
                Some(x) => x as nat == digits_val(t@.subrange(pos as int, k as int)),
                None => digits_val(t@.subrange(pos as int, k as int)) > u64::MAX,
            },
        decreases j - k,
    {
        let ghost pre = t@.subrange(pos as int, k as int);
        let ghost cur = t@.subrange(pos as int, k as int + 1);
        proof {
            assert(cur.drop_last() =~= pre);
            assert(cur.last() == t@[k as int]);
        }
        let c = t[k];
        let d: u64 = (c as u32 as u64) - 48;
        assert(d as nat == digit_val(t@[k as int]));
        v = match v {
            Some(x) => {
                match x.checked_mul(10) {
                    Some(y) => {
                        match y.checked_add(d) {
                            Some(z) => Some(z),
                            None => {
                                assert(digits_val(cur) > u64::MAX);
                                None
                            },
                        }
                    },
                    None => {
                        assert(digits_val(cur) > u64::MAX);
                        None
                    },
                }
            },
            None => {
                assert(digits_val(cur) > u64::MAX);
                None
            },
        };
        k = k + 1;
    }
    proof {
        assert(t@.subrange(pos as int, k as int) == ds);
    }
    if j == pos {
        (j, None)
    } else {
        (j, v)
    }
}

} // verus!
