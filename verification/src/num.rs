//! Decimal text for correlation ids.
//!
//! Method-call ids travel on the wire as decimal strings; the correlation
//! table hands out small integers. These functions convert both ways and
//! are proved inverse to each other.

use vstd::prelude::*;

verus! {

/// The digit character for `d`.
pub open spec fn spec_digit_char(d: int) -> char {
    if d == 0 {
        '0'
    } else if d == 1 {
        '1'
    } else if d == 2 {
        '2'
    } else if d == 3 {
        '3'
    } else if d == 4 {
        '4'
    } else if d == 5 {
        '5'
    } else if d == 6 {
        '6'
    } else if d == 7 {
        '7'
    } else if d == 8 {
        '8'
    } else {
        '9'
    }
}

/// The decimal digits of `n`, most significant first, no leading zeros.
pub open spec fn spec_dec_digits(n: int) -> Seq<char>
    decreases n,
{
    if n < 10 {
        seq![spec_digit_char(n)]
    } else {
        spec_dec_digits(n / 10).push(spec_digit_char(n % 10))
    }
}

/// The value of a digit character, if it is one.
pub open spec fn spec_digit_val(c: char) -> Option<int> {
    if '0' <= c && c <= '9' {
        Some(c as int - '0' as int)
    } else {
        None
    }
}

/// Value of the digit string `s` on top of the accumulator `acc`;
/// `None` as soon as a character is not a digit.
pub open spec fn spec_dec_val_rec(s: Seq<char>, acc: int) -> Option<int>
    decreases s.len(),
{
    if s.len() == 0 {
        Some(acc)
    } else {
        match spec_digit_val(s[0]) {
            Some(d) => spec_dec_val_rec(s.drop_first(), acc * 10 + d),
            None => None,
        }
    }
}

/// The number a decimal string denotes: at least one character, all digits.
/// Leading zeros are accepted.
pub open spec fn spec_dec_val(s: Seq<char>) -> Option<int> {
    if s.len() == 0 {
        None
    } else {
        spec_dec_val_rec(s, 0)
    }
}

/// A digit character parses back to its digit.
proof fn lemma_digit_char_val(d: int)
    requires
        0 <= d < 10,
    ensures
        spec_digit_val(spec_digit_char(d)) == Some(d),
{
}

fn digit_str(d: u64) -> (r: &'static str)
    requires
        d < 10,
    ensures
        r@ == seq![spec_digit_char(d as int)],
{
    proof {
        reveal_strlit("0");
        reveal_strlit("1");
        reveal_strlit("2");
        reveal_strlit("3");
        reveal_strlit("4");
        reveal_strlit("5");
        reveal_strlit("6");
        reveal_strlit("7");
        reveal_strlit("8");
        reveal_strlit("9");
    }
    match d {
        0 => "0",
        1 => "1",
        2 => "2",
        3 => "3",
        4 => "4",
        5 => "5",
        6 => "6",
        7 => "7",
        8 => "8",
        _ => "9",
    }
}

/// Renders `n` in decimal.
pub fn to_dec_string(n: u64) -> (r: String)
    ensures
        r@ == spec_dec_digits(n as int),
    decreases n,
{
    if n < 10 {
        digit_str(n).to_owned()
    } else {
        let mut s = to_dec_string(n / 10);
        s.append(digit_str(n % 10));
        s
    }
}

/// Parses a decimal string; `None` when it is empty, holds a non-digit,
/// or denotes a value above `u64::MAX`.
pub fn parse_dec(s: &str) -> (r: Option<u64>)
    ensures
        match r {
            Some(n) => spec_dec_val(s@) == Some(n as int),
            None => match spec_dec_val(s@) {
                Some(v) => v > u64::MAX,
                None => true,
            },
        },
{
    let len = s.unicode_len();
    if len == 0 {
        return None;
    }
    let mut acc: u64 = 0;
    let mut i: usize = 0;
    proof {
        assert(s@.skip(0) =~= s@);
    }
    while i < len
        invariant
            0 <= i <= len,
            len == s@.len(),
            spec_dec_val_rec(s@, 0) == spec_dec_val_rec(s@.skip(i as int), acc as int),
        decreases len - i,
    {
        let c = s.get_char(i);
        let x = c as u32;
        if x < 48 || x > 57 {
            proof {
                assert(s@.skip(i as int)[0] == s@[i as int]);
            }
            return None;
        }
        let d = (x - 48) as u64;
        if acc > (u64::MAX - d) / 10 {
            proof {
                assert(s@.skip(i as int)[0] == s@[i as int]);
                lemma_dec_val_rec_lower(s@.skip(i as int).drop_first(), acc as int * 10 + d);
            }
            return None;
        }
        proof {
            assert(s@.skip(i as int)[0] == s@[i as int]);
            assert(s@.skip(i as int).drop_first() =~= s@.skip(i + 1));
        }
        acc = acc * 10 + d;
        i += 1;
    }
    proof {
        assert(s@.skip(len as int) =~= Seq::<char>::empty());
    }
    Some(acc)
}

/// A parsed decimal never falls below its accumulator.
proof fn lemma_dec_val_rec_lower(s: Seq<char>, acc: int)
    requires
        acc >= 0,
    ensures
        match spec_dec_val_rec(s, acc) {
            Some(v) => v >= acc,
            None => true,
        },
    decreases s.len(),
{
    if s.len() > 0 {
        match spec_digit_val(s[0]) {
            Some(d) => {
                lemma_dec_val_rec_lower(s.drop_first(), acc * 10 + d);
            },
            None => {},
        }
    }
}

/// Appending a digit multiplies the value by ten and adds the digit.
proof fn lemma_dec_val_rec_push(s: Seq<char>, acc: int, d: int)
    requires
        0 <= d < 10,
    ensures
        spec_dec_val_rec(s.push(spec_digit_char(d)), acc) == (match spec_dec_val_rec(s, acc) {
            Some(v) => Some(v * 10 + d),
            None => None::<int>,
        }),
    decreases s.len(),
{
    if s.len() == 0 {
        let p = s.push(spec_digit_char(d));
        lemma_digit_char_val(d);
        assert(p[0] == spec_digit_char(d));
        assert(p.drop_first() =~= Seq::<char>::empty());
        assert(spec_dec_val_rec(s, acc) == Some(acc));
        assert(spec_dec_val_rec(p, acc) == spec_dec_val_rec(p.drop_first(), acc * 10 + d));
        assert(spec_dec_val_rec(p.drop_first(), acc * 10 + d) == Some(acc * 10 + d));
    } else {
        let p = s.push(spec_digit_char(d));
        assert(p[0] == s[0]);
        assert(p.drop_first() =~= s.drop_first().push(spec_digit_char(d)));
        match spec_digit_val(s[0]) {
            Some(d0) => {
                lemma_dec_val_rec_push(s.drop_first(), acc * 10 + d0, d);
            },
            None => {},
        }
    }
}

/// A decimal rendering is never empty.
pub proof fn lemma_dec_digits_len(n: int)
    ensures
        spec_dec_digits(n).len() >= 1,
    decreases n,
{
    if n >= 10 {
        lemma_dec_digits_len(n / 10);
    }
}

/// Rendering then parsing a number gives the number back.
pub proof fn lemma_dec_round_trip(n: u64)
    ensures
        spec_dec_val(spec_dec_digits(n as int)) == Some(n as int),
    decreases n,
{
    if n < 10 {
        let s = spec_dec_digits(n as int);
        lemma_digit_char_val(n as int);
        assert(s[0] == spec_digit_char(n as int));
        assert(s.drop_first() =~= Seq::<char>::empty());
        assert(spec_dec_val_rec(s, 0) == spec_dec_val_rec(s.drop_first(), n as int));
        assert(spec_dec_val(s) == Some(n as int));
    } else {
        let m = n as int / 10;
        let r = n as int % 10;
        let sm = spec_dec_digits(m);
        let sn = spec_dec_digits(n as int);
        lemma_dec_round_trip(n / 10);
        lemma_dec_digits_len(m);
        lemma_dec_val_rec_push(sm, 0, r);
        assert(sn == sm.push(spec_digit_char(r)));
        assert(spec_dec_val_rec(sm, 0) == Some(m));
        assert(spec_dec_val_rec(sn, 0) == Some(m * 10 + r));
        assert(m * 10 + r == n as int);
        assert(sn.len() >= 1);
    }
}

} // verus!
