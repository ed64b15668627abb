use vstd::prelude::*;
use vstd::string::*;

verus! {

/// The character for one decimal digit value.
pub open spec fn dec_digit(d: int) -> char {
    ((48 + d) as char)
}

/// The decimal numeral of `n`, most significant digit first, without sign or
/// leading zeros (a single zero for 0).
pub open spec fn dec_str(n: nat) -> Seq<char>
    decreases n,
{
    if n < 10 {
        seq![dec_digit(n as int)]
    } else {
        dec_str(n / 10) + seq![dec_digit((n % 10) as int)]
    }
}

/// Whether `c` is a decimal digit character.
pub open spec fn digit_char(c: char) -> bool {
    48 <= c as u32 <= 57
}

/// Whether `s` is a nonempty run of decimal digit characters.
pub open spec fn all_digits(s: Seq<char>) -> bool {
    s.len() > 0 && forall|i: int| 0 <= i < s.len() ==> digit_char(#[trigger] s[i])
}

/// The number a digit run stands for, read most significant digit first.
/// Meaningful only when the characters are digits.
pub open spec fn dec_value(s: Seq<char>) -> int
    decreases s.len(),
{
    if s.len() == 0 {
        0
    } else {
        dec_value(s.drop_last()) * 10 + (s.last() as u32 - 48)
    }
}

proof fn lemma_dec_value_take_succ(s: Seq<char>, i: int)
    requires
        0 <= i < s.len(),
    ensures
        dec_value(s.take(i + 1)) == dec_value(s.take(i)) * 10 + (s[i] as u32 - 48),
{
    assert(s.take(i + 1).drop_last() =~= s.take(i));
    assert(s.take(i + 1).last() == s[i]);
}

proof fn lemma_dec_value_nonneg(s: Seq<char>, i: int)
    requires
        0 <= i <= s.len(),
        forall|j: int| 0 <= j < s.len() ==> digit_char(#[trigger] s[j]),
    ensures
        0 <= dec_value(s.take(i)),
    decreases i,
{
    if i == 0 {
        assert(s.take(0).len() == 0);
    } else {
        lemma_dec_value_nonneg(s, i - 1);
        lemma_dec_value_take_succ(s, i - 1);
    }
}

/// Reading further digits never shrinks the value: the whole run is at least
/// any of its prefixes.
proof fn lemma_dec_value_grows(s: Seq<char>, i: int)
    requires
        0 <= i <= s.len(),
        forall|j: int| 0 <= j < s.len() ==> digit_char(#[trigger] s[j]),
    ensures
        0 <= dec_value(s.take(i)) <= dec_value(s),
    decreases s.len() - i,
{
    lemma_dec_value_nonneg(s, i);
    if i == s.len() {
        assert(s.take(i) =~= s);
    } else {
        lemma_dec_value_grows(s, i + 1);
        lemma_dec_value_take_succ(s, i);
    }
}

/// A decimal numeral is never empty and holds digit characters alone.
pub proof fn lemma_dec_str_digits(n: nat)
    ensures
        dec_str(n).len() > 0,
        forall|i: int| 0 <= i < dec_str(n).len() ==> digit_char(#[trigger] dec_str(n)[i]),
    decreases n,
{
    assert(dec_digit(n as int % 10) as u32 == 48 + n as int % 10) by {
        assert(((48 + n as int % 10) as char) as u32 == 48 + n as int % 10);
    }
    if n < 10 {
        assert(dec_digit(n as int) as u32 == 48 + n as int) by {
            assert(((48 + n as int) as char) as u32 == 48 + n as int);
        }
    } else {
        lemma_dec_str_digits(n / 10);
    }
}

fn digit_str(d: u32) -> (r: &'static str)
    requires
        d < 10,
    ensures
        r@ == seq![dec_digit(d as int)],
{
    let r: &'static str = match d {
        0 => "0",
        1 => "1",
        2 => "2",
        3 => "3",
        4 => "4",
        5 => "5",
        6 => "6",
        7 => "7",
        8 => "8",
        _ => "9",
    };
    proof {
        reveal_strlit("0");
        reveal_strlit("1");
        reveal_strlit("2");
        reveal_strlit("3");
        reveal_strlit("4");
        reveal_strlit("5");
        reveal_strlit("6");
        reveal_strlit("7");
        reveal_strlit("8");
        reveal_strlit("9");
        assert(r@ =~= seq![dec_digit(d as int)]);
    }
    r
}

/// Format `n` in decimal.
pub fn u32_string(n: u32) -> (r: String)
    ensures
        r@ == dec_str(n as nat),
    decreases n,
{
    if n < 10 {
        digit_str(n).to_owned()
    } else {
        let mut r = u32_string(n / 10);
        r.append(digit_str(n % 10));
        r
    }
}

/// The digits of a numeral: everything after an optional leading plus sign.
pub open spec fn numeral_digits(s: Seq<char>) -> Seq<char> {
    if s.len() > 0 && s[0] == '+' {
        s.skip(1)
    } else {
        s
    }
}

/// Whether the text is an accepted numeral: an optional leading plus sign,
/// then one or more decimal digits — the forms the standard unsigned parser
/// accepts.
pub open spec fn u32_numeral(s: Seq<char>) -> bool {
    all_digits(numeral_digits(s))
}

/// Read a decimal numeral: `Some` exactly when the text is an optionally
/// plus-signed nonempty run of digits whose value fits in 32 bits.
pub fn parse_u32(s: &str) -> (r: Option<u32>)
    ensures
        match r {
            Some(v) => u32_numeral(s@) && v as int == dec_value(numeral_digits(s@)),
            None => !u32_numeral(s@) || dec_value(numeral_digits(s@)) > u32::MAX,
        },
{
    let n = s.unicode_len();
    if n == 0 {
        return None;
    }
    let start: usize = if s.get_char(0) == '+' {
        1
    } else {
        0
    };
    let ghost ds = numeral_digits(s@);
    proof {
        assert(ds =~= s@.skip(start as int));
        assert(ds.len() == n - start);
    }
    if n == start {
        return None;
    }
    let mut i: usize = start;
    while i < n
        invariant
            n == s@.len(),
            start <= i <= n,
            ds == numeral_digits(s@),
            ds == s@.skip(start as int),
            ds.len() == n - start,
            forall|j: int| 0 <= j < i - start ==> digit_char(#[trigger] ds[j]),
        decreases n - i,
    {
        let u = s.get_char(i) as u32;
        if u < 48 || u > 57 {
            assert(ds[i - start] == s@[i as int]);
            assert(!digit_char(ds[i - start]));
            assert(!all_digits(ds));
            return None;
        }
        assert(ds[i - start] == s@[i as int]);
        i = i + 1;
    }
    let mut v: u64 = 0;
    let mut i: usize = start;
    while i < n
        invariant
            n == s@.len(),
            start <= i <= n,
            ds == numeral_digits(s@),
            ds == s@.skip(start as int),
            ds.len() == n - start,
            all_digits(ds),
            v as int == dec_value(ds.take(i - start)),
            v <= u32::MAX,
        decreases n - i,
    {
        proof {
            assert(ds[i - start] == s@[i as int]);
            assert(digit_char(ds[i - start]));
        }
        let d = (s.get_char(i) as u32) - 48;
        let nv: u64 = v * 10 + (d as u64);
        proof {
            lemma_dec_value_take_succ(ds, i - start);
        }
        if nv > 0xFFFF_FFFF {
            proof {
                lemma_dec_value_grows(ds, i - start + 1);
            }
            return None;
        }
        v = nv;
        i = i + 1;
    }
    assert(ds.take(n - start) =~= ds);
    Some(v as u32)
}

} // verus!
