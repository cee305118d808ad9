//! Text conversions: rendering values (for `print` and `str(...)`) and
//! parsing decimal integers (for `int(...)`).
use vstd::prelude::*;
use vstd::string::StrSliceExecFns;
use vstd::string::StringExecFns;

use crate::value::{val_of, ValV, Value};

verus! {

/// The decimal digit character for `d`.
pub open spec fn digit_char(d: int) -> char {
    if d == 0 {
        '0'
    } else if d == 1 {
        '1'
    } else if d == 2 {
        '2'
    } else if d == 3 {
        '3'
    } else if d == 4 {
        '4'
    } else if d == 5 {
        '5'
    } else if d == 6 {
        '6'
    } else if d == 7 {
        '7'
    } else if d == 8 {
        '8'
    } else {
        '9'
    }
}

/// The decimal digits of `n`, most significant first, no sign and no
/// leading zero (except for `n == 0` itself).
pub open spec fn dec_digits(n: nat) -> Seq<char>
    decreases n,
{
    if n < 10 {
        seq![digit_char(n as int)]
    } else {
        dec_digits(n / 10).push(digit_char((n % 10) as int))
    }
}

/// The decimal rendering of `i`, with a leading `-` when negative.
pub open spec fn int_to_dec(i: int) -> Seq<char> {
    if i < 0 {
        seq!['-'] + dec_digits((-i) as nat)
    } else {
        dec_digits(i as nat)
    }
}

/// The textual form of a value, as `print` and `str(...)` use it.
pub open spec fn str_of_val(v: ValV) -> Seq<char> {
    match v {
        ValV::Unit => "None"@,
        ValV::Int(i) => int_to_dec(i),
        ValV::Str(s) => s,
        ValV::Bool(b) => if b {
            "true"@
        } else {
            "false"@
        },
        ValV::Func { .. } => "function object"@,
    }
}

/// Whether `c` is a decimal digit.
pub open spec fn is_dec_digit(c: char) -> bool {
    48 <= c as int && c as int <= 57
}

/// The numeric value of a digit character.
pub open spec fn digit_of(c: char) -> int {
    c as int - 48
}

/// Whether every character of `s` is a decimal digit.
pub open spec fn all_dec_digits(s: Seq<char>) -> bool {
    forall|i: int| 0 <= i < s.len() ==> is_dec_digit(s[i])
}

/// The value of a digit sequence read in base ten.
pub open spec fn dec_value(s: Seq<char>) -> int
    decreases s,
{
    if s.len() == 0 {
        0
    } else {
        dec_value(s.drop_last()) * 10 + digit_of(s.last())
    }
}

/// What parsing `s` as a machine integer yields: an optional sign,
/// then at least one digit and nothing else, and a value that fits in
/// a signed 64-bit word; anything else fails.
pub open spec fn parse_dec(s: Seq<char>) -> Option<int> {
    let neg = s.len() > 0 && s[0] == '-';
    let signed = s.len() > 0 && (s[0] == '-' || s[0] == '+');
    let ds = if signed {
        s.drop_first()
    } else {
        s
    };
    if ds.len() == 0 || !all_dec_digits(ds) {
        None
    } else {
        let v = if neg {
            -dec_value(ds)
        } else {
            dec_value(ds)
        };
        if i64::MIN <= v && v <= i64::MAX {
            Some(v)
        } else {
            None
        }
    }
}

pub proof fn lemma_dec_value_nonneg(s: Seq<char>)
    requires
        all_dec_digits(s),
    ensures
        dec_value(s) >= 0,
    decreases s.len(),
{
    if s.len() > 0 {
        assert(all_dec_digits(s.drop_last()));
        lemma_dec_value_nonneg(s.drop_last());
    }
}

/// Reading further digits can only keep the value or grow it.
pub proof fn lemma_dec_value_mono(s: Seq<char>, k: int)
    requires
        0 <= k <= s.len(),
        all_dec_digits(s),
    ensures
        dec_value(s) >= dec_value(s.take(k)),
    decreases s.len() - k,
{
    if k < s.len() {
        assert(all_dec_digits(s.take(k))) by {
            assert(forall|i: int| 0 <= i < k ==> s.take(k)[i] == s[i]);
        }
        lemma_dec_value_nonneg(s.take(k));
        assert(s.take(k + 1).drop_last() =~= s.take(k));
        assert(s.take(k + 1).last() == s[k]);
        assert(dec_value(s.take(k + 1)) == dec_value(s.take(k)) * 10 + digit_of(s[k]));
        assert(dec_value(s.take(k)) * 10 >= dec_value(s.take(k))) by {
            lemma_dec_value_nonneg(s.take(k));
        }
        lemma_dec_value_mono(s, k + 1);
        assert(s.take(s.len() as int) =~= s);
    } else {
        assert(s.take(k) =~= s);
    }
}

/// One digit as text.
fn digit_str(d: u64) -> (r: &'static str)
    requires
        d < 10,
    ensures
        r@ == seq![digit_char(d as int)],
{
    let r: &'static str = if d == 0 {
        "0"
    } else if d == 1 {
        "1"
    } else if d == 2 {
        "2"
    } else if d == 3 {
        "3"
    } else if d == 4 {
        "4"
    } else if d == 5 {
        "5"
    } else if d == 6 {
        "6"
    } else if d == 7 {
        "7"
    } else if d == 8 {
        "8"
    } else {
        "9"
    };
    proof {
        reveal_strlit("0");
        reveal_strlit("1");
        reveal_strlit("2");
        reveal_strlit("3");
        reveal_strlit("4");
        reveal_strlit("5");
        reveal_strlit("6");
        reveal_strlit("7");
        reveal_strlit("8");
        reveal_strlit("9");
        assert(r@ =~= seq![digit_char(d as int)]);
    }
    r
}

/// The decimal digits of `n` as an owned string.
fn digits_string(n: u64) -> (r: String)
    ensures
        r@ == dec_digits(n as nat),
    decreases n,
{
    if n < 10 {
        digit_str(n).to_owned()
    } else {
        let s = digits_string(n / 10);
        let r = s.concat(digit_str(n % 10));
        proof {
            assert(r@ =~= dec_digits(n as nat));
        }
        r
    }
}

/// The decimal rendering of a machine integer.
pub fn int64_to_string(n: i64) -> (r: String)
    ensures
        r@ == int_to_dec(n as int),
{
    if n >= 0 {
        digits_string(n as u64)
    } else {
        let m: u64 = (-(n as i128)) as u64;
        proof {
            assert(m as int == -(n as int));
        }
        let sign = "-".to_owned();
        let r = sign.concat(digits_string(m).as_str());
        proof {
            reveal_strlit("-");
            assert(r@ =~= int_to_dec(n as int));
        }
        r
    }
}

/// The textual form of a runtime value.
pub fn str_of_value(v: &Value) -> (r: String)
    ensures
        r@ == str_of_val(val_of(*v)),
{
    match v {
        Value::Unit => "None".to_owned(),
        Value::Int(n) => int64_to_string(*n),
        Value::Str(s) => s.clone(),
        Value::Bool(b) => {
            if *b {
                "true".to_owned()
            } else {
                "false".to_owned()
            }
        },
        Value::Func(_) => "function object".to_owned(),
    }
}

/// Parse `s` as a signed 64-bit integer, exactly as [`parse_dec`]
/// describes.
pub fn parse_i64(s: &str) -> (r: Option<i64>)
    ensures
        match r {
            Some(v) => parse_dec(s@) == Some(v as int),
            None => parse_dec(s@) is None,
        },
{
    let n = s.unicode_len();
    if n == 0 {
        return None;
    }
    let first = s.get_char(0);
    let neg = first == '-';
    let signed = first == '-' || first == '+';
    let start: usize = if signed {
        1
    } else {
        0
    };
    let ghost ds = if signed {
        s@.drop_first()
    } else {
        s@
    };
    proof {
        assert(ds.len() == n - start);
        assert(forall|j: int| 0 <= j < ds.len() ==> ds[j] == s@[j + start]);
    }
    if n == start {
        return None;
    }
    let mut acc: u128 = 0;
    let mut i: usize = start;
    while i < n
        invariant
            start <= i <= n,
            n == s@.len(),
            n > 0,
            first == s@[0],
            neg == (first == '-'),
            signed == (first == '-' || first == '+'),
            start == if signed {
                1int
            } else {
                0int
            },
            ds == if signed {
                s@.drop_first()
            } else {
                s@
            },
            ds.len() == n - start,
            forall|j: int| 0 <= j < ds.len() ==> ds[j] == s@[j + start],
            forall|j: int| 0 <= j < i - start ==> is_dec_digit(ds[j]),
            acc as int == dec_value(ds.take(i - start)),
            acc <= 0x8000_0000_0000_0000,
        decreases n - i,
    {
        let c = s.get_char(i);
        let code: u32 = c as u32;
        if code < 48 || code > 57 {
            proof {
                assert(ds[i - start] == c);
                assert(!is_dec_digit(c));
                assert(!all_dec_digits(ds));
            }
            return None;
        }
        let d: u128 = (code - 48) as u128;
        let nacc: u128 = acc * 10 + d;
        proof {
            assert(ds.take(i - start + 1).drop_last() =~= ds.take(i - start));
            assert(ds.take(i - start + 1).last() == ds[i - start]);
            assert(nacc as int == dec_value(ds.take(i - start + 1)));
        }
        if nacc > 0x8000_0000_0000_0000 {
            proof {
                if all_dec_digits(ds) {
                    lemma_dec_value_mono(ds, i - start + 1);
                    assert(dec_value(ds) >= nacc as int);
                    assert(dec_value(ds) > i64::MAX);
                    assert(-dec_value(ds) < i64::MIN);
                }
            }
            return None;
        }
        acc = nacc;
        i += 1;
    }
    proof {
        assert(ds.take(n - start) =~= ds);
        assert(all_dec_digits(ds));
        assert(acc as int == dec_value(ds));
    }
    if neg {
        let v: i64 = (-(acc as i128)) as i64;
        proof {
            assert(v as int == -(acc as int));
        }
        Some(v)
    } else {
        if acc == 0x8000_0000_0000_0000 {
            proof {
                assert(dec_value(ds) > i64::MAX);
            }
            None
        } else {
            let v: i64 = acc as i64;
            Some(v)
        }
    }
}

} // verus!
