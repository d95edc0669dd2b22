use vstd::prelude::*;
use vstd::string::{StrSliceExecFns, StringExecFns};

verus! {

/// The character for one decimal digit.
pub open spec fn digit_char(d: nat) -> char {
    if d == 0 {
        '0'
    } else if d == 1 {
        '1'
    } else if d == 2 {
        '2'
    } else if d == 3 {
        '3'
    } else if d == 4 {
        '4'
    } else if d == 5 {
        '5'
    } else if d == 6 {
        '6'
    } else if d == 7 {
        '7'
    } else if d == 8 {
        '8'
    } else {
        '9'
    }
}

/// The decimal digits of `n`, most significant first.
pub open spec fn dec_digits(n: nat) -> Seq<char>
    decreases n,
{
    if n < 10 {
        seq![digit_char(n)]
    } else {
        dec_digits(n / 10).push(digit_char(n % 10))
    }
}

/// The decimal text of `n`, with a leading minus sign when it is negative:
/// what formatting an integer with std prints.
pub open spec fn int_text(n: int) -> Seq<char> {
    if n < 0 {
        seq!['-'] + dec_digits((-n) as nat)
    } else {
        dec_digits(n as nat)
    }
}

fn digit_str(d: u64) -> (r: &'static str)
    requires
        d < 10,
    ensures
        r@ == seq![digit_char(d as nat)],
{
    if d == 0 {
        proof {
            reveal_strlit("0");
            assert("0"@ =~= seq!['0']);
        }
        return "0";
    }
    if d == 1 {
        proof {
            reveal_strlit("1");
            assert("1"@ =~= seq!['1']);
        }
        return "1";
    }
    if d == 2 {
        proof {
            reveal_strlit("2");
            assert("2"@ =~= seq!['2']);
        }
        return "2";
    }
    if d == 3 {
        proof {
            reveal_strlit("3");
            assert("3"@ =~= seq!['3']);
        }
        return "3";
    }
    if d == 4 {
        proof {
            reveal_strlit("4");
            assert("4"@ =~= seq!['4']);
        }
        return "4";
    }
    if d == 5 {
        proof {
            reveal_strlit("5");
            assert("5"@ =~= seq!['5']);
        }
        return "5";
    }
    if d == 6 {
        proof {
            reveal_strlit("6");
            assert("6"@ =~= seq!['6']);
        }
        return "6";
    }
    if d == 7 {
        proof {
            reveal_strlit("7");
            assert("7"@ =~= seq!['7']);
        }
        return "7";
    }
    if d == 8 {
        proof {
            reveal_strlit("8");
            assert("8"@ =~= seq!['8']);
        }
        return "8";
    }
    proof {
        reveal_strlit("9");
        assert("9"@ =~= seq!['9']);
    }
    "9"
}

fn push_decimal(s: &mut String, m: u64)
    ensures
        final(s)@ == old(s)@ + dec_digits(m as nat),
    decreases m,
{
    if m >= 10 {
        proof {
            assert(m / 10 < m && m / 10 >= 1) by (nonlinear_arith)
                requires
                    m >= 10,
            ;
        }
        push_decimal(s, m / 10);
    }
    s.append(digit_str(m % 10));
    proof {
        if m >= 10 {
            assert(dec_digits(m as nat) =~= dec_digits((m / 10) as nat) + seq![
                digit_char((m % 10) as nat),
            ]);
            assert(final(s)@ =~= old(s)@ + dec_digits(m as nat));
        } else {
            assert(dec_digits(m as nat) =~= seq![digit_char(m as nat)]);
            assert(final(s)@ =~= old(s)@ + dec_digits(m as nat));
        }
    }
}

/// The decimal text of `n`, as std prints it.
pub fn i64_to_string(n: i64) -> (r: String)
    ensures
        r@ == int_text(n as int),
{
    let mut s = String::new();
    if n < 0 {
        proof {
            reveal_strlit("-");
        }
        s.append("-");
        proof {
            assert(s@ =~= seq!['-']);
        }
    }
    let m: u64 = if n < 0 {
        (-(n + 1)) as u64 + 1
    } else {
        n as u64
    };
    push_decimal(&mut s, m);
    proof {
        if n >= 0 {
            assert(s@ =~= int_text(n as int));
        }
    }
    s
}

/// Whether two pieces of text hold the same characters.
pub fn str_eq(a: &str, b: &str) -> (r: bool)
    ensures
        r == (a@ == b@),
{
    let x = a.to_owned();
    let y = b.to_owned();
    x == y
}

/// Whether `p` occurs in `s` as a contiguous run of characters.
pub open spec fn text_contains(s: Seq<char>, p: Seq<char>) -> bool {
    exists|i: int| 0 <= i && i + p.len() <= s.len() && #[trigger] s.subrange(i, i + p.len()) == p
}

/// Substring search, as std's `str::contains` with a plain text pattern.
pub fn contains_text(hay: &str, pat: &str) -> (r: bool)
    ensures
        r == text_contains(hay@, pat@),
{
    let n = hay.unicode_len();
    let m = pat.unicode_len();
    if m > n {
        return false;
    }
    if m == 0 {
        proof {
            assert(hay@.subrange(0, 0 + pat@.len() as int) =~= pat@);
            assert(text_contains(hay@, pat@));
        }
        return true;
    }
    let mut i: usize = 0;
    while i <= n - m
        invariant
            1 <= m <= n,
            n == hay@.len(),
            m == pat@.len(),
            i <= n - m + 1,
            forall|q: int| 0 <= q < i ==> #[trigger] hay@.subrange(q, q + m as int) != pat@,
        decreases n - m + 1 - i,
    {
        let mut j: usize = 0;
        let mut matches_here = true;
        while j < m && matches_here
            invariant
                m <= n,
                n == hay@.len(),
                m == pat@.len(),
                i + m <= n,
                j <= m,
                matches_here ==> forall|q: int| 0 <= q < j ==> hay@[i + q] == pat@[q],
                !matches_here ==> hay@.subrange(i as int, i + m as int) != pat@,
            decreases m - j + (if matches_here { 1int } else { 0int }),
        {
            if hay.get_char(i + j) != pat.get_char(j) {
                proof {
                    assert(hay@.subrange(i as int, i + m as int)[j as int] == hay@[i + j]);
                }
                matches_here = false;
            } else {
                j += 1;
            }
        }
        if matches_here {
            proof {
                assert(hay@.subrange(i as int, i as int + pat@.len() as int) =~= pat@);
                assert(text_contains(hay@, pat@));
            }
            return true;
        }
        i += 1;
    }
    proof {
        assert forall|q: int| 0 <= q && q + pat@.len() <= hay@.len() implies #[trigger] hay@.subrange(
            q,
            q + pat@.len(),
        ) != pat@ by {
            assert(0 <= q < n - m + 1);
        }
    }
    false
}

} // verus!
