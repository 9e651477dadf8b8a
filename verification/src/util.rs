//! Small verified helpers over strings and byte vectors.

use vstd::prelude::*;

verus! {

broadcast use vstd::std_specs::vec::group_vec_axioms;

/// Compare two string slices by characters.
pub fn str_eq(a: &str, b: &str) -> (r: bool)
    ensures
        r == (a@ == b@),
{
    let na = a.unicode_len();
    let nb = b.unicode_len();
    if na != nb {
        return false;
    }
    let mut i: usize = 0;
    while i < na
        invariant
            na == a@.len(),
            nb == b@.len(),
            na == nb,
            i <= na,
            forall|j: int| 0 <= j < i ==> a@[j] == b@[j],
        decreases na - i,
    {
        if a.get_char(i) != b.get_char(i) {
            return false;
        }
        i = i + 1;
    }
    proof {
        assert(a@ =~= b@);
    }
    true
}

/// Whether `pat` occurs at position `at` of `s`.
pub open spec fn spec_occurs_at(s: Seq<char>, pat: Seq<char>, at: int) -> bool {
    0 <= at && at + pat.len() <= s.len() && s.subrange(at, at + pat.len() as int) == pat
}

/// Whether `pat` occurs anywhere in `s`.
pub open spec fn spec_contains(s: Seq<char>, pat: Seq<char>) -> bool {
    exists|at: int| spec_occurs_at(s, pat, at)
}

/// Whether `pat` occurs as a substring of `s`, by characters.
pub fn contains_str(s: &str, pat: &str) -> (r: bool)
    ensures
        r == spec_contains(s@, pat@),
{
    let n = s.unicode_len();
    let m = pat.unicode_len();
    if m > n {
        proof {
            assert(forall|at: int| !spec_occurs_at(s@, pat@, at));
        }
        return false;
    }
    if m == 0 {
        proof {
            assert(s@.subrange(0, 0) =~= pat@);
            assert(spec_occurs_at(s@, pat@, 0));
        }
        return true;
    }
    let mut at: usize = 0;
    while at <= n - m
        invariant
            n == s@.len(),
            m == pat@.len(),
            1 <= m <= n,
            at <= n - m + 1,
            forall|k: int| 0 <= k < at ==> !spec_occurs_at(s@, pat@, k),
        decreases n - m + 1 - at,
    {
        let mut i: usize = 0;
        let mut matched: bool = true;
        while i < m
            invariant
                n == s@.len(),
                m == pat@.len(),
                m <= n,
                at <= n - m,
                i <= m,
                matched ==> forall|j: int| 0 <= j < i ==> s@[at + j] == pat@[j],
                !matched ==> !spec_occurs_at(s@, pat@, at as int),
            decreases m - i,
        {
            if matched && s.get_char(at + i) != pat.get_char(i) {
                proof {
                    assert(s@.subrange(at as int, at + m as int)[i as int] != pat@[i as int]);
                }
                matched = false;
            }
            i = i + 1;
        }
        if matched {
            proof {
                assert(s@.subrange(at as int, at + m as int) =~= pat@);
                assert(spec_occurs_at(s@, pat@, at as int));
            }
            return true;
        }
        at = at + 1;
    }
    proof {
        assert forall|k: int| !spec_occurs_at(s@, pat@, k) by {
            if 0 <= k <= n - m {
                assert(!spec_occurs_at(s@, pat@, k));
            }
        }
    }
    false
}

/// Copy a byte vector.
pub fn clone_bytes(v: &Vec<u8>) -> (r: Vec<u8>)
    ensures
        r@ == v@,
{
    let mut out: Vec<u8> = Vec::new();
    let mut i: usize = 0;
    while i < v.len()
        invariant
            i <= v@.len(),
            out@ == v@.subrange(0, i as int),
        decreases v@.len() - i,
    {
        out.push(v[i]);
        i = i + 1;
    }
    proof {
        assert(out@ =~= v@);
    }
    out
}

/// Copy a vector of strings; each copy has the characters of its original.
pub fn clone_strings(v: &Vec<String>) -> (r: Vec<String>)
    ensures
        r@.len() == v@.len(),
        forall|i: int| 0 <= i < v@.len() ==> r@[i]@ == v@[i]@,
{
    let mut out: Vec<String> = Vec::new();
    let mut i: usize = 0;
    while i < v.len()
        invariant
            i <= v@.len(),
            out@.len() == i as int,
            forall|j: int| 0 <= j < i ==> out@[j]@ == v@[j]@,
        decreases v@.len() - i,
    {
        out.push(v[i].clone());
        i = i + 1;
    }
    out
}

/// The decimal digit character of `d`.
pub open spec fn spec_digit_char(d: nat) -> char {
    if d == 0 {
        '0'
    } else if d == 1 {
        '1'
    } else if d == 2 {
        '2'
    } else if d == 3 {
        '3'
    } else if d == 4 {
        '4'
    } else if d == 5 {
        '5'
    } else if d == 6 {
        '6'
    } else if d == 7 {
        '7'
    } else if d == 8 {
        '8'
    } else {
        '9'
    }
}

/// The decimal digit string of `n`, most significant digit first.
pub open spec fn spec_dec(n: nat) -> Seq<char>
    decreases n,
{
    if n < 10 {
        seq![spec_digit_char(n)]
    } else {
        spec_dec(n / 10) + seq![spec_digit_char(n % 10)]
    }
}

/// The one-character string of a decimal digit.
fn digit_str(d: u64) -> (r: &'static str)
    requires
        d < 10,
    ensures
        r@ == seq![spec_digit_char(d as nat)],
{
    proof {
        reveal_strlit("0");
        reveal_strlit("1");
        reveal_strlit("2");
        reveal_strlit("3");
        reveal_strlit("4");
        reveal_strlit("5");
        reveal_strlit("6");
        reveal_strlit("7");
        reveal_strlit("8");
        reveal_strlit("9");
    }
    if d == 0 {
        proof {
            assert("0"@ =~= seq![spec_digit_char(d as nat)]);
        }
        "0"
    } else if d == 1 {
        proof {
            assert("1"@ =~= seq![spec_digit_char(d as nat)]);
        }
        "1"
    } else if d == 2 {
        proof {
            assert("2"@ =~= seq![spec_digit_char(d as nat)]);
        }
        "2"
    } else if d == 3 {
        proof {
            assert("3"@ =~= seq![spec_digit_char(d as nat)]);
        }
        "3"
    } else if d == 4 {
        proof {
            assert("4"@ =~= seq![spec_digit_char(d as nat)]);
        }
        "4"
    } else if d == 5 {
        proof {
            assert("5"@ =~= seq![spec_digit_char(d as nat)]);
        }
        "5"
    } else if d == 6 {
        proof {
            assert("6"@ =~= seq![spec_digit_char(d as nat)]);
        }
        "6"
    } else if d == 7 {
        proof {
            assert("7"@ =~= seq![spec_digit_char(d as nat)]);
        }
        "7"
    } else if d == 8 {
        proof {
            assert("8"@ =~= seq![spec_digit_char(d as nat)]);
        }
        "8"
    } else {
        proof {
            assert("9"@ =~= seq![spec_digit_char(d as nat)]);
        }
        "9"
    }
}

/// Render an unsigned integer in decimal.
pub fn u64_to_string(n: u64) -> (r: String)
    ensures
        r@ == spec_dec(n as nat),
    decreases n,
{
    if n < 10 {
        digit_str(n).to_owned()
    } else {
        let mut s = u64_to_string(n / 10);
        s.append(digit_str(n % 10));
        s
    }
}

/// Render a signed integer in decimal, with a leading minus when negative.
pub fn i64_to_string(n: i64) -> (r: String)
    ensures
        n >= 0 ==> r@ == spec_dec(n as nat),
        n < 0 ==> r@ == seq!['-'] + spec_dec((-(n as int)) as nat),
{
    if n >= 0 {
        u64_to_string(n as u64)
    } else {
        let mag: u64 = if n == i64::MIN {
            9223372036854775808u64
        } else {
            (-n) as u64
        };
        let mut s = "-".to_owned();
        let digits = u64_to_string(mag);
        s.append(digits.as_str());
        proof {
            reveal_strlit("-");
            assert(s@ =~= seq!['-'] + spec_dec((-(n as int)) as nat));
        }
        s
    }
}

} // verus!
