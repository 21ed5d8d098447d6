//! Small verified string utilities: decimal parsing, the `rev-height` grammar
//! used by IBC height attributes, and substring search.

use vstd::prelude::*;
use vstd::std_specs::iter::IteratorSpec;
use vstd::string::StringExecFns;
use crate::height::Height;

verus! {

broadcast use vstd::string::next_postcondition, vstd::string::axiom_spec_iter;

/// The characters of `s`, as a vector.
pub fn chars_of(s: &str) -> (r: Vec<char>)
    ensures
        r@ == s@,
{
    let mut out: Vec<char> = Vec::new();
    for c in it: s.chars()
        invariant
            it.seq() == s@,
            out@ == it.seq().take(it.index() as int),
    {
        out.push(c);
        proof {
            assert(out@ =~= it.seq().take(it.index() as int + 1));
        }
    }
    proof {
        assert(out@ =~= s@);
    }
    out
}

pub open spec fn is_dec_digit(c: char) -> bool {
    '0' <= c && c <= '9'
}

pub open spec fn dec_digit_value(c: char) -> nat {
    (c as nat - '0' as nat) as nat
}

pub open spec fn all_dec_digits(s: Seq<char>) -> bool {
    forall|i: int| 0 <= i < s.len() ==> is_dec_digit(#[trigger] s[i])
}

/// Value of a digit string, most significant digit first.
pub open spec fn dec_value(s: Seq<char>) -> nat
    decreases s.len(),
{
    if s.len() == 0 {
        0
    } else {
        dec_value(s.drop_last()) * 10 + dec_digit_value(s.last())
    }
}

/// A digit string is a `u64` exactly when it is non-empty, all digits, and its
/// value fits.
pub open spec fn spec_parse_u64(s: Seq<char>) -> Option<u64> {
    if s.len() > 0 && all_dec_digits(s) && dec_value(s) <= u64::MAX {
        Some(dec_value(s) as u64)
    } else {
        None
    }
}

/// Extending a digit string never decreases its value.
proof fn lemma_dec_value_prefix(s: Seq<char>, i: int)
    requires
        0 <= i <= s.len(),
    ensures
        dec_value(s) >= dec_value(s.take(i)),
    decreases s.len() - i,
{
    if i < s.len() {
        lemma_dec_value_prefix(s, i + 1);
        assert(s.take(i + 1).drop_last() =~= s.take(i));
        assert(s.take(i + 1).last() == s[i]);
        assert(dec_value(s.take(i + 1)) == dec_value(s.take(i)) * 10 + dec_digit_value(s[i]));
    } else {
        assert(s.take(i) =~= s);
    }
}

/// Parse a decimal `u64`; `None` on empty input, a non-digit, or overflow.
pub fn parse_u64(s: &str) -> (r: Option<u64>)
    ensures
        r == spec_parse_u64(s@),
{
    let cs = chars_of(s);
    parse_u64_chars(&cs)
}

/// As [`parse_u64`], over a character vector.
pub fn parse_u64_chars(cs: &Vec<char>) -> (r: Option<u64>)
    ensures
        r == spec_parse_u64(cs@),
{
    if cs.len() == 0 {
        return None;
    }
    let mut acc: u64 = 0;
    let mut i: usize = 0;
    while i < cs.len()
        invariant
            0 <= i <= cs@.len(),
            all_dec_digits(cs@.take(i as int)),
            acc == dec_value(cs@.take(i as int)),
        decreases cs@.len() - i,
    {
        let c = cs[i];
        if c < '0' || c > '9' {
            assert(!is_dec_digit(cs@[i as int]));
            return None;
        }
        let d: u64 = (c as u32 as u64) - 48;
        if acc > (u64::MAX - d) / 10 {
            proof {
                assert(cs@.take(i as int + 1).drop_last() =~= cs@.take(i as int));
                assert(dec_value(cs@.take(i as int + 1)) > u64::MAX);
                lemma_dec_value_prefix(cs@, i as int + 1);
            }
            return None;
        }
        acc = acc * 10 + d;
        proof {
            assert(cs@.take(i as int + 1).drop_last() =~= cs@.take(i as int));
        }
        i = i + 1;
    }
    proof {
        assert(cs@.take(cs@.len() as int) =~= cs@);
    }
    Some(acc)
}

/// Index of the first occurrence of `c` in `s`.
pub open spec fn spec_find_char(s: Seq<char>, c: char) -> Option<int>
    decreases s.len(),
{
    if s.len() == 0 {
        None
    } else if s[0] == c {
        Some(0)
    } else {
        match spec_find_char(s.drop_first(), c) {
            Some(i) => Some(i + 1),
            None => None,
        }
    }
}

pub proof fn lemma_find_char(s: Seq<char>, c: char)
    ensures
        match spec_find_char(s, c) {
            Some(i) => 0 <= i < s.len() && s[i] == c && forall|j: int| 0 <= j < i ==> s[j] != c,
            None => forall|j: int| 0 <= j < s.len() ==> s[j] != c,
        },
    decreases s.len(),
{
    if s.len() > 0 && s[0] != c {
        lemma_find_char(s.drop_first(), c);
        assert(forall|j: int| 1 <= j < s.len() ==> #[trigger] s[j] == s.drop_first()[j - 1]);
    }
}

fn find_char(cs: &Vec<char>, c: char) -> (r: Option<usize>)
    ensures
        match r {
            Some(i) => spec_find_char(cs@, c) == Some(i as int),
            None => spec_find_char(cs@, c) is None,
        },
{
    proof {
        lemma_find_char(cs@, c);
    }
    let mut i: usize = 0;
    while i < cs.len()
        invariant
            0 <= i <= cs@.len(),
            forall|j: int| 0 <= j < i ==> cs@[j] != c,
        decreases cs@.len() - i,
    {
        if cs[i] == c {
            proof {
                lemma_find_char_witness(cs@, c, i as int);
            }
            return Some(i);
        }
        i = i + 1;
    }
    proof {
        lemma_find_char_none(cs@, c);
    }
    None
}

proof fn lemma_find_char_witness(s: Seq<char>, c: char, i: int)
    requires
        0 <= i < s.len(),
        s[i] == c,
        forall|j: int| 0 <= j < i ==> s[j] != c,
    ensures
        spec_find_char(s, c) == Some(i),
    decreases s.len(),
{
    if i > 0 {
        lemma_find_char_witness(s.drop_first(), c, i - 1);
    }
}

proof fn lemma_find_char_none(s: Seq<char>, c: char)
    requires
        forall|j: int| 0 <= j < s.len() ==> s[j] != c,
    ensures
        spec_find_char(s, c) is None,
    decreases s.len(),
{
    if s.len() > 0 {
        lemma_find_char_none(s.drop_first(), c);
    }
}

/// The `rev-height` grammar of IBC height strings: two decimal `u64`s joined
/// by exactly one `-`.
pub open spec fn spec_parse_height(s: Seq<char>) -> Option<Height> {
    match spec_find_char(s, '-') {
        None => None,
        Some(i) => {
            let rev = s.take(i);
            let rest = s.skip(i + 1);
            if spec_find_char(rest, '-') is Some {
                None
            } else {
                match (spec_parse_u64(rev), spec_parse_u64(rest)) {
                    (Some(rn), Some(rh)) => Some(Height { revision_number: rn, revision_height: rh }),
                    _ => None,
                }
            }
        },
    }
}

/// Parse an IBC height string such as `1-10`.
pub fn parse_height(s: &str) -> (r: Option<Height>)
    ensures
        r == spec_parse_height(s@),
{
    let cs = chars_of(s);
    proof {
        lemma_find_char(cs@, '-');
    }
    let i = match find_char(&cs, '-') {
        None => {
            return None;
        },
        Some(i) => i,
    };
    proof {
        assert(spec_find_char(cs@, '-') == Some(i as int));
        assert(i < cs@.len());
    }
    let mut rev: Vec<char> = Vec::new();
    let mut j: usize = 0;
    while j < i
        invariant
            0 <= j <= i < cs@.len(),
            rev@ == cs@.take(j as int),
        decreases i - j,
    {
        rev.push(cs[j]);
        proof {
            assert(rev@ =~= cs@.take(j as int + 1));
        }
        j = j + 1;
    }
    let mut rest: Vec<char> = Vec::new();
    let mut k: usize = i + 1;
    while k < cs.len()
        invariant
            i + 1 <= k <= cs@.len(),
            rest@ == cs@.skip(i as int + 1).take(k - i - 1),
        decreases cs@.len() - k,
    {
        rest.push(cs[k]);
        proof {
            assert(rest@ =~= cs@.skip(i as int + 1).take(k as int + 1 - i - 1));
        }
        k = k + 1;
    }
    proof {
        assert(rest@ =~= cs@.skip(i as int + 1));
    }
    if find_char(&rest, '-').is_some() {
        return None;
    }
    let rn = match parse_u64_chars(&rev) {
        None => {
            return None;
        },
        Some(v) => v,
    };
    let rh = match parse_u64_chars(&rest) {
        None => {
            return None;
        },
        Some(v) => v,
    };
    Some(Height::new(rn, rh))
}

/// `p` occurs as a contiguous run inside `s`.
pub open spec fn spec_contains_sub(s: Seq<char>, p: Seq<char>) -> bool {
    exists|i: int|
        0 <= i && i + p.len() <= s.len() && #[trigger] s.subrange(i, i + p.len() as int) =~= p
}

/// Substring search; `r` is true exactly when `pat` occurs in `s`.
pub fn contains_sub(s: &str, pat: &str) -> (r: bool)
    ensures
        r == spec_contains_sub(s@, pat@),
{
    let sc = chars_of(s);
    let pc = chars_of(pat);
    if pc.len() > sc.len() {
        return false;
    }
    let mut i: usize = 0;
    while i <= sc.len() - pc.len()
        invariant
            pc@.len() <= sc@.len(),
            0 <= i <= sc@.len() - pc@.len() + 1,
            forall|k: int|
                0 <= k < i ==> #[trigger] sc@.subrange(k, k + pc@.len() as int) !~= pc@,
        decreases sc@.len() - pc@.len() - i + 1,
    {
        let mut j: usize = 0;
        let mut matched = true;
        while j < pc.len()
            invariant
                0 <= j <= pc@.len(),
                pc@.len() <= sc@.len(),
                0 <= i <= sc@.len() - pc@.len(),
                matched ==> forall|m: int| 0 <= m < j ==> sc@[i + m] == pc@[m],
                !matched ==> sc@.subrange(i as int, i + pc@.len() as int) !~= pc@,
            decreases pc@.len() - j,
        {
            if sc[i + j] != pc[j] {
                proof {
                    assert(sc@.subrange(i as int, i + pc@.len() as int)[j as int] != pc@[j as int]);
                }
                matched = false;
                j = pc.len();
            } else {
                j = j + 1;
            }
        }
        if matched {
            proof {
                assert(sc@.subrange(i as int, i + pc@.len() as int) =~= pc@);
            }
            return true;
        }
        i = i + 1;
    }
    proof {
        assert(forall|k: int|
            0 <= k && k + pc@.len() <= sc@.len() ==> #[trigger] sc@.subrange(
                k,
                k + pc@.len() as int,
            ) !~= pc@);
    }
    false
}

/// The decimal digit character for a value below ten.
pub open spec fn dec_digit_char(n: nat) -> char {
    if n == 0 {
        '0'
    } else if n == 1 {
        '1'
    } else if n == 2 {
        '2'
    } else if n == 3 {
        '3'
    } else if n == 4 {
        '4'
    } else if n == 5 {
        '5'
    } else if n == 6 {
        '6'
    } else if n == 7 {
        '7'
    } else if n == 8 {
        '8'
    } else {
        '9'
    }
}

/// The canonical decimal rendering of a number, no leading zeroes except
/// for zero itself.
pub open spec fn dec_str(n: nat) -> Seq<char>
    decreases n,
{
    if n < 10 {
        seq![dec_digit_char(n)]
    } else {
        dec_str(n / 10) + seq![dec_digit_char(n % 10)]
    }
}

/// The rendering of a number is non-empty, all digits, and its value is the
/// number again.
pub proof fn lemma_dec_str_round_trip(n: nat)
    ensures
        dec_str(n).len() > 0,
        all_dec_digits(dec_str(n)),
        dec_value(dec_str(n)) == n,
    decreases n,
{
    if n < 10 {
        let s = dec_str(n);
        assert(s.len() == 1);
        assert(s.last() == dec_digit_char(n));
        assert(s.drop_last().len() == 0);
        assert(dec_value(s.drop_last()) == 0);
        assert(dec_value(s) == dec_value(s.drop_last()) * 10 + dec_digit_value(s.last()));
        assert(dec_digit_value(dec_digit_char(n)) == n);
    } else {
        lemma_dec_str_round_trip(n / 10);
        let s = dec_str(n);
        assert(s.drop_last() =~= dec_str(n / 10));
        assert(s.last() == dec_digit_char(n % 10));
        assert(dec_digit_value(dec_digit_char(n % 10)) == n % 10);
        assert(dec_value(s) == (n / 10) * 10 + n % 10);
        assert((n / 10) * 10 + n % 10 == n) by {
            vstd::arithmetic::div_mod::lemma_fundamental_div_mod(n as int, 10);
        }
        assert forall|i: int| 0 <= i < s.len() implies is_dec_digit(#[trigger] s[i]) by {
            if i < s.len() - 1 {
                assert(s[i] == dec_str(n / 10)[i]);
            }
        }
    }
}

/// The parse of a rendering gives the number back.
pub proof fn lemma_parse_dec_str(n: u64)
    ensures
        spec_parse_u64(dec_str(n as nat)) == Some(n),
{
    lemma_dec_str_round_trip(n as nat);
}

/// The canonical rendering of a height: the two numbers joined by a dash.
pub open spec fn height_str(h: Height) -> Seq<char> {
    dec_str(h.revision_number as nat) + seq!['-'] + dec_str(h.revision_height as nat)
}

/// The parse of a height rendering gives the height back.
pub proof fn lemma_parse_height_str(h: Height)
    ensures
        spec_parse_height(height_str(h)) == Some(h),
{
    let a = dec_str(h.revision_number as nat);
    let b = dec_str(h.revision_height as nat);
    let s = height_str(h);
    lemma_dec_str_round_trip(h.revision_number as nat);
    lemma_dec_str_round_trip(h.revision_height as nat);
    assert(s.len() == a.len() + 1 + b.len());
    assert(s[a.len() as int] == '-');
    assert forall|j: int| 0 <= j < a.len() implies s[j] != '-' by {
        assert(s[j] == a[j]);
        assert(is_dec_digit(a[j]));
    }
    lemma_find_char_witness(s, '-', a.len() as int);
    assert(s.take(a.len() as int) =~= a);
    assert(s.skip(a.len() as int + 1) =~= b);
    assert forall|j: int| 0 <= j < b.len() implies b[j] != '-' by {
        assert(is_dec_digit(b[j]));
    }
    lemma_find_char_none(b, '-');
}

/// Render a number in decimal.
pub fn u64_to_string(n: u64) -> (r: String)
    ensures
        r@ == dec_str(n as nat),
{
    let mut out = String::new();
    push_dec(&mut out, n);
    proof {
        assert(out@ =~= dec_str(n as nat));
    }
    out
}

/// Append one decimal digit.
fn push_digit_str(out: &mut String, d: u64)
    requires
        d < 10,
    ensures
        final(out)@ == old(out)@ + seq![dec_digit_char(d as nat)],
{
    proof {
        reveal_strlit("0");
        reveal_strlit("1");
        reveal_strlit("2");
        reveal_strlit("3");
        reveal_strlit("4");
        reveal_strlit("5");
        reveal_strlit("6");
        reveal_strlit("7");
        reveal_strlit("8");
        reveal_strlit("9");
    }
    let s: &str = match d {
        0 => "0",
        1 => "1",
        2 => "2",
        3 => "3",
        4 => "4",
        5 => "5",
        6 => "6",
        7 => "7",
        8 => "8",
        _ => "9",
    };
    out.append(s);
    assert(out@ =~= old(out)@ + seq![dec_digit_char(d as nat)]);
}

/// Append the decimal digits of `n`.
fn push_dec(out: &mut String, n: u64)
    ensures
        final(out)@ == old(out)@ + dec_str(n as nat),
    decreases n,
{
    if n >= 10 {
        push_dec(out, n / 10);
    }
    push_digit_str(out, n % 10);
    assert(out@ =~= old(out)@ + dec_str(n as nat));
}

/// Render a height as its canonical string.
pub fn height_to_string(h: &Height) -> (r: String)
    ensures
        r@ == height_str(*h),
{
    proof {
        reveal_strlit("-");
    }
    let mut out = u64_to_string(h.revision_number);
    out.append("-");
    let tail = u64_to_string(h.revision_height);
    out.append(tail.as_str());
    proof {
        assert(out@ =~= height_str(*h));
    }
    out
}

/// Character-for-character string equality.
pub fn str_eq(a: &str, b: &str) -> (r: bool)
    ensures
        r == (a@ == b@),
{
    let ca = chars_of(a);
    let cb = chars_of(b);
    if ca.len() != cb.len() {
        return false;
    }
    let mut i: usize = 0;
    while i < ca.len()
        invariant
            ca@.len() == cb@.len(),
            0 <= i <= ca@.len(),
            forall|j: int| 0 <= j < i ==> ca@[j] == cb@[j],
        decreases ca@.len() - i,
    {
        if ca[i] != cb[i] {
            return false;
        }
        i = i + 1;
    }
    proof {
        assert(ca@ =~= cb@);
    }
    true
}

} // verus!

