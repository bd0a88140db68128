//! Verified text utilities: decimal rendering of integers, suffix tests and
//! slash-separated path manipulation, used to derive build directory layouts
//! and artifact names.
use vstd::prelude::*;
use vstd::string::*;
use vstd::arithmetic::div_mod::{lemma_div_decreases, lemma_fundamental_div_mod};

verus! {

/// The character for a single decimal digit.
pub open spec fn digit_char(d: nat) -> char {
    if d == 0 {
        '0'
    } else if d == 1 {
        '1'
    } else if d == 2 {
        '2'
    } else if d == 3 {
        '3'
    } else if d == 4 {
        '4'
    } else if d == 5 {
        '5'
    } else if d == 6 {
        '6'
    } else if d == 7 {
        '7'
    } else if d == 8 {
        '8'
    } else {
        '9'
    }
}

/// The decimal representation of `n`, most significant digit first.
pub open spec fn dec_chars(n: nat) -> Seq<char>
    decreases n,
{
    if n < 10 {
        seq![digit_char(n)]
    } else {
        dec_chars(n / 10).push(digit_char(n % 10))
    }
}

pub open spec fn is_digit(c: char) -> bool {
    c == '0' || c == '1' || c == '2' || c == '3' || c == '4' || c == '5' || c == '6' || c == '7'
        || c == '8' || c == '9'
}

pub proof fn lemma_dec_chars_digits(n: nat)
    ensures
        dec_chars(n).len() >= 1,
        forall|i: int| 0 <= i < dec_chars(n).len() ==> is_digit(#[trigger] dec_chars(n)[i]),
    decreases n,
{
    if n < 10 {
    } else {
        lemma_div_decreases(n as int, 10);
        lemma_dec_chars_digits(n / 10);
    }
}

/// Decimal representations of distinct numbers differ.
pub proof fn lemma_dec_chars_injective(a: nat, b: nat)
    requires
        a != b,
    ensures
        dec_chars(a) != dec_chars(b),
    decreases a + b,
{
    if a < 10 && b < 10 {
        assert(dec_chars(a)[0] != dec_chars(b)[0]);
    } else if a < 10 {
        lemma_div_decreases(b as int, 10);
        lemma_dec_chars_digits(b / 10);
        assert(dec_chars(b).len() >= 2);
    } else if b < 10 {
        lemma_div_decreases(a as int, 10);
        lemma_dec_chars_digits(a / 10);
        assert(dec_chars(a).len() >= 2);
    } else {
        lemma_fundamental_div_mod(a as int, 10);
        lemma_fundamental_div_mod(b as int, 10);
        if a % 10 != b % 10 {
            assert(dec_chars(a).last() != dec_chars(b).last());
        } else {
            assert(a / 10 != b / 10);
            lemma_div_decreases(a as int, 10);
            lemma_div_decreases(b as int, 10);
            lemma_dec_chars_injective(a / 10, b / 10);
            if dec_chars(a) == dec_chars(b) {
                assert(dec_chars(a / 10) =~= dec_chars(b / 10)) by {
                    assert(dec_chars(a).drop_last() =~= dec_chars(a / 10));
                    assert(dec_chars(b).drop_last() =~= dec_chars(b / 10));
                }
                assert(false);
            }
        }
    }
}

fn digit_str(d: u64) -> (r: &'static str)
    requires
        d < 10,
    ensures
        r@ =~= seq![digit_char(d as nat)],
{
    proof {
        reveal_strlit("0");
        reveal_strlit("1");
        reveal_strlit("2");
        reveal_strlit("3");
        reveal_strlit("4");
        reveal_strlit("5");
        reveal_strlit("6");
        reveal_strlit("7");
        reveal_strlit("8");
        reveal_strlit("9");
    }
    if d == 0 {
        "0"
    } else if d == 1 {
        "1"
    } else if d == 2 {
        "2"
    } else if d == 3 {
        "3"
    } else if d == 4 {
        "4"
    } else if d == 5 {
        "5"
    } else if d == 6 {
        "6"
    } else if d == 7 {
        "7"
    } else if d == 8 {
        "8"
    } else {
        "9"
    }
}

/// Renders `n` in decimal, e.g. for keying directories by build id.
pub fn u64_to_string(n: u64) -> (r: String)
    ensures
        r@ == dec_chars(n as nat),
    decreases n,
{
    if n < 10 {
        digit_str(n).to_owned()
    } else {
        proof {
            lemma_div_decreases(n as int, 10);
        }
        let mut s = u64_to_string(n / 10);
        s.append(digit_str(n % 10));
        proof {
            assert(s@ =~= dec_chars(n as nat));
        }
        s
    }
}

/// `s` ends with `suffix`.
pub open spec fn ends_with(s: Seq<char>, suffix: Seq<char>) -> bool {
    suffix.len() <= s.len() && s.subrange(s.len() - suffix.len(), s.len() as int) == suffix
}

pub fn str_ends_with(s: &str, suffix: &str) -> (r: bool)
    ensures
        r == ends_with(s@, suffix@),
{
    let n = s.unicode_len();
    let m = suffix.unicode_len();
    if m > n {
        return false;
    }
    let mut i: usize = 0;
    while i < m
        invariant
            m <= n,
            n == s@.len(),
            m == suffix@.len(),
            i <= m,
            forall|j: int| 0 <= j < i ==> s@[n - m + j] == suffix@[j],
        decreases m - i,
    {
        if s.get_char(n - m + i) != suffix.get_char(i) {
            proof {
                if ends_with(s@, suffix@) {
                    assert(s@.subrange(n - m, n as int)[i as int] == suffix@[i as int]);
                }
            }
            return false;
        }
        i += 1;
    }
    proof {
        assert(s@.subrange(n - m, n as int) =~= suffix@);
    }
    true
}

/// Joining paths with a single separator.
pub open spec fn join_chars(base: Seq<char>, rel: Seq<char>) -> Seq<char> {
    base + seq!['/'] + rel
}

pub fn path_join(base: &str, rel: &str) -> (r: String)
    ensures
        r@ == join_chars(base@, rel@),
{
    proof {
        reveal_strlit("/");
    }
    let mut s = base.to_owned();
    s.append("/");
    s.append(rel);
    proof {
        assert(s@ =~= join_chars(base@, rel@));
    }
    s
}

/// `p` is the directory part of the slash-separated path `s`: everything
/// before `s`'s last separator.
pub open spec fn parent_chars_ok(s: Seq<char>, p: Seq<char>) -> bool {
    exists|k: int|
        0 <= k < s.len() && s[k] == '/' && p == s.subrange(0, k) && (forall|j: int|
            k < j < s.len() ==> s[j] != '/')
}

/// The directory part of a slash-separated path: everything before the last
/// separator, or nothing when the path has no separator.
pub fn path_parent(s: &str) -> (r: Option<String>)
    ensures
        match r {
            Some(p) => parent_chars_ok(s@, p@),
            None => forall|i: int| 0 <= i < s@.len() ==> s@[i] != '/',
        },
{
    let n = s.unicode_len();
    let mut i: usize = n;
    while i > 0
        invariant
            i <= n,
            n == s@.len(),
            forall|j: int| i <= j < n ==> s@[j] != '/',
        decreases i,
    {
        i -= 1;
        if s.get_char(i) == '/' {
            let p = s.substring_char(0, i).to_owned();
            return Some(p);
        }
    }
    None
}

/// `q` names `p` itself or a path inside `p`.
pub open spec fn path_under(q: Seq<char>, p: Seq<char>) -> bool {
    q == p || (q.len() > p.len() && q.subrange(0, p.len() as int + 1) == p + seq!['/'])
}

/// Neither path lies inside the other.
pub open spec fn paths_disjoint(p: Seq<char>, q: Seq<char>) -> bool {
    !path_under(p, q) && !path_under(q, p)
}

/// Directories keyed by distinct numbers under a common prefix are disjoint:
/// neither is the other nor lies inside it.
pub proof fn lemma_keyed_dirs_disjoint(prefix: Seq<char>, a: nat, b: nat)
    requires
        a != b,
    ensures
        paths_disjoint(prefix + dec_chars(a), prefix + dec_chars(b)),
{
    lemma_dec_chars_injective(a, b);
    lemma_dec_chars_digits(a);
    lemma_dec_chars_digits(b);
    let p = prefix + dec_chars(a);
    let q = prefix + dec_chars(b);
    if p == q {
        assert(dec_chars(a) =~= dec_chars(b)) by {
            assert(p.len() == q.len());
            assert(dec_chars(a).len() == dec_chars(b).len());
            assert(forall|i: int|
                0 <= i < dec_chars(a).len() ==> dec_chars(a)[i] == p[prefix.len() + i]
                    == #[trigger] dec_chars(b)[i]);
        }
        assert(false);
    }
    if q.len() > p.len() && q.subrange(0, p.len() as int + 1) == p + seq!['/'] {
        let k = dec_chars(a).len() as int;
        assert(q.subrange(0, p.len() as int + 1)[p.len() as int] == '/');
        assert(q[p.len() as int] == dec_chars(b)[k]);
        assert(is_digit(dec_chars(b)[k]));
        assert(false);
    }
    if p.len() > q.len() && p.subrange(0, q.len() as int + 1) == q + seq!['/'] {
        let k = dec_chars(b).len() as int;
        assert(p.subrange(0, q.len() as int + 1)[q.len() as int] == '/');
        assert(p[q.len() as int] == dec_chars(a)[k]);
        assert(is_digit(dec_chars(a)[k]));
        assert(false);
    }
}

} // verus!
