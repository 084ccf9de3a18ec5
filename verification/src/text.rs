//! Verified text helpers used by the orchestration and adapter layers:
//! decimal rendering of indices for node names, character-wise string
//! equality, and substring search for heuristic role inference.

use vstd::prelude::*;

verus! {

/// The character for one decimal digit.
pub open spec fn digit_char(d: nat) -> char {
    if d == 0 {
        '0'
    } else if d == 1 {
        '1'
    } else if d == 2 {
        '2'
    } else if d == 3 {
        '3'
    } else if d == 4 {
        '4'
    } else if d == 5 {
        '5'
    } else if d == 6 {
        '6'
    } else if d == 7 {
        '7'
    } else if d == 8 {
        '8'
    } else {
        '9'
    }
}

/// The decimal rendering of `n`, most significant digit first, without
/// leading zeros (`0` renders as `"0"`).
pub open spec fn dec_digits(n: nat) -> Seq<char>
    decreases n,
{
    if n < 10 {
        seq![digit_char(n)]
    } else {
        dec_digits(n / 10).push(digit_char(n % 10))
    }
}

/// The decimal rendering is never empty, and has one character exactly for
/// values below ten.
pub proof fn lemma_dec_digits_len(n: nat)
    ensures
        dec_digits(n).len() >= 1,
        n < 10 ==> dec_digits(n).len() == 1,
        n >= 10 ==> dec_digits(n).len() >= 2,
    decreases n,
{
    if n >= 10 {
        lemma_dec_digits_len(n / 10);
    }
}

/// Distinct values render as distinct decimal strings.
pub proof fn lemma_dec_digits_injective(a: nat, b: nat)
    requires
        dec_digits(a) == dec_digits(b),
    ensures
        a == b,
    decreases a,
{
    lemma_dec_digits_len(a);
    lemma_dec_digits_len(b);
    if a < 10 && b < 10 {
        assert(dec_digits(a)[0] == digit_char(a));
        assert(dec_digits(b)[0] == digit_char(b));
        assert(a == b);
    } else if a >= 10 && b >= 10 {
        assert(dec_digits(a).last() == digit_char(a % 10));
        assert(dec_digits(b).last() == digit_char(b % 10));
        assert(a % 10 == b % 10);
        assert(dec_digits(a).drop_last() == dec_digits(a / 10));
        assert(dec_digits(b).drop_last() == dec_digits(b / 10));
        lemma_dec_digits_injective(a / 10, b / 10);
        vstd::arithmetic::div_mod::lemma_fundamental_div_mod(a as int, 10);
        vstd::arithmetic::div_mod::lemma_fundamental_div_mod(b as int, 10);
    } else {
        assert(dec_digits(a).len() != dec_digits(b).len());
    }
}

/// Relies on std's String::push: appends the given character to the end of
/// the string.
#[verifier::external_body]
fn push_char(s: &mut String, c: char)
    ensures
        final(s)@ == old(s)@.push(c),
{
    s.push(c);
}

/// One decimal digit as a character.
fn digit_to_char(d: usize) -> (r: char)
    requires
        d < 10,
    ensures
        r == digit_char(d as nat),
{
    if d == 0 {
        '0'
    } else if d == 1 {
        '1'
    } else if d == 2 {
        '2'
    } else if d == 3 {
        '3'
    } else if d == 4 {
        '4'
    } else if d == 5 {
        '5'
    } else if d == 6 {
        '6'
    } else if d == 7 {
        '7'
    } else if d == 8 {
        '8'
    } else {
        '9'
    }
}

/// Append the decimal rendering of `n` to `s`.
fn push_decimal(s: &mut String, n: usize)
    ensures
        final(s)@ == old(s)@ + dec_digits(n as nat),
    decreases n,
{
    if n < 10 {
        push_char(s, digit_to_char(n));
        proof {
            assert(final(s)@ =~= old(s)@ + dec_digits(n as nat));
        }
    } else {
        push_decimal(s, n / 10);
        push_char(s, digit_to_char(n % 10));
        proof {
            assert(final(s)@ =~= old(s)@ + dec_digits(n as nat));
        }
    }
}

/// The decimal rendering of `n` as an owned string.
pub fn decimal_string(n: usize) -> (r: String)
    ensures
        r@ == dec_digits(n as nat),
{
    let mut s = String::new();
    push_decimal(&mut s, n);
    proof {
        assert(s@ =~= dec_digits(n as nat));
    }
    s
}

/// `base`, then `infix`, then the decimal rendering of `i`: the shape of
/// every generated node name.
pub open spec fn spec_indexed_name(base: Seq<char>, infix: Seq<char>, i: nat) -> Seq<char> {
    base + infix + dec_digits(i)
}

/// Names built over the same base and infix are distinct for distinct
/// indices.
pub proof fn lemma_indexed_name_injective(base: Seq<char>, infix: Seq<char>, i: nat, j: nat)
    requires
        spec_indexed_name(base, infix, i) == spec_indexed_name(base, infix, j),
    ensures
        i == j,
{
    let p = base + infix;
    let s1 = spec_indexed_name(base, infix, i);
    let s2 = spec_indexed_name(base, infix, j);
    assert(s1.len() == p.len() + dec_digits(i).len());
    assert(s2.len() == p.len() + dec_digits(j).len());
    assert(dec_digits(i) =~= dec_digits(j)) by {
        assert forall|t: int| 0 <= t < dec_digits(i).len() implies dec_digits(i)[t] == dec_digits(
            j,
        )[t] by {
            assert(s1[p.len() + t] == dec_digits(i)[t]);
            assert(s2[p.len() + t] == dec_digits(j)[t]);
        }
    }
    lemma_dec_digits_injective(i, j);
}

/// A control-plane name and a worker name over the same base never collide:
/// they differ right after the base, where one holds `"-cp-"` and the other
/// `"-worker-"`.
pub proof fn lemma_cp_worker_names_differ(base: Seq<char>, a: nat, b: nat)
    ensures
        spec_indexed_name(base, "-cp-"@, a) != spec_indexed_name(base, "-worker-"@, b),
{
    reveal_strlit("-cp-");
    reveal_strlit("-worker-");
    let s1 = spec_indexed_name(base, "-cp-"@, a);
    let s2 = spec_indexed_name(base, "-worker-"@, b);
    lemma_dec_digits_len(a);
    lemma_dec_digits_len(b);
    let k = base.len() + 1;
    assert(s1[k as int] == 'c');
    assert(s2[k as int] == 'w');
}

/// Build the name `"{base}{infix}{i}"`.
pub fn indexed_name(base: &str, infix: &str, i: usize) -> (r: String)
    ensures
        r@ == spec_indexed_name(base@, infix@, i as nat),
{
    let mut s = String::from_str(base);
    s.append(infix);
    push_decimal(&mut s, i);
    proof {
        assert(s@ =~= spec_indexed_name(base@, infix@, i as nat));
    }
    s
}

/// Character-wise string equality.
pub fn str_eq(a: &str, b: &str) -> (r: bool)
    ensures
        r == (a@ == b@),
{
    let alen = a.unicode_len();
    let blen = b.unicode_len();
    if alen != blen {
        return false;
    }
    let mut i: usize = 0;
    while i < alen
        invariant
            alen == a@.len(),
            blen == b@.len(),
            alen == blen,
            i <= alen,
            forall|j: int| 0 <= j < i ==> a@[j] == b@[j],
        decreases alen - i,
    {
        if a.get_char(i) != b.get_char(i) {
            return false;
        }
        i = i + 1;
    }
    proof {
        assert(a@ =~= b@);
    }
    true
}

/// `needle` occurs in `hay` starting at some position.
pub open spec fn contains_seq(hay: Seq<char>, needle: Seq<char>) -> bool {
    exists|i: int|
        0 <= i && i + needle.len() <= hay.len() && #[trigger] hay.subrange(
            i,
            i + needle.len(),
        ) == needle
}

/// `needle` matches `hay` exactly at position `i`.
fn match_at(hay: &str, needle: &str, i: usize, hlen: usize, nlen: usize) -> (r: bool)
    requires
        hlen == hay@.len(),
        nlen == needle@.len(),
        i + nlen <= hlen,
    ensures
        r == (hay@.subrange(i as int, i + needle@.len()) == needle@),
{
    let mut j: usize = 0;
    while j < nlen
        invariant
            hlen == hay@.len(),
            nlen == needle@.len(),
            i + nlen <= hlen,
            j <= nlen,
            forall|t: int| 0 <= t < j ==> hay@[i + t] == needle@[t],
        decreases nlen - j,
    {
        if hay.get_char(i + j) != needle.get_char(j) {
            proof {
                assert(hay@.subrange(i as int, i + needle@.len())[j as int] == hay@[i + j]);
            }
            return false;
        }
        j = j + 1;
    }
    proof {
        assert(hay@.subrange(i as int, i + needle@.len()) =~= needle@);
    }
    true
}

/// Substring search (case-sensitive, position-wise).
pub fn str_contains(hay: &str, needle: &str) -> (r: bool)
    ensures
        r == contains_seq(hay@, needle@),
{
    let hlen = hay.unicode_len();
    let nlen = needle.unicode_len();
    if nlen > hlen {
        return false;
    }
    if nlen == 0 {
        proof {
            assert(hay@.subrange(0, 0 + needle@.len() as int) =~= needle@);
            assert(contains_seq(hay@, needle@));
        }
        return true;
    }
    let mut i: usize = 0;
    while i <= hlen - nlen
        invariant
            hlen == hay@.len(),
            nlen == needle@.len(),
            0 < nlen <= hlen,
            i <= hlen - nlen + 1,
            forall|k: int|
                0 <= k < i ==> #[trigger] hay@.subrange(k, k + needle@.len()) != needle@,
        decreases hlen - nlen - i + 1,
    {
        if match_at(hay, needle, i, hlen, nlen) {
            return true;
        }
        i = i + 1;
    }
    false
}

} // verus!
