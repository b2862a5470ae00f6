//! Layer ids: a new layer takes its base name, or the base name with the
//! smallest suffix `_2`, `_3`, … that no layer has yet.

use vstd::prelude::*;

use crate::text::{dec_seq, digit_char, push_decimal, str_eq, string_views};

verus! {

/// `base_n`.
pub open spec fn suffixed(base: Seq<char>, n: nat) -> Seq<char> {
    base + "_"@ + dec_seq(n)
}

/// The id a new layer named `base` gets among the existing `ids`: `base` if
/// it is free, else `base_n` for the smallest `n ≥ 2` that is free.
pub open spec fn is_fresh_id(ids: Seq<Seq<char>>, base: Seq<char>, r: Seq<char>) -> bool {
    if !ids.contains(base) {
        r == base
    } else {
        exists|n: nat|
            #![trigger suffixed(base, n)]
            n >= 2 && r == suffixed(base, n) && !ids.contains(r) && forall|m: nat|
                2 <= m < n ==> ids.contains(#[trigger] suffixed(base, m))
    }
}

/// A fresh id is not among the existing ids.
pub proof fn law_fresh_id_is_new(ids: Seq<Seq<char>>, base: Seq<char>, r: Seq<char>)
    requires
        is_fresh_id(ids, base, r),
    ensures
        !ids.contains(r),
{
}

/// Different digits have different characters.
proof fn lemma_digit_char_injective(a: nat, b: nat)
    requires
        a < 10,
        b < 10,
        digit_char(a) == digit_char(b),
    ensures
        a == b,
{
}

/// Different numbers have different decimal representations.
pub proof fn lemma_dec_seq_injective(a: nat, b: nat)
    requires
        dec_seq(a) == dec_seq(b),
    ensures
        a == b,
    decreases a,
{
    if a < 10 && b < 10 {
        assert(dec_seq(a)[0] == digit_char(a));
        assert(dec_seq(b)[0] == digit_char(b));
        lemma_digit_char_injective(a, b);
    } else if a < 10 {
        assert(dec_seq(b / 10).len() >= 1);
        assert(dec_seq(b).len() >= 2);
    } else if b < 10 {
        assert(dec_seq(a / 10).len() >= 1);
        assert(dec_seq(a).len() >= 2);
    } else {
        assert(dec_seq(a).last() == digit_char(a % 10));
        assert(dec_seq(b).last() == digit_char(b % 10));
        lemma_digit_char_injective(a % 10, b % 10);
        assert(dec_seq(a).drop_last() =~= dec_seq(a / 10));
        assert(dec_seq(b).drop_last() =~= dec_seq(b / 10));
        lemma_dec_seq_injective(a / 10, b / 10);
    }
}

/// Different suffixes give different ids.
proof fn lemma_suffixed_injective(base: Seq<char>, a: nat, b: nat)
    requires
        suffixed(base, a) == suffixed(base, b),
    ensures
        a == b,
{
    reveal_strlit("_");
    assert("_"@.len() == 1);
    let k = base.len() + 1;
    assert(suffixed(base, a).skip(k as int) =~= dec_seq(a));
    assert(suffixed(base, b).skip(k as int) =~= dec_seq(b));
    lemma_dec_seq_injective(a, b);
}

/// Among `ids`, at least one of `base_2` … `base_{len+2}` is free.
proof fn lemma_some_suffix_free(ids: Seq<Seq<char>>, base: Seq<char>)
    ensures
        exists|n: nat| 2 <= n <= ids.len() + 2 && !ids.contains(#[trigger] suffixed(base, n)),
{
    broadcast use vstd::seq_lib::seq_to_set_is_finite;

    let cands = Seq::new((ids.len() + 1) as nat, |i: int| suffixed(base, (i + 2) as nat));
    if forall|n: nat| 2 <= n <= ids.len() + 2 ==> ids.contains(#[trigger] suffixed(base, n)) {
        assert(cands.no_duplicates()) by {
            assert forall|i: int, j: int|
                0 <= i < cands.len() && 0 <= j < cands.len() && i != j implies cands[i]
                != cands[j] by {
                if cands[i] == cands[j] {
                    lemma_suffixed_injective(base, (i + 2) as nat, (j + 2) as nat);
                }
            }
        }
        cands.unique_seq_to_set();
        assert(cands.to_set().subset_of(ids.to_set())) by {
            assert forall|c: Seq<char>| cands.to_set().contains(c) implies ids.to_set().contains(
                c,
            ) by {
                let i = choose|i: int| 0 <= i < cands.len() && cands[i] == c;
                assert(ids.contains(suffixed(base, (i + 2) as nat)));
            }
        }
        vstd::set_lib::lemma_len_subset(cands.to_set(), ids.to_set());
        ids.lemma_cardinality_of_set();
        assert(false);
    }
}

/// Whether `ids` holds `s`.
fn holds_id(ids: &Vec<String>, s: &str) -> (r: bool)
    ensures
        r == string_views(ids@).contains(s@),
{
    let n = ids.len();
    let mut i: usize = 0;
    while i < n
        invariant
            n == ids@.len(),
            i <= n,
            forall|j: int| 0 <= j < i ==> ids@[j]@ != s@,
        decreases n - i,
    {
        if str_eq(ids[i].as_str(), s) {
            assert(string_views(ids@)[i as int] == s@);
            return true;
        }
        i = i + 1;
    }
    proof {
        if string_views(ids@).contains(s@) {
            let j = choose|j: int| 0 <= j < ids@.len() && #[trigger] string_views(ids@)[j] == s@;
            assert(ids@[j]@ == s@);
        }
    }
    false
}

/// A fresh id for a new layer named `base` among the existing layer ids.
pub fn unique_id(ids: &Vec<String>, base: &str) -> (r: String)
    requires
        ids@.len() + 2 <= u64::MAX,
    ensures
        is_fresh_id(string_views(ids@), base@, r@),
{
    let ghost v = string_views(ids@);
    if !holds_id(ids, base) {
        return String::from_str(base);
    }
    proof {
        lemma_some_suffix_free(v, base@);
    }
    let limit: u64 = ids.len() as u64 + 2;
    let mut n: u64 = 2;
    loop
        invariant
            v == string_views(ids@),
            v.len() + 2 == limit,
            v.contains(base@),
            2 <= n <= limit,
            forall|m: nat| 2 <= m < n ==> v.contains(#[trigger] suffixed(base@, m)),
            exists|k: nat| n <= k <= limit && !v.contains(#[trigger] suffixed(base@, k)),
        decreases limit - n,
    {
        let mut c = String::from_str(base);
        c.append("_");
        push_decimal(&mut c, n);
        assert(c@ == suffixed(base@, n as nat));
        if !holds_id(ids, c.as_str()) {
            assert(is_fresh_id(v, base@, c@)) by {
                assert(suffixed(base@, n as nat) == c@);
            }
            return c;
        }
        if n == limit {
            assert(false);
        }
        n = n + 1;
    }
}

} // verus!
