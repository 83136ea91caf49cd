//! Ordered key-value lists.  Label maps, annotation maps, node selectors
//! and environment maps are held as association lists so that both the
//! entry order and the lookup semantics are plain values; a key occurs
//! at most once when the list is built through `kv_upsert`.

use vstd::prelude::*;

use crate::text::str_eq_str;

verus! {

/// The value under the first occurrence of `k`, if any.
pub open spec fn spec_kv_lookup(s: Seq<(String, String)>, k: Seq<char>) -> Option<Seq<char>>
    decreases s.len(),
{
    if s.len() == 0 {
        None
    } else if s[0].0@ == k {
        Some(s[0].1@)
    } else {
        spec_kv_lookup(s.drop_first(), k)
    }
}

pub open spec fn spec_kv_has(s: Seq<(String, String)>, k: Seq<char>) -> bool {
    spec_kv_lookup(s, k) is Some
}

proof fn lemma_kv_lookup_step(s: Seq<(String, String)>, k: Seq<char>, i: int)
    requires
        0 <= i < s.len(),
        forall|j: int| 0 <= j < i ==> s[j].0@ != k,
    ensures
        spec_kv_lookup(s, k) == if s[i].0@ == k {
            Some(s[i].1@)
        } else {
            spec_kv_lookup(s.skip(i + 1), k)
        },
    decreases i,
{
    if i == 0 {
        assert(s.drop_first() =~= s.skip(1));
    } else {
        lemma_kv_lookup_step(s.drop_first(), k, i - 1);
        assert(s.drop_first().skip(i) =~= s.skip(i + 1));
        assert(s.drop_first()[i - 1] == s[i]);
    }
}

/// When every key differs from `k`, the lookup misses.
pub proof fn lemma_kv_lookup_none(s: Seq<(String, String)>, k: Seq<char>)
    requires
        forall|j: int| 0 <= j < s.len() ==> s[j].0@ != k,
    ensures
        spec_kv_lookup(s, k) is None,
    decreases s.len(),
{
    if s.len() > 0 {
        lemma_kv_lookup_none(s.drop_first(), k);
    }
}

/// The lookup finds the value at the first index whose key is `k`.
pub proof fn lemma_kv_lookup_at(s: Seq<(String, String)>, k: Seq<char>, i: int)
    requires
        0 <= i < s.len(),
        s[i].0@ == k,
        forall|j: int| 0 <= j < i ==> s[j].0@ != k,
    ensures
        spec_kv_lookup(s, k) == Some(s[i].1@),
    decreases i,
{
    if i == 0 {
    } else {
        lemma_kv_lookup_at(s.drop_first(), k, i - 1);
    }
}

/// A lookup over a concatenation takes the left part's hit and falls
/// through to the right part otherwise.
pub proof fn lemma_kv_lookup_concat(a: Seq<(String, String)>, b: Seq<(String, String)>, k: Seq<char>)
    ensures
        spec_kv_lookup(a + b, k) == if spec_kv_lookup(a, k) is Some {
            spec_kv_lookup(a, k)
        } else {
            spec_kv_lookup(b, k)
        },
    decreases a.len(),
{
    if a.len() == 0 {
        assert(a + b =~= b);
    } else {
        assert((a + b)[0] == a[0]);
        assert((a + b).drop_first() =~= a.drop_first() + b);
        lemma_kv_lookup_concat(a.drop_first(), b, k);
        if a[0].0@ == k {
            assert(spec_kv_lookup(a + b, k) == Some((a + b)[0].1@));
        } else {
            assert(spec_kv_lookup(a + b, k) == spec_kv_lookup((a + b).drop_first(), k));
            assert(spec_kv_lookup(a, k) == spec_kv_lookup(a.drop_first(), k));
        }
    }
}

/// Appending entries on the right leaves the result of a lookup that
/// already hits untouched.
pub proof fn lemma_kv_lookup_push_miss(s: Seq<(String, String)>, e: (String, String), k: Seq<char>)
    requires
        e.0@ != k,
    ensures
        spec_kv_lookup(s.push(e), k) == spec_kv_lookup(s, k),
{
    assert(s.push(e) =~= s + seq![e]);
    lemma_kv_lookup_concat(s, seq![e], k);
    assert(seq![e][0] == e);
    assert(seq![e].drop_first() =~= Seq::<(String, String)>::empty());
    assert(spec_kv_lookup(seq![e], k) == spec_kv_lookup(seq![e].drop_first(), k));
    assert(spec_kv_lookup(Seq::<(String, String)>::empty(), k) is None);
}

pub proof fn lemma_kv_lookup_push_hit(s: Seq<(String, String)>, e: (String, String))
    requires
        spec_kv_lookup(s, e.0@) is None,
    ensures
        spec_kv_lookup(s.push(e), e.0@) == Some(e.1@),
{
    assert(s.push(e) =~= s + seq![e]);
    lemma_kv_lookup_concat(s, seq![e], e.0@);
    assert(seq![e][0] == e);
    assert(spec_kv_lookup(seq![e], e.0@) == Some(e.1@));
}

pub fn kv_get<'a>(s: &'a Vec<(String, String)>, k: &str) -> (r: Option<&'a String>)
    ensures
        match r {
            Some(v) => spec_kv_lookup(s@, k@) == Some(v@),
            None => spec_kv_lookup(s@, k@) is None,
        },
{
    let mut i: usize = 0;
    while i < s.len()
        invariant
            i <= s@.len(),
            forall|j: int| 0 <= j < i ==> s@[j].0@ != k@,
        decreases s@.len() - i,
    {
        if str_eq_str(s[i].0.as_str(), k) {
            proof {
                lemma_kv_lookup_at(s@, k@, i as int);
            }
            return Some(&s[i].1);
        }
        i += 1;
    }
    proof {
        lemma_kv_lookup_none(s@, k@);
    }
    None
}

pub fn kv_has(s: &Vec<(String, String)>, k: &str) -> (r: bool)
    ensures
        r == spec_kv_has(s@, k@),
{
    match kv_get(s, k) {
        Some(_) => true,
        None => false,
    }
}

/// Sets `k` to `v`: overwrites the first entry under `k`, or appends a
/// new entry when the key is absent.  Every other key's lookup stands.
pub fn kv_upsert(s: &mut Vec<(String, String)>, k: String, v: String)
    ensures
        spec_kv_lookup(final (s)@, k@) == Some(v@),
        forall|q: Seq<char>|
            q != k@ ==> #[trigger] spec_kv_lookup(final (s)@, q) == spec_kv_lookup(old(s)@, q),
        final (s)@.len() <= old(s)@.len() + 1,
        spec_kv_unique(old(s)@) ==> spec_kv_unique(final (s)@),
{
    let ghost orig = s@;
    let mut i: usize = 0;
    while i < s.len()
        invariant
            s@ == orig,
            orig == old(s)@,
            i <= s@.len(),
            forall|j: int| 0 <= j < i ==> s@[j].0@ != k@,
        decreases s@.len() - i,
    {
        if str_eq_str(s[i].0.as_str(), k.as_str()) {
            let ghost iv = i as int;
            let entry = (k, v);
            let ghost eg = entry;
            s.remove(i);
            s.insert(i, entry);
            proof {
                assert(s@ =~= orig.update(iv, eg));
                lemma_kv_lookup_at(s@, eg.0@, iv);
                assert forall|q: Seq<char>| q != eg.0@ implies #[trigger] spec_kv_lookup(s@, q)
                    == spec_kv_lookup(orig, q) by {
                    lemma_kv_lookup_update_other(orig, s@, q, iv);
                }
                if spec_kv_unique(orig) {
                    assert forall|a: int, b: int| 0 <= a < b < s@.len() implies s@[a].0@
                        != s@[b].0@ by {
                        assert(orig[a].0@ != orig[b].0@);
                        assert(s@[a].0@ == orig[a].0@ && s@[b].0@ == orig[b].0@);
                    }
                }
            }
            return ;
        }
        i += 1;
    }
    proof {
        lemma_kv_lookup_none(s@, k@);
    }
    let entry = (k, v);
    let ghost eg = entry;
    s.push(entry);
    proof {
        assert(s@ =~= orig.push(eg));
        lemma_kv_lookup_push_hit(orig, eg);
        assert forall|q: Seq<char>| q != eg.0@ implies #[trigger] spec_kv_lookup(s@, q)
            == spec_kv_lookup(orig, q) by {
            lemma_kv_lookup_push_miss(orig, eg, q);
        }
        if spec_kv_unique(orig) {
            lemma_kv_lookup_none_keys(orig, eg.0@);
            assert forall|a: int, b: int| 0 <= a < b < s@.len() implies s@[a].0@ != s@[b].0@ by {
                if b < orig.len() {
                    assert(orig[a].0@ != orig[b].0@);
                } else {
                    assert(s@[b] == eg);
                    assert(orig[a].0@ != eg.0@);
                    assert(s@[a].0@ == orig[a].0@);
                }
            }
        }
    }
}

/// Two lists whose entries agree except at one index, where both carry
/// the same key, agree on every other key's lookup.
proof fn lemma_kv_lookup_update_other(a: Seq<(String, String)>, b: Seq<(String, String)>, q: Seq<char>, i: int)
    requires
        a.len() == b.len(),
        0 <= i < a.len(),
        a[i].0@ == b[i].0@,
        a[i].0@ != q,
        forall|j: int| 0 <= j < a.len() && j != i ==> a[j] == b[j],
    ensures
        spec_kv_lookup(a, q) == spec_kv_lookup(b, q),
    decreases a.len(),
{
    if a.len() > 0 {
        if i == 0 {
            lemma_kv_lookup_same_tail(a.drop_first(), b.drop_first(), q);
        } else {
            assert(a[0] == b[0]);
            if a[0].0@ == q {
            } else {
                lemma_kv_lookup_update_other(a.drop_first(), b.drop_first(), q, i - 1);
            }
        }
    }
}

proof fn lemma_kv_lookup_same_tail(a: Seq<(String, String)>, b: Seq<(String, String)>, q: Seq<char>)
    requires
        a =~= b,
    ensures
        spec_kv_lookup(a, q) == spec_kv_lookup(b, q),
{
}

/// Inserts every entry of `other`, later entries overriding earlier
/// ones and all of them overriding `s`.
pub fn kv_extend(s: &mut Vec<(String, String)>, other: &Vec<(String, String)>)
    ensures
        forall|q: Seq<char>| #[trigger]
            spec_kv_lookup(final (s)@, q) == if spec_kv_last_lookup(other@, q) is Some {
                spec_kv_last_lookup(other@, q)
            } else {
                spec_kv_lookup(old(s)@, q)
            },
        spec_kv_unique(old(s)@) ==> spec_kv_unique(final (s)@),
{
    let ghost was_unique = spec_kv_unique(s@);
    let mut i: usize = 0;
    while i < other.len()
        invariant
            i <= other@.len(),
            was_unique == spec_kv_unique(old(s)@),
            was_unique ==> spec_kv_unique(s@),
            forall|q: Seq<char>| #[trigger]
                spec_kv_lookup(s@, q) == if spec_kv_last_lookup(other@.take(i as int), q)
                    is Some {
                    spec_kv_last_lookup(other@.take(i as int), q)
                } else {
                    spec_kv_lookup(old(s)@, q)
                },
        decreases other@.len() - i,
    {
        let entry_k = other[i].0.clone();
        let entry_v = other[i].1.clone();
        kv_upsert(s, entry_k, entry_v);
        proof {
            assert(other@.take(i + 1).drop_last() =~= other@.take(i as int));
            assert(other@.take(i + 1).last() == other@[i as int]);
        }
        i += 1;
    }
    proof {
        assert(other@.take(other@.len() as int) =~= other@);
    }
}


/// No key occurs twice.
pub open spec fn spec_kv_unique(s: Seq<(String, String)>) -> bool {
    forall|i: int, j: int| 0 <= i < j < s.len() ==> s[i].0@ != s[j].0@
}

/// In a list with unique keys, the lookup of an entry's key gives
/// that entry's value.
pub proof fn lemma_kv_lookup_at_unique(s: Seq<(String, String)>, j: int)
    requires
        spec_kv_unique(s),
        0 <= j < s.len(),
    ensures
        spec_kv_lookup(s, s[j].0@) == Some(s[j].1@),
{
    assert(forall|i: int| 0 <= i < j ==> s[i].0@ != s[j].0@);
    lemma_kv_lookup_at(s, s[j].0@, j);
}

/// A hit names an entry.
pub proof fn lemma_kv_lookup_some_index(s: Seq<(String, String)>, q: Seq<char>)
    requires
        spec_kv_lookup(s, q) is Some,
    ensures
        exists|j: int|
            0 <= j < s.len() && (#[trigger] s[j]).0@ == q && Some(s[j].1@) == spec_kv_lookup(s, q),
    decreases s.len(),
{
    if s[0].0@ == q {
        assert(s[0].0@ == q && Some(s[0].1@) == spec_kv_lookup(s, q));
    } else {
        lemma_kv_lookup_some_index(s.drop_first(), q);
        let j = choose|j: int|
            0 <= j < s.drop_first().len() && (#[trigger] s.drop_first()[j]).0@ == q && Some(
                s.drop_first()[j].1@,
            ) == spec_kv_lookup(s.drop_first(), q);
        assert(s[j + 1] == s.drop_first()[j]);
    }
}

/// A miss means no entry carries the key.
pub proof fn lemma_kv_lookup_none_keys(s: Seq<(String, String)>, q: Seq<char>)
    requires
        spec_kv_lookup(s, q) is None,
    ensures
        forall|j: int| 0 <= j < s.len() ==> (#[trigger] s[j]).0@ != q,
    decreases s.len(),
{
    if s.len() > 0 {
        lemma_kv_lookup_none_keys(s.drop_first(), q);
        assert forall|j: int| 0 <= j < s.len() implies (#[trigger] s[j]).0@ != q by {
            if j > 0 {
                assert(s[j] == s.drop_first()[j - 1]);
            }
        }
    }
}

/// The value under the last occurrence of `k`, matching the effect of
/// inserting a list's entries in order.
pub open spec fn spec_kv_last_lookup(s: Seq<(String, String)>, k: Seq<char>) -> Option<Seq<char>>
    decreases s.len(),
{
    if s.len() == 0 {
        None
    } else if s.last().0@ == k {
        Some(s.last().1@)
    } else {
        spec_kv_last_lookup(s.drop_last(), k)
    }
}

} // verus!
