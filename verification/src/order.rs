//! The order of names in sorted tables (that of `String`: by characters, then by length),
//! and tables kept in that order.
use vstd::prelude::*;

use crate::config::Entry;

verus! {

/// Whether `a` comes before `b`: at the first position where they differ, `a` has the
/// smaller character, or `a` is a proper prefix of `b`.
pub open spec fn text_lt(a: Seq<char>, b: Seq<char>) -> bool
    decreases a.len(),
{
    if b.len() == 0 {
        false
    } else if a.len() == 0 {
        true
    } else if a[0] != b[0] {
        a[0] < b[0]
    } else {
        text_lt(a.drop_first(), b.drop_first())
    }
}

/// No name comes before itself.
pub proof fn lemma_text_lt_irreflexive(a: Seq<char>)
    ensures
        !text_lt(a, a),
    decreases a.len(),
{
    if a.len() > 0 {
        lemma_text_lt_irreflexive(a.drop_first());
    }
}

/// The order of names is transitive.
pub proof fn lemma_text_lt_transitive(a: Seq<char>, b: Seq<char>, c: Seq<char>)
    requires
        text_lt(a, b),
        text_lt(b, c),
    ensures
        text_lt(a, c),
    decreases a.len(),
{
    if a.len() > 0 && b.len() > 0 && c.len() > 0 {
        if a[0] == b[0] && b[0] == c[0] {
            lemma_text_lt_transitive(a.drop_first(), b.drop_first(), c.drop_first());
        }
    }
}

/// Of two different names, one comes before the other.
pub proof fn lemma_text_lt_total(a: Seq<char>, b: Seq<char>)
    requires
        a != b,
    ensures
        text_lt(a, b) || text_lt(b, a),
    decreases a.len(),
{
    if a.len() > 0 && b.len() > 0 && a[0] == b[0] {
        if a.drop_first() == b.drop_first() {
            assert(a =~= seq![a[0]] + a.drop_first());
            assert(b =~= seq![b[0]] + b.drop_first());
        }
        lemma_text_lt_total(a.drop_first(), b.drop_first());
    } else if a.len() == 0 && b.len() == 0 {
        assert(a =~= b);
    } else if a.len() > 0 && b.len() > 0 {
        assert(a[0] != b[0]);
    }
}

/// Of two names, at most one comes before the other.
pub proof fn lemma_text_lt_asymmetric(a: Seq<char>, b: Seq<char>)
    requires
        text_lt(a, b),
    ensures
        !text_lt(b, a),
{
    if text_lt(b, a) {
        lemma_text_lt_transitive(a, b, a);
        lemma_text_lt_irreflexive(a);
    }
}

/// Whether `a` comes before `b`.
pub fn text_less(a: &String, b: &String) -> (r: bool)
    ensures
        r == text_lt(a@, b@),
{
    let sa = a.as_str();
    let sb = b.as_str();
    let na = sa.unicode_len();
    let nb = sb.unicode_len();
    let mut i: usize = 0;
    assert(a@.skip(0) =~= a@);
    assert(b@.skip(0) =~= b@);
    while i < na && i < nb
        invariant
            sa@ == a@,
            sb@ == b@,
            0 <= i <= na,
            i <= nb,
            na == a@.len(),
            nb == b@.len(),
            text_lt(a@, b@) == text_lt(a@.skip(i as int), b@.skip(i as int)),
        decreases na - i,
    {
        let ca = sa.get_char(i);
        let cb = sb.get_char(i);
        assert(a@.skip(i as int)[0] == ca && b@.skip(i as int)[0] == cb);
        if ca != cb {
            return ca < cb;
        }
        assert(a@.skip(i as int).drop_first() =~= a@.skip(i + 1));
        assert(b@.skip(i as int).drop_first() =~= b@.skip(i + 1));
        i = i + 1;
    }
    i < nb
}

/// Whether the names of a table are in strictly ascending order.
pub open spec fn ascending<V>(s: Seq<Entry<V>>) -> bool {
    forall|i: int, j: int| 0 <= i < j < s.len() ==> text_lt(s[i].key@, s[j].key@)
}

/// Whether the table has an entry named `k`.
pub open spec fn has_key<V>(s: Seq<Entry<V>>, k: Seq<char>) -> bool {
    exists|i: int| 0 <= i < s.len() && s[i].key@ == k
}

/// Whether the first `n` names of a table are in strictly ascending order.
pub open spec fn ascending_upto<V>(s: Seq<Entry<V>>, n: int) -> bool {
    forall|a: int, b: int| 0 <= a < b < n ==> text_lt(s[a].key@, s[b].key@)
}

/// Whether the names of a table are in strictly ascending order.
pub fn is_ascending<V>(s: &Vec<Entry<V>>) -> (r: bool)
    ensures
        r == ascending(s@),
{
    if s.len() == 0 {
        return true;
    }
    let mut i: usize = 1;
    while i < s.len()
        invariant
            1 <= i <= s@.len(),
            ascending_upto(s@, i as int),
        decreases s@.len() - i,
    {
        if !text_less(&s[i - 1].key, &s[i].key) {
            return false;
        }
        assert forall|a: int, b: int| 0 <= a < b < i + 1 implies text_lt(s@[a].key@, s@[b].key@) by {
            if b == i && a < i - 1 {
                lemma_text_lt_transitive(s@[a].key@, s@[i - 1].key@, s@[i as int].key@);
            }
        }
        i = i + 1;
    }
    true
}

/// Puts `value` under `key` in an ascending table: replaces the value of an entry named
/// `key`, or adds one in its place in the order.
#[verifier::spinoff_prover]
pub fn insert_entry<V>(map: &mut Vec<Entry<V>>, key: String, value: V)
    requires
        ascending(old(map)@),
    ensures
        ascending(final(map)@),
        forall|k: Seq<char>| has_key(final(map)@, k) <==> (k == key@ || has_key(old(map)@, k)),
        forall|i: int|
            0 <= i < final(map)@.len() && (#[trigger] final(map)@[i]).key@ == key@ ==> final(map)@[i].value
                == value,
        forall|i: int, j: int|
            0 <= i < final(map)@.len() && 0 <= j < old(map)@.len() && (#[trigger] final(map)@[i]).key@
                == (#[trigger] old(map)@[j]).key@ && old(map)@[j].key@ != key@ ==> final(map)@[i].value
                == old(map)@[j].value,
{
    let ghost old_map = map@;
    let n = map.len();
    let mut p: usize = 0;
    while p < n && text_less(&map[p].key, &key)
        invariant
            0 <= p <= n,
            n == map@.len(),
            map@ == old_map,
            forall|i: int| 0 <= i < p ==> text_lt(#[trigger] map@[i].key@, key@),
        decreases n - p,
    {
        p = p + 1;
    }
    // Every entry from `p` on comes after `key`, or is `key` itself at `p`.
    assert forall|i: int| p <= i < n implies (i == p && #[trigger] map@[i].key@ == key@) || text_lt(
        key@,
        map@[i].key@,
    ) by {
        if map@[p as int].key@ != key@ {
            lemma_text_lt_total(map@[p as int].key@, key@);
        }
        if i > p {
            if map@[p as int].key@ == key@ {
                assert(text_lt(key@, map@[i].key@));
            } else {
                lemma_text_lt_transitive(key@, map@[p as int].key@, map@[i].key@);
            }
        }
    }
    if p < n && map[p].key == key {
        map.set(p, Entry { key, value });
        assert forall|k: Seq<char>| #[trigger] has_key(map@, k) <==> (k == key@ || has_key(old_map, k)) by {
            if k == key@ {
                assert(map@[p as int].key@ == k);
            }
            if has_key(old_map, k) {
                let j = choose|j: int| 0 <= j < old_map.len() && old_map[j].key@ == k;
                assert(map@[j].key@ == k);
            }
            if has_key(map@, k) {
                let j = choose|j: int| 0 <= j < map@.len() && map@[j].key@ == k;
                if j != p {
                    assert(old_map[j].key@ == k);
                }
            }
        }
        assert forall|i: int| 0 <= i < map@.len() && (#[trigger] map@[i]).key@ == key@ implies map@[i].value
            == value by {
            if i != p {
                if i < p {
                    lemma_text_lt_irreflexive(key@);
                } else {
                    lemma_text_lt_irreflexive(key@);
                }
            }
        }
        assert forall|i: int, j: int|
            0 <= i < map@.len() && 0 <= j < old_map.len() && (#[trigger] map@[i]).key@
                == (#[trigger] old_map[j]).key@ && old_map[j].key@ != key@ implies map@[i].value
            == old_map[j].value by {
            if i != j {
                if i < j {
                    assert(text_lt(old_map[i].key@, old_map[j].key@));
                } else {
                    assert(text_lt(old_map[j].key@, old_map[i].key@));
                }
                lemma_text_lt_irreflexive(old_map[j].key@);
            }
        }
    } else {
        map.insert(p, Entry { key, value });
        assert forall|i: int| 0 <= i < map@.len() && (#[trigger] map@[i]).key@ == key@ implies map@[i].value
            == value by {
            if i < p {
                lemma_text_lt_irreflexive(key@);
            } else if i > p {
                lemma_text_lt_irreflexive(key@);
            }
        }
        assert forall|k: Seq<char>| #[trigger] has_key(map@, k) <==> (k == key@ || has_key(old_map, k)) by {
            if has_key(old_map, k) {
                let j = choose|j: int| 0 <= j < old_map.len() && old_map[j].key@ == k;
                if j < p {
                    assert(map@[j].key@ == k);
                } else {
                    assert(map@[j + 1].key@ == k);
                }
            }
            if k == key@ {
                assert(map@[p as int].key@ == k);
            }
            if has_key(map@, k) {
                let j = choose|j: int| 0 <= j < map@.len() && map@[j].key@ == k;
                if j < p {
                    assert(old_map[j].key@ == k);
                } else if j > p {
                    assert(old_map[j - 1].key@ == k);
                }
            }
        }
        assert forall|i: int, j: int|
            0 <= i < map@.len() && 0 <= j < old_map.len() && (#[trigger] map@[i]).key@
                == (#[trigger] old_map[j]).key@ && old_map[j].key@ != key@ implies map@[i].value
            == old_map[j].value by {
            let i0 = if i < p { i } else { i - 1 };
            assert(i != p);
            assert(map@[i] == old_map[i0]);
            if i0 != j {
                if i0 < j {
                    assert(text_lt(old_map[i0].key@, old_map[j].key@));
                } else {
                    assert(text_lt(old_map[j].key@, old_map[i0].key@));
                }
                lemma_text_lt_irreflexive(old_map[j].key@);
            }
        }
        assert forall|i: int, j: int| 0 <= i < j < map@.len() implies text_lt(
            map@[i].key@,
            map@[j].key@,
        ) by {
            if j < p {
            } else if j == p {
            } else if i < p {
                lemma_text_lt_transitive(map@[i].key@, key@, map@[j].key@);
            } else if i == p {
            } else {
            }
        }
    }
}

} // verus!
