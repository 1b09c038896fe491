//! HTML form bodies (`application/x-www-form-urlencoded`) and the ordered map
//! of fields that the configuration pages receive.
use vstd::prelude::*;

use indexmap::IndexMap;

verus! {

/// `indexmap::IndexMap`, the ordered map that holds the fields of a form.
#[verifier::external_type_specification]
#[verifier::external_body]
#[verifier::reject_recursive_types(K)]
#[verifier::reject_recursive_types(V)]
#[verifier::reject_recursive_types(S)]
pub struct ExIndexMap<K, V, S>(IndexMap<K, V, S>);

/// The entries of a form map, in the map's order, each as (name, value) text.
pub uninterp spec fn form_entries(m: IndexMap<String, String>) -> Seq<(Seq<char>, Seq<char>)>;

/// The (name, value) pairs that `form_urlencoded::parse` decodes from `body`,
/// in order (with `+` as space, percent escapes decoded, invalid UTF-8 replaced).
pub uninterp spec fn urlencoded_pairs(body: Seq<u8>) -> Seq<(Seq<char>, Seq<char>)>;

/// No two entries have the same name.
pub open spec fn names_unique(entries: Seq<(Seq<char>, Seq<char>)>) -> bool {
    forall|i: int, j: int|
        0 <= i < entries.len() && 0 <= j < entries.len() && i != j ==> (#[trigger] entries[i]).0
            != (#[trigger] entries[j]).0
}

/// Some entry has the name `k`.
pub open spec fn has_name(entries: Seq<(Seq<char>, Seq<char>)>, k: Seq<char>) -> bool {
    exists|i: int| 0 <= i < entries.len() && (#[trigger] entries[i]).0 == k
}

/// The value of the entry named `k`, if there is one.
pub open spec fn value_of(entries: Seq<(Seq<char>, Seq<char>)>, k: Seq<char>) -> Option<Seq<char>> {
    if has_name(entries, k) {
        Some(entries[choose|i: int| 0 <= i < entries.len() && (#[trigger] entries[i]).0 == k].1)
    } else {
        None
    }
}

/// The entries after inserting `(k, v)`: an entry named `k` keeps its place
/// and takes the value `v`; otherwise the pair goes last.
pub open spec fn entries_insert(entries: Seq<(Seq<char>, Seq<char>)>, k: Seq<char>, v: Seq<char>) -> Seq<(Seq<char>, Seq<char>)> {
    if has_name(entries, k) {
        let i = choose|i: int| 0 <= i < entries.len() && (#[trigger] entries[i]).0 == k;
        entries.update(i, (k, v))
    } else {
        entries.push((k, v))
    }
}

/// The entries of a map built by inserting `pairs` one after the other.
pub open spec fn entries_from_pairs(pairs: Seq<(Seq<char>, Seq<char>)>) -> Seq<(Seq<char>, Seq<char>)>
    decreases pairs.len(),
{
    if pairs.len() == 0 {
        Seq::empty()
    } else {
        let last = pairs.last();
        entries_insert(entries_from_pairs(pairs.drop_last()), last.0, last.1)
    }
}

/// `IndexMap::new`: an empty map.
#[verifier::external_body]
fn form_map_new() -> (m: IndexMap<String, String>)
    ensures
        form_entries(m) == Seq::<(Seq<char>, Seq<char>)>::empty(),
{
    IndexMap::new()
}

/// `IndexMap::insert`: an entry with an equal name keeps its place and takes
/// the new value, else the pair is appended; names stay unique.
#[verifier::external_body]
fn form_map_insert(m: &mut IndexMap<String, String>, k: String, v: String)
    requires
        names_unique(form_entries(*old(m))),
    ensures
        form_entries(*final(m)) == entries_insert(form_entries(*old(m)), k@, v@),
        names_unique(form_entries(*final(m))),
{
    m.insert(k, v);
}

/// `IndexMap::get`: the value of the entry named `k`, if there is one.
#[verifier::external_body]
fn form_map_get<'a>(m: &'a IndexMap<String, String>, k: &str) -> (res: Option<&'a String>)
    requires
        names_unique(form_entries(*m)),
    ensures
        match res {
            Some(v) => exists|i: int|
                0 <= i < form_entries(*m).len() && #[trigger] form_entries(*m)[i] == (k@, v@),
            None => !has_name(form_entries(*m), k@),
        },
{
    m.get(k)
}

/// `form_urlencoded::parse(body).into_owned()`, collected in order.
#[verifier::external_body]
fn urlencoded_parse(body: &[u8]) -> (res: Vec<(String, String)>)
    ensures
        res@.map_values(|p: (String, String)| (p.0@, p.1@)) == urlencoded_pairs(body@),
{
    url::form_urlencoded::parse(body).into_owned().collect()
}

proof fn lemma_insert_keeps_unique(entries: Seq<(Seq<char>, Seq<char>)>, k: Seq<char>, v: Seq<char>)
    requires
        names_unique(entries),
    ensures
        names_unique(entries_insert(entries, k, v)),
{
    let r = entries_insert(entries, k, v);
    if has_name(entries, k) {
        let i = choose|i: int| 0 <= i < entries.len() && (#[trigger] entries[i]).0 == k;
        assert forall|a: int, b: int| 0 <= a < r.len() && 0 <= b < r.len() && a != b implies (#[trigger] r[a]).0 != (#[trigger] r[b]).0 by {
            assert(r[a].0 == entries[a].0);
            assert(r[b].0 == entries[b].0);
        }
    } else {
        assert forall|a: int, b: int| 0 <= a < r.len() && 0 <= b < r.len() && a != b implies (#[trigger] r[a]).0 != (#[trigger] r[b]).0 by {
            if a < entries.len() && b < entries.len() {
                assert(r[a] == entries[a]);
                assert(r[b] == entries[b]);
            } else if a == entries.len() {
                assert(r[b] == entries[b]);
            } else {
                assert(r[a] == entries[a]);
            }
        }
    }
}

/// The entries built from pairs never repeat a name.
pub proof fn lemma_entries_from_pairs_unique(pairs: Seq<(Seq<char>, Seq<char>)>)
    ensures
        names_unique(entries_from_pairs(pairs)),
    decreases pairs.len(),
{
    if pairs.len() > 0 {
        lemma_entries_from_pairs_unique(pairs.drop_last());
        lemma_insert_keeps_unique(entries_from_pairs(pairs.drop_last()), pairs.last().0, pairs.last().1);
    }
}

/// The value of the last pair named `k`.
pub open spec fn last_value(pairs: Seq<(Seq<char>, Seq<char>)>, k: Seq<char>) -> Option<Seq<char>>
    decreases pairs.len(),
{
    if pairs.len() == 0 {
        None
    } else if pairs.last().0 == k {
        Some(pairs.last().1)
    } else {
        last_value(pairs.drop_last(), k)
    }
}

proof fn lemma_value_at(entries: Seq<(Seq<char>, Seq<char>)>, k: Seq<char>, i: int)
    requires
        names_unique(entries),
        0 <= i < entries.len(),
        entries[i].0 == k,
    ensures
        value_of(entries, k) == Some(entries[i].1),
{
    assert(has_name(entries, k));
    let j = choose|j: int| 0 <= j < entries.len() && (#[trigger] entries[j]).0 == k;
    if j != i {
        assert(entries[i].0 != entries[j].0);
    }
}

proof fn lemma_insert_value(entries: Seq<(Seq<char>, Seq<char>)>, lk: Seq<char>, lv: Seq<char>, k: Seq<char>)
    requires
        names_unique(entries),
    ensures
        value_of(entries_insert(entries, lk, lv), k) == if lk == k {
            Some(lv)
        } else {
            value_of(entries, k)
        },
{
    let r = entries_insert(entries, lk, lv);
    lemma_insert_keeps_unique(entries, lk, lv);
    if has_name(entries, lk) {
        let i = choose|i: int| 0 <= i < entries.len() && (#[trigger] entries[i]).0 == lk;
        if lk == k {
            lemma_value_at(r, k, i);
        } else if has_name(entries, k) {
            let j = choose|j: int| 0 <= j < entries.len() && (#[trigger] entries[j]).0 == k;
            lemma_value_at(entries, k, j);
            assert(r[j] == entries[j]);
            lemma_value_at(r, k, j);
        } else {
            assert forall|t: int| 0 <= t < r.len() implies (#[trigger] r[t]).0 != k by {
                if t != i {
                    assert(r[t] == entries[t]);
                }
            }
        }
    } else {
        let n = entries.len() as int;
        if lk == k {
            lemma_value_at(r, k, n);
        } else if has_name(entries, k) {
            let j = choose|j: int| 0 <= j < entries.len() && (#[trigger] entries[j]).0 == k;
            lemma_value_at(entries, k, j);
            assert(r[j] == entries[j]);
            lemma_value_at(r, k, j);
        } else {
            assert forall|t: int| 0 <= t < r.len() implies (#[trigger] r[t]).0 != k by {
                if t < n {
                    assert(r[t] == entries[t]);
                }
            }
        }
    }
}

/// In the fields of a form, a name that occurs several times has the value of
/// its last occurrence, and a name that does not occur has no field.
pub proof fn law_form_last_value_wins(pairs: Seq<(Seq<char>, Seq<char>)>, k: Seq<char>)
    ensures
        value_of(entries_from_pairs(pairs), k) == last_value(pairs, k),
    decreases pairs.len(),
{
    if pairs.len() == 0 {
    } else {
        law_form_last_value_wins(pairs.drop_last(), k);
        lemma_entries_from_pairs_unique(pairs.drop_last());
        lemma_insert_value(entries_from_pairs(pairs.drop_last()), pairs.last().0, pairs.last().1, k);
    }
}

/// The distinct names of the pairs, in the order of their first occurrence.
pub open spec fn distinct_names(pairs: Seq<(Seq<char>, Seq<char>)>) -> Seq<Seq<char>>
    decreases pairs.len(),
{
    if pairs.len() == 0 {
        Seq::empty()
    } else {
        let d = distinct_names(pairs.drop_last());
        if d.contains(pairs.last().0) {
            d
        } else {
            d.push(pairs.last().0)
        }
    }
}

pub open spec fn entry_names(entries: Seq<(Seq<char>, Seq<char>)>) -> Seq<Seq<char>> {
    entries.map_values(|e: (Seq<char>, Seq<char>)| e.0)
}

/// The fields of a form come in the order in which their names first occur
/// in the body, one field per name.
pub proof fn law_form_first_occurrence_order(pairs: Seq<(Seq<char>, Seq<char>)>)
    ensures
        entry_names(entries_from_pairs(pairs)) == distinct_names(pairs),
    decreases pairs.len(),
{
    if pairs.len() > 0 {
        let prev = pairs.drop_last();
        law_form_first_occurrence_order(prev);
        let e = entries_from_pairs(prev);
        let (lk, lv) = pairs.last();
        let d = distinct_names(prev);
        assert(has_name(e, lk) <==> d.contains(lk)) by {
            if has_name(e, lk) {
                let i = choose|i: int| 0 <= i < e.len() && (#[trigger] e[i]).0 == lk;
                assert(d[i] == lk);
            }
            if d.contains(lk) {
                let i = choose|i: int| 0 <= i < d.len() && d[i] == lk;
                assert(e[i].0 == lk);
            }
        }
        let r = entries_insert(e, lk, lv);
        if has_name(e, lk) {
            assert(entry_names(r) =~= d);
        } else {
            assert(entry_names(r) =~= d.push(lk));
        }
    }
}

/// The fields of a form body, in the order of their first occurrence, each
/// with the value of its last occurrence.
pub fn parse_form(body: &[u8]) -> (m: IndexMap<String, String>)
    ensures
        form_entries(m) == entries_from_pairs(urlencoded_pairs(body@)),
        names_unique(form_entries(m)),
{
    let pairs = urlencoded_parse(body);
    let ghost ps = pairs@.map_values(|p: (String, String)| (p.0@, p.1@));
    let mut m = form_map_new();
    let mut i: usize = 0;
    while i < pairs.len()
        invariant
            i <= pairs@.len(),
            ps == pairs@.map_values(|p: (String, String)| (p.0@, p.1@)),
            form_entries(m) == entries_from_pairs(ps.subrange(0, i as int)),
            names_unique(form_entries(m)),
        decreases pairs@.len() - i,
    {
        let k = pairs[i].0.clone();
        let v = pairs[i].1.clone();
        form_map_insert(&mut m, k, v);
        proof {
            let sub = ps.subrange(0, i + 1);
            assert(sub.drop_last() =~= ps.subrange(0, i as int));
            assert(sub.last() == ps[i as int]);
        }
        i = i + 1;
    }
    assert(ps.subrange(0, pairs@.len() as int) =~= ps);
    m
}

/// The value of the field `name`, if the form has one.
pub fn form_get<'a>(m: &'a IndexMap<String, String>, name: &str) -> (res: Option<&'a String>)
    requires
        names_unique(form_entries(*m)),
    ensures
        match res {
            Some(v) => value_of(form_entries(*m), name@) == Some(v@),
            None => value_of(form_entries(*m), name@) is None,
        },
{
    let res = form_map_get(m, name);
    proof {
        if let Some(v) = res {
            let es = form_entries(*m);
            let j = choose|j: int| 0 <= j < es.len() && #[trigger] es[j] == (name@, v@);
            assert(es[j].0 == name@);
            let i = choose|i: int| 0 <= i < es.len() && (#[trigger] es[i]).0 == name@;
            assert(i == j);
        }
    }
    res
}

} // verus!
