//! The names of the results: the order in which the sources are named, and
//! the suffixes that keep equal names apart.

use vstd::prelude::*;
use crate::text::{concat, decimal, decimal_string, str_eq, text_le};

verus! {

/// The order that results from putting the position `x` into `order`, a list
/// of positions in `keys` that is in order already: `x` goes behind every
/// position whose key comes before its own or equals it.
pub open spec fn inserted(order: Seq<usize>, keys: Seq<Seq<char>>, x: usize) -> Seq<usize>
    decreases order.len(),
{
    if order.len() == 0 {
        seq![x]
    } else if text_le(keys[order.last() as int], keys[x as int]) {
        order.push(x)
    } else {
        inserted(order.drop_last(), keys, x).push(order.last())
    }
}

/// The positions of the first `n` keys, in the order of their keys; equal
/// keys keep the order in which they came.
pub open spec fn stable_order(keys: Seq<Seq<char>>, n: nat) -> Seq<usize>
    decreases n,
{
    if n == 0 {
        Seq::empty()
    } else {
        inserted(stable_order(keys, (n - 1) as nat), keys, (n - 1) as usize)
    }
}

/// The `k`-th name that a result with the stem `stem` can have: the stem
/// itself, then the stem with `_1`, with `_2` and so on.
pub open spec fn candidate(stem: Seq<char>, k: nat) -> Seq<char> {
    if k == 0 {
        stem
    } else {
        stem + seq!['_'] + decimal(k)
    }
}

/// The names of a stem differ from one another.
pub proof fn lemma_candidate_injective(stem: Seq<char>, i: nat, j: nat)
    requires
        candidate(stem, i) == candidate(stem, j),
    ensures
        i == j,
{
    let n = stem.len() as int;
    if i > 0 && j > 0 {
        let a = candidate(stem, i);
        let b = candidate(stem, j);
        assert(a.subrange(n + 1, a.len() as int) =~= decimal(i));
        assert(b.subrange(n + 1, b.len() as int) =~= decimal(j));
        crate::text::lemma_decimal_injective(i, j);
    } else if i > 0 {
        assert(candidate(stem, i).len() > stem.len());
    } else if j > 0 {
        assert(candidate(stem, j).len() > stem.len());
    }
}

/// The first `k` names of a stem, as a set.
pub open spec fn candidates(stem: Seq<char>, k: nat) -> Set<Seq<char>>
    decreases k,
{
    if k == 0 {
        Set::empty()
    } else {
        candidates(stem, (k - 1) as nat).insert(candidate(stem, (k - 1) as nat))
    }
}

proof fn lemma_candidates(stem: Seq<char>, k: nat)
    ensures
        candidates(stem, k).finite(),
        candidates(stem, k).len() == k,
        forall|s: Seq<char>| #[trigger]
            candidates(stem, k).contains(s) ==> exists|j: nat| j < k && s == candidate(stem, j),
        forall|j: nat| j < k ==> candidates(stem, k).contains(#[trigger] candidate(stem, j)),
    decreases k,
{
    if k > 0 {
        let before = candidates(stem, (k - 1) as nat);
        let new = candidate(stem, (k - 1) as nat);
        lemma_candidates(stem, (k - 1) as nat);
        if before.contains(new) {
            let j = choose|j: nat| j < k - 1 && new == candidate(stem, j);
            lemma_candidate_injective(stem, j, (k - 1) as nat);
        }
        assert forall|s: Seq<char>| #[trigger] candidates(stem, k).contains(s) implies exists|
            j: nat,
        | j < k && s == candidate(stem, j) by {
            if s == new {
                let last = (k - 1) as nat;
                assert(last < k && s == candidate(stem, last));
            } else {
                let j = choose|j: nat| j < k - 1 && s == candidate(stem, j);
                assert(j < k && s == candidate(stem, j));
            }
        }
    }
}

/// A list cannot hold more names of one stem than it has entries: where the
/// first `k` names of a stem are all in `used`, `k` is at most its length.
pub proof fn lemma_names_run_out(used: Seq<Seq<char>>, stem: Seq<char>, k: nat)
    requires
        forall|j: nat| j < k ==> used.contains(#[trigger] candidate(stem, j)),
    ensures
        k <= used.len(),
{
    lemma_candidates(stem, k);
    let taken = used.to_set();
    used.lemma_cardinality_of_set();
    assert forall|s: Seq<char>| candidates(stem, k).contains(s) implies taken.contains(s) by {
        let j = choose|j: nat| j < k && s == candidate(stem, j);
        assert(used.contains(candidate(stem, j)));
    }
    vstd::set_lib::lemma_len_subset(candidates(stem, k), taken);
}

/// The number of the first name of `stem`, counting from `k`, that `used`
/// does not hold.
pub open spec fn first_free(used: Seq<Seq<char>>, stem: Seq<char>, k: nat) -> nat
    decreases used.len() + 1 - k,
{
    if k <= used.len() && used.contains(candidate(stem, k)) {
        first_free(used, stem, k + 1)
    } else {
        k
    }
}

/// `first_free` finds the smallest number from `k` on whose name is unused.
pub proof fn lemma_first_free(used: Seq<Seq<char>>, stem: Seq<char>, k: nat)
    requires
        forall|j: nat| j < k ==> used.contains(#[trigger] candidate(stem, j)),
    ensures
        k <= first_free(used, stem, k) <= used.len(),
        !used.contains(candidate(stem, first_free(used, stem, k))),
        forall|j: nat|
            j < first_free(used, stem, k) ==> used.contains(#[trigger] candidate(stem, j)),
    decreases used.len() + 1 - k,
{
    lemma_names_run_out(used, stem, k);
    if used.contains(candidate(stem, k)) {
        assert forall|j: nat| j < k + 1 implies used.contains(#[trigger] candidate(stem, j)) by {
            if j == k {
            }
        }
        lemma_names_run_out(used, stem, k + 1);
        lemma_first_free(used, stem, k + 1);
    }
}

/// The name that a result with the stem `stem` gets where the names in
/// `used` are taken: the first of the stem's names that is not among them.
pub open spec fn free_name(used: Seq<Seq<char>>, stem: Seq<char>) -> Seq<char> {
    candidate(stem, first_free(used, stem, 0))
}

/// Tests whether a list of texts holds `name`.
pub fn holds(list: &Vec<String>, name: &str) -> (r: bool)
    ensures
        r == list.deep_view().contains(name@),
{
    let mut i: usize = 0;
    while i < list.len()
        invariant
            i <= list.len(),
            forall|j: int| 0 <= j < i ==> list.deep_view()[j] != name@,
        decreases list.len() - i,
    {
        if str_eq(list[i].as_str(), name) {
            assert(list.deep_view()[i as int] == name@);
            return true;
        }
        i = i + 1;
    }
    false
}

/// Picks the name of a result with the stem `stem`, where the names in
/// `used` are taken: the stem itself if it is free, else the stem with the
/// smallest suffix `_1`, `_2`, ... that is. Returns the name and the number
/// of its suffix, 0 for none.
pub fn unused_name(used: &Vec<String>, stem: &str) -> (r: (String, usize))
    ensures
        r.1 == first_free(used.deep_view(), stem@, 0),
        r.0@ == free_name(used.deep_view(), stem@),
        r.0@ == candidate(stem@, r.1 as nat),
        !used.deep_view().contains(r.0@),
        forall|j: nat| j < r.1 ==> used.deep_view().contains(#[trigger] candidate(stem@, j)),
{
    let ghost taken = used.deep_view();
    proof {
        lemma_first_free(taken, stem@, 0);
    }
    if !holds(used, stem) {
        return (String::from_str(stem), 0);
    }
    let mut k: usize = 1;
    let mut name: String = concat(concat(stem, "_").as_str(), decimal_string(k).as_str());
    proof {
        reveal_strlit("_");
        assert(name@ =~= candidate(stem@, 1));
    }
    while holds(used, name.as_str())
        invariant
            taken == used.deep_view(),
            1 <= k <= used.len(),
            name@ == candidate(stem@, k as nat),
            first_free(taken, stem@, 0) == first_free(taken, stem@, k as nat),
            forall|j: nat| j < k ==> taken.contains(#[trigger] candidate(stem@, j)),
        decreases used.len() - k,
    {
        proof {
            assert forall|j: nat| j < k + 1 implies taken.contains(
                #[trigger] candidate(stem@, j),
            ) by {
                if j == k {
                }
            }
            lemma_names_run_out(taken, stem@, (k + 1) as nat);
        }
        k = k + 1;
        name = concat(concat(stem, "_").as_str(), decimal_string(k).as_str());
        proof {
            reveal_strlit("_");
            assert(name@ =~= candidate(stem@, k as nat));
        }
    }
    (name, k)
}

/// The names of the first `n` results, where `stems` holds the stems in
/// the order in which the results are named: each gets the first name of its
/// stem that none before it has.
pub open spec fn assigned_names(stems: Seq<Seq<char>>, n: nat) -> Seq<Seq<char>>
    decreases n,
{
    if n == 0 {
        Seq::empty()
    } else {
        let before = assigned_names(stems, (n - 1) as nat);
        before.push(free_name(before, stems[n - 1]))
    }
}

/// The number of the suffix in the name of result `i`: 0 where the name is
/// the stem itself.
pub open spec fn assigned_suffix(stems: Seq<Seq<char>>, i: nat) -> nat {
    first_free(assigned_names(stems, i), stems[i as int], 0)
}

/// The names of the first `n` results are the first `n` of the names of
/// any larger number of them.
pub proof fn lemma_assigned_prefix(stems: Seq<Seq<char>>, m: nat, n: nat)
    requires
        m <= n,
    ensures
        assigned_names(stems, m).len() == m,
        assigned_names(stems, n).len() == n,
        assigned_names(stems, m) == assigned_names(stems, n).take(m as int),
        m < n ==> assigned_names(stems, n)[m as int] == candidate(
            stems[m as int],
            assigned_suffix(stems, m),
        ),
    decreases n,
{
    if n == 0 {
        assert(assigned_names(stems, m) =~= assigned_names(stems, n).take(m as int));
    } else if m == n {
        lemma_assigned_prefix(stems, (n - 1) as nat, (n - 1) as nat);
        assert(assigned_names(stems, m) =~= assigned_names(stems, n).take(m as int));
    } else {
        lemma_assigned_prefix(stems, m, (n - 1) as nat);
        lemma_assigned_prefix(stems, (n - 1) as nat, (n - 1) as nat);
        assert(assigned_names(stems, m) =~= assigned_names(stems, n).take(m as int));
    }
}

/// Names the results whose stems are `stems`, in that order. Returns the
/// names and, beside each, the number of its suffix.
pub fn assign_names(stems: &Vec<String>) -> (r: (Vec<String>, Vec<usize>))
    ensures
        r.0.deep_view() == assigned_names(stems.deep_view(), stems.len() as nat),
        r.0.len() == stems.len(),
        r.1.len() == stems.len(),
        forall|i: int|
            0 <= i < stems.len() ==> (#[trigger] r.1@[i]) == assigned_suffix(
                stems.deep_view(),
                i as nat,
            ),
{
    let ghost sv = stems.deep_view();
    let mut names: Vec<String> = Vec::new();
    let mut suffixes: Vec<usize> = Vec::new();
    let mut i: usize = 0;
    assert(names.deep_view() =~= assigned_names(sv, 0));
    while i < stems.len()
        invariant
            sv == stems.deep_view(),
            i <= stems.len(),
            names.len() == i,
            suffixes.len() == i,
            names.deep_view() == assigned_names(sv, i as nat),
            forall|j: int| 0 <= j < i ==> (#[trigger] suffixes@[j]) == assigned_suffix(sv, j as nat),
        decreases stems.len() - i,
    {
        let picked: (String, usize) = unused_name(&names, stems[i].as_str());
        assert(sv[i as int] == stems@[i as int]@);
        crate::text::push_string(&mut names, picked.0);
        suffixes.push(picked.1);
        i = i + 1;
    }
    (names, suffixes)
}

/// No two results get the same name.
pub proof fn lemma_names_distinct(stems: Seq<Seq<char>>, i: nat, j: nat)
    requires
        i < j < stems.len(),
    ensures
        assigned_names(stems, stems.len())[i as int] != assigned_names(stems, stems.len())[j as int],
{
    let all = assigned_names(stems, stems.len());
    let before = assigned_names(stems, j);
    lemma_assigned_prefix(stems, j, stems.len());
    lemma_assigned_prefix(stems, i, stems.len());
    lemma_first_free(before, stems[j as int], 0);
    assert(before[i as int] == all[i as int]);
    assert(before.contains(all[i as int]));
}

/// Of the results that share a stem each has a larger suffix than those
/// named before it, and no suffix is skipped: every smaller one, and the
/// bare stem, is the name of a result named earlier.
pub proof fn lemma_suffixes_ascend_without_gaps(stems: Seq<Seq<char>>, i: nat, j: nat)
    requires
        i < j < stems.len(),
        stems[i as int] == stems[j as int],
    ensures
        assigned_suffix(stems, i) < assigned_suffix(stems, j),
        forall|k: nat|
            k < assigned_suffix(stems, j) ==> assigned_names(stems, j).contains(
                #[trigger] candidate(stems[j as int], k),
            ),
{
    let stem = stems[j as int];
    let before_i = assigned_names(stems, i);
    let before_j = assigned_names(stems, j);
    lemma_assigned_prefix(stems, i, j);
    lemma_first_free(before_i, stem, 0);
    lemma_first_free(before_j, stem, 0);
    let si = assigned_suffix(stems, i);
    let sj = assigned_suffix(stems, j);
    assert(before_j[i as int] == candidate(stem, si));
    assert(before_j.contains(candidate(stem, si)));
    if sj <= si {
        if sj < si {
            assert(before_i.contains(candidate(stem, sj)));
            let p = choose|p: int| 0 <= p < before_i.len() && before_i[p] == candidate(stem, sj);
            assert(before_j[p] == before_i[p]);
            assert(before_j.contains(candidate(stem, sj)));
        }
        assert(false);
    }
}

/// The place at which `inserted` puts `x` into `order`.
pub open spec fn insert_place(order: Seq<usize>, keys: Seq<Seq<char>>, x: usize) -> nat
    decreases order.len(),
{
    if order.len() == 0 {
        0
    } else if text_le(keys[order.last() as int], keys[x as int]) {
        order.len()
    } else {
        insert_place(order.drop_last(), keys, x)
    }
}

proof fn lemma_inserted_shape(order: Seq<usize>, keys: Seq<Seq<char>>, x: usize)
    ensures
        insert_place(order, keys, x) <= order.len(),
        inserted(order, keys, x) == order.take(insert_place(order, keys, x) as int).push(x)
            + order.skip(insert_place(order, keys, x) as int),
        forall|k: int|
            insert_place(order, keys, x) <= k < order.len() ==> !text_le(
                keys[(#[trigger] order[k]) as int],
                keys[x as int],
            ),
        insert_place(order, keys, x) > 0 ==> text_le(
            keys[order[insert_place(order, keys, x) - 1] as int],
            keys[x as int],
        ),
    decreases order.len(),
{
    let j = insert_place(order, keys, x) as int;
    if order.len() == 0 {
        assert(inserted(order, keys, x) =~= order.take(j).push(x) + order.skip(j));
    } else if text_le(keys[order.last() as int], keys[x as int]) {
        assert(inserted(order, keys, x) =~= order.take(j).push(x) + order.skip(j));
    } else {
        let rest = order.drop_last();
        lemma_inserted_shape(rest, keys, x);
        assert(rest.take(j) =~= order.take(j));
        assert((rest.take(j).push(x) + rest.skip(j)).push(order.last()) =~= order.take(j).push(x)
            + order.skip(j));
        assert forall|k: int| j <= k < order.len() implies !text_le(
            keys[(#[trigger] order[k]) as int],
            keys[x as int],
        ) by {
            if k < rest.len() {
                assert(rest[k] == order[k]);
            }
        }
        if j > 0 {
            assert(rest[j - 1] == order[j - 1]);
        }
    }
}

/// Whether `order` lists positions of `keys` in the order of their keys,
/// positions with equal keys in rising order.
pub open spec fn in_key_order(order: Seq<usize>, keys: Seq<Seq<char>>) -> bool {
    forall|p: int, q: int|
        0 <= p < q < order.len() ==> {
            &&& text_le(keys[(#[trigger] order[p]) as int], keys[(#[trigger] order[q]) as int])
            &&& text_le(keys[order[q] as int], keys[order[p] as int]) ==> order[p] < order[q]
        }
}

/// Whether `order` lists the first `n` positions, each of them and nothing
/// else.
pub open spec fn lists_all(order: Seq<usize>, n: nat) -> bool {
    &&& order.len() == n
    &&& forall|p: int| 0 <= p < order.len() ==> (#[trigger] order[p]) < n
    &&& forall|x: usize| x < n ==> order.contains(x)
}

/// A list in the order of the keys holds no position twice.
pub proof fn lemma_key_order_distinct(order: Seq<usize>, keys: Seq<Seq<char>>, p: int, q: int)
    requires
        in_key_order(order, keys),
        0 <= p < q < order.len(),
    ensures
        order[p] != order[q],
{
    crate::text::lemma_text_le_reflexive(keys[order[p] as int]);
}

/// The order of the keys is an order of all of them: it lists each
/// position once, by rising keys, and positions with equal keys as they
/// came.
pub proof fn lemma_stable_order(keys: Seq<Seq<char>>, n: nat)
    requires
        n <= keys.len(),
        n <= usize::MAX,
    ensures
        lists_all(stable_order(keys, n), n),
        in_key_order(stable_order(keys, n), keys),
    decreases n,
{
    if n > 0 {
        let before = stable_order(keys, (n - 1) as nat);
        let x = (n - 1) as usize;
        lemma_stable_order(keys, (n - 1) as nat);
        lemma_inserted_shape(before, keys, x);
        let j = insert_place(before, keys, x) as int;
        let after = stable_order(keys, n);
        assert(after == before.take(j).push(x) + before.skip(j));
        assert(after.len() == n);
        assert forall|p: int| 0 <= p < after.len() implies {
            &&& (#[trigger] after[p]) < n
            &&& p < j ==> after[p] == before[p]
            &&& p == j ==> after[p] == x
            &&& p > j ==> after[p] == before[p - 1]
        } by {}
        assert forall|y: usize| y < n implies after.contains(y) by {
            if y == x {
                assert(after[j] == x);
            } else {
                assert(before.contains(y));
                let p = choose|p: int| 0 <= p < before.len() && before[p] == y;
                if p < j {
                    assert(after[p] == y);
                } else {
                    assert(after[p + 1] == y);
                }
            }
        }
        assert forall|p: int, q: int| 0 <= p < q < after.len() implies {
            &&& text_le(keys[(#[trigger] after[p]) as int], keys[(#[trigger] after[q]) as int])
            &&& text_le(keys[after[q] as int], keys[after[p] as int]) ==> after[p] < after[q]
        } by {
            if q < j {
                assert(after[p] == before[p] && after[q] == before[q]);
            } else if q == j {
                assert(after[p] == before[p]);
                if p < j - 1 {
                    assert(text_le(keys[before[p] as int], keys[before[j - 1] as int]));
                } else {
                    crate::text::lemma_text_le_reflexive(keys[before[p] as int]);
                }
                crate::text::lemma_text_le_transitive(
                    keys[before[p] as int],
                    keys[before[j - 1] as int],
                    keys[x as int],
                );
            } else if p == j {
                assert(after[q] == before[q - 1]);
                assert(!text_le(keys[before[q - 1] as int], keys[x as int]));
                crate::text::lemma_text_le_total(keys[before[q - 1] as int], keys[x as int]);
            } else if p > j {
                assert(after[p] == before[p - 1] && after[q] == before[q - 1]);
            } else {
                assert(after[p] == before[p] && after[q] == before[q - 1]);
            }
        }
    }
}

/// Whether a list of texts is in order.
pub open spec fn sorted_texts(s: Seq<Seq<char>>) -> bool {
    forall|p: int, q: int| 0 <= p < q < s.len() ==> text_le(#[trigger] s[p], #[trigger] s[q])
}

proof fn lemma_longer_comes_later(a: Seq<char>, t: Seq<char>)
    requires
        text_le(a + t, a),
    ensures
        t.len() == 0,
    decreases a.len(),
{
    if a.len() == 0 {
        assert(a + t =~= t);
    } else {
        assert((a + t)[0] == a[0]);
        assert((a + t).skip(1) =~= a.skip(1) + t);
        lemma_longer_comes_later(a.skip(1), t);
    }
}

/// A name with a suffix tells its stem and its number: two of them are
/// the same only where both stems and both numbers are.
pub proof fn lemma_suffix_splits(x: Seq<char>, m: nat, y: Seq<char>, k: nat)
    requires
        m >= 1,
        k >= 1,
        candidate(x, m) == candidate(y, k),
    ensures
        x == y,
        m == k,
{
    let a = candidate(x, m);
    let b = candidate(y, k);
    crate::text::lemma_decimal_digits(m);
    crate::text::lemma_decimal_digits(k);
    let xl = x.len() as int;
    let yl = y.len() as int;
    assert(a.len() == xl + 1 + decimal(m).len());
    assert(b.len() == yl + 1 + decimal(k).len());
    assert(a[xl] == '_');
    assert(b[yl] == '_');
    if xl < yl {
        assert(0 <= yl - xl - 1 < decimal(m).len());
        assert(a[yl] == decimal(m)[yl - xl - 1]);
        assert(crate::text::is_digit(decimal(m)[yl - xl - 1]));
        assert(false);
    }
    if yl < xl {
        assert(0 <= xl - yl - 1 < decimal(k).len());
        assert(b[xl] == decimal(k)[xl - yl - 1]);
        assert(crate::text::is_digit(decimal(k)[xl - yl - 1]));
        assert(false);
    }
    assert(x =~= a.take(xl));
    assert(y =~= b.take(yl));
    lemma_candidate_injective(x, m, k);
}

proof fn lemma_foreign_names(stems: Seq<Seq<char>>, i: nat, j: nat, k: nat)
    requires
        sorted_texts(stems),
        i < j < stems.len(),
        k >= 1,
        stems[i as int] != stems[j as int],
    ensures
        assigned_names(stems, j)[i as int] != candidate(stems[j as int], k),
{
    let a = stems[j as int];
    let m = assigned_suffix(stems, i);
    lemma_assigned_prefix(stems, i, j);
    if candidate(stems[i as int], m) == candidate(a, k) {
        if m == 0 {
            assert(text_le(stems[i as int], stems[j as int]));
            assert(candidate(a, k) =~= a + (seq!['_'] + decimal(k)));
            lemma_longer_comes_later(a, seq!['_'] + decimal(k));
            assert(false);
        } else {
            lemma_suffix_splits(stems[i as int], m, a, k);
            assert(false);
        }
    }
}

/// Where the files are named in the order of their stems, the files that
/// share a stem get suffixes that count up by one: each has the suffix of
/// the one before it and one more. The first of them has no suffix, or
/// the suffix 1 where the bare stem is the name of an earlier file.
pub proof fn lemma_suffixes_count_up(stems: Seq<Seq<char>>, j: nat)
    requires
        sorted_texts(stems),
        j < stems.len(),
    ensures
        j > 0 && stems[j - 1] == stems[j as int] ==> assigned_suffix(stems, j) == assigned_suffix(
            stems,
            (j - 1) as nat,
        ) + 1,
        (j == 0 || stems[j - 1] != stems[j as int]) ==> assigned_suffix(stems, j) <= 1,
{
    let a = stems[j as int];
    let used = assigned_names(stems, j);
    lemma_assigned_prefix(stems, j, j);
    lemma_first_free(used, a, 0);
    let sj = assigned_suffix(stems, j);
    if j > 0 && stems[j - 1] == a {
        let last = (j - 1) as nat;
        let sl = assigned_suffix(stems, last);
        lemma_suffixes_ascend_without_gaps(stems, last, j);
        if sj > sl + 1 {
            assert(used.contains(candidate(a, sl + 1)));
            let i = choose|i: int| 0 <= i < used.len() && used[i] == candidate(a, sl + 1);
            lemma_assigned_prefix(stems, i as nat, j);
            if stems[i] == a {
                lemma_candidate_injective(a, assigned_suffix(stems, i as nat), sl + 1);
                if i < last {
                    lemma_suffixes_ascend_without_gaps(stems, i as nat, last);
                }
                assert(false);
            } else {
                lemma_foreign_names(stems, i as nat, j, sl + 1);
                assert(false);
            }
        }
    } else {
        if sj > 1 {
            assert(used.contains(candidate(a, 1)));
            let i = choose|i: int| 0 <= i < used.len() && used[i] == candidate(a, 1);
            if stems[i] == a {
                assert(i < j - 1);
                assert(text_le(stems[i], stems[j - 1]));
                assert(text_le(stems[j - 1], stems[j as int]));
                crate::text::lemma_text_le_antisymmetric(stems[i], stems[j - 1]);
                assert(false);
            } else {
                lemma_foreign_names(stems, i as nat, j, 1);
                assert(false);
            }
        }
    }
}

/// The stems of a run, put in their order, are in order.
pub proof fn lemma_ordered_stems_sorted(keys: Seq<Seq<char>>)
    requires
        keys.len() <= usize::MAX,
    ensures
        sorted_texts(
            Seq::new(
                keys.len(),
                |p: int| keys[stable_order(keys, keys.len())[p] as int],
            ),
        ),
{
    lemma_stable_order(keys, keys.len());
    let order = stable_order(keys, keys.len());
    let sorted = Seq::new(keys.len(), |p: int| keys[order[p] as int]);
    assert forall|p: int, q: int| 0 <= p < q < sorted.len() implies text_le(
        #[trigger] sorted[p],
        #[trigger] sorted[q],
    ) by {
        assert(text_le(keys[order[p] as int], keys[order[q] as int]));
    }
}

/// There is one order of the keys only: a list of the first `n` positions
/// that is in the order of their keys, positions with equal keys as they
/// came, is the order that `stable_order` gives.
pub proof fn lemma_order_unique(order: Seq<usize>, keys: Seq<Seq<char>>, n: nat)
    requires
        n <= keys.len(),
        n <= usize::MAX,
        lists_all(order, n),
        in_key_order(order, keys),
    ensures
        order == stable_order(keys, n),
    decreases n,
{
    if n == 0 {
        assert(order =~= stable_order(keys, n));
    } else {
        let x = (n - 1) as usize;
        assert(order.contains(x));
        let j = choose|j: int| 0 <= j < order.len() && order[j] == x;
        let rest = order.take(j) + order.skip(j + 1);
        assert forall|p: int| 0 <= p < rest.len() implies {
            &&& p < j ==> rest[p] == order[p]
            &&& p >= j ==> rest[p] == order[p + 1]
            &&& (#[trigger] rest[p]) < n - 1
        } by {
            if p < j {
                lemma_key_order_distinct(order, keys, p, j);
            } else {
                lemma_key_order_distinct(order, keys, j, p + 1);
            }
        }
        assert forall|y: usize| y < n - 1 implies rest.contains(y) by {
            assert(order.contains(y));
            let p = choose|p: int| 0 <= p < order.len() && order[p] == y;
            if p < j {
                assert(rest[p] == y);
            } else {
                assert(rest[p - 1] == y);
            }
        }
        assert(in_key_order(rest, keys)) by {
            assert forall|p: int, q: int| 0 <= p < q < rest.len() implies {
                &&& text_le(keys[(#[trigger] rest[p]) as int], keys[(#[trigger] rest[q]) as int])
                &&& text_le(keys[rest[q] as int], keys[rest[p] as int]) ==> rest[p] < rest[q]
            } by {
                let pp = if p < j { p } else { p + 1 };
                let qq = if q < j { q } else { q + 1 };
                assert(rest[p] == order[pp] && rest[q] == order[qq]);
                assert(pp < qq);
            }
        }
        lemma_order_unique(rest, keys, (n - 1) as nat);
        lemma_inserted_shape(rest, keys, x);
        let place = insert_place(rest, keys, x) as int;
        if place < j {
            assert(rest[place] == order[place]);
            assert(text_le(keys[order[place] as int], keys[order[j] as int]));
            assert(false);
        }
        if place > j {
            assert(rest[place - 1] == order[place]);
            assert(text_le(keys[order[j] as int], keys[order[place] as int]));
            assert(order[place] < n);
            assert(false);
        }
        assert(order =~= rest.take(j).push(x) + rest.skip(j));
    }
}

/// Calls `itertools::Itertools::sorted_by_key` on the positions of `keys`,
/// with the key at a position as what it is sorted by. The contract claims
/// what the crate documents of the call, that the positions come back in
/// ascending order of their keys and that the sort is stable, and what the
/// standard library documents of the order of `String`: that it goes by the
/// first place in which two texts differ.
#[verifier::external_body]
fn sort_positions(keys: &Vec<String>) -> (order: Vec<usize>)
    ensures
        lists_all(order@, keys.len() as nat),
        in_key_order(order@, keys.deep_view()),
{
    itertools::Itertools::sorted_by_key(0..keys.len(), |i: &usize| keys[*i].clone()).collect()
}

/// The positions of `keys`, in the order of their keys; equal keys keep the
/// order in which they came.
pub fn sorted_order(keys: &Vec<String>) -> (order: Vec<usize>)
    ensures
        order@ == stable_order(keys.deep_view(), keys.len() as nat),
        order.len() == keys.len(),
        forall|i: int| 0 <= i < order.len() ==> (#[trigger] order@[i]) < keys.len(),
{
    let order: Vec<usize> = sort_positions(keys);
    proof {
        lemma_order_unique(order@, keys.deep_view(), keys.len() as nat);
    }
    order
}

} // verus!
