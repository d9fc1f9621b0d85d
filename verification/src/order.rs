//! The order of strings, and sorting by it.

use vstd::prelude::*;
use crate::text::{chars_of, str_eq, views};

verus! {

/// `a` comes before `b` in the order of strings: at the first place where
/// the two differ, `a` has the smaller character or has ended.
pub open spec fn lex_lt(a: Seq<char>, b: Seq<char>) -> bool
    decreases a.len(),
{
    if b.len() == 0 {
        false
    } else if a.len() == 0 {
        true
    } else if a[0] != b[0] {
        a[0] < b[0]
    } else {
        lex_lt(a.drop_first(), b.drop_first())
    }
}

/// `a` comes before `b` or is `b`.
pub open spec fn lex_le(a: Seq<char>, b: Seq<char>) -> bool {
    a == b || lex_lt(a, b)
}

/// Of two different strings exactly one comes before the other.
pub proof fn lemma_lex_total(a: Seq<char>, b: Seq<char>)
    ensures
        a == b ==> !lex_lt(a, b) && !lex_lt(b, a),
        a != b ==> (lex_lt(a, b) <==> !lex_lt(b, a)),
    decreases a.len(),
{
    if a.len() == 0 || b.len() == 0 {
        if a.len() == 0 && b.len() == 0 {
            assert(a =~= b);
        }
    } else if a[0] == b[0] {
        let x = a.drop_first();
        let y = b.drop_first();
        lemma_lex_total(x, y);
        assert(lex_lt(a, b) == lex_lt(x, y));
        assert(lex_lt(b, a) == lex_lt(y, x));
        if x == y {
            assert(a =~= seq![a[0]] + x);
            assert(b =~= seq![b[0]] + y);
        }
    }
}

/// The order is transitive.
pub proof fn lemma_lex_transitive(a: Seq<char>, b: Seq<char>, c: Seq<char>)
    requires
        lex_lt(a, b),
        lex_lt(b, c),
    ensures
        lex_lt(a, c),
    decreases a.len(),
{
    if a.len() > 0 && a[0] == b[0] && b[0] == c[0] {
        lemma_lex_transitive(a.drop_first(), b.drop_first(), c.drop_first());
    }
}

proof fn lemma_lex_common_prefix(a: Seq<char>, b: Seq<char>, k: int)
    requires
        0 <= k <= a.len(),
        k <= b.len(),
        forall|j: int| 0 <= j < k ==> a[j] == b[j],
    ensures
        lex_lt(a, b) == lex_lt(a.skip(k), b.skip(k)),
    decreases k,
{
    if k == 0 {
        assert(a.skip(0) == a);
        assert(b.skip(0) == b);
    } else {
        let x = a.drop_first();
        let y = b.drop_first();
        assert forall|j: int| 0 <= j < k - 1 implies x[j] == y[j] by {
            assert(x[j] == a[j + 1]);
            assert(y[j] == b[j + 1]);
        }
        lemma_lex_common_prefix(x, y, k - 1);
        assert(x.skip(k - 1) == a.skip(k));
        assert(y.skip(k - 1) == b.skip(k));
    }
}

/// Whether one string comes before another.
pub fn str_lt(a: &str, b: &str) -> (r: bool)
    ensures
        r == lex_lt(a@, b@),
{
    let x = chars_of(a);
    let y = chars_of(b);
    let mut i: usize = 0;
    while i < x.len() && i < y.len() && x[i] == y[i]
        invariant
            i <= x.len(),
            i <= y.len(),
            forall|j: int| 0 <= j < i ==> x@[j] == y@[j],
        decreases x.len() - i,
    {
        i += 1;
    }
    proof {
        lemma_lex_common_prefix(x@, y@, i as int);
        let p = x@.skip(i as int);
        let q = y@.skip(i as int);
        if i < x.len() && i < y.len() {
            assert(p[0] == x@[i as int]);
            assert(q[0] == y@[i as int]);
        }
    }
    if i == y.len() {
        false
    } else if i == x.len() {
        true
    } else {
        x[i] < y[i]
    }
}

/// Each string of `s` comes before the next.
pub open spec fn strictly_sorted(s: Seq<Seq<char>>) -> bool {
    forall|i: int, j: int| 0 <= i < j < s.len() ==> lex_lt(#[trigger] s[i], #[trigger] s[j])
}

/// `a` and `b` hold the same strings.
pub open spec fn same_strings(a: Seq<Seq<char>>, b: Seq<Seq<char>>) -> bool {
    forall|x: Seq<char>| a.contains(x) <==> b.contains(x)
}

/// The strings of a list in order, each once.
pub fn sort_dedup(list: &Vec<String>) -> (r: Vec<String>)
    ensures
        strictly_sorted(views(r@)),
        same_strings(views(r@), views(list@)),
{
    let mut out: Vec<String> = Vec::new();
    let mut i: usize = 0;
    while i < list.len()
        invariant
            i <= list.len(),
            strictly_sorted(views(out@)),
            same_strings(views(out@), views(list@).take(i as int)),
        decreases list.len() - i,
    {
        let x = &list[i];
        let ghost before = views(out@);
        let mut p: usize = 0;
        while p < out.len() && str_lt(out[p].as_str(), x.as_str())
            invariant
                p <= out.len(),
                before == views(out@),
                forall|j: int| 0 <= j < p ==> lex_lt(#[trigger] before[j], x@),
            decreases out.len() - p,
        {
            assert(before[p as int] == out@[p as int]@);
            p += 1;
        }
        proof {
            crate::text::lemma_take_contains(views(list@), i as int);
            assert(views(list@)[i as int] == x@);
        }
        let dup = p < out.len() && str_eq(out[p].as_str(), x.as_str());
        proof {
            if p < out.len() {
                assert(before[p as int] == out@[p as int]@);
            }
        }
        if dup {
            proof {
                assert(before[p as int] == x@);
                assert(before.contains(x@));
            }
        } else {
            out.insert(p, x.clone());
            proof {
                let after = views(out@);
                assert(after =~= before.insert(p as int, x@));
                if p < before.len() {
                    assert(before[p as int] != x@);
                    lemma_lex_total(before[p as int], x@);
                }
                assert forall|a: int, b: int| 0 <= a < b < after.len() implies lex_lt(
                    #[trigger] after[a],
                    #[trigger] after[b],
                ) by {
                    if b < p {
                    } else if b == p {
                    } else if a == p {
                        if b - 1 > p {
                            lemma_lex_transitive(x@, before[p as int], before[b - 1]);
                        }
                    } else if a < p {
                        assert(after[a] == before[a]);
                        assert(after[b] == before[b - 1]);
                    } else {
                        assert(after[a] == before[a - 1]);
                        assert(after[b] == before[b - 1]);
                    }
                }
                assert forall|y: Seq<char>| after.contains(y) <==> (before.contains(y) || y
                    == x@) by {
                    if before.contains(y) {
                        let k = choose|k: int| 0 <= k < before.len() && before[k] == y;
                        if k < p {
                            assert(after[k] == y);
                        } else {
                            assert(after[k + 1] == y);
                        }
                    }
                    if y == x@ {
                        assert(after[p as int] == y);
                    }
                    if after.contains(y) {
                        let k = choose|k: int| 0 <= k < after.len() && after[k] == y;
                        if k < p {
                            assert(before[k] == y);
                        } else if k > p {
                            assert(before[k - 1] == y);
                        }
                    }
                }
            }
        }
        i += 1;
    }
    assert(views(list@).take(list.len() as int) == views(list@));
    out
}

} // verus!

verus! {

use crate::state::WorkspaceInfo;

/// The workspaces are in the order of their project names.
pub open spec fn sorted_by_project(s: Seq<WorkspaceInfo>) -> bool {
    forall|i: int, j: int|
        0 <= i < j < s.len() ==> lex_le((#[trigger] s[i]).project@, (#[trigger] s[j]).project@)
}

/// The workspaces in the order of their project names; those with the same
/// project name stay in the order in which they came.
pub fn sort_by_project(list: &Vec<WorkspaceInfo>) -> (r: Vec<WorkspaceInfo>)
    ensures
        sorted_by_project(r@),
        r@.to_multiset() == list@.to_multiset(),
        r@.len() == list@.len(),
{
    let mut out: Vec<WorkspaceInfo> = Vec::new();
    let mut i: usize = 0;
    assert(list@.take(0) =~= Seq::<WorkspaceInfo>::empty());
    assert(out@ =~= list@.take(0));
    while i < list.len()
        invariant
            i <= list.len(),
            sorted_by_project(out@),
            out@.to_multiset() == list@.take(i as int).to_multiset(),
            out@.len() == i,
        decreases list.len() - i,
    {
        let x = list[i].duplicate();
        let ghost before = out@;
        let mut p: usize = 0;
        while p < out.len() && !str_lt(x.project.as_str(), out[p].project.as_str())
            invariant
                p <= out.len(),
                before == out@,
                forall|j: int| 0 <= j < p ==> !lex_lt(x.project@, (#[trigger] before[j]).project@),
            decreases out.len() - p,
        {
            p += 1;
        }
        out.insert(p, x);
        proof {
            let after = out@;
            assert(after =~= before.insert(p as int, x));
            assert forall|a: int, b: int| 0 <= a < b < after.len() implies lex_le(
                (#[trigger] after[a]).project@,
                (#[trigger] after[b]).project@,
            ) by {
                if b < p {
                    assert(after[a] == before[a]);
                    assert(after[b] == before[b]);
                } else if b == p {
                    assert(after[a] == before[a]);
                    lemma_lex_total(x.project@, before[a].project@);
                } else if a == p {
                    assert(after[b] == before[b - 1]);
                    if b - 1 > p {
                        assert(lex_le(before[p as int].project@, before[b - 1].project@));
                        if before[p as int].project@ != before[b - 1].project@ {
                            lemma_lex_transitive(
                                x.project@,
                                before[p as int].project@,
                                before[b - 1].project@,
                            );
                        }
                    }
                } else if a < p {
                    assert(after[a] == before[a]);
                    assert(after[b] == before[b - 1]);
                } else {
                    assert(after[a] == before[a - 1]);
                    assert(after[b] == before[b - 1]);
                }
            }
            let t = list@.take(i as int + 1);
            let h = list@.take(i as int);
            assert(t =~= h.insert(i as int, list@[i as int]));
            vstd::seq_lib::to_multiset_insert(h, i as int, list@[i as int]);
            vstd::seq_lib::to_multiset_insert(before, p as int, x);
            assert(x == list@[i as int]);
        }
        i += 1;
    }
    assert(list@.take(list.len() as int) == list@);
    out
}

} // verus!
