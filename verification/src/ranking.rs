use vstd::prelude::*;

use crate::models::{Role, RoleView};

verus! {

broadcast use vstd::seq_lib::group_to_multiset_ensures;

/// Where `x` goes in `s` when `s` is ordered by rising rank and `x` goes after
/// every entry of rank at most its own.
pub open spec fn rising_slot(s: Seq<RoleView>, x: RoleView) -> int
    decreases s.len(),
{
    if s.len() == 0 {
        0
    } else if s.last().rank <= x.rank {
        s.len() as int
    } else {
        rising_slot(s.drop_last(), x)
    }
}

/// The roles of `s` ordered by rising rank, roles of equal rank in the order they come in.
pub open spec fn sorted_by_rank(s: Seq<RoleView>) -> Seq<RoleView>
    decreases s.len(),
{
    if s.len() == 0 {
        s
    } else {
        let t = sorted_by_rank(s.drop_last());
        t.insert(rising_slot(t, s.last()), s.last())
    }
}

/// The ranks never fall along `s`.
pub open spec fn rises_by_rank(s: Seq<RoleView>) -> bool {
    forall|i: int, j: int| 0 <= i < j < s.len() ==> (#[trigger] s[i]).rank <= (#[trigger] s[j]).rank
}

/// The values of a list of roles.
pub open spec fn role_views(s: Seq<Role>) -> Seq<RoleView> {
    s.map_values(|r: Role| r@)
}

proof fn lemma_rising_slot_bounds(s: Seq<RoleView>, x: RoleView)
    ensures
        0 <= rising_slot(s, x) <= s.len(),
        forall|j: int| rising_slot(s, x) <= j < s.len() ==> (#[trigger] s[j]).rank > x.rank,
        rising_slot(s, x) > 0 ==> s[rising_slot(s, x) - 1].rank <= x.rank,
    decreases s.len(),
{
    if s.len() > 0 && s.last().rank > x.rank {
        lemma_rising_slot_bounds(s.drop_last(), x);
        let p = rising_slot(s, x);
        assert forall|j: int| p <= j < s.len() implies (#[trigger] s[j]).rank > x.rank by {
            if j < s.len() - 1 {
                assert(s[j] == s.drop_last()[j]);
            }
        }
        if p > 0 {
            assert(s[p - 1] == s.drop_last()[p - 1]);
        }
    }
}

/// Sorting by rank orders the roles by rising rank and keeps every role.
pub proof fn lemma_sorted_by_rank(s: Seq<RoleView>)
    ensures
        rises_by_rank(sorted_by_rank(s)),
        sorted_by_rank(s).to_multiset() == s.to_multiset(),
        sorted_by_rank(s).len() == s.len(),
    decreases s.len(),
{
    if s.len() > 0 {
        let t = sorted_by_rank(s.drop_last());
        lemma_sorted_by_rank(s.drop_last());
        let x = s.last();
        let p = rising_slot(t, x);
        lemma_rising_slot_bounds(t, x);
        let u = t.insert(p, x);
        assert forall|i: int, j: int| 0 <= i < j < u.len() implies (#[trigger] u[i]).rank <= (#[trigger] u[j]).rank by {
            if j < p {
                assert(u[i] == t[i] && u[j] == t[j]);
            } else if j == p {
                assert(u[j] == x);
                assert(u[i] == t[i]);
                assert(t[i].rank <= t[p - 1].rank);
            } else if i < p {
                assert(u[i] == t[i] && u[j] == t[j - 1]);
            } else if i == p {
                assert(u[i] == x && u[j] == t[j - 1]);
            } else {
                assert(u[i] == t[i - 1] && u[j] == t[j - 1]);
            }
        }
        assert(s.drop_last().push(x) =~= s);
    }
}

/// Orders roles by rising rank, keeping the order of equal ranks.
pub fn sort_roles(items: Vec<Role>) -> (r: Vec<Role>)
    ensures
        role_views(r@) == sorted_by_rank(role_views(items@)),
{
    let ghost all = role_views(items@);
    let mut out: Vec<Role> = Vec::new();
    let mut i: usize = 0;
    let total: usize = items.len();
    let mut rest = items;
    assert(all.take(0) =~= Seq::<RoleView>::empty());
    while rest.len() > 0
        invariant
            i <= total,
            total == all.len(),
            role_views(rest@) == all.skip(i as int),
            role_views(out@) == sorted_by_rank(all.take(i as int)),
        decreases rest@.len(),
    {
        let ghost before = rest@;
        let x = rest.remove(0);
        let ghost xv = x@;
        assert(role_views(before) == all.skip(i as int));
        assert(role_views(before).len() == before.len());
        assert(i < all.len());
        assert(role_views(before)[0] == before[0]@);
        assert(all.skip(i as int)[0] == all[i as int]);
        assert(xv == all[i as int]);
        assert forall|k: int| 0 <= k < rest@.len() implies role_views(rest@)[k] == all.skip(i + 1)[k] by {
            assert(rest@[k] == before[k + 1]);
            assert(role_views(before)[k + 1] == before[k + 1]@);
            assert(all.skip(i as int)[k + 1] == all[i + 1 + k]);
        }
        assert(role_views(rest@) =~= all.skip(i + 1));
        assert(all.take(i + 1).drop_last() =~= all.take(i as int));
        let ghost ov = role_views(out@);
        let mut p = out.len();
        assert(ov.take(p as int) =~= ov);
        while p > 0 && out[p - 1].rank > x.rank
            invariant
                p <= out@.len(),
                ov == role_views(out@),
                rising_slot(ov, xv) == rising_slot(ov.take(p as int), xv),
                xv == x@,
            decreases p,
        {
            assert(ov.take(p as int).drop_last() =~= ov.take(p - 1));
            assert(ov.take(p as int).last() == out@[p - 1]@);
            p = p - 1;
        }
        proof {
            if p > 0 {
                assert(ov.take(p as int).last() == out@[p - 1]@);
            }
        }
        assert(rising_slot(ov, xv) == p);
        out.insert(p, x);
        assert(role_views(out@) =~= ov.insert(p as int, xv));
        i = i + 1;
    }
    assert(all.take(i as int) =~= all);
    out
}

} // verus!
