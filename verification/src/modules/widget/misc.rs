use vstd::prelude::*;

verus! {

/// When a module doesn't need to look differently on different guis: it needs a redraw
/// when any gui asks for one
pub fn determine_need_redraw(list: Vec<(usize, bool)>) -> (r: bool)
    ensures
        r == exists|i: int| 0 <= i < list@.len() && (#[trigger] list@[i]).1,
{
    let mut i: usize = 0;
    while i < list.len()
        invariant
            i <= list@.len(),
            forall|j: int| 0 <= j < i ==> !(#[trigger] list@[j]).1,
        decreases list.len() - i,
    {
        if list[i].1 {
            return true;
        }
        i = i + 1;
    }
    false
}

/// Position `p` lies in one of the regions (start, width)
pub open spec fn covered(regions: Seq<(usize, usize)>, p: int) -> bool {
    exists|i: int| 0 <= i < regions.len() && (#[trigger] regions[i]).0 <= p < regions[i].0 + regions[i].1
}

/// Position `p` lies in one of the intervals (start, end)
pub open spec fn in_intervals(iv: Seq<(usize, usize)>, p: int) -> bool {
    exists|i: int| 0 <= i < iv.len() && (#[trigger] iv[i]).0 <= p < iv[i].1
}

/// Regions (start, width) in increasing order, each ending before the next one starts
pub open spec fn separated(regions: Seq<(usize, usize)>) -> bool {
    forall|i: int| 0 <= i < regions.len() - 1 ==> regions[i].0 + regions[i].1 < #[trigger] regions[i + 1].0
}

/// Some region (start, width) starts at `x`
pub open spec fn starts_a_region(regions: Seq<(usize, usize)>, x: int) -> bool {
    exists|i: int| 0 <= i < regions.len() && (#[trigger] regions[i]).0 == x
}

/// Some region (start, width) ends at `x`
pub open spec fn ends_a_region(regions: Seq<(usize, usize)>, x: int) -> bool {
    exists|i: int| 0 <= i < regions.len() && (#[trigger] regions[i]).0 + regions[i].1 == x
}

/// One of the first `k` intervals (start, end) starts at `x`
pub open spec fn iv_starts(iv: Seq<(usize, usize)>, k: int, x: int) -> bool {
    exists|b: int| 0 <= b < k && (#[trigger] iv[b]).0 == x
}

/// One of the first `k` intervals (start, end) ends at `x`
pub open spec fn iv_ends(iv: Seq<(usize, usize)>, k: int, x: int) -> bool {
    exists|b: int| 0 <= b < k && (#[trigger] iv[b]).1 == x
}

/// Intervals sorted by their start
pub open spec fn sorted_by_start(iv: Seq<(usize, usize)>) -> bool {
    forall|i: int, j: int| 0 <= i <= j < iv.len() ==> iv[i].0 <= iv[j].0
}

/// Sort intervals by their start (selection sort); the same intervals come out
fn sort_by_start(v: &mut Vec<(usize, usize)>)
    ensures
        sorted_by_start(final(v)@),
        final(v)@.len() == old(v)@.len(),
        forall|x: (usize, usize)| old(v)@.contains(x) <==> final(v)@.contains(x),
{
    let n = v.len();
    let ghost orig = v@;
    let mut i: usize = 0;
    while i < n
        invariant
            n == v@.len(),
            i <= n,
            forall|a: int, b: int| 0 <= a <= b < i ==> v@[a].0 <= v@[b].0,
            forall|a: int, b: int| 0 <= a < i <= b < n ==> v@[a].0 <= v@[b].0,
            forall|x: (usize, usize)| orig.contains(x) <==> v@.contains(x),
        decreases n - i,
    {
        let mut m: usize = i;
        let mut k: usize = i + 1;
        while k < n
            invariant
                n == v@.len(),
                i <= m < n,
                i < k <= n,
                forall|b: int| i <= b < k ==> v@[m as int].0 <= v@[b].0,
            decreases n - k,
        {
            if v[k].0 < v[m].0 {
                m = k;
            }
            k = k + 1;
        }
        let ghost before = v@;
        let a = v[i];
        let b = v[m];
        v.set(i, b);
        v.set(m, a);
        proof {
            assert forall|x: (usize, usize)| before.contains(x) <==> v@.contains(x) by {
                if before.contains(x) {
                    let w = choose|w: int| 0 <= w < before.len() && before[w] == x;
                    if w == i {
                        assert(v@[m as int] == x);
                    } else if w == m {
                        assert(v@[i as int] == x);
                    } else {
                        assert(v@[w] == x);
                    }
                }
                if v@.contains(x) {
                    let w = choose|w: int| 0 <= w < v@.len() && v@[w] == x;
                    if w == i {
                        assert(before[m as int] == x);
                    } else if w == m {
                        assert(before[i as int] == x);
                    } else {
                        assert(before[w] == x);
                    }
                }
            }
        }
        i = i + 1;
    }
}

/// It is a waste to store overlapping regions: merge the regions (start, width) that
/// overlap or touch. The result covers exactly the positions the regions cover, in
/// increasing order, each region ending before the next one starts; it has no more regions
/// than were given, and each one starts where a given region starts and ends where a given
/// region ends.
pub fn merge_selections(regions: &Vec<(usize, usize)>) -> (r: Vec<(usize, usize)>)
    requires
        forall|i: int| 0 <= i < regions@.len() ==> (#[trigger] regions@[i]).0 + regions@[i].1 <= usize::MAX,
    ensures
        forall|p: int| covered(r@, p) <==> covered(regions@, p),
        separated(r@),
        r@.len() <= regions@.len(),
        forall|j: int| 0 <= j < r@.len() ==> starts_a_region(regions@, (#[trigger] r@[j]).0 as int)
            && ends_a_region(regions@, r@[j].0 + r@[j].1),
{
    let mut intervals: Vec<(usize, usize)> = Vec::new();
    let mut i: usize = 0;
    while i < regions.len()
        invariant
            i <= regions@.len(),
            forall|j: int| 0 <= j < regions@.len() ==> (#[trigger] regions@[j]).0 + regions@[j].1 <= usize::MAX,
            intervals@.len() == i,
            forall|j: int| 0 <= j < i ==> #[trigger] intervals@[j] == (regions@[j].0, (regions@[j].0 + regions@[j].1) as usize),
        decreases regions.len() - i,
    {
        let (pos, width) = regions[i];
        intervals.push((pos, pos + width));
        i = i + 1;
    }
    proof {
        assert forall|p: int| in_intervals(intervals@, p) <==> covered(regions@, p) by {
            if in_intervals(intervals@, p) {
                let w = choose|w: int| 0 <= w < intervals@.len() && (#[trigger] intervals@[w]).0 <= p < intervals@[w].1;
                assert(regions@[w].0 <= p < regions@[w].0 + regions@[w].1);
            }
            if covered(regions@, p) {
                let w = choose|w: int| 0 <= w < regions@.len() && (#[trigger] regions@[w]).0 <= p < regions@[w].0 + regions@[w].1;
                assert(intervals@[w].0 <= p < intervals@[w].1);
            }
        }
    }
    let ghost unsorted = intervals@;
    sort_by_start(&mut intervals);
    proof {
        assert forall|p: int| in_intervals(intervals@, p) <==> in_intervals(unsorted, p) by {
            if in_intervals(intervals@, p) {
                let w = choose|w: int| 0 <= w < intervals@.len() && (#[trigger] intervals@[w]).0 <= p < intervals@[w].1;
                assert(intervals@.contains(intervals@[w]));
                let u = choose|u: int| 0 <= u < unsorted.len() && unsorted[u] == intervals@[w];
                assert(unsorted[u].0 <= p < unsorted[u].1);
            }
            if in_intervals(unsorted, p) {
                let w = choose|w: int| 0 <= w < unsorted.len() && (#[trigger] unsorted[w]).0 <= p < unsorted[w].1;
                assert(unsorted.contains(unsorted[w]));
                let u = choose|u: int| 0 <= u < intervals@.len() && intervals@[u] == unsorted[w];
                assert(intervals@[u].0 <= p < intervals@[u].1);
            }
        }
    }
    proof {
        assert forall|b: int| 0 <= b < intervals@.len() implies (#[trigger] intervals@[b]).0 <= intervals@[b].1 by {
            assert(intervals@.contains(intervals@[b]));
            let u = choose|u: int| 0 <= u < unsorted.len() && unsorted[u] == intervals@[b];
            assert(unsorted[u] == (regions@[u].0, (regions@[u].0 + regions@[u].1) as usize));
        }
    }
    let mut merged: Vec<(usize, usize)> = Vec::new();
    let mut k: usize = 0;
    while k < intervals.len()
        invariant
            k <= intervals@.len(),
            sorted_by_start(intervals@),
            forall|b: int| 0 <= b < intervals@.len() ==> (#[trigger] intervals@[b]).0 <= intervals@[b].1,
            forall|p: int| in_intervals(merged@, p) <==> in_intervals(intervals@.subrange(0, k as int), p),
            forall|a: int| 0 <= a < merged@.len() - 1 ==> merged@[a].1 < #[trigger] merged@[a + 1].0,
            forall|a: int| 0 <= a < merged@.len() ==> (#[trigger] merged@[a]).0 <= merged@[a].1,
            k > 0 ==> merged@.len() > 0,
            k > 0 ==> forall|b: int| k <= b < intervals@.len() ==> merged@.last().0 <= #[trigger] intervals@[b].0,
            k == 0 ==> merged@.len() == 0,
            merged@.len() <= k,
            forall|a: int| 0 <= a < merged@.len() ==> iv_starts(intervals@, k as int, (#[trigger] merged@[a]).0 as int)
                && iv_ends(intervals@, k as int, merged@[a].1 as int),
        decreases intervals.len() - k,
    {
        let (start, end) = intervals[k];
        let ghost prev = merged@;
        let ghost sub_old = intervals@.subrange(0, k as int);
        let ghost sub_new = intervals@.subrange(0, k + 1);
        assert(sub_new =~= sub_old.push((start, end)));
        if merged.len() > 0 && start <= merged[merged.len() - 1].1 {
            let last = merged.len() - 1;
            let (ls, le) = merged[last];
            let ne = if le >= end { le } else { end };
            merged.set(last, (ls, ne));
            proof {
                assert forall|p: int| in_intervals(merged@, p) <==> in_intervals(sub_new, p) by {
                    if in_intervals(merged@, p) {
                        let w = choose|w: int| 0 <= w < merged@.len() && (#[trigger] merged@[w]).0 <= p < merged@[w].1;
                        if w == last {
                            if p < le {
                                assert(prev[w].0 <= p < prev[w].1);
                                assert(in_intervals(prev, p));
                                let u = choose|u: int| 0 <= u < sub_old.len() && (#[trigger] sub_old[u]).0 <= p < sub_old[u].1;
                                assert(sub_new[u] == sub_old[u]);
                            } else {
                                assert(sub_new[k as int].0 <= p < sub_new[k as int].1);
                            }
                        } else {
                            assert(prev[w] == merged@[w]);
                            assert(in_intervals(prev, p));
                            let u = choose|u: int| 0 <= u < sub_old.len() && (#[trigger] sub_old[u]).0 <= p < sub_old[u].1;
                            assert(sub_new[u] == sub_old[u]);
                        }
                    }
                    if in_intervals(sub_new, p) {
                        let u = choose|u: int| 0 <= u < sub_new.len() && (#[trigger] sub_new[u]).0 <= p < sub_new[u].1;
                        if u == k {
                            assert(merged@[last as int].0 <= p < merged@[last as int].1);
                        } else {
                            assert(sub_old[u] == sub_new[u]);
                            assert(in_intervals(sub_old, p));
                            assert(in_intervals(prev, p));
                            let w = choose|w: int| 0 <= w < prev.len() && (#[trigger] prev[w]).0 <= p < prev[w].1;
                            assert(merged@[w].0 <= p < merged@[w].1);
                        }
                    }
                }
            }
            proof {
                assert forall|a: int| 0 <= a < merged@.len() implies iv_starts(intervals@, k + 1, (#[trigger] merged@[a]).0 as int)
                    && iv_ends(intervals@, k + 1, merged@[a].1 as int) by {
                    assert(iv_starts(intervals@, k as int, prev[a].0 as int));
                    let b = choose|b: int| 0 <= b < k && (#[trigger] intervals@[b]).0 == prev[a].0;
                    assert(intervals@[b].0 == merged@[a].0);
                    assert(iv_ends(intervals@, k as int, prev[a].1 as int));
                    let e = choose|e: int| 0 <= e < k && (#[trigger] intervals@[e]).1 == prev[a].1;
                    if a == last && le < end {
                        assert(intervals@[k as int].1 == merged@[a].1);
                    } else {
                        assert(intervals@[e].1 == merged@[a].1);
                    }
                }
            }
        } else {
            merged.push((start, end));
            proof {
                assert forall|a: int| 0 <= a < merged@.len() implies iv_starts(intervals@, k + 1, (#[trigger] merged@[a]).0 as int)
                    && iv_ends(intervals@, k + 1, merged@[a].1 as int) by {
                    if a == prev.len() {
                        assert(intervals@[k as int].0 == merged@[a].0);
                        assert(intervals@[k as int].1 == merged@[a].1);
                    } else {
                        assert(iv_starts(intervals@, k as int, prev[a].0 as int));
                        let b = choose|b: int| 0 <= b < k && (#[trigger] intervals@[b]).0 == prev[a].0;
                        assert(intervals@[b].0 == merged@[a].0);
                        assert(iv_ends(intervals@, k as int, prev[a].1 as int));
                        let e = choose|e: int| 0 <= e < k && (#[trigger] intervals@[e]).1 == prev[a].1;
                        assert(intervals@[e].1 == merged@[a].1);
                    }
                }
            }
            proof {
                assert forall|p: int| in_intervals(merged@, p) <==> in_intervals(sub_new, p) by {
                    if in_intervals(merged@, p) {
                        let w = choose|w: int| 0 <= w < merged@.len() && (#[trigger] merged@[w]).0 <= p < merged@[w].1;
                        if w == prev.len() {
                            assert(sub_new[k as int].0 <= p < sub_new[k as int].1);
                        } else {
                            assert(prev[w] == merged@[w]);
                            assert(in_intervals(prev, p));
                            let u = choose|u: int| 0 <= u < sub_old.len() && (#[trigger] sub_old[u]).0 <= p < sub_old[u].1;
                            assert(sub_new[u] == sub_old[u]);
                        }
                    }
                    if in_intervals(sub_new, p) {
                        let u = choose|u: int| 0 <= u < sub_new.len() && (#[trigger] sub_new[u]).0 <= p < sub_new[u].1;
                        if u == k {
                            assert(merged@[prev.len() as int].0 <= p < merged@[prev.len() as int].1);
                        } else {
                            assert(sub_old[u] == sub_new[u]);
                            assert(in_intervals(sub_old, p));
                            assert(in_intervals(prev, p));
                            let w = choose|w: int| 0 <= w < prev.len() && (#[trigger] prev[w]).0 <= p < prev[w].1;
                            assert(merged@[w].0 <= p < merged@[w].1);
                        }
                    }
                }
            }
        }
        k = k + 1;
    }
    assert(intervals@.subrange(0, intervals@.len() as int) =~= intervals@);
    let mut out: Vec<(usize, usize)> = Vec::new();
    let mut j: usize = 0;
    while j < merged.len()
        invariant
            j <= merged@.len(),
            forall|a: int| 0 <= a < merged@.len() ==> (#[trigger] merged@[a]).0 <= merged@[a].1,
            out@.len() == j,
            forall|a: int| 0 <= a < j ==> #[trigger] out@[a] == (merged@[a].0, (merged@[a].1 - merged@[a].0) as usize),
        decreases merged.len() - j,
    {
        let (s, e) = merged[j];
        out.push((s, e - s));
        j = j + 1;
    }
    proof {
        assert forall|p: int| covered(out@, p) <==> in_intervals(merged@, p) by {
            if covered(out@, p) {
                let w = choose|w: int| 0 <= w < out@.len() && (#[trigger] out@[w]).0 <= p < out@[w].0 + out@[w].1;
                assert(merged@[w].0 <= p < merged@[w].1);
            }
            if in_intervals(merged@, p) {
                let w = choose|w: int| 0 <= w < merged@.len() && (#[trigger] merged@[w]).0 <= p < merged@[w].1;
                assert(out@[w].0 <= p < out@[w].0 + out@[w].1);
            }
        }
        assert forall|j: int| 0 <= j < out@.len() implies starts_a_region(regions@, (#[trigger] out@[j]).0 as int)
            && ends_a_region(regions@, out@[j].0 + out@[j].1) by {
            assert(out@[j] == (merged@[j].0, (merged@[j].1 - merged@[j].0) as usize));
            assert(iv_starts(intervals@, intervals@.len() as int, merged@[j].0 as int));
            let b = choose|b: int| 0 <= b < intervals@.len() && (#[trigger] intervals@[b]).0 == merged@[j].0;
            assert(intervals@.contains(intervals@[b]));
            let u = choose|u: int| 0 <= u < unsorted.len() && unsorted[u] == intervals@[b];
            assert(unsorted[u] == (regions@[u].0, (regions@[u].0 + regions@[u].1) as usize));
            assert(regions@[u].0 == out@[j].0);
            assert(iv_ends(intervals@, intervals@.len() as int, merged@[j].1 as int));
            let e = choose|e: int| 0 <= e < intervals@.len() && (#[trigger] intervals@[e]).1 == merged@[j].1;
            assert(intervals@.contains(intervals@[e]));
            let v = choose|v: int| 0 <= v < unsorted.len() && unsorted[v] == intervals@[e];
            assert(unsorted[v] == (regions@[v].0, (regions@[v].0 + regions@[v].1) as usize));
            assert(regions@[v].0 + regions@[v].1 == out@[j].0 + out@[j].1);
        }
        assert forall|a: int| 0 <= a < out@.len() - 1 implies out@[a].0 + out@[a].1 < #[trigger] out@[a + 1].0 by {
            assert(out@[a] == (merged@[a].0, (merged@[a].1 - merged@[a].0) as usize));
            assert(out@[a + 1] == (merged@[a + 1].0, (merged@[a + 1].1 - merged@[a + 1].0) as usize));
        }
    }
    out
}

} // verus!
