use vstd::prelude::*;

verus! {

/// A configuration to measure: (thread_count, workload_size).
pub type TestCase = (u64, u64);

/// Lexicographic order on test cases: by thread count, then workload size.
pub open spec fn case_lt(a: TestCase, b: TestCase) -> bool {
    a.0 < b.0 || (a.0 == b.0 && a.1 < b.1)
}

/// Every case comes strictly before every later one, so no case repeats.
pub open spec fn strictly_ascending(cases: Seq<TestCase>) -> bool {
    forall|i: int, j: int| 0 <= i < j < cases.len() ==> case_lt(#[trigger] cases[i], #[trigger] cases[j])
}

/// A sample point of an axis that lies in `[1, max)`.
pub open spec fn on_axis(axis: Seq<u64>, max: u64, v: u64) -> bool {
    axis.contains(v) && 1 <= v < max
}

/// The cases of the matrix: every in-range thread count paired with every
/// in-range workload size.
pub open spec fn in_matrix(
    threads: Seq<u64>,
    max_threads: u64,
    workloads: Seq<u64>,
    max_workload: u64,
    c: TestCase,
) -> bool {
    on_axis(threads, max_threads, c.0) && on_axis(workloads, max_workload, c.1)
}

fn case_less(a: TestCase, b: TestCase) -> (r: bool)
    ensures
        r == case_lt(a, b),
{
    a.0 < b.0 || (a.0 == b.0 && a.1 < b.1)
}

/// Add `c` to an ascending list of cases, keeping it ascending; returns
/// whether `c` was new.
pub fn insert_case(cases: &mut Vec<TestCase>, c: TestCase) -> (added: bool)
    requires
        strictly_ascending(old(cases)@),
    ensures
        strictly_ascending(final(cases)@),
        added == !old(cases)@.contains(c),
        forall|d: TestCase| final(cases)@.contains(d) <==> (old(cases)@.contains(d) || d == c),
{
    let n = cases.len();
    let mut i: usize = 0;
    while i < n && case_less(cases[i], c)
        invariant
            n == cases.len(),
            i <= n,
            strictly_ascending(cases@),
            forall|k: int| 0 <= k < i ==> case_lt(#[trigger] cases@[k], c),
        decreases n - i,
    {
        i = i + 1;
    }
    if i < n && cases[i].0 == c.0 && cases[i].1 == c.1 {
        return false;
    }
    proof {
        assert forall|k: int| i <= k < n implies case_lt(c, #[trigger] cases@[k]) by {
            assert(!case_lt(cases@[i as int], c));
            if k > i {
                assert(case_lt(cases@[i as int], cases@[k]));
            }
        }
        assert(!cases@.contains(c)) by {
            if cases@.contains(c) {
                let k = choose|k: int| 0 <= k < cases@.len() && cases@[k] == c;
                if k < i {
                    assert(case_lt(cases@[k], c));
                } else {
                    assert(case_lt(c, cases@[k]));
                }
            }
        }
    }
    let ghost before = cases@;
    cases.insert(i, c);
    proof {
        let after = cases@;
        assert(after =~= before.insert(i as int, c));
        assert forall|d: TestCase| after.contains(d) <==> (before.contains(d) || d == c) by {
            if after.contains(d) {
                let k = choose|k: int| 0 <= k < after.len() && after[k] == d;
                if k < i {
                    assert(before[k] == d);
                } else if k > i {
                    assert(before[k - 1] == d);
                }
            }
            if before.contains(d) {
                let k = choose|k: int| 0 <= k < before.len() && before[k] == d;
                if k < i {
                    assert(after[k] == d);
                } else {
                    assert(after[k + 1] == d);
                }
            }
            if d == c {
                assert(after[i as int] == c);
            }
        }
    }
    true
}

/// The test matrix over two sampled axes: each thread count of
/// `thread_axis` that lies in `[1, max_threads)` paired with each workload
/// size of `workload_axis` that lies in `[1, max_workload)`, without
/// duplicates, ascending by thread count and then by workload size.
pub fn build_test_matrix(
    thread_axis: &Vec<u64>,
    max_threads: u64,
    workload_axis: &Vec<u64>,
    max_workload: u64,
) -> (cases: Vec<TestCase>)
    ensures
        strictly_ascending(cases@),
        forall|c: TestCase|
            cases@.contains(c) <==> in_matrix(
                thread_axis@,
                max_threads,
                workload_axis@,
                max_workload,
                c,
            ),
{
    let mut cases: Vec<TestCase> = Vec::new();
    let mut i: usize = 0;
    while i < thread_axis.len()
        invariant
            i <= thread_axis.len(),
            strictly_ascending(cases@),
            forall|c: TestCase|
                cases@.contains(c) <==> (in_matrix(
                    thread_axis@.subrange(0, i as int),
                    max_threads,
                    workload_axis@,
                    max_workload,
                    c,
                )),
        decreases thread_axis.len() - i,
    {
        let t = thread_axis[i];
        let mut j: usize = 0;
        while j < workload_axis.len()
            invariant
                i < thread_axis.len(),
                t == thread_axis@[i as int],
                j <= workload_axis.len(),
                strictly_ascending(cases@),
                forall|c: TestCase|
                    cases@.contains(c) <==> (in_matrix(
                        thread_axis@.subrange(0, i as int),
                        max_threads,
                        workload_axis@,
                        max_workload,
                        c,
                    ) || (c.0 == t && 1 <= t < max_threads && on_axis(
                        workload_axis@.subrange(0, j as int),
                        max_workload,
                        c.1,
                    ))),
            decreases workload_axis.len() - j,
        {
            let w = workload_axis[j];
            if 1 <= t && t < max_threads && 1 <= w && w < max_workload {
                insert_case(&mut cases, (t, w));
            }
            proof {
                let ws = workload_axis@.subrange(0, j + 1);
                assert(ws =~= workload_axis@.subrange(0, j as int).push(w));
                assert forall|v: u64| ws.contains(v) <==> (workload_axis@.subrange(
                    0,
                    j as int,
                ).contains(v) || v == w) by {
                    if ws.contains(v) {
                        let k = choose|k: int| 0 <= k < ws.len() && ws[k] == v;
                        if k < j {
                            assert(workload_axis@.subrange(0, j as int)[k] == v);
                        }
                    }
                    if workload_axis@.subrange(0, j as int).contains(v) {
                        let k = choose|k: int|
                            0 <= k < j && workload_axis@.subrange(0, j as int)[k] == v;
                        assert(ws[k] == v);
                    }
                    if v == w {
                        assert(ws[j as int] == v);
                    }
                }
            }
            j = j + 1;
        }
        proof {
            let ts = thread_axis@.subrange(0, i + 1);
            assert(workload_axis@.subrange(0, j as int) =~= workload_axis@);
            assert forall|v: u64| ts.contains(v) <==> (thread_axis@.subrange(0, i as int).contains(
                v,
            ) || v == t) by {
                if ts.contains(v) {
                    let k = choose|k: int| 0 <= k < ts.len() && ts[k] == v;
                    if k < i {
                        assert(thread_axis@.subrange(0, i as int)[k] == v);
                    }
                }
                if thread_axis@.subrange(0, i as int).contains(v) {
                    let k = choose|k: int| 0 <= k < i && thread_axis@.subrange(0, i as int)[k] == v;
                    assert(ts[k] == v);
                }
                if v == t {
                    assert(ts[i as int] == v);
                }
            }
        }
        i = i + 1;
    }
    assert(thread_axis@.subrange(0, i as int) =~= thread_axis@);
    cases
}

} // verus!
