use vstd::prelude::*;
use crate::grid::{initial_grid, initial_rel, set_boundaries};
use crate::params::{OutOfDomain, Params};

verus! {

/// `next` is one forward-time step from `prev`: the lowest node holds `lo`,
/// the highest holds `hi`, and each interior node holds what `update` gives
/// for that node's left neighbour, itself and its right neighbour in `prev`.
/// On a one-node grid both edges are the same node, and `hi` is written last.
pub open spec fn explicit_step_rel<T, F: Fn(T, T, T) -> T>(
    prev: Seq<T>,
    next: Seq<T>,
    lo: T,
    hi: T,
    update: F,
) -> bool {
    &&& prev.len() >= 1
    &&& next.len() == prev.len()
    &&& next[next.len() - 1] == hi
    &&& prev.len() >= 2 ==> next[0] == lo
    &&& forall|n: int|
        0 < n < prev.len() - 1 ==> update.ensures(
            (prev[n - 1], prev[n], prev[n + 1]),
            #[trigger] next[n],
        )
}

/// `hist` records a run of the explicit scheme from `init`: `hist[0]` is
/// `init`, and `hist[j]` is one step from `hist[j - 1]` with the edge values
/// `edge_vals[j]` that `edges` gave for step `j`.
pub open spec fn explicit_run<T, E: Fn(usize) -> (T, T), F: Fn(T, T, T) -> T>(
    init: Seq<T>,
    hist: Seq<Seq<T>>,
    edge_vals: Seq<(T, T)>,
    edges: E,
    update: F,
) -> bool {
    &&& hist.len() >= 1
    &&& edge_vals.len() == hist.len()
    &&& hist[0] == init
    &&& forall|j: int|
        0 < j < hist.len() ==> edges.ensures((j as usize,), #[trigger] edge_vals[j])
            && explicit_step_rel(hist[j - 1], hist[j], edge_vals[j].0, edge_vals[j].1, update)
}

/// Writes into `next` one forward-time step of the explicit scheme from `prev`.
/// `update(left, centre, right)` computes an interior node; the edges are set
/// to `lo` (lowest node) and `hi` (highest node).
pub fn explicit_step<T: Copy, F: Fn(T, T, T) -> T>(
    prev: &Vec<T>,
    next: &mut Vec<T>,
    lo: T,
    hi: T,
    update: &F,
)
    requires
        prev.len() >= 1,
        old(next).len() == prev.len(),
        forall|a: T, b: T, c: T| update.requires((a, b, c)),
    ensures
        explicit_step_rel(prev@, final(next)@, lo, hi, *update),
{
    let len = prev.len();
    set_boundaries(next, lo, hi);
    let mut n: usize = 1;
    while n < len - 1
        invariant
            1 <= n <= len,
            len == prev.len(),
            next.len() == len,
            next[len - 1] == hi,
            len >= 2 ==> next[0] == lo,
            forall|a: T, b: T, c: T| update.requires((a, b, c)),
            forall|k: int|
                0 < k < n ==> update.ensures((prev[k - 1], prev[k], prev[k + 1]), #[trigger] next[k]),
        decreases len - n,
    {
        let v = update(prev[n - 1], prev[n], prev[n + 1]);
        next[n] = v;
        n += 1;
    }
}

/// Runs the explicit scheme for `steps` timesteps from `init`, the grid at
/// `tau = 0`. `edges(j)` gives the lowest and the highest node's values at
/// step `j` (`tau = j * dt`); `update` computes an interior node from its
/// three neighbours at the step before.
pub fn explicit_fwd<T: Copy, E: Fn(usize) -> (T, T), F: Fn(T, T, T) -> T>(
    init: Vec<T>,
    steps: usize,
    edges: &E,
    update: &F,
) -> (r: Vec<T>)
    requires
        init.len() >= 1,
        forall|j: usize| edges.requires((j,)),
        forall|a: T, b: T, c: T| update.requires((a, b, c)),
    ensures
        r.len() == init.len(),
        exists|hist: Seq<Seq<T>>, edge_vals: Seq<(T, T)>|
            #[trigger] explicit_run(init@, hist, edge_vals, *edges, *update)
                && hist.len() == steps + 1 && hist.last() == r@,
{
    let mut oldu = init;
    let mut newu = oldu.clone();
    let ghost mut hist: Seq<Seq<T>> = seq![oldu@];
    let ghost mut edge_vals: Seq<(T, T)> = seq![(oldu@[0], oldu@[0])];
    let mut j: usize = 0;
    while j < steps
        invariant
            j <= steps,
            init.len() >= 1,
            oldu.len() == init.len(),
            newu.len() == init.len(),
            forall|k: usize| edges.requires((k,)),
            forall|a: T, b: T, c: T| update.requires((a, b, c)),
            explicit_run(init@, hist, edge_vals, *edges, *update),
            hist.len() == j + 1,
            hist.last() == oldu@,
        decreases steps - j,
    {
        j += 1;
        let (lo, hi) = edges(j);
        explicit_step(&oldu, &mut newu, lo, hi, update);
        proof {
            hist = hist.push(newu@);
            edge_vals = edge_vals.push((lo, hi));
        }
        std::mem::swap(&mut oldu, &mut newu);
    }
    oldu
}

/// A price from the explicit scheme. The scheme runs whatever the grid, but
/// its result is unreliable where `stable` is false (`alpha > 1/2`).
#[derive(Clone, Copy, Debug, PartialEq)]
pub struct ExplicitPrice<V> {
    pub value: V,
    pub stable: bool,
}

/// Prices with the explicit scheme: fills the grid at `tau = 0` from `t0`
/// (node number to value), runs `steps` timesteps, and converts the value at
/// node number `node` with `to_value`. Fails, before any timestep, when the
/// grid does not hold `node`. The result says whether the grid met the
/// stability bound.
pub fn price<
    T: Copy,
    V,
    B: Fn(i64) -> T,
    E: Fn(usize) -> (T, T),
    F: Fn(T, T, T) -> T,
    C: Fn(T) -> V,
>(
    params: &Params,
    t0: &B,
    steps: usize,
    edges: &E,
    update: &F,
    node: i64,
    to_value: &C,
) -> (r: Result<ExplicitPrice<V>, OutOfDomain>)
    requires
        params.wf(),
        forall|n: i64| t0.requires((n,)),
        forall|j: usize| edges.requires((j,)),
        forall|a: T, b: T, c: T| update.requires((a, b, c)),
        forall|u: T| to_value.requires((u,)),
    ensures
        r is Err <==> params.spec_array_loc(node as int) is None,
        r matches Err(e) ==> e.node == node,
        r matches Ok(p) ==> p.stable == params.stable(),
        r matches Ok(p) ==> exists|init: Seq<T>, hist: Seq<Seq<T>>, edge_vals: Seq<(T, T)>|
            #![trigger explicit_run(init, hist, edge_vals, *edges, *update)]
            initial_rel(*params, *t0, init) && explicit_run(init, hist, edge_vals, *edges, *update)
                && hist.len() == steps + 1 && to_value.ensures(
                (hist.last()[params.spec_array_loc(node as int)->Some_0],),
                p.value,
            ),
{
    let loc = match params.spot_to_array_loc(node) {
        Ok(loc) => loc,
        Err(e) => return Err(e),
    };
    let init = initial_grid(params, t0);
    let result = explicit_fwd(init, steps, edges, update);
    let value = to_value(result[loc]);
    Ok(ExplicitPrice { value, stable: params.is_stable() })
}

} // verus!
