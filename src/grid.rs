use vstd::prelude::*;
use crate::params::{OutOfDomain, Params};

verus! {

/// `g` is the grid at `tau = 0`: buffer index `i` holds what `t0` gives for
/// node number `minus + i`.
pub open spec fn initial_rel<T, B: Fn(i64) -> T>(params: Params, t0: B, g: Seq<T>) -> bool {
    &&& g.len() == params.spec_numx()
    &&& forall|i: int| 0 <= i < g.len() ==> t0.ensures(((params.minus + i) as i64,), #[trigger] g[i])
}

/// The grid at `tau = 0`: buffer index `i` holds what `t0` gives for node
/// number `minus + i` (log-moneyness `(minus + i) * dx`).
pub fn initial_grid<T, B: Fn(i64) -> T>(params: &Params, t0: &B) -> (r: Vec<T>)
    requires
        params.wf(),
        forall|node: i64| t0.requires((node,)),
    ensures
        initial_rel(*params, *t0, r@),
{
    let numx = params.numx();
    let mut r: Vec<T> = Vec::new();
    let mut i: usize = 0;
    while i < numx
        invariant
            params.wf(),
            numx == params.spec_numx(),
            i <= numx,
            r.len() == i,
            forall|node: i64| t0.requires((node,)),
            forall|k: int| 0 <= k < i ==> t0.ensures(((params.minus + k) as i64,), #[trigger] r[k]),
        decreases numx - i,
    {
        let v = t0(params.node_of(i));
        r.push(v);
        i += 1;
    }
    r
}

/// Writes the lowest node's value `lo`, then the highest node's value `hi`.
pub fn set_boundaries<T>(solution: &mut Vec<T>, lo: T, hi: T)
    requires
        old(solution).len() >= 1,
    ensures
        final(solution).len() == old(solution).len(),
        final(solution)@ == old(solution)@.update(0, lo).update(old(solution).len() - 1, hi),
{
    let last = solution.len() - 1;
    solution[0] = lo;
    solution[last] = hi;
}

/// The price read at node number `node` of a solved grid: what `to_value`
/// gives for the value stored there. Fails when the grid does not hold that
/// node, rather than read outside the buffer.
pub fn read_price<T: Copy, V, C: Fn(T) -> V>(
    params: &Params,
    solution: &Vec<T>,
    node: i64,
    to_value: &C,
) -> (r: Result<V, OutOfDomain>)
    requires
        params.wf(),
        solution.len() == params.spec_numx(),
        forall|u: T| to_value.requires((u,)),
    ensures
        r is Err <==> params.spec_array_loc(node as int) is None,
        r matches Err(e) ==> e.node == node,
        r matches Ok(v) ==> to_value.ensures(
            (solution[params.spec_array_loc(node as int)->Some_0],),
            v,
        ),
{
    match params.spot_to_array_loc(node) {
        Ok(loc) => Ok(to_value(solution[loc])),
        Err(e) => Err(e),
    }
}

} // verus!
