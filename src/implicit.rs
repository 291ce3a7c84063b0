use vstd::prelude::*;
use crate::grid::{initial_grid, initial_rel, set_boundaries};
use crate::params::{OutOfDomain, Params};

verus! {

/// The elimination met a zero pivot: the tridiagonal system is singular for
/// this grid, and no solve is possible.
#[derive(Clone, Copy, Debug, PartialEq, Eq, Structural)]
pub struct SingularSystem {
    /// The interior index of the zero pivot.
    pub index: usize,
}

/// The number of interior (unknown) nodes of a grid of `numx` nodes.
pub open spec fn interior_len(numx: int) -> int {
    if numx >= 2 {
        numx - 2
    } else {
        0
    }
}

/// `y` starts with `first`, and each later entry is what `next` gives for the
/// one before it (`1 + 2a - a^2 / y[i - 1]` for the backward-time scheme).
pub open spec fn pivot_chain<T, N: Fn(T) -> T>(y: Seq<T>, first: T, next: N) -> bool {
    &&& y.len() >= 1 ==> y[0] == first
    &&& forall|i: int| 0 < i < y.len() ==> next.ensures((y[i - 1],), #[trigger] y[i])
}

/// `is_zero` said of no entry of `y` that it is zero.
pub open spec fn pivots_nonzero<T, Z: Fn(T) -> bool>(y: Seq<T>, is_zero: Z) -> bool {
    forall|i: int| 0 <= i < y.len() ==> is_zero.ensures((#[trigger] y[i],), false)
}

/// The right-hand side `b` of one backward-time step, over the interior nodes
/// (entry `i` is grid node `i + 1`): the previous values, with `fold` adding
/// the new lowest edge value `lo` into the first entry and then the new highest
/// edge value `hi` into the last.
pub open spec fn implicit_rhs_rel<T, G: Fn(T, T) -> T>(
    prev: Seq<T>,
    b: Seq<T>,
    lo: T,
    hi: T,
    fold: G,
) -> bool {
    let m = interior_len(prev.len() as int);
    &&& b.len() == m
    &&& forall|i: int| 0 < i < m - 1 ==> #[trigger] b[i] == prev[i + 1]
    &&& m == 1 ==> exists|c: T| #[trigger]
        fold.ensures((prev[1], lo), c) && fold.ensures((c, hi), b[0])
    &&& m >= 2 ==> fold.ensures((prev[1], lo), b[0]) && fold.ensures((prev[m], hi), b[m - 1])
}

/// Forward substitution: `q[0] = b[0]`, and `q[i]` is what `fwd` gives for
/// `b[i]`, `q[i - 1]` and `y[i - 1]` (`b + a * q / y` for the scheme).
pub open spec fn forward_rel<T, FW: Fn(T, T, T) -> T>(
    b: Seq<T>,
    y: Seq<T>,
    q: Seq<T>,
    fwd: FW,
) -> bool {
    &&& q.len() == b.len()
    &&& b.len() >= 1 ==> q[0] == b[0]
    &&& forall|i: int| 0 < i < b.len() ==> fwd.ensures((b[i], q[i - 1], y[i - 1]), #[trigger] q[i])
}

/// Back substitution into the interior nodes of grid `u`: interior `i` (grid
/// node `i + 1`) is what `back` gives for `q[i]`, the solved node to its right
/// and `y[i]` (`(q + a * right) / y` for the scheme); the last interior node,
/// whose right neighbour was folded into the right-hand side, takes `zero`.
pub open spec fn back_rel<T, BK: Fn(T, T, T) -> T>(
    q: Seq<T>,
    y: Seq<T>,
    zero: T,
    u: Seq<T>,
    back: BK,
) -> bool {
    let m = q.len() as int;
    &&& m >= 1 ==> u.len() == m + 2
    &&& m >= 1 ==> back.ensures((q[m - 1], zero, y[m - 1]), u[m])
    &&& forall|i: int| 0 <= i < m - 1 ==> back.ensures((q[i], u[i + 2], y[i]), #[trigger] u[i + 1])
}

/// `next` is one backward-time step from `prev`: the edges hold `lo` and `hi`,
/// and the interior solves the tridiagonal system through the pivots `y`.
pub open spec fn implicit_step_rel<
    T,
    G: Fn(T, T) -> T,
    FW: Fn(T, T, T) -> T,
    BK: Fn(T, T, T) -> T,
>(
    prev: Seq<T>,
    next: Seq<T>,
    lo: T,
    hi: T,
    y: Seq<T>,
    fold: G,
    fwd: FW,
    back: BK,
    zero: T,
) -> bool {
    &&& prev.len() >= 1
    &&& next.len() == prev.len()
    &&& next[next.len() - 1] == hi
    &&& prev.len() >= 2 ==> next[0] == lo
    &&& exists|b: Seq<T>, q: Seq<T>|
        #![trigger forward_rel(b, y, q, fwd)]
        implicit_rhs_rel(prev, b, lo, hi, fold) && forward_rel(b, y, q, fwd) && back_rel(
            q,
            y,
            zero,
            next,
            back,
        )
}

/// `hist` records a run of the backward-time scheme from `init`, with the edge
/// values `edge_vals[j]` that `edges` gave for step `j`.
pub open spec fn implicit_run<
    T,
    E: Fn(usize) -> (T, T),
    G: Fn(T, T) -> T,
    FW: Fn(T, T, T) -> T,
    BK: Fn(T, T, T) -> T,
>(
    init: Seq<T>,
    hist: Seq<Seq<T>>,
    edge_vals: Seq<(T, T)>,
    edges: E,
    y: Seq<T>,
    fold: G,
    fwd: FW,
    back: BK,
    zero: T,
) -> bool {
    &&& hist.len() >= 1
    &&& edge_vals.len() == hist.len()
    &&& hist[0] == init
    &&& forall|j: int|
        0 < j < hist.len() ==> edges.ensures((j as usize,), #[trigger] edge_vals[j])
            && implicit_step_rel(
            hist[j - 1],
            hist[j],
            edge_vals[j].0,
            edge_vals[j].1,
            y,
            fold,
            fwd,
            back,
            zero,
        )
}

/// The pivots of the non-pivoting LU elimination of the backward-time system
/// over `m` interior nodes: `y[0] = first`, `y[i] = next(y[i - 1])`. Fails at
/// the first pivot that `is_zero` finds zero.
pub fn lu_find_y<T: Copy, N: Fn(T) -> T, Z: Fn(T) -> bool>(
    m: usize,
    first: T,
    next: &N,
    is_zero: &Z,
) -> (r: Result<Vec<T>, SingularSystem>)
    requires
        forall|a: T| next.requires((a,)),
        forall|a: T| is_zero.requires((a,)),
    ensures
        r matches Ok(y) ==> y.len() == m && pivot_chain(y@, first, *next) && pivots_nonzero(
            y@,
            *is_zero,
        ),
        r matches Err(e) ==> exists|y: Seq<T>|
            #![trigger pivot_chain(y, first, *next)]
            y.len() == e.index + 1 && e.index < m && pivot_chain(y, first, *next)
                && pivots_nonzero(y.drop_last(), *is_zero) && is_zero.ensures(
                (y[e.index as int],),
                true,
            ),
{
    let mut ys: Vec<T> = Vec::new();
    let mut i: usize = 0;
    while i < m
        invariant
            i <= m,
            ys.len() == i,
            forall|a: T| next.requires((a,)),
            forall|a: T| is_zero.requires((a,)),
            pivot_chain(ys@, first, *next),
            pivots_nonzero(ys@, *is_zero),
        decreases m - i,
    {
        let pivot = if i == 0 {
            first
        } else {
            next(ys[i - 1])
        };
        let ghost before = ys@;
        ys.push(pivot);
        if is_zero(pivot) {
            assert(ys@.drop_last() =~= before);
            assert(pivot_chain(ys@, first, *next));
            return Err(SingularSystem { index: i });
        }
        i += 1;
    }
    Ok(ys)
}

/// The right-hand side of one backward-time step from `prev`, over the
/// interior nodes: see `implicit_rhs_rel`. `fold(b, e)` adds an edge value
/// into an entry (`b + a * e` for the scheme).
pub fn implicit_rhs<T: Copy, G: Fn(T, T) -> T>(
    prev: &Vec<T>,
    lo: T,
    hi: T,
    fold: &G,
) -> (b: Vec<T>)
    requires
        prev.len() >= 1,
        forall|a: T, c: T| fold.requires((a, c)),
    ensures
        implicit_rhs_rel(prev@, b@, lo, hi, *fold),
{
    let len = prev.len();
    let mut b: Vec<T> = Vec::new();
    if len < 3 {
        return b;
    }
    let m = len - 2;
    let mut i: usize = 0;
    while i < m
        invariant
            i <= m,
            m == len - 2,
            len == prev.len(),
            b.len() == i,
            forall|k: int| 0 <= k < i ==> #[trigger] b[k] == prev[k + 1],
        decreases m - i,
    {
        b.push(prev[i + 1]);
        i += 1;
    }
    let first = fold(b[0], lo);
    b[0] = first;
    let last = fold(b[m - 1], hi);
    b[m - 1] = last;
    b
}

/// Forward substitution of the elimination: see `forward_rel`.
pub fn forward_substitute<T: Copy, FW: Fn(T, T, T) -> T>(
    b: &Vec<T>,
    y: &Vec<T>,
    fwd: &FW,
) -> (q: Vec<T>)
    requires
        y.len() == b.len(),
        forall|a: T, c: T, d: T| fwd.requires((a, c, d)),
    ensures
        forward_rel(b@, y@, q@, *fwd),
{
    let m = b.len();
    let mut q: Vec<T> = Vec::new();
    let mut i: usize = 0;
    while i < m
        invariant
            i <= m,
            m == b.len(),
            y.len() == m,
            q.len() == i,
            forall|a: T, c: T, d: T| fwd.requires((a, c, d)),
            i >= 1 ==> q[0] == b[0],
            forall|k: int| 0 < k < i ==> fwd.ensures((b[k], q[k - 1], y[k - 1]), #[trigger] q[k]),
        decreases m - i,
    {
        let v = if i == 0 {
            b[0]
        } else {
            fwd(b[i], q[i - 1], y[i - 1])
        };
        q.push(v);
        i += 1;
    }
    q
}

/// Back substitution of the elimination into the interior nodes of `u`,
/// from the highest interior node down: see `back_rel`. The edges of `u` are
/// left as they are.
pub fn back_substitute<T: Copy, BK: Fn(T, T, T) -> T>(
    q: &Vec<T>,
    y: &Vec<T>,
    zero: T,
    back: &BK,
    u: &mut Vec<T>,
)
    requires
        y.len() == q.len(),
        old(u).len() == q.len() + 2,
        forall|a: T, c: T, d: T| back.requires((a, c, d)),
    ensures
        final(u).len() == old(u).len(),
        final(u)[0] == old(u)[0],
        final(u)[old(u).len() - 1] == old(u)[old(u).len() - 1],
        back_rel(q@, y@, zero, final(u)@, *back),
{
    let m = q.len();
    if m == 0 {
        return;
    }
    let ghost u0 = u@;
    let mut right = zero;
    let mut i: usize = m;
    while i > 0
        invariant
            i <= m,
            m == q.len(),
            y.len() == m,
            u.len() == m + 2,
            u[0] == u0[0],
            u[m + 1] == u0[m + 1],
            forall|a: T, c: T, d: T| back.requires((a, c, d)),
            i == m ==> right == zero,
            i < m ==> right == u[i + 1],
            i < m ==> back.ensures((q[m - 1], zero, y[m - 1]), u[m as int]),
            forall|k: int| i <= k < m - 1 ==> back.ensures((q[k], u[k + 2], y[k]), #[trigger] u[k + 1]),
        decreases i,
    {
        i -= 1;
        let v = back(q[i], right, y[i]);
        u[i + 1] = v;
        right = v;
    }
}

/// Advances `u` by one backward-time step: the edges take `lo` and `hi`, and
/// the interior solves `(I - aD) u_new = u_old` through the pivots `y` (see
/// `implicit_step_rel`).
pub fn advance_solution<
    T: Copy,
    G: Fn(T, T) -> T,
    FW: Fn(T, T, T) -> T,
    BK: Fn(T, T, T) -> T,
>(u: &mut Vec<T>, lo: T, hi: T, y: &Vec<T>, fold: &G, fwd: &FW, back: &BK, zero: T)
    requires
        old(u).len() >= 1,
        y.len() == interior_len(old(u).len() as int),
        forall|a: T, c: T| fold.requires((a, c)),
        forall|a: T, c: T, d: T| fwd.requires((a, c, d)),
        forall|a: T, c: T, d: T| back.requires((a, c, d)),
    ensures
        implicit_step_rel(old(u)@, final(u)@, lo, hi, y@, *fold, *fwd, *back, zero),
{
    let b = implicit_rhs(u, lo, hi, fold);
    let len = u.len();
    set_boundaries(u, lo, hi);
    let q = forward_substitute(&b, y, fwd);
    if len >= 3 {
        back_substitute(&q, y, zero, back, u);
    }
    assert(forward_rel(b@, y@, q@, *fwd));
}

/// Runs the backward-time scheme for `steps` timesteps from `init`, the grid at
/// `tau = 0`, with the pivots `y` of `lu_find_y`. `edges(j)` gives the lowest
/// and the highest node's values at step `j` (`tau = j * dt`).
pub fn lu_solve<
    T: Copy,
    E: Fn(usize) -> (T, T),
    G: Fn(T, T) -> T,
    FW: Fn(T, T, T) -> T,
    BK: Fn(T, T, T) -> T,
>(
    init: Vec<T>,
    steps: usize,
    edges: &E,
    y: &Vec<T>,
    fold: &G,
    fwd: &FW,
    back: &BK,
    zero: T,
) -> (r: Vec<T>)
    requires
        init.len() >= 1,
        y.len() == interior_len(init.len() as int),
        forall|j: usize| edges.requires((j,)),
        forall|a: T, c: T| fold.requires((a, c)),
        forall|a: T, c: T, d: T| fwd.requires((a, c, d)),
        forall|a: T, c: T, d: T| back.requires((a, c, d)),
    ensures
        r.len() == init.len(),
        exists|hist: Seq<Seq<T>>, edge_vals: Seq<(T, T)>|
            #[trigger] implicit_run(init@, hist, edge_vals, *edges, y@, *fold, *fwd, *back, zero)
                && hist.len() == steps + 1 && hist.last() == r@,
{
    let mut u = init;
    let ghost mut hist: Seq<Seq<T>> = seq![u@];
    let ghost mut edge_vals: Seq<(T, T)> = seq![(u@[0], u@[0])];
    let mut j: usize = 0;
    while j < steps
        invariant
            j <= steps,
            init.len() >= 1,
            u.len() == init.len(),
            y.len() == interior_len(init.len() as int),
            forall|k: usize| edges.requires((k,)),
            forall|a: T, c: T| fold.requires((a, c)),
            forall|a: T, c: T, d: T| fwd.requires((a, c, d)),
            forall|a: T, c: T, d: T| back.requires((a, c, d)),
            implicit_run(init@, hist, edge_vals, *edges, y@, *fold, *fwd, *back, zero),
            hist.len() == j + 1,
            hist.last() == u@,
        decreases steps - j,
    {
        j += 1;
        let (lo, hi) = edges(j);
        advance_solution(&mut u, lo, hi, y, fold, fwd, back, zero);
        proof {
            hist = hist.push(u@);
            edge_vals = edge_vals.push((lo, hi));
        }
    }
    u
}

/// Prices with the backward-time scheme: fills the grid at `tau = 0` from
/// `t0` (node number to value), runs `steps` timesteps with the pivots `y`
/// that `lu_find_y` gave for this grid, and converts the value at node number
/// `node` with `to_value`. Fails, before any timestep, when the grid does not
/// hold `node`.
pub fn price<
    T: Copy,
    V,
    B: Fn(i64) -> T,
    E: Fn(usize) -> (T, T),
    G: Fn(T, T) -> T,
    FW: Fn(T, T, T) -> T,
    BK: Fn(T, T, T) -> T,
    C: Fn(T) -> V,
>(
    params: &Params,
    t0: &B,
    steps: usize,
    edges: &E,
    y: &Vec<T>,
    fold: &G,
    fwd: &FW,
    back: &BK,
    zero: T,
    node: i64,
    to_value: &C,
) -> (r: Result<V, OutOfDomain>)
    requires
        params.wf(),
        y.len() == interior_len(params.spec_numx()),
        forall|n: i64| t0.requires((n,)),
        forall|j: usize| edges.requires((j,)),
        forall|a: T, c: T| fold.requires((a, c)),
        forall|a: T, c: T, d: T| fwd.requires((a, c, d)),
        forall|a: T, c: T, d: T| back.requires((a, c, d)),
        forall|u: T| to_value.requires((u,)),
    ensures
        r is Err <==> params.spec_array_loc(node as int) is None,
        r matches Err(e) ==> e.node == node,
        r matches Ok(v) ==> exists|init: Seq<T>, hist: Seq<Seq<T>>, edge_vals: Seq<(T, T)>|
            #![trigger implicit_run(init, hist, edge_vals, *edges, y@, *fold, *fwd, *back, zero)]
            initial_rel(*params, *t0, init) && implicit_run(
                init,
                hist,
                edge_vals,
                *edges,
                y@,
                *fold,
                *fwd,
                *back,
                zero,
            ) && hist.len() == steps + 1 && to_value.ensures(
                (hist.last()[params.spec_array_loc(node as int)->Some_0],),
                v,
            ),
{
    let loc = match params.spot_to_array_loc(node) {
        Ok(loc) => loc,
        Err(e) => return Err(e),
    };
    let init = initial_grid(params, t0);
    let result = lu_solve(init, steps, edges, y, fold, fwd, back, zero);
    let v = to_value(result[loc]);
    Ok(v)
}

} // verus!
