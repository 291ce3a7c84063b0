use vstd::prelude::*;

verus! {

/// A step size held exactly as the ratio `num / den`.
#[derive(Clone, Copy, Debug, PartialEq, Eq, Structural)]
pub struct Step {
    pub num: u32,
    pub den: u32,
}

impl Step {
    /// The step is a positive number.
    pub open spec fn positive(self) -> bool {
        self.num > 0 && self.den > 0
    }

    pub fn is_positive(&self) -> (r: bool)
        ensures
            r == self.positive(),
    {
        self.num > 0 && self.den > 0
    }
}

/// Why a set of grid parameters was rejected.
#[derive(Clone, Copy, Debug, PartialEq, Eq, Structural)]
pub enum ConfigError {
    /// The spatial step is zero (or has a zero denominator).
    NonPositiveDx,
    /// The temporal step is zero (or has a zero denominator).
    NonPositiveDt,
    /// The upper index bound lies below the lower one.
    InvertedBounds,
    /// The grid holds more nodes than a buffer can index.
    TooManyNodes,
}

/// A log-moneyness that the truncated grid does not cover.
#[derive(Clone, Copy, Debug, PartialEq, Eq, Structural)]
pub struct OutOfDomain {
    /// The node number that was asked for (log-moneyness divided by `dx`).
    pub node: i64,
}

/// The discretisation of the transformed problem: node `i` of a grid buffer
/// sits at log-moneyness `(i + minus) * dx`, and time advances by `dt`.
#[derive(Clone, Copy, Debug, PartialEq, Eq, Structural)]
pub struct Params {
    pub dx: Step,
    pub dt: Step,
    pub minus: i32,
    pub plus: i32,
}

impl Params {
    pub open spec fn spec_numx(self) -> int {
        self.plus - self.minus + 1
    }

    /// Positive steps, ordered bounds, and a node count that a buffer can index.
    pub open spec fn wf(self) -> bool {
        &&& self.dx.positive()
        &&& self.dt.positive()
        &&& self.minus <= self.plus
        &&& self.spec_numx() <= usize::MAX
    }

    /// Numerator of the diffusion ratio `alpha = dt / dx^2`.
    pub open spec fn alpha_num(self) -> int {
        self.dt.num * (self.dx.den * self.dx.den)
    }

    /// Denominator of the diffusion ratio `alpha = dt / dx^2`.
    pub open spec fn alpha_den(self) -> int {
        self.dt.den * (self.dx.num * self.dx.num)
    }

    /// `alpha <= 1/2`, the stability bound of the explicit scheme.
    pub open spec fn stable(self) -> bool {
        2 * self.alpha_num() <= self.alpha_den()
    }

    /// The buffer index of node number `node`, if the grid holds it.
    pub open spec fn spec_array_loc(self, node: int) -> Option<int> {
        if self.minus <= node <= self.plus {
            Some(node - self.minus)
        } else {
            None
        }
    }

    pub fn new(dx: Step, dt: Step, minus: i32, plus: i32) -> (r: Result<Params, ConfigError>)
        ensures
            !dx.positive() ==> r == Err::<Params, ConfigError>(ConfigError::NonPositiveDx),
            dx.positive() && !dt.positive() ==> r == Err::<Params, ConfigError>(
                ConfigError::NonPositiveDt,
            ),
            dx.positive() && dt.positive() && plus < minus ==> r == Err::<Params, ConfigError>(
                ConfigError::InvertedBounds,
            ),
            dx.positive() && dt.positive() && minus <= plus && plus - minus + 1 > usize::MAX
                ==> r == Err::<Params, ConfigError>(ConfigError::TooManyNodes),
            r is Ok ==> r->Ok_0 == (Params { dx, dt, minus, plus }),
            r is Ok <==> (Params { dx, dt, minus, plus }).wf(),
    {
        if !dx.is_positive() {
            return Err(ConfigError::NonPositiveDx);
        }
        if !dt.is_positive() {
            return Err(ConfigError::NonPositiveDt);
        }
        if plus < minus {
            return Err(ConfigError::InvertedBounds);
        }
        let count: i64 = plus as i64 - minus as i64 + 1;
        if count as u64 > usize::MAX as u64 {
            return Err(ConfigError::TooManyNodes);
        }
        Ok(Params { dx, dt, minus, plus })
    }

    /// Spatial step `0.01`, temporal step `0.00003`, nodes `-1000..=1000`.
    pub fn reasonable_defaults() -> (r: Params)
        ensures
            r.dx == (Step { num: 1, den: 100 }),
            r.dt == (Step { num: 3, den: 100000 }),
            r.minus == -1000,
            r.plus == 1000,
            r.wf(),
            2 * r.alpha_num() < r.alpha_den(),
    {
        Params {
            dx: Step { num: 1, den: 100 },
            dt: Step { num: 3, den: 100000 },
            minus: -1000,
            plus: 1000,
        }
    }

    /// Number of spatial nodes, `plus - minus + 1`.
    pub fn numx(&self) -> (r: usize)
        requires
            self.wf(),
        ensures
            r == self.spec_numx(),
    {
        (self.plus as i64 - self.minus as i64 + 1) as usize
    }

    /// The node number of buffer index `i`: its log-moneyness is that number times `dx`.
    pub fn node_of(&self, i: usize) -> (r: i64)
        requires
            self.wf(),
            i < self.spec_numx(),
        ensures
            r == self.minus + i,
    {
        self.minus as i64 + i as i64
    }

    /// The diffusion ratio `alpha = dt / dx^2` as a numerator and a denominator.
    pub fn alpha(&self) -> (r: (u128, u128))
        ensures
            r.0 == self.alpha_num(),
            r.1 == self.alpha_den(),
    {
        let dxn = self.dx.num as u128;
        let dxd = self.dx.den as u128;
        proof {
            let bound = u32::MAX as int;
            lemma_mul_bounded(dxd as int, dxd as int, bound, bound);
            lemma_mul_bounded(dxn as int, dxn as int, bound, bound);
            lemma_mul_bounded(self.dt.num as int, (dxd * dxd) as int, bound, bound * bound);
            lemma_mul_bounded(self.dt.den as int, (dxn * dxn) as int, bound, bound * bound);
        }
        let num = self.dt.num as u128 * (dxd * dxd);
        let den = self.dt.den as u128 * (dxn * dxn);
        (num, den)
    }

    /// Whether `alpha <= 1/2`, below which the explicit scheme is stable.
    pub fn is_stable(&self) -> (r: bool)
        ensures
            r == self.stable(),
    {
        let (num, den) = self.alpha();
        num <= den / 2
    }

    /// The buffer index of node number `node` (log-moneyness divided by `dx`, rounded).
    pub fn spot_to_array_loc(&self, node: i64) -> (r: Result<usize, OutOfDomain>)
        requires
            self.wf(),
        ensures
            r matches Ok(i) ==> self.spec_array_loc(node as int) == Some(i as int),
            r is Err <==> self.spec_array_loc(node as int) is None,
            r matches Err(e) ==> e.node == node,
    {
        if node < self.minus as i64 || node > self.plus as i64 {
            Err(OutOfDomain { node })
        } else {
            Ok((node - self.minus as i64) as usize)
        }
    }
}

proof fn lemma_mul_bounded(x: int, y: int, a: int, b: int)
    requires
        0 <= x <= a,
        0 <= y <= b,
    ensures
        0 <= x * y <= a * b,
{
    assert(0 <= x * y <= a * b) by (nonlinear_arith)
        requires
            0 <= x <= a,
            0 <= y <= b,
    ;
}

/// The at-the-money node (log-moneyness zero) sits `-minus` places into the buffer.
pub proof fn lemma_origin_index(p: Params)
    requires
        p.wf(),
        p.minus <= 0 <= p.plus,
    ensures
        p.spec_array_loc(0) == Some(-p.minus as int),
{
}

} // verus!
