use options_pricing::explicit::{self, explicit_fwd, explicit_step, ExplicitPrice};
use options_pricing::grid::{initial_grid, read_price, set_boundaries};
use options_pricing::implicit::{
    self, advance_solution, back_substitute, forward_substitute, implicit_rhs, lu_find_y, lu_solve,
    SingularSystem,
};
use options_pricing::params::{OutOfDomain, Params, Step};

fn small_params() -> Params {
    Params::new(Step { num: 1, den: 10 }, Step { num: 1, den: 400 }, -2, 2).unwrap()
}

#[test]
fn explicit_step_updates_interior_and_sets_edges() {
    let prev = vec![1.0, 2.0, 4.0, 8.0, 16.0];
    let mut next = vec![0.0; 5];
    let update = |l: f64, c: f64, r: f64| c + 0.25 * (l - 2.0 * c + r);
    explicit_step(&prev, &mut next, 0.5, 32.0, &update);
    assert_eq!(next, vec![0.5, 2.25, 4.5, 9.0, 32.0]);
}

#[test]
fn explicit_step_on_tiny_grids() {
    let update = |l: i64, c: i64, r: i64| l + c + r;
    let mut one = vec![0];
    explicit_step(&vec![3], &mut one, 1, 2, &update);
    assert_eq!(one, vec![2]);
    let mut two = vec![0, 0];
    explicit_step(&vec![3, 4], &mut two, 1, 2, &update);
    assert_eq!(two, vec![1, 2]);
}

#[test]
fn explicit_fwd_runs_each_step_with_its_edges() {
    let edges = |j: usize| (j as i64, 10 * j as i64);
    let update = |l: i64, c: i64, r: i64| l + c + r;
    assert_eq!(explicit_fwd(vec![0, 1, 2, 3], 0, &edges, &update), vec![0, 1, 2, 3]);
    assert_eq!(explicit_fwd(vec![0, 1, 2, 3], 1, &edges, &update), vec![1, 3, 6, 10]);
    assert_eq!(explicit_fwd(vec![0, 1, 2, 3], 2, &edges, &update), vec![2, 10, 19, 20]);
}

#[test]
fn pivots_follow_the_recurrence() {
    let a = 1.0;
    let y = lu_find_y(3, 1.0 + 2.0 * a, &|p: f64| 1.0 + 2.0 * a - a * a / p, &|p: f64| p == 0.0).unwrap();
    assert_eq!(y.len(), 3);
    assert!((y[0] - 3.0).abs() < 1e-15);
    assert!((y[1] - 8.0 / 3.0).abs() < 1e-15);
    assert!((y[2] - 21.0 / 8.0).abs() < 1e-15);
}

#[test]
fn zero_pivot_is_reported_where_it_occurs() {
    let next = |p: i64| p - 1;
    let is_zero = |p: i64| p == 0;
    assert_eq!(lu_find_y(5, 5, &next, &is_zero), Ok(vec![5, 4, 3, 2, 1]));
    assert_eq!(lu_find_y(10, 5, &next, &is_zero), Err(SingularSystem { index: 5 }));
    assert_eq!(lu_find_y(3, 0, &next, &is_zero), Err(SingularSystem { index: 0 }));
    assert_eq!(lu_find_y(0, 0, &next, &is_zero), Ok(vec![]));
}

#[test]
fn rhs_folds_both_edges() {
    let fold = |b: i64, e: i64| b + e;
    assert_eq!(implicit_rhs(&vec![9, 1, 2, 3, 9], 10, 20, &fold), vec![11, 2, 23]);
    assert_eq!(implicit_rhs(&vec![9, 1, 9], 10, 20, &fold), vec![31]);
    assert_eq!(implicit_rhs(&vec![9, 9], 10, 20, &fold), Vec::<i64>::new());
}

#[test]
fn substitutions_walk_every_interior_node() {
    // fwd(b, q, y) = b + q * y; back(q, right, y) = q + right * y
    let fwd = |b: i64, q: i64, y: i64| b + q * y;
    let back = |q: i64, right: i64, y: i64| q + right * y;
    let b = vec![1, 2, 3];
    let y = vec![2, 3, 4];
    let q = forward_substitute(&b, &y, &fwd);
    assert_eq!(q, vec![1, 2 + 1 * 2, 3 + 4 * 3]);
    let mut u = vec![-1, 0, 0, 0, -2];
    back_substitute(&q, &y, 0, &back, &mut u);
    // u[3] = 15 + 0; u[2] = 4 + 15 * 3 = 49; u[1] = 1 + 49 * 2 = 99
    assert_eq!(u, vec![-1, 99, 49, 15, -2]);
}

#[test]
fn implicit_step_solves_the_tridiagonal_system() {
    let a = 0.5;
    let prev = vec![0.0, 1.0, 2.0, 1.0, 0.0, 3.0];
    let m = prev.len() - 2;
    let y = lu_find_y(m, 1.0 + 2.0 * a, &|p: f64| 1.0 + 2.0 * a - a * a / p, &|p: f64| p == 0.0).unwrap();
    let mut u = prev.clone();
    advance_solution(
        &mut u,
        0.5,
        0.25,
        &y,
        &|b: f64, e: f64| b + a * e,
        &|b: f64, q: f64, p: f64| b + a * q / p,
        &|q: f64, right: f64, p: f64| (q + a * right) / p,
        0.0,
    );
    assert_eq!(u[0], 0.5);
    assert_eq!(u[5], 0.25);
    for i in 1..5 {
        let lhs = (1.0 + 2.0 * a) * u[i] - a * u[i - 1] - a * u[i + 1];
        assert!((lhs - prev[i]).abs() < 1e-12, "row {i}: {lhs} vs {}", prev[i]);
    }
}

#[test]
fn lu_solve_repeats_the_step() {
    let a = 0.3;
    let init = vec![1.0, 2.0, 3.0, 2.0, 1.0];
    let y = lu_find_y(3, 1.0 + 2.0 * a, &|p: f64| 1.0 + 2.0 * a - a * a / p, &|p: f64| p == 0.0).unwrap();
    let fold = |b: f64, e: f64| b + a * e;
    let fwd = |b: f64, q: f64, p: f64| b + a * q / p;
    let back = |q: f64, right: f64, p: f64| (q + a * right) / p;
    let edges = |j: usize| (j as f64, -(j as f64));
    let solved = lu_solve(init.clone(), 2, &edges, &y, &fold, &fwd, &back, 0.0);
    let mut u = init;
    advance_solution(&mut u, 1.0, -1.0, &y, &fold, &fwd, &back, 0.0);
    advance_solution(&mut u, 2.0, -2.0, &y, &fold, &fwd, &back, 0.0);
    assert_eq!(solved, u);
}

#[test]
fn initial_grid_reads_node_numbers() {
    let g = initial_grid(&small_params(), &|node: i64| node * 10);
    assert_eq!(g, vec![-20, -10, 0, 10, 20]);
}

#[test]
fn set_boundaries_writes_both_edges() {
    let mut v = vec![0, 1, 2];
    set_boundaries(&mut v, 7, 8);
    assert_eq!(v, vec![7, 1, 8]);
    let mut w = vec![0];
    set_boundaries(&mut w, 7, 8);
    assert_eq!(w, vec![8]);
}

#[test]
fn read_price_converts_the_node_value() {
    let p = small_params();
    let g = vec![10, 11, 12, 13, 14];
    assert_eq!(read_price(&p, &g, 1, &|u: i64| u * 2), Ok(26));
    assert_eq!(read_price(&p, &g, -2, &|u: i64| u * 2), Ok(20));
    assert_eq!(read_price(&p, &g, 3, &|u: i64| u * 2), Err(OutOfDomain { node: 3 }));
}

#[test]
fn price_outside_the_grid_is_an_error() {
    let p = small_params();
    let t0 = |node: i64| node as f64;
    let edges = |_: usize| (0.0, 0.0);
    let update = |l: f64, c: f64, r: f64| c + 0.25 * (l - 2.0 * c + r);
    let to_value = |u: f64| u;
    assert_eq!(
        explicit::price(&p, &t0, 3, &edges, &update, 5, &to_value),
        Err(OutOfDomain { node: 5 })
    );
    let y = vec![1.5; 3];
    let r = implicit::price(
        &p,
        &t0,
        3,
        &edges,
        &y,
        &|b: f64, _: f64| b,
        &|b: f64, _: f64, _: f64| b,
        &|q: f64, _: f64, _: f64| q,
        0.0,
        -3,
        &to_value,
    );
    assert_eq!(r, Err(OutOfDomain { node: -3 }));
}

#[test]
fn explicit_price_with_zero_steps_reads_the_initial_grid() {
    let p = small_params();
    let t0 = |node: i64| (node * node) as f64;
    let edges = |_: usize| (0.0, 0.0);
    let update = |l: f64, c: f64, r: f64| c + 0.25 * (l - 2.0 * c + r);
    // dx = 1/10, dt = 1/400: alpha = 100 / 400 = 1/4
    assert_eq!(
        explicit::price(&p, &t0, 0, &edges, &update, -2, &|u: f64| u + 1.0),
        Ok(ExplicitPrice { value: 5.0, stable: true })
    );
    // one step: node -1 sees 4, 1, 0 -> 1 + 0.25 * (4 - 2 + 0) = 1.5
    assert_eq!(
        explicit::price(&p, &t0, 1, &edges, &update, -1, &|u: f64| u),
        Ok(ExplicitPrice { value: 1.5, stable: true })
    );
}

#[test]
fn explicit_price_reports_an_unstable_grid() {
    // dx = 1/10, dt = 1/50: alpha = 2
    let p = Params::new(Step { num: 1, den: 10 }, Step { num: 1, den: 50 }, -2, 2).unwrap();
    let t0 = |node: i64| node as f64;
    let edges = |_: usize| (0.0, 0.0);
    let update = |l: f64, c: f64, r: f64| c + 2.0 * (l - 2.0 * c + r);
    let r = explicit::price(&p, &t0, 2, &edges, &update, 0, &|u: f64| u).unwrap();
    assert!(!r.stable);
}
