//! Finite-difference pricing of vanilla options on the transformed
//! Black-Scholes equation `du/dtau = d2u/dx2`, over a truncated grid of
//! log-moneyness nodes.
//!
//! - `side`: call or put, and at which grid edge each one's value vanishes.
//! - `params`: the discretisation (exact step ratios, index bounds), its
//!   stability bound, and the map from node numbers to buffer indices.
//! - `grid`: the grid at `tau = 0`, the edge writes and the price read-out.
//! - `explicit`: the forward-time scheme.
//! - `implicit`: the backward-time scheme, solved by tridiagonal elimination.
//!
//! The schemes are generic in the node value: the caller hands them the
//! arithmetic of one node as closures, and each contract states which
//! closure produced each node from which inputs.
pub mod explicit;
pub mod grid;
pub mod implicit;
pub mod params;
pub mod side;
