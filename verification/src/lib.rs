//! Method of Ellipcenters (ME) for unconstrained optimization: the verified decision logic.
//!
//! Every iteration of the method evaluates the gradient at the current iterate, finds a step
//! `t_k > 0` on the level set `f(x_k - t_k g_k) = f(x_k)`, evaluates the gradient at the trial
//! point `y_k = x_k - t_k g_k`, and then moves either to the midpoint of `x_k` and `y_k`
//! (collinear gradients, or a singular 2×2 system) or to the center of the ellipse spanned by
//! the two gradients.
//!
//! The floating-point work (objective values, gradients, vector arithmetic, the 2×2 solve) is
//! done by the caller. This crate holds the decisions that drive it, as two state machines:
//! - [`line_search::LevelSetSearch`]: bracketing followed by bisection for `t_k`;
//! - [`solver::SolverRun`]: the outer iteration, with its stopping rules and fallbacks.
//!
//! Each machine takes an observation (a sign, a comparison outcome) and answers with the next
//! action for the caller to perform.

pub mod line_search;
pub mod solver;

pub use solver::{EllipCentersError, StopReason};
