# ellipcenters

The Method of Ellipcenters (ME) for unconstrained optimization, with its decision logic
verified in Verus.

- `src/` — the verified library: two state machines that take every decision of the method.
  - `line_search.rs`: `LevelSetSearch`, bracketing and bisection for the step `t_k` with
    `f(x_k - t_k g_k) = f(x_k)`, within a budget of expansions and bisection steps.
  - `solver.rs`: `SolverRun`, the outer iteration: gradient tolerance and iteration limit,
    closed-form step or level-set search, midpoint fallback for collinear gradients or a
    singular 2×2 system, and the stop reasons and error.
- `app/` — the floating-point side over `ndarray`: the `Objective` trait, `QuadraticOracle`,
  the 2×2 solve, and the drivers `find_levelset_crossing` and `EllipCenters::solve`, which
  evaluate the objective, report what they found to the machines and perform their actions.
- `tests/` — event sequences run through both machines.
