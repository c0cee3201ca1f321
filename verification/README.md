# Stock Simulation Engine

An HTTP API for stock simulations: users register and log in, keep stocks
in a profile, record simulations of their price under a stochastic model
(GBM, Merton jump diffusion, Ornstein-Uhlenbeck, Heston), and replay a
recorded simulation from its stored seed and parameters.

## Layout

- `src/` is the library, verified with Verus. It holds the rules of the
  service: registration and login (as state machines that name each
  repository query), stock and simulation validation, the assembly of a
  profile overview, reading ids and bearer tokens, and the planning of a
  replay. Each public function states its result in its contract; the
  library-wide laws are public proof functions (`lemma_*`).
- `app/` is the server around it: configuration, the database models and
  repositories, JSON shapes, the axum routes and the websocket, token
  signing, and the floating-point integration of a replayed path.
- `tests/` exercises the library on concrete values.

Floating-point numbers cross into the library as their IEEE-754 bit
patterns (`u64`), and record ids as 128-bit integers.
