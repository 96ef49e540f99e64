# phonon_monte_carlo

A Monte Carlo simulator for phonon transport in a silicon photon detector, split in two:

- `src/` is a Verus library with the discrete logic of the simulator, each function
  proved against its contract: the configuration validity check and the selection of
  the surface scattering models by name, the bookkeeping of wall polygons (vertex
  order, orientation, domain membership), the indexing of the lookup tables for random
  directions, the particle queue of one event, the fate of a phonon's energy, the
  reading of the two-column decay template, and the layout of the output files.
- `app/` is ordinary Rust around it: the floating-point geometry and physics, the
  TOML and Parquet I/O, the thread pool, and the Python binding `run`.
- `tests/` runs the library on concrete values.
