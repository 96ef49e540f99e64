//! Discrete logic of a Monte Carlo simulator for phonon transport in a
//! silicon detector: configuration checks, boundary model selection,
//! wall polygon bookkeeping, lookup-table indexing for direction sampling,
//! the particle queue of one event and the layout of the output file.
//! The floating-point geometry runs around this library and hands it
//! plain values.
pub mod data_structures;
pub mod config;
pub mod simulate;
pub mod reflection_models;
pub mod wall_scattering;
pub mod materials;
pub mod phonon;
pub mod simulate_particle;
pub mod postprocessing;
pub mod output;
