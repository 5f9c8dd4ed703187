//! A six-degree-of-freedom rocket flight simulator.
//!
//! All physical quantities are carried as fixed-point numbers: signed 64-bit
//! integers counting millionths of the base unit (metres, seconds, kilograms,
//! radians), with quaternion components held at a finer scale. Every module is
//! verified: the arithmetic kernels carry exact contracts, and the flight
//! invariants (unit attitude, non-increasing mass, monotone staging) are
//! proved rather than sampled.

pub mod aerodynamics;
pub mod atmosphere;
pub mod controller;
pub mod event;
pub mod fixed;
pub mod gravity;
pub mod guidance;
pub mod integrator;
pub mod maneuvers;
pub mod mission;
pub mod pid;
pub mod presets;
pub mod propagator;
pub mod quat;
pub mod runner;
pub mod sixdof;
pub mod stage;
pub mod state;
pub mod summary;
pub mod trig;
pub mod tvc;
pub mod vec3;
