//! Verified core of a Hamiltonian Monte Carlo sandbox: the integer and
//! bookkeeping logic around the samplers (progress schedule, sample windows,
//! histogram binning, request coalescing and progress labels).

pub mod decimal;
pub mod export;
pub mod histogram;
pub mod leapfrog;
pub mod progress;
pub mod requests;
pub mod samples;
pub mod stage;
pub mod status;
pub mod window;
