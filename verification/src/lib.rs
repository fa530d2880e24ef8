//! Decision core of a three-degree-of-freedom launch vehicle flight
//! simulator: the vehicle description and its validation, table lookup,
//! the stage schedule, and the control of integration and output.
//!
//! Quantities are carried by their encodings ([`scalar::Scalar`]). The
//! library compares and selects; it does no arithmetic on them. Where a
//! decision needs a sum or a product, the caller hands it in.
pub mod client;
pub mod config;
pub mod environment;
pub mod error;
pub mod files;
pub mod flight;
pub mod ingest;
pub mod integrator;
pub mod order;
pub mod records;
pub mod rocket;
pub mod scalar;
pub mod scheduler;
pub mod stage;
pub mod summary;
pub mod surface;
pub mod table;
pub mod text;
pub mod validate;
pub mod value;
