//! Emotional game-recommendation engine.
//!
//! The library turns questionnaire answers into a normalized emotional
//! profile, scores candidate games against that profile, applies hard
//! exclusion filters (dealbreakers, duration, already played), folds user
//! feedback back into bounded resonance weights, and falls back to a static
//! catalog when the graph datastore cannot answer.
//!
//! All weights and intensities are exact integers: an intensity is measured
//! in thousandths (`INTENSITY_SCALE`), a composite score in hundred
//! thousandths (`SCORE_SCALE`), and a normalized profile weight is the exact
//! rational `weight / weight_total`. This keeps every arithmetic claim exact
//! where the datastore itself stores floating-point edge weights; the thin
//! I/O layer converts at the boundary.

pub mod catalog;
pub mod config;
pub mod error;
pub mod exploration;
pub mod fallback;
pub mod feedback;
pub mod helpers;
pub mod profile;
pub mod questionnaire;
pub mod recommendation;
pub mod scoring;
pub mod store;
pub mod users;
pub mod strings;

pub use error::AppError;
pub use error::AppResult;
