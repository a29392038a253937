//! Core of a game-mod manager backend: validated identifier handling, a
//! provider/game registry with freeze semantics, a context tracking the
//! active game, and the decision logic of a FIFO download orchestrator.

pub mod context;
pub mod discovery;
pub mod download;
pub mod ids;
pub mod registry;

pub use ids::normalize_id;
