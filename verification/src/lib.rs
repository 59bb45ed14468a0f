//! Change-synchronization engine: reconciles a local, continuously mutated
//! personal data store (workouts, exercise definitions, aliases, bodyweight
//! entries, configuration) with a remote replica of the same logical data.
//!
//! The engine runs in three phases. A read phase takes a consistent snapshot
//! of everything that changed locally since the last synchronization point; an
//! exchange phase (driven by the surrounding application, with no store access
//! held) trades that snapshot with the remote peer; a write phase merges the
//! peer's response back into the local store and advances the persisted
//! cursor. Either the merge and the cursor advance both take effect, or the
//! store is left exactly as it was.

pub mod laws;
pub mod model;
pub mod orchestrator;
pub mod store;
pub mod wire;
