//! Driver core for a peer-to-peer deterministic simulation run under a
//! rollback-reconciliation scheme: deterministic frame advancement, snapshot
//! save/restore, and pacing of local advancement.

pub mod state;
pub mod input;
pub mod game;
pub mod laws;
pub mod net;

pub use state::Handle;
pub use state::Player;
pub use state::PlayerState;
pub use state::Snapshot;
pub use input::InputSet;
pub use input::PlayerInput;
pub use game::Command;
pub use game::DriverError;
pub use game::Event;
pub use game::Game;
pub use game::TickPlan;
pub use net::host_for_player;
