//! Simulation data model: participant handles, per-participant state, the
//! registered players, and the snapshot value captured on a save.

use vstd::prelude::*;

verus! {

/// Opaque identifier for a registered participant, issued once at match setup
/// and stable for the whole match. Compared only by equality.
#[derive(Clone, Copy, Debug, PartialEq, Eq, Structural)]
pub struct Handle {
    pub id: usize,
}

/// The simulated quantity of one participant: a single non-negative coordinate.
#[derive(Clone, Copy, Debug, PartialEq, Eq, Structural)]
pub struct PlayerState {
    pub y: u32,
}

/// One registered participant: its handle, its authoritative simulation state,
/// and the input bitmask last observed for it. The last-observed input exists
/// only for change detection and diagnostics; it is not part of the
/// authoritative simulation and is not captured by snapshots.
#[derive(Clone, Copy, Debug, PartialEq, Eq, Structural)]
pub struct Player {
    pub handle: Handle,
    pub state: PlayerState,
    pub last_input: u8,
}

/// A value-copy of the simulation state, one slot per registered participant
/// in registry order. Produced on a save, consumed on a load; its lifetime is
/// the caller's business.
#[derive(Clone, Debug, PartialEq, Eq)]
pub struct Snapshot {
    pub players: Vec<PlayerState>,
}

/// The per-slot authoritative states of a roster, in registry order.
pub open spec fn states_of(players: Seq<Player>) -> Seq<PlayerState> {
    players.map_values(|p: Player| p.state)
}

/// The roster after restoring `snap`: slot `i` takes the snapshot's slot `i`
/// as its authoritative state; handle and last-observed input are untouched.
pub open spec fn loaded(players: Seq<Player>, snap: Seq<PlayerState>) -> Seq<Player>
    recommends
        snap.len() == players.len(),
{
    players.map(|i: int, p: Player| Player { handle: p.handle, state: snap[i], last_input: p.last_input })
}

} // verus!
