//! The driver's laws, stated over the same spec functions the executable
//! contracts use: determinism of frame advancement, snapshot round-trips,
//! resimulation equivalence, the coordinate floor, and exact pacing.

use vstd::prelude::*;
use crate::state::{Player, PlayerState, states_of, loaded};
use crate::input::PlayerInput;
use crate::game::{Game, TickPlan, advanced, step_y, plan_of, paced, INCREMENT_BIT};

verus! {

/// The roster after a run of whole frames, each advanced with its own input
/// entries, in order.
pub open spec fn run_frames(players: Seq<Player>, frames: Seq<Seq<PlayerInput>>) -> Seq<Player>
    decreases frames.len(),
{
    if frames.len() == 0 {
        players
    } else {
        run_frames(advanced(players, frames[0]), frames.drop_first())
    }
}

/// The pacing state after `k` ticks of the driver loop.
pub open spec fn paced_ticks(g: Game, k: nat) -> Game
    decreases k,
{
    if k == 0 {
        g
    } else {
        paced(paced_ticks(g, (k - 1) as nat))
    }
}

/// The driver after a pacing directive of `frames_ahead` frames: exactly what
/// `Game::handle_event` ensures for a `TimeSync` notification.
pub open spec fn stalled(g: Game, frames_ahead: u8) -> Game {
    Game { players: g.players, time_sync_frames: frames_ahead }
}

/// Determinism: advancing a frame is a pure function of the starting roster
/// and the frame's inputs — two independent applications from the same state
/// with the same inputs yield identical rosters.
pub proof fn lemma_advance_deterministic(
    players1: Seq<Player>,
    players2: Seq<Player>,
    entries1: Seq<PlayerInput>,
    entries2: Seq<PlayerInput>,
)
    requires
        players1 == players2,
        entries1 == entries2,
    ensures
        advanced(players1, entries1) == advanced(players2, entries2),
{
}

/// Round trip: a save followed at once by a load of the captured snapshot
/// leaves every slot — handle, state, and observed input — exactly as it was,
/// and the snapshot's slot count always matches, so the load succeeds.
pub proof fn lemma_save_load_roundtrip(players: Seq<Player>)
    ensures
        states_of(players).len() == players.len(),
        loaded(players, states_of(players)) == players,
{
    assert(loaded(players, states_of(players)) =~= players);
}

/// The last-observed input is diagnostics only: rosters that agree slot for
/// slot on handle and authoritative state advance to equal rosters.
pub proof fn lemma_advance_ignores_diagnostics(
    a: Seq<Player>,
    b: Seq<Player>,
    entries: Seq<PlayerInput>,
)
    requires
        a.len() == b.len(),
        forall|i: int| 0 <= i < a.len() ==> (#[trigger] a[i]).handle == b[i].handle && a[i].state
            == b[i].state,
    ensures
        advanced(a, entries) == advanced(b, entries),
{
    assert(advanced(a, entries) =~= advanced(b, entries));
}

/// Resimulation equivalence: restoring a snapshot taken earlier and replaying
/// the frames since, in order, reproduces exactly the authoritative states of
/// the uninterrupted simulation — whatever roster the driver had diverged to,
/// as long as the registered handles are the same, slot for slot.
pub proof fn lemma_resimulation(
    at_save: Seq<Player>,
    diverged: Seq<Player>,
    frames: Seq<Seq<PlayerInput>>,
)
    requires
        diverged.len() == at_save.len(),
        forall|i: int| 0 <= i < at_save.len() ==> (#[trigger] diverged[i]).handle
            == at_save[i].handle,
    ensures
        states_of(run_frames(loaded(diverged, states_of(at_save)), frames)) == states_of(
            run_frames(at_save, frames),
        ),
{
    let restored = loaded(diverged, states_of(at_save));
    if frames.len() == 0 {
        assert(states_of(restored) =~= states_of(at_save));
    } else {
        lemma_advance_ignores_diagnostics(restored, at_save, frames[0]);
    }
}

/// The registry is fixed for the match: neither restoring a snapshot nor
/// advancing a frame changes which handle occupies which slot.
pub proof fn lemma_handles_stable(
    players: Seq<Player>,
    snap: Seq<PlayerState>,
    entries: Seq<PlayerInput>,
)
    ensures
        loaded(players, snap).len() == players.len(),
        advanced(players, entries).len() == players.len(),
        forall|i: int| 0 <= i < players.len() ==> loaded(players, snap)[i].handle == (
        #[trigger] players[i]).handle,
        forall|i: int| 0 <= i < players.len() ==> advanced(players, entries)[i].handle == (
        #[trigger] players[i]).handle,
{
}

/// Floor: the update rule never drives a coordinate negative, and a bare
/// decrement at zero leaves the coordinate at zero.
pub proof fn lemma_floor(y: u32, buttons: u8)
    ensures
        step_y(y, buttons) >= 0,
        y == 0 && buttons & INCREMENT_BIT == 0 ==> step_y(y, buttons) == 0,
{
}

/// Exact pacing: a directive of `n` frames ahead makes each of the next `n`
/// ticks render-only; on the tick after those, normal operation resumes. The
/// roster is never touched by pacing.
pub proof fn lemma_pacing_exact(g: Game, n: u8, k: nat, synchronized: bool)
    requires
        k <= n,
    ensures
        paced_ticks(stalled(g, n), k).time_sync_frames == n - k,
        paced_ticks(stalled(g, n), k).players == stalled(g, n).players,
        k < n ==> plan_of(paced_ticks(stalled(g, n), k), synchronized) == TickPlan::RenderOnly,
        k == n ==> plan_of(paced_ticks(stalled(g, n), k), synchronized) == (if synchronized {
            TickPlan::SubmitAndAdvance
        } else {
            TickPlan::AdvanceOnly
        }),
    decreases k,
{
    if k > 0 {
        lemma_pacing_exact(g, n, (k - 1) as nat, synchronized);
    }
}

} // verus!
