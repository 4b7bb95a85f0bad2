//! The command dispatcher, the deterministic update rule, and the pacing
//! controller: everything that mutates the simulation, and the decision of
//! what the driver loop owes each tick.

use vstd::prelude::*;
use crate::state::{Handle, Player, PlayerState, Snapshot, states_of, loaded};
use crate::input::{InputSet, PlayerInput, input_for};

verus! {

/// Bit 0 of an input bitmask: decrease the coordinate, saturating at zero.
pub const DECREMENT_BIT: u8 = 1;

/// Bit 1 of an input bitmask: increase the coordinate.
pub const INCREMENT_BIT: u8 = 2;

/// The coordinate every participant starts the match at.
pub const START_COORDINATE: u32 = 10;

/// An orchestration-level notification delivered as a command. The union is
/// closed on this driver's side: kinds it does not recognise arrive as
/// `Unrecognized` and are deliberately ignored (observability only), never
/// dropped by accident of a match arm.
#[derive(Clone, Copy, Debug, PartialEq, Eq, Structural)]
pub enum Event {
    /// Synchronization established with one remote participant.
    Synchronized(Handle),
    /// Synchronization established with every remote participant.
    Running,
    /// Pacing directive: the local instance runs `frames_ahead` frames ahead
    /// of the remotes and must stall for that many ticks.
    TimeSync { frames_ahead: u8 },
    /// A notification kind this driver does not recognise.
    Unrecognized,
}

/// An upstream contract violation: the determinism or ordering invariants
/// were broken by the caller. Unrecoverable by design; the driver refuses the
/// command and leaves the simulation untouched.
#[derive(Clone, Copy, Debug, PartialEq, Eq, Structural)]
pub enum DriverError {
    /// A snapshot's slot count differs from the registered roster's.
    StateMismatch,
    /// A frame's input set lacks an entry for a registered handle.
    MissingInput,
}

/// One command of the ordered stream the orchestration engine hands the
/// driver. A batch must be dispatched strictly in the order received: a load
/// followed by advances is a resimulation pass, and reordering it breaks
/// determinism.
pub enum Command {
    /// Capture a snapshot of the current simulation state.
    Save,
    /// Restore the given snapshot, slot by slot.
    Load(Snapshot),
    /// Advance the simulation one frame with this frame's inputs.
    AdvanceFrame(InputSet),
    /// An orchestration-level notification.
    Event(Event),
}

/// What the driver loop must do in the current tick.
#[derive(Clone, Copy, Debug, PartialEq, Eq, Structural)]
pub enum TickPlan {
    /// Stalling: render the current state, but neither submit local input
    /// nor request a frame advance.
    RenderOnly,
    /// Running and synchronized: submit local input, then request an advance.
    SubmitAndAdvance,
    /// Running but not yet synchronized: request an advance, submit nothing.
    AdvanceOnly,
}

/// The driver: the fixed roster in registration order, and the remaining
/// frames of any pending stall.
pub struct Game {
    pub players: Vec<Player>,
    pub time_sync_frames: u8,
}

/// The update rule for one coordinate, as a mathematical function: a set
/// decrement bit lowers the coordinate by one, saturating at zero; a set
/// increment bit then raises it by one.
pub open spec fn step_y(y: u32, buttons: u8) -> int {
    let down: int = if buttons & DECREMENT_BIT != 0 {
        if y > 0 { y - 1 } else { 0 }
    } else {
        y as int
    };
    if buttons & INCREMENT_BIT != 0 { down + 1 } else { down }
}

/// One participant after one frame: the coordinate stepped by the update
/// rule, the observed input recorded for diagnostics, the handle untouched.
pub open spec fn step_player(p: Player, buttons: u8) -> Player {
    Player {
        handle: p.handle,
        state: PlayerState { y: step_y(p.state.y, buttons) as u32 },
        last_input: buttons,
    }
}

/// Whether the input set has an entry for every registered handle. The
/// orchestration contract promises this; its failure is a fatal violation.
pub open spec fn inputs_complete(players: Seq<Player>, entries: Seq<PlayerInput>) -> bool {
    forall|i: int|
        0 <= i < players.len() ==> input_for(entries, (#[trigger] players[i]).handle) is Some
}

/// Whether every stepped coordinate still fits the machine word. The
/// simulated quantity has no declared ceiling, so the machine limit is the
/// only bound.
pub open spec fn advance_fits(players: Seq<Player>, entries: Seq<PlayerInput>) -> bool {
    forall|i: int|
        0 <= i < players.len() ==> (input_for(entries, (#[trigger] players[i]).handle)
            matches Some(b) ==> step_y(players[i].state.y, b) <= u32::MAX)
}

/// The roster after one frame: every participant stepped with the input
/// recorded for its handle.
pub open spec fn advanced(players: Seq<Player>, entries: Seq<PlayerInput>) -> Seq<Player> {
    players.map_values(|p: Player| step_player(p, input_for(entries, p.handle)->Some_0))
}

/// The plan owed for one tick in a given pacing state.
pub open spec fn plan_of(g: Game, synchronized: bool) -> TickPlan {
    if g.time_sync_frames > 0 {
        TickPlan::RenderOnly
    } else if synchronized {
        TickPlan::SubmitAndAdvance
    } else {
        TickPlan::AdvanceOnly
    }
}

/// The pacing state after one tick: a pending stall is consumed one frame at
/// a time; a running driver is unchanged.
pub open spec fn paced(g: Game) -> Game {
    if g.time_sync_frames > 0 {
        Game { players: g.players, time_sync_frames: (g.time_sync_frames - 1) as u8 }
    } else {
        g
    }
}

/// Apply the update rule for one frame to one coordinate.
pub fn step_coordinate(y: u32, buttons: u8) -> (r: u32)
    requires
        step_y(y, buttons) <= u32::MAX,
    ensures
        r == step_y(y, buttons),
{
    let down: u32 = if buttons & DECREMENT_BIT != 0 {
        if y > 0 { y - 1 } else { 0 }
    } else {
        y
    };
    if buttons & INCREMENT_BIT != 0 { down + 1 } else { down }
}

impl Game {
    /// Set up the fixed roster: one slot per handle in registration order,
    /// every participant at the starting coordinate, no stall pending.
    pub fn new(handles: &Vec<Handle>) -> (g: Game)
        ensures
            g.players@.len() == handles@.len(),
            forall|i: int|
                0 <= i < handles@.len() ==> g.players@[i] == (Player {
                    handle: handles@[i],
                    state: PlayerState { y: START_COORDINATE },
                    last_input: 0u8,
                }),
            g.time_sync_frames == 0,
    {
        let n: usize = handles.len();
        let mut players: Vec<Player> = Vec::new();
        let mut i: usize = 0;
        while i < n
            invariant
                i <= n,
                n == handles@.len(),
                players@.len() == i,
                forall|j: int|
                    0 <= j < i ==> players@[j] == (Player {
                        handle: handles@[j],
                        state: PlayerState { y: START_COORDINATE },
                        last_input: 0u8,
                    }),
            decreases n - i,
        {
            players.push(Player {
                handle: handles[i],
                state: PlayerState { y: START_COORDINATE },
                last_input: 0u8,
            });
            i += 1;
        }
        Game { players, time_sync_frames: 0 }
    }

    /// Capture a value-copy of the simulation state, slot by slot in registry
    /// order. The state itself is not touched.
    pub fn save_state(&self) -> (s: Snapshot)
        ensures
            s.players@ == states_of(self.players@),
    {
        let n: usize = self.players.len();
        let mut out: Vec<PlayerState> = Vec::new();
        let mut i: usize = 0;
        while i < n
            invariant
                i <= n,
                n == self.players@.len(),
                out@.len() == i,
                forall|j: int| 0 <= j < i ==> out@[j] == self.players@[j].state,
            decreases n - i,
        {
            out.push(self.players[i].state);
            i += 1;
        }
        proof {
            assert(out@ =~= states_of(self.players@));
        }
        Snapshot { players: out }
    }

    /// Overwrite every slot with the snapshot's slot of the same position.
    /// A snapshot whose slot count differs from the roster's is refused with
    /// `StateMismatch`, and the state is left untouched.
    pub fn load_state(&mut self, snap: &Snapshot) -> (r: Result<(), DriverError>)
        ensures
            r is Ok <==> snap.players@.len() == old(self).players@.len(),
            r is Ok ==> final(self).players@ == loaded(old(self).players@, snap.players@),
            r is Err ==> *final(self) == *old(self) && r->Err_0 == DriverError::StateMismatch,
            final(self).time_sync_frames == old(self).time_sync_frames,
    {
        let n: usize = self.players.len();
        if snap.players.len() != n {
            return Err(DriverError::StateMismatch);
        }
        let mut i: usize = 0;
        while i < n
            invariant
                i <= n,
                n == self.players@.len(),
                n == old(self).players@.len(),
                n == snap.players@.len(),
                self.time_sync_frames == old(self).time_sync_frames,
                forall|j: int|
                    0 <= j < i ==> self.players@[j] == loaded(old(self).players@, snap.players@)[j],
                forall|j: int| i <= j < n ==> self.players@[j] == old(self).players@[j],
            decreases n - i,
        {
            let mut p = self.players[i];
            p.state = snap.players[i];
            self.players.set(i, p);
            i += 1;
        }
        proof {
            assert(self.players@ =~= loaded(old(self).players@, snap.players@));
        }
        Ok(())
    }

    /// Advance the simulation by exactly one frame: step every participant's
    /// coordinate with the input recorded for its handle, then record that
    /// input for diagnostics. An input set lacking any registered handle is
    /// refused with `MissingInput`, and the state is left untouched.
    pub fn advance_frame(&mut self, inputs: &InputSet) -> (r: Result<(), DriverError>)
        requires
            advance_fits(old(self).players@, inputs.entries@),
        ensures
            r is Ok <==> inputs_complete(old(self).players@, inputs.entries@),
            r is Ok ==> final(self).players@ == advanced(old(self).players@, inputs.entries@),
            r is Err ==> *final(self) == *old(self) && r->Err_0 == DriverError::MissingInput,
            final(self).time_sync_frames == old(self).time_sync_frames,
    {
        let n: usize = self.players.len();
        let mut i: usize = 0;
        while i < n
            invariant
                i <= n,
                n == self.players@.len(),
                forall|j: int|
                    0 <= j < i ==> input_for(inputs.entries@, (#[trigger] self.players@[j]).handle) is Some,
            decreases n - i,
        {
            if inputs.get(self.players[i].handle).is_none() {
                return Err(DriverError::MissingInput);
            }
            i += 1;
        }
        let mut i: usize = 0;
        while i < n
            invariant
                i <= n,
                n == self.players@.len(),
                n == old(self).players@.len(),
                self.time_sync_frames == old(self).time_sync_frames,
                inputs_complete(old(self).players@, inputs.entries@),
                advance_fits(old(self).players@, inputs.entries@),
                forall|j: int|
                    0 <= j < i ==> self.players@[j] == advanced(old(self).players@, inputs.entries@)[j],
                forall|j: int| i <= j < n ==> self.players@[j] == old(self).players@[j],
            decreases n - i,
        {
            let mut p = self.players[i];
            let inp = inputs.get(p.handle).unwrap();
            p.state.y = step_coordinate(p.state.y, inp);
            p.last_input = inp;
            proof {
                assert(p == step_player(old(self).players@[i as int], inp));
                assert(advanced(old(self).players@, inputs.entries@)[i as int]
                    == step_player(old(self).players@[i as int], inp));
            }
            self.players.set(i, p);
            i += 1;
        }
        proof {
            assert(self.players@ =~= advanced(old(self).players@, inputs.entries@));
        }
        Ok(())
    }

    /// Apply one orchestration-level notification. A pacing directive
    /// replaces the remaining stall count with the frames-ahead value; every
    /// other kind, recognised or not, leaves the driver untouched — such
    /// notifications are observability-only.
    pub fn handle_event(&mut self, event: &Event)
        ensures
            final(self).players@ == old(self).players@,
            event matches Event::TimeSync { frames_ahead } ==> final(self).time_sync_frames
                == frames_ahead,
            !(event is TimeSync) ==> final(self).time_sync_frames == old(self).time_sync_frames,
    {
        match event {
            Event::TimeSync { frames_ahead } => {
                self.time_sync_frames = *frames_ahead;
            },
            _ => {},
        }
    }

    /// Dispatch one command of an ordered batch. A save yields the captured
    /// snapshot for the caller to hand back to the orchestration engine;
    /// every other command yields no value.
    pub fn run_command(&mut self, command: Command) -> (r: Result<Option<Snapshot>, DriverError>)
        requires
            command matches Command::AdvanceFrame(inputs) ==> advance_fits(
                old(self).players@,
                inputs.entries@,
            ),
        ensures
            command is Save ==> (r matches Ok(o) && o matches Some(s)
                && s.players@ == states_of(old(self).players@)
                && *final(self) == *old(self)),
            command matches Command::Load(snap) ==> {
                &&& r is Ok <==> snap.players@.len() == old(self).players@.len()
                &&& r is Ok ==> final(self).players@ == loaded(old(self).players@, snap.players@)
                    && r->Ok_0 is None
                &&& r is Err ==> *final(self) == *old(self) && r->Err_0
                    == DriverError::StateMismatch
                &&& final(self).time_sync_frames == old(self).time_sync_frames
            },
            command matches Command::AdvanceFrame(inputs) ==> {
                &&& r is Ok <==> inputs_complete(old(self).players@, inputs.entries@)
                &&& r is Ok ==> final(self).players@ == advanced(old(self).players@, inputs.entries@)
                    && r->Ok_0 is None
                &&& r is Err ==> *final(self) == *old(self) && r->Err_0 == DriverError::MissingInput
                &&& final(self).time_sync_frames == old(self).time_sync_frames
            },
            command matches Command::Event(ev) ==> {
                &&& r matches Ok(o) && o is None
                &&& final(self).players@ == old(self).players@
                &&& (ev matches Event::TimeSync { frames_ahead } ==> final(self).time_sync_frames
                    == frames_ahead)
                &&& (!(ev is TimeSync) ==> final(self).time_sync_frames
                    == old(self).time_sync_frames)
            },
    {
        match command {
            Command::Save => Ok(Some(self.save_state())),
            Command::Load(snap) => match self.load_state(&snap) {
                Ok(()) => Ok(None),
                Err(e) => Err(e),
            },
            Command::AdvanceFrame(inputs) => match self.advance_frame(&inputs) {
                Ok(()) => Ok(None),
                Err(e) => Err(e),
            },
            Command::Event(ev) => {
                self.handle_event(&ev);
                Ok(None)
            },
        }
    }

    /// Decide this tick's behaviour and consume one frame of any pending
    /// stall. While stalling the driver still renders, so the local
    /// participant sees no freeze, but it must neither submit input nor
    /// request an advance that tick.
    pub fn plan_tick(&mut self, synchronized: bool) -> (p: TickPlan)
        ensures
            p == plan_of(*old(self), synchronized),
            *final(self) == paced(*old(self)),
    {
        if self.time_sync_frames > 0 {
            self.time_sync_frames = self.time_sync_frames - 1;
            TickPlan::RenderOnly
        } else if synchronized {
            TickPlan::SubmitAndAdvance
        } else {
            TickPlan::AdvanceOnly
        }
    }

    /// The handle registered in a given slot, if the slot exists. The slot
    /// order is the single source of truth for snapshot ordering.
    pub fn handle_for_slot(&self, slot: usize) -> (r: Option<Handle>)
        ensures
            slot < self.players@.len() ==> r == Some(self.players@[slot as int].handle),
            slot >= self.players@.len() ==> r is None,
    {
        if slot < self.players.len() {
            Some(self.players[slot].handle)
        } else {
            None
        }
    }

    /// The slot a handle is registered in: the first slot whose handle
    /// equals `h`, or `None` for an unregistered handle.
    pub fn slot_for_handle(&self, h: Handle) -> (r: Option<usize>)
        ensures
            r matches Some(i) ==> i < self.players@.len() && self.players@[i as int].handle == h
                && (forall|j: int| 0 <= j < i ==> self.players@[j].handle != h),
            r is None ==> forall|j: int| 0 <= j < self.players@.len() ==> self.players@[j].handle != h,
    {
        let n: usize = self.players.len();
        let mut i: usize = 0;
        while i < n
            invariant
                i <= n,
                n == self.players@.len(),
                forall|j: int| 0 <= j < i ==> self.players@[j].handle != h,
            decreases n - i,
        {
            if self.players[i].handle == h {
                return Some(i);
            }
            i += 1;
        }
        None
    }
}

} // verus!
