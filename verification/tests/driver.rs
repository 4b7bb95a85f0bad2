//! Exercises the simulation driver from the outside: the deterministic
//! update rule, snapshot round-trips, resimulation, pacing, the registry,
//! and the endpoint naming rule.

use rollback_driver::{
    Command, DriverError, Event, Game, Handle, InputSet, Player, PlayerInput, PlayerState,
    Snapshot, TickPlan, host_for_player,
};
use rollback_driver::game::step_coordinate;

fn two_player_game() -> Game {
    Game::new(&vec![Handle { id: 0 }, Handle { id: 1 }])
}

fn inputs(b0: u8, b1: u8) -> InputSet {
    InputSet {
        entries: vec![
            PlayerInput { handle: Handle { id: 0 }, buttons: b0 },
            PlayerInput { handle: Handle { id: 1 }, buttons: b1 },
        ],
    }
}

fn coords(g: &Game) -> Vec<u32> {
    g.players.iter().map(|p| p.state.y).collect()
}

#[test]
fn new_game_starts_at_ten_per_slot() {
    let g = two_player_game();
    assert_eq!(coords(&g), vec![10, 10]);
    assert_eq!(g.players[0].handle, Handle { id: 0 });
    assert_eq!(g.players[1].handle, Handle { id: 1 });
    assert_eq!(g.time_sync_frames, 0);
}

#[test]
fn step_coordinate_exact_values() {
    assert_eq!(step_coordinate(10, 0), 10);
    assert_eq!(step_coordinate(10, 1), 9);
    assert_eq!(step_coordinate(10, 2), 11);
    // both bits: the decrement saturates first, then the increment applies
    assert_eq!(step_coordinate(5, 3), 5);
    assert_eq!(step_coordinate(0, 3), 1);
    // irrelevant high bits change nothing
    assert_eq!(step_coordinate(10, 0xfc), 10);
}

#[test]
fn scenario_a_three_decrements_for_player_zero() {
    let mut g = two_player_game();
    for _ in 0..3 {
        g.advance_frame(&inputs(1, 0)).unwrap();
    }
    assert_eq!(coords(&g), vec![7, 10]);
}

#[test]
fn scenario_b_decrement_at_zero_stays_zero() {
    let mut g = Game::new(&vec![Handle { id: 4 }]);
    // walk the participant down to the floor, then keep decrementing
    for _ in 0..10 {
        g.advance_frame(&InputSet {
            entries: vec![PlayerInput { handle: Handle { id: 4 }, buttons: 1 }],
        })
        .unwrap();
    }
    assert_eq!(coords(&g), vec![0]);
    g.advance_frame(&InputSet {
        entries: vec![PlayerInput { handle: Handle { id: 4 }, buttons: 1 }],
    })
    .unwrap();
    assert_eq!(coords(&g), vec![0]);
}

#[test]
fn scenario_c_load_restores_earlier_snapshot() {
    let mut g = two_player_game();
    for _ in 0..3 {
        g.advance_frame(&inputs(1, 0)).unwrap();
    }
    assert_eq!(coords(&g), vec![7, 10]);
    let snap = g.save_state();
    for _ in 0..2 {
        g.advance_frame(&inputs(1, 1)).unwrap();
    }
    assert_eq!(coords(&g), vec![5, 8]);
    g.load_state(&snap).unwrap();
    assert_eq!(coords(&g), vec![7, 10]);
}

#[test]
fn determinism_same_state_same_inputs_same_result() {
    let mut g1 = two_player_game();
    let mut g2 = two_player_game();
    for _ in 0..4 {
        g1.advance_frame(&inputs(2, 1)).unwrap();
        g2.advance_frame(&inputs(2, 1)).unwrap();
    }
    assert_eq!(g1.players, g2.players);
    assert_eq!(coords(&g1), vec![14, 6]);
}

#[test]
fn save_load_round_trip_is_identity() {
    let mut g = two_player_game();
    g.advance_frame(&inputs(2, 1)).unwrap();
    let before = g.players.clone();
    let snap = g.save_state();
    g.load_state(&snap).unwrap();
    assert_eq!(g.players, before);
}

#[test]
fn save_does_not_mutate_state() {
    let g = two_player_game();
    let snap = g.save_state();
    assert_eq!(snap.players, vec![PlayerState { y: 10 }, PlayerState { y: 10 }]);
    assert_eq!(coords(&g), vec![10, 10]);
}

#[test]
fn resimulation_replay_matches_uninterrupted_run() {
    // uninterrupted: four frames straight through
    let mut straight = two_player_game();
    let frames = [inputs(1, 2), inputs(3, 0), inputs(2, 2), inputs(1, 1)];
    for f in &frames {
        straight.advance_frame(f).unwrap();
    }

    // interrupted: snapshot after the first frame, diverge, then roll back
    // and replay the remaining frames
    let mut replayed = two_player_game();
    replayed.advance_frame(&frames[0]).unwrap();
    let snap = replayed.save_state();
    replayed.advance_frame(&inputs(2, 2)).unwrap();
    replayed.advance_frame(&inputs(2, 2)).unwrap();
    replayed.load_state(&snap).unwrap();
    for f in &frames[1..] {
        replayed.advance_frame(f).unwrap();
    }
    assert_eq!(coords(&replayed), coords(&straight));
}

#[test]
fn advance_refuses_incomplete_input_set() {
    let mut g = two_player_game();
    let partial = InputSet {
        entries: vec![PlayerInput { handle: Handle { id: 0 }, buttons: 1 }],
    };
    assert_eq!(g.advance_frame(&partial), Err(DriverError::MissingInput));
    // the state is untouched by the refused frame
    assert_eq!(coords(&g), vec![10, 10]);
    assert_eq!(g.players[0].last_input, 0);
}

#[test]
fn load_refuses_mismatched_slot_count() {
    let mut g = two_player_game();
    let snap = Snapshot { players: vec![PlayerState { y: 3 }] };
    assert_eq!(g.load_state(&snap), Err(DriverError::StateMismatch));
    assert_eq!(coords(&g), vec![10, 10]);
}

#[test]
fn advance_records_last_observed_input() {
    let mut g = two_player_game();
    g.advance_frame(&inputs(2, 1)).unwrap();
    assert_eq!(g.players[0].last_input, 2);
    assert_eq!(g.players[1].last_input, 1);
}

#[test]
fn input_lookup_takes_first_match() {
    let set = InputSet {
        entries: vec![
            PlayerInput { handle: Handle { id: 7 }, buttons: 1 },
            PlayerInput { handle: Handle { id: 7 }, buttons: 2 },
        ],
    };
    assert_eq!(set.get(Handle { id: 7 }), Some(1));
    assert_eq!(set.get(Handle { id: 8 }), None);
}

#[test]
fn pacing_directive_stalls_exactly_five_ticks() {
    let mut g = two_player_game();
    g.handle_event(&Event::TimeSync { frames_ahead: 5 });
    for _ in 0..5 {
        assert_eq!(g.plan_tick(true), TickPlan::RenderOnly);
    }
    assert_eq!(g.plan_tick(true), TickPlan::SubmitAndAdvance);
}

#[test]
fn zero_frames_ahead_means_running() {
    let mut g = two_player_game();
    g.handle_event(&Event::TimeSync { frames_ahead: 0 });
    assert_eq!(g.plan_tick(true), TickPlan::SubmitAndAdvance);
}

#[test]
fn unsynchronized_tick_advances_without_input() {
    let mut g = two_player_game();
    assert_eq!(g.plan_tick(false), TickPlan::AdvanceOnly);
}

#[test]
fn milestone_events_leave_the_driver_untouched() {
    let mut g = two_player_game();
    g.handle_event(&Event::Synchronized(Handle { id: 1 }));
    g.handle_event(&Event::Running);
    g.handle_event(&Event::Unrecognized);
    assert_eq!(coords(&g), vec![10, 10]);
    assert_eq!(g.time_sync_frames, 0);
}

#[test]
fn run_command_dispatches_in_order() {
    let mut g = two_player_game();
    let saved = g.run_command(Command::Save).unwrap().unwrap();
    assert_eq!(saved.players, vec![PlayerState { y: 10 }, PlayerState { y: 10 }]);

    assert_eq!(g.run_command(Command::AdvanceFrame(inputs(2, 2))).unwrap(), None);
    assert_eq!(coords(&g), vec![11, 11]);

    assert_eq!(g.run_command(Command::Load(saved)).unwrap(), None);
    assert_eq!(coords(&g), vec![10, 10]);

    assert_eq!(
        g.run_command(Command::Event(Event::TimeSync { frames_ahead: 2 })).unwrap(),
        None
    );
    assert_eq!(g.time_sync_frames, 2);
}

#[test]
fn run_command_surfaces_contract_violations() {
    let mut g = two_player_game();
    let short = Snapshot { players: vec![] };
    assert_eq!(g.run_command(Command::Load(short)), Err(DriverError::StateMismatch));
    let empty = InputSet { entries: vec![] };
    assert_eq!(g.run_command(Command::AdvanceFrame(empty)), Err(DriverError::MissingInput));
}

#[test]
fn registry_lookups_mirror_registration_order() {
    let g = Game::new(&vec![Handle { id: 9 }, Handle { id: 3 }]);
    assert_eq!(g.handle_for_slot(0), Some(Handle { id: 9 }));
    assert_eq!(g.handle_for_slot(1), Some(Handle { id: 3 }));
    assert_eq!(g.handle_for_slot(2), None);
    assert_eq!(g.slot_for_handle(Handle { id: 3 }), Some(1));
    assert_eq!(g.slot_for_handle(Handle { id: 9 }), Some(0));
    assert_eq!(g.slot_for_handle(Handle { id: 5 }), None);
}

#[test]
fn host_for_player_appends_port_number() {
    assert_eq!(host_for_player(0), "127.0.0.1:7000");
    assert_eq!(host_for_player(1), "127.0.0.1:7001");
    assert_eq!(host_for_player(13), "127.0.0.1:7013");
    assert_eq!(host_for_player(3000), "127.0.0.1:10000");
}

#[test]
fn players_preserve_handles_across_commands() {
    let mut g = two_player_game();
    g.advance_frame(&inputs(1, 2)).unwrap();
    let snap = g.save_state();
    g.load_state(&snap).unwrap();
    let handles: Vec<Handle> = g.players.iter().map(|p| p.handle).collect();
    assert_eq!(handles, vec![Handle { id: 0 }, Handle { id: 1 }]);
}

#[test]
fn player_state_copies_by_value() {
    let p = Player {
        handle: Handle { id: 2 },
        state: PlayerState { y: 6 },
        last_input: 0,
    };
    let q = p;
    assert_eq!(p, q);
    assert_eq!(q.state.y, 6);
}
