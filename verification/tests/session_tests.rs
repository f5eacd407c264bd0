use rollback_core::character::{
    CharacterCollider, CharacterControllerBundle, CharacterState, ColliderShape, MovementBundle,
};
use rollback_core::collision_masks::CollisionMask;
use rollback_core::desync::{DesyncDetector, DesyncVerdict};
use rollback_core::geometry::{StaticGeometry, StaticRect};
use rollback_core::input::{INPUT_FIRE, InputFrame};
use rollback_core::math::FxVec2;
use rollback_core::registry::WorldState;
use rollback_core::session::{AdvanceOutcome, ConfigError, SessionConfig, SessionManager};

fn character_at(x: i64, y: i64) -> CharacterState {
    let bundle = CharacterControllerBundle::new(
        ColliderShape { half_x: 4000, half_y: 6500 },
        CollisionMask::from(CharacterCollider::Player),
    );
    let movement = MovementBundle::new(7_000, 900, 7_000, 6_313, 100_000);
    CharacterState::spawn(FxVec2 { x, y }, bundle, movement)
}

fn flat_level() -> StaticGeometry {
    StaticGeometry {
        rects: vec![StaticRect {
            center: FxVec2 { x: 0, y: -5000 },
            half: ColliderShape { half_x: 1_000_000, half_y: 5000 },
        }],
    }
}

fn two_player_world() -> WorldState {
    WorldState::new(
        vec![character_at(-20_000, 6435), character_at(20_000, 6435)],
        FxVec2 { x: 0, y: -84_000 },
    )
}

fn make_session(config: SessionConfig) -> SessionManager {
    match SessionManager::new(config, two_player_world(), flat_level()) {
        Ok(s) => s,
        Err(_) => panic!("session should start"),
    }
}

#[test]
fn config_rejects_too_few_players() {
    assert_eq!(SessionConfig::new(1, 2, 8, 60), Err(ConfigError::TooFewPlayers));
    assert_eq!(SessionConfig::new(0, 0, 1, 60), Err(ConfigError::TooFewPlayers));
}

#[test]
fn config_rejects_a_zero_prediction_window() {
    assert_eq!(SessionConfig::new(2, 2, 0, 60), Err(ConfigError::InvalidPredictionWindow));
}

#[test]
fn config_rejects_an_unusable_tick_rate() {
    assert_eq!(SessionConfig::new(2, 2, 8, 0), Err(ConfigError::InvalidTickRate));
    assert_eq!(SessionConfig::new(2, 2, 8, 100_000), Err(ConfigError::InvalidTickRate));
}

#[test]
fn config_accepts_the_stock_settings() {
    let c = SessionConfig::new(2, 2, 8, 60);
    assert_eq!(
        c,
        Ok(SessionConfig { num_players: 2, input_delay: 2, prediction_window: 8, tick_rate: 60 })
    );
}

#[test]
fn session_rejects_a_player_count_mismatch() {
    let config = SessionConfig::new(3, 2, 8, 60).unwrap();
    let r = SessionManager::new(config, two_player_world(), flat_level());
    assert!(matches!(r, Err(ConfigError::PlayerCountMismatch)));
}

#[test]
fn session_stalls_after_a_full_prediction_window() {
    let config = SessionConfig::new(2, 0, 3, 60).unwrap();
    let mut s = make_session(config);
    // Peer 1 never confirms anything, so the confirmed horizon stays
    // at zero and the session may only predict three ticks ahead.
    for t in 0..3 {
        s.submit_local_input(0, 0);
        assert_eq!(s.current_tick, t);
        assert_eq!(s.advance(), AdvanceOutcome::Advanced);
    }
    assert_eq!(s.advance(), AdvanceOutcome::Stalled);
    assert_eq!(s.current_tick, 3);
    // Confirmation un-stalls it.
    s.receive_remote_input(1, 0, 0);
    assert_eq!(s.advance(), AdvanceOutcome::Advanced);
}

#[test]
fn mispredicted_input_rolls_back_and_both_peers_agree() {
    // Two peers, input delay 2, prediction window 8.  Peer 0 presses
    // jump at tick 10 (taking effect at tick 12); each peer's packets
    // reach the other three iterations late, so the receiver first
    // simulates those ticks from prediction and must roll back when
    // the confirmation lands.  After every packet has been delivered,
    // both sessions hold bit-identical state and histories.
    let config = SessionConfig::new(2, 2, 8, 60).unwrap();
    let mut a = make_session(config);
    let mut b = make_session(config);
    let mut to_a: Vec<(usize, usize, u8)> = Vec::new();
    let mut to_b: Vec<(usize, usize, u8)> = Vec::new();
    let mut jumper_rose = false;

    for step in 0..30usize {
        let ma = if a.current_tick == 10 { INPUT_FIRE } else { 0 };
        let ta = a.current_tick + 2;
        a.submit_local_input(0, ma);
        to_b.push((step + 3, ta, ma));

        let mb = 0u8;
        let tb = b.current_tick + 2;
        b.submit_local_input(1, mb);
        to_a.push((step + 3, tb, mb));

        for &(due, tick, mask) in to_a.iter() {
            if due == step {
                a.receive_remote_input(1, tick, mask);
            }
        }
        for &(due, tick, mask) in to_b.iter() {
            if due == step {
                b.receive_remote_input(0, tick, mask);
            }
        }

        assert_eq!(a.advance(), AdvanceOutcome::Advanced);
        assert_eq!(b.advance(), AdvanceOutcome::Advanced);

        if a.current_tick == 17 && a.world.characters[0].pos.y > 6500 {
            jumper_rose = true;
        }
    }

    // Deliver everything still in flight.
    for &(due, tick, mask) in to_a.iter() {
        if due >= 30 {
            a.receive_remote_input(1, tick, mask);
        }
    }
    for &(due, tick, mask) in to_b.iter() {
        if due >= 30 {
            b.receive_remote_input(0, tick, mask);
        }
    }

    // The jump actually happened on peer 0's side.
    assert!(jumper_rose);
    assert_eq!(a.current_tick, b.current_tick);
    // Bit-identical live state and checksum.
    assert_eq!(a.world.characters, b.world.characters);
    assert_eq!(a.current_checksum(), b.current_checksum());
    // Bit-identical corrected history, tick by tick.
    for t in 0..a.current_tick {
        assert_eq!(a.snapshots[t].state.characters, b.snapshots[t].state.characters);
    }
}

#[test]
fn a_disconnected_peer_freezes_to_zero_input_but_keeps_simulating() {
    // Peer 1 floats high above the level; it disconnects after tick 4
    // and from tick 5 onward contributes the all-zero disconnected
    // frame, while its character keeps falling under gravity.
    let config = SessionConfig::new(2, 0, 8, 60).unwrap();
    let mut world = two_player_world();
    world.characters[1] = character_at(200_000, 50_000);
    let mut s = match SessionManager::new(config, world, flat_level()) {
        Ok(s) => s,
        Err(_) => panic!("session should start"),
    };
    for t in 0..5 {
        s.submit_local_input(0, 0);
        s.receive_remote_input(1, t, 0);
        assert_eq!(s.advance(), AdvanceOutcome::Advanced);
    }
    s.disconnect_peer(1, 4);
    let f5 = s.buffers[1].frame_for(5);
    assert_eq!(f5, InputFrame { mask: 0, connected: false });
    let f4 = s.buffers[1].frame_for(4);
    assert_eq!(f4, InputFrame { mask: 0, connected: true });
    for _ in 0..5 {
        s.submit_local_input(0, 0);
        assert_eq!(s.advance(), AdvanceOutcome::Advanced);
    }
    assert_eq!(s.current_tick, 10);
    // Ten ticks of gravity at 84 units/s^2 and 60 ticks/s.
    assert_eq!(s.world.characters[1].vel.y, -14_000);
    assert_eq!(s.world.characters[1].pos.y, 48_720);
}

#[test]
fn prediction_repeats_the_last_confirmed_input() {
    let config = SessionConfig::new(2, 0, 8, 60).unwrap();
    let mut s = make_session(config);
    s.receive_remote_input(1, 0, INPUT_FIRE);
    // Ticks after the last confirmation predict the same mask.
    assert_eq!(s.buffers[1].frame_for(0), InputFrame { mask: INPUT_FIRE, connected: true });
    assert_eq!(s.buffers[1].frame_for(3), InputFrame { mask: INPUT_FIRE, connected: true });
    // A later confirmation takes precedence at its own tick.
    s.receive_remote_input(1, 2, 0);
    assert_eq!(s.buffers[1].frame_for(2), InputFrame { mask: 0, connected: true });
    assert_eq!(s.buffers[1].frame_for(3), InputFrame { mask: 0, connected: true });
    // A peer that never confirmed predicts all-zero.
    assert_eq!(s.buffers[0].frame_for(7), InputFrame { mask: 0, connected: true });
}

#[test]
fn desync_detector_verdicts() {
    let mut d = DesyncDetector::new(1);
    d.record_local(5, 100);
    assert_eq!(d.on_remote(5, 100), DesyncVerdict::Match);
    assert_eq!(d.on_remote(5, 101), DesyncVerdict::Desynced { tick: 5, local: 100, remote: 101 });
    assert_eq!(d.on_remote(6, 100), DesyncVerdict::Unknown);
}

#[test]
fn desync_detector_sampling_interval() {
    let d = DesyncDetector::new(3);
    assert!(d.should_sample(0));
    assert!(!d.should_sample(1));
    assert!(!d.should_sample(2));
    assert!(d.should_sample(3));
    assert!(d.should_sample(6));
}

#[test]
fn matched_histories_checksum_equal_at_every_tick() {
    // Two sessions fed identical inputs: their checksums agree at
    // every sampled tick.
    let config = SessionConfig::new(2, 1, 8, 60).unwrap();
    let mut a = make_session(config);
    let mut b = make_session(config);
    let mut da = DesyncDetector::new(1);
    for t in 0..12usize {
        a.submit_local_input(0, if t % 3 == 0 { INPUT_FIRE } else { 0 });
        b.submit_local_input(0, if t % 3 == 0 { INPUT_FIRE } else { 0 });
        a.receive_remote_input(1, t + 1, 0);
        b.receive_remote_input(1, t + 1, 0);
        assert_eq!(a.advance(), AdvanceOutcome::Advanced);
        assert_eq!(b.advance(), AdvanceOutcome::Advanced);
        if da.should_sample(t) {
            da.record_local(t, a.current_checksum());
            assert_eq!(da.on_remote(t, b.current_checksum()), DesyncVerdict::Match);
        }
    }
}

#[test]
fn session_ticks_match_direct_world_stepping() {
    // A session fed fully confirmed inputs advances its world exactly
    // as stepping the registry by hand with the same frames.
    let config = SessionConfig::new(2, 0, 8, 60).unwrap();
    let mut s = make_session(config);
    let mut w = two_player_world();
    let geom = flat_level();
    for t in 0..8usize {
        let m0 = if t % 2 == 0 { INPUT_FIRE } else { 0 };
        s.submit_local_input(0, m0);
        s.receive_remote_input(1, t, 7);
        assert_eq!(s.advance(), AdvanceOutcome::Advanced);
        let frames = vec![
            InputFrame { mask: m0, connected: true },
            InputFrame { mask: 7, connected: true },
        ];
        rollback_core::registry::step_world(&mut w, &frames, &geom, 60);
        assert_eq!(s.world.characters, w.characters);
    }
}
