use rose_offline_client::systems::client_entity_event_system::{
    client_entity_event_actions, level_up_message_string, ClientEntityEvent, SpawnEffectData,
};
use rose_offline_client::systems::passive_recovery_system::{
    passive_recovery_tick, recovered_points, recovery_state, PassiveRecoveryState,
    MAX_DURATION_NANOS, RECOVERY_INTERVAL_NANOS,
};

#[test]
fn timer_gathers_until_interval() {
    let t = passive_recovery_tick(1_000_000_000, 3_000_000_000, false, false);
    assert_eq!(t.time, 4_000_000_000);
    assert!(t.recover.is_none());
}

#[test]
fn timer_pays_one_interval_for_recovery() {
    let t = passive_recovery_tick(3_900_000_000, 200_000_000, false, false);
    assert_eq!(t.time, 100_000_000);
    assert!(t.recover == Some(PassiveRecoveryState::Normal));
    let t = passive_recovery_tick(3_900_000_000, 200_000_000, false, true);
    assert!(t.recover == Some(PassiveRecoveryState::Sitting));
    let t = passive_recovery_tick(0, 9_000_000_000, false, true);
    assert_eq!(t.time, 5_000_000_000);
}

#[test]
fn dead_characters_do_not_recover() {
    let t = passive_recovery_tick(3_900_000_000, 200_000_000, true, true);
    assert_eq!(t.time, 100_000_000);
    assert!(t.recover.is_none());
}

#[test]
fn timer_bounded_with_short_frames() {
    let mut time: u128 = 0;
    for _ in 0..1000 {
        time = passive_recovery_tick(time, 16_666_667, false, false).time;
        assert!(time <= RECOVERY_INTERVAL_NANOS);
    }
    let t = passive_recovery_tick(MAX_DURATION_NANOS - 1, 1, false, false);
    assert_eq!(t.time, MAX_DURATION_NANOS - RECOVERY_INTERVAL_NANOS);
}

#[test]
fn recovery_states() {
    assert!(recovery_state(true) == PassiveRecoveryState::Sitting);
    assert!(recovery_state(false) == PassiveRecoveryState::Normal);
}

#[test]
fn recovery_stops_at_maximum() {
    assert_eq!(recovered_points(100, 20, 500), 120);
    assert_eq!(recovered_points(490, 20, 500), 500);
    assert_eq!(recovered_points(600, 20, 500), 500);
    assert_eq!(recovered_points(i32::MAX - 1, 1, i32::MAX), i32::MAX);
}

#[test]
fn death_spawns_npc_effect() {
    let a = client_entity_event_actions(ClientEntityEvent::Die(7), false, Some(31));
    assert!(a.chat_message.is_none());
    let s = a.spawn_effect.unwrap();
    assert_eq!(s.entity, 7);
    assert!(matches!(s.effect, SpawnEffectData::FileId(31)));
    let a = client_entity_event_actions(ClientEntityEvent::Die(7), true, None);
    assert!(a.chat_message.is_none() && a.spawn_effect.is_none());
}

#[test]
fn level_up_congratulates_player() {
    let a = client_entity_event_actions(ClientEntityEvent::LevelUp(3, Some(25)), true, None);
    assert_eq!(a.chat_message.as_deref(), Some("Congratulations! You are now level 25!"));
    let s = a.spawn_effect.unwrap();
    assert_eq!(s.entity, 3);
    match s.effect {
        SpawnEffectData::Path(p) => assert_eq!(p, "3DDATA/EFFECT/LEVELUP_01.EFT"),
        SpawnEffectData::FileId(_) => panic!("expected a path"),
    }
}

#[test]
fn level_up_of_others_only_shows_effect() {
    let a = client_entity_event_actions(ClientEntityEvent::LevelUp(4, Some(25)), false, Some(9));
    assert!(a.chat_message.is_none());
    assert!(a.spawn_effect.is_some());
    let a = client_entity_event_actions(ClientEntityEvent::LevelUp(4, None), true, None);
    assert!(a.chat_message.is_none());
    assert!(a.spawn_effect.is_some());
}

#[test]
fn level_up_message() {
    assert_eq!(level_up_message_string(1), "Congratulations! You are now level 1!");
    assert_eq!(level_up_message_string(210), "Congratulations! You are now level 210!");
}
