use bully_chaos::game::bully::GameData;
use bully_chaos::game::events::ChaosEvents;
use bully_chaos::memory::coordinates_vector::CoordinateBits;
use bully_chaos::memory::memory::{GameValue, MemoryField, MemoryWrite};

fn sample_game() -> GameData {
    GameData::from_process(4242, 11, 22, 0x400000)
}

#[test]
fn as_str_names_events() {
    assert_eq!(ChaosEvents::Nothing.as_str(), "Nothing ever happens");
    assert_eq!(ChaosEvents::RandomEvent.as_str(), "Random event");
    assert_eq!(ChaosEvents::NoHealth.as_str(), "I need a doctor (1hp)");
    assert_eq!(ChaosEvents::Speed.as_str(), "Supa Sprinter (10-15 seconds)");
    assert_eq!(ChaosEvents::HellTp.as_str(), "Mole POV (Suicide)");
    assert_eq!(ChaosEvents::MinimizeGame.as_str(), "Minimize game");
}

#[test]
fn event_names_are_distinct() {
    let all = ChaosEvents::all();
    for i in 0..all.len() {
        for j in (i + 1)..all.len() {
            assert_ne!(all[i].as_str(), all[j].as_str());
        }
    }
}

#[test]
fn all_lists_every_event_once_in_order() {
    let all = ChaosEvents::all();
    assert_eq!(all.len(), 31);
    assert_eq!(all[0], ChaosEvents::Nothing);
    assert_eq!(all[2], ChaosEvents::RandomEvent);
    assert_eq!(all[30], ChaosEvents::MinimizeGame);
    for i in 0..all.len() {
        for j in (i + 1)..all.len() {
            assert_ne!(all[i], all[j]);
        }
    }
}

#[test]
fn selectable_leaves_out_random_event() {
    let events = ChaosEvents::selectable();
    assert_eq!(events.len(), 30);
    assert!(!events.contains(&ChaosEvents::RandomEvent));
    assert_eq!(events[0], ChaosEvents::Nothing);
    assert_eq!(events[1], ChaosEvents::Nothing1Min);
    assert_eq!(events[2], ChaosEvents::RemoveMoney);
}

#[test]
fn get_events_offers_three_distinct_events_and_random_event() {
    for _ in 0..200 {
        let events = ChaosEvents::get_events();
        assert_eq!(events.len(), 4);
        assert_eq!(events[3], ChaosEvents::RandomEvent);
        for i in 0..3 {
            assert_ne!(events[i], ChaosEvents::RandomEvent);
            for j in (i + 1)..3 {
                assert_ne!(events[i], events[j]);
            }
        }
    }
}

#[test]
fn get_events_varies_between_rounds() {
    let first = ChaosEvents::get_events();
    let mut varied = false;
    for _ in 0..50 {
        if ChaosEvents::get_events() != first {
            varied = true;
        }
    }
    assert!(varied);
}

#[test]
fn rand_vec_picks_from_the_given_events() {
    let events = vec![ChaosEvents::Heal, ChaosEvents::Freeze];
    let mut seen_heal = false;
    let mut seen_freeze = false;
    for _ in 0..200 {
        let e = ChaosEvents::rand_vec(&events);
        assert!(events.contains(&e));
        if e == ChaosEvents::Heal {
            seen_heal = true;
        } else {
            seen_freeze = true;
        }
    }
    assert!(seen_heal && seen_freeze);
}

#[test]
fn rand_vec_of_one_event_gives_it() {
    assert_eq!(ChaosEvents::rand_vec(&vec![ChaosEvents::SkyTp]), ChaosEvents::SkyTp);
}

#[test]
fn rand_gives_some_event() {
    let all = ChaosEvents::all();
    for _ in 0..50 {
        assert!(all.contains(&ChaosEvents::rand()));
    }
}

#[test]
fn random_substitute_is_never_random_event() {
    for _ in 0..300 {
        assert_ne!(ChaosEvents::random_substitute(), ChaosEvents::RandomEvent);
    }
}

#[test]
fn instant_writes_of_money_and_health_events() {
    let data = sample_game();
    let money = MemoryField { pointer_address: data.player_offset, field_offset: 0x1CA0 };
    let health = MemoryField { pointer_address: data.player_offset, field_offset: 0x1CB8 };
    assert_eq!(
        ChaosEvents::RemoveMoney.instant_writes(&data),
        Some(vec![MemoryWrite { field: money, value: GameValue::Int(0) }])
    );
    assert_eq!(
        ChaosEvents::MaxMoney.instant_writes(&data),
        Some(vec![MemoryWrite { field: money, value: GameValue::Int(100000000) }])
    );
    assert_eq!(
        ChaosEvents::NoHealth.instant_writes(&data),
        Some(vec![MemoryWrite { field: health, value: GameValue::Float(1.0f32.to_bits()) }])
    );
    assert_eq!(
        ChaosEvents::Suicide.instant_writes(&data),
        Some(vec![MemoryWrite { field: health, value: GameValue::Float(0.0f32.to_bits()) }])
    );
}

#[test]
fn instant_writes_of_ammo_trouble_and_dorms() {
    let data = sample_game();
    assert_eq!(ChaosEvents::GiveAllAmmo.instant_writes(&data).unwrap().len(), 5);
    assert_eq!(ChaosEvents::RemoveAllAmmo.instant_writes(&data).unwrap().len(), 5);
    assert_eq!(ChaosEvents::HomeSweetHome.instant_writes(&data).unwrap().len(), 3);
    assert_eq!(
        ChaosEvents::RemoveWanted.instant_writes(&data),
        Some(vec![MemoryWrite {
            field: MemoryField { pointer_address: data.player_offset, field_offset: 0x1D40 },
            value: GameValue::Int(0),
        }])
    );
}

#[test]
fn instant_writes_none_for_other_events() {
    let data = sample_game();
    for e in [
        ChaosEvents::Nothing,
        ChaosEvents::RandomEvent,
        ChaosEvents::Heal,
        ChaosEvents::Invincibility,
        ChaosEvents::SkyTp,
        ChaosEvents::FakeCrash,
        ChaosEvents::MinimizeGame,
    ] {
        assert_eq!(e.instant_writes(&data), None);
    }
}

#[test]
fn options_from_draws_takes_each_draw_from_what_is_left() {
    assert_eq!(
        ChaosEvents::options_from_draws(0, 0, 0),
        vec![ChaosEvents::Nothing, ChaosEvents::Nothing1Min, ChaosEvents::RemoveMoney, ChaosEvents::RandomEvent]
    );
    assert_eq!(
        ChaosEvents::options_from_draws(1, 0, 0),
        vec![ChaosEvents::Nothing1Min, ChaosEvents::Nothing, ChaosEvents::RemoveMoney, ChaosEvents::RandomEvent]
    );
    assert_eq!(
        ChaosEvents::options_from_draws(29, 28, 27),
        vec![ChaosEvents::MinimizeGame, ChaosEvents::RealCrash, ChaosEvents::FakeCrash, ChaosEvents::RandomEvent]
    );
    assert_eq!(
        ChaosEvents::options_from_draws(2, 2, 2),
        vec![ChaosEvents::RemoveMoney, ChaosEvents::MaxMoney, ChaosEvents::Invincibility, ChaosEvents::RandomEvent]
    );
}

#[test]
fn writes_given_reads_for_heal_and_hell() {
    let data = sample_game();
    let pos = CoordinateBits { x: 1, y: 2, z: 3 };
    let max = 150.0f32.to_bits();
    assert_eq!(
        ChaosEvents::Heal.writes_given_reads(&data, max, pos),
        Some(vec![MemoryWrite {
            field: MemoryField { pointer_address: data.player_offset, field_offset: 0x1CB8 },
            value: GameValue::Float(max),
        }])
    );
    assert_eq!(
        ChaosEvents::HellTp.writes_given_reads(&data, max, pos),
        Some(bully_chaos::game::mods::location::hell_tp(&data, pos))
    );
    assert_eq!(
        ChaosEvents::RemoveMoney.writes_given_reads(&data, max, pos),
        ChaosEvents::RemoveMoney.instant_writes(&data)
    );
    assert_eq!(ChaosEvents::SkyTp.writes_given_reads(&data, max, pos), None);
}
