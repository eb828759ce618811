use bully_chaos::game::bully::GameData;
use bully_chaos::game::mods::ammo::{give_all_ammo, remove_all_ammo, update_ammo};
use bully_chaos::game::mods::health::{get_health, heal, max_health_field, no_health, suicide, DEFAULT_MAX_HEALTH_BITS, STUNT_HEALTH_BITS};
use bully_chaos::game::mods::location::{hell_tp, next_sonar_delay, pin_axis, teleport_dorms, SONAR_START_DELAY_MS};
use bully_chaos::game::mods::money::{check_bounced, get_money, give_max_money, remove_money, spare_change, spare_change_with};
use bully_chaos::game::mods::trouble_meter::{max_trouble, remove_trouble, update_trouble};
use bully_chaos::memory::coordinates_vector::CoordinateBits;
use bully_chaos::memory::game_offsets::{get_offset, get_player_coordinates_offset, get_player_offset};
use bully_chaos::memory::memory::{GameValue, MemoryField, MemoryWrite};

fn game() -> GameData {
    GameData::from_process(77, 1, 2, 0x400000)
}

fn player(offset: usize) -> MemoryField {
    MemoryField { pointer_address: 0x400000 + 0x1CC438C, field_offset: offset }
}

fn coords(offset: usize) -> MemoryField {
    MemoryField { pointer_address: 0x400000 + 0x082AA68, field_offset: offset }
}

#[test]
fn player_pointer_offsets() {
    assert_eq!(get_player_offset(0x400000), 0x400000 + 0x1CC438C);
    assert_eq!(get_player_coordinates_offset(0x400000), 0x400000 + 0x082AA68);
    assert_eq!(get_player_offset(0), 0x1CC438C);
}

#[test]
fn get_offset_adds_to_the_pointer() {
    assert_eq!(get_offset(Some(0x1000), 0x30), Some(0x1030));
    assert_eq!(get_offset(Some(0), 0), Some(0));
    assert_eq!(get_offset(None, 0x30), None);
}

#[test]
fn game_data_from_process() {
    let data = game();
    assert_eq!(data.process_id, 77);
    assert_eq!(data.window_handle, 1);
    assert_eq!(data.handle, 2);
    assert_eq!(data.player_offset, 0x400000 + 0x1CC438C);
    assert_eq!(data.player_coordinates_offset, 0x400000 + 0x082AA68);
}

#[test]
fn money_writes() {
    let d = game();
    assert_eq!(remove_money(&d), MemoryWrite { field: player(0x1CA0), value: GameValue::Int(0) });
    assert_eq!(check_bounced(&d), MemoryWrite { field: player(0x1CA0), value: GameValue::Int(2500) });
    assert_eq!(give_max_money(&d), MemoryWrite { field: player(0x1CA0), value: GameValue::Int(100000000) });
    assert_eq!(get_money(&d), player(0x1CA0));
}

#[test]
fn spare_change_adds_to_what_was_read() {
    let d = game();
    assert_eq!(
        spare_change_with(&d, Some(500), 250),
        MemoryWrite { field: player(0x1CA0), value: GameValue::Int(750) }
    );
    assert_eq!(spare_change_with(&d, None, 250), check_bounced(&d));
    for _ in 0..100 {
        match spare_change(&d, Some(1000)) {
            Some(MemoryWrite { field, value: GameValue::Int(m) }) => {
                assert_eq!(field, player(0x1CA0));
                assert!(1001 <= m && m <= 2000);
            }
            other => panic!("unexpected {:?}", other),
        }
    }
}

#[test]
fn spare_change_without_money_read_bounces() {
    assert_eq!(spare_change(&game(), None), Some(check_bounced(&game())));
}

#[test]
fn spare_change_that_would_overflow_is_refused() {
    assert_eq!(spare_change(&game(), Some(i32::MAX)), None);
}

#[test]
fn spare_change_reaches_ten_dollars() {
    let d = game();
    let mut top_seen = false;
    for _ in 0..20000 {
        match spare_change(&d, Some(i32::MAX - 1000)) {
            Some(MemoryWrite { value: GameValue::Int(m), .. }) => {
                assert!(m > i32::MAX - 1000);
                if m == i32::MAX {
                    top_seen = true;
                }
            }
            other => panic!("unexpected {:?}", other),
        }
    }
    assert!(top_seen);
}

#[test]
fn trouble_writes() {
    let d = game();
    assert_eq!(remove_trouble(&d), MemoryWrite { field: player(0x1D40), value: GameValue::Int(0) });
    assert_eq!(max_trouble(&d), MemoryWrite { field: player(0x1D40), value: GameValue::Int(300) });
    assert_eq!(update_trouble(&d, 42), MemoryWrite { field: player(0x1D40), value: GameValue::Int(42) });
}

#[test]
fn health_writes() {
    let d = game();
    assert_eq!(no_health(&d), MemoryWrite { field: player(0x1CB8), value: GameValue::Float(1.0f32.to_bits()) });
    assert_eq!(suicide(&d), MemoryWrite { field: player(0x1CB8), value: GameValue::Float(0.0f32.to_bits()) });
    assert_eq!(
        heal(&d, 180.0f32.to_bits()),
        MemoryWrite { field: player(0x1CB8), value: GameValue::Float(180.0f32.to_bits()) }
    );
    assert_eq!(get_health(&d), player(0x1CB8));
    assert_eq!(max_health_field(&d), player(0x1CA4));
    assert_eq!(f32::from_bits(DEFAULT_MAX_HEALTH_BITS), 200.0f32);
    assert_eq!(f32::from_bits(STUNT_HEALTH_BITS), 999999.0f32);
}

#[test]
fn ammo_writes() {
    let d = game();
    let offsets = [0x378F8, 0x37A10, 0x379C0, 0x37970, 0x37A8];
    let full = give_all_ammo(&d);
    let empty = remove_all_ammo(&d);
    assert_eq!(full.len(), 5);
    assert_eq!(empty.len(), 5);
    for i in 0..5 {
        assert_eq!(full[i], MemoryWrite { field: player(offsets[i]), value: GameValue::Float(999.0f32.to_bits()) });
        assert_eq!(empty[i], MemoryWrite { field: player(offsets[i]), value: GameValue::Float(0.0f32.to_bits()) });
    }
    assert_eq!(update_ammo(&d, 5, 0x10), MemoryWrite { field: player(0x10), value: GameValue::Float(5) });
}

#[test]
fn teleport_dorms_writes_the_dorms_position() {
    let w = teleport_dorms(&game());
    assert_eq!(
        w,
        vec![
            MemoryWrite { field: coords(0x30), value: GameValue::Float(271.06076f32.to_bits()) },
            MemoryWrite { field: coords(0x34), value: GameValue::Float((-115.08667f32).to_bits()) },
            MemoryWrite { field: coords(0x38), value: GameValue::Float(11.1845984f32.to_bits()) },
        ]
    );
}

#[test]
fn hell_tp_keeps_x_and_y() {
    let here = CoordinateBits { x: 1.5f32.to_bits(), y: 2.5f32.to_bits(), z: 3.5f32.to_bits() };
    let w = hell_tp(&game(), here);
    assert_eq!(
        w,
        vec![
            MemoryWrite { field: coords(0x30), value: GameValue::Float(1.5f32.to_bits()) },
            MemoryWrite { field: coords(0x34), value: GameValue::Float(2.5f32.to_bits()) },
            MemoryWrite { field: coords(0x38), value: GameValue::Float((-50.0f32).to_bits()) },
        ]
    );
}

#[test]
fn coordinate_writes_and_fields() {
    let d = game();
    let c = CoordinateBits { x: 7, y: 8, z: 9 };
    let w = CoordinateBits::write(&d, c);
    assert_eq!(w[0], MemoryWrite { field: coords(0x30), value: GameValue::Float(7) });
    assert_eq!(w[2], MemoryWrite { field: coords(0x38), value: GameValue::Float(9) });
    assert_eq!(CoordinateBits::coordinate_field(&d, 4), coords(0x34));
    assert_eq!(CoordinateBits::empty(), CoordinateBits { x: 0, y: 0, z: 0 });
}

#[test]
fn sonar_delay_sequence() {
    let mut delays = vec![SONAR_START_DELAY_MS];
    let mut d = SONAR_START_DELAY_MS;
    for _ in 0..12 {
        d = next_sonar_delay(d);
        delays.push(d);
    }
    assert_eq!(delays, vec![100, 150, 200, 250, 300, 360, 432, 518, 621, 745, 894, 1072, 1072]);
}

#[test]
fn sonar_delay_stays_from_one_second() {
    assert_eq!(next_sonar_delay(1000), 1000);
    assert_eq!(next_sonar_delay(999), 999 + 199);
}

#[test]
fn pin_axis_restores_one_coordinate() {
    let cur = CoordinateBits { x: 1, y: 2, z: 3 };
    let start = CoordinateBits { x: 10, y: 20, z: 30 };
    assert_eq!(pin_axis(cur, start, 0), CoordinateBits { x: 10, y: 2, z: 3 });
    assert_eq!(pin_axis(cur, start, 1), CoordinateBits { x: 1, y: 20, z: 3 });
    assert_eq!(pin_axis(cur, start, 2), CoordinateBits { x: 1, y: 2, z: 30 });
}
