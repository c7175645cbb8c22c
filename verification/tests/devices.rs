use estufa::components::devices::{actuator_by_id, actuators, name_by_id, sensor_by_id, sensors};

#[test]
fn sensor_and_actuator_ids_dont_overlap() {
    for s in sensors() {
        assert!(actuator_by_id(s.id).is_none(), "id {} é sensor e atuador", s.id);
    }
}

#[test]
fn all_ids_are_unique() {
    let mut ids: Vec<u8> = sensors().iter().map(|s| s.id).collect();
    ids.extend(actuators().iter().map(|a| a.id));
    let total = ids.len();
    ids.sort_unstable();
    ids.dedup();
    assert_eq!(ids.len(), total, "tem id repetido no registro");
}

#[test]
fn lookup_finds_and_misses_correctly() {
    assert_eq!(sensor_by_id(0).unwrap().name, "temperatura");
    assert_eq!(actuator_by_id(3).unwrap().name, "aquecedor");
    assert!(sensor_by_id(99).is_none());
    assert!(actuator_by_id(0).is_none());
}

#[test]
fn name_by_id_covers_both_types_and_unknown() {
    assert_eq!(name_by_id(1), "umidade");
    assert_eq!(name_by_id(5), "irrigador");
    assert_eq!(name_by_id(200), "desconhecido");
}

#[test]
fn registry_contents() {
    let s: Vec<(u8, &str, &str)> = sensors().iter().map(|d| (d.id, d.name, d.file)).collect();
    assert_eq!(
        s,
        vec![
            (0, "temperatura", "src/env_vars/temp.txt"),
            (1, "umidade", "src/env_vars/hum.txt"),
            (2, "co2", "src/env_vars/co2.txt"),
        ]
    );
    let a: Vec<(u8, &str, &str)> = actuators().iter().map(|d| (d.id, d.name, d.file)).collect();
    assert_eq!(
        a,
        vec![
            (3, "aquecedor", "src/env_vars/temp.txt"),
            (4, "resfriador", "src/env_vars/temp.txt"),
            (5, "irrigador", "src/env_vars/hum.txt"),
            (6, "injetor de co2", "src/env_vars/co2.txt"),
        ]
    );
}

#[test]
fn lookup_by_own_id() {
    for s in sensors() {
        assert_eq!(sensor_by_id(s.id).unwrap().file, s.file);
        assert_eq!(name_by_id(s.id), s.name);
    }
    for a in actuators() {
        assert_eq!(actuator_by_id(a.id).unwrap().file, a.file);
        assert_eq!(name_by_id(a.id), a.name);
    }
    assert_eq!(name_by_id(7), "desconhecido");
}
