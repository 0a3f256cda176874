use space_game_core::fixed::FX_ONE;
use space_game_core::space_craft::{ModuleDefinition, ModuleTable};

fn def(name: &str, base_mass: i64) -> ModuleDefinition {
    ModuleDefinition {
        name: String::from(name),
        categories: Vec::new(),
        base_mass,
        local_max_health: None,
        damage_multiplier: FX_ONE,
        connectors: Vec::new(),
        hard_points: Vec::new(),
        tanks: Vec::new(),
        exterior_model: None,
        exterior_colliders: Vec::new(),
        interior: None,
    }
}

#[test]
fn insert_module_accepts_new_names() {
    let mut table = ModuleTable::new();
    assert!(table.insert_module(def("hull", FX_ONE)));
    assert!(table.insert_module(def("engine", 2 * FX_ONE)));
    assert_eq!(table.len(), 2);
    assert!(table.has_name(&String::from("hull")));
    assert!(!table.has_name(&String::from("wing")));
}

#[test]
fn duplicate_name_keeps_first_and_reports_second() {
    // two definitions declare the same name: the table ends with exactly
    // one entry, the first one, and the second is reported back
    let mut table = ModuleTable::new();
    let rejected = table.load_modules(vec![def("hull", FX_ONE), def("hull", 9 * FX_ONE)]);
    assert_eq!(table.len(), 1);
    assert_eq!(table.entry_at(0).name, "hull");
    assert_eq!(table.entry_at(0).base_mass, FX_ONE);
    assert_eq!(rejected.len(), 1);
    assert_eq!(rejected[0], "hull");
}

#[test]
fn load_keeps_first_of_each_name_in_order() {
    let mut table = ModuleTable::new();
    let rejected = table.load_modules(vec![
        def("hull", FX_ONE),
        def("engine", 2 * FX_ONE),
        def("hull", 3 * FX_ONE),
        def("tank", 4 * FX_ONE),
        def("engine", 5 * FX_ONE),
    ]);
    assert_eq!(table.len(), 3);
    assert_eq!(table.entry_at(0).name, "hull");
    assert_eq!(table.entry_at(1).name, "engine");
    assert_eq!(table.entry_at(2).name, "tank");
    assert_eq!(table.entry_at(1).base_mass, 2 * FX_ONE);
    assert_eq!(rejected, vec![String::from("hull"), String::from("engine")]);
}

#[test]
fn loading_into_a_populated_table_respects_existing_names() {
    let mut table = ModuleTable::new();
    table.insert_module(def("hull", FX_ONE));
    let rejected = table.load_modules(vec![def("hull", 7 * FX_ONE), def("wing", 2 * FX_ONE)]);
    assert_eq!(table.len(), 2);
    assert_eq!(table.entry_at(0).base_mass, FX_ONE);
    assert_eq!(table.entry_at(1).name, "wing");
    assert_eq!(rejected, vec![String::from("hull")]);
}
