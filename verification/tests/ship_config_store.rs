use openfire::ship_config_store::ShipConfigStore;

#[test]
fn load_uses_the_file_when_it_parsed() {
    let store = ShipConfigStore::load_default("assets/ships/default_ship.json", Some(7u32), 1u32);
    assert_eq!(*store.get_default(), 7);
    assert_eq!(store.path(), "assets/ships/default_ship.json");
}

#[test]
fn load_falls_back_to_the_default() {
    let store: ShipConfigStore<String> =
        ShipConfigStore::load_default("missing.json", None, "Starter".to_string());
    assert_eq!(store.get_default(), "Starter");
    assert_eq!(store.path(), "missing.json");
}

#[test]
fn get_after_set_returns_what_was_set() {
    let mut store = ShipConfigStore::load_default("a.json", None, 1u32);
    store.set_default(5);
    assert_eq!(*store.get_default(), 5);
    store.set_default(9);
    assert_eq!(*store.get_default(), 9);
    assert_eq!(store.path(), "a.json");
}
