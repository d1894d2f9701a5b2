use pabitell::cake::{make_move_to_kitchen, make_pick, CakeWorldBuilder};
use pabitell::doll::{Doll, DollWorldBuilder};
use pabitell::values::Value;

#[test]
fn cake_world_round_trips_through_its_dump() {
    let mut world = CakeWorldBuilder::make_world();
    world.doggie.set_scene(Some("playground".to_string()));
    world.kitie.set_scene(Some("playground".to_string()));
    make_move_to_kitchen("doggie").trigger(&mut world);
    make_pick("pick_flour", "doggie", "flour", false).trigger(&mut world);
    world.doggie.consumed_soup = true;
    let dumped = world.dump();
    let mut fresh = CakeWorldBuilder::make_world();
    fresh.load(&dumped).unwrap();
    assert_eq!(fresh.dump(), dumped);
    assert_eq!(fresh.doggie.scene().as_deref(), Some("kitchen"));
    assert!(fresh.doggie.consumed_soup);
    assert!(fresh.item_state("flour").unwrap().is_owned_by("doggie"));
}

#[test]
fn doll_world_round_trips_mid_story() {
    let mut world = DollWorldBuilder::make_world();
    let doll = Doll {};
    for _ in 0..12 {
        let evs = doll.available_events(&world).unwrap();
        evs[0].trigger(&mut world);
    }
    let dumped = world.dump();
    let mut fresh = DollWorldBuilder::make_world();
    fresh.load(&dumped).unwrap();
    assert_eq!(fresh.dump(), dumped);
    // The restored world carries on exactly where the dumped one stood.
    assert_eq!(
        doll.available_events(&fresh).unwrap(),
        doll.available_events(&world).unwrap()
    );
}

fn record(entries: Vec<(&str, Value)>) -> Value {
    Value::Object(entries.into_iter().map(|(k, v)| (k.to_string(), v)).collect())
}

#[test]
fn load_rejects_a_tree_without_a_language() {
    let mut world = CakeWorldBuilder::make_world();
    let before = world.dump();
    let err = world.load(&record(vec![])).unwrap_err();
    assert_eq!(err.message(), "Wrong format of world");
    assert_eq!(world.dump(), before);
}

#[test]
fn load_rejects_an_unsupported_language() {
    let mut world = CakeWorldBuilder::make_world();
    let before = world.dump();
    let err = world
        .load(&record(vec![("lang", Value::Str("tlh".to_string()))]))
        .unwrap_err();
    assert_eq!(err.message(), "Wrong format of world");
    assert_eq!(world.dump(), before);
}

#[test]
fn load_rejects_a_malformed_character() {
    let mut world = CakeWorldBuilder::make_world();
    let before = world.dump();
    let tree = record(vec![
        ("lang", Value::Str("cs".to_string())),
        ("characters", record(vec![("doggie", Value::Bool(true))])),
    ]);
    let err = world.load(&tree).unwrap_err();
    assert_eq!(err.message(), "Wrong format of character 'doggie'");
    assert_eq!(world.dump(), before);
}

#[test]
fn load_rejects_a_missing_item_record() {
    let mut world = CakeWorldBuilder::make_world();
    let before = world.dump();
    let character = record(vec![
        ("scene", Value::Null),
        ("sand_cake_last", Value::Bool(false)),
        ("consumed_pie", Value::Bool(false)),
        ("consumed_soup", Value::Bool(false)),
        ("consumed_dumplings", Value::Bool(false)),
        ("consumed_meat", Value::Bool(false)),
    ]);
    let character2 = record(vec![
        ("scene", Value::Null),
        ("sand_cake_last", Value::Bool(false)),
        ("consumed_pie", Value::Bool(false)),
        ("consumed_soup", Value::Bool(false)),
        ("consumed_dumplings", Value::Bool(false)),
        ("consumed_meat", Value::Bool(false)),
    ]);
    let tree = record(vec![
        ("lang", Value::Str("cs".to_string())),
        ("characters", record(vec![("doggie", character), ("kitie", character2)])),
        ("items", record(vec![])),
        ("scenes", record(vec![])),
    ]);
    let err = world.load(&tree).unwrap_err();
    assert_eq!(err.message(), "Wrong format of item 'sand_cake'");
    assert_eq!(world.dump(), before);
}

#[test]
fn load_rejects_a_reference_to_an_unknown_entity() {
    let mut world = DollWorldBuilder::make_world();
    let dumped = world.dump();
    // Rebuild the dump with the doll moved to a scene nobody knows.
    let mut fresh = DollWorldBuilder::make_world();
    fresh.load(&dumped).unwrap();
    if let Some(idx) = fresh.find_item("doll") {
        fresh.items[idx].state =
            pabitell::entities::ItemState::InScene("nowhere".to_string());
    }
    let bad = fresh.dump();
    let before = world.dump();
    let err = world.load(&bad).unwrap_err();
    assert_eq!(err.message(), "Wrong format of item 'doll'");
    assert_eq!(world.dump(), before);
}

#[test]
fn load_rejects_a_character_in_an_unknown_scene() {
    let mut world = DollWorldBuilder::make_world();
    world.kitie.set_scene(Some("moon".to_string()));
    let bad = world.dump();
    let mut fresh = DollWorldBuilder::make_world();
    let before = fresh.dump();
    let err = fresh.load(&bad).unwrap_err();
    assert_eq!(err.message(), "Wrong format of character 'kitie'");
    assert_eq!(fresh.dump(), before);
}

#[test]
fn set_lang_switches_only_to_supported_codes() {
    let mut world = CakeWorldBuilder::make_world();
    let before = world.dump();
    world.set_lang("tlh");
    assert_eq!(world.dump(), before);
    world.set_lang("en-US");
    assert_ne!(world.dump(), before);
    assert_eq!(world.kitie.short(&world), "doggie_and_kitie_cake-kitie-long");
}

#[test]
fn value_lookup_finds_the_first_entry() {
    let v = record(vec![
        ("a", Value::Int(1)),
        ("b", Value::Int(2)),
        ("a", Value::Int(3)),
    ]);
    assert_eq!(v.get("a"), Some(&Value::Int(1)));
    assert_eq!(v.get("b"), Some(&Value::Int(2)));
    assert_eq!(v.get("c"), None);
    assert_eq!(Value::Null.get("a"), None);
}
