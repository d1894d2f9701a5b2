use pabitell::doll::{Doll, DollWorldBuilder};
use pabitell::events::{Condition, Effect, Event};
use pabitell::values::Value;

#[test]
fn narrator_is_deterministic() {
    let mut world = DollWorldBuilder::make_world();
    let doll = Doll {};
    // On one snapshot, two computations agree exactly.
    let a = doll.available_events(&world).unwrap();
    let b = doll.available_events(&world).unwrap();
    assert_eq!(a, b);
    // And still agree after the world has advanced.
    a[0].trigger(&mut world);
    let c = doll.available_events(&world).unwrap();
    let d = doll.available_events(&world).unwrap();
    assert_eq!(c, d);
    assert_ne!(a, c);
}

#[test]
fn first_offer_is_the_opening_line() {
    let world = DollWorldBuilder::make_world();
    let doll = Doll {};
    let evs = doll.available_events(&world).unwrap();
    assert_eq!(evs.len(), 1);
    assert_eq!(evs[0].name(), "talk_in_home");
    assert_eq!(evs[0].character(), "doggie");
}

#[test]
fn whole_story_plays_to_its_ending() {
    let mut world = DollWorldBuilder::make_world();
    let doll = Doll {};
    let mut steps = 0;
    loop {
        let evs = doll
            .available_events(&world)
            .expect("reached an unhandled narrative state");
        if evs.is_empty() {
            break;
        }
        assert!(evs[0].can_be_triggered(&world));
        evs[0].trigger(&mut world);
        steps += 1;
        assert!(steps < 200, "the story generates events forever");
    }
    // The designated ending: everyone home, at the final dialog line,
    // the doll found and every present laid down for her.
    assert_eq!(world.scene_dialog("home"), Some(Some(18)));
    assert_eq!(world.doggie.scene().as_deref(), Some("home"));
    assert_eq!(world.kitie.scene().as_deref(), Some("home"));
    for name in ["doll", "shovel", "bucket", "comb", "mirror"] {
        assert!(world.item_state(name).unwrap().is_unassigned());
    }
}

#[test]
fn walk_is_offered_to_both_at_line_five() {
    let mut world = DollWorldBuilder::make_world();
    let doll = Doll {};
    // Play the five opening lines.
    for _ in 0..5 {
        let evs = doll.available_events(&world).unwrap();
        evs[0].trigger(&mut world);
    }
    assert_eq!(world.scene_dialog("home"), Some(Some(5)));
    let evs = doll.available_events(&world).unwrap();
    assert_eq!(evs.len(), 2);
    assert_eq!(evs[0].character(), "doggie");
    assert_eq!(evs[1].character(), "kitie");
    assert_eq!(evs[0].name(), "move_to_walk");
    // One walker out: the other is still sent after them.
    evs[0].trigger(&mut world);
    let evs = doll.available_events(&world).unwrap();
    assert_eq!(evs.len(), 1);
    assert_eq!(evs[0].character(), "kitie");
    assert_eq!(evs[0].name(), "move_to_walk");
}

#[test]
fn uncovered_state_is_surfaced_not_swallowed() {
    let mut world = DollWorldBuilder::make_world();
    let doll = Doll {};
    // No branch of the story covers doggie alone in the kitie search
    // room, so the narrator reports the state instead of offering nothing.
    world.doggie.set_scene(Some("kitie_search".to_string()));
    world.kitie.set_scene(Some("walk".to_string()));
    assert!(doll.available_events(&world).is_none());
    world.doggie.set_scene(None);
    assert!(doll.available_events(&world).is_none());
}

fn record(entries: Vec<(&str, Value)>) -> Value {
    Value::Object(entries.into_iter().map(|(k, v)| (k.to_string(), v)).collect())
}

#[test]
fn parse_event_rebuilds_known_records() {
    let doll = Doll {};
    let talk = record(vec![
        ("name", Value::Str("talk_in_home".to_string())),
        ("character", Value::Str("doggie".to_string())),
        ("dialog", Value::Int(0)),
    ]);
    let parsed = doll.parse_event(&talk).unwrap();
    assert_eq!(
        parsed,
        Event::Talk { name: "talk_in_home", character: "doggie", scene: "home", index: 0 }
    );
    let pick = record(vec![
        ("name", Value::Str("pick".to_string())),
        ("character", Value::Str("kitie".to_string())),
        ("item", Value::Str("comb".to_string())),
    ]);
    let parsed = doll.parse_event(&pick).unwrap();
    assert_eq!(
        parsed,
        Event::Pick {
            name: "pick",
            character: "kitie",
            item: "comb",
            consume: false,
            condition: Condition::Always,
            effect: Effect::Nothing,
        }
    );
}

#[test]
fn parse_event_rejects_unknown_records() {
    let doll = Doll {};
    // Unknown event name.
    let bad = record(vec![
        ("name", Value::Str("dance".to_string())),
        ("character", Value::Str("doggie".to_string())),
    ]);
    assert!(doll.parse_event(&bad).is_none());
    // Unknown character.
    let bad = record(vec![
        ("name", Value::Str("move_to_walk".to_string())),
        ("character", Value::Str("bear".to_string())),
    ]);
    assert!(doll.parse_event(&bad).is_none());
    // Unknown item.
    let bad = record(vec![
        ("name", Value::Str("pick".to_string())),
        ("character", Value::Str("doggie".to_string())),
        ("item", Value::Str("piano".to_string())),
    ]);
    assert!(doll.parse_event(&bad).is_none());
    // Structurally invalid records.
    assert!(doll.parse_event(&Value::Null).is_none());
    let bad = record(vec![("name", Value::Int(3))]);
    assert!(doll.parse_event(&bad).is_none());
}

#[test]
fn parsed_move_replays_like_the_offered_one() {
    let mut world = DollWorldBuilder::make_world();
    let doll = Doll {};
    for _ in 0..5 {
        let evs = doll.available_events(&world).unwrap();
        evs[0].trigger(&mut world);
    }
    let offered = doll.available_events(&world).unwrap()[0];
    let rec = record(vec![
        ("name", Value::Str("move_to_walk".to_string())),
        ("character", Value::Str("doggie".to_string())),
    ]);
    let replayed = doll.parse_event(&rec).unwrap();
    assert_eq!(offered, replayed);
}
