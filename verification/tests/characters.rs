use pabitell::cake::CakeWorldBuilder;

#[test]
fn kitie() {
    let world = CakeWorldBuilder::make_world();
    let kitie = &world.kitie;
    assert_eq!(kitie.short(&world), "Kočička");
    assert_eq!(kitie.long(&world), "Kočička");
}

#[test]
fn doggie() {
    let world = CakeWorldBuilder::make_world();
    let doggie = &world.doggie;
    assert_eq!(doggie.short(&world), "Pejsek");
    assert_eq!(doggie.long(&world), "Pejsek");
}

#[test]
fn full_needs_every_meal() {
    let mut world = CakeWorldBuilder::make_world();
    assert!(!world.doggie.full());
    world.doggie.consumed_pie = true;
    world.doggie.consumed_soup = true;
    world.doggie.consumed_dumplings = true;
    assert!(!world.doggie.full());
    world.doggie.consumed_meat = true;
    assert!(world.doggie.full());
}

#[test]
fn character_names_and_tags() {
    let world = CakeWorldBuilder::make_world();
    assert_eq!(world.doggie.name(), "doggie");
    assert_eq!(world.kitie.name(), "kitie");
    assert_eq!(world.doggie.get_tags(), vec!["cat".to_string()]);
    assert_eq!(world.kitie.get_tags(), vec!["cat".to_string()]);
}

#[test]
fn unknown_message_renders_as_its_key() {
    assert_eq!(
        pabitell::translations::get_message("doggie_and_kitie_cake-kitie-short", "cs"),
        "Kočička"
    );
    assert_eq!(
        pabitell::translations::get_message("doggie_and_kitie_cake-kitie-short", "en-US"),
        "doggie_and_kitie_cake-kitie-short"
    );
    assert_eq!(pabitell::translations::get_message("no-such-key", "cs"), "no-such-key");
}
