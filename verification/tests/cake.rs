use pabitell::cake::{
    make_disliked_pick, make_eat_meal, make_find_bad_dog, make_give, make_move_to_children_garden,
    make_move_to_children_house, make_move_to_garden, make_move_to_kitchen, make_pick,
    make_use_item, CakeWorldBuilder,
};

#[test]
fn cake_scenario_to_the_way_home() {
    let mut world = CakeWorldBuilder::make_world();
    // The start state: both characters offstage.
    assert!(world.doggie.scene().is_none());
    assert!(world.kitie.scene().is_none());
    assert!(world.item_state("sand_cake").unwrap().is_unassigned());

    // With doggie at the playground and the sand cake gone, the walk to
    // the kitchen opens and moves doggie there.
    world.doggie.set_scene(Some("playground".to_string()));
    let mv = make_move_to_kitchen("doggie");
    assert!(mv.can_be_triggered(&world));
    mv.trigger(&mut world);
    assert_eq!(world.doggie.scene().as_deref(), Some("kitchen"));

    // Picking the flour lying in the kitchen hands it to doggie.
    assert!(world.item_state("flour").unwrap().is_in_scene("kitchen"));
    let pick = make_pick("pick_flour", "doggie", "flour", false);
    assert!(pick.can_be_triggered(&world));
    pick.trigger(&mut world);
    assert!(world.item_state("flour").unwrap().is_owned_by("doggie"));

    // Eating the meat in the children's house marks it consumed.
    world.doggie.set_scene(Some("children_house".to_string()));
    world.kitie.set_scene(Some("children_house".to_string()));
    let eat = make_eat_meal("eat_meat", "doggie", "meat");
    assert!(eat.can_be_triggered(&world));
    eat.trigger(&mut world);
    assert!(world.doggie.consumed_meat);

    // Once both characters are full, the final meal sends them home.
    world.doggie.consumed_pie = true;
    world.doggie.consumed_soup = true;
    world.doggie.consumed_dumplings = true;
    world.kitie.consumed_pie = true;
    world.kitie.consumed_soup = true;
    world.kitie.consumed_meat = true;
    let last = make_eat_meal("eat_dumplings", "kitie", "dumplings");
    assert!(last.can_be_triggered(&world));
    last.trigger(&mut world);
    assert!(world.doggie.full());
    assert!(world.kitie.full());
    assert_eq!(world.doggie.scene().as_deref(), Some("way_home"));
    assert_eq!(world.kitie.scene().as_deref(), Some("way_home"));
}

#[test]
fn blocked_trigger_changes_nothing() {
    let mut world = CakeWorldBuilder::make_world();
    let before = world.dump();
    // Doggie is offstage, so the walk to the kitchen is not legal.
    let mv = make_move_to_kitchen("doggie");
    assert!(!mv.can_be_triggered(&world));
    mv.trigger(&mut world);
    assert_eq!(world.dump(), before);
}

#[test]
fn give_passes_an_owned_item() {
    let mut world = CakeWorldBuilder::make_world();
    world.doggie.set_scene(Some("kitchen".to_string()));
    world.kitie.set_scene(Some("kitchen".to_string()));
    make_pick("pick_egg", "doggie", "egg", false).trigger(&mut world);
    assert!(world.item_state("egg").unwrap().is_owned_by("doggie"));
    let give = make_give("give_egg", "doggie", "kitie", "egg", false);
    assert!(give.can_be_triggered(&world));
    give.trigger(&mut world);
    assert!(world.item_state("egg").unwrap().is_owned_by("kitie"));
}

#[test]
fn give_requires_shared_scene() {
    let mut world = CakeWorldBuilder::make_world();
    world.doggie.set_scene(Some("kitchen".to_string()));
    world.kitie.set_scene(Some("garden".to_string()));
    make_pick("pick_egg", "doggie", "egg", false).trigger(&mut world);
    let give = make_give("give_egg", "doggie", "kitie", "egg", false);
    assert!(!give.can_be_triggered(&world));
}

#[test]
fn consuming_pick_unassigns_the_item() {
    let mut world = CakeWorldBuilder::make_world();
    world.doggie.set_scene(Some("kitchen".to_string()));
    make_pick("consume_milk", "doggie", "milk", true).trigger(&mut world);
    assert!(world.item_state("milk").unwrap().is_unassigned());
}

#[test]
fn move_to_children_garden_needs_the_whole_cake() {
    let mut world = CakeWorldBuilder::make_world();
    world.doggie.set_scene(Some("kitchen".to_string()));
    let mv = make_move_to_children_garden("doggie");
    // Accepted ingredients still lie in the kitchen: the walk is closed.
    assert!(!mv.can_be_triggered(&world));
    // Pour every accepted ingredient into the cake.
    let names: Vec<&'static str> = vec![
        "flour",
        "milk",
        "egg",
        "suggar",
        "salt",
        "butter",
        "cheese",
        "bacon",
        "peanuts",
        "cucumber",
        "bones",
        "four_mice",
        "sausages",
        "whipped_cream",
        "onion",
        "chocolate",
        "sauce",
        "garlic",
        "pepper",
        "lard",
        "candy",
        "greaves",
        "cinnamon",
        "porridge",
        "cottage_cheese",
        "ginger_bread",
        "vinegar",
        "cocoa",
        "cabbadge",
        "goose_head",
        "raisins",
    ];
    for name in names {
        make_pick("into_cake", "doggie", name, true).trigger(&mut world);
    }
    // The rejected ingredients stay out, and the walk opens anyway.
    assert!(mv.can_be_triggered(&world));
    mv.trigger(&mut world);
    assert_eq!(world.doggie.scene().as_deref(), Some("children_garden"));
}

#[test]
fn disliked_pick_is_a_no_op_with_a_message() {
    let mut world = CakeWorldBuilder::make_world();
    world.doggie.set_scene(Some("kitchen".to_string()));
    let before = world.dump();
    let ev = make_disliked_pick("disliked_jam", "doggie", "jam");
    assert!(ev.can_be_triggered(&world));
    ev.trigger(&mut world);
    assert_eq!(world.dump(), before);
    assert_eq!(ev.short(&world), "doggie_and_kitie_cake-disliked_jam-short");
}

#[test]
fn use_item_needs_the_whole_party_together() {
    let mut world = CakeWorldBuilder::make_world();
    world.doggie.set_scene(Some("children_garden".to_string()));
    world.kitie.set_scene(Some("garden".to_string()));
    make_pick("pick_ball", "doggie", "ball", false).trigger(&mut world);
    let play = make_use_item("play_ball", "doggie", "ball", true);
    assert!(!play.can_be_triggered(&world));
    world.kitie.set_scene(Some("children_garden".to_string()));
    assert!(play.can_be_triggered(&world));
    play.trigger(&mut world);
    assert!(world.item_state("ball").unwrap().is_unassigned());
}

#[test]
fn bad_dog_gates_the_children_house() {
    let mut world = CakeWorldBuilder::make_world();
    world.doggie.set_scene(Some("garden".to_string()));
    let mv = make_move_to_children_house("doggie");
    assert!(!mv.can_be_triggered(&world));
    let find = make_find_bad_dog("doggie");
    // Kitie is elsewhere: the find needs the whole party in the garden.
    assert!(!find.can_be_triggered(&world));
    world.kitie.set_scene(Some("garden".to_string()));
    assert!(find.can_be_triggered(&world));
    find.trigger(&mut world);
    assert!(world.item_state("bad_dog").unwrap().is_unassigned());
    assert!(mv.can_be_triggered(&world));
}

#[test]
fn move_to_garden_needs_toys_played_into_the_cake() {
    let mut world = CakeWorldBuilder::make_world();
    world.doggie.set_scene(Some("children_garden".to_string()));
    world.kitie.set_scene(Some("children_garden".to_string()));
    let mv = make_move_to_garden("doggie");
    assert!(!mv.can_be_triggered(&world));
    for name in ["marbles", "ball", "dice"] {
        make_pick("pick_toy", "kitie", name, false).trigger(&mut world);
        make_use_item("play_toy", "kitie", name, true).trigger(&mut world);
    }
    assert!(mv.can_be_triggered(&world));
}

#[test]
fn event_texts_follow_the_key_pattern() {
    let world = CakeWorldBuilder::make_world();
    let mv = make_move_to_kitchen("doggie");
    // Doggie is offstage, so the disabled ("not OK") variant renders.
    assert_eq!(mv.long(&world), "doggie_and_kitie_cake-move_to_kitchen-nok");
    assert_eq!(mv.action_text(&world), "doggie_and_kitie_cake-move_to_kitchen-nok");
    assert_eq!(mv.short(&world), "doggie_and_kitie_cake-move_to_kitchen-short");
    let mut world = world;
    world.doggie.set_scene(Some("playground".to_string()));
    assert_eq!(mv.long(&world), "doggie_and_kitie_cake-move_to_kitchen");
}
