//! The doll story: doggie and kitie talk at home, find a doll on a walk,
//! search their rooms for presents and lay them down for her.  This module
//! holds the story's catalog, its builder and its narrator.

use vstd::prelude::*;

use crate::characters::{CharacterModel, Doggie, Kitie};
use crate::entities::{item_model, Item, ItemModel, ItemState, ItemStateModel, Scene, SceneModel};
use crate::events::{
    event_model, ConditionModel, Condition, EffectModel, Effect, Event, EventModel,
};
use crate::world::{world_model, World, WorldModel};

verus! {

/// A character standing at home with nothing consumed; the doll story
/// never touches the meal flags.
pub open spec fn at_home() -> CharacterModel {
    CharacterModel {
        scene: Some("home"@),
        sand_cake_last: false,
        consumed_pie: false,
        consumed_soup: false,
        consumed_dumplings: false,
        consumed_meat: false,
    }
}

/// A present one character will search out and lay down for the doll.
pub open spec fn present_m(name: Seq<char>, whose: Seq<char>, where_: Seq<char>) -> ItemModel {
    ItemModel {
        name,
        tags: seq![whose, "pick"@],
        state: ItemStateModel::InScene(where_),
    }
}

/// The item catalog of the doll story, in its fixed order.
pub open spec fn doll_initial_items() -> Seq<ItemModel> {
    seq![
        ItemModel {
            name: "doll"@,
            tags: seq!["doll"@],
            state: ItemStateModel::InScene("walk"@),
        },
        present_m("shovel"@, "doggie_pick"@, "doggie_search"@),
        present_m("bucket"@, "doggie_pick"@, "doggie_search"@),
        present_m("comb"@, "kitie_pick"@, "kitie_search"@),
        present_m("mirror"@, "kitie_pick"@, "kitie_search"@),
    ]
}

/// The scenes of the doll story: the two dialog scenes start at their
/// first line, the two search rooms carry no script.
pub open spec fn doll_initial_scenes() -> Seq<SceneModel> {
    seq![
        SceneModel { name: "home"@, dialog: Some(0u64) },
        SceneModel { name: "walk"@, dialog: Some(0u64) },
        SceneModel { name: "doggie_search"@, dialog: None },
        SceneModel { name: "kitie_search"@, dialog: None },
    ]
}

/// The initial world of the doll story.
pub open spec fn doll_initial_world() -> WorldModel {
    WorldModel {
        story: "doggie_and_kitie_doll"@,
        doggie: at_home(),
        kitie: at_home(),
        items: doll_initial_items(),
        scenes: doll_initial_scenes(),
        lang: "cs"@,
        languages: seq!["cs"@, "en-US"@],
    }
}

fn present(name: &'static str, whose: &'static str, where_: &'static str) -> (r: Item)
    ensures
        item_model(r) == present_m(name@, whose@, where_@),
{
    let tags = vec![whose, "pick"];
    proof {
        assert(crate::entities::tags_view(tags) =~= seq![whose@, "pick"@]);
    }
    Item::new(name, tags, ItemState::InScene(where_.to_owned()))
}

/// Builds the doll story's world.
pub struct DollWorldBuilder {}

impl DollWorldBuilder {
    /// The complete initial world of the doll story.
    pub fn make_world() -> (r: World)
        ensures
            world_model(r) == doll_initial_world(),
            world_model(r).wf(),
    {
        let doggie = Doggie {
            scene: Some("home".to_owned()),
            sand_cake_last: false,
            consumed_pie: false,
            consumed_soup: false,
            consumed_dumplings: false,
            consumed_meat: false,
        };
        let kitie = Kitie {
            scene: Some("home".to_owned()),
            sand_cake_last: false,
            consumed_pie: false,
            consumed_soup: false,
            consumed_dumplings: false,
            consumed_meat: false,
        };
        let mut items: Vec<Item> = Vec::new();
        let doll_tags = vec!["doll"];
        proof {
            assert(crate::entities::tags_view(doll_tags) =~= seq!["doll"@]);
        }
        items.push(Item::new("doll", doll_tags, ItemState::InScene("walk".to_owned())));
        items.push(present("shovel", "doggie_pick", "doggie_search"));
        items.push(present("bucket", "doggie_pick", "doggie_search"));
        items.push(present("comb", "kitie_pick", "kitie_search"));
        items.push(present("mirror", "kitie_pick", "kitie_search"));
        let mut scenes: Vec<Scene> = Vec::new();
        scenes.push(Scene { name: "home", dialog: Some(0) });
        scenes.push(Scene { name: "walk", dialog: Some(0) });
        scenes.push(Scene { name: "doggie_search", dialog: None });
        scenes.push(Scene { name: "kitie_search", dialog: None });
        let languages = vec!["cs".to_owned(), "en-US".to_owned()];
        let r = World {
            story: "doggie_and_kitie_doll",
            doggie,
            kitie,
            items,
            scenes,
            lang: "cs".to_owned(),
            languages,
        };
        proof {
            assert(world_model(r).items =~= doll_initial_items());
            assert(world_model(r).scenes =~= doll_initial_scenes());
            assert(world_model(r).languages =~= seq!["cs"@, "en-US"@]);
            assert(world_model(r) == doll_initial_world());
            lemma_doll_initial_world_wf();
        }
        r
    }
}

/// The doll story's initial world satisfies the world invariant.
pub proof fn lemma_doll_initial_world_wf()
    ensures
        doll_initial_world().wf(),
{
    let w = doll_initial_world();
    reveal_with_fuel(crate::world::lookup_scene, 5);
    assert(w.has_scene("home"@));
    assert(w.has_scene("walk"@));
    assert(w.has_scene("doggie_search"@));
    assert(w.has_scene("kitie_search"@));
    assert forall|i: int| 0 <= i < w.items.len() implies match #[trigger] w.items[i].state {
        ItemStateModel::Unassigned => true,
        ItemStateModel::Owned(c) => w.character(c) is Some,
        ItemStateModel::InScene(s) => w.has_scene(s),
    } by {
    }
}

} // verus!

// ---------------------------------------------------------------------------
// The doll story's events and its narrator.
// ---------------------------------------------------------------------------

verus! {

pub open spec fn talk_home_m(character: Seq<char>, i: u64) -> EventModel {
    EventModel::Talk { name: "talk_in_home"@, character, scene: "home"@, index: i }
}

pub open spec fn talk_walk_m(character: Seq<char>, i: u64) -> EventModel {
    EventModel::Talk { name: "talk_on_walk"@, character, scene: "walk"@, index: i }
}

pub open spec fn move_m(
    name: Seq<char>,
    character: Seq<char>,
    from_scene: Seq<char>,
    to_scene: Seq<char>,
    gate: Option<u64>,
    advance: bool,
) -> EventModel {
    EventModel::Move {
        name,
        character,
        from_scene,
        to_scene,
        condition: match gate {
            Some(d) => ConditionModel::SceneDialogAt(from_scene, d),
            None => ConditionModel::Always,
        },
        effect: if advance {
            EffectModel::AdvanceDialogWhenAllIn(to_scene)
        } else {
            EffectModel::Nothing
        },
    }
}

pub open spec fn pick_m(character: Seq<char>, item: Seq<char>) -> EventModel {
    EventModel::Pick {
        name: "pick"@,
        character,
        item,
        consume: false,
        condition: ConditionModel::Always,
        effect: EffectModel::Nothing,
    }
}

/// Finding the doll takes her into the story (the item is consumed) and
/// carries the walk's dialog past the discovery.
pub open spec fn find_doll_m(character: Seq<char>) -> EventModel {
    EventModel::Pick {
        name: "found_doll"@,
        character,
        item: "doll"@,
        consume: true,
        condition: ConditionModel::Always,
        effect: EffectModel::AdvanceSceneDialog("walk"@),
    }
}

/// Laying a present down consumes it; once no present is left in any
/// paw, the home dialog moves on to its final line.
pub open spec fn lay_down_m(character: Seq<char>, item: Seq<char>) -> EventModel {
    EventModel::UseItem {
        name: "lay_down"@,
        character,
        item,
        consume: true,
        condition: ConditionModel::Always,
        effect: EffectModel::AdvanceDialogWhenTagDone("home"@, "pick"@),
    }
}

/// One pick event per item carrying `tag` that lies in `scene`, in
/// catalog order.
pub open spec fn pick_events_m(
    items: Seq<ItemModel>,
    character: Seq<char>,
    tag: Seq<char>,
    scene: Seq<char>,
) -> Seq<EventModel>
    decreases items.len(),
{
    if items.len() == 0 {
        Seq::empty()
    } else {
        pick_events_m(items.drop_last(), character, tag, scene) + (if items.last().has_tag(tag)
            && items.last().state == ItemStateModel::InScene(scene) {
            seq![pick_m(character, items.last().name)]
        } else {
            Seq::empty()
        })
    }
}

/// One lay-down event per item carrying `tag` that `character` holds, in
/// catalog order.
pub open spec fn lay_down_events_m(
    items: Seq<ItemModel>,
    character: Seq<char>,
    tag: Seq<char>,
) -> Seq<EventModel>
    decreases items.len(),
{
    if items.len() == 0 {
        Seq::empty()
    } else {
        lay_down_events_m(items.drop_last(), character, tag) + (if items.last().has_tag(tag)
            && items.last().state == ItemStateModel::Owned(character) {
            seq![lay_down_m(character, items.last().name)]
        } else {
            Seq::empty()
        })
    }
}

/// The doll has been found and taken into the story.
pub open spec fn doll_taken(w: WorldModel) -> bool {
    w.item("doll"@) matches Some(it) && it.state is Unassigned
}

/// The events offered while both characters sit at home, by the home
/// dialog cursor.
pub open spec fn doll_home_branch(w: WorldModel, h: u64) -> Option<Seq<EventModel>> {
    if h == 0 {
        Some(seq![talk_home_m("doggie"@, 0)])
    } else if h == 1 {
        Some(seq![talk_home_m("kitie"@, 1)])
    } else if h == 2 {
        Some(seq![talk_home_m("doggie"@, 2)])
    } else if h == 3 {
        Some(seq![talk_home_m("kitie"@, 3)])
    } else if h == 4 {
        Some(seq![talk_home_m("doggie"@, 4)])
    } else if h == 5 {
        Some(
            seq![
                move_m("move_to_walk"@, "doggie"@, "home"@, "walk"@, Some(5u64), false),
                move_m("move_to_walk"@, "kitie"@, "home"@, "walk"@, Some(5u64), false),
            ],
        )
    } else if h == 6 {
        Some(seq![talk_home_m("kitie"@, 6)])
    } else if h == 7 {
        Some(seq![talk_home_m("doggie"@, 7)])
    } else if h == 8 {
        Some(seq![talk_home_m("kitie"@, 8)])
    } else if h == 9 {
        Some(seq![talk_home_m("doggie"@, 9)])
    } else if h == 10 {
        Some(seq![talk_home_m("kitie"@, 10)])
    } else if h == 11 {
        Some(seq![talk_home_m("doggie"@, 11)])
    } else if h == 12 {
        Some(seq![talk_home_m("kitie"@, 12)])
    } else if h == 13 {
        Some(seq![talk_home_m("doggie"@, 13)])
    } else if h == 14 {
        Some(seq![talk_home_m("kitie"@, 14)])
    } else if h == 15 {
        Some(
            seq![
                move_m(
                    "move_to_doggie_search"@,
                    "doggie"@,
                    "home"@,
                    "doggie_search"@,
                    Some(15u64),
                    false,
                ),
            ],
        )
    } else if h == 16 {
        Some(
            seq![
                move_m(
                    "move_to_kitie_search"@,
                    "kitie"@,
                    "home"@,
                    "kitie_search"@,
                    Some(16u64),
                    false,
                ),
            ],
        )
    } else if h == 17 {
        Some(
            lay_down_events_m(w.items, "doggie"@, "doggie_pick"@) + lay_down_events_m(
                w.items,
                "kitie"@,
                "kitie_pick"@,
            ),
        )
    } else if h == 18 {
        Some(Seq::empty())
    } else {
        None
    }
}

/// The events offered while both characters are out on the walk, by the
/// walk dialog cursor.
pub open spec fn doll_walk_branch(w: WorldModel, d: u64) -> Option<Seq<EventModel>> {
    if d == 0 {
        Some(seq![talk_walk_m("doggie"@, 0)])
    } else if d == 1 {
        Some(seq![talk_walk_m("kitie"@, 1)])
    } else if d == 2 {
        Some(seq![talk_walk_m("doggie"@, 2)])
    } else if d == 3 {
        Some(seq![talk_walk_m("kitie"@, 3)])
    } else if d == 4 {
        Some(seq![find_doll_m("kitie"@), find_doll_m("doggie"@)])
    } else if d == 5 {
        Some(seq![talk_walk_m("doggie"@, 5)])
    } else if d == 6 {
        Some(seq![talk_walk_m("doggie"@, 6)])
    } else if d == 7 {
        Some(
            seq![
                move_m("move_back_home"@, "doggie"@, "walk"@, "home"@, Some(7u64), true),
                move_m("move_back_home"@, "kitie"@, "walk"@, "home"@, Some(7u64), true),
            ],
        )
    } else {
        None
    }
}

/// The search branch for one character: pick what is still to be found,
/// or head back home with everything gathered.
pub open spec fn doll_search_branch(
    w: WorldModel,
    character: Seq<char>,
    tag: Seq<char>,
    scene: Seq<char>,
) -> Option<Seq<EventModel>> {
    let picks = pick_events_m(w.items, character, tag, scene);
    if picks.len() == 0 {
        Some(seq![move_m("move_back_home"@, character, scene, "home"@, None, true)])
    } else {
        Some(picks)
    }
}

/// The narrator's transition table: which events the doll story offers in
/// a given world.  `None` is an unhandled narrative state - a content
/// defect surfaced loudly rather than an empty offer.
pub open spec fn doll_available(w: WorldModel) -> Option<Seq<EventModel>> {
    match (w.doggie.scene, w.kitie.scene) {
        (Some(d), Some(k)) => {
            if d == "home"@ && k == "home"@ {
                match w.scene("home"@) {
                    Some(sc) => match sc.dialog {
                        Some(h) => doll_home_branch(w, h),
                        None => None,
                    },
                    None => None,
                }
            } else if d == "walk"@ && k == "home"@ {
                if doll_taken(w) {
                    Some(
                        seq![
                            move_m("move_back_home"@, "doggie"@, "walk"@, "home"@, Some(7u64), true),
                        ],
                    )
                } else {
                    Some(
                        seq![move_m("move_to_walk"@, "kitie"@, "home"@, "walk"@, Some(5u64), false)],
                    )
                }
            } else if d == "home"@ && k == "walk"@ {
                if doll_taken(w) {
                    Some(
                        seq![
                            move_m("move_back_home"@, "kitie"@, "walk"@, "home"@, Some(7u64), true),
                        ],
                    )
                } else {
                    Some(
                        seq![
                            move_m("move_to_walk"@, "doggie"@, "home"@, "walk"@, Some(5u64), false),
                        ],
                    )
                }
            } else if d == "walk"@ && k == "walk"@ {
                match w.scene("walk"@) {
                    Some(sc) => match sc.dialog {
                        Some(wd) => doll_walk_branch(w, wd),
                        None => None,
                    },
                    None => None,
                }
            } else if d == "doggie_search"@ {
                doll_search_branch(w, "doggie"@, "doggie_pick"@, "doggie_search"@)
            } else if k == "kitie_search"@ {
                doll_search_branch(w, "kitie"@, "kitie_pick"@, "kitie_search"@)
            } else {
                None
            }
        },
        _ => None,
    }
}

} // verus!

// ---------------------------------------------------------------------------
// The executable narrator.
// ---------------------------------------------------------------------------

verus! {

fn pick_events(world: &World, character: &'static str, tag: &'static str, scene: &'static str)
    -> (r: Vec<Event>)
    ensures
        r@.map_values(|e: Event| event_model(e)) == pick_events_m(
            world_model(*world).items,
            character@,
            tag@,
            scene@,
        ),
{
    let ghost m = world_model(*world).items;
    let mut out: Vec<Event> = Vec::new();
    proof {
        assert(m.take(0) =~= Seq::empty());
        assert(out@.map_values(|e: Event| event_model(e)) =~= pick_events_m(
            m.take(0),
            character@,
            tag@,
            scene@,
        ));
    }
    let mut i: usize = 0;
    while i < world.items.len()
        invariant
            i <= world.items@.len(),
            m == world_model(*world).items,
            m.len() == world.items@.len(),
            forall|j: int|
                0 <= j < m.len() ==> m[j] == crate::entities::item_model(world.items@[j]),
            out@.map_values(|e: Event| event_model(e)) == pick_events_m(
                m.take(i as int),
                character@,
                tag@,
                scene@,
            ),
        decreases world.items@.len() - i,
    {
        let ghost out0 = out@;
        if world.items[i].has_tag(tag) && world.items[i].state.is_in_scene(scene) {
            out.push(
                Event::Pick {
                    name: "pick",
                    character,
                    item: world.items[i].name,
                    consume: false,
                    condition: Condition::Always,
                    effect: Effect::Nothing,
                },
            );
        }
        proof {
            assert(m.take(i + 1).drop_last() =~= m.take(i as int));
            assert(m.take(i + 1).last() == m[i as int]);
            assert(out@.map_values(|e: Event| event_model(e)) =~= pick_events_m(
                m.take(i + 1),
                character@,
                tag@,
                scene@,
            ));
        }
        i = i + 1;
    }
    proof {
        assert(m.take(m.len() as int) =~= m);
    }
    out
}

fn lay_down_events(world: &World, character: &'static str, tag: &'static str, out: &mut Vec<Event>)
    ensures
        final(out)@.map_values(|e: Event| event_model(e)) == old(out)@.map_values(
            |e: Event| event_model(e),
        ) + lay_down_events_m(world_model(*world).items, character@, tag@),
{
    let ghost m = world_model(*world).items;
    let ghost base = out@.map_values(|e: Event| event_model(e));
    proof {
        assert(m.take(0) =~= Seq::empty());
        assert(base + lay_down_events_m(m.take(0), character@, tag@) =~= base);
    }
    let mut i: usize = 0;
    while i < world.items.len()
        invariant
            i <= world.items@.len(),
            m == world_model(*world).items,
            m.len() == world.items@.len(),
            forall|j: int|
                0 <= j < m.len() ==> m[j] == crate::entities::item_model(world.items@[j]),
            out@.map_values(|e: Event| event_model(e)) == base + lay_down_events_m(
                m.take(i as int),
                character@,
                tag@,
            ),
        decreases world.items@.len() - i,
    {
        let ghost out0 = out@;
        proof {
            assert(m.take(i + 1).drop_last() =~= m.take(i as int));
            assert(m.take(i + 1).last() == m[i as int]);
        }
        if world.items[i].has_tag(tag) && world.items[i].state.is_owned_by(character) {
            let ev = Event::UseItem {
                name: "lay_down",
                character,
                item: world.items[i].name,
                consume: true,
                condition: Condition::Always,
                effect: Effect::AdvanceDialogWhenTagDone("home", "pick"),
            };
            out.push(ev);
            proof {
                assert(event_model(ev) == lay_down_m(character@, m[i as int].name));
                assert(out@.map_values(|e: Event| event_model(e)) =~= out0.map_values(
                    |e: Event| event_model(e),
                ) + seq![event_model(ev)]);
                assert(lay_down_events_m(m.take(i + 1), character@, tag@)
                    == lay_down_events_m(m.take(i as int), character@, tag@) + seq![
                    lay_down_m(character@, m[i as int].name),
                ]);
                assert(out@.map_values(|e: Event| event_model(e)) =~= base + lay_down_events_m(
                    m.take(i + 1),
                    character@,
                    tag@,
                ));
            }
        } else {
            proof {
                assert(lay_down_events_m(m.take(i + 1), character@, tag@) =~= lay_down_events_m(
                    m.take(i as int),
                    character@,
                    tag@,
                ));
            }
        }
        i = i + 1;
    }
    proof {
        assert(m.take(m.len() as int) =~= m);
    }
}

fn doll_move(
    name: &'static str,
    character: &'static str,
    from_scene: &'static str,
    to_scene: &'static str,
    gate: Option<u64>,
    advance: bool,
) -> (r: Event)
    ensures
        event_model(r) == move_m(name@, character@, from_scene@, to_scene@, gate, advance),
{
    Event::Move {
        name,
        character,
        from_scene,
        to_scene,
        condition: match gate {
            Some(d) => Condition::SceneDialogAt(from_scene, d),
            None => Condition::Always,
        },
        effect: if advance {
            Effect::AdvanceDialogWhenAllIn(to_scene)
        } else {
            Effect::Nothing
        },
    }
}

fn doll_talk(name: &'static str, character: &'static str, scene: &'static str, index: u64) -> (r:
    Event)
    ensures
        event_model(r) == (EventModel::Talk {
            name: name@,
            character: character@,
            scene: scene@,
            index,
        }),
{
    Event::Talk { name, character, scene, index }
}

fn find_doll(character: &'static str) -> (r: Event)
    ensures
        event_model(r) == find_doll_m(character@),
{
    Event::Pick {
        name: "found_doll",
        character,
        item: "doll",
        consume: true,
        condition: Condition::Always,
        effect: Effect::AdvanceSceneDialog("walk"),
    }
}

/// The doll story's narrator.
pub struct Doll {}

impl Doll {
    /// The ordered list of currently legal events, or `None` when the
    /// world stands in a narrative state the story does not cover.
    pub fn available_events(&self, world: &World) -> (r: Option<Vec<Event>>)
        ensures
            match r {
                Some(v) => doll_available(world_model(*world)) == Some(
                    v@.map_values(|e: Event| event_model(e)),
                ),
                None => doll_available(world_model(*world)) is None,
            },
    {
        let ghost w = world_model(*world);
        let (d, k) = match (&world.doggie.scene, &world.kitie.scene) {
            (Some(d), Some(k)) => (d, k),
            _ => {
                return None;
            },
        };
        if str_eq(d.as_str(), "home") && str_eq(k.as_str(), "home") {
            let h = match world.scene_dialog("home") {
                Some(Some(h)) => h,
                _ => {
                    return None;
                },
            };
            let mut out: Vec<Event> = Vec::new();
            if h == 0 {
                out.push(doll_talk("talk_in_home", "doggie", "home", 0));
            } else if h == 1 {
                out.push(doll_talk("talk_in_home", "kitie", "home", 1));
            } else if h == 2 {
                out.push(doll_talk("talk_in_home", "doggie", "home", 2));
            } else if h == 3 {
                out.push(doll_talk("talk_in_home", "kitie", "home", 3));
            } else if h == 4 {
                out.push(doll_talk("talk_in_home", "doggie", "home", 4));
            } else if h == 5 {
                out.push(doll_move("move_to_walk", "doggie", "home", "walk", Some(5), false));
                out.push(doll_move("move_to_walk", "kitie", "home", "walk", Some(5), false));
            } else if h == 6 {
                out.push(doll_talk("talk_in_home", "kitie", "home", 6));
            } else if h == 7 {
                out.push(doll_talk("talk_in_home", "doggie", "home", 7));
            } else if h == 8 {
                out.push(doll_talk("talk_in_home", "kitie", "home", 8));
            } else if h == 9 {
                out.push(doll_talk("talk_in_home", "doggie", "home", 9));
            } else if h == 10 {
                out.push(doll_talk("talk_in_home", "kitie", "home", 10));
            } else if h == 11 {
                out.push(doll_talk("talk_in_home", "doggie", "home", 11));
            } else if h == 12 {
                out.push(doll_talk("talk_in_home", "kitie", "home", 12));
            } else if h == 13 {
                out.push(doll_talk("talk_in_home", "doggie", "home", 13));
            } else if h == 14 {
                out.push(doll_talk("talk_in_home", "kitie", "home", 14));
            } else if h == 15 {
                out.push(
                    doll_move(
                        "move_to_doggie_search",
                        "doggie",
                        "home",
                        "doggie_search",
                        Some(15),
                        false,
                    ),
                );
            } else if h == 16 {
                out.push(
                    doll_move(
                        "move_to_kitie_search",
                        "kitie",
                        "home",
                        "kitie_search",
                        Some(16),
                        false,
                    ),
                );
            } else if h == 17 {
                lay_down_events(world, "doggie", "doggie_pick", &mut out);
                lay_down_events(world, "kitie", "kitie_pick", &mut out);
            } else if h == 18 {
                // the final line of the story: nothing is left to do
            } else {
                return None;
            }
            proof {
                assert(doll_available(w) == doll_home_branch(w, h));
                assert(out@.map_values(|e: Event| event_model(e)) =~= doll_home_branch(w, h)->0);
            }
            Some(out)
        } else if str_eq(d.as_str(), "walk") && str_eq(k.as_str(), "home") {
            let gone = match world.item_state("doll") {
                Some(st) => st.is_unassigned(),
                None => false,
            };
            let mut out: Vec<Event> = Vec::new();
            if gone {
                out.push(doll_move("move_back_home", "doggie", "walk", "home", Some(7), true));
            } else {
                out.push(doll_move("move_to_walk", "kitie", "home", "walk", Some(5), false));
            }
            proof {
                assert(out@.map_values(|e: Event| event_model(e)) =~= doll_available(w)->0);
            }
            Some(out)
        } else if str_eq(d.as_str(), "home") && str_eq(k.as_str(), "walk") {
            let gone = match world.item_state("doll") {
                Some(st) => st.is_unassigned(),
                None => false,
            };
            let mut out: Vec<Event> = Vec::new();
            if gone {
                out.push(doll_move("move_back_home", "kitie", "walk", "home", Some(7), true));
            } else {
                out.push(doll_move("move_to_walk", "doggie", "home", "walk", Some(5), false));
            }
            proof {
                assert(out@.map_values(|e: Event| event_model(e)) =~= doll_available(w)->0);
            }
            Some(out)
        } else if str_eq(d.as_str(), "walk") && str_eq(k.as_str(), "walk") {
            let wd = match world.scene_dialog("walk") {
                Some(Some(wd)) => wd,
                _ => {
                    return None;
                },
            };
            let mut out: Vec<Event> = Vec::new();
            if wd == 0 {
                out.push(doll_talk("talk_on_walk", "doggie", "walk", 0));
            } else if wd == 1 {
                out.push(doll_talk("talk_on_walk", "kitie", "walk", 1));
            } else if wd == 2 {
                out.push(doll_talk("talk_on_walk", "doggie", "walk", 2));
            } else if wd == 3 {
                out.push(doll_talk("talk_on_walk", "kitie", "walk", 3));
            } else if wd == 4 {
                out.push(find_doll("kitie"));
                out.push(find_doll("doggie"));
            } else if wd == 5 {
                out.push(doll_talk("talk_on_walk", "doggie", "walk", 5));
            } else if wd == 6 {
                out.push(doll_talk("talk_on_walk", "doggie", "walk", 6));
            } else if wd == 7 {
                out.push(doll_move("move_back_home", "doggie", "walk", "home", Some(7), true));
                out.push(doll_move("move_back_home", "kitie", "walk", "home", Some(7), true));
            } else {
                return None;
            }
            proof {
                assert(doll_available(w) == doll_walk_branch(w, wd));
                assert(out@.map_values(|e: Event| event_model(e)) =~= doll_walk_branch(w, wd)->0);
            }
            Some(out)
        } else if str_eq(d.as_str(), "doggie_search") {
            let picks = pick_events(world, "doggie", "doggie_pick", "doggie_search");
            if picks.len() == 0 {
                let mut out: Vec<Event> = Vec::new();
                out.push(doll_move("move_back_home", "doggie", "doggie_search", "home", None, true));
                proof {
                    assert(out@.map_values(|e: Event| event_model(e)) =~= doll_available(w)->0);
                }
                Some(out)
            } else {
                Some(picks)
            }
        } else if str_eq(k.as_str(), "kitie_search") {
            let picks = pick_events(world, "kitie", "kitie_pick", "kitie_search");
            if picks.len() == 0 {
                let mut out: Vec<Event> = Vec::new();
                out.push(doll_move("move_back_home", "kitie", "kitie_search", "home", None, true));
                proof {
                    assert(out@.map_values(|e: Event| event_model(e)) =~= doll_available(w)->0);
                }
                Some(out)
            } else {
                Some(picks)
            }
        } else {
            None
        }
    }
}

} // verus!

// ---------------------------------------------------------------------------
// Parsing externally submitted action records.
// ---------------------------------------------------------------------------

verus! {

use crate::values::{spec_lookup, str_eq, vmodel, ValModel, Value};

/// What an action record means: a known event of the doll story, or
/// nothing for any unrecognized or structurally invalid record.
pub open spec fn spec_parse_event(v: ValModel) -> Option<EventModel> {
    match v {
        ValModel::Object(es) => match (spec_lookup(es, "name"@), spec_lookup(es, "character"@)) {
            (Some(ValModel::Str(n)), Some(ValModel::Str(c))) => {
                if c != "doggie"@ && c != "kitie"@ {
                    None
                } else if n == "talk_in_home"@ {
                    match spec_lookup(es, "dialog"@) {
                        Some(ValModel::Int(d)) => Some(talk_home_m(c, d)),
                        _ => None,
                    }
                } else if n == "talk_on_walk"@ {
                    match spec_lookup(es, "dialog"@) {
                        Some(ValModel::Int(d)) => Some(talk_walk_m(c, d)),
                        _ => None,
                    }
                } else if n == "move_to_walk"@ {
                    Some(move_m("move_to_walk"@, c, "home"@, "walk"@, Some(5u64), false))
                } else if n == "move_to_doggie_search"@ {
                    if c == "doggie"@ {
                        Some(
                            move_m(
                                "move_to_doggie_search"@,
                                c,
                                "home"@,
                                "doggie_search"@,
                                Some(15u64),
                                false,
                            ),
                        )
                    } else {
                        None
                    }
                } else if n == "move_to_kitie_search"@ {
                    if c == "kitie"@ {
                        Some(
                            move_m(
                                "move_to_kitie_search"@,
                                c,
                                "home"@,
                                "kitie_search"@,
                                Some(16u64),
                                false,
                            ),
                        )
                    } else {
                        None
                    }
                } else if n == "move_back_home"@ {
                    match spec_lookup(es, "from"@) {
                        Some(ValModel::Str(f)) => if f == "walk"@ {
                            Some(move_m("move_back_home"@, c, "walk"@, "home"@, Some(7u64), true))
                        } else if f == "doggie_search"@ && c == "doggie"@ {
                            Some(move_m("move_back_home"@, c, "doggie_search"@, "home"@, None, true))
                        } else if f == "kitie_search"@ && c == "kitie"@ {
                            Some(move_m("move_back_home"@, c, "kitie_search"@, "home"@, None, true))
                        } else {
                            None
                        },
                        _ => None,
                    }
                } else if n == "found_doll"@ {
                    match spec_lookup(es, "item"@) {
                        Some(ValModel::Str(it)) => if it == "doll"@ {
                            Some(find_doll_m(c))
                        } else {
                            None
                        },
                        _ => None,
                    }
                } else if n == "pick"@ {
                    match spec_lookup(es, "item"@) {
                        Some(ValModel::Str(it)) => if it == "shovel"@ || it == "bucket"@ || it
                            == "comb"@ || it == "mirror"@ {
                            Some(pick_m(c, it))
                        } else {
                            None
                        },
                        _ => None,
                    }
                } else if n == "lay_down"@ {
                    match spec_lookup(es, "item"@) {
                        Some(ValModel::Str(it)) => if it == "shovel"@ || it == "bucket"@ || it
                            == "comb"@ || it == "mirror"@ {
                            Some(lay_down_m(c, it))
                        } else {
                            None
                        },
                        _ => None,
                    }
                } else {
                    None
                }
            },
            _ => None,
        },
        _ => None,
    }
}

fn known_pick_item(it: &String) -> (r: Option<&'static str>)
    ensures
        match r {
            Some(lit) => (it@ == "shovel"@ || it@ == "bucket"@ || it@ == "comb"@ || it@
                == "mirror"@) && lit@ == it@,
            None => !(it@ == "shovel"@ || it@ == "bucket"@ || it@ == "comb"@ || it@ == "mirror"@),
        },
{
    if str_eq(it.as_str(), "shovel") {
        Some("shovel")
    } else if str_eq(it.as_str(), "bucket") {
        Some("bucket")
    } else if str_eq(it.as_str(), "comb") {
        Some("comb")
    } else if str_eq(it.as_str(), "mirror") {
        Some("mirror")
    } else {
        None
    }
}

impl Doll {
    /// Reconstructs an event of this story from a serialized action
    /// record; any unrecognized or structurally invalid record is
    /// rejected with `None`, never guessed at.
    pub fn parse_event(&self, value: &Value) -> (r: Option<Event>)
        ensures
            match r {
                Some(e) => spec_parse_event(vmodel(*value)) == Some(event_model(e)),
                None => spec_parse_event(vmodel(*value)) is None,
            },
    {
        let n: &String = match value.get("name") {
            Some(Value::Str(n)) => n,
            _ => {
                return None;
            },
        };
        let c_s: &String = match value.get("character") {
            Some(Value::Str(c)) => c,
            _ => {
                return None;
            },
        };
        let character: &'static str = if str_eq(c_s.as_str(), "doggie") {
            "doggie"
        } else if str_eq(c_s.as_str(), "kitie") {
            "kitie"
        } else {
            return None;
        };
        if str_eq(n.as_str(), "talk_in_home") {
            match value.get("dialog") {
                Some(Value::Int(d)) => Some(doll_talk("talk_in_home", character, "home", *d)),
                _ => None,
            }
        } else if str_eq(n.as_str(), "talk_on_walk") {
            match value.get("dialog") {
                Some(Value::Int(d)) => Some(doll_talk("talk_on_walk", character, "walk", *d)),
                _ => None,
            }
        } else if str_eq(n.as_str(), "move_to_walk") {
            Some(doll_move("move_to_walk", character, "home", "walk", Some(5), false))
        } else if str_eq(n.as_str(), "move_to_doggie_search") {
            if str_eq(character, "doggie") {
                Some(
                    doll_move(
                        "move_to_doggie_search",
                        character,
                        "home",
                        "doggie_search",
                        Some(15),
                        false,
                    ),
                )
            } else {
                None
            }
        } else if str_eq(n.as_str(), "move_to_kitie_search") {
            if str_eq(character, "kitie") {
                Some(
                    doll_move(
                        "move_to_kitie_search",
                        character,
                        "home",
                        "kitie_search",
                        Some(16),
                        false,
                    ),
                )
            } else {
                None
            }
        } else if str_eq(n.as_str(), "move_back_home") {
            match value.get("from") {
                Some(Value::Str(f)) => {
                    if str_eq(f.as_str(), "walk") {
                        Some(doll_move("move_back_home", character, "walk", "home", Some(7), true))
                    } else if str_eq(f.as_str(), "doggie_search") && str_eq(character, "doggie") {
                        Some(
                            doll_move(
                                "move_back_home",
                                character,
                                "doggie_search",
                                "home",
                                None,
                                true,
                            ),
                        )
                    } else if str_eq(f.as_str(), "kitie_search") && str_eq(character, "kitie") {
                        Some(
                            doll_move(
                                "move_back_home",
                                character,
                                "kitie_search",
                                "home",
                                None,
                                true,
                            ),
                        )
                    } else {
                        None
                    }
                },
                _ => None,
            }
        } else if str_eq(n.as_str(), "found_doll") {
            match value.get("item") {
                Some(Value::Str(it)) => {
                    if str_eq(it.as_str(), "doll") {
                        Some(find_doll(character))
                    } else {
                        None
                    }
                },
                _ => None,
            }
        } else if str_eq(n.as_str(), "pick") {
            match value.get("item") {
                Some(Value::Str(it)) => match known_pick_item(it) {
                    Some(lit) => Some(
                        Event::Pick {
                            name: "pick",
                            character,
                            item: lit,
                            consume: false,
                            condition: Condition::Always,
                            effect: Effect::Nothing,
                        },
                    ),
                    None => None,
                },
                _ => None,
            }
        } else if str_eq(n.as_str(), "lay_down") {
            match value.get("item") {
                Some(Value::Str(it)) => match known_pick_item(it) {
                    Some(lit) => Some(
                        Event::UseItem {
                            name: "lay_down",
                            character,
                            item: lit,
                            consume: true,
                            condition: Condition::Always,
                            effect: Effect::AdvanceDialogWhenTagDone("home", "pick"),
                        },
                    ),
                    None => None,
                },
                _ => None,
            }
        } else {
            None
        }
    }
}

/// Determinism of the narrator: any two computations of the available
/// events against one world snapshot agree - the same events, in the same
/// order.  Together with `available_events`' own contract this pins two
/// calls on one snapshot to identical sequences.
pub proof fn lemma_available_events_deterministic(
    w: WorldModel,
    r1: Option<Seq<EventModel>>,
    r2: Option<Seq<EventModel>>,
)
    requires
        r1 == doll_available(w),
        r2 == doll_available(w),
    ensures
        r1 == r2,
{
}

} // verus!

// ---------------------------------------------------------------------------
// Exhaustiveness of the doll story: every reachable state is covered by
// the narrator's transition table, and play always reaches the ending.
// ---------------------------------------------------------------------------

verus! {

use crate::codec::same_item_catalog;

/// The fixed shape of a doll-story world: the catalog of items (names and
/// tags) and scenes never changes, only states and cursors do.
pub open spec fn doll_catalog(w: WorldModel) -> bool {
    &&& same_item_catalog(doll_initial_items(), w.items)
    &&& w.scenes.len() == 4
    &&& w.scenes[0].name == "home"@
    &&& w.scenes[1].name == "walk"@
    &&& w.scenes[2].name == "doggie_search"@
    &&& w.scenes[3].name == "kitie_search"@
    &&& w.scenes[0].dialog is Some
    &&& w.scenes[1].dialog is Some
    &&& w.scenes[2].dialog is None
    &&& w.scenes[3].dialog is None
}

/// The home dialog cursor (meaningful under the catalog).
pub open spec fn home_line(w: WorldModel) -> u64 {
    w.scenes[0].dialog->0
}

/// The walk dialog cursor.
pub open spec fn walk_line(w: WorldModel) -> u64 {
    w.scenes[1].dialog->0
}

pub open spec fn is_at(c: CharacterModel, s: Seq<char>) -> bool {
    c.scene == Some(s)
}

pub open spec fn both_home(w: WorldModel) -> bool {
    is_at(w.doggie, "home"@) && is_at(w.kitie, "home"@)
}

pub open spec fn doll_waiting(w: WorldModel) -> bool {
    w.items[0].state == ItemStateModel::InScene("walk"@)
}

pub open spec fn doll_found(w: WorldModel) -> bool {
    w.items[0].state is Unassigned
}

pub open spec fn pick_in_room(w: WorldModel, j: int, room: Seq<char>) -> bool {
    w.items[j].state == ItemStateModel::InScene(room)
}

pub open spec fn pick_held(w: WorldModel, j: int, c: Seq<char>) -> bool {
    w.items[j].state == ItemStateModel::Owned(c)
}

pub open spec fn pick_laid(w: WorldModel, j: int) -> bool {
    w.items[j].state is Unassigned
}

/// Every present still waits in its search room.
pub open spec fn presents_untouched(w: WorldModel) -> bool {
    pick_in_room(w, 1, "doggie_search"@) && pick_in_room(w, 2, "doggie_search"@)
        && kitie_presents_untouched(w)
}

pub open spec fn kitie_presents_untouched(w: WorldModel) -> bool {
    pick_in_room(w, 3, "kitie_search"@) && pick_in_room(w, 4, "kitie_search"@)
}

/// Doggie is mid-search: each present waits or is already in paw.
pub open spec fn doggie_presents_partial(w: WorldModel) -> bool {
    &&& (pick_in_room(w, 1, "doggie_search"@) || pick_held(w, 1, "doggie"@))
    &&& (pick_in_room(w, 2, "doggie_search"@) || pick_held(w, 2, "doggie"@))
}

pub open spec fn doggie_presents_held(w: WorldModel) -> bool {
    pick_held(w, 1, "doggie"@) && pick_held(w, 2, "doggie"@)
}

pub open spec fn kitie_presents_partial(w: WorldModel) -> bool {
    &&& (pick_in_room(w, 3, "kitie_search"@) || pick_held(w, 3, "kitie"@))
    &&& (pick_in_room(w, 4, "kitie_search"@) || pick_held(w, 4, "kitie"@))
}

pub open spec fn kitie_presents_held(w: WorldModel) -> bool {
    pick_held(w, 3, "kitie"@) && pick_held(w, 4, "kitie"@)
}

/// Laying down: each present is in its owner's paw or already laid down.
pub open spec fn presents_being_laid(w: WorldModel) -> bool {
    &&& (pick_held(w, 1, "doggie"@) || pick_laid(w, 1))
    &&& (pick_held(w, 2, "doggie"@) || pick_laid(w, 2))
    &&& (pick_held(w, 3, "kitie"@) || pick_laid(w, 3))
    &&& (pick_held(w, 4, "kitie"@) || pick_laid(w, 4))
}

pub open spec fn presents_all_laid(w: WorldModel) -> bool {
    pick_laid(w, 1) && pick_laid(w, 2) && pick_laid(w, 3) && pick_laid(w, 4)
}

/// The states the doll story can actually reach: its narrative phases.
pub open spec fn doll_inv(w: WorldModel) -> bool {
    &&& doll_catalog(w)
    &&& ({
        let h = home_line(w);
        let wd = walk_line(w);
        ||| (h <= 5 && both_home(w) && wd == 0 && doll_waiting(w) && presents_untouched(w))
        ||| (h == 5 && ((is_at(w.doggie, "walk"@) && is_at(w.kitie, "home"@)) || (is_at(
            w.doggie,
            "home"@,
        ) && is_at(w.kitie, "walk"@))) && wd == 0 && doll_waiting(w) && presents_untouched(w))
        ||| (h == 5 && is_at(w.doggie, "walk"@) && is_at(w.kitie, "walk"@) && ((wd <= 4
            && doll_waiting(w)) || (5 <= wd <= 7 && doll_found(w))) && presents_untouched(w))
        ||| (h == 5 && ((is_at(w.doggie, "walk"@) && is_at(w.kitie, "home"@)) || (is_at(
            w.doggie,
            "home"@,
        ) && is_at(w.kitie, "walk"@))) && wd == 7 && doll_found(w) && presents_untouched(w))
        ||| (6 <= h <= 15 && both_home(w) && wd == 7 && doll_found(w) && presents_untouched(w))
        ||| (h == 15 && is_at(w.doggie, "doggie_search"@) && is_at(w.kitie, "home"@) && wd == 7
            && doll_found(w) && doggie_presents_partial(w) && kitie_presents_untouched(w))
        ||| (h == 16 && both_home(w) && wd == 7 && doll_found(w) && doggie_presents_held(w)
            && kitie_presents_untouched(w))
        ||| (h == 16 && is_at(w.doggie, "home"@) && is_at(w.kitie, "kitie_search"@) && wd == 7
            && doll_found(w) && doggie_presents_held(w) && kitie_presents_partial(w))
        ||| (h == 17 && both_home(w) && wd == 7 && doll_found(w) && presents_being_laid(w)
            && !presents_all_laid(w))
        ||| (h == 18 && both_home(w) && wd == 7 && doll_found(w) && presents_all_laid(w))
    })
}

/// The weight of one item state on the termination measure.
pub open spec fn state_weight(s: ItemStateModel) -> int {
    match s {
        ItemStateModel::InScene(_) => 2,
        ItemStateModel::Owned(_) => 1,
        ItemStateModel::Unassigned => 0,
    }
}

pub open spec fn chars_home(w: WorldModel) -> int {
    (if is_at(w.doggie, "home"@) {
        1int
    } else {
        0int
    }) + (if is_at(w.kitie, "home"@) {
        1int
    } else {
        0int
    })
}

/// The small position-dependent part of the measure: characters walk away
/// from home in some phases and towards it in others.
pub open spec fn drift(w: WorldModel) -> int {
    let h = home_line(w);
    if h == 5 && doll_waiting(w) {
        chars_home(w)
    } else if h == 5 {
        2 - chars_home(w)
    } else if h == 15 {
        if is_at(w.doggie, "home"@) {
            1
        } else {
            0
        }
    } else if h == 16 {
        if is_at(w.kitie, "home"@) {
            1
        } else {
            0
        }
    } else {
        0
    }
}

/// A measure that strictly shrinks with every event the narrator offers:
/// the breadth-first exploration of the story terminates.
pub open spec fn doll_measure(w: WorldModel) -> int {
    (18 - home_line(w)) * 10000 + (7 - walk_line(w)) * 1000 + (state_weight(w.items[0].state)
        + state_weight(w.items[1].state) + state_weight(w.items[2].state) + state_weight(
        w.items[3].state,
    ) + state_weight(w.items[4].state)) * 10 + drift(w)
}

/// The initial world stands in the first narrative phase.
pub proof fn lemma_doll_inv_initial()
    ensures
        doll_inv(doll_initial_world()),
{
    let w = doll_initial_world();
    assert(same_item_catalog(doll_initial_items(), w.items));
}

} // verus!

verus! {

use crate::world::{lemma_lookup_item_at, lemma_lookup_scene_at};

/// Under the doll catalog, every name the story uses resolves to its
/// fixed slot, the names are pairwise distinct, and the tags are known.
pub proof fn lemma_doll_lookups(w: WorldModel)
    requires
        doll_catalog(w),
    ensures
        w.scene("home"@) == Some(w.scenes[0]),
        w.scene("walk"@) == Some(w.scenes[1]),
        w.scene("doggie_search"@) == Some(w.scenes[2]),
        w.scene("kitie_search"@) == Some(w.scenes[3]),
        w.item("doll"@) == Some(w.items[0]),
        w.item("shovel"@) == Some(w.items[1]),
        w.item("bucket"@) == Some(w.items[2]),
        w.item("comb"@) == Some(w.items[3]),
        w.item("mirror"@) == Some(w.items[4]),
        w.items.len() == 5,
        w.items[0].name == "doll"@,
        w.items[1].name == "shovel"@,
        w.items[2].name == "bucket"@,
        w.items[3].name == "comb"@,
        w.items[4].name == "mirror"@,
        "home"@ != "walk"@,
        "home"@ != "doggie_search"@,
        "home"@ != "kitie_search"@,
        "walk"@ != "doggie_search"@,
        "walk"@ != "kitie_search"@,
        "doggie_search"@ != "kitie_search"@,
        "doggie"@ != "kitie"@,
        w.items[1].has_tag("doggie_pick"@),
        w.items[2].has_tag("doggie_pick"@),
        w.items[3].has_tag("kitie_pick"@),
        w.items[4].has_tag("kitie_pick"@),
        w.items[1].has_tag("pick"@),
        w.items[2].has_tag("pick"@),
        w.items[3].has_tag("pick"@),
        w.items[4].has_tag("pick"@),
        !w.items[0].has_tag("pick"@),
        !w.items[0].has_tag("doggie_pick"@),
        !w.items[0].has_tag("kitie_pick"@),
        !w.items[1].has_tag("kitie_pick"@),
        !w.items[2].has_tag("kitie_pick"@),
        !w.items[3].has_tag("doggie_pick"@),
        !w.items[4].has_tag("doggie_pick"@),
        "doll"@ != "shovel"@,
        "doll"@ != "bucket"@,
        "doll"@ != "comb"@,
        "doll"@ != "mirror"@,
        "shovel"@ != "bucket"@,
        "shovel"@ != "comb"@,
        "shovel"@ != "mirror"@,
        "bucket"@ != "comb"@,
        "bucket"@ != "mirror"@,
        "comb"@ != "mirror"@,
{
    reveal_strlit("home");
    reveal_strlit("walk");
    reveal_strlit("doggie_search");
    reveal_strlit("kitie_search");
    reveal_strlit("doll");
    reveal_strlit("shovel");
    reveal_strlit("bucket");
    reveal_strlit("comb");
    reveal_strlit("mirror");
    reveal_strlit("doggie");
    reveal_strlit("kitie");
    reveal_strlit("doggie_pick");
    reveal_strlit("kitie_pick");
    reveal_strlit("pick");
    assert("home"@.len() == 4);
    assert("walk"@.len() == 4);
    assert("doggie_search"@.len() == 13);
    assert("kitie_search"@.len() == 12);
    assert("doll"@.len() == 4);
    assert("shovel"@.len() == 6);
    assert("bucket"@.len() == 6);
    assert("comb"@.len() == 4);
    assert("mirror"@.len() == 6);
    assert("doggie"@.len() == 6);
    assert("kitie"@.len() == 5);
    assert("doggie_pick"@.len() == 11);
    assert("kitie_pick"@.len() == 10);
    assert("pick"@.len() == 4);
    assert("home"@[0] != "walk"@[0]);
    assert("shovel"@[0] != "bucket"@[0]);
    assert("shovel"@[0] != "mirror"@[0]);
    assert("bucket"@[0] != "mirror"@[0]);
    assert("doll"@[0] != "comb"@[0]);
    assert("doll"@[0] != "pick"@[0]);
    assert("doll"@[0] != "home"@[0]);
    assert("comb"@[0] != "pick"@[0]);
    lemma_lookup_scene_at(w.scenes, "home"@, 0);
    lemma_lookup_scene_at(w.scenes, "walk"@, 1);
    lemma_lookup_scene_at(w.scenes, "doggie_search"@, 2);
    lemma_lookup_scene_at(w.scenes, "kitie_search"@, 3);
    assert(w.items[0].name == "doll"@ && w.items[0].tags =~= seq!["doll"@]);
    assert(w.items[1].name == "shovel"@ && w.items[1].tags =~= seq!["doggie_pick"@, "pick"@]);
    assert(w.items[2].name == "bucket"@ && w.items[2].tags =~= seq!["doggie_pick"@, "pick"@]);
    assert(w.items[3].name == "comb"@ && w.items[3].tags =~= seq!["kitie_pick"@, "pick"@]);
    assert(w.items[4].name == "mirror"@ && w.items[4].tags =~= seq!["kitie_pick"@, "pick"@]);
    lemma_lookup_item_at(w.items, "doll"@, 0);
    lemma_lookup_item_at(w.items, "shovel"@, 1);
    lemma_lookup_item_at(w.items, "bucket"@, 2);
    lemma_lookup_item_at(w.items, "comb"@, 3);
    lemma_lookup_item_at(w.items, "mirror"@, 4);
    assert(w.items[1].has_tag("doggie_pick"@)) by {
        assert(w.items[1].tags[0] == "doggie_pick"@);
    }
    assert(w.items[2].has_tag("doggie_pick"@)) by {
        assert(w.items[2].tags[0] == "doggie_pick"@);
    }
    assert(w.items[3].has_tag("kitie_pick"@)) by {
        assert(w.items[3].tags[0] == "kitie_pick"@);
    }
    assert(w.items[4].has_tag("kitie_pick"@)) by {
        assert(w.items[4].tags[0] == "kitie_pick"@);
    }
    assert(w.items[1].has_tag("pick"@)) by {
        assert(w.items[1].tags[1] == "pick"@);
    }
    assert(w.items[2].has_tag("pick"@)) by {
        assert(w.items[2].tags[1] == "pick"@);
    }
    assert(w.items[3].has_tag("pick"@)) by {
        assert(w.items[3].tags[1] == "pick"@);
    }
    assert(w.items[4].has_tag("pick"@)) by {
        assert(w.items[4].tags[1] == "pick"@);
    }
}

/// The pick offer is empty exactly when nothing taggable waits in the room.
pub proof fn lemma_pick_events_empty(
    items: Seq<ItemModel>,
    character: Seq<char>,
    tag: Seq<char>,
    scene: Seq<char>,
)
    ensures
        (pick_events_m(items, character, tag, scene).len() == 0) <==> (forall|j: int|
            0 <= j < items.len() ==> !(#[trigger] items[j].has_tag(tag) && items[j].state
                == ItemStateModel::InScene(scene))),
    decreases items.len(),
{
    if items.len() > 0 {
        lemma_pick_events_empty(items.drop_last(), character, tag, scene);
        assert(forall|j: int|
            0 <= j < items.len() - 1 ==> items.drop_last()[j] == items[j]);
        assert(items.last() == items[items.len() - 1]);
    }
}

/// Every offered pick names an item that carries the tag and waits in
/// the room.
pub proof fn lemma_pick_events_member(
    items: Seq<ItemModel>,
    character: Seq<char>,
    tag: Seq<char>,
    scene: Seq<char>,
    e: EventModel,
)
    requires
        pick_events_m(items, character, tag, scene).contains(e),
    ensures
        exists|j: int|
            0 <= j < items.len() && (#[trigger] items[j].has_tag(tag)) && items[j].state
                == ItemStateModel::InScene(scene) && e == pick_m(character, items[j].name),
    decreases items.len(),
{
    if items.len() > 0 {
        let prefix = pick_events_m(items.drop_last(), character, tag, scene);
        let whole = pick_events_m(items, character, tag, scene);
        let k = choose|k: int| 0 <= k < whole.len() && whole[k] == e;
        if k < prefix.len() {
            assert(prefix.contains(e)) by {
                assert(prefix[k] == e);
            }
            lemma_pick_events_member(items.drop_last(), character, tag, scene, e);
            let j = choose|j: int|
                0 <= j < items.drop_last().len() && (#[trigger] items.drop_last()[j].has_tag(
                    tag,
                )) && items.drop_last()[j].state == ItemStateModel::InScene(scene) && e == pick_m(
                    character,
                    items.drop_last()[j].name,
                );
            assert(items[j] == items.drop_last()[j]);
            assert(items[j].has_tag(tag) && items[j].state == ItemStateModel::InScene(scene) && e
                == pick_m(character, items[j].name));
        } else {
            let j = items.len() - 1;
            assert(items[j].has_tag(tag) && items[j].state == ItemStateModel::InScene(scene) && e
                == pick_m(character, items[j].name));
        }
    }
}

/// The lay-down offer is empty exactly when no tagged item is in the paw.
pub proof fn lemma_lay_down_events_empty(
    items: Seq<ItemModel>,
    character: Seq<char>,
    tag: Seq<char>,
)
    ensures
        (lay_down_events_m(items, character, tag).len() == 0) <==> (forall|j: int|
            0 <= j < items.len() ==> !(#[trigger] items[j].has_tag(tag) && items[j].state
                == ItemStateModel::Owned(character))),
    decreases items.len(),
{
    if items.len() > 0 {
        lemma_lay_down_events_empty(items.drop_last(), character, tag);
        assert(forall|j: int|
            0 <= j < items.len() - 1 ==> items.drop_last()[j] == items[j]);
        assert(items.last() == items[items.len() - 1]);
    }
}

/// Every offered lay-down names an item the character actually holds.
pub proof fn lemma_lay_down_events_member(
    items: Seq<ItemModel>,
    character: Seq<char>,
    tag: Seq<char>,
    e: EventModel,
)
    requires
        lay_down_events_m(items, character, tag).contains(e),
    ensures
        exists|j: int|
            0 <= j < items.len() && (#[trigger] items[j].has_tag(tag)) && items[j].state
                == ItemStateModel::Owned(character) && e == lay_down_m(character, items[j].name),
    decreases items.len(),
{
    if items.len() > 0 {
        let prefix = lay_down_events_m(items.drop_last(), character, tag);
        let whole = lay_down_events_m(items, character, tag);
        let k = choose|k: int| 0 <= k < whole.len() && whole[k] == e;
        if k < prefix.len() {
            assert(prefix.contains(e)) by {
                assert(prefix[k] == e);
            }
            lemma_lay_down_events_member(items.drop_last(), character, tag, e);
            let j = choose|j: int|
                0 <= j < items.drop_last().len() && (#[trigger] items.drop_last()[j].has_tag(
                    tag,
                )) && items.drop_last()[j].state == ItemStateModel::Owned(character) && e
                    == lay_down_m(character, items.drop_last()[j].name);
            assert(items[j] == items.drop_last()[j]);
            assert(items[j].has_tag(tag) && items[j].state == ItemStateModel::Owned(character) && e
                == lay_down_m(character, items[j].name));
        } else {
            let j = items.len() - 1;
            assert(items[j].has_tag(tag) && items[j].state == ItemStateModel::Owned(character) && e
                == lay_down_m(character, items[j].name));
        }
    }
}

/// Exhaustiveness, first half: in every reachable narrative state the
/// transition table has a branch, and the offer is empty exactly at the
/// designated ending.
pub proof fn lemma_doll_handled(w: WorldModel)
    requires
        doll_inv(w),
    ensures
        doll_available(w) is Some,
        (doll_available(w) == Some(Seq::<EventModel>::empty())) <==> home_line(w) == 18,
{
    lemma_doll_lookups(w);
    let h = home_line(w);
    if h == 17 && both_home(w) {
        let a = lay_down_events_m(w.items, "doggie"@, "doggie_pick"@);
        let b = lay_down_events_m(w.items, "kitie"@, "kitie_pick"@);
        lemma_lay_down_events_empty(w.items, "doggie"@, "doggie_pick"@);
        lemma_lay_down_events_empty(w.items, "kitie"@, "kitie_pick"@);
        if a.len() == 0 && b.len() == 0 {
            assert(pick_laid(w, 1) && pick_laid(w, 2) && pick_laid(w, 3) && pick_laid(w, 4));
            assert(false);
        }
        assert(doll_available(w) == Some(a + b));
        assert((a + b).len() > 0);
    }
}

} // verus!

verus! {

use crate::world::{lemma_update_item_at, lemma_update_scene_at, update_item, update_scene};
use crate::events::advance_dialog_m;

/// What advancing the home dialog does to a doll-story world.
pub proof fn lemma_advance_home(w: WorldModel)
    requires
        doll_catalog(w),
        home_line(w) < 18,
    ensures
        ({
            let w2 = advance_dialog_m(w, "home"@);
            &&& w2.scenes == w.scenes.update(
                0,
                SceneModel {
                    dialog: Some((home_line(w) + 1) as u64),
                    ..w.scenes[0]
                },
            )
            &&& w2.doggie == w.doggie
            &&& w2.kitie == w.kitie
            &&& w2.items == w.items
            &&& w2.story == w.story
            &&& w2.lang == w.lang
            &&& w2.languages == w.languages
            &&& doll_catalog(w2)
            &&& home_line(w2) == home_line(w) + 1
            &&& walk_line(w2) == walk_line(w)
        }),
{
    lemma_doll_lookups(w);
    let h = home_line(w);
    let next: u64 = (h + 1) as u64;
    lemma_update_scene_at(w.scenes, "home"@, Some(next), 0);
    let w2 = advance_dialog_m(w, "home"@);
    assert(w2.scenes =~= w.scenes.update(0, SceneModel { dialog: Some(next), ..w.scenes[0] }));
}

/// What advancing the walk dialog does to a doll-story world.
pub proof fn lemma_advance_walk(w: WorldModel)
    requires
        doll_catalog(w),
        walk_line(w) < 7,
    ensures
        ({
            let w2 = advance_dialog_m(w, "walk"@);
            &&& w2.scenes == w.scenes.update(
                1,
                SceneModel {
                    dialog: Some((walk_line(w) + 1) as u64),
                    ..w.scenes[1]
                },
            )
            &&& w2.doggie == w.doggie
            &&& w2.kitie == w.kitie
            &&& w2.items == w.items
            &&& w2.story == w.story
            &&& w2.lang == w.lang
            &&& w2.languages == w.languages
            &&& doll_catalog(w2)
            &&& home_line(w2) == home_line(w)
            &&& walk_line(w2) == walk_line(w) + 1
        }),
{
    lemma_doll_lookups(w);
    let d = walk_line(w);
    let next: u64 = (d + 1) as u64;
    lemma_update_scene_at(w.scenes, "walk"@, Some(next), 1);
    let w2 = advance_dialog_m(w, "walk"@);
    assert(w2.scenes =~= w.scenes.update(1, SceneModel { dialog: Some(next), ..w.scenes[1] }));
}

/// What replacing the state of slot `j` does to a doll-story world's
/// item list.
pub proof fn lemma_doll_set_item(w: WorldModel, j: int, st: ItemStateModel)
    requires
        doll_catalog(w),
        0 <= j < 5,
    ensures
        update_item(w.items, w.items[j].name, st) == w.items.update(
            j,
            ItemModel { state: st, ..w.items[j] },
        ),
        same_item_catalog(
            doll_initial_items(),
            w.items.update(j, ItemModel { state: st, ..w.items[j] }),
        ),
{
    lemma_doll_lookups(w);
    lemma_update_item_at(w.items, w.items[j].name, st, j);
    assert(update_item(w.items, w.items[j].name, st) =~= w.items.update(
        j,
        ItemModel { state: st, ..w.items[j] },
    ));
}

/// Under the doll catalog, "every item tagged pick is unassigned" says
/// exactly that the four presents are laid down.
pub proof fn lemma_all_picks_laid(w: WorldModel)
    requires
        doll_catalog(w),
    ensures
        crate::events::spec_all_tagged_unassigned(w, "pick"@) <==> (pick_laid(w, 1) && pick_laid(
            w,
            2,
        ) && pick_laid(w, 3) && pick_laid(w, 4)),
{
    lemma_doll_lookups(w);
    if pick_laid(w, 1) && pick_laid(w, 2) && pick_laid(w, 3) && pick_laid(w, 4) {
        assert forall|i: int|
            0 <= i < w.items.len() implies ((#[trigger] w.items[i]).has_tag("pick"@)
            ==> w.items[i].state is Unassigned) by {
            if i == 0 {
                assert(!w.items[0].has_tag("pick"@));
            }
        }
    }
}

} // verus!

verus! {

use crate::events::{set_character_scene_m, spec_apply_effect, spec_can, spec_trigger};

/// A step out of the opening phase: scripted talk at home, or the
/// departure for the walk.
proof fn lemma_step_opening(w: WorldModel, e: EventModel)
    requires
        doll_catalog(w),
        home_line(w) <= 5,
        both_home(w),
        walk_line(w) == 0,
        doll_waiting(w),
        presents_untouched(w),
        doll_available(w) matches Some(evs) && evs.contains(e),
    ensures
        spec_can(e, w),
        doll_inv(spec_trigger(e, w)),
        doll_measure(spec_trigger(e, w)) < doll_measure(w),
{
    lemma_doll_lookups(w);
    let h = home_line(w);
    let evs = doll_available(w)->0;
    if h <= 4 {
        assert(e == evs[0]);
        assert(spec_can(e, w));
        lemma_advance_home(w);
        let w2 = spec_trigger(e, w);
        assert(w2 == advance_dialog_m(w, "home"@));
        assert(doll_inv(w2));
        assert(doll_measure(w2) < doll_measure(w));
    } else {
        assert(evs.len() == 2);
        assert(e == evs[0] || e == evs[1]);
        assert(spec_can(e, w));
        let w2 = spec_trigger(e, w);
        if e == evs[0] {
            assert(w2 == set_character_scene_m(w, "doggie"@, Some("walk"@)));
        } else {
            assert(w2 == set_character_scene_m(w, "kitie"@, Some("walk"@)));
        }
        assert(doll_inv(w2));
        assert(doll_measure(w2) < doll_measure(w));
    }
}

/// A step while one character is on the way out: the other follows.
proof fn lemma_step_following(w: WorldModel, e: EventModel)
    requires
        doll_catalog(w),
        home_line(w) == 5,
        (is_at(w.doggie, "walk"@) && is_at(w.kitie, "home"@)) || (is_at(w.doggie, "home"@)
            && is_at(w.kitie, "walk"@)),
        walk_line(w) == 0,
        doll_waiting(w),
        presents_untouched(w),
        doll_available(w) matches Some(evs) && evs.contains(e),
    ensures
        spec_can(e, w),
        doll_inv(spec_trigger(e, w)),
        doll_measure(spec_trigger(e, w)) < doll_measure(w),
{
    lemma_doll_lookups(w);
    let evs = doll_available(w)->0;
    assert(!doll_taken(w));
    assert(e == evs[0]);
    assert(spec_can(e, w));
    let w2 = spec_trigger(e, w);
    if is_at(w.doggie, "walk"@) {
        assert(w2 == set_character_scene_m(w, "kitie"@, Some("walk"@)));
    } else {
        assert(w2 == set_character_scene_m(w, "doggie"@, Some("walk"@)));
    }
    assert(doll_inv(w2));
    assert(doll_measure(w2) < doll_measure(w));
}

/// A step out on the walk: its talks, the discovery of the doll, and the
/// departure back home.
proof fn lemma_step_walk(w: WorldModel, e: EventModel)
    requires
        doll_catalog(w),
        home_line(w) == 5,
        is_at(w.doggie, "walk"@),
        is_at(w.kitie, "walk"@),
        (walk_line(w) <= 4 && doll_waiting(w)) || (5 <= walk_line(w) <= 7 && doll_found(w)),
        presents_untouched(w),
        doll_available(w) matches Some(evs) && evs.contains(e),
    ensures
        spec_can(e, w),
        doll_inv(spec_trigger(e, w)),
        doll_measure(spec_trigger(e, w)) < doll_measure(w),
{
    lemma_doll_lookups(w);
    let wd = walk_line(w);
    let evs = doll_available(w)->0;
    if wd == 4 {
        assert(evs.len() == 2);
        assert(e == evs[0] || e == evs[1]);
        assert(spec_can(e, w));
        let w2 = spec_trigger(e, w);
        lemma_doll_set_item(w, 0, ItemStateModel::Unassigned);
        let w1 = WorldModel {
            items: w.items.update(0, ItemModel { state: ItemStateModel::Unassigned, ..w.items[0] }),
            ..w
        };
        assert(doll_catalog(w1));
        lemma_advance_walk(w1);
        assert(w2 == advance_dialog_m(w1, "walk"@));
        assert(doll_inv(w2));
        assert(doll_measure(w2) < doll_measure(w));
    } else if wd == 7 {
        assert(evs.len() == 2);
        assert(e == evs[0] || e == evs[1]);
        assert(spec_can(e, w));
        let w2 = spec_trigger(e, w);
        if e == evs[0] {
            let w1 = set_character_scene_m(w, "doggie"@, Some("home"@));
            assert(!(is_at(w1.doggie, "home"@) && is_at(w1.kitie, "home"@)));
            assert(w2 == w1);
        } else {
            let w1 = set_character_scene_m(w, "kitie"@, Some("home"@));
            assert(!(is_at(w1.doggie, "home"@) && is_at(w1.kitie, "home"@)));
            assert(w2 == w1);
        }
        assert(doll_inv(w2));
        assert(doll_measure(w2) < doll_measure(w));
    } else {
        assert(e == evs[0]);
        assert(spec_can(e, w));
        lemma_advance_walk(w);
        let w2 = spec_trigger(e, w);
        assert(w2 == advance_dialog_m(w, "walk"@));
        assert(doll_inv(w2));
        assert(doll_measure(w2) < doll_measure(w));
    }
}

/// A step while one character is on the way back: the other follows, and
/// the last to arrive carries the home dialog onward.
proof fn lemma_step_returning(w: WorldModel, e: EventModel)
    requires
        doll_catalog(w),
        home_line(w) == 5,
        (is_at(w.doggie, "walk"@) && is_at(w.kitie, "home"@)) || (is_at(w.doggie, "home"@)
            && is_at(w.kitie, "walk"@)),
        walk_line(w) == 7,
        doll_found(w),
        presents_untouched(w),
        doll_available(w) matches Some(evs) && evs.contains(e),
    ensures
        spec_can(e, w),
        doll_inv(spec_trigger(e, w)),
        doll_measure(spec_trigger(e, w)) < doll_measure(w),
{
    lemma_doll_lookups(w);
    let evs = doll_available(w)->0;
    assert(doll_taken(w));
    assert(e == evs[0]);
    assert(spec_can(e, w));
    let w2 = spec_trigger(e, w);
    if is_at(w.doggie, "walk"@) {
        let w1 = set_character_scene_m(w, "doggie"@, Some("home"@));
        assert(doll_catalog(w1));
        lemma_advance_home(w1);
        assert(w2 == advance_dialog_m(w1, "home"@));
    } else {
        let w1 = set_character_scene_m(w, "kitie"@, Some("home"@));
        assert(doll_catalog(w1));
        lemma_advance_home(w1);
        assert(w2 == advance_dialog_m(w1, "home"@));
    }
    assert(doll_inv(w2));
    assert(doll_measure(w2) < doll_measure(w));
}

} // verus!

verus! {

/// A step through the scripted middle of the story: talks at home and
/// doggie's departure to search.
proof fn lemma_step_middle(w: WorldModel, e: EventModel)
    requires
        doll_catalog(w),
        6 <= home_line(w) <= 15,
        both_home(w),
        walk_line(w) == 7,
        doll_found(w),
        presents_untouched(w),
        doll_available(w) matches Some(evs) && evs.contains(e),
    ensures
        spec_can(e, w),
        doll_inv(spec_trigger(e, w)),
        doll_measure(spec_trigger(e, w)) < doll_measure(w),
{
    lemma_doll_lookups(w);
    let h = home_line(w);
    let evs = doll_available(w)->0;
    assert(e == evs[0]);
    assert(spec_can(e, w));
    let w2 = spec_trigger(e, w);
    if h <= 14 {
        lemma_advance_home(w);
        assert(w2 == advance_dialog_m(w, "home"@));
    } else {
        assert(w2 == set_character_scene_m(w, "doggie"@, Some("doggie_search"@)));
    }
    assert(doll_inv(w2));
    assert(doll_measure(w2) < doll_measure(w));
}

/// A step of doggie's search: pick up a present, or come home with all
/// of them, which carries the home dialog onward.
proof fn lemma_step_doggie_search(w: WorldModel, e: EventModel)
    requires
        doll_catalog(w),
        home_line(w) == 15,
        is_at(w.doggie, "doggie_search"@),
        is_at(w.kitie, "home"@),
        walk_line(w) == 7,
        doll_found(w),
        doggie_presents_partial(w),
        kitie_presents_untouched(w),
        doll_available(w) matches Some(evs) && evs.contains(e),
    ensures
        spec_can(e, w),
        doll_inv(spec_trigger(e, w)),
        doll_measure(spec_trigger(e, w)) < doll_measure(w),
{
    lemma_doll_lookups(w);
    let evs = doll_available(w)->0;
    let picks = pick_events_m(w.items, "doggie"@, "doggie_pick"@, "doggie_search"@);
    lemma_pick_events_empty(w.items, "doggie"@, "doggie_pick"@, "doggie_search"@);
    if picks.len() == 0 {
        assert(pick_held(w, 1, "doggie"@) && pick_held(w, 2, "doggie"@));
        assert(e == evs[0]);
        assert(spec_can(e, w));
        let w2 = spec_trigger(e, w);
        let w1 = set_character_scene_m(w, "doggie"@, Some("home"@));
        assert(doll_catalog(w1));
        lemma_advance_home(w1);
        assert(w2 == advance_dialog_m(w1, "home"@));
        assert(doll_inv(w2));
        assert(doll_measure(w2) < doll_measure(w));
    } else {
        assert(evs == picks);
        lemma_pick_events_member(w.items, "doggie"@, "doggie_pick"@, "doggie_search"@, e);
        let j = choose|j: int|
            0 <= j < w.items.len() && (#[trigger] w.items[j].has_tag("doggie_pick"@))
                && w.items[j].state == ItemStateModel::InScene("doggie_search"@) && e == pick_m(
                "doggie"@,
                w.items[j].name,
            );
        assert(j == 1 || j == 2);
        assert(spec_can(e, w));
        let w2 = spec_trigger(e, w);
        lemma_doll_set_item(w, j, ItemStateModel::Owned("doggie"@));
        assert(w2 == (WorldModel {
            items: w.items.update(j, ItemModel { state: ItemStateModel::Owned("doggie"@), ..w.items[j] }),
            ..w
        }));
        assert(doll_inv(w2));
        assert(doll_measure(w2) < doll_measure(w));
    }
}

/// Kitie is sent on her own search.
proof fn lemma_step_sixteen(w: WorldModel, e: EventModel)
    requires
        doll_catalog(w),
        home_line(w) == 16,
        both_home(w),
        walk_line(w) == 7,
        doll_found(w),
        doggie_presents_held(w),
        kitie_presents_untouched(w),
        doll_available(w) matches Some(evs) && evs.contains(e),
    ensures
        spec_can(e, w),
        doll_inv(spec_trigger(e, w)),
        doll_measure(spec_trigger(e, w)) < doll_measure(w),
{
    lemma_doll_lookups(w);
    let evs = doll_available(w)->0;
    assert(e == evs[0]);
    assert(spec_can(e, w));
    let w2 = spec_trigger(e, w);
    assert(w2 == set_character_scene_m(w, "kitie"@, Some("kitie_search"@)));
    assert(doll_inv(w2));
    assert(doll_measure(w2) < doll_measure(w));
}

/// A step of kitie's search.
proof fn lemma_step_kitie_search(w: WorldModel, e: EventModel)
    requires
        doll_catalog(w),
        home_line(w) == 16,
        is_at(w.doggie, "home"@),
        is_at(w.kitie, "kitie_search"@),
        walk_line(w) == 7,
        doll_found(w),
        doggie_presents_held(w),
        kitie_presents_partial(w),
        doll_available(w) matches Some(evs) && evs.contains(e),
    ensures
        spec_can(e, w),
        doll_inv(spec_trigger(e, w)),
        doll_measure(spec_trigger(e, w)) < doll_measure(w),
{
    lemma_doll_lookups(w);
    let evs = doll_available(w)->0;
    let picks = pick_events_m(w.items, "kitie"@, "kitie_pick"@, "kitie_search"@);
    lemma_pick_events_empty(w.items, "kitie"@, "kitie_pick"@, "kitie_search"@);
    if picks.len() == 0 {
        assert(pick_held(w, 3, "kitie"@) && pick_held(w, 4, "kitie"@));
        assert(e == evs[0]);
        assert(spec_can(e, w));
        let w2 = spec_trigger(e, w);
        let w1 = set_character_scene_m(w, "kitie"@, Some("home"@));
        assert(doll_catalog(w1));
        lemma_advance_home(w1);
        assert(w2 == advance_dialog_m(w1, "home"@));
        assert(doll_inv(w2));
        assert(doll_measure(w2) < doll_measure(w));
    } else {
        assert(evs == picks);
        lemma_pick_events_member(w.items, "kitie"@, "kitie_pick"@, "kitie_search"@, e);
        let j = choose|j: int|
            0 <= j < w.items.len() && (#[trigger] w.items[j].has_tag("kitie_pick"@))
                && w.items[j].state == ItemStateModel::InScene("kitie_search"@) && e == pick_m(
                "kitie"@,
                w.items[j].name,
            );
        assert(j == 3 || j == 4);
        assert(spec_can(e, w));
        let w2 = spec_trigger(e, w);
        lemma_doll_set_item(w, j, ItemStateModel::Owned("kitie"@));
        assert(w2 == (WorldModel {
            items: w.items.update(j, ItemModel { state: ItemStateModel::Owned("kitie"@), ..w.items[j] }),
            ..w
        }));
        assert(doll_inv(w2));
        assert(doll_measure(w2) < doll_measure(w));
    }
}

/// A step of the present-laying: one present goes down; the last one
/// carries the story to its final line.
proof fn lemma_step_lay_down(w: WorldModel, e: EventModel)
    requires
        doll_catalog(w),
        home_line(w) == 17,
        both_home(w),
        walk_line(w) == 7,
        doll_found(w),
        presents_being_laid(w),
        !presents_all_laid(w),
        doll_available(w) matches Some(evs) && evs.contains(e),
    ensures
        spec_can(e, w),
        doll_inv(spec_trigger(e, w)),
        doll_measure(spec_trigger(e, w)) < doll_measure(w),
{
    lemma_doll_lookups(w);
    let evs = doll_available(w)->0;
    let a = lay_down_events_m(w.items, "doggie"@, "doggie_pick"@);
    let b = lay_down_events_m(w.items, "kitie"@, "kitie_pick"@);
    assert(evs == a + b);
    let k = choose|k: int| 0 <= k < evs.len() && evs[k] == e;
    let j: int;
    if k < a.len() {
        assert(a.contains(e)) by {
            assert(a[k] == e);
        }
        lemma_lay_down_events_member(w.items, "doggie"@, "doggie_pick"@, e);
        j = choose|j: int|
            0 <= j < w.items.len() && (#[trigger] w.items[j].has_tag("doggie_pick"@))
                && w.items[j].state == ItemStateModel::Owned("doggie"@) && e == lay_down_m(
                "doggie"@,
                w.items[j].name,
            );
        assert(j == 1 || j == 2);
    } else {
        assert(b.contains(e)) by {
            assert(b[k - a.len()] == e);
        }
        lemma_lay_down_events_member(w.items, "kitie"@, "kitie_pick"@, e);
        j = choose|j: int|
            0 <= j < w.items.len() && (#[trigger] w.items[j].has_tag("kitie_pick"@))
                && w.items[j].state == ItemStateModel::Owned("kitie"@) && e == lay_down_m(
                "kitie"@,
                w.items[j].name,
            );
        assert(j == 3 || j == 4);
    }
    assert(spec_can(e, w));
    let w2 = spec_trigger(e, w);
    lemma_doll_set_item(w, j, ItemStateModel::Unassigned);
    let w1 = WorldModel {
        items: w.items.update(j, ItemModel { state: ItemStateModel::Unassigned, ..w.items[j] }),
        ..w
    };
    assert(doll_catalog(w1));
    lemma_all_picks_laid(w1);
    if pick_laid(w1, 1) && pick_laid(w1, 2) && pick_laid(w1, 3) && pick_laid(w1, 4) {
        lemma_advance_home(w1);
        assert(w2 == advance_dialog_m(w1, "home"@));
    } else {
        assert(w2 == w1);
    }
    assert(doll_inv(w2));
    assert(doll_measure(w2) < doll_measure(w));
}

/// Exhaustiveness, second half: from any reachable state, every offered
/// event is currently legal, keeps the state reachable, and strictly
/// shrinks a finite measure - so breadth-first exploration of the story
/// never meets an unhandled state and always terminates at the ending.
pub proof fn lemma_doll_step(w: WorldModel, e: EventModel)
    requires
        doll_inv(w),
        doll_available(w) matches Some(evs) && evs.contains(e),
    ensures
        spec_can(e, w),
        doll_inv(spec_trigger(e, w)),
        doll_measure(spec_trigger(e, w)) < doll_measure(w),
        doll_measure(spec_trigger(e, w)) >= 0,
{
    lemma_doll_lookups(w);
    let h = home_line(w);
    let wd = walk_line(w);
    if h <= 5 && both_home(w) && wd == 0 && doll_waiting(w) && presents_untouched(w) {
        lemma_step_opening(w, e);
    } else if h == 5 && ((is_at(w.doggie, "walk"@) && is_at(w.kitie, "home"@)) || (is_at(
        w.doggie,
        "home"@,
    ) && is_at(w.kitie, "walk"@))) && wd == 0 && doll_waiting(w) && presents_untouched(w) {
        lemma_step_following(w, e);
    } else if h == 5 && is_at(w.doggie, "walk"@) && is_at(w.kitie, "walk"@) && ((wd <= 4
        && doll_waiting(w)) || (5 <= wd <= 7 && doll_found(w))) && presents_untouched(w) {
        lemma_step_walk(w, e);
    } else if h == 5 && ((is_at(w.doggie, "walk"@) && is_at(w.kitie, "home"@)) || (is_at(
        w.doggie,
        "home"@,
    ) && is_at(w.kitie, "walk"@))) && wd == 7 && doll_found(w) && presents_untouched(w) {
        lemma_step_returning(w, e);
    } else if 6 <= h <= 15 && both_home(w) && wd == 7 && doll_found(w) && presents_untouched(w) {
        lemma_step_middle(w, e);
    } else if h == 15 && is_at(w.doggie, "doggie_search"@) && is_at(w.kitie, "home"@) && wd == 7
        && doll_found(w) && doggie_presents_partial(w) && kitie_presents_untouched(w) {
        lemma_step_doggie_search(w, e);
    } else if h == 16 && both_home(w) && wd == 7 && doll_found(w) && doggie_presents_held(w)
        && kitie_presents_untouched(w) {
        lemma_step_sixteen(w, e);
    } else if h == 16 && is_at(w.doggie, "home"@) && is_at(w.kitie, "kitie_search"@) && wd == 7
        && doll_found(w) && doggie_presents_held(w) && kitie_presents_partial(w) {
        lemma_step_kitie_search(w, e);
    } else if h == 17 && both_home(w) && wd == 7 && doll_found(w) && presents_being_laid(w)
        && !presents_all_laid(w) {
        lemma_step_lay_down(w, e);
    } else {
        assert(h == 18 && both_home(w));
        lemma_doll_handled(w);
        assert(false);
    }
    let w2 = spec_trigger(e, w);
    lemma_doll_measure_nonneg(w2);
}

/// Under the invariant the measure never goes below zero.
pub proof fn lemma_doll_measure_nonneg(w: WorldModel)
    requires
        doll_inv(w),
    ensures
        doll_measure(w) >= 0,
{
}

} // verus!
