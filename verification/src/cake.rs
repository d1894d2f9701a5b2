//! The cake story: doggie and kitie bake a cake.  This module holds the
//! story's fixed catalog of items and scenes, the builder that sets up its
//! initial world, and the constructors for its events.

use vstd::prelude::*;

use crate::characters::{CharacterModel, Doggie, Kitie};
use crate::entities::{item_model, Item, ItemModel, ItemState, ItemStateModel, SceneModel, Scene};
use crate::events::{
    condition_model, effect_model, event_model, Condition, ConditionModel, Effect, EffectModel,
    Event, EventModel,
};
use crate::world::{world_model, World, WorldModel};

verus! {

/// A character that has not yet entered the story.
pub open spec fn offstage() -> CharacterModel {
    CharacterModel {
        scene: None,
        sand_cake_last: false,
        consumed_pie: false,
        consumed_soup: false,
        consumed_dumplings: false,
        consumed_meat: false,
    }
}

/// An ingredient waiting in the kitchen.
pub open spec fn ing_m(name: Seq<char>, batch: Seq<char>) -> ItemModel {
    ItemModel {
        name,
        tags: seq!["ingredient"@, "accepted"@, batch],
        state: ItemStateModel::InScene("kitchen"@),
    }
}

/// An ingredient the cake must not contain.
pub open spec fn rej_m(name: Seq<char>, batch: Seq<char>) -> ItemModel {
    ItemModel {
        name,
        tags: seq!["ingredient"@, "rejected"@, batch],
        state: ItemStateModel::InScene("kitchen"@),
    }
}

/// A toy waiting in the children's garden.
pub open spec fn toy_m(name: Seq<char>) -> ItemModel {
    ItemModel {
        name,
        tags: seq!["toy"@],
        state: ItemStateModel::InScene("children_garden"@),
    }
}

/// A meal of the final feast, waiting in the children's house.
pub open spec fn meal_m(name: Seq<char>) -> ItemModel {
    ItemModel { name, tags: seq!["meal"@], state: ItemStateModel::InScene("children_house"@) }
}

/// The full item catalog of the cake story, in its fixed order.
pub open spec fn cake_initial_items() -> Seq<ItemModel> {
    seq![
        ItemModel { name: "sand_cake"@, tags: Seq::empty(), state: ItemStateModel::Unassigned },
        ing_m("flour"@, "batch1"@),
        ing_m("milk"@, "batch1"@),
        ing_m("egg"@, "batch1"@),
        ing_m("suggar"@, "batch2"@),
        ing_m("salt"@, "batch2"@),
        ing_m("butter"@, "batch2"@),
        rej_m("jam"@, "batch2"@),
        ing_m("cheese"@, "batch2"@),
        ing_m("bacon"@, "batch3"@),
        ing_m("peanuts"@, "batch3"@),
        ing_m("cucumber"@, "batch3"@),
        ing_m("bones"@, "batch3"@),
        ing_m("four_mice"@, "batch4"@),
        ing_m("sausages"@, "batch4"@),
        ing_m("whipped_cream"@, "batch4"@),
        ing_m("onion"@, "batch4"@),
        ing_m("chocolate"@, "batch4"@),
        ing_m("sauce"@, "batch4"@),
        ing_m("garlic"@, "batch5"@),
        ing_m("pepper"@, "batch5"@),
        ing_m("lard"@, "batch5"@),
        ing_m("candy"@, "batch5"@),
        ing_m("greaves"@, "batch5"@),
        ing_m("cinnamon"@, "batch5"@),
        ing_m("porridge"@, "batch5"@),
        ing_m("cottage_cheese"@, "batch5"@),
        ing_m("ginger_bread"@, "batch6"@),
        ing_m("vinegar"@, "batch6"@),
        ing_m("cocoa"@, "batch6"@),
        ing_m("cabbadge"@, "batch6"@),
        ing_m("goose_head"@, "batch6"@),
        ing_m("raisins"@, "batch6"@),
        rej_m("bread"@, "batch6"@),
        toy_m("marbles"@),
        toy_m("ball"@),
        toy_m("dice"@),
        ItemModel {
            name: "bad_dog"@,
            tags: seq!["animal"@],
            state: ItemStateModel::InScene("garden"@),
        },
        meal_m("soup"@),
        meal_m("meat"@),
        meal_m("pie"@),
        meal_m("dumplings"@),
    ]
}

/// The scenes of the cake story; none of them carries a dialog script.
pub open spec fn cake_initial_scenes() -> Seq<SceneModel> {
    seq![
        SceneModel { name: "playground"@, dialog: None },
        SceneModel { name: "kitchen"@, dialog: None },
        SceneModel { name: "children_garden"@, dialog: None },
        SceneModel { name: "garden"@, dialog: None },
        SceneModel { name: "children_house"@, dialog: None },
        SceneModel { name: "way_home"@, dialog: None },
    ]
}

/// The initial world of the cake story: both characters offstage, every
/// item at its starting place, Czech as the default language.
pub open spec fn cake_initial_world() -> WorldModel {
    WorldModel {
        story: "doggie_and_kitie_cake"@,
        doggie: offstage(),
        kitie: offstage(),
        items: cake_initial_items(),
        scenes: cake_initial_scenes(),
        lang: "cs"@,
        languages: seq!["cs"@, "en-US"@],
    }
}

fn ingredient(name: &'static str, batch: &'static str) -> (r: Item)
    ensures
        item_model(r) == ing_m(name@, batch@),
{
    let tags = vec!["ingredient", "accepted", batch];
    proof {
        assert(crate::entities::tags_view(tags) =~= seq!["ingredient"@, "accepted"@, batch@]);
    }
    Item::new(name, tags, ItemState::InScene("kitchen".to_owned()))
}

fn rejected(name: &'static str, batch: &'static str) -> (r: Item)
    ensures
        item_model(r) == rej_m(name@, batch@),
{
    let tags = vec!["ingredient", "rejected", batch];
    proof {
        assert(crate::entities::tags_view(tags) =~= seq!["ingredient"@, "rejected"@, batch@]);
    }
    Item::new(name, tags, ItemState::InScene("kitchen".to_owned()))
}

fn toy(name: &'static str) -> (r: Item)
    ensures
        item_model(r) == toy_m(name@),
{
    let tags = vec!["toy"];
    proof {
        assert(crate::entities::tags_view(tags) =~= seq!["toy"@]);
    }
    Item::new(name, tags, ItemState::InScene("children_garden".to_owned()))
}

fn meal(name: &'static str) -> (r: Item)
    ensures
        item_model(r) == meal_m(name@),
{
    let tags = vec!["meal"];
    proof {
        assert(crate::entities::tags_view(tags) =~= seq!["meal"@]);
    }
    Item::new(name, tags, ItemState::InScene("children_house".to_owned()))
}

fn plain_scene(name: &'static str) -> (r: Scene)
    ensures
        crate::entities::scene_model(r) == (SceneModel { name: name@, dialog: None }),
{
    Scene { name, dialog: None }
}

/// Builds the cake story's world.
pub struct CakeWorldBuilder {}

impl CakeWorldBuilder {
    /// The complete initial world of the cake story.
    pub fn make_world() -> (r: World)
        ensures
            world_model(r) == cake_initial_world(),
            world_model(r).wf(),
    {
        let doggie = Doggie {
            scene: None,
            sand_cake_last: false,
            consumed_pie: false,
            consumed_soup: false,
            consumed_dumplings: false,
            consumed_meat: false,
        };
        let kitie = Kitie {
            scene: None,
            sand_cake_last: false,
            consumed_pie: false,
            consumed_soup: false,
            consumed_dumplings: false,
            consumed_meat: false,
        };
        let mut items: Vec<Item> = Vec::new();
        let empty_tags: Vec<&'static str> = Vec::new();
        proof {
            assert(crate::entities::tags_view(empty_tags) =~= Seq::<Seq<char>>::empty());
        }
        items.push(Item::new("sand_cake", empty_tags, ItemState::Unassigned));
        items.push(ingredient("flour", "batch1"));
        items.push(ingredient("milk", "batch1"));
        items.push(ingredient("egg", "batch1"));
        items.push(ingredient("suggar", "batch2"));
        items.push(ingredient("salt", "batch2"));
        items.push(ingredient("butter", "batch2"));
        items.push(rejected("jam", "batch2"));
        items.push(ingredient("cheese", "batch2"));
        items.push(ingredient("bacon", "batch3"));
        items.push(ingredient("peanuts", "batch3"));
        items.push(ingredient("cucumber", "batch3"));
        items.push(ingredient("bones", "batch3"));
        items.push(ingredient("four_mice", "batch4"));
        items.push(ingredient("sausages", "batch4"));
        items.push(ingredient("whipped_cream", "batch4"));
        items.push(ingredient("onion", "batch4"));
        items.push(ingredient("chocolate", "batch4"));
        items.push(ingredient("sauce", "batch4"));
        items.push(ingredient("garlic", "batch5"));
        items.push(ingredient("pepper", "batch5"));
        items.push(ingredient("lard", "batch5"));
        items.push(ingredient("candy", "batch5"));
        items.push(ingredient("greaves", "batch5"));
        items.push(ingredient("cinnamon", "batch5"));
        items.push(ingredient("porridge", "batch5"));
        items.push(ingredient("cottage_cheese", "batch5"));
        items.push(ingredient("ginger_bread", "batch6"));
        items.push(ingredient("vinegar", "batch6"));
        items.push(ingredient("cocoa", "batch6"));
        items.push(ingredient("cabbadge", "batch6"));
        items.push(ingredient("goose_head", "batch6"));
        items.push(ingredient("raisins", "batch6"));
        items.push(rejected("bread", "batch6"));
        items.push(toy("marbles"));
        items.push(toy("ball"));
        items.push(toy("dice"));
        let bad_dog_tags = vec!["animal"];
        proof {
            assert(crate::entities::tags_view(bad_dog_tags) =~= seq!["animal"@]);
        }
        items.push(
            Item::new("bad_dog", bad_dog_tags, ItemState::InScene("garden".to_owned())),
        );
        items.push(meal("soup"));
        items.push(meal("meat"));
        items.push(meal("pie"));
        items.push(meal("dumplings"));
        let mut scenes: Vec<Scene> = Vec::new();
        scenes.push(plain_scene("playground"));
        scenes.push(plain_scene("kitchen"));
        scenes.push(plain_scene("children_garden"));
        scenes.push(plain_scene("garden"));
        scenes.push(plain_scene("children_house"));
        scenes.push(plain_scene("way_home"));
        let languages = vec!["cs".to_owned(), "en-US".to_owned()];
        let r = World {
            story: "doggie_and_kitie_cake",
            doggie,
            kitie,
            items,
            scenes,
            lang: "cs".to_owned(),
            languages,
        };
        proof {
            assert(world_model(r).items =~= cake_initial_items());
            assert(world_model(r).scenes =~= cake_initial_scenes());
            assert(world_model(r).languages =~= seq!["cs"@, "en-US"@]);
            assert(world_model(r) == cake_initial_world());
            lemma_cake_initial_world_wf();
        }
        r
    }
}

/// The cake story's initial world satisfies the world invariant.
pub proof fn lemma_cake_initial_world_wf()
    ensures
        cake_initial_world().wf(),
{
    let w = cake_initial_world();
    reveal_with_fuel(crate::world::lookup_scene, 7);
    assert(w.has_scene("kitchen"@));
    assert(w.has_scene("children_garden"@));
    assert(w.has_scene("garden"@));
    assert(w.has_scene("children_house"@));
    assert forall|i: int| 0 <= i < w.items.len() implies match #[trigger] w.items[i].state {
        ItemStateModel::Unassigned => true,
        ItemStateModel::Owned(c) => w.character(c) is Some,
        ItemStateModel::InScene(s) => w.has_scene(s),
    } by {
    }
}

} // verus!

// ---------------------------------------------------------------------------
// The cake story's events.
// ---------------------------------------------------------------------------

verus! {

/// A pick of an ingredient (or other item) by a character, consuming the
/// item when it goes straight into the cake.
pub fn make_pick(name: &'static str, character: &'static str, item: &'static str, consume: bool)
    -> (r: Event)
    ensures
        event_model(r) == (EventModel::Pick {
            name: name@,
            character: character@,
            item: item@,
            consume,
            condition: ConditionModel::Always,
            effect: EffectModel::Nothing,
        }),
{
    Event::Pick { name, character, item, consume, condition: Condition::Always, effect: Effect::Nothing }
}

/// A handover of an owned item from one character to the other.
pub fn make_give(
    name: &'static str,
    from_character: &'static str,
    to_character: &'static str,
    item: &'static str,
    consume: bool,
) -> (r: Event)
    ensures
        event_model(r) == (EventModel::Give {
            name: name@,
            from_character: from_character@,
            to_character: to_character@,
            item: item@,
            consume,
            condition: ConditionModel::Always,
            effect: EffectModel::Nothing,
        }),
{
    Event::Give {
        name,
        from_character,
        to_character,
        item,
        consume,
        condition: Condition::Always,
        effect: Effect::Nothing,
    }
}

/// The walk from the playground to the kitchen, open once the sand cake
/// has been eaten.
pub fn make_move_to_kitchen(character: &'static str) -> (r: Event)
    ensures
        event_model(r) == (EventModel::Move {
            name: "move_to_kitchen"@,
            character: character@,
            from_scene: "playground"@,
            to_scene: "kitchen"@,
            condition: ConditionModel::ItemIsUnassigned("sand_cake"@),
            effect: EffectModel::Nothing,
        }),
{
    Event::Move {
        name: "move_to_kitchen",
        character,
        from_scene: "playground",
        to_scene: "kitchen",
        condition: Condition::ItemIsUnassigned("sand_cake"),
        effect: Effect::Nothing,
    }
}

/// Considering a disliked ingredient in the kitchen: nothing happens.
pub fn make_disliked_pick(name: &'static str, character: &'static str, item: &'static str) -> (r:
    Event)
    ensures
        event_model(r) == (EventModel::Void {
            name: name@,
            character: character@,
            item: Some(item@),
            scene: "kitchen"@,
            condition: ConditionModel::Always,
            effect: EffectModel::Nothing,
        }),
{
    Event::Void {
        name,
        character,
        item: Some(item),
        scene: "kitchen",
        condition: Condition::Always,
        effect: Effect::Nothing,
    }
}

/// The walk from the kitchen to the children's garden, open once every
/// accepted ingredient is in the cake.
pub fn make_move_to_children_garden(character: &'static str) -> (r: Event)
    ensures
        event_model(r) == (EventModel::Move {
            name: "move_to_children_garden"@,
            character: character@,
            from_scene: "kitchen"@,
            to_scene: "children_garden"@,
            condition: ConditionModel::AllTaggedUnassigned("accepted"@),
            effect: EffectModel::Nothing,
        }),
{
    Event::Move {
        name: "move_to_children_garden",
        character,
        from_scene: "kitchen",
        to_scene: "children_garden",
        condition: Condition::AllTaggedUnassigned("accepted"),
        effect: Effect::Nothing,
    }
}

/// Playing with an owned toy, possible only while the whole party stands
/// in one scene.
pub fn make_use_item(name: &'static str, character: &'static str, item: &'static str, consume: bool)
    -> (r: Event)
    ensures
        event_model(r) == (EventModel::UseItem {
            name: name@,
            character: character@,
            item: item@,
            consume,
            condition: ConditionModel::AllCharactersTogether,
            effect: EffectModel::Nothing,
        }),
{
    Event::UseItem {
        name,
        character,
        item,
        consume,
        condition: Condition::AllCharactersTogether,
        effect: Effect::Nothing,
    }
}

/// The walk from the children's garden to the garden, open once every toy
/// has been played into the cake.
pub fn make_move_to_garden(character: &'static str) -> (r: Event)
    ensures
        event_model(r) == (EventModel::Move {
            name: "move_to_garden"@,
            character: character@,
            from_scene: "children_garden"@,
            to_scene: "garden"@,
            condition: ConditionModel::AllTaggedUnassigned("toy"@),
            effect: EffectModel::Nothing,
        }),
{
    Event::Move {
        name: "move_to_garden",
        character,
        from_scene: "children_garden",
        to_scene: "garden",
        condition: Condition::AllTaggedUnassigned("toy"),
        effect: Effect::Nothing,
    }
}

/// Finding the bad dog in the garden, once both characters are there; the
/// dog is chased off (consumed).
pub fn make_find_bad_dog(character: &'static str) -> (r: Event)
    ensures
        event_model(r) == (EventModel::Pick {
            name: "find_bad_dog"@,
            character: character@,
            item: "bad_dog"@,
            consume: true,
            condition: ConditionModel::AllCharactersIn("garden"@),
            effect: EffectModel::Nothing,
        }),
{
    Event::Pick {
        name: "find_bad_dog",
        character,
        item: "bad_dog",
        consume: true,
        condition: Condition::AllCharactersIn("garden"),
        effect: Effect::Nothing,
    }
}

/// The walk from the garden to the children's house, open once the bad
/// dog has been found.
pub fn make_move_to_children_house(character: &'static str) -> (r: Event)
    ensures
        event_model(r) == (EventModel::Move {
            name: "move_to_children_house"@,
            character: character@,
            from_scene: "garden"@,
            to_scene: "children_house"@,
            condition: ConditionModel::ItemIsUnassigned("bad_dog"@),
            effect: EffectModel::Nothing,
        }),
{
    Event::Move {
        name: "move_to_children_house",
        character,
        from_scene: "garden",
        to_scene: "children_house",
        condition: Condition::ItemIsUnassigned("bad_dog"),
        effect: Effect::Nothing,
    }
}

/// Eating one meal of the final feast in the children's house: the meal
/// is marked consumed for the eater, and once both characters are full
/// the whole party sets off home.
pub fn make_eat_meal(name: &'static str, character: &'static str, item: &'static str) -> (r: Event)
    ensures
        event_model(r) == (EventModel::Void {
            name: name@,
            character: character@,
            item: Some(item@),
            scene: "children_house"@,
            condition: ConditionModel::EventItemTagged("meal"@),
            effect: EffectModel::MarkConsumed,
        }),
{
    Event::Void {
        name,
        character,
        item: Some(item),
        scene: "children_house",
        condition: Condition::EventItemTagged("meal"),
        effect: Effect::MarkConsumed,
    }
}

} // verus!
