//! The closed set of event kinds.  An event is a transient value: a kind
//! tag, the names of the entities it touches, an optional extra
//! precondition and an optional extra effect, both drawn from a closed set
//! of story rules.  `can_be_triggered` is pure; `trigger` re-checks it and
//! leaves the world untouched when it does not hold.

use vstd::prelude::*;

use crate::entities::{ItemModel, ItemState, ItemStateModel, SceneModel};
use crate::translations::{get_message, message_key, spec_message};
use crate::values::str_eq;
use crate::world::{
    lemma_update_item_at, lemma_update_scene_at, update_item, update_scene, World, WorldModel,
};

verus! {

/// An extra precondition a story can attach to an event.
#[derive(Clone, Copy, Debug, PartialEq)]
pub enum Condition {
    Always,
    /// The named item is unassigned (not yet placed, or already consumed).
    ItemIsUnassigned(&'static str),
    /// Every item carrying the tag is unassigned.
    AllTaggedUnassigned(&'static str),
    /// Both characters stand in the named scene.
    AllCharactersIn(&'static str),
    /// Both characters stand in the same scene.
    AllCharactersTogether,
    /// The event's own item carries the tag.
    EventItemTagged(&'static str),
    /// The named scene's dialog cursor stands at the given line.
    SceneDialogAt(&'static str, u64),
}

/// An extra effect a story can attach to an event, applied after the
/// kind's built-in effect.
#[derive(Clone, Copy, Debug, PartialEq)]
pub enum Effect {
    Nothing,
    /// Marks the event's meal item as consumed by the event's character;
    /// once both characters are full, both walk home.
    MarkConsumed,
    /// Advances the named scene's dialog cursor.
    AdvanceSceneDialog(&'static str),
    /// Advances the named scene's dialog cursor once both characters
    /// stand in it.
    AdvanceDialogWhenAllIn(&'static str),
    /// Advances the named scene's dialog cursor once every item carrying
    /// the tag is unassigned.
    AdvanceDialogWhenTagDone(&'static str, &'static str),
}

/// One narrative action: a kind with its parameters.
#[derive(Clone, Copy, Debug, PartialEq)]
pub enum Event {
    Move {
        name: &'static str,
        character: &'static str,
        from_scene: &'static str,
        to_scene: &'static str,
        condition: Condition,
        effect: Effect,
    },
    Pick {
        name: &'static str,
        character: &'static str,
        item: &'static str,
        consume: bool,
        condition: Condition,
        effect: Effect,
    },
    Give {
        name: &'static str,
        from_character: &'static str,
        to_character: &'static str,
        item: &'static str,
        consume: bool,
        condition: Condition,
        effect: Effect,
    },
    UseItem {
        name: &'static str,
        character: &'static str,
        item: &'static str,
        consume: bool,
        condition: Condition,
        effect: Effect,
    },
    Void {
        name: &'static str,
        character: &'static str,
        item: Option<&'static str>,
        scene: &'static str,
        condition: Condition,
        effect: Effect,
    },
    Talk {
        name: &'static str,
        character: &'static str,
        scene: &'static str,
        index: u64,
    },
}

pub ghost enum ConditionModel {
    Always,
    ItemIsUnassigned(Seq<char>),
    AllTaggedUnassigned(Seq<char>),
    AllCharactersIn(Seq<char>),
    AllCharactersTogether,
    EventItemTagged(Seq<char>),
    SceneDialogAt(Seq<char>, u64),
}

pub ghost enum EffectModel {
    Nothing,
    MarkConsumed,
    AdvanceSceneDialog(Seq<char>),
    AdvanceDialogWhenAllIn(Seq<char>),
    AdvanceDialogWhenTagDone(Seq<char>, Seq<char>),
}

pub ghost enum EventModel {
    Move {
        name: Seq<char>,
        character: Seq<char>,
        from_scene: Seq<char>,
        to_scene: Seq<char>,
        condition: ConditionModel,
        effect: EffectModel,
    },
    Pick {
        name: Seq<char>,
        character: Seq<char>,
        item: Seq<char>,
        consume: bool,
        condition: ConditionModel,
        effect: EffectModel,
    },
    Give {
        name: Seq<char>,
        from_character: Seq<char>,
        to_character: Seq<char>,
        item: Seq<char>,
        consume: bool,
        condition: ConditionModel,
        effect: EffectModel,
    },
    UseItem {
        name: Seq<char>,
        character: Seq<char>,
        item: Seq<char>,
        consume: bool,
        condition: ConditionModel,
        effect: EffectModel,
    },
    Void {
        name: Seq<char>,
        character: Seq<char>,
        item: Option<Seq<char>>,
        scene: Seq<char>,
        condition: ConditionModel,
        effect: EffectModel,
    },
    Talk { name: Seq<char>, character: Seq<char>, scene: Seq<char>, index: u64 },
}

pub open spec fn condition_model(c: Condition) -> ConditionModel {
    match c {
        Condition::Always => ConditionModel::Always,
        Condition::ItemIsUnassigned(n) => ConditionModel::ItemIsUnassigned(n@),
        Condition::AllTaggedUnassigned(t) => ConditionModel::AllTaggedUnassigned(t@),
        Condition::AllCharactersIn(s) => ConditionModel::AllCharactersIn(s@),
        Condition::AllCharactersTogether => ConditionModel::AllCharactersTogether,
        Condition::EventItemTagged(t) => ConditionModel::EventItemTagged(t@),
        Condition::SceneDialogAt(s, d) => ConditionModel::SceneDialogAt(s@, d),
    }
}

pub open spec fn effect_model(f: Effect) -> EffectModel {
    match f {
        Effect::Nothing => EffectModel::Nothing,
        Effect::MarkConsumed => EffectModel::MarkConsumed,
        Effect::AdvanceSceneDialog(s) => EffectModel::AdvanceSceneDialog(s@),
        Effect::AdvanceDialogWhenAllIn(s) => EffectModel::AdvanceDialogWhenAllIn(s@),
        Effect::AdvanceDialogWhenTagDone(s, t) => EffectModel::AdvanceDialogWhenTagDone(s@, t@),
    }
}

pub open spec fn opt_str_view(s: Option<&'static str>) -> Option<Seq<char>> {
    match s {
        None => None,
        Some(x) => Some(x@),
    }
}

pub open spec fn event_model(e: Event) -> EventModel {
    match e {
        Event::Move { name, character, from_scene, to_scene, condition, effect } =>
            EventModel::Move {
            name: name@,
            character: character@,
            from_scene: from_scene@,
            to_scene: to_scene@,
            condition: condition_model(condition),
            effect: effect_model(effect),
        },
        Event::Pick { name, character, item, consume, condition, effect } => EventModel::Pick {
            name: name@,
            character: character@,
            item: item@,
            consume,
            condition: condition_model(condition),
            effect: effect_model(effect),
        },
        Event::Give {
            name,
            from_character,
            to_character,
            item,
            consume,
            condition,
            effect,
        } => EventModel::Give {
            name: name@,
            from_character: from_character@,
            to_character: to_character@,
            item: item@,
            consume,
            condition: condition_model(condition),
            effect: effect_model(effect),
        },
        Event::UseItem { name, character, item, consume, condition, effect } =>
            EventModel::UseItem {
            name: name@,
            character: character@,
            item: item@,
            consume,
            condition: condition_model(condition),
            effect: effect_model(effect),
        },
        Event::Void { name, character, item, scene, condition, effect } => EventModel::Void {
            name: name@,
            character: character@,
            item: opt_str_view(item),
            scene: scene@,
            condition: condition_model(condition),
            effect: effect_model(effect),
        },
        Event::Talk { name, character, scene, index } => EventModel::Talk {
            name: name@,
            character: character@,
            scene: scene@,
            index,
        },
    }
}

impl EventModel {
    pub open spec fn name(self) -> Seq<char> {
        match self {
            EventModel::Move { name, .. } => name,
            EventModel::Pick { name, .. } => name,
            EventModel::Give { name, .. } => name,
            EventModel::UseItem { name, .. } => name,
            EventModel::Void { name, .. } => name,
            EventModel::Talk { name, .. } => name,
        }
    }

    /// The character performing the event.
    pub open spec fn character(self) -> Seq<char> {
        match self {
            EventModel::Move { character, .. } => character,
            EventModel::Pick { character, .. } => character,
            EventModel::Give { from_character, .. } => from_character,
            EventModel::UseItem { character, .. } => character,
            EventModel::Void { character, .. } => character,
            EventModel::Talk { character, .. } => character,
        }
    }

    /// The item the event touches, if any.
    pub open spec fn item(self) -> Option<Seq<char>> {
        match self {
            EventModel::Move { .. } => None,
            EventModel::Pick { item, .. } => Some(item),
            EventModel::Give { item, .. } => Some(item),
            EventModel::UseItem { item, .. } => Some(item),
            EventModel::Void { item, .. } => item,
            EventModel::Talk { .. } => None,
        }
    }
}

/// Every item carrying `tag` is unassigned.
pub open spec fn spec_all_tagged_unassigned(w: WorldModel, tag: Seq<char>) -> bool {
    forall|i: int|
        0 <= i < w.items.len() ==> ((#[trigger] w.items[i]).has_tag(tag) ==> w.items[i].state
            is Unassigned)
}

/// Whether an attached condition holds of the world; `event_item` is the
/// event's own item, for conditions that speak of it.
pub open spec fn spec_condition_holds(
    c: ConditionModel,
    w: WorldModel,
    event_item: Option<Seq<char>>,
) -> bool {
    match c {
        ConditionModel::Always => true,
        ConditionModel::ItemIsUnassigned(n) => w.item(n) matches Some(it) && it.state
            is Unassigned,
        ConditionModel::AllTaggedUnassigned(tag) => spec_all_tagged_unassigned(w, tag),
        ConditionModel::AllCharactersIn(s) => w.doggie.scene == Some(s) && w.kitie.scene == Some(
            s,
        ),
        ConditionModel::AllCharactersTogether => w.doggie.scene == w.kitie.scene,
        ConditionModel::EventItemTagged(tag) => event_item matches Some(n) && w.item(n) matches Some(
            it,
        ) && it.has_tag(tag),
        ConditionModel::SceneDialogAt(s, d) => w.scene(s) matches Some(sc) && sc.dialog == Some(
            d,
        ),
    }
}

/// The structural precondition of the kind, conjoined with the attached
/// condition: when this fails, triggering is a no-op.
pub open spec fn spec_can(e: EventModel, w: WorldModel) -> bool {
    match e {
        EventModel::Move { character, from_scene, to_scene, condition, .. } => {
            &&& w.character(character) matches Some(c) && c.scene == Some(from_scene)
            &&& w.has_scene(to_scene)
            &&& spec_condition_holds(condition, w, None)
        },
        EventModel::Pick { character, item, condition, .. } => {
            &&& w.character(character) matches Some(c) && c.scene matches Some(s) && w.item(item)
                matches Some(it) && it.state == ItemStateModel::InScene(s)
            &&& spec_condition_holds(condition, w, Some(item))
        },
        EventModel::Give { from_character, to_character, item, condition, .. } => {
            &&& w.character(from_character) matches Some(f) && w.character(to_character)
                matches Some(t) && f.scene is Some && f.scene == t.scene
            &&& w.item(item) matches Some(it) && it.state == ItemStateModel::Owned(from_character)
            &&& spec_condition_holds(condition, w, Some(item))
        },
        EventModel::UseItem { character, item, condition, .. } => {
            &&& w.character(character) is Some
            &&& w.item(item) matches Some(it) && it.state == ItemStateModel::Owned(character)
            &&& spec_condition_holds(condition, w, Some(item))
        },
        EventModel::Void { character, item, scene, condition, .. } => {
            &&& w.character(character) matches Some(c) && c.scene == Some(scene)
            &&& match item {
                None => true,
                Some(n) => w.item(n) is Some,
            }
            &&& spec_condition_holds(condition, w, item)
        },
        EventModel::Talk { scene, index, .. } => w.scene(scene) matches Some(sc) && sc.dialog
            == Some(index),
    }
}

/// Whether every item carrying `tag` is unassigned.
fn all_tagged_unassigned(world: &World, tag: &str) -> (r: bool)
    ensures
        r == spec_all_tagged_unassigned(crate::world::world_model(*world), tag@),
{
    let ghost m = crate::world::world_model(*world).items;
    let mut i: usize = 0;
    while i < world.items.len()
        invariant
            i <= world.items@.len(),
            m == crate::world::world_model(*world).items,
            m.len() == world.items@.len(),
            forall|j: int| 0 <= j < m.len() ==> m[j] == crate::entities::item_model(world.items@[j]),
            forall|j: int| 0 <= j < i ==> (m[j].has_tag(tag@) ==> m[j].state is Unassigned),
        decreases world.items@.len() - i,
    {
        if world.items[i].has_tag(tag) {
            if !world.items[i].state.is_unassigned() {
                proof {
                    assert(m[i as int].has_tag(tag@) && !(m[i as int].state is Unassigned));
                }
                return false;
            }
        }
        i = i + 1;
    }
    true
}

impl Event {
    /// The stable identifier of this event, used for message keys.
    pub fn name(&self) -> (r: &'static str)
        ensures
            r@ == event_model(*self).name(),
    {
        match self {
            Event::Move { name, .. } => name,
            Event::Pick { name, .. } => name,
            Event::Give { name, .. } => name,
            Event::UseItem { name, .. } => name,
            Event::Void { name, .. } => name,
            Event::Talk { name, .. } => name,
        }
    }

    /// The character performing this event.
    pub fn character(&self) -> (r: &'static str)
        ensures
            r@ == event_model(*self).character(),
    {
        match self {
            Event::Move { character, .. } => character,
            Event::Pick { character, .. } => character,
            Event::Give { from_character, .. } => from_character,
            Event::UseItem { character, .. } => character,
            Event::Void { character, .. } => character,
            Event::Talk { character, .. } => character,
        }
    }

    /// The item this event touches, if any.
    pub fn item(&self) -> (r: Option<&'static str>)
        ensures
            opt_str_view(r) == event_model(*self).item(),
    {
        match self {
            Event::Move { .. } => None,
            Event::Pick { item, .. } => Some(item),
            Event::Give { item, .. } => Some(item),
            Event::UseItem { item, .. } => Some(item),
            Event::Void { item, .. } => *item,
            Event::Talk { .. } => None,
        }
    }
}

fn condition_holds(c: &Condition, world: &World, event_item: Option<&'static str>) -> (r: bool)
    ensures
        r == spec_condition_holds(
            condition_model(*c),
            crate::world::world_model(*world),
            opt_str_view(event_item),
        ),
{
    match c {
        Condition::Always => true,
        Condition::ItemIsUnassigned(n) => match world.item_state(n) {
            Some(s) => s.is_unassigned(),
            None => false,
        },
        Condition::AllTaggedUnassigned(tag) => all_tagged_unassigned(world, tag),
        Condition::AllCharactersIn(s) => {
            let d_there = match &world.doggie.scene {
                Some(ds) => str_eq(ds.as_str(), s),
                None => false,
            };
            let k_there = match &world.kitie.scene {
                Some(ks) => str_eq(ks.as_str(), s),
                None => false,
            };
            d_there && k_there
        },
        Condition::AllCharactersTogether => match (&world.doggie.scene, &world.kitie.scene) {
            (None, None) => true,
            (Some(ds), Some(ks)) => str_eq(ds.as_str(), ks.as_str()),
            _ => false,
        },
        Condition::EventItemTagged(tag) => match event_item {
            Some(n) => match world.find_item(n) {
                Some(i) => world.items[i].has_tag(tag),
                None => false,
            },
            None => false,
        },
        Condition::SceneDialogAt(s, d) => match world.scene_dialog(s) {
            Some(Some(cur)) => cur == *d,
            _ => false,
        },
    }
}

impl Event {
    /// Whether this event is currently legal: the kind's structural
    /// precondition and the attached condition both hold.  Pure.
    pub fn can_be_triggered(&self, world: &World) -> (r: bool)
        ensures
            r == spec_can(event_model(*self), crate::world::world_model(*world)),
    {
        match self {
            Event::Move { character, from_scene, to_scene, condition, .. } => {
                let placed = match world.character_scene(character) {
                    Some(Some(s)) => str_eq(s.as_str(), from_scene),
                    _ => false,
                };
                placed && world.find_scene(to_scene).is_some() && condition_holds(
                    condition,
                    world,
                    None,
                )
            },
            Event::Pick { character, item, condition, .. } => {
                let in_reach = match world.character_scene(character) {
                    Some(Some(s)) => match world.item_state(item) {
                        Some(st) => st.is_in_scene(s.as_str()),
                        None => false,
                    },
                    _ => false,
                };
                in_reach && condition_holds(condition, world, Some(item))
            },
            Event::Give { from_character, to_character, item, condition, .. } => {
                let together = match (
                    world.character_scene(from_character),
                    world.character_scene(to_character),
                ) {
                    (Some(Some(fs)), Some(Some(ts))) => str_eq(fs.as_str(), ts.as_str()),
                    _ => false,
                };
                let owned = match world.item_state(item) {
                    Some(st) => st.is_owned_by(from_character),
                    None => false,
                };
                together && owned && condition_holds(condition, world, Some(item))
            },
            Event::UseItem { character, item, condition, .. } => {
                let known = world.character_scene(character).is_some();
                let owned = match world.item_state(item) {
                    Some(st) => st.is_owned_by(character),
                    None => false,
                };
                known && owned && condition_holds(condition, world, Some(item))
            },
            Event::Void { character, item, scene, condition, .. } => {
                let placed = match world.character_scene(character) {
                    Some(Some(s)) => str_eq(s.as_str(), scene),
                    _ => false,
                };
                let item_known = match item {
                    None => true,
                    Some(n) => world.find_item(n).is_some(),
                };
                placed && item_known && condition_holds(condition, world, *item)
            },
            Event::Talk { scene, index, .. } => match world.scene_dialog(scene) {
                Some(Some(cur)) => cur == *index,
                _ => false,
            },
        }
    }
}

} // verus!

// ---------------------------------------------------------------------------
// Triggering: the transition function of the engine.
// ---------------------------------------------------------------------------

verus! {

use crate::characters::CharacterModel;

/// The world with the named character moved to `scene`; an unknown name
/// changes nothing.
pub open spec fn set_character_scene_m(
    w: WorldModel,
    name: Seq<char>,
    scene: Option<Seq<char>>,
) -> WorldModel {
    if name == "doggie"@ {
        WorldModel { doggie: CharacterModel { scene, ..w.doggie }, ..w }
    } else if name == "kitie"@ {
        WorldModel { kitie: CharacterModel { scene, ..w.kitie }, ..w }
    } else {
        w
    }
}

/// The world with the named scene's dialog cursor one step further; a
/// scene without a cursor, an unknown scene, or a cursor at the numeric
/// limit changes nothing.
pub open spec fn advance_dialog_m(w: WorldModel, scene: Seq<char>) -> WorldModel {
    match w.scene(scene) {
        Some(sc) => match sc.dialog {
            Some(d) => WorldModel {
                scenes: update_scene(
                    w.scenes,
                    scene,
                    Some(
                        if d < u64::MAX {
                            (d + 1) as u64
                        } else {
                            d
                        },
                    ),
                ),
                ..w
            },
            None => w,
        },
        None => w,
    }
}

/// The named character with the meal flag of `item` set; an item that is
/// no meal of the feast changes nothing.
pub open spec fn mark_flag(c: CharacterModel, item: Seq<char>) -> CharacterModel {
    if item == "meat"@ {
        CharacterModel { consumed_meat: true, ..c }
    } else if item == "dumplings"@ {
        CharacterModel { consumed_dumplings: true, ..c }
    } else if item == "soup"@ {
        CharacterModel { consumed_soup: true, ..c }
    } else if item == "pie"@ {
        CharacterModel { consumed_pie: true, ..c }
    } else {
        c
    }
}

/// Marks the event's meal as consumed by the event's character; once both
/// characters are full and the way home exists, both set off on it.
pub open spec fn spec_mark_consumed(
    w: WorldModel,
    character: Seq<char>,
    item: Option<Seq<char>>,
) -> WorldModel {
    let w1 = match item {
        Some(n) => if character == "doggie"@ {
            WorldModel { doggie: mark_flag(w.doggie, n), ..w }
        } else if character == "kitie"@ {
            WorldModel { kitie: mark_flag(w.kitie, n), ..w }
        } else {
            w
        },
        None => w,
    };
    if w1.doggie.spec_full() && w1.kitie.spec_full() && w1.has_scene("way_home"@) {
        WorldModel {
            doggie: CharacterModel { scene: Some("way_home"@), ..w1.doggie },
            kitie: CharacterModel { scene: Some("way_home"@), ..w1.kitie },
            ..w1
        }
    } else {
        w1
    }
}

/// The attached effect, applied to the world.
pub open spec fn spec_apply_effect(
    f: EffectModel,
    character: Seq<char>,
    item: Option<Seq<char>>,
    w: WorldModel,
) -> WorldModel {
    match f {
        EffectModel::Nothing => w,
        EffectModel::MarkConsumed => spec_mark_consumed(w, character, item),
        EffectModel::AdvanceSceneDialog(s) => advance_dialog_m(w, s),
        EffectModel::AdvanceDialogWhenAllIn(s) => if w.doggie.scene == Some(s) && w.kitie.scene
            == Some(s) {
            advance_dialog_m(w, s)
        } else {
            w
        },
        EffectModel::AdvanceDialogWhenTagDone(s, tag) => if spec_all_tagged_unassigned(w, tag) {
            advance_dialog_m(w, s)
        } else {
            w
        },
    }
}

/// What triggering does: nothing at all when the event is not currently
/// legal, otherwise the kind's built-in effect followed by the attached
/// effect.
pub open spec fn spec_trigger(e: EventModel, w: WorldModel) -> WorldModel {
    if !spec_can(e, w) {
        w
    } else {
        match e {
            EventModel::Move { character, to_scene, effect, .. } => spec_apply_effect(
                effect,
                character,
                None,
                set_character_scene_m(w, character, Some(to_scene)),
            ),
            EventModel::Pick { character, item, consume, effect, .. } => {
                let st = if consume {
                    ItemStateModel::Unassigned
                } else {
                    ItemStateModel::Owned(character)
                };
                spec_apply_effect(
                    effect,
                    character,
                    Some(item),
                    WorldModel { items: update_item(w.items, item, st), ..w },
                )
            },
            EventModel::Give { from_character, to_character, item, consume, effect, .. } => {
                let st = if consume {
                    ItemStateModel::Unassigned
                } else {
                    ItemStateModel::Owned(to_character)
                };
                spec_apply_effect(
                    effect,
                    from_character,
                    Some(item),
                    WorldModel { items: update_item(w.items, item, st), ..w },
                )
            },
            EventModel::UseItem { character, item, consume, effect, .. } => {
                let w1 = if consume {
                    WorldModel {
                        items: update_item(w.items, item, ItemStateModel::Unassigned),
                        ..w
                    }
                } else {
                    w
                };
                spec_apply_effect(effect, character, Some(item), w1)
            },
            EventModel::Void { character, item, effect, .. } => spec_apply_effect(
                effect,
                character,
                item,
                w,
            ),
            EventModel::Talk { scene, .. } => advance_dialog_m(w, scene),
        }
    }
}

/// Triggering an event that is not legal changes nothing: the
/// precondition/effect coupling of every kind.
pub proof fn lemma_trigger_blocked_is_noop(e: EventModel, w: WorldModel)
    ensures
        !spec_can(e, w) ==> spec_trigger(e, w) == w,
{
}

fn set_character_scene(world: &mut World, name: &str, scene: Option<String>)
    ensures
        crate::world::world_model(*final(world)) == set_character_scene_m(
            crate::world::world_model(*old(world)),
            name@,
            crate::characters::opt_view(scene),
        ),
{
    if str_eq(name, "doggie") {
        world.doggie.scene = scene;
    } else if str_eq(name, "kitie") {
        world.kitie.scene = scene;
    }
}

fn set_item_state(world: &mut World, item: &str, st: ItemState)
    ensures
        crate::world::world_model(*final(world)) == (WorldModel {
            items: update_item(
                crate::world::world_model(*old(world)).items,
                item@,
                crate::entities::state_model(st),
            ),
            ..crate::world::world_model(*old(world))
        }),
{
    let ghost w0 = crate::world::world_model(*world);
    match world.find_item(item) {
        Some(i) => {
            proof {
                lemma_update_item_at(w0.items, item@, crate::entities::state_model(st), i as int);
            }
            world.items[i].state = st;
            proof {
                assert(crate::world::world_model(*world).items =~= update_item(
                    w0.items,
                    item@,
                    crate::entities::state_model(st),
                ));
            }
        },
        None => {
            proof {
                crate::world::lemma_update_item_none(w0.items, item@, crate::entities::state_model(st));
            }
        },
    }
}

fn advance_dialog(world: &mut World, scene: &str)
    ensures
        crate::world::world_model(*final(world)) == advance_dialog_m(
            crate::world::world_model(*old(world)),
            scene@,
        ),
{
    let ghost w0 = crate::world::world_model(*world);
    match world.find_scene(scene) {
        Some(i) => {
            match world.scenes[i].dialog {
                Some(d) => {
                    let next: u64 = if d < u64::MAX {
                        d + 1
                    } else {
                        d
                    };
                    proof {
                        lemma_update_scene_at(w0.scenes, scene@, Some(next), i as int);
                    }
                    world.scenes[i].dialog = Some(next);
                    proof {
                        assert(crate::world::world_model(*world).scenes =~= update_scene(
                            w0.scenes,
                            scene@,
                            Some(next),
                        ));
                    }
                },
                None => {},
            }
        },
        None => {},
    }
}

fn mark_consumed(world: &mut World, character: &str, item: Option<&'static str>)
    ensures
        crate::world::world_model(*final(world)) == spec_mark_consumed(
            crate::world::world_model(*old(world)),
            character@,
            opt_str_view(item),
        ),
{
    if let Some(n) = item {
        if str_eq(character, "doggie") {
            if str_eq(n, "meat") {
                world.doggie.consumed_meat = true;
            } else if str_eq(n, "dumplings") {
                world.doggie.consumed_dumplings = true;
            } else if str_eq(n, "soup") {
                world.doggie.consumed_soup = true;
            } else if str_eq(n, "pie") {
                world.doggie.consumed_pie = true;
            }
        } else if str_eq(character, "kitie") {
            if str_eq(n, "meat") {
                world.kitie.consumed_meat = true;
            } else if str_eq(n, "dumplings") {
                world.kitie.consumed_dumplings = true;
            } else if str_eq(n, "soup") {
                world.kitie.consumed_soup = true;
            } else if str_eq(n, "pie") {
                world.kitie.consumed_pie = true;
            }
        }
    }
    if world.doggie.full() && world.kitie.full() && world.find_scene("way_home").is_some() {
        world.doggie.scene = Some("way_home".to_owned());
        world.kitie.scene = Some("way_home".to_owned());
    }
}

fn apply_effect(world: &mut World, f: &Effect, character: &str, item: Option<&'static str>)
    ensures
        crate::world::world_model(*final(world)) == spec_apply_effect(
            effect_model(*f),
            character@,
            opt_str_view(item),
            crate::world::world_model(*old(world)),
        ),
{
    match f {
        Effect::Nothing => {},
        Effect::MarkConsumed => mark_consumed(world, character, item),
        Effect::AdvanceSceneDialog(s) => advance_dialog(world, s),
        Effect::AdvanceDialogWhenAllIn(s) => {
            let d_there = match &world.doggie.scene {
                Some(ds) => str_eq(ds.as_str(), s),
                None => false,
            };
            let k_there = match &world.kitie.scene {
                Some(ks) => str_eq(ks.as_str(), s),
                None => false,
            };
            if d_there && k_there {
                advance_dialog(world, s);
            }
        },
        Effect::AdvanceDialogWhenTagDone(s, tag) => {
            if all_tagged_unassigned(world, tag) {
                advance_dialog(world, s);
            }
        },
    }
}

impl Event {
    /// Applies this event to the world: the built-in effect of the kind,
    /// then the attached effect.  When the event is not currently legal
    /// the world is left exactly as it was.
    pub fn trigger(&self, world: &mut World)
        ensures
            crate::world::world_model(*final(world)) == spec_trigger(
                event_model(*self),
                crate::world::world_model(*old(world)),
            ),
    {
        if !self.can_be_triggered(world) {
            return ;
        }
        match self {
            Event::Move { character, to_scene, effect, .. } => {
                set_character_scene(world, character, Some((*to_scene).to_owned()));
                apply_effect(world, effect, character, None);
            },
            Event::Pick { character, item, consume, effect, .. } => {
                if *consume {
                    set_item_state(world, item, ItemState::Unassigned);
                } else {
                    set_item_state(world, item, ItemState::Owned((*character).to_owned()));
                }
                apply_effect(world, effect, character, Some(item));
            },
            Event::Give { from_character, to_character, item, consume, effect, .. } => {
                if *consume {
                    set_item_state(world, item, ItemState::Unassigned);
                } else {
                    set_item_state(world, item, ItemState::Owned((*to_character).to_owned()));
                }
                apply_effect(world, effect, from_character, Some(item));
            },
            Event::UseItem { character, item, consume, effect, .. } => {
                if *consume {
                    set_item_state(world, item, ItemState::Unassigned);
                }
                apply_effect(world, effect, character, Some(item));
            },
            Event::Void { character, item, effect, .. } => {
                apply_effect(world, effect, character, *item);
            },
            Event::Talk { scene, .. } => {
                advance_dialog(world, scene);
            },
        }
    }
}

} // verus!

// ---------------------------------------------------------------------------
// Preservation of the world invariant: item-state exclusivity with valid
// entity references survives every trigger.
// ---------------------------------------------------------------------------

verus! {

use crate::world::{lemma_item_index, lemma_lookup_scene_same_names, lemma_scene_index};
use crate::world::{item_index, scene_index};

/// Advancing a dialog cursor keeps the invariant: only a cursor changes,
/// no name and no state.
pub proof fn lemma_advance_dialog_wf(w: WorldModel, s: Seq<char>)
    requires
        w.wf(),
    ensures
        advance_dialog_m(w, s).wf(),
{
    let w2 = advance_dialog_m(w, s);
    if w.scene(s) is Some {
        let sc = w.scene(s)->0;
        if sc.dialog is Some {
            let d = sc.dialog->0;
            let next: u64 = if d < u64::MAX {
                (d + 1) as u64
            } else {
                d
            };
            lemma_scene_index(w.scenes, s, Some(next));
            let r = scene_index(w.scenes, s);
            assert(r != -1);
            assert(w2.scenes =~= w.scenes.update(r, SceneModel { dialog: Some(next), ..w.scenes[r] }));
            assert(forall|i: int| 0 <= i < w2.scenes.len() ==> w2.scenes[i].name == w.scenes[i].name);
            lemma_lookup_scene_same_names(w.scenes, w2.scenes);
            assert forall|i: int| 0 <= i < w2.items.len() implies match #[trigger] w2.items[i].state {
                ItemStateModel::Unassigned => true,
                ItemStateModel::Owned(c) => w2.character(c) is Some,
                ItemStateModel::InScene(sn) => w2.has_scene(sn),
            } by {
                assert(w2.items[i] == w.items[i]);
                match w.items[i].state {
                    ItemStateModel::Unassigned => {},
                    ItemStateModel::Owned(c) => {},
                    ItemStateModel::InScene(sn) => {
                        assert(w.has_scene(sn));
                    },
                }
            }
        }
    }
}

/// An attached effect keeps the invariant.
pub proof fn lemma_effect_preserves_wf(
    f: EffectModel,
    character: Seq<char>,
    item: Option<Seq<char>>,
    w: WorldModel,
)
    requires
        w.wf(),
    ensures
        spec_apply_effect(f, character, item, w).wf(),
{
    match f {
        EffectModel::Nothing => {},
        EffectModel::MarkConsumed => {},
        EffectModel::AdvanceSceneDialog(s) => {
            lemma_advance_dialog_wf(w, s);
        },
        EffectModel::AdvanceDialogWhenAllIn(s) => {
            if w.doggie.scene == Some(s) && w.kitie.scene == Some(s) {
                lemma_advance_dialog_wf(w, s);
            }
        },
        EffectModel::AdvanceDialogWhenTagDone(s, tag) => {
            if spec_all_tagged_unassigned(w, tag) {
                lemma_advance_dialog_wf(w, s);
            }
        },
    }
}

/// Replacing the state of one item with a state whose reference is valid
/// keeps the invariant.
proof fn lemma_update_item_wf(w: WorldModel, item: Seq<char>, st: ItemStateModel)
    requires
        w.wf(),
        w.item(item) is Some,
        match st {
            ItemStateModel::Unassigned => true,
            ItemStateModel::Owned(c) => w.character(c) is Some,
            ItemStateModel::InScene(s) => w.has_scene(s),
        },
    ensures
        (WorldModel { items: update_item(w.items, item, st), ..w }).wf(),
{
    lemma_item_index(w.items, item, st);
    let r = item_index(w.items, item);
    assert(r != -1);
    let w1 = WorldModel { items: update_item(w.items, item, st), ..w };
    assert(w1.items =~= w.items.update(r, ItemModel { state: st, ..w.items[r] }));
    assert forall|i: int| 0 <= i < w1.items.len() implies match #[trigger] w1.items[i].state {
        ItemStateModel::Unassigned => true,
        ItemStateModel::Owned(c) => w1.character(c) is Some,
        ItemStateModel::InScene(sn) => w1.has_scene(sn),
    } by {
        if i != r {
            assert(w1.items[i] == w.items[i]);
        }
    }
}

/// Item-state exclusivity: states are a sum type, and every reference a
/// state holds stays valid across every trigger of every event kind.
pub proof fn lemma_trigger_preserves_wf(e: EventModel, w: WorldModel)
    requires
        w.wf(),
    ensures
        spec_trigger(e, w).wf(),
{
    if spec_can(e, w) {
        match e {
            EventModel::Move { character, to_scene, effect, .. } => {
                let w1 = set_character_scene_m(w, character, Some(to_scene));
                assert(w1.wf());
                lemma_effect_preserves_wf(effect, character, None, w1);
            },
            EventModel::Pick { character, item, consume, effect, .. } => {
                let st = if consume {
                    ItemStateModel::Unassigned
                } else {
                    ItemStateModel::Owned(character)
                };
                lemma_update_item_wf(w, item, st);
                lemma_effect_preserves_wf(
                    effect,
                    character,
                    Some(item),
                    WorldModel { items: update_item(w.items, item, st), ..w },
                );
            },
            EventModel::Give { from_character, to_character, item, consume, effect, .. } => {
                let st = if consume {
                    ItemStateModel::Unassigned
                } else {
                    ItemStateModel::Owned(to_character)
                };
                lemma_update_item_wf(w, item, st);
                lemma_effect_preserves_wf(
                    effect,
                    from_character,
                    Some(item),
                    WorldModel { items: update_item(w.items, item, st), ..w },
                );
            },
            EventModel::UseItem { character, item, consume, effect, .. } => {
                let w1 = if consume {
                    lemma_update_item_wf(w, item, ItemStateModel::Unassigned);
                    WorldModel { items: update_item(w.items, item, ItemStateModel::Unassigned), ..w }
                } else {
                    w
                };
                lemma_effect_preserves_wf(effect, character, Some(item), w1);
            },
            EventModel::Void { character, item, effect, .. } => {
                lemma_effect_preserves_wf(effect, character, item, w);
            },
            EventModel::Talk { scene, .. } => {
                lemma_advance_dialog_wf(w, scene);
            },
        }
    }
}

} // verus!

// ---------------------------------------------------------------------------
// Text rendering: pure, language-aware, derived from deterministic keys.
// ---------------------------------------------------------------------------

verus! {

/// The long narration of an event: the message under
/// `"{story}-{event}"`, or under `"{story}-{event}-nok"` while the event
/// cannot be triggered, so that a disabled action can still be previewed.
pub open spec fn spec_event_long(e: EventModel, w: WorldModel) -> Seq<char> {
    spec_message(
        w.story + "-"@ + e.name() + (if spec_can(e, w) {
            ""@
        } else {
            "-nok"@
        }),
        w.lang,
    )
}

/// The short action label of an event: the message under
/// `"{story}-{event}-short"`.
pub open spec fn spec_event_short(e: EventModel, w: WorldModel) -> Seq<char> {
    spec_message(w.story + "-"@ + e.name() + "-short"@, w.lang)
}

impl Event {
    /// The long, language-aware narration; renders the "not OK" variant
    /// while the event cannot be triggered.
    pub fn long(&self, world: &World) -> (r: String)
        ensures
            r@ == spec_event_long(event_model(*self), crate::world::world_model(*world)),
    {
        let suffix = if self.can_be_triggered(world) {
            ""
        } else {
            "-nok"
        };
        let key = message_key(world.story, self.name(), suffix);
        get_message(key.as_str(), world.lang.as_str())
    }

    /// The short, language-aware action label.
    pub fn short(&self, world: &World) -> (r: String)
        ensures
            r@ == spec_event_short(event_model(*self), crate::world::world_model(*world)),
    {
        let key = message_key(world.story, self.name(), "-short");
        get_message(key.as_str(), world.lang.as_str())
    }

    /// The text shown for the action in a driver's menu: the long
    /// narration, with its "not OK" variant for a disabled action.
    pub fn action_text(&self, world: &World) -> (r: String)
        ensures
            r@ == spec_event_long(event_model(*self), crate::world::world_model(*world)),
    {
        self.long(world)
    }
}

} // verus!
