//! Items and scenes: the inanimate entities a world owns.

use vstd::prelude::*;

use crate::values::str_eq;

verus! {

/// Where an item currently is.  Exactly one of the three holds at any time:
/// not yet placed (also the terminal state of a consumed item), held by a
/// character, or lying in a scene.
pub enum ItemState {
    Unassigned,
    Owned(String),
    InScene(String),
}

/// The mathematical shape of an [`ItemState`].
pub ghost enum ItemStateModel {
    Unassigned,
    Owned(Seq<char>),
    InScene(Seq<char>),
}

pub open spec fn state_model(s: ItemState) -> ItemStateModel {
    match s {
        ItemState::Unassigned => ItemStateModel::Unassigned,
        ItemState::Owned(c) => ItemStateModel::Owned(c@),
        ItemState::InScene(sc) => ItemStateModel::InScene(sc@),
    }
}

/// A story item: a named, tagged unit with a mutable state and an
/// identifier that is fixed at creation and never shown or persisted.
/// Name and tags are story data, fixed for the whole session; only the
/// state ever changes.
pub struct Item {
    pub id: u128,
    pub name: &'static str,
    pub tags: Vec<&'static str>,
    pub state: ItemState,
}

/// The views of a tag list.
pub open spec fn tags_view(tags: Vec<&'static str>) -> Seq<Seq<char>> {
    tags@.map_values(|t: &'static str| t@)
}

/// The observable part of an [`Item`]: everything but the identifier.
pub ghost struct ItemModel {
    pub name: Seq<char>,
    pub tags: Seq<Seq<char>>,
    pub state: ItemStateModel,
}

pub open spec fn item_model(it: Item) -> ItemModel {
    ItemModel { name: it.name@, tags: tags_view(it.tags), state: state_model(it.state) }
}

impl ItemModel {
    pub open spec fn has_tag(self, tag: Seq<char>) -> bool {
        exists|i: int| 0 <= i < self.tags.len() && self.tags[i] == tag
    }
}

/// A scene: a named place, with a dialog cursor when the scene is driven by
/// a fixed script of narrative lines.
pub struct Scene {
    pub name: &'static str,
    pub dialog: Option<u64>,
}

pub ghost struct SceneModel {
    pub name: Seq<char>,
    pub dialog: Option<u64>,
}

pub open spec fn scene_model(s: Scene) -> SceneModel {
    SceneModel { name: s.name@, dialog: s.dialog }
}

impl ItemState {
    pub fn is_unassigned(&self) -> (r: bool)
        ensures
            r == (state_model(*self) is Unassigned),
    {
        match self {
            ItemState::Unassigned => true,
            _ => false,
        }
    }

    pub fn is_owned_by(&self, character: &str) -> (r: bool)
        ensures
            r == (state_model(*self) == ItemStateModel::Owned(character@)),
    {
        match self {
            ItemState::Owned(c) => str_eq(c.as_str(), character),
            _ => false,
        }
    }

    pub fn is_in_scene(&self, scene: &str) -> (r: bool)
        ensures
            r == (state_model(*self) == ItemStateModel::InScene(scene@)),
    {
        match self {
            ItemState::InScene(s) => str_eq(s.as_str(), scene),
            _ => false,
        }
    }
}

impl Item {
    pub fn has_tag(&self, tag: &str) -> (r: bool)
        ensures
            r == item_model(*self).has_tag(tag@),
    {
        let mut i: usize = 0;
        while i < self.tags.len()
            invariant
                i <= self.tags@.len(),
                forall|j: int| 0 <= j < i ==> tags_view(self.tags)[j] != tag@,
            decreases self.tags@.len() - i,
        {
            if str_eq(self.tags[i], tag) {
                proof {
                    assert(item_model(*self).tags[i as int] == tag@);
                }
                return true;
            }
            i = i + 1;
        }
        false
    }
}

} // verus!

// ---------------------------------------------------------------------------
// Item creation.
// ---------------------------------------------------------------------------

verus! {

/// Relies on `uuid::Uuid::new_v4` for the identifier assigned at item
/// creation: the value is random, so nothing is promised of it.
#[verifier::external_body]
fn fresh_id() -> u128 {
    uuid::Uuid::new_v4().as_u128()
}

impl Item {
    /// A new item with a freshly assigned identifier.
    pub fn new(name: &'static str, tags: Vec<&'static str>, state: ItemState) -> (r: Item)
        ensures
            item_model(r) == (ItemModel {
                name: name@,
                tags: tags_view(tags),
                state: state_model(state),
            }),
    {
        Item { id: fresh_id(), name, tags, state }
    }
}

} // verus!
