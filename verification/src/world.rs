//! The aggregate root: one world owns the two characters, every item and
//! scene of its story, and the language used for rendering text.

use vstd::prelude::*;

use crate::characters::{doggie_model, kitie_model, opt_view, CharacterModel, Doggie, Kitie};
use crate::values::str_eq;
use crate::entities::{
    item_model, scene_model, state_model, Item, ItemModel, ItemState, ItemStateModel, Scene,
    SceneModel,
};

verus! {

/// A whole narrative world.  Both supported stories star the pair
/// doggie/kitie, so the characters are typed fields; items and scenes are
/// story data held in fixed order.
pub struct World {
    pub story: &'static str,
    pub doggie: Doggie,
    pub kitie: Kitie,
    pub items: Vec<Item>,
    pub scenes: Vec<Scene>,
    pub lang: String,
    pub languages: Vec<String>,
}

/// The observable state of a world.
pub ghost struct WorldModel {
    pub story: Seq<char>,
    pub doggie: CharacterModel,
    pub kitie: CharacterModel,
    pub items: Seq<ItemModel>,
    pub scenes: Seq<SceneModel>,
    pub lang: Seq<char>,
    pub languages: Seq<Seq<char>>,
}

pub open spec fn world_model(w: World) -> WorldModel {
    WorldModel {
        story: w.story@,
        doggie: doggie_model(w.doggie),
        kitie: kitie_model(w.kitie),
        items: w.items@.map_values(|it: Item| item_model(it)),
        scenes: w.scenes@.map_values(|s: Scene| scene_model(s)),
        lang: w.lang@,
        languages: w.languages.deep_view(),
    }
}

/// The first item of `items` named `name`.
pub open spec fn lookup_item(items: Seq<ItemModel>, name: Seq<char>) -> Option<ItemModel>
    decreases items.len(),
{
    if items.len() == 0 {
        None
    } else if items[0].name == name {
        Some(items[0])
    } else {
        lookup_item(items.drop_first(), name)
    }
}

/// `items` with the state of the first item named `name` replaced.
pub open spec fn update_item(
    items: Seq<ItemModel>,
    name: Seq<char>,
    state: ItemStateModel,
) -> Seq<ItemModel>
    decreases items.len(),
{
    if items.len() == 0 {
        items
    } else if items[0].name == name {
        items.update(0, ItemModel { state, ..items[0] })
    } else {
        seq![items[0]] + update_item(items.drop_first(), name, state)
    }
}

/// The first scene of `scenes` named `name`.
pub open spec fn lookup_scene(scenes: Seq<SceneModel>, name: Seq<char>) -> Option<SceneModel>
    decreases scenes.len(),
{
    if scenes.len() == 0 {
        None
    } else if scenes[0].name == name {
        Some(scenes[0])
    } else {
        lookup_scene(scenes.drop_first(), name)
    }
}

/// `scenes` with the dialog cursor of the first scene named `name` replaced.
pub open spec fn update_scene(
    scenes: Seq<SceneModel>,
    name: Seq<char>,
    dialog: Option<u64>,
) -> Seq<SceneModel>
    decreases scenes.len(),
{
    if scenes.len() == 0 {
        scenes
    } else if scenes[0].name == name {
        scenes.update(0, SceneModel { dialog, ..scenes[0] })
    } else {
        seq![scenes[0]] + update_scene(scenes.drop_first(), name, dialog)
    }
}

impl WorldModel {
    /// The character registered under `name`, if any.
    pub open spec fn character(self, name: Seq<char>) -> Option<CharacterModel> {
        if name == "doggie"@ {
            Some(self.doggie)
        } else if name == "kitie"@ {
            Some(self.kitie)
        } else {
            None
        }
    }

    pub open spec fn item(self, name: Seq<char>) -> Option<ItemModel> {
        lookup_item(self.items, name)
    }

    pub open spec fn scene(self, name: Seq<char>) -> Option<SceneModel> {
        lookup_scene(self.scenes, name)
    }

    pub open spec fn has_scene(self, name: Seq<char>) -> bool {
        self.scene(name) is Some
    }

    pub open spec fn supports_lang(self, code: Seq<char>) -> bool {
        exists|i: int| 0 <= i < self.languages.len() && self.languages[i] == code
    }

    /// Every reference that an entity state holds names an entity of this
    /// world: an owned item names a character, a placed item and an
    /// on-stage character name a scene.  Together with the state type
    /// itself this is the item-state exclusivity invariant.
    pub open spec fn wf(self) -> bool {
        &&& forall|i: int|
            0 <= i < self.items.len() ==> match #[trigger] self.items[i].state {
                ItemStateModel::Unassigned => true,
                ItemStateModel::Owned(c) => self.character(c) is Some,
                ItemStateModel::InScene(s) => self.has_scene(s),
            }
        &&& match self.doggie.scene {
            None => true,
            Some(s) => self.has_scene(s),
        }
        &&& match self.kitie.scene {
            None => true,
            Some(s) => self.has_scene(s),
        }
    }
}

/// The index of the first item named `name`, or -1.
pub open spec fn item_index(items: Seq<ItemModel>, name: Seq<char>) -> int
    decreases items.len(),
{
    if items.len() == 0 {
        -1
    } else if items[0].name == name {
        0
    } else {
        let r = item_index(items.drop_first(), name);
        if r == -1 {
            -1
        } else {
            r + 1
        }
    }
}

/// The index of the first scene named `name`, or -1.
pub open spec fn scene_index(scenes: Seq<SceneModel>, name: Seq<char>) -> int
    decreases scenes.len(),
{
    if scenes.len() == 0 {
        -1
    } else if scenes[0].name == name {
        0
    } else {
        let r = scene_index(scenes.drop_first(), name);
        if r == -1 {
            -1
        } else {
            r + 1
        }
    }
}

/// What `item_index` means for lookup and update: a miss leaves both
/// untouched, a hit pins the first matching index.
pub proof fn lemma_item_index(items: Seq<ItemModel>, name: Seq<char>, state: ItemStateModel)
    ensures
        ({
            let r = item_index(items, name);
            &&& (r == -1 ==> lookup_item(items, name) is None && update_item(items, name, state)
                =~= items && (forall|j: int| 0 <= j < items.len() ==> items[j].name != name))
            &&& (r != -1 ==> 0 <= r < items.len() && items[r].name == name && (forall|j: int|
                0 <= j < r ==> items[j].name != name) && lookup_item(items, name) == Some(
                items[r],
            ) && update_item(items, name, state) =~= items.update(
                r,
                ItemModel { state, ..items[r] },
            ))
        }),
    decreases items.len(),
{
    let r = item_index(items, name);
    if items.len() == 0 {
    } else if items[0].name == name {
        assert(update_item(items, name, state) =~= items.update(
            0,
            ItemModel { state, ..items[0] },
        ));
    } else {
        lemma_item_index(items.drop_first(), name, state);
        let tail = items.drop_first();
        assert(forall|j: int| 1 <= j < items.len() ==> items[j] == tail[j - 1]);
        if item_index(tail, name) == -1 {
            assert(update_item(items, name, state) =~= seq![items[0]] + update_item(
                tail,
                name,
                state,
            ));
            assert(seq![items[0]] + tail =~= items);
        } else {
            assert(update_item(items, name, state) =~= seq![items[0]] + tail.update(
                item_index(tail, name),
                ItemModel { state, ..tail[item_index(tail, name)] },
            ));
            assert(seq![items[0]] + tail.update(
                item_index(tail, name),
                ItemModel { state, ..tail[item_index(tail, name)] },
            ) =~= items.update(r, ItemModel { state, ..items[r] }));
        }
    }
}

/// What `scene_index` means for lookup and update.
pub proof fn lemma_scene_index(scenes: Seq<SceneModel>, name: Seq<char>, dialog: Option<u64>)
    ensures
        ({
            let r = scene_index(scenes, name);
            &&& (r == -1 ==> lookup_scene(scenes, name) is None && update_scene(
                scenes,
                name,
                dialog,
            ) =~= scenes && (forall|j: int| 0 <= j < scenes.len() ==> scenes[j].name != name))
            &&& (r != -1 ==> 0 <= r < scenes.len() && scenes[r].name == name && (forall|j: int|
                0 <= j < r ==> scenes[j].name != name) && lookup_scene(scenes, name) == Some(
                scenes[r],
            ) && update_scene(scenes, name, dialog) =~= scenes.update(
                r,
                SceneModel { dialog, ..scenes[r] },
            ))
        }),
    decreases scenes.len(),
{
    let r = scene_index(scenes, name);
    if scenes.len() == 0 {
    } else if scenes[0].name == name {
        assert(update_scene(scenes, name, dialog) =~= scenes.update(
            0,
            SceneModel { dialog, ..scenes[0] },
        ));
    } else {
        lemma_scene_index(scenes.drop_first(), name, dialog);
        let tail = scenes.drop_first();
        assert(forall|j: int| 1 <= j < scenes.len() ==> scenes[j] == tail[j - 1]);
        if scene_index(tail, name) == -1 {
            assert(update_scene(scenes, name, dialog) =~= seq![scenes[0]] + update_scene(
                tail,
                name,
                dialog,
            ));
            assert(seq![scenes[0]] + tail =~= scenes);
        } else {
            assert(update_scene(scenes, name, dialog) =~= seq![scenes[0]] + tail.update(
                scene_index(tail, name),
                SceneModel { dialog, ..tail[scene_index(tail, name)] },
            ));
            assert(seq![scenes[0]] + tail.update(
                scene_index(tail, name),
                SceneModel { dialog, ..tail[scene_index(tail, name)] },
            ) =~= scenes.update(r, SceneModel { dialog, ..scenes[r] }));
        }
    }
}

/// Two scene sequences that agree on names agree on which scenes exist.
pub proof fn lemma_lookup_scene_same_names(s1: Seq<SceneModel>, s2: Seq<SceneModel>)
    requires
        s1.len() == s2.len(),
        forall|i: int| 0 <= i < s1.len() ==> s1[i].name == s2[i].name,
    ensures
        forall|n: Seq<char>| #[trigger]
            lookup_scene(s1, n) is Some <==> #[trigger] lookup_scene(s2, n) is Some,
    decreases s1.len(),
{
    if s1.len() > 0 {
        lemma_lookup_scene_same_names(s1.drop_first(), s2.drop_first());
        assert forall|n: Seq<char>|
            #[trigger] lookup_scene(s1, n) is Some <==> #[trigger] lookup_scene(s2, n)
            is Some by {
            if s1[0].name != n {
                assert(lookup_scene(s1, n) == lookup_scene(s1.drop_first(), n));
                assert(lookup_scene(s2, n) == lookup_scene(s2.drop_first(), n));
            }
        }
    }
}

/// A name that occurs somewhere is found.
pub proof fn lemma_lookup_item_some(items: Seq<ItemModel>, name: Seq<char>)
    requires
        exists|j: int| 0 <= j < items.len() && items[j].name == name,
    ensures
        lookup_item(items, name) is Some,
    decreases items.len(),
{
    if items.len() > 0 && items[0].name != name {
        let j = choose|j: int| 0 <= j < items.len() && items[j].name == name;
        assert(items.drop_first()[j - 1] == items[j]);
        lemma_lookup_item_some(items.drop_first(), name);
    }
}

/// A name that occurs somewhere is found.
pub proof fn lemma_lookup_scene_some(scenes: Seq<SceneModel>, name: Seq<char>)
    requires
        exists|j: int| 0 <= j < scenes.len() && scenes[j].name == name,
    ensures
        lookup_scene(scenes, name) is Some,
    decreases scenes.len(),
{
    if scenes.len() > 0 && scenes[0].name != name {
        let j = choose|j: int| 0 <= j < scenes.len() && scenes[j].name == name;
        assert(scenes.drop_first()[j - 1] == scenes[j]);
        lemma_lookup_scene_some(scenes.drop_first(), name);
    }
}

/// The first match of `lookup_item` is the first index whose name fits.
pub proof fn lemma_lookup_item_at(items: Seq<ItemModel>, name: Seq<char>, i: int)
    requires
        0 <= i < items.len(),
        items[i].name == name,
        forall|j: int| 0 <= j < i ==> items[j].name != name,
    ensures
        lookup_item(items, name) == Some(items[i]),
    decreases i,
{
    if i > 0 {
        lemma_lookup_item_at(items.drop_first(), name, i - 1);
    }
}

/// When no name fits, `lookup_item` finds nothing.
pub proof fn lemma_lookup_item_none(items: Seq<ItemModel>, name: Seq<char>)
    requires
        forall|j: int| 0 <= j < items.len() ==> items[j].name != name,
    ensures
        lookup_item(items, name) is None,
    decreases items.len(),
{
    if items.len() > 0 {
        lemma_lookup_item_none(items.drop_first(), name);
    }
}

/// Updating the first match updates exactly that index.
pub proof fn lemma_update_item_at(
    items: Seq<ItemModel>,
    name: Seq<char>,
    state: ItemStateModel,
    i: int,
)
    requires
        0 <= i < items.len(),
        items[i].name == name,
        forall|j: int| 0 <= j < i ==> items[j].name != name,
    ensures
        update_item(items, name, state) =~= items.update(i, ItemModel { state, ..items[i] }),
    decreases i,
{
    if i > 0 {
        lemma_update_item_at(items.drop_first(), name, state, i - 1);
        assert(update_item(items, name, state) =~= seq![items[0]] + update_item(
            items.drop_first(),
            name,
            state,
        ));
    }
}

/// When no name fits, updating changes nothing.
pub proof fn lemma_update_item_none(items: Seq<ItemModel>, name: Seq<char>, state: ItemStateModel)
    requires
        forall|j: int| 0 <= j < items.len() ==> items[j].name != name,
    ensures
        update_item(items, name, state) =~= items,
    decreases items.len(),
{
    if items.len() > 0 {
        lemma_update_item_none(items.drop_first(), name, state);
    }
}

pub proof fn lemma_lookup_scene_at(scenes: Seq<SceneModel>, name: Seq<char>, i: int)
    requires
        0 <= i < scenes.len(),
        scenes[i].name == name,
        forall|j: int| 0 <= j < i ==> scenes[j].name != name,
    ensures
        lookup_scene(scenes, name) == Some(scenes[i]),
    decreases i,
{
    if i > 0 {
        lemma_lookup_scene_at(scenes.drop_first(), name, i - 1);
    }
}

pub proof fn lemma_lookup_scene_none(scenes: Seq<SceneModel>, name: Seq<char>)
    requires
        forall|j: int| 0 <= j < scenes.len() ==> scenes[j].name != name,
    ensures
        lookup_scene(scenes, name) is None,
    decreases scenes.len(),
{
    if scenes.len() > 0 {
        lemma_lookup_scene_none(scenes.drop_first(), name);
    }
}

pub proof fn lemma_update_scene_at(
    scenes: Seq<SceneModel>,
    name: Seq<char>,
    dialog: Option<u64>,
    i: int,
)
    requires
        0 <= i < scenes.len(),
        scenes[i].name == name,
        forall|j: int| 0 <= j < i ==> scenes[j].name != name,
    ensures
        update_scene(scenes, name, dialog) =~= scenes.update(
            i,
            SceneModel { dialog, ..scenes[i] },
        ),
    decreases i,
{
    if i > 0 {
        lemma_update_scene_at(scenes.drop_first(), name, dialog, i - 1);
        assert(update_scene(scenes, name, dialog) =~= seq![scenes[0]] + update_scene(
            scenes.drop_first(),
            name,
            dialog,
        ));
    }
}

impl World {
    /// The index of the first item named `name`.
    pub fn find_item(&self, name: &str) -> (r: Option<usize>)
        ensures
            match r {
                Some(i) => {
                    &&& i < self.items@.len()
                    &&& world_model(*self).item(name@) == Some(world_model(*self).items[i as int])
                    &&& world_model(*self).items[i as int].name == name@
                    &&& forall|j: int|
                        0 <= j < i ==> world_model(*self).items[j].name != name@
                },
                None => {
                    &&& world_model(*self).item(name@) is None
                    &&& forall|j: int|
                        0 <= j < world_model(*self).items.len() ==> world_model(
                            *self,
                        ).items[j].name != name@
                },
            },
    {
        let ghost m = world_model(*self).items;
        let mut i: usize = 0;
        while i < self.items.len()
            invariant
                i <= self.items@.len(),
                m == world_model(*self).items,
                m.len() == self.items@.len(),
                forall|j: int| 0 <= j < m.len() ==> m[j] == item_model(self.items@[j]),
                forall|j: int| 0 <= j < i ==> m[j].name != name@,
            decreases self.items@.len() - i,
        {
            if str_eq(self.items[i].name, name) {
                proof {
                    lemma_lookup_item_at(m, name@, i as int);
                }
                return Some(i);
            }
            i = i + 1;
        }
        proof {
            lemma_lookup_item_none(m, name@);
        }
        None
    }

    /// The index of the first scene named `name`.
    pub fn find_scene(&self, name: &str) -> (r: Option<usize>)
        ensures
            match r {
                Some(i) => {
                    &&& i < self.scenes@.len()
                    &&& world_model(*self).scene(name@) == Some(
                        world_model(*self).scenes[i as int],
                    )
                    &&& world_model(*self).scenes[i as int].name == name@
                    &&& forall|j: int|
                        0 <= j < i ==> world_model(*self).scenes[j].name != name@
                },
                None => {
                    &&& world_model(*self).scene(name@) is None
                    &&& forall|j: int|
                        0 <= j < world_model(*self).scenes.len() ==> world_model(
                            *self,
                        ).scenes[j].name != name@
                },
            },
    {
        let ghost m = world_model(*self).scenes;
        let mut i: usize = 0;
        while i < self.scenes.len()
            invariant
                i <= self.scenes@.len(),
                m == world_model(*self).scenes,
                m.len() == self.scenes@.len(),
                forall|j: int| 0 <= j < m.len() ==> m[j] == scene_model(self.scenes@[j]),
                forall|j: int| 0 <= j < i ==> m[j].name != name@,
            decreases self.scenes@.len() - i,
        {
            if str_eq(self.scenes[i].name, name) {
                proof {
                    lemma_lookup_scene_at(m, name@, i as int);
                }
                return Some(i);
            }
            i = i + 1;
        }
        proof {
            lemma_lookup_scene_none(m, name@);
        }
        None
    }

    /// The state of the first item named `name`, if the world has one.
    pub fn item_state(&self, name: &str) -> (r: Option<&ItemState>)
        ensures
            match r {
                Some(s) => world_model(*self).item(name@) matches Some(it) && it.state
                    == state_model(*s),
                None => {
                    &&& world_model(*self).item(name@) is None
                    &&& forall|j: int|
                        0 <= j < world_model(*self).items.len() ==> world_model(
                            *self,
                        ).items[j].name != name@
                },
            },
    {
        match self.find_item(name) {
            Some(i) => Some(&self.items[i].state),
            None => None,
        }
    }

    /// The dialog cursor of the first scene named `name`.
    pub fn scene_dialog(&self, name: &str) -> (r: Option<Option<u64>>)
        ensures
            match r {
                Some(d) => world_model(*self).scene(name@) matches Some(s) && s.dialog == d,
                None => world_model(*self).scene(name@) is None,
            },
    {
        match self.find_scene(name) {
            Some(i) => Some(self.scenes[i].dialog),
            None => None,
        }
    }

    /// The scene the named character stands in: `None` for an unknown
    /// character, otherwise its (possibly offstage) scene.
    pub fn character_scene(&self, name: &str) -> (r: Option<&Option<String>>)
        ensures
            match r {
                Some(s) => world_model(*self).character(name@) matches Some(c) && c.scene
                    == opt_view(*s),
                None => world_model(*self).character(name@) is None,
            },
    {
        if str_eq(name, "doggie") {
            Some(&self.doggie.scene)
        } else if str_eq(name, "kitie") {
            Some(&self.kitie.scene)
        } else {
            None
        }
    }

    /// Switches the rendering language; a code outside the supported list
    /// leaves the world unchanged.
    pub fn set_lang(&mut self, code: &str)
        ensures
            world_model(*old(self)).supports_lang(code@) ==> world_model(*final(self))
                == (WorldModel { lang: code@, ..world_model(*old(self)) }),
            !world_model(*old(self)).supports_lang(code@) ==> *final(self) == *old(self),
    {
        if self.supports_language(code) {
            self.lang = code.to_owned();
        }
    }

    /// Whether `code` is one of the supported language codes.
    pub fn supports_language(&self, code: &str) -> (r: bool)
        ensures
            r == world_model(*self).supports_lang(code@),
    {
        let mut i: usize = 0;
        while i < self.languages.len()
            invariant
                i <= self.languages@.len(),
                forall|j: int| 0 <= j < i ==> self.languages.deep_view()[j] != code@,
            decreases self.languages@.len() - i,
        {
            if str_eq(self.languages[i].as_str(), code) {
                proof {
                    assert(world_model(*self).languages[i as int] == code@);
                }
                return true;
            }
            i = i + 1;
        }
        false
    }
}

} // verus!
