//! The persistence codec: a world dumps to a structured value tree and is
//! restored from one.  Loading validates strictly - a missing or mistyped
//! field, or a reference to an unknown entity, fails with an error naming
//! the offending entity, and leaves the world exactly as it was.

use vstd::prelude::*;

use crate::characters::{
    spec_character_dump, spec_parse_character_m, CharacterModel, ParsedCharacter,
    character_load_exec,
};
use crate::entities::{item_model, scene_model, ItemModel, ItemState, ItemStateModel, SceneModel};
use crate::errors::LoadError;
use crate::values::{
    lemma_vmodel_entries, spec_lookup, str_eq, vmodel, vmodel_entries, ValModel, Value,
};
use crate::world::{world_model, World, WorldModel};

verus! {

/// The dumped form of an item state: a discriminator plus the reference
/// the state carries.
pub open spec fn spec_state_dump(s: ItemStateModel) -> ValModel {
    match s {
        ItemStateModel::Unassigned => ValModel::Object(
            seq![("type"@, ValModel::Str("unassigned"@))],
        ),
        ItemStateModel::Owned(c) => ValModel::Object(
            seq![("type"@, ValModel::Str("owned"@)), ("character"@, ValModel::Str(c))],
        ),
        ItemStateModel::InScene(sc) => ValModel::Object(
            seq![("type"@, ValModel::Str("in_scene"@)), ("scene"@, ValModel::Str(sc))],
        ),
    }
}

/// The dumped record of one item.
pub open spec fn spec_item_dump(it: ItemModel) -> ValModel {
    ValModel::Object(
        seq![("name"@, ValModel::Str(it.name)), ("state"@, spec_state_dump(it.state))],
    )
}

/// The dumped record of one scene.
pub open spec fn spec_scene_dump(s: SceneModel) -> ValModel {
    ValModel::Object(
        seq![
            ("name"@, ValModel::Str(s.name)),
            (
                "dialog"@,
                match s.dialog {
                    None => ValModel::Null,
                    Some(d) => ValModel::Int(d),
                },
            ),
        ],
    )
}

/// The item category of the dump: one entry per item, keyed by name, in
/// catalog order.
pub open spec fn spec_items_dump(items: Seq<ItemModel>) -> Seq<(Seq<char>, ValModel)>
    decreases items.len(),
{
    if items.len() == 0 {
        Seq::empty()
    } else {
        spec_items_dump(items.drop_last()) + seq![
            (items.last().name, spec_item_dump(items.last())),
        ]
    }
}

/// The scene category of the dump.
pub open spec fn spec_scenes_dump(scenes: Seq<SceneModel>) -> Seq<(Seq<char>, ValModel)>
    decreases scenes.len(),
{
    if scenes.len() == 0 {
        Seq::empty()
    } else {
        spec_scenes_dump(scenes.drop_last()) + seq![
            (scenes.last().name, spec_scene_dump(scenes.last())),
        ]
    }
}

pub proof fn lemma_items_dump_pointwise(items: Seq<ItemModel>)
    ensures
        spec_items_dump(items).len() == items.len(),
        forall|i: int|
            0 <= i < items.len() ==> spec_items_dump(items)[i] == (
                items[i].name,
                spec_item_dump(items[i]),
            ),
    decreases items.len(),
{
    if items.len() > 0 {
        lemma_items_dump_pointwise(items.drop_last());
    }
}

pub proof fn lemma_scenes_dump_pointwise(scenes: Seq<SceneModel>)
    ensures
        spec_scenes_dump(scenes).len() == scenes.len(),
        forall|i: int|
            0 <= i < scenes.len() ==> spec_scenes_dump(scenes)[i] == (
                scenes[i].name,
                spec_scene_dump(scenes[i]),
            ),
    decreases scenes.len(),
{
    if scenes.len() > 0 {
        lemma_scenes_dump_pointwise(scenes.drop_last());
    }
}

/// The dumped form of a whole world: language, characters, items and
/// scenes under their own top-level keys.
pub open spec fn spec_world_dump(w: WorldModel) -> ValModel {
    ValModel::Object(
        seq![
            ("lang"@, ValModel::Str(w.lang)),
            (
                "characters"@,
                ValModel::Object(
                    seq![
                        ("doggie"@, spec_character_dump("doggie"@, w.doggie)),
                        ("kitie"@, spec_character_dump("kitie"@, w.kitie)),
                    ],
                ),
            ),
            ("items"@, ValModel::Object(spec_items_dump(w.items))),
            ("scenes"@, ValModel::Object(spec_scenes_dump(w.scenes))),
        ],
    )
}

fn state_dump_exec(s: &ItemState) -> (r: Value)
    ensures
        vmodel(r) == spec_state_dump(crate::entities::state_model(*s)),
{
    let mut entries: Vec<(String, Value)> = Vec::new();
    match s {
        ItemState::Unassigned => {
            entries.push(("type".to_owned(), Value::Str("unassigned".to_owned())));
        },
        ItemState::Owned(c) => {
            entries.push(("type".to_owned(), Value::Str("owned".to_owned())));
            entries.push(("character".to_owned(), Value::Str(c.clone())));
        },
        ItemState::InScene(sc) => {
            entries.push(("type".to_owned(), Value::Str("in_scene".to_owned())));
            entries.push(("scene".to_owned(), Value::Str(sc.clone())));
        },
    }
    let r = Value::Object(entries);
    proof {
        lemma_vmodel_entries(r->Object_0@);
        let target = match spec_state_dump(crate::entities::state_model(*s)) {
            ValModel::Object(es) => es,
            _ => Seq::empty(),
        };
        assert(vmodel_entries(r->Object_0@) =~= target);
    }
    r
}

impl World {
    /// Dumps the whole world state as a value tree.
    pub fn dump(&self) -> (r: Value)
        ensures
            vmodel(r) == spec_world_dump(world_model(*self)),
    {
        let ghost w = world_model(*self);
        let mut chars: Vec<(String, Value)> = Vec::new();
        chars.push(("doggie".to_owned(), self.doggie.dump()));
        chars.push(("kitie".to_owned(), self.kitie.dump()));
        let characters_value = Value::Object(chars);
        proof {
            lemma_vmodel_entries(characters_value->Object_0@);
            assert(vmodel_entries(characters_value->Object_0@) =~= seq![
                ("doggie"@, spec_character_dump("doggie"@, w.doggie)),
                ("kitie"@, spec_character_dump("kitie"@, w.kitie)),
            ]);
        }
        let mut item_entries: Vec<(String, Value)> = Vec::new();
        let mut i: usize = 0;
        proof {
            assert(w.items.take(0) =~= Seq::<ItemModel>::empty());
        }
        while i < self.items.len()
            invariant
                i <= self.items@.len(),
                w == world_model(*self),
                w.items.len() == self.items@.len(),
                forall|j: int|
                    0 <= j < w.items.len() ==> w.items[j] == item_model(self.items@[j]),
                vmodel_entries(item_entries@) == spec_items_dump(w.items.take(i as int)),
            decreases self.items@.len() - i,
        {
            let ghost before = item_entries@;
            let name_string = self.items[i].name.to_owned();
            let record = {
                let mut rec: Vec<(String, Value)> = Vec::new();
                rec.push(("name".to_owned(), Value::Str(self.items[i].name.to_owned())));
                rec.push(("state".to_owned(), state_dump_exec(&self.items[i].state)));
                let rv = Value::Object(rec);
                proof {
                    lemma_vmodel_entries(rv->Object_0@);
                    let target = match spec_item_dump(w.items[i as int]) {
                        ValModel::Object(es) => es,
                        _ => Seq::empty(),
                    };
                    assert(vmodel_entries(rv->Object_0@) =~= target);
                }
                rv
            };
            item_entries.push((name_string, record));
            proof {
                assert(w.items.take(i + 1).drop_last() =~= w.items.take(i as int));
                assert(w.items.take(i + 1).last() == w.items[i as int]);
                lemma_vmodel_entries(before);
                lemma_vmodel_entries(item_entries@);
                assert(vmodel_entries(item_entries@) =~= spec_items_dump(w.items.take(i + 1)));
            }
            i = i + 1;
        }
        proof {
            assert(w.items.take(w.items.len() as int) =~= w.items);
        }
        let items_value = Value::Object(item_entries);
        let mut scene_entries: Vec<(String, Value)> = Vec::new();
        let mut i: usize = 0;
        proof {
            assert(w.scenes.take(0) =~= Seq::<SceneModel>::empty());
        }
        while i < self.scenes.len()
            invariant
                i <= self.scenes@.len(),
                w == world_model(*self),
                w.scenes.len() == self.scenes@.len(),
                forall|j: int|
                    0 <= j < w.scenes.len() ==> w.scenes[j] == scene_model(self.scenes@[j]),
                vmodel_entries(scene_entries@) == spec_scenes_dump(w.scenes.take(i as int)),
            decreases self.scenes@.len() - i,
        {
            let ghost before = scene_entries@;
            let name_string = self.scenes[i].name.to_owned();
            let record = {
                let mut rec: Vec<(String, Value)> = Vec::new();
                rec.push(("name".to_owned(), Value::Str(self.scenes[i].name.to_owned())));
                let dialog_value = match self.scenes[i].dialog {
                    None => Value::Null,
                    Some(d) => Value::Int(d),
                };
                rec.push(("dialog".to_owned(), dialog_value));
                let rv = Value::Object(rec);
                proof {
                    lemma_vmodel_entries(rv->Object_0@);
                    let target = match spec_scene_dump(w.scenes[i as int]) {
                        ValModel::Object(es) => es,
                        _ => Seq::empty(),
                    };
                    assert(vmodel_entries(rv->Object_0@) =~= target);
                }
                rv
            };
            scene_entries.push((name_string, record));
            proof {
                assert(w.scenes.take(i + 1).drop_last() =~= w.scenes.take(i as int));
                assert(w.scenes.take(i + 1).last() == w.scenes[i as int]);
                lemma_vmodel_entries(before);
                lemma_vmodel_entries(scene_entries@);
                assert(vmodel_entries(scene_entries@) =~= spec_scenes_dump(w.scenes.take(i + 1)));
            }
            i = i + 1;
        }
        proof {
            assert(w.scenes.take(w.scenes.len() as int) =~= w.scenes);
        }
        let scenes_value = Value::Object(scene_entries);
        let mut root: Vec<(String, Value)> = Vec::new();
        root.push(("lang".to_owned(), Value::Str(self.lang.clone())));
        root.push(("characters".to_owned(), characters_value));
        root.push(("items".to_owned(), items_value));
        root.push(("scenes".to_owned(), scenes_value));
        let r = Value::Object(root);
        proof {
            lemma_vmodel_entries(r->Object_0@);
            let target = match spec_world_dump(w) {
                ValModel::Object(es) => es,
                _ => Seq::empty(),
            };
            assert(vmodel_entries(r->Object_0@) =~= target);
        }
        r
    }
}

} // verus!

// ---------------------------------------------------------------------------
// Loading: strict parsing back out of a value tree.
// ---------------------------------------------------------------------------

verus! {

/// Reads an item state back from its dumped form.
pub open spec fn spec_parse_state_m(v: ValModel) -> Option<ItemStateModel> {
    match v {
        ValModel::Object(es) => match spec_lookup(es, "type"@) {
            Some(ValModel::Str(t)) => if t == "unassigned"@ {
                Some(ItemStateModel::Unassigned)
            } else if t == "owned"@ {
                match spec_lookup(es, "character"@) {
                    Some(ValModel::Str(c)) => Some(ItemStateModel::Owned(c)),
                    _ => None,
                }
            } else if t == "in_scene"@ {
                match spec_lookup(es, "scene"@) {
                    Some(ValModel::Str(sc)) => Some(ItemStateModel::InScene(sc)),
                    _ => None,
                }
            } else {
                None
            },
            _ => None,
        },
        _ => None,
    }
}

/// The state stored for the named item in the dumped item category.
pub open spec fn spec_load_item_state(obj: Seq<(Seq<char>, ValModel)>, name: Seq<char>) -> Option<
    ItemStateModel,
> {
    match spec_lookup(obj, name) {
        Some(ValModel::Object(rec)) => match spec_lookup(rec, "state"@) {
            Some(sv) => spec_parse_state_m(sv),
            None => None,
        },
        _ => None,
    }
}

/// Every item of the catalog with its state replaced by the dumped one;
/// `None` as soon as any record is missing or malformed.
pub open spec fn spec_load_items(
    items: Seq<ItemModel>,
    obj: Seq<(Seq<char>, ValModel)>,
) -> Option<Seq<ItemModel>>
    decreases items.len(),
{
    if items.len() == 0 {
        Some(Seq::empty())
    } else {
        match (spec_load_items(items.drop_last(), obj), spec_load_item_state(
            obj,
            items.last().name,
        )) {
            (Some(rest), Some(st)) => Some(rest + seq![ItemModel { state: st, ..items.last() }]),
            _ => None,
        }
    }
}

/// The dialog cursor stored for the named scene.
pub open spec fn spec_load_scene_dialog(
    obj: Seq<(Seq<char>, ValModel)>,
    name: Seq<char>,
) -> Option<Option<u64>> {
    match spec_lookup(obj, name) {
        Some(ValModel::Object(rec)) => match spec_lookup(rec, "dialog"@) {
            Some(ValModel::Null) => Some(None),
            Some(ValModel::Int(d)) => Some(Some(d)),
            _ => None,
        },
        _ => None,
    }
}

/// Every scene of the catalog with its dialog cursor replaced.
pub open spec fn spec_load_scenes(
    scenes: Seq<SceneModel>,
    obj: Seq<(Seq<char>, ValModel)>,
) -> Option<Seq<SceneModel>>
    decreases scenes.len(),
{
    if scenes.len() == 0 {
        Some(Seq::empty())
    } else {
        match (spec_load_scenes(scenes.drop_last(), obj), spec_load_scene_dialog(
            obj,
            scenes.last().name,
        )) {
            (Some(rest), Some(d)) => Some(
                rest + seq![SceneModel { dialog: d, ..scenes.last() }],
            ),
            _ => None,
        }
    }
}

pub open spec fn spec_lang_ok(languages: Seq<Seq<char>>, l: Seq<char>) -> bool {
    exists|i: int| 0 <= i < languages.len() && languages[i] == l
}

/// What loading a tree into a world with catalog `w0` yields: the same
/// entities with the dumped states, or nothing when the tree is
/// malformed, names an unknown entity, or breaks the world invariant.
pub open spec fn spec_load_result(w0: WorldModel, v: ValModel) -> Option<WorldModel> {
    match v {
        ValModel::Object(root) => {
            let lang_e = match spec_lookup(root, "lang"@) {
                Some(ValModel::Str(l)) => if w0.supports_lang(l) {
                    Some(l)
                } else {
                    None
                },
                _ => None,
            };
            let chars = match spec_lookup(root, "characters"@) {
                Some(ValModel::Object(cs)) => {
                    let d = match spec_lookup(cs, "doggie"@) {
                        Some(cv) => spec_parse_character_m(cv),
                        None => None,
                    };
                    let k = match spec_lookup(cs, "kitie"@) {
                        Some(cv) => spec_parse_character_m(cv),
                        None => None,
                    };
                    match (d, k) {
                        (Some(d), Some(k)) => Some((d, k)),
                        _ => None,
                    }
                },
                _ => None,
            };
            let items = match spec_lookup(root, "items"@) {
                Some(ValModel::Object(io)) => spec_load_items(w0.items, io),
                _ => None,
            };
            let scenes = match spec_lookup(root, "scenes"@) {
                Some(ValModel::Object(so)) => spec_load_scenes(w0.scenes, so),
                _ => None,
            };
            match (lang_e, chars, items, scenes) {
                (Some(l), Some((d, k)), Some(its), Some(scs)) => {
                    let candidate = WorldModel {
                        story: w0.story,
                        doggie: d,
                        kitie: k,
                        items: its,
                        scenes: scs,
                        lang: l,
                        languages: w0.languages,
                    };
                    if candidate.wf() {
                        Some(candidate)
                    } else {
                        None
                    }
                },
                _ => None,
            }
        },
        _ => None,
    }
}

/// When the whole item category loads, each record loaded: pointwise
/// characterization of `spec_load_items`.
pub proof fn lemma_load_items_pointwise(items: Seq<ItemModel>, obj: Seq<(Seq<char>, ValModel)>)
    requires
        spec_load_items(items, obj) is Some,
    ensures
        spec_load_items(items, obj)->0.len() == items.len(),
        forall|j: int|
            0 <= j < items.len() ==> spec_load_item_state(obj, items[j].name) is Some
                && spec_load_items(items, obj)->0[j] == (ItemModel {
                state: spec_load_item_state(obj, items[j].name)->0,
                ..items[j]
            }),
    decreases items.len(),
{
    if items.len() > 0 {
        lemma_load_items_pointwise(items.drop_last(), obj);
    }
}

pub proof fn lemma_load_scenes_pointwise(scenes: Seq<SceneModel>, obj: Seq<(Seq<char>, ValModel)>)
    requires
        spec_load_scenes(scenes, obj) is Some,
    ensures
        spec_load_scenes(scenes, obj)->0.len() == scenes.len(),
        forall|j: int|
            0 <= j < scenes.len() ==> spec_load_scene_dialog(obj, scenes[j].name) is Some
                && spec_load_scenes(scenes, obj)->0[j] == (SceneModel {
                dialog: spec_load_scene_dialog(obj, scenes[j].name)->0,
                ..scenes[j]
            }),
    decreases scenes.len(),
{
    if scenes.len() > 0 {
        lemma_load_scenes_pointwise(scenes.drop_last(), obj);
    }
}

fn parse_state_exec(v: &Value) -> (r: Option<ItemState>)
    ensures
        match r {
            Some(st) => spec_parse_state_m(vmodel(*v)) == Some(
                crate::entities::state_model(st),
            ),
            None => spec_parse_state_m(vmodel(*v)) is None,
        },
{
    let t = match v.get("type") {
        Some(Value::Str(t)) => t,
        _ => {
            return None;
        },
    };
    if str_eq(t.as_str(), "unassigned") {
        Some(ItemState::Unassigned)
    } else if str_eq(t.as_str(), "owned") {
        match v.get("character") {
            Some(Value::Str(c)) => Some(ItemState::Owned(c.clone())),
            _ => None,
        }
    } else if str_eq(t.as_str(), "in_scene") {
        match v.get("scene") {
            Some(Value::Str(sc)) => Some(ItemState::InScene(sc.clone())),
            _ => None,
        }
    } else {
        None
    }
}

} // verus!

// ---------------------------------------------------------------------------
// The executable load.
// ---------------------------------------------------------------------------

verus! {

/// When every record parses, the whole category loads.
pub proof fn lemma_load_items_from_pointwise(
    items: Seq<ItemModel>,
    obj: Seq<(Seq<char>, ValModel)>,
)
    requires
        forall|j: int| 0 <= j < items.len() ==> spec_load_item_state(obj, items[j].name) is Some,
    ensures
        spec_load_items(items, obj) is Some,
    decreases items.len(),
{
    if items.len() > 0 {
        assert(forall|j: int|
            0 <= j < items.drop_last().len() ==> items.drop_last()[j] == items[j]);
        lemma_load_items_from_pointwise(items.drop_last(), obj);
    }
}

pub proof fn lemma_load_scenes_from_pointwise(
    scenes: Seq<SceneModel>,
    obj: Seq<(Seq<char>, ValModel)>,
)
    requires
        forall|j: int|
            0 <= j < scenes.len() ==> spec_load_scene_dialog(obj, scenes[j].name) is Some,
    ensures
        spec_load_scenes(scenes, obj) is Some,
    decreases scenes.len(),
{
    if scenes.len() > 0 {
        assert(forall|j: int|
            0 <= j < scenes.drop_last().len() ==> scenes.drop_last()[j] == scenes[j]);
        lemma_load_scenes_from_pointwise(scenes.drop_last(), obj);
    }
}

impl World {
    /// Restores the whole world from a value tree.  All-or-nothing: on
    /// any malformed record, unknown entity reference or unsupported
    /// language the error names the offender and the world is unchanged.
    #[verifier::rlimit(100)]
    #[verifier::spinoff_prover]
    pub fn load(&mut self, data: &Value) -> (r: Result<(), LoadError>)
        ensures
            r is Ok <==> spec_load_result(world_model(*old(self)), vmodel(*data)) is Some,
            match r {
                Ok(_) => spec_load_result(world_model(*old(self)), vmodel(*data)) == Some(
                    world_model(*final(self)),
                ),
                Err(e) => {
                    &&& *final(self) == *old(self)
                    &&& match e {
                        LoadError::Character { name } => name@ == "doggie"@ || name@ == "kitie"@,
                        LoadError::Item { name } => world_model(*old(self)).item(name@) is Some,
                        LoadError::Scene { name } => world_model(*old(self)).scene(name@)
                            is Some,
                        LoadError::World => true,
                    }
                },
            },
    {
        let ghost w0 = world_model(*self);
        // Language.
        let lang_s: String = match data.get("lang") {
            Some(Value::Str(l)) => l.clone(),
            _ => {
                return Err(LoadError::World);
            },
        };
        if !self.supports_language(lang_s.as_str()) {
            return Err(LoadError::World);
        }
        // Characters, staged.
        let chars_v: &Value = match data.get("characters") {
            Some(v) => v,
            None => {
                return Err(LoadError::World);
            },
        };
        let pd: ParsedCharacter = match chars_v.get("doggie") {
            Some(v) => match character_load_exec(v) {
                Some(p) => p,
                None => {
                    return Err(LoadError::Character { name: "doggie".to_owned() });
                },
            },
            None => {
                return Err(LoadError::Character { name: "doggie".to_owned() });
            },
        };
        let pk: ParsedCharacter = match chars_v.get("kitie") {
            Some(v) => match character_load_exec(v) {
                Some(p) => p,
                None => {
                    return Err(LoadError::Character { name: "kitie".to_owned() });
                },
            },
            None => {
                return Err(LoadError::Character { name: "kitie".to_owned() });
            },
        };
        // Item states, staged.
        let items_v: &Value = match data.get("items") {
            Some(v) => v,
            None => {
                return Err(LoadError::World);
            },
        };
        if !items_v.is_object() {
            return Err(LoadError::World);
        }
        let ghost io = match vmodel(*items_v) {
            ValModel::Object(es) => es,
            _ => Seq::empty(),
        };
        let mut staged_states: Vec<ItemState> = Vec::new();
        let mut i: usize = 0;
        while i < self.items.len()
            invariant
                i <= self.items@.len(),
                w0 == world_model(*self),
                *self == *old(self),
                w0.items.len() == self.items@.len(),
                forall|j: int|
                    0 <= j < w0.items.len() ==> w0.items[j] == item_model(self.items@[j]),
                vmodel(*items_v) == ValModel::Object(io),
                spec_load_items(w0.items, io) is None ==> spec_load_result(
                    w0,
                    vmodel(*data),
                ) is None,
                staged_states@.len() == i,
                forall|j: int|
                    0 <= j < i ==> spec_load_item_state(io, w0.items[j].name) == Some(
                        crate::entities::state_model(staged_states@[j]),
                    ),
            decreases self.items@.len() - i,
        {
            let rec: &Value = match items_v.get(self.items[i].name) {
                Some(v) => v,
                None => {
                    proof {
                        assert(spec_load_item_state(io, w0.items[i as int].name) is None);
                        if spec_load_items(w0.items, io) is Some {
                            lemma_load_items_pointwise(w0.items, io);
                            assert(spec_load_items(w0.items, io)->0[i as int] == (ItemModel {
                                state: spec_load_item_state(io, w0.items[i as int].name)->0,
                                ..w0.items[i as int]
                            }));
                            assert(false);
                        }
                        assert(spec_load_result(w0, vmodel(*data)) is None);
                        assert(exists|j: int|
                            0 <= j < w0.items.len() && w0.items[j].name == w0.items[i as int].name)
                            by {
                            assert(w0.items[i as int].name == w0.items[i as int].name);
                        }
                        crate::world::lemma_lookup_item_some(w0.items, w0.items[i as int].name);
                    }
                    return Err(LoadError::Item { name: self.items[i].name.to_owned() });
                },
            };
            let sv: &Value = match rec.get("state") {
                Some(v) => v,
                None => {
                    proof {
                        assert(spec_load_item_state(io, w0.items[i as int].name) is None);
                        if spec_load_items(w0.items, io) is Some {
                            lemma_load_items_pointwise(w0.items, io);
                            assert(spec_load_items(w0.items, io)->0[i as int] == (ItemModel {
                                state: spec_load_item_state(io, w0.items[i as int].name)->0,
                                ..w0.items[i as int]
                            }));
                            assert(false);
                        }
                        assert(spec_load_result(w0, vmodel(*data)) is None);
                        assert(exists|j: int|
                            0 <= j < w0.items.len() && w0.items[j].name == w0.items[i as int].name)
                            by {
                            assert(w0.items[i as int].name == w0.items[i as int].name);
                        }
                        crate::world::lemma_lookup_item_some(w0.items, w0.items[i as int].name);
                    }
                    return Err(LoadError::Item { name: self.items[i].name.to_owned() });
                },
            };
            let st: ItemState = match parse_state_exec(sv) {
                Some(st) => st,
                None => {
                    proof {
                        assert(spec_load_item_state(io, w0.items[i as int].name) is None);
                        if spec_load_items(w0.items, io) is Some {
                            lemma_load_items_pointwise(w0.items, io);
                            assert(spec_load_items(w0.items, io)->0[i as int] == (ItemModel {
                                state: spec_load_item_state(io, w0.items[i as int].name)->0,
                                ..w0.items[i as int]
                            }));
                            assert(false);
                        }
                        assert(spec_load_result(w0, vmodel(*data)) is None);
                        assert(exists|j: int|
                            0 <= j < w0.items.len() && w0.items[j].name == w0.items[i as int].name)
                            by {
                            assert(w0.items[i as int].name == w0.items[i as int].name);
                        }
                        crate::world::lemma_lookup_item_some(w0.items, w0.items[i as int].name);
                    }
                    return Err(LoadError::Item { name: self.items[i].name.to_owned() });
                },
            };
            staged_states.push(st);
            i = i + 1;
        }
        // Scene dialogs, staged.
        let scenes_v: &Value = match data.get("scenes") {
            Some(v) => v,
            None => {
                return Err(LoadError::World);
            },
        };
        if !scenes_v.is_object() {
            return Err(LoadError::World);
        }
        let ghost so = match vmodel(*scenes_v) {
            ValModel::Object(es) => es,
            _ => Seq::empty(),
        };
        let mut staged_dialogs: Vec<Option<u64>> = Vec::new();
        let mut i: usize = 0;
        while i < self.scenes.len()
            invariant
                i <= self.scenes@.len(),
                w0 == world_model(*self),
                *self == *old(self),
                w0.scenes.len() == self.scenes@.len(),
                forall|j: int|
                    0 <= j < w0.scenes.len() ==> w0.scenes[j] == scene_model(self.scenes@[j]),
                vmodel(*scenes_v) == ValModel::Object(so),
                spec_load_scenes(w0.scenes, so) is None ==> spec_load_result(
                    w0,
                    vmodel(*data),
                ) is None,
                staged_dialogs@.len() == i,
                forall|j: int|
                    0 <= j < i ==> spec_load_scene_dialog(so, w0.scenes[j].name) == Some(
                        staged_dialogs@[j],
                    ),
            decreases self.scenes@.len() - i,
        {
            let rec: &Value = match scenes_v.get(self.scenes[i].name) {
                Some(v) => v,
                None => {
                    proof {
                        assert(spec_load_scene_dialog(so, w0.scenes[i as int].name) is None);
                        if spec_load_scenes(w0.scenes, so) is Some {
                            lemma_load_scenes_pointwise(w0.scenes, so);
                            assert(spec_load_scenes(w0.scenes, so)->0[i as int] == (SceneModel {
                                dialog: spec_load_scene_dialog(so, w0.scenes[i as int].name)->0,
                                ..w0.scenes[i as int]
                            }));
                            assert(false);
                        }
                        assert(spec_load_result(w0, vmodel(*data)) is None);
                        assert(exists|j: int|
                            0 <= j < w0.scenes.len() && w0.scenes[j].name == w0.scenes[
                                i as int
                            ].name) by {
                            assert(w0.scenes[i as int].name == w0.scenes[i as int].name);
                        }
                        crate::world::lemma_lookup_scene_some(w0.scenes, w0.scenes[i as int].name);
                    }
                    return Err(LoadError::Scene { name: self.scenes[i].name.to_owned() });
                },
            };
            let d: Option<u64> = match rec.get("dialog") {
                Some(Value::Null) => None,
                Some(Value::Int(d)) => Some(*d),
                _ => {
                    proof {
                        assert(spec_load_scene_dialog(so, w0.scenes[i as int].name) is None);
                        if spec_load_scenes(w0.scenes, so) is Some {
                            lemma_load_scenes_pointwise(w0.scenes, so);
                            assert(spec_load_scenes(w0.scenes, so)->0[i as int] == (SceneModel {
                                dialog: spec_load_scene_dialog(so, w0.scenes[i as int].name)->0,
                                ..w0.scenes[i as int]
                            }));
                            assert(false);
                        }
                        assert(spec_load_result(w0, vmodel(*data)) is None);
                        assert(exists|j: int|
                            0 <= j < w0.scenes.len() && w0.scenes[j].name == w0.scenes[
                                i as int
                            ].name) by {
                            assert(w0.scenes[i as int].name == w0.scenes[i as int].name);
                        }
                        crate::world::lemma_lookup_scene_some(w0.scenes, w0.scenes[i as int].name);
                    }
                    return Err(LoadError::Scene { name: self.scenes[i].name.to_owned() });
                },
            };
            staged_dialogs.push(d);
            i = i + 1;
        }
        proof {
            assert forall|j: int| 0 <= j < w0.items.len() implies spec_load_item_state(
                io,
                w0.items[j].name,
            ) is Some by {
                assert(spec_load_item_state(io, w0.items[j].name) == Some(
                    crate::entities::state_model(staged_states@[j]),
                ));
            }
            assert forall|j: int| 0 <= j < w0.scenes.len() implies spec_load_scene_dialog(
                so,
                w0.scenes[j].name,
            ) is Some by {
                assert(spec_load_scene_dialog(so, w0.scenes[j].name) == Some(staged_dialogs@[j]));
            }
            lemma_load_items_from_pointwise(w0.items, io);
            lemma_load_items_pointwise(w0.items, io);
            lemma_load_scenes_from_pointwise(w0.scenes, so);
            lemma_load_scenes_pointwise(w0.scenes, so);
        }
        let ghost loaded_items = spec_load_items(w0.items, io)->0;
        let ghost loaded_scenes = spec_load_scenes(w0.scenes, so)->0;
        let ghost candidate = WorldModel {
            story: w0.story,
            doggie: crate::characters::parsed_model(pd),
            kitie: crate::characters::parsed_model(pk),
            items: loaded_items,
            scenes: loaded_scenes,
            lang: lang_s@,
            languages: w0.languages,
        };
        proof {
            assert(forall|j: int|
                0 <= j < loaded_scenes.len() ==> loaded_scenes[j].name == w0.scenes[j].name);
            crate::world::lemma_lookup_scene_same_names(w0.scenes, loaded_scenes);
            assert(spec_load_result(w0, vmodel(*data)) == (if candidate.wf() {
                Some(candidate)
            } else {
                Option::<WorldModel>::None
            }));
        }
        // Validation: every reference the loaded states carry must name
        // an entity of this world.
        match &pd.scene {
            Some(s) => {
                if self.find_scene(s.as_str()).is_none() {
                    proof {
                        assert(!candidate.wf());
                    }
                    return Err(LoadError::Character { name: "doggie".to_owned() });
                }
            },
            None => {},
        }
        match &pk.scene {
            Some(s) => {
                if self.find_scene(s.as_str()).is_none() {
                    proof {
                        assert(!candidate.wf());
                    }
                    return Err(LoadError::Character { name: "kitie".to_owned() });
                }
            },
            None => {},
        }
        let mut i: usize = 0;
        while i < staged_states.len()
            invariant
                i <= staged_states@.len(),
                w0 == world_model(*self),
                *self == *old(self),
                staged_states@.len() == w0.items.len(),
                w0.items.len() == self.items@.len(),
                loaded_items == spec_load_items(w0.items, io)->0,
                loaded_items.len() == w0.items.len(),
                forall|j: int|
                    0 <= j < w0.items.len() ==> loaded_items[j] == (ItemModel {
                        state: crate::entities::state_model(staged_states@[j]),
                        ..w0.items[j]
                    }),
                candidate.items == loaded_items,
                candidate.scenes == loaded_scenes,
                forall|n: Seq<char>| #[trigger]
                    crate::world::lookup_scene(w0.scenes, n) is Some
                        <==> #[trigger] crate::world::lookup_scene(loaded_scenes, n) is Some,
                spec_load_result(w0, vmodel(*data)) == (if candidate.wf() {
                    Some(candidate)
                } else {
                    Option::<WorldModel>::None
                }),
                forall|j: int|
                    0 <= j < i ==> match #[trigger] loaded_items[j].state {
                        ItemStateModel::Unassigned => true,
                        ItemStateModel::Owned(c) => candidate.character(c) is Some,
                        ItemStateModel::InScene(s) => candidate.has_scene(s),
                    },
            decreases staged_states@.len() - i,
        {
            match &staged_states[i] {
                ItemState::Owned(c) => {
                    if !(str_eq(c.as_str(), "doggie") || str_eq(c.as_str(), "kitie")) {
                        proof {
                            assert(loaded_items[i as int].state == ItemStateModel::Owned(c@));
                            assert(!candidate.wf());
                            assert(exists|j: int|
                                0 <= j < w0.items.len() && w0.items[j].name == w0.items[
                                    i as int
                                ].name) by {
                                assert(w0.items[i as int].name == w0.items[i as int].name);
                            }
                            crate::world::lemma_lookup_item_some(w0.items, w0.items[i as int].name);
                        }
                        return Err(LoadError::Item { name: self.items[i].name.to_owned() });
                    }
                },
                ItemState::InScene(s) => {
                    if self.find_scene(s.as_str()).is_none() {
                        proof {
                            assert(loaded_items[i as int].state == ItemStateModel::InScene(s@));
                            assert(!candidate.wf());
                            assert(exists|j: int|
                                0 <= j < w0.items.len() && w0.items[j].name == w0.items[
                                    i as int
                                ].name) by {
                                assert(w0.items[i as int].name == w0.items[i as int].name);
                            }
                            crate::world::lemma_lookup_item_some(w0.items, w0.items[i as int].name);
                        }
                        return Err(LoadError::Item { name: self.items[i].name.to_owned() });
                    }
                },
                ItemState::Unassigned => {},
            }
            i = i + 1;
        }
        proof {
            assert(candidate.wf());
            assert(spec_load_result(w0, vmodel(*data)) == Some(candidate));
        }
        // Commit: the whole staged state at once.
        let ghost pdm = crate::characters::parsed_model(pd);
        let ghost pkm = crate::characters::parsed_model(pk);
        let ghost langv = lang_s@;
        self.lang = lang_s;
        self.doggie.scene = pd.scene;
        self.doggie.sand_cake_last = pd.sand_cake_last;
        self.doggie.consumed_pie = pd.consumed_pie;
        self.doggie.consumed_soup = pd.consumed_soup;
        self.doggie.consumed_dumplings = pd.consumed_dumplings;
        self.doggie.consumed_meat = pd.consumed_meat;
        self.kitie.scene = pk.scene;
        self.kitie.sand_cake_last = pk.sand_cake_last;
        self.kitie.consumed_pie = pk.consumed_pie;
        self.kitie.consumed_soup = pk.consumed_soup;
        self.kitie.consumed_dumplings = pk.consumed_dumplings;
        self.kitie.consumed_meat = pk.consumed_meat;
        let ghost staged = staged_states@;
        let ghost mid0 = *self;
        proof {
            assert(staged.take(staged.len() as int) =~= staged);
        }
        while staged_states.len() > 0
            invariant
                staged_states@.len() <= staged.len(),
                staged.len() == self.items@.len(),
                staged_states@ == staged.take(staged_states@.len() as int),
                self.items@.len() == mid0.items@.len(),
                forall|j: int|
                    staged_states@.len() <= j < self.items@.len() ==> item_model(self.items@[j])
                        == (ItemModel {
                        state: crate::entities::state_model(staged[j]),
                        ..item_model(mid0.items@[j])
                    }),
                forall|j: int|
                    0 <= j < staged_states@.len() ==> self.items@[j] == mid0.items@[j],
                self.scenes == mid0.scenes,
                self.doggie == mid0.doggie,
                self.kitie == mid0.kitie,
                self.lang == mid0.lang,
                self.languages == mid0.languages,
                self.story == mid0.story,
            decreases staged_states@.len(),
        {
            let st = staged_states.pop().unwrap();
            let idx = staged_states.len();
            proof {
                assert(staged.take(idx + 1).last() == staged[idx as int]);
                assert(staged.take(idx + 1).drop_last() =~= staged.take(idx as int));
            }
            self.items[idx].state = st;
        }
        let ghost mid1 = *self;
        let mut i: usize = 0;
        while i < self.scenes.len()
            invariant
                i <= self.scenes@.len(),
                staged_dialogs@.len() == self.scenes@.len(),
                self.scenes@.len() == mid1.scenes@.len(),
                forall|j: int|
                    0 <= j < i ==> scene_model(self.scenes@[j]) == (SceneModel {
                        dialog: staged_dialogs@[j],
                        ..scene_model(mid1.scenes@[j])
                    }),
                forall|j: int| i <= j < self.scenes@.len() ==> self.scenes@[j] == mid1.scenes@[j],
                self.items == mid1.items,
                self.doggie == mid1.doggie,
                self.kitie == mid1.kitie,
                self.lang == mid1.lang,
                self.languages == mid1.languages,
                self.story == mid1.story,
            decreases self.scenes@.len() - i,
        {
            self.scenes[i].dialog = staged_dialogs[i];
            i = i + 1;
        }
        proof {
            assert(forall|j: int|
                0 <= j < w0.items.len() ==> w0.items[j] == item_model(old(self).items@[j]));
            assert(forall|j: int|
                0 <= j < w0.scenes.len() ==> w0.scenes[j] == scene_model(old(self).scenes@[j]));
            assert(forall|j: int|
                0 <= j < self.items@.len() ==> item_model(self.items@[j]) == loaded_items[j]);
            assert(world_model(*self).items =~= loaded_items);
            assert(forall|j: int|
                0 <= j < self.scenes@.len() ==> scene_model(self.scenes@[j]) == loaded_scenes[j]);
            assert(world_model(*self).scenes =~= loaded_scenes);
            assert(crate::characters::doggie_model(self.doggie) == pdm);
            assert(crate::characters::kitie_model(self.kitie) == pkm);
            assert(world_model(*self).languages =~= w0.languages);
            assert(world_model(*self) == candidate);
        }
        Ok(())
    }
}

} // verus!

// ---------------------------------------------------------------------------
// The round trip: a dumped world always loads back as itself.
// ---------------------------------------------------------------------------

verus! {

use crate::values::lemma_lookup_entries_at;
use crate::characters::lemma_character_round_trip;

/// An item state reads back as itself.
pub proof fn lemma_state_round_trip(st: ItemStateModel)
    ensures
        spec_parse_state_m(spec_state_dump(st)) == Some(st),
{
    reveal_with_fuel(spec_lookup, 3);
    reveal_strlit("type");
    reveal_strlit("character");
    reveal_strlit("scene");
    reveal_strlit("unassigned");
    reveal_strlit("owned");
    reveal_strlit("in_scene");
    assert("type"@.len() == 4);
    assert("character"@.len() == 9);
    assert("scene"@.len() == 5);
    assert("unassigned"@.len() == 10);
    assert("owned"@.len() == 5);
    assert("in_scene"@.len() == 8);
}

/// Sequences of items whose names are pairwise distinct.
pub open spec fn distinct_item_names(items: Seq<ItemModel>) -> bool {
    forall|a: int, b: int| 0 <= a < b < items.len() ==> items[a].name != items[b].name
}

pub open spec fn distinct_scene_names(scenes: Seq<SceneModel>) -> bool {
    forall|a: int, b: int| 0 <= a < b < scenes.len() ==> scenes[a].name != scenes[b].name
}

/// A catalog match: same entities in the same order, states aside.
pub open spec fn same_item_catalog(a: Seq<ItemModel>, b: Seq<ItemModel>) -> bool {
    &&& a.len() == b.len()
    &&& forall|j: int| 0 <= j < a.len() ==> a[j].name == b[j].name && a[j].tags == b[j].tags
}

pub open spec fn same_scene_catalog(a: Seq<SceneModel>, b: Seq<SceneModel>) -> bool {
    &&& a.len() == b.len()
    &&& forall|j: int| 0 <= j < a.len() ==> a[j].name == b[j].name
}

/// The dumped item category reads back as exactly the dumped states.
pub proof fn lemma_items_round_trip(items0: Seq<ItemModel>, items: Seq<ItemModel>)
    requires
        same_item_catalog(items0, items),
        distinct_item_names(items),
    ensures
        spec_load_items(items0, spec_items_dump(items)) == Some(items),
{
    let obj = spec_items_dump(items);
    lemma_items_dump_pointwise(items);
    reveal_with_fuel(spec_lookup, 3);
    reveal_strlit("name");
    reveal_strlit("state");
    assert("name"@.len() == 4);
    assert("state"@.len() == 5);
    assert forall|j: int| 0 <= j < items0.len() implies spec_load_item_state(
        obj,
        items0[j].name,
    ) == Some(items[j].state) by {
        assert(forall|k: int| 0 <= k < j ==> obj[k].0 != obj[j].0);
        lemma_lookup_entries_at(obj, j);
        assert(spec_lookup(obj, items[j].name) == Some(spec_item_dump(items[j])));
        let rec = match spec_item_dump(items[j]) {
            ValModel::Object(es) => es,
            _ => Seq::empty(),
        };
        assert(spec_lookup(rec, "state"@) == Some(spec_state_dump(items[j].state)));
        lemma_state_round_trip(items[j].state);
    }
    lemma_load_items_from_pointwise(items0, obj);
    lemma_load_items_pointwise(items0, obj);
    assert(spec_load_items(items0, obj)->0 =~= items);
}

/// The dumped scene category reads back as exactly the dumped cursors.
pub proof fn lemma_scenes_round_trip(scenes0: Seq<SceneModel>, scenes: Seq<SceneModel>)
    requires
        same_scene_catalog(scenes0, scenes),
        distinct_scene_names(scenes),
    ensures
        spec_load_scenes(scenes0, spec_scenes_dump(scenes)) == Some(scenes),
{
    let obj = spec_scenes_dump(scenes);
    lemma_scenes_dump_pointwise(scenes);
    reveal_with_fuel(spec_lookup, 3);
    reveal_strlit("name");
    reveal_strlit("dialog");
    assert("name"@.len() == 4);
    assert("dialog"@.len() == 6);
    assert forall|j: int| 0 <= j < scenes0.len() implies spec_load_scene_dialog(
        obj,
        scenes0[j].name,
    ) == Some(scenes[j].dialog) by {
        assert(forall|k: int| 0 <= k < j ==> obj[k].0 != obj[j].0);
        lemma_lookup_entries_at(obj, j);
        assert(spec_lookup(obj, scenes[j].name) == Some(spec_scene_dump(scenes[j])));
        let rec = match spec_scene_dump(scenes[j]) {
            ValModel::Object(es) => es,
            _ => Seq::empty(),
        };
        assert(spec_lookup(rec, "dialog"@) == Some(match scenes[j].dialog {
            None => ValModel::Null,
            Some(d) => ValModel::Int(d),
        }));
    }
    lemma_load_scenes_from_pointwise(scenes0, obj);
    lemma_load_scenes_pointwise(scenes0, obj);
    assert(spec_load_scenes(scenes0, obj)->0 =~= scenes);
}

/// The round-trip law: for every world `w` that satisfies the world
/// invariant and speaks a supported language, loading `w`'s dump into any
/// world of the same story catalog yields exactly `w` - same entity
/// states, same language, field by field.
pub proof fn lemma_dump_load_round_trip(w0: WorldModel, w: WorldModel)
    requires
        w.wf(),
        w0.story == w.story,
        w0.languages == w.languages,
        same_item_catalog(w0.items, w.items),
        same_scene_catalog(w0.scenes, w.scenes),
        distinct_item_names(w.items),
        distinct_scene_names(w.scenes),
        w0.supports_lang(w.lang),
    ensures
        spec_load_result(w0, spec_world_dump(w)) == Some(w),
{
    let root = match spec_world_dump(w) {
        ValModel::Object(es) => es,
        _ => Seq::empty(),
    };
    reveal_with_fuel(spec_lookup, 5);
    reveal_strlit("lang");
    reveal_strlit("characters");
    reveal_strlit("items");
    reveal_strlit("scenes");
    reveal_strlit("doggie");
    reveal_strlit("kitie");
    assert("lang"@.len() == 4);
    assert("characters"@.len() == 10);
    assert("items"@.len() == 5);
    assert("scenes"@.len() == 6);
    assert("doggie"@.len() == 6);
    assert("kitie"@.len() == 5);
    assert("lang"@[0] != "items"@[0]) by {
        reveal_strlit("lang");
        reveal_strlit("items");
    }
    assert(spec_lookup(root, "lang"@) == Some(ValModel::Str(w.lang)));
    assert(spec_lookup(root, "characters"@) == Some(root[1].1));
    assert(spec_lookup(root, "items"@) == Some(ValModel::Object(spec_items_dump(w.items))));
    assert(spec_lookup(root, "scenes"@) == Some(ValModel::Object(spec_scenes_dump(w.scenes))));
    let cs = match root[1].1 {
        ValModel::Object(es) => es,
        _ => Seq::empty(),
    };
    assert(spec_lookup(cs, "doggie"@) == Some(spec_character_dump("doggie"@, w.doggie)));
    assert(spec_lookup(cs, "kitie"@) == Some(spec_character_dump("kitie"@, w.kitie)));
    lemma_character_round_trip("doggie"@, w.doggie);
    lemma_character_round_trip("kitie"@, w.kitie);
    lemma_items_round_trip(w0.items, w.items);
    lemma_scenes_round_trip(w0.scenes, w.scenes);
    let candidate = WorldModel {
        story: w0.story,
        doggie: w.doggie,
        kitie: w.kitie,
        items: w.items,
        scenes: w.scenes,
        lang: w.lang,
        languages: w0.languages,
    };
    assert(candidate == w);
}

} // verus!
