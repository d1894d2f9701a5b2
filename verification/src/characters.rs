//! The two protagonists.  Both stories star the same pair, so the world
//! holds them as typed fields rather than behind runtime type tests; the
//! story-specific meal flags live directly in the character records and
//! simply stay false in stories that never touch them.

use vstd::prelude::*;

use crate::errors::LoadError;
use crate::translations::{get_message, message_key, spec_message};
use crate::values::{lemma_vmodel_entries, spec_lookup, vmodel, vmodel_entries, ValModel, Value};

verus! {


/// The view of an optional scene name.
pub open spec fn opt_view(s: Option<String>) -> Option<Seq<char>> {
    match s {
        None => None,
        Some(x) => Some(x@),
    }
}

/// The observable state of one character: its scene (`None` while
/// offstage) and the story-specific flags that are persisted with it.
pub ghost struct CharacterModel {
    pub scene: Option<Seq<char>>,
    pub sand_cake_last: bool,
    pub consumed_pie: bool,
    pub consumed_soup: bool,
    pub consumed_dumplings: bool,
    pub consumed_meat: bool,
}

impl CharacterModel {
    /// A character that has consumed every meal of the final feast.
    pub open spec fn spec_full(self) -> bool {
        self.consumed_meat && self.consumed_dumplings && self.consumed_soup && self.consumed_pie
    }
}

/// The dumped record of a character: name, scene and the meal flags.
pub open spec fn spec_character_dump(name: Seq<char>, c: CharacterModel) -> ValModel {
    ValModel::Object(
        seq![
            ("name"@, ValModel::Str(name)),
            (
                "scene"@,
                match c.scene {
                    None => ValModel::Null,
                    Some(s) => ValModel::Str(s),
                },
            ),
            ("sand_cake_last"@, ValModel::Bool(c.sand_cake_last)),
            ("consumed_pie"@, ValModel::Bool(c.consumed_pie)),
            ("consumed_soup"@, ValModel::Bool(c.consumed_soup)),
            ("consumed_dumplings"@, ValModel::Bool(c.consumed_dumplings)),
            ("consumed_meat"@, ValModel::Bool(c.consumed_meat)),
        ],
    )
}

/// How the `scene` entry of a character record is read: absent or null
/// means offstage, a string is a scene name, anything else is malformed.
pub open spec fn spec_parse_scene_entry(o: Option<ValModel>) -> Option<Option<Seq<char>>> {
    match o {
        None => Some(None),
        Some(ValModel::Null) => Some(None),
        Some(ValModel::Str(s)) => Some(Some(s)),
        Some(_) => None,
    }
}

/// A flag entry must be present and boolean.
pub open spec fn spec_parse_bool_entry(o: Option<ValModel>) -> Option<bool> {
    match o {
        Some(ValModel::Bool(b)) => Some(b),
        _ => None,
    }
}

/// Reads a character record back out of a value tree, if well-formed.
pub open spec fn spec_parse_character_m(m: ValModel) -> Option<CharacterModel> {
    let entries = match m {
        ValModel::Object(es) => es,
        _ => Seq::empty(),
    };
    let scene = spec_parse_scene_entry(spec_lookup(entries, "scene"@));
    let sand_cake_last = spec_parse_bool_entry(spec_lookup(entries, "sand_cake_last"@));
    let consumed_pie = spec_parse_bool_entry(spec_lookup(entries, "consumed_pie"@));
    let consumed_soup = spec_parse_bool_entry(spec_lookup(entries, "consumed_soup"@));
    let consumed_dumplings = spec_parse_bool_entry(spec_lookup(entries, "consumed_dumplings"@));
    let consumed_meat = spec_parse_bool_entry(spec_lookup(entries, "consumed_meat"@));
    if scene is Some && sand_cake_last is Some && consumed_pie is Some && consumed_soup is Some
        && consumed_dumplings is Some && consumed_meat is Some {
        Some(
            CharacterModel {
                scene: scene->0,
                sand_cake_last: sand_cake_last->0,
                consumed_pie: consumed_pie->0,
                consumed_soup: consumed_soup->0,
                consumed_dumplings: consumed_dumplings->0,
                consumed_meat: consumed_meat->0,
            },
        )
    } else {
        None
    }
}

pub open spec fn spec_parse_character(v: Value) -> Option<CharacterModel> {
    spec_parse_character_m(vmodel(v))
}

/// A dumped character record always reads back as the character it came
/// from, whatever its name.
pub proof fn lemma_character_round_trip(name: Seq<char>, c: CharacterModel)
    ensures
        spec_parse_character_m(spec_character_dump(name, c)) == Some(c),
{
    let es = match spec_character_dump(name, c) {
        ValModel::Object(es) => es,
        _ => Seq::empty(),
    };
    reveal_with_fuel(spec_lookup, 8);
    reveal_strlit("name");
    reveal_strlit("scene");
    reveal_strlit("sand_cake_last");
    reveal_strlit("consumed_pie");
    reveal_strlit("consumed_soup");
    reveal_strlit("consumed_dumplings");
    reveal_strlit("consumed_meat");
    assert("name"@.len() == 4);
    assert("scene"@.len() == 5);
    assert("sand_cake_last"@.len() == 14);
    assert("consumed_pie"@.len() == 12);
    assert("consumed_soup"@.len() == 13);
    assert("consumed_dumplings"@.len() == 18);
    assert("consumed_meat"@.len() == 13);
    assert("consumed_soup"@[9] != "consumed_meat"@[9]);
    assert(spec_lookup(es, "scene"@) == Some(es[1].1));
    assert(spec_lookup(es, "sand_cake_last"@) == Some(es[2].1));
    assert(spec_lookup(es, "consumed_pie"@) == Some(es[3].1));
    assert(spec_lookup(es, "consumed_soup"@) == Some(es[4].1));
    assert(spec_lookup(es, "consumed_dumplings"@) == Some(es[5].1));
    assert(spec_lookup(es, "consumed_meat"@) == Some(es[6].1));
}

/// Kitie the cat.
pub struct Kitie {
    pub scene: Option<String>,
    pub sand_cake_last: bool,
    pub consumed_pie: bool,
    pub consumed_soup: bool,
    pub consumed_dumplings: bool,
    pub consumed_meat: bool,
}

/// Doggie the dog.
pub struct Doggie {
    pub scene: Option<String>,
    pub sand_cake_last: bool,
    pub consumed_pie: bool,
    pub consumed_soup: bool,
    pub consumed_dumplings: bool,
    pub consumed_meat: bool,
}

pub open spec fn kitie_model(c: Kitie) -> CharacterModel {
    CharacterModel {
        scene: opt_view(c.scene),
        sand_cake_last: c.sand_cake_last,
        consumed_pie: c.consumed_pie,
        consumed_soup: c.consumed_soup,
        consumed_dumplings: c.consumed_dumplings,
        consumed_meat: c.consumed_meat,
    }
}

pub open spec fn doggie_model(c: Doggie) -> CharacterModel {
    CharacterModel {
        scene: opt_view(c.scene),
        sand_cake_last: c.sand_cake_last,
        consumed_pie: c.consumed_pie,
        consumed_soup: c.consumed_soup,
        consumed_dumplings: c.consumed_dumplings,
        consumed_meat: c.consumed_meat,
    }
}

impl Kitie {
    /// The short, language-aware name of this character.
    pub fn short(&self, world: &crate::world::World) -> (r: String)
        ensures
            r@ == spec_message(
                crate::world::world_model(*world).story + "-"@ + "kitie"@ + "-long"@,
                crate::world::world_model(*world).lang,
            ),
    {
        get_message(message_key(world.story, "kitie", "-long").as_str(), world.lang.as_str())
    }

    /// The long, language-aware description of this character.
    pub fn long(&self, world: &crate::world::World) -> (r: String)
        ensures
            r@ == spec_message(
                crate::world::world_model(*world).story + "-"@ + "kitie"@ + "-short"@,
                crate::world::world_model(*world).lang,
            ),
    {
        get_message(message_key(world.story, "kitie", "-short").as_str(), world.lang.as_str())
    }

    /// The stable, untranslated identifier of this character.
    pub fn name(&self) -> (r: &'static str)
        ensures
            r@ == "kitie"@,
    {
        "kitie"
    }

    /// The classification tags of this character.
    pub fn get_tags(&self) -> (r: Vec<String>)
        ensures
            r.deep_view() == seq!["cat"@],
    {
        let r = vec!["cat".to_owned()];
        proof {
            assert(r.deep_view() =~= seq!["cat"@]);
        }
        r
    }

    /// Whether every meal of the final feast has been consumed.
    pub fn full(&self) -> (r: bool)
        ensures
            r == kitie_model(*self).spec_full(),
    {
        self.consumed_meat && self.consumed_dumplings && self.consumed_soup && self.consumed_pie
    }

    /// The scene this character currently stands in, `None` while offstage.
    pub fn scene(&self) -> (r: &Option<String>)
        ensures
            *r == self.scene,
    {
        &self.scene
    }

    pub fn set_scene(&mut self, scene: Option<String>)
        ensures
            *final(self) == (Kitie { scene, ..*old(self) }),
    {
        self.scene = scene;
    }

    /// Dumps the persisted fields as a value tree.
    pub fn dump(&self) -> (r: Value)
        ensures
            vmodel(r) == spec_character_dump("kitie"@, kitie_model(*self)),
    {
        character_dump_exec("kitie", &self.scene, self.sand_cake_last, self.consumed_pie,
            self.consumed_soup, self.consumed_dumplings, self.consumed_meat)
    }

    /// Restores the persisted fields from a value tree; on a malformed
    /// tree the character is left unchanged.
    pub fn load(&mut self, data: &Value) -> (r: Result<(), LoadError>)
        ensures
            match r {
                Ok(_) => spec_parse_character(*data) == Some(kitie_model(*final(self))),
                Err(e) => {
                    &&& spec_parse_character(*data) is None
                    &&& *final(self) == *old(self)
                    &&& e matches LoadError::Character { name } && name@ == "kitie"@
                },
            },
            r is Ok <==> spec_parse_character(*data) is Some,
    {
        match character_load_exec(data) {
            Some(c) => {
                self.scene = c.scene;
                self.sand_cake_last = c.sand_cake_last;
                self.consumed_pie = c.consumed_pie;
                self.consumed_soup = c.consumed_soup;
                self.consumed_dumplings = c.consumed_dumplings;
                self.consumed_meat = c.consumed_meat;
                Ok(())
            },
            None => Err(LoadError::Character { name: "kitie".to_owned() }),
        }
    }
}

impl Doggie {
    /// The short, language-aware name of this character.
    pub fn short(&self, world: &crate::world::World) -> (r: String)
        ensures
            r@ == spec_message(
                crate::world::world_model(*world).story + "-"@ + "doggie"@ + "-short"@,
                crate::world::world_model(*world).lang,
            ),
    {
        get_message(message_key(world.story, "doggie", "-short").as_str(), world.lang.as_str())
    }

    /// The long, language-aware description of this character.
    pub fn long(&self, world: &crate::world::World) -> (r: String)
        ensures
            r@ == spec_message(
                crate::world::world_model(*world).story + "-"@ + "doggie"@ + "-long"@,
                crate::world::world_model(*world).lang,
            ),
    {
        get_message(message_key(world.story, "doggie", "-long").as_str(), world.lang.as_str())
    }

    /// The stable, untranslated identifier of this character.
    pub fn name(&self) -> (r: &'static str)
        ensures
            r@ == "doggie"@,
    {
        "doggie"
    }

    /// The classification tags of this character.
    pub fn get_tags(&self) -> (r: Vec<String>)
        ensures
            r.deep_view() == seq!["cat"@],
    {
        let r = vec!["cat".to_owned()];
        proof {
            assert(r.deep_view() =~= seq!["cat"@]);
        }
        r
    }

    /// Whether every meal of the final feast has been consumed.
    pub fn full(&self) -> (r: bool)
        ensures
            r == doggie_model(*self).spec_full(),
    {
        self.consumed_meat && self.consumed_dumplings && self.consumed_soup && self.consumed_pie
    }

    /// The scene this character currently stands in, `None` while offstage.
    pub fn scene(&self) -> (r: &Option<String>)
        ensures
            *r == self.scene,
    {
        &self.scene
    }

    pub fn set_scene(&mut self, scene: Option<String>)
        ensures
            *final(self) == (Doggie { scene, ..*old(self) }),
    {
        self.scene = scene;
    }

    /// Dumps the persisted fields as a value tree.
    pub fn dump(&self) -> (r: Value)
        ensures
            vmodel(r) == spec_character_dump("doggie"@, doggie_model(*self)),
    {
        character_dump_exec("doggie", &self.scene, self.sand_cake_last, self.consumed_pie,
            self.consumed_soup, self.consumed_dumplings, self.consumed_meat)
    }

    /// Restores the persisted fields from a value tree; on a malformed
    /// tree the character is left unchanged.
    pub fn load(&mut self, data: &Value) -> (r: Result<(), LoadError>)
        ensures
            match r {
                Ok(_) => spec_parse_character(*data) == Some(doggie_model(*final(self))),
                Err(e) => {
                    &&& spec_parse_character(*data) is None
                    &&& *final(self) == *old(self)
                    &&& e matches LoadError::Character { name } && name@ == "doggie"@
                },
            },
            r is Ok <==> spec_parse_character(*data) is Some,
    {
        match character_load_exec(data) {
            Some(c) => {
                self.scene = c.scene;
                self.sand_cake_last = c.sand_cake_last;
                self.consumed_pie = c.consumed_pie;
                self.consumed_soup = c.consumed_soup;
                self.consumed_dumplings = c.consumed_dumplings;
                self.consumed_meat = c.consumed_meat;
                Ok(())
            },
            None => Err(LoadError::Character { name: "doggie".to_owned() }),
        }
    }
}

/// The parsed fields of a character record, staged before they are
/// committed to a character.
pub(crate) struct ParsedCharacter {
    pub(crate) scene: Option<String>,
    pub(crate) sand_cake_last: bool,
    pub(crate) consumed_pie: bool,
    pub(crate) consumed_soup: bool,
    pub(crate) consumed_dumplings: bool,
    pub(crate) consumed_meat: bool,
}

pub(crate) open spec fn parsed_model(c: ParsedCharacter) -> CharacterModel {
    CharacterModel {
        scene: opt_view(c.scene),
        sand_cake_last: c.sand_cake_last,
        consumed_pie: c.consumed_pie,
        consumed_soup: c.consumed_soup,
        consumed_dumplings: c.consumed_dumplings,
        consumed_meat: c.consumed_meat,
    }
}

pub(crate) fn character_load_exec(data: &Value) -> (r: Option<ParsedCharacter>)
    ensures
        match r {
            Some(c) => spec_parse_character(*data) == Some(parsed_model(c)),
            None => spec_parse_character(*data) is None,
        },
{
    let scene: Option<String> = match data.get("scene") {
        None => None,
        Some(Value::Null) => None,
        Some(Value::Str(s)) => Some(s.clone()),
        Some(_) => {
            return None;
        },
    };
    let sand_cake_last: bool = match data.get("sand_cake_last") {
        Some(Value::Bool(b)) => *b,
        _ => {
            return None;
        },
    };
    let consumed_pie: bool = match data.get("consumed_pie") {
        Some(Value::Bool(b)) => *b,
        _ => {
            return None;
        },
    };
    let consumed_soup: bool = match data.get("consumed_soup") {
        Some(Value::Bool(b)) => *b,
        _ => {
            return None;
        },
    };
    let consumed_dumplings: bool = match data.get("consumed_dumplings") {
        Some(Value::Bool(b)) => *b,
        _ => {
            return None;
        },
    };
    let consumed_meat: bool = match data.get("consumed_meat") {
        Some(Value::Bool(b)) => *b,
        _ => {
            return None;
        },
    };
    Some(
        ParsedCharacter {
            scene,
            sand_cake_last,
            consumed_pie,
            consumed_soup,
            consumed_dumplings,
            consumed_meat,
        },
    )
}

fn character_dump_exec(
    name: &str,
    scene: &Option<String>,
    sand_cake_last: bool,
    consumed_pie: bool,
    consumed_soup: bool,
    consumed_dumplings: bool,
    consumed_meat: bool,
) -> (r: Value)
    ensures
        vmodel(r) == spec_character_dump(
            name@,
            CharacterModel {
                scene: opt_view(*scene),
                sand_cake_last,
                consumed_pie,
                consumed_soup,
                consumed_dumplings,
                consumed_meat,
            },
        ),
{
    let mut entries: Vec<(String, Value)> = Vec::new();
    entries.push(("name".to_owned(), Value::Str(name.to_owned())));
    let scene_value = match scene {
        None => Value::Null,
        Some(s) => Value::Str(s.clone()),
    };
    entries.push(("scene".to_owned(), scene_value));
    entries.push(("sand_cake_last".to_owned(), Value::Bool(sand_cake_last)));
    entries.push(("consumed_pie".to_owned(), Value::Bool(consumed_pie)));
    entries.push(("consumed_soup".to_owned(), Value::Bool(consumed_soup)));
    entries.push(("consumed_dumplings".to_owned(), Value::Bool(consumed_dumplings)));
    entries.push(("consumed_meat".to_owned(), Value::Bool(consumed_meat)));
    let r = Value::Object(entries);
    proof {
        let target = spec_character_dump(
            name@,
            CharacterModel {
                scene: opt_view(*scene),
                sand_cake_last,
                consumed_pie,
                consumed_soup,
                consumed_dumplings,
                consumed_meat,
            },
        );
        let tes = match target {
            ValModel::Object(es) => es,
            _ => Seq::empty(),
        };
        lemma_vmodel_entries(r->Object_0@);
        assert(vmodel_entries(r->Object_0@) =~= tes);
    }
    r
}

} // verus!
