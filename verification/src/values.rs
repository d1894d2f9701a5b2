//! The structured value tree that worlds are dumped to and loaded from.
//!
//! The engine only defines this in-memory tree; turning it into an actual
//! transport format (JSON text, a QR payload, browser storage) is left to
//! the surrounding application.

use vstd::prelude::*;

verus! {

/// A JSON-like tree: null, booleans, unsigned integers, strings and
/// string-keyed objects.
#[derive(Debug, PartialEq)]
pub enum Value {
    Null,
    Bool(bool),
    Int(u64),
    Str(String),
    Object(Vec<(String, Value)>),
}

/// The mathematical shape of a [`Value`]: strings become character
/// sequences, objects become sequences of key/value pairs.
pub ghost enum ValModel {
    Null,
    Bool(bool),
    Int(u64),
    Str(Seq<char>),
    Object(Seq<(Seq<char>, ValModel)>),
}

/// The model of a value tree.
pub open spec fn vmodel(v: Value) -> ValModel
    decreases v,
{
    match v {
        Value::Null => ValModel::Null,
        Value::Bool(b) => ValModel::Bool(b),
        Value::Int(n) => ValModel::Int(n),
        Value::Str(s) => ValModel::Str(s@),
        Value::Object(entries) => ValModel::Object(vmodel_entries(entries@)),
    }
}

/// The models of a sequence of object entries, in order.
pub open spec fn vmodel_entries(s: Seq<(String, Value)>) -> Seq<(Seq<char>, ValModel)>
    decreases s,
{
    if s.len() == 0 {
        Seq::empty()
    } else {
        seq![(s[0].0@, vmodel(s[0].1))] + vmodel_entries(s.drop_first())
    }
}

/// Each entry's model is the model of the entry.
pub broadcast proof fn lemma_vmodel_entries(s: Seq<(String, Value)>)
    ensures
        #[trigger] vmodel_entries(s).len() == s.len(),
        forall|i: int|
            0 <= i < s.len() ==> vmodel_entries(s)[i] == (s[i].0@, vmodel(s[i].1)),
    decreases s.len(),
{
    if s.len() > 0 {
        lemma_vmodel_entries(s.drop_first());
    }
}

/// The value under the first entry of `entries` whose key is `key`.
pub open spec fn spec_lookup(entries: Seq<(Seq<char>, ValModel)>, key: Seq<char>) -> Option<
    ValModel,
>
    decreases entries.len(),
{
    if entries.len() == 0 {
        None
    } else if entries[0].0 == key {
        Some(entries[0].1)
    } else {
        spec_lookup(entries.drop_first(), key)
    }
}

/// The lookup of `key` in the model of `v`, if `v` is an object.
pub open spec fn spec_get(v: Value, key: Seq<char>) -> Option<ValModel> {
    match vmodel(v) {
        ValModel::Object(entries) => spec_lookup(entries, key),
        _ => None,
    }
}

/// String-slice equality, routed through the owned comparison that vstd
/// gives a specification to.
pub(crate) fn str_eq(a: &str, b: &str) -> (r: bool)
    ensures
        r == (a@ == b@),
{
    a.to_owned().eq(&b.to_owned())
}

impl Value {
    /// The first entry under `key`, if this tree is an object holding one.
    pub fn get<'a>(&'a self, key: &str) -> (r: Option<&'a Value>)
        ensures
            match r {
                Some(v) => spec_get(*self, key@) == Some(vmodel(*v)),
                None => spec_get(*self, key@) is None,
            },
    {
        match self {
            Value::Object(entries) => {
                let ghost m = vmodel_entries(entries@);
                proof {
                    lemma_vmodel_entries(entries@);
                    assert(m.skip(0) =~= m);
                    assert(vmodel(*self) == ValModel::Object(m));
                }
                let mut i: usize = 0;
                while i < entries.len()
                    invariant
                        i <= entries@.len(),
                        *self == Value::Object(*entries),
                        vmodel(*self) == ValModel::Object(m),
                        m == vmodel_entries(entries@),
                        m.len() == entries@.len(),
                        forall|j: int|
                            0 <= j < m.len() ==> m[j] == (entries@[j].0@, vmodel(entries@[j].1)),
                        spec_lookup(m, key@) == spec_lookup(m.skip(i as int), key@),
                    decreases entries@.len() - i,
                {
                    proof {
                        assert(m.skip(i as int)[0] == m[i as int]);
                        assert(m.skip(i as int).drop_first() =~= m.skip(i as int + 1));
                    }
                    if str_eq(entries[i].0.as_str(), key) {
                        proof {
                            assert(vmodel(*self) == ValModel::Object(m));
                            assert(spec_get(*self, key@) == spec_lookup(m, key@));
                            assert(m.skip(i as int).len() > 0);
                            assert(spec_lookup(m.skip(i as int), key@) == Some(m[i as int].1));
                        }
                        return Some(&entries[i].1);
                    }
                    i = i + 1;
                }
                proof {
                    assert(m.skip(i as int) =~= Seq::empty());
                }
                None
            },
            _ => None,
        }
    }
}

} // verus!

// ---------------------------------------------------------------------------
// Shape tests.
// ---------------------------------------------------------------------------

verus! {

impl Value {
    /// Whether this tree is an object.
    pub fn is_object(&self) -> (r: bool)
        ensures
            r == (vmodel(*self) is Object),
    {
        match self {
            Value::Object(_) => true,
            _ => false,
        }
    }
}

} // verus!

// ---------------------------------------------------------------------------
// Lookup in an object with distinct keys.
// ---------------------------------------------------------------------------

verus! {

/// Looking up the key of entry `j` finds entry `j`, provided no earlier
/// entry shares that key.
pub proof fn lemma_lookup_entries_at(entries: Seq<(Seq<char>, ValModel)>, j: int)
    requires
        0 <= j < entries.len(),
        forall|k: int| 0 <= k < j ==> entries[k].0 != entries[j].0,
    ensures
        spec_lookup(entries, entries[j].0) == Some(entries[j].1),
    decreases j,
{
    if j > 0 {
        assert(forall|k: int|
            1 <= k < entries.len() ==> entries[k] == entries.drop_first()[k - 1]);
        lemma_lookup_entries_at(entries.drop_first(), j - 1);
    }
}

} // verus!
