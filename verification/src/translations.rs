//! Message lookup: every human-readable string the engine hands out is
//! derived from a deterministic key of the shape
//! `"{story}-{entity-or-event-name}[-suffix]"` plus the active language.
//! Keys without a catalog entry render as themselves, so that a missing
//! translation is visible rather than silent.

use vstd::prelude::*;

use crate::values::str_eq;

verus! {

/// The rendered message for `key` in `lang`.
pub open spec fn spec_message(key: Seq<char>, lang: Seq<char>) -> Seq<char> {
    if lang == "cs"@ {
        if key == "doggie_and_kitie_cake-kitie-short"@ || key == "doggie_and_kitie_cake-kitie-long"@ {
            "Kočička"@
        } else if key == "doggie_and_kitie_cake-doggie-short"@ || key
            == "doggie_and_kitie_cake-doggie-long"@ {
            "Pejsek"@
        } else {
            key
        }
    } else {
        key
    }
}

/// Renders the message stored under `key` for language `lang`; a key the
/// catalog does not know renders as the key itself.
pub fn get_message(key: &str, lang: &str) -> (r: String)
    ensures
        r@ == spec_message(key@, lang@),
{
    if str_eq(lang, "cs") {
        if str_eq(key, "doggie_and_kitie_cake-kitie-short") || str_eq(
            key,
            "doggie_and_kitie_cake-kitie-long",
        ) {
            "Kočička".to_owned()
        } else if str_eq(key, "doggie_and_kitie_cake-doggie-short") || str_eq(
            key,
            "doggie_and_kitie_cake-doggie-long",
        ) {
            "Pejsek".to_owned()
        } else {
            key.to_owned()
        }
    } else {
        key.to_owned()
    }
}

/// Builds the deterministic message key `"{story}-{name}{suffix}"`.
pub fn message_key(story: &str, name: &str, suffix: &str) -> (r: String)
    ensures
        r@ == story@ + "-"@ + name@ + suffix@,
{
    let mut s = story.to_owned();
    s.append("-");
    s.append(name);
    s.append(suffix);
    s
}

} // verus!
