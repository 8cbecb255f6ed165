//! Phrase material: adjective-forming roots, interjections, and evaluative
//! nouns for the topic phrase generator.

use vstd::prelude::*;

verus! {

/// Grammatical gender (or plural) of a topic noun.
#[derive(Clone, Copy, Debug, PartialEq, Eq, Structural)]
pub enum Gender {
    Masculine,
    Feminine,
    Neuter,
    Plural,
}

/// A root with its adjective stem and gender endings.
#[derive(Clone, Copy, Debug)]
pub struct Root {
    pub name: &'static str,
    pub adjective_stem: &'static str,
    /// Endings in order: [masculine, feminine, neuter, plural]
    pub adjective_endings: &'static [&'static str; 4],
}

/// Number of adjective-forming roots.
pub const PHRASE_ROOT_COUNT: usize = 4;

/// The adjective-forming roots.
pub open spec fn spec_phrase_root(i: usize) -> Root {
    match i {
        0 => Root { name: "пизд", adjective_stem: "пиздат", adjective_endings: &["ый", "ая", "ое", "ые"] },
        1 => Root { name: "хуй", adjective_stem: "хуёв", adjective_endings: &["ый", "ая", "ое", "ые"] },
        2 => Root { name: "еб", adjective_stem: "ебанут", adjective_endings: &["ый", "ая", "ое", "ые"] },
        _ => Root { name: "бляд", adjective_stem: "блядск", adjective_endings: &["ий", "ая", "ое", "ие"] },
    }
}

/// The adjective-forming root at position `i`.
pub fn phrase_root(i: usize) -> (r: Root)
    requires
        i < PHRASE_ROOT_COUNT,
    ensures
        r == spec_phrase_root(i),
{
    match i {
        0 => Root { name: "пизд", adjective_stem: "пиздат", adjective_endings: &["ый", "ая", "ое", "ые"] },
        1 => Root { name: "хуй", adjective_stem: "хуёв", adjective_endings: &["ый", "ая", "ое", "ые"] },
        2 => Root { name: "еб", adjective_stem: "ебанут", adjective_endings: &["ый", "ая", "ое", "ые"] },
        _ => Root { name: "бляд", adjective_stem: "блядск", adjective_endings: &["ий", "ая", "ое", "ие"] },
    }
}

/// Number of interjections.
pub const INTERJECTION_COUNT: usize = 7;

/// The interjections.
pub open spec fn spec_interjection(i: usize) -> &'static str {
    match i {
        0 => "охуеть",
        1 => "пиздец",
        2 => "ёбаный стыд",
        3 => "ни хуя себе",
        4 => "ёбаный в рот",
        5 => "ебись оно конём",
        _ => "ёбаный насос",
    }
}

/// The interjection at position `i`.
pub fn interjection(i: usize) -> (r: &'static str)
    requires
        i < INTERJECTION_COUNT,
    ensures
        r == spec_interjection(i),
{
    match i {
        0 => "охуеть",
        1 => "пиздец",
        2 => "ёбаный стыд",
        3 => "ни хуя себе",
        4 => "ёбаный в рот",
        5 => "ебись оно конём",
        _ => "ёбаный насос",
    }
}

/// Number of evaluative nouns.
pub const EVAL_NOUN_COUNT: usize = 6;

/// The evaluative nouns.
pub open spec fn spec_eval_noun(i: usize) -> &'static str {
    match i {
        0 => "пиздец",
        1 => "хуйня",
        2 => "залупа",
        3 => "блядство",
        4 => "мудачьё",
        _ => "пиздопроёбина",
    }
}

/// The evaluative noun at position `i`.
pub fn eval_noun(i: usize) -> (r: &'static str)
    requires
        i < EVAL_NOUN_COUNT,
    ensures
        r == spec_eval_noun(i),
{
    match i {
        0 => "пиздец",
        1 => "хуйня",
        2 => "залупа",
        3 => "блядство",
        4 => "мудачьё",
        _ => "пиздопроёбина",
    }
}

} // verus!
