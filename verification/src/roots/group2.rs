//! Group 2: the two most productive excretory roots: сра-, сса-.
//!
//! Root data plus attestation tables.

use vstd::prelude::*;

use crate::morpheme::{Attestation, Domain, ProductivityClass, RootData};

verus! {

/// Number of roots in this group.
pub const GROUP_2_LEN: usize = 2;

/// Root definitions of this group.
pub open spec fn spec_group_2(i: usize) -> RootData {
    match i {
        0 => RootData {
            name: "сра",
            val: "ср",
            gloss: Some("shit, excrete"),
            gloss_ru: Some("испражняться"),
            suffix_indices: &[0, 1],
            domain: Domain::Excretory,
            productivity: ProductivityClass::B,
            present_stem: None,
            takes_fill_vowel: true,
            o_takes_ob: false,
            linguistic_note: "Экскреторный корень. По классификации Плуцера-Сарно относится к отдельному домену (не сексуальный мат), но по продуктивности не уступает корню еб-. В современном русском образует десятки глагольных форм.",
        },
        _ => RootData {
            name: "сса",
            val: "сс",
            gloss: Some("piss, urinate"),
            gloss_ru: Some("мочиться"),
            suffix_indices: &[0, 1],
            domain: Domain::Excretory,
            productivity: ProductivityClass::B,
            present_stem: None,
            takes_fill_vowel: true,
            o_takes_ob: false,
            linguistic_note: "Экскреторный корень 'мочиться'. Менее продуктивен, чем сра-, но образует ряд ярких метафор: зассать ('испугаться'), обоссать ('раскритиковать').",
        },
    }
}

/// The root of this group at position `i`.
pub fn group_2_root(i: usize) -> (r: RootData)
    requires
        i < GROUP_2_LEN,
    ensures
        r == spec_group_2(i),
{
    match i {
        0 => RootData {
            name: "сра",
            val: "ср",
            gloss: Some("shit, excrete"),
            gloss_ru: Some("испражняться"),
            suffix_indices: &[0, 1],
            domain: Domain::Excretory,
            productivity: ProductivityClass::B,
            present_stem: None,
            takes_fill_vowel: true,
            o_takes_ob: false,
            linguistic_note: "Экскреторный корень. По классификации Плуцера-Сарно относится к отдельному домену (не сексуальный мат), но по продуктивности не уступает корню еб-. В современном русском образует десятки глагольных форм.",
        },
        _ => RootData {
            name: "сса",
            val: "сс",
            gloss: Some("piss, urinate"),
            gloss_ru: Some("мочиться"),
            suffix_indices: &[0, 1],
            domain: Domain::Excretory,
            productivity: ProductivityClass::B,
            present_stem: None,
            takes_fill_vowel: true,
            o_takes_ob: false,
            linguistic_note: "Экскреторный корень 'мочиться'. Менее продуктивен, чем сра-, но образует ряд ярких метафор: зассать ('испугаться'), обоссать ('раскритиковать').",
        },
    }
}

/// Attestation table of сра-: (attestation, note) per (prefix, suffix);
/// unlisted combinations are Possible without a note.
pub open spec fn spec_sra_attest(p: usize, s: usize) -> (Attestation, Option<&'static str>) {
    match (p, s) {
        (0, 0) => (Attestation::Common, Some("испражняться")),
        (1, 0) => (Attestation::Common, Some("извергнуть")),
        (2, 0) => (Attestation::Possible, None),
        (3, 0) => (Attestation::Common, Some("загрязнить, испортить")),
        (4, 0) => (Attestation::Possible, None),
        (5, 0) => (Attestation::Common, Some("причинить неприятности")),
        (6, 0) => (Attestation::Rare, Some("выбраниться; отделаться")),
        (7, 0) => (Attestation::Rare, Some("переполнить, перенервничать")),
        (8, 0) => (Attestation::Common, Some("упустить, потерять")),
        (0, 1) => (Attestation::Rare, Some("однократно испражниться")),
        (3, 1) => (Attestation::Possible, None),
        (5, 1) => (Attestation::Possible, None),
        _ => (Attestation::Possible, None),
    }
}

/// Attestation of сра- for a (prefix, suffix) pair.
pub fn sra_attest(p: usize, s: usize) -> (r: (Attestation, Option<&'static str>))
    ensures
        r == spec_sra_attest(p, s),
{
    match (p, s) {
        (0, 0) => (Attestation::Common, Some("испражняться")),
        (1, 0) => (Attestation::Common, Some("извергнуть")),
        (2, 0) => (Attestation::Possible, None),
        (3, 0) => (Attestation::Common, Some("загрязнить, испортить")),
        (4, 0) => (Attestation::Possible, None),
        (5, 0) => (Attestation::Common, Some("причинить неприятности")),
        (6, 0) => (Attestation::Rare, Some("выбраниться; отделаться")),
        (7, 0) => (Attestation::Rare, Some("переполнить, перенервничать")),
        (8, 0) => (Attestation::Common, Some("упустить, потерять")),
        (0, 1) => (Attestation::Rare, Some("однократно испражниться")),
        (3, 1) => (Attestation::Possible, None),
        (5, 1) => (Attestation::Possible, None),
        _ => (Attestation::Possible, None),
    }
}

/// Attestation table of сса-: (attestation, note) per (prefix, suffix);
/// unlisted combinations are Possible without a note.
pub open spec fn spec_ssa_attest(p: usize, s: usize) -> (Attestation, Option<&'static str>) {
    match (p, s) {
        (0, 0) => (Attestation::Common, Some("мочиться")),
        (1, 0) => (Attestation::Possible, None),
        (2, 0) => (Attestation::Possible, None),
        (3, 0) => (Attestation::Common, Some("испугаться")),
        (4, 0) => (Attestation::Possible, None),
        (5, 0) => (Attestation::Common, Some("наполнить мочой")),
        (6, 0) => (Attestation::Rare, Some("отделаться страхом")),
        (7, 0) => (Attestation::Possible, None),
        (8, 0) => (Attestation::Common, Some("опоздать, упустить")),
        (0, 1) => (Attestation::Rare, Some("помочиться однократно")),
        _ => (Attestation::Possible, None),
    }
}

/// Attestation of сса- for a (prefix, suffix) pair.
pub fn ssa_attest(p: usize, s: usize) -> (r: (Attestation, Option<&'static str>))
    ensures
        r == spec_ssa_attest(p, s),
{
    match (p, s) {
        (0, 0) => (Attestation::Common, Some("мочиться")),
        (1, 0) => (Attestation::Possible, None),
        (2, 0) => (Attestation::Possible, None),
        (3, 0) => (Attestation::Common, Some("испугаться")),
        (4, 0) => (Attestation::Possible, None),
        (5, 0) => (Attestation::Common, Some("наполнить мочой")),
        (6, 0) => (Attestation::Rare, Some("отделаться страхом")),
        (7, 0) => (Attestation::Possible, None),
        (8, 0) => (Attestation::Common, Some("опоздать, упустить")),
        (0, 1) => (Attestation::Rare, Some("помочиться однократно")),
        _ => (Attestation::Possible, None),
    }
}

} // verus!
