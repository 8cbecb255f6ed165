//! Group 4: 5 nominal roots with verb potential: залуп-, жоп-, говн-, пидор-, курв-.
//!
//! Root data plus attestation tables.

use vstd::prelude::*;

use crate::morpheme::{Attestation, Domain, ProductivityClass, RootData};

verus! {

/// Number of roots in this group.
pub const GROUP_4_LEN: usize = 5;

/// Root definitions of this group.
pub open spec fn spec_group_4(i: usize) -> RootData {
    match i {
        0 => RootData {
            name: "залуп",
            val: "залуп",
            gloss: Some("foreskin, glans"),
            gloss_ru: Some("головка члена, крайняя плоть"),
            suffix_indices: &[3],
            domain: Domain::Peripheral,
            productivity: ProductivityClass::E,
            present_stem: None,
            takes_fill_vowel: false,
            o_takes_ob: false,
            linguistic_note: "Именной корень, обозначающий головку полового члена и крайнюю плоть. В глагольных формах (залупиться) означает 'обнажить головку'. По Плуцеру-Сарно — номинатив с глагольным потенциалом.",
        },
        1 => RootData {
            name: "жоп",
            val: "жоп",
            gloss: Some("ass, buttocks"),
            gloss_ru: Some("зад, ягодицы"),
            suffix_indices: &[3],
            domain: Domain::Excretory,
            productivity: ProductivityClass::D,
            present_stem: None,
            takes_fill_vowel: false,
            o_takes_ob: false,
            linguistic_note: "Именной корень со значением 'ягодицы, зад'. В глагольных формах (зажопить, прижопить) развивает значение 'присвоить, не поделиться'. Один из самых частотных корней в бытовом обсценном лексиконе.",
        },
        2 => RootData {
            name: "говн",
            val: "говн",
            gloss: Some("shit, excrement"),
            gloss_ru: Some("экскременты"),
            suffix_indices: &[3],
            domain: Domain::Excretory,
            productivity: ProductivityClass::D,
            present_stem: None,
            takes_fill_vowel: false,
            o_takes_ob: true,
            linguistic_note: "Именной корень, обозначающий экскременты. В глагольных формах (говнить, заговнить) — 'портить, делать плохо'. Чрезвычайно продуктивен в именной деривации (говно, говённый, говнище).",
        },
        3 => RootData {
            name: "пидор",
            val: "пидор",
            gloss: Some("faggot (derog.)"),
            gloss_ru: Some("гомосексуалист (презр.)"),
            suffix_indices: &[3],
            domain: Domain::Peripheral,
            productivity: ProductivityClass::E,
            present_stem: None,
            takes_fill_vowel: false,
            o_takes_ob: false,
            linguistic_note: "Именной корень, сокращение от 'педераст'. Глагольные формы (пидорить, запидорить) развивают значение 'анально изнасиловать; испортить'. Обладает сильной обсценной окраской.",
        },
        _ => RootData {
            name: "курв",
            val: "курв",
            gloss: Some("whore, slut"),
            gloss_ru: Some("распутная женщина"),
            suffix_indices: &[3],
            domain: Domain::Peripheral,
            productivity: ProductivityClass::E,
            present_stem: None,
            takes_fill_vowel: false,
            o_takes_ob: false,
            linguistic_note: "Именной корень со значением 'проститутка, распутная женщина'. От латинского curva. Глагольные формы (курвиться, закурвиться) означают 'вести себя распутно'. Преимущественно именной.",
        },
    }
}

/// The root of this group at position `i`.
pub fn group_4_root(i: usize) -> (r: RootData)
    requires
        i < GROUP_4_LEN,
    ensures
        r == spec_group_4(i),
{
    match i {
        0 => RootData {
            name: "залуп",
            val: "залуп",
            gloss: Some("foreskin, glans"),
            gloss_ru: Some("головка члена, крайняя плоть"),
            suffix_indices: &[3],
            domain: Domain::Peripheral,
            productivity: ProductivityClass::E,
            present_stem: None,
            takes_fill_vowel: false,
            o_takes_ob: false,
            linguistic_note: "Именной корень, обозначающий головку полового члена и крайнюю плоть. В глагольных формах (залупиться) означает 'обнажить головку'. По Плуцеру-Сарно — номинатив с глагольным потенциалом.",
        },
        1 => RootData {
            name: "жоп",
            val: "жоп",
            gloss: Some("ass, buttocks"),
            gloss_ru: Some("зад, ягодицы"),
            suffix_indices: &[3],
            domain: Domain::Excretory,
            productivity: ProductivityClass::D,
            present_stem: None,
            takes_fill_vowel: false,
            o_takes_ob: false,
            linguistic_note: "Именной корень со значением 'ягодицы, зад'. В глагольных формах (зажопить, прижопить) развивает значение 'присвоить, не поделиться'. Один из самых частотных корней в бытовом обсценном лексиконе.",
        },
        2 => RootData {
            name: "говн",
            val: "говн",
            gloss: Some("shit, excrement"),
            gloss_ru: Some("экскременты"),
            suffix_indices: &[3],
            domain: Domain::Excretory,
            productivity: ProductivityClass::D,
            present_stem: None,
            takes_fill_vowel: false,
            o_takes_ob: true,
            linguistic_note: "Именной корень, обозначающий экскременты. В глагольных формах (говнить, заговнить) — 'портить, делать плохо'. Чрезвычайно продуктивен в именной деривации (говно, говённый, говнище).",
        },
        3 => RootData {
            name: "пидор",
            val: "пидор",
            gloss: Some("faggot (derog.)"),
            gloss_ru: Some("гомосексуалист (презр.)"),
            suffix_indices: &[3],
            domain: Domain::Peripheral,
            productivity: ProductivityClass::E,
            present_stem: None,
            takes_fill_vowel: false,
            o_takes_ob: false,
            linguistic_note: "Именной корень, сокращение от 'педераст'. Глагольные формы (пидорить, запидорить) развивают значение 'анально изнасиловать; испортить'. Обладает сильной обсценной окраской.",
        },
        _ => RootData {
            name: "курв",
            val: "курв",
            gloss: Some("whore, slut"),
            gloss_ru: Some("распутная женщина"),
            suffix_indices: &[3],
            domain: Domain::Peripheral,
            productivity: ProductivityClass::E,
            present_stem: None,
            takes_fill_vowel: false,
            o_takes_ob: false,
            linguistic_note: "Именной корень со значением 'проститутка, распутная женщина'. От латинского curva. Глагольные формы (курвиться, закурвиться) означают 'вести себя распутно'. Преимущественно именной.",
        },
    }
}

/// Attestation table of залуп-: (attestation, note) per (prefix, suffix);
/// unlisted combinations are Possible without a note.
pub open spec fn spec_zalup_attest(p: usize, s: usize) -> (Attestation, Option<&'static str>) {
    match (p, s) {
        (0, 3) => (Attestation::Possible, Some("обнажить головку члена")),
        (3, 3) => (Attestation::Possible, Some("залупиться; обнажиться (груб.)")),
        (5, 3) => (Attestation::Possible, Some("налупить; натянуть кожу")),
        (16, 3) => (Attestation::Possible, Some("слупиться")),
        _ => (Attestation::Possible, None),
    }
}

/// Attestation of залуп- for a (prefix, suffix) pair.
pub fn zalup_attest(p: usize, s: usize) -> (r: (Attestation, Option<&'static str>))
    ensures
        r == spec_zalup_attest(p, s),
{
    match (p, s) {
        (0, 3) => (Attestation::Possible, Some("обнажить головку члена")),
        (3, 3) => (Attestation::Possible, Some("залупиться; обнажиться (груб.)")),
        (5, 3) => (Attestation::Possible, Some("налупить; натянуть кожу")),
        (16, 3) => (Attestation::Possible, Some("слупиться")),
        _ => (Attestation::Possible, None),
    }
}

/// Attestation table of жоп-: (attestation, note) per (prefix, suffix);
/// unlisted combinations are Possible without a note.
pub open spec fn spec_zhop_attest(p: usize, s: usize) -> (Attestation, Option<&'static str>) {
    match (p, s) {
        (0, 3) => (Attestation::Common, Some("экономить; присваивать")),
        (3, 3) => (Attestation::Common, Some("зажопить; не поделиться")),
        (5, 3) => (Attestation::Rare, Some("нажопить; накопить")),
        (14, 3) => (Attestation::Common, Some("прижопить; присвоить")),
        _ => (Attestation::Possible, None),
    }
}

/// Attestation of жоп- for a (prefix, suffix) pair.
pub fn zhop_attest(p: usize, s: usize) -> (r: (Attestation, Option<&'static str>))
    ensures
        r == spec_zhop_attest(p, s),
{
    match (p, s) {
        (0, 3) => (Attestation::Common, Some("экономить; присваивать")),
        (3, 3) => (Attestation::Common, Some("зажопить; не поделиться")),
        (5, 3) => (Attestation::Rare, Some("нажопить; накопить")),
        (14, 3) => (Attestation::Common, Some("прижопить; присвоить")),
        _ => (Attestation::Possible, None),
    }
}

/// Attestation table of говн-: (attestation, note) per (prefix, suffix);
/// unlisted combinations are Possible without a note.
pub open spec fn spec_govn_attest(p: usize, s: usize) -> (Attestation, Option<&'static str>) {
    match (p, s) {
        (0, 3) => (Attestation::Common, Some("портить; делать плохо")),
        (3, 3) => (Attestation::Common, Some("заговнить; испачкать/испортить")),
        (5, 3) => (Attestation::Rare, Some("наговнить; наделать дерьма")),
        (8, 3) => (Attestation::Rare, Some("провонять; обратить в говно")),
        (11, 3) => (Attestation::Common, Some("обговнить; очернить, обгадить")),
        _ => (Attestation::Possible, None),
    }
}

/// Attestation of говн- for a (prefix, suffix) pair.
pub fn govn_attest(p: usize, s: usize) -> (r: (Attestation, Option<&'static str>))
    ensures
        r == spec_govn_attest(p, s),
{
    match (p, s) {
        (0, 3) => (Attestation::Common, Some("портить; делать плохо")),
        (3, 3) => (Attestation::Common, Some("заговнить; испачкать/испортить")),
        (5, 3) => (Attestation::Rare, Some("наговнить; наделать дерьма")),
        (8, 3) => (Attestation::Rare, Some("провонять; обратить в говно")),
        (11, 3) => (Attestation::Common, Some("обговнить; очернить, обгадить")),
        _ => (Attestation::Possible, None),
    }
}

/// Attestation table of пидор-: (attestation, note) per (prefix, suffix);
/// unlisted combinations are Possible without a note.
pub open spec fn spec_pidor_attest(p: usize, s: usize) -> (Attestation, Option<&'static str>) {
    match (p, s) {
        (0, 3) => (Attestation::Possible, Some("заниматься анальным сексом (акт.)")),
        (3, 3) => (Attestation::Possible, Some("запидорить; ударить; испортить")),
        (5, 3) => (Attestation::Possible, Some("напидорить; натворить дел")),
        (8, 3) => (Attestation::Possible, Some("пропидорить; анально изнасиловать")),
        (14, 3) => (Attestation::Possible, Some("припидорить; приделать")),
        (16, 3) => (Attestation::Possible, Some("спидорить; сделать наскоро")),
        _ => (Attestation::Possible, None),
    }
}

/// Attestation of пидор- for a (prefix, suffix) pair.
pub fn pidor_attest(p: usize, s: usize) -> (r: (Attestation, Option<&'static str>))
    ensures
        r == spec_pidor_attest(p, s),
{
    match (p, s) {
        (0, 3) => (Attestation::Possible, Some("заниматься анальным сексом (акт.)")),
        (3, 3) => (Attestation::Possible, Some("запидорить; ударить; испортить")),
        (5, 3) => (Attestation::Possible, Some("напидорить; натворить дел")),
        (8, 3) => (Attestation::Possible, Some("пропидорить; анально изнасиловать")),
        (14, 3) => (Attestation::Possible, Some("припидорить; приделать")),
        (16, 3) => (Attestation::Possible, Some("спидорить; сделать наскоро")),
        _ => (Attestation::Possible, None),
    }
}

/// Attestation table of курв-: (attestation, note) per (prefix, suffix);
/// unlisted combinations are Possible without a note.
pub open spec fn spec_kurv_attest(p: usize, s: usize) -> (Attestation, Option<&'static str>) {
    match (p, s) {
        (0, 3) => (Attestation::Possible, Some("вести себя распутно")),
        (3, 3) => (Attestation::Possible, Some("закурвиться; стать проституткой")),
        (5, 3) => (Attestation::Possible, Some("накурвить; нагулять")),
        (8, 3) => (Attestation::Possible, Some("прокурвиться; прогулять с муж.")),
        (15, 3) => (Attestation::Possible, Some("раскурвиться; стать развратной")),
        _ => (Attestation::Possible, None),
    }
}

/// Attestation of курв- for a (prefix, suffix) pair.
pub fn kurv_attest(p: usize, s: usize) -> (r: (Attestation, Option<&'static str>))
    ensures
        r == spec_kurv_attest(p, s),
{
    match (p, s) {
        (0, 3) => (Attestation::Possible, Some("вести себя распутно")),
        (3, 3) => (Attestation::Possible, Some("закурвиться; стать проституткой")),
        (5, 3) => (Attestation::Possible, Some("накурвить; нагулять")),
        (8, 3) => (Attestation::Possible, Some("прокурвиться; прогулять с муж.")),
        (15, 3) => (Attestation::Possible, Some("раскурвиться; стать развратной")),
        _ => (Attestation::Possible, None),
    }
}

} // verus!
