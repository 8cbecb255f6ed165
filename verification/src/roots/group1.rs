//! Group 1: the 7 nuclear roots (mat core): еб-, пизд-, хуй-, бляд-, муд-, манд-, елд-.
//!
//! Root data plus attestation tables.

use vstd::prelude::*;

use crate::morpheme::{Attestation, Domain, ProductivityClass, RootData};

verus! {

/// Number of roots in this group.
pub const GROUP_1_LEN: usize = 7;

/// Root definitions of this group.
pub open spec fn spec_group_1(i: usize) -> RootData {
    match i {
        0 => RootData {
            name: "еб",
            val: "еб",
            gloss: Some("fuck, copulate"),
            gloss_ru: Some("совокупляться"),
            suffix_indices: &[0, 1],
            domain: Domain::Nuclear,
            productivity: ProductivityClass::A,
            present_stem: None,
            takes_fill_vowel: false,
            o_takes_ob: false,
            linguistic_note: "Самый продуктивный матерный корень. От праславянского *jebati. В современном русском образует более 100 глагольных и именных дериватов. Едва ли не каждое действие можно описать глаголом на еб-.",
        },
        1 => RootData {
            name: "пизд",
            val: "пизд",
            gloss: Some("female genitals (cunt)"),
            gloss_ru: Some("женские гениталии"),
            suffix_indices: &[2, 1, 3],
            domain: Domain::Nuclear,
            productivity: ProductivityClass::B,
            present_stem: None,
            takes_fill_vowel: false,
            o_takes_ob: false,
            linguistic_note: "Женский корень мата. Образует два семантических ряда: 'говорить ерунду' (пиздеть, класс -е-) и 'бить/красть' (пиздить, класс -и-). Один из немногих корней с двумя продуктивными глагольными классами.",
        },
        2 => RootData {
            name: "хуй",
            val: "хуй",
            gloss: Some("penis (dick)"),
            gloss_ru: Some("мужской член"),
            suffix_indices: &[1],
            domain: Domain::Nuclear,
            productivity: ProductivityClass::C,
            present_stem: None,
            takes_fill_vowel: false,
            o_takes_ob: false,
            linguistic_note: "Ключевой именной корень русского мата. Этимология спорна: от праиндоевропейского *ks-u- (хвоя), монгольского khui, или латинского huic. Первый том словаря Плуцера-Сарно (500+ стр.) посвящён исключительно этому корню.",
        },
        3 => RootData {
            name: "бляд",
            val: "бляд",
            gloss: Some("whore, prostitute"),
            gloss_ru: Some("проститутка; распутство"),
            suffix_indices: &[2],
            domain: Domain::Nuclear,
            productivity: ProductivityClass::D,
            present_stem: None,
            takes_fill_vowel: false,
            o_takes_ob: false,
            linguistic_note: "От древнерусского блѧдь — 'обман, ерунда, прелюбодейка'. Преимущественно именной корень (блядь, блядский, блядство). Глагольные формы (блядовать) используют суффикс -ова-, не включённый в текущую версию движка.",
        },
        4 => RootData {
            name: "муд",
            val: "муд",
            gloss: Some("testicles"),
            gloss_ru: Some("яички"),
            suffix_indices: &[3],
            domain: Domain::Nuclear,
            productivity: ProductivityClass::D,
            present_stem: None,
            takes_fill_vowel: false,
            o_takes_ob: false,
            linguistic_note: "Корень со значением 'testiculi'. В современном русском глагольные формы (мудить) означают 'медлить, заниматься ерундой'. Преимущественно именной: мудак, мудило.",
        },
        5 => RootData {
            name: "манд",
            val: "манд",
            gloss: Some("female genitals (archaic)"),
            gloss_ru: Some("женские гениталии (арх.)"),
            suffix_indices: &[],
            domain: Domain::Nuclear,
            productivity: ProductivityClass::D,
            present_stem: None,
            takes_fill_vowel: false,
            o_takes_ob: false,
            linguistic_note: "Архаичный корень со значением 'женские гениталии'. В XIX веке — одно из сильнейших ругательств. К XXI веку практически утратил обсценную силу. Глагольные формы (мандить) крайне редки.",
        },
        _ => RootData {
            name: "елд",
            val: "елд",
            gloss: Some("penis (archaic)"),
            gloss_ru: Some("мужской член (арх.)"),
            suffix_indices: &[],
            domain: Domain::Nuclear,
            productivity: ProductivityClass::E,
            present_stem: None,
            takes_fill_vowel: false,
            o_takes_ob: false,
            linguistic_note: "Архаичный корень со значением 'мужской член'. Как и манд-, практически утратил обсценную силу в современном языке. Глагольные формы (елдить) маргинальны.",
        },
    }
}

/// The root of this group at position `i`.
pub fn group_1_root(i: usize) -> (r: RootData)
    requires
        i < GROUP_1_LEN,
    ensures
        r == spec_group_1(i),
{
    match i {
        0 => RootData {
            name: "еб",
            val: "еб",
            gloss: Some("fuck, copulate"),
            gloss_ru: Some("совокупляться"),
            suffix_indices: &[0, 1],
            domain: Domain::Nuclear,
            productivity: ProductivityClass::A,
            present_stem: None,
            takes_fill_vowel: false,
            o_takes_ob: false,
            linguistic_note: "Самый продуктивный матерный корень. От праславянского *jebati. В современном русском образует более 100 глагольных и именных дериватов. Едва ли не каждое действие можно описать глаголом на еб-.",
        },
        1 => RootData {
            name: "пизд",
            val: "пизд",
            gloss: Some("female genitals (cunt)"),
            gloss_ru: Some("женские гениталии"),
            suffix_indices: &[2, 1, 3],
            domain: Domain::Nuclear,
            productivity: ProductivityClass::B,
            present_stem: None,
            takes_fill_vowel: false,
            o_takes_ob: false,
            linguistic_note: "Женский корень мата. Образует два семантических ряда: 'говорить ерунду' (пиздеть, класс -е-) и 'бить/красть' (пиздить, класс -и-). Один из немногих корней с двумя продуктивными глагольными классами.",
        },
        2 => RootData {
            name: "хуй",
            val: "хуй",
            gloss: Some("penis (dick)"),
            gloss_ru: Some("мужской член"),
            suffix_indices: &[1],
            domain: Domain::Nuclear,
            productivity: ProductivityClass::C,
            present_stem: None,
            takes_fill_vowel: false,
            o_takes_ob: false,
            linguistic_note: "Ключевой именной корень русского мата. Этимология спорна: от праиндоевропейского *ks-u- (хвоя), монгольского khui, или латинского huic. Первый том словаря Плуцера-Сарно (500+ стр.) посвящён исключительно этому корню.",
        },
        3 => RootData {
            name: "бляд",
            val: "бляд",
            gloss: Some("whore, prostitute"),
            gloss_ru: Some("проститутка; распутство"),
            suffix_indices: &[2],
            domain: Domain::Nuclear,
            productivity: ProductivityClass::D,
            present_stem: None,
            takes_fill_vowel: false,
            o_takes_ob: false,
            linguistic_note: "От древнерусского блѧдь — 'обман, ерунда, прелюбодейка'. Преимущественно именной корень (блядь, блядский, блядство). Глагольные формы (блядовать) используют суффикс -ова-, не включённый в текущую версию движка.",
        },
        4 => RootData {
            name: "муд",
            val: "муд",
            gloss: Some("testicles"),
            gloss_ru: Some("яички"),
            suffix_indices: &[3],
            domain: Domain::Nuclear,
            productivity: ProductivityClass::D,
            present_stem: None,
            takes_fill_vowel: false,
            o_takes_ob: false,
            linguistic_note: "Корень со значением 'testiculi'. В современном русском глагольные формы (мудить) означают 'медлить, заниматься ерундой'. Преимущественно именной: мудак, мудило.",
        },
        5 => RootData {
            name: "манд",
            val: "манд",
            gloss: Some("female genitals (archaic)"),
            gloss_ru: Some("женские гениталии (арх.)"),
            suffix_indices: &[],
            domain: Domain::Nuclear,
            productivity: ProductivityClass::D,
            present_stem: None,
            takes_fill_vowel: false,
            o_takes_ob: false,
            linguistic_note: "Архаичный корень со значением 'женские гениталии'. В XIX веке — одно из сильнейших ругательств. К XXI веку практически утратил обсценную силу. Глагольные формы (мандить) крайне редки.",
        },
        _ => RootData {
            name: "елд",
            val: "елд",
            gloss: Some("penis (archaic)"),
            gloss_ru: Some("мужской член (арх.)"),
            suffix_indices: &[],
            domain: Domain::Nuclear,
            productivity: ProductivityClass::E,
            present_stem: None,
            takes_fill_vowel: false,
            o_takes_ob: false,
            linguistic_note: "Архаичный корень со значением 'мужской член'. Как и манд-, практически утратил обсценную силу в современном языке. Глагольные формы (елдить) маргинальны.",
        },
    }
}

/// Attestation table of еб-: (attestation, note) per (prefix, suffix);
/// unlisted combinations are Possible without a note.
pub open spec fn spec_eb_attest(p: usize, s: usize) -> (Attestation, Option<&'static str>) {
    match (p, s) {
        (0, 0) => (Attestation::Common, Some("совершать половой акт")),
        (0, 1) => (Attestation::Common, Some("ударить; сделать глупость")),
        (1, 0) => (Attestation::Common, Some("износить, испортить")),
        (1, 1) => (Attestation::Rare, Some("выбросить, выкинуть")),
        (2, 0) => (Attestation::Rare, Some("довести до оргазма")),
        (2, 1) => (Attestation::Possible, None),
        (3, 0) => (Attestation::Common, Some("измучить (перен.)")),
        (3, 1) => (Attestation::Rare, Some("ударить, стукнуть")),
        (4, 0) => (Attestation::Rare, Some("интенсив, избить (?)")),
        (4, 1) => (Attestation::Possible, None),
        (5, 0) => (Attestation::Common, Some("обмануть")),
        (5, 1) => (Attestation::Rare, Some("надуть, обмануть")),
        (6, 0) => (Attestation::Common, Some("оттрахать")),
        (6, 1) => (Attestation::Possible, None),
        (7, 0) => (Attestation::Common, Some("перетрахать(ся)")),
        (7, 1) => (Attestation::Possible, None),
        (8, 0) => (Attestation::Common, Some("упустить, просрать")),
        (8, 1) => (Attestation::Rare, Some("пробить, проломить")),
        _ => (Attestation::Possible, None),
    }
}

/// Attestation of еб- for a (prefix, suffix) pair.
pub fn eb_attest(p: usize, s: usize) -> (r: (Attestation, Option<&'static str>))
    ensures
        r == spec_eb_attest(p, s),
{
    match (p, s) {
        (0, 0) => (Attestation::Common, Some("совершать половой акт")),
        (0, 1) => (Attestation::Common, Some("ударить; сделать глупость")),
        (1, 0) => (Attestation::Common, Some("износить, испортить")),
        (1, 1) => (Attestation::Rare, Some("выбросить, выкинуть")),
        (2, 0) => (Attestation::Rare, Some("довести до оргазма")),
        (2, 1) => (Attestation::Possible, None),
        (3, 0) => (Attestation::Common, Some("измучить (перен.)")),
        (3, 1) => (Attestation::Rare, Some("ударить, стукнуть")),
        (4, 0) => (Attestation::Rare, Some("интенсив, избить (?)")),
        (4, 1) => (Attestation::Possible, None),
        (5, 0) => (Attestation::Common, Some("обмануть")),
        (5, 1) => (Attestation::Rare, Some("надуть, обмануть")),
        (6, 0) => (Attestation::Common, Some("оттрахать")),
        (6, 1) => (Attestation::Possible, None),
        (7, 0) => (Attestation::Common, Some("перетрахать(ся)")),
        (7, 1) => (Attestation::Possible, None),
        (8, 0) => (Attestation::Common, Some("упустить, просрать")),
        (8, 1) => (Attestation::Rare, Some("пробить, проломить")),
        _ => (Attestation::Possible, None),
    }
}

/// Attestation table of пизд-: (attestation, note) per (prefix, suffix);
/// unlisted combinations are Possible without a note.
pub open spec fn spec_pizd_attest(p: usize, s: usize) -> (Attestation, Option<&'static str>) {
    match (p, s) {
        (0, 2) => (Attestation::Common, Some("говорить ерунду")),
        (2, 2) => (Attestation::Rare, Some("договориться до абсурда")),
        (3, 2) => (Attestation::Common, Some("начать врать")),
        (4, 2) => (Attestation::Possible, None),
        (8, 2) => (Attestation::Common, Some("проболтаться; пропустить")),
        (0, 1) => (Attestation::Common, Some("ударить; соврать")),
        (3, 1) => (Attestation::Rare, Some("ударить с силой")),
        (5, 1) => (Attestation::Possible, None),
        (8, 1) => (Attestation::Rare, Some("пробить насквозь")),
        (0, 3) => (Attestation::Common, Some("бить, красть")),
        (1, 3) => (Attestation::Rare, Some("выгнать, выкинуть")),
        (3, 3) => (Attestation::Common, Some("ударить; присвоить")),
        (5, 3) => (Attestation::Rare, Some("навредить")),
        (6, 3) => (Attestation::Common, Some("избить")),
        (8, 3) => (Attestation::Common, Some("пропустить; украсть")),
        _ => (Attestation::Possible, None),
    }
}

/// Attestation of пизд- for a (prefix, suffix) pair.
pub fn pizd_attest(p: usize, s: usize) -> (r: (Attestation, Option<&'static str>))
    ensures
        r == spec_pizd_attest(p, s),
{
    match (p, s) {
        (0, 2) => (Attestation::Common, Some("говорить ерунду")),
        (2, 2) => (Attestation::Rare, Some("договориться до абсурда")),
        (3, 2) => (Attestation::Common, Some("начать врать")),
        (4, 2) => (Attestation::Possible, None),
        (8, 2) => (Attestation::Common, Some("проболтаться; пропустить")),
        (0, 1) => (Attestation::Common, Some("ударить; соврать")),
        (3, 1) => (Attestation::Rare, Some("ударить с силой")),
        (5, 1) => (Attestation::Possible, None),
        (8, 1) => (Attestation::Rare, Some("пробить насквозь")),
        (0, 3) => (Attestation::Common, Some("бить, красть")),
        (1, 3) => (Attestation::Rare, Some("выгнать, выкинуть")),
        (3, 3) => (Attestation::Common, Some("ударить; присвоить")),
        (5, 3) => (Attestation::Rare, Some("навредить")),
        (6, 3) => (Attestation::Common, Some("избить")),
        (8, 3) => (Attestation::Common, Some("пропустить; украсть")),
        _ => (Attestation::Possible, None),
    }
}

/// Attestation table of хуй-: (attestation, note) per (prefix, suffix);
/// unlisted combinations are Possible without a note.
pub open spec fn spec_khuy_attest(p: usize, s: usize) -> (Attestation, Option<&'static str>) {
    match (p, s) {
        (0, 1) => (Attestation::Possible, Some("ударить")),
        (1, 1) => (Attestation::Possible, None),
        (2, 1) => (Attestation::Possible, None),
        (3, 1) => (Attestation::Possible, Some("забить, пренебречь")),
        (4, 1) => (Attestation::Possible, None),
        (5, 1) => (Attestation::Possible, Some("навредить")),
        (6, 1) => (Attestation::Possible, None),
        (7, 1) => (Attestation::Possible, None),
        (8, 1) => (Attestation::Possible, Some("промахнуться")),
        _ => (Attestation::Possible, None),
    }
}

/// Attestation of хуй- for a (prefix, suffix) pair.
pub fn khuy_attest(p: usize, s: usize) -> (r: (Attestation, Option<&'static str>))
    ensures
        r == spec_khuy_attest(p, s),
{
    match (p, s) {
        (0, 1) => (Attestation::Possible, Some("ударить")),
        (1, 1) => (Attestation::Possible, None),
        (2, 1) => (Attestation::Possible, None),
        (3, 1) => (Attestation::Possible, Some("забить, пренебречь")),
        (4, 1) => (Attestation::Possible, None),
        (5, 1) => (Attestation::Possible, Some("навредить")),
        (6, 1) => (Attestation::Possible, None),
        (7, 1) => (Attestation::Possible, None),
        (8, 1) => (Attestation::Possible, Some("промахнуться")),
        _ => (Attestation::Possible, None),
    }
}

/// Attestation table of бляд-: (attestation, note) per (prefix, suffix);
/// unlisted combinations are Possible without a note.
pub open spec fn spec_blyad_attest(p: usize, s: usize) -> (Attestation, Option<&'static str>) {
    match (p, s) {
        (0, 2) => (Attestation::Rare, Some("говорить 'блядь' как слово-паразит")),
        (3, 2) => (Attestation::Rare, Some("начать материться")),
        (5, 2) => (Attestation::Possible, None),
        (8, 2) => (Attestation::Possible, Some("провести время в распутстве; потратить зря")),
        _ => (Attestation::Possible, None),
    }
}

/// Attestation of бляд- for a (prefix, suffix) pair.
pub fn blyad_attest(p: usize, s: usize) -> (r: (Attestation, Option<&'static str>))
    ensures
        r == spec_blyad_attest(p, s),
{
    match (p, s) {
        (0, 2) => (Attestation::Rare, Some("говорить 'блядь' как слово-паразит")),
        (3, 2) => (Attestation::Rare, Some("начать материться")),
        (5, 2) => (Attestation::Possible, None),
        (8, 2) => (Attestation::Possible, Some("провести время в распутстве; потратить зря")),
        _ => (Attestation::Possible, None),
    }
}

/// Attestation table of муд-: (attestation, note) per (prefix, suffix);
/// unlisted combinations are Possible without a note.
pub open spec fn spec_mud_attest(p: usize, s: usize) -> (Attestation, Option<&'static str>) {
    match (p, s) {
        (0, 3) => (Attestation::Common, Some("медлить, делать ерунду")),
        (3, 3) => (Attestation::Rare, Some("задержать, затянуть")),
        (5, 3) => (Attestation::Common, Some("наделать глупостей")),
        (6, 3) => (Attestation::Rare, Some("отделаться")),
        (7, 3) => (Attestation::Rare, Some("перестараться")),
        _ => (Attestation::Possible, None),
    }
}

/// Attestation of муд- for a (prefix, suffix) pair.
pub fn mud_attest(p: usize, s: usize) -> (r: (Attestation, Option<&'static str>))
    ensures
        r == spec_mud_attest(p, s),
{
    match (p, s) {
        (0, 3) => (Attestation::Common, Some("медлить, делать ерунду")),
        (3, 3) => (Attestation::Rare, Some("задержать, затянуть")),
        (5, 3) => (Attestation::Common, Some("наделать глупостей")),
        (6, 3) => (Attestation::Rare, Some("отделаться")),
        (7, 3) => (Attestation::Rare, Some("перестараться")),
        _ => (Attestation::Possible, None),
    }
}

} // verus!
