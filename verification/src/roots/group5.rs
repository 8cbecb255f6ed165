//! Group 5: 12 purely nominal peripheral roots (no verb paradigm).
//!
//! Root data plus attestation tables.

use vstd::prelude::*;

use crate::morpheme::{Domain, ProductivityClass, RootData};

verus! {

/// Number of roots in this group.
pub const GROUP_5_LEN: usize = 12;

/// Root definitions of this group.
pub open spec fn spec_group_5(i: usize) -> RootData {
    match i {
        0 => RootData {
            name: "сиповк",
            val: "сиповк",
            gloss: Some("female genitals type (vulg.)"),
            gloss_ru: Some("тип женских гениталий"),
            suffix_indices: &[],
            domain: Domain::Peripheral,
            productivity: ProductivityClass::E,
            present_stem: None,
            takes_fill_vowel: false,
            o_takes_ob: false,
            linguistic_note: "Именной корень из классификации Плуцера-Сарно. Обозначает один из типов женских гениталий (с высоким входом). Чисто номинативный корень, без глагольных форм.",
        },
        1 => RootData {
            name: "секел",
            val: "секел",
            gloss: Some("female genitals type (vulg.)"),
            gloss_ru: Some("тип женских гениталий"),
            suffix_indices: &[],
            domain: Domain::Peripheral,
            productivity: ProductivityClass::E,
            present_stem: None,
            takes_fill_vowel: false,
            o_takes_ob: false,
            linguistic_note: "Именной корень из пласта обсценной анатомической лексики. Обозначает тип женских гениталий с поперечным разрезом. Не образует глагольных форм.",
        },
        2 => RootData {
            name: "поц",
            val: "поц",
            gloss: Some("dick (vulg.)"),
            gloss_ru: Some("мужской член"),
            suffix_indices: &[],
            domain: Domain::Peripheral,
            productivity: ProductivityClass::E,
            present_stem: None,
            takes_fill_vowel: false,
            o_takes_ob: false,
            linguistic_note: "Именной корень из идиша (פּאָץ — 'член'). В русском мате — универсальное презрительное обозначение мужчины. Не образует глагольных форм. Заимствование XX века.",
        },
        3 => RootData {
            name: "молофь",
            val: "молофь",
            gloss: Some("sperm (vulg.)"),
            gloss_ru: Some("сперма"),
            suffix_indices: &[],
            domain: Domain::Peripheral,
            productivity: ProductivityClass::E,
            present_stem: None,
            takes_fill_vowel: false,
            o_takes_ob: false,
            linguistic_note: "Именной корень со значением 'сперма'. Относится к соматическому слою мата. Глагольных форм не образует. Устаревающий корень, редко встречается в современной речи.",
        },
        4 => RootData {
            name: "минж",
            val: "минж",
            gloss: Some("female genitals (vulg.)"),
            gloss_ru: Some("женские гениталии"),
            suffix_indices: &[],
            domain: Domain::Peripheral,
            productivity: ProductivityClass::E,
            present_stem: None,
            takes_fill_vowel: false,
            o_takes_ob: false,
            linguistic_note: "Именной корень, обозначающий женские гениталии. Заимствован из французского (la moniche) через уголовное арго. Не образует глагольных форм.",
        },
        5 => RootData {
            name: "целк",
            val: "целк",
            gloss: Some("hymen"),
            gloss_ru: Some("девственная плева"),
            suffix_indices: &[],
            domain: Domain::Peripheral,
            productivity: ProductivityClass::E,
            present_stem: None,
            takes_fill_vowel: false,
            o_takes_ob: false,
            linguistic_note: "Именной корень со значением 'девственная плева'. Относится к анатомическому слою мата. Не образует глагольных форм. Связан с 'целка' — уничижительное обозначение девственницы.",
        },
        6 => RootData {
            name: "королёвк",
            val: "королёвк",
            gloss: Some("female genitals type (vulg.)"),
            gloss_ru: Some("тип женских гениталий"),
            suffix_indices: &[],
            domain: Domain::Peripheral,
            productivity: ProductivityClass::E,
            present_stem: None,
            takes_fill_vowel: false,
            o_takes_ob: false,
            linguistic_note: "Именной корень из классификации Плуцера-Сарно. Обозначает тип женских гениталий с крупными половыми губами. Не образует глагольных форм. От 'королёк' — сорт сладкого апельсина.",
        },
        7 => RootData {
            name: "кун",
            val: "кун",
            gloss: Some("cunnilingus"),
            gloss_ru: Some("куннилингус"),
            suffix_indices: &[],
            domain: Domain::Peripheral,
            productivity: ProductivityClass::E,
            present_stem: None,
            takes_fill_vowel: false,
            o_takes_ob: false,
            linguistic_note: "Именной корень, обозначающий куннилингус. Заимствование из немецкого через медицинский дискурс. Не образует глагольных форм.",
        },
        8 => RootData {
            name: "сперм",
            val: "сперм",
            gloss: Some("sperm"),
            gloss_ru: Some("сперма"),
            suffix_indices: &[],
            domain: Domain::Peripheral,
            productivity: ProductivityClass::E,
            present_stem: None,
            takes_fill_vowel: false,
            o_takes_ob: false,
            linguistic_note: "Именной корень со значением 'сперма'. От греческого σπέρμα через медицинскую терминологию. Не образует глагольных форм. Стилистически нейтральный корень.",
        },
        9 => RootData {
            name: "менстр",
            val: "менстр",
            gloss: Some("menstruation"),
            gloss_ru: Some("менструация"),
            suffix_indices: &[],
            domain: Domain::Peripheral,
            productivity: ProductivityClass::E,
            present_stem: None,
            takes_fill_vowel: false,
            o_takes_ob: false,
            linguistic_note: "Именной корень со значением 'менструация'. От латинского menstruum. Не образует глагольных форм. Относится к соматическому слою, на границе медицинской и обсценной лексики.",
        },
        10 => RootData {
            name: "минет",
            val: "минет",
            gloss: Some("blowjob"),
            gloss_ru: Some("фелляция"),
            suffix_indices: &[],
            domain: Domain::Peripheral,
            productivity: ProductivityClass::E,
            present_stem: None,
            takes_fill_vowel: false,
            o_takes_ob: false,
            linguistic_note: "Именной корень, обозначающий фелляцию. Заимствование из французского (la minette, 'кошечка'). Не образует глагольных форм. Преимущественно именной.",
        },
        _ => RootData {
            name: "гондон",
            val: "гондон",
            gloss: Some("condom"),
            gloss_ru: Some("презерватив"),
            suffix_indices: &[],
            domain: Domain::Peripheral,
            productivity: ProductivityClass::E,
            present_stem: None,
            takes_fill_vowel: false,
            o_takes_ob: false,
            linguistic_note: "Именной корень со значением 'презерватив'. Французское заимствование (condom). В переносном значении — 'противный, надоедливый человек'. Не образует глагольных форм.",
        },
    }
}

/// The root of this group at position `i`.
pub fn group_5_root(i: usize) -> (r: RootData)
    requires
        i < GROUP_5_LEN,
    ensures
        r == spec_group_5(i),
{
    match i {
        0 => RootData {
            name: "сиповк",
            val: "сиповк",
            gloss: Some("female genitals type (vulg.)"),
            gloss_ru: Some("тип женских гениталий"),
            suffix_indices: &[],
            domain: Domain::Peripheral,
            productivity: ProductivityClass::E,
            present_stem: None,
            takes_fill_vowel: false,
            o_takes_ob: false,
            linguistic_note: "Именной корень из классификации Плуцера-Сарно. Обозначает один из типов женских гениталий (с высоким входом). Чисто номинативный корень, без глагольных форм.",
        },
        1 => RootData {
            name: "секел",
            val: "секел",
            gloss: Some("female genitals type (vulg.)"),
            gloss_ru: Some("тип женских гениталий"),
            suffix_indices: &[],
            domain: Domain::Peripheral,
            productivity: ProductivityClass::E,
            present_stem: None,
            takes_fill_vowel: false,
            o_takes_ob: false,
            linguistic_note: "Именной корень из пласта обсценной анатомической лексики. Обозначает тип женских гениталий с поперечным разрезом. Не образует глагольных форм.",
        },
        2 => RootData {
            name: "поц",
            val: "поц",
            gloss: Some("dick (vulg.)"),
            gloss_ru: Some("мужской член"),
            suffix_indices: &[],
            domain: Domain::Peripheral,
            productivity: ProductivityClass::E,
            present_stem: None,
            takes_fill_vowel: false,
            o_takes_ob: false,
            linguistic_note: "Именной корень из идиша (פּאָץ — 'член'). В русском мате — универсальное презрительное обозначение мужчины. Не образует глагольных форм. Заимствование XX века.",
        },
        3 => RootData {
            name: "молофь",
            val: "молофь",
            gloss: Some("sperm (vulg.)"),
            gloss_ru: Some("сперма"),
            suffix_indices: &[],
            domain: Domain::Peripheral,
            productivity: ProductivityClass::E,
            present_stem: None,
            takes_fill_vowel: false,
            o_takes_ob: false,
            linguistic_note: "Именной корень со значением 'сперма'. Относится к соматическому слою мата. Глагольных форм не образует. Устаревающий корень, редко встречается в современной речи.",
        },
        4 => RootData {
            name: "минж",
            val: "минж",
            gloss: Some("female genitals (vulg.)"),
            gloss_ru: Some("женские гениталии"),
            suffix_indices: &[],
            domain: Domain::Peripheral,
            productivity: ProductivityClass::E,
            present_stem: None,
            takes_fill_vowel: false,
            o_takes_ob: false,
            linguistic_note: "Именной корень, обозначающий женские гениталии. Заимствован из французского (la moniche) через уголовное арго. Не образует глагольных форм.",
        },
        5 => RootData {
            name: "целк",
            val: "целк",
            gloss: Some("hymen"),
            gloss_ru: Some("девственная плева"),
            suffix_indices: &[],
            domain: Domain::Peripheral,
            productivity: ProductivityClass::E,
            present_stem: None,
            takes_fill_vowel: false,
            o_takes_ob: false,
            linguistic_note: "Именной корень со значением 'девственная плева'. Относится к анатомическому слою мата. Не образует глагольных форм. Связан с 'целка' — уничижительное обозначение девственницы.",
        },
        6 => RootData {
            name: "королёвк",
            val: "королёвк",
            gloss: Some("female genitals type (vulg.)"),
            gloss_ru: Some("тип женских гениталий"),
            suffix_indices: &[],
            domain: Domain::Peripheral,
            productivity: ProductivityClass::E,
            present_stem: None,
            takes_fill_vowel: false,
            o_takes_ob: false,
            linguistic_note: "Именной корень из классификации Плуцера-Сарно. Обозначает тип женских гениталий с крупными половыми губами. Не образует глагольных форм. От 'королёк' — сорт сладкого апельсина.",
        },
        7 => RootData {
            name: "кун",
            val: "кун",
            gloss: Some("cunnilingus"),
            gloss_ru: Some("куннилингус"),
            suffix_indices: &[],
            domain: Domain::Peripheral,
            productivity: ProductivityClass::E,
            present_stem: None,
            takes_fill_vowel: false,
            o_takes_ob: false,
            linguistic_note: "Именной корень, обозначающий куннилингус. Заимствование из немецкого через медицинский дискурс. Не образует глагольных форм.",
        },
        8 => RootData {
            name: "сперм",
            val: "сперм",
            gloss: Some("sperm"),
            gloss_ru: Some("сперма"),
            suffix_indices: &[],
            domain: Domain::Peripheral,
            productivity: ProductivityClass::E,
            present_stem: None,
            takes_fill_vowel: false,
            o_takes_ob: false,
            linguistic_note: "Именной корень со значением 'сперма'. От греческого σπέρμα через медицинскую терминологию. Не образует глагольных форм. Стилистически нейтральный корень.",
        },
        9 => RootData {
            name: "менстр",
            val: "менстр",
            gloss: Some("menstruation"),
            gloss_ru: Some("менструация"),
            suffix_indices: &[],
            domain: Domain::Peripheral,
            productivity: ProductivityClass::E,
            present_stem: None,
            takes_fill_vowel: false,
            o_takes_ob: false,
            linguistic_note: "Именной корень со значением 'менструация'. От латинского menstruum. Не образует глагольных форм. Относится к соматическому слою, на границе медицинской и обсценной лексики.",
        },
        10 => RootData {
            name: "минет",
            val: "минет",
            gloss: Some("blowjob"),
            gloss_ru: Some("фелляция"),
            suffix_indices: &[],
            domain: Domain::Peripheral,
            productivity: ProductivityClass::E,
            present_stem: None,
            takes_fill_vowel: false,
            o_takes_ob: false,
            linguistic_note: "Именной корень, обозначающий фелляцию. Заимствование из французского (la minette, 'кошечка'). Не образует глагольных форм. Преимущественно именной.",
        },
        _ => RootData {
            name: "гондон",
            val: "гондон",
            gloss: Some("condom"),
            gloss_ru: Some("презерватив"),
            suffix_indices: &[],
            domain: Domain::Peripheral,
            productivity: ProductivityClass::E,
            present_stem: None,
            takes_fill_vowel: false,
            o_takes_ob: false,
            linguistic_note: "Именной корень со значением 'презерватив'. Французское заимствование (condom). В переносном значении — 'противный, надоедливый человек'. Не образует глагольных форм.",
        },
    }
}

} // verus!
