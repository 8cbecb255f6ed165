//! Group 3: 9 verb roots (peripheral + excretory): дроч-, трах-, жр-, хер-, перд-, хар-, блев-, бзд-, дрист-.
//!
//! Root data plus attestation tables.

use vstd::prelude::*;

use crate::morpheme::{Attestation, Domain, ProductivityClass, RootData};

verus! {

/// Number of roots in this group.
pub const GROUP_3_LEN: usize = 9;

/// Root definitions of this group.
pub open spec fn spec_group_3(i: usize) -> RootData {
    match i {
        0 => RootData {
            name: "дроч",
            val: "дроч",
            gloss: Some("masturbate"),
            gloss_ru: Some("мастурбировать"),
            suffix_indices: &[3],
            domain: Domain::Peripheral,
            productivity: ProductivityClass::D,
            present_stem: None,
            takes_fill_vowel: false,
            o_takes_ob: false,
            linguistic_note: "Глагольный корень со значением 'заниматься мастурбацией'. Образует формы II спряжения (дрочить, дрочу, дрочишь). В переносном значении — 'надоедать, изводить повторами'.",
        },
        1 => RootData {
            name: "трах",
            val: "трах",
            gloss: Some("copulate, fuck"),
            gloss_ru: Some("совокупляться"),
            suffix_indices: &[0],
            domain: Domain::Peripheral,
            productivity: ProductivityClass::D,
            present_stem: None,
            takes_fill_vowel: false,
            o_takes_ob: false,
            linguistic_note: "Глагольный корень, обозначающий половой акт. Спрягается по I классу (-а-): трахать, трахаю, трахает. Омонимичен звукоподражательному 'трах' (удар, грохот).",
        },
        2 => RootData {
            name: "жр",
            val: "жр",
            gloss: Some("eat greedily, devour"),
            gloss_ru: Some("есть жадно"),
            suffix_indices: &[0],
            domain: Domain::Peripheral,
            productivity: ProductivityClass::D,
            present_stem: None,
            takes_fill_vowel: true,
            o_takes_ob: false,
            linguistic_note: "Глагольный корень 'есть жадно, много'. От праславянского *žerti. Нестандартное спряжение с чередованием: жрать, жру, жрёт. Переносно: 'проживать, тратить впустую'.",
        },
        3 => RootData {
            name: "хер",
            val: "хер",
            gloss: Some("spoil, cancel"),
            gloss_ru: Some("портить, отменять"),
            suffix_indices: &[3],
            domain: Domain::Peripheral,
            productivity: ProductivityClass::D,
            present_stem: None,
            takes_fill_vowel: false,
            o_takes_ob: false,
            linguistic_note: "Глагольный корень от существительного 'хер' (название буквы Х, эвфемизм 'хуй'). Глагол херить значит 'портить, вычёркивать, отменять'. Относится к новейшему слою мата (переосмысление XX века).",
        },
        4 => RootData {
            name: "перд",
            val: "перд",
            gloss: Some("fart"),
            gloss_ru: Some("испускать газы"),
            suffix_indices: &[2, 1],
            domain: Domain::Excretory,
            productivity: ProductivityClass::C,
            present_stem: None,
            takes_fill_vowel: false,
            o_takes_ob: false,
            linguistic_note: "Корень со значением 'испускать кишечные газы'. От праславянского *pьrděti. Два глагольных класса: длительное пердеть (II спряжение) и однократное перднуть. Имеет широкий ряд метафорических значений.",
        },
        5 => RootData {
            name: "хар",
            val: "хар",
            gloss: Some("copulate roughly"),
            gloss_ru: Some("грубо совокупляться"),
            suffix_indices: &[3],
            domain: Domain::Peripheral,
            productivity: ProductivityClass::D,
            present_stem: None,
            takes_fill_vowel: false,
            o_takes_ob: false,
            linguistic_note: "Глагольный корень с общим значением грубого действия. Спрягается по II спряжению: харить, харю, харишь. Семантический диапазон широк: от полового акта до интенсивной работы. Этимология неясна.",
        },
        6 => RootData {
            name: "блев",
            val: "блев",
            gloss: Some("vomit"),
            gloss_ru: Some("извергать рвоту"),
            suffix_indices: &[0],
            domain: Domain::Peripheral,
            productivity: ProductivityClass::D,
            present_stem: Some("блю"),
            takes_fill_vowel: false,
            o_takes_ob: false,
            linguistic_note: "Глагольный корень 'извергать рвоту'. От праславянского *bljьvati. Характеризуется историческим чередованием в основе: инфинитив блевать, основа настоящего времени блю- (блюю, блюёт). Переносно: 'выдавать из себя'.",
        },
        7 => RootData {
            name: "бзд",
            val: "бзд",
            gloss: Some("fart silently"),
            gloss_ru: Some("беззвучно испускать газы"),
            suffix_indices: &[2],
            domain: Domain::Excretory,
            productivity: ProductivityClass::C,
            present_stem: None,
            takes_fill_vowel: false,
            o_takes_ob: false,
            linguistic_note: "Корень со значением 'испускать газы беззвучно'. Спрягается по II классу (-е-): бздеть, бзжу, бздишь. Переносное значение развилось в сторону страха: 'бздеть' = 'бояться, трусить'.",
        },
        _ => RootData {
            name: "дрист",
            val: "дрист",
            gloss: Some("have diarrhea"),
            gloss_ru: Some("страдать поносом"),
            suffix_indices: &[0],
            domain: Domain::Excretory,
            productivity: ProductivityClass::C,
            present_stem: None,
            takes_fill_vowel: false,
            o_takes_ob: false,
            linguistic_note: "Корень со значением 'страдать поносом'. От праславянского *dristati. Спрягается по I классу (-а-): дристать, дрищу, дрищешь. В переносном значении — 'делать что-то некачественное, жидкое'.",
        },
    }
}

/// The root of this group at position `i`.
pub fn group_3_root(i: usize) -> (r: RootData)
    requires
        i < GROUP_3_LEN,
    ensures
        r == spec_group_3(i),
{
    match i {
        0 => RootData {
            name: "дроч",
            val: "дроч",
            gloss: Some("masturbate"),
            gloss_ru: Some("мастурбировать"),
            suffix_indices: &[3],
            domain: Domain::Peripheral,
            productivity: ProductivityClass::D,
            present_stem: None,
            takes_fill_vowel: false,
            o_takes_ob: false,
            linguistic_note: "Глагольный корень со значением 'заниматься мастурбацией'. Образует формы II спряжения (дрочить, дрочу, дрочишь). В переносном значении — 'надоедать, изводить повторами'.",
        },
        1 => RootData {
            name: "трах",
            val: "трах",
            gloss: Some("copulate, fuck"),
            gloss_ru: Some("совокупляться"),
            suffix_indices: &[0],
            domain: Domain::Peripheral,
            productivity: ProductivityClass::D,
            present_stem: None,
            takes_fill_vowel: false,
            o_takes_ob: false,
            linguistic_note: "Глагольный корень, обозначающий половой акт. Спрягается по I классу (-а-): трахать, трахаю, трахает. Омонимичен звукоподражательному 'трах' (удар, грохот).",
        },
        2 => RootData {
            name: "жр",
            val: "жр",
            gloss: Some("eat greedily, devour"),
            gloss_ru: Some("есть жадно"),
            suffix_indices: &[0],
            domain: Domain::Peripheral,
            productivity: ProductivityClass::D,
            present_stem: None,
            takes_fill_vowel: true,
            o_takes_ob: false,
            linguistic_note: "Глагольный корень 'есть жадно, много'. От праславянского *žerti. Нестандартное спряжение с чередованием: жрать, жру, жрёт. Переносно: 'проживать, тратить впустую'.",
        },
        3 => RootData {
            name: "хер",
            val: "хер",
            gloss: Some("spoil, cancel"),
            gloss_ru: Some("портить, отменять"),
            suffix_indices: &[3],
            domain: Domain::Peripheral,
            productivity: ProductivityClass::D,
            present_stem: None,
            takes_fill_vowel: false,
            o_takes_ob: false,
            linguistic_note: "Глагольный корень от существительного 'хер' (название буквы Х, эвфемизм 'хуй'). Глагол херить значит 'портить, вычёркивать, отменять'. Относится к новейшему слою мата (переосмысление XX века).",
        },
        4 => RootData {
            name: "перд",
            val: "перд",
            gloss: Some("fart"),
            gloss_ru: Some("испускать газы"),
            suffix_indices: &[2, 1],
            domain: Domain::Excretory,
            productivity: ProductivityClass::C,
            present_stem: None,
            takes_fill_vowel: false,
            o_takes_ob: false,
            linguistic_note: "Корень со значением 'испускать кишечные газы'. От праславянского *pьrděti. Два глагольных класса: длительное пердеть (II спряжение) и однократное перднуть. Имеет широкий ряд метафорических значений.",
        },
        5 => RootData {
            name: "хар",
            val: "хар",
            gloss: Some("copulate roughly"),
            gloss_ru: Some("грубо совокупляться"),
            suffix_indices: &[3],
            domain: Domain::Peripheral,
            productivity: ProductivityClass::D,
            present_stem: None,
            takes_fill_vowel: false,
            o_takes_ob: false,
            linguistic_note: "Глагольный корень с общим значением грубого действия. Спрягается по II спряжению: харить, харю, харишь. Семантический диапазон широк: от полового акта до интенсивной работы. Этимология неясна.",
        },
        6 => RootData {
            name: "блев",
            val: "блев",
            gloss: Some("vomit"),
            gloss_ru: Some("извергать рвоту"),
            suffix_indices: &[0],
            domain: Domain::Peripheral,
            productivity: ProductivityClass::D,
            present_stem: Some("блю"),
            takes_fill_vowel: false,
            o_takes_ob: false,
            linguistic_note: "Глагольный корень 'извергать рвоту'. От праславянского *bljьvati. Характеризуется историческим чередованием в основе: инфинитив блевать, основа настоящего времени блю- (блюю, блюёт). Переносно: 'выдавать из себя'.",
        },
        7 => RootData {
            name: "бзд",
            val: "бзд",
            gloss: Some("fart silently"),
            gloss_ru: Some("беззвучно испускать газы"),
            suffix_indices: &[2],
            domain: Domain::Excretory,
            productivity: ProductivityClass::C,
            present_stem: None,
            takes_fill_vowel: false,
            o_takes_ob: false,
            linguistic_note: "Корень со значением 'испускать газы беззвучно'. Спрягается по II классу (-е-): бздеть, бзжу, бздишь. Переносное значение развилось в сторону страха: 'бздеть' = 'бояться, трусить'.",
        },
        _ => RootData {
            name: "дрист",
            val: "дрист",
            gloss: Some("have diarrhea"),
            gloss_ru: Some("страдать поносом"),
            suffix_indices: &[0],
            domain: Domain::Excretory,
            productivity: ProductivityClass::C,
            present_stem: None,
            takes_fill_vowel: false,
            o_takes_ob: false,
            linguistic_note: "Корень со значением 'страдать поносом'. От праславянского *dristati. Спрягается по I классу (-а-): дристать, дрищу, дрищешь. В переносном значении — 'делать что-то некачественное, жидкое'.",
        },
    }
}

/// Attestation table of дроч-: (attestation, note) per (prefix, suffix);
/// unlisted combinations are Possible without a note.
pub open spec fn spec_droch_attest(p: usize, s: usize) -> (Attestation, Option<&'static str>) {
    match (p, s) {
        (0, 3) => (Attestation::Common, Some("заниматься мастурбацией")),
        (1, 3) => (Attestation::Rare, Some("оттрахать интенсивно")),
        (3, 3) => (Attestation::Common, Some("измучить повторами")),
        (5, 3) => (Attestation::Rare, Some("довести до маразма")),
        (6, 3) => (Attestation::Common, Some("кончить; закончить")),
        (8, 3) => (Attestation::Common, Some("истратить на бесполезное")),
        (9, 3) => (Attestation::Rare, Some("добиться изнурением")),
        (14, 3) => (Attestation::Common, Some("добавить; приделать наспех")),
        (15, 3) => (Attestation::Common, Some("довести до изнеможения")),
        (16, 3) => (Attestation::Rare, Some("содрать курсовую (студ.)")),
        _ => (Attestation::Possible, None),
    }
}

/// Attestation of дроч- for a (prefix, suffix) pair.
pub fn droch_attest(p: usize, s: usize) -> (r: (Attestation, Option<&'static str>))
    ensures
        r == spec_droch_attest(p, s),
{
    match (p, s) {
        (0, 3) => (Attestation::Common, Some("заниматься мастурбацией")),
        (1, 3) => (Attestation::Rare, Some("оттрахать интенсивно")),
        (3, 3) => (Attestation::Common, Some("измучить повторами")),
        (5, 3) => (Attestation::Rare, Some("довести до маразма")),
        (6, 3) => (Attestation::Common, Some("кончить; закончить")),
        (8, 3) => (Attestation::Common, Some("истратить на бесполезное")),
        (9, 3) => (Attestation::Rare, Some("добиться изнурением")),
        (14, 3) => (Attestation::Common, Some("добавить; приделать наспех")),
        (15, 3) => (Attestation::Common, Some("довести до изнеможения")),
        (16, 3) => (Attestation::Rare, Some("содрать курсовую (студ.)")),
        _ => (Attestation::Possible, None),
    }
}

/// Attestation table of трах-: (attestation, note) per (prefix, suffix);
/// unlisted combinations are Possible without a note.
pub open spec fn spec_trakh_attest(p: usize, s: usize) -> (Attestation, Option<&'static str>) {
    match (p, s) {
        (0, 0) => (Attestation::Common, Some("совершать половой акт")),
        (1, 0) => (Attestation::Common, Some("вытрахать; износить одеяло")),
        (3, 0) => (Attestation::Common, Some("затрахать; измучить")),
        (5, 0) => (Attestation::Common, Some("натрахать; получить удов.")),
        (6, 0) => (Attestation::Common, Some("оттрахать качественно")),
        (7, 0) => (Attestation::Rare, Some("перетрахать многих")),
        (8, 0) => (Attestation::Common, Some("протрахать всё время")),
        (15, 0) => (Attestation::Common, Some("растрахать; расшевелить")),
        _ => (Attestation::Possible, None),
    }
}

/// Attestation of трах- for a (prefix, suffix) pair.
pub fn trakh_attest(p: usize, s: usize) -> (r: (Attestation, Option<&'static str>))
    ensures
        r == spec_trakh_attest(p, s),
{
    match (p, s) {
        (0, 0) => (Attestation::Common, Some("совершать половой акт")),
        (1, 0) => (Attestation::Common, Some("вытрахать; износить одеяло")),
        (3, 0) => (Attestation::Common, Some("затрахать; измучить")),
        (5, 0) => (Attestation::Common, Some("натрахать; получить удов.")),
        (6, 0) => (Attestation::Common, Some("оттрахать качественно")),
        (7, 0) => (Attestation::Rare, Some("перетрахать многих")),
        (8, 0) => (Attestation::Common, Some("протрахать всё время")),
        (15, 0) => (Attestation::Common, Some("растрахать; расшевелить")),
        _ => (Attestation::Possible, None),
    }
}

/// Attestation table of жр-: (attestation, note) per (prefix, suffix);
/// unlisted combinations are Possible without a note.
pub open spec fn spec_zhr_attest(p: usize, s: usize) -> (Attestation, Option<&'static str>) {
    match (p, s) {
        (0, 0) => (Attestation::Common, Some("есть жадно, много")),
        (1, 0) => (Attestation::Rare, Some("выжрать; выпить всё")),
        (2, 0) => (Attestation::Possible, None),
        (3, 0) => (Attestation::Common, Some("зажраться; обнаглеть")),
        (5, 0) => (Attestation::Common, Some("нажраться; наесться до отвала")),
        (6, 0) => (Attestation::Rare, Some("отожраться; потолстеть")),
        (7, 0) => (Attestation::Rare, Some("пережрать; переесть")),
        (8, 0) => (Attestation::Common, Some("прожрать; истратить на еду")),
        (12, 0) => (Attestation::Rare, Some("пожрать немного")),
        _ => (Attestation::Possible, None),
    }
}

/// Attestation of жр- for a (prefix, suffix) pair.
pub fn zhr_attest(p: usize, s: usize) -> (r: (Attestation, Option<&'static str>))
    ensures
        r == spec_zhr_attest(p, s),
{
    match (p, s) {
        (0, 0) => (Attestation::Common, Some("есть жадно, много")),
        (1, 0) => (Attestation::Rare, Some("выжрать; выпить всё")),
        (2, 0) => (Attestation::Possible, None),
        (3, 0) => (Attestation::Common, Some("зажраться; обнаглеть")),
        (5, 0) => (Attestation::Common, Some("нажраться; наесться до отвала")),
        (6, 0) => (Attestation::Rare, Some("отожраться; потолстеть")),
        (7, 0) => (Attestation::Rare, Some("пережрать; переесть")),
        (8, 0) => (Attestation::Common, Some("прожрать; истратить на еду")),
        (12, 0) => (Attestation::Rare, Some("пожрать немного")),
        _ => (Attestation::Possible, None),
    }
}

/// Attestation table of хер-: (attestation, note) per (prefix, suffix);
/// unlisted combinations are Possible without a note.
pub open spec fn spec_kher_attest(p: usize, s: usize) -> (Attestation, Option<&'static str>) {
    match (p, s) {
        (0, 3) => (Attestation::Possible, Some("портить; отменять")),
        (1, 3) => (Attestation::Possible, Some("выхерить; удалить")),
        (3, 3) => (Attestation::Possible, Some("зачеркнуть; отменить")),
        (5, 3) => (Attestation::Possible, Some("нахерить; навредить")),
        (7, 3) => (Attestation::Possible, Some("перехерить; испортить всё")),
        (8, 3) => (Attestation::Possible, Some("прохерить; упустить")),
        (16, 3) => (Attestation::Possible, Some("схерить; свести на нет")),
        _ => (Attestation::Possible, None),
    }
}

/// Attestation of хер- for a (prefix, suffix) pair.
pub fn kher_attest(p: usize, s: usize) -> (r: (Attestation, Option<&'static str>))
    ensures
        r == spec_kher_attest(p, s),
{
    match (p, s) {
        (0, 3) => (Attestation::Possible, Some("портить; отменять")),
        (1, 3) => (Attestation::Possible, Some("выхерить; удалить")),
        (3, 3) => (Attestation::Possible, Some("зачеркнуть; отменить")),
        (5, 3) => (Attestation::Possible, Some("нахерить; навредить")),
        (7, 3) => (Attestation::Possible, Some("перехерить; испортить всё")),
        (8, 3) => (Attestation::Possible, Some("прохерить; упустить")),
        (16, 3) => (Attestation::Possible, Some("схерить; свести на нет")),
        _ => (Attestation::Possible, None),
    }
}

/// Attestation table of перд-: (attestation, note) per (prefix, suffix);
/// unlisted combinations are Possible without a note.
pub open spec fn spec_perd_attest(p: usize, s: usize) -> (Attestation, Option<&'static str>) {
    match (p, s) {
        (0, 2) => (Attestation::Common, Some("испускать газы")),
        (1, 2) => (Attestation::Rare, Some("выпердеть; резко выдохнуть")),
        (3, 2) => (Attestation::Common, Some("засорить воздух; испортить")),
        (5, 2) => (Attestation::Rare, Some("напердеть; наполнить газами")),
        (6, 2) => (Attestation::Common, Some("отпердеть; закончить")),
        (8, 2) => (Attestation::Rare, Some("пропердеть; провалить")),
        (12, 2) => (Attestation::Rare, Some("попердеть немного")),
        (0, 1) => (Attestation::Common, Some("испустить газ однократно")),
        (3, 1) => (Attestation::Rare, Some("засорить резко")),
        _ => (Attestation::Possible, None),
    }
}

/// Attestation of перд- for a (prefix, suffix) pair.
pub fn perd_attest(p: usize, s: usize) -> (r: (Attestation, Option<&'static str>))
    ensures
        r == spec_perd_attest(p, s),
{
    match (p, s) {
        (0, 2) => (Attestation::Common, Some("испускать газы")),
        (1, 2) => (Attestation::Rare, Some("выпердеть; резко выдохнуть")),
        (3, 2) => (Attestation::Common, Some("засорить воздух; испортить")),
        (5, 2) => (Attestation::Rare, Some("напердеть; наполнить газами")),
        (6, 2) => (Attestation::Common, Some("отпердеть; закончить")),
        (8, 2) => (Attestation::Rare, Some("пропердеть; провалить")),
        (12, 2) => (Attestation::Rare, Some("попердеть немного")),
        (0, 1) => (Attestation::Common, Some("испустить газ однократно")),
        (3, 1) => (Attestation::Rare, Some("засорить резко")),
        _ => (Attestation::Possible, None),
    }
}

/// Attestation table of хар-: (attestation, note) per (prefix, suffix);
/// unlisted combinations are Possible without a note.
pub open spec fn spec_khar_attest(p: usize, s: usize) -> (Attestation, Option<&'static str>) {
    match (p, s) {
        (0, 3) => (Attestation::Common, Some("совокупляться; делать грубо")),
        (3, 3) => (Attestation::Common, Some("захарить; заиметь пол. контакт")),
        (5, 3) => (Attestation::Rare, Some("нахарить; совершить мн. актов")),
        (8, 3) => (Attestation::Common, Some("прохарить насквозь")),
        (11, 3) => (Attestation::Rare, Some("охарить; обмануть")),
        (15, 3) => (Attestation::Common, Some("расхарить; разбудить/разогреть")),
        _ => (Attestation::Possible, None),
    }
}

/// Attestation of хар- for a (prefix, suffix) pair.
pub fn khar_attest(p: usize, s: usize) -> (r: (Attestation, Option<&'static str>))
    ensures
        r == spec_khar_attest(p, s),
{
    match (p, s) {
        (0, 3) => (Attestation::Common, Some("совокупляться; делать грубо")),
        (3, 3) => (Attestation::Common, Some("захарить; заиметь пол. контакт")),
        (5, 3) => (Attestation::Rare, Some("нахарить; совершить мн. актов")),
        (8, 3) => (Attestation::Common, Some("прохарить насквозь")),
        (11, 3) => (Attestation::Rare, Some("охарить; обмануть")),
        (15, 3) => (Attestation::Common, Some("расхарить; разбудить/разогреть")),
        _ => (Attestation::Possible, None),
    }
}

/// Attestation table of блев-: (attestation, note) per (prefix, suffix);
/// unlisted combinations are Possible without a note.
pub open spec fn spec_blev_attest(p: usize, s: usize) -> (Attestation, Option<&'static str>) {
    match (p, s) {
        (0, 0) => (Attestation::Common, Some("извергать рвоту")),
        (1, 0) => (Attestation::Rare, Some("выблевать; извергнуть")),
        (3, 0) => (Attestation::Common, Some("заблевать; испачкать рвотой")),
        (5, 0) => (Attestation::Common, Some("наблевать; оставить рвоту")),
        (6, 0) => (Attestation::Rare, Some("отблевать; перестать")),
        (8, 0) => (Attestation::Common, Some("проблевать; пропустить из-за рвоты")),
        (11, 0) => (Attestation::Rare, Some("облевать; облить рвотой")),
        (16, 0) => (Attestation::Rare, Some("сблевать; вырвать")),
        _ => (Attestation::Possible, None),
    }
}

/// Attestation of блев- for a (prefix, suffix) pair.
pub fn blev_attest(p: usize, s: usize) -> (r: (Attestation, Option<&'static str>))
    ensures
        r == spec_blev_attest(p, s),
{
    match (p, s) {
        (0, 0) => (Attestation::Common, Some("извергать рвоту")),
        (1, 0) => (Attestation::Rare, Some("выблевать; извергнуть")),
        (3, 0) => (Attestation::Common, Some("заблевать; испачкать рвотой")),
        (5, 0) => (Attestation::Common, Some("наблевать; оставить рвоту")),
        (6, 0) => (Attestation::Rare, Some("отблевать; перестать")),
        (8, 0) => (Attestation::Common, Some("проблевать; пропустить из-за рвоты")),
        (11, 0) => (Attestation::Rare, Some("облевать; облить рвотой")),
        (16, 0) => (Attestation::Rare, Some("сблевать; вырвать")),
        _ => (Attestation::Possible, None),
    }
}

/// Attestation table of бзд-: (attestation, note) per (prefix, suffix);
/// unlisted combinations are Possible without a note.
pub open spec fn spec_bzd_attest(p: usize, s: usize) -> (Attestation, Option<&'static str>) {
    match (p, s) {
        (0, 2) => (Attestation::Common, Some("испускать газы беззвучно")),
        (3, 2) => (Attestation::Common, Some("испугаться, струсить")),
        (5, 2) => (Attestation::Rare, Some("набздеть; навонять")),
        (7, 2) => (Attestation::Common, Some("перестараться от страха")),
        (8, 2) => (Attestation::Rare, Some("пробздеть; упустить из трусости")),
        _ => (Attestation::Possible, None),
    }
}

/// Attestation of бзд- for a (prefix, suffix) pair.
pub fn bzd_attest(p: usize, s: usize) -> (r: (Attestation, Option<&'static str>))
    ensures
        r == spec_bzd_attest(p, s),
{
    match (p, s) {
        (0, 2) => (Attestation::Common, Some("испускать газы беззвучно")),
        (3, 2) => (Attestation::Common, Some("испугаться, струсить")),
        (5, 2) => (Attestation::Rare, Some("набздеть; навонять")),
        (7, 2) => (Attestation::Common, Some("перестараться от страха")),
        (8, 2) => (Attestation::Rare, Some("пробздеть; упустить из трусости")),
        _ => (Attestation::Possible, None),
    }
}

/// Attestation table of дрист-: (attestation, note) per (prefix, suffix);
/// unlisted combinations are Possible without a note.
pub open spec fn spec_drist_attest(p: usize, s: usize) -> (Attestation, Option<&'static str>) {
    match (p, s) {
        (0, 0) => (Attestation::Common, Some("страдать поносом")),
        (3, 0) => (Attestation::Rare, Some("задристать; испачкать")),
        (5, 0) => (Attestation::Rare, Some("надристать; нагадить")),
        (11, 0) => (Attestation::Rare, Some("обдристать; обгадить")),
        _ => (Attestation::Possible, None),
    }
}

/// Attestation of дрист- for a (prefix, suffix) pair.
pub fn drist_attest(p: usize, s: usize) -> (r: (Attestation, Option<&'static str>))
    ensures
        r == spec_drist_attest(p, s),
{
    match (p, s) {
        (0, 0) => (Attestation::Common, Some("страдать поносом")),
        (3, 0) => (Attestation::Rare, Some("задристать; испачкать")),
        (5, 0) => (Attestation::Rare, Some("надристать; нагадить")),
        (11, 0) => (Attestation::Rare, Some("обдристать; обгадить")),
        _ => (Attestation::Possible, None),
    }
}

} // verus!
