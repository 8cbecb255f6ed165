//! Root inventory and attestation tables, organised by group files.
//!
//! Each `groupN` module is the single home for its roots: their `RootData`
//! literals and their attestation tables live together. This module
//! concatenates them into the global inventory and dispatches attestation
//! lookups.

use vstd::prelude::*;

use crate::morpheme::{Attestation, ProductivityClass, RootData, SUFFIX_COUNT};
use crate::text::{is_space, str_eq};

pub mod group1;
pub mod group2;
pub mod group3;
pub mod group4;
pub mod group5;


verus! {

/// Number of roots in the inventory.
pub const ROOT_COUNT: usize = 35;

/// The inventory: the group files concatenated in order.
pub open spec fn spec_root(i: usize) -> RootData {
    if i < 7 {
        group1::spec_group_1(i)
    } else if i < 9 {
        group2::spec_group_2((i - 7) as usize)
    } else if i < 18 {
        group3::spec_group_3((i - 9) as usize)
    } else if i < 23 {
        group4::spec_group_4((i - 18) as usize)
    } else {
        group5::spec_group_5((i - 23) as usize)
    }
}

/// The root at position `i` of the inventory.
pub fn root_at(i: usize) -> (r: RootData)
    requires
        i < ROOT_COUNT,
    ensures
        r == spec_root(i),
{
    if i < 7 {
        group1::group_1_root(i)
    } else if i < 9 {
        group2::group_2_root(i - 7)
    } else if i < 18 {
        group3::group_3_root(i - 9)
    } else if i < 23 {
        group4::group_4_root(i - 18)
    } else {
        group5::group_5_root(i - 23)
    }
}

/// A root is well formed when every suffix class it names exists.
pub open spec fn root_wf(rd: RootData) -> bool {
    forall|k: int| 0 <= k < rd.suffix_indices@.len() ==> #[trigger] rd.suffix_indices@[k] < SUFFIX_COUNT
}

/// Every root of the inventory is well formed.
pub proof fn lemma_root_wf(i: usize)
    requires
        i < ROOT_COUNT,
    ensures
        root_wf(spec_root(i)),
{
    if i < 7 {
    } else if i < 9 {
    } else if i < 18 {
    } else if i < 23 {
    } else {
    }
}

/// The first index at or after `i` whose root is named `name`.
pub open spec fn find_root_from(name: Seq<char>, i: nat) -> Option<usize>
    decreases ROOT_COUNT - i,
{
    if i >= ROOT_COUNT {
        None
    } else if spec_root(i as usize).name@ == name {
        Some(i as usize)
    } else {
        find_root_from(name, i + 1)
    }
}

/// The inventory position of the root named `name`, if any.
pub open spec fn spec_root_index(name: Seq<char>) -> Option<usize> {
    find_root_from(name, 0)
}

/// A found position is in range and names `name`; no earlier root does.
pub proof fn lemma_find_root(name: Seq<char>, i: nat)
    ensures
        find_root_from(name, i) matches Some(k) ==> i <= k < ROOT_COUNT && spec_root(k).name@
            == name && forall|j: usize| i <= j < k ==> spec_root(j).name@ != name,
        find_root_from(name, i) is None ==> forall|j: usize|
            i <= j < ROOT_COUNT ==> spec_root(j).name@ != name,
    decreases ROOT_COUNT - i,
{
    if i < ROOT_COUNT {
        lemma_find_root(name, i + 1);
    }
}

/// The inventory position of the root named `name`, if any.
pub fn root_index(name: &str) -> (r: Option<usize>)
    ensures
        r == spec_root_index(name@),
        r matches Some(k) ==> k < ROOT_COUNT,
{
    proof {
        lemma_find_root(name@, 0);
    }
    let mut i: usize = 0;
    while i < ROOT_COUNT
        invariant
            i <= ROOT_COUNT,
            find_root_from(name@, 0) == find_root_from(name@, i as nat),
        decreases ROOT_COUNT - i,
    {
        if str_eq(root_at(i).name, name) {
            return Some(i);
        }
        i = i + 1;
    }
    None
}

/// All roots in the inventory, in inventory order.
pub fn all_roots() -> (r: Vec<RootData>)
    ensures
        r@.len() == ROOT_COUNT,
        forall|i: int| 0 <= i < ROOT_COUNT ==> r@[i] == spec_root(i as usize),
{
    let mut r: Vec<RootData> = Vec::new();
    let mut i: usize = 0;
    while i < ROOT_COUNT
        invariant
            i <= ROOT_COUNT,
            r@.len() == i,
            forall|j: int| 0 <= j < i ==> r@[j] == spec_root(j as usize),
        decreases ROOT_COUNT - i,
    {
        r.push(root_at(i));
        i = i + 1;
    }
    r
}

/// The root named `name`, if the inventory holds one.
pub open spec fn spec_root_data(name: Seq<char>) -> Option<RootData> {
    match spec_root_index(name) {
        Some(i) => Some(spec_root(i)),
        None => None,
    }
}

/// Look up a root's data by name.
pub fn root_data(name: &str) -> (r: Option<RootData>)
    ensures
        r == spec_root_data(name@),
{
    match root_index(name) {
        Some(i) => Some(root_at(i)),
        None => None,
    }
}

/// The attestation table of the root at inventory position `ri`; roots
/// without a table (the noun-only ones) are Possible without a note.
pub open spec fn spec_attest(ri: usize, p: usize, s: usize) -> (Attestation, Option<&'static str>) {
    match ri {
        0 => group1::spec_eb_attest(p, s),
        1 => group1::spec_pizd_attest(p, s),
        2 => group1::spec_khuy_attest(p, s),
        3 => group1::spec_blyad_attest(p, s),
        4 => group1::spec_mud_attest(p, s),
        7 => group2::spec_sra_attest(p, s),
        8 => group2::spec_ssa_attest(p, s),
        9 => group3::spec_droch_attest(p, s),
        10 => group3::spec_trakh_attest(p, s),
        11 => group3::spec_zhr_attest(p, s),
        12 => group3::spec_kher_attest(p, s),
        13 => group3::spec_perd_attest(p, s),
        14 => group3::spec_khar_attest(p, s),
        15 => group3::spec_blev_attest(p, s),
        16 => group3::spec_bzd_attest(p, s),
        17 => group3::spec_drist_attest(p, s),
        18 => group4::spec_zalup_attest(p, s),
        19 => group4::spec_zhop_attest(p, s),
        20 => group4::spec_govn_attest(p, s),
        21 => group4::spec_pidor_attest(p, s),
        22 => group4::spec_kurv_attest(p, s),
        _ => (Attestation::Possible, None),
    }
}

/// The table entry of the root at inventory position `ri`.
fn attest_at(ri: usize, p: usize, s: usize) -> (r: (Attestation, Option<&'static str>))
    ensures
        r == spec_attest(ri, p, s),
{
    match ri {
        0 => group1::eb_attest(p, s),
        1 => group1::pizd_attest(p, s),
        2 => group1::khuy_attest(p, s),
        3 => group1::blyad_attest(p, s),
        4 => group1::mud_attest(p, s),
        7 => group2::sra_attest(p, s),
        8 => group2::ssa_attest(p, s),
        9 => group3::droch_attest(p, s),
        10 => group3::trakh_attest(p, s),
        11 => group3::zhr_attest(p, s),
        12 => group3::kher_attest(p, s),
        13 => group3::perd_attest(p, s),
        14 => group3::khar_attest(p, s),
        15 => group3::blev_attest(p, s),
        16 => group3::bzd_attest(p, s),
        17 => group3::drist_attest(p, s),
        18 => group4::zalup_attest(p, s),
        19 => group4::zhop_attest(p, s),
        20 => group4::govn_attest(p, s),
        21 => group4::pidor_attest(p, s),
        22 => group4::kurv_attest(p, s),
        _ => (Attestation::Possible, None),
    }
}

/// Attestation and note of a (root, prefix, suffix) combination; an unknown
/// root or an unlisted combination is Possible without a note.
pub open spec fn spec_lookup(root: Seq<char>, p: usize, s: usize) -> (Attestation, Option<&'static str>) {
    match spec_root_index(root) {
        Some(i) => spec_attest(i, p, s),
        None => (Attestation::Possible, None),
    }
}

/// A root of productivity class E (possible, not attested) has no Common or
/// Rare combination: every entry of its table is Possible.
pub proof fn lemma_class_e_possible(i: usize, p: usize, s: usize)
    requires
        i < ROOT_COUNT,
        spec_root(i).productivity == ProductivityClass::E,
    ensures
        spec_attest(i, p, s).0 == Attestation::Possible,
{
}

/// Whether the root at inventory position `i` has an attestation table (the
/// 21 verbal roots); the others are noun-only.
pub open spec fn has_table(i: usize) -> bool {
    i <= 4 || (7 <= i && i <= 22)
}

proof fn lemma_table_default(i: usize, p: usize, s: usize)
    requires
        !has_table(i) || p >= crate::morpheme::PREFIX_COUNT || s >= SUFFIX_COUNT,
    ensures
        spec_attest(i, p, s) == (Attestation::Possible, None::<&'static str>),
{
}

/// Unlisted combinations are (Possible, no note): an unknown name, a root
/// without a table, or a prefix or suffix index past the inventories.
pub proof fn law_lookup_defaults(name: Seq<char>, p: usize, s: usize)
    ensures
        spec_root_index(name) is None ==> spec_lookup(name, p, s) == (
            Attestation::Possible,
            None::<&'static str>,
        ),
        (spec_root_index(name) matches Some(i) && !has_table(i)) ==> spec_lookup(name, p, s) == (
            Attestation::Possible,
            None::<&'static str>,
        ),
        p >= crate::morpheme::PREFIX_COUNT || s >= SUFFIX_COUNT ==> spec_lookup(name, p, s) == (
            Attestation::Possible,
            None::<&'static str>,
        ),
{
    if let Some(i) = spec_root_index(name) {
        if !has_table(i) || p >= crate::morpheme::PREFIX_COUNT || s >= SUFFIX_COUNT {
            lemma_table_default(i, p, s);
        }
    }
}

/// The (prefix, suffix) rows that the attestation table of the root at
/// inventory position `i` lists; a root without a table lists none.
pub open spec fn table_rows(i: usize) -> Set<(usize, usize)> {
    match i {
        0 => set![
            (0, 0), (0, 1), (1, 0), (1, 1), (2, 0), (2, 1), (3, 0), (3, 1), (4, 0), (4, 1), (5, 0),
            (5, 1), (6, 0), (6, 1), (7, 0), (7, 1), (8, 0), (8, 1),
        ],
        1 => set![
            (0, 2), (2, 2), (3, 2), (4, 2), (8, 2), (0, 1), (3, 1), (5, 1), (8, 1), (0, 3), (1, 3),
            (3, 3), (5, 3), (6, 3), (8, 3),
        ],
        2 => set![(0, 1), (1, 1), (2, 1), (3, 1), (4, 1), (5, 1), (6, 1), (7, 1), (8, 1)],
        3 => set![(0, 2), (3, 2), (5, 2), (8, 2)],
        4 => set![(0, 3), (3, 3), (5, 3), (6, 3), (7, 3)],
        7 => set![
            (0, 0), (1, 0), (2, 0), (3, 0), (4, 0), (5, 0), (6, 0), (7, 0), (8, 0), (0, 1), (3, 1),
            (5, 1),
        ],
        8 => set![(0, 0), (1, 0), (2, 0), (3, 0), (4, 0), (5, 0), (6, 0), (7, 0), (8, 0), (0, 1)],
        9 => set![
            (0, 3), (1, 3), (3, 3), (5, 3), (6, 3), (8, 3), (9, 3), (14, 3), (15, 3), (16, 3),
        ],
        10 => set![(0, 0), (1, 0), (3, 0), (5, 0), (6, 0), (7, 0), (8, 0), (15, 0)],
        11 => set![(0, 0), (1, 0), (2, 0), (3, 0), (5, 0), (6, 0), (7, 0), (8, 0), (12, 0)],
        12 => set![(0, 3), (1, 3), (3, 3), (5, 3), (7, 3), (8, 3), (16, 3)],
        13 => set![(0, 2), (1, 2), (3, 2), (5, 2), (6, 2), (8, 2), (12, 2), (0, 1), (3, 1)],
        14 => set![(0, 3), (3, 3), (5, 3), (8, 3), (11, 3), (15, 3)],
        15 => set![(0, 0), (1, 0), (3, 0), (5, 0), (6, 0), (8, 0), (11, 0), (16, 0)],
        16 => set![(0, 2), (3, 2), (5, 2), (7, 2), (8, 2)],
        17 => set![(0, 0), (3, 0), (5, 0), (11, 0)],
        18 => set![(0, 3), (3, 3), (5, 3), (16, 3)],
        19 => set![(0, 3), (3, 3), (5, 3), (14, 3)],
        20 => set![(0, 3), (3, 3), (5, 3), (8, 3), (11, 3)],
        21 => set![(0, 3), (3, 3), (5, 3), (8, 3), (14, 3), (16, 3)],
        22 => set![(0, 3), (3, 3), (5, 3), (8, 3), (15, 3)],
        _ => Set::empty(),
    }
}

/// A combination that the root's table does not list is Possible without a
/// note (unattested is not impossible); so is every combination of a name
/// that is not in the inventory.
pub proof fn law_unlisted_row_possible(name: Seq<char>, p: usize, s: usize)
    requires
        spec_root_index(name) matches Some(i) ==> !table_rows(i).contains((p, s)),
    ensures
        spec_lookup(name, p, s) == (Attestation::Possible, None::<&'static str>),
{
}

/// Whether a root's record is complete: a non-empty note and value, and a
/// Russian gloss that begins with a letter (not white space).
pub open spec fn record_complete(rd: RootData) -> bool {
    &&& rd.linguistic_note@.len() > 0
    &&& rd.val@.len() > 0
    &&& rd.gloss_ru is Some
    &&& rd.gloss_ru->0@.len() > 0
    &&& !is_space(rd.gloss_ru->0@[0])
}

/// Every root of the inventory has a complete record.
pub proof fn law_inventory_complete(i: usize)
    requires
        i < ROOT_COUNT,
    ensures
        record_complete(spec_root(i)),
{
    if i == 0 {
        reveal_strlit("Самый продуктивный матерный корень. От праславянского *jebati. В современном русском образует более 100 глагольных и именных дериватов. Едва ли не каждое действие можно описать глаголом на еб-.");
        reveal_strlit("еб");
        reveal_strlit("совокупляться");
    } else if i == 1 {
        reveal_strlit("Женский корень мата. Образует два семантических ряда: 'говорить ерунду' (пиздеть, класс -е-) и 'бить/красть' (пиздить, класс -и-). Один из немногих корней с двумя продуктивными глагольными классами.");
        reveal_strlit("пизд");
        reveal_strlit("женские гениталии");
    } else if i == 2 {
        reveal_strlit("Ключевой именной корень русского мата. Этимология спорна: от праиндоевропейского *ks-u- (хвоя), монгольского khui, или латинского huic. Первый том словаря Плуцера-Сарно (500+ стр.) посвящён исключительно этому корню.");
        reveal_strlit("хуй");
        reveal_strlit("мужской член");
    } else if i == 3 {
        reveal_strlit("От древнерусского блѧдь — 'обман, ерунда, прелюбодейка'. Преимущественно именной корень (блядь, блядский, блядство). Глагольные формы (блядовать) используют суффикс -ова-, не включённый в текущую версию движка.");
        reveal_strlit("бляд");
        reveal_strlit("проститутка; распутство");
    } else if i == 4 {
        reveal_strlit("Корень со значением 'testiculi'. В современном русском глагольные формы (мудить) означают 'медлить, заниматься ерундой'. Преимущественно именной: мудак, мудило.");
        reveal_strlit("муд");
        reveal_strlit("яички");
    } else if i == 5 {
        reveal_strlit("Архаичный корень со значением 'женские гениталии'. В XIX веке — одно из сильнейших ругательств. К XXI веку практически утратил обсценную силу. Глагольные формы (мандить) крайне редки.");
        reveal_strlit("манд");
        reveal_strlit("женские гениталии (арх.)");
    } else if i == 6 {
        reveal_strlit("Архаичный корень со значением 'мужской член'. Как и манд-, практически утратил обсценную силу в современном языке. Глагольные формы (елдить) маргинальны.");
        reveal_strlit("елд");
        reveal_strlit("мужской член (арх.)");
    } else if i == 7 {
        reveal_strlit("Экскреторный корень. По классификации Плуцера-Сарно относится к отдельному домену (не сексуальный мат), но по продуктивности не уступает корню еб-. В современном русском образует десятки глагольных форм.");
        reveal_strlit("ср");
        reveal_strlit("испражняться");
    } else if i == 8 {
        reveal_strlit("Экскреторный корень 'мочиться'. Менее продуктивен, чем сра-, но образует ряд ярких метафор: зассать ('испугаться'), обоссать ('раскритиковать').");
        reveal_strlit("сс");
        reveal_strlit("мочиться");
    } else if i == 9 {
        reveal_strlit("Глагольный корень со значением 'заниматься мастурбацией'. Образует формы II спряжения (дрочить, дрочу, дрочишь). В переносном значении — 'надоедать, изводить повторами'.");
        reveal_strlit("дроч");
        reveal_strlit("мастурбировать");
    } else if i == 10 {
        reveal_strlit("Глагольный корень, обозначающий половой акт. Спрягается по I классу (-а-): трахать, трахаю, трахает. Омонимичен звукоподражательному 'трах' (удар, грохот).");
        reveal_strlit("трах");
        reveal_strlit("совокупляться");
    } else if i == 11 {
        reveal_strlit("Глагольный корень 'есть жадно, много'. От праславянского *žerti. Нестандартное спряжение с чередованием: жрать, жру, жрёт. Переносно: 'проживать, тратить впустую'.");
        reveal_strlit("жр");
        reveal_strlit("есть жадно");
    } else if i == 12 {
        reveal_strlit("Глагольный корень от существительного 'хер' (название буквы Х, эвфемизм 'хуй'). Глагол херить значит 'портить, вычёркивать, отменять'. Относится к новейшему слою мата (переосмысление XX века).");
        reveal_strlit("хер");
        reveal_strlit("портить, отменять");
    } else if i == 13 {
        reveal_strlit("Корень со значением 'испускать кишечные газы'. От праславянского *pьrděti. Два глагольных класса: длительное пердеть (II спряжение) и однократное перднуть. Имеет широкий ряд метафорических значений.");
        reveal_strlit("перд");
        reveal_strlit("испускать газы");
    } else if i == 14 {
        reveal_strlit("Глагольный корень с общим значением грубого действия. Спрягается по II спряжению: харить, харю, харишь. Семантический диапазон широк: от полового акта до интенсивной работы. Этимология неясна.");
        reveal_strlit("хар");
        reveal_strlit("грубо совокупляться");
    } else if i == 15 {
        reveal_strlit("Глагольный корень 'извергать рвоту'. От праславянского *bljьvati. Характеризуется историческим чередованием в основе: инфинитив блевать, основа настоящего времени блю- (блюю, блюёт). Переносно: 'выдавать из себя'.");
        reveal_strlit("блев");
        reveal_strlit("извергать рвоту");
    } else if i == 16 {
        reveal_strlit("Корень со значением 'испускать газы беззвучно'. Спрягается по II классу (-е-): бздеть, бзжу, бздишь. Переносное значение развилось в сторону страха: 'бздеть' = 'бояться, трусить'.");
        reveal_strlit("бзд");
        reveal_strlit("беззвучно испускать газы");
    } else if i == 17 {
        reveal_strlit("Корень со значением 'страдать поносом'. От праславянского *dristati. Спрягается по I классу (-а-): дристать, дрищу, дрищешь. В переносном значении — 'делать что-то некачественное, жидкое'.");
        reveal_strlit("дрист");
        reveal_strlit("страдать поносом");
    } else if i == 18 {
        reveal_strlit("Именной корень, обозначающий головку полового члена и крайнюю плоть. В глагольных формах (залупиться) означает 'обнажить головку'. По Плуцеру-Сарно — номинатив с глагольным потенциалом.");
        reveal_strlit("залуп");
        reveal_strlit("головка члена, крайняя плоть");
    } else if i == 19 {
        reveal_strlit("Именной корень со значением 'ягодицы, зад'. В глагольных формах (зажопить, прижопить) развивает значение 'присвоить, не поделиться'. Один из самых частотных корней в бытовом обсценном лексиконе.");
        reveal_strlit("жоп");
        reveal_strlit("зад, ягодицы");
    } else if i == 20 {
        reveal_strlit("Именной корень, обозначающий экскременты. В глагольных формах (говнить, заговнить) — 'портить, делать плохо'. Чрезвычайно продуктивен в именной деривации (говно, говённый, говнище).");
        reveal_strlit("говн");
        reveal_strlit("экскременты");
    } else if i == 21 {
        reveal_strlit("Именной корень, сокращение от 'педераст'. Глагольные формы (пидорить, запидорить) развивают значение 'анально изнасиловать; испортить'. Обладает сильной обсценной окраской.");
        reveal_strlit("пидор");
        reveal_strlit("гомосексуалист (презр.)");
    } else if i == 22 {
        reveal_strlit("Именной корень со значением 'проститутка, распутная женщина'. От латинского curva. Глагольные формы (курвиться, закурвиться) означают 'вести себя распутно'. Преимущественно именной.");
        reveal_strlit("курв");
        reveal_strlit("распутная женщина");
    } else if i == 23 {
        reveal_strlit("Именной корень из классификации Плуцера-Сарно. Обозначает один из типов женских гениталий (с высоким входом). Чисто номинативный корень, без глагольных форм.");
        reveal_strlit("сиповк");
        reveal_strlit("тип женских гениталий");
    } else if i == 24 {
        reveal_strlit("Именной корень из пласта обсценной анатомической лексики. Обозначает тип женских гениталий с поперечным разрезом. Не образует глагольных форм.");
        reveal_strlit("секел");
        reveal_strlit("тип женских гениталий");
    } else if i == 25 {
        reveal_strlit("Именной корень из идиша (פּאָץ — 'член'). В русском мате — универсальное презрительное обозначение мужчины. Не образует глагольных форм. Заимствование XX века.");
        reveal_strlit("поц");
        reveal_strlit("мужской член");
    } else if i == 26 {
        reveal_strlit("Именной корень со значением 'сперма'. Относится к соматическому слою мата. Глагольных форм не образует. Устаревающий корень, редко встречается в современной речи.");
        reveal_strlit("молофь");
        reveal_strlit("сперма");
    } else if i == 27 {
        reveal_strlit("Именной корень, обозначающий женские гениталии. Заимствован из французского (la moniche) через уголовное арго. Не образует глагольных форм.");
        reveal_strlit("минж");
        reveal_strlit("женские гениталии");
    } else if i == 28 {
        reveal_strlit("Именной корень со значением 'девственная плева'. Относится к анатомическому слою мата. Не образует глагольных форм. Связан с 'целка' — уничижительное обозначение девственницы.");
        reveal_strlit("целк");
        reveal_strlit("девственная плева");
    } else if i == 29 {
        reveal_strlit("Именной корень из классификации Плуцера-Сарно. Обозначает тип женских гениталий с крупными половыми губами. Не образует глагольных форм. От 'королёк' — сорт сладкого апельсина.");
        reveal_strlit("королёвк");
        reveal_strlit("тип женских гениталий");
    } else if i == 30 {
        reveal_strlit("Именной корень, обозначающий куннилингус. Заимствование из немецкого через медицинский дискурс. Не образует глагольных форм.");
        reveal_strlit("кун");
        reveal_strlit("куннилингус");
    } else if i == 31 {
        reveal_strlit("Именной корень со значением 'сперма'. От греческого σπέρμα через медицинскую терминологию. Не образует глагольных форм. Стилистически нейтральный корень.");
        reveal_strlit("сперм");
        reveal_strlit("сперма");
    } else if i == 32 {
        reveal_strlit("Именной корень со значением 'менструация'. От латинского menstruum. Не образует глагольных форм. Относится к соматическому слою, на границе медицинской и обсценной лексики.");
        reveal_strlit("менстр");
        reveal_strlit("менструация");
    } else if i == 33 {
        reveal_strlit("Именной корень, обозначающий фелляцию. Заимствование из французского (la minette, 'кошечка'). Не образует глагольных форм. Преимущественно именной.");
        reveal_strlit("минет");
        reveal_strlit("фелляция");
    } else {
        reveal_strlit("Именной корень со значением 'презерватив'. Французское заимствование (condom). В переносном значении — 'противный, надоедливый человек'. Не образует глагольных форм.");
        reveal_strlit("гондон");
        reveal_strlit("презерватив");
    }
}

/// The length, first two letters and last letter of the name of the root at
/// inventory position `i`.
pub open spec fn name_key(i: usize) -> (nat, char, char, char) {
    match i {
        0 => (2, 'е', 'б', 'б'),
        1 => (4, 'п', 'и', 'д'),
        2 => (3, 'х', 'у', 'й'),
        3 => (4, 'б', 'л', 'д'),
        4 => (3, 'м', 'у', 'д'),
        5 => (4, 'м', 'а', 'д'),
        6 => (3, 'е', 'л', 'д'),
        7 => (3, 'с', 'р', 'а'),
        8 => (3, 'с', 'с', 'а'),
        9 => (4, 'д', 'р', 'ч'),
        10 => (4, 'т', 'р', 'х'),
        11 => (2, 'ж', 'р', 'р'),
        12 => (3, 'х', 'е', 'р'),
        13 => (4, 'п', 'е', 'д'),
        14 => (3, 'х', 'а', 'р'),
        15 => (4, 'б', 'л', 'в'),
        16 => (3, 'б', 'з', 'д'),
        17 => (5, 'д', 'р', 'т'),
        18 => (5, 'з', 'а', 'п'),
        19 => (3, 'ж', 'о', 'п'),
        20 => (4, 'г', 'о', 'н'),
        21 => (5, 'п', 'и', 'р'),
        22 => (4, 'к', 'у', 'в'),
        23 => (6, 'с', 'и', 'к'),
        24 => (5, 'с', 'е', 'л'),
        25 => (3, 'п', 'о', 'ц'),
        26 => (6, 'м', 'о', 'ь'),
        27 => (4, 'м', 'и', 'ж'),
        28 => (4, 'ц', 'е', 'к'),
        29 => (8, 'к', 'о', 'к'),
        30 => (3, 'к', 'у', 'н'),
        31 => (5, 'с', 'п', 'м'),
        32 => (6, 'м', 'е', 'р'),
        33 => (5, 'м', 'и', 'т'),
        _ => (6, 'г', 'о', 'н'),
    }
}

/// The inventory position a name key belongs to.
pub open spec fn key_position(k: (nat, char, char, char)) -> usize {
    if k == (2nat, 'е', 'б', 'б') {
        0
    } else if k == (4nat, 'п', 'и', 'д') {
        1
    } else if k == (3nat, 'х', 'у', 'й') {
        2
    } else if k == (4nat, 'б', 'л', 'д') {
        3
    } else if k == (3nat, 'м', 'у', 'д') {
        4
    } else if k == (4nat, 'м', 'а', 'д') {
        5
    } else if k == (3nat, 'е', 'л', 'д') {
        6
    } else if k == (3nat, 'с', 'р', 'а') {
        7
    } else if k == (3nat, 'с', 'с', 'а') {
        8
    } else if k == (4nat, 'д', 'р', 'ч') {
        9
    } else if k == (4nat, 'т', 'р', 'х') {
        10
    } else if k == (2nat, 'ж', 'р', 'р') {
        11
    } else if k == (3nat, 'х', 'е', 'р') {
        12
    } else if k == (4nat, 'п', 'е', 'д') {
        13
    } else if k == (3nat, 'х', 'а', 'р') {
        14
    } else if k == (4nat, 'б', 'л', 'в') {
        15
    } else if k == (3nat, 'б', 'з', 'д') {
        16
    } else if k == (5nat, 'д', 'р', 'т') {
        17
    } else if k == (5nat, 'з', 'а', 'п') {
        18
    } else if k == (3nat, 'ж', 'о', 'п') {
        19
    } else if k == (4nat, 'г', 'о', 'н') {
        20
    } else if k == (5nat, 'п', 'и', 'р') {
        21
    } else if k == (4nat, 'к', 'у', 'в') {
        22
    } else if k == (6nat, 'с', 'и', 'к') {
        23
    } else if k == (5nat, 'с', 'е', 'л') {
        24
    } else if k == (3nat, 'п', 'о', 'ц') {
        25
    } else if k == (6nat, 'м', 'о', 'ь') {
        26
    } else if k == (4nat, 'м', 'и', 'ж') {
        27
    } else if k == (4nat, 'ц', 'е', 'к') {
        28
    } else if k == (8nat, 'к', 'о', 'к') {
        29
    } else if k == (3nat, 'к', 'у', 'н') {
        30
    } else if k == (5nat, 'с', 'п', 'м') {
        31
    } else if k == (6nat, 'м', 'е', 'р') {
        32
    } else if k == (5nat, 'м', 'и', 'т') {
        33
    } else if k == (6nat, 'г', 'о', 'н') {
        34
    } else {
        0
    }
}

/// The key of a root's name is its name's length and letters, and tells the
/// root's position.
proof fn lemma_name_key(i: usize)
    requires
        i < ROOT_COUNT,
    ensures
        spec_root(i).name@.len() == name_key(i).0,
        spec_root(i).name@[0] == name_key(i).1,
        spec_root(i).name@[1] == name_key(i).2,
        spec_root(i).name@[spec_root(i).name@.len() - 1] == name_key(i).3,
        key_position(name_key(i)) == i,
{
    if i == 0 {
        reveal_strlit("еб");
    } else if i == 1 {
        reveal_strlit("пизд");
    } else if i == 2 {
        reveal_strlit("хуй");
    } else if i == 3 {
        reveal_strlit("бляд");
    } else if i == 4 {
        reveal_strlit("муд");
    } else if i == 5 {
        reveal_strlit("манд");
    } else if i == 6 {
        reveal_strlit("елд");
    } else if i == 7 {
        reveal_strlit("сра");
    } else if i == 8 {
        reveal_strlit("сса");
    } else if i == 9 {
        reveal_strlit("дроч");
    } else if i == 10 {
        reveal_strlit("трах");
    } else if i == 11 {
        reveal_strlit("жр");
    } else if i == 12 {
        reveal_strlit("хер");
    } else if i == 13 {
        reveal_strlit("перд");
    } else if i == 14 {
        reveal_strlit("хар");
    } else if i == 15 {
        reveal_strlit("блев");
    } else if i == 16 {
        reveal_strlit("бзд");
    } else if i == 17 {
        reveal_strlit("дрист");
    } else if i == 18 {
        reveal_strlit("залуп");
    } else if i == 19 {
        reveal_strlit("жоп");
    } else if i == 20 {
        reveal_strlit("говн");
    } else if i == 21 {
        reveal_strlit("пидор");
    } else if i == 22 {
        reveal_strlit("курв");
    } else if i == 23 {
        reveal_strlit("сиповк");
    } else if i == 24 {
        reveal_strlit("секел");
    } else if i == 25 {
        reveal_strlit("поц");
    } else if i == 26 {
        reveal_strlit("молофь");
    } else if i == 27 {
        reveal_strlit("минж");
    } else if i == 28 {
        reveal_strlit("целк");
    } else if i == 29 {
        reveal_strlit("королёвк");
    } else if i == 30 {
        reveal_strlit("кун");
    } else if i == 31 {
        reveal_strlit("сперм");
    } else if i == 32 {
        reveal_strlit("менстр");
    } else if i == 33 {
        reveal_strlit("минет");
    } else {
        reveal_strlit("гондон");
    }
}

/// The names of the inventory are pairwise distinct, so a name identifies
/// its root.
pub proof fn law_root_names_distinct(i: usize, j: usize)
    requires
        i < ROOT_COUNT,
        j < ROOT_COUNT,
        i != j,
    ensures
        spec_root(i).name@ != spec_root(j).name@,
{
    lemma_name_key(i);
    lemma_name_key(j);
}

/// Look up attestation and note for a given root, prefix index, and suffix index.
///
/// Unlisted combinations default to (Possible, None) — unattested ≠ impossible.
pub fn lookup_attestation(root: &str, prefix_idx: usize, suffix_idx: usize) -> (r: (
    Attestation,
    Option<&'static str>,
))
    ensures
        r == spec_lookup(root@, prefix_idx, suffix_idx),
{
    match root_index(root) {
        Some(i) => attest_at(i, prefix_idx, suffix_idx),
        None => (Attestation::Possible, None),
    }
}

} // verus!
