//! Morphological types and morpheme inventories: prefixes, suffixes, endings,
//! and prefix-allomorph selection.
//!
//! The root inventory and its attestation tables live in `roots`.

use vstd::prelude::*;

use crate::text::{opt_text, str_eq};

verus! {

// ---------------------------------------------------------------------------
// Types
// ---------------------------------------------------------------------------

/// How attested a form is.
///
/// - `Common` — widely attested in the source's corpus work.
/// - `Rare` — occasional, dialectal, or a single attestation.
/// - `Possible` — word-formation-plausible by analogy, not attested in the source.
/// - `Impossible` — blocked by a phonological, morphological, or semantic constraint.
#[derive(Clone, Copy, Debug, PartialEq, Eq, Structural)]
pub enum Attestation {
    Common,
    Rare,
    Possible,
    Impossible,
}

/// Semantic domain of a root.
#[derive(Clone, Copy, Debug, PartialEq, Eq, Structural)]
pub enum Domain {
    /// Nuclear mat core (7 roots).
    Nuclear,
    /// Excretory domain (7 roots) — an autonomous taboo system.
    Excretory,
    /// Periphery: sexual and nominal roots (21 roots).
    Peripheral,
}

/// Productivity class, from A (highest) to E (minimal).
///
/// Ordering follows declaration order, so `A < B < C < D < E`.
#[derive(Clone, Copy, Debug, PartialEq, Eq, PartialOrd, Ord, Structural)]
pub enum ProductivityClass {
    A,
    B,
    C,
    D,
    E,
}

impl ProductivityClass {
    /// Position in the declaration order (A = 0 … E = 4).
    pub open spec fn spec_rank(self) -> nat {
        match self {
            ProductivityClass::A => 0,
            ProductivityClass::B => 1,
            ProductivityClass::C => 2,
            ProductivityClass::D => 3,
            ProductivityClass::E => 4,
        }
    }

    /// Position in the declaration order (A = 0 … E = 4).
    pub fn rank(&self) -> (r: u8)
        ensures
            r == self.spec_rank(),
    {
        match self {
            ProductivityClass::A => 0,
            ProductivityClass::B => 1,
            ProductivityClass::C => 2,
            ProductivityClass::D => 3,
            ProductivityClass::E => 4,
        }
    }

    /// The class letter as shown to the user.
    pub open spec fn spec_letter(self) -> &'static str {
        match self {
            ProductivityClass::A => "A",
            ProductivityClass::B => "B",
            ProductivityClass::C => "C",
            ProductivityClass::D => "D",
            ProductivityClass::E => "E",
        }
    }

    /// The class letter as shown to the user (`A` … `E`).
    pub fn letter(&self) -> (r: &'static str)
        ensures
            r == self.spec_letter(),
    {
        match self {
            ProductivityClass::A => "A",
            ProductivityClass::B => "B",
            ProductivityClass::C => "C",
            ProductivityClass::D => "D",
            ProductivityClass::E => "E",
        }
    }
}

/// Root display mode for list-roots.
#[derive(Clone, Copy, Debug, PartialEq, Eq, Structural)]
pub enum Mode {
    /// Classic mode: show the 9 backward-compatible core roots.
    Classic,
    /// Full mode: show all 35 roots.
    Full,
}

/// Whether a mode shows a root: classic = the nuclear domain plus the excretory
/// roots of productivity A or B; full = every root.
pub open spec fn spec_includes(mode: Mode, rd: RootData) -> bool {
    match mode {
        Mode::Classic => rd.domain == Domain::Nuclear || (rd.domain == Domain::Excretory
            && rd.productivity.spec_rank() <= ProductivityClass::B.spec_rank()),
        Mode::Full => true,
    }
}

impl Default for Mode {
    /// The default mode is classic.
    fn default() -> (r: Mode)
        ensures
            r == Mode::Classic,
    {
        Mode::Classic
    }
}

impl Mode {
    /// Whether this mode includes a given root.
    ///
    /// Classic = the whole nuclear domain plus the most productive excretory
    /// roots (productivity ≤ B) — exactly the 9 roots kept for backward
    /// compatibility.
    pub fn includes(&self, rd: &RootData) -> (r: bool)
        ensures
            r == spec_includes(*self, *rd),
    {
        match self {
            Mode::Classic => {
                rd.domain == Domain::Nuclear || (rd.domain == Domain::Excretory
                    && rd.productivity.rank() <= ProductivityClass::B.rank())
            },
            Mode::Full => true,
        }
    }

    /// The mode's name as accepted on the command line.
    pub fn name(&self) -> (r: &'static str)
        ensures
            r == (match *self {
                Mode::Classic => "classic",
                Mode::Full => "full",
            }),
    {
        match self {
            Mode::Classic => "classic",
            Mode::Full => "full",
        }
    }
}

/// Root data: a root plus its semantic domain, productivity, and verb classes.
#[derive(Clone, Copy, Debug)]
pub struct RootData {
    pub name: &'static str,
    /// Value used in form construction (e.g., "ср" for root "сра").
    pub val: &'static str,
    /// English gloss — a reference only, never shown in output.
    pub gloss: Option<&'static str>,
    /// Russian gloss — the meaning shown in every command's output.
    pub gloss_ru: Option<&'static str>,
    /// Indices into the suffix table that this root combines with.
    pub suffix_indices: &'static [usize],
    /// Semantic domain.
    pub domain: Domain,
    /// Productivity class.
    pub productivity: ProductivityClass,
    /// Present-tense stem for roots with an irregular present stem
    /// (e.g., "блю" for root "блев").
    pub present_stem: Option<&'static str>,
    /// Whether a yer-final prefix takes its fluid-vowel form (со-, изо-, …)
    /// before this root (сра-, сса-, жр-).
    pub takes_fill_vowel: bool,
    /// Whether the о-/об- prefix surfaces as об- before this root even before
    /// a consonant (говн-).
    pub o_takes_ob: bool,
    /// Linguistic note (in Russian) for the random subcommand.
    pub linguistic_note: &'static str,
}

/// A single verb form combining a prefix, root, suffix, and ending.
#[derive(Debug)]
pub struct VerbForm {
    pub prefix_display: &'static str,
    pub suffix_val: &'static str,
    pub ending_val: &'static str,
    /// The fully constructed word (e.g., "выебать").
    pub form: String,
    pub attestation: Attestation,
    pub note: Option<&'static str>,
}

/// The text of a verb form, field by field.
pub struct VerbFormView {
    pub prefix_display: Seq<char>,
    pub suffix_val: Seq<char>,
    pub ending_val: Seq<char>,
    pub form: Seq<char>,
    pub attestation: Attestation,
    pub note: Option<Seq<char>>,
}

impl View for VerbForm {
    type V = VerbFormView;

    open spec fn view(&self) -> VerbFormView {
        VerbFormView {
            prefix_display: self.prefix_display@,
            suffix_val: self.suffix_val@,
            ending_val: self.ending_val@,
            form: self.form@,
            attestation: self.attestation,
            note: opt_text(self.note),
        }
    }
}

/// The views of a sequence of forms.
pub open spec fn forms_view(forms: Seq<VerbForm>) -> Seq<VerbFormView> {
    forms.map_values(|f: VerbForm| f@)
}

impl Clone for VerbForm {
    fn clone(&self) -> (r: VerbForm)
        ensures
            r@ == self@,
    {
        VerbForm {
            prefix_display: self.prefix_display,
            suffix_val: self.suffix_val,
            ending_val: self.ending_val,
            form: self.form.clone(),
            attestation: self.attestation,
            note: self.note,
        }
    }
}

/// Result of exploring a root's paradigm.
#[derive(Clone, Debug)]
pub struct ParadigmResult {
    pub root_name: &'static str,
    /// Russian gloss for display.
    pub root_gloss_ru: Option<&'static str>,
    pub root_domain: Domain,
    pub root_productivity: ProductivityClass,
    /// The suffix filter that produced this result, if any.
    pub suffix_filter: Option<String>,
    pub forms: Vec<VerbForm>,
}

/// Error type for `explore`.
#[derive(Clone, Debug)]
pub enum ExploreError {
    RootNotFound { root: String, available: Vec<&'static str> },
}

impl ExploreError {
    /// The user-facing message.
    pub fn message(&self) -> (r: String)
        ensures
            r@ == (match self {
                ExploreError::RootNotFound { root, available } => "Корень '"@ + root@ + "' не найден. Доступные корни: "@
                    + crate::text::join(available@.map_values(|p: &str| p@), ", "@)
                    + ". Используйте `matcraft list-roots` для полного списка."@,
            }),
    {
        match self {
            ExploreError::RootNotFound { root, available } => {
                let mut r = String::new();
                r.append("Корень '");
                r.append(root.as_str());
                r.append("' не найден. Доступные корни: ");
                let list = crate::text::join_strs(available.as_slice(), ", ");
                r.append(list.as_str());
                r.append(". Используйте `matcraft list-roots` для полного списка.");
                r
            },
        }
    }
}

// ---------------------------------------------------------------------------
// Prefix data
// ---------------------------------------------------------------------------

/// Number of prefixes in the inventory.
pub const PREFIX_COUNT: usize = 18;

/// A prefix with display name, allomorphs, and fluid-vowel form.
#[derive(Clone, Copy)]
pub struct PrefixEntry {
    /// Value used in form construction (e.g., "из").
    pub val: &'static str,
    /// Display name in tables (e.g., "из-/ис-", or "(без)" for bare).
    pub display: &'static str,
    pub allomorphs: &'static [&'static str],
    /// The fluid-vowel form of a yer-final prefix (со-, изо-, …), if any.
    pub fill: Option<&'static str>,
}

/// The prefix inventory. Index positions are load-bearing — attestation tables
/// reference them by index.
pub open spec fn spec_prefix(idx: usize) -> PrefixEntry {
    match idx {
        0 => PrefixEntry { val: "", display: "(без)", allomorphs: &[], fill: None },
        1 => PrefixEntry { val: "вы", display: "вы-", allomorphs: &[], fill: None },
        2 => PrefixEntry { val: "до", display: "до-", allomorphs: &[], fill: None },
        3 => PrefixEntry { val: "за", display: "за-", allomorphs: &[], fill: None },
        4 => PrefixEntry { val: "из", display: "из-/ис-", allomorphs: &["ис"], fill: Some("изо") },
        5 => PrefixEntry { val: "на", display: "на-", allomorphs: &[], fill: None },
        6 => PrefixEntry { val: "от", display: "от-/ото-", allomorphs: &["ото"], fill: Some("ото") },
        7 => PrefixEntry { val: "пере", display: "пере-", allomorphs: &[], fill: None },
        8 => PrefixEntry { val: "про", display: "про-", allomorphs: &[], fill: None },
        9 => PrefixEntry { val: "в", display: "в-", allomorphs: &[], fill: Some("во") },
        10 => PrefixEntry { val: "вз", display: "вз-/вс-", allomorphs: &["вс"], fill: Some("взо") },
        11 => PrefixEntry { val: "о", display: "о-/об-", allomorphs: &["об"], fill: Some("обо") },
        12 => PrefixEntry { val: "по", display: "по-", allomorphs: &[], fill: None },
        13 => PrefixEntry { val: "под", display: "под-", allomorphs: &[], fill: Some("подо") },
        14 => PrefixEntry { val: "при", display: "при-", allomorphs: &[], fill: None },
        15 => PrefixEntry { val: "раз", display: "раз-/рас-", allomorphs: &["рас"], fill: Some("разо") },
        16 => PrefixEntry { val: "с", display: "с-", allomorphs: &[], fill: Some("со") },
        _ => PrefixEntry { val: "у", display: "у-", allomorphs: &[], fill: None },
    }
}

/// The display names of the prefixes are pairwise distinct, so a display
/// name identifies its prefix.
pub proof fn law_prefix_displays_distinct(p: usize, q: usize)
    requires
        p < PREFIX_COUNT,
        q < PREFIX_COUNT,
        p != q,
    ensures
        spec_prefix(p).display@ != spec_prefix(q).display@,
{
    reveal_strlit("(без)");
    reveal_strlit("вы-");
    reveal_strlit("до-");
    reveal_strlit("за-");
    reveal_strlit("из-/ис-");
    reveal_strlit("на-");
    reveal_strlit("от-/ото-");
    reveal_strlit("пере-");
    reveal_strlit("про-");
    reveal_strlit("в-");
    reveal_strlit("вз-/вс-");
    reveal_strlit("о-/об-");
    reveal_strlit("по-");
    reveal_strlit("под-");
    reveal_strlit("при-");
    reveal_strlit("раз-/рас-");
    reveal_strlit("с-");
    reveal_strlit("у-");
    let a = spec_prefix(p).display@;
    let b = spec_prefix(q).display@;
    if a.len() == b.len() && a.len() > 2 {
        assert(a[0] != b[0] || a[1] != b[1] || a[2] != b[2]);
    } else if a.len() == b.len() {
        assert(a[0] != b[0]);
    }
}

/// The prefix entry at `idx`.
pub fn prefix_entry(idx: usize) -> (r: PrefixEntry)
    requires
        idx < PREFIX_COUNT,
    ensures
        r == spec_prefix(idx),
{
    match idx {
        0 => PrefixEntry { val: "", display: "(без)", allomorphs: &[], fill: None },
        1 => PrefixEntry { val: "вы", display: "вы-", allomorphs: &[], fill: None },
        2 => PrefixEntry { val: "до", display: "до-", allomorphs: &[], fill: None },
        3 => PrefixEntry { val: "за", display: "за-", allomorphs: &[], fill: None },
        4 => PrefixEntry { val: "из", display: "из-/ис-", allomorphs: &["ис"], fill: Some("изо") },
        5 => PrefixEntry { val: "на", display: "на-", allomorphs: &[], fill: None },
        6 => PrefixEntry { val: "от", display: "от-/ото-", allomorphs: &["ото"], fill: Some("ото") },
        7 => PrefixEntry { val: "пере", display: "пере-", allomorphs: &[], fill: None },
        8 => PrefixEntry { val: "про", display: "про-", allomorphs: &[], fill: None },
        9 => PrefixEntry { val: "в", display: "в-", allomorphs: &[], fill: Some("во") },
        10 => PrefixEntry { val: "вз", display: "вз-/вс-", allomorphs: &["вс"], fill: Some("взо") },
        11 => PrefixEntry { val: "о", display: "о-/об-", allomorphs: &["об"], fill: Some("обо") },
        12 => PrefixEntry { val: "по", display: "по-", allomorphs: &[], fill: None },
        13 => PrefixEntry { val: "под", display: "под-", allomorphs: &[], fill: Some("подо") },
        14 => PrefixEntry { val: "при", display: "при-", allomorphs: &[], fill: None },
        15 => PrefixEntry { val: "раз", display: "раз-/рас-", allomorphs: &["рас"], fill: Some("разо") },
        16 => PrefixEntry { val: "с", display: "с-", allomorphs: &[], fill: Some("со") },
        _ => PrefixEntry { val: "у", display: "у-", allomorphs: &[], fill: None },
    }
}

/// The value of prefix `idx` used in form construction.
pub fn prefix_val(idx: usize) -> (r: &'static str)
    requires
        idx < PREFIX_COUNT,
    ensures
        r == spec_prefix(idx).val,
{
    prefix_entry(idx).val
}

/// The display name of prefix `idx`.
pub fn prefix_display(idx: usize) -> (r: &'static str)
    requires
        idx < PREFIX_COUNT,
    ensures
        r == spec_prefix(idx).display,
{
    prefix_entry(idx).display
}

/// The allomorphs of prefix `idx`.
pub fn prefix_allomorphs(idx: usize) -> (r: &'static [&'static str])
    requires
        idx < PREFIX_COUNT,
    ensures
        r == spec_prefix(idx).allomorphs,
{
    prefix_entry(idx).allomorphs
}

/// The fluid-vowel form of a yer-final prefix (e.g. со- for с-), if it has one.
pub fn prefix_fill_form(idx: usize) -> (r: Option<&'static str>)
    requires
        idx < PREFIX_COUNT,
    ensures
        r == spec_prefix(idx).fill,
{
    prefix_entry(idx).fill
}

/// The number of prefixes.
pub fn prefix_count() -> (r: usize)
    ensures
        r == PREFIX_COUNT,
{
    PREFIX_COUNT
}

// ---------------------------------------------------------------------------
// Suffix data
// ---------------------------------------------------------------------------

/// Number of suffix classes in the inventory.
pub const SUFFIX_COUNT: usize = 4;

#[derive(Clone, Copy)]
pub struct SuffixEntry {
    pub val: &'static str,
    pub display: &'static str,
    pub gloss: &'static str,
}

/// The suffix classes.
pub open spec fn spec_suffix(idx: usize) -> SuffixEntry {
    match idx {
        0 => SuffixEntry { val: "а", display: "-а-", gloss: "имперфектив" },
        1 => SuffixEntry { val: "ну", display: "-ну-", gloss: "однократный" },
        2 => SuffixEntry { val: "е", display: "-е-", gloss: "II спряжение (-е- основа)" },
        _ => SuffixEntry { val: "и", display: "-и-", gloss: "II спряжение (-и- основа)" },
    }
}

/// The suffix entry at `idx`.
pub fn suffix_entry(idx: usize) -> (r: SuffixEntry)
    requires
        idx < SUFFIX_COUNT,
    ensures
        r == spec_suffix(idx),
{
    match idx {
        0 => SuffixEntry { val: "а", display: "-а-", gloss: "имперфектив" },
        1 => SuffixEntry { val: "ну", display: "-ну-", gloss: "однократный" },
        2 => SuffixEntry { val: "е", display: "-е-", gloss: "II спряжение (-е- основа)" },
        _ => SuffixEntry { val: "и", display: "-и-", gloss: "II спряжение (-и- основа)" },
    }
}

/// The value of suffix class `idx`.
pub fn suffix_val(idx: usize) -> (r: &'static str)
    requires
        idx < SUFFIX_COUNT,
    ensures
        r == spec_suffix(idx).val,
{
    suffix_entry(idx).val
}

/// The display form of suffix class `idx`.
pub fn suffix_display(idx: usize) -> (r: &'static str)
    requires
        idx < SUFFIX_COUNT,
    ensures
        r == spec_suffix(idx).display,
{
    suffix_entry(idx).display
}

/// The gloss of suffix class `idx`.
pub fn suffix_gloss(idx: usize) -> (r: &'static str)
    requires
        idx < SUFFIX_COUNT,
    ensures
        r == spec_suffix(idx).gloss,
{
    suffix_entry(idx).gloss
}

/// Whether `val` is the value of some suffix class.
pub open spec fn is_suffix_val(val: Seq<char>) -> bool {
    exists|i: usize| i < SUFFIX_COUNT && #[trigger] spec_suffix(i).val@ == val
}

/// The first suffix class at or after `i` whose value is `val`.
pub open spec fn find_suffix_from(val: Seq<char>, i: nat) -> Option<usize>
    decreases SUFFIX_COUNT - i,
{
    if i >= SUFFIX_COUNT {
        None
    } else if spec_suffix(i as usize).val@ == val {
        Some(i as usize)
    } else {
        find_suffix_from(val, i + 1)
    }
}

/// The index of the first suffix class whose value is `val`.
pub open spec fn spec_suffix_index_of(val: Seq<char>) -> usize {
    match find_suffix_from(val, 0) {
        Some(i) => i,
        None => 0,
    }
}

/// A suffix class found by value is in range and has that value; no earlier
/// class has it.
proof fn lemma_find_suffix(val: Seq<char>, i: nat)
    ensures
        find_suffix_from(val, i) matches Some(k) ==> i <= k < SUFFIX_COUNT && spec_suffix(k).val@
            == val && forall|j: usize| i <= j < k ==> spec_suffix(j).val@ != val,
        find_suffix_from(val, i) is None ==> forall|j: usize|
            i <= j < SUFFIX_COUNT ==> spec_suffix(j).val@ != val,
    decreases SUFFIX_COUNT - i,
{
    if i < SUFFIX_COUNT {
        lemma_find_suffix(val, i + 1);
    }
}

/// Reverse-lookup a suffix index from its value string: the first class whose
/// value is `val`.
pub fn suffix_index_for_val(val: &str) -> (r: usize)
    requires
        is_suffix_val(val@),
    ensures
        r == spec_suffix_index_of(val@),
        r < SUFFIX_COUNT,
        spec_suffix(r).val@ == val@,
        forall|j: usize| j < r ==> spec_suffix(j).val@ != val@,
{
    proof {
        lemma_find_suffix(val@, 0);
    }
    let mut i: usize = 0;
    while i < SUFFIX_COUNT
        invariant
            i <= SUFFIX_COUNT,
            is_suffix_val(val@),
            find_suffix_from(val@, 0) == find_suffix_from(val@, i as nat),
            forall|j: usize| j < i ==> spec_suffix(j).val@ != val@,
        decreases SUFFIX_COUNT - i,
    {
        if str_eq(suffix_val(i), val) {
            return i;
        }
        i = i + 1;
    }
    proof {
        let w = choose|w: usize| w < SUFFIX_COUNT && #[trigger] spec_suffix(w).val@ == val@;
        assert(spec_suffix(w).val@ != val@);
    }
    0
}

// ---------------------------------------------------------------------------
// Ending data
// ---------------------------------------------------------------------------

/// Number of endings in the inventory.
pub const ENDING_COUNT: usize = 5;

#[derive(Clone, Copy)]
pub struct EndingEntry {
    pub val: &'static str,
    /// Display form of the ending (e.g. "-ть", "-ёт").
    pub display: &'static str,
    /// Human-readable grammatical label (Russian) for the form block.
    pub label: &'static str,
    /// Which suffix class(es) this ending applies to (indices into the suffix table).
    pub applicable_to: &'static [usize],
}

/// Verb endings by class.
pub open spec fn spec_ending(idx: usize) -> EndingEntry {
    match idx {
        0 => EndingEntry { val: "ть", display: "-ть", label: "инфинитив -ть", applicable_to: &[0, 1, 2, 3] },
        1 => EndingEntry { val: "л", display: "-л", label: "прош. время, м. р. ед. ч. -л", applicable_to: &[0, 1, 2, 3] },
        2 => EndingEntry { val: "ёт", display: "-ёт", label: "наст. время, 3 л. ед. ч. -ёт", applicable_to: &[0] },
        3 => EndingEntry { val: "нёт", display: "-нёт", label: "наст. время, 3 л. ед. ч. -нёт", applicable_to: &[1] },
        _ => EndingEntry { val: "ит", display: "-ит", label: "наст. время, 3 л. ед. ч. -ит", applicable_to: &[2, 3] },
    }
}

/// The ending entry at `idx`.
pub fn ending_entry(idx: usize) -> (r: EndingEntry)
    requires
        idx < ENDING_COUNT,
    ensures
        r == spec_ending(idx),
{
    match idx {
        0 => EndingEntry { val: "ть", display: "-ть", label: "инфинитив -ть", applicable_to: &[0, 1, 2, 3] },
        1 => EndingEntry { val: "л", display: "-л", label: "прош. время, м. р. ед. ч. -л", applicable_to: &[0, 1, 2, 3] },
        2 => EndingEntry { val: "ёт", display: "-ёт", label: "наст. время, 3 л. ед. ч. -ёт", applicable_to: &[0] },
        3 => EndingEntry { val: "нёт", display: "-нёт", label: "наст. время, 3 л. ед. ч. -нёт", applicable_to: &[1] },
        _ => EndingEntry { val: "ит", display: "-ит", label: "наст. время, 3 л. ед. ч. -ит", applicable_to: &[2, 3] },
    }
}

/// The value of ending `idx`.
pub fn ending_val(idx: usize) -> (r: &'static str)
    requires
        idx < ENDING_COUNT,
    ensures
        r == spec_ending(idx).val,
{
    ending_entry(idx).val
}

/// The display form of ending `idx`.
pub fn ending_display(idx: usize) -> (r: &'static str)
    requires
        idx < ENDING_COUNT,
    ensures
        r == spec_ending(idx).display,
{
    ending_entry(idx).display
}

/// The grammatical label of ending `idx`.
pub fn ending_label(idx: usize) -> (r: &'static str)
    requires
        idx < ENDING_COUNT,
    ensures
        r == spec_ending(idx).label,
{
    ending_entry(idx).label
}

/// Whether `val` is the value of some ending.
pub open spec fn is_ending_val(val: Seq<char>) -> bool {
    exists|i: usize| i < ENDING_COUNT && #[trigger] spec_ending(i).val@ == val
}

/// The first ending at or after `i` whose value is `val`.
pub open spec fn find_ending_from(val: Seq<char>, i: nat) -> Option<usize>
    decreases ENDING_COUNT - i,
{
    if i >= ENDING_COUNT {
        None
    } else if spec_ending(i as usize).val@ == val {
        Some(i as usize)
    } else {
        find_ending_from(val, i + 1)
    }
}

/// The index of the first ending whose value is `val`.
pub open spec fn spec_ending_index_of(val: Seq<char>) -> usize {
    match find_ending_from(val, 0) {
        Some(i) => i,
        None => 0,
    }
}

/// An ending found by value is in range and has that value; no earlier ending
/// has it.
proof fn lemma_find_ending(val: Seq<char>, i: nat)
    ensures
        find_ending_from(val, i) matches Some(k) ==> i <= k < ENDING_COUNT && spec_ending(k).val@
            == val && forall|j: usize| i <= j < k ==> spec_ending(j).val@ != val,
        find_ending_from(val, i) is None ==> forall|j: usize|
            i <= j < ENDING_COUNT ==> spec_ending(j).val@ != val,
    decreases ENDING_COUNT - i,
{
    if i < ENDING_COUNT {
        lemma_find_ending(val, i + 1);
    }
}

/// Reverse-lookup an ending index from its value string: the first ending
/// whose value is `val`.
pub fn ending_by_val(val: &str) -> (r: usize)
    requires
        is_ending_val(val@),
    ensures
        r == spec_ending_index_of(val@),
        r < ENDING_COUNT,
        spec_ending(r).val@ == val@,
        forall|j: usize| j < r ==> spec_ending(j).val@ != val@,
{
    proof {
        lemma_find_ending(val@, 0);
    }
    let mut i: usize = 0;
    while i < ENDING_COUNT
        invariant
            i <= ENDING_COUNT,
            is_ending_val(val@),
            find_ending_from(val@, 0) == find_ending_from(val@, i as nat),
            forall|j: usize| j < i ==> spec_ending(j).val@ != val@,
        decreases ENDING_COUNT - i,
    {
        if str_eq(ending_val(i), val) {
            return i;
        }
        i = i + 1;
    }
    proof {
        let w = choose|w: usize| w < ENDING_COUNT && #[trigger] spec_ending(w).val@ == val@;
        assert(spec_ending(w).val@ != val@);
    }
    0
}

/// Each ending value names its own ending: looking a value up gives back the
/// index it was read from.
pub proof fn law_ending_round_trip(i: usize)
    requires
        i < ENDING_COUNT,
    ensures
        spec_ending_index_of(spec_ending(i).val@) == i,
{
    reveal_strlit("ть");
    reveal_strlit("л");
    reveal_strlit("ёт");
    reveal_strlit("нёт");
    reveal_strlit("ит");
    let v = spec_ending(i).val@;
    assert("ть"@[0] == 'т' && "л"@[0] == 'л' && "ёт"@[0] == 'ё' && "нёт"@[0] == 'н' && "ит"@[0]
        == 'и');
    assert("ть"@ != "л"@ && "ть"@ != "ёт"@ && "ть"@ != "нёт"@ && "ть"@ != "ит"@);
    assert("л"@ != "ёт"@ && "л"@ != "нёт"@ && "л"@ != "ит"@);
    assert("ёт"@ != "нёт"@ && "ёт"@ != "ит"@ && "нёт"@ != "ит"@);
    reveal_with_fuel(find_ending_from, 6);
    if i == 0 {
        assert(find_ending_from(v, 0) == Some(0usize));
    } else if i == 1 {
        assert(find_ending_from(v, 1) == Some(1usize));
    } else if i == 2 {
        assert(find_ending_from(v, 2) == Some(2usize));
    } else if i == 3 {
        assert(find_ending_from(v, 3) == Some(3usize));
    } else {
        assert(find_ending_from(v, 4) == Some(4usize));
    }
}

/// Each suffix value names its own class: looking a value up gives back the
/// index it was read from.
pub proof fn law_suffix_round_trip(i: usize)
    requires
        i < SUFFIX_COUNT,
    ensures
        spec_suffix_index_of(spec_suffix(i).val@) == i,
{
    reveal_strlit("а");
    reveal_strlit("ну");
    reveal_strlit("е");
    reveal_strlit("и");
    let v = spec_suffix(i).val@;
    assert("а"@[0] == 'а' && "ну"@[0] == 'н' && "е"@[0] == 'е' && "и"@[0] == 'и');
    assert("а"@ != "ну"@ && "а"@ != "е"@ && "а"@ != "и"@);
    assert("ну"@ != "е"@ && "ну"@ != "и"@ && "е"@ != "и"@);
    reveal_with_fuel(find_suffix_from, 5);
    if i == 0 {
        assert(find_suffix_from(v, 0) == Some(0usize));
    } else if i == 1 {
        assert(find_suffix_from(v, 1) == Some(1usize));
    } else if i == 2 {
        assert(find_suffix_from(v, 2) == Some(2usize));
    } else {
        assert(find_suffix_from(v, 3) == Some(3usize));
    }
}

/// The endings (in table order) among the first `n` whose class list holds `suffix_idx`.
pub open spec fn endings_upto(suffix_idx: usize, n: nat) -> Seq<usize>
    decreases n,
{
    if n == 0 {
        seq![]
    } else {
        let prev = endings_upto(suffix_idx, (n - 1) as nat);
        if spec_ending((n - 1) as usize).applicable_to@.contains(suffix_idx) {
            prev.push((n - 1) as usize)
        } else {
            prev
        }
    }
}

/// All ending indices (in table order) that apply to a given suffix class.
pub open spec fn spec_endings_for(suffix_idx: usize) -> Seq<usize> {
    endings_upto(suffix_idx, ENDING_COUNT as nat)
}

/// Whether `x` occurs in `s`.
fn slice_contains(s: &[usize], x: usize) -> (r: bool)
    ensures
        r == s@.contains(x),
{
    let mut i: usize = 0;
    while i < s.len()
        invariant
            i <= s@.len(),
            forall|j: int| 0 <= j < i ==> s@[j] != x,
        decreases s@.len() - i,
    {
        if s[i] == x {
            assert(s@[i as int] == x);
            return true;
        }
        i = i + 1;
    }
    false
}

/// Returns all ending indices that apply to a given suffix index.
pub fn endings_for_suffix(suffix_idx: usize) -> (r: Vec<usize>)
    ensures
        r@ == spec_endings_for(suffix_idx),
{
    let mut r: Vec<usize> = Vec::new();
    let mut i: usize = 0;
    while i < ENDING_COUNT
        invariant
            i <= ENDING_COUNT,
            r@ == endings_upto(suffix_idx, i as nat),
        decreases ENDING_COUNT - i,
    {
        if slice_contains(ending_entry(i).applicable_to, suffix_idx) {
            r.push(i);
        }
        i = i + 1;
    }
    r
}

// ---------------------------------------------------------------------------
// Prefix allomorph selection
// ---------------------------------------------------------------------------

/// Voiceless consonants that trigger a voiceless prefix allomorph.
pub open spec fn is_voiceless(c: char) -> bool {
    c == 'п' || c == 'с' || c == 'т' || c == 'к' || c == 'х' || c == 'ц' || c == 'ч' || c == 'ш'
        || c == 'щ'
}

/// Vowels.
pub open spec fn is_vowel(c: char) -> bool {
    c == 'а' || c == 'е' || c == 'ё' || c == 'и' || c == 'о' || c == 'у' || c == 'ы' || c == 'э'
        || c == 'ю' || c == 'я'
}

/// The allomorph of a prefix chosen before `root`:
/// - no allomorphs: the primary form;
/// - из-/ис-: ис- before е/ё and before a voiceless consonant, else из-;
/// - вз-/вс-, раз-/рас-: the voiceless form before a voiceless consonant;
/// - о-/об-: об- before a vowel, or always when the root selects об-;
/// - otherwise: the primary form.
pub open spec fn spec_select_allomorph(
    prefix_val: Seq<char>,
    has_allomorphs: bool,
    root: Seq<char>,
    o_takes_ob: bool,
) -> Seq<char> {
    let first = if root.len() > 0 {
        root[0]
    } else {
        ' '
    };
    if !has_allomorphs {
        prefix_val
    } else if prefix_val == "из"@ {
        if first == 'е' || first == 'ё' || is_voiceless(first) {
            "ис"@
        } else {
            prefix_val
        }
    } else if prefix_val == "вз"@ {
        if is_voiceless(first) {
            "вс"@
        } else {
            prefix_val
        }
    } else if prefix_val == "раз"@ {
        if is_voiceless(first) {
            "рас"@
        } else {
            prefix_val
        }
    } else if prefix_val == "о"@ {
        if is_vowel(first) || o_takes_ob {
            "об"@
        } else {
            prefix_val
        }
    } else {
        prefix_val
    }
}

/// Select the correct allomorph of a prefix before the given root.
///
/// Rules:
/// - из-/ис-: use "ис" before voiceless consonants and before е/ё-initial roots;
///   otherwise use "из".
/// - вз-/вс-: use "вс" before voiceless consonants; otherwise "вз".
/// - раз-/рас-: use "рас" before voiceless consonants; otherwise "раз".
/// - о-/об-: use "об" before vowels, or for a root that selects об-
///   (`o_takes_ob`); otherwise "о".
/// - All other prefixes: return the primary form (ъ-insertion is handled in
///   form construction).
pub fn select_prefix_allomorph<'a>(
    prefix_val: &'a str,
    allomorphs: &[&str],
    root: &str,
    o_takes_ob: bool,
) -> (r: &'a str)
    ensures
        r@ == spec_select_allomorph(prefix_val@, allomorphs@.len() > 0, root@, o_takes_ob),
{
    if allomorphs.len() == 0 {
        return prefix_val;
    }
    let first = match crate::text::first_char(root) {
        Some(c) => c,
        None => ' ',
    };
    let voiceless = first == 'п' || first == 'с' || first == 'т' || first == 'к' || first == 'х'
        || first == 'ц' || first == 'ч' || first == 'ш' || first == 'щ';
    let vowel = first == 'а' || first == 'е' || first == 'ё' || first == 'и' || first == 'о'
        || first == 'у' || first == 'ы' || first == 'э' || first == 'ю' || first == 'я';
    let is_iz = str_eq(prefix_val, "из");
    let is_vz = str_eq(prefix_val, "вз");
    let is_raz = str_eq(prefix_val, "раз");
    if is_iz || is_vz || is_raz {
        let voiceless_form = if is_iz {
            "ис"
        } else if is_vz {
            "вс"
        } else {
            "рас"
        };
        // из-/ис- uses ис- before any е/ё-starting root
        if is_iz && (first == 'е' || first == 'ё') {
            return "ис";
        }
        if voiceless {
            voiceless_form
        } else {
            prefix_val
        }
    } else if str_eq(prefix_val, "о") {
        if vowel || o_takes_ob {
            "об"
        } else {
            prefix_val
        }
    } else {
        prefix_val
    }
}


/// Whether `c` is one of the voiceless consonants п с т к х ц ч ш щ.
pub open spec fn voiceless_letter(c: char) -> bool {
    c == 'п' || c == 'с' || c == 'т' || c == 'к' || c == 'х' || c == 'ц' || c == 'ч' || c == 'ш'
        || c == 'щ'
}

/// The allomorph chosen before a root depends on the root's first letter:
/// раз- becomes рас- and вз- becomes вс- exactly before a voiceless consonant
/// (п с т к х ц ч ш щ), so the surface before трах- is рас- (растрахать);
/// из- becomes ис- before a voiceless consonant or е/ё; о- becomes об- before
/// a vowel or for a root that selects об-. A prefix without allomorphs, and
/// any prefix before an empty root other than о- with об-, keeps its primary
/// form.
pub proof fn law_allomorph_choice(root: Seq<char>, o_takes_ob: bool, prefix_val: Seq<char>)
    ensures
        spec_select_allomorph(prefix_val, false, root, o_takes_ob) == prefix_val,
        root.len() > 0 ==> spec_select_allomorph("раз"@, true, root, o_takes_ob) == (if voiceless_letter(root[0]) { "рас"@ } else { "раз"@ }),
        root.len() > 0 ==> spec_select_allomorph("вз"@, true, root, o_takes_ob) == (if voiceless_letter(root[0]) { "вс"@ } else { "вз"@ }),
        root.len() > 0 ==> spec_select_allomorph("из"@, true, root, o_takes_ob) == (if voiceless_letter(root[0])
            || root[0] == 'е' || root[0] == 'ё' { "ис"@ } else { "из"@ }),
        root.len() > 0 ==> spec_select_allomorph("о"@, true, root, o_takes_ob) == (if o_takes_ob
            || root[0] == 'а' || root[0] == 'е' || root[0] == 'ё' || root[0] == 'и' || root[0] == 'о'
            || root[0] == 'у' || root[0] == 'ы' || root[0] == 'э' || root[0] == 'ю' || root[0] == 'я' { "об"@ } else { "о"@ }),
        root.len() == 0 ==> spec_select_allomorph("раз"@, true, root, o_takes_ob) == "раз"@,
        root.len() == 0 ==> spec_select_allomorph("вз"@, true, root, o_takes_ob) == "вз"@,
        root.len() == 0 ==> spec_select_allomorph("из"@, true, root, o_takes_ob) == "из"@,
{
    reveal_strlit("раз");
    reveal_strlit("рас");
    reveal_strlit("вз");
    reveal_strlit("вс");
    reveal_strlit("из");
    reveal_strlit("ис");
    reveal_strlit("о");
    reveal_strlit("об");
    assert("раз"@.len() == 3 && "из"@.len() == 2 && "вз"@.len() == 2);
    assert("раз"@ != "из"@);
    assert("раз"@ != "вз"@);
    assert("вз"@[0] == 'в' && "из"@[0] == 'и');
    assert("вз"@ != "из"@);
    assert("о"@.len() == 1);
    assert("о"@ != "из"@ && "о"@ != "вз"@ && "о"@ != "раз"@);
}

} // verus!
