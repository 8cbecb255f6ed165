//! Form construction: combine morphemes into full word forms.
//!
//! The only rule implemented entirely here is ъ-insertion (`needs_hard_sign`);
//! suffix+ending combinations are looked up in a table because some suffix
//! classes replace their thematic vowel in certain endings (e.g., -а- → -ё- in
//! the present tense).

use vstd::prelude::*;

use crate::text::{first_char, opt_text, str_eq};

verus! {

/// Number of rows in the suffix+ending table.
pub const COMBO_COUNT: usize = 12;

/// The suffix+ending table: (suffix value, ending value, combined text).
pub open spec fn spec_combo_row(i: usize) -> (&'static str, &'static str, &'static str) {
    match i {
        // suffix 0: -а- class
        0 => ("а", "ть", "ать"),
        1 => ("а", "л", "ал"),
        2 => ("а", "ёт", "ёт"),
        // suffix 1: -ну- class
        3 => ("ну", "ть", "нуть"),
        4 => ("ну", "л", "нул"),
        5 => ("ну", "нёт", "нёт"),
        // suffix 2: -е- class (е → и in present 3sg)
        6 => ("е", "ть", "еть"),
        7 => ("е", "л", "ел"),
        8 => ("е", "ит", "ит"),
        // suffix 3: -и- class
        9 => ("и", "ть", "ить"),
        10 => ("и", "л", "ил"),
        _ => ("и", "ит", "ит"),
    }
}

/// Row `i` of the suffix+ending table.
fn combo_row(i: usize) -> (r: (&'static str, &'static str, &'static str))
    requires
        i < COMBO_COUNT,
    ensures
        r == spec_combo_row(i),
{
    match i {
        0 => ("а", "ть", "ать"),
        1 => ("а", "л", "ал"),
        2 => ("а", "ёт", "ёт"),
        3 => ("ну", "ть", "нуть"),
        4 => ("ну", "л", "нул"),
        5 => ("ну", "нёт", "нёт"),
        6 => ("е", "ть", "еть"),
        7 => ("е", "л", "ел"),
        8 => ("е", "ит", "ит"),
        9 => ("и", "ть", "ить"),
        10 => ("и", "л", "ил"),
        _ => ("и", "ит", "ит"),
    }
}

/// The first row at or after `i` that combines `suffix` with `ending`.
pub open spec fn find_combo_from(suffix: Seq<char>, ending: Seq<char>, i: nat) -> Option<usize>
    decreases COMBO_COUNT - i,
{
    if i >= COMBO_COUNT {
        None
    } else if spec_combo_row(i as usize).0@ == suffix && spec_combo_row(i as usize).1@ == ending {
        Some(i as usize)
    } else {
        find_combo_from(suffix, ending, i + 1)
    }
}

/// Whether the table combines `suffix` with `ending`.
pub open spec fn is_combo(suffix: Seq<char>, ending: Seq<char>) -> bool {
    find_combo_from(suffix, ending, 0) is Some
}

/// The suffix+ending text for a combination the table holds.
pub open spec fn spec_combine(suffix: Seq<char>, ending: Seq<char>) -> Seq<char> {
    match find_combo_from(suffix, ending, 0) {
        Some(i) => spec_combo_row(i).2@,
        None => seq![],
    }
}

/// A row found in the table is in range.
proof fn lemma_find_combo_range(suffix: Seq<char>, ending: Seq<char>, i: nat)
    ensures
        find_combo_from(suffix, ending, i) matches Some(k) ==> k < COMBO_COUNT,
    decreases COMBO_COUNT - i,
{
    if i < COMBO_COUNT {
        lemma_find_combo_range(suffix, ending, i + 1);
    }
}

/// Combine suffix value and ending value into the actual suffix+ending string.
///
/// e.g., ("а", "ть") → "ать", ("а", "ёт") → "ёт"
fn combine_suffix_ending(suffix: &str, ending: &str) -> (r: &'static str)
    requires
        is_combo(suffix@, ending@),
    ensures
        r@ == spec_combine(suffix@, ending@),
{
    let mut i: usize = 0;
    while i < COMBO_COUNT
        invariant
            i <= COMBO_COUNT,
            find_combo_from(suffix@, ending@, 0) == find_combo_from(suffix@, ending@, i as nat),
            is_combo(suffix@, ending@),
        decreases COMBO_COUNT - i,
    {
        let row = combo_row(i);
        if str_eq(row.0, suffix) && str_eq(row.1, ending) {
            return row.2;
        }
        i = i + 1;
    }
    // the table holds the combination, so the search cannot run past its end
    proof {
        assert(find_combo_from(suffix@, ending@, COMBO_COUNT as nat) is None);
    }
    ""
}

/// Present-tense endings (used for present-stem allomorphy).
pub open spec fn is_present_ending(ending: Seq<char>) -> bool {
    ending == "ёт"@ || ending == "нёт"@ || ending == "ит"@
}

/// Check whether the ending is a present-tense ending.
pub fn present_ending(ending: &str) -> (r: bool)
    ensures
        r == is_present_ending(ending@),
{
    str_eq(ending, "ёт") || str_eq(ending, "нёт") || str_eq(ending, "ит")
}

/// Prefixes after which ъ is written before a root starting with е, ё, ю or я.
pub open spec fn is_hard_sign_prefix(prefix: Seq<char>) -> bool {
    prefix == "от"@ || prefix == "раз"@ || prefix == "вз"@ || prefix == "в"@ || prefix == "с"@
        || prefix == "под"@ || prefix == "над"@ || prefix == "пред"@ || prefix == "об"@
}

/// Whether the prefix+root boundary requires a hard sign (ъ): a prefix ending
/// in a hard consonant (от, раз, вз, в, с, под, над, пред, об) before a root
/// starting with е, ё, ю or я. A prefix already resolved to its voiceless
/// allomorph (e.g. ис-) does not.
pub open spec fn spec_needs_hard_sign(prefix: Seq<char>, root: Seq<char>) -> bool {
    is_hard_sign_prefix(prefix) && root.len() > 0 && (root[0] == 'е' || root[0] == 'ё'
        || root[0] == 'ю' || root[0] == 'я')
}

/// Whether the prefix+root boundary takes ъ.
fn needs_hard_sign(prefix: &str, root: &str) -> (r: bool)
    ensures
        r == spec_needs_hard_sign(prefix@, root@),
{
    // Prefixes that trigger ъ-insertion in standard Russian orthography.
    if !(str_eq(prefix, "от") || str_eq(prefix, "раз") || str_eq(prefix, "вз") || str_eq(
        prefix,
        "в",
    ) || str_eq(prefix, "с") || str_eq(prefix, "под") || str_eq(prefix, "над") || str_eq(
        prefix,
        "пред",
    ) || str_eq(prefix, "об")) {
        return false;
    }
    match first_char(root) {
        Some(c) => c == 'е' || c == 'ё' || c == 'ю' || c == 'я',
        None => false,
    }
}

/// The stem: prefix, then ъ where the boundary needs it, then the root.
pub open spec fn spec_stem(prefix: Seq<char>, root: Seq<char>) -> Seq<char> {
    if spec_needs_hard_sign(prefix, root) {
        prefix + "ъ"@ + root
    } else {
        prefix + root
    }
}

/// The stem a form is built on: the present stem before a present-tense
/// ending when the root has one, otherwise the root.
pub open spec fn spec_actual_root(
    root: Seq<char>,
    ending: Seq<char>,
    present_stem: Option<Seq<char>>,
) -> Seq<char> {
    match present_stem {
        Some(stem) => if is_present_ending(ending) {
            stem
        } else {
            root
        },
        None => root,
    }
}

/// A word form: stem (with ъ-insertion) followed by the suffix+ending text.
pub open spec fn spec_build_form(
    prefix: Seq<char>,
    root: Seq<char>,
    suffix: Seq<char>,
    ending: Seq<char>,
    present_stem: Option<Seq<char>>,
) -> Seq<char> {
    spec_stem(prefix, spec_actual_root(root, ending, present_stem)) + spec_combine(suffix, ending)
}

/// Build the stem: apply ъ-insertion between prefix and root.
fn build_stem(prefix: &str, root: &str) -> (r: String)
    ensures
        r@ == spec_stem(prefix@, root@),
{
    let mut r = String::new();
    if prefix.unicode_len() == 0 {
        r.append(root);
        proof {
            // no hard-sign prefix is empty
            reveal_strlit("от");
            reveal_strlit("раз");
            reveal_strlit("вз");
            reveal_strlit("в");
            reveal_strlit("с");
            reveal_strlit("под");
            reveal_strlit("над");
            reveal_strlit("пред");
            reveal_strlit("об");
            assert(prefix@ =~= Seq::<char>::empty());
        }
        assert(r@ =~= spec_stem(prefix@, root@));
        return r;
    }
    r.append(prefix);
    if needs_hard_sign(prefix, root) {
        r.append("ъ");
    }
    r.append(root);
    r
}

/// Build a word form from its morpheme components.
///
/// `prefix` must already be the resolved allomorph (e.g., "ис" not "из").
/// If `present_stem` is `Some` and the ending is present tense, the present stem
/// is used instead of the root (suppletive allomorphy like блев → блю).
///
/// ```text
/// build_form("вы", "еб", "а", "ть", None) → "выебать"
/// build_form("от", "еб", "а", "ть", None) → "отъебать"
/// build_form("", "блев", "а", "ёт", Some("блю")) → "блюёт"
/// ```
pub fn build_form(
    prefix: &str,
    root: &str,
    suffix: &str,
    ending: &str,
    present_stem: Option<&str>,
) -> (r: String)
    requires
        is_combo(suffix@, ending@),
    ensures
        r@ == spec_build_form(prefix@, root@, suffix@, ending@, opt_text(present_stem)),
{
    // Step 1: determine which stem to use (regular vs present-stem allomorph)
    let actual_root = match present_stem {
        Some(stem) => if present_ending(ending) {
            stem
        } else {
            root
        },
        None => root,
    };
    // Step 2: build the stem (prefix + possible ъ + root)
    let mut r = build_stem(prefix, actual_root);
    // Step 3: combine suffix and ending
    let se = combine_suffix_ending(suffix, ending);
    r.append(se);
    r
}

} // verus!
