//! Paradigm builder: combinatorial expansion, form construction, attestation lookup.
//!
//! Main entry points:
//! - `explore(root, suffix_filter)` — builds the full combinatorial paradigm for a root
//! - `generate(mode, root_opt, count)` — draws random forms from the pool
//! - `list_roots(mode)` — returns available roots filtered by mode
//! - `random_root(mode)` — returns a random root from those available in mode
//! - `root_of_the_day(mode, day_index)` — deterministic root, stable within a day index
//! - `sample_forms(rd)` — up to 3 Common infinitives for the box display

use vstd::prelude::*;

use crate::chance::{
    is_index_permutation, random_below, seeded_below, seeded_index, shuffled_indices,
};
use crate::grammar::{build_form, is_combo, spec_build_form};
use crate::morpheme::{
    law_suffix_round_trip, spec_suffix_index_of, Attestation, Domain, ENDING_COUNT, ExploreError, Mode, PREFIX_COUNT, ParadigmResult, ProductivityClass,
    RootData, SUFFIX_COUNT, VerbForm, VerbFormView, ending_entry, endings_for_suffix, endings_upto,
    forms_view, is_ending_val, is_suffix_val, is_vowel, prefix_entry, select_prefix_allomorph,
    spec_ending, spec_endings_for, spec_includes, spec_prefix, spec_select_allomorph, spec_suffix,
    suffix_entry,
};
use crate::roots::{
    ROOT_COUNT, all_roots, law_root_names_distinct, lemma_class_e_possible, lemma_find_root, lemma_root_wf,
    lookup_attestation,
    root_at, root_data, root_wf, spec_lookup, spec_root, spec_root_data, spec_root_index,
};
use crate::display::{is_word, lemma_word_concat};
use crate::grammar::{spec_actual_root, spec_combine, spec_stem};
use crate::text::{is_space, opt_string_text, opt_text, owned, str_eq};

verus! {

// ---------------------------------------------------------------------------
// The paradigm of a root
// ---------------------------------------------------------------------------

/// Whether a suffix filter admits suffix class `s`: no filter, or the filter
/// equals the class's value or its display form.
pub open spec fn filter_admits(filter: Option<Seq<char>>, s: usize) -> bool {
    match filter {
        None => true,
        Some(f) => spec_suffix(s).val@ == f || spec_suffix(s).display@ == f,
    }
}

/// The surface of prefix `p` before the root: a yer-final prefix takes its
/// fluid-vowel form before a fluid-vowel root; otherwise the ordinary
/// allomorph is selected.
pub open spec fn spec_prefix_form(rd: RootData, p: usize) -> Seq<char> {
    if rd.takes_fill_vowel && spec_prefix(p).fill is Some {
        spec_prefix(p).fill->0@
    } else {
        spec_select_allomorph(
            spec_prefix(p).val@,
            spec_prefix(p).allomorphs@.len() > 0,
            rd.val@,
            rd.o_takes_ob,
        )
    }
}

/// A fluid-vowel root (сра-, сса-, жр-) never meets a consonant-final prefix:
/// every prefix before it is empty or ends in a vowel (соссать, изосрать,
/// взожрать, …), so no consonant pile-up forms at the prefix–root boundary.
pub proof fn law_fill_vowel_boundary(rd: RootData, p: usize)
    requires
        rd.takes_fill_vowel,
        p < PREFIX_COUNT,
    ensures
        spec_prefix_form(rd, p).len() == 0 || is_vowel(spec_prefix_form(rd, p).last()),
{
    reveal_strlit("");
    reveal_strlit("вы");
    reveal_strlit("до");
    reveal_strlit("за");
    reveal_strlit("на");
    reveal_strlit("пере");
    reveal_strlit("про");
    reveal_strlit("по");
    reveal_strlit("при");
    reveal_strlit("у");
    reveal_strlit("изо");
    reveal_strlit("ото");
    reveal_strlit("во");
    reveal_strlit("взо");
    reveal_strlit("обо");
    reveal_strlit("подо");
    reveal_strlit("разо");
    reveal_strlit("со");
    let pe = spec_prefix(p);
    if pe.fill is None {
        assert(pe.allomorphs@.len() == 0);
    }
}

/// The form of root `rd` with prefix `p`, suffix class `s` and ending `e`.
pub open spec fn spec_form(rd: RootData, p: usize, s: usize, e: usize) -> VerbFormView {
    VerbFormView {
        prefix_display: spec_prefix(p).display@,
        suffix_val: spec_suffix(s).val@,
        ending_val: spec_ending(e).val@,
        form: spec_build_form(
            spec_prefix_form(rd, p),
            rd.val@,
            spec_suffix(s).val@,
            spec_ending(e).val@,
            opt_text(rd.present_stem),
        ),
        attestation: spec_lookup(rd.name@, p, s).0,
        note: opt_text(spec_lookup(rd.name@, p, s).1),
    }
}

/// The forms of prefix `p` and suffix class `s`: one per ending of the class,
/// in ending order.
pub open spec fn suffix_block(rd: RootData, p: usize, s: usize) -> Seq<VerbFormView> {
    spec_endings_for(s).map_values(|e: usize| spec_form(rd, p, s, e))
}

/// The forms of prefix `p` over the first `k` suffix classes of the root.
pub open spec fn prefix_block_upto(
    rd: RootData,
    filter: Option<Seq<char>>,
    p: usize,
    k: nat,
) -> Seq<VerbFormView>
    decreases k,
{
    if k == 0 {
        seq![]
    } else {
        let s = rd.suffix_indices@[k - 1];
        prefix_block_upto(rd, filter, p, (k - 1) as nat) + if filter_admits(filter, s) {
            suffix_block(rd, p, s)
        } else {
            seq![]
        }
    }
}

/// The forms of the first `n` prefixes.
pub open spec fn paradigm_upto(rd: RootData, filter: Option<Seq<char>>, n: nat) -> Seq<
    VerbFormView,
>
    decreases n,
{
    if n == 0 {
        seq![]
    } else {
        paradigm_upto(rd, filter, (n - 1) as nat) + prefix_block_upto(
            rd,
            filter,
            (n - 1) as usize,
            rd.suffix_indices@.len(),
        )
    }
}

/// The paradigm of a root: every prefix × admitted suffix class × ending, in
/// that nesting order.
pub open spec fn spec_paradigm(rd: RootData, filter: Option<Seq<char>>) -> Seq<VerbFormView> {
    paradigm_upto(rd, filter, PREFIX_COUNT as nat)
}

/// The names of the inventory, in order.
pub open spec fn spec_all_names() -> Seq<&'static str> {
    Seq::new(ROOT_COUNT as nat, |i: int| spec_root(i as usize).name)
}

/// Every ending of a suffix class exists and combines with the class.
proof fn lemma_endings_combine(s: usize)
    requires
        s < SUFFIX_COUNT,
    ensures
        forall|j: int|
            0 <= j < spec_endings_for(s).len() ==> #[trigger] spec_endings_for(s)[j] < ENDING_COUNT
                && is_combo(spec_suffix(s).val@, spec_ending(spec_endings_for(s)[j]).val@),
        spec_endings_for(s).len() == 3,
{
    reveal_strlit("а");
    reveal_strlit("ну");
    reveal_strlit("е");
    reveal_strlit("и");
    reveal_strlit("ть");
    reveal_strlit("л");
    reveal_strlit("ёт");
    reveal_strlit("нёт");
    reveal_strlit("ит");
    reveal_with_fuel(endings_upto, 6);
    assert(spec_ending(0).applicable_to@ =~= seq![0usize, 1, 2, 3]);
    assert(spec_ending(1).applicable_to@ =~= seq![0usize, 1, 2, 3]);
    assert(spec_ending(2).applicable_to@ =~= seq![0usize]);
    assert(spec_ending(3).applicable_to@ =~= seq![1usize]);
    assert(spec_ending(4).applicable_to@ =~= seq![2usize, 3]);
    reveal_with_fuel(crate::grammar::find_combo_from, 13);
    if s == 0 {
        assert(spec_endings_for(s) =~= seq![0usize, 1, 2]);
    } else if s == 1 {
        assert(spec_endings_for(s) =~= seq![0usize, 1, 3]);
    } else if s == 2 {
        assert(spec_endings_for(s) =~= seq![0usize, 1, 4]);
    } else {
        assert(spec_endings_for(s) =~= seq![0usize, 1, 4]);
    }
}

/// A root found by name in the inventory is well formed.
pub proof fn lemma_found_root_wf(name: Seq<char>)
    ensures
        spec_root_data(name) matches Some(rd) ==> root_wf(rd),
{
    lemma_find_root(name, 0);
    if let Some(i) = spec_root_index(name) {
        lemma_root_wf(i);
    }
}

/// Explore the full paradigm for a given root.
///
/// Returns all morphological combinations (prefix × suffix × ending) with
/// attestation levels and meaning notes. If `suffix_filter` is `Some`, only
/// combinations whose suffix value or display form equals it are returned.
///
/// Unlisted combinations default to `Attestation::Possible` — unattested ≠
/// impossible. An unknown root is an error listing the available roots.
pub fn explore(root_name: &str, suffix_filter: Option<&str>) -> (r: Result<
    ParadigmResult,
    ExploreError,
>)
    ensures
        match spec_root_data(root_name@) {
            None => r matches Err(ExploreError::RootNotFound { root, available }) && root@
                == root_name@ && available@ == spec_all_names(),
            Some(rd) => r matches Ok(res) && res.root_name == rd.name && res.root_gloss_ru
                == rd.gloss_ru && res.root_domain == rd.domain && res.root_productivity
                == rd.productivity && opt_string_text(res.suffix_filter) == opt_text(suffix_filter)
                && forms_view(res.forms@) == spec_paradigm(rd, opt_text(suffix_filter)),
        },
{
    let rd = match root_data(root_name) {
        Some(rd) => rd,
        None => {
            let roots = all_roots();
            let mut available: Vec<&'static str> = Vec::new();
            let mut i: usize = 0;
            while i < roots.len()
                invariant
                    i <= roots@.len(),
                    roots@.len() == ROOT_COUNT,
                    forall|j: int| 0 <= j < ROOT_COUNT ==> roots@[j] == spec_root(j as usize),
                    available@ == spec_all_names().take(i as int),
                decreases roots@.len() - i,
            {
                available.push(roots[i].name);
                assert(available@ =~= spec_all_names().take((i + 1) as int));
                i = i + 1;
            }
            assert(available@ =~= spec_all_names());
            return Err(ExploreError::RootNotFound { root: owned(root_name), available });
        },
    };
    proof {
        lemma_found_root_wf(root_name@);
    }
    let ghost filter = opt_text(suffix_filter);
    let mut forms: Vec<VerbForm> = Vec::new();

    // Iterate over all prefix × suffix × ending combinations
    let mut p: usize = 0;
    while p < PREFIX_COUNT
        invariant
            p <= PREFIX_COUNT,
            root_wf(rd),
            filter == opt_text(suffix_filter),
            forms_view(forms@) == paradigm_upto(rd, filter, p as nat),
        decreases PREFIX_COUNT - p,
    {
        let pe = prefix_entry(p);
        // A yer-final prefix before a fluid-vowel root takes its fluid-vowel
        // form; otherwise the standard allomorph selection applies.
        let prefix_form: &str = if rd.takes_fill_vowel && pe.fill.is_some() {
            pe.fill.unwrap()
        } else {
            select_prefix_allomorph(pe.val, pe.allomorphs, rd.val, rd.o_takes_ob)
        };
        assert(prefix_form@ == spec_prefix_form(rd, p));
        let mut k: usize = 0;
        while k < rd.suffix_indices.len()
            invariant
                p < PREFIX_COUNT,
                k <= rd.suffix_indices@.len(),
                root_wf(rd),
                filter == opt_text(suffix_filter),
                prefix_form@ == spec_prefix_form(rd, p),
                pe == spec_prefix(p),
                forms_view(forms@) == paradigm_upto(rd, filter, p as nat) + prefix_block_upto(
                    rd,
                    filter,
                    p,
                    k as nat,
                ),
            decreases rd.suffix_indices@.len() - k,
        {
            let s = rd.suffix_indices[k];
            assert(rd.suffix_indices@[k as int] < SUFFIX_COUNT);
            let se = suffix_entry(s);
            // Apply suffix filter if provided: accept the value or the display form
            let admitted = match suffix_filter {
                Some(f) => str_eq(se.val, f) || str_eq(se.display, f),
                None => true,
            };
            let ghost before = forms_view(forms@);
            if admitted {
                let end_indices = endings_for_suffix(s);
                proof {
                    lemma_endings_combine(s);
                }
                let mut j: usize = 0;
                while j < end_indices.len()
                    invariant
                        p < PREFIX_COUNT,
                        s < SUFFIX_COUNT,
                        j <= end_indices@.len(),
                        end_indices@ == spec_endings_for(s),
                        se == spec_suffix(s),
                        forall|t: int|
                            0 <= t < spec_endings_for(s).len() ==> #[trigger] spec_endings_for(
                                s,
                            )[t] < ENDING_COUNT && is_combo(
                                spec_suffix(s).val@,
                                spec_ending(spec_endings_for(s)[t]).val@,
                            ),
                        prefix_form@ == spec_prefix_form(rd, p),
                        pe == spec_prefix(p),
                        forms_view(forms@) == before + suffix_block(rd, p, s).take(j as int),
                    decreases end_indices@.len() - j,
                {
                    let e = end_indices[j];
                    assert(e == spec_endings_for(s)[j as int]);
                    let ee = ending_entry(e);
                    // Look up attestation and note
                    let (att, note) = lookup_attestation(rd.name, p, s);
                    // Build the full word form with present-stem allomorphy if applicable
                    let form = build_form(prefix_form, rd.val, se.val, ee.val, rd.present_stem);
                    let ghost old_forms = forms@;
                    forms.push(
                        VerbForm {
                            prefix_display: pe.display,
                            suffix_val: se.val,
                            ending_val: ee.val,
                            form,
                            attestation: att,
                            note,
                        },
                    );
                    assert(forms@.last()@ == spec_form(rd, p, s, e));
                    assert(forms_view(forms@) =~= forms_view(old_forms).push(forms@.last()@));
                    assert(suffix_block(rd, p, s).take((j + 1) as int) =~= suffix_block(
                        rd,
                        p,
                        s,
                    ).take(j as int).push(spec_form(rd, p, s, e)));
                    assert(forms_view(forms@) =~= before + suffix_block(rd, p, s).take(
                        (j + 1) as int,
                    ));
                    j = j + 1;
                }
                assert(suffix_block(rd, p, s).take(end_indices@.len() as int) =~= suffix_block(
                    rd,
                    p,
                    s,
                ));
            }
            assert(forms_view(forms@) =~= paradigm_upto(rd, filter, p as nat) + prefix_block_upto(
                rd,
                filter,
                p,
                (k + 1) as nat,
            ));
            k = k + 1;
        }
        assert(forms_view(forms@) =~= paradigm_upto(rd, filter, (p + 1) as nat));
        p = p + 1;
    }
    let kept_filter = match suffix_filter {
        Some(f) => Some(owned(f)),
        None => None,
    };
    Ok(
        ParadigmResult {
            root_name: rd.name,
            root_gloss_ru: rd.gloss_ru,
            root_domain: rd.domain,
            root_productivity: rd.productivity,
            suffix_filter: kept_filter,
            forms,
        },
    )
}


// ---------------------------------------------------------------------------
// Laws of the paradigm
// ---------------------------------------------------------------------------

/// Without a filter, a prefix contributes three forms per suffix class.
proof fn lemma_prefix_block_len(rd: RootData, p: usize, k: nat)
    requires
        root_wf(rd),
        k <= rd.suffix_indices@.len(),
    ensures
        prefix_block_upto(rd, None, p, k).len() == 3 * k,
    decreases k,
{
    if k > 0 {
        lemma_prefix_block_len(rd, p, (k - 1) as nat);
        lemma_endings_combine(rd.suffix_indices@[k - 1]);
    }
}

/// Without a filter, the first `n` prefixes contribute `n · 3k` forms.
proof fn lemma_paradigm_len(rd: RootData, n: nat)
    requires
        root_wf(rd),
    ensures
        paradigm_upto(rd, None, n).len() == n * (3 * rd.suffix_indices@.len()),
    decreases n,
{
    if n > 0 {
        lemma_paradigm_len(rd, (n - 1) as nat);
        lemma_prefix_block_len(rd, (n - 1) as usize, rd.suffix_indices@.len());
        let m: nat = 3 * rd.suffix_indices@.len();
        let n1: nat = (n - 1) as nat;
        assert(paradigm_upto(rd, None, n).len() == paradigm_upto(rd, None, n1).len() + m);
        assert(n1 * m + m == n * m) by (nonlinear_arith)
            requires
                n1 + 1 == n,
        ;
    } else {
        let m: nat = 3 * rd.suffix_indices@.len();
        assert(0 * m == 0) by (nonlinear_arith);
    }
}

/// The full paradigm of a root has one form per prefix × suffix class ×
/// ending of the class: every class has three endings, so a root with `k`
/// suffix classes has `18 · 3 · k` forms, and a noun-only root has none.
pub proof fn law_paradigm_size(rd: RootData)
    requires
        root_wf(rd),
    ensures
        spec_paradigm(rd, None).len() == PREFIX_COUNT * (3 * rd.suffix_indices@.len()),
        rd.suffix_indices@.len() == 0 ==> spec_paradigm(rd, None).len() == 0,
{
    lemma_paradigm_len(rd, PREFIX_COUNT as nat);
}

/// Whether a form carries the value of a suffix class the filter admits.
pub open spec fn admitted_form(filter: Option<Seq<char>>, v: VerbFormView) -> bool {
    exists|s: usize|
        s < SUFFIX_COUNT && v.suffix_val == #[trigger] spec_suffix(s).val@ && filter_admits(
            filter,
            s,
        )
}

/// Whether a form carries the value of a known suffix class and of a known
/// ending.
pub open spec fn known_form(v: VerbFormView) -> bool {
    is_suffix_val(v.suffix_val) && is_ending_val(v.ending_val)
}

/// The forms of a prefix belong to admitted classes and carry known values.
proof fn lemma_prefix_block_admitted(rd: RootData, filter: Option<Seq<char>>, p: usize, k: nat)
    requires
        root_wf(rd),
        k <= rd.suffix_indices@.len(),
    ensures
        forall|j: int|
            0 <= j < prefix_block_upto(rd, filter, p, k).len() ==> admitted_form(
                filter,
                #[trigger] prefix_block_upto(rd, filter, p, k)[j],
            ) && known_form(prefix_block_upto(rd, filter, p, k)[j]),
    decreases k,
{
    if k > 0 {
        lemma_prefix_block_admitted(rd, filter, p, (k - 1) as nat);
        let s = rd.suffix_indices@[k - 1];
        let prev = prefix_block_upto(rd, filter, p, (k - 1) as nat);
        let block = if filter_admits(filter, s) {
            suffix_block(rd, p, s)
        } else {
            seq![]
        };
        if filter_admits(filter, s) {
            lemma_endings_combine(s);
        }
        assert forall|j: int|
            0 <= j < prefix_block_upto(rd, filter, p, k).len() implies admitted_form(
            filter,
            #[trigger] prefix_block_upto(rd, filter, p, k)[j],
        ) && known_form(prefix_block_upto(rd, filter, p, k)[j]) by {
            if j >= prev.len() {
                assert(prefix_block_upto(rd, filter, p, k)[j] == block[j - prev.len()]);
                assert(block[j - prev.len()].suffix_val == spec_suffix(s).val@);
                let e = spec_endings_for(s)[j - prev.len()];
                assert(block[j - prev.len()].ending_val == spec_ending(e).val@);
                assert(is_ending_val(spec_ending(e).val@));
            } else {
                assert(prefix_block_upto(rd, filter, p, k)[j] == prev[j]);
            }
        }
    }
}

/// The forms of the first `n` prefixes belong to admitted classes and carry
/// known values.
proof fn lemma_paradigm_admitted(rd: RootData, filter: Option<Seq<char>>, n: nat)
    requires
        root_wf(rd),
    ensures
        forall|j: int|
            0 <= j < paradigm_upto(rd, filter, n).len() ==> admitted_form(
                filter,
                #[trigger] paradigm_upto(rd, filter, n)[j],
            ) && known_form(paradigm_upto(rd, filter, n)[j]),
    decreases n,
{
    if n > 0 {
        lemma_paradigm_admitted(rd, filter, (n - 1) as nat);
        let prev = paradigm_upto(rd, filter, (n - 1) as nat);
        let block = prefix_block_upto(rd, filter, (n - 1) as usize, rd.suffix_indices@.len());
        lemma_prefix_block_admitted(rd, filter, (n - 1) as usize, rd.suffix_indices@.len());
        assert forall|j: int|
            0 <= j < paradigm_upto(rd, filter, n).len() implies admitted_form(
            filter,
            #[trigger] paradigm_upto(rd, filter, n)[j],
        ) && known_form(paradigm_upto(rd, filter, n)[j]) by {
            if j >= prev.len() {
                assert(paradigm_upto(rd, filter, n)[j] == block[j - prev.len()]);
            } else {
                assert(paradigm_upto(rd, filter, n)[j] == prev[j]);
            }
        }
    }
}

/// Every form of a filtered paradigm belongs to a suffix class whose value
/// or display form is the filter, and carries a known ending.
pub proof fn law_filtered_forms_admitted(rd: RootData, filter: Option<Seq<char>>, j: int)
    requires
        root_wf(rd),
        0 <= j < spec_paradigm(rd, filter).len(),
    ensures
        admitted_form(filter, spec_paradigm(rd, filter)[j]),
        known_form(spec_paradigm(rd, filter)[j]),
{
    lemma_paradigm_admitted(rd, filter, PREFIX_COUNT as nat);
}

/// Every form of a paradigm carries a known suffix value and a known ending.
pub proof fn lemma_paradigm_known(rd: RootData, filter: Option<Seq<char>>)
    requires
        root_wf(rd),
    ensures
        forall|j: int|
            0 <= j < spec_paradigm(rd, filter).len() ==> #[trigger] known_form(
                spec_paradigm(rd, filter)[j],
            ),
{
    lemma_paradigm_admitted(rd, filter, PREFIX_COUNT as nat);
}

/// When every table entry of a root is Possible, so is every form built so
/// far.
proof fn lemma_possible_upto(rd: RootData, filter: Option<Seq<char>>, p: usize, k: nat, n: nat)
    requires
        k <= rd.suffix_indices@.len(),
        forall|q: usize, t: usize| #[trigger] spec_lookup(rd.name@, q, t).0 == Attestation::Possible,
    ensures
        forall|j: int|
            0 <= j < prefix_block_upto(rd, filter, p, k).len() ==> (#[trigger] prefix_block_upto(
                rd,
                filter,
                p,
                k,
            )[j]).attestation == Attestation::Possible,
        forall|j: int|
            0 <= j < paradigm_upto(rd, filter, n).len() ==> (#[trigger] paradigm_upto(
                rd,
                filter,
                n,
            )[j]).attestation == Attestation::Possible,
    decreases n, k,
{
    if k > 0 {
        lemma_possible_upto(rd, filter, p, (k - 1) as nat, 0);
        let t = rd.suffix_indices@[k - 1];
        let prev = prefix_block_upto(rd, filter, p, (k - 1) as nat);
        let block = if filter_admits(filter, t) {
            suffix_block(rd, p, t)
        } else {
            seq![]
        };
        assert(spec_lookup(rd.name@, p, t).0 == Attestation::Possible);
        assert forall|j: int| 0 <= j < prefix_block_upto(rd, filter, p, k).len() implies (
        #[trigger] prefix_block_upto(rd, filter, p, k)[j]).attestation == Attestation::Possible by {
            if j >= prev.len() {
                assert(prefix_block_upto(rd, filter, p, k)[j] == block[j - prev.len()]);
            } else {
                assert(prefix_block_upto(rd, filter, p, k)[j] == prev[j]);
            }
        }
    }
    if n > 0 {
        lemma_possible_upto(rd, filter, p, k, (n - 1) as nat);
        lemma_possible_upto(rd, filter, (n - 1) as usize, rd.suffix_indices@.len(), 0);
        let prev = paradigm_upto(rd, filter, (n - 1) as nat);
        let block = prefix_block_upto(rd, filter, (n - 1) as usize, rd.suffix_indices@.len());
        assert forall|j: int| 0 <= j < paradigm_upto(rd, filter, n).len() implies (
        #[trigger] paradigm_upto(rd, filter, n)[j]).attestation == Attestation::Possible by {
            if j >= prev.len() {
                assert(paradigm_upto(rd, filter, n)[j] == block[j - prev.len()]);
            } else {
                assert(paradigm_upto(rd, filter, n)[j] == prev[j]);
            }
        }
    }
}

/// A root of productivity class E (possible, not attested) shows no Common or
/// Rare form: every form of its paradigm is Possible.
pub proof fn law_class_e_forms_possible(name: Seq<char>, filter: Option<Seq<char>>, j: int)
    requires
        spec_root_data(name) matches Some(rd) && rd.productivity == ProductivityClass::E,
        0 <= j < spec_paradigm(spec_root_data(name)->0, filter).len(),
    ensures
        spec_paradigm(spec_root_data(name)->0, filter)[j].attestation == Attestation::Possible,
{
    let rd = spec_root_data(name)->0;
    lemma_find_root(name, 0);
    let i = spec_root_index(name)->0;
    assert(rd.name@ == name);
    assert forall|q: usize, t: usize| #[trigger] spec_lookup(rd.name@, q, t).0
        == Attestation::Possible by {
        lemma_class_e_possible(i, q, t);
    }
    lemma_possible_upto(rd, filter, 0, 0, PREFIX_COUNT as nat);
}

/// Filters that admit the same classes give the same forms.
/// The number of suffix classes among the first `k` of the root's that the
/// filter admits.
pub open spec fn kept_upto(rd: RootData, filter: Option<Seq<char>>, k: nat) -> nat
    decreases k,
{
    if k == 0 {
        0
    } else {
        kept_upto(rd, filter, (k - 1) as nat) + if filter_admits(
            filter,
            rd.suffix_indices@[k - 1],
        ) {
            1nat
        } else {
            0nat
        }
    }
}

/// The number of the root's suffix classes the filter admits.
pub open spec fn kept_classes(rd: RootData, filter: Option<Seq<char>>) -> nat {
    kept_upto(rd, filter, rd.suffix_indices@.len())
}

/// A prefix contributes three forms per admitted class.
proof fn lemma_filtered_block_len(rd: RootData, filter: Option<Seq<char>>, p: usize, k: nat)
    requires
        root_wf(rd),
        k <= rd.suffix_indices@.len(),
    ensures
        prefix_block_upto(rd, filter, p, k).len() == 3 * kept_upto(rd, filter, k),
    decreases k,
{
    if k > 0 {
        lemma_filtered_block_len(rd, filter, p, (k - 1) as nat);
        lemma_endings_combine(rd.suffix_indices@[k - 1]);
    }
}

/// The first `n` prefixes contribute `n · 3 · kept` forms.
proof fn lemma_filtered_len(rd: RootData, filter: Option<Seq<char>>, n: nat)
    requires
        root_wf(rd),
    ensures
        paradigm_upto(rd, filter, n).len() == n * (3 * kept_classes(rd, filter)),
    decreases n,
{
    let m: nat = 3 * kept_classes(rd, filter);
    if n > 0 {
        lemma_filtered_len(rd, filter, (n - 1) as nat);
        lemma_filtered_block_len(rd, filter, (n - 1) as usize, rd.suffix_indices@.len());
        let n1: nat = (n - 1) as nat;
        assert(n1 * m + m == n * m) by (nonlinear_arith)
            requires
                n1 + 1 == n,
        ;
    } else {
        assert(0 * m == 0) by (nonlinear_arith);
    }
}

/// A filtered paradigm has 18 prefixes × 3 endings of each admitted class:
/// `18 · 3 · kept` forms, none exactly when the filter admits none of the
/// root's classes.
pub proof fn law_filtered_paradigm_size(rd: RootData, filter: Option<Seq<char>>)
    requires
        root_wf(rd),
    ensures
        spec_paradigm(rd, filter).len() == PREFIX_COUNT * (3 * kept_classes(rd, filter)),
        spec_paradigm(rd, filter).len() == 0 <==> kept_classes(rd, filter) == 0,
{
    lemma_filtered_len(rd, filter, PREFIX_COUNT as nat);
    let m: nat = 3 * kept_classes(rd, filter);
    assert(m > 0 ==> PREFIX_COUNT * m > 0) by (nonlinear_arith);
}

/// Whether a form passes filter `f` as `explore` applies it: its suffix value,
/// or the display form of its class, is `f`.
pub open spec fn passes(f: Seq<char>) -> spec_fn(VerbFormView) -> bool {
    |v: VerbFormView| v.suffix_val == f || spec_suffix(spec_suffix_index_of(v.suffix_val)).display@
        == f
}

/// Filtering a sequence all of whose elements pass keeps it; filtering one
/// none of whose elements pass empties it.
proof fn lemma_filter_uniform<A>(xs: Seq<A>, pred: spec_fn(A) -> bool, keep: bool)
    requires
        forall|i: int| 0 <= i < xs.len() ==> pred(#[trigger] xs[i]) == keep,
    ensures
        xs.filter(pred) == (if keep {
            xs
        } else {
            Seq::<A>::empty()
        }),
    decreases xs.len(),
{
    reveal(Seq::filter);
    if xs.len() > 0 {
        let init = xs.drop_last();
        assert forall|i: int| 0 <= i < init.len() implies pred(#[trigger] init[i]) == keep by {
            assert(init[i] == xs[i]);
        }
        lemma_filter_uniform(init, pred, keep);
        assert(pred(xs[xs.len() - 1]) == keep);
        if keep {
            assert(init.push(xs.last()) =~= xs);
        }
    }
}

proof fn lemma_filtered_upto(rd: RootData, f: Seq<char>, p: usize, k: nat, n: nat)
    requires
        root_wf(rd),
        k <= rd.suffix_indices@.len(),
    ensures
        prefix_block_upto(rd, Some(f), p, k) == prefix_block_upto(rd, None, p, k).filter(passes(f)),
        paradigm_upto(rd, Some(f), n) == paradigm_upto(rd, None, n).filter(passes(f)),
    decreases n, k,
{
    if k > 0 {
        lemma_filtered_upto(rd, f, p, (k - 1) as nat, 0);
        let t = rd.suffix_indices@[k - 1];
        assert(t < SUFFIX_COUNT);
        law_suffix_round_trip(t);
        let block = suffix_block(rd, p, t);
        assert forall|i: int| 0 <= i < block.len() implies passes(f)(#[trigger] block[i])
            == filter_admits(Some(f), t) by {
            assert(block[i].suffix_val == spec_suffix(t).val@);
        }
        lemma_filter_uniform(block, passes(f), filter_admits(Some(f), t));
        reveal(Seq::filter);
        assert(Seq::<VerbFormView>::empty().filter(passes(f)) =~= Seq::<VerbFormView>::empty());
        Seq::filter_distributes_over_add(
            prefix_block_upto(rd, None, p, (k - 1) as nat),
            block,
            passes(f),
        );
    } else {
        reveal(Seq::filter);
    }
    if n > 0 {
        lemma_filtered_upto(rd, f, p, k, (n - 1) as nat);
        lemma_filtered_upto(rd, f, (n - 1) as usize, rd.suffix_indices@.len(), 0);
        let a = paradigm_upto(rd, None, (n - 1) as nat);
        let b = prefix_block_upto(rd, None, (n - 1) as usize, rd.suffix_indices@.len());
        Seq::filter_distributes_over_add(a, b, passes(f));
    } else {
        reveal(Seq::filter);
    }
}

/// A filtered paradigm is the full paradigm filtered, in the same order: the
/// forms whose suffix value, or whose class's display form, is the filter.
pub proof fn law_filtered_is_filter_of_full(rd: RootData, f: Seq<char>)
    requires
        root_wf(rd),
    ensures
        spec_paradigm(rd, Some(f)) == spec_paradigm(rd, None).filter(passes(f)),
{
    lemma_filtered_upto(rd, f, 0, 0, PREFIX_COUNT as nat);
}

/// Whether a form carries the table entry of its root for its prefix (found
/// by display name) and its suffix class (found by value).
pub open spec fn from_table(rd: RootData, v: VerbFormView) -> bool {
    exists|p: usize|
        p < PREFIX_COUNT && #[trigger] spec_prefix(p).display@ == v.prefix_display && v.attestation
            == spec_lookup(rd.name@, p, spec_suffix_index_of(v.suffix_val)).0 && v.note == opt_text(
            spec_lookup(rd.name@, p, spec_suffix_index_of(v.suffix_val)).1,
        )
}

proof fn lemma_from_table_upto(rd: RootData, filter: Option<Seq<char>>, p: usize, k: nat, n: nat)
    requires
        root_wf(rd),
        k <= rd.suffix_indices@.len(),
        p < PREFIX_COUNT,
        n <= PREFIX_COUNT,
    ensures
        forall|j: int|
            0 <= j < prefix_block_upto(rd, filter, p, k).len() ==> from_table(
                rd,
                #[trigger] prefix_block_upto(rd, filter, p, k)[j],
            ),
        forall|j: int|
            0 <= j < paradigm_upto(rd, filter, n).len() ==> from_table(
                rd,
                #[trigger] paradigm_upto(rd, filter, n)[j],
            ),
    decreases n, k,
{
    if k > 0 {
        lemma_from_table_upto(rd, filter, p, (k - 1) as nat, 0);
        let t = rd.suffix_indices@[k - 1];
        assert(t < SUFFIX_COUNT);
        law_suffix_round_trip(t);
        let prev = prefix_block_upto(rd, filter, p, (k - 1) as nat);
        let block = if filter_admits(filter, t) {
            suffix_block(rd, p, t)
        } else {
            seq![]
        };
        assert forall|j: int| 0 <= j < prefix_block_upto(rd, filter, p, k).len() implies from_table(
            rd,
            #[trigger] prefix_block_upto(rd, filter, p, k)[j],
        ) by {
            if j >= prev.len() {
                let v = block[j - prev.len()];
                assert(prefix_block_upto(rd, filter, p, k)[j] == v);
                assert(v.suffix_val == spec_suffix(t).val@);
                assert(spec_prefix(p).display@ == v.prefix_display);
            } else {
                assert(prefix_block_upto(rd, filter, p, k)[j] == prev[j]);
            }
        }
    }
    if n > 0 {
        lemma_from_table_upto(rd, filter, 0, 0, (n - 1) as nat);
        lemma_from_table_upto(rd, filter, (n - 1) as usize, rd.suffix_indices@.len(), 0);
        let prev = paradigm_upto(rd, filter, (n - 1) as nat);
        let block = prefix_block_upto(rd, filter, (n - 1) as usize, rd.suffix_indices@.len());
        assert forall|j: int| 0 <= j < paradigm_upto(rd, filter, n).len() implies from_table(
            rd,
            #[trigger] paradigm_upto(rd, filter, n)[j],
        ) by {
            if j >= prev.len() {
                assert(paradigm_upto(rd, filter, n)[j] == block[j - prev.len()]);
            } else {
                assert(paradigm_upto(rd, filter, n)[j] == prev[j]);
            }
        }
    }
}

/// Every form of a paradigm carries the attestation and note that the root's
/// table gives its prefix and suffix class, the prefix found by its display
/// name and the class by its value (the display names are distinct, see
/// `law_prefix_displays_distinct`): forms of one (prefix, class) pair share
/// them, and unlisted pairs are (Possible, no note).
pub proof fn law_forms_from_table(rd: RootData, filter: Option<Seq<char>>, j: int)
    requires
        root_wf(rd),
        0 <= j < spec_paradigm(rd, filter).len(),
    ensures
        from_table(rd, spec_paradigm(rd, filter)[j]),
{
    lemma_from_table_upto(rd, filter, 0, 0, PREFIX_COUNT as nat);
}

proof fn lemma_filters_agree_upto(
    rd: RootData,
    f1: Option<Seq<char>>,
    f2: Option<Seq<char>>,
    p: usize,
    k: nat,
    n: nat,
)
    requires
        k <= rd.suffix_indices@.len(),
        forall|s: usize| s < SUFFIX_COUNT ==> filter_admits(f1, s) == filter_admits(f2, s),
        root_wf(rd),
    ensures
        prefix_block_upto(rd, f1, p, k) == prefix_block_upto(rd, f2, p, k),
        paradigm_upto(rd, f1, n) == paradigm_upto(rd, f2, n),
    decreases n, k,
{
    if k > 0 {
        lemma_filters_agree_upto(rd, f1, f2, p, (k - 1) as nat, 0);
        assert(rd.suffix_indices@[k - 1] < SUFFIX_COUNT);
    }
    if n > 0 {
        lemma_filters_agree_upto(rd, f1, f2, (n - 1) as usize, rd.suffix_indices@.len(), (n - 1) as nat);
    }
}

/// A suffix filter may name a class by its value or by its display form:
/// both give the same paradigm (`--suffix ну` and `--suffix -ну-` agree).
pub proof fn law_filter_value_or_display(rd: RootData, s: usize)
    requires
        root_wf(rd),
        s < SUFFIX_COUNT,
    ensures
        spec_paradigm(rd, Some(spec_suffix(s).val@)) == spec_paradigm(
            rd,
            Some(spec_suffix(s).display@),
        ),
{
    reveal_strlit("а");
    reveal_strlit("ну");
    reveal_strlit("е");
    reveal_strlit("и");
    reveal_strlit("-а-");
    reveal_strlit("-ну-");
    reveal_strlit("-е-");
    reveal_strlit("-и-");
    assert forall|t: usize| t < SUFFIX_COUNT implies filter_admits(
        Some(spec_suffix(s).val@),
        t,
    ) == filter_admits(Some(spec_suffix(s).display@), t) by {
        assert("а"@[0] != "е"@[0]);
        assert("а"@[0] != "и"@[0]);
        assert("е"@[0] != "и"@[0]);
        assert("-а-"@[1] != "-е-"@[1]);
        assert("-а-"@[1] != "-и-"@[1]);
        assert("-е-"@[1] != "-и-"@[1]);
        assert("-ну-"@.len() != "-а-"@.len());
    }
    lemma_filters_agree_upto(
        rd,
        Some(spec_suffix(s).val@),
        Some(spec_suffix(s).display@),
        0,
        0,
        PREFIX_COUNT as nat,
    );
}

// ---------------------------------------------------------------------------
// Roots by mode
// ---------------------------------------------------------------------------

/// The inventory positions among the first `n` whose root the mode shows.
pub open spec fn mode_pool_upto(mode: Mode, n: nat) -> Seq<usize>
    decreases n,
{
    if n == 0 {
        seq![]
    } else {
        let prev = mode_pool_upto(mode, (n - 1) as nat);
        if spec_includes(mode, spec_root((n - 1) as usize)) {
            prev.push((n - 1) as usize)
        } else {
            prev
        }
    }
}

/// The inventory positions of the roots a mode shows, in inventory order.
pub open spec fn spec_mode_pool(mode: Mode) -> Seq<usize> {
    mode_pool_upto(mode, ROOT_COUNT as nat)
}

/// The pool holds positions below `n` whose roots the mode shows; it is never
/// empty once it covers еб- (position 0), which every mode shows.
pub proof fn lemma_mode_pool(mode: Mode, n: nat)
    ensures
        forall|k: int|
            0 <= k < mode_pool_upto(mode, n).len() ==> #[trigger] mode_pool_upto(mode, n)[k] < n
                && spec_includes(mode, spec_root(mode_pool_upto(mode, n)[k])),
        n >= 1 ==> mode_pool_upto(mode, n).len() >= 1,
    decreases n,
{
    if n > 0 {
        lemma_mode_pool(mode, (n - 1) as nat);
    }
}

/// The pool over the first `n` positions holds exactly the shown roots among
/// them, in increasing order.
proof fn lemma_mode_pool_members(mode: Mode, n: nat)
    requires
        n <= ROOT_COUNT,
    ensures
        forall|i: usize|
            i < n ==> (mode_pool_upto(mode, n).contains(i) <==> spec_includes(
                mode,
                spec_root(i),
            )),
        forall|a: int, b: int|
            0 <= a < b < mode_pool_upto(mode, n).len() ==> mode_pool_upto(mode, n)[a]
                < mode_pool_upto(mode, n)[b],
    decreases n,
{
    if n > 0 {
        lemma_mode_pool_members(mode, (n - 1) as nat);
        lemma_mode_pool(mode, (n - 1) as nat);
        let prev = mode_pool_upto(mode, (n - 1) as nat);
        assert forall|i: usize| i < n implies (mode_pool_upto(mode, n).contains(i)
            <==> spec_includes(mode, spec_root(i))) by {
            if spec_includes(mode, spec_root((n - 1) as usize)) {
                if i < n - 1 && prev.push((n - 1) as usize).contains(i) {
                    let k = choose|k: int|
                        0 <= k < prev.len() + 1 && #[trigger] prev.push((n - 1) as usize)[k] == i;
                    assert(prev[k] == i);
                }
                if i < n - 1 && prev.contains(i) {
                    let k = choose|k: int| 0 <= k < prev.len() && #[trigger] prev[k] == i;
                    assert(prev.push((n - 1) as usize)[k] == i);
                }
                if i == n - 1 {
                    assert(prev.push((n - 1) as usize)[prev.len() as int] == i);
                }
            } else {
                if i == n - 1 && prev.contains(i) {
                    let k = choose|k: int| 0 <= k < prev.len() && #[trigger] prev[k] == i;
                    assert(prev[k] < n - 1);
                }
            }
        }
    }
}

/// A mode's pool holds exactly the inventory positions of the roots the mode
/// shows (classic: the nuclear domain and the excretory roots of productivity
/// A or B; full: every root), each once, in inventory order.
pub proof fn law_mode_pool_exact(mode: Mode)
    ensures
        forall|i: usize|
            i < ROOT_COUNT ==> (spec_mode_pool(mode).contains(i) <==> spec_includes(
                mode,
                spec_root(i),
            )),
        forall|a: int, b: int|
            0 <= a < b < spec_mode_pool(mode).len() ==> spec_mode_pool(mode)[a]
                < spec_mode_pool(mode)[b],
        forall|k: int|
            0 <= k < spec_mode_pool(mode).len() ==> #[trigger] spec_mode_pool(mode)[k] < ROOT_COUNT,
{
    lemma_mode_pool_members(mode, ROOT_COUNT as nat);
    lemma_mode_pool(mode, ROOT_COUNT as nat);
}

/// The full mode's pool over the first `n` positions is `0..n`.
proof fn lemma_full_pool(n: nat)
    ensures
        mode_pool_upto(Mode::Full, n) == Seq::new(n, |i: int| i as usize),
    decreases n,
{
    if n > 0 {
        lemma_full_pool((n - 1) as nat);
        assert(mode_pool_upto(Mode::Full, n) =~= Seq::new(n, |i: int| i as usize));
    }
}

/// The full mode shows every root of the inventory, in inventory order.
pub proof fn law_full_mode_shows_all()
    ensures
        spec_mode_pool(Mode::Full) == Seq::new(ROOT_COUNT as nat, |i: int| i as usize),
{
    lemma_full_pool(ROOT_COUNT as nat);
}

/// The first `n` roots of the inventory, in order.
pub open spec fn inventory_upto(n: nat) -> Seq<RootData> {
    Seq::new(n, |i: int| spec_root(i as usize))
}

/// The roots a mode shows among the first `n` are the first `n` roots
/// filtered by the mode.
proof fn lemma_pool_is_filter(mode: Mode, n: nat)
    ensures
        mode_pool_upto(mode, n).map_values(|i: usize| spec_root(i)) == inventory_upto(n).filter(
            |rd: RootData| spec_includes(mode, rd),
        ),
    decreases n,
{
    reveal(Seq::filter);
    if n > 0 {
        lemma_pool_is_filter(mode, (n - 1) as nat);
        assert(inventory_upto(n).drop_last() =~= inventory_upto((n - 1) as nat));
        let prev = mode_pool_upto(mode, (n - 1) as nat);
        assert(prev.push((n - 1) as usize).map_values(|i: usize| spec_root(i)) =~= prev.map_values(
            |i: usize| spec_root(i),
        ).push(spec_root((n - 1) as usize)));
    }
}

/// `list_roots(mode)` is the inventory filtered by `mode.includes`, by name:
/// the shown roots, each once, in inventory order.
pub proof fn law_list_roots_filters_inventory(mode: Mode)
    ensures
        spec_mode_pool(mode).map_values(|i: usize| spec_root(i).name) == inventory_upto(
            ROOT_COUNT as nat,
        ).filter(|rd: RootData| spec_includes(mode, rd)).map_values(|rd: RootData| rd.name),
{
    lemma_pool_is_filter(mode, ROOT_COUNT as nat);
    let pool = spec_mode_pool(mode);
    assert(pool.map_values(|i: usize| spec_root(i).name) =~= pool.map_values(
        |i: usize| spec_root(i),
    ).map_values(|rd: RootData| rd.name));
}

/// Every root the classic mode lists, the full mode lists too.
pub proof fn law_classic_within_full(name: &'static str)
    requires
        spec_mode_pool(Mode::Classic).map_values(|i: usize| spec_root(i).name).contains(name),
    ensures
        spec_mode_pool(Mode::Full).map_values(|i: usize| spec_root(i).name).contains(name),
{
    let classic = spec_mode_pool(Mode::Classic);
    let classic_names = classic.map_values(|i: usize| spec_root(i).name);
    let k = choose|k: int| 0 <= k < classic_names.len() && #[trigger] classic_names[k] == name;
    law_mode_pool_exact(Mode::Classic);
    law_full_mode_shows_all();
    let i = classic[k];
    let full = spec_mode_pool(Mode::Full);
    let full_names = full.map_values(|j: usize| spec_root(j).name);
    assert(full[i as int] == i);
    assert(full_names[i as int] == name);
}

/// The roots a mode shows, in inventory order.
fn mode_roots(mode: Mode) -> (r: Vec<RootData>)
    ensures
        r@ == spec_mode_pool(mode).map_values(|i: usize| spec_root(i)),
{
    let mut r: Vec<RootData> = Vec::new();
    let mut i: usize = 0;
    while i < ROOT_COUNT
        invariant
            i <= ROOT_COUNT,
            r@ == mode_pool_upto(mode, i as nat).map_values(|k: usize| spec_root(k)),
        decreases ROOT_COUNT - i,
    {
        let rd = root_at(i);
        if mode.includes(&rd) {
            r.push(rd);
        }
        assert(r@ =~= mode_pool_upto(mode, (i + 1) as nat).map_values(|k: usize| spec_root(k)));
        i = i + 1;
    }
    r
}

/// List available roots filtered by mode.
pub fn list_roots(mode: Mode) -> (r: Vec<&'static str>)
    ensures
        r@ == spec_mode_pool(mode).map_values(|i: usize| spec_root(i).name),
{
    let roots = mode_roots(mode);
    let mut r: Vec<&'static str> = Vec::new();
    let mut i: usize = 0;
    while i < roots.len()
        invariant
            i <= roots@.len(),
            roots@ == spec_mode_pool(mode).map_values(|k: usize| spec_root(k)),
            r@ == spec_mode_pool(mode).map_values(|k: usize| spec_root(k).name).take(i as int),
        decreases roots@.len() - i,
    {
        r.push(roots[i].name);
        assert(r@ =~= spec_mode_pool(mode).map_values(|k: usize| spec_root(k).name).take(
            (i + 1) as int,
        ));
        i = i + 1;
    }
    assert(r@ =~= spec_mode_pool(mode).map_values(|k: usize| spec_root(k).name));
    r
}

/// The number of roots a mode shows.
pub fn pool_size(mode: Mode) -> (r: usize)
    ensures
        r == spec_mode_pool(mode).len(),
        r >= 1,
{
    proof {
        lemma_mode_pool(mode, ROOT_COUNT as nat);
    }
    mode_roots(mode).len()
}

/// Pick the root at position `index` of the mode's pool — the position a
/// random draw below `pool_size(mode)` chose.
pub fn select_root(mode: Mode, index: usize) -> (r: RootData)
    requires
        index < spec_mode_pool(mode).len(),
    ensures
        r == spec_root(spec_mode_pool(mode)[index as int]),
        spec_includes(mode, r),
        root_wf(r),
{
    let roots = mode_roots(mode);
    proof {
        lemma_mode_pool(mode, ROOT_COUNT as nat);
        lemma_root_wf(spec_mode_pool(mode)[index as int]);
    }
    roots[index]
}

/// Select a random root from those available in the given mode.
pub fn random_root(mode: Mode) -> (r: RootData)
    ensures
        spec_includes(mode, r),
        root_wf(r),
        exists|k: int|
            0 <= k < spec_mode_pool(mode).len() && r == spec_root(#[trigger] spec_mode_pool(mode)[k]),
{
    let i = random_below(pool_size(mode));
    select_root(mode, i)
}

/// The root of the day: the pool entry that the seeded draw picks.
pub open spec fn spec_root_of_the_day(mode: Mode, day_index: u64) -> RootData {
    spec_root(
        spec_mode_pool(mode)[seeded_index(day_index, spec_mode_pool(mode).len() as usize) as int],
    )
}

/// Select the deterministic "root of the day" for the given day index.
///
/// The same `day_index` always yields the same root (within a fixed `rand`
/// version): the index seeds a `StdRng`, which drives the same pool selection
/// as `random_root`.
pub fn root_of_the_day(mode: Mode, day_index: u64) -> (r: RootData)
    ensures
        r == spec_root_of_the_day(mode, day_index),
        spec_includes(mode, r),
        root_wf(r),
{
    let i = seeded_below(day_index, pool_size(mode));
    select_root(mode, i)
}

// ---------------------------------------------------------------------------
// Random forms
// ---------------------------------------------------------------------------

/// A generated form paired with its root, so the output can be rendered as a
/// full breakdown block.
#[derive(Debug)]
pub struct GeneratedForm {
    pub root: RootData,
    pub form: VerbForm,
}

/// A generated form's root and the text of its form.
pub struct GeneratedFormView {
    pub root: RootData,
    pub form: VerbFormView,
}

impl View for GeneratedForm {
    type V = GeneratedFormView;

    open spec fn view(&self) -> GeneratedFormView {
        GeneratedFormView { root: self.root, form: self.form@ }
    }
}

impl Clone for GeneratedForm {
    fn clone(&self) -> (r: GeneratedForm)
        ensures
            r@ == self@,
    {
        GeneratedForm { root: self.root, form: self.form.clone() }
    }
}

/// The forms among the first `n` that are not Impossible, paired with `rd`.
pub open spec fn attested_upto(rd: RootData, forms: Seq<VerbFormView>, n: nat) -> Seq<
    GeneratedFormView,
>
    decreases n,
{
    if n == 0 {
        seq![]
    } else {
        attested_upto(rd, forms, (n - 1) as nat) + if forms[n - 1].attestation
            != Attestation::Impossible {
            seq![GeneratedFormView { root: rd, form: forms[n - 1] }]
        } else {
            seq![]
        }
    }
}

/// The pool a root name contributes: its full paradigm without Impossible forms.
pub open spec fn name_pool(name: Seq<char>) -> Seq<GeneratedFormView> {
    match spec_root_data(name) {
        Some(rd) => attested_upto(rd, spec_paradigm(rd, None), spec_paradigm(rd, None).len()),
        None => seq![],
    }
}

/// The pools of the first `n` names, concatenated.
pub open spec fn names_pool_upto(names: Seq<Seq<char>>, n: nat) -> Seq<GeneratedFormView>
    decreases n,
{
    if n == 0 {
        seq![]
    } else {
        names_pool_upto(names, (n - 1) as nat) + name_pool(names[n - 1])
    }
}

/// The roots `generate` draws from: the named root if it exists (none if it
/// does not), otherwise every root of the mode.
pub open spec fn generate_names(mode: Mode, root_name: Option<Seq<char>>) -> Seq<Seq<char>> {
    match root_name {
        Some(name) => if spec_root_data(name) is Some {
            seq![name]
        } else {
            seq![]
        },
        None => spec_mode_pool(mode).map_values(|i: usize| spec_root(i).name@),
    }
}

/// The pool `generate` draws from.
pub open spec fn spec_generate_pool(mode: Mode, root_name: Option<Seq<char>>) -> Seq<
    GeneratedFormView,
> {
    let names = generate_names(mode, root_name);
    names_pool_upto(names, names.len())
}

/// `count` clamped to 1..=100.
pub open spec fn spec_clamp_count(count: usize) -> nat {
    if count < 1 {
        1
    } else if count > 100 {
        100
    } else {
        count as nat
    }
}

/// Generate random forms.
///
/// If `root_name` is `None`, draws from all roots available in the given mode.
/// Returns `count` forms (clamped to 1..=100) drawn from the pool of the
/// roots' non-Impossible forms: the pool is shuffled and read in order,
/// cycling only when `count` exceeds the pool size. An unknown root, or a pool
/// without forms, gives no forms.
pub fn generate(mode: Mode, root_name: Option<&str>, count: usize) -> (r: Vec<GeneratedForm>)
    ensures
        ({
            let pool = spec_generate_pool(mode, opt_text(root_name));
            &&& pool.len() == 0 ==> r@.len() == 0
            &&& pool.len() > 0 ==> r@.len() == spec_clamp_count(count) && exists|perm: Seq<usize>|
                is_index_permutation(perm, pool.len()) && forall|i: int|
                    0 <= i < r@.len() ==> #[trigger] r@[i]@ == pool[perm[i % (pool.len() as int)] as int]
        }),
{
    let count = if count < 1 {
        1
    } else if count > 100 {
        100
    } else {
        count
    };
    let ghost names_spec = generate_names(mode, opt_text(root_name));
    // The roots to draw from
    let names: Vec<&str> = match root_name {
        Some(name) => {
            if root_data(name).is_some() {
                vec![name]
            } else {
                return Vec::new();
            }
        },
        None => list_roots(mode),
    };
    assert(names@.map_values(|n: &str| n@) =~= names_spec);
    let mut pool: Vec<GeneratedForm> = Vec::new();
    let mut ni: usize = 0;
    while ni < names.len()
        invariant
            ni <= names@.len(),
            names@.map_values(|n: &str| n@) == names_spec,
            pool@.map_values(|g: GeneratedForm| g@) == names_pool_upto(names_spec, ni as nat),
        decreases names@.len() - ni,
    {
        let name = names[ni];
        let ghost before = pool@.map_values(|g: GeneratedForm| g@);
        assert(names_spec[ni as int] == name@);
        match root_data(name) {
            Some(rd) => {
                match explore(name, None) {
                    Ok(result) => {
                        let ghost forms = spec_paradigm(rd, None);
                        let mut fi: usize = 0;
                        while fi < result.forms.len()
                            invariant
                                fi <= result.forms@.len(),
                                forms_view(result.forms@) == forms,
                                pool@.map_values(|g: GeneratedForm| g@) == before + attested_upto(
                                    rd,
                                    forms,
                                    fi as nat,
                                ),
                            decreases result.forms@.len() - fi,
                        {
                            let vf = &result.forms[fi];
                            assert(vf@ == forms[fi as int]);
                            // Only include forms with attestation != Impossible
                            let ghost old_pool = pool@;
                            if vf.attestation != Attestation::Impossible {
                                let g = GeneratedForm { root: rd, form: vf.clone() };
                                pool.push(g);
                                assert(pool@.map_values(|g: GeneratedForm| g@) =~= old_pool.map_values(
                                    |g: GeneratedForm| g@,
                                ).push(GeneratedFormView { root: rd, form: forms[fi as int] }));
                            }
                            assert(pool@.map_values(|g: GeneratedForm| g@) =~= before
                                + attested_upto(rd, forms, (fi + 1) as nat));
                            fi = fi + 1;
                        }
                    },
                    Err(_) => {},
                }
            },
            None => {},
        }
        assert(pool@.map_values(|g: GeneratedForm| g@) =~= names_pool_upto(
            names_spec,
            (ni + 1) as nat,
        ));
        ni = ni + 1;
    }
    let ghost pool_view = pool@.map_values(|g: GeneratedForm| g@);
    if pool.len() == 0 {
        return Vec::new();
    }
    // Shuffle the pool, then read it in order, cycling when count exceeds its size
    let order = shuffled_indices(pool.len());
    read_in_order(&pool, &order, count)
}

/// Reads `count` entries of `pool` in the drawn `order`, cycling through the
/// order when `count` exceeds the pool.
pub fn read_in_order(pool: &Vec<GeneratedForm>, order: &Vec<usize>, count: usize) -> (r: Vec<
    GeneratedForm,
>)
    requires
        pool@.len() > 0,
        is_index_permutation(order@, pool@.len() as nat),
    ensures
        r@.len() == count,
        forall|i: int|
            0 <= i < count ==> #[trigger] r@[i]@ == pool@[order@[i % (pool@.len() as int)] as int]@,
{
    let mut result: Vec<GeneratedForm> = Vec::new();
    let mut i: usize = 0;
    while i < count
        invariant
            i <= count,
            pool@.len() > 0,
            is_index_permutation(order@, pool@.len() as nat),
            result@.len() == i,
            forall|k: int|
                0 <= k < i ==> #[trigger] result@[k]@ == pool@[order@[k % (
                pool@.len() as int)] as int]@,
        decreases count - i,
    {
        let pick = order[i % pool.len()];
        result.push(pool[pick].clone());
        i = i + 1;
    }
    result
}

// ---------------------------------------------------------------------------
// Sample forms for the box display
// ---------------------------------------------------------------------------

/// The pool entries of a root are its non-Impossible forms with known values.
proof fn lemma_attested_upto(rd: RootData, forms: Seq<VerbFormView>, n: nat)
    requires
        n <= forms.len(),
        forall|j: int| 0 <= j < forms.len() ==> #[trigger] known_form(forms[j]),
    ensures
        forall|j: int|
            0 <= j < attested_upto(rd, forms, n).len() ==> (#[trigger] attested_upto(
                rd,
                forms,
                n,
            )[j]).form.attestation != Attestation::Impossible && attested_upto(rd, forms, n)[j].root
                == rd && known_form(attested_upto(rd, forms, n)[j].form),
    decreases n,
{
    if n > 0 {
        lemma_attested_upto(rd, forms, (n - 1) as nat);
        let prev = attested_upto(rd, forms, (n - 1) as nat);
        assert(known_form(forms[n - 1]));
        assert forall|j: int| 0 <= j < attested_upto(rd, forms, n).len() implies (
        #[trigger] attested_upto(rd, forms, n)[j]).form.attestation != Attestation::Impossible
            && attested_upto(rd, forms, n)[j].root == rd && known_form(
            attested_upto(rd, forms, n)[j].form,
        ) by {
            if j < prev.len() {
                assert(attested_upto(rd, forms, n)[j] == prev[j]);
            }
        }
    }
}

/// The pool entries of a list of names are non-Impossible forms with known
/// values of roots found by those names.
proof fn lemma_names_pool(names: Seq<Seq<char>>, n: nat)
    requires
        n <= names.len(),
    ensures
        forall|j: int|
            0 <= j < names_pool_upto(names, n).len() ==> (#[trigger] names_pool_upto(
                names,
                n,
            )[j]).form.attestation != Attestation::Impossible && known_form(
                names_pool_upto(names, n)[j].form,
            ) && exists|m: int|
                0 <= m < n && spec_root_data(names[m]) == Some(names_pool_upto(names, n)[j].root),
    decreases n,
{
    if n > 0 {
        lemma_names_pool(names, (n - 1) as nat);
        let prev = names_pool_upto(names, (n - 1) as nat);
        let last = name_pool(names[n - 1]);
        if let Some(rd) = spec_root_data(names[n - 1]) {
            lemma_found_root_wf(names[n - 1]);
            lemma_paradigm_known(rd, None);
            lemma_attested_upto(rd, spec_paradigm(rd, None), spec_paradigm(rd, None).len());
        }
        assert forall|j: int| 0 <= j < names_pool_upto(names, n).len() implies (
        #[trigger] names_pool_upto(names, n)[j]).form.attestation != Attestation::Impossible
            && known_form(names_pool_upto(names, n)[j].form) && exists|m: int|
            0 <= m < n && spec_root_data(names[m]) == Some(names_pool_upto(names, n)[j].root) by {
            if j < prev.len() {
                assert(names_pool_upto(names, n)[j] == prev[j]);
            } else {
                assert(names_pool_upto(names, n)[j] == last[j - prev.len()]);
                assert(spec_root_data(names[n - 1]) is Some);
                assert(spec_root_data(names[n - 1]) == Some(names_pool_upto(names, n)[j].root));
            }
        }
    }
}

/// `generate` never draws an Impossible form, every form it draws carries a
/// known suffix and ending, and every form it draws for a named root belongs
/// to that root.
pub proof fn law_generate_pool(mode: Mode, root_name: Option<Seq<char>>, j: int)
    requires
        0 <= j < spec_generate_pool(mode, root_name).len(),
    ensures
        spec_generate_pool(mode, root_name)[j].form.attestation != Attestation::Impossible,
        known_form(spec_generate_pool(mode, root_name)[j].form),
        root_name matches Some(name) ==> spec_generate_pool(mode, root_name)[j].root.name@ == name,
{
    let names = generate_names(mode, root_name);
    lemma_names_pool(names, names.len());
    if let Some(name) = root_name {
        lemma_find_root(name, 0);
    }
}

/// With no root named, every form `generate` draws belongs to a root the
/// mode shows (in classic mode one of the nine classic roots, never дроч-,
/// трах- or жр-).
pub proof fn law_generate_keeps_to_mode(mode: Mode, j: int)
    requires
        0 <= j < spec_generate_pool(mode, None).len(),
    ensures
        spec_includes(mode, spec_generate_pool(mode, None)[j].root),
        mode == Mode::Classic ==> spec_generate_pool(mode, None)[j].root.domain == Domain::Nuclear
            || (spec_generate_pool(mode, None)[j].root.domain == Domain::Excretory && (
            spec_generate_pool(mode, None)[j].root.productivity == ProductivityClass::A
                || spec_generate_pool(mode, None)[j].root.productivity == ProductivityClass::B)),
{
    let names = generate_names(mode, None);
    let pool = spec_mode_pool(mode);
    lemma_names_pool(names, names.len());
    lemma_mode_pool(mode, ROOT_COUNT as nat);
    let root = spec_generate_pool(mode, None)[j].root;
    let m = choose|m: int| 0 <= m < names.len() && spec_root_data(names[m]) == Some(root);
    assert(names[m] == spec_root(pool[m]).name@);
    lemma_root_data_at(pool[m]);
}

/// Whether a form is a Common infinitive.
pub open spec fn is_common_infinitive(f: VerbFormView) -> bool {
    f.ending_val == "ть"@ && f.attestation == Attestation::Common
}

/// The words of the Common infinitives among the first `n` forms, in order.
pub open spec fn common_infinitives_upto(forms: Seq<VerbFormView>, n: nat) -> Seq<Seq<char>>
    decreases n,
{
    if n == 0 {
        seq![]
    } else {
        common_infinitives_upto(forms, (n - 1) as nat) + if is_common_infinitive(forms[n - 1]) {
            seq![forms[n - 1].form]
        } else {
            seq![]
        }
    }
}

/// The words of the first three Common infinitives of a named root's paradigm.
pub open spec fn spec_sample_forms(name: Seq<char>) -> Seq<Seq<char>> {
    match spec_root_data(name) {
        Some(rd) => {
            let all = common_infinitives_upto(
                spec_paradigm(rd, None),
                spec_paradigm(rd, None).len(),
            );
            if all.len() <= 3 {
                all
            } else {
                all.take(3)
            }
        },
        None => seq![],
    }
}

/// The Common infinitives of a prefix of the forms begin the list of all of
/// them.
proof fn lemma_common_infinitives_grow(forms: Seq<VerbFormView>, m: nat, n: nat)
    requires
        m <= n,
    ensures
        common_infinitives_upto(forms, m).len() <= common_infinitives_upto(forms, n).len(),
        common_infinitives_upto(forms, m) =~= common_infinitives_upto(forms, n).take(
            common_infinitives_upto(forms, m).len() as int,
        ),
    decreases n - m,
{
    if m < n {
        lemma_common_infinitives_grow(forms, m, (n - 1) as nat);
    }
}

/// Whether `w` is the word of a Common infinitive among the first `n` forms.
pub open spec fn common_infinitive_word(forms: Seq<VerbFormView>, n: nat, w: Seq<char>) -> bool {
    exists|k: int| 0 <= k < n && #[trigger] is_common_infinitive(forms[k]) && forms[k].form == w
}

/// Each listed Common infinitive is the word of such a form.
proof fn lemma_common_infinitives_found(forms: Seq<VerbFormView>, n: nat)
    requires
        n <= forms.len(),
    ensures
        forall|j: int|
            0 <= j < common_infinitives_upto(forms, n).len() ==> common_infinitive_word(
                forms,
                n,
                #[trigger] common_infinitives_upto(forms, n)[j],
            ),
    decreases n,
{
    if n > 0 {
        lemma_common_infinitives_found(forms, (n - 1) as nat);
        let prev = common_infinitives_upto(forms, (n - 1) as nat);
        assert forall|j: int| 0 <= j < common_infinitives_upto(forms, n).len() implies common_infinitive_word(
            forms,
            n,
            #[trigger] common_infinitives_upto(forms, n)[j],
        ) by {
            if j < prev.len() {
                assert(common_infinitives_upto(forms, n)[j] == prev[j]);
                assert(common_infinitive_word(forms, (n - 1) as nat, prev[j]));
                let k = choose|k: int|
                    0 <= k < n - 1 && #[trigger] is_common_infinitive(forms[k]) && forms[k].form
                        == prev[j];
                assert(is_common_infinitive(forms[k]));
            } else {
                assert(is_common_infinitive(forms[n - 1]));
                assert(forms[n - 1].form == common_infinitives_upto(forms, n)[j]);
            }
        }
    }
}

/// The sample forms of a root are at most three, each the word of a Common
/// infinitive of the root's paradigm.
pub proof fn law_sample_forms(name: Seq<char>, j: int)
    requires
        0 <= j < spec_sample_forms(name).len(),
    ensures
        spec_sample_forms(name).len() <= 3,
        spec_root_data(name) matches Some(rd) && common_infinitive_word(
            spec_paradigm(rd, None),
            spec_paradigm(rd, None).len(),
            spec_sample_forms(name)[j],
        ),
{
    if let Some(rd) = spec_root_data(name) {
        let forms = spec_paradigm(rd, None);
        lemma_common_infinitives_found(forms, forms.len());
        let all = common_infinitives_upto(forms, forms.len());
        assert(spec_sample_forms(name)[j] == all[j]);
    }
}

/// Assemble up to 3 Common infinitive sample forms for a root's box display.
///
/// Filters the root's paradigm for infinitives (ending `ть`) with `Common`
/// attestation and takes the first three. Returns an empty `Vec` for a root
/// the inventory does not hold or with no such forms (e.g. a nominal root).
pub fn sample_forms(rd: &RootData) -> (r: Vec<String>)
    ensures
        r@.map_values(|s: String| s@) == spec_sample_forms(rd.name@),
{
    let mut r: Vec<String> = Vec::new();
    match explore(rd.name, None) {
        Ok(result) => {
            let ghost root = spec_root_data(rd.name@)->0;
            let ghost forms = spec_paradigm(root, None);
            let ghost all = common_infinitives_upto(forms, forms.len());
            let mut i: usize = 0;
            while i < result.forms.len() && r.len() < 3
                invariant
                    i <= result.forms@.len(),
                    forms_view(result.forms@) == forms,
                    r@.map_values(|s: String| s@) == common_infinitives_upto(forms, i as nat),
                    r@.len() <= 3,
                decreases result.forms@.len() - i,
            {
                let f = &result.forms[i];
                assert(f@ == forms[i as int]);
                if str_eq(f.ending_val, "ть") && f.attestation == Attestation::Common {
                    r.push(f.form.clone());
                }
                assert(r@.map_values(|s: String| s@) =~= common_infinitives_upto(
                    forms,
                    (i + 1) as nat,
                ));
                i = i + 1;
            }
            proof {
                lemma_common_infinitives_grow(forms, i as nat, forms.len());
                if r@.len() < 3 {
                    assert(i == forms.len());
                }
            }
            assert(r@.map_values(|s: String| s@) =~= spec_sample_forms(rd.name@));
        },
        Err(_) => {},
    }
    r
}

/// The position of the first Common infinitive at or after `i`, if any.
pub open spec fn first_common_infinitive_from(forms: Seq<VerbFormView>, i: nat) -> Option<int>
    decreases forms.len() - i,
{
    if i >= forms.len() {
        None
    } else if is_common_infinitive(forms[i as int]) {
        Some(i as int)
    } else {
        first_common_infinitive_from(forms, i + 1)
    }
}

/// The first Common infinitive of a named root's paradigm, if any.
pub open spec fn spec_example_form(name: Seq<char>) -> Option<VerbFormView> {
    match spec_root_data(name) {
        Some(rd) => match first_common_infinitive_from(spec_paradigm(rd, None), 0) {
            Some(i) => Some(spec_paradigm(rd, None)[i]),
            None => None,
        },
        None => None,
    }
}

/// A found Common infinitive lies in range.
proof fn lemma_first_common_infinitive(forms: Seq<VerbFormView>, i: nat)
    ensures
        first_common_infinitive_from(forms, i) matches Some(k) ==> i <= k < forms.len(),
    decreases forms.len() - i,
{
    if i < forms.len() {
        lemma_first_common_infinitive(forms, i + 1);
    }
}

/// The example form of a root, when it has one, carries a known suffix and
/// ending.
pub proof fn lemma_example_known(name: Seq<char>)
    ensures
        spec_example_form(name) matches Some(f) ==> known_form(f),
{
    if let Some(rd) = spec_root_data(name) {
        lemma_found_root_wf(name);
        lemma_paradigm_known(rd, None);
        lemma_first_common_infinitive(spec_paradigm(rd, None), 0);
        if let Some(i) = first_common_infinitive_from(spec_paradigm(rd, None), 0) {
            assert(known_form(spec_paradigm(rd, None)[i]));
        }
    }
}

/// Past a stretch with no Common infinitive, the first Common infinitive is
/// the first of the listed ones.
proof fn lemma_first_is_first_listed(forms: Seq<VerbFormView>, i: nat)
    requires
        i <= forms.len(),
        common_infinitives_upto(forms, i).len() == 0,
    ensures
        first_common_infinitive_from(forms, i) is Some <==> common_infinitives_upto(
            forms,
            forms.len(),
        ).len() > 0,
        first_common_infinitive_from(forms, i) matches Some(k) ==> forms[k].form
            == common_infinitives_upto(forms, forms.len())[0],
    decreases forms.len() - i,
{
    if i == forms.len() {
    } else if is_common_infinitive(forms[i as int]) {
        lemma_common_infinitives_grow(forms, i + 1, forms.len());
        assert(common_infinitives_upto(forms, i + 1)[0] == forms[i as int].form);
    } else {
        assert(common_infinitives_upto(forms, i + 1) =~= common_infinitives_upto(forms, i));
        lemma_first_is_first_listed(forms, i + 1);
    }
}

/// The example form of a root is its first sample form: there is one exactly
/// when the root has a sample form, and its word is the first of them.
pub proof fn law_example_is_first_sample(name: Seq<char>)
    ensures
        spec_example_form(name) is Some <==> spec_sample_forms(name).len() > 0,
        spec_example_form(name) matches Some(f) ==> f.form == spec_sample_forms(name)[0],
{
    if let Some(rd) = spec_root_data(name) {
        let forms = spec_paradigm(rd, None);
        lemma_first_is_first_listed(forms, 0);
        lemma_first_common_infinitive(forms, 0);
    }
}

/// One exemplary form for the `random` / `root-of-the-day` breakdown block:
/// the first Common infinitive of the root, or `None` for a root with no
/// Common infinitive (a nominal root, or a verbal root whose forms are all
/// Possible).
pub fn example_form(rd: &RootData) -> (r: Option<VerbForm>)
    ensures
        match spec_example_form(rd.name@) {
            Some(f) => r matches Some(vf) && vf@ == f,
            None => r is None,
        },
{
    match explore(rd.name, None) {
        Ok(result) => {
            let ghost root = spec_root_data(rd.name@)->0;
            let ghost forms = spec_paradigm(root, None);
            let mut i: usize = 0;
            while i < result.forms.len()
                invariant
                    i <= result.forms@.len(),
                    forms_view(result.forms@) == forms,
                    spec_root_data(rd.name@) == Some(root),
                    forms == spec_paradigm(root, None),
                    first_common_infinitive_from(forms, 0) == first_common_infinitive_from(
                        forms,
                        i as nat,
                    ),
                decreases result.forms@.len() - i,
            {
                let f = &result.forms[i];
                assert(f@ == forms[i as int]);
                if str_eq(f.ending_val, "ть") && f.attestation == Attestation::Common {
                    assert(first_common_infinitive_from(forms, i as nat) == Some(i as int));
                    return Some(f.clone());
                }
                i = i + 1;
            }
            None
        },
        Err(_) => None,
    }
}


// ---------------------------------------------------------------------------
// The words of the paradigm
// ---------------------------------------------------------------------------

/// Whether `w` is a word of at most `n` characters.
pub open spec fn short_word(w: Seq<char>, n: nat) -> bool {
    is_word(w) && w.len() <= n
}

/// The surface of every prefix is a word of at most four letters.
proof fn lemma_prefix_form_word(rd: RootData, p: usize)
    requires
        p < PREFIX_COUNT,
    ensures
        short_word(spec_prefix_form(rd, p), 4),
{
    reveal_strlit("");
    reveal_strlit("вы");
    reveal_strlit("до");
    reveal_strlit("за");
    reveal_strlit("из");
    reveal_strlit("на");
    reveal_strlit("от");
    reveal_strlit("пере");
    reveal_strlit("про");
    reveal_strlit("в");
    reveal_strlit("вз");
    reveal_strlit("о");
    reveal_strlit("по");
    reveal_strlit("под");
    reveal_strlit("при");
    reveal_strlit("раз");
    reveal_strlit("с");
    reveal_strlit("у");
    reveal_strlit("изо");
    reveal_strlit("ото");
    reveal_strlit("во");
    reveal_strlit("взо");
    reveal_strlit("обо");
    reveal_strlit("подо");
    reveal_strlit("разо");
    reveal_strlit("со");
    reveal_strlit("ис");
    reveal_strlit("вс");
    reveal_strlit("рас");
    reveal_strlit("об");
    let pf = spec_prefix_form(rd, p);
    assert forall|i: int| 0 <= i < pf.len() implies !is_space(#[trigger] pf[i]) by {}
}

/// The suffix and ending of every combination make a word of at most four
/// letters.
proof fn lemma_combine_word(suffix: Seq<char>, ending: Seq<char>)
    ensures
        short_word(spec_combine(suffix, ending), 4),
{
    reveal_strlit("ать");
    reveal_strlit("ал");
    reveal_strlit("ёт");
    reveal_strlit("нуть");
    reveal_strlit("нул");
    reveal_strlit("нёт");
    reveal_strlit("еть");
    reveal_strlit("ел");
    reveal_strlit("ит");
    reveal_strlit("ить");
    reveal_strlit("ил");
    let c = spec_combine(suffix, ending);
    assert forall|i: int| 0 <= i < c.len() implies !is_space(#[trigger] c[i]) by {}
}

/// The root and present stem of every root of the inventory are words of at
/// most eight letters.
proof fn lemma_stem_words(i: usize)
    requires
        i < ROOT_COUNT,
    ensures
        short_word(spec_root(i).val@, 8),
        opt_text(spec_root(i).present_stem) matches Some(t) ==> short_word(t, 8),
{
    reveal_strlit("блю");
    if i == 0 {
        reveal_strlit("еб");
    } else if i == 1 {
        reveal_strlit("пизд");
    } else if i == 2 {
        reveal_strlit("хуй");
    } else if i == 3 {
        reveal_strlit("бляд");
    } else if i == 4 {
        reveal_strlit("муд");
    } else if i == 5 {
        reveal_strlit("манд");
    } else if i == 6 {
        reveal_strlit("елд");
    } else if i == 7 {
        reveal_strlit("ср");
    } else if i == 8 {
        reveal_strlit("сс");
    } else if i == 9 {
        reveal_strlit("дроч");
    } else if i == 10 {
        reveal_strlit("трах");
    } else if i == 11 {
        reveal_strlit("жр");
    } else if i == 12 {
        reveal_strlit("хер");
    } else if i == 13 {
        reveal_strlit("перд");
    } else if i == 14 {
        reveal_strlit("хар");
    } else if i == 15 {
        reveal_strlit("блев");
    } else if i == 16 {
        reveal_strlit("бзд");
    } else if i == 17 {
        reveal_strlit("дрист");
    } else if i == 18 {
        reveal_strlit("залуп");
    } else if i == 19 {
        reveal_strlit("жоп");
    } else if i == 20 {
        reveal_strlit("говн");
    } else if i == 21 {
        reveal_strlit("пидор");
    } else if i == 22 {
        reveal_strlit("курв");
    } else if i == 23 {
        reveal_strlit("сиповк");
    } else if i == 24 {
        reveal_strlit("секел");
    } else if i == 25 {
        reveal_strlit("поц");
    } else if i == 26 {
        reveal_strlit("молофь");
    } else if i == 27 {
        reveal_strlit("минж");
    } else if i == 28 {
        reveal_strlit("целк");
    } else if i == 29 {
        reveal_strlit("королёвк");
    } else if i == 30 {
        reveal_strlit("кун");
    } else if i == 31 {
        reveal_strlit("сперм");
    } else if i == 32 {
        reveal_strlit("менстр");
    } else if i == 33 {
        reveal_strlit("минет");
    } else {
        reveal_strlit("гондон");
    }
    let v = spec_root(i).val@;
    assert forall|j: int| 0 <= j < v.len() implies !is_space(#[trigger] v[j]) by {}
    assert forall|j: int| 0 <= j < "блю"@.len() implies !is_space(#[trigger] "блю"@[j]) by {}
}

/// Every form of a root whose root and present stem are short words is a
/// word of at most seventeen letters.
proof fn lemma_form_word(rd: RootData, p: usize, s: usize, e: usize)
    requires
        p < PREFIX_COUNT,
        short_word(rd.val@, 8),
        opt_text(rd.present_stem) matches Some(t) ==> short_word(t, 8),
    ensures
        short_word(spec_form(rd, p, s, e).form, 17),
{
    lemma_prefix_form_word(rd, p);
    lemma_combine_word(spec_suffix(s).val@, spec_ending(e).val@);
    reveal_strlit("ъ");
    let pf = spec_prefix_form(rd, p);
    let r = spec_actual_root(rd.val@, spec_ending(e).val@, opt_text(rd.present_stem));
    assert(short_word(r, 8));
    assert(!is_space("ъ"@[0]));
    lemma_word_concat(pf, "ъ"@);
    lemma_word_concat(pf + "ъ"@, r);
    lemma_word_concat(pf, r);
    lemma_word_concat(spec_stem(pf, r), spec_combine(spec_suffix(s).val@, spec_ending(e).val@));
}

/// The forms of a prefix over the first `k` suffix classes are short words.
proof fn lemma_block_words(rd: RootData, filter: Option<Seq<char>>, p: usize, k: nat)
    requires
        p < PREFIX_COUNT,
        short_word(rd.val@, 8),
        opt_text(rd.present_stem) matches Some(t) ==> short_word(t, 8),
    ensures
        forall|j: int|
            0 <= j < prefix_block_upto(rd, filter, p, k).len() ==> short_word(
                (#[trigger] prefix_block_upto(rd, filter, p, k)[j]).form,
                17,
            ),
    decreases k,
{
    if k > 0 {
        lemma_block_words(rd, filter, p, (k - 1) as nat);
        let s = rd.suffix_indices@[k - 1];
        let prev = prefix_block_upto(rd, filter, p, (k - 1) as nat);
        let blk = if filter_admits(filter, s) {
            suffix_block(rd, p, s)
        } else {
            seq![]
        };
        assert forall|j: int| 0 <= j < prefix_block_upto(rd, filter, p, k).len() implies short_word(
            (#[trigger] prefix_block_upto(rd, filter, p, k)[j]).form,
            17,
        ) by {
            if j < prev.len() {
                assert(prefix_block_upto(rd, filter, p, k)[j] == prev[j]);
            } else {
                let t = j - prev.len();
                assert(prefix_block_upto(rd, filter, p, k)[j] == blk[t]);
                lemma_form_word(rd, p, s, spec_endings_for(s)[t]);
            }
        }
    }
}

/// The forms of the first `n` prefixes are short words.
proof fn lemma_paradigm_words(rd: RootData, filter: Option<Seq<char>>, n: nat)
    requires
        n <= PREFIX_COUNT,
        short_word(rd.val@, 8),
        opt_text(rd.present_stem) matches Some(t) ==> short_word(t, 8),
    ensures
        forall|j: int|
            0 <= j < paradigm_upto(rd, filter, n).len() ==> short_word(
                (#[trigger] paradigm_upto(rd, filter, n)[j]).form,
                17,
            ),
    decreases n,
{
    if n > 0 {
        lemma_paradigm_words(rd, filter, (n - 1) as nat);
        let k = rd.suffix_indices@.len();
        lemma_block_words(rd, filter, (n - 1) as usize, k);
        let prev = paradigm_upto(rd, filter, (n - 1) as nat);
        let blk = prefix_block_upto(rd, filter, (n - 1) as usize, k);
        assert forall|j: int| 0 <= j < paradigm_upto(rd, filter, n).len() implies short_word(
            (#[trigger] paradigm_upto(rd, filter, n)[j]).form,
            17,
        ) by {
            if j < prev.len() {
                assert(paradigm_upto(rd, filter, n)[j] == prev[j]);
            } else {
                assert(paradigm_upto(rd, filter, n)[j] == blk[j - prev.len()]);
            }
        }
    }
}

/// The named root of position `i` is the root at position `i`.
proof fn lemma_root_data_at(i: usize)
    requires
        i < ROOT_COUNT,
    ensures
        spec_root_data(spec_root(i).name@) == Some(spec_root(i)),
{
    let name = spec_root(i).name@;
    lemma_find_root(name, 0);
    if let Some(k) = spec_root_index(name) {
        if k != i {
            law_root_names_distinct(i, k);
        }
    }
}

/// The sample forms of every root of the inventory are words of at most
/// seventeen letters.
pub proof fn lemma_samples_short(i: usize)
    requires
        i < ROOT_COUNT,
    ensures
        forall|k: int|
            0 <= k < spec_sample_forms(spec_root(i).name@).len() ==> short_word(
                #[trigger] spec_sample_forms(spec_root(i).name@)[k],
                17,
            ),
{
    let rd = spec_root(i);
    let name = rd.name@;
    let samples = spec_sample_forms(name);
    lemma_root_data_at(i);
    lemma_stem_words(i);
    lemma_paradigm_words(rd, None, PREFIX_COUNT as nat);
    let forms = spec_paradigm(rd, None);
    assert forall|k: int| 0 <= k < samples.len() implies short_word(#[trigger] samples[k], 17) by {
        law_sample_forms(name, k);
        let m = choose|m: int|
            0 <= m < forms.len() && #[trigger] is_common_infinitive(forms[m]) && forms[m].form
                == samples[k];
        assert(short_word(forms[m].form, 17));
    }
}

} // verus!
