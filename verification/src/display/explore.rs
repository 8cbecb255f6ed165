//! `explore` formatter: the scannable overview table for a full paradigm, plus
//! per-form breakdown blocks when the result is narrowed by `--suffix`.

use vstd::prelude::*;

use super::form_block::{format_form_block, spec_form_block};
use super::{
    count_attestation, domain_inline, format_attestation, spec_domain_inline,
    spec_format_attestation,
};
use crate::grammar::{is_present_ending, present_ending};
use crate::morpheme::{
    Attestation, Domain, ParadigmResult, ProductivityClass, RootData, VerbForm, VerbFormView,
    forms_view, is_ending_val, is_suffix_val, spec_ending, spec_suffix, spec_suffix_index_of,
    suffix_entry, suffix_index_for_val,
};
use crate::roots::{root_data, spec_root_data};
use crate::text::{
    concat, contains_text, decimal, lemma_contains_append, join, join_strings, join_strs, lemma_join_push, opt_text, owned, pad_right,
    push_decimal, push_padded, push_repeated, repeat, str_eq,
};

verus! {

// ---------------------------------------------------------------------------
// Column widths of the overview table. Form columns are never cut; only the
// meaning column is truncated to keep the table about 90 columns wide.
// ---------------------------------------------------------------------------

pub const W_PREFIX: usize = 11;

pub const W_INF: usize = 16;

pub const W_PAST: usize = 15;

pub const W_PRESENT: usize = 14;

pub const W_ATT: usize = 10;

pub const W_MEANING: usize = 34;

// ---------------------------------------------------------------------------
// Sequences of forms
// ---------------------------------------------------------------------------

/// The distinct elements among the first `n` of `s`, in order of first
/// occurrence.
pub open spec fn dedup_upto<A>(s: Seq<A>, n: nat) -> Seq<A>
    decreases n,
{
    if n == 0 {
        seq![]
    } else {
        let d = dedup_upto(s, (n - 1) as nat);
        if d.contains(s[n - 1]) {
            d
        } else {
            d.push(s[n - 1])
        }
    }
}

/// The distinct elements of `s`, in order of first occurrence.
pub open spec fn dedup<A>(s: Seq<A>) -> Seq<A> {
    dedup_upto(s, s.len())
}

/// The distinct prefixes of the forms, in order of first occurrence.
pub open spec fn prefixes_of(fs: Seq<VerbFormView>) -> Seq<Seq<char>> {
    dedup(fs.map_values(|f: VerbFormView| f.prefix_display))
}

/// The distinct suffix values of the forms, in order of first occurrence.
pub open spec fn suffixes_of(fs: Seq<VerbFormView>) -> Seq<Seq<char>> {
    dedup(fs.map_values(|f: VerbFormView| f.suffix_val))
}

/// The distinct (prefix, suffix) combinations of the forms.
pub open spec fn combos_of(fs: Seq<VerbFormView>) -> Seq<(Seq<char>, Seq<char>)> {
    dedup(fs.map_values(|f: VerbFormView| (f.prefix_display, f.suffix_val)))
}

/// The test "has suffix value `sv`".
pub open spec fn has_suffix(sv: Seq<char>) -> spec_fn(VerbFormView) -> bool {
    |f: VerbFormView| f.suffix_val == sv
}

/// The test "has prefix `p`".
pub open spec fn has_prefix(p: Seq<char>) -> spec_fn(VerbFormView) -> bool {
    |f: VerbFormView| f.prefix_display == p
}

/// The forms with suffix value `sv`, in order.
pub open spec fn with_suffix(fs: Seq<VerbFormView>, sv: Seq<char>) -> Seq<VerbFormView> {
    fs.filter(has_suffix(sv))
}

/// The forms with prefix `p`, in order.
pub open spec fn with_prefix(fs: Seq<VerbFormView>, p: Seq<char>) -> Seq<VerbFormView> {
    fs.filter(has_prefix(p))
}

/// The distinct present-tense endings among the first `n` forms, in order of
/// first occurrence.
pub open spec fn present_endings_upto(fs: Seq<VerbFormView>, n: nat) -> Seq<Seq<char>>
    decreases n,
{
    if n == 0 {
        seq![]
    } else {
        let d = present_endings_upto(fs, (n - 1) as nat);
        let e = fs[n - 1].ending_val;
        if is_present_ending(e) && !d.contains(e) {
            d.push(e)
        } else {
            d
        }
    }
}

/// The distinct present-tense endings among the forms, in order.
pub open spec fn present_endings(fs: Seq<VerbFormView>) -> Seq<Seq<char>> {
    present_endings_upto(fs, fs.len())
}

/// The position of the first form at or after `i` with ending `e`.
pub open spec fn first_ending_from(fs: Seq<VerbFormView>, e: Seq<char>, i: nat) -> Option<int>
    decreases fs.len() - i,
{
    if i >= fs.len() {
        None
    } else if fs[i as int].ending_val == e {
        Some(i as int)
    } else {
        first_ending_from(fs, e, i + 1)
    }
}

/// The position of the first form at or after `i` with a present ending.
pub open spec fn first_present_from(fs: Seq<VerbFormView>, i: nat) -> Option<int>
    decreases fs.len() - i,
{
    if i >= fs.len() {
        None
    } else if is_present_ending(fs[i as int].ending_val) {
        Some(i as int)
    } else {
        first_present_from(fs, i + 1)
    }
}

/// A table cell: the word of the first form with ending `e`, or `—`.
pub open spec fn cell(row: Seq<VerbFormView>, e: Seq<char>) -> Seq<char> {
    match first_ending_from(row, e, 0) {
        Some(k) => row[k].form,
        None => "—"@,
    }
}

/// The present-tense cell: the word of the first present form, or `—`.
pub open spec fn present_cell(row: Seq<VerbFormView>) -> Seq<char> {
    match first_present_from(row, 0) {
        Some(k) => row[k].form,
        None => "—"@,
    }
}

/// `s` cut to `max` characters, the last of them replaced by `…` when cut.
pub open spec fn truncated(s: Seq<char>, max: nat) -> Seq<char> {
    if s.len() <= max {
        s
    } else {
        s.take(if max == 0 { 0 } else { max - 1 }) + "…"@
    }
}

/// The four tallies (common, rare, possible, impossible) of a sequence of
/// attestation levels.
pub open spec fn tally(atts: Seq<Attestation>) -> (nat, nat, nat, nat)
    decreases atts.len(),
{
    if atts.len() == 0 {
        (0, 0, 0, 0)
    } else {
        let t = tally(atts.drop_last());
        match atts.last() {
            Attestation::Common => (t.0 + 1, t.1, t.2, t.3),
            Attestation::Rare => (t.0, t.1 + 1, t.2, t.3),
            Attestation::Possible => (t.0, t.1, t.2 + 1, t.3),
            Attestation::Impossible => (t.0, t.1, t.2, t.3 + 1),
        }
    }
}

/// The tallies add up to the number of levels.
pub proof fn lemma_tally_sum(atts: Seq<Attestation>)
    ensures
        tally(atts).0 + tally(atts).1 + tally(atts).2 + tally(atts).3 == atts.len(),
    decreases atts.len(),
{
    if atts.len() > 0 {
        lemma_tally_sum(atts.drop_last());
    }
}

/// How many of the levels are `a`.
pub open spec fn level_count(atts: Seq<Attestation>, a: Attestation) -> nat {
    atts.filter(|x: Attestation| x == a).len()
}

/// Each tally counts its own level: the first the Common levels, the second
/// the Rare ones, the third the Possible ones, the fourth the Impossible ones
/// (so the tally of a single Rare level is (0, 1, 0, 0)).
pub proof fn law_tally_counts_levels(atts: Seq<Attestation>)
    ensures
        tally(atts) == (
            level_count(atts, Attestation::Common),
            level_count(atts, Attestation::Rare),
            level_count(atts, Attestation::Possible),
            level_count(atts, Attestation::Impossible),
        ),
    decreases atts.len(),
{
    reveal(Seq::filter);
    if atts.len() > 0 {
        law_tally_counts_levels(atts.drop_last());
    }
}

/// A deduplicated sequence is no longer than the original, holds no element
/// twice, and holds only elements of the original.
pub proof fn lemma_dedup<A>(s: Seq<A>, n: nat)
    requires
        n <= s.len(),
    ensures
        dedup_upto(s, n).len() <= n,
        dedup_upto(s, n).no_duplicates(),
        forall|x: A| #[trigger] dedup_upto(s, n).contains(x) <==> s.take(n as int).contains(x),
    decreases n,
{
    if n > 0 {
        lemma_dedup(s, (n - 1) as nat);
        let d = dedup_upto(s, (n - 1) as nat);
        let t = s.take((n - 1) as int);
        assert forall|x: A| #[trigger] dedup_upto(s, n).contains(x) <==> s.take(n as int).contains(
            x,
        ) by {
            if dedup_upto(s, n).contains(x) {
                if x == s[n - 1] {
                    assert(s.take(n as int)[n - 1] == x);
                } else {
                    if !d.contains(s[n - 1]) {
                        let k = choose|k: int|
                            0 <= k < d.len() + 1 && #[trigger] d.push(s[n - 1])[k] == x;
                        assert(d[k] == x);
                    }
                    assert(d.contains(x));
                    assert(t.contains(x));
                    let k = choose|k: int| 0 <= k < t.len() && #[trigger] t[k] == x;
                    assert(s.take(n as int)[k] == x);
                }
            }
            if s.take(n as int).contains(x) {
                let k = choose|k: int| 0 <= k < n && #[trigger] s.take(n as int)[k] == x;
                if k < n - 1 {
                    assert(t[k] == x);
                    assert(d.contains(x));
                    let m = choose|m: int| 0 <= m < d.len() && #[trigger] d[m] == x;
                    if !d.contains(s[n - 1]) {
                        assert(d.push(s[n - 1])[m] == x);
                    }
                } else {
                    assert(x == s[n - 1]);
                    if !d.contains(s[n - 1]) {
                        assert(d.push(s[n - 1])[d.len() as int] == x);
                    }
                }
            }
        }
        if !d.contains(s[n - 1]) {
            assert forall|i: int, j: int|
                0 <= i < d.len() + 1 && 0 <= j < d.len() + 1 && i != j implies #[trigger] d.push(
                s[n - 1],
            )[i] != #[trigger] d.push(s[n - 1])[j] by {
                if i == d.len() {
                    assert(d.contains(d[j]));
                } else if j == d.len() {
                    assert(d.contains(d[i]));
                }
            }
        }
    }
}

/// Filtering a one-longer prefix adds the new element when it passes.
pub proof fn lemma_filter_take<A>(s: Seq<A>, pred: spec_fn(A) -> bool, i: int)
    requires
        0 <= i < s.len(),
    ensures
        s.take(i + 1).filter(pred) == (if pred(s[i]) {
            s.take(i).filter(pred).push(s[i])
        } else {
            s.take(i).filter(pred)
        }),
{
    reveal(Seq::filter);
    assert(s.take(i + 1).drop_last() =~= s.take(i));
}

/// The overview table's header row and rule.
pub open spec fn table_header_text() -> Seq<char> {
    "  "@ + pad_right("Префикс"@, W_PREFIX as nat) + " | "@ + pad_right(
        "Инфинитив"@,
        W_INF as nat,
    ) + " | "@ + pad_right("Прош. -л"@, W_PAST as nat) + " | "@ + pad_right(
        "Наст. 3л"@,
        W_PRESENT as nat,
    ) + " | "@ + pad_right("Аттест."@, W_ATT as nat) + " | "@ + "Значение"@ + "\n"@ + "  "@
        + repeat("-"@, W_PREFIX as nat) + "-+-"@ + repeat("-"@, W_INF as nat) + "-+-"@ + repeat(
        "-"@,
        W_PAST as nat,
    ) + "-+-"@ + repeat("-"@, W_PRESENT as nat) + "-+-"@ + repeat("-"@, W_ATT as nat) + "-+-"@
        + repeat("-"@, 8) + "\n"@
}

/// The display of a suffix value with its gloss: `display (gloss)`.
pub open spec fn suffix_label(sv: Seq<char>) -> Seq<char> {
    spec_suffix(spec_suffix_index_of(sv)).display@ + " ("@ + spec_suffix(
        spec_suffix_index_of(sv),
    ).gloss@ + ")"@
}

/// The morpheme legend: suffixes (with glosses), endings (as columns),
/// prefixes.
pub open spec fn legend(fs: Seq<VerbFormView>) -> Seq<char> {
    "Легенда:\n"@ + "  суффиксы: "@ + join(
        suffixes_of(fs).map_values(|sv: Seq<char>| suffix_label(sv)),
        ", "@,
    ) + "\n"@ + "  окончания (колонки): Инфинитив -ть · Прош. -л · Наст. 3 л. "@ + join(
        present_endings(fs).map_values(|e: Seq<char>| "-"@ + e),
        "/"@,
    ) + "\n"@ + "  префиксы: "@ + join(prefixes_of(fs), ", "@) + "\n"@
}

/// Every form carries the value of some suffix class.
pub open spec fn suffixes_known(fs: Seq<VerbFormView>) -> bool {
    forall|k: int| 0 <= k < fs.len() ==> is_suffix_val(#[trigger] fs[k].suffix_val)
}

/// The meaning shown for a form: its note, or `—`.
pub open spec fn note_text(f: VerbFormView) -> Seq<char> {
    match f.note {
        Some(n) => n,
        None => "—"@,
    }
}

/// One table row: the forms of `group` with prefix `p`, endings as columns,
/// attestation and meaning read from the row's first form.
pub open spec fn row_line(group: Seq<VerbFormView>, p: Seq<char>) -> Seq<char> {
    let row = with_prefix(group, p);
    "  "@ + pad_right(p, W_PREFIX as nat) + " | "@ + pad_right(cell(row, "ть"@), W_INF as nat)
        + " | "@ + pad_right(cell(row, "л"@), W_PAST as nat) + " | "@ + pad_right(
        present_cell(row),
        W_PRESENT as nat,
    ) + " | "@ + pad_right(spec_format_attestation(row[0].attestation)@, W_ATT as nat) + " | "@
        + truncated(note_text(row[0]), W_MEANING as nat) + "\n"@
}

/// The attestation level of each row of a group, one per distinct prefix.
pub open spec fn row_atts(group: Seq<VerbFormView>) -> Seq<Attestation> {
    prefixes_of(group).map_values(|p: Seq<char>| with_prefix(group, p)[0].attestation)
}

/// A tally line: `common (c), rare (r), possible (p), impossible (i)`.
pub open spec fn tally_text(t: (nat, nat, nat, nat)) -> Seq<char> {
    "common ("@ + decimal(t.0) + "), rare ("@ + decimal(t.1) + "), possible ("@ + decimal(t.2)
        + "), impossible ("@ + decimal(t.3) + ")"@
}

/// The section of one suffix: its header, the table, and the group's tally.
pub open spec fn group_section(fs: Seq<VerbFormView>, sv: Seq<char>) -> Seq<char> {
    section_of(sv, with_suffix(fs, sv))
}

/// The section of suffix value `sv` over its group of forms.
pub open spec fn section_of(sv: Seq<char>, group: Seq<VerbFormView>) -> Seq<char> {
    "═══ Суффикс "@ + suffix_label(sv) + " ═══\n\n"@ + table_header_text() + concat(
        prefixes_of(group).map_values(|p: Seq<char>| row_line(group, p)),
    ) + "\n  Итого: "@ + tally_text(tally(row_atts(group))) + "\n\n"@
}

/// The tallies over the groups of the suffix values `sufs`, added up.
pub open spec fn total_tally(fs: Seq<VerbFormView>, sufs: Seq<Seq<char>>) -> (nat, nat, nat, nat)
    decreases sufs.len(),
{
    if sufs.len() == 0 {
        (0, 0, 0, 0)
    } else {
        let t = total_tally(fs, sufs.drop_last());
        let g = tally(row_atts(with_suffix(fs, sufs.last())));
        (t.0 + g.0, t.1 + g.1, t.2 + g.2, t.3 + g.3)
    }
}

/// The breakdown blocks of a group over the prefixes `ps`: for each prefix
/// whose row has an infinitive, the block of that infinitive.
pub open spec fn row_blocks(rd: RootData, group: Seq<VerbFormView>, ps: Seq<Seq<char>>) -> Seq<
    Seq<char>,
>
    decreases ps.len(),
{
    if ps.len() == 0 {
        seq![]
    } else {
        let prev = row_blocks(rd, group, ps.drop_last());
        let row = with_prefix(group, ps.last());
        match first_ending_from(row, "ть"@, 0) {
            Some(k) => prev.push(spec_form_block(rd, row[k])),
            None => prev,
        }
    }
}

/// The breakdown blocks of the groups of the suffix values `sufs`, in order.
pub open spec fn all_blocks(rd: RootData, fs: Seq<VerbFormView>, sufs: Seq<Seq<char>>) -> Seq<
    Seq<char>,
>
    decreases sufs.len(),
{
    if sufs.len() == 0 {
        seq![]
    } else {
        let g = with_suffix(fs, sufs.last());
        all_blocks(rd, fs, sufs.drop_last()) + row_blocks(rd, g, prefixes_of(g))
    }
}

/// The two header lines of an explore display.
pub open spec fn explore_header(
    name: Seq<char>,
    gloss: Option<Seq<char>>,
    domain: Domain,
    productivity: ProductivityClass,
) -> Seq<char> {
    let g = match gloss {
        Some(t) => "  «"@ + t + "»"@,
        None => seq![],
    };
    "Корень: "@ + name + "-"@ + g + "\n"@ + "  Домен: "@ + spec_domain_inline(domain)@
        + " · продуктивность "@ + productivity.spec_letter()@ + "\n"@
}

/// The linguistic-note line of a root, if the inventory holds it.
pub open spec fn note_line(rd: Option<RootData>) -> Seq<char> {
    match rd {
        Some(x) => "  Заметка: "@ + x.linguistic_note@ + "\n"@,
        None => seq![],
    }
}

/// The explore display of a result.
///
/// No forms: the header and an honest note, noun-only root or filter that
/// matched nothing. Otherwise: header, note, combination tally, legend, one
/// section per suffix (in order of first occurrence) with its table and
/// tally, the grand tally, and, for a filtered result, the breakdown block of
/// every row's infinitive.
pub open spec fn explore_text(
    name: Seq<char>,
    gloss: Option<Seq<char>>,
    domain: Domain,
    productivity: ProductivityClass,
    filtered: bool,
    fs: Seq<VerbFormView>,
) -> Seq<char> {
    let rd = spec_root_data(name);
    let header = explore_header(name, gloss, domain, productivity);
    if fs.len() == 0 {
        let noun_only = match rd {
            Some(x) => x.suffix_indices@.len() == 0,
            None => true,
        };
        header + if noun_only {
            "  Глагольная парадигма отсутствует, чисто именной корень.\n"@
                + "  Именная деривация в текущей версии движка не реализована.\n"@ + note_line(rd)
        } else {
            "  Нет форм по заданному фильтру.\n"@
        }
    } else {
        let sufs = suffixes_of(fs);
        header + note_line(rd) + "\n"@ + "Всего комбинаций: "@ + decimal(
            prefixes_of(fs).len(),
        ) + " префиксов × "@ + decimal(sufs.len()) + " суффиксов = "@ + decimal(
            combos_of(fs).len(),
        ) + " форм\n\n"@ + legend(fs) + "\n"@ + concat(
            sufs.map_values(|sv: Seq<char>| group_section(fs, sv)),
        ) + "Всего: "@ + tally_text(total_tally(fs, sufs)) + "\n"@ + if filtered {
            "\n"@ + "Разбор форм:\n\n"@ + join(all_blocks(rd->0, fs, sufs), "\n"@)
        } else {
            seq![]
        }
    }
}

/// The explore display of a result.
pub open spec fn spec_format_explore(r: ParadigmResult) -> Seq<char> {
    explore_text(
        r.root_name@,
        opt_text(r.root_gloss_ru),
        r.root_domain,
        r.root_productivity,
        r.suffix_filter is Some,
        forms_view(r.forms@),
    )
}

// ---------------------------------------------------------------------------
// Bounds on the tallies
// ---------------------------------------------------------------------------

/// How many times `v` occurs in `ks`.
pub open spec fn occurrences(ks: Seq<Seq<char>>, v: Seq<char>) -> nat
    decreases ks.len(),
{
    if ks.len() == 0 {
        0
    } else {
        occurrences(ks.drop_last(), v) + if ks.last() == v {
            1nat
        } else {
            0nat
        }
    }
}

/// The sizes of the groups of the suffix values `ks`, added up.
pub open spec fn group_sizes(fs: Seq<VerbFormView>, ks: Seq<Seq<char>>) -> nat
    decreases ks.len(),
{
    if ks.len() == 0 {
        0
    } else {
        group_sizes(fs, ks.drop_last()) + with_suffix(fs, ks.last()).len()
    }
}

/// The number of table rows of the groups of the suffix values `ks`.
pub open spec fn row_count(fs: Seq<VerbFormView>, ks: Seq<Seq<char>>) -> nat
    decreases ks.len(),
{
    if ks.len() == 0 {
        0
    } else {
        row_count(fs, ks.drop_last()) + prefixes_of(with_suffix(fs, ks.last())).len()
    }
}

/// A value occurs at most once in a sequence without duplicates, and not at
/// all when the sequence does not hold it.
proof fn lemma_occurrences_distinct(ks: Seq<Seq<char>>, v: Seq<char>)
    requires
        ks.no_duplicates(),
    ensures
        occurrences(ks, v) <= 1,
        !ks.contains(v) ==> occurrences(ks, v) == 0,
    decreases ks.len(),
{
    if ks.len() > 0 {
        let init = ks.drop_last();
        assert(init.no_duplicates()) by {
            assert forall|i: int, j: int|
                0 <= i < init.len() && 0 <= j < init.len() && i != j implies init[i] != init[j] by {
                assert(ks[i] != ks[j]);
            }
        }
        lemma_occurrences_distinct(init, v);
        if init.contains(v) {
            let k = choose|k: int| 0 <= k < init.len() && #[trigger] init[k] == v;
            assert(ks[k] == v);
            assert(ks.last() != v) by {
                assert(ks[k] != ks[ks.len() - 1]);
            }
        }
        if !ks.contains(v) {
            if init.contains(v) {
                let k = choose|k: int| 0 <= k < init.len() && #[trigger] init[k] == v;
                assert(ks[k] == v);
            }
            assert(ks[ks.len() - 1] != v);
        }
    }
}

/// The groups of an empty list of forms are all empty.
proof fn lemma_sizes_empty(e: Seq<VerbFormView>, ks: Seq<Seq<char>>)
    requires
        e.len() == 0,
    ensures
        group_sizes(e, ks) == 0,
    decreases ks.len(),
{
    reveal(Seq::filter);
    if ks.len() > 0 {
        lemma_sizes_empty(e, ks.drop_last());
    }
}

/// One more form adds one to the size of each group whose key it carries.
proof fn lemma_sizes_step(fs: Seq<VerbFormView>, ks: Seq<Seq<char>>, n: int)
    requires
        0 <= n < fs.len(),
    ensures
        group_sizes(fs.take(n + 1), ks) == group_sizes(fs.take(n), ks) + occurrences(
            ks,
            fs[n].suffix_val,
        ),
    decreases ks.len(),
{
    if ks.len() > 0 {
        lemma_sizes_step(fs, ks.drop_last(), n);
        lemma_filter_take(fs, has_suffix(ks.last()), n);
    }
}

/// The groups of distinct keys hold at most the forms there are.
proof fn lemma_sizes_bound(fs: Seq<VerbFormView>, ks: Seq<Seq<char>>, n: nat)
    requires
        ks.no_duplicates(),
        n <= fs.len(),
    ensures
        group_sizes(fs.take(n as int), ks) <= n,
    decreases n,
{
    if n == 0 {
        lemma_sizes_empty(fs.take(0), ks);
    } else {
        lemma_sizes_bound(fs, ks, (n - 1) as nat);
        lemma_sizes_step(fs, ks, n - 1);
        lemma_occurrences_distinct(ks, fs[n - 1].suffix_val);
    }
}

/// A group has at most as many rows (distinct prefixes) as forms.
proof fn lemma_rows_le_sizes(fs: Seq<VerbFormView>, ks: Seq<Seq<char>>)
    ensures
        row_count(fs, ks) <= group_sizes(fs, ks),
    decreases ks.len(),
{
    if ks.len() > 0 {
        lemma_rows_le_sizes(fs, ks.drop_last());
        let g = with_suffix(fs, ks.last());
        let keys = g.map_values(|f: VerbFormView| f.prefix_display);
        lemma_dedup(keys, keys.len());
    }
}

/// The grand tallies add up to the number of rows.
proof fn lemma_total_is_rows(fs: Seq<VerbFormView>, ks: Seq<Seq<char>>)
    ensures
        total_tally(fs, ks).0 + total_tally(fs, ks).1 + total_tally(fs, ks).2 + total_tally(
            fs,
            ks,
        ).3 == row_count(fs, ks),
    decreases ks.len(),
{
    if ks.len() > 0 {
        lemma_total_is_rows(fs, ks.drop_last());
        lemma_tally_sum(row_atts(with_suffix(fs, ks.last())));
    }
}

/// Every table row of a list of forms is one of its distinct (prefix, suffix)
/// combinations: the grand tally adds up to at most the number of forms.
pub proof fn lemma_total_bound(fs: Seq<VerbFormView>, ks: Seq<Seq<char>>)
    requires
        ks.no_duplicates(),
    ensures
        total_tally(fs, ks).0 + total_tally(fs, ks).1 + total_tally(fs, ks).2 + total_tally(
            fs,
            ks,
        ).3 <= fs.len(),
{
    lemma_total_is_rows(fs, ks);
    lemma_rows_le_sizes(fs, ks);
    lemma_sizes_bound(fs, ks, fs.len());
    assert(fs.take(fs.len() as int) =~= fs);
}

/// Deduplication depends only on the part of the sequence it has read.
proof fn lemma_dedup_prefix<A>(s: Seq<A>, a: A, m: nat)
    requires
        m <= s.len(),
    ensures
        dedup_upto(s.push(a), m) == dedup_upto(s, m),
    decreases m,
{
    if m > 0 {
        lemma_dedup_prefix(s, a, (m - 1) as nat);
        assert(s.push(a)[m - 1] == s[m - 1]);
    }
}

/// Deduplicating one more element adds it exactly when it is new.
proof fn lemma_dedup_push<A>(s: Seq<A>, a: A)
    ensures
        dedup(s.push(a)) == (if dedup(s).contains(a) {
            dedup(s)
        } else {
            dedup(s).push(a)
        }),
        dedup(s).contains(a) <==> s.contains(a),
{
    lemma_dedup_prefix(s, a, s.len());
    assert(s.push(a)[s.len() as int] == a);
    lemma_dedup(s, s.len());
    assert(s.take(s.len() as int) =~= s);
}

/// The prefixes of a list of forms.
pub open spec fn prefix_list(t: Seq<VerbFormView>) -> Seq<Seq<char>> {
    t.map_values(|f: VerbFormView| f.prefix_display)
}

/// The suffix values of a list of forms.
pub open spec fn suffix_list(t: Seq<VerbFormView>) -> Seq<Seq<char>> {
    t.map_values(|f: VerbFormView| f.suffix_val)
}

/// The (prefix, suffix) pairs of a list of forms.
pub open spec fn pair_list(t: Seq<VerbFormView>) -> Seq<(Seq<char>, Seq<char>)> {
    t.map_values(|f: VerbFormView| (f.prefix_display, f.suffix_val))
}

/// A group gains the new form when it carries the group's suffix value.
proof fn lemma_group_push(t: Seq<VerbFormView>, x: VerbFormView, k: Seq<char>)
    ensures
        with_suffix(t.push(x), k) == (if x.suffix_val == k {
            with_suffix(t, k).push(x)
        } else {
            with_suffix(t, k)
        }),
{
    reveal(Seq::filter);
    assert(t.push(x).drop_last() =~= t);
}

/// The group of suffix value `xs` holds prefix `xp` exactly when the pair
/// (`xp`, `xs`) occurs.
proof fn lemma_group_has_prefix(t: Seq<VerbFormView>, xs: Seq<char>, xp: Seq<char>)
    ensures
        prefix_list(with_suffix(t, xs)).contains(xp) <==> pair_list(t).contains((xp, xs)),
{
    let g = with_suffix(t, xs);
    if prefix_list(g).contains(xp) {
        let i = choose|i: int| 0 <= i < prefix_list(g).len() && #[trigger] prefix_list(g)[i] == xp;
        t.lemma_filter_pred(has_suffix(xs), i);
        assert(g.contains(g[i]));
        t.lemma_filter_contains_rev(has_suffix(xs), g[i]);
        let j = choose|j: int| 0 <= j < t.len() && #[trigger] t[j] == g[i];
        assert(pair_list(t)[j] == (xp, xs));
    }
    if pair_list(t).contains((xp, xs)) {
        let j = choose|j: int| 0 <= j < pair_list(t).len() && #[trigger] pair_list(t)[j] == (xp, xs);
        assert(has_suffix(xs)(t[j]));
        t.lemma_filter_contains(has_suffix(xs), j);
        let i = choose|i: int| 0 <= i < g.len() && #[trigger] g[i] == t[j];
        assert(prefix_list(g)[i] == xp);
    }
}

/// A suffix value that no form carries has an empty group.
proof fn lemma_group_absent(t: Seq<VerbFormView>, xs: Seq<char>)
    requires
        !suffix_list(t).contains(xs),
    ensures
        with_suffix(t, xs).len() == 0,
{
    let g = with_suffix(t, xs);
    if g.len() > 0 {
        t.lemma_filter_pred(has_suffix(xs), 0);
        assert(g.contains(g[0]));
        t.lemma_filter_contains_rev(has_suffix(xs), g[0]);
        let j = choose|j: int| 0 <= j < t.len() && #[trigger] t[j] == g[0];
        assert(suffix_list(t)[j] == xs);
    }
}

/// A value a sequence holds occurs in it at least once.
proof fn lemma_occurrences_pos(ks: Seq<Seq<char>>, v: Seq<char>)
    requires
        ks.contains(v),
    ensures
        occurrences(ks, v) >= 1,
    decreases ks.len(),
{
    if ks.last() != v {
        let k = choose|k: int| 0 <= k < ks.len() && #[trigger] ks[k] == v;
        assert(ks.drop_last()[k] == v);
        lemma_occurrences_pos(ks.drop_last(), v);
    }
}

/// One more form adds a row to its suffix's group exactly when its prefix is
/// new there.
proof fn lemma_rows_step(t: Seq<VerbFormView>, x: VerbFormView, ks: Seq<Seq<char>>)
    ensures
        row_count(t.push(x), ks) == row_count(t, ks) + if !prefix_list(
            with_suffix(t, x.suffix_val),
        ).contains(x.prefix_display) {
            occurrences(ks, x.suffix_val)
        } else {
            0
        },
    decreases ks.len(),
{
    if ks.len() > 0 {
        lemma_rows_step(t, x, ks.drop_last());
        let k = ks.last();
        lemma_group_push(t, x, k);
        if k == x.suffix_val {
            let g = with_suffix(t, k);
            assert(prefix_list(g.push(x)) =~= prefix_list(g).push(x.prefix_display));
            lemma_dedup_push(prefix_list(g), x.prefix_display);
        }
    }
}

proof fn lemma_rows_combos(fs: Seq<VerbFormView>, n: nat)
    requires
        n <= fs.len(),
    ensures
        row_count(fs.take(n as int), suffixes_of(fs.take(n as int))) == combos_of(
            fs.take(n as int),
        ).len(),
    decreases n,
{
    if n == 0 {
        let e = fs.take(0);
        assert(suffix_list(e) =~= Seq::<Seq<char>>::empty());
        assert(pair_list(e) =~= Seq::<(Seq<char>, Seq<char>)>::empty());
    } else {
        lemma_rows_combos(fs, (n - 1) as nat);
        let t = fs.take((n - 1) as int);
        let x = fs[n - 1];
        let t1 = fs.take(n as int);
        assert(t1 =~= t.push(x));
        let xs = x.suffix_val;
        let xp = x.prefix_display;
        let ks = suffixes_of(t);
        lemma_dedup(suffix_list(t), suffix_list(t).len());
        assert(suffix_list(t).take(suffix_list(t).len() as int) =~= suffix_list(t));
        lemma_rows_step(t, x, ks);
        lemma_occurrences_distinct(ks, xs);
        assert(suffix_list(t1) =~= suffix_list(t).push(xs));
        lemma_dedup_push(suffix_list(t), xs);
        assert(pair_list(t1) =~= pair_list(t).push((xp, xs)));
        lemma_dedup_push(pair_list(t), (xp, xs));
        lemma_group_has_prefix(t, xs, xp);
        if ks.contains(xs) {
            lemma_occurrences_pos(ks, xs);
        } else {
            lemma_group_absent(t, xs);
            lemma_group_push(t, x, xs);
            let g1 = with_suffix(t1, xs);
            assert(g1 =~= seq![x]);
            assert(prefix_list(g1) =~= seq![xp]);
            assert(dedup_upto(prefix_list(g1), 0) =~= Seq::<Seq<char>>::empty());
            assert(prefix_list(with_suffix(t, xs)) =~= Seq::<Seq<char>>::empty());
            assert(ks.push(xs).drop_last() =~= ks);
        }
    }
}

/// Every table row of the explore display is one distinct prefix × suffix
/// combination: the grand tally ("Всего: common (c), rare (r), …") adds up
/// to the number of distinct (prefix, suffix) pairs, the C of "P префиксов ×
/// S суффиксов = C форм".
pub proof fn law_explore_tally_is_combos(fs: Seq<VerbFormView>)
    ensures
        total_tally(fs, suffixes_of(fs)).0 + total_tally(fs, suffixes_of(fs)).1 + total_tally(
            fs,
            suffixes_of(fs),
        ).2 + total_tally(fs, suffixes_of(fs)).3 == combos_of(fs).len(),
{
    lemma_total_is_rows(fs, suffixes_of(fs));
    lemma_rows_combos(fs, fs.len());
    assert(fs.take(fs.len() as int) =~= fs);
}

/// The distinct elements of a sequence are as many as the elements of its set.
proof fn lemma_dedup_card<A>(s: Seq<A>)
    ensures
        dedup(s).len() == s.to_set().len(),
{
    lemma_dedup(s, s.len());
    assert(s.take(s.len() as int) =~= s);
    assert(dedup(s).to_set() =~= s.to_set());
    dedup(s).unique_seq_to_set();
}

/// The line that counts the prefixes, suffixes and combinations of `fs`.
pub open spec fn combination_line(p: nat, s: nat, c: nat) -> Seq<char> {
    "Всего комбинаций: "@ + decimal(p) + " префиксов × "@ + decimal(s) + " суффиксов = "@ + decimal(
        c,
    ) + " форм\n"@
}

/// A display with forms holds its combination line.
#[verifier::spinoff_prover]
proof fn lemma_combination_line(
    name: Seq<char>,
    gloss: Option<Seq<char>>,
    domain: Domain,
    productivity: ProductivityClass,
    filtered: bool,
    fs: Seq<VerbFormView>,
)
    requires
        fs.len() > 0,
    ensures
        contains_text(
            explore_text(name, gloss, domain, productivity, filtered, fs),
            combination_line(prefixes_of(fs).len(), suffixes_of(fs).len(), combos_of(fs).len()),
        ),
{
    let rd = spec_root_data(name);
    let sufs = suffixes_of(fs);
    let before = explore_header(name, gloss, domain, productivity) + note_line(rd) + "\n"@;
    let line = combination_line(prefixes_of(fs).len(), sufs.len(), combos_of(fs).len());
    let a = explore_header(name, gloss, domain, productivity) + note_line(rd) + "\n"@
        + "Всего комбинаций: "@ + decimal(prefixes_of(fs).len()) + " префиксов × "@ + decimal(
        sufs.len(),
    ) + " суффиксов = "@ + decimal(combos_of(fs).len()) + " форм\n\n"@;
    assert(a =~= before + line + "\n"@) by {
        reveal_strlit(" форм\n\n");
        reveal_strlit(" форм\n");
        reveal_strlit("\n");
    }
    assert(a.subrange(before.len() as int, (before.len() + line.len()) as int) =~= line);
    let x1 = a + legend(fs);
    let x2 = x1 + "\n"@;
    let x3 = x2 + concat(sufs.map_values(|sv: Seq<char>| group_section(fs, sv)));
    let x4 = x3 + "Всего: "@;
    let x5 = x4 + tally_text(total_tally(fs, sufs));
    let x6 = x5 + "\n"@;
    let tail = if filtered {
        "\n"@ + "Разбор форм:\n\n"@ + join(all_blocks(rd->0, fs, sufs), "\n"@)
    } else {
        seq![]
    };
    lemma_contains_append(a, legend(fs), line);
    lemma_contains_append(x1, "\n"@, line);
    lemma_contains_append(x2, concat(sufs.map_values(|sv: Seq<char>| group_section(fs, sv))), line);
    lemma_contains_append(x3, "Всего: "@, line);
    lemma_contains_append(x4, tally_text(total_tally(fs, sufs)), line);
    lemma_contains_append(x5, "\n"@, line);
    lemma_contains_append(x6, tail, line);
    assert(explore_text(name, gloss, domain, productivity, filtered, fs) == x6 + tail);
}

/// The combination line of a display with forms counts the distinct prefixes
/// P, suffix values S and (prefix, suffix) pairs C of the forms: "Всего
/// комбинаций: P префиксов × S суффиксов = C форм"; the grand tally adds up
/// to the same C.
pub proof fn law_explore_header_counts(
    name: Seq<char>,
    gloss: Option<Seq<char>>,
    domain: Domain,
    productivity: ProductivityClass,
    filtered: bool,
    fs: Seq<VerbFormView>,
)
    requires
        fs.len() > 0,
    ensures
        contains_text(
            explore_text(name, gloss, domain, productivity, filtered, fs),
            combination_line(
                prefix_list(fs).to_set().len(),
                suffix_list(fs).to_set().len(),
                pair_list(fs).to_set().len(),
            ),
        ),
        total_tally(fs, suffixes_of(fs)).0 + total_tally(fs, suffixes_of(fs)).1 + total_tally(
            fs,
            suffixes_of(fs),
        ).2 + total_tally(fs, suffixes_of(fs)).3 == pair_list(fs).to_set().len(),
{
    assert(prefix_list(fs) =~= fs.map_values(|f: VerbFormView| f.prefix_display));
    assert(suffix_list(fs) =~= fs.map_values(|f: VerbFormView| f.suffix_val));
    assert(pair_list(fs) =~= fs.map_values(|f: VerbFormView| (f.prefix_display, f.suffix_val)));
    lemma_dedup_card(prefix_list(fs));
    lemma_dedup_card(suffix_list(fs));
    lemma_dedup_card(pair_list(fs));
    law_explore_tally_is_combos(fs);
    lemma_combination_line(name, gloss, domain, productivity, filtered, fs);
}

/// The breakdown section "Разбор форм:" belongs to filtered results only: a
/// filtered display is the unfiltered one followed by that section, and the
/// unfiltered display ends with the grand tally line.
#[verifier::spinoff_prover]
pub proof fn law_explore_blocks_iff_filtered(
    name: Seq<char>,
    gloss: Option<Seq<char>>,
    domain: Domain,
    productivity: ProductivityClass,
    fs: Seq<VerbFormView>,
)
    requires
        fs.len() > 0,
    ensures
        explore_text(name, gloss, domain, productivity, true, fs) == explore_text(
            name,
            gloss,
            domain,
            productivity,
            false,
            fs,
        ) + "\n"@ + "Разбор форм:\n\n"@ + join(
            all_blocks(spec_root_data(name)->0, fs, suffixes_of(fs)),
            "\n"@,
        ),
        contains_text(explore_text(name, gloss, domain, productivity, true, fs), "Разбор форм:\n\n"@),
        exists|head: Seq<char>|
            explore_text(name, gloss, domain, productivity, false, fs) == head + "Всего: "@
                + tally_text(total_tally(fs, suffixes_of(fs))) + "\n"@,
{
    let rd = spec_root_data(name);
    let sufs = suffixes_of(fs);
    let head = explore_header(name, gloss, domain, productivity) + note_line(rd) + "\n"@
        + "Всего комбинаций: "@ + decimal(prefixes_of(fs).len()) + " префиксов × "@ + decimal(
        sufs.len(),
    ) + " суффиксов = "@ + decimal(combos_of(fs).len()) + " форм\n\n"@ + legend(fs) + "\n"@
        + concat(sufs.map_values(|sv: Seq<char>| group_section(fs, sv)));
    let u = head + "Всего: "@ + tally_text(total_tally(fs, sufs)) + "\n"@;
    let section = "Разбор форм:\n\n"@;
    let joined = join(all_blocks(rd->0, fs, sufs), "\n"@);
    assert(explore_text(name, gloss, domain, productivity, false, fs) == u + seq![]);
    assert(u + seq![] =~= u);
    assert(explore_text(name, gloss, domain, productivity, true, fs) == u + ("\n"@ + section
        + joined));
    assert(u + ("\n"@ + section + joined) =~= u + "\n"@ + section + joined);
    let f = u + "\n"@ + section + joined;
    let j: int = (u + "\n"@).len() as int;
    assert(f.subrange(j, j + section.len()) =~= section);
}

// ---------------------------------------------------------------------------
// Executable helpers over the form list
// ---------------------------------------------------------------------------

/// Whether `v` holds a string with the text of `s`.
fn contains_str(v: &Vec<&str>, s: &str) -> (r: bool)
    ensures
        r == v@.map_values(|x: &str| x@).contains(s@),
{
    let ghost vs = v@.map_values(|x: &str| x@);
    let mut i: usize = 0;
    while i < v.len()
        invariant
            i <= v@.len(),
            vs == v@.map_values(|x: &str| x@),
            forall|k: int| 0 <= k < i ==> vs[k] != s@,
        decreases v@.len() - i,
    {
        if str_eq(v[i], s) {
            assert(vs[i as int] == s@);
            return true;
        }
        i = i + 1;
    }
    false
}

/// Truncate to `max` characters (char-based, for Cyrillic), adding an ellipsis.
fn truncate(s: &str, max: usize) -> (r: String)
    ensures
        r@ == truncated(s@, max as nat),
{
    let n = s.unicode_len();
    if n <= max {
        owned(s)
    } else {
        let keep = if max == 0 {
            0
        } else {
            max - 1
        };
        let mut r = owned(s.substring_char(0, keep));
        r.append("…");
        r
    }
}

/// The overview table's header row and rule.
fn table_header() -> (r: String)
    ensures
        r@ == table_header_text(),
{
    let mut s = owned("  ");
    push_padded(&mut s, "Префикс", W_PREFIX);
    s.append(" | ");
    push_padded(&mut s, "Инфинитив", W_INF);
    s.append(" | ");
    push_padded(&mut s, "Прош. -л", W_PAST);
    s.append(" | ");
    push_padded(&mut s, "Наст. 3л", W_PRESENT);
    s.append(" | ");
    push_padded(&mut s, "Аттест.", W_ATT);
    s.append(" | ");
    s.append("Значение");
    s.append("\n");
    s.append("  ");
    push_repeated(&mut s, "-", W_PREFIX);
    s.append("-+-");
    push_repeated(&mut s, "-", W_INF);
    s.append("-+-");
    push_repeated(&mut s, "-", W_PAST);
    s.append("-+-");
    push_repeated(&mut s, "-", W_PRESENT);
    s.append("-+-");
    push_repeated(&mut s, "-", W_ATT);
    s.append("-+-");
    push_repeated(&mut s, "-", 8);
    s.append("\n");
    s
}

/// The distinct prefixes of the forms, in order of first occurrence.
fn unique_prefixes(forms: &Vec<VerbForm>) -> (r: Vec<&'static str>)
    ensures
        r@.map_values(|x: &str| x@) == prefixes_of(forms_view(forms@)),
{
    let ghost fs = forms_view(forms@);
    let ghost keys = fs.map_values(|f: VerbFormView| f.prefix_display);
    let mut seen: Vec<&'static str> = Vec::new();
    let mut i: usize = 0;
    while i < forms.len()
        invariant
            i <= forms@.len(),
            fs == forms_view(forms@),
            keys == fs.map_values(|f: VerbFormView| f.prefix_display),
            seen@.map_values(|x: &str| x@) == dedup_upto(keys, i as nat),
        decreases forms@.len() - i,
    {
        let p = forms[i].prefix_display;
        assert(keys[i as int] == p@);
        if !contains_str(&seen, p) {
            let ghost before = seen@;
            seen.push(p);
            assert(seen@.map_values(|x: &str| x@) =~= before.map_values(|x: &str| x@).push(p@));
        }
        i = i + 1;
    }
    seen
}

/// The distinct suffix values of the forms, in order of first occurrence.
fn unique_suffixes(forms: &Vec<VerbForm>) -> (r: Vec<&'static str>)
    ensures
        r@.map_values(|x: &str| x@) == suffixes_of(forms_view(forms@)),
{
    let ghost fs = forms_view(forms@);
    let ghost keys = fs.map_values(|f: VerbFormView| f.suffix_val);
    let mut seen: Vec<&'static str> = Vec::new();
    let mut i: usize = 0;
    while i < forms.len()
        invariant
            i <= forms@.len(),
            fs == forms_view(forms@),
            keys == fs.map_values(|f: VerbFormView| f.suffix_val),
            seen@.map_values(|x: &str| x@) == dedup_upto(keys, i as nat),
        decreases forms@.len() - i,
    {
        let sv = forms[i].suffix_val;
        assert(keys[i as int] == sv@);
        if !contains_str(&seen, sv) {
            let ghost before = seen@;
            seen.push(sv);
            assert(seen@.map_values(|x: &str| x@) =~= before.map_values(|x: &str| x@).push(sv@));
        }
        i = i + 1;
    }
    seen
}

/// The forms with suffix value `sv`, in order.
fn select_suffix(forms: &Vec<VerbForm>, sv: &str) -> (r: Vec<VerbForm>)
    ensures
        forms_view(r@) == with_suffix(forms_view(forms@), sv@),
{
    let ghost fs = forms_view(forms@);
    let mut r: Vec<VerbForm> = Vec::new();
    let mut i: usize = 0;
    while i < forms.len()
        invariant
            i <= forms@.len(),
            fs == forms_view(forms@),
            forms_view(r@) == fs.take(i as int).filter(has_suffix(sv@)),
        decreases forms@.len() - i,
    {
        proof {
            lemma_filter_take(fs, has_suffix(sv@), i as int);
        }
        assert(fs[i as int] == forms@[i as int]@);
        if str_eq(forms[i].suffix_val, sv) {
            let ghost before = r@;
            let f = forms[i].clone();
            r.push(f);
            assert(forms_view(r@) =~= forms_view(before).push(f@));
        }
        i = i + 1;
    }
    assert(fs.take(forms@.len() as int) =~= fs);
    r
}

/// The forms with prefix `p`, in order.
fn select_prefix(forms: &Vec<VerbForm>, p: &str) -> (r: Vec<VerbForm>)
    ensures
        forms_view(r@) == with_prefix(forms_view(forms@), p@),
{
    let ghost fs = forms_view(forms@);
    let mut r: Vec<VerbForm> = Vec::new();
    let mut i: usize = 0;
    while i < forms.len()
        invariant
            i <= forms@.len(),
            fs == forms_view(forms@),
            forms_view(r@) == fs.take(i as int).filter(has_prefix(p@)),
        decreases forms@.len() - i,
    {
        proof {
            lemma_filter_take(fs, has_prefix(p@), i as int);
        }
        assert(fs[i as int] == forms@[i as int]@);
        if str_eq(forms[i].prefix_display, p) {
            let ghost before = r@;
            let f = forms[i].clone();
            r.push(f);
            assert(forms_view(r@) =~= forms_view(before).push(f@));
        }
        i = i + 1;
    }
    assert(fs.take(forms@.len() as int) =~= fs);
    r
}

/// The word of the first form with ending `e`, or `—`.
fn form_str(row: &Vec<VerbForm>, e: &str) -> (r: String)
    ensures
        r@ == cell(forms_view(row@), e@),
{
    let ghost fs = forms_view(row@);
    let mut i: usize = 0;
    while i < row.len()
        invariant
            i <= row@.len(),
            fs == forms_view(row@),
            first_ending_from(fs, e@, 0) == first_ending_from(fs, e@, i as nat),
        decreases row@.len() - i,
    {
        assert(fs[i as int] == row@[i as int]@);
        if str_eq(row[i].ending_val, e) {
            return row[i].form.clone();
        }
        i = i + 1;
    }
    owned("—")
}

/// The word of the first present-tense form, or `—`.
fn present_form_str(row: &Vec<VerbForm>) -> (r: String)
    ensures
        r@ == present_cell(forms_view(row@)),
{
    let ghost fs = forms_view(row@);
    let mut i: usize = 0;
    while i < row.len()
        invariant
            i <= row@.len(),
            fs == forms_view(row@),
            first_present_from(fs, 0) == first_present_from(fs, i as nat),
        decreases row@.len() - i,
    {
        assert(fs[i as int] == row@[i as int]@);
        if present_ending(row[i].ending_val) {
            return row[i].form.clone();
        }
        i = i + 1;
    }
    owned("—")
}

/// The distinct present-tense endings among the forms, in order.
fn unique_present_endings(forms: &Vec<VerbForm>) -> (r: Vec<&'static str>)
    ensures
        r@.map_values(|x: &str| x@) == present_endings(forms_view(forms@)),
{
    let ghost fs = forms_view(forms@);
    let mut seen: Vec<&'static str> = Vec::new();
    let mut i: usize = 0;
    while i < forms.len()
        invariant
            i <= forms@.len(),
            fs == forms_view(forms@),
            seen@.map_values(|x: &str| x@) == present_endings_upto(fs, i as nat),
        decreases forms@.len() - i,
    {
        let e = forms[i].ending_val;
        assert(fs[i as int].ending_val == e@);
        if present_ending(e) && !contains_str(&seen, e) {
            let ghost before = seen@;
            seen.push(e);
            assert(seen@.map_values(|x: &str| x@) =~= before.map_values(|x: &str| x@).push(e@));
        }
        i = i + 1;
    }
    seen
}

/// Whether `v` holds the pair of texts `(a, b)`.
fn contains_pair(v: &Vec<(&str, &str)>, a: &str, b: &str) -> (r: bool)
    ensures
        r == v@.map_values(|x: (&str, &str)| (x.0@, x.1@)).contains((a@, b@)),
{
    let ghost vs = v@.map_values(|x: (&str, &str)| (x.0@, x.1@));
    let mut i: usize = 0;
    while i < v.len()
        invariant
            i <= v@.len(),
            vs == v@.map_values(|x: (&str, &str)| (x.0@, x.1@)),
            forall|k: int| 0 <= k < i ==> vs[k] != (a@, b@),
        decreases v@.len() - i,
    {
        let (x, y) = v[i];
        if str_eq(x, a) && str_eq(y, b) {
            assert(vs[i as int] == (a@, b@));
            return true;
        }
        assert(vs[i as int] == (x@, y@));
        i = i + 1;
    }
    false
}

/// The distinct (prefix, suffix) combinations of the forms, in order of first
/// occurrence.
fn unique_combos(forms: &Vec<VerbForm>) -> (r: Vec<(&'static str, &'static str)>)
    ensures
        r@.map_values(|x: (&str, &str)| (x.0@, x.1@)) == combos_of(forms_view(forms@)),
{
    let ghost fs = forms_view(forms@);
    let ghost keys = fs.map_values(|f: VerbFormView| (f.prefix_display, f.suffix_val));
    let mut seen: Vec<(&'static str, &'static str)> = Vec::new();
    let mut i: usize = 0;
    while i < forms.len()
        invariant
            i <= forms@.len(),
            fs == forms_view(forms@),
            keys == fs.map_values(|f: VerbFormView| (f.prefix_display, f.suffix_val)),
            seen@.map_values(|x: (&str, &str)| (x.0@, x.1@)) == dedup_upto(keys, i as nat),
        decreases forms@.len() - i,
    {
        let p = forms[i].prefix_display;
        let sv = forms[i].suffix_val;
        assert(keys[i as int] == (p@, sv@));
        if !contains_pair(&seen, p, sv) {
            let ghost before = seen@;
            seen.push((p, sv));
            assert(seen@.map_values(|x: (&str, &str)| (x.0@, x.1@)) =~= before.map_values(
                |x: (&str, &str)| (x.0@, x.1@),
            ).push((p@, sv@)));
        }
        i = i + 1;
    }
    seen
}

/// A suffix value shown for a list of forms whose suffix values are all
/// known is a known suffix value.
proof fn lemma_known_suffix(fs: Seq<VerbFormView>, x: Seq<char>)
    requires
        suffixes_known(fs),
        suffixes_of(fs).contains(x),
    ensures
        is_suffix_val(x),
{
    let keys = fs.map_values(|f: VerbFormView| f.suffix_val);
    lemma_dedup(keys, keys.len());
    assert(keys.take(keys.len() as int) =~= keys);
    let k = choose|k: int| 0 <= k < keys.len() && #[trigger] keys[k] == x;
    assert(is_suffix_val(fs[k].suffix_val));
}

/// The morpheme legend: suffixes (with glosses), endings (as columns),
/// prefixes.
fn format_legend(forms: &Vec<VerbForm>) -> (r: String)
    requires
        suffixes_known(forms_view(forms@)),
    ensures
        r@ == legend(forms_view(forms@)),
{
    let ghost fs = forms_view(forms@);
    let mut out = owned("Легенда:\n");

    let sufs = unique_suffixes(forms);
    let ghost sv = sufs@.map_values(|x: &str| x@);
    let ghost labels = sv.map_values(|x: Seq<char>| suffix_label(x));
    let mut parts: Vec<String> = Vec::new();
    let mut i: usize = 0;
    while i < sufs.len()
        invariant
            i <= sufs@.len(),
            fs == forms_view(forms@),
            suffixes_known(fs),
            sv == sufs@.map_values(|x: &str| x@),
            sv == suffixes_of(fs),
            labels == sv.map_values(|x: Seq<char>| suffix_label(x)),
            parts@.map_values(|p: String| p@) == labels.take(i as int),
        decreases sufs@.len() - i,
    {
        let s = sufs[i];
        assert(sv[i as int] == s@);
        proof {
            assert(suffixes_of(fs).contains(s@));
            lemma_known_suffix(fs, s@);
        }
        let idx = suffix_index_for_val(s);
        let se = suffix_entry(idx);
        let mut part = owned(se.display);
        part.append(" (");
        part.append(se.gloss);
        part.append(")");
        let ghost before = parts@;
        parts.push(part);
        assert(parts@.map_values(|p: String| p@) =~= before.map_values(|p: String| p@).push(
            suffix_label(s@),
        ));
        assert(labels.take((i + 1) as int) =~= labels.take(i as int).push(labels[i as int]));
        i = i + 1;
    }
    assert(labels.take(sufs@.len() as int) =~= labels);
    out.append("  суффиксы: ");
    let joined = join_strings(&parts, ", ");
    out.append(joined.as_str());
    out.append("\n");

    // Endings, by column meaning; present forms vary by suffix class.
    let present = unique_present_endings(forms);
    let ghost pv = present@.map_values(|x: &str| x@);
    let ghost shown = pv.map_values(|e: Seq<char>| "-"@ + e);
    let mut disp: Vec<String> = Vec::new();
    let mut j: usize = 0;
    while j < present.len()
        invariant
            j <= present@.len(),
            pv == present@.map_values(|x: &str| x@),
            shown == pv.map_values(|e: Seq<char>| "-"@ + e),
            disp@.map_values(|p: String| p@) == shown.take(j as int),
        decreases present@.len() - j,
    {
        let mut d = owned("-");
        d.append(present[j]);
        let ghost before = disp@;
        disp.push(d);
        assert(disp@.map_values(|p: String| p@) =~= before.map_values(|p: String| p@).push(
            shown[j as int],
        ));
        assert(shown.take((j + 1) as int) =~= shown.take(j as int).push(shown[j as int]));
        j = j + 1;
    }
    assert(shown.take(present@.len() as int) =~= shown);
    out.append("  окончания (колонки): Инфинитив -ть · Прош. -л · Наст. 3 л. ");
    let joined = join_strings(&disp, "/");
    out.append(joined.as_str());
    out.append("\n");

    let prefixes = unique_prefixes(forms);
    out.append("  префиксы: ");
    let joined = join_strs(prefixes.as_slice(), ", ");
    out.append(joined.as_str());
    out.append("\n");
    assert(out@ =~= legend(fs));
    out
}

/// A prefix shown for a group has at least one form in the group.
proof fn lemma_row_nonempty(group: Seq<VerbFormView>, p: Seq<char>)
    requires
        prefixes_of(group).contains(p),
    ensures
        with_prefix(group, p).len() > 0,
{
    let keys = group.map_values(|f: VerbFormView| f.prefix_display);
    lemma_dedup(keys, keys.len());
    assert(keys.take(keys.len() as int) =~= keys);
    let k = choose|k: int| 0 <= k < keys.len() && #[trigger] keys[k] == p;
    assert(has_prefix(p)(group[k]));
    group.lemma_filter_contains(has_prefix(p), k);
}

/// Appends a tally: `common (c), rare (r), possible (p), impossible (i)`.
fn push_tally(out: &mut String, c: usize, r: usize, p: usize, i: usize)
    ensures
        final(out)@ == old(out)@ + tally_text((c as nat, r as nat, p as nat, i as nat)),
{
    out.append("common (");
    push_decimal(out, c);
    out.append("), rare (");
    push_decimal(out, r);
    out.append("), possible (");
    push_decimal(out, p);
    out.append("), impossible (");
    push_decimal(out, i);
    out.append(")");
}

/// One table row of a group: the forms with prefix `p`.
fn format_row(group: &Vec<VerbForm>, p: &str) -> (r: (String, Attestation))
    requires
        with_prefix(forms_view(group@), p@).len() > 0,
    ensures
        r.0@ == row_line(forms_view(group@), p@),
        r.1 == with_prefix(forms_view(group@), p@)[0].attestation,
{
    let row = select_prefix(group, p);
    let inf = form_str(&row, "ть");
    let past = form_str(&row, "л");
    let present = present_form_str(&row);
    // Attestation and note are per (prefix, suffix): read from any ending.
    let rep = &row[0];
    assert(forms_view(row@)[0] == rep@);
    let note = match rep.note {
        Some(n) => n,
        None => "—",
    };
    let mut line = owned("  ");
    push_padded(&mut line, p, W_PREFIX);
    line.append(" | ");
    push_padded(&mut line, inf.as_str(), W_INF);
    line.append(" | ");
    push_padded(&mut line, past.as_str(), W_PAST);
    line.append(" | ");
    push_padded(&mut line, present.as_str(), W_PRESENT);
    line.append(" | ");
    push_padded(&mut line, format_attestation(rep.attestation), W_ATT);
    line.append(" | ");
    let meaning = truncate(note, W_MEANING);
    line.append(meaning.as_str());
    line.append("\n");
    assert(line@ =~= row_line(forms_view(group@), p@));
    (line, rep.attestation)
}

/// The rows of a group, one per distinct prefix, with their tallies.
fn format_rows(group: &Vec<VerbForm>) -> (r: (String, usize, usize, usize, usize))
    ensures
        r.0@ == concat(
            prefixes_of(forms_view(group@)).map_values(
                |q: Seq<char>| row_line(forms_view(group@), q),
            ),
        ),
        (r.1 as nat, r.2 as nat, r.3 as nat, r.4 as nat) == tally(row_atts(forms_view(group@))),
{
    let ghost g = forms_view(group@);
    let mut out = String::new();
    let prefixes = unique_prefixes(group);
    let ghost pv = prefixes@.map_values(|x: &str| x@);
    let ghost lines = pv.map_values(|q: Seq<char>| row_line(g, q));
    let ghost atts = row_atts(g);
    let mut c: usize = 0;
    let mut r: usize = 0;
    let mut p: usize = 0;
    let mut i: usize = 0;
    let mut j: usize = 0;
    while j < prefixes.len()
        invariant
            j <= prefixes@.len(),
            g == forms_view(group@),
            pv == prefixes@.map_values(|x: &str| x@),
            pv == prefixes_of(g),
            lines == pv.map_values(|q: Seq<char>| row_line(g, q)),
            atts == row_atts(g),
            out@ == concat(lines.take(j as int)),
            (c as nat, r as nat, p as nat, i as nat) == tally(atts.take(j as int)),
            c + r + p + i == j,
        decreases prefixes@.len() - j,
    {
        let q = prefixes[j];
        assert(pv[j as int] == q@);
        proof {
            assert(prefixes_of(g).contains(q@));
            lemma_row_nonempty(g, q@);
        }
        let (line, att) = format_row(group, q);
        out.append(line.as_str());
        assert(lines.take((j + 1) as int).drop_last() =~= lines.take(j as int));
        assert(atts.take((j + 1) as int).drop_last() =~= atts.take(j as int));
        assert(atts[j as int] == att);
        count_attestation(&mut c, &mut r, &mut p, &mut i, att);
        j = j + 1;
    }
    assert(lines.take(prefixes@.len() as int) =~= lines);
    assert(atts.take(prefixes@.len() as int) =~= atts);
    (out, c, r, p, i)
}

/// The forms grouped by suffix value: one group per distinct value, in order
/// of first occurrence, each holding the forms with that value in order.
fn group_by_suffix(forms: &Vec<VerbForm>) -> (r: Vec<(&'static str, Vec<VerbForm>)>)
    ensures
        r@.len() == suffixes_of(forms_view(forms@)).len(),
        forall|g: int|
            0 <= g < r@.len() ==> (#[trigger] r@[g]).0@ == suffixes_of(forms_view(forms@))[g]
                && forms_view(r@[g].1@) == with_suffix(forms_view(forms@), r@[g].0@),
{
    let ghost fs = forms_view(forms@);
    let keys = unique_suffixes(forms);
    let ghost kv = keys@.map_values(|x: &str| x@);
    let mut groups: Vec<(&'static str, Vec<VerbForm>)> = Vec::new();
    let mut g: usize = 0;
    while g < keys.len()
        invariant
            g <= keys@.len(),
            fs == forms_view(forms@),
            kv == keys@.map_values(|x: &str| x@),
            kv == suffixes_of(fs),
            groups@.len() == g,
            forall|h: int|
                0 <= h < g ==> (#[trigger] groups@[h]).0@ == kv[h] && forms_view(groups@[h].1@)
                    == with_suffix(fs, groups@[h].0@),
        decreases keys@.len() - g,
    {
        let key = keys[g];
        assert(kv[g as int] == key@);
        let members = select_suffix(forms, key);
        groups.push((key, members));
        g = g + 1;
    }
    groups
}

/// The section of one suffix over its group of forms, with the group's
/// tallies.
fn format_group(sv: &str, group: &Vec<VerbForm>) -> (r: (String, usize, usize, usize, usize))
    requires
        is_suffix_val(sv@),
    ensures
        r.0@ == section_of(sv@, forms_view(group@)),
        (r.1 as nat, r.2 as nat, r.3 as nat, r.4 as nat) == tally(row_atts(forms_view(group@))),
{
    let idx = suffix_index_for_val(sv);
    let se = suffix_entry(idx);
    let mut out = owned("═══ Суффикс ");
    out.append(se.display);
    out.append(" (");
    out.append(se.gloss);
    out.append(")");
    out.append(" ═══\n\n");
    let header = table_header();
    out.append(header.as_str());
    let (rows, c, r, p, i) = format_rows(group);
    out.append(rows.as_str());
    out.append("\n  Итого: ");
    push_tally(&mut out, c, r, p, i);
    out.append("\n\n");
    assert(out@ =~= section_of(sv@, forms_view(group@)));
    (out, c, r, p, i)
}

/// The sections of every suffix group, with the grand tallies.
fn format_groups(forms: &Vec<VerbForm>, groups: &Vec<(&'static str, Vec<VerbForm>)>) -> (r: (
    String,
    usize,
    usize,
    usize,
    usize,
))
    requires
        suffixes_known(forms_view(forms@)),
        groups@.len() == suffixes_of(forms_view(forms@)).len(),
        forall|g: int|
            0 <= g < groups@.len() ==> (#[trigger] groups@[g]).0@ == suffixes_of(
                forms_view(forms@),
            )[g] && forms_view(groups@[g].1@) == with_suffix(forms_view(forms@), groups@[g].0@),
    ensures
        r.0@ == concat(
            suffixes_of(forms_view(forms@)).map_values(
                |sv: Seq<char>| group_section(forms_view(forms@), sv),
            ),
        ),
        (r.1 as nat, r.2 as nat, r.3 as nat, r.4 as nat) == total_tally(
            forms_view(forms@),
            suffixes_of(forms_view(forms@)),
        ),
{
    let ghost fs = forms_view(forms@);
    let ghost sv = suffixes_of(fs);
    let ghost sections = sv.map_values(|x: Seq<char>| group_section(fs, x));
    proof {
        let keys = fs.map_values(|f: VerbFormView| f.suffix_val);
        lemma_dedup(keys, keys.len());
    }
    let n = forms.len();
    let mut out = String::new();
    let mut oc: usize = 0;
    let mut orr: usize = 0;
    let mut op: usize = 0;
    let mut oi: usize = 0;
    let mut g: usize = 0;
    while g < groups.len()
        invariant
            g <= groups@.len(),
            fs == forms_view(forms@),
            suffixes_known(fs),
            sv == suffixes_of(fs),
            sv.no_duplicates(),
            n == fs.len(),
            groups@.len() == sv.len(),
            forall|h: int|
                0 <= h < groups@.len() ==> (#[trigger] groups@[h]).0@ == sv[h] && forms_view(
                    groups@[h].1@,
                ) == with_suffix(fs, groups@[h].0@),
            sections == sv.map_values(|x: Seq<char>| group_section(fs, x)),
            out@ == concat(sections.take(g as int)),
            (oc as nat, orr as nat, op as nat, oi as nat) == total_tally(fs, sv.take(g as int)),
        decreases groups@.len() - g,
    {
        let (x, group) = (groups[g].0, &groups[g].1);
        assert(groups@[g as int].0@ == sv[g as int]);
        proof {
            assert(sv.contains(x@));
            lemma_known_suffix(fs, x@);
        }
        let (section, c, r, p, i) = format_group(x, group);
        out.append(section.as_str());
        proof {
            let next = sv.take((g + 1) as int);
            assert(next.drop_last() =~= sv.take(g as int));
            assert(next.last() == x@);
            assert(next.no_duplicates()) by {
                assert forall|a: int, b: int|
                    0 <= a < next.len() && 0 <= b < next.len() && a != b implies next[a]
                    != next[b] by {
                    assert(sv[a] != sv[b]);
                }
            }
            lemma_total_bound(fs, next);
            assert(sections.take((g + 1) as int).drop_last() =~= sections.take(g as int));
        }
        oc = oc + c;
        orr = orr + r;
        op = op + p;
        oi = oi + i;
        g = g + 1;
    }
    assert(sections.take(groups@.len() as int) =~= sections);
    assert(sv.take(groups@.len() as int) =~= sv);
    (out, oc, orr, op, oi)
}

/// A form of a row of a group whose forms all carry suffix value `sv`
/// carries `sv`.
proof fn lemma_row_form_suffix(g: Seq<VerbFormView>, sv: Seq<char>, p: Seq<char>, k: int)
    requires
        forall|i: int| 0 <= i < g.len() ==> (#[trigger] g[i]).suffix_val == sv,
        0 <= k < with_prefix(g, p).len(),
    ensures
        with_prefix(g, p)[k].suffix_val == sv,
{
    let row = with_prefix(g, p);
    assert(row.contains(row[k]));
    g.lemma_filter_contains_rev(has_prefix(p), row[k]);
    let m = choose|m: int| 0 <= m < g.len() && #[trigger] g[m] == row[k];
    assert(g[m].suffix_val == sv);
}

/// Every form of the group of suffix value `sv` carries `sv`.
proof fn lemma_group_suffix(fs: Seq<VerbFormView>, sv: Seq<char>)
    ensures
        forall|i: int|
            0 <= i < with_suffix(fs, sv).len() ==> (#[trigger] with_suffix(fs, sv)[i]).suffix_val
                == sv,
{
    assert forall|i: int| 0 <= i < with_suffix(fs, sv).len() implies (#[trigger] with_suffix(
        fs,
        sv,
    )[i]).suffix_val == sv by {
        fs.lemma_filter_pred(has_suffix(sv), i);
    }
}

/// The position found by the ending search holds that ending.
proof fn lemma_first_ending(fs: Seq<VerbFormView>, e: Seq<char>, i: nat)
    ensures
        first_ending_from(fs, e, i) matches Some(k) ==> i <= k < fs.len() && fs[k].ending_val == e,
    decreases fs.len() - i,
{
    if i < fs.len() {
        lemma_first_ending(fs, e, i + 1);
    }
}

/// The infinitive of a row, if the row has one.
fn row_infinitive(row: &Vec<VerbForm>) -> (r: Option<usize>)
    ensures
        r matches Some(k) ==> first_ending_from(forms_view(row@), "ть"@, 0) == Some(k as int),
        r is None ==> first_ending_from(forms_view(row@), "ть"@, 0) is None,
{
    let ghost fs = forms_view(row@);
    let mut i: usize = 0;
    while i < row.len()
        invariant
            i <= row@.len(),
            fs == forms_view(row@),
            first_ending_from(fs, "ть"@, 0) == first_ending_from(fs, "ть"@, i as nat),
        decreases row@.len() - i,
    {
        assert(fs[i as int] == row@[i as int]@);
        if str_eq(row[i].ending_val, "ть") {
            return Some(i);
        }
        i = i + 1;
    }
    None
}

/// Appends the breakdown blocks of one suffix group, separated from the
/// blocks before them by blank lines.
fn push_group_blocks(
    out: &mut String,
    rd: &RootData,
    sv: &str,
    group: &Vec<VerbForm>,
    first: bool,
    Ghost(done): Ghost<Seq<Seq<char>>>,
) -> (still_first: bool)
    requires
        is_suffix_val(sv@),
        forall|i: int|
            0 <= i < forms_view(group@).len() ==> (#[trigger] forms_view(group@)[i]).suffix_val
                == sv@,
        old(out)@ == join(done, "\n"@),
        first == (done.len() == 0),
    ensures
        still_first == ((done + row_blocks(
            *rd,
            forms_view(group@),
            prefixes_of(forms_view(group@)),
        )).len() == 0),
        final(out)@ == join(
            done + row_blocks(*rd, forms_view(group@), prefixes_of(forms_view(group@))),
            "\n"@,
        ),
{
    let ghost g = forms_view(group@);
    let prefixes = unique_prefixes(group);
    let ghost pv = prefixes@.map_values(|x: &str| x@);
    assert(spec_ending(0).val@ == "ть"@);
    assert(is_ending_val("ть"@));
    let mut first = first;
    let mut j: usize = 0;
    while j < prefixes.len()
        invariant
            j <= prefixes@.len(),
            is_suffix_val(sv@),
            g == forms_view(group@),
            forall|i: int| 0 <= i < g.len() ==> (#[trigger] g[i]).suffix_val == sv@,
            pv == prefixes@.map_values(|x: &str| x@),
            pv == prefixes_of(g),
            is_ending_val("ть"@),
            out@ == join(done + row_blocks(*rd, g, pv.take(j as int)), "\n"@),
            first == ((done + row_blocks(*rd, g, pv.take(j as int))).len() == 0),
        decreases prefixes@.len() - j,
    {
        let q = prefixes[j];
        assert(pv[j as int] == q@);
        let row = select_prefix(group, q);
        let ghost rv = forms_view(row@);
        let ghost before = done + row_blocks(*rd, g, pv.take(j as int));
        assert(pv.take((j + 1) as int).drop_last() =~= pv.take(j as int));
        assert(pv.take((j + 1) as int).last() == q@);
        // Representative = infinitive.
        match row_infinitive(&row) {
            Some(k) => {
                proof {
                    lemma_first_ending(rv, "ть"@, 0);
                    lemma_row_form_suffix(g, sv@, q@, k as int);
                }
                assert(rv[k as int] == row@[k as int]@);
                let block = format_form_block(rd, &row[k]);
                proof {
                    lemma_join_push(before, block@, "\n"@);
                    assert(before.push(block@) =~= done + row_blocks(
                        *rd,
                        g,
                        pv.take((j + 1) as int),
                    ));
                }
                if !first {
                    out.append("\n");
                }
                first = false;
                out.append(block.as_str());
            },
            None => {
                assert(before =~= done + row_blocks(*rd, g, pv.take((j + 1) as int)));
            },
        }
        j = j + 1;
    }
    assert(pv.take(prefixes@.len() as int) =~= pv);
    first
}

/// Appends the breakdown blocks of every suffix group, separated by blank
/// lines.
fn push_all_blocks(
    out: &mut String,
    rd: &RootData,
    forms: &Vec<VerbForm>,
    groups: &Vec<(&'static str, Vec<VerbForm>)>,
)
    requires
        suffixes_known(forms_view(forms@)),
        groups@.len() == suffixes_of(forms_view(forms@)).len(),
        forall|g: int|
            0 <= g < groups@.len() ==> (#[trigger] groups@[g]).0@ == suffixes_of(
                forms_view(forms@),
            )[g] && forms_view(groups@[g].1@) == with_suffix(forms_view(forms@), groups@[g].0@),
    ensures
        final(out)@ == old(out)@ + join(
            all_blocks(*rd, forms_view(forms@), suffixes_of(forms_view(forms@))),
            "\n"@,
        ),
{
    let ghost fs = forms_view(forms@);
    let ghost sv = suffixes_of(fs);
    let mut blocks = String::new();
    let mut first = true;
    let mut g: usize = 0;
    while g < groups.len()
        invariant
            g <= groups@.len(),
            fs == forms_view(forms@),
            suffixes_known(fs),
            sv == suffixes_of(fs),
            groups@.len() == sv.len(),
            forall|h: int|
                0 <= h < groups@.len() ==> (#[trigger] groups@[h]).0@ == sv[h] && forms_view(
                    groups@[h].1@,
                ) == with_suffix(fs, groups@[h].0@),
            blocks@ == join(all_blocks(*rd, fs, sv.take(g as int)), "\n"@),
            first == (all_blocks(*rd, fs, sv.take(g as int)).len() == 0),
        decreases groups@.len() - g,
    {
        let (x, group) = (groups[g].0, &groups[g].1);
        assert(groups@[g as int].0@ == sv[g as int]);
        proof {
            assert(sv.contains(x@));
            lemma_known_suffix(fs, x@);
            lemma_group_suffix(fs, x@);
            assert(sv.take((g + 1) as int).drop_last() =~= sv.take(g as int));
            assert(sv.take((g + 1) as int).last() == x@);
        }
        first = push_group_blocks(
            &mut blocks,
            rd,
            x,
            group,
            first,
            Ghost(all_blocks(*rd, fs, sv.take(g as int))),
        );
        g = g + 1;
    }
    assert(sv.take(groups@.len() as int) =~= sv);
    out.append(blocks.as_str());
}

/// The two header lines of an explore display.
fn format_header(result: &ParadigmResult) -> (r: String)
    ensures
        r@ == explore_header(
            result.root_name@,
            opt_text(result.root_gloss_ru),
            result.root_domain,
            result.root_productivity,
        ),
{
    let mut out = owned("Корень: ");
    out.append(result.root_name);
    out.append("-");
    match result.root_gloss_ru {
        Some(g) => {
            out.append("  «");
            out.append(g);
            out.append("»");
        },
        None => {},
    }
    out.append("\n");
    out.append("  Домен: ");
    out.append(domain_inline(result.root_domain));
    out.append(" · продуктивность ");
    out.append(result.root_productivity.letter());
    out.append("\n");
    out
}

/// Appends the linguistic-note line of a root, if the inventory holds it.
fn push_note(out: &mut String, rd: &Option<RootData>)
    ensures
        final(out)@ == old(out)@ + note_line(*rd),
{
    match rd {
        Some(x) => {
            out.append("  Заметка: ");
            out.append(x.linguistic_note);
            out.append("\n");
        },
        None => {},
    }
}

/// Format an explore result.
///
/// Full paradigm → header + morpheme legend + a scannable overview table (one
/// row per prefix×suffix, endings as columns) + tallies. A `--suffix`-narrowed
/// result additionally appends a full breakdown block per matching
/// combination.
#[verifier::rlimit(40)]
pub fn format_explore(result: &ParadigmResult) -> (r: String)
    requires
        suffixes_known(forms_view(result.forms@)),
        result.suffix_filter is Some && result.forms@.len() > 0 ==> spec_root_data(
            result.root_name@,
        ) is Some,
    ensures
        r@ == spec_format_explore(*result),
{
    let ghost fs = forms_view(result.forms@);
    let mut out = format_header(result);
    let rd = root_data(result.root_name);

    // No verb forms: noun-only root, or a filter that matched nothing.
    if result.forms.len() == 0 {
        let noun_only = match rd {
            Some(x) => x.suffix_indices.len() == 0,
            None => true,
        };
        if noun_only {
            out.append("  Глагольная парадигма отсутствует, чисто именной корень.\n");
            out.append("  Именная деривация в текущей версии движка не реализована.\n");
            push_note(&mut out, &rd);
        } else {
            out.append("  Нет форм по заданному фильтру.\n");
        }
        return out;
    }
    push_note(&mut out, &rd);
    out.append("\n");
    let ghost head = out@;

    // Combination tally
    let prefix_count = unique_prefixes(&result.forms).len();
    let suffix_count = unique_suffixes(&result.forms).len();
    let combos = unique_combos(&result.forms);
    let combo_count = combos.len();
    out.append("Всего комбинаций: ");
    push_decimal(&mut out, prefix_count);
    out.append(" префиксов × ");
    push_decimal(&mut out, suffix_count);
    out.append(" суффиксов = ");
    push_decimal(&mut out, combo_count);
    out.append(" форм\n\n");

    // Morpheme legend (once, so table rows need not repeat glosses)
    let legend_text = format_legend(&result.forms);
    out.append(legend_text.as_str());
    out.append("\n");

    // Overview table, grouped by suffix
    let groups = group_by_suffix(&result.forms);
    let (sections, oc, orr, op, oi) = format_groups(&result.forms, &groups);
    out.append(sections.as_str());
    out.append("Всего: ");
    push_tally(&mut out, oc, orr, op, oi);
    out.append("\n");
    let ghost body = out@;

    // Narrowed result: a full breakdown block per combination
    if result.suffix_filter.is_some() {
        out.append("\n");
        out.append("Разбор форм:\n\n");
        let x = rd.unwrap();
        push_all_blocks(&mut out, &x, &result.forms, &groups);
    }
    assert(out@ =~= spec_format_explore(*result));
    out
}

} // verus!
