//! The breakdown heading `Разбор форм:` of the explore display: which texts
//! can hold it.
//!
//! The heading begins with a capital Р, a letter that no other text of an
//! unfiltered display holds; so an unfiltered display never shows it.

use vstd::prelude::*;

use super::explore::{
    cell, dedup, explore_header, explore_text, has_prefix, legend, lemma_dedup,
    note_line, note_text, prefixes_of, present_cell, present_endings, present_endings_upto,
    row_line, section_of, suffix_label, suffixes_of, table_header_text, tally_text, truncated,
    with_prefix, with_suffix, first_ending_from, first_present_from, group_section, row_atts,
    tally, total_tally, W_ATT, W_INF, W_MEANING, W_PAST, W_PREFIX, W_PRESENT,
};
use super::spec_format_attestation;
use crate::grammar::{spec_actual_root, spec_combine, spec_stem};
use crate::morpheme::{
    spec_ending, spec_endings_for, spec_prefix, spec_suffix, Domain, ProductivityClass, RootData, VerbFormView,
    PREFIX_COUNT,
};
use crate::paradigm::{
    filter_admits, paradigm_upto, prefix_block_upto, spec_form,
    spec_paradigm, spec_prefix_form, suffix_block,
};
use crate::roots::{
    law_root_names_distinct, lemma_find_root, spec_attest, spec_root, spec_root_data,
    spec_root_index, ROOT_COUNT,
};
use crate::text::{
    concat, contains_text, decimal, digit_char, join, opt_text, pad_right, repeat, spaces,
};

verus! {

/// The capital letter the breakdown heading begins with.
pub open spec fn heading_letter() -> char {
    'Р'
}

/// Whether no character of `s` is the heading letter.
pub open spec fn lacks_heading(s: Seq<char>) -> bool {
    forall|i: int| 0 <= i < s.len() ==> #[trigger] s[i] != heading_letter()
}

/// Two texts without the letter make one without it.
pub proof fn lemma_lacks_concat(x: Seq<char>, y: Seq<char>)
    requires
        lacks_heading(x),
        lacks_heading(y),
    ensures
        lacks_heading(x + y),
{
    assert forall|i: int| 0 <= i < (x + y).len() implies #[trigger] (x + y)[i] != heading_letter() by {
        if i < x.len() {
            assert((x + y)[i] == x[i]);
        } else {
            assert((x + y)[i] == y[i - x.len()]);
        }
    }
}

/// A text without the letter does not hold the heading.
pub proof fn lemma_lacks_no_heading(s: Seq<char>)
    requires
        lacks_heading(s),
    ensures
        !contains_text(s, "Разбор форм:"@),
{
    reveal_strlit("Разбор форм:");
    if contains_text(s, "Разбор форм:"@) {
        let j = choose|j: int|
            0 <= j && j + "Разбор форм:"@.len() <= s.len() && #[trigger] s.subrange(
                j,
                j + "Разбор форм:"@.len(),
            ) == "Разбор форм:"@;
        assert(s.subrange(j, j + "Разбор форм:"@.len())[0] == s[j]);
    }
}

/// Parts without the letter, joined by a separator without it.
pub proof fn lemma_lacks_join(ps: Seq<Seq<char>>, sep: Seq<char>)
    requires
        lacks_heading(sep),
        forall|k: int| 0 <= k < ps.len() ==> lacks_heading(#[trigger] ps[k]),
    ensures
        lacks_heading(join(ps, sep)),
    decreases ps.len(),
{
    if ps.len() > 1 {
        let dl = ps.drop_last();
        assert forall|k: int| 0 <= k < dl.len() implies lacks_heading(#[trigger] dl[k]) by {
            assert(dl[k] == ps[k]);
        }
        lemma_lacks_join(dl, sep);
        lemma_lacks_concat(join(dl, sep), sep);
        lemma_lacks_concat(join(dl, sep) + sep, ps.last());
    } else if ps.len() == 1 {
        assert(lacks_heading(ps[0]));
    }
}

/// Parts without the letter, written one after another.
pub proof fn lemma_lacks_concat_all(ps: Seq<Seq<char>>)
    requires
        forall|k: int| 0 <= k < ps.len() ==> lacks_heading(#[trigger] ps[k]),
    ensures
        lacks_heading(concat(ps)),
    decreases ps.len(),
{
    if ps.len() > 0 {
        let dl = ps.drop_last();
        assert forall|k: int| 0 <= k < dl.len() implies lacks_heading(#[trigger] dl[k]) by {
            assert(dl[k] == ps[k]);
        }
        lemma_lacks_concat_all(dl);
        lemma_lacks_concat(concat(dl), ps.last());
    }
}

/// Padding adds only spaces.
pub proof fn lemma_lacks_pad(s: Seq<char>, w: nat)
    requires
        lacks_heading(s),
    ensures
        lacks_heading(pad_right(s, w)),
{
    if s.len() < w {
        lemma_lacks_concat(s, spaces((w - s.len()) as nat));
    }
}

/// Repeating a text without the letter.
pub proof fn lemma_lacks_repeat(s: Seq<char>, n: nat)
    requires
        lacks_heading(s),
    ensures
        lacks_heading(repeat(s, n)),
    decreases n,
{
    if n > 0 {
        lemma_lacks_repeat(s, (n - 1) as nat);
        lemma_lacks_concat(repeat(s, (n - 1) as nat), s);
    }
}

/// A cut text keeps no letter it did not have.
pub proof fn lemma_lacks_truncated(s: Seq<char>, max: nat)
    requires
        lacks_heading(s),
    ensures
        lacks_heading(truncated(s, max)),
{
    reveal_strlit("…");
    if s.len() > max {
        let n: int = if max == 0 { 0 } else { max - 1 };
        assert(lacks_heading(s.take(n)));
        lemma_lacks_concat(s.take(n), "…"@);
    }
}

/// A number is written in digits.
pub proof fn lemma_lacks_decimal(n: nat)
    ensures
        lacks_heading(decimal(n)),
    decreases n,
{
    if n >= 10 {
        lemma_lacks_decimal(n / 10);
        lemma_lacks_concat(decimal(n / 10), seq![digit_char(n % 10)]);
    }
}

/// A tally line holds only digits and fixed words.
pub proof fn lemma_lacks_tally(t: (nat, nat, nat, nat))
    ensures
        lacks_heading(tally_text(t)),
{
    reveal_strlit("common (");
    reveal_strlit("), rare (");
    reveal_strlit("), possible (");
    reveal_strlit("), impossible (");
    reveal_strlit(")");
    lemma_lacks_decimal(t.0);
    lemma_lacks_decimal(t.1);
    lemma_lacks_decimal(t.2);
    lemma_lacks_decimal(t.3);
    let a = "common ("@ + decimal(t.0);
    lemma_lacks_concat("common ("@, decimal(t.0));
    lemma_lacks_concat(a, "), rare ("@);
    lemma_lacks_concat(a + "), rare ("@, decimal(t.1));
    let b = a + "), rare ("@ + decimal(t.1);
    lemma_lacks_concat(b, "), possible ("@);
    lemma_lacks_concat(b + "), possible ("@, decimal(t.2));
    let c = b + "), possible ("@ + decimal(t.2);
    lemma_lacks_concat(c, "), impossible ("@);
    lemma_lacks_concat(c + "), impossible ("@, decimal(t.3));
    lemma_lacks_concat(c + "), impossible ("@ + decimal(t.3), ")"@);
}


/// Whether no text of the forms holds the letter: words, prefixes, suffix
/// and ending values, notes.
pub open spec fn forms_lack_heading(fs: Seq<VerbFormView>) -> bool {
    forall|k: int|
        0 <= k < fs.len() ==> {
            let f = #[trigger] fs[k];
            &&& lacks_heading(f.form)
            &&& lacks_heading(f.prefix_display)
            &&& lacks_heading(f.suffix_val)
            &&& lacks_heading(f.ending_val)
            &&& (f.note matches Some(n) ==> lacks_heading(n))
        }
}

/// Picking some of the forms keeps the property.
proof fn lemma_filter_lacks(fs: Seq<VerbFormView>, pred: spec_fn(VerbFormView) -> bool)
    requires
        forms_lack_heading(fs),
    ensures
        forms_lack_heading(fs.filter(pred)),
    decreases fs.len(),
{
    reveal(Seq::filter);
    if fs.len() > 0 {
        let dl = fs.drop_last();
        assert forall|k: int| 0 <= k < dl.len() implies #[trigger] dl[k] == fs[k] by {}
        lemma_filter_lacks(dl, pred);
        let sub = dl.filter(pred);
        if pred(fs.last()) {
            assert forall|k: int| 0 <= k < sub.push(fs.last()).len() implies #[trigger] sub.push(
                fs.last(),
            )[k] == (if k < sub.len() { sub[k] } else { fs.last() }) by {}
        }
    }
}

/// The distinct prefixes of forms without the letter lack it.
proof fn lemma_prefixes_lack(fs: Seq<VerbFormView>)
    requires
        forms_lack_heading(fs),
    ensures
        forall|k: int| 0 <= k < prefixes_of(fs).len() ==> lacks_heading(#[trigger] prefixes_of(fs)[k]),
{
    let s = fs.map_values(|f: VerbFormView| f.prefix_display);
    lemma_dedup(s, s.len());
    assert(s.take(s.len() as int) =~= s);
    assert forall|k: int| 0 <= k < prefixes_of(fs).len() implies lacks_heading(
        #[trigger] prefixes_of(fs)[k],
    ) by {
        let x = prefixes_of(fs)[k];
        assert(dedup(s).contains(x));
        assert(s.contains(x));
        let m = choose|m: int| 0 <= m < s.len() && #[trigger] s[m] == x;
        assert(fs[m].prefix_display == x);
    }
}

/// The present endings of forms without the letter lack it.
proof fn lemma_present_endings_lack(fs: Seq<VerbFormView>, n: nat)
    requires
        forms_lack_heading(fs),
        n <= fs.len(),
    ensures
        forall|k: int|
            0 <= k < present_endings_upto(fs, n).len() ==> lacks_heading(
                #[trigger] present_endings_upto(fs, n)[k],
            ),
    decreases n,
{
    if n > 0 {
        lemma_present_endings_lack(fs, (n - 1) as nat);
        let d = present_endings_upto(fs, (n - 1) as nat);
        assert forall|k: int| 0 <= k < present_endings_upto(fs, n).len() implies lacks_heading(
            #[trigger] present_endings_upto(fs, n)[k],
        ) by {
            if k < d.len() {
                assert(present_endings_upto(fs, n)[k] == d[k]);
            } else {
                assert(present_endings_upto(fs, n)[k] == fs[n - 1].ending_val);
            }
        }
    }
}

/// A found form is in range.
proof fn lemma_first_ending_range(fs: Seq<VerbFormView>, e: Seq<char>, i: nat)
    ensures
        first_ending_from(fs, e, i) matches Some(k) ==> 0 <= k < fs.len(),
    decreases fs.len() - i,
{
    if i < fs.len() {
        lemma_first_ending_range(fs, e, i + 1);
    }
}

/// A found present form is in range.
proof fn lemma_first_present_range(fs: Seq<VerbFormView>, i: nat)
    ensures
        first_present_from(fs, i) matches Some(k) ==> 0 <= k < fs.len(),
    decreases fs.len() - i,
{
    if i < fs.len() {
        lemma_first_present_range(fs, i + 1);
    }
}

/// Every suffix label lacks the letter.
proof fn lemma_suffix_label_lacks(sv: Seq<char>)
    ensures
        lacks_heading(suffix_label(sv)),
{
    reveal_strlit("-а-");
    reveal_strlit("имперфектив");
    reveal_strlit("-ну-");
    reveal_strlit("однократный");
    reveal_strlit("-е-");
    reveal_strlit("II спряжение (-е- основа)");
    reveal_strlit("-и-");
    reveal_strlit("II спряжение (-и- основа)");
    reveal_strlit(" (");
    reveal_strlit(")");
    let idx = crate::morpheme::spec_suffix_index_of(sv);
    let d = spec_suffix(idx).display@;
    let g = spec_suffix(idx).gloss@;
    assert(lacks_heading(d));
    assert(lacks_heading(g));
    lemma_lacks_concat(d, " ("@);
    lemma_lacks_concat(d + " ("@, g);
    lemma_lacks_concat(d + " ("@ + g, ")"@);
}

/// A table row of forms without the letter lacks it.
proof fn lemma_row_lacks(group: Seq<VerbFormView>, p: Seq<char>)
    requires
        forms_lack_heading(group),
        lacks_heading(p),
        with_prefix(group, p).len() > 0,
    ensures
        lacks_heading(row_line(group, p)),
{
    reveal_strlit("  ");
    reveal_strlit(" | ");
    reveal_strlit("\n");
    reveal_strlit("—");
    reveal_strlit("ть");
    reveal_strlit("л");
    reveal_strlit("common");
    reveal_strlit("rare");
    reveal_strlit("possible");
    reveal_strlit("impossible");
    let row = with_prefix(group, p);
    lemma_filter_lacks(group, has_prefix(p));
    lemma_first_ending_range(row, "ть"@, 0);
    lemma_first_ending_range(row, "л"@, 0);
    lemma_first_present_range(row, 0);
    let c1 = cell(row, "ть"@);
    let c2 = cell(row, "л"@);
    let c3 = present_cell(row);
    let tok = spec_format_attestation(row[0].attestation)@;
    let note = note_text(row[0]);
    assert(lacks_heading(c1));
    assert(lacks_heading(c2));
    assert(lacks_heading(c3));
    assert(lacks_heading(tok));
    assert(lacks_heading(note));
    lemma_lacks_pad(p, W_PREFIX as nat);
    lemma_lacks_pad(c1, W_INF as nat);
    lemma_lacks_pad(c2, W_PAST as nat);
    lemma_lacks_pad(c3, W_PRESENT as nat);
    lemma_lacks_pad(tok, W_ATT as nat);
    lemma_lacks_truncated(note, W_MEANING as nat);
    let ps = seq![
        "  "@,
        pad_right(p, W_PREFIX as nat),
        " | "@,
        pad_right(c1, W_INF as nat),
        " | "@,
        pad_right(c2, W_PAST as nat),
        " | "@,
        pad_right(c3, W_PRESENT as nat),
        " | "@,
        pad_right(tok, W_ATT as nat),
        " | "@,
        truncated(note, W_MEANING as nat),
        "\n"@,
    ];
    assert(lacks_heading(" | "@));
    assert(lacks_heading("  "@));
    assert(lacks_heading("\n"@));
    assert forall|k: int| 0 <= k < ps.len() implies lacks_heading(#[trigger] ps[k]) by {}
    lemma_lacks_concat_all(ps);
    assert(concat(ps) =~= row_line(group, p)) by {
        reveal_with_fuel(concat, 14);
    }
}

/// The table header lacks the letter.
proof fn lemma_table_header_lacks()
    ensures
        lacks_heading(table_header_text()),
{
    reveal_strlit("  ");
    reveal_strlit(" | ");
    reveal_strlit("\n");
    reveal_strlit("-");
    reveal_strlit("-+-");
    reveal_strlit("Префикс");
    reveal_strlit("Инфинитив");
    reveal_strlit("Прош. -л");
    reveal_strlit("Наст. 3л");
    reveal_strlit("Аттест.");
    reveal_strlit("Значение");
    assert(lacks_heading("-"@));
    lemma_lacks_pad("Префикс"@, W_PREFIX as nat);
    lemma_lacks_pad("Инфинитив"@, W_INF as nat);
    lemma_lacks_pad("Прош. -л"@, W_PAST as nat);
    lemma_lacks_pad("Наст. 3л"@, W_PRESENT as nat);
    lemma_lacks_pad("Аттест."@, W_ATT as nat);
    lemma_lacks_repeat("-"@, W_PREFIX as nat);
    lemma_lacks_repeat("-"@, W_INF as nat);
    lemma_lacks_repeat("-"@, W_PAST as nat);
    lemma_lacks_repeat("-"@, W_PRESENT as nat);
    lemma_lacks_repeat("-"@, W_ATT as nat);
    lemma_lacks_repeat("-"@, 8);
    let ps = seq![
        "  "@,
        pad_right("Префикс"@, W_PREFIX as nat),
        " | "@,
        pad_right("Инфинитив"@, W_INF as nat),
        " | "@,
        pad_right("Прош. -л"@, W_PAST as nat),
        " | "@,
        pad_right("Наст. 3л"@, W_PRESENT as nat),
        " | "@,
        pad_right("Аттест."@, W_ATT as nat),
        " | "@,
        "Значение"@,
        "\n"@,
        "  "@,
        repeat("-"@, W_PREFIX as nat),
        "-+-"@,
        repeat("-"@, W_INF as nat),
        "-+-"@,
        repeat("-"@, W_PAST as nat),
        "-+-"@,
        repeat("-"@, W_PRESENT as nat),
        "-+-"@,
        repeat("-"@, W_ATT as nat),
        "-+-"@,
        repeat("-"@, 8),
        "\n"@,
    ];
    assert(lacks_heading(" | "@));
    assert(lacks_heading("  "@));
    assert(lacks_heading("\n"@));
    assert(lacks_heading("-+-"@));
    assert(lacks_heading("Значение"@));
    assert forall|k: int| 0 <= k < ps.len() implies lacks_heading(#[trigger] ps[k]) by {}
    lemma_lacks_concat_all(ps);
    assert(concat(ps) =~= table_header_text()) by {
        reveal_with_fuel(concat, 27);
    }
}


/// Each distinct prefix of a group has a row.
proof fn lemma_prefix_row_nonempty(group: Seq<VerbFormView>, k: int)
    requires
        0 <= k < prefixes_of(group).len(),
    ensures
        with_prefix(group, prefixes_of(group)[k]).len() > 0,
{
    let s = group.map_values(|f: VerbFormView| f.prefix_display);
    lemma_dedup(s, s.len());
    assert(s.take(s.len() as int) =~= s);
    let x = prefixes_of(group)[k];
    assert(dedup(s).contains(x));
    assert(s.contains(x));
    let m = choose|m: int| 0 <= m < s.len() && #[trigger] s[m] == x;
    assert(group[m].prefix_display == x);
    group.lemma_filter_contains(has_prefix(x), m);
}

/// The section of a group of forms without the letter lacks it.
proof fn lemma_section_lacks(sv: Seq<char>, group: Seq<VerbFormView>)
    requires
        forms_lack_heading(group),
    ensures
        lacks_heading(section_of(sv, group)),
{
    reveal_strlit("═══ Суффикс ");
    reveal_strlit(" ═══\n\n");
    reveal_strlit("\n  Итого: ");
    reveal_strlit("\n\n");
    lemma_suffix_label_lacks(sv);
    lemma_table_header_lacks();
    lemma_prefixes_lack(group);
    let rows = prefixes_of(group).map_values(|p: Seq<char>| row_line(group, p));
    assert forall|k: int| 0 <= k < rows.len() implies lacks_heading(#[trigger] rows[k]) by {
        lemma_prefix_row_nonempty(group, k);
        lemma_row_lacks(group, prefixes_of(group)[k]);
    }
    lemma_lacks_concat_all(rows);
    lemma_lacks_tally(tally(row_atts(group)));
    let ps = seq![
        "═══ Суффикс "@,
        suffix_label(sv),
        " ═══\n\n"@,
        table_header_text(),
        concat(rows),
        "\n  Итого: "@,
        tally_text(tally(row_atts(group))),
        "\n\n"@,
    ];
    assert(lacks_heading("═══ Суффикс "@));
    assert(lacks_heading(" ═══\n\n"@));
    assert(lacks_heading("\n  Итого: "@));
    assert(lacks_heading("\n\n"@));
    assert forall|k: int| 0 <= k < ps.len() implies lacks_heading(#[trigger] ps[k]) by {}
    lemma_lacks_concat_all(ps);
    assert(concat(ps) =~= section_of(sv, group)) by {
        reveal_with_fuel(concat, 9);
    }
}

/// The legend of forms without the letter lacks it.
proof fn lemma_legend_lacks(fs: Seq<VerbFormView>)
    requires
        forms_lack_heading(fs),
    ensures
        lacks_heading(legend(fs)),
{
    reveal_strlit("Легенда:\n");
    reveal_strlit("  суффиксы: ");
    reveal_strlit(", ");
    reveal_strlit("\n");
    reveal_strlit("  окончания (колонки): Инфинитив -ть · Прош. -л · Наст. 3 л. ");
    reveal_strlit("-");
    reveal_strlit("/");
    reveal_strlit("  префиксы: ");
    let labels = suffixes_of(fs).map_values(|sv: Seq<char>| suffix_label(sv));
    assert forall|k: int| 0 <= k < labels.len() implies lacks_heading(#[trigger] labels[k]) by {
        lemma_suffix_label_lacks(suffixes_of(fs)[k]);
    }
    assert(lacks_heading(", "@));
    lemma_lacks_join(labels, ", "@);
    lemma_present_endings_lack(fs, fs.len());
    let ends = present_endings(fs).map_values(|e: Seq<char>| "-"@ + e);
    assert forall|k: int| 0 <= k < ends.len() implies lacks_heading(#[trigger] ends[k]) by {
        assert(lacks_heading("-"@));
        lemma_lacks_concat("-"@, present_endings(fs)[k]);
    }
    assert(lacks_heading("/"@));
    lemma_lacks_join(ends, "/"@);
    lemma_prefixes_lack(fs);
    lemma_lacks_join(prefixes_of(fs), ", "@);
    let ps = seq![
        "Легенда:\n"@,
        "  суффиксы: "@,
        join(labels, ", "@),
        "\n"@,
        "  окончания (колонки): Инфинитив -ть · Прош. -л · Наст. 3 л. "@,
        join(ends, "/"@),
        "\n"@,
        "  префиксы: "@,
        join(prefixes_of(fs), ", "@),
        "\n"@,
    ];
    assert(lacks_heading("Легенда:\n"@));
    assert(lacks_heading("  суффиксы: "@));
    assert(lacks_heading("\n"@));
    assert(lacks_heading("  окончания (колонки): Инфинитив -ть · Прош. -л · Наст. 3 л. "@));
    assert(lacks_heading("  префиксы: "@));
    assert forall|k: int| 0 <= k < ps.len() implies lacks_heading(#[trigger] ps[k]) by {}
    lemma_lacks_concat_all(ps);
    assert(concat(ps) =~= legend(fs)) by {
        reveal_with_fuel(concat, 11);
    }
}


/// The header of a root whose name and gloss lack the letter lacks it.
proof fn lemma_header_lacks(
    name: Seq<char>,
    gloss: Option<Seq<char>>,
    domain: Domain,
    productivity: ProductivityClass,
)
    requires
        lacks_heading(name),
        gloss matches Some(t) ==> lacks_heading(t),
    ensures
        lacks_heading(explore_header(name, gloss, domain, productivity)),
{
    reveal_strlit("Корень: ");
    reveal_strlit("-");
    reveal_strlit("  «");
    reveal_strlit("»");
    reveal_strlit("\n");
    reveal_strlit("  Домен: ");
    reveal_strlit(" · продуктивность ");
    reveal_strlit("ядро");
    reveal_strlit("экскреторная");
    reveal_strlit("периферия");
    reveal_strlit("A");
    reveal_strlit("B");
    reveal_strlit("C");
    reveal_strlit("D");
    reveal_strlit("E");
    let g = match gloss {
        Some(t) => "  «"@ + t + "»"@,
        None => seq![],
    };
    if let Some(t) = gloss {
        assert(lacks_heading("  «"@));
        assert(lacks_heading("»"@));
        lemma_lacks_concat("  «"@, t);
        lemma_lacks_concat("  «"@ + t, "»"@);
    }
    let dom = super::spec_domain_inline(domain)@;
    let letter = productivity.spec_letter()@;
    assert(lacks_heading(dom));
    assert(lacks_heading(letter));
    let ps = seq![
        "Корень: "@,
        name,
        "-"@,
        g,
        "\n"@,
        "  Домен: "@,
        dom,
        " · продуктивность "@,
        letter,
        "\n"@,
    ];
    assert(lacks_heading("Корень: "@));
    assert(lacks_heading("-"@));
    assert(lacks_heading("\n"@));
    assert(lacks_heading("  Домен: "@));
    assert(lacks_heading(" · продуктивность "@));
    assert forall|k: int| 0 <= k < ps.len() implies lacks_heading(#[trigger] ps[k]) by {}
    lemma_lacks_concat_all(ps);
    assert(concat(ps) =~= explore_header(name, gloss, domain, productivity)) by {
        reveal_with_fuel(concat, 11);
    }
}

/// The note line of a root whose note lacks the letter lacks it.
proof fn lemma_note_line_lacks(name: Seq<char>)
    requires
        spec_root_data(name) matches Some(x) ==> lacks_heading(x.linguistic_note@),
    ensures
        lacks_heading(note_line(spec_root_data(name))),
{
    reveal_strlit("  Заметка: ");
    reveal_strlit("\n");
    if let Some(x) = spec_root_data(name) {
        assert(lacks_heading("  Заметка: "@));
        assert(lacks_heading("\n"@));
        lemma_lacks_concat("  Заметка: "@, x.linguistic_note@);
        lemma_lacks_concat("  Заметка: "@ + x.linguistic_note@, "\n"@);
    }
}

/// An unfiltered display with forms, made of texts without the letter,
/// lacks it.
#[verifier::spinoff_prover]
#[verifier::rlimit(40)]
proof fn lemma_display_lacks(
    name: Seq<char>,
    gloss: Option<Seq<char>>,
    domain: Domain,
    productivity: ProductivityClass,
    fs: Seq<VerbFormView>,
)
    requires
        lacks_heading(explore_header(name, gloss, domain, productivity)),
        lacks_heading(note_line(spec_root_data(name))),
        forms_lack_heading(fs),
        fs.len() > 0,
    ensures
        lacks_heading(explore_text(name, gloss, domain, productivity, false, fs)),
{
    reveal_strlit("\n");
    reveal_strlit("Всего комбинаций: ");
    reveal_strlit(" префиксов × ");
    reveal_strlit(" суффиксов = ");
    reveal_strlit(" форм\n\n");
    reveal_strlit("Всего: ");
    let rd = spec_root_data(name);
    let header = explore_header(name, gloss, domain, productivity);
    let sufs = suffixes_of(fs);
    let sections = sufs.map_values(|sv: Seq<char>| group_section(fs, sv));
    assert forall|k: int| 0 <= k < sections.len() implies lacks_heading(#[trigger] sections[k]) by {
        lemma_filter_lacks(fs, super::explore::has_suffix(sufs[k]));
        lemma_section_lacks(sufs[k], with_suffix(fs, sufs[k]));
    }
    lemma_lacks_concat_all(sections);
    lemma_legend_lacks(fs);
    lemma_lacks_decimal(prefixes_of(fs).len());
    lemma_lacks_decimal(sufs.len());
    lemma_lacks_decimal(super::explore::combos_of(fs).len());
    lemma_lacks_tally(total_tally(fs, sufs));
    let ps = seq![
        header,
        note_line(rd),
        "\n"@,
        "Всего комбинаций: "@,
        decimal(prefixes_of(fs).len()),
        " префиксов × "@,
        decimal(sufs.len()),
        " суффиксов = "@,
        decimal(super::explore::combos_of(fs).len()),
        " форм\n\n"@,
        legend(fs),
        "\n"@,
        concat(sections),
        "Всего: "@,
        tally_text(total_tally(fs, sufs)),
        "\n"@,
    ];
    assert(lacks_heading("\n"@));
    assert(lacks_heading("Всего комбинаций: "@));
    assert(lacks_heading(" префиксов × "@));
    assert(lacks_heading(" суффиксов = "@));
    assert(lacks_heading(" форм\n\n"@));
    assert(lacks_heading("Всего: "@));
    assert forall|k: int| 0 <= k < ps.len() implies lacks_heading(#[trigger] ps[k]) by {}
    lemma_lacks_concat_all(ps);
    assert(concat(ps) + seq![] =~= explore_text(name, gloss, domain, productivity, false, fs)) by {
        reveal_with_fuel(concat, 17);
    }
}

/// An unfiltered explore display never shows the breakdown heading `Разбор
/// форм:` when no text it is made of (the root's name, gloss and note, and
/// the words, morphemes and notes of the forms) holds its capital Р; a
/// filtered display with forms always shows it
/// (`law_explore_blocks_iff_filtered`).
pub proof fn law_unfiltered_has_no_heading(
    name: Seq<char>,
    gloss: Option<Seq<char>>,
    domain: Domain,
    productivity: ProductivityClass,
    fs: Seq<VerbFormView>,
)
    requires
        lacks_heading(name),
        gloss matches Some(t) ==> lacks_heading(t),
        spec_root_data(name) matches Some(x) ==> lacks_heading(x.linguistic_note@),
        forms_lack_heading(fs),
    ensures
        !contains_text(explore_text(name, gloss, domain, productivity, false, fs), "Разбор форм:"@),
{
    let rd = spec_root_data(name);
    let header = explore_header(name, gloss, domain, productivity);
    lemma_header_lacks(name, gloss, domain, productivity);
    lemma_note_line_lacks(name);
    let text = explore_text(name, gloss, domain, productivity, false, fs);
    if fs.len() == 0 {
        reveal_strlit("  Глагольная парадигма отсутствует, чисто именной корень.\n");
        reveal_strlit("  Именная деривация в текущей версии движка не реализована.\n");
        reveal_strlit("  Нет форм по заданному фильтру.\n");
        let a = "  Глагольная парадигма отсутствует, чисто именной корень.\n"@;
        let b = "  Именная деривация в текущей версии движка не реализована.\n"@;
        let c = "  Нет форм по заданному фильтру.\n"@;
        assert(lacks_heading(a));
        assert(lacks_heading(b));
        assert(lacks_heading(c));
        lemma_lacks_concat(a, b);
        lemma_lacks_concat(a + b, note_line(rd));
        lemma_lacks_concat(header, a + b + note_line(rd));
        lemma_lacks_concat(header, c);
    } else {
        lemma_display_lacks(name, gloss, domain, productivity, fs);
    }
    lemma_lacks_no_heading(text);
}


/// The name, Russian gloss and note of every root of the inventory lack the
/// letter.
#[verifier::spinoff_prover]
proof fn lemma_root_texts_lack(i: usize)
    requires
        i < ROOT_COUNT,
    ensures
        lacks_heading(spec_root(i).name@),
        opt_text(spec_root(i).gloss_ru) matches Some(t) ==> lacks_heading(t),
        lacks_heading(spec_root(i).linguistic_note@),
{
    if i == 0 {
        reveal_strlit("еб");
        reveal_strlit("совокупляться");
        reveal_strlit("Самый продуктивный матерный корень. От праславянского *jebati. В современном русском образует более 100 глагольных и именных дериватов. Едва ли не каждое действие можно описать глаголом на еб-.");
    } else if i == 1 {
        reveal_strlit("пизд");
        reveal_strlit("женские гениталии");
        reveal_strlit("Женский корень мата. Образует два семантических ряда: 'говорить ерунду' (пиздеть, класс -е-) и 'бить/красть' (пиздить, класс -и-). Один из немногих корней с двумя продуктивными глагольными классами.");
    } else if i == 2 {
        reveal_strlit("хуй");
        reveal_strlit("мужской член");
        reveal_strlit("Ключевой именной корень русского мата. Этимология спорна: от праиндоевропейского *ks-u- (хвоя), монгольского khui, или латинского huic. Первый том словаря Плуцера-Сарно (500+ стр.) посвящён исключительно этому корню.");
    } else if i == 3 {
        reveal_strlit("бляд");
        reveal_strlit("проститутка; распутство");
        reveal_strlit("От древнерусского блѧдь — 'обман, ерунда, прелюбодейка'. Преимущественно именной корень (блядь, блядский, блядство). Глагольные формы (блядовать) используют суффикс -ова-, не включённый в текущую версию движка.");
    } else if i == 4 {
        reveal_strlit("муд");
        reveal_strlit("яички");
        reveal_strlit("Корень со значением 'testiculi'. В современном русском глагольные формы (мудить) означают 'медлить, заниматься ерундой'. Преимущественно именной: мудак, мудило.");
    } else if i == 5 {
        reveal_strlit("манд");
        reveal_strlit("женские гениталии (арх.)");
        reveal_strlit("Архаичный корень со значением 'женские гениталии'. В XIX веке — одно из сильнейших ругательств. К XXI веку практически утратил обсценную силу. Глагольные формы (мандить) крайне редки.");
    } else if i == 6 {
        reveal_strlit("елд");
        reveal_strlit("мужской член (арх.)");
        reveal_strlit("Архаичный корень со значением 'мужской член'. Как и манд-, практически утратил обсценную силу в современном языке. Глагольные формы (елдить) маргинальны.");
    } else if i == 7 {
        reveal_strlit("сра");
        reveal_strlit("испражняться");
        reveal_strlit("Экскреторный корень. По классификации Плуцера-Сарно относится к отдельному домену (не сексуальный мат), но по продуктивности не уступает корню еб-. В современном русском образует десятки глагольных форм.");
    } else if i == 8 {
        reveal_strlit("сса");
        reveal_strlit("мочиться");
        reveal_strlit("Экскреторный корень 'мочиться'. Менее продуктивен, чем сра-, но образует ряд ярких метафор: зассать ('испугаться'), обоссать ('раскритиковать').");
    } else if i == 9 {
        reveal_strlit("дроч");
        reveal_strlit("мастурбировать");
        reveal_strlit("Глагольный корень со значением 'заниматься мастурбацией'. Образует формы II спряжения (дрочить, дрочу, дрочишь). В переносном значении — 'надоедать, изводить повторами'.");
    } else if i == 10 {
        reveal_strlit("трах");
        reveal_strlit("совокупляться");
        reveal_strlit("Глагольный корень, обозначающий половой акт. Спрягается по I классу (-а-): трахать, трахаю, трахает. Омонимичен звукоподражательному 'трах' (удар, грохот).");
    } else if i == 11 {
        reveal_strlit("жр");
        reveal_strlit("есть жадно");
        reveal_strlit("Глагольный корень 'есть жадно, много'. От праславянского *žerti. Нестандартное спряжение с чередованием: жрать, жру, жрёт. Переносно: 'проживать, тратить впустую'.");
    } else if i == 12 {
        reveal_strlit("хер");
        reveal_strlit("портить, отменять");
        reveal_strlit("Глагольный корень от существительного 'хер' (название буквы Х, эвфемизм 'хуй'). Глагол херить значит 'портить, вычёркивать, отменять'. Относится к новейшему слою мата (переосмысление XX века).");
    } else if i == 13 {
        reveal_strlit("перд");
        reveal_strlit("испускать газы");
        reveal_strlit("Корень со значением 'испускать кишечные газы'. От праславянского *pьrděti. Два глагольных класса: длительное пердеть (II спряжение) и однократное перднуть. Имеет широкий ряд метафорических значений.");
    } else if i == 14 {
        reveal_strlit("хар");
        reveal_strlit("грубо совокупляться");
        reveal_strlit("Глагольный корень с общим значением грубого действия. Спрягается по II спряжению: харить, харю, харишь. Семантический диапазон широк: от полового акта до интенсивной работы. Этимология неясна.");
    } else if i == 15 {
        reveal_strlit("блев");
        reveal_strlit("извергать рвоту");
        reveal_strlit("Глагольный корень 'извергать рвоту'. От праславянского *bljьvati. Характеризуется историческим чередованием в основе: инфинитив блевать, основа настоящего времени блю- (блюю, блюёт). Переносно: 'выдавать из себя'.");
    } else if i == 16 {
        reveal_strlit("бзд");
        reveal_strlit("беззвучно испускать газы");
        reveal_strlit("Корень со значением 'испускать газы беззвучно'. Спрягается по II классу (-е-): бздеть, бзжу, бздишь. Переносное значение развилось в сторону страха: 'бздеть' = 'бояться, трусить'.");
    } else if i == 17 {
        reveal_strlit("дрист");
        reveal_strlit("страдать поносом");
        reveal_strlit("Корень со значением 'страдать поносом'. От праславянского *dristati. Спрягается по I классу (-а-): дристать, дрищу, дрищешь. В переносном значении — 'делать что-то некачественное, жидкое'.");
    } else if i == 18 {
        reveal_strlit("залуп");
        reveal_strlit("головка члена, крайняя плоть");
        reveal_strlit("Именной корень, обозначающий головку полового члена и крайнюю плоть. В глагольных формах (залупиться) означает 'обнажить головку'. По Плуцеру-Сарно — номинатив с глагольным потенциалом.");
    } else if i == 19 {
        reveal_strlit("жоп");
        reveal_strlit("зад, ягодицы");
        reveal_strlit("Именной корень со значением 'ягодицы, зад'. В глагольных формах (зажопить, прижопить) развивает значение 'присвоить, не поделиться'. Один из самых частотных корней в бытовом обсценном лексиконе.");
    } else if i == 20 {
        reveal_strlit("говн");
        reveal_strlit("экскременты");
        reveal_strlit("Именной корень, обозначающий экскременты. В глагольных формах (говнить, заговнить) — 'портить, делать плохо'. Чрезвычайно продуктивен в именной деривации (говно, говённый, говнище).");
    } else if i == 21 {
        reveal_strlit("пидор");
        reveal_strlit("гомосексуалист (презр.)");
        reveal_strlit("Именной корень, сокращение от 'педераст'. Глагольные формы (пидорить, запидорить) развивают значение 'анально изнасиловать; испортить'. Обладает сильной обсценной окраской.");
    } else if i == 22 {
        reveal_strlit("курв");
        reveal_strlit("распутная женщина");
        reveal_strlit("Именной корень со значением 'проститутка, распутная женщина'. От латинского curva. Глагольные формы (курвиться, закурвиться) означают 'вести себя распутно'. Преимущественно именной.");
    } else if i == 23 {
        reveal_strlit("сиповк");
        reveal_strlit("тип женских гениталий");
        reveal_strlit("Именной корень из классификации Плуцера-Сарно. Обозначает один из типов женских гениталий (с высоким входом). Чисто номинативный корень, без глагольных форм.");
    } else if i == 24 {
        reveal_strlit("секел");
        reveal_strlit("тип женских гениталий");
        reveal_strlit("Именной корень из пласта обсценной анатомической лексики. Обозначает тип женских гениталий с поперечным разрезом. Не образует глагольных форм.");
    } else if i == 25 {
        reveal_strlit("поц");
        reveal_strlit("мужской член");
        reveal_strlit("Именной корень из идиша (פּאָץ — 'член'). В русском мате — универсальное презрительное обозначение мужчины. Не образует глагольных форм. Заимствование XX века.");
    } else if i == 26 {
        reveal_strlit("молофь");
        reveal_strlit("сперма");
        reveal_strlit("Именной корень со значением 'сперма'. Относится к соматическому слою мата. Глагольных форм не образует. Устаревающий корень, редко встречается в современной речи.");
    } else if i == 27 {
        reveal_strlit("минж");
        reveal_strlit("женские гениталии");
        reveal_strlit("Именной корень, обозначающий женские гениталии. Заимствован из французского (la moniche) через уголовное арго. Не образует глагольных форм.");
    } else if i == 28 {
        reveal_strlit("целк");
        reveal_strlit("девственная плева");
        reveal_strlit("Именной корень со значением 'девственная плева'. Относится к анатомическому слою мата. Не образует глагольных форм. Связан с 'целка' — уничижительное обозначение девственницы.");
    } else if i == 29 {
        reveal_strlit("королёвк");
        reveal_strlit("тип женских гениталий");
        reveal_strlit("Именной корень из классификации Плуцера-Сарно. Обозначает тип женских гениталий с крупными половыми губами. Не образует глагольных форм. От 'королёк' — сорт сладкого апельсина.");
    } else if i == 30 {
        reveal_strlit("кун");
        reveal_strlit("куннилингус");
        reveal_strlit("Именной корень, обозначающий куннилингус. Заимствование из немецкого через медицинский дискурс. Не образует глагольных форм.");
    } else if i == 31 {
        reveal_strlit("сперм");
        reveal_strlit("сперма");
        reveal_strlit("Именной корень со значением 'сперма'. От греческого σπέρμα через медицинскую терминологию. Не образует глагольных форм. Стилистически нейтральный корень.");
    } else if i == 32 {
        reveal_strlit("менстр");
        reveal_strlit("менструация");
        reveal_strlit("Именной корень со значением 'менструация'. От латинского menstruum. Не образует глагольных форм. Относится к соматическому слою, на границе медицинской и обсценной лексики.");
    } else if i == 33 {
        reveal_strlit("минет");
        reveal_strlit("фелляция");
        reveal_strlit("Именной корень, обозначающий фелляцию. Заимствование из французского (la minette, 'кошечка'). Не образует глагольных форм. Преимущественно именной.");
    } else {
        reveal_strlit("гондон");
        reveal_strlit("презерватив");
        reveal_strlit("Именной корень со значением 'презерватив'. Французское заимствование (condom). В переносном значении — 'противный, надоедливый человек'. Не образует глагольных форм.");
    }
}

/// The notes of the table of еб- lack the letter.
proof fn lemma_eb_notes_lack(p: usize, s: usize)
    ensures
        spec_attest(0, p, s).1 matches Some(n) ==> lacks_heading(n@),
{
    reveal_strlit("выбросить, выкинуть");
    reveal_strlit("довести до оргазма");
    reveal_strlit("измучить (перен.)");
    reveal_strlit("износить, испортить");
    reveal_strlit("интенсив, избить (?)");
    reveal_strlit("надуть, обмануть");
    reveal_strlit("обмануть");
    reveal_strlit("оттрахать");
    reveal_strlit("перетрахать(ся)");
    reveal_strlit("пробить, проломить");
    reveal_strlit("совершать половой акт");
    reveal_strlit("ударить, стукнуть");
    reveal_strlit("ударить; сделать глупость");
    reveal_strlit("упустить, просрать");
}

/// The notes of the table of пизд- lack the letter.
proof fn lemma_pizd_notes_lack(p: usize, s: usize)
    ensures
        spec_attest(1, p, s).1 matches Some(n) ==> lacks_heading(n@),
{
    reveal_strlit("бить, красть");
    reveal_strlit("выгнать, выкинуть");
    reveal_strlit("говорить ерунду");
    reveal_strlit("договориться до абсурда");
    reveal_strlit("избить");
    reveal_strlit("навредить");
    reveal_strlit("начать врать");
    reveal_strlit("пробить насквозь");
    reveal_strlit("проболтаться; пропустить");
    reveal_strlit("пропустить; украсть");
    reveal_strlit("ударить с силой");
    reveal_strlit("ударить; присвоить");
    reveal_strlit("ударить; соврать");
}

/// The notes of the table of хуй- lack the letter.
proof fn lemma_khuy_notes_lack(p: usize, s: usize)
    ensures
        spec_attest(2, p, s).1 matches Some(n) ==> lacks_heading(n@),
{
    reveal_strlit("забить, пренебречь");
    reveal_strlit("навредить");
    reveal_strlit("промахнуться");
    reveal_strlit("ударить");
}

/// The notes of the table of бляд- lack the letter.
proof fn lemma_blyad_notes_lack(p: usize, s: usize)
    ensures
        spec_attest(3, p, s).1 matches Some(n) ==> lacks_heading(n@),
{
    reveal_strlit("говорить 'блядь' как слово-паразит");
    reveal_strlit("начать материться");
    reveal_strlit("провести время в распутстве; потратить зря");
}

/// The notes of the table of муд- lack the letter.
proof fn lemma_mud_notes_lack(p: usize, s: usize)
    ensures
        spec_attest(4, p, s).1 matches Some(n) ==> lacks_heading(n@),
{
    reveal_strlit("задержать, затянуть");
    reveal_strlit("медлить, делать ерунду");
    reveal_strlit("наделать глупостей");
    reveal_strlit("отделаться");
    reveal_strlit("перестараться");
}

/// The notes of the table of сра- lack the letter.
proof fn lemma_sra_notes_lack(p: usize, s: usize)
    ensures
        spec_attest(7, p, s).1 matches Some(n) ==> lacks_heading(n@),
{
    reveal_strlit("выбраниться; отделаться");
    reveal_strlit("загрязнить, испортить");
    reveal_strlit("извергнуть");
    reveal_strlit("испражняться");
    reveal_strlit("однократно испражниться");
    reveal_strlit("переполнить, перенервничать");
    reveal_strlit("причинить неприятности");
    reveal_strlit("упустить, потерять");
}

/// The notes of the table of сса- lack the letter.
proof fn lemma_ssa_notes_lack(p: usize, s: usize)
    ensures
        spec_attest(8, p, s).1 matches Some(n) ==> lacks_heading(n@),
{
    reveal_strlit("испугаться");
    reveal_strlit("мочиться");
    reveal_strlit("наполнить мочой");
    reveal_strlit("опоздать, упустить");
    reveal_strlit("отделаться страхом");
    reveal_strlit("помочиться однократно");
}

/// The notes of the table of дроч- lack the letter.
proof fn lemma_droch_notes_lack(p: usize, s: usize)
    ensures
        spec_attest(9, p, s).1 matches Some(n) ==> lacks_heading(n@),
{
    reveal_strlit("добавить; приделать наспех");
    reveal_strlit("добиться изнурением");
    reveal_strlit("довести до изнеможения");
    reveal_strlit("довести до маразма");
    reveal_strlit("заниматься мастурбацией");
    reveal_strlit("измучить повторами");
    reveal_strlit("истратить на бесполезное");
    reveal_strlit("кончить; закончить");
    reveal_strlit("оттрахать интенсивно");
    reveal_strlit("содрать курсовую (студ.)");
}

/// The notes of the table of трах- lack the letter.
proof fn lemma_trakh_notes_lack(p: usize, s: usize)
    ensures
        spec_attest(10, p, s).1 matches Some(n) ==> lacks_heading(n@),
{
    reveal_strlit("вытрахать; износить одеяло");
    reveal_strlit("затрахать; измучить");
    reveal_strlit("натрахать; получить удов.");
    reveal_strlit("оттрахать качественно");
    reveal_strlit("перетрахать многих");
    reveal_strlit("протрахать всё время");
    reveal_strlit("растрахать; расшевелить");
    reveal_strlit("совершать половой акт");
}

/// The notes of the table of жр- lack the letter.
proof fn lemma_zhr_notes_lack(p: usize, s: usize)
    ensures
        spec_attest(11, p, s).1 matches Some(n) ==> lacks_heading(n@),
{
    reveal_strlit("выжрать; выпить всё");
    reveal_strlit("есть жадно, много");
    reveal_strlit("зажраться; обнаглеть");
    reveal_strlit("нажраться; наесться до отвала");
    reveal_strlit("отожраться; потолстеть");
    reveal_strlit("пережрать; переесть");
    reveal_strlit("пожрать немного");
    reveal_strlit("прожрать; истратить на еду");
}

/// The notes of the table of хер- lack the letter.
proof fn lemma_kher_notes_lack(p: usize, s: usize)
    ensures
        spec_attest(12, p, s).1 matches Some(n) ==> lacks_heading(n@),
{
    reveal_strlit("выхерить; удалить");
    reveal_strlit("зачеркнуть; отменить");
    reveal_strlit("нахерить; навредить");
    reveal_strlit("перехерить; испортить всё");
    reveal_strlit("портить; отменять");
    reveal_strlit("прохерить; упустить");
    reveal_strlit("схерить; свести на нет");
}

/// The notes of the table of перд- lack the letter.
proof fn lemma_perd_notes_lack(p: usize, s: usize)
    ensures
        spec_attest(13, p, s).1 matches Some(n) ==> lacks_heading(n@),
{
    reveal_strlit("выпердеть; резко выдохнуть");
    reveal_strlit("засорить воздух; испортить");
    reveal_strlit("засорить резко");
    reveal_strlit("испускать газы");
    reveal_strlit("испустить газ однократно");
    reveal_strlit("напердеть; наполнить газами");
    reveal_strlit("отпердеть; закончить");
    reveal_strlit("попердеть немного");
    reveal_strlit("пропердеть; провалить");
}

/// The notes of the table of хар- lack the letter.
proof fn lemma_khar_notes_lack(p: usize, s: usize)
    ensures
        spec_attest(14, p, s).1 matches Some(n) ==> lacks_heading(n@),
{
    reveal_strlit("захарить; заиметь пол. контакт");
    reveal_strlit("нахарить; совершить мн. актов");
    reveal_strlit("охарить; обмануть");
    reveal_strlit("прохарить насквозь");
    reveal_strlit("расхарить; разбудить/разогреть");
    reveal_strlit("совокупляться; делать грубо");
}

/// The notes of the table of блев- lack the letter.
proof fn lemma_blev_notes_lack(p: usize, s: usize)
    ensures
        spec_attest(15, p, s).1 matches Some(n) ==> lacks_heading(n@),
{
    reveal_strlit("выблевать; извергнуть");
    reveal_strlit("заблевать; испачкать рвотой");
    reveal_strlit("извергать рвоту");
    reveal_strlit("наблевать; оставить рвоту");
    reveal_strlit("облевать; облить рвотой");
    reveal_strlit("отблевать; перестать");
    reveal_strlit("проблевать; пропустить из-за рвоты");
    reveal_strlit("сблевать; вырвать");
}

/// The notes of the table of бзд- lack the letter.
proof fn lemma_bzd_notes_lack(p: usize, s: usize)
    ensures
        spec_attest(16, p, s).1 matches Some(n) ==> lacks_heading(n@),
{
    reveal_strlit("испугаться, струсить");
    reveal_strlit("испускать газы беззвучно");
    reveal_strlit("набздеть; навонять");
    reveal_strlit("перестараться от страха");
    reveal_strlit("пробздеть; упустить из трусости");
}

/// The notes of the table of дрист- lack the letter.
proof fn lemma_drist_notes_lack(p: usize, s: usize)
    ensures
        spec_attest(17, p, s).1 matches Some(n) ==> lacks_heading(n@),
{
    reveal_strlit("задристать; испачкать");
    reveal_strlit("надристать; нагадить");
    reveal_strlit("обдристать; обгадить");
    reveal_strlit("страдать поносом");
}

/// The notes of the table of залуп- lack the letter.
proof fn lemma_zalup_notes_lack(p: usize, s: usize)
    ensures
        spec_attest(18, p, s).1 matches Some(n) ==> lacks_heading(n@),
{
    reveal_strlit("залупиться; обнажиться (груб.)");
    reveal_strlit("налупить; натянуть кожу");
    reveal_strlit("обнажить головку члена");
    reveal_strlit("слупиться");
}

/// The notes of the table of жоп- lack the letter.
proof fn lemma_zhop_notes_lack(p: usize, s: usize)
    ensures
        spec_attest(19, p, s).1 matches Some(n) ==> lacks_heading(n@),
{
    reveal_strlit("зажопить; не поделиться");
    reveal_strlit("нажопить; накопить");
    reveal_strlit("прижопить; присвоить");
    reveal_strlit("экономить; присваивать");
}

/// The notes of the table of говн- lack the letter.
proof fn lemma_govn_notes_lack(p: usize, s: usize)
    ensures
        spec_attest(20, p, s).1 matches Some(n) ==> lacks_heading(n@),
{
    reveal_strlit("заговнить; испачкать/испортить");
    reveal_strlit("наговнить; наделать дерьма");
    reveal_strlit("обговнить; очернить, обгадить");
    reveal_strlit("портить; делать плохо");
    reveal_strlit("провонять; обратить в говно");
}

/// The notes of the table of пидор- lack the letter.
proof fn lemma_pidor_notes_lack(p: usize, s: usize)
    ensures
        spec_attest(21, p, s).1 matches Some(n) ==> lacks_heading(n@),
{
    reveal_strlit("заниматься анальным сексом (акт.)");
    reveal_strlit("запидорить; ударить; испортить");
    reveal_strlit("напидорить; натворить дел");
    reveal_strlit("припидорить; приделать");
    reveal_strlit("пропидорить; анально изнасиловать");
    reveal_strlit("спидорить; сделать наскоро");
}

/// The notes of the table of курв- lack the letter.
proof fn lemma_kurv_notes_lack(p: usize, s: usize)
    ensures
        spec_attest(22, p, s).1 matches Some(n) ==> lacks_heading(n@),
{
    reveal_strlit("вести себя распутно");
    reveal_strlit("закурвиться; стать проституткой");
    reveal_strlit("накурвить; нагулять");
    reveal_strlit("прокурвиться; прогулять с муж.");
    reveal_strlit("раскурвиться; стать развратной");
}

/// The notes of every attestation table lack the letter.
proof fn lemma_table_notes_lack(i: usize, p: usize, s: usize)
    ensures
        spec_attest(i, p, s).1 matches Some(n) ==> lacks_heading(n@),
{
    if i == 0 {
        lemma_eb_notes_lack(p, s);
    } else if i == 1 {
        lemma_pizd_notes_lack(p, s);
    } else if i == 2 {
        lemma_khuy_notes_lack(p, s);
    } else if i == 3 {
        lemma_blyad_notes_lack(p, s);
    } else if i == 4 {
        lemma_mud_notes_lack(p, s);
    } else if i == 7 {
        lemma_sra_notes_lack(p, s);
    } else if i == 8 {
        lemma_ssa_notes_lack(p, s);
    } else if i == 9 {
        lemma_droch_notes_lack(p, s);
    } else if i == 10 {
        lemma_trakh_notes_lack(p, s);
    } else if i == 11 {
        lemma_zhr_notes_lack(p, s);
    } else if i == 12 {
        lemma_kher_notes_lack(p, s);
    } else if i == 13 {
        lemma_perd_notes_lack(p, s);
    } else if i == 14 {
        lemma_khar_notes_lack(p, s);
    } else if i == 15 {
        lemma_blev_notes_lack(p, s);
    } else if i == 16 {
        lemma_bzd_notes_lack(p, s);
    } else if i == 17 {
        lemma_drist_notes_lack(p, s);
    } else if i == 18 {
        lemma_zalup_notes_lack(p, s);
    } else if i == 19 {
        lemma_zhop_notes_lack(p, s);
    } else if i == 20 {
        lemma_govn_notes_lack(p, s);
    } else if i == 21 {
        lemma_pidor_notes_lack(p, s);
    } else if i == 22 {
        lemma_kurv_notes_lack(p, s);
    }
}

/// The surface of every prefix and its display name lack the letter.
proof fn lemma_prefix_lacks(rd: RootData, p: usize)
    requires
        p < PREFIX_COUNT,
    ensures
        lacks_heading(spec_prefix_form(rd, p)),
        lacks_heading(spec_prefix(p).display@),
{
    reveal_strlit("");
    reveal_strlit("вы");
    reveal_strlit("до");
    reveal_strlit("за");
    reveal_strlit("из");
    reveal_strlit("на");
    reveal_strlit("от");
    reveal_strlit("пере");
    reveal_strlit("про");
    reveal_strlit("в");
    reveal_strlit("вз");
    reveal_strlit("о");
    reveal_strlit("по");
    reveal_strlit("под");
    reveal_strlit("при");
    reveal_strlit("раз");
    reveal_strlit("с");
    reveal_strlit("у");
    reveal_strlit("изо");
    reveal_strlit("ото");
    reveal_strlit("во");
    reveal_strlit("взо");
    reveal_strlit("обо");
    reveal_strlit("подо");
    reveal_strlit("разо");
    reveal_strlit("со");
    reveal_strlit("ис");
    reveal_strlit("вс");
    reveal_strlit("рас");
    reveal_strlit("об");
    reveal_strlit("(без)");
    reveal_strlit("вы-");
    reveal_strlit("до-");
    reveal_strlit("за-");
    reveal_strlit("из-/ис-");
    reveal_strlit("на-");
    reveal_strlit("от-/ото-");
    reveal_strlit("пере-");
    reveal_strlit("про-");
    reveal_strlit("в-");
    reveal_strlit("вз-/вс-");
    reveal_strlit("о-/об-");
    reveal_strlit("по-");
    reveal_strlit("под-");
    reveal_strlit("при-");
    reveal_strlit("раз-/рас-");
    reveal_strlit("с-");
    reveal_strlit("у-");
}

/// Every suffix and ending text lacks the letter.
proof fn lemma_morphemes_lack(s: usize, e: usize)
    ensures
        lacks_heading(spec_suffix(s).val@),
        lacks_heading(spec_ending(e).val@),
        lacks_heading(spec_combine(spec_suffix(s).val@, spec_ending(e).val@)),
{
    reveal_strlit("а");
    reveal_strlit("ну");
    reveal_strlit("е");
    reveal_strlit("и");
    reveal_strlit("ть");
    reveal_strlit("л");
    reveal_strlit("ёт");
    reveal_strlit("нёт");
    reveal_strlit("ит");
    reveal_strlit("ать");
    reveal_strlit("ал");
    reveal_strlit("нуть");
    reveal_strlit("нул");
    reveal_strlit("еть");
    reveal_strlit("ел");
    reveal_strlit("ить");
    reveal_strlit("ил");
}

/// The root and present stem of every root of the inventory lack the letter.
proof fn lemma_stems_lack(i: usize)
    requires
        i < ROOT_COUNT,
    ensures
        lacks_heading(spec_root(i).val@),
        opt_text(spec_root(i).present_stem) matches Some(t) ==> lacks_heading(t),
{
    reveal_strlit("блю");
    if i == 0 {
        reveal_strlit("еб");
    } else if i == 1 {
        reveal_strlit("пизд");
    } else if i == 2 {
        reveal_strlit("хуй");
    } else if i == 3 {
        reveal_strlit("бляд");
    } else if i == 4 {
        reveal_strlit("муд");
    } else if i == 5 {
        reveal_strlit("манд");
    } else if i == 6 {
        reveal_strlit("елд");
    } else if i == 7 {
        reveal_strlit("ср");
    } else if i == 8 {
        reveal_strlit("сс");
    } else if i == 9 {
        reveal_strlit("дроч");
    } else if i == 10 {
        reveal_strlit("трах");
    } else if i == 11 {
        reveal_strlit("жр");
    } else if i == 12 {
        reveal_strlit("хер");
    } else if i == 13 {
        reveal_strlit("перд");
    } else if i == 14 {
        reveal_strlit("хар");
    } else if i == 15 {
        reveal_strlit("блев");
    } else if i == 16 {
        reveal_strlit("бзд");
    } else if i == 17 {
        reveal_strlit("дрист");
    } else if i == 18 {
        reveal_strlit("залуп");
    } else if i == 19 {
        reveal_strlit("жоп");
    } else if i == 20 {
        reveal_strlit("говн");
    } else if i == 21 {
        reveal_strlit("пидор");
    } else if i == 22 {
        reveal_strlit("курв");
    } else if i == 23 {
        reveal_strlit("сиповк");
    } else if i == 24 {
        reveal_strlit("секел");
    } else if i == 25 {
        reveal_strlit("поц");
    } else if i == 26 {
        reveal_strlit("молофь");
    } else if i == 27 {
        reveal_strlit("минж");
    } else if i == 28 {
        reveal_strlit("целк");
    } else if i == 29 {
        reveal_strlit("королёвк");
    } else if i == 30 {
        reveal_strlit("кун");
    } else if i == 31 {
        reveal_strlit("сперм");
    } else if i == 32 {
        reveal_strlit("менстр");
    } else if i == 33 {
        reveal_strlit("минет");
    } else {
        reveal_strlit("гондон");
    }
}

/// The position of a root's name is the root's position.
proof fn lemma_index_at(i: usize)
    requires
        i < ROOT_COUNT,
    ensures
        spec_root_index(spec_root(i).name@) == Some(i),
{
    let name = spec_root(i).name@;
    lemma_find_root(name, 0);
    if let Some(k) = spec_root_index(name) {
        if k != i {
            law_root_names_distinct(i, k);
        }
    }
}

/// Every form of a root of the inventory lacks the letter in each of its
/// texts.
proof fn lemma_form_lacks(i: usize, p: usize, s: usize, e: usize)
    requires
        i < ROOT_COUNT,
        p < PREFIX_COUNT,
    ensures
        forms_lack_heading(seq![spec_form(spec_root(i), p, s, e)]),
{
    let rd = spec_root(i);
    lemma_prefix_lacks(rd, p);
    lemma_morphemes_lack(s, e);
    lemma_stems_lack(i);
    lemma_index_at(i);
    lemma_table_notes_lack(i, p, s);
    reveal_strlit("ъ");
    let pf = spec_prefix_form(rd, p);
    let r = spec_actual_root(rd.val@, spec_ending(e).val@, opt_text(rd.present_stem));
    assert(lacks_heading(r));
    assert(lacks_heading("ъ"@));
    lemma_lacks_concat(pf, "ъ"@);
    lemma_lacks_concat(pf + "ъ"@, r);
    lemma_lacks_concat(pf, r);
    lemma_lacks_concat(spec_stem(pf, r), spec_combine(spec_suffix(s).val@, spec_ending(e).val@));
    let f = spec_form(rd, p, s, e);
    assert(seq![f][0] == f);
}

/// The forms of a prefix over the first `k` suffix classes lack the letter.
proof fn lemma_block_lacks(i: usize, filter: Option<Seq<char>>, p: usize, k: nat)
    requires
        i < ROOT_COUNT,
        p < PREFIX_COUNT,
    ensures
        forms_lack_heading(prefix_block_upto(spec_root(i), filter, p, k)),
    decreases k,
{
    let rd = spec_root(i);
    if k > 0 {
        lemma_block_lacks(i, filter, p, (k - 1) as nat);
        let s = rd.suffix_indices@[k - 1];
        let prev = prefix_block_upto(rd, filter, p, (k - 1) as nat);
        let blk = if filter_admits(filter, s) {
            suffix_block(rd, p, s)
        } else {
            seq![]
        };
        let all = prefix_block_upto(rd, filter, p, k);
        assert forall|j: int| 0 <= j < all.len() implies forms_lack_heading(seq![#[trigger] all[j]]) by {
            if j < prev.len() {
                assert(all[j] == prev[j]);
                assert(seq![prev[j]][0] == prev[j]);
            } else {
                let t = j - prev.len();
                assert(all[j] == blk[t]);
                lemma_form_lacks(i, p, s, spec_endings_for(s)[t]);
            }
        }
        assert forall|j: int| 0 <= j < all.len() implies #[trigger] all[j] == seq![all[j]][0] by {}
    }
}

/// The paradigm of every root of the inventory lacks the letter in each
/// text of each form.
proof fn lemma_paradigm_lacks(i: usize, filter: Option<Seq<char>>, n: nat)
    requires
        i < ROOT_COUNT,
        n <= PREFIX_COUNT,
    ensures
        forms_lack_heading(paradigm_upto(spec_root(i), filter, n)),
    decreases n,
{
    let rd = spec_root(i);
    if n > 0 {
        lemma_paradigm_lacks(i, filter, (n - 1) as nat);
        let k = rd.suffix_indices@.len();
        lemma_block_lacks(i, filter, (n - 1) as usize, k);
        let prev = paradigm_upto(rd, filter, (n - 1) as nat);
        let blk = prefix_block_upto(rd, filter, (n - 1) as usize, k);
        let all = paradigm_upto(rd, filter, n);
        assert forall|j: int| 0 <= j < all.len() implies #[trigger] all[j] == (if j < prev.len() {
            prev[j]
        } else {
            blk[j - prev.len()]
        }) by {}
    }
}

/// For every root of the inventory, the unfiltered explore display does not
/// show the breakdown heading `Разбор форм:` (the display of a suffix filter
/// with forms does, `law_explore_blocks_iff_filtered`).
pub proof fn law_inventory_unfiltered_has_no_heading(i: usize)
    requires
        i < ROOT_COUNT,
    ensures
        !contains_text(
            explore_text(
                spec_root(i).name@,
                opt_text(spec_root(i).gloss_ru),
                spec_root(i).domain,
                spec_root(i).productivity,
                false,
                spec_paradigm(spec_root(i), None),
            ),
            "Разбор форм:"@,
        ),
{
    lemma_root_texts_lack(i);
    lemma_index_at(i);
    lemma_paradigm_lacks(i, None, PREFIX_COUNT as nat);
    law_unfiltered_has_no_heading(
        spec_root(i).name@,
        opt_text(spec_root(i).gloss_ru),
        spec_root(i).domain,
        spec_root(i).productivity,
        spec_paradigm(spec_root(i), None),
    );
}

} // verus!
