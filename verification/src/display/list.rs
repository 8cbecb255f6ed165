//! `list-roots` formatter: an enriched one-line-per-root listing.

use vstd::prelude::*;

use super::{domain_inline, domain_list_header, spec_domain_inline, spec_domain_list_header};
use crate::morpheme::{
    Attestation, Domain, Mode, RootData, VerbFormView, forms_view, spec_suffix, suffix_entry,
};
use crate::paradigm::{explore, lemma_found_root_wf, list_roots, spec_mode_pool, spec_paradigm};
use crate::roots::{ROOT_COUNT, all_roots, lemma_root_wf, root_data, root_wf, spec_root, spec_root_data};
use crate::text::{concat, decimal, join, join_strs, owned, push_decimal};

verus! {

/// Whether an attestation level is source-attested (Common or Rare).
pub open spec fn is_attested(att: Attestation) -> bool {
    att == Attestation::Common || att == Attestation::Rare
}

/// Whether some form of the sequence is source-attested.
pub open spec fn any_attested(forms: Seq<VerbFormView>) -> bool {
    exists|k: int| 0 <= k < forms.len() && is_attested(#[trigger] forms[k].attestation)
}

/// Whether the root named `name` has at least one Common or Rare form; a name
/// the inventory does not hold has none.
pub open spec fn spec_has_attested_form(name: Seq<char>) -> bool {
    match spec_root_data(name) {
        Some(rd) => any_attested(spec_paradigm(rd, None)),
        None => false,
    }
}

/// The verb/noun type of a root: its suffix classes, or the noun-only marker.
pub open spec fn type_text(rd: RootData) -> Seq<char> {
    if rd.suffix_indices@.len() == 0 {
        "только именной"@
    } else {
        "глагольный ("@ + join(
            rd.suffix_indices@.map_values(|i: usize| spec_suffix(i).display@),
            ", "@,
        ) + ")"@
    }
}

/// The honesty flag of a verbal root none of whose forms is attested.
pub open spec fn unattested_flag(rd: RootData) -> Seq<char> {
    if rd.suffix_indices@.len() != 0 && !spec_has_attested_form(rd.name@) {
        "  (нет засвидетельствованных форм)"@
    } else {
        seq![]
    }
}

/// One list line: `  name-  «gloss»  domain · class · type[flag]`.
pub open spec fn root_line(rd: RootData) -> Seq<char> {
    let gloss = match rd.gloss_ru {
        Some(g) => "«"@ + g@ + "»"@,
        None => seq![],
    };
    "  "@ + rd.name@ + "-  "@ + gloss + "  "@ + spec_domain_inline(rd.domain)@ + " · "@
        + rd.productivity.spec_letter()@ + " · "@ + type_text(rd) + unattested_flag(rd) + "\n"@
}

/// The line of the root named `name`, or nothing if the inventory holds none.
pub open spec fn line_for_name(name: Seq<char>) -> Seq<char> {
    match spec_root_data(name) {
        Some(rd) => root_line(rd),
        None => seq![],
    }
}

/// The lines of the first `n` inventory roots in domain `d`, in inventory order.
pub open spec fn domain_lines_upto(d: Domain, n: nat) -> Seq<char>
    decreases n,
{
    if n == 0 {
        seq![]
    } else {
        domain_lines_upto(d, (n - 1) as nat) + if spec_root((n - 1) as usize).domain == d {
            root_line(spec_root((n - 1) as usize))
        } else {
            seq![]
        }
    }
}

/// A domain's header and the lines of its roots.
pub open spec fn domain_section(d: Domain) -> Seq<char> {
    "  --- "@ + spec_domain_list_header(d)@ + " ---\n"@ + domain_lines_upto(d, ROOT_COUNT as nat)
}

/// The Russian word for "root" agreeing with the count `n`.
pub open spec fn root_count_word(n: nat) -> Seq<char> {
    if n == 1 {
        "корень"@
    } else if n < 5 {
        "корня"@
    } else {
        "корней"@
    }
}

/// The root list of a mode: a header with the count, the lines (flat for
/// classic, grouped by domain for full), and the footer.
pub open spec fn spec_format_list_roots(mode: Mode) -> Seq<char> {
    let names = spec_mode_pool(mode).map_values(|i: usize| spec_root(i).name@);
    let n = names.len();
    let body = match mode {
        Mode::Classic => "Доступные корни ("@ + decimal(n) + "):\n"@ + concat(
            names.map_values(|nm: Seq<char>| line_for_name(nm)),
        ),
        Mode::Full => "Все корни ("@ + decimal(n) + "):\n"@ + domain_section(Domain::Nuclear)
            + domain_section(Domain::Excretory) + domain_section(Domain::Peripheral),
    };
    body + "\n"@ + "  Всего: "@ + decimal(n) + " "@ + root_count_word(n) + "\n"@
        + "  Команда: matcraft explore <корень> для полной парадигмы\n"@ + match mode {
        Mode::Classic => "  Используйте --mode full для всех 35 корней (включая дрочить, жрать, говно, ...)\n"@,
        Mode::Full => seq![],
    }
}

/// Whether the root has at least one Common or Rare form (source-attested).
pub fn has_attested_form(name: &str) -> (r: bool)
    ensures
        r == spec_has_attested_form(name@),
{
    match explore(name, None) {
        Ok(res) => {
            let ghost forms = forms_view(res.forms@);
            let mut i: usize = 0;
            while i < res.forms.len()
                invariant
                    i <= res.forms@.len(),
                    forms == forms_view(res.forms@),
                    any_attested(forms) == spec_has_attested_form(name@),
                    forall|k: int| 0 <= k < i ==> !is_attested(#[trigger] forms[k].attestation),
                decreases res.forms@.len() - i,
            {
                let att = res.forms[i].attestation;
                assert(forms[i as int].attestation == att);
                if att == Attestation::Common || att == Attestation::Rare {
                    return true;
                }
                i = i + 1;
            }
            false
        },
        Err(_) => false,
    }
}

/// The verb/noun type of a root as text.
fn type_string(rd: &RootData) -> (r: String)
    requires
        root_wf(*rd),
    ensures
        r@ == type_text(*rd),
{
    if rd.suffix_indices.len() == 0 {
        return owned("только именной");
    }
    let ghost shown = rd.suffix_indices@.map_values(|i: usize| spec_suffix(i).display@);
    let mut classes: Vec<&'static str> = Vec::new();
    let mut i: usize = 0;
    while i < rd.suffix_indices.len()
        invariant
            i <= rd.suffix_indices@.len(),
            root_wf(*rd),
            shown == rd.suffix_indices@.map_values(|i: usize| spec_suffix(i).display@),
            classes@.map_values(|c: &str| c@) == shown.take(i as int),
        decreases rd.suffix_indices@.len() - i,
    {
        let idx = rd.suffix_indices[i];
        assert(rd.suffix_indices@[i as int] < crate::morpheme::SUFFIX_COUNT);
        let se = suffix_entry(idx);
        let ghost before = classes@;
        classes.push(se.display);
        assert(shown[i as int] == se.display@);
        assert(classes@.map_values(|c: &str| c@) =~= before.map_values(|c: &str| c@).push(
            se.display@,
        ));
        assert(shown.take((i + 1) as int) =~= shown.take(i as int).push(shown[i as int]));
        i = i + 1;
    }
    assert(shown.take(rd.suffix_indices@.len() as int) =~= shown);
    let mut r = owned("глагольный (");
    let joined = join_strs(classes.as_slice(), ", ");
    r.append(joined.as_str());
    r.append(")");
    r
}

/// One enriched list line for a root.
///
/// Carries the root, its Russian gloss, domain, productivity class, verb/noun
/// type, and an honest "no attested forms" flag for a verbal root whose whole
/// paradigm is `possible`.
pub fn format_root_line(rd: &RootData) -> (r: String)
    requires
        root_wf(*rd),
    ensures
        r@ == root_line(*rd),
{
    let mut r = owned("  ");
    r.append(rd.name);
    r.append("-  ");
    match rd.gloss_ru {
        Some(g) => {
            r.append("«");
            r.append(g);
            r.append("»");
        },
        None => {},
    }
    r.append("  ");
    r.append(domain_inline(rd.domain));
    r.append(" · ");
    r.append(rd.productivity.letter());
    r.append(" · ");
    let t = type_string(rd);
    r.append(t.as_str());
    if rd.suffix_indices.len() != 0 && !has_attested_form(rd.name) {
        r.append("  (нет засвидетельствованных форм)");
    }
    r.append("\n");
    assert(r@ =~= root_line(*rd));
    r
}

/// Appends the header and lines of one domain.
fn push_domain_section(out: &mut String, roots: &Vec<RootData>, d: Domain)
    requires
        roots@.len() == ROOT_COUNT,
        forall|i: int| 0 <= i < ROOT_COUNT ==> roots@[i] == spec_root(i as usize),
    ensures
        final(out)@ == old(out)@ + domain_section(d),
{
    out.append("  --- ");
    out.append(domain_list_header(d));
    out.append(" ---\n");
    let ghost start = out@;
    let mut i: usize = 0;
    while i < roots.len()
        invariant
            i <= roots@.len(),
            roots@.len() == ROOT_COUNT,
            forall|j: int| 0 <= j < ROOT_COUNT ==> roots@[j] == spec_root(j as usize),
            out@ == start + domain_lines_upto(d, i as nat),
        decreases roots@.len() - i,
    {
        let rd = &roots[i];
        if rd.domain == d {
            proof {
                lemma_root_wf(i);
            }
            let line = format_root_line(rd);
            out.append(line.as_str());
        }
        assert(out@ =~= start + domain_lines_upto(d, (i + 1) as nat));
        i = i + 1;
    }
    assert(out@ =~= old(out)@ + domain_section(d));
}

/// Format the root list for a given mode.
///
/// Classic → a flat list; full → grouped by semantic domain. Each line carries
/// the root, its Russian gloss, domain, productivity class, verb/noun type, and
/// an honest "no attested forms" flag for verbal roots whose paradigm is all
/// `possible`.
pub fn format_list_roots(mode: Mode) -> (r: String)
    ensures
        r@ == spec_format_list_roots(mode),
{
    let roots = list_roots(mode);
    let ghost names = spec_mode_pool(mode).map_values(|i: usize| spec_root(i).name@);
    assert(roots@.map_values(|n: &str| n@) =~= names);
    let n = roots.len();
    let mut out = String::new();

    match mode {
        Mode::Classic => {
            out.append("Доступные корни (");
            push_decimal(&mut out, n);
            out.append("):\n");
            let ghost start = out@;
            let ghost lines = names.map_values(|nm: Seq<char>| line_for_name(nm));
            let mut i: usize = 0;
            while i < roots.len()
                invariant
                    i <= roots@.len(),
                    names == roots@.map_values(|n: &str| n@),
                    lines == names.map_values(|nm: Seq<char>| line_for_name(nm)),
                    out@ == start + concat(lines.take(i as int)),
                decreases roots@.len() - i,
            {
                let name = roots[i];
                assert(lines[i as int] == line_for_name(name@));
                if let Some(rd) = root_data(name) {
                    proof {
                        lemma_found_root_wf(name@);
                    }
                    let line = format_root_line(&rd);
                    out.append(line.as_str());
                }
                assert(lines.take((i + 1) as int).drop_last() =~= lines.take(i as int));
                assert(out@ =~= start + concat(lines.take((i + 1) as int)));
                i = i + 1;
            }
            assert(lines.take(roots@.len() as int) =~= lines);
        },
        Mode::Full => {
            out.append("Все корни (");
            push_decimal(&mut out, n);
            out.append("):\n");
            // Grouped by semantic domain, in inventory order.
            let all = all_roots();
            push_domain_section(&mut out, &all, Domain::Nuclear);
            push_domain_section(&mut out, &all, Domain::Excretory);
            push_domain_section(&mut out, &all, Domain::Peripheral);
        },
    }
    let ghost body = out@;

    out.append("\n");
    out.append("  Всего: ");
    push_decimal(&mut out, n);
    out.append(" ");
    let word = if n == 1 {
        "корень"
    } else if n < 5 {
        "корня"
    } else {
        "корней"
    };
    out.append(word);
    out.append("\n");
    out.append("  Команда: matcraft explore <корень> для полной парадигмы\n");
    match mode {
        Mode::Classic => {
            out.append(
                "  Используйте --mode full для всех 35 корней (включая дрочить, жрать, говно, ...)\n",
            );
        },
        Mode::Full => {},
    }
    assert(out@ =~= spec_format_list_roots(mode));
    out
}


/// A root counts as having an attested form when some form of its paradigm
/// is Common or Rare (a root whose only attested forms are Rare, such as
/// бляд-, counts); so the no-attested-forms flag of a verbal root appears
/// exactly when every form of its paradigm is Possible or Impossible.
pub proof fn law_attested_is_common_or_rare(rd: RootData)
    ensures
        spec_has_attested_form(rd.name@) == (spec_root_data(rd.name@) matches Some(x) && exists|k: int|
            0 <= k < spec_paradigm(x, None).len() && (#[trigger] spec_paradigm(x, None)[k].attestation
                == Attestation::Common || spec_paradigm(x, None)[k].attestation == Attestation::Rare)),
        (unattested_flag(rd).len() > 0) == (rd.suffix_indices@.len() != 0 && forall|k: int|
            #![trigger spec_paradigm(spec_root_data(rd.name@)->0, None)[k]]
            spec_root_data(rd.name@) is Some ==> 0 <= k < spec_paradigm(spec_root_data(rd.name@)->0, None).len()
                ==> spec_paradigm(spec_root_data(rd.name@)->0, None)[k].attestation
                == Attestation::Possible || spec_paradigm(spec_root_data(rd.name@)->0, None)[k].attestation
                == Attestation::Impossible),
{
    reveal_strlit("  (нет засвидетельствованных форм)");
    if let Some(x) = spec_root_data(rd.name@) {
        let fs = spec_paradigm(x, None);
        if spec_has_attested_form(rd.name@) {
            let k = choose|k: int| 0 <= k < fs.len() && is_attested(#[trigger] fs[k].attestation);
            assert(0 <= k < fs.len() && (fs[k].attestation == Attestation::Common
                || fs[k].attestation == Attestation::Rare));
        } else {
            assert forall|k: int| 0 <= k < fs.len() implies #[trigger] fs[k].attestation
                == Attestation::Possible || fs[k].attestation == Attestation::Impossible by {
                assert(!is_attested(fs[k].attestation));
            }
        }
    }
}

} // verus!
