//! The "full breakdown block" for a single form.
//!
//! One home for the explanatory block reused by `generate`, `explore` (under a
//! suffix filter), `random`, and `root-of-the-day`. Every displayed morpheme
//! gloss is pulled from the morpheme/root tables.

use vstd::prelude::*;

use super::{
    attestation_reason, domain_inline, format_attestation, spec_attestation_reason,
    spec_domain_inline, spec_format_attestation,
};
use crate::morpheme::{
    RootData, VerbForm, VerbFormView, ending_entry, ending_by_val, is_ending_val, is_suffix_val,
    prefix_display, spec_ending, spec_ending_index_of, spec_prefix, spec_suffix,
    spec_suffix_index_of, suffix_entry, suffix_index_for_val,
};
use crate::text::{join, join_strings, owned, str_eq};

verus! {

/// Placeholder shown for a form without a source note (`possible` forms).
pub open spec fn no_note() -> &'static str {
    "— (в источнике не засвидетельствовано)"
}

/// Whether a form carries the bare (empty) prefix.
pub open spec fn is_bare(vf: VerbFormView) -> bool {
    vf.prefix_display == spec_prefix(0).display@
}

/// The `разбор` terms: prefix (unless bare), root, suffix, ending.
pub open spec fn razbor_parts(rd: RootData, vf: VerbFormView) -> Seq<Seq<char>> {
    let tail = seq![
        rd.name@ + "-"@,
        spec_suffix(spec_suffix_index_of(vf.suffix_val)).display@,
        spec_ending(spec_ending_index_of(vf.ending_val)).display@,
    ];
    if is_bare(vf) {
        tail
    } else {
        seq![vf.prefix_display] + tail
    }
}

/// The root segment of the `морфемы` line: the root, and its Russian gloss
/// when it has one.
pub open spec fn root_segment(rd: RootData) -> Seq<char> {
    match rd.gloss_ru {
        Some(g) => "корень "@ + rd.name@ + "- «"@ + g@ + "»"@,
        None => "корень "@ + rd.name@ + "-"@,
    }
}

/// The labelled `морфемы` segments: prefix (unless bare), root, suffix, ending.
pub open spec fn morpheme_parts(rd: RootData, vf: VerbFormView) -> Seq<Seq<char>> {
    let si = spec_suffix_index_of(vf.suffix_val);
    let tail = seq![
        root_segment(rd),
        "суффикс "@ + spec_suffix(si).display@ + " ("@ + spec_suffix(si).gloss@ + ")"@,
        spec_ending(spec_ending_index_of(vf.ending_val)).label@,
    ];
    if is_bare(vf) {
        tail
    } else {
        seq!["приставка «"@ + vf.prefix_display + "»"@] + tail
    }
}

/// The breakdown block of a form:
///
/// ```text
/// обосснуть  ·  possible
///   значение : — (в источнике не засвидетельствовано)
///   разбор   : о-/об- + сса- + -ну- + -ть
///   морфемы  : приставка «о-/об-» · корень сса- «мочиться» · суффикс -ну- (однократный) · инфинитив -ть
///   уровень  : possible — словообразовательно возможна по аналогии, в источнике не засвидетельствована
///   домен    : экскреторная · продуктивность B
/// ```
pub open spec fn spec_form_block(rd: RootData, vf: VerbFormView) -> Seq<char> {
    let token = spec_format_attestation(vf.attestation)@;
    let znachenie = match vf.note {
        Some(n) => n,
        None => no_note()@,
    };
    vf.form + "  ·  "@ + token + "\n"@ + "  значение : "@ + znachenie + "\n"@ + "  разбор   : "@
        + join(razbor_parts(rd, vf), " + "@) + "\n"@ + "  морфемы  : "@ + join(
        morpheme_parts(rd, vf),
        " · "@,
    ) + "\n"@ + "  уровень  : "@ + token + " — "@ + spec_attestation_reason(vf.attestation)@
        + "\n"@ + "  домен    : "@ + spec_domain_inline(rd.domain)@ + " · продуктивность "@
        + rd.productivity.spec_letter()@ + "\n"@
}

/// Format a single form as the explanatory breakdown block.
///
/// The bare prefix (`(без)`) is omitted from both the `разбор` and `морфемы`
/// lines. A root with no `gloss_ru` prints `корень <name>-` without a gloss.
pub fn format_form_block(rd: &RootData, vf: &VerbForm) -> (r: String)
    requires
        is_suffix_val(vf.suffix_val@),
        is_ending_val(vf.ending_val@),
    ensures
        r@ == spec_form_block(*rd, vf@),
{
    let token = format_attestation(vf.attestation);
    let suffix_idx = suffix_index_for_val(vf.suffix_val);
    let ending_idx = ending_by_val(vf.ending_val);
    let se = suffix_entry(suffix_idx);
    let ee = ending_entry(ending_idx);
    let is_bare = str_eq(vf.prefix_display, prefix_display(0));

    // разбор: prefix + root- + suffix + ending, ` + `-joined (prefix dropped if bare)
    let mut razbor: Vec<String> = Vec::new();
    if !is_bare {
        razbor.push(owned(vf.prefix_display));
    }
    let mut root_term = owned(rd.name);
    root_term.append("-");
    razbor.push(root_term);
    razbor.push(owned(se.display));
    razbor.push(owned(ee.display));
    assert(razbor@.map_values(|p: String| p@) =~= razbor_parts(*rd, vf@));
    let razbor = join_strings(&razbor, " + ");

    // морфемы: labelled segments, ` · `-joined (prefix segment dropped if bare)
    let mut morphemes: Vec<String> = Vec::new();
    if !is_bare {
        let mut seg = owned("приставка «");
        seg.append(vf.prefix_display);
        seg.append("»");
        morphemes.push(seg);
    }
    let mut root_seg = owned("корень ");
    root_seg.append(rd.name);
    match rd.gloss_ru {
        Some(g) => {
            root_seg.append("- «");
            root_seg.append(g);
            root_seg.append("»");
        },
        None => {
            root_seg.append("-");
        },
    }
    morphemes.push(root_seg);
    let mut suffix_seg = owned("суффикс ");
    suffix_seg.append(se.display);
    suffix_seg.append(" (");
    suffix_seg.append(se.gloss);
    suffix_seg.append(")");
    morphemes.push(suffix_seg);
    morphemes.push(owned(ee.label));
    assert(morphemes@.map_values(|p: String| p@) =~= morpheme_parts(*rd, vf@));
    let morphemes = join_strings(&morphemes, " · ");

    let znachenie = match vf.note {
        Some(n) => n,
        None => "— (в источнике не засвидетельствовано)",
    };

    let mut out = String::new();
    out.append(vf.form.as_str());
    out.append("  ·  ");
    out.append(token);
    out.append("\n");
    out.append("  значение : ");
    out.append(znachenie);
    out.append("\n");
    out.append("  разбор   : ");
    out.append(razbor.as_str());
    out.append("\n");
    out.append("  морфемы  : ");
    out.append(morphemes.as_str());
    out.append("\n");
    out.append("  уровень  : ");
    out.append(token);
    out.append(" — ");
    out.append(attestation_reason(vf.attestation));
    out.append("\n");
    out.append("  домен    : ");
    out.append(domain_inline(rd.domain));
    out.append(" · продуктивность ");
    out.append(rd.productivity.letter());
    out.append("\n");
    out
}

} // verus!
