//! The commands of the command-line tool as text: each takes the parsed
//! arguments and gives the text to print, or the message of the error to
//! report.

use vstd::prelude::*;

use crate::display::boxed::spec_format_random;
use crate::display::explore::explore_text;
use crate::display::form_block::spec_form_block;
use crate::display::{format_explore, format_form_block, format_random};
use crate::morpheme::Mode;
use crate::paradigm::{
    GeneratedForm, GeneratedFormView, example_form, explore, generate, known_form,
    lemma_example_known, lemma_found_root_wf, lemma_paradigm_known, law_generate_pool,
    random_root, root_of_the_day, sample_forms, spec_all_names, spec_clamp_count,
    spec_example_form, spec_generate_pool, spec_mode_pool, spec_paradigm, spec_root_of_the_day,
    spec_sample_forms,
};
use crate::chance::is_index_permutation;
use crate::roots::{lemma_find_root, root_data, root_wf, spec_root, spec_root_data};
use crate::text::{join, last_char, opt_text, owned};

verus! {

/// `s` without one trailing hyphen, if it ends in one (`еб-` → `еб`).
pub open spec fn strip_hyphen(s: Seq<char>) -> Seq<char> {
    if s.len() > 0 && s.last() == '-' {
        s.drop_last()
    } else {
        s
    }
}

/// Removes one trailing hyphen, so that `еб-` names the root `еб`.
pub fn strip_trailing_hyphen(s: &str) -> (r: &str)
    ensures
        r@ == strip_hyphen(s@),
{
    match last_char(s) {
        Some(c) => {
            if c == '-' {
                let n = s.unicode_len();
                s.substring_char(0, n - 1)
            } else {
                s
            }
        },
        None => s,
    }
}

/// The message for an unknown root: it lists every root of the inventory.
pub open spec fn not_found_message(root: Seq<char>) -> Seq<char> {
    "Корень '"@ + root + "' не найден. Доступные корни: "@ + join(
        spec_all_names().map_values(|p: &str| p@),
        ", "@,
    ) + ". Используйте `matcraft list-roots` для полного списка."@
}

/// `explore <root> [--suffix S]`: the explore display of the root (a trailing
/// hyphen in the name is dropped), or the message for an unknown root.
pub fn explore_command(root: &str, suffix: Option<&str>) -> (r: Result<String, String>)
    ensures
        match spec_root_data(strip_hyphen(root@)) {
            None => r matches Err(e) && e@ == not_found_message(strip_hyphen(root@)),
            Some(rd) => r matches Ok(s) && s@ == explore_text(
                rd.name@,
                opt_text(rd.gloss_ru),
                rd.domain,
                rd.productivity,
                suffix is Some,
                spec_paradigm(rd, opt_text(suffix)),
            ),
        },
{
    let name = strip_trailing_hyphen(root);
    match explore(name, suffix) {
        Ok(result) => {
            proof {
                let rd = spec_root_data(name@)->0;
                lemma_found_root_wf(name@);
                lemma_find_root(name@, 0);
                assert(result.root_name@ == name@);
                lemma_paradigm_known(rd, opt_text(suffix));
                assert(crate::display::explore::suffixes_known(
                    crate::morpheme::forms_view(result.forms@),
                )) by {
                    let fs = crate::morpheme::forms_view(result.forms@);
                    assert forall|k: int| 0 <= k < fs.len() implies crate::morpheme::is_suffix_val(
                        #[trigger] fs[k].suffix_val,
                    ) by {
                        assert(known_form(spec_paradigm(rd, opt_text(suffix))[k]));
                    }
                }
            }
            Ok(format_explore(&result))
        },
        Err(e) => {
            let m = e.message();
            assert(m@ =~= not_found_message(name@));
            Err(m)
        },
    }
}

/// The message for a count above the maximum.
pub open spec fn count_error() -> Seq<char> {
    "Ошибка: количество не может превышать 100."@
}

/// The message for a root that `generate` does not know.
pub open spec fn unknown_root_error(root: Seq<char>) -> Seq<char> {
    "Ошибка: корень '"@ + root + "' не найден."@
}

/// The notice for a noun-only root, which has no verb forms to draw.
pub open spec fn noun_only_notice(root: Seq<char>) -> Seq<char> {
    "именной корень «"@ + root + "-»: глагольных форм нет"@
}

/// The breakdown blocks of generated forms, separated by blank lines.
pub open spec fn generated_text(gs: Seq<GeneratedFormView>) -> Seq<char> {
    join(gs.map_values(|g: GeneratedFormView| spec_form_block(g.root, g.form)), "\n"@)
}

/// Whether `gs` is a draw of `count` forms from `pool` as `generate` makes
/// them: the pool in some order, cycled when `count` exceeds it.
pub open spec fn is_draw(gs: Seq<GeneratedFormView>, pool: Seq<GeneratedFormView>, count: usize) -> bool {
    &&& pool.len() == 0 ==> gs.len() == 0
    &&& pool.len() > 0 ==> gs.len() == spec_clamp_count(count) && exists|perm: Seq<usize>|
        is_index_permutation(perm, pool.len()) && forall|i: int|
            0 <= i < gs.len() ==> #[trigger] gs[i] == pool[perm[i % (pool.len() as int)] as int]
}

/// The breakdown blocks of generated forms, separated by blank lines.
pub fn format_generated(forms: &Vec<GeneratedForm>) -> (r: String)
    requires
        forall|i: int| 0 <= i < forms@.len() ==> known_form(#[trigger] forms@[i].form@),
    ensures
        r@ == generated_text(forms@.map_values(|g: GeneratedForm| g@)),
{
    let ghost blocks = forms@.map_values(|g: GeneratedForm| g@).map_values(
        |g: GeneratedFormView| spec_form_block(g.root, g.form),
    );
    let mut out = String::new();
    let mut i: usize = 0;
    while i < forms.len()
        invariant
            i <= forms@.len(),
            forall|k: int| 0 <= k < forms@.len() ==> known_form(#[trigger] forms@[k].form@),
            blocks == forms@.map_values(|g: GeneratedForm| g@).map_values(
                |g: GeneratedFormView| spec_form_block(g.root, g.form),
            ),
            out@ == join(blocks.take(i as int), "\n"@),
        decreases forms@.len() - i,
    {
        let gf = &forms[i];
        assert(known_form(forms@[i as int].form@));
        let block = format_form_block(&gf.root, &gf.form);
        proof {
            crate::text::lemma_join_push(blocks.take(i as int), block@, "\n"@);
            assert(blocks.take((i + 1) as int) =~= blocks.take(i as int).push(block@));
        }
        if i > 0 {
            out.append("\n");
        }
        out.append(block.as_str());
        i = i + 1;
    }
    assert(blocks.take(forms@.len() as int) =~= blocks);
    out
}

/// `generate [--root R] [--count N]`.
///
/// A count above 100 is refused; an unknown root is refused; a noun-only root
/// gives a notice (it has no verb forms); otherwise the breakdown blocks of
/// the drawn forms. A trailing hyphen in the root's name is dropped.
pub fn generate_command(mode: Mode, root: Option<&str>, count: usize) -> (r: Result<
    String,
    String,
>)
    ensures
        count > 100 ==> (r matches Err(e) && e@ == count_error()),
        count <= 100 ==> match root {
            Some(n) => match spec_root_data(strip_hyphen(n@)) {
                None => r matches Err(e) && e@ == unknown_root_error(strip_hyphen(n@)),
                Some(rd) => if rd.suffix_indices@.len() == 0 {
                    r matches Ok(s) && s@ == noun_only_notice(strip_hyphen(n@))
                } else {
                    r matches Ok(s) && exists|gs: Seq<GeneratedFormView>|
                        is_draw(gs, spec_generate_pool(mode, Some(strip_hyphen(n@))), count)
                            && s@ == generated_text(gs)
                },
            },
            None => r matches Ok(s) && exists|gs: Seq<GeneratedFormView>|
                is_draw(gs, spec_generate_pool(mode, None), count) && s@ == generated_text(gs),
        },
{
    if count > 100 {
        return Err(owned("Ошибка: количество не может превышать 100."));
    }
    let name: Option<&str> = match root {
        Some(n) => Some(strip_trailing_hyphen(n)),
        None => None,
    };
    match name {
        Some(n) => {
            match root_data(n) {
                None => {
                    let mut e = owned("Ошибка: корень '");
                    e.append(n);
                    e.append("' не найден.");
                    return Err(e);
                },
                Some(rd) => {
                    if rd.suffix_indices.len() == 0 {
                        let mut s = owned("именной корень «");
                        s.append(n);
                        s.append("-»: глагольных форм нет");
                        return Ok(s);
                    }
                },
            }
        },
        None => {},
    }
    let forms = generate(mode, name, count);
    let ghost pool = spec_generate_pool(mode, opt_text(name));
    proof {
        assert forall|i: int| 0 <= i < forms@.len() implies known_form(#[trigger] forms@[i].form@) by {
            let perm = choose|perm: Seq<usize>|
                is_index_permutation(perm, pool.len()) && forall|j: int|
                    0 <= j < forms@.len() ==> #[trigger] forms@[j]@ == pool[perm[j % (
                    pool.len() as int)] as int];
            let k = perm[i % (pool.len() as int)] as int;
            assert(forms@[i]@ == pool[k]);
            law_generate_pool(mode, opt_text(name), k);
        }
    }
    let text = format_generated(&forms);
    proof {
        let gs = forms@.map_values(|g: GeneratedForm| g@);
        assert(is_draw(gs, pool, count));
    }
    Ok(text)
}

/// The random-root display of a root: the summary box with its sample forms
/// and the breakdown of its example form.
pub open spec fn root_display(rd: crate::morpheme::RootData) -> Seq<char> {
    spec_format_random(
        rd,
        spec_sample_forms(rd.name@),
        spec_example_form(rd.name@),
    )
}

/// The summary box and example breakdown of a root: what `random` and
/// `root-of-the-day` print for the root they picked.
pub fn format_root_display(rd: &crate::morpheme::RootData) -> (r: String)
    requires
        root_wf(*rd),
    ensures
        r@ == root_display(*rd),
{
    let samples = sample_forms(rd);
    let mut refs: Vec<&str> = Vec::new();
    let mut i: usize = 0;
    while i < samples.len()
        invariant
            i <= samples@.len(),
            refs@.map_values(|s: &str| s@) == samples@.map_values(|s: String| s@).take(i as int),
        decreases samples@.len() - i,
    {
        let ghost before = refs@;
        let s = samples[i].as_str();
        refs.push(s);
        assert(refs@.map_values(|s: &str| s@) =~= before.map_values(|s: &str| s@).push(s@));
        assert(samples@.map_values(|s: String| s@)[i as int] == s@);
        assert(refs@.map_values(|s: &str| s@) =~= samples@.map_values(|s: String| s@).take(
            (i + 1) as int,
        ));
        i = i + 1;
    }
    assert(samples@.map_values(|s: String| s@).take(samples@.len() as int) =~= samples@.map_values(
        |s: String| s@,
    ));
    let example = example_form(rd);
    proof {
        lemma_example_known(rd.name@);
    }
    let out = match &example {
        Some(vf) => format_random(rd, refs.as_slice(), Some(vf)),
        None => format_random(rd, refs.as_slice(), None),
    };
    out
}

/// `random`: the display of a root drawn at random from the mode's roots.
pub fn random_command(mode: Mode) -> (r: String)
    ensures
        exists|k: int|
            0 <= k < spec_mode_pool(mode).len() && r@ == root_display(
                spec_root(#[trigger] spec_mode_pool(mode)[k]),
            ),
{
    let rd = random_root(mode);
    format_root_display(&rd)
}

/// `root-of-the-day`: the display of the root of the given day.
pub fn root_of_the_day_command(mode: Mode, day_index: u64) -> (r: String)
    ensures
        r@ == root_display(spec_root_of_the_day(mode, day_index)),
{
    let rd = root_of_the_day(mode, day_index);
    format_root_display(&rd)
}

} // verus!
