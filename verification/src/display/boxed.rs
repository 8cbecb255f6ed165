//! `random` / `root-of-the-day` formatter: a summary box plus a full breakdown
//! block below it.

use vstd::prelude::*;

use super::form_block::{format_form_block, spec_form_block};
use super::{
    domain_inline, is_word, law_wrap_lines_fit, lemma_runs_concat, lemma_runs_fit_words, lemma_runs_join,
    lemma_word_runs, run_at_end, runs_fit, spec_domain_inline, spec_wrap_text, words, wrap_text,
};
use crate::morpheme::{
    RootData, VerbForm, VerbFormView, is_ending_val, is_suffix_val, spec_suffix, suffix_entry,
};
use crate::paradigm::{lemma_samples_short, short_word, spec_example_form, spec_sample_forms};
use crate::roots::{lemma_root_wf, root_wf, spec_root, ROOT_COUNT};
use crate::text::{
    join, join_strings, lemma_repeat_len, owned, pad_right, push_padded, push_repeated, repeat,
    spaces,
};

verus! {

/// Width of the box's content field.
pub const CONTENT_WIDTH: usize = 40;

/// Lines framed as box content: `║  <line padded to 41> ║`.
pub open spec fn framed_lines(lines: Seq<Seq<char>>) -> Seq<char>
    decreases lines.len(),
{
    if lines.len() == 0 {
        seq![]
    } else {
        framed_lines(lines.drop_last()) + "║  "@ + pad_right(lines.last(), (CONTENT_WIDTH + 1) as nat)
            + " ║\n"@
    }
}

/// A text wrapped at the content width and framed as box content.
pub open spec fn framed(text: Seq<char>) -> Seq<char> {
    framed_lines(spec_wrap_text(text, CONTENT_WIDTH as nat))
}

/// A horizontal border line: `left`, 44 × `═`, `right`.
pub open spec fn border(left: Seq<char>, right: Seq<char>) -> Seq<char> {
    left + repeat("═"@, (CONTENT_WIDTH + 4) as nat) + right + "\n"@
}

/// One suffix class with its gloss: `display (gloss)`.
pub open spec fn suffix_class(idx: usize) -> Seq<char> {
    spec_suffix(idx).display@ + " ("@ + spec_suffix(idx).gloss@ + ")"@
}

/// The suffix classes of a root with their glosses, or the noun-only marker.
pub open spec fn suffix_classes_text(rd: RootData) -> Seq<char> {
    if rd.suffix_indices@.len() == 0 {
        "Нет (именной корень)"@
    } else {
        join(rd.suffix_indices@.map_values(|i: usize| suffix_class(i)), ", "@)
    }
}

/// The first content line: the root's name and its Russian gloss.
pub open spec fn name_line(rd: RootData) -> Seq<char> {
    let gloss = match rd.gloss_ru {
        Some(g) => "«"@ + g@ + "»"@,
        None => seq![],
    };
    "Корень: "@ + rd.name@ + "-  "@ + gloss
}

/// The domain · productivity content line.
pub open spec fn domain_line(rd: RootData) -> Seq<char> {
    "Домен: "@ + spec_domain_inline(rd.domain)@ + " · продуктивность "@
        + rd.productivity.spec_letter()@
}

/// The blank line inside the frame.
pub open spec fn blank_line() -> Seq<char> {
    "║"@ + spaces((CONTENT_WIDTH + 4) as nat) + "║\n"@
}

/// The part below the box: the breakdown of the example, or the note that
/// there is none.
pub open spec fn example_part(rd: RootData, example: Option<VerbFormView>) -> Seq<char> {
    match example {
        Some(vf) => "\nПример разбора:\n"@ + spec_form_block(rd, vf),
        None => "\nПример разбора: нет засвидетельствованных форм уровня common.\n"@,
    }
}

/// The examples line of the box.
pub open spec fn samples_text(rd: RootData, samples: Seq<Seq<char>>) -> Seq<char> {
    if samples.len() == 0 && rd.suffix_indices@.len() == 0 {
        "Примеры: именной корень (нет глагольных форм)"@
    } else if samples.len() == 0 {
        "Примеры: не указаны"@
    } else {
        "Примеры: "@ + join(samples, ", "@)
    }
}

/// The random-root display: the summary box, then the breakdown of the
/// example form (or an honest note that there is none).
pub open spec fn spec_format_random(
    rd: RootData,
    samples: Seq<Seq<char>>,
    example: Option<VerbFormView>,
) -> Seq<char> {
    border("╔"@, "╗"@) + framed(name_line(rd)) + border("╠"@, "╣"@) + framed(domain_line(rd))
        + framed("Суффиксальные классы: "@ + suffix_classes_text(rd)) + framed(
        samples_text(rd, samples),
    ) + blank_line() + framed("Заметка:"@) + framed(rd.linguistic_note@) + border("╚"@, "╝"@)
        + example_part(rd, example)
}

/// A content line of the frame, without its line break.
pub open spec fn frame_line(line: Seq<char>) -> Seq<char> {
    "║  "@ + pad_right(line, (CONTENT_WIDTH + 1) as nat) + " ║"@
}

/// The box is aligned: every line of the frame is 46 characters wide. The
/// borders and the blank line always are; a content line is when the wrapped
/// line fits the content field, which holds for every line of a text whose
/// words fit it.
pub proof fn law_box_lines_equal_width(text: Seq<char>, k: int)
    requires
        forall|j: int|
            0 <= j < words(text).len() ==> (#[trigger] words(text)[j]).len() <= CONTENT_WIDTH,
        0 <= k < spec_wrap_text(text, CONTENT_WIDTH as nat).len(),
    ensures
        frame_line(spec_wrap_text(text, CONTENT_WIDTH as nat)[k]).len() == CONTENT_WIDTH + 6,
        ("╔"@ + repeat("═"@, (CONTENT_WIDTH + 4) as nat) + "╗"@).len() == CONTENT_WIDTH + 6,
        ("╠"@ + repeat("═"@, (CONTENT_WIDTH + 4) as nat) + "╣"@).len() == CONTENT_WIDTH + 6,
        ("╚"@ + repeat("═"@, (CONTENT_WIDTH + 4) as nat) + "╝"@).len() == CONTENT_WIDTH + 6,
        ("║"@ + spaces((CONTENT_WIDTH + 4) as nat) + "║"@).len() == CONTENT_WIDTH + 6,
{
    reveal_strlit("║  ");
    reveal_strlit(" ║");
    reveal_strlit("╔");
    reveal_strlit("╗");
    reveal_strlit("╠");
    reveal_strlit("╣");
    reveal_strlit("╚");
    reveal_strlit("╝");
    reveal_strlit("║");
    reveal_strlit("═");
    law_wrap_lines_fit(text, CONTENT_WIDTH as nat);
    lemma_repeat_len("═"@, (CONTENT_WIDTH + 4) as nat);
}

/// Lines, each followed by a line break.
pub open spec fn lines_text(ls: Seq<Seq<char>>) -> Seq<char>
    decreases ls.len(),
{
    if ls.len() == 0 {
        seq![]
    } else {
        lines_text(ls.drop_last()) + ls.last() + "\n"@
    }
}

/// A border line without its line break.
pub open spec fn border_line(left: Seq<char>, right: Seq<char>) -> Seq<char> {
    left + repeat("═"@, (CONTENT_WIDTH + 4) as nat) + right
}

/// The blank frame line without its line break.
pub open spec fn blank_row() -> Seq<char> {
    "║"@ + spaces((CONTENT_WIDTH + 4) as nat) + "║"@
}

/// The frame lines of a text wrapped at the content width.
pub open spec fn content_lines(text: Seq<char>) -> Seq<Seq<char>> {
    spec_wrap_text(text, CONTENT_WIDTH as nat).map_values(|l: Seq<char>| frame_line(l))
}

/// The lines of the summary box, top border to bottom border.
pub open spec fn box_lines(rd: RootData, samples: Seq<Seq<char>>) -> Seq<Seq<char>> {
    seq![border_line("╔"@, "╗"@)] + content_lines(name_line(rd)) + seq![border_line("╠"@, "╣"@)]
        + content_lines(domain_line(rd)) + content_lines(
        "Суффиксальные классы: "@ + suffix_classes_text(rd),
    ) + content_lines(samples_text(rd, samples)) + seq![blank_row()] + content_lines(
        "Заметка:"@,
    ) + content_lines(rd.linguistic_note@) + seq![border_line("╚"@, "╝"@)]
}

/// Whether every word of a text fits the content field.
pub open spec fn fits_box(text: Seq<char>) -> bool {
    forall|k: int| 0 <= k < words(text).len() ==> (#[trigger] words(text)[k]).len() <= CONTENT_WIDTH
}

proof fn lemma_lines_text_add(a: Seq<Seq<char>>, b: Seq<Seq<char>>)
    ensures
        lines_text(a + b) == lines_text(a) + lines_text(b),
    decreases b.len(),
{
    if b.len() > 0 {
        lemma_lines_text_add(a, b.drop_last());
        assert((a + b).drop_last() =~= a + b.drop_last());
    } else {
        assert(a + b =~= a);
    }
}

proof fn lemma_framed_lines(ls: Seq<Seq<char>>)
    ensures
        framed_lines(ls) == lines_text(ls.map_values(|l: Seq<char>| frame_line(l))),
    decreases ls.len(),
{
    reveal_strlit(" ║");
    reveal_strlit(" ║\n");
    reveal_strlit("\n");
    if ls.len() > 0 {
        lemma_framed_lines(ls.drop_last());
        assert(ls.map_values(|l: Seq<char>| frame_line(l)).drop_last() =~= ls.drop_last().map_values(
            |l: Seq<char>| frame_line(l),
        ));
        assert(" ║\n"@ =~= " ║"@ + "\n"@);
    }
}

proof fn lemma_single_line(l: Seq<char>)
    ensures
        lines_text(seq![l]) == l + "\n"@,
{
    let one: Seq<Seq<char>> = seq![l];
    assert(one.drop_last() =~= Seq::<Seq<char>>::empty());
    assert(lines_text(one.drop_last()) == Seq::<char>::empty());
    assert(one.last() == l);
    assert(lines_text(one) =~= l + "\n"@);
}

/// The random display is its summary box, line by line, then the example
/// part; and the box is aligned: when every word of its texts fits the
/// content field, every frame line (borders, content lines, blank line) is
/// 46 characters wide.
pub proof fn law_random_box_aligned(
    rd: RootData,
    samples: Seq<Seq<char>>,
    example: Option<VerbFormView>,
)
    ensures
        spec_format_random(rd, samples, example) == lines_text(box_lines(rd, samples))
            + example_part(rd, example),
        fits_box(name_line(rd)) && fits_box(domain_line(rd)) && fits_box(
            "Суффиксальные классы: "@ + suffix_classes_text(rd),
        ) && fits_box(samples_text(rd, samples)) && fits_box("Заметка:"@) && fits_box(
            rd.linguistic_note@,
        ) ==> forall|i: int|
            0 <= i < box_lines(rd, samples).len() ==> (#[trigger] box_lines(rd, samples)[i]).len()
                == CONTENT_WIDTH + 6,
{
    reveal_strlit("║\n");
    reveal_strlit("║");
    reveal_strlit("\n");
    let t1 = border_line("╔"@, "╗"@);
    let t2 = border_line("╠"@, "╣"@);
    let t3 = border_line("╚"@, "╝"@);
    let c1 = content_lines(name_line(rd));
    let c2 = content_lines(domain_line(rd));
    let c3 = content_lines("Суффиксальные классы: "@ + suffix_classes_text(rd));
    let c4 = content_lines(samples_text(rd, samples));
    let c5 = content_lines("Заметка:"@);
    let c6 = content_lines(rd.linguistic_note@);
    lemma_framed_lines(spec_wrap_text(name_line(rd), CONTENT_WIDTH as nat));
    lemma_framed_lines(spec_wrap_text(domain_line(rd), CONTENT_WIDTH as nat));
    lemma_framed_lines(
        spec_wrap_text("Суффиксальные классы: "@ + suffix_classes_text(rd), CONTENT_WIDTH as nat),
    );
    lemma_framed_lines(spec_wrap_text(samples_text(rd, samples), CONTENT_WIDTH as nat));
    lemma_framed_lines(spec_wrap_text("Заметка:"@, CONTENT_WIDTH as nat));
    lemma_framed_lines(spec_wrap_text(rd.linguistic_note@, CONTENT_WIDTH as nat));
    lemma_single_line(t1);
    lemma_single_line(t2);
    lemma_single_line(t3);
    lemma_single_line(blank_row());
    assert(blank_line() =~= blank_row() + "\n"@);
    let s1 = seq![t1];
    let s2 = seq![t2];
    let s3 = seq![blank_row()];
    let s4 = seq![t3];
    lemma_lines_text_add(s1, c1);
    lemma_lines_text_add(s1 + c1, s2);
    lemma_lines_text_add(s1 + c1 + s2, c2);
    lemma_lines_text_add(s1 + c1 + s2 + c2, c3);
    lemma_lines_text_add(s1 + c1 + s2 + c2 + c3, c4);
    lemma_lines_text_add(s1 + c1 + s2 + c2 + c3 + c4, s3);
    lemma_lines_text_add(s1 + c1 + s2 + c2 + c3 + c4 + s3, c5);
    lemma_lines_text_add(s1 + c1 + s2 + c2 + c3 + c4 + s3 + c5, c6);
    lemma_lines_text_add(s1 + c1 + s2 + c2 + c3 + c4 + s3 + c5 + c6, s4);
    assert(spec_format_random(rd, samples, example) =~= lines_text(box_lines(rd, samples))
        + example_part(rd, example));
    if fits_box(name_line(rd)) && fits_box(domain_line(rd)) && fits_box(
        "Суффиксальные классы: "@ + suffix_classes_text(rd),
    ) && fits_box(samples_text(rd, samples)) && fits_box("Заметка:"@) && fits_box(
        rd.linguistic_note@,
    ) {
        assert forall|i: int| 0 <= i < box_lines(rd, samples).len() implies (
        #[trigger] box_lines(rd, samples)[i]).len() == CONTENT_WIDTH + 6 by {
            lemma_frame_widths(rd, samples, i);
        }
    }
}

proof fn lemma_content_width(text: Seq<char>, k: int)
    requires
        fits_box(text),
        0 <= k < content_lines(text).len(),
    ensures
        content_lines(text)[k].len() == CONTENT_WIDTH + 6,
{
    law_box_lines_equal_width(text, k);
}

proof fn lemma_frame_widths(rd: RootData, samples: Seq<Seq<char>>, i: int)
    requires
        fits_box(name_line(rd)),
        fits_box(domain_line(rd)),
        fits_box("Суффиксальные классы: "@ + suffix_classes_text(rd)),
        fits_box(samples_text(rd, samples)),
        fits_box("Заметка:"@),
        fits_box(rd.linguistic_note@),
        0 <= i < box_lines(rd, samples).len(),
    ensures
        box_lines(rd, samples)[i].len() == CONTENT_WIDTH + 6,
{
    law_box_lines_equal_width(name_line(rd), 0);
    let c1 = content_lines(name_line(rd));
    let c2 = content_lines(domain_line(rd));
    let c3 = content_lines("Суффиксальные классы: "@ + suffix_classes_text(rd));
    let c4 = content_lines(samples_text(rd, samples));
    let c5 = content_lines("Заметка:"@);
    let c6 = content_lines(rd.linguistic_note@);
    let o1: int = 1;
    let o2: int = o1 + c1.len() + 1;
    let o3: int = o2 + c2.len();
    let o4: int = o3 + c3.len();
    let o5: int = o4 + c4.len() + 1;
    let o6: int = o5 + c5.len();
    if o1 <= i < o1 + c1.len() {
        lemma_content_width(name_line(rd), i - o1);
    } else if o2 <= i < o2 + c2.len() {
        lemma_content_width(domain_line(rd), i - o2);
    } else if o3 <= i < o3 + c3.len() {
        lemma_content_width("Суффиксальные классы: "@ + suffix_classes_text(rd), i - o3);
    } else if o4 <= i < o4 + c4.len() {
        lemma_content_width(samples_text(rd, samples), i - o4);
    } else if o5 <= i < o5 + c5.len() {
        lemma_content_width("Заметка:"@, i - o5);
    } else if o6 <= i < o6 + c6.len() {
        lemma_content_width(rd.linguistic_note@, i - o6);
    }
}

/// Appends `text`, wrapped at the content width, as framed box lines.
fn push_content(out: &mut String, text: &str)
    ensures
        final(out)@ == old(out)@ + framed(text@),
{
    let lines = wrap_text(text, CONTENT_WIDTH);
    let ghost lv = spec_wrap_text(text@, CONTENT_WIDTH as nat);
    let ghost start = out@;
    let mut i: usize = 0;
    while i < lines.len()
        invariant
            i <= lines@.len(),
            lines@.map_values(|l: String| l@) == lv,
            out@ == start + framed_lines(lv.take(i as int)),
        decreases lines@.len() - i,
    {
        out.append("║  ");
        push_padded(out, lines[i].as_str(), CONTENT_WIDTH + 1);
        out.append(" ║\n");
        assert(lv.take((i + 1) as int).drop_last() =~= lv.take(i as int));
        assert(out@ =~= start + framed_lines(lv.take((i + 1) as int)));
        i = i + 1;
    }
    assert(lv.take(lines@.len() as int) =~= lv);
}

/// Appends a border line.
fn push_border(out: &mut String, left: &str, right: &str)
    ensures
        final(out)@ == old(out)@ + border(left@, right@),
{
    out.append(left);
    push_repeated(out, "═", CONTENT_WIDTH + 4);
    out.append(right);
    out.append("\n");
}

/// The suffix classes of a root with their glosses, joined by `, `, or the
/// noun-only marker.
fn classes_text(rd: &RootData) -> (r: String)
    requires
        root_wf(*rd),
    ensures
        r@ == suffix_classes_text(*rd),
{
    if rd.suffix_indices.len() == 0 {
        return owned("Нет (именной корень)");
    }
    let ghost classes = rd.suffix_indices@.map_values(|k: usize| suffix_class(k));
    let mut parts: Vec<String> = Vec::new();
    let mut i: usize = 0;
    while i < rd.suffix_indices.len()
        invariant
            i <= rd.suffix_indices@.len(),
            root_wf(*rd),
            classes == rd.suffix_indices@.map_values(|k: usize| suffix_class(k)),
            parts@.map_values(|p: String| p@) == classes.take(i as int),
        decreases rd.suffix_indices@.len() - i,
    {
        let idx = rd.suffix_indices[i];
        assert(rd.suffix_indices@[i as int] < crate::morpheme::SUFFIX_COUNT);
        let se = suffix_entry(idx);
        let mut part = owned(se.display);
        part.append(" (");
        part.append(se.gloss);
        part.append(")");
        assert(part@ =~= suffix_class(idx));
        assert(classes[i as int] == suffix_class(idx));
        let ghost before = parts@;
        parts.push(part);
        assert(parts@ =~= before.push(part));
        assert(parts@.map_values(|p: String| p@) =~= before.map_values(|p: String| p@).push(
            part@,
        ));
        assert(classes.take((i + 1) as int) =~= classes.take(i as int).push(classes[i as int]));
        i = i + 1;
    }
    assert(classes.take(rd.suffix_indices@.len() as int) =~= classes);
    let joined = join_strings(&parts, ", ");
    joined
}

/// Format a random-root display: a summary box, then `Пример разбора:` with a
/// full breakdown block for one exemplary form.
///
/// The box holds the root's Russian gloss, domain · productivity, suffix
/// classes (with glosses), sample forms, and the linguistic note, each wrapped
/// at the content width so nothing overflows the frame. `example` is one
/// Common infinitive; `None` prints an honest note instead of inventing one.
#[verifier::spinoff_prover]
#[verifier::rlimit(30)]
pub fn format_random(rd: &RootData, sample_forms: &[&str], example: Option<&VerbForm>) -> (r: String)
    requires
        root_wf(*rd),
        example matches Some(vf) ==> is_suffix_val(vf.suffix_val@) && is_ending_val(
            vf.ending_val@,
        ),
    ensures
        r@ == spec_format_random(
            *rd,
            sample_forms@.map_values(|s: &str| s@),
            match example {
                Some(vf) => Some(vf@),
                None => None,
            },
        ),
{
    let ghost samples = sample_forms@.map_values(|s: &str| s@);
    let ghost ex = match example {
        Some(vf) => Some(vf@),
        None => None,
    };
    let mut out = String::new();

    // Top border
    push_border(&mut out, "╔", "╗");

    // Root name line (Russian gloss)
    let mut name = owned("Корень: ");
    name.append(rd.name);
    name.append("-  ");
    match rd.gloss_ru {
        Some(g) => {
            name.append("«");
            name.append(g);
            name.append("»");
        },
        None => {},
    }
    assert(name@ =~= name_line(*rd));
    push_content(&mut out, name.as_str());

    // Separator
    push_border(&mut out, "╠", "╣");

    // Domain · productivity
    let mut domain = owned("Домен: ");
    domain.append(domain_inline(rd.domain));
    domain.append(" · продуктивность ");
    domain.append(rd.productivity.letter());
    assert(domain@ =~= domain_line(*rd));
    push_content(&mut out, domain.as_str());
    let ghost head = border("╔"@, "╗"@) + framed(name_line(*rd)) + border("╠"@, "╣"@) + framed(
        domain_line(*rd),
    );
    assert(out@ =~= head);

    // Suffix classes with glosses
    let mut class_line = owned("Суффиксальные классы: ");
    let classes = classes_text(rd);
    class_line.append(classes.as_str());
    assert(class_line@ =~= "Суффиксальные классы: "@ + suffix_classes_text(*rd));
    push_content(&mut out, class_line.as_str());

    // Sample forms
    if sample_forms.len() == 0 && rd.suffix_indices.len() == 0 {
        push_content(&mut out, "Примеры: именной корень (нет глагольных форм)");
    } else if sample_forms.len() == 0 {
        push_content(&mut out, "Примеры: не указаны");
    } else {
        let mut line = owned("Примеры: ");
        let joined = crate::text::join_strs(sample_forms, ", ");
        line.append(joined.as_str());
        assert(line@ =~= samples_text(*rd, samples));
        push_content(&mut out, line.as_str());
    }
    let ghost mid = head + framed("Суффиксальные классы: "@ + suffix_classes_text(*rd)) + framed(
        samples_text(*rd, samples),
    );
    assert(out@ =~= mid);

    // Blank line
    out.append("║");
    crate::text::push_spaces(&mut out, CONTENT_WIDTH + 4);
    out.append("║\n");
    assert(out@ =~= mid + blank_line());

    // Linguistic note
    push_content(&mut out, "Заметка:");
    push_content(&mut out, rd.linguistic_note);

    // Bottom border
    push_border(&mut out, "╚", "╝");
    let ghost boxed = mid + blank_line() + framed("Заметка:"@) + framed(rd.linguistic_note@)
        + border("╚"@, "╝"@);
    assert(out@ =~= boxed);

    // Breakdown block below the box (outside the frame).
    match example {
        Some(vf) => {
            out.append("\nПример разбора:\n");
            let block = format_form_block(rd, vf);
            out.append(block.as_str());
        },
        None => {
            out.append("\nПример разбора: нет засвидетельствованных форм уровня common.\n");
        },
    }
    assert(out@ =~= boxed + example_part(*rd, ex));
    out
}


// ---------------------------------------------------------------------------
// The texts of the inventory fit the box
// ---------------------------------------------------------------------------

/// A text whose runs of non-space characters fit the content field fits the
/// box.
proof fn lemma_fits_box(text: Seq<char>)
    requires
        runs_fit(text, 0, 0, CONTENT_WIDTH as nat),
    ensures
        fits_box(text),
{
    lemma_runs_fit_words(text, CONTENT_WIDTH as nat);
}

/// Each suffix class with its gloss fits the box, a comma after it included.
proof fn lemma_suffix_class_runs(idx: usize)
    requires
        idx < crate::morpheme::SUFFIX_COUNT,
    ensures
        runs_fit(suffix_class(idx), 0, 0, CONTENT_WIDTH as nat),
        run_at_end(suffix_class(idx), 0, 0) + 1 <= CONTENT_WIDTH,
{
    reveal_strlit(" (");
    reveal_strlit(")");
    reveal_with_fuel(runs_fit, 40);
    reveal_with_fuel(run_at_end, 40);
    if idx == 0 {
        reveal_strlit("-а-");
        reveal_strlit("имперфектив");
    } else if idx == 1 {
        reveal_strlit("-ну-");
        reveal_strlit("однократный");
    } else if idx == 2 {
        reveal_strlit("-е-");
        reveal_strlit("II спряжение (-е- основа)");
    } else {
        reveal_strlit("-и-");
        reveal_strlit("II спряжение (-и- основа)");
    }
}

/// The suffix-classes line of a well-formed root fits the box.
proof fn lemma_classes_fit(rd: RootData)
    requires
        root_wf(rd),
    ensures
        runs_fit("Суффиксальные классы: "@ + suffix_classes_text(rd), 0, 0, CONTENT_WIDTH as nat),
{
    let head = "Суффиксальные классы: "@;
    reveal_strlit("Суффиксальные классы: ");
    reveal_with_fuel(runs_fit, 25);
    reveal_with_fuel(run_at_end, 25);
    assert(runs_fit(head, 0, 0, CONTENT_WIDTH as nat));
    assert(run_at_end(head, 0, 0) == 0);
    lemma_runs_concat(head, suffix_classes_text(rd), 0, 0, CONTENT_WIDTH as nat);
    if rd.suffix_indices@.len() == 0 {
        reveal_strlit("Нет (именной корень)");
        assert(runs_fit("Нет (именной корень)"@, 0, 0, CONTENT_WIDTH as nat));
    } else {
        let parts = rd.suffix_indices@.map_values(|i: usize| suffix_class(i));
        assert forall|k: int| 0 <= k < parts.len() implies runs_fit(
            #[trigger] parts[k],
            0,
            0,
            CONTENT_WIDTH as nat,
        ) && run_at_end(parts[k], 0, 0) + 1 <= CONTENT_WIDTH as nat by {
            lemma_suffix_class_runs(rd.suffix_indices@[k]);
        }
        lemma_runs_join(parts, CONTENT_WIDTH as nat);
    }
}

/// Whether each sample is a word that fits the box with a comma after it.
pub open spec fn samples_fit(samples: Seq<Seq<char>>) -> bool {
    forall|k: int| 0 <= k < samples.len() ==> is_word(#[trigger] samples[k]) && samples[k].len() + 1 <= CONTENT_WIDTH
}

/// The examples line fits the box when each sample does.
proof fn lemma_samples_fit(rd: RootData, samples: Seq<Seq<char>>)
    requires
        samples_fit(samples),
    ensures
        runs_fit(samples_text(rd, samples), 0, 0, CONTENT_WIDTH as nat),
{
    reveal_with_fuel(runs_fit, 50);
    reveal_with_fuel(run_at_end, 50);
    if samples.len() == 0 && rd.suffix_indices@.len() == 0 {
        reveal_strlit("Примеры: именной корень (нет глагольных форм)");
        assert(runs_fit("Примеры: именной корень (нет глагольных форм)"@, 0, 0, CONTENT_WIDTH as nat));
    } else if samples.len() == 0 {
        reveal_strlit("Примеры: не указаны");
        assert(runs_fit("Примеры: не указаны"@, 0, 0, CONTENT_WIDTH as nat));
    } else {
        let head = "Примеры: "@;
        reveal_strlit("Примеры: ");
        assert(runs_fit(head, 0, 0, CONTENT_WIDTH as nat));
        assert(run_at_end(head, 0, 0) == 0);
        assert forall|k: int| 0 <= k < samples.len() implies runs_fit(
            #[trigger] samples[k],
            0,
            0,
            CONTENT_WIDTH as nat,
        ) && run_at_end(samples[k], 0, 0) + 1 <= CONTENT_WIDTH as nat by {
            lemma_word_runs(samples[k], CONTENT_WIDTH as nat);
        }
        lemma_runs_join(samples, CONTENT_WIDTH as nat);
        lemma_runs_concat(head, join(samples, ", "@), 0, 0, CONTENT_WIDTH as nat);
    }
}


/// The name, domain and note lines of еб- fit the box.
proof fn lemma_texts_fit_at_0()
    ensures
        runs_fit(name_line(spec_root(0)), 0, 0, CONTENT_WIDTH as nat),
        runs_fit(domain_line(spec_root(0)), 0, 0, CONTENT_WIDTH as nat),
        runs_fit(spec_root(0).linguistic_note@, 0, 0, CONTENT_WIDTH as nat),
{
    reveal_strlit("Корень: ");
    reveal_strlit("-  ");
    reveal_strlit("Домен: ");
    reveal_strlit(" · продуктивность ");
    reveal_strlit("еб");
    reveal_strlit("«");
    reveal_strlit("»");
    reveal_strlit("совокупляться");
    reveal_strlit("ядро");
    reveal_strlit("A");
    reveal_strlit("Самый продуктивный матерный корень. От праславянского *jebati. В современном русском образует более 100 глагольных и именных дериватов. Едва ли не каждое действие можно описать глаголом на еб-.");
    reveal_with_fuel(runs_fit, 14);
    let name = name_line(spec_root(0));
    assert(runs_fit(name, 16, 3, CONTENT_WIDTH as nat));
    assert(runs_fit(name, 4, 4, CONTENT_WIDTH as nat));
    let domain = domain_line(spec_root(0));
    assert(runs_fit(domain, 18, 4, CONTENT_WIDTH as nat));
    assert(runs_fit(domain, 6, 6, CONTENT_WIDTH as nat));
    let note = spec_root(0).linguistic_note@;
    assert(runs_fit(note, 181, 4, CONTENT_WIDTH as nat));
    assert(runs_fit(note, 169, 0, CONTENT_WIDTH as nat));
    assert(runs_fit(note, 157, 3, CONTENT_WIDTH as nat));
    assert(runs_fit(note, 145, 1, CONTENT_WIDTH as nat));
    assert(runs_fit(note, 133, 8, CONTENT_WIDTH as nat));
    assert(runs_fit(note, 121, 4, CONTENT_WIDTH as nat));
    assert(runs_fit(note, 109, 5, CONTENT_WIDTH as nat));
    assert(runs_fit(note, 97, 3, CONTENT_WIDTH as nat));
    assert(runs_fit(note, 85, 0, CONTENT_WIDTH as nat));
    assert(runs_fit(note, 73, 8, CONTENT_WIDTH as nat));
    assert(runs_fit(note, 61, 7, CONTENT_WIDTH as nat));
    assert(runs_fit(note, 49, 10, CONTENT_WIDTH as nat));
    assert(runs_fit(note, 37, 1, CONTENT_WIDTH as nat));
    assert(runs_fit(note, 25, 6, CONTENT_WIDTH as nat));
    assert(runs_fit(note, 13, 7, CONTENT_WIDTH as nat));
    assert(runs_fit(note, 1, 1, CONTENT_WIDTH as nat));
}

/// The name, domain and note lines of пизд- fit the box.
proof fn lemma_texts_fit_at_1()
    ensures
        runs_fit(name_line(spec_root(1)), 0, 0, CONTENT_WIDTH as nat),
        runs_fit(domain_line(spec_root(1)), 0, 0, CONTENT_WIDTH as nat),
        runs_fit(spec_root(1).linguistic_note@, 0, 0, CONTENT_WIDTH as nat),
{
    reveal_strlit("Корень: ");
    reveal_strlit("-  ");
    reveal_strlit("Домен: ");
    reveal_strlit(" · продуктивность ");
    reveal_strlit("пизд");
    reveal_strlit("«");
    reveal_strlit("»");
    reveal_strlit("женские гениталии");
    reveal_strlit("ядро");
    reveal_strlit("B");
    reveal_strlit("Женский корень мата. Образует два семантических ряда: 'говорить ерунду' (пиздеть, класс -е-) и 'бить/красть' (пиздить, класс -и-). Один из немногих корней с двумя продуктивными глагольными классами.");
    reveal_with_fuel(runs_fit, 14);
    let name = name_line(spec_root(1));
    assert(runs_fit(name, 22, 7, CONTENT_WIDTH as nat));
    assert(runs_fit(name, 10, 2, CONTENT_WIDTH as nat));
    let domain = domain_line(spec_root(1));
    assert(runs_fit(domain, 18, 4, CONTENT_WIDTH as nat));
    assert(runs_fit(domain, 6, 6, CONTENT_WIDTH as nat));
    let note = spec_root(1).linguistic_note@;
    assert(runs_fit(note, 186, 9, CONTENT_WIDTH as nat));
    assert(runs_fit(note, 174, 11, CONTENT_WIDTH as nat));
    assert(runs_fit(note, 162, 5, CONTENT_WIDTH as nat));
    assert(runs_fit(note, 150, 2, CONTENT_WIDTH as nat));
    assert(runs_fit(note, 138, 2, CONTENT_WIDTH as nat));
    assert(runs_fit(note, 126, 1, CONTENT_WIDTH as nat));
    assert(runs_fit(note, 114, 5, CONTENT_WIDTH as nat));
    assert(runs_fit(note, 102, 7, CONTENT_WIDTH as nat));
    assert(runs_fit(note, 90, 2, CONTENT_WIDTH as nat));
    assert(runs_fit(note, 78, 6, CONTENT_WIDTH as nat));
    assert(runs_fit(note, 66, 2, CONTENT_WIDTH as nat));
    assert(runs_fit(note, 54, 0, CONTENT_WIDTH as nat));
    assert(runs_fit(note, 42, 8, CONTENT_WIDTH as nat));
    assert(runs_fit(note, 30, 0, CONTENT_WIDTH as nat));
    assert(runs_fit(note, 18, 3, CONTENT_WIDTH as nat));
    assert(runs_fit(note, 6, 6, CONTENT_WIDTH as nat));
}

/// The name, domain and note lines of хуй- fit the box.
proof fn lemma_texts_fit_at_2()
    ensures
        runs_fit(name_line(spec_root(2)), 0, 0, CONTENT_WIDTH as nat),
        runs_fit(domain_line(spec_root(2)), 0, 0, CONTENT_WIDTH as nat),
        runs_fit(spec_root(2).linguistic_note@, 0, 0, CONTENT_WIDTH as nat),
{
    reveal_strlit("Корень: ");
    reveal_strlit("-  ");
    reveal_strlit("Домен: ");
    reveal_strlit(" · продуктивность ");
    reveal_strlit("хуй");
    reveal_strlit("«");
    reveal_strlit("»");
    reveal_strlit("мужской член");
    reveal_strlit("ядро");
    reveal_strlit("C");
    reveal_strlit("Ключевой именной корень русского мата. Этимология спорна: от праиндоевропейского *ks-u- (хвоя), монгольского khui, или латинского huic. Первый том словаря Плуцера-Сарно (500+ стр.) посвящён исключительно этому корню.");
    reveal_with_fuel(runs_fit, 14);
    let name = name_line(spec_root(2));
    assert(runs_fit(name, 16, 2, CONTENT_WIDTH as nat));
    assert(runs_fit(name, 4, 4, CONTENT_WIDTH as nat));
    let domain = domain_line(spec_root(2));
    assert(runs_fit(domain, 18, 4, CONTENT_WIDTH as nat));
    assert(runs_fit(domain, 6, 6, CONTENT_WIDTH as nat));
    let note = spec_root(2).linguistic_note@;
    assert(runs_fit(note, 204, 0, CONTENT_WIDTH as nat));
    assert(runs_fit(note, 192, 2, CONTENT_WIDTH as nat));
    assert(runs_fit(note, 180, 5, CONTENT_WIDTH as nat));
    assert(runs_fit(note, 168, 13, CONTENT_WIDTH as nat));
    assert(runs_fit(note, 156, 1, CONTENT_WIDTH as nat));
    assert(runs_fit(note, 144, 1, CONTENT_WIDTH as nat));
    assert(runs_fit(note, 132, 2, CONTENT_WIDTH as nat));
    assert(runs_fit(note, 120, 1, CONTENT_WIDTH as nat));
    assert(runs_fit(note, 108, 12, CONTENT_WIDTH as nat));
    assert(runs_fit(note, 96, 0, CONTENT_WIDTH as nat));
    assert(runs_fit(note, 84, 3, CONTENT_WIDTH as nat));
    assert(runs_fit(note, 72, 11, CONTENT_WIDTH as nat));
    assert(runs_fit(note, 60, 2, CONTENT_WIDTH as nat));
    assert(runs_fit(note, 48, 9, CONTENT_WIDTH as nat));
    assert(runs_fit(note, 36, 3, CONTENT_WIDTH as nat));
    assert(runs_fit(note, 24, 0, CONTENT_WIDTH as nat));
    assert(runs_fit(note, 12, 3, CONTENT_WIDTH as nat));
}

/// The name, domain and note lines of бляд- fit the box.
proof fn lemma_texts_fit_at_3()
    ensures
        runs_fit(name_line(spec_root(3)), 0, 0, CONTENT_WIDTH as nat),
        runs_fit(domain_line(spec_root(3)), 0, 0, CONTENT_WIDTH as nat),
        runs_fit(spec_root(3).linguistic_note@, 0, 0, CONTENT_WIDTH as nat),
{
    reveal_strlit("Корень: ");
    reveal_strlit("-  ");
    reveal_strlit("Домен: ");
    reveal_strlit(" · продуктивность ");
    reveal_strlit("бляд");
    reveal_strlit("«");
    reveal_strlit("»");
    reveal_strlit("проститутка; распутство");
    reveal_strlit("ядро");
    reveal_strlit("D");
    reveal_strlit("От древнерусского блѧдь — 'обман, ерунда, прелюбодейка'. Преимущественно именной корень (блядь, блядский, блядство). Глагольные формы (блядовать) используют суффикс -ова-, не включённый в текущую версию движка.");
    reveal_with_fuel(runs_fit, 14);
    let name = name_line(spec_root(3));
    assert(runs_fit(name, 28, 13, CONTENT_WIDTH as nat));
    assert(runs_fit(name, 16, 1, CONTENT_WIDTH as nat));
    assert(runs_fit(name, 4, 4, CONTENT_WIDTH as nat));
    let domain = domain_line(spec_root(3));
    assert(runs_fit(domain, 18, 4, CONTENT_WIDTH as nat));
    assert(runs_fit(domain, 6, 6, CONTENT_WIDTH as nat));
    let note = spec_root(3).linguistic_note@;
    assert(runs_fit(note, 198, 2, CONTENT_WIDTH as nat));
    assert(runs_fit(note, 186, 0, CONTENT_WIDTH as nat));
    assert(runs_fit(note, 174, 2, CONTENT_WIDTH as nat));
    assert(runs_fit(note, 162, 5, CONTENT_WIDTH as nat));
    assert(runs_fit(note, 150, 4, CONTENT_WIDTH as nat));
    assert(runs_fit(note, 138, 4, CONTENT_WIDTH as nat));
    assert(runs_fit(note, 126, 9, CONTENT_WIDTH as nat));
    assert(runs_fit(note, 114, 8, CONTENT_WIDTH as nat));
    assert(runs_fit(note, 102, 6, CONTENT_WIDTH as nat));
    assert(runs_fit(note, 90, 2, CONTENT_WIDTH as nat));
    assert(runs_fit(note, 78, 5, CONTENT_WIDTH as nat));
    assert(runs_fit(note, 66, 9, CONTENT_WIDTH as nat));
    assert(runs_fit(note, 54, 12, CONTENT_WIDTH as nat));
    assert(runs_fit(note, 42, 0, CONTENT_WIDTH as nat));
    assert(runs_fit(note, 30, 4, CONTENT_WIDTH as nat));
    assert(runs_fit(note, 18, 0, CONTENT_WIDTH as nat));
    assert(runs_fit(note, 6, 3, CONTENT_WIDTH as nat));
}

/// The name, domain and note lines of муд- fit the box.
proof fn lemma_texts_fit_at_4()
    ensures
        runs_fit(name_line(spec_root(4)), 0, 0, CONTENT_WIDTH as nat),
        runs_fit(domain_line(spec_root(4)), 0, 0, CONTENT_WIDTH as nat),
        runs_fit(spec_root(4).linguistic_note@, 0, 0, CONTENT_WIDTH as nat),
{
    reveal_strlit("Корень: ");
    reveal_strlit("-  ");
    reveal_strlit("Домен: ");
    reveal_strlit(" · продуктивность ");
    reveal_strlit("муд");
    reveal_strlit("«");
    reveal_strlit("»");
    reveal_strlit("яички");
    reveal_strlit("ядро");
    reveal_strlit("D");
    reveal_strlit("Корень со значением 'testiculi'. В современном русском глагольные формы (мудить) означают 'медлить, заниматься ерундой'. Преимущественно именной: мудак, мудило.");
    reveal_with_fuel(runs_fit, 14);
    let name = name_line(spec_root(4));
    assert(runs_fit(name, 9, 1, CONTENT_WIDTH as nat));
    let domain = domain_line(spec_root(4));
    assert(runs_fit(domain, 18, 4, CONTENT_WIDTH as nat));
    assert(runs_fit(domain, 6, 6, CONTENT_WIDTH as nat));
    let note = spec_root(4).linguistic_note@;
    assert(runs_fit(note, 148, 2, CONTENT_WIDTH as nat));
    assert(runs_fit(note, 136, 15, CONTENT_WIDTH as nat));
    assert(runs_fit(note, 124, 3, CONTENT_WIDTH as nat));
    assert(runs_fit(note, 112, 1, CONTENT_WIDTH as nat));
    assert(runs_fit(note, 100, 0, CONTENT_WIDTH as nat));
    assert(runs_fit(note, 88, 7, CONTENT_WIDTH as nat));
    assert(runs_fit(note, 76, 4, CONTENT_WIDTH as nat));
    assert(runs_fit(note, 64, 9, CONTENT_WIDTH as nat));
    assert(runs_fit(note, 52, 5, CONTENT_WIDTH as nat));
    assert(runs_fit(note, 40, 5, CONTENT_WIDTH as nat));
    assert(runs_fit(note, 28, 8, CONTENT_WIDTH as nat));
    assert(runs_fit(note, 16, 6, CONTENT_WIDTH as nat));
    assert(runs_fit(note, 4, 4, CONTENT_WIDTH as nat));
}

/// The name, domain and note lines of манд- fit the box.
proof fn lemma_texts_fit_at_5()
    ensures
        runs_fit(name_line(spec_root(5)), 0, 0, CONTENT_WIDTH as nat),
        runs_fit(domain_line(spec_root(5)), 0, 0, CONTENT_WIDTH as nat),
        runs_fit(spec_root(5).linguistic_note@, 0, 0, CONTENT_WIDTH as nat),
{
    reveal_strlit("Корень: ");
    reveal_strlit("-  ");
    reveal_strlit("Домен: ");
    reveal_strlit(" · продуктивность ");
    reveal_strlit("манд");
    reveal_strlit("«");
    reveal_strlit("»");
    reveal_strlit("женские гениталии (арх.)");
    reveal_strlit("ядро");
    reveal_strlit("D");
    reveal_strlit("Архаичный корень со значением 'женские гениталии'. В XIX веке — одно из сильнейших ругательств. К XXI веку практически утратил обсценную силу. Глагольные формы (мандить) крайне редки.");
    reveal_with_fuel(runs_fit, 14);
    let name = name_line(spec_root(5));
    assert(runs_fit(name, 29, 5, CONTENT_WIDTH as nat));
    assert(runs_fit(name, 17, 2, CONTENT_WIDTH as nat));
    assert(runs_fit(name, 5, 5, CONTENT_WIDTH as nat));
    let domain = domain_line(spec_root(5));
    assert(runs_fit(domain, 18, 4, CONTENT_WIDTH as nat));
    assert(runs_fit(domain, 6, 6, CONTENT_WIDTH as nat));
    let note = spec_root(5).linguistic_note@;
    assert(runs_fit(note, 171, 1, CONTENT_WIDTH as nat));
    assert(runs_fit(note, 159, 5, CONTENT_WIDTH as nat));
    assert(runs_fit(note, 147, 4, CONTENT_WIDTH as nat));
    assert(runs_fit(note, 135, 8, CONTENT_WIDTH as nat));
    assert(runs_fit(note, 123, 4, CONTENT_WIDTH as nat));
    assert(runs_fit(note, 111, 4, CONTENT_WIDTH as nat));
    assert(runs_fit(note, 99, 1, CONTENT_WIDTH as nat));
    assert(runs_fit(note, 87, 4, CONTENT_WIDTH as nat));
    assert(runs_fit(note, 75, 3, CONTENT_WIDTH as nat));
    assert(runs_fit(note, 63, 1, CONTENT_WIDTH as nat));
    assert(runs_fit(note, 51, 0, CONTENT_WIDTH as nat));
    assert(runs_fit(note, 39, 0, CONTENT_WIDTH as nat));
    assert(runs_fit(note, 27, 7, CONTENT_WIDTH as nat));
    assert(runs_fit(note, 15, 5, CONTENT_WIDTH as nat));
    assert(runs_fit(note, 3, 3, CONTENT_WIDTH as nat));
}

/// The name, domain and note lines of елд- fit the box.
proof fn lemma_texts_fit_at_6()
    ensures
        runs_fit(name_line(spec_root(6)), 0, 0, CONTENT_WIDTH as nat),
        runs_fit(domain_line(spec_root(6)), 0, 0, CONTENT_WIDTH as nat),
        runs_fit(spec_root(6).linguistic_note@, 0, 0, CONTENT_WIDTH as nat),
{
    reveal_strlit("Корень: ");
    reveal_strlit("-  ");
    reveal_strlit("Домен: ");
    reveal_strlit(" · продуктивность ");
    reveal_strlit("елд");
    reveal_strlit("«");
    reveal_strlit("»");
    reveal_strlit("мужской член (арх.)");
    reveal_strlit("ядро");
    reveal_strlit("E");
    reveal_strlit("Архаичный корень со значением 'мужской член'. Как и манд-, практически утратил обсценную силу в современном языке. Глагольные формы (елдить) маргинальны.");
    reveal_with_fuel(runs_fit, 14);
    let name = name_line(spec_root(6));
    assert(runs_fit(name, 23, 0, CONTENT_WIDTH as nat));
    assert(runs_fit(name, 11, 3, CONTENT_WIDTH as nat));
    let domain = domain_line(spec_root(6));
    assert(runs_fit(domain, 18, 4, CONTENT_WIDTH as nat));
    assert(runs_fit(domain, 6, 6, CONTENT_WIDTH as nat));
    let note = spec_root(6).linguistic_note@;
    assert(runs_fit(note, 141, 0, CONTENT_WIDTH as nat));
    assert(runs_fit(note, 129, 3, CONTENT_WIDTH as nat));
    assert(runs_fit(note, 117, 2, CONTENT_WIDTH as nat));
    assert(runs_fit(note, 105, 9, CONTENT_WIDTH as nat));
    assert(runs_fit(note, 93, 4, CONTENT_WIDTH as nat));
    assert(runs_fit(note, 81, 2, CONTENT_WIDTH as nat));
    assert(runs_fit(note, 69, 10, CONTENT_WIDTH as nat));
    assert(runs_fit(note, 57, 5, CONTENT_WIDTH as nat));
    assert(runs_fit(note, 45, 6, CONTENT_WIDTH as nat));
    assert(runs_fit(note, 33, 3, CONTENT_WIDTH as nat));
    assert(runs_fit(note, 21, 1, CONTENT_WIDTH as nat));
    assert(runs_fit(note, 9, 9, CONTENT_WIDTH as nat));
}

/// The name, domain and note lines of сра- fit the box.
proof fn lemma_texts_fit_at_7()
    ensures
        runs_fit(name_line(spec_root(7)), 0, 0, CONTENT_WIDTH as nat),
        runs_fit(domain_line(spec_root(7)), 0, 0, CONTENT_WIDTH as nat),
        runs_fit(spec_root(7).linguistic_note@, 0, 0, CONTENT_WIDTH as nat),
{
    reveal_strlit("Корень: ");
    reveal_strlit("-  ");
    reveal_strlit("Домен: ");
    reveal_strlit(" · продуктивность ");
    reveal_strlit("сра");
    reveal_strlit("«");
    reveal_strlit("»");
    reveal_strlit("испражняться");
    reveal_strlit("экскреторная");
    reveal_strlit("B");
    reveal_strlit("Экскреторный корень. По классификации Плуцера-Сарно относится к отдельному домену (не сексуальный мат), но по продуктивности не уступает корню еб-. В современном русском образует десятки глагольных форм.");
    reveal_with_fuel(runs_fit, 14);
    let name = name_line(spec_root(7));
    assert(runs_fit(name, 16, 2, CONTENT_WIDTH as nat));
    assert(runs_fit(name, 4, 4, CONTENT_WIDTH as nat));
    let domain = domain_line(spec_root(7));
    assert(runs_fit(domain, 26, 4, CONTENT_WIDTH as nat));
    assert(runs_fit(domain, 14, 7, CONTENT_WIDTH as nat));
    assert(runs_fit(domain, 2, 2, CONTENT_WIDTH as nat));
    let note = spec_root(7).linguistic_note@;
    assert(runs_fit(note, 191, 4, CONTENT_WIDTH as nat));
    assert(runs_fit(note, 179, 0, CONTENT_WIDTH as nat));
    assert(runs_fit(note, 167, 5, CONTENT_WIDTH as nat));
    assert(runs_fit(note, 155, 5, CONTENT_WIDTH as nat));
    assert(runs_fit(note, 143, 0, CONTENT_WIDTH as nat));
    assert(runs_fit(note, 131, 3, CONTENT_WIDTH as nat));
    assert(runs_fit(note, 119, 9, CONTENT_WIDTH as nat));
    assert(runs_fit(note, 107, 0, CONTENT_WIDTH as nat));
    assert(runs_fit(note, 95, 9, CONTENT_WIDTH as nat));
    assert(runs_fit(note, 83, 1, CONTENT_WIDTH as nat));
    assert(runs_fit(note, 71, 7, CONTENT_WIDTH as nat));
    assert(runs_fit(note, 59, 7, CONTENT_WIDTH as nat));
    assert(runs_fit(note, 47, 9, CONTENT_WIDTH as nat));
    assert(runs_fit(note, 35, 11, CONTENT_WIDTH as nat));
    assert(runs_fit(note, 23, 2, CONTENT_WIDTH as nat));
    assert(runs_fit(note, 11, 11, CONTENT_WIDTH as nat));
}

/// The name, domain and note lines of сса- fit the box.
proof fn lemma_texts_fit_at_8()
    ensures
        runs_fit(name_line(spec_root(8)), 0, 0, CONTENT_WIDTH as nat),
        runs_fit(domain_line(spec_root(8)), 0, 0, CONTENT_WIDTH as nat),
        runs_fit(spec_root(8).linguistic_note@, 0, 0, CONTENT_WIDTH as nat),
{
    reveal_strlit("Корень: ");
    reveal_strlit("-  ");
    reveal_strlit("Домен: ");
    reveal_strlit(" · продуктивность ");
    reveal_strlit("сса");
    reveal_strlit("«");
    reveal_strlit("»");
    reveal_strlit("мочиться");
    reveal_strlit("экскреторная");
    reveal_strlit("B");
    reveal_strlit("Экскреторный корень 'мочиться'. Менее продуктивен, чем сра-, но образует ряд ярких метафор: зассать ('испугаться'), обоссать ('раскритиковать').");
    reveal_with_fuel(runs_fit, 14);
    let name = name_line(spec_root(8));
    assert(runs_fit(name, 12, 4, CONTENT_WIDTH as nat));
    let domain = domain_line(spec_root(8));
    assert(runs_fit(domain, 26, 4, CONTENT_WIDTH as nat));
    assert(runs_fit(domain, 14, 7, CONTENT_WIDTH as nat));
    assert(runs_fit(domain, 2, 2, CONTENT_WIDTH as nat));
    let note = spec_root(8).linguistic_note@;
    assert(runs_fit(note, 132, 7, CONTENT_WIDTH as nat));
    assert(runs_fit(note, 120, 4, CONTENT_WIDTH as nat));
    assert(runs_fit(note, 108, 8, CONTENT_WIDTH as nat));
    assert(runs_fit(note, 96, 4, CONTENT_WIDTH as nat));
    assert(runs_fit(note, 84, 1, CONTENT_WIDTH as nat));
    assert(runs_fit(note, 72, 8, CONTENT_WIDTH as nat));
    assert(runs_fit(note, 60, 5, CONTENT_WIDTH as nat));
    assert(runs_fit(note, 48, 10, CONTENT_WIDTH as nat));
    assert(runs_fit(note, 36, 4, CONTENT_WIDTH as nat));
    assert(runs_fit(note, 24, 4, CONTENT_WIDTH as nat));
    assert(runs_fit(note, 12, 12, CONTENT_WIDTH as nat));
}

/// The name, domain and note lines of дроч- fit the box.
proof fn lemma_texts_fit_at_9()
    ensures
        runs_fit(name_line(spec_root(9)), 0, 0, CONTENT_WIDTH as nat),
        runs_fit(domain_line(spec_root(9)), 0, 0, CONTENT_WIDTH as nat),
        runs_fit(spec_root(9).linguistic_note@, 0, 0, CONTENT_WIDTH as nat),
{
    reveal_strlit("Корень: ");
    reveal_strlit("-  ");
    reveal_strlit("Домен: ");
    reveal_strlit(" · продуктивность ");
    reveal_strlit("дроч");
    reveal_strlit("«");
    reveal_strlit("»");
    reveal_strlit("мастурбировать");
    reveal_strlit("периферия");
    reveal_strlit("D");
    reveal_strlit("Глагольный корень со значением 'заниматься мастурбацией'. Образует формы II спряжения (дрочить, дрочу, дрочишь). В переносном значении — 'надоедать, изводить повторами'.");
    reveal_with_fuel(runs_fit, 14);
    let name = name_line(spec_root(9));
    assert(runs_fit(name, 19, 4, CONTENT_WIDTH as nat));
    assert(runs_fit(name, 7, 7, CONTENT_WIDTH as nat));
    let domain = domain_line(spec_root(9));
    assert(runs_fit(domain, 23, 4, CONTENT_WIDTH as nat));
    assert(runs_fit(domain, 11, 4, CONTENT_WIDTH as nat));
    let note = spec_root(9).linguistic_note@;
    assert(runs_fit(note, 157, 8, CONTENT_WIDTH as nat));
    assert(runs_fit(note, 145, 8, CONTENT_WIDTH as nat));
    assert(runs_fit(note, 133, 7, CONTENT_WIDTH as nat));
    assert(runs_fit(note, 121, 6, CONTENT_WIDTH as nat));
    assert(runs_fit(note, 109, 6, CONTENT_WIDTH as nat));
    assert(runs_fit(note, 97, 1, CONTENT_WIDTH as nat));
    assert(runs_fit(note, 85, 9, CONTENT_WIDTH as nat));
    assert(runs_fit(note, 73, 0, CONTENT_WIDTH as nat));
    assert(runs_fit(note, 61, 3, CONTENT_WIDTH as nat));
    assert(runs_fit(note, 49, 6, CONTENT_WIDTH as nat));
    assert(runs_fit(note, 37, 6, CONTENT_WIDTH as nat));
    assert(runs_fit(note, 25, 4, CONTENT_WIDTH as nat));
    assert(runs_fit(note, 13, 2, CONTENT_WIDTH as nat));
    assert(runs_fit(note, 1, 1, CONTENT_WIDTH as nat));
}

/// The name, domain and note lines of трах- fit the box.
proof fn lemma_texts_fit_at_10()
    ensures
        runs_fit(name_line(spec_root(10)), 0, 0, CONTENT_WIDTH as nat),
        runs_fit(domain_line(spec_root(10)), 0, 0, CONTENT_WIDTH as nat),
        runs_fit(spec_root(10).linguistic_note@, 0, 0, CONTENT_WIDTH as nat),
{
    reveal_strlit("Корень: ");
    reveal_strlit("-  ");
    reveal_strlit("Домен: ");
    reveal_strlit(" · продуктивность ");
    reveal_strlit("трах");
    reveal_strlit("«");
    reveal_strlit("»");
    reveal_strlit("совокупляться");
    reveal_strlit("периферия");
    reveal_strlit("D");
    reveal_strlit("Глагольный корень, обозначающий половой акт. Спрягается по I классу (-а-): трахать, трахаю, трахает. Омонимичен звукоподражательному 'трах' (удар, грохот).");
    reveal_with_fuel(runs_fit, 14);
    let name = name_line(spec_root(10));
    assert(runs_fit(name, 18, 3, CONTENT_WIDTH as nat));
    assert(runs_fit(name, 6, 6, CONTENT_WIDTH as nat));
    let domain = domain_line(spec_root(10));
    assert(runs_fit(domain, 23, 4, CONTENT_WIDTH as nat));
    assert(runs_fit(domain, 11, 4, CONTENT_WIDTH as nat));
    let note = spec_root(10).linguistic_note@;
    assert(runs_fit(note, 143, 3, CONTENT_WIDTH as nat));
    assert(runs_fit(note, 131, 19, CONTENT_WIDTH as nat));
    assert(runs_fit(note, 119, 7, CONTENT_WIDTH as nat));
    assert(runs_fit(note, 107, 6, CONTENT_WIDTH as nat));
    assert(runs_fit(note, 95, 3, CONTENT_WIDTH as nat));
    assert(runs_fit(note, 83, 8, CONTENT_WIDTH as nat));
    assert(runs_fit(note, 71, 3, CONTENT_WIDTH as nat));
    assert(runs_fit(note, 59, 0, CONTENT_WIDTH as nat));
    assert(runs_fit(note, 47, 2, CONTENT_WIDTH as nat));
    assert(runs_fit(note, 35, 3, CONTENT_WIDTH as nat));
    assert(runs_fit(note, 23, 4, CONTENT_WIDTH as nat));
    assert(runs_fit(note, 11, 0, CONTENT_WIDTH as nat));
}

/// The name, domain and note lines of жр- fit the box.
proof fn lemma_texts_fit_at_11()
    ensures
        runs_fit(name_line(spec_root(11)), 0, 0, CONTENT_WIDTH as nat),
        runs_fit(domain_line(spec_root(11)), 0, 0, CONTENT_WIDTH as nat),
        runs_fit(spec_root(11).linguistic_note@, 0, 0, CONTENT_WIDTH as nat),
{
    reveal_strlit("Корень: ");
    reveal_strlit("-  ");
    reveal_strlit("Домен: ");
    reveal_strlit(" · продуктивность ");
    reveal_strlit("жр");
    reveal_strlit("«");
    reveal_strlit("»");
    reveal_strlit("есть жадно");
    reveal_strlit("периферия");
    reveal_strlit("D");
    reveal_strlit("Глагольный корень 'есть жадно, много'. От праславянского *žerti. Нестандартное спряжение с чередованием: жрать, жру, жрёт. Переносно: 'проживать, тратить впустую'.");
    reveal_with_fuel(runs_fit, 14);
    let name = name_line(spec_root(11));
    assert(runs_fit(name, 13, 0, CONTENT_WIDTH as nat));
    assert(runs_fit(name, 1, 1, CONTENT_WIDTH as nat));
    let domain = domain_line(spec_root(11));
    assert(runs_fit(domain, 23, 4, CONTENT_WIDTH as nat));
    assert(runs_fit(domain, 11, 4, CONTENT_WIDTH as nat));
    let note = spec_root(11).linguistic_note@;
    assert(runs_fit(note, 151, 5, CONTENT_WIDTH as nat));
    assert(runs_fit(note, 139, 5, CONTENT_WIDTH as nat));
    assert(runs_fit(note, 127, 4, CONTENT_WIDTH as nat));
    assert(runs_fit(note, 115, 3, CONTENT_WIDTH as nat));
    assert(runs_fit(note, 103, 12, CONTENT_WIDTH as nat));
    assert(runs_fit(note, 91, 0, CONTENT_WIDTH as nat));
    assert(runs_fit(note, 79, 0, CONTENT_WIDTH as nat));
    assert(runs_fit(note, 67, 2, CONTENT_WIDTH as nat));
    assert(runs_fit(note, 55, 13, CONTENT_WIDTH as nat));
    assert(runs_fit(note, 43, 1, CONTENT_WIDTH as nat));
    assert(runs_fit(note, 31, 0, CONTENT_WIDTH as nat));
    assert(runs_fit(note, 19, 1, CONTENT_WIDTH as nat));
    assert(runs_fit(note, 7, 7, CONTENT_WIDTH as nat));
}

/// The name, domain and note lines of хер- fit the box.
proof fn lemma_texts_fit_at_12()
    ensures
        runs_fit(name_line(spec_root(12)), 0, 0, CONTENT_WIDTH as nat),
        runs_fit(domain_line(spec_root(12)), 0, 0, CONTENT_WIDTH as nat),
        runs_fit(spec_root(12).linguistic_note@, 0, 0, CONTENT_WIDTH as nat),
{
    reveal_strlit("Корень: ");
    reveal_strlit("-  ");
    reveal_strlit("Домен: ");
    reveal_strlit(" · продуктивность ");
    reveal_strlit("хер");
    reveal_strlit("«");
    reveal_strlit("»");
    reveal_strlit("портить, отменять");
    reveal_strlit("периферия");
    reveal_strlit("D");
    reveal_strlit("Глагольный корень от существительного 'хер' (название буквы Х, эвфемизм 'хуй'). Глагол херить значит 'портить, вычёркивать, отменять'. Относится к новейшему слою мата (переосмысление XX века).");
    reveal_with_fuel(runs_fit, 14);
    let name = name_line(spec_root(12));
    assert(runs_fit(name, 21, 7, CONTENT_WIDTH as nat));
    assert(runs_fit(name, 9, 1, CONTENT_WIDTH as nat));
    let domain = domain_line(spec_root(12));
    assert(runs_fit(domain, 23, 4, CONTENT_WIDTH as nat));
    assert(runs_fit(domain, 11, 4, CONTENT_WIDTH as nat));
    let note = spec_root(12).linguistic_note@;
    assert(runs_fit(note, 180, 13, CONTENT_WIDTH as nat));
    assert(runs_fit(note, 168, 1, CONTENT_WIDTH as nat));
    assert(runs_fit(note, 156, 9, CONTENT_WIDTH as nat));
    assert(runs_fit(note, 144, 9, CONTENT_WIDTH as nat));
    assert(runs_fit(note, 132, 8, CONTENT_WIDTH as nat));
    assert(runs_fit(note, 120, 9, CONTENT_WIDTH as nat));
    assert(runs_fit(note, 108, 7, CONTENT_WIDTH as nat));
    assert(runs_fit(note, 96, 2, CONTENT_WIDTH as nat));
    assert(runs_fit(note, 84, 4, CONTENT_WIDTH as nat));
    assert(runs_fit(note, 72, 0, CONTENT_WIDTH as nat));
    assert(runs_fit(note, 60, 0, CONTENT_WIDTH as nat));
    assert(runs_fit(note, 48, 4, CONTENT_WIDTH as nat));
    assert(runs_fit(note, 36, 15, CONTENT_WIDTH as nat));
    assert(runs_fit(note, 24, 3, CONTENT_WIDTH as nat));
    assert(runs_fit(note, 12, 1, CONTENT_WIDTH as nat));
}

/// The name, domain and note lines of перд- fit the box.
proof fn lemma_texts_fit_at_13()
    ensures
        runs_fit(name_line(spec_root(13)), 0, 0, CONTENT_WIDTH as nat),
        runs_fit(domain_line(spec_root(13)), 0, 0, CONTENT_WIDTH as nat),
        runs_fit(spec_root(13).linguistic_note@, 0, 0, CONTENT_WIDTH as nat),
{
    reveal_strlit("Корень: ");
    reveal_strlit("-  ");
    reveal_strlit("Домен: ");
    reveal_strlit(" · продуктивность ");
    reveal_strlit("перд");
    reveal_strlit("«");
    reveal_strlit("»");
    reveal_strlit("испускать газы");
    reveal_strlit("экскреторная");
    reveal_strlit("C");
    reveal_strlit("Корень со значением 'испускать кишечные газы'. От праславянского *pьrděti. Два глагольных класса: длительное пердеть (II спряжение) и однократное перднуть. Имеет широкий ряд метафорических значений.");
    reveal_with_fuel(runs_fit, 14);
    let name = name_line(spec_root(13));
    assert(runs_fit(name, 19, 4, CONTENT_WIDTH as nat));
    assert(runs_fit(name, 7, 7, CONTENT_WIDTH as nat));
    let domain = domain_line(spec_root(13));
    assert(runs_fit(domain, 26, 4, CONTENT_WIDTH as nat));
    assert(runs_fit(domain, 14, 7, CONTENT_WIDTH as nat));
    assert(runs_fit(domain, 2, 2, CONTENT_WIDTH as nat));
    let note = spec_root(13).linguistic_note@;
    assert(runs_fit(note, 186, 12, CONTENT_WIDTH as nat));
    assert(runs_fit(note, 174, 0, CONTENT_WIDTH as nat));
    assert(runs_fit(note, 162, 0, CONTENT_WIDTH as nat));
    assert(runs_fit(note, 150, 4, CONTENT_WIDTH as nat));
    assert(runs_fit(note, 138, 4, CONTENT_WIDTH as nat));
    assert(runs_fit(note, 126, 5, CONTENT_WIDTH as nat));
    assert(runs_fit(note, 114, 5, CONTENT_WIDTH as nat));
    assert(runs_fit(note, 102, 4, CONTENT_WIDTH as nat));
    assert(runs_fit(note, 90, 0, CONTENT_WIDTH as nat));
    assert(runs_fit(note, 78, 3, CONTENT_WIDTH as nat));
    assert(runs_fit(note, 66, 1, CONTENT_WIDTH as nat));
    assert(runs_fit(note, 54, 4, CONTENT_WIDTH as nat));
    assert(runs_fit(note, 42, 2, CONTENT_WIDTH as nat));
    assert(runs_fit(note, 30, 10, CONTENT_WIDTH as nat));
    assert(runs_fit(note, 18, 8, CONTENT_WIDTH as nat));
    assert(runs_fit(note, 6, 6, CONTENT_WIDTH as nat));
}

/// The name, domain and note lines of хар- fit the box.
proof fn lemma_texts_fit_at_14()
    ensures
        runs_fit(name_line(spec_root(14)), 0, 0, CONTENT_WIDTH as nat),
        runs_fit(domain_line(spec_root(14)), 0, 0, CONTENT_WIDTH as nat),
        runs_fit(spec_root(14).linguistic_note@, 0, 0, CONTENT_WIDTH as nat),
{
    reveal_strlit("Корень: ");
    reveal_strlit("-  ");
    reveal_strlit("Домен: ");
    reveal_strlit(" · продуктивность ");
    reveal_strlit("хар");
    reveal_strlit("«");
    reveal_strlit("»");
    reveal_strlit("грубо совокупляться");
    reveal_strlit("периферия");
    reveal_strlit("D");
    reveal_strlit("Глагольный корень с общим значением грубого действия. Спрягается по II спряжению: харить, харю, харишь. Семантический диапазон широк: от полового акта до интенсивной работы. Этимология неясна.");
    reveal_with_fuel(runs_fit, 14);
    let name = name_line(spec_root(14));
    assert(runs_fit(name, 23, 2, CONTENT_WIDTH as nat));
    assert(runs_fit(name, 11, 3, CONTENT_WIDTH as nat));
    let domain = domain_line(spec_root(14));
    assert(runs_fit(domain, 23, 4, CONTENT_WIDTH as nat));
    assert(runs_fit(domain, 11, 4, CONTENT_WIDTH as nat));
    let note = spec_root(14).linguistic_note@;
    assert(runs_fit(note, 180, 6, CONTENT_WIDTH as nat));
    assert(runs_fit(note, 168, 2, CONTENT_WIDTH as nat));
    assert(runs_fit(note, 156, 2, CONTENT_WIDTH as nat));
    assert(runs_fit(note, 144, 7, CONTENT_WIDTH as nat));
    assert(runs_fit(note, 132, 5, CONTENT_WIDTH as nat));
    assert(runs_fit(note, 120, 2, CONTENT_WIDTH as nat));
    assert(runs_fit(note, 108, 4, CONTENT_WIDTH as nat));
    assert(runs_fit(note, 96, 0, CONTENT_WIDTH as nat));
    assert(runs_fit(note, 84, 2, CONTENT_WIDTH as nat));
    assert(runs_fit(note, 72, 1, CONTENT_WIDTH as nat));
    assert(runs_fit(note, 60, 6, CONTENT_WIDTH as nat));
    assert(runs_fit(note, 48, 4, CONTENT_WIDTH as nat));
    assert(runs_fit(note, 36, 0, CONTENT_WIDTH as nat));
    assert(runs_fit(note, 24, 4, CONTENT_WIDTH as nat));
    assert(runs_fit(note, 12, 1, CONTENT_WIDTH as nat));
}

/// The name, domain and note lines of блев- fit the box.
proof fn lemma_texts_fit_at_15()
    ensures
        runs_fit(name_line(spec_root(15)), 0, 0, CONTENT_WIDTH as nat),
        runs_fit(domain_line(spec_root(15)), 0, 0, CONTENT_WIDTH as nat),
        runs_fit(spec_root(15).linguistic_note@, 0, 0, CONTENT_WIDTH as nat),
{
    reveal_strlit("Корень: ");
    reveal_strlit("-  ");
    reveal_strlit("Домен: ");
    reveal_strlit(" · продуктивность ");
    reveal_strlit("блев");
    reveal_strlit("«");
    reveal_strlit("»");
    reveal_strlit("извергать рвоту");
    reveal_strlit("периферия");
    reveal_strlit("D");
    reveal_strlit("Глагольный корень 'извергать рвоту'. От праславянского *bljьvati. Характеризуется историческим чередованием в основе: инфинитив блевать, основа настоящего времени блю- (блюю, блюёт). Переносно: 'выдавать из себя'.");
    reveal_with_fuel(runs_fit, 14);
    let name = name_line(spec_root(15));
    assert(runs_fit(name, 20, 5, CONTENT_WIDTH as nat));
    assert(runs_fit(name, 8, 0, CONTENT_WIDTH as nat));
    let domain = domain_line(spec_root(15));
    assert(runs_fit(domain, 23, 4, CONTENT_WIDTH as nat));
    assert(runs_fit(domain, 11, 4, CONTENT_WIDTH as nat));
    let note = spec_root(15).linguistic_note@;
    assert(runs_fit(note, 201, 7, CONTENT_WIDTH as nat));
    assert(runs_fit(note, 189, 6, CONTENT_WIDTH as nat));
    assert(runs_fit(note, 177, 2, CONTENT_WIDTH as nat));
    assert(runs_fit(note, 165, 2, CONTENT_WIDTH as nat));
    assert(runs_fit(note, 153, 9, CONTENT_WIDTH as nat));
    assert(runs_fit(note, 141, 4, CONTENT_WIDTH as nat));
    assert(runs_fit(note, 129, 1, CONTENT_WIDTH as nat));
    assert(runs_fit(note, 117, 7, CONTENT_WIDTH as nat));
    assert(runs_fit(note, 105, 10, CONTENT_WIDTH as nat));
    assert(runs_fit(note, 93, 11, CONTENT_WIDTH as nat));
    assert(runs_fit(note, 81, 15, CONTENT_WIDTH as nat));
    assert(runs_fit(note, 69, 3, CONTENT_WIDTH as nat));
    assert(runs_fit(note, 57, 2, CONTENT_WIDTH as nat));
    assert(runs_fit(note, 45, 5, CONTENT_WIDTH as nat));
    assert(runs_fit(note, 33, 4, CONTENT_WIDTH as nat));
    assert(runs_fit(note, 21, 3, CONTENT_WIDTH as nat));
    assert(runs_fit(note, 9, 9, CONTENT_WIDTH as nat));
}

/// The name, domain and note lines of бзд- fit the box.
proof fn lemma_texts_fit_at_16()
    ensures
        runs_fit(name_line(spec_root(16)), 0, 0, CONTENT_WIDTH as nat),
        runs_fit(domain_line(spec_root(16)), 0, 0, CONTENT_WIDTH as nat),
        runs_fit(spec_root(16).linguistic_note@, 0, 0, CONTENT_WIDTH as nat),
{
    reveal_strlit("Корень: ");
    reveal_strlit("-  ");
    reveal_strlit("Домен: ");
    reveal_strlit(" · продуктивность ");
    reveal_strlit("бзд");
    reveal_strlit("«");
    reveal_strlit("»");
    reveal_strlit("беззвучно испускать газы");
    reveal_strlit("экскреторная");
    reveal_strlit("C");
    reveal_strlit("Корень со значением 'испускать газы беззвучно'. Спрягается по II классу (-е-): бздеть, бзжу, бздишь. Переносное значение развилось в сторону страха: 'бздеть' = 'бояться, трусить'.");
    reveal_with_fuel(runs_fit, 14);
    let name = name_line(spec_root(16));
    assert(runs_fit(name, 28, 3, CONTENT_WIDTH as nat));
    assert(runs_fit(name, 16, 2, CONTENT_WIDTH as nat));
    assert(runs_fit(name, 4, 4, CONTENT_WIDTH as nat));
    let domain = domain_line(spec_root(16));
    assert(runs_fit(domain, 26, 4, CONTENT_WIDTH as nat));
    assert(runs_fit(domain, 14, 7, CONTENT_WIDTH as nat));
    assert(runs_fit(domain, 2, 2, CONTENT_WIDTH as nat));
    let note = spec_root(16).linguistic_note@;
    assert(runs_fit(note, 167, 7, CONTENT_WIDTH as nat));
    assert(runs_fit(note, 155, 6, CONTENT_WIDTH as nat));
    assert(runs_fit(note, 143, 2, CONTENT_WIDTH as nat));
    assert(runs_fit(note, 131, 0, CONTENT_WIDTH as nat));
    assert(runs_fit(note, 119, 7, CONTENT_WIDTH as nat));
    assert(runs_fit(note, 107, 6, CONTENT_WIDTH as nat));
    assert(runs_fit(note, 95, 2, CONTENT_WIDTH as nat));
    assert(runs_fit(note, 83, 4, CONTENT_WIDTH as nat));
    assert(runs_fit(note, 71, 6, CONTENT_WIDTH as nat));
    assert(runs_fit(note, 59, 0, CONTENT_WIDTH as nat));
    assert(runs_fit(note, 47, 11, CONTENT_WIDTH as nat));
    assert(runs_fit(note, 35, 4, CONTENT_WIDTH as nat));
    assert(runs_fit(note, 23, 3, CONTENT_WIDTH as nat));
    assert(runs_fit(note, 11, 1, CONTENT_WIDTH as nat));
}

/// The name, domain and note lines of дрист- fit the box.
proof fn lemma_texts_fit_at_17()
    ensures
        runs_fit(name_line(spec_root(17)), 0, 0, CONTENT_WIDTH as nat),
        runs_fit(domain_line(spec_root(17)), 0, 0, CONTENT_WIDTH as nat),
        runs_fit(spec_root(17).linguistic_note@, 0, 0, CONTENT_WIDTH as nat),
{
    reveal_strlit("Корень: ");
    reveal_strlit("-  ");
    reveal_strlit("Домен: ");
    reveal_strlit(" · продуктивность ");
    reveal_strlit("дрист");
    reveal_strlit("«");
    reveal_strlit("»");
    reveal_strlit("страдать поносом");
    reveal_strlit("экскреторная");
    reveal_strlit("C");
    reveal_strlit("Корень со значением 'страдать поносом'. От праславянского *dristati. Спрягается по I классу (-а-): дристать, дрищу, дрищешь. В переносном значении — 'делать что-то некачественное, жидкое'.");
    reveal_with_fuel(runs_fit, 14);
    let name = name_line(spec_root(17));
    assert(runs_fit(name, 22, 6, CONTENT_WIDTH as nat));
    assert(runs_fit(name, 10, 2, CONTENT_WIDTH as nat));
    let domain = domain_line(spec_root(17));
    assert(runs_fit(domain, 26, 4, CONTENT_WIDTH as nat));
    assert(runs_fit(domain, 14, 7, CONTENT_WIDTH as nat));
    assert(runs_fit(domain, 2, 2, CONTENT_WIDTH as nat));
    let note = spec_root(17).linguistic_note@;
    assert(runs_fit(note, 176, 12, CONTENT_WIDTH as nat));
    assert(runs_fit(note, 164, 0, CONTENT_WIDTH as nat));
    assert(runs_fit(note, 152, 3, CONTENT_WIDTH as nat));
    assert(runs_fit(note, 140, 2, CONTENT_WIDTH as nat));
    assert(runs_fit(note, 128, 1, CONTENT_WIDTH as nat));
    assert(runs_fit(note, 116, 0, CONTENT_WIDTH as nat));
    assert(runs_fit(note, 104, 5, CONTENT_WIDTH as nat));
    assert(runs_fit(note, 92, 0, CONTENT_WIDTH as nat));
    assert(runs_fit(note, 80, 0, CONTENT_WIDTH as nat));
    assert(runs_fit(note, 68, 10, CONTENT_WIDTH as nat));
    assert(runs_fit(note, 56, 13, CONTENT_WIDTH as nat));
    assert(runs_fit(note, 44, 1, CONTENT_WIDTH as nat));
    assert(runs_fit(note, 32, 2, CONTENT_WIDTH as nat));
    assert(runs_fit(note, 20, 0, CONTENT_WIDTH as nat));
    assert(runs_fit(note, 8, 1, CONTENT_WIDTH as nat));
}

/// The name, domain and note lines of залуп- fit the box.
proof fn lemma_texts_fit_at_18()
    ensures
        runs_fit(name_line(spec_root(18)), 0, 0, CONTENT_WIDTH as nat),
        runs_fit(domain_line(spec_root(18)), 0, 0, CONTENT_WIDTH as nat),
        runs_fit(spec_root(18).linguistic_note@, 0, 0, CONTENT_WIDTH as nat),
{
    reveal_strlit("Корень: ");
    reveal_strlit("-  ");
    reveal_strlit("Домен: ");
    reveal_strlit(" · продуктивность ");
    reveal_strlit("залуп");
    reveal_strlit("«");
    reveal_strlit("»");
    reveal_strlit("головка члена, крайняя плоть");
    reveal_strlit("периферия");
    reveal_strlit("E");
    reveal_strlit("Именной корень, обозначающий головку полового члена и крайнюю плоть. В глагольных формах (залупиться) означает 'обнажить головку'. По Плуцеру-Сарно — номинатив с глагольным потенциалом.");
    reveal_with_fuel(runs_fit, 14);
    let name = name_line(spec_root(18));
    assert(runs_fit(name, 34, 2, CONTENT_WIDTH as nat));
    assert(runs_fit(name, 22, 6, CONTENT_WIDTH as nat));
    assert(runs_fit(name, 10, 2, CONTENT_WIDTH as nat));
    let domain = domain_line(spec_root(18));
    assert(runs_fit(domain, 23, 4, CONTENT_WIDTH as nat));
    assert(runs_fit(domain, 11, 4, CONTENT_WIDTH as nat));
    let note = spec_root(18).linguistic_note@;
    assert(runs_fit(note, 173, 0, CONTENT_WIDTH as nat));
    assert(runs_fit(note, 161, 1, CONTENT_WIDTH as nat));
    assert(runs_fit(note, 149, 1, CONTENT_WIDTH as nat));
    assert(runs_fit(note, 137, 3, CONTENT_WIDTH as nat));
    assert(runs_fit(note, 125, 4, CONTENT_WIDTH as nat));
    assert(runs_fit(note, 113, 2, CONTENT_WIDTH as nat));
    assert(runs_fit(note, 101, 12, CONTENT_WIDTH as nat));
    assert(runs_fit(note, 89, 0, CONTENT_WIDTH as nat));
    assert(runs_fit(note, 77, 6, CONTENT_WIDTH as nat));
    assert(runs_fit(note, 65, 3, CONTENT_WIDTH as nat));
    assert(runs_fit(note, 53, 1, CONTENT_WIDTH as nat));
    assert(runs_fit(note, 41, 4, CONTENT_WIDTH as nat));
    assert(runs_fit(note, 29, 0, CONTENT_WIDTH as nat));
    assert(runs_fit(note, 17, 1, CONTENT_WIDTH as nat));
    assert(runs_fit(note, 5, 5, CONTENT_WIDTH as nat));
}

/// The name, domain and note lines of жоп- fit the box.
proof fn lemma_texts_fit_at_19()
    ensures
        runs_fit(name_line(spec_root(19)), 0, 0, CONTENT_WIDTH as nat),
        runs_fit(domain_line(spec_root(19)), 0, 0, CONTENT_WIDTH as nat),
        runs_fit(spec_root(19).linguistic_note@, 0, 0, CONTENT_WIDTH as nat),
{
    reveal_strlit("Корень: ");
    reveal_strlit("-  ");
    reveal_strlit("Домен: ");
    reveal_strlit(" · продуктивность ");
    reveal_strlit("жоп");
    reveal_strlit("«");
    reveal_strlit("»");
    reveal_strlit("зад, ягодицы");
    reveal_strlit("экскреторная");
    reveal_strlit("D");
    reveal_strlit("Именной корень со значением 'ягодицы, зад'. В глагольных формах (зажопить, прижопить) развивает значение 'присвоить, не поделиться'. Один из самых частотных корней в бытовом обсценном лексиконе.");
    reveal_with_fuel(runs_fit, 14);
    let name = name_line(spec_root(19));
    assert(runs_fit(name, 16, 2, CONTENT_WIDTH as nat));
    assert(runs_fit(name, 4, 4, CONTENT_WIDTH as nat));
    let domain = domain_line(spec_root(19));
    assert(runs_fit(domain, 26, 4, CONTENT_WIDTH as nat));
    assert(runs_fit(domain, 14, 7, CONTENT_WIDTH as nat));
    assert(runs_fit(domain, 2, 2, CONTENT_WIDTH as nat));
    let note = spec_root(19).linguistic_note@;
    assert(runs_fit(note, 182, 8, CONTENT_WIDTH as nat));
    assert(runs_fit(note, 170, 4, CONTENT_WIDTH as nat));
    assert(runs_fit(note, 158, 1, CONTENT_WIDTH as nat));
    assert(runs_fit(note, 146, 5, CONTENT_WIDTH as nat));
    assert(runs_fit(note, 134, 1, CONTENT_WIDTH as nat));
    assert(runs_fit(note, 122, 2, CONTENT_WIDTH as nat));
    assert(runs_fit(note, 110, 5, CONTENT_WIDTH as nat));
    assert(runs_fit(note, 98, 2, CONTENT_WIDTH as nat));
    assert(runs_fit(note, 86, 0, CONTENT_WIDTH as nat));
    assert(runs_fit(note, 74, 10, CONTENT_WIDTH as nat));
    assert(runs_fit(note, 62, 5, CONTENT_WIDTH as nat));
    assert(runs_fit(note, 50, 4, CONTENT_WIDTH as nat));
    assert(runs_fit(note, 38, 0, CONTENT_WIDTH as nat));
    assert(runs_fit(note, 26, 8, CONTENT_WIDTH as nat));
    assert(runs_fit(note, 14, 6, CONTENT_WIDTH as nat));
    assert(runs_fit(note, 2, 2, CONTENT_WIDTH as nat));
}

/// The name, domain and note lines of говн- fit the box.
proof fn lemma_texts_fit_at_20()
    ensures
        runs_fit(name_line(spec_root(20)), 0, 0, CONTENT_WIDTH as nat),
        runs_fit(domain_line(spec_root(20)), 0, 0, CONTENT_WIDTH as nat),
        runs_fit(spec_root(20).linguistic_note@, 0, 0, CONTENT_WIDTH as nat),
{
    reveal_strlit("Корень: ");
    reveal_strlit("-  ");
    reveal_strlit("Домен: ");
    reveal_strlit(" · продуктивность ");
    reveal_strlit("говн");
    reveal_strlit("«");
    reveal_strlit("»");
    reveal_strlit("экскременты");
    reveal_strlit("экскреторная");
    reveal_strlit("D");
    reveal_strlit("Именной корень, обозначающий экскременты. В глагольных формах (говнить, заговнить) — 'портить, делать плохо'. Чрезвычайно продуктивен в именной деривации (говно, говённый, говнище).");
    reveal_with_fuel(runs_fit, 14);
    let name = name_line(spec_root(20));
    assert(runs_fit(name, 16, 1, CONTENT_WIDTH as nat));
    assert(runs_fit(name, 4, 4, CONTENT_WIDTH as nat));
    let domain = domain_line(spec_root(20));
    assert(runs_fit(domain, 26, 4, CONTENT_WIDTH as nat));
    assert(runs_fit(domain, 14, 7, CONTENT_WIDTH as nat));
    assert(runs_fit(domain, 2, 2, CONTENT_WIDTH as nat));
    let note = spec_root(20).linguistic_note@;
    assert(runs_fit(note, 169, 7, CONTENT_WIDTH as nat));
    assert(runs_fit(note, 157, 3, CONTENT_WIDTH as nat));
    assert(runs_fit(note, 145, 1, CONTENT_WIDTH as nat));
    assert(runs_fit(note, 133, 11, CONTENT_WIDTH as nat));
    assert(runs_fit(note, 121, 11, CONTENT_WIDTH as nat));
    assert(runs_fit(note, 109, 7, CONTENT_WIDTH as nat));
    assert(runs_fit(note, 97, 2, CONTENT_WIDTH as nat));
    assert(runs_fit(note, 85, 0, CONTENT_WIDTH as nat));
    assert(runs_fit(note, 73, 1, CONTENT_WIDTH as nat));
    assert(runs_fit(note, 61, 6, CONTENT_WIDTH as nat));
    assert(runs_fit(note, 49, 5, CONTENT_WIDTH as nat));
    assert(runs_fit(note, 37, 8, CONTENT_WIDTH as nat));
    assert(runs_fit(note, 25, 9, CONTENT_WIDTH as nat));
    assert(runs_fit(note, 13, 5, CONTENT_WIDTH as nat));
    assert(runs_fit(note, 1, 1, CONTENT_WIDTH as nat));
}

/// The name, domain and note lines of пидор- fit the box.
proof fn lemma_texts_fit_at_21()
    ensures
        runs_fit(name_line(spec_root(21)), 0, 0, CONTENT_WIDTH as nat),
        runs_fit(domain_line(spec_root(21)), 0, 0, CONTENT_WIDTH as nat),
        runs_fit(spec_root(21).linguistic_note@, 0, 0, CONTENT_WIDTH as nat),
{
    reveal_strlit("Корень: ");
    reveal_strlit("-  ");
    reveal_strlit("Домен: ");
    reveal_strlit(" · продуктивность ");
    reveal_strlit("пидор");
    reveal_strlit("«");
    reveal_strlit("»");
    reveal_strlit("гомосексуалист (презр.)");
    reveal_strlit("периферия");
    reveal_strlit("E");
    reveal_strlit("Именной корень, сокращение от 'педераст'. Глагольные формы (пидорить, запидорить) развивают значение 'анально изнасиловать; испортить'. Обладает сильной обсценной окраской.");
    reveal_with_fuel(runs_fit, 14);
    let name = name_line(spec_root(21));
    assert(runs_fit(name, 29, 13, CONTENT_WIDTH as nat));
    assert(runs_fit(name, 17, 1, CONTENT_WIDTH as nat));
    assert(runs_fit(name, 5, 5, CONTENT_WIDTH as nat));
    let domain = domain_line(spec_root(21));
    assert(runs_fit(domain, 23, 4, CONTENT_WIDTH as nat));
    assert(runs_fit(domain, 11, 4, CONTENT_WIDTH as nat));
    let note = spec_root(21).linguistic_note@;
    assert(runs_fit(note, 160, 7, CONTENT_WIDTH as nat));
    assert(runs_fit(note, 148, 3, CONTENT_WIDTH as nat));
    assert(runs_fit(note, 136, 0, CONTENT_WIDTH as nat));
    assert(runs_fit(note, 124, 0, CONTENT_WIDTH as nat));
    assert(runs_fit(note, 112, 2, CONTENT_WIDTH as nat));
    assert(runs_fit(note, 100, 8, CONTENT_WIDTH as nat));
    assert(runs_fit(note, 88, 6, CONTENT_WIDTH as nat));
    assert(runs_fit(note, 76, 6, CONTENT_WIDTH as nat));
    assert(runs_fit(note, 64, 5, CONTENT_WIDTH as nat));
    assert(runs_fit(note, 52, 10, CONTENT_WIDTH as nat));
    assert(runs_fit(note, 40, 10, CONTENT_WIDTH as nat));
    assert(runs_fit(note, 28, 1, CONTENT_WIDTH as nat));
    assert(runs_fit(note, 16, 0, CONTENT_WIDTH as nat));
    assert(runs_fit(note, 4, 4, CONTENT_WIDTH as nat));
}

/// The name, domain and note lines of курв- fit the box.
proof fn lemma_texts_fit_at_22()
    ensures
        runs_fit(name_line(spec_root(22)), 0, 0, CONTENT_WIDTH as nat),
        runs_fit(domain_line(spec_root(22)), 0, 0, CONTENT_WIDTH as nat),
        runs_fit(spec_root(22).linguistic_note@, 0, 0, CONTENT_WIDTH as nat),
{
    reveal_strlit("Корень: ");
    reveal_strlit("-  ");
    reveal_strlit("Домен: ");
    reveal_strlit(" · продуктивность ");
    reveal_strlit("курв");
    reveal_strlit("«");
    reveal_strlit("»");
    reveal_strlit("распутная женщина");
    reveal_strlit("периферия");
    reveal_strlit("E");
    reveal_strlit("Именной корень со значением 'проститутка, распутная женщина'. От латинского curva. Глагольные формы (курвиться, закурвиться) означают 'вести себя распутно'. Преимущественно именной.");
    reveal_with_fuel(runs_fit, 14);
    let name = name_line(spec_root(22));
    assert(runs_fit(name, 22, 7, CONTENT_WIDTH as nat));
    assert(runs_fit(name, 10, 2, CONTENT_WIDTH as nat));
    let domain = domain_line(spec_root(22));
    assert(runs_fit(domain, 23, 4, CONTENT_WIDTH as nat));
    assert(runs_fit(domain, 11, 4, CONTENT_WIDTH as nat));
    let note = spec_root(22).linguistic_note@;
    assert(runs_fit(note, 169, 12, CONTENT_WIDTH as nat));
    assert(runs_fit(note, 157, 0, CONTENT_WIDTH as nat));
    assert(runs_fit(note, 145, 4, CONTENT_WIDTH as nat));
    assert(runs_fit(note, 133, 8, CONTENT_WIDTH as nat));
    assert(runs_fit(note, 121, 9, CONTENT_WIDTH as nat));
    assert(runs_fit(note, 109, 9, CONTENT_WIDTH as nat));
    assert(runs_fit(note, 97, 3, CONTENT_WIDTH as nat));
    assert(runs_fit(note, 85, 2, CONTENT_WIDTH as nat));
    assert(runs_fit(note, 73, 8, CONTENT_WIDTH as nat));
    assert(runs_fit(note, 61, 9, CONTENT_WIDTH as nat));
    assert(runs_fit(note, 49, 7, CONTENT_WIDTH as nat));
    assert(runs_fit(note, 37, 9, CONTENT_WIDTH as nat));
    assert(runs_fit(note, 25, 7, CONTENT_WIDTH as nat));
    assert(runs_fit(note, 13, 5, CONTENT_WIDTH as nat));
    assert(runs_fit(note, 1, 1, CONTENT_WIDTH as nat));
}

/// The name, domain and note lines of сиповк- fit the box.
proof fn lemma_texts_fit_at_23()
    ensures
        runs_fit(name_line(spec_root(23)), 0, 0, CONTENT_WIDTH as nat),
        runs_fit(domain_line(spec_root(23)), 0, 0, CONTENT_WIDTH as nat),
        runs_fit(spec_root(23).linguistic_note@, 0, 0, CONTENT_WIDTH as nat),
{
    reveal_strlit("Корень: ");
    reveal_strlit("-  ");
    reveal_strlit("Домен: ");
    reveal_strlit(" · продуктивность ");
    reveal_strlit("сиповк");
    reveal_strlit("«");
    reveal_strlit("»");
    reveal_strlit("тип женских гениталий");
    reveal_strlit("периферия");
    reveal_strlit("E");
    reveal_strlit("Именной корень из классификации Плуцера-Сарно. Обозначает один из типов женских гениталий (с высоким входом). Чисто номинативный корень, без глагольных форм.");
    reveal_with_fuel(runs_fit, 14);
    let name = name_line(spec_root(23));
    assert(runs_fit(name, 28, 6, CONTENT_WIDTH as nat));
    assert(runs_fit(name, 16, 0, CONTENT_WIDTH as nat));
    assert(runs_fit(name, 4, 4, CONTENT_WIDTH as nat));
    let domain = domain_line(spec_root(23));
    assert(runs_fit(domain, 23, 4, CONTENT_WIDTH as nat));
    assert(runs_fit(domain, 11, 4, CONTENT_WIDTH as nat));
    let note = spec_root(23).linguistic_note@;
    assert(runs_fit(note, 145, 4, CONTENT_WIDTH as nat));
    assert(runs_fit(note, 133, 4, CONTENT_WIDTH as nat));
    assert(runs_fit(note, 121, 5, CONTENT_WIDTH as nat));
    assert(runs_fit(note, 109, 8, CONTENT_WIDTH as nat));
    assert(runs_fit(note, 97, 4, CONTENT_WIDTH as nat));
    assert(runs_fit(note, 85, 5, CONTENT_WIDTH as nat));
    assert(runs_fit(note, 73, 1, CONTENT_WIDTH as nat));
    assert(runs_fit(note, 61, 3, CONTENT_WIDTH as nat));
    assert(runs_fit(note, 49, 2, CONTENT_WIDTH as nat));
    assert(runs_fit(note, 37, 5, CONTENT_WIDTH as nat));
    assert(runs_fit(note, 25, 7, CONTENT_WIDTH as nat));
    assert(runs_fit(note, 13, 5, CONTENT_WIDTH as nat));
    assert(runs_fit(note, 1, 1, CONTENT_WIDTH as nat));
}

/// The name, domain and note lines of секел- fit the box.
proof fn lemma_texts_fit_at_24()
    ensures
        runs_fit(name_line(spec_root(24)), 0, 0, CONTENT_WIDTH as nat),
        runs_fit(domain_line(spec_root(24)), 0, 0, CONTENT_WIDTH as nat),
        runs_fit(spec_root(24).linguistic_note@, 0, 0, CONTENT_WIDTH as nat),
{
    reveal_strlit("Корень: ");
    reveal_strlit("-  ");
    reveal_strlit("Домен: ");
    reveal_strlit(" · продуктивность ");
    reveal_strlit("секел");
    reveal_strlit("«");
    reveal_strlit("»");
    reveal_strlit("тип женских гениталий");
    reveal_strlit("периферия");
    reveal_strlit("E");
    reveal_strlit("Именной корень из пласта обсценной анатомической лексики. Обозначает тип женских гениталий с поперечным разрезом. Не образует глагольных форм.");
    reveal_with_fuel(runs_fit, 14);
    let name = name_line(spec_root(24));
    assert(runs_fit(name, 27, 6, CONTENT_WIDTH as nat));
    assert(runs_fit(name, 15, 0, CONTENT_WIDTH as nat));
    assert(runs_fit(name, 3, 3, CONTENT_WIDTH as nat));
    let domain = domain_line(spec_root(24));
    assert(runs_fit(domain, 23, 4, CONTENT_WIDTH as nat));
    assert(runs_fit(domain, 11, 4, CONTENT_WIDTH as nat));
    let note = spec_root(24).linguistic_note@;
    assert(runs_fit(note, 130, 4, CONTENT_WIDTH as nat));
    assert(runs_fit(note, 118, 1, CONTENT_WIDTH as nat));
    assert(runs_fit(note, 106, 2, CONTENT_WIDTH as nat));
    assert(runs_fit(note, 94, 1, CONTENT_WIDTH as nat));
    assert(runs_fit(note, 82, 1, CONTENT_WIDTH as nat));
    assert(runs_fit(note, 70, 1, CONTENT_WIDTH as nat));
    assert(runs_fit(note, 58, 0, CONTENT_WIDTH as nat));
    assert(runs_fit(note, 46, 11, CONTENT_WIDTH as nat));
    assert(runs_fit(note, 34, 9, CONTENT_WIDTH as nat));
    assert(runs_fit(note, 22, 4, CONTENT_WIDTH as nat));
    assert(runs_fit(note, 10, 2, CONTENT_WIDTH as nat));
}

/// The name, domain and note lines of поц- fit the box.
proof fn lemma_texts_fit_at_25()
    ensures
        runs_fit(name_line(spec_root(25)), 0, 0, CONTENT_WIDTH as nat),
        runs_fit(domain_line(spec_root(25)), 0, 0, CONTENT_WIDTH as nat),
        runs_fit(spec_root(25).linguistic_note@, 0, 0, CONTENT_WIDTH as nat),
{
    reveal_strlit("Корень: ");
    reveal_strlit("-  ");
    reveal_strlit("Домен: ");
    reveal_strlit(" · продуктивность ");
    reveal_strlit("поц");
    reveal_strlit("«");
    reveal_strlit("»");
    reveal_strlit("мужской член");
    reveal_strlit("периферия");
    reveal_strlit("E");
    reveal_strlit("Именной корень из идиша (פּאָץ — 'член'). В русском мате — универсальное презрительное обозначение мужчины. Не образует глагольных форм. Заимствование XX века.");
    reveal_with_fuel(runs_fit, 14);
    let name = name_line(spec_root(25));
    assert(runs_fit(name, 16, 2, CONTENT_WIDTH as nat));
    assert(runs_fit(name, 4, 4, CONTENT_WIDTH as nat));
    let domain = domain_line(spec_root(25));
    assert(runs_fit(domain, 23, 4, CONTENT_WIDTH as nat));
    assert(runs_fit(domain, 11, 4, CONTENT_WIDTH as nat));
    let note = spec_root(25).linguistic_note@;
    assert(runs_fit(note, 147, 10, CONTENT_WIDTH as nat));
    assert(runs_fit(note, 135, 4, CONTENT_WIDTH as nat));
    assert(runs_fit(note, 123, 3, CONTENT_WIDTH as nat));
    assert(runs_fit(note, 111, 0, CONTENT_WIDTH as nat));
    assert(runs_fit(note, 99, 0, CONTENT_WIDTH as nat));
    assert(runs_fit(note, 87, 0, CONTENT_WIDTH as nat));
    assert(runs_fit(note, 75, 2, CONTENT_WIDTH as nat));
    assert(runs_fit(note, 63, 4, CONTENT_WIDTH as nat));
    assert(runs_fit(note, 51, 7, CONTENT_WIDTH as nat));
    assert(runs_fit(note, 39, 6, CONTENT_WIDTH as nat));
    assert(runs_fit(note, 27, 3, CONTENT_WIDTH as nat));
    assert(runs_fit(note, 15, 0, CONTENT_WIDTH as nat));
    assert(runs_fit(note, 3, 3, CONTENT_WIDTH as nat));
}

/// The name, domain and note lines of молофь- fit the box.
proof fn lemma_texts_fit_at_26()
    ensures
        runs_fit(name_line(spec_root(26)), 0, 0, CONTENT_WIDTH as nat),
        runs_fit(domain_line(spec_root(26)), 0, 0, CONTENT_WIDTH as nat),
        runs_fit(spec_root(26).linguistic_note@, 0, 0, CONTENT_WIDTH as nat),
{
    reveal_strlit("Корень: ");
    reveal_strlit("-  ");
    reveal_strlit("Домен: ");
    reveal_strlit(" · продуктивность ");
    reveal_strlit("молофь");
    reveal_strlit("«");
    reveal_strlit("»");
    reveal_strlit("сперма");
    reveal_strlit("периферия");
    reveal_strlit("E");
    reveal_strlit("Именной корень со значением 'сперма'. Относится к соматическому слою мата. Глагольных форм не образует. Устаревающий корень, редко встречается в современной речи.");
    reveal_with_fuel(runs_fit, 14);
    let name = name_line(spec_root(26));
    assert(runs_fit(name, 13, 5, CONTENT_WIDTH as nat));
    assert(runs_fit(name, 1, 1, CONTENT_WIDTH as nat));
    let domain = domain_line(spec_root(26));
    assert(runs_fit(domain, 23, 4, CONTENT_WIDTH as nat));
    assert(runs_fit(domain, 11, 4, CONTENT_WIDTH as nat));
    let note = spec_root(26).linguistic_note@;
    assert(runs_fit(note, 150, 5, CONTENT_WIDTH as nat));
    assert(runs_fit(note, 138, 7, CONTENT_WIDTH as nat));
    assert(runs_fit(note, 126, 1, CONTENT_WIDTH as nat));
    assert(runs_fit(note, 114, 10, CONTENT_WIDTH as nat));
    assert(runs_fit(note, 102, 8, CONTENT_WIDTH as nat));
    assert(runs_fit(note, 90, 4, CONTENT_WIDTH as nat));
    assert(runs_fit(note, 78, 3, CONTENT_WIDTH as nat));
    assert(runs_fit(note, 66, 2, CONTENT_WIDTH as nat));
    assert(runs_fit(note, 54, 4, CONTENT_WIDTH as nat));
    assert(runs_fit(note, 42, 4, CONTENT_WIDTH as nat));
    assert(runs_fit(note, 30, 2, CONTENT_WIDTH as nat));
    assert(runs_fit(note, 18, 0, CONTENT_WIDTH as nat));
    assert(runs_fit(note, 6, 6, CONTENT_WIDTH as nat));
}

/// The name, domain and note lines of минж- fit the box.
proof fn lemma_texts_fit_at_27()
    ensures
        runs_fit(name_line(spec_root(27)), 0, 0, CONTENT_WIDTH as nat),
        runs_fit(domain_line(spec_root(27)), 0, 0, CONTENT_WIDTH as nat),
        runs_fit(spec_root(27).linguistic_note@, 0, 0, CONTENT_WIDTH as nat),
{
    reveal_strlit("Корень: ");
    reveal_strlit("-  ");
    reveal_strlit("Домен: ");
    reveal_strlit(" · продуктивность ");
    reveal_strlit("минж");
    reveal_strlit("«");
    reveal_strlit("»");
    reveal_strlit("женские гениталии");
    reveal_strlit("периферия");
    reveal_strlit("E");
    reveal_strlit("Именной корень, обозначающий женские гениталии. Заимствован из французского (la moniche) через уголовное арго. Не образует глагольных форм.");
    reveal_with_fuel(runs_fit, 14);
    let name = name_line(spec_root(27));
    assert(runs_fit(name, 22, 7, CONTENT_WIDTH as nat));
    assert(runs_fit(name, 10, 2, CONTENT_WIDTH as nat));
    let domain = domain_line(spec_root(27));
    assert(runs_fit(domain, 23, 4, CONTENT_WIDTH as nat));
    assert(runs_fit(domain, 11, 4, CONTENT_WIDTH as nat));
    let note = spec_root(27).linguistic_note@;
    assert(runs_fit(note, 127, 4, CONTENT_WIDTH as nat));
    assert(runs_fit(note, 115, 1, CONTENT_WIDTH as nat));
    assert(runs_fit(note, 103, 8, CONTENT_WIDTH as nat));
    assert(runs_fit(note, 91, 2, CONTENT_WIDTH as nat));
    assert(runs_fit(note, 79, 3, CONTENT_WIDTH as nat));
    assert(runs_fit(note, 67, 4, CONTENT_WIDTH as nat));
    assert(runs_fit(note, 55, 7, CONTENT_WIDTH as nat));
    assert(runs_fit(note, 43, 6, CONTENT_WIDTH as nat));
    assert(runs_fit(note, 31, 2, CONTENT_WIDTH as nat));
    assert(runs_fit(note, 19, 3, CONTENT_WIDTH as nat));
    assert(runs_fit(note, 7, 7, CONTENT_WIDTH as nat));
}

/// The name, domain and note lines of целк- fit the box.
proof fn lemma_texts_fit_at_28()
    ensures
        runs_fit(name_line(spec_root(28)), 0, 0, CONTENT_WIDTH as nat),
        runs_fit(domain_line(spec_root(28)), 0, 0, CONTENT_WIDTH as nat),
        runs_fit(spec_root(28).linguistic_note@, 0, 0, CONTENT_WIDTH as nat),
{
    reveal_strlit("Корень: ");
    reveal_strlit("-  ");
    reveal_strlit("Домен: ");
    reveal_strlit(" · продуктивность ");
    reveal_strlit("целк");
    reveal_strlit("«");
    reveal_strlit("»");
    reveal_strlit("девственная плева");
    reveal_strlit("периферия");
    reveal_strlit("E");
    reveal_strlit("Именной корень со значением 'девственная плева'. Относится к анатомическому слою мата. Не образует глагольных форм. Связан с 'целка' — уничижительное обозначение девственницы.");
    reveal_with_fuel(runs_fit, 14);
    let name = name_line(spec_root(28));
    assert(runs_fit(name, 22, 7, CONTENT_WIDTH as nat));
    assert(runs_fit(name, 10, 2, CONTENT_WIDTH as nat));
    let domain = domain_line(spec_root(28));
    assert(runs_fit(domain, 23, 4, CONTENT_WIDTH as nat));
    assert(runs_fit(domain, 11, 4, CONTENT_WIDTH as nat));
    let note = spec_root(28).linguistic_note@;
    assert(runs_fit(note, 163, 1, CONTENT_WIDTH as nat));
    assert(runs_fit(note, 151, 1, CONTENT_WIDTH as nat));
    assert(runs_fit(note, 139, 4, CONTENT_WIDTH as nat));
    assert(runs_fit(note, 127, 2, CONTENT_WIDTH as nat));
    assert(runs_fit(note, 115, 5, CONTENT_WIDTH as nat));
    assert(runs_fit(note, 103, 4, CONTENT_WIDTH as nat));
    assert(runs_fit(note, 91, 1, CONTENT_WIDTH as nat));
    assert(runs_fit(note, 79, 3, CONTENT_WIDTH as nat));
    assert(runs_fit(note, 67, 6, CONTENT_WIDTH as nat));
    assert(runs_fit(note, 55, 6, CONTENT_WIDTH as nat));
    assert(runs_fit(note, 43, 2, CONTENT_WIDTH as nat));
    assert(runs_fit(note, 31, 3, CONTENT_WIDTH as nat));
    assert(runs_fit(note, 19, 1, CONTENT_WIDTH as nat));
    assert(runs_fit(note, 7, 7, CONTENT_WIDTH as nat));
}

/// The name, domain and note lines of королёвк- fit the box.
proof fn lemma_texts_fit_at_29()
    ensures
        runs_fit(name_line(spec_root(29)), 0, 0, CONTENT_WIDTH as nat),
        runs_fit(domain_line(spec_root(29)), 0, 0, CONTENT_WIDTH as nat),
        runs_fit(spec_root(29).linguistic_note@, 0, 0, CONTENT_WIDTH as nat),
{
    reveal_strlit("Корень: ");
    reveal_strlit("-  ");
    reveal_strlit("Домен: ");
    reveal_strlit(" · продуктивность ");
    reveal_strlit("королёвк");
    reveal_strlit("«");
    reveal_strlit("»");
    reveal_strlit("тип женских гениталий");
    reveal_strlit("периферия");
    reveal_strlit("E");
    reveal_strlit("Именной корень из классификации Плуцера-Сарно. Обозначает тип женских гениталий с крупными половыми губами. Не образует глагольных форм. От 'королёк' — сорт сладкого апельсина.");
    reveal_with_fuel(runs_fit, 14);
    let name = name_line(spec_root(29));
    assert(runs_fit(name, 30, 6, CONTENT_WIDTH as nat));
    assert(runs_fit(name, 18, 0, CONTENT_WIDTH as nat));
    assert(runs_fit(name, 6, 6, CONTENT_WIDTH as nat));
    let domain = domain_line(spec_root(29));
    assert(runs_fit(domain, 23, 4, CONTENT_WIDTH as nat));
    assert(runs_fit(domain, 11, 4, CONTENT_WIDTH as nat));
    let note = spec_root(29).linguistic_note@;
    assert(runs_fit(note, 164, 7, CONTENT_WIDTH as nat));
    assert(runs_fit(note, 152, 0, CONTENT_WIDTH as nat));
    assert(runs_fit(note, 140, 0, CONTENT_WIDTH as nat));
    assert(runs_fit(note, 128, 8, CONTENT_WIDTH as nat));
    assert(runs_fit(note, 116, 5, CONTENT_WIDTH as nat));
    assert(runs_fit(note, 104, 4, CONTENT_WIDTH as nat));
    assert(runs_fit(note, 92, 1, CONTENT_WIDTH as nat));
    assert(runs_fit(note, 80, 0, CONTENT_WIDTH as nat));
    assert(runs_fit(note, 68, 6, CONTENT_WIDTH as nat));
    assert(runs_fit(note, 56, 9, CONTENT_WIDTH as nat));
    assert(runs_fit(note, 44, 12, CONTENT_WIDTH as nat));
    assert(runs_fit(note, 32, 0, CONTENT_WIDTH as nat));
    assert(runs_fit(note, 20, 2, CONTENT_WIDTH as nat));
    assert(runs_fit(note, 8, 0, CONTENT_WIDTH as nat));
}

/// The name, domain and note lines of кун- fit the box.
proof fn lemma_texts_fit_at_30()
    ensures
        runs_fit(name_line(spec_root(30)), 0, 0, CONTENT_WIDTH as nat),
        runs_fit(domain_line(spec_root(30)), 0, 0, CONTENT_WIDTH as nat),
        runs_fit(spec_root(30).linguistic_note@, 0, 0, CONTENT_WIDTH as nat),
{
    reveal_strlit("Корень: ");
    reveal_strlit("-  ");
    reveal_strlit("Домен: ");
    reveal_strlit(" · продуктивность ");
    reveal_strlit("кун");
    reveal_strlit("«");
    reveal_strlit("»");
    reveal_strlit("куннилингус");
    reveal_strlit("периферия");
    reveal_strlit("E");
    reveal_strlit("Именной корень, обозначающий куннилингус. Заимствование из немецкого через медицинский дискурс. Не образует глагольных форм.");
    reveal_with_fuel(runs_fit, 14);
    let name = name_line(spec_root(30));
    assert(runs_fit(name, 15, 1, CONTENT_WIDTH as nat));
    assert(runs_fit(name, 3, 3, CONTENT_WIDTH as nat));
    let domain = domain_line(spec_root(30));
    assert(runs_fit(domain, 23, 4, CONTENT_WIDTH as nat));
    assert(runs_fit(domain, 11, 4, CONTENT_WIDTH as nat));
    let note = spec_root(30).linguistic_note@;
    assert(runs_fit(note, 112, 4, CONTENT_WIDTH as nat));
    assert(runs_fit(note, 100, 1, CONTENT_WIDTH as nat));
    assert(runs_fit(note, 88, 1, CONTENT_WIDTH as nat));
    assert(runs_fit(note, 76, 1, CONTENT_WIDTH as nat));
    assert(runs_fit(note, 64, 5, CONTENT_WIDTH as nat));
    assert(runs_fit(note, 52, 10, CONTENT_WIDTH as nat));
    assert(runs_fit(note, 40, 11, CONTENT_WIDTH as nat));
    assert(runs_fit(note, 28, 12, CONTENT_WIDTH as nat));
    assert(runs_fit(note, 16, 0, CONTENT_WIDTH as nat));
    assert(runs_fit(note, 4, 4, CONTENT_WIDTH as nat));
}

/// The name, domain and note lines of сперм- fit the box.
proof fn lemma_texts_fit_at_31()
    ensures
        runs_fit(name_line(spec_root(31)), 0, 0, CONTENT_WIDTH as nat),
        runs_fit(domain_line(spec_root(31)), 0, 0, CONTENT_WIDTH as nat),
        runs_fit(spec_root(31).linguistic_note@, 0, 0, CONTENT_WIDTH as nat),
{
    reveal_strlit("Корень: ");
    reveal_strlit("-  ");
    reveal_strlit("Домен: ");
    reveal_strlit(" · продуктивность ");
    reveal_strlit("сперм");
    reveal_strlit("«");
    reveal_strlit("»");
    reveal_strlit("сперма");
    reveal_strlit("периферия");
    reveal_strlit("E");
    reveal_strlit("Именной корень со значением 'сперма'. От греческого σπέρμα через медицинскую терминологию. Не образует глагольных форм. Стилистически нейтральный корень.");
    reveal_with_fuel(runs_fit, 14);
    let name = name_line(spec_root(31));
    assert(runs_fit(name, 12, 4, CONTENT_WIDTH as nat));
    let domain = domain_line(spec_root(31));
    assert(runs_fit(domain, 23, 4, CONTENT_WIDTH as nat));
    assert(runs_fit(domain, 11, 4, CONTENT_WIDTH as nat));
    let note = spec_root(31).linguistic_note@;
    assert(runs_fit(note, 141, 7, CONTENT_WIDTH as nat));
    assert(runs_fit(note, 129, 9, CONTENT_WIDTH as nat));
    assert(runs_fit(note, 117, 3, CONTENT_WIDTH as nat));
    assert(runs_fit(note, 105, 2, CONTENT_WIDTH as nat));
    assert(runs_fit(note, 93, 2, CONTENT_WIDTH as nat));
    assert(runs_fit(note, 81, 4, CONTENT_WIDTH as nat));
    assert(runs_fit(note, 69, 4, CONTENT_WIDTH as nat));
    assert(runs_fit(note, 57, 5, CONTENT_WIDTH as nat));
    assert(runs_fit(note, 45, 4, CONTENT_WIDTH as nat));
    assert(runs_fit(note, 33, 5, CONTENT_WIDTH as nat));
    assert(runs_fit(note, 21, 3, CONTENT_WIDTH as nat));
    assert(runs_fit(note, 9, 1, CONTENT_WIDTH as nat));
}

/// The name, domain and note lines of менстр- fit the box.
proof fn lemma_texts_fit_at_32()
    ensures
        runs_fit(name_line(spec_root(32)), 0, 0, CONTENT_WIDTH as nat),
        runs_fit(domain_line(spec_root(32)), 0, 0, CONTENT_WIDTH as nat),
        runs_fit(spec_root(32).linguistic_note@, 0, 0, CONTENT_WIDTH as nat),
{
    reveal_strlit("Корень: ");
    reveal_strlit("-  ");
    reveal_strlit("Домен: ");
    reveal_strlit(" · продуктивность ");
    reveal_strlit("менстр");
    reveal_strlit("«");
    reveal_strlit("»");
    reveal_strlit("менструация");
    reveal_strlit("периферия");
    reveal_strlit("E");
    reveal_strlit("Именной корень со значением 'менструация'. От латинского menstruum. Не образует глагольных форм. Относится к соматическому слою, на границе медицинской и обсценной лексики.");
    reveal_with_fuel(runs_fit, 14);
    let name = name_line(spec_root(32));
    assert(runs_fit(name, 18, 1, CONTENT_WIDTH as nat));
    assert(runs_fit(name, 6, 6, CONTENT_WIDTH as nat));
    let domain = domain_line(spec_root(32));
    assert(runs_fit(domain, 23, 4, CONTENT_WIDTH as nat));
    assert(runs_fit(domain, 11, 4, CONTENT_WIDTH as nat));
    let note = spec_root(32).linguistic_note@;
    assert(runs_fit(note, 160, 6, CONTENT_WIDTH as nat));
    assert(runs_fit(note, 148, 8, CONTENT_WIDTH as nat));
    assert(runs_fit(note, 136, 4, CONTENT_WIDTH as nat));
    assert(runs_fit(note, 124, 1, CONTENT_WIDTH as nat));
    assert(runs_fit(note, 112, 3, CONTENT_WIDTH as nat));
    assert(runs_fit(note, 100, 3, CONTENT_WIDTH as nat));
    assert(runs_fit(note, 88, 8, CONTENT_WIDTH as nat));
    assert(runs_fit(note, 76, 5, CONTENT_WIDTH as nat));
    assert(runs_fit(note, 64, 7, CONTENT_WIDTH as nat));
    assert(runs_fit(note, 52, 6, CONTENT_WIDTH as nat));
    assert(runs_fit(note, 40, 12, CONTENT_WIDTH as nat));
    assert(runs_fit(note, 28, 0, CONTENT_WIDTH as nat));
    assert(runs_fit(note, 16, 1, CONTENT_WIDTH as nat));
    assert(runs_fit(note, 4, 4, CONTENT_WIDTH as nat));
}

/// The name, domain and note lines of минет- fit the box.
proof fn lemma_texts_fit_at_33()
    ensures
        runs_fit(name_line(spec_root(33)), 0, 0, CONTENT_WIDTH as nat),
        runs_fit(domain_line(spec_root(33)), 0, 0, CONTENT_WIDTH as nat),
        runs_fit(spec_root(33).linguistic_note@, 0, 0, CONTENT_WIDTH as nat),
{
    reveal_strlit("Корень: ");
    reveal_strlit("-  ");
    reveal_strlit("Домен: ");
    reveal_strlit(" · продуктивность ");
    reveal_strlit("минет");
    reveal_strlit("«");
    reveal_strlit("»");
    reveal_strlit("фелляция");
    reveal_strlit("периферия");
    reveal_strlit("E");
    reveal_strlit("Именной корень, обозначающий фелляцию. Заимствование из французского (la minette, 'кошечка'). Не образует глагольных форм. Преимущественно именной.");
    reveal_with_fuel(runs_fit, 14);
    let name = name_line(spec_root(33));
    assert(runs_fit(name, 14, 6, CONTENT_WIDTH as nat));
    assert(runs_fit(name, 2, 2, CONTENT_WIDTH as nat));
    let domain = domain_line(spec_root(33));
    assert(runs_fit(domain, 23, 4, CONTENT_WIDTH as nat));
    assert(runs_fit(domain, 11, 4, CONTENT_WIDTH as nat));
    let note = spec_root(33).linguistic_note@;
    assert(runs_fit(note, 135, 12, CONTENT_WIDTH as nat));
    assert(runs_fit(note, 123, 0, CONTENT_WIDTH as nat));
    assert(runs_fit(note, 111, 5, CONTENT_WIDTH as nat));
    assert(runs_fit(note, 99, 2, CONTENT_WIDTH as nat));
    assert(runs_fit(note, 87, 5, CONTENT_WIDTH as nat));
    assert(runs_fit(note, 75, 2, CONTENT_WIDTH as nat));
    assert(runs_fit(note, 63, 7, CONTENT_WIDTH as nat));
    assert(runs_fit(note, 51, 12, CONTENT_WIDTH as nat));
    assert(runs_fit(note, 39, 0, CONTENT_WIDTH as nat));
    assert(runs_fit(note, 27, 11, CONTENT_WIDTH as nat));
    assert(runs_fit(note, 15, 7, CONTENT_WIDTH as nat));
    assert(runs_fit(note, 3, 3, CONTENT_WIDTH as nat));
}

/// The name, domain and note lines of гондон- fit the box.
proof fn lemma_texts_fit_at_34()
    ensures
        runs_fit(name_line(spec_root(34)), 0, 0, CONTENT_WIDTH as nat),
        runs_fit(domain_line(spec_root(34)), 0, 0, CONTENT_WIDTH as nat),
        runs_fit(spec_root(34).linguistic_note@, 0, 0, CONTENT_WIDTH as nat),
{
    reveal_strlit("Корень: ");
    reveal_strlit("-  ");
    reveal_strlit("Домен: ");
    reveal_strlit(" · продуктивность ");
    reveal_strlit("гондон");
    reveal_strlit("«");
    reveal_strlit("»");
    reveal_strlit("презерватив");
    reveal_strlit("периферия");
    reveal_strlit("E");
    reveal_strlit("Именной корень со значением 'презерватив'. Французское заимствование (condom). В переносном значении — 'противный, надоедливый человек'. Не образует глагольных форм.");
    reveal_with_fuel(runs_fit, 14);
    let name = name_line(spec_root(34));
    assert(runs_fit(name, 18, 1, CONTENT_WIDTH as nat));
    assert(runs_fit(name, 6, 6, CONTENT_WIDTH as nat));
    let domain = domain_line(spec_root(34));
    assert(runs_fit(domain, 23, 4, CONTENT_WIDTH as nat));
    assert(runs_fit(domain, 11, 4, CONTENT_WIDTH as nat));
    let note = spec_root(34).linguistic_note@;
    assert(runs_fit(note, 153, 4, CONTENT_WIDTH as nat));
    assert(runs_fit(note, 141, 1, CONTENT_WIDTH as nat));
    assert(runs_fit(note, 129, 2, CONTENT_WIDTH as nat));
    assert(runs_fit(note, 117, 2, CONTENT_WIDTH as nat));
    assert(runs_fit(note, 105, 2, CONTENT_WIDTH as nat));
    assert(runs_fit(note, 93, 1, CONTENT_WIDTH as nat));
    assert(runs_fit(note, 81, 0, CONTENT_WIDTH as nat));
    assert(runs_fit(note, 69, 0, CONTENT_WIDTH as nat));
    assert(runs_fit(note, 57, 2, CONTENT_WIDTH as nat));
    assert(runs_fit(note, 45, 2, CONTENT_WIDTH as nat));
    assert(runs_fit(note, 33, 5, CONTENT_WIDTH as nat));
    assert(runs_fit(note, 21, 3, CONTENT_WIDTH as nat));
    assert(runs_fit(note, 9, 1, CONTENT_WIDTH as nat));
}

/// The name, domain and note lines of every root of the inventory fit the
/// box.
proof fn lemma_root_texts_fit(i: usize)
    requires
        i < ROOT_COUNT,
    ensures
        runs_fit(name_line(spec_root(i)), 0, 0, CONTENT_WIDTH as nat),
        runs_fit(domain_line(spec_root(i)), 0, 0, CONTENT_WIDTH as nat),
        runs_fit(spec_root(i).linguistic_note@, 0, 0, CONTENT_WIDTH as nat),
{
    if i == 0 {
        lemma_texts_fit_at_0();
    } else if i == 1 {
        lemma_texts_fit_at_1();
    } else if i == 2 {
        lemma_texts_fit_at_2();
    } else if i == 3 {
        lemma_texts_fit_at_3();
    } else if i == 4 {
        lemma_texts_fit_at_4();
    } else if i == 5 {
        lemma_texts_fit_at_5();
    } else if i == 6 {
        lemma_texts_fit_at_6();
    } else if i == 7 {
        lemma_texts_fit_at_7();
    } else if i == 8 {
        lemma_texts_fit_at_8();
    } else if i == 9 {
        lemma_texts_fit_at_9();
    } else if i == 10 {
        lemma_texts_fit_at_10();
    } else if i == 11 {
        lemma_texts_fit_at_11();
    } else if i == 12 {
        lemma_texts_fit_at_12();
    } else if i == 13 {
        lemma_texts_fit_at_13();
    } else if i == 14 {
        lemma_texts_fit_at_14();
    } else if i == 15 {
        lemma_texts_fit_at_15();
    } else if i == 16 {
        lemma_texts_fit_at_16();
    } else if i == 17 {
        lemma_texts_fit_at_17();
    } else if i == 18 {
        lemma_texts_fit_at_18();
    } else if i == 19 {
        lemma_texts_fit_at_19();
    } else if i == 20 {
        lemma_texts_fit_at_20();
    } else if i == 21 {
        lemma_texts_fit_at_21();
    } else if i == 22 {
        lemma_texts_fit_at_22();
    } else if i == 23 {
        lemma_texts_fit_at_23();
    } else if i == 24 {
        lemma_texts_fit_at_24();
    } else if i == 25 {
        lemma_texts_fit_at_25();
    } else if i == 26 {
        lemma_texts_fit_at_26();
    } else if i == 27 {
        lemma_texts_fit_at_27();
    } else if i == 28 {
        lemma_texts_fit_at_28();
    } else if i == 29 {
        lemma_texts_fit_at_29();
    } else if i == 30 {
        lemma_texts_fit_at_30();
    } else if i == 31 {
        lemma_texts_fit_at_31();
    } else if i == 32 {
        lemma_texts_fit_at_32();
    } else if i == 33 {
        lemma_texts_fit_at_33();
    } else {
        lemma_texts_fit_at_34();
    }
}


/// The box of every root of the inventory is aligned: every frame line is
/// 46 characters wide, whatever the example below it, when the samples are
/// words that fit the box with a comma after them.
pub proof fn law_box_aligned_for_short_samples(
    i: usize,
    samples: Seq<Seq<char>>,
    example: Option<VerbFormView>,
)
    requires
        i < ROOT_COUNT,
        samples_fit(samples),
    ensures
        spec_format_random(spec_root(i), samples, example) == lines_text(
            box_lines(spec_root(i), samples),
        ) + example_part(spec_root(i), example),
        forall|j: int|
            0 <= j < box_lines(spec_root(i), samples).len() ==> (#[trigger] box_lines(
                spec_root(i),
                samples,
            )[j]).len() == CONTENT_WIDTH + 6,
{
    let rd = spec_root(i);
    lemma_root_texts_fit(i);
    lemma_root_wf(i);
    lemma_classes_fit(rd);
    lemma_samples_fit(rd, samples);
    assert(runs_fit("Заметка:"@, 0, 0, CONTENT_WIDTH as nat)) by {
        reveal_strlit("Заметка:");
        reveal_with_fuel(runs_fit, 10);
    }
    lemma_fits_box(name_line(rd));
    lemma_fits_box(domain_line(rd));
    lemma_fits_box("Суффиксальные классы: "@ + suffix_classes_text(rd));
    lemma_fits_box(samples_text(rd, samples));
    lemma_fits_box("Заметка:"@);
    lemma_fits_box(rd.linguistic_note@);
    law_random_box_aligned(rd, samples, example);
}


/// The box that `random` and `root-of-the-day` show for any root of the
/// inventory, with the root's own sample forms and example, is aligned:
/// every frame line is 46 characters wide.
pub proof fn law_inventory_boxes_aligned(i: usize)
    requires
        i < ROOT_COUNT,
    ensures
        spec_format_random(
            spec_root(i),
            spec_sample_forms(spec_root(i).name@),
            spec_example_form(spec_root(i).name@),
        ) == lines_text(box_lines(spec_root(i), spec_sample_forms(spec_root(i).name@)))
            + example_part(spec_root(i), spec_example_form(spec_root(i).name@)),
        forall|j: int|
            0 <= j < box_lines(spec_root(i), spec_sample_forms(spec_root(i).name@)).len() ==> (
            #[trigger] box_lines(spec_root(i), spec_sample_forms(spec_root(i).name@))[j]).len()
                == CONTENT_WIDTH + 6,
{
    let samples = spec_sample_forms(spec_root(i).name@);
    lemma_samples_short(i);
    assert forall|k: int| 0 <= k < samples.len() implies is_word(#[trigger] samples[k])
        && samples[k].len() + 1 <= CONTENT_WIDTH by {
        assert(short_word(samples[k], 17));
    }
    law_box_aligned_for_short_samples(i, samples, spec_example_form(spec_root(i).name@));
}

} // verus!
