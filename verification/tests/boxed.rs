use matcraft::display::format_random;
use matcraft::paradigm::example_form;
use matcraft::roots::root_data;

#[test]
fn boxed_test_format_random_contains_root_name() {
    let rd = root_data("еб").unwrap();
    let example = example_form(&rd);
    let output = format_random(&rd, &["ебать", "ебнуть"], example.as_ref());
    assert!(output.contains("еб-"), "root name: {output}");
    assert!(output.contains("═"), "box borders");
    assert!(output.contains("Заметка:"), "note section");
    assert!(
        output.contains("«совокупляться»"),
        "Russian gloss: {output}"
    );
}

#[test]
fn test_format_random_has_example_block() {
    let rd = root_data("еб").unwrap();
    let example = example_form(&rd);
    let output = format_random(&rd, &["ебать"], example.as_ref());
    assert!(
        output.contains("Пример разбора:"),
        "example section: {output}"
    );
    assert!(
        output.contains("разбор   :"),
        "form block present: {output}"
    );
}

#[test]
fn boxed_test_format_random_empty_forms() {
    let rd = root_data("манд").unwrap();
    let output = format_random(&rd, &[], None);
    assert!(output.contains("именной корень"), "{output}");
    assert!(
        output.contains("нет засвидетельствованных форм"),
        "no-example honest note: {output}"
    );
}

#[test]
fn test_format_random_verb_root_no_samples() {
    // хуй- has verb classes but no Common forms post-grounding.
    let rd = root_data("хуй").unwrap();
    let output = format_random(&rd, &[], None);
    assert!(output.contains("не указаны"), "{output}");
}

#[test]
fn test_format_random_group_5() {
    let rd = root_data("сиповк").unwrap();
    let output = format_random(&rd, &[], None);
    assert!(output.contains("именной корень"), "{output}");
}

#[test]
fn test_format_random_box_lines_equal_width() {
    // The box is aligned only if every frame line — top/bottom border,
    // separator, blank line, and all content lines — has the same char count.
    // The breakdown block below the box is NOT part of the frame, so the width
    // check is applied only to lines that begin with a box-drawing character.
    for name in ["еб", "манд", "хуй", "сиповк", "говн", "хар", "елд"] {
        let rd = root_data(name).unwrap();
        let example = example_form(&rd);
        for samples in [Vec::new(), vec!["ебать", "ебнуть"]] {
            let output = format_random(&rd, &samples, example.as_ref());
            let widths: Vec<usize> = output
                .lines()
                .filter(|l| {
                    l.starts_with('║')
                        || l.starts_with('╔')
                        || l.starts_with('╠')
                        || l.starts_with('╚')
                })
                .map(|l| l.chars().count())
                .collect();
            let first = widths[0];
            assert!(
                widths.iter().all(|&w| w == first),
                "all box lines must share one width for root {name} \
                 (samples={samples:?}): got {widths:?}"
            );
        }
    }
}
