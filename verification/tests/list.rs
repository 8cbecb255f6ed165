use matcraft::display::format_list_roots;
use matcraft::morpheme::Mode;

#[test]
fn test_format_list_roots_classic_contains_eb() {
    let output = format_list_roots(Mode::Classic);
    assert!(output.contains("еб"), "Output should contain еб root");
    assert!(output.contains("корней"), "root count word in Russian");
    assert!(output.contains("9"), "Classic mode should show 9 roots");
}

#[test]
fn test_format_list_roots_full_contains_35() {
    let output = format_list_roots(Mode::Full);
    assert!(output.contains("35"), "Full mode should show 35 roots");
}

#[test]
fn test_format_list_roots_full_contains_domain_headers() {
    let output = format_list_roots(Mode::Full);
    assert!(output.contains("Ядро"), "Nuclear header");
    assert!(output.contains("Экскреторная"), "Excretory header");
    assert!(output.contains("Периферия"), "Peripheral header");
}

#[test]
fn test_format_list_roots_shows_productivity_and_type() {
    // Format migration: productivity now sits in the "домен · класс · тип"
    // triple rather than a "[A]" marker.
    let output = format_list_roots(Mode::Full);
    assert!(
        output.contains("ядро · A · глагольный"),
        "еб- line shows domain · class · verbal type: {output}"
    );
}

#[test]
fn test_format_list_roots_shows_russian_gloss_not_english() {
    let output = format_list_roots(Mode::Classic);
    assert!(
        output.contains("«совокупляться»"),
        "Russian gloss shown: {output}"
    );
    assert!(
        !output.contains("fuck, copulate"),
        "English gloss must not leak into output: {output}"
    );
}

#[test]
fn test_format_list_roots_full_shows_noun_only_marker() {
    let output = format_list_roots(Mode::Full);
    assert!(
        output.contains("только именной"),
        "noun-only roots marked: {output}"
    );
}

#[test]
fn test_format_list_roots_flags_unattested_verbal_root() {
    // хуй- is verbal (-ну- surrogate) but every form is Possible post-grounding
    // → must carry the honest no-attested-forms flag.
    let output = format_list_roots(Mode::Full);
    assert!(
        output.contains("нет засвидетельствованных форм"),
        "an all-possible verbal root should be flagged: {output}"
    );
}
