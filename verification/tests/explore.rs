use matcraft::display::format_explore;
use matcraft::paradigm::explore;

#[test]
fn test_format_explore_header_has_russian_gloss() {
    let result = explore("еб", None).expect("еб should be valid");
    let output = format_explore(&result);
    assert!(output.contains("Корень: еб-"), "root name: {output}");
    assert!(
        output.contains("«совокупляться»"),
        "header shows the Russian gloss, not English: {output}"
    );
    assert!(
        !output.contains("fuck, copulate"),
        "English gloss must not appear in output: {output}"
    );
}

#[test]
fn test_format_explore_shows_domain_and_productivity() {
    let result = explore("еб", None).expect("еб should be valid");
    let output = format_explore(&result);
    assert!(output.contains("Домен: ядро"), "{output}");
    assert!(output.contains("продуктивность A"), "{output}");
}

#[test]
fn test_format_explore_has_legend_and_note() {
    let result = explore("еб", None).expect("еб should be valid");
    let output = format_explore(&result);
    assert!(output.contains("Легенда:"), "legend present: {output}");
    assert!(
        output.contains("имперфектив"),
        "suffix gloss in legend: {output}"
    );
    assert!(
        output.contains("Заметка:"),
        "linguistic note shown: {output}"
    );
}

#[test]
fn test_format_explore_has_ending_columns() {
    let result = explore("еб", None).expect("еб should be valid");
    let output = format_explore(&result);
    assert!(output.contains("Инфинитив"), "{output}");
    assert!(output.contains("Прош. -л"), "past column: {output}");
    assert!(output.contains("Наст. 3л"), "present column: {output}");
    // The actual past/present forms are now visible (were hidden before).
    assert!(output.contains("ебал"), "past form ебал visible: {output}");
    assert!(
        output.contains("ебёт"),
        "present form ебёт visible: {output}"
    );
}

#[test]
fn explore_test_format_explore_contains_suffix_sections() {
    let result = explore("еб", None).expect("еб should be valid");
    let output = format_explore(&result);
    assert!(output.contains("Суффикс"), "{output}");
}

#[test]
fn test_format_explore_filtered_appends_form_blocks() {
    // Scenario 1: explore сса --suffix -ну- → short table + block for осснуть.
    let result = explore("сса", Some("ну")).expect("сса should be valid");
    let output = format_explore(&result);
    assert!(output.contains("Разбор форм:"), "detail section: {output}");
    assert!(
        output.contains("осснуть  ·  possible"),
        "осснуть block: {output}"
    );
    assert!(
        output.contains("разбор   : о-/об- + сса- + -ну- + -ть"),
        "{output}"
    );
    assert!(output.contains("корень сса- «мочиться»"), "{output}");
}

#[test]
fn test_format_explore_full_paradigm_has_no_detail_blocks() {
    // No filter → overview table only, no per-form breakdown blocks.
    let result = explore("еб", None).expect("еб should be valid");
    let output = format_explore(&result);
    assert!(
        !output.contains("Разбор форм:"),
        "full paradigm must stay a table, no detail blocks: {output}"
    );
}

#[test]
fn explore_test_format_explore_empty_forms_message() {
    let result = explore("манд", None).expect("манд should be valid");
    let output = format_explore(&result);
    assert!(
        output.contains("Глагольная парадигма отсутствует"),
        "{output}"
    );
    assert!(!output.contains("v0.5"), "message must be version-neutral");
}

#[test]
fn test_format_explore_verbal_root_empty_filter_not_noun_only() {
    let result = explore("еб", Some("бред")).expect("еб should be valid");
    assert!(result.forms.is_empty());
    let output = format_explore(&result);
    assert!(output.contains("Нет форм по заданному фильтру"), "{output}");
    assert!(!output.contains("именной корень"), "{output}");
}

#[test]
fn test_format_explore_group_5_noun_only() {
    let result = explore("сиповк", None).expect("сиповк should be valid");
    let output = format_explore(&result);
    assert!(
        output.contains("Глагольная парадигма отсутствует"),
        "{output}"
    );
}

#[test]
fn explore_test_format_explore_for_sra_contains_sra() {
    let result = explore("сра", None).expect("сра should be valid");
    let output = format_explore(&result);
    assert!(output.contains("сра-"), "{output}");
}

#[test]
fn explore_test_format_explore_for_pizd_has_ei_section() {
    let result = explore("пизд", None).expect("пизд should be valid");
    let output = format_explore(&result);
    assert!(output.contains("-е-"), "{output}");
    assert!(output.contains("пиздеть"), "{output}");
    assert!(output.contains("-и-"), "{output}");
}

#[test]
fn test_format_explore_droch_has_i_section() {
    let result = explore("дроч", None).expect("дроч should be valid");
    let output = format_explore(&result);
    assert!(output.contains("-и-"), "{output}");
    assert!(output.contains("дрочить"), "{output}");
}
