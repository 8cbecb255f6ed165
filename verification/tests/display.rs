use matcraft::display::{attestation_reason, format_explore, format_list_roots, format_random, wrap_text};
use matcraft::morpheme::{Attestation, Mode};
use matcraft::paradigm::explore;
use matcraft::roots::root_data;

#[test]
fn mod_test_wrap_text_short() {
    let result = wrap_text("Короткий текст", 40);
    assert_eq!(result.len(), 1);
    assert_eq!(result[0], "Короткий текст");
}

#[test]
fn mod_test_wrap_text_long() {
    let text = "а б в г д е ё ж з и й к л м н о п р с т у ф х ц ч ш щ ъ ы ь э ю я";
    let result = wrap_text(text, 20);
    assert!(
        result.len() > 1,
        "Long text should be split into multiple lines"
    );
    for line in &result {
        // Measured in characters (the fix): a Cyrillic line must fit the
        // char-column width, not the byte width.
        assert!(
            line.chars().count() <= 20,
            "Each line should fit width in characters"
        );
    }
}

#[test]
fn test_wrap_text_fills_to_char_width() {
    // Regression for the byte-vs-char bug: with char counting, a line of
    // Cyrillic words packs close to the width instead of ~half of it.
    let text = "аб вг де жз ик лм но пр ст уф хц чш";
    let result = wrap_text(text, 20);
    assert!(
        result.iter().any(|l| l.chars().count() > 10),
        "char-based wrapping should pack more than ~10 chars per line"
    );
}

#[test]
fn test_attestation_reason_distinct_per_level() {
    // The four "why" phrasings must be distinct — a form block relies on the
    // level's reason being specific to it.
    let reasons = [
        attestation_reason(Attestation::Common),
        attestation_reason(Attestation::Rare),
        attestation_reason(Attestation::Possible),
        attestation_reason(Attestation::Impossible),
    ];
    for i in 0..reasons.len() {
        for j in (i + 1)..reasons.len() {
            assert_ne!(reasons[i], reasons[j], "reasons must be distinct");
        }
    }
}

#[test]
fn test_format_explore_contains_root() {
    let result = explore("еб", None).expect("еб should be valid");
    let output = format_explore(&result);
    assert!(output.contains("еб-"), "Output should contain root name");
    assert!(
        output.contains("common"),
        "Output should contain attestation labels"
    );
}

#[test]
fn display_test_format_explore_contains_suffix_sections() {
    let result = explore("еб", None).expect("еб should be valid");
    let output = format_explore(&result);
    assert!(
        output.contains("Суффикс"),
        "Output should contain suffix sections"
    );
}

#[test]
fn test_format_list_roots_contains_eb() {
    let output = format_list_roots(Mode::Classic);
    assert!(output.contains("еб"), "Output should contain еб root");
    assert!(
        output.contains("корней"),
        "Output should contain root count in Russian"
    );
}

#[test]
fn display_test_format_random_contains_root_name() {
    let rd = root_data("еб").unwrap();
    let samples = vec!["ебать", "ебнуть"];
    let output = format_random(&rd, &samples, None);
    assert!(
        output.contains("еб-"),
        "Random output should contain root name"
    );
    assert!(
        output.contains("═"),
        "Random output should have box borders"
    );
    assert!(
        output.contains("Заметка:"),
        "Random output should have note section"
    );
}

#[test]
fn display_test_wrap_text_short() {
    let result = wrap_text("Короткий текст", 40);
    assert_eq!(result.len(), 1);
    assert_eq!(result[0], "Короткий текст");
}

#[test]
fn display_test_format_explore_for_sra_contains_sra() {
    let result = explore("сра", None).expect("сра should be valid");
    let output = format_explore(&result);
    assert!(
        output.contains("сра-"),
        "Output should contain root name сра-"
    );
}

#[test]
fn test_format_list_roots_shows_all_9() {
    let output = format_list_roots(Mode::Classic);
    assert!(output.contains("9 корней"), "Output should say '9 корней'");
    assert!(output.contains("еб"), "Output should contain еб");
    assert!(output.contains("сра"), "Output should contain сра");
    assert!(output.contains("пизд"), "Output should contain пизд");
    assert!(output.contains("хуй"), "Output should contain хуй");
}
