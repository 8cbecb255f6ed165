use matcraft::commands::{
    explore_command, format_generated, generate_command, random_command, root_of_the_day_command,
    strip_trailing_hyphen,
};
use matcraft::display::format_list_roots;
use matcraft::morpheme::Mode;
use matcraft::paradigm::generate;

/// The number of breakdown blocks in a command's text: one `разбор   :` line each.
fn block_count(text: &str) -> usize {
    text.lines().filter(|l| l.contains("разбор   :")).count()
}

#[test]
fn strip_trailing_hyphen_drops_one_hyphen() {
    assert_eq!(strip_trailing_hyphen("еб-"), "еб");
    assert_eq!(strip_trailing_hyphen("еб"), "еб");
    assert_eq!(strip_trailing_hyphen("еб--"), "еб-");
    assert_eq!(strip_trailing_hyphen(""), "");
    assert_eq!(strip_trailing_hyphen("-"), "");
}

#[test]
fn explore_known_root_renders_paradigm() {
    let out = explore_command("еб", None).expect("еб explores");
    for part in [
        "Корень: еб-",
        "«совокупляться»",
        "продуктивность A",
        "Легенда:",
        "Инфинитив",
        "Наст. 3л",
        "Суффикс",
    ] {
        assert!(out.contains(part), "{part}: {out}");
    }
}

#[test]
fn explore_strips_trailing_hyphen() {
    let out = explore_command("еб-", None).expect("еб- explores");
    assert!(out.contains("Корень: еб-"), "{out}");
    assert_eq!(out, explore_command("еб", None).unwrap());
}

#[test]
fn explore_unknown_root_fails_on_stderr() {
    let err = explore_command("zzz", None).unwrap_err();
    assert!(!err.is_empty());
    assert!(err.starts_with("Корень 'zzz' не найден. Доступные корни: еб, пизд, хуй,"), "{err}");
    assert!(err.ends_with("гондон. Используйте `matcraft list-roots` для полного списка."), "{err}");
}

#[test]
fn explore_nominal_only_root_reports_no_verbal_paradigm() {
    let out = explore_command("манд", None).expect("манд explores");
    assert!(out.contains("Глагольная парадигма отсутствует"), "{out}");
}

#[test]
fn generate_count_over_100_fails_on_stderr() {
    let err = generate_command(Mode::Classic, None, 101).unwrap_err();
    assert!(err.contains("не может превышать 100"), "{err}");
    assert_eq!(err, "Ошибка: количество не может превышать 100.");
}

#[test]
fn generate_count_100_is_allowed() {
    let out = generate_command(Mode::Classic, None, 100).expect("ok");
    assert_eq!(block_count(&out), 100);
}

#[test]
fn generate_count_zero_clamps_to_one() {
    let out = generate_command(Mode::Classic, None, 0).expect("ok");
    assert_eq!(block_count(&out), 1);
}

#[test]
fn generate_unknown_root_fails_on_stderr() {
    let err = generate_command(Mode::Classic, Some("zzz"), 1).unwrap_err();
    assert!(err.contains("не найден"), "{err}");
    assert_eq!(err, "Ошибка: корень 'zzz' не найден.");
}

#[test]
fn generate_strips_trailing_hyphen() {
    let out = generate_command(Mode::Classic, Some("еб-"), 1).expect("ok");
    assert_eq!(block_count(&out), 1);
}

#[test]
fn random_classic_renders_box() {
    let out = random_command(Mode::Classic);
    assert!(out.contains("╔"), "{out}");
    assert!(out.contains("Заметка:"), "{out}");
    assert!(out.contains("Пример разбора:"), "{out}");
}

#[test]
fn random_full_renders_box() {
    let out = random_command(Mode::Full);
    assert!(out.contains("╔"), "{out}");
    assert!(out.contains("Заметка:"), "{out}");
    assert!(out.contains("Пример разбора:"), "{out}");
}

#[test]
fn random_never_panics_over_repeated_runs() {
    for _ in 0..10 {
        let out = random_command(Mode::Classic);
        assert!(!out.is_empty());
    }
}

#[test]
fn list_roots_classic_reports_nine() {
    let out = format_list_roots(Mode::Classic);
    assert!(out.contains("Доступные корни (9)"), "{out}");
}

#[test]
fn list_roots_full_reports_thirtyfive_and_domains() {
    let out = format_list_roots(Mode::Full);
    for part in ["Все корни (35)", "Ядро", "Экскреторная", "Периферия"] {
        assert!(out.contains(part), "{part}: {out}");
    }
}

#[test]
fn explore_e_i_class_root() {
    let out = explore_command("пизд", None).expect("пизд explores");
    for part in ["-е-", "пиздеть", "-и-"] {
        assert!(out.contains(part), "{part}: {out}");
    }
}

#[test]
fn generate_root_count_three() {
    let out = generate_command(Mode::Classic, Some("еб"), 3).expect("ok");
    assert_eq!(block_count(&out), 3);
}

#[test]
fn generate_noun_only_root_reports_message_and_exits_zero() {
    let out = generate_command(Mode::Classic, Some("манд"), 1).expect("ok");
    assert!(out.contains("именной корень"), "{out}");
    assert!(out.contains("глагольных форм нет"), "{out}");
    assert_eq!(out, "именной корень «манд-»: глагольных форм нет");
}

#[test]
fn generate_verb_root_still_produces_forms() {
    let out = generate_command(Mode::Classic, Some("еб"), 1).expect("ok");
    assert!(!out.contains("глагольных форм нет"), "{out}");
    assert!(out.trim().contains("еб"), "{out}");
}

#[test]
fn explore_suffix_value_and_display_agree() {
    let a = explore_command("еб", Some("-ну-")).expect("ok");
    let b = explore_command("еб", Some("ну")).expect("ok");
    assert_eq!(a, b);
    assert!(a.contains("Разбор форм:"), "{a}");
}

#[test]
fn explore_verbal_root_nonmatching_filter_is_not_noun_only() {
    let out = explore_command("еб", Some("-бред-")).expect("ok");
    assert!(out.contains("Нет форм по заданному фильтру"), "{out}");
    assert!(!out.contains("именной корень"), "{out}");
}

#[test]
fn root_of_the_day_classic_renders_box() {
    let out = root_of_the_day_command(Mode::Classic, 20_000);
    assert!(out.contains("╔"), "{out}");
    assert!(out.contains("Заметка:"), "{out}");
    assert!(out.contains("Пример разбора:"), "{out}");
}

#[test]
fn root_of_the_day_full_renders_box() {
    let out = root_of_the_day_command(Mode::Full, 20_000);
    assert!(out.contains("╔"), "{out}");
    assert!(out.contains("Заметка:"), "{out}");
    assert!(out.contains("Пример разбора:"), "{out}");
}

#[test]
fn root_of_the_day_is_deterministic_within_a_day() {
    for day in [0u64, 1, 20_000, 123_456] {
        assert_eq!(
            root_of_the_day_command(Mode::Classic, day),
            root_of_the_day_command(Mode::Classic, day)
        );
    }
}

#[test]
fn format_generated_separates_blocks_by_blank_lines() {
    let forms = generate(Mode::Full, Some("еб"), 2);
    let out = format_generated(&forms);
    assert_eq!(block_count(&out), 2);
    assert!(out.contains("\n\n"), "{out}");
    assert!(out.ends_with('\n'));
    let empty: Vec<matcraft::paradigm::GeneratedForm> = Vec::new();
    assert_eq!(format_generated(&empty), "");
}

#[test]
fn format_root_display_of_eb() {
    let rd = matcraft::roots::root_data("еб").unwrap();
    let out = matcraft::commands::format_root_display(&rd);
    assert!(out.starts_with("╔"), "{out}");
    assert!(out.contains("║  Корень: еб- «совокупляться»               ║\n"), "{out}");
    assert!(out.contains("║  Примеры: ебать, ебнуть, выебать           ║\n"), "{out}");
    assert!(out.contains("\nПример разбора:\nебать  ·  common\n"), "{out}");
}

#[test]
fn format_root_display_of_a_noun_only_root() {
    let rd = matcraft::roots::root_data("манд").unwrap();
    let out = matcraft::commands::format_root_display(&rd);
    assert!(out.contains("║  Примеры: именной корень (нет глагольных   ║\n║  форм)"), "{out}");
    assert!(out.ends_with("\nПример разбора: нет засвидетельствованных форм уровня common.\n"), "{out}");
}
