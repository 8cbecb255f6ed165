use matcraft::display::{format_explore, format_list_roots, format_random, wrap_text};
use matcraft::morpheme::{Attestation, Mode, ending_by_val, ending_val, suffix_index_for_val, suffix_val};
use matcraft::paradigm::{
    example_form, explore, generate, list_roots, pool_size, root_of_the_day, sample_forms,
    select_root,
};
use matcraft::generator::guess_gender;
use matcraft::morpheme::prefix_display;
use matcraft::roots::{all_roots, lookup_attestation, root_data};

#[test]
fn law_paradigm_size_on_concrete_roots() {
    // 18 prefixes × 3 endings per suffix class.
    assert_eq!(explore("еб", None).unwrap().forms.len(), 18 * 3 * 2);
    assert_eq!(explore("пизд", None).unwrap().forms.len(), 18 * 3 * 3);
    assert_eq!(explore("хуй", None).unwrap().forms.len(), 18 * 3);
    assert_eq!(explore("манд", None).unwrap().forms.len(), 0);
    for rd in all_roots() {
        let n = explore(rd.name, None).unwrap().forms.len();
        assert_eq!(n, 54 * rd.suffix_indices.len(), "{}", rd.name);
    }
}

#[test]
fn law_filtered_forms_carry_the_filtered_suffix() {
    for filter in ["-е-", "е"] {
        let result = explore("пизд", Some(filter)).unwrap();
        assert_eq!(result.forms.len(), 54);
        assert!(result.forms.iter().all(|f| f.suffix_val == "е"));
    }
    assert!(explore("пизд", Some("а")).unwrap().forms.is_empty());
}

#[test]
fn law_filter_by_value_or_display_agree() {
    for rd in all_roots() {
        for s in 0..4 {
            let by_val: Vec<String> = explore(rd.name, Some(suffix_val(s)))
                .unwrap()
                .forms
                .iter()
                .map(|f| f.form.clone())
                .collect();
            let by_display: Vec<String> =
                explore(rd.name, Some(matcraft::morpheme::suffix_display(s)))
                    .unwrap()
                    .forms
                    .iter()
                    .map(|f| f.form.clone())
                    .collect();
            assert_eq!(by_val, by_display, "{} {}", rd.name, s);
        }
    }
}

#[test]
fn law_mode_pools_on_the_inventory() {
    let all: Vec<&str> = all_roots().iter().map(|r| r.name).collect();
    assert_eq!(list_roots(Mode::Full), all);
    let classic: Vec<&str> = all_roots()
        .iter()
        .filter(|r| Mode::Classic.includes(r))
        .map(|r| r.name)
        .collect();
    assert_eq!(list_roots(Mode::Classic), classic);
    assert_eq!(
        classic,
        vec!["еб", "пизд", "хуй", "бляд", "муд", "манд", "елд", "сра", "сса"]
    );
}

#[test]
fn law_generate_never_draws_impossible_and_keeps_the_root() {
    let forms = generate(Mode::Full, Some("еб"), 100);
    assert_eq!(forms.len(), 100);
    for gf in &forms {
        assert_ne!(gf.form.attestation, Attestation::Impossible);
        assert_eq!(gf.root.name, "еб");
    }
    // The pool of еб- has 108 forms: 100 draws are all distinct positions.
    let mut words: Vec<(&str, &str, &str)> = forms
        .iter()
        .map(|g| (g.form.prefix_display, g.form.suffix_val, g.form.ending_val))
        .collect();
    words.sort();
    words.dedup();
    assert_eq!(words.len(), 100);
}

#[test]
fn generate_order_is_shuffled() {
    // With an unshuffled pool every single draw would be the first form.
    let first = explore("еб", None).unwrap().forms[0].form.clone();
    let differs = (0..30).any(|_| generate(Mode::Full, Some("еб"), 1)[0].form.form != first);
    assert!(differs, "thirty draws all gave {first}");
}

#[test]
fn generate_cycles_when_count_exceeds_the_pool() {
    // хуй- has 54 forms, none Impossible: 100 draws cycle through the pool.
    let forms = generate(Mode::Full, Some("хуй"), 100);
    assert_eq!(forms.len(), 100);
    for i in 0..46 {
        assert_eq!(forms[i].form.form, forms[i + 54].form.form);
    }
}

#[test]
fn generate_unknown_root_gives_nothing() {
    assert!(generate(Mode::Full, Some("zzz"), 5).is_empty());
    assert!(generate(Mode::Full, Some("манд"), 5).is_empty());
}

#[test]
fn law_sample_forms_are_common_infinitives() {
    for rd in all_roots() {
        let samples = sample_forms(&rd);
        assert!(samples.len() <= 3);
        let result = explore(rd.name, None).unwrap();
        for s in &samples {
            assert!(result
                .forms
                .iter()
                .any(|f| &f.form == s && f.ending_val == "ть" && f.attestation == Attestation::Common));
        }
    }
    let rd = root_data("еб").unwrap();
    assert_eq!(sample_forms(&rd), vec!["ебать", "ебнуть", "выебать"]);
}

#[test]
fn example_form_is_the_first_common_infinitive() {
    let rd = root_data("еб").unwrap();
    let ex = example_form(&rd).unwrap();
    assert_eq!(ex.form, "ебать");
    assert_eq!(ex.prefix_display, "(без)");
}

#[test]
fn law_wrap_lines_fit_and_keep_words() {
    let text = "а б в г д е ё ж з и й к л м н о п р с т у ф х ц ч ш щ ъ ы ь э ю я";
    for width in [1usize, 5, 20, 40] {
        let lines = wrap_text(text, width);
        for line in &lines {
            assert!(line.chars().count() <= width, "{line:?} at {width}");
        }
        assert_eq!(lines.join(" "), text);
    }
    assert_eq!(wrap_text("", 10), vec![String::new()]);
    assert_eq!(wrap_text("  a   bb  ", 10), vec!["a bb".to_string()]);
    assert_eq!(wrap_text("abc defg", 7), vec!["abc".to_string(), "defg".to_string()]);
    assert_eq!(wrap_text("abc defg", 8), vec!["abc defg".to_string()]);
}

#[test]
fn law_box_lines_equal_width_on_every_root() {
    for rd in all_roots() {
        let samples = sample_forms(&rd);
        let refs: Vec<&str> = samples.iter().map(|s| s.as_str()).collect();
        let example = example_form(&rd);
        let out = format_random(&rd, &refs, example.as_ref());
        for line in out.lines() {
            if line.starts_with('║') || line.starts_with('╔') || line.starts_with('╠') || line.starts_with('╚') {
                assert_eq!(line.chars().count(), 46, "{}: {line}", rd.name);
            }
        }
    }
}

#[test]
fn law_explore_tally_counts_every_row() {
    let out = format_explore(&explore("еб", None).unwrap());
    assert!(out.contains("Всего комбинаций: 18 префиксов × 2 суффиксов = 36 форм\n\n"), "{out}");
    let total = out.lines().find(|l| l.starts_with("Всего: common (")).unwrap();
    let numbers: Vec<usize> = total
        .split(|c: char| !c.is_ascii_digit())
        .filter(|s| !s.is_empty())
        .map(|s| s.parse().unwrap())
        .collect();
    assert_eq!(numbers.len(), 4);
    assert_eq!(numbers.iter().sum::<usize>(), 36);
}

#[test]
fn explore_table_header_is_exact() {
    let out = format_explore(&explore("еб", None).unwrap());
    assert!(out.contains(
        "  Префикс     | Инфинитив        | Прош. -л        | Наст. 3л       | Аттест.    | Значение\n"
    ), "{out}");
    assert!(out.contains(
        "  ------------+------------------+-----------------+----------------+------------+---------\n"
    ), "{out}");
    assert!(out.contains("═══ Суффикс -а- (имперфектив) ═══\n\n"), "{out}");
    assert!(out.contains("  суффиксы: -а- (имперфектив), -ну- (однократный)\n"), "{out}");
    assert!(out.contains("  окончания (колонки): Инфинитив -ть · Прош. -л · Наст. 3 л. -ёт/-нёт\n"), "{out}");
}

#[test]
fn explore_row_truncates_long_meanings() {
    let out = format_explore(&explore("еб", None).unwrap());
    for line in out.lines().filter(|l| l.starts_with("  ") && l.matches(" | ").count() == 5) {
        let meaning = line.rsplit(" | ").next().unwrap();
        assert!(meaning.chars().count() <= 34, "{line}");
    }
}

#[test]
fn list_roots_line_is_exact() {
    let out = format_list_roots(Mode::Classic);
    assert!(out.starts_with("Доступные корни (9):\n"), "{out}");
    assert!(out.contains("  еб-  «совокупляться»  ядро · A · глагольный (-а-, -ну-)\n"), "{out}");
    assert!(out.contains("  манд-  "), "{out}");
    assert!(out.contains("  Всего: 9 корней\n"), "{out}");
    assert!(out.ends_with("(включая дрочить, жрать, говно, ...)\n"), "{out}");
    let full = format_list_roots(Mode::Full);
    assert!(full.contains("  Всего: 35 корней\n"), "{full}");
    assert!(!full.contains("Используйте --mode full"), "{full}");
}

#[test]
fn explore_error_message_names_the_root() {
    let err = explore("zzz", None).unwrap_err();
    let msg = err.message();
    assert!(msg.starts_with("Корень 'zzz' не найден. Доступные корни: еб, "), "{msg}");
}

#[test]
fn root_of_the_day_draw_stays_in_range() {
    for day in 0..200u64 {
        let rd = root_of_the_day(Mode::Classic, day);
        assert!(Mode::Classic.includes(&rd));
    }
}

#[test]
fn suffix_and_ending_round_trips() {
    for i in 0..4 {
        assert_eq!(suffix_index_for_val(suffix_val(i)), i);
    }
    for i in 0..5 {
        assert_eq!(ending_by_val(ending_val(i)), i);
    }
}

#[test]
fn law_class_e_roots_show_only_possible_forms() {
    let mut seen = 0;
    for rd in all_roots() {
        if rd.productivity == matcraft::morpheme::ProductivityClass::E {
            seen += 1;
            for f in &explore(rd.name, None).unwrap().forms {
                assert_eq!(f.attestation, Attestation::Possible, "{}", f.form);
            }
        }
    }
    assert!(seen >= 4);
}

#[test]
fn law_fill_vowel_roots_follow_a_vowel() {
    for name in ["сра", "сса", "жр"] {
        let rd = root_data(name).unwrap();
        for f in &explore(name, None).unwrap().forms {
            let chars: Vec<char> = f.form.chars().collect();
            let val: Vec<char> = rd.val.chars().collect();
            let at = (0..chars.len())
                .find(|&i| chars[i..].starts_with(&val))
                .unwrap();
            if at > 0 {
                assert!("аеёиоуыэюя".contains(chars[at - 1]), "{}", f.form);
            }
        }
    }
}

#[test]
fn select_root_reads_the_pool() {
    assert_eq!(pool_size(Mode::Classic), 9);
    assert_eq!(pool_size(Mode::Full), 35);
    assert_eq!(select_root(Mode::Classic, 0).name, "еб");
    assert_eq!(select_root(Mode::Classic, 7).name, "сра");
    assert_eq!(select_root(Mode::Classic, 8).name, "сса");
    assert_eq!(select_root(Mode::Full, 34).name, "гондон");
    let names = list_roots(Mode::Full);
    for (i, name) in names.iter().enumerate() {
        assert_eq!(select_root(Mode::Full, i).name, *name);
    }
}

#[test]
fn read_in_order_follows_the_order_and_cycles() {
    let pool = generate(Mode::Full, Some("хуй"), 3);
    let order = vec![2usize, 0, 1];
    let out = matcraft::paradigm::read_in_order(&pool, &order, 7);
    assert_eq!(out.len(), 7);
    for (i, g) in out.iter().enumerate() {
        assert_eq!(g.form.form, pool[order[i % 3]].form.form);
    }
    assert!(matcraft::paradigm::read_in_order(&pool, &order, 0).is_empty());
}

#[test]
fn read_phrases_in_order_follows_the_order_and_cycles() {
    let pool = vec!["a".to_string(), "b".to_string(), "c".to_string()];
    let out = matcraft::generator::read_phrases_in_order(&pool, &vec![1, 2, 0], 5);
    assert_eq!(out, vec!["b", "c", "a", "b", "c"]);
}

#[test]
fn law_filtered_paradigm_size_and_filter_of_full() {
    let full = explore("пизд", None).unwrap();
    for f in ["е", "-ну-", "и", "а", "бред"] {
        let filtered = explore("пизд", Some(f)).unwrap();
        let expected: Vec<String> = full
            .forms
            .iter()
            .filter(|v| {
                v.suffix_val == f
                    || matcraft::morpheme::suffix_display(suffix_index_for_val(v.suffix_val)) == f
            })
            .map(|v| v.form.clone())
            .collect();
        let got: Vec<String> = filtered.forms.iter().map(|v| v.form.clone()).collect();
        assert_eq!(got, expected, "{f}");
        let kept = if ["е", "-ну-", "и"].contains(&f) { 1 } else { 0 };
        assert_eq!(filtered.forms.len(), 18 * 3 * kept, "{f}");
    }
}

#[test]
fn law_forms_carry_their_table_entry() {
    for rd in all_roots() {
        for v in &explore(rd.name, None).unwrap().forms {
            let p = (0..18).find(|&p| prefix_display(p) == v.prefix_display).unwrap();
            let s = suffix_index_for_val(v.suffix_val);
            assert_eq!((v.attestation, v.note), lookup_attestation(rd.name, p, s));
        }
    }
}

#[test]
fn law_lookup_defaults_on_concrete_values() {
    for (root, p, s) in [("еб", 99, 99), ("еб", 18, 0), ("еб", 0, 4), ("unknown", 0, 0), ("манд", 0, 0), ("елд", 3, 1), ("гондон", 0, 0)] {
        assert_eq!(lookup_attestation(root, p, s), (Attestation::Possible, None), "{root} {p} {s}");
    }
}

#[test]
fn law_wrap_is_greedy() {
    let text = "Самый продуктивный матерный корень. От праславянского *jebati. В современном русском";
    for width in [5usize, 12, 20, 40] {
        let lines = wrap_text(text, width);
        for l in &lines {
            assert!(l.chars().count() <= width || !l.contains(' '), "{l:?}");
        }
        for i in 0..lines.len().saturating_sub(1) {
            let next = lines[i + 1].split(' ').next().unwrap();
            assert!(lines[i].chars().count() + 1 + next.chars().count() > width);
        }
    }
    assert_eq!(wrap_text("abcdefgh ij", 4), vec!["abcdefgh".to_string(), "ij".to_string()]);
}

#[test]
fn law_inventory_records_are_complete_and_names_distinct() {
    let roots = all_roots();
    for rd in &roots {
        assert!(!rd.linguistic_note.is_empty() && !rd.val.is_empty());
        assert!(!rd.gloss_ru.unwrap().trim().is_empty());
    }
    for i in 0..roots.len() {
        for j in 0..i {
            assert_ne!(roots[i].name, roots[j].name);
        }
    }
}

#[test]
fn law_gender_follows_the_last_word() {
    assert_eq!(guess_gender("красная площадь"), guess_gender("площадь"));
    assert_eq!(guess_gender("большая рыба"), guess_gender("рыба"));
    assert_eq!(guess_gender("синее море  "), guess_gender("море"));
    assert_eq!(guess_gender("   "), matcraft::morphemes::Gender::Masculine);
}

#[test]
fn law_explore_grand_tally_equals_the_combinations() {
    for rd in all_roots() {
        let result = explore(rd.name, None).unwrap();
        if result.forms.is_empty() {
            continue;
        }
        let out = format_explore(&result);
        let head = out.lines().find(|l| l.starts_with("Всего комбинаций: ")).unwrap();
        let c: usize = head.rsplit(" = ").next().unwrap().split(' ').next().unwrap().parse().unwrap();
        let total = out.lines().find(|l| l.starts_with("Всего: common (")).unwrap();
        let sum: usize = total
            .split(|ch: char| !ch.is_ascii_digit())
            .filter(|s| !s.is_empty())
            .map(|s| s.parse::<usize>().unwrap())
            .sum();
        assert_eq!(sum, c, "{}", rd.name);
        assert!(!out.contains("Разбор форм:"));
    }
}

#[test]
fn law_unlisted_rows_are_possible_without_a_note() {
    // Rows in range that the tables do not list.
    for (root, p, s) in [("еб", 0, 2), ("еб", 9, 0), ("хуй", 0, 0), ("бляд", 1, 2), ("сра", 17, 3), ("курв", 0, 0)] {
        assert_eq!(lookup_attestation(root, p, s), (Attestation::Possible, None), "{root} {p} {s}");
    }
    // A listed row keeps its entry.
    assert_eq!(lookup_attestation("еб", 8, 1), (Attestation::Rare, Some("пробить, проломить")));
}

#[test]
fn law_list_roots_filters_the_inventory_in_order() {
    for mode in [Mode::Classic, Mode::Full] {
        let expected: Vec<&str> = all_roots()
            .iter()
            .filter(|r| mode.includes(r))
            .map(|r| r.name)
            .collect();
        assert_eq!(list_roots(mode), expected);
    }
    let full = list_roots(Mode::Full);
    for name in list_roots(Mode::Classic) {
        assert!(full.contains(&name), "{name}");
    }
}

#[test]
fn law_example_form_is_the_first_sample() {
    for rd in all_roots() {
        let example = example_form(&rd).map(|v| v.form);
        let first = sample_forms(&rd).first().cloned();
        assert_eq!(example, first, "{}", rd.name);
    }
    assert_eq!(example_form(&root_data("манд").unwrap()).map(|v| v.form), None);
}

#[test]
fn law_explore_header_counts_distinct_values() {
    for rd in all_roots() {
        let result = explore(rd.name, None).unwrap();
        if result.forms.is_empty() {
            continue;
        }
        let mut prefixes: Vec<&str> = result.forms.iter().map(|f| f.prefix_display).collect();
        prefixes.sort();
        prefixes.dedup();
        let mut suffixes: Vec<&str> = result.forms.iter().map(|f| f.suffix_val).collect();
        suffixes.sort();
        suffixes.dedup();
        let mut pairs: Vec<(&str, &str)> = result.forms.iter().map(|f| (f.prefix_display, f.suffix_val)).collect();
        pairs.sort();
        pairs.dedup();
        let line = format!(
            "Всего комбинаций: {} префиксов × {} суффиксов = {} форм\n",
            prefixes.len(),
            suffixes.len(),
            pairs.len()
        );
        let out = format_explore(&result);
        assert!(out.contains(&line), "{}: {line}", rd.name);
        assert!(!out.contains("Разбор форм:"), "{}", rd.name);
    }
}

#[test]
fn mode_default_is_classic() {
    assert_eq!(Mode::default(), Mode::Classic);
}

#[test]
fn paradigm_result_and_error_clone() {
    let result = explore("еб", None).unwrap();
    let copy = result.clone();
    assert_eq!(copy.root_name, result.root_name);
    assert_eq!(copy.forms.len(), result.forms.len());
    assert_eq!(copy.forms[5].form, result.forms[5].form);
    let err = explore("zzz", None).unwrap_err();
    assert_eq!(err.clone().message(), err.message());
}

#[test]
fn sample_forms_are_short_words() {
    for rd in all_roots() {
        for s in sample_forms(&rd) {
            assert!(!s.chars().any(char::is_whitespace), "{s}");
            assert!(s.chars().count() <= 17, "{s}");
        }
    }
}

#[test]
fn law_breakdown_heading_only_when_filtered() {
    for rd in all_roots() {
        let unfiltered = format_explore(&explore(rd.name, None).unwrap());
        assert!(!unfiltered.contains("Разбор форм:"), "{}", rd.name);
        for s in 0..4 {
            let filtered = explore(rd.name, Some(suffix_val(s))).unwrap();
            let out = format_explore(&filtered);
            assert_eq!(out.contains("Разбор форм:"), !filtered.forms.is_empty(), "{} {s}", rd.name);
        }
    }
}
