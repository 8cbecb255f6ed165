use matcraft::grammar::build_form;


// -а- class tests (existing)

#[test]
fn test_build_form_bare_infinitive() {
    assert_eq!(build_form("", "еб", "а", "ть", None), "ебать");
}

#[test]
fn test_build_form_vy_ebat() {
    assert_eq!(build_form("вы", "еб", "а", "ть", None), "выебать");
}

#[test]
fn test_build_form_za_ebat() {
    assert_eq!(build_form("за", "еб", "а", "ть", None), "заебать");
}

#[test]
fn test_build_form_with_hard_sign() {
    // от- + еб- → отъеб- (ъ-insertion)
    assert_eq!(build_form("от", "еб", "а", "ть", None), "отъебать");
}

#[test]
fn test_build_form_with_allomorph_iz() {
    // из- → ис- before еб-
    assert_eq!(build_form("ис", "еб", "а", "ть", None), "исебать");
}

#[test]
fn test_build_form_nu_suffix() {
    assert_eq!(build_form("", "еб", "ну", "ть", None), "ебнуть");
}

#[test]
fn test_build_form_ot_ebnut() {
    assert_eq!(build_form("от", "еб", "ну", "ть", None), "отъебнуть");
}

#[test]
fn test_build_form_vy_ebnul() {
    assert_eq!(build_form("вы", "еб", "ну", "л", None), "выебнул");
}

#[test]
fn test_build_form_pere_ebyot() {
    assert_eq!(build_form("пере", "еб", "а", "ёт", None), "переебёт");
}

#[test]
fn test_build_form_bare_ebnyot() {
    assert_eq!(build_form("", "еб", "ну", "нёт", None), "ебнёт");
}

#[test]
fn test_build_form_pro_ebal() {
    assert_eq!(build_form("про", "еб", "а", "л", None), "проебал");
}

// -е- class tests (suffix 2)

#[test]
fn test_build_form_pizdet() {
    assert_eq!(build_form("", "пизд", "е", "ть", None), "пиздеть");
}

#[test]
fn test_build_form_zapizdel() {
    assert_eq!(build_form("за", "пизд", "е", "л", None), "запиздел");
}

#[test]
fn test_build_form_pizdit() {
    assert_eq!(build_form("", "пизд", "е", "ит", None), "пиздит");
}

#[test]
fn test_build_form_propizdit() {
    assert_eq!(build_form("про", "пизд", "е", "ит", None), "пропиздит");
}

#[test]
fn test_build_form_blyadet() {
    assert_eq!(build_form("", "бляд", "е", "ть", None), "блядеть");
}

// -и- class tests (suffix 3, new)

#[test]
fn test_build_form_drochit() {
    // дроч- + и- + ть → дрочить
    assert_eq!(build_form("", "дроч", "и", "ть", None), "дрочить");
}

#[test]
fn test_build_form_zadrochil() {
    // за- + дроч- + и- + л → задрочил
    assert_eq!(build_form("за", "дроч", "и", "л", None), "задрочил");
}

#[test]
fn test_build_form_vydrochit() {
    // вы- + дроч- + и- + ит → выдрочит
    assert_eq!(build_form("вы", "дроч", "и", "ит", None), "выдрочит");
}

#[test]
fn test_build_form_mudit() {
    // муд- + и- + ть → мудить
    assert_eq!(build_form("", "муд", "и", "ть", None), "мудить");
}

#[test]
fn test_build_form_zamudil() {
    // за- + муд- + и- + л → замудил
    assert_eq!(build_form("за", "муд", "и", "л", None), "замудил");
}

// Present-stem allomorphy tests (блев → блю)

#[test]
fn test_build_form_blevat() {
    // блев- + а- + ть (infinitive, regular stem) → блевать
    assert_eq!(build_form("", "блев", "а", "ть", Some("блю")), "блевать");
}

#[test]
fn test_build_form_bleval() {
    // блев- + а- + л (past, regular stem) → блевал
    assert_eq!(build_form("", "блев", "а", "л", Some("блю")), "блевал");
}

#[test]
fn test_build_form_blyuet() {
    // блев- + а- + ёт (present): the engine must select present_stem блю-
    // over the dictionary stem блев-. Passing root="блев" (not "блю") is what
    // actually exercises that selection.
    assert_eq!(build_form("", "блев", "а", "ёт", Some("блю")), "блюёт");
}

#[test]
fn test_build_form_zablevat() {
    // за- + блев- + а- + ть (infinitive) → заблевать
    assert_eq!(
        build_form("за", "блев", "а", "ть", Some("блю")),
        "заблевать"
    );
}

#[test]
fn test_build_form_zabliuet() {
    // за- + блев- + а- + ёт (present): present_stem selected under a prefix.
    assert_eq!(build_form("за", "блев", "а", "ёт", Some("блю")), "заблюёт");
}

// Hard sign tests with new prefixes

#[test]
fn test_build_form_ob_ebat() {
    // об- + еб- + а- + ть → объебать (ъ before е)
    assert_eq!(build_form("об", "еб", "а", "ть", None), "объебать");
}

#[test]
fn test_build_form_o_pizdit() {
    // о- (from об-) + пизд- + и- + ть → опиздить
    assert_eq!(build_form("о", "пизд", "и", "ть", None), "опиздить");
}

#[test]
fn test_build_form_raz_ebat() {
    // раз- + еб- + а- + ть → разъебать
    assert_eq!(build_form("раз", "еб", "а", "ть", None), "разъебать");
}

#[test]
fn test_build_form_s_ebat() {
    // с- + еб- + а- + ть → съебать
    assert_eq!(build_form("с", "еб", "а", "ть", None), "съебать");
}

// Assert existing forms remain unchanged

#[test]
fn test_build_form_srat() {
    assert_eq!(build_form("", "ср", "а", "ть", None), "срать");
}

#[test]
fn test_build_form_ssat() {
    assert_eq!(build_form("", "сс", "а", "ть", None), "ссать");
}

#[test]
fn test_build_form_khuyanut() {
    assert_eq!(build_form("", "хуй", "ну", "ть", None), "хуйнуть");
}

#[test]
fn test_build_form_zakhuyanut() {
    assert_eq!(build_form("за", "хуй", "ну", "ть", None), "захуйнуть");
}
