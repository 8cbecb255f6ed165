use matcraft::generator::{generate, guess_gender};
use matcraft::morphemes::Gender;

#[test]
fn test_guess_gender_masculine() {
    assert_eq!(guess_gender("космос"), Gender::Masculine);
    assert_eq!(guess_gender("дятел"), Gender::Masculine);
    assert_eq!(guess_gender("автомобиль"), Gender::Masculine);
    assert_eq!(guess_gender("орёл"), Gender::Masculine);
    assert_eq!(guess_gender("чай"), Gender::Masculine);
}

#[test]
fn test_guess_gender_feminine() {
    assert_eq!(guess_gender("философия"), Gender::Feminine);
    assert_eq!(guess_gender("птичка"), Gender::Feminine);
    assert_eq!(guess_gender("рыба"), Gender::Feminine);
    assert_eq!(guess_gender("земля"), Gender::Feminine);
    assert_eq!(guess_gender("вода"), Gender::Feminine);
}

#[test]
fn test_guess_gender_neuter() {
    assert_eq!(guess_gender("море"), Gender::Neuter);
    assert_eq!(guess_gender("солнце"), Gender::Neuter);
    assert_eq!(guess_gender("окно"), Gender::Neuter);
}

#[test]
fn test_guess_gender_plural() {
    assert_eq!(guess_gender("птички"), Gender::Plural);
    assert_eq!(guess_gender("автомобили"), Gender::Plural);
    assert_eq!(guess_gender("коты"), Gender::Plural);
}

#[test]
fn test_generate_returns_requested_count() {
    let result = generate("тест", 5);
    assert_eq!(result.len(), 5);
}

#[test]
fn test_generate_phrases_contain_topic() {
    let result = generate("космос", 20);
    for phrase in &result {
        assert!(phrase.contains("космос"), "Phrase '{}' does not contain topic", phrase);
    }
}

#[test]
fn test_generate_returns_diverse_phrases() {
    let result = generate("тест", 10);
    let unique: std::collections::HashSet<&str> = result.iter().map(|s| s.as_str()).collect();
    // Pool size is ~17 (4 roots + 7 interjections + 6 eval nouns).
    // With shuffle + sampling without replacement, count ≤ pool size
    // guarantees every phrase is unique, so 10/10 is the expectation.
    assert!(unique.len() >= 8, "Only {} unique phrases out of 10", unique.len());
}

#[test]
fn test_count_capped_at_100() {
    let result = generate("тест", 500);
    assert!(result.len() <= 100);
}

#[test]
fn test_count_zero_gives_one() {
    let result = generate("тест", 0);
    assert_eq!(result.len(), 1);
}

#[test]
fn test_multi_word_topic() {
    let result = generate("красная площадь", 5);
    for phrase in &result {
        assert!(phrase.contains("красная площадь"), "Phrase does not contain multi-word topic");
    }
}

#[test]
fn test_non_cyrillic_topic() {
    let result = generate("programming", 3);
    assert_eq!(result.len(), 3);
    for phrase in &result {
        assert!(phrase.contains("programming"));
    }
}
