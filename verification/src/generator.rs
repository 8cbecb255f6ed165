//! Topic phrase generator: obscene phrases built around a user topic.

use vstd::prelude::*;

use crate::chance::{is_index_permutation, shuffled_indices};
use crate::morphemes::{
    EVAL_NOUN_COUNT, Gender, INTERJECTION_COUNT, PHRASE_ROOT_COUNT, Root, eval_noun, interjection,
    phrase_root, spec_eval_noun, spec_interjection, spec_phrase_root,
};
use crate::display::{words, words_state};
use crate::text::{char_is_space, contains_text, is_space};

verus! {

/// The last character of `s` among its first `n` that is not white space.
pub open spec fn last_non_space_upto(s: Seq<char>, n: nat) -> Option<char>
    decreases n,
{
    if n == 0 {
        None
    } else if !is_space(s[n - 1]) {
        Some(s[n - 1])
    } else {
        last_non_space_upto(s, (n - 1) as nat)
    }
}

/// The gender a final letter signals: а/я feminine, о/е neuter, ы/и plural,
/// anything else (consonant, й, ь, or no letter) masculine.
pub open spec fn gender_of_final(c: Option<char>) -> Gender {
    match c {
        Some(c) => if c == 'а' || c == 'я' {
            Gender::Feminine
        } else if c == 'о' || c == 'е' {
            Gender::Neuter
        } else if c == 'ы' || c == 'и' {
            Gender::Plural
        } else {
            Gender::Masculine
        },
        None => Gender::Masculine,
    }
}

/// The gender of a topic: read off the last letter of its last word.
pub open spec fn spec_guess_gender(word: Seq<char>) -> Gender {
    gender_of_final(last_non_space_upto(word, word.len()))
}

proof fn lemma_last_word(s: Seq<char>, n: nat)
    requires
        n <= s.len(),
    ensures
        ({
            let st = words_state(s, n);
            &&& st.1.len() > 0 ==> last_non_space_upto(s, n) == Some(st.1.last())
            &&& st.1.len() == 0 && st.0.len() > 0 ==> last_non_space_upto(s, n) == Some(
                st.0.last().last(),
            )
            &&& st.1.len() == 0 && st.0.len() == 0 ==> last_non_space_upto(s, n) is None
        }),
    decreases n,
{
    if n > 0 {
        lemma_last_word(s, (n - 1) as nat);
    }
}

/// The last letter of the last word of a text, if it has a word.
pub open spec fn last_word_letter(word: Seq<char>) -> Option<char> {
    if words(word).len() == 0 {
        None
    } else {
        Some(words(word).last().last())
    }
}

/// The gender of a topic is read off the last letter of its last word; the
/// words in front of it do not change it: `guess_gender(s + " " + w)` is
/// `guess_gender(w)` for a word `w`.
pub proof fn law_gender_of_last_word(s: Seq<char>, w: Seq<char>)
    ensures
        spec_guess_gender(s) == gender_of_final(last_word_letter(s)),
        w.len() > 0 && !is_space(w.last()) ==> spec_guess_gender(s + " "@ + w)
            == spec_guess_gender(w),
{
    lemma_last_word(s, s.len());
    let x = s + " "@ + w;
    if w.len() > 0 && !is_space(w.last()) {
        assert(x[x.len() - 1] == w.last());
        assert(w[w.len() - 1] == w.last());
    }
}

/// Guess Russian noun gender from its ending.
///
/// Rules:
/// - Ends with а, я → Feminine
/// - Ends with о, е → Neuter
/// - Ends with ы, и → Plural
/// - Ends with consonant, й, ь → Masculine
///
/// For multi-word topics, the last word determines gender.
pub fn guess_gender(word: &str) -> (r: Gender)
    ensures
        r == spec_guess_gender(word@),
{
    let n = word.unicode_len();
    let mut i: usize = n;
    while i > 0
        invariant
            i <= n,
            n == word@.len(),
            last_non_space_upto(word@, n as nat) == last_non_space_upto(word@, i as nat),
        decreases i,
    {
        let c = word.get_char(i - 1);
        if !char_is_space(c) {
            return if c == 'а' || c == 'я' {
                Gender::Feminine
            } else if c == 'о' || c == 'е' {
                Gender::Neuter
            } else if c == 'ы' || c == 'и' {
                Gender::Plural
            } else {
                Gender::Masculine
            };
        }
        i = i - 1;
    }
    Gender::Masculine
}

/// Position of a gender's ending in a root's ending list.
pub open spec fn gender_slot(gender: Gender) -> int {
    match gender {
        Gender::Masculine => 0,
        Gender::Feminine => 1,
        Gender::Neuter => 2,
        Gender::Plural => 3,
    }
}

/// The adjective of a root agreeing with a gender.
pub open spec fn spec_adjective(root: Root, gender: Gender) -> Seq<char> {
    root.adjective_stem@ + root.adjective_endings@[gender_slot(gender)]@
}

/// An adjective agrees with its gender: the root's endings are listed as
/// masculine, feminine, neuter, plural, and the adjective takes the first for
/// a masculine topic, the second for a feminine one, the third for a neuter
/// one and the fourth for a plural one. For the phrase roots that is -ая
/// (feminine), -ое (neuter, so "пиздатое море") and -ые / -ие (plural).
pub proof fn law_adjective_agrees(root: Root, gender: Gender, i: usize)
    ensures
        gender == Gender::Masculine ==> spec_adjective(root, gender) == root.adjective_stem@
            + root.adjective_endings@[0]@,
        gender == Gender::Feminine ==> spec_adjective(root, gender) == root.adjective_stem@
            + root.adjective_endings@[1]@,
        gender == Gender::Neuter ==> spec_adjective(root, gender) == root.adjective_stem@
            + root.adjective_endings@[2]@,
        gender == Gender::Plural ==> spec_adjective(root, gender) == root.adjective_stem@
            + root.adjective_endings@[3]@,
        i < PHRASE_ROOT_COUNT ==> spec_adjective(spec_phrase_root(i), Gender::Feminine)
            == spec_phrase_root(i).adjective_stem@ + "ая"@,
        i < PHRASE_ROOT_COUNT ==> spec_adjective(spec_phrase_root(i), Gender::Neuter)
            == spec_phrase_root(i).adjective_stem@ + "ое"@,
        i < PHRASE_ROOT_COUNT ==> spec_adjective(spec_phrase_root(i), Gender::Plural)
            == spec_phrase_root(i).adjective_stem@ + (if i == 3 {
            "ие"@
        } else {
            "ые"@
        }),
{
}

/// Build an adjective from a root's stem and gender-appropriate ending.
pub fn format_adjective(root: &Root, gender: Gender) -> (r: String)
    ensures
        r@ == spec_adjective(*root, gender),
{
    let idx: usize = match gender {
        Gender::Masculine => 0,
        Gender::Feminine => 1,
        Gender::Neuter => 2,
        Gender::Plural => 3,
    };
    let mut r = String::new();
    r.append(root.adjective_stem);
    r.append(root.adjective_endings[idx]);
    r
}

/// Number of phrases one topic yields: every root's adjective, every
/// interjection, and every evaluative noun.
pub const PHRASE_POOL_SIZE: usize = 17;

/// Phrase `k` of the pool for a topic: `<adjective> <topic>` for the roots,
/// `<interjection>, <topic>!` for the interjections, `<topic> — <noun>` for
/// the evaluative nouns.
pub open spec fn spec_phrase(topic: Seq<char>, gender: Gender, k: int) -> Seq<char> {
    if k < PHRASE_ROOT_COUNT {
        spec_adjective(spec_phrase_root(k as usize), gender) + " "@ + topic
    } else if k < PHRASE_ROOT_COUNT + INTERJECTION_COUNT {
        spec_interjection((k - PHRASE_ROOT_COUNT) as usize)@ + ", "@ + topic + "!"@
    } else {
        topic + " — "@ + spec_eval_noun((k - PHRASE_ROOT_COUNT - INTERJECTION_COUNT) as usize)@
    }
}

/// The full phrase pool for a topic, in template order.
pub open spec fn spec_phrase_pool(topic: Seq<char>) -> Seq<Seq<char>> {
    Seq::new(PHRASE_POOL_SIZE as nat, |k: int| spec_phrase(topic, spec_guess_gender(topic), k))
}

/// `count` clamped to 1..=100.
pub open spec fn spec_phrase_count(count: usize) -> nat {
    if count < 1 {
        1
    } else if count > 100 {
        100
    } else {
        count as nat
    }
}

/// Every phrase of the pool holds the topic.
pub proof fn law_phrases_contain_topic(topic: Seq<char>, k: int)
    requires
        0 <= k < PHRASE_POOL_SIZE,
    ensures
        contains_text(spec_phrase_pool(topic)[k], topic),
{
    let p = spec_phrase_pool(topic)[k];
    let g = spec_guess_gender(topic);
    if k < PHRASE_ROOT_COUNT {
        let a = spec_adjective(spec_phrase_root(k as usize), g) + " "@;
        assert(p =~= a + topic);
        let j: int = a.len() as int;
        assert(p.subrange(j, j + topic.len()) =~= topic);
    } else if k < PHRASE_ROOT_COUNT + INTERJECTION_COUNT {
        let a = spec_interjection((k - PHRASE_ROOT_COUNT) as usize)@ + ", "@;
        assert(p =~= a + topic + "!"@);
        let j: int = a.len() as int;
        assert(p.subrange(j, j + topic.len()) =~= topic);
    } else {
        let j: int = 0;
        assert(p.subrange(j, j + topic.len()) =~= topic);
    }
}

/// Reads `count` phrases of `pool` in the drawn `order`, cycling through the
/// order when `count` exceeds the pool.
pub fn read_phrases_in_order(pool: &Vec<String>, order: &Vec<usize>, count: usize) -> (r: Vec<
    String,
>)
    requires
        pool@.len() > 0,
        is_index_permutation(order@, pool@.len() as nat),
    ensures
        r@.len() == count,
        forall|i: int|
            0 <= i < count ==> #[trigger] r@[i]@ == pool@[order@[i % (pool@.len() as int)] as int]@,
{
    let mut result: Vec<String> = Vec::new();
    let mut i: usize = 0;
    while i < count
        invariant
            i <= count,
            pool@.len() > 0,
            is_index_permutation(order@, pool@.len() as nat),
            result@.len() == i,
            forall|k: int|
                0 <= k < i ==> #[trigger] result@[k]@ == pool@[order@[k % (
                pool@.len() as int)] as int]@,
        decreases count - i,
    {
        let pick = order[i % pool.len()];
        result.push(pool[pick].clone());
        i = i + 1;
    }
    result
}

/// Main entry point: generates `count` obscene phrases incorporating `topic`.
///
/// Count is clamped to 1..=100. The topic string becomes the noun in every
/// phrase. Phrases are built from the full pool (all roots × all templates),
/// shuffled, and read in order — cycling only when count exceeds the pool
/// size — so for count ≤ pool size every phrase is a different pool entry.
pub fn generate(topic: &str, count: usize) -> (r: Vec<String>)
    ensures
        r@.len() == spec_phrase_count(count),
        exists|perm: Seq<usize>|
            is_index_permutation(perm, PHRASE_POOL_SIZE as nat) && forall|i: int|
                0 <= i < r@.len() ==> #[trigger] r@[i]@ == spec_phrase_pool(topic@)[perm[i
                    % (PHRASE_POOL_SIZE as int)] as int],
        forall|i: int| 0 <= i < r@.len() ==> contains_text(#[trigger] r@[i]@, topic@),
{
    let count = if count < 1 {
        1
    } else if count > 100 {
        100
    } else {
        count
    };
    let gender = guess_gender(topic);
    let ghost pool_spec = spec_phrase_pool(topic@);
    // Build the full phrase pool.
    let mut pool: Vec<String> = Vec::new();
    // AdjectiveNoun template: each root's adjective + topic
    let mut i: usize = 0;
    while i < PHRASE_ROOT_COUNT
        invariant
            i <= PHRASE_ROOT_COUNT,
            gender == spec_guess_gender(topic@),
            pool_spec == spec_phrase_pool(topic@),
            pool@.len() == i,
            forall|k: int| 0 <= k < i ==> #[trigger] pool@[k]@ == pool_spec[k],
        decreases PHRASE_ROOT_COUNT - i,
    {
        let root = phrase_root(i);
        let mut phrase = format_adjective(&root, gender);
        phrase.append(" ");
        phrase.append(topic);
        pool.push(phrase);
        i = i + 1;
    }
    // Interjection template: each interjection + topic
    let mut i: usize = 0;
    while i < INTERJECTION_COUNT
        invariant
            i <= INTERJECTION_COUNT,
            pool_spec == spec_phrase_pool(topic@),
            pool@.len() == PHRASE_ROOT_COUNT + i,
            forall|k: int| 0 <= k < PHRASE_ROOT_COUNT + i ==> #[trigger] pool@[k]@ == pool_spec[k],
        decreases INTERJECTION_COUNT - i,
    {
        let mut phrase = String::new();
        phrase.append(interjection(i));
        phrase.append(", ");
        phrase.append(topic);
        phrase.append("!");
        pool.push(phrase);
        i = i + 1;
    }
    // Evaluation template: each eval noun + topic
    let mut i: usize = 0;
    while i < EVAL_NOUN_COUNT
        invariant
            i <= EVAL_NOUN_COUNT,
            pool_spec == spec_phrase_pool(topic@),
            pool@.len() == PHRASE_ROOT_COUNT + INTERJECTION_COUNT + i,
            forall|k: int|
                0 <= k < PHRASE_ROOT_COUNT + INTERJECTION_COUNT + i ==> #[trigger] pool@[k]@
                    == pool_spec[k],
        decreases EVAL_NOUN_COUNT - i,
    {
        let mut phrase = String::new();
        phrase.append(topic);
        phrase.append(" — ");
        phrase.append(eval_noun(i));
        pool.push(phrase);
        i = i + 1;
    }
    // Shuffle the pool, then read it in order, cycling if count exceeds its size
    let order = shuffled_indices(pool.len());
    let result = read_phrases_in_order(&pool, &order, count);
    proof {
        assert forall|k: int| 0 <= k < result@.len() implies contains_text(
            #[trigger] result@[k]@,
            topic@,
        ) by {
            law_phrases_contain_topic(topic@, order@[k % (PHRASE_POOL_SIZE as int)] as int);
        }
    }
    result
}

} // verus!
