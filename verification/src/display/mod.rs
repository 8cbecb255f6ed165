//! Output formatting, split by command into cohesive submodules.
//!
//! The shared breakdown block (`form_block`) is reused by every command;
//! per-command formatters live in `explore`, `list`, `boxed`. Shared low-level
//! helpers (attestation tokens, domain names, word-wrap) live here.

use vstd::prelude::*;

use crate::morpheme::{Attestation, Domain};
use crate::text::{char_is_space, is_space, join, lemma_join_push};

pub mod boxed;
pub mod explore;
pub mod form_block;
pub mod heading;
pub mod list;

pub use boxed::format_random;
pub use explore::format_explore;
pub use form_block::format_form_block;
pub use list::format_list_roots;

verus! {

// ---------------------------------------------------------------------------
// Shared helpers
// ---------------------------------------------------------------------------

/// Attestation token as shown to the user (the source's own marks).
pub open spec fn spec_format_attestation(att: Attestation) -> &'static str {
    match att {
        Attestation::Common => "common",
        Attestation::Rare => "rare",
        Attestation::Possible => "possible",
        Attestation::Impossible => "impossible",
    }
}

/// Attestation token as shown to the user.
pub fn format_attestation(att: Attestation) -> (r: &'static str)
    ensures
        r == spec_format_attestation(att),
{
    match att {
        Attestation::Common => "common",
        Attestation::Rare => "rare",
        Attestation::Possible => "possible",
        Attestation::Impossible => "impossible",
    }
}

/// One-line explanation of *why* a form carries its attestation level.
pub open spec fn spec_attestation_reason(att: Attestation) -> &'static str {
    match att {
        Attestation::Common => "широко засвидетельствована в корпусе (синтез Плуцера-Сарно)",
        Attestation::Rare => "засвидетельствована редко — диалектная, окказиональная или единичная фиксация",
        Attestation::Possible => "словообразовательно возможна по аналогии, в источнике не засвидетельствована",
        Attestation::Impossible => "заблокирована фонологическим, морфологическим или семантическим ограничением",
    }
}

/// One-line explanation of *why* a form carries its attestation level.
pub fn attestation_reason(att: Attestation) -> (r: &'static str)
    ensures
        r == spec_attestation_reason(att),
{
    match att {
        Attestation::Common => "широко засвидетельствована в корпусе (синтез Плуцера-Сарно)",
        Attestation::Rare => "засвидетельствована редко — диалектная, окказиональная или единичная фиксация",
        Attestation::Possible => "словообразовательно возможна по аналогии, в источнике не засвидетельствована",
        Attestation::Impossible => "заблокирована фонологическим, морфологическим или семантическим ограничением",
    }
}

/// Counts one form of attestation level `att` into the matching tally.
pub fn count_attestation(
    common: &mut usize,
    rare: &mut usize,
    possible: &mut usize,
    impossible: &mut usize,
    att: Attestation,
)
    requires
        *old(common) + *old(rare) + *old(possible) + *old(impossible) < usize::MAX,
    ensures
        *final(common) == *old(common) + if att == Attestation::Common {
            1int
        } else {
            0int
        },
        *final(rare) == *old(rare) + if att == Attestation::Rare {
            1int
        } else {
            0int
        },
        *final(possible) == *old(possible) + if att == Attestation::Possible {
            1int
        } else {
            0int
        },
        *final(impossible) == *old(impossible) + if att == Attestation::Impossible {
            1int
        } else {
            0int
        },
{
    match att {
        Attestation::Common => *common = *common + 1,
        Attestation::Rare => *rare = *rare + 1,
        Attestation::Possible => *possible = *possible + 1,
        Attestation::Impossible => *impossible = *impossible + 1,
    }
}

/// Domain name inline (lowercase), for the explore header, form block, and box.
pub open spec fn spec_domain_inline(domain: Domain) -> &'static str {
    match domain {
        Domain::Nuclear => "ядро",
        Domain::Excretory => "экскреторная",
        Domain::Peripheral => "периферия",
    }
}

/// Domain name inline (lowercase).
pub fn domain_inline(domain: Domain) -> (r: &'static str)
    ensures
        r == spec_domain_inline(domain),
{
    match domain {
        Domain::Nuclear => "ядро",
        Domain::Excretory => "экскреторная",
        Domain::Peripheral => "периферия",
    }
}

/// Domain header (capitalised) for the full-list grouping.
pub open spec fn spec_domain_list_header(domain: Domain) -> &'static str {
    match domain {
        Domain::Nuclear => "Ядро",
        Domain::Excretory => "Экскреторная",
        Domain::Peripheral => "Периферия",
    }
}

/// Domain header (capitalised) for the full-list grouping.
pub fn domain_list_header(domain: Domain) -> (r: &'static str)
    ensures
        r == spec_domain_list_header(domain),
{
    match domain {
        Domain::Nuclear => "Ядро",
        Domain::Excretory => "Экскреторная",
        Domain::Peripheral => "Периферия",
    }
}

// ---------------------------------------------------------------------------
// Word wrapping
// ---------------------------------------------------------------------------

/// Splitting the first `n` characters of `s` into words: the completed words
/// and the word in progress.
pub open spec fn words_state(s: Seq<char>, n: nat) -> (Seq<Seq<char>>, Seq<char>)
    decreases n,
{
    if n == 0 {
        (seq![], seq![])
    } else {
        let prev = words_state(s, (n - 1) as nat);
        if is_space(s[n - 1]) {
            if prev.1.len() > 0 {
                (prev.0.push(prev.1), seq![])
            } else {
                prev
            }
        } else {
            (prev.0, prev.1.push(s[n - 1]))
        }
    }
}

/// The words of `s`: its maximal runs of non-white-space characters, in order.
pub open spec fn words(s: Seq<char>) -> Seq<Seq<char>> {
    let st = words_state(s, s.len());
    if st.1.len() > 0 {
        st.0.push(st.1)
    } else {
        st.0
    }
}

/// Greedy filling of lines with the first `n` words: the completed lines and
/// the line in progress. A word goes on the current line, after a space,
/// unless that would make the line longer than `width`; then the line is
/// closed and the word starts the next one.
pub open spec fn wrap_state(ws: Seq<Seq<char>>, width: nat, n: nat) -> (Seq<Seq<char>>, Seq<char>)
    decreases n,
{
    if n == 0 {
        (seq![], seq![])
    } else {
        let prev = wrap_state(ws, width, (n - 1) as nat);
        let word = ws[n - 1];
        if prev.1.len() + word.len() + 1 > width && prev.1.len() > 0 {
            (prev.0.push(prev.1), word)
        } else if prev.1.len() == 0 {
            (prev.0, word)
        } else {
            (prev.0, prev.1 + seq![' '] + word)
        }
    }
}

/// The lines of `text` wrapped at `width` characters; an empty text gives one
/// empty line.
pub open spec fn spec_wrap_text(text: Seq<char>, width: nat) -> Seq<Seq<char>> {
    let ws = words(text);
    let st = wrap_state(ws, width, ws.len());
    let lines = if st.1.len() > 0 {
        st.0.push(st.1)
    } else {
        st.0
    };
    if lines.len() == 0 {
        seq![seq![]]
    } else {
        lines
    }
}

/// Every completed word among the first `n` characters is non-empty.
proof fn lemma_words_nonempty(s: Seq<char>, n: nat)
    requires
        n <= s.len(),
    ensures
        forall|k: int|
            0 <= k < words_state(s, n).0.len() ==> (#[trigger] words_state(s, n).0[k]).len() > 0,
    decreases n,
{
    if n > 0 {
        lemma_words_nonempty(s, (n - 1) as nat);
        let prev = words_state(s, (n - 1) as nat);
        assert forall|k: int| 0 <= k < words_state(s, n).0.len() implies (
        #[trigger] words_state(s, n).0[k]).len() > 0 by {
            if k < prev.0.len() {
                assert(words_state(s, n).0[k] == prev.0[k]);
            }
        }
    }
}

/// Every word of a text has at least one character.
pub proof fn lemma_words_not_empty(s: Seq<char>)
    ensures
        forall|k: int| 0 <= k < words(s).len() ==> (#[trigger] words(s)[k]).len() > 0,
{
    lemma_words_nonempty(s, s.len());
    let st = words_state(s, s.len());
    assert forall|k: int| 0 <= k < words(s).len() implies (#[trigger] words(s)[k]).len() > 0 by {
        if k < st.0.len() {
            assert(words(s)[k] == st.0[k]);
        }
    }
}

/// When every word fits the width, so does every line filled so far.
proof fn lemma_wrap_fit(ws: Seq<Seq<char>>, width: nat, n: nat)
    requires
        n <= ws.len(),
        forall|k: int| 0 <= k < ws.len() ==> (#[trigger] ws[k]).len() <= width,
    ensures
        wrap_state(ws, width, n).1.len() <= width,
        forall|k: int|
            0 <= k < wrap_state(ws, width, n).0.len() ==> (#[trigger] wrap_state(
                ws,
                width,
                n,
            ).0[k]).len() <= width,
    decreases n,
{
    if n > 0 {
        lemma_wrap_fit(ws, width, (n - 1) as nat);
        let prev = wrap_state(ws, width, (n - 1) as nat);
        assert(ws[n - 1].len() <= width);
        assert forall|k: int| 0 <= k < wrap_state(ws, width, n).0.len() implies (
        #[trigger] wrap_state(ws, width, n).0[k]).len() <= width by {
            if k < prev.0.len() {
                assert(wrap_state(ws, width, n).0[k] == prev.0[k]);
            }
        }
    }
}

/// When every word of a text fits in `width` characters, so does every line
/// that `wrap_text` makes of it.
pub proof fn law_wrap_lines_fit(text: Seq<char>, width: nat)
    requires
        forall|k: int| 0 <= k < words(text).len() ==> (#[trigger] words(text)[k]).len() <= width,
    ensures
        forall|k: int|
            0 <= k < spec_wrap_text(text, width).len() ==> (#[trigger] spec_wrap_text(
                text,
                width,
            )[k]).len() <= width,
{
    let ws = words(text);
    lemma_wrap_fit(ws, width, ws.len());
    let st = wrap_state(ws, width, ws.len());
    let lines = if st.1.len() > 0 {
        st.0.push(st.1)
    } else {
        st.0
    };
    assert forall|k: int| 0 <= k < spec_wrap_text(text, width).len() implies (
    #[trigger] spec_wrap_text(text, width)[k]).len() <= width by {
        if lines.len() > 0 && k < st.0.len() {
            assert(spec_wrap_text(text, width)[k] == st.0[k]);
        }
    }
}

/// The lines so far, the line in progress included when it has begun.
pub open spec fn wrap_lines_upto(ws: Seq<Seq<char>>, width: nat, n: nat) -> Seq<Seq<char>> {
    let st = wrap_state(ws, width, n);
    if st.1.len() > 0 {
        st.0.push(st.1)
    } else {
        st.0
    }
}

/// The lines filled from the first `n` words, joined by single spaces, are
/// those words joined by single spaces.
proof fn lemma_wrap_keeps_words(ws: Seq<Seq<char>>, width: nat, n: nat)
    requires
        n <= ws.len(),
        forall|k: int| 0 <= k < ws.len() ==> (#[trigger] ws[k]).len() > 0,
    ensures
        join(wrap_lines_upto(ws, width, n), " "@) == join(ws.take(n as int), " "@),
        n > 0 ==> wrap_state(ws, width, n).1.len() > 0,
        n == 0 ==> wrap_state(ws, width, n).0.len() == 0,
    decreases n,
{
    reveal_strlit(" ");
    if n > 0 {
        lemma_wrap_keeps_words(ws, width, (n - 1) as nat);
        let prev = wrap_state(ws, width, (n - 1) as nat);
        let w = ws[n - 1];
        assert(w.len() > 0);
        assert(ws.take(n as int) =~= ws.take((n - 1) as int).push(w));
        lemma_join_push(ws.take((n - 1) as int), w, " "@);
        if prev.1.len() + w.len() + 1 > width && prev.1.len() > 0 {
            lemma_join_push(prev.0, prev.1, " "@);
            lemma_join_push(prev.0.push(prev.1), w, " "@);
        } else if prev.1.len() == 0 {
            assert(n - 1 == 0);
            lemma_join_push(prev.0, w, " "@);
        } else {
            lemma_join_push(prev.0, prev.1, " "@);
            lemma_join_push(prev.0, prev.1 + seq![' '] + w, " "@);
            assert(" "@ =~= seq![' ']);
            assert(join(prev.0.push(prev.1 + seq![' '] + w), " "@) =~= join(
                prev.0.push(prev.1),
                " "@,
            ) + " "@ + w);
        }
    }
}

/// Wrapping keeps the words of a text and their order: the lines, joined by
/// single spaces, are the words joined by single spaces.
pub proof fn law_wrap_keeps_words(text: Seq<char>, width: nat)
    ensures
        join(spec_wrap_text(text, width), " "@) == join(words(text), " "@),
{
    let ws = words(text);
    lemma_words_not_empty(text);
    lemma_wrap_keeps_words(ws, width, ws.len());
    assert(ws.take(ws.len() as int) =~= ws);
    let lines = wrap_lines_upto(ws, width, ws.len());
    if lines.len() == 0 {
        assert(join(seq![seq![]], " "@) =~= seq![]);
    }
}

/// The first word of a line: its characters up to the first space.
pub open spec fn first_word(l: Seq<char>) -> Seq<char>
    decreases l.len(),
{
    if l.len() == 0 {
        l
    } else if l[0] == ' ' {
        seq![]
    } else {
        seq![l[0]] + first_word(l.drop_first())
    }
}

/// Whether a line holds no space (it is a single word).
pub open spec fn no_space(l: Seq<char>) -> bool {
    forall|i: int| 0 <= i < l.len() ==> l[i] != ' '
}

proof fn lemma_first_word_of_word(w: Seq<char>)
    requires
        no_space(w),
    ensures
        first_word(w) == w,
    decreases w.len(),
{
    if w.len() > 0 {
        assert(no_space(w.drop_first())) by {
            assert forall|i: int| 0 <= i < w.drop_first().len() implies w.drop_first()[i] != ' ' by {
                assert(w.drop_first()[i] == w[i + 1]);
            }
        }
        lemma_first_word_of_word(w.drop_first());
        assert(seq![w[0]] + w.drop_first() =~= w);
    }
}

proof fn lemma_first_word_append(a: Seq<char>, b: Seq<char>)
    ensures
        first_word(a + seq![' '] + b) == first_word(a),
    decreases a.len(),
{
    let x = a + seq![' '] + b;
    if a.len() == 0 {
        assert(x[0] == ' ');
    } else {
        assert(x[0] == a[0]);
        if a[0] != ' ' {
            lemma_first_word_append(a.drop_first(), b);
            assert(x.drop_first() =~= a.drop_first() + seq![' '] + b);
        }
    }
}

proof fn lemma_words_no_space(s: Seq<char>, n: nat)
    requires
        n <= s.len(),
    ensures
        no_space(words_state(s, n).1),
        forall|k: int|
            0 <= k < words_state(s, n).0.len() ==> no_space(#[trigger] words_state(s, n).0[k]),
    decreases n,
{
    if n > 0 {
        lemma_words_no_space(s, (n - 1) as nat);
        let prev = words_state(s, (n - 1) as nat);
        reveal_strlit(" ");
        assert(is_space(' '));
        assert forall|k: int| 0 <= k < words_state(s, n).0.len() implies no_space(
            #[trigger] words_state(s, n).0[k],
        ) by {
            if k < prev.0.len() {
                assert(words_state(s, n).0[k] == prev.0[k]);
            }
        }
        if !is_space(s[n - 1]) {
            let c = prev.1.push(s[n - 1]);
            assert forall|i: int| 0 <= i < c.len() implies c[i] != ' ' by {
                if i < prev.1.len() {
                    assert(c[i] == prev.1[i]);
                }
            }
        }
    }
}

/// Every word of a text holds no space.
pub proof fn lemma_words_single(s: Seq<char>)
    ensures
        forall|k: int| 0 <= k < words(s).len() ==> no_space(#[trigger] words(s)[k]),
{
    lemma_words_no_space(s, s.len());
    let st = words_state(s, s.len());
    assert forall|k: int| 0 <= k < words(s).len() implies no_space(#[trigger] words(s)[k]) by {
        if k < st.0.len() {
            assert(words(s)[k] == st.0[k]);
        }
    }
}

/// The lines so far are each within the width or a single word, and none
/// could have taken the first word of the line after it.
pub open spec fn greedy_lines(lines: Seq<Seq<char>>, width: nat) -> bool {
    &&& forall|i: int|
        0 <= i < lines.len() ==> (#[trigger] lines[i]).len() <= width || no_space(lines[i])
    &&& forall|i: int|
        0 <= i < lines.len() - 1 ==> (#[trigger] lines[i]).len() + 1 + first_word(lines[i + 1]).len()
            > width
}

proof fn lemma_wrap_greedy(ws: Seq<Seq<char>>, width: nat, n: nat)
    requires
        n <= ws.len(),
        forall|k: int| 0 <= k < ws.len() ==> (#[trigger] ws[k]).len() > 0 && no_space(ws[k]),
    ensures
        greedy_lines(wrap_lines_upto(ws, width, n), width),
        n > 0 ==> wrap_state(ws, width, n).1.len() > 0,
        n == 0 ==> wrap_state(ws, width, n).0.len() == 0,
    decreases n,
{
    if n > 0 {
        lemma_wrap_greedy(ws, width, (n - 1) as nat);
        let prev = wrap_state(ws, width, (n - 1) as nat);
        let l0 = wrap_lines_upto(ws, width, (n - 1) as nat);
        let w = ws[n - 1];
        assert(w.len() > 0 && no_space(w));
        lemma_first_word_of_word(w);
        let l1 = wrap_lines_upto(ws, width, n);
        if prev.1.len() + w.len() + 1 > width && prev.1.len() > 0 {
            assert(l1 =~= l0.push(w));
            assert forall|i: int| 0 <= i < l1.len() - 1 implies (#[trigger] l1[i]).len() + 1
                + first_word(l1[i + 1]).len() > width by {
                if i < l1.len() - 2 {
                    assert(l1[i] == l0[i] && l1[i + 1] == l0[i + 1]);
                }
            }
            assert forall|i: int| 0 <= i < l1.len() implies (#[trigger] l1[i]).len() <= width
                || no_space(l1[i]) by {
                if i < l0.len() {
                    assert(l1[i] == l0[i]);
                }
            }
        } else if prev.1.len() == 0 {
            assert(n - 1 == 0);
            assert(l1 =~= seq![w]);
        } else {
            let c = prev.1 + seq![' '] + w;
            lemma_first_word_append(prev.1, w);
            assert(l0 =~= prev.0.push(prev.1));
            assert(l1 =~= prev.0.push(c));
            assert forall|i: int| 0 <= i < l1.len() - 1 implies (#[trigger] l1[i]).len() + 1
                + first_word(l1[i + 1]).len() > width by {
                assert(l1[i] == l0[i]);
                if i + 1 < l1.len() - 1 {
                    assert(l1[i + 1] == l0[i + 1]);
                } else {
                    assert(first_word(l1[i + 1]) == first_word(l0[i + 1]));
                }
            }
            assert forall|i: int| 0 <= i < l1.len() implies (#[trigger] l1[i]).len() <= width
                || no_space(l1[i]) by {
                if i < l1.len() - 1 {
                    assert(l1[i] == l0[i]);
                }
            }
        }
    }
}

/// Wrapping is greedy: each line is within the width unless it is a single
/// word longer than the width, and no line could have taken the first word
/// of the line after it.
pub proof fn law_wrap_greedy(text: Seq<char>, width: nat)
    ensures
        greedy_lines(spec_wrap_text(text, width), width),
{
    let ws = words(text);
    lemma_words_not_empty(text);
    lemma_words_single(text);
    lemma_wrap_greedy(ws, width, ws.len());
    let lines = wrap_lines_upto(ws, width, ws.len());
    if lines.len() == 0 {
        let one: Seq<Seq<char>> = seq![seq![]];
        assert(no_space(one[0]));
        assert(greedy_lines(one, width));
    }
}

/// The words of `text`, each as its own string.
pub fn split_words(text: &str) -> (r: Vec<&str>)
    ensures
        r@.map_values(|w: &str| w@) == words(text@),
{
    let n = text.unicode_len();
    let mut r: Vec<&str> = Vec::new();
    let mut start: usize = 0;
    let mut i: usize = 0;
    while i < n
        invariant
            i <= n,
            n == text@.len(),
            start <= i,
            r@.map_values(|w: &str| w@) == words_state(text@, i as nat).0,
            words_state(text@, i as nat).1 == text@.subrange(start as int, i as int),
        decreases n - i,
    {
        let c = text.get_char(i);
        if char_is_space(c) {
            if start < i {
                let w = text.substring_char(start, i);
                r.push(w);
            }
            start = i + 1;
        }
        assert(text@.subrange(start as int, (i + 1) as int) =~= words_state(text@, (i + 1) as nat).1);
        assert(r@.map_values(|w: &str| w@) =~= words_state(text@, (i + 1) as nat).0);
        i = i + 1;
    }
    if start < n {
        let w = text.substring_char(start, n);
        r.push(w);
    }
    assert(r@.map_values(|w: &str| w@) =~= words(text@));
    r
}

/// Simple word-wrapping: split text at word boundaries to fit `line_width`.
///
/// Widths are measured in characters, not bytes, so Cyrillic text wraps at
/// the intended column.
pub fn wrap_text(text: &str, line_width: usize) -> (r: Vec<String>)
    ensures
        r@.map_values(|l: String| l@) == spec_wrap_text(text@, line_width as nat),
{
    let ws = split_words(text);
    let ghost wv = words(text@);
    let mut result: Vec<String> = Vec::new();
    let mut current = String::new();
    let mut i: usize = 0;
    while i < ws.len()
        invariant
            i <= ws@.len(),
            ws@.map_values(|w: &str| w@) == wv,
            wv == words(text@),
            result@.map_values(|l: String| l@) == wrap_state(wv, line_width as nat, i as nat).0,
            current@ == wrap_state(wv, line_width as nat, i as nat).1,
        decreases ws@.len() - i,
    {
        let word = ws[i];
        let cur_len = current.unicode_len();
        let word_len = word.unicode_len();
        // cur_len + word_len + 1 > line_width, without overflow
        let too_long = cur_len >= line_width || word_len >= line_width - cur_len;
        if too_long && cur_len > 0 {
            result.push(current);
            current = String::new();
        }
        if current.unicode_len() == 0 {
            current.append(word);
        } else {
            proof {
                reveal_strlit(" ");
            }
            current.append(" ");
            current.append(word);
        }
        assert(word@ == wv[i as int]);
        assert(result@.map_values(|l: String| l@) =~= wrap_state(
            wv,
            line_width as nat,
            (i + 1) as nat,
        ).0);
        assert(current@ =~= wrap_state(wv, line_width as nat, (i + 1) as nat).1);
        i = i + 1;
    }
    if current.unicode_len() > 0 {
        result.push(current);
    }
    if result.len() == 0 {
        result.push(String::new());
    }
    assert(result@.map_values(|l: String| l@) =~= spec_wrap_text(text@, line_width as nat));
    result
}


// ---------------------------------------------------------------------------
// Runs of non-space characters
// ---------------------------------------------------------------------------

/// Reading `s` from position `n`, with `cur` non-space characters just read:
/// whether no run of non-space characters grows longer than `b`.
pub open spec fn runs_fit(s: Seq<char>, n: nat, cur: nat, b: nat) -> bool
    decreases s.len() - n,
{
    if n >= s.len() {
        true
    } else if is_space(s[n as int]) {
        runs_fit(s, n + 1, 0, b)
    } else {
        cur + 1 <= b && runs_fit(s, n + 1, cur + 1, b)
    }
}

/// Reading `s` from position `n`, with `cur` non-space characters just read:
/// the length of the run of non-space characters at the end.
pub open spec fn run_at_end(s: Seq<char>, n: nat, cur: nat) -> nat
    decreases s.len() - n,
{
    if n >= s.len() {
        cur
    } else if is_space(s[n as int]) {
        run_at_end(s, n + 1, 0)
    } else {
        run_at_end(s, n + 1, cur + 1)
    }
}

/// While the runs of `s` fit `b`, so do the words read so far and the word
/// in progress.
proof fn lemma_runs_words(s: Seq<char>, n: nat, b: nat)
    requires
        n <= s.len(),
        runs_fit(s, 0, 0, b),
    ensures
        runs_fit(s, n, words_state(s, n).1.len(), b),
        words_state(s, n).1.len() <= b,
        forall|k: int|
            0 <= k < words_state(s, n).0.len() ==> (#[trigger] words_state(s, n).0[k]).len() <= b,
    decreases n,
{
    if n > 0 {
        lemma_runs_words(s, (n - 1) as nat, b);
        let prev = words_state(s, (n - 1) as nat);
        assert forall|k: int| 0 <= k < words_state(s, n).0.len() implies (
        #[trigger] words_state(s, n).0[k]).len() <= b by {
            if k < prev.0.len() {
                assert(words_state(s, n).0[k] == prev.0[k]);
            }
        }
    }
}

/// A text whose runs of non-space characters fit `b` has no word longer than
/// `b`.
pub proof fn lemma_runs_fit_words(s: Seq<char>, b: nat)
    requires
        runs_fit(s, 0, 0, b),
    ensures
        forall|k: int| 0 <= k < words(s).len() ==> (#[trigger] words(s)[k]).len() <= b,
{
    lemma_runs_words(s, s.len(), b);
    let st = words_state(s, s.len());
    assert forall|k: int| 0 <= k < words(s).len() implies (#[trigger] words(s)[k]).len() <= b by {
        if k < st.0.len() {
            assert(words(s)[k] == st.0[k]);
        }
    }
}

/// Reading past the end of `x` in `x + y` reads `y`.
proof fn lemma_runs_shift(x: Seq<char>, y: Seq<char>, m: nat, cur: nat, b: nat)
    ensures
        runs_fit(x + y, x.len() + m, cur, b) == runs_fit(y, m, cur, b),
        run_at_end(x + y, x.len() + m, cur) == run_at_end(y, m, cur),
    decreases y.len() - m,
{
    if m < y.len() {
        assert((x + y)[(x.len() + m) as int] == y[m as int]);
        lemma_runs_shift(x, y, m + 1, 0, b);
        lemma_runs_shift(x, y, m + 1, cur + 1, b);
    }
}

/// The runs of `x + y` fit when those of `x` do and those of `y` do after
/// the run that `x` ends with.
pub proof fn lemma_runs_concat(x: Seq<char>, y: Seq<char>, n: nat, cur: nat, b: nat)
    requires
        n <= x.len(),
    ensures
        runs_fit(x + y, n, cur, b) == (runs_fit(x, n, cur, b) && runs_fit(
            y,
            0,
            run_at_end(x, n, cur),
            b,
        )),
        run_at_end(x + y, n, cur) == run_at_end(y, 0, run_at_end(x, n, cur)),
    decreases x.len() - n,
{
    if n == x.len() {
        lemma_runs_shift(x, y, 0, cur, b);
    } else {
        assert((x + y)[n as int] == x[n as int]);
        lemma_runs_concat(x, y, n + 1, 0, b);
        lemma_runs_concat(x, y, n + 1, cur + 1, b);
    }
}

/// Whether `w` is a word: no white space in it.
pub open spec fn is_word(w: Seq<char>) -> bool {
    forall|i: int| 0 <= i < w.len() ==> !is_space(#[trigger] w[i])
}

/// Two words written together make a word.
pub proof fn lemma_word_concat(x: Seq<char>, y: Seq<char>)
    requires
        is_word(x),
        is_word(y),
    ensures
        is_word(x + y),
{
    assert forall|i: int| 0 <= i < (x + y).len() implies !is_space(#[trigger] (x + y)[i]) by {
        if i < x.len() {
            assert((x + y)[i] == x[i]);
        } else {
            assert((x + y)[i] == y[i - x.len()]);
        }
    }
}

/// A word is one run.
proof fn lemma_runs_word(w: Seq<char>, n: nat, cur: nat, b: nat)
    requires
        is_word(w),
        n <= w.len(),
    ensures
        runs_fit(w, n, cur, b) == (n == w.len() || cur + (w.len() - n) <= b),
        run_at_end(w, n, cur) == cur + (w.len() - n),
    decreases w.len() - n,
{
    if n < w.len() {
        lemma_runs_word(w, n + 1, cur + 1, b);
    }
}

/// The runs of parts joined by `, ` fit `b` when those of each part do and
/// each part ends with a run shorter than `b` (the comma joins it); the last
/// part's run is the run at the end.
pub proof fn lemma_runs_join(ps: Seq<Seq<char>>, b: nat)
    requires
        ps.len() > 0,
        forall|k: int|
            0 <= k < ps.len() ==> runs_fit(#[trigger] ps[k], 0, 0, b) && run_at_end(ps[k], 0, 0) + 1
                <= b,
    ensures
        runs_fit(join(ps, ", "@), 0, 0, b),
        run_at_end(join(ps, ", "@), 0, 0) == run_at_end(ps.last(), 0, 0),
    decreases ps.len(),
{
    reveal_strlit(", ");
    if ps.len() > 1 {
        let dl = ps.drop_last();
        assert(dl.last() == ps[ps.len() - 2]);
        assert forall|k: int| 0 <= k < dl.len() implies runs_fit(#[trigger] dl[k], 0, 0, b)
            && run_at_end(dl[k], 0, 0) + 1 <= b by {
            assert(dl[k] == ps[k]);
        }
        lemma_runs_join(dl, b);
        let j = join(dl, ", "@);
        lemma_runs_concat(j, ", "@, 0, 0, b);
        reveal_with_fuel(runs_fit, 3);
        reveal_with_fuel(run_at_end, 3);
        assert(is_space(", "@[1]));
        assert(!is_space(", "@[0]));
        lemma_runs_concat(j + ", "@, ps.last(), 0, 0, b);
    }
}

/// A word of at most `b - 1` characters is one run that fits `b` with a
/// comma after it.
pub proof fn lemma_word_runs(w: Seq<char>, b: nat)
    requires
        is_word(w),
        w.len() + 1 <= b,
    ensures
        runs_fit(w, 0, 0, b),
        run_at_end(w, 0, 0) + 1 <= b,
{
    lemma_runs_word(w, 0, 0, b);
}

} // verus!
