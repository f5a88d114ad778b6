//! Dictionary-based spelling correction of English words.

use vstd::prelude::*;
use symspell::{AsciiStringStrategy, SymSpell, Verbosity};
use crate::text::{chars_of, string_from_chars};

verus! {

/// A spelling dictionary built from the lines of a word/frequency file.
///
/// It holds a `SymSpell<AsciiStringStrategy>`, whose type parameter is
/// bounded by a trait of the `symspell` crate; the struct is kept opaque, and
/// what it holds is named by `loaded_lines`.
#[verifier::external_body]
pub struct SpellDictionary {
    speller: SymSpell<AsciiStringStrategy>,
}

/// A spelling suggestion: the dictionary term and its edit distance.
pub struct SpellSuggestion {
    pub term: String,
    pub distance: i64,
}

/// The lines a dictionary was loaded from, in order.
pub uninterp spec fn loaded_lines(c: SpellDictionary) -> Seq<Seq<char>>;

/// What `SymSpell::lookup(word, Verbosity::Closest, 1)` returns, as
/// (term, distance) pairs, for a dictionary loaded from `lines` by
/// `load_dictionary_line(line, 0, 1, " ")`, starting from `SymSpell::default()`.
pub uninterp spec fn symspell_closest(lines: Seq<Seq<char>>, word: Seq<char>) -> Seq<(Seq<char>, i64)>;

/// The (term, distance) pairs of a list of suggestions.
pub open spec fn suggestion_pairs(s: Seq<SpellSuggestion>) -> Seq<(Seq<char>, i64)> {
    s.map_values(|x: SpellSuggestion| (x.term@, x.distance))
}

impl SpellDictionary {
    /// `SymSpell::default()`: a dictionary with no lines loaded.
    #[verifier::external_body]
    fn empty() -> (r: Self)
        ensures
            loaded_lines(r) == Seq::<Seq<char>>::empty(),
    {
        SpellDictionary { speller: SymSpell::default() }
    }

    /// `SymSpell::load_dictionary_line(line, 0, 1, " ")`: the line is added
    /// to the lines the dictionary was loaded from.
    #[verifier::external_body]
    fn load_line(&mut self, line: &str)
        ensures
            loaded_lines(*final(self)) == loaded_lines(*old(self)).push(line@),
    {
        self.speller.load_dictionary_line(line, 0, 1, " ");
    }

    /// `SymSpell::lookup(word, Verbosity::Closest, 1)`, each suggestion
    /// converted to a `SpellSuggestion`. The call panics when the maximum
    /// dictionary edit distance is below 1; a dictionary only ever holds a
    /// `SymSpell::default()` (distance 2) with lines loaded, which keep it.
    #[verifier::external_body]
    fn lookup_closest(&self, word: &str) -> (r: Vec<SpellSuggestion>)
        ensures
            suggestion_pairs(r@) == symspell_closest(loaded_lines(*self), word@),
    {
        self.speller.lookup(word, Verbosity::Closest, 1).into_iter().map(
            |s| SpellSuggestion { term: s.term, distance: s.distance },
        ).collect()
    }

    /// A dictionary loaded with `lines`, in order.
    pub fn from_lines(lines: &Vec<String>) -> (r: Self)
        ensures
            loaded_lines(r) == lines@.map_values(|l: String| l@),
    {
        let mut c = SpellDictionary::empty();
        let mut i: usize = 0;
        while i < lines.len()
            invariant
                i <= lines@.len(),
                loaded_lines(c) == lines@.take(i as int).map_values(|l: String| l@),
            decreases lines@.len() - i,
        {
            c.load_line(lines[i].as_str());
            assert(lines@.take(i + 1).map_values(|l: String| l@) =~= lines@.take(i as int).map_values(
                |l: String| l@,
            ).push(lines@[i as int]@));
            i = i + 1;
        }
        assert(lines@.take(lines@.len() as int) =~= lines@);
        c
    }
}

/// `char::is_whitespace`: the Unicode `White_Space` property.
pub open spec fn is_whitespace(c: char) -> bool {
    ||| c == ' '
    ||| ('\t' <= c && c <= '\r')
    ||| c == '\u{85}'
    ||| c == '\u{A0}'
    ||| c == '\u{1680}'
    ||| ('\u{2000}' <= c && c <= '\u{200A}')
    ||| c == '\u{2028}'
    ||| c == '\u{2029}'
    ||| c == '\u{202F}'
    ||| c == '\u{205F}'
    ||| c == '\u{3000}'
}

/// `char::is_ascii_alphabetic`.
pub open spec fn is_ascii_alpha(c: char) -> bool {
    ('a' <= c && c <= 'z') || ('A' <= c && c <= 'Z')
}

/// The code of `c` after `char::to_ascii_lowercase`.
pub open spec fn ascii_lower_code(c: char) -> u32 {
    if 'A' <= c && c <= 'Z' { (c as u32 + 32) as u32 } else { c as u32 }
}

/// `t` is `a.to_ascii_lowercase()`, compared code by code.
pub open spec fn is_ascii_lowercase_of(t: Seq<char>, a: Seq<char>) -> bool {
    &&& t.len() == a.len()
    &&& forall|i: int| 0 <= i < t.len() ==> #[trigger] t[i] as u32 == ascii_lower_code(a[i])
}

/// `str::split_whitespace`: the maximal runs of non-whitespace characters.
pub open spec fn split_ws(s: Seq<char>) -> Seq<Seq<char>>
    decreases s.len(),
{
    if s.len() == 0 {
        Seq::empty()
    } else {
        let w = split_ws(s.drop_last());
        if is_whitespace(s.last()) {
            w
        } else if s.len() > 1 && !is_whitespace(s[s.len() - 2]) {
            w.update(w.len() - 1, w.last().push(s.last()))
        } else {
            w.push(seq![s.last()])
        }
    }
}

/// The words of `ws` joined by single spaces.
pub open spec fn join_space(ws: Seq<Seq<char>>) -> Seq<char>
    decreases ws.len(),
{
    if ws.len() == 0 {
        Seq::empty()
    } else if ws.len() == 1 {
        ws[0]
    } else {
        join_space(ws.drop_last()) + seq![' '] + ws.last()
    }
}

/// Number of leading characters of `w` that are not ASCII letters.
pub open spec fn lead_len(w: Seq<char>) -> nat
    decreases w.len(),
{
    if w.len() == 0 || is_ascii_alpha(w[0]) { 0 } else { 1 + lead_len(w.drop_first()) }
}

/// Number of trailing characters of `w` that are not ASCII letters.
pub open spec fn trail_len(w: Seq<char>) -> nat
    decreases w.len(),
{
    if w.len() == 0 || is_ascii_alpha(w.last()) { 0 } else { 1 + trail_len(w.drop_last()) }
}

/// `w.trim_matches(|c| !c.is_ascii_alphabetic())`.
pub open spec fn alpha_core(w: Seq<char>) -> Seq<char> {
    if lead_len(w) == w.len() {
        Seq::empty()
    } else {
        w.subrange(lead_len(w) as int, w.len() - trail_len(w))
    }
}

/// A word is looked up when its letter core has at least three characters,
/// all ASCII letters.
pub open spec fn is_candidate(w: Seq<char>) -> bool {
    let a = alpha_core(w);
    a.len() >= 3 && forall|i: int| 0 <= i < a.len() ==> #[trigger] is_ascii_alpha(a[i])
}

/// The suggestion applies when it is at distance 1 and is not merely the
/// lower-case form of the core.
pub open spec fn suggestion_applies(w: Seq<char>, s: (Seq<char>, i64)) -> bool {
    s.1 == 1 && !is_ascii_lowercase_of(s.0, alpha_core(w))
}

/// Whether a word is changed by its suggestion.
pub open spec fn word_fixed(w: Seq<char>, s: Option<(Seq<char>, i64)>) -> bool {
    match s {
        Some(sg) => is_candidate(w) && suggestion_applies(w, sg),
        None => false,
    }
}

/// The corrected word: the core replaced by the suggested term. (The core's
/// first occurrence in the word is where it stands, as it starts with a
/// letter and nothing before it is one.)
pub open spec fn corrected_word(w: Seq<char>, s: Option<(Seq<char>, i64)>) -> Seq<char> {
    if word_fixed(w, s) {
        w.take(lead_len(w) as int) + s.unwrap().0 + w.skip(w.len() - trail_len(w))
    } else {
        w
    }
}

/// The (term, distance) pair of an optional suggestion.
pub open spec fn opt_pair(o: Option<SpellSuggestion>) -> Option<(Seq<char>, i64)> {
    match o {
        Some(x) => Some((x.term@, x.distance)),
        None => None,
    }
}

/// The corrected words of `ws` with suggestions `ss`, position by position.
pub open spec fn corrected_words(ws: Seq<Seq<char>>, ss: Seq<Option<(Seq<char>, i64)>>) -> Seq<Seq<char>> {
    Seq::new(ws.len(), |i: int| corrected_word(ws[i], ss[i]))
}

/// How many words the suggestions change.
pub open spec fn fix_count(ws: Seq<Seq<char>>, ss: Seq<Option<(Seq<char>, i64)>>) -> nat
    decreases ws.len(),
{
    if ws.len() == 0 {
        0
    } else {
        fix_count(ws.drop_last(), ss.drop_last()) + if word_fixed(ws.last(), ss[ws.len() - 1]) {
            1nat
        } else {
            0nat
        }
    }
}

/// The suggestion a word gets from a dictionary loaded from `lines`: the
/// first closest suggestion for its core, when the word is a candidate.
pub open spec fn word_suggestion(lines: Seq<Seq<char>>, w: Seq<char>) -> Option<(Seq<char>, i64)> {
    if is_candidate(w) && symspell_closest(lines, alpha_core(w)).len() > 0 {
        Some(symspell_closest(lines, alpha_core(w))[0])
    } else {
        None
    }
}

/// The suggestions for each word of `text`.
pub open spec fn text_suggestions(lines: Seq<Seq<char>>, text: Seq<char>) -> Seq<Option<(Seq<char>, i64)>> {
    split_ws(text).map_values(|w: Seq<char>| word_suggestion(lines, w))
}

fn is_whitespace_exec(c: char) -> (r: bool)
    ensures
        r == is_whitespace(c),
{
    c == ' ' || ('\t' <= c && c <= '\r') || c == '\u{85}' || c == '\u{A0}' || c == '\u{1680}' || (
    '\u{2000}' <= c && c <= '\u{200A}') || c == '\u{2028}' || c == '\u{2029}' || c == '\u{202F}'
        || c == '\u{205F}' || c == '\u{3000}'
}

fn is_ascii_alpha_exec(c: char) -> (r: bool)
    ensures
        r == is_ascii_alpha(c),
{
    ('a' <= c && c <= 'z') || ('A' <= c && c <= 'Z')
}

/// The views of a list of character vectors.
pub open spec fn char_views(v: Seq<Vec<char>>) -> Seq<Seq<char>> {
    v.map_values(|w: Vec<char>| w@)
}

/// The words of `text`, as `str::split_whitespace` gives them.
pub fn split_whitespace_words(text: &Vec<char>) -> (r: Vec<Vec<char>>)
    ensures
        char_views(r@) == split_ws(text@),
{
    let mut done: Vec<Vec<char>> = Vec::new();
    let mut cur: Vec<char> = Vec::new();
    let mut i: usize = 0;
    assert(text@.take(0) =~= Seq::<char>::empty());
    while i < text.len()
        invariant
            i <= text@.len(),
            cur@.len() > 0 <==> (i > 0 && !is_whitespace(text@[i - 1])),
            split_ws(text@.take(i as int)) == if cur@.len() > 0 {
                char_views(done@).push(cur@)
            } else {
                char_views(done@)
            },
        decreases text@.len() - i,
    {
        let c = text[i];
        let ghost p = text@.take(i + 1);
        assert(p.drop_last() =~= text@.take(i as int));
        assert(p.last() == c);
        if is_whitespace_exec(c) {
            if cur.len() > 0 {
                let w = cur;
                cur = Vec::new();
                let ghost before = done@;
                done.push(w);
                assert(char_views(done@) =~= char_views(before).push(w@));
            }
        } else {
            if cur.len() > 0 {
                let ghost before = char_views(done@).push(cur@);
                cur.push(c);
                assert(p.len() > 1 && !is_whitespace(p[p.len() - 2]));
                assert(before.update(before.len() - 1, before.last().push(c)) =~= char_views(done@).push(cur@));
            } else {
                cur.push(c);
                assert(cur@ =~= seq![c]);
            }
        }
        i = i + 1;
    }
    assert(text@.take(text@.len() as int) =~= text@);
    if cur.len() > 0 {
        let ghost before = char_views(done@);
        done.push(cur);
        assert(char_views(done@) =~= before.push(cur@));
    }
    done
}

proof fn lemma_lead_len(w: Seq<char>, k: int)
    requires
        0 <= k <= w.len(),
        forall|i: int| 0 <= i < k ==> !#[trigger] is_ascii_alpha(w[i]),
        k < w.len() ==> is_ascii_alpha(w[k]),
    ensures
        lead_len(w) == k,
    decreases k,
{
    if k > 0 {
        assert forall|i: int| 0 <= i < k - 1 implies !#[trigger] is_ascii_alpha(w.drop_first()[i]) by {
            assert(w.drop_first()[i] == w[i + 1]);
        }
        if k - 1 < w.drop_first().len() {
            assert(w.drop_first()[k - 1] == w[k]);
        }
        lemma_lead_len(w.drop_first(), k - 1);
    }
}

proof fn lemma_trail_len(w: Seq<char>, k: int)
    requires
        0 <= k <= w.len(),
        forall|i: int| w.len() - k <= i < w.len() ==> !#[trigger] is_ascii_alpha(w[i]),
        k < w.len() ==> is_ascii_alpha(w[w.len() - 1 - k]),
    ensures
        trail_len(w) == k,
    decreases k,
{
    if k > 0 {
        let d = w.drop_last();
        assert forall|i: int| d.len() - (k - 1) <= i < d.len() implies !#[trigger] is_ascii_alpha(d[i]) by {
            assert(d[i] == w[i]);
        }
        if k - 1 < d.len() {
            assert(d[d.len() - 1 - (k - 1)] == w[w.len() - 1 - k]);
        }
        lemma_trail_len(d, k - 1);
    }
}

/// `(lead_len(w), trail_len(w))`.
fn trim_lengths(w: &Vec<char>) -> (r: (usize, usize))
    ensures
        r.0 == lead_len(w@),
        r.1 == trail_len(w@),
        r.0 <= w@.len(),
        r.1 <= w@.len(),
        r.0 < w@.len() ==> r.0 + r.1 < w@.len(),
        r.0 == w@.len() ==> r.1 == w@.len(),
{
    let n = w.len();
    let mut p: usize = 0;
    while p < n && !is_ascii_alpha_exec(w[p])
        invariant
            p <= n == w@.len(),
            forall|i: int| 0 <= i < p ==> !#[trigger] is_ascii_alpha(w@[i]),
        decreases n - p,
    {
        p = p + 1;
    }
    proof {
        lemma_lead_len(w@, p as int);
    }
    let mut q: usize = 0;
    while q < n && !is_ascii_alpha_exec(w[n - 1 - q])
        invariant
            q <= n == w@.len(),
            forall|i: int| n - q <= i < n ==> !#[trigger] is_ascii_alpha(w@[i]),
        decreases n - q,
    {
        q = q + 1;
    }
    proof {
        lemma_trail_len(w@, q as int);
        if p < n {
            assert(is_ascii_alpha(w@[p as int]));
            if p + q >= n {
                assert(!is_ascii_alpha(w@[p as int]));
            }
        } else {
            if q < n {
                assert(is_ascii_alpha(w@[n - 1 - q]));
                assert(!is_ascii_alpha(w@[n - 1 - q]));
            }
        }
    }
    (p, q)
}

/// `term` is the ASCII lower-case form of `core`.
fn is_lowercase_of_exec(term: &Vec<char>, core: &Vec<char>) -> (r: bool)
    ensures
        r == is_ascii_lowercase_of(term@, core@),
{
    if term.len() != core.len() {
        return false;
    }
    let mut i: usize = 0;
    while i < term.len()
        invariant
            i <= term@.len() == core@.len(),
            forall|k: int| 0 <= k < i ==> #[trigger] term@[k] as u32 == ascii_lower_code(core@[k]),
        decreases term@.len() - i,
    {
        let a = core[i];
        let code: u32 = if 'A' <= a && a <= 'Z' { (a as u32) + 32 } else { a as u32 };
        if (term[i] as u32) != code {
            return false;
        }
        i = i + 1;
    }
    true
}

/// `v[from..to]`.
fn slice_chars(v: &Vec<char>, from: usize, to: usize) -> (r: Vec<char>)
    requires
        from <= to <= v@.len(),
    ensures
        r@ == v@.subrange(from as int, to as int),
{
    let mut out: Vec<char> = Vec::new();
    let mut i: usize = from;
    while i < to
        invariant
            from <= i <= to <= v@.len(),
            out@ == v@.subrange(from as int, i as int),
        decreases to - i,
    {
        out.push(v[i]);
        i = i + 1;
        assert(out@ =~= v@.subrange(from as int, i as int));
    }
    out
}

/// Appends `b` to `a`.
fn extend_chars(a: &mut Vec<char>, b: &Vec<char>)
    ensures
        final(a)@ == old(a)@ + b@,
{
    let mut i: usize = 0;
    while i < b.len()
        invariant
            i <= b@.len(),
            a@ == old(a)@ + b@.take(i as int),
        decreases b@.len() - i,
    {
        a.push(b[i]);
        i = i + 1;
        assert(a@ =~= old(a)@ + b@.take(i as int));
    }
    assert(b@.take(b@.len() as int) =~= b@);
}

/// The core of a word when it is a candidate for lookup.
fn candidate_core(w: &Vec<char>) -> (r: Option<Vec<char>>)
    ensures
        r is Some <==> is_candidate(w@),
        r matches Some(c) ==> c@ == alpha_core(w@),
{
    let (p, q) = trim_lengths(w);
    if p == w.len() {
        return None;
    }
    let core = slice_chars(w, p, w.len() - q);
    if core.len() < 3 {
        return None;
    }
    let mut i: usize = 0;
    while i < core.len()
        invariant
            i <= core@.len(),
            core@.len() >= 3,
            core@ == alpha_core(w@),
            forall|k: int| 0 <= k < i ==> #[trigger] is_ascii_alpha(core@[k]),
        decreases core@.len() - i,
    {
        if !is_ascii_alpha_exec(core[i]) {
            assert(!is_ascii_alpha(alpha_core(w@)[i as int]));
            return None;
        }
        i = i + 1;
    }
    Some(core)
}

/// Corrects one word with its suggestion; also tells whether it changed.
pub fn correct_word(w: &Vec<char>, s: &Option<SpellSuggestion>) -> (r: (Vec<char>, bool))
    ensures
        r.0@ == corrected_word(w@, opt_pair(*s)),
        r.1 == word_fixed(w@, opt_pair(*s)),
{
    match s {
        None => (w.clone(), false),
        Some(sg) => {
            match candidate_core(w) {
                None => (w.clone(), false),
                Some(core) => {
                    let term = chars_of(sg.term.as_str());
                    if sg.distance == 1 && !is_lowercase_of_exec(&term, &core) {
                        let (p, q) = trim_lengths(w);
                        let mut out = slice_chars(w, 0, p);
                        extend_chars(&mut out, &term);
                        let tail = slice_chars(w, w.len() - q, w.len());
                        extend_chars(&mut out, &tail);
                        assert(w@.subrange(0, p as int) =~= w@.take(p as int));
                        assert(w@.subrange(w@.len() - q, w@.len() as int) =~= w@.skip(w@.len() - q));
                        (out, true)
                    } else {
                        (w.clone(), false)
                    }
                },
            }
        },
    }
}

/// `join_space` of the words.
fn join_with_space(ws: &Vec<Vec<char>>) -> (r: Vec<char>)
    ensures
        r@ == join_space(char_views(ws@)),
{
    let mut out: Vec<char> = Vec::new();
    let mut i: usize = 0;
    assert(char_views(ws@).take(0) =~= Seq::<Seq<char>>::empty());
    while i < ws.len()
        invariant
            i <= ws@.len(),
            out@ == join_space(char_views(ws@).take(i as int)),
        decreases ws@.len() - i,
    {
        let ghost t = char_views(ws@).take(i + 1);
        assert(t.drop_last() =~= char_views(ws@).take(i as int));
        assert(t.last() == ws@[i as int]@);
        if i > 0 {
            out.push(' ');
        } else {
            assert(t =~= seq![ws@[0]@]);
        }
        extend_chars(&mut out, &ws[i]);
        i = i + 1;
    }
    assert(char_views(ws@).take(ws@.len() as int) =~= char_views(ws@));
    out
}

/// The text that the spelling pass gives with suggestions `ss` for the words
/// of `text`: the corrected words joined by single spaces.
pub open spec fn spelled_text(text: Seq<char>, ss: Seq<Option<(Seq<char>, i64)>>) -> Seq<char> {
    join_space(corrected_words(split_ws(text), ss))
}

/// The pairs of a list of optional suggestions.
pub open spec fn opt_pairs(ss: Seq<Option<SpellSuggestion>>) -> Seq<Option<(Seq<char>, i64)>> {
    ss.map_values(|o: Option<SpellSuggestion>| opt_pair(o))
}

/// The spelling pass changes each word at most once: it reports no more
/// fixes than the text has words.
pub proof fn law_spell_fixes_bounded(ws: Seq<Seq<char>>, ss: Seq<Option<(Seq<char>, i64)>>)
    ensures
        fix_count(ws, ss) <= ws.len(),
    decreases ws.len(),
{
    if ws.len() > 0 {
        law_spell_fixes_bounded(ws.drop_last(), ss.drop_last());
    }
}

/// A word whose letter core (the word trimmed of non-letters at both ends)
/// is shorter than three characters, or holds a character that is not an
/// ASCII letter (such as the apostrophe of a contraction), is not looked up,
/// is never changed and is never counted as a fix, whatever suggestion it
/// is given.
pub proof fn law_spell_skips_non_letter_core(lines: Seq<Seq<char>>, w: Seq<char>, s: Option<(Seq<char>, i64)>)
    requires
        alpha_core(w).len() < 3 || exists|i: int| 0 <= i < alpha_core(w).len() && !is_ascii_alpha(
            #[trigger] alpha_core(w)[i],
        ),
    ensures
        word_suggestion(lines, w) is None,
        corrected_word(w, s) == w,
        !word_fixed(w, s),
{
}

/// A word whose letter core is at least three ASCII letters, given a term
/// at edit distance 1 that is not just the core in lower case, has its core
/// replaced by that term, keeping what stands before and after the core;
/// with any other distance it stays as it is.
pub proof fn law_spell_fixes_letter_word(w: Seq<char>, term: Seq<char>, distance: i64)
    requires
        alpha_core(w).len() >= 3,
        forall|i: int| 0 <= i < alpha_core(w).len() ==> is_ascii_alpha(#[trigger] alpha_core(w)[i]),
        !is_ascii_lowercase_of(term, alpha_core(w)),
    ensures
        distance == 1 ==> word_fixed(w, Some((term, distance))) && corrected_word(w, Some((term, distance)))
            == w.take(lead_len(w) as int) + term + w.skip(w.len() - trail_len(w)),
        distance != 1 ==> !word_fixed(w, Some((term, distance))) && corrected_word(w, Some((term, distance))) == w,
{
}

/// Applies one suggestion per word of `text` (in the order of
/// `split_whitespace`): a word whose letter core has at least three ASCII
/// letters, all letters, gets its core replaced by a suggestion at edit
/// distance 1 that is not just the core in lower case. The words are joined
/// by single spaces. Returns the text and how many words changed.
pub fn correct_words(text: &str, suggestions: &Vec<Option<SpellSuggestion>>) -> (r: (String, usize))
    requires
        suggestions@.len() == split_ws(text@).len(),
    ensures
        r.0@ == spelled_text(text@, opt_pairs(suggestions@)),
        r.1 == fix_count(split_ws(text@), opt_pairs(suggestions@)),
{
    let chars = chars_of(text);
    let words = split_whitespace_words(&chars);
    let ghost ws = split_ws(text@);
    let ghost ss = opt_pairs(suggestions@);
    let mut out: Vec<Vec<char>> = Vec::new();
    let mut fixes: usize = 0;
    let mut i: usize = 0;
    assert(ws.take(0) =~= Seq::<Seq<char>>::empty());
    while i < words.len()
        invariant
            i <= words@.len() == ws.len() == ss.len(),
            char_views(words@) == ws,
            fixes <= i,
            char_views(out@) == corrected_words(ws.take(i as int), ss.take(i as int)),
            fixes == fix_count(ws.take(i as int), ss.take(i as int)),
            ss == opt_pairs(suggestions@),
        decreases words@.len() - i,
    {
        assert(ss[i as int] == opt_pair(suggestions@[i as int]));
        assert(ws[i as int] == words@[i as int]@);
        let (cw, fixed) = correct_word(&words[i], &suggestions[i]);
        let ghost before = char_views(out@);
        let ghost out_before = out@;
        out.push(cw);
        if fixed {
            fixes = fixes + 1;
        }
        proof {
            assert(ws.take(i + 1).drop_last() =~= ws.take(i as int));
            assert(ss.take(i + 1).drop_last() =~= ss.take(i as int));
            assert(out@ == out_before.push(cw));
            assert(char_views(out@) =~= before.push(cw@));
            assert(corrected_words(ws.take(i + 1), ss.take(i + 1)) =~= before.push(cw@));
        }
        i = i + 1;
    }
    assert(ws.take(ws.len() as int) =~= ws);
    assert(ss.take(ss.len() as int) =~= ss);
    let joined = join_with_space(&out);
    (string_from_chars(joined.as_slice()), fixes)
}

/// The spelling pass over `text` with the suggestions of `dictionary`: each
/// candidate word's core is looked up and its first closest suggestion
/// applied as `correct_words` says.
pub fn run_symspell(text: &str, dictionary: &SpellDictionary) -> (r: (String, usize))
    ensures
        r.0@ == spelled_text(text@, text_suggestions(loaded_lines(*dictionary), text@)),
        r.1 == fix_count(split_ws(text@), text_suggestions(loaded_lines(*dictionary), text@)),
{
    let chars = chars_of(text);
    let words = split_whitespace_words(&chars);
    let ghost lines = loaded_lines(*dictionary);
    let mut sugs: Vec<Option<SpellSuggestion>> = Vec::new();
    let mut i: usize = 0;
    while i < words.len()
        invariant
            i <= words@.len(),
            char_views(words@) == split_ws(text@),
            lines == loaded_lines(*dictionary),
            sugs@.len() == i,
            forall|k: int| 0 <= k < i ==> #[trigger] opt_pair(sugs@[k]) == word_suggestion(lines, words@[k]@),
        decreases words@.len() - i,
    {
        let ghost w = words@[i as int]@;
        let s = match candidate_core(&words[i]) {
            None => None,
            Some(core) => {
                let core_str = string_from_chars(core.as_slice());
                let mut found = dictionary.lookup_closest(core_str.as_str());
                if found.len() > 0 {
                    let first = found.remove(0);
                    proof {
                        assert(suggestion_pairs(found@.insert(0, first)) =~= symspell_closest(lines, w.subrange(0, w.len() as int).subrange(lead_len(w) as int, w.len() - trail_len(w)))) by {
                            assert(w.subrange(0, w.len() as int) =~= w);
                        }
                    }
                    Some(first)
                } else {
                    None
                }
            },
        };
        proof {
            assert(opt_pair(s) == word_suggestion(lines, w));
        }
        sugs.push(s);
        i = i + 1;
    }
    proof {
        assert(opt_pairs(sugs@) =~= text_suggestions(lines, text@)) by {
            assert forall|k: int| 0 <= k < sugs@.len() implies opt_pairs(sugs@)[k] == text_suggestions(lines, text@)[k] by {
                assert(split_ws(text@)[k] == words@[k]@);
            }
        }
    }
    correct_words(text, &sugs)
}

} // verus!
