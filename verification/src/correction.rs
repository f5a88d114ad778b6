//! Post-processing of transcripts: spelling fixes, grammar hints and the
//! application of grammar-server replacements.

use vstd::prelude::*;
use crate::text::{chars_of, decimal, str_eq, string_from_chars, usize_to_string};
use crate::spelling::{run_symspell, spelled_text, fix_count, split_ws, text_suggestions, loaded_lines, SpellDictionary};

verus! {

/// One finding of the grammar server: the characters
/// `offset .. offset + length` of the checked text, and the suggested
/// replacements, best first.
pub struct LtMatch {
    pub offset: usize,
    pub length: usize,
    pub replacements: Vec<String>,
}

/// Inserts `m` into a sequence ordered by decreasing offset, after every
/// element whose offset is at least that of `m` (so equal offsets keep their
/// order of arrival).
pub open spec fn insert_by_offset_desc(s: Seq<LtMatch>, m: LtMatch) -> Seq<LtMatch>
    decreases s.len(),
{
    if s.len() == 0 {
        seq![m]
    } else if s[0].offset >= m.offset {
        seq![s[0]] + insert_by_offset_desc(s.drop_first(), m)
    } else {
        seq![m] + s
    }
}

/// The stable sort of `ms` by decreasing offset.
pub open spec fn sort_by_offset_desc(ms: Seq<LtMatch>) -> Seq<LtMatch>
    decreases ms.len(),
{
    if ms.len() == 0 {
        Seq::empty()
    } else {
        insert_by_offset_desc(sort_by_offset_desc(ms.drop_last()), ms.last())
    }
}

/// The state of the replacement pass: the text so far, the start of the
/// last applied replacement, and how many were applied.
pub struct PatchState {
    pub text: Seq<char>,
    pub applied_start: nat,
    pub fixes: nat,
}

/// One step of the pass: a match that reaches past the last applied start or
/// past the end of the text, or that has no replacement, is skipped; otherwise
/// its range is replaced by its first replacement.
pub open spec fn patch_step(st: PatchState, m: LtMatch) -> PatchState {
    let start = m.offset as nat;
    let end = m.offset + m.length;
    if end > st.applied_start || end > st.text.len() {
        st
    } else if m.replacements.len() > 0 {
        PatchState {
            text: st.text.take(start as int) + m.replacements[0]@ + st.text.skip(end),
            applied_start: start,
            fixes: st.fixes + 1,
        }
    } else {
        st
    }
}

/// The pass over `ms`, in order.
pub open spec fn patch_all(st: PatchState, ms: Seq<LtMatch>) -> PatchState
    decreases ms.len(),
{
    if ms.len() == 0 {
        st
    } else {
        patch_all(patch_step(st, ms[0]), ms.drop_first())
    }
}

/// What applying the grammar server's matches to `text` gives: the matches
/// taken from the highest offset down, each applied unless it overlaps one
/// already applied.
pub open spec fn lt_patched(text: Seq<char>, ms: Seq<LtMatch>) -> PatchState {
    patch_all(PatchState { text, applied_start: text.len(), fixes: 0 }, sort_by_offset_desc(ms))
}

/// No match's end overflows a `usize`.
pub open spec fn lt_matches_in_range(ms: Seq<LtMatch>) -> bool {
    forall|i: int| 0 <= i < ms.len() ==> #[trigger] ms[i].offset + ms[i].length <= usize::MAX
}

proof fn lemma_insert_position(s: Seq<LtMatch>, m: LtMatch, j: int)
    requires
        0 <= j <= s.len(),
        forall|k: int| 0 <= k < j ==> #[trigger] s[k].offset >= m.offset,
        j < s.len() ==> s[j].offset < m.offset,
    ensures
        insert_by_offset_desc(s, m) == s.insert(j, m),
    decreases s.len(),
{
    if s.len() == 0 {
        assert(s.insert(j, m) =~= seq![m]);
    } else if j == 0 {
        assert(s.insert(0, m) =~= seq![m] + s);
    } else {
        lemma_insert_position(s.drop_first(), m, j - 1);
        assert(s.insert(j, m) =~= seq![s[0]] + s.drop_first().insert(j - 1, m));
    }
}

proof fn lemma_insert_keeps_range(s: Seq<LtMatch>, m: LtMatch)
    requires
        lt_matches_in_range(s),
        m.offset + m.length <= usize::MAX,
    ensures
        lt_matches_in_range(insert_by_offset_desc(s, m)),
        insert_by_offset_desc(s, m).len() == s.len() + 1,
    decreases s.len(),
{
    if s.len() > 0 && s[0].offset >= m.offset {
        lemma_insert_keeps_range(s.drop_first(), m);
        let t = insert_by_offset_desc(s.drop_first(), m);
        assert forall|i: int| 0 <= i < t.len() + 1 implies #[trigger] (seq![s[0]] + t)[i].offset
            + (seq![s[0]] + t)[i].length <= usize::MAX by {
            if i > 0 {
                assert((seq![s[0]] + t)[i] == t[i - 1]);
            }
        }
    } else if s.len() > 0 {
        assert forall|i: int| 0 <= i < s.len() + 1 implies #[trigger] (seq![m] + s)[i].offset
            + (seq![m] + s)[i].length <= usize::MAX by {
            if i > 0 {
                assert((seq![m] + s)[i] == s[i - 1]);
            }
        }
    }
}

/// Orders matches by decreasing offset, keeping equal offsets in their order.
fn sort_matches_desc(matches: Vec<LtMatch>) -> (r: Vec<LtMatch>)
    requires
        lt_matches_in_range(matches@),
    ensures
        r@ == sort_by_offset_desc(matches@),
        lt_matches_in_range(r@),
{
    let ghost orig = matches@;
    let mut rest = matches;
    let mut sorted: Vec<LtMatch> = Vec::new();
    let n = rest.len();
    let mut k: usize = 0;
    assert(orig.take(0) =~= Seq::<LtMatch>::empty());
    while k < n
        invariant
            rest.len() == n - k,
            k <= n == orig.len(),
            rest@ == orig.skip(k as int),
            sorted@ == sort_by_offset_desc(orig.take(k as int)),
            lt_matches_in_range(sorted@),
            lt_matches_in_range(orig),
            sorted@.len() == k,
        decreases n - k,
    {
        let m = rest.remove(0);
        assert(m == orig[k as int]);
        let mut j: usize = 0;
        while j < sorted.len() && sorted[j].offset >= m.offset
            invariant
                j <= sorted@.len(),
                forall|i: int| 0 <= i < j ==> #[trigger] sorted@[i].offset >= m.offset,
            decreases sorted@.len() - j,
        {
            j = j + 1;
        }
        proof {
            lemma_insert_position(sorted@, m, j as int);
            assert(orig.take(k + 1).drop_last() =~= orig.take(k as int));
            assert(orig.take(k + 1).last() == m);
            assert(m.offset + m.length <= usize::MAX) by {
                assert(orig[k as int] == m);
            }
            lemma_insert_keeps_range(sorted@, m);
            assert(rest@ =~= orig.skip(k + 1));
        }
        sorted.insert(j, m);
        k = k + 1;
    }
    assert(orig.take(n as int) =~= orig);
    sorted
}

/// `text[..start] + rep + text[end..]`.
fn splice_chars(text: &Vec<char>, start: usize, end: usize, rep: &Vec<char>) -> (r: Vec<char>)
    requires
        start <= end <= text@.len(),
    ensures
        r@ == text@.take(start as int) + rep@ + text@.skip(end as int),
{
    let mut out: Vec<char> = Vec::new();
    let mut i: usize = 0;
    while i < start
        invariant
            i <= start <= end <= text@.len(),
            out@ == text@.take(i as int),
        decreases start - i,
    {
        out.push(text[i]);
        i = i + 1;
        assert(out@ =~= text@.take(i as int));
    }
    let mut j: usize = 0;
    while j < rep.len()
        invariant
            j <= rep@.len(),
            out@ == text@.take(start as int) + rep@.take(j as int),
        decreases rep@.len() - j,
    {
        out.push(rep[j]);
        j = j + 1;
        assert(out@ =~= text@.take(start as int) + rep@.take(j as int));
    }
    assert(rep@.take(rep@.len() as int) =~= rep@);
    let mut k: usize = end;
    while k < text.len()
        invariant
            end <= k <= text@.len(),
            out@ == text@.take(start as int) + rep@ + text@.subrange(end as int, k as int),
        decreases text@.len() - k,
    {
        out.push(text[k]);
        k = k + 1;
        assert(out@ =~= text@.take(start as int) + rep@ + text@.subrange(end as int, k as int));
    }
    assert(text@.subrange(end as int, text@.len() as int) =~= text@.skip(end as int));
    out
}

/// Applies the grammar server's matches to `text`, from the highest offset
/// down, skipping a match that overlaps one already applied or reaches past
/// the end of the text, or that has no replacement. Offsets count characters.
/// Returns the new text and the number of replacements applied.
pub fn apply_lt_matches(text: &str, matches: Vec<LtMatch>) -> (r: (String, usize))
    requires
        lt_matches_in_range(matches@),
    ensures
        r.0@ == lt_patched(text@, matches@).text,
        r.1 == lt_patched(text@, matches@).fixes,
{
    let mut result: Vec<char> = chars_of(text);
    let total_chars = result.len();
    let sorted = sort_matches_desc(matches);
    let ghost init = PatchState { text: text@, applied_start: text@.len(), fixes: 0 };
    let mut fixes: usize = 0;
    let mut applied_start: usize = total_chars;
    let mut i: usize = 0;
    assert(sorted@.skip(0) =~= sorted@);
    while i < sorted.len()
        invariant
            i <= sorted@.len(),
            lt_matches_in_range(sorted@),
            fixes <= i,
            patch_all(init, sorted@) == patch_all(
                PatchState { text: result@, applied_start: applied_start as nat, fixes: fixes as nat },
                sorted@.skip(i as int),
            ),
        decreases sorted@.len() - i,
    {
        let ghost st = PatchState { text: result@, applied_start: applied_start as nat, fixes: fixes as nat };
        assert(sorted@.skip(i as int).drop_first() =~= sorted@.skip(i + 1));
        assert(sorted@.skip(i as int)[0] == sorted@[i as int]);
        let m = &sorted[i];
        assert(m.offset + m.length <= usize::MAX);
        let start = m.offset;
        let end = start + m.length;
        if end > applied_start || end > result.len() {
            assert(patch_step(st, *m) == st);
        } else if m.replacements.len() > 0 {
            let replacement = chars_of(m.replacements[0].as_str());
            result = splice_chars(&result, start, end, &replacement);
            applied_start = start;
            fixes = fixes + 1;
        } else {
            assert(patch_step(st, *m) == st);
        }
        i = i + 1;
    }
    assert(sorted@.skip(sorted@.len() as int) =~= Seq::<LtMatch>::empty());
    (string_from_chars(result.as_slice()), fixes)
}

/// `ms` is ordered by decreasing offset.
pub open spec fn offsets_descending(ms: Seq<LtMatch>) -> bool {
    forall|i: int, j: int| 0 <= i < j < ms.len() ==> #[trigger] ms[i].offset >= #[trigger] ms[j].offset
}

proof fn lemma_insert_sorted(s: Seq<LtMatch>, m: LtMatch)
    requires
        offsets_descending(s),
    ensures
        offsets_descending(insert_by_offset_desc(s, m)),
        insert_by_offset_desc(s, m).to_multiset() =~= s.to_multiset().insert(m),
    decreases s.len(),
{
    broadcast use vstd::seq_lib::group_to_multiset_ensures;
    if s.len() == 0 {
        assert(seq![m] =~= Seq::<LtMatch>::empty().push(m));
    } else if s[0].offset >= m.offset {
        let t = insert_by_offset_desc(s.drop_first(), m);
        assert(offsets_descending(s.drop_first())) by {
            assert forall|i: int, j: int| 0 <= i < j < s.drop_first().len() implies #[trigger] s.drop_first()[i].offset
                >= #[trigger] s.drop_first()[j].offset by {
                assert(s.drop_first()[i] == s[i + 1] && s.drop_first()[j] == s[j + 1]);
            }
        }
        lemma_insert_sorted(s.drop_first(), m);
        let r = seq![s[0]] + t;
        assert(t.to_multiset().contains(m));
        assert forall|i: int, j: int| 0 <= i < j < r.len() implies #[trigger] r[i].offset >= #[trigger] r[j].offset by {
            if i == 0 {
                let x = r[j];
                assert(x == t[j - 1]);
                assert(t.contains(x));
                assert(t.to_multiset().count(x) > 0);
                assert(s.drop_first().to_multiset().insert(m).count(x) > 0);
                if x != m {
                    assert(s.drop_first().to_multiset().count(x) > 0);
                    assert(s.drop_first().contains(x));
                    let k = choose|k: int| 0 <= k < s.drop_first().len() && s.drop_first()[k] == x;
                    assert(s[k + 1] == x);
                }
            } else {
                assert(r[i] == t[i - 1] && r[j] == t[j - 1]);
            }
        }
        assert(s =~= seq![s[0]] + s.drop_first());
        vstd::seq_lib::lemma_multiset_commutative(seq![s[0]], t);
        vstd::seq_lib::lemma_multiset_commutative(seq![s[0]], s.drop_first());
    } else {
        let r = seq![m] + s;
        assert forall|i: int, j: int| 0 <= i < j < r.len() implies #[trigger] r[i].offset >= #[trigger] r[j].offset by {
            if i == 0 {
                assert(r[j] == s[j - 1]);
                assert(s[0].offset >= s[j - 1].offset);
            } else {
                assert(r[i] == s[i - 1] && r[j] == s[j - 1]);
            }
        }
        vstd::seq_lib::lemma_multiset_commutative(seq![m], s);
        assert(seq![m] =~= Seq::<LtMatch>::empty().push(m));
    }
}

/// The order in which the matches are applied is a rearrangement of them by
/// decreasing offset (end to start, so earlier offsets stay valid).
pub proof fn law_matches_sorted(ms: Seq<LtMatch>)
    ensures
        offsets_descending(sort_by_offset_desc(ms)),
        sort_by_offset_desc(ms).to_multiset() =~= ms.to_multiset(),
    decreases ms.len(),
{
    broadcast use vstd::seq_lib::group_to_multiset_ensures;
    if ms.len() > 0 {
        law_matches_sorted(ms.drop_last());
        lemma_insert_sorted(sort_by_offset_desc(ms.drop_last()), ms.last());
        assert(ms =~= ms.drop_last().push(ms.last()));
    }
}

proof fn lemma_patch_all_bounds(st: PatchState, ms: Seq<LtMatch>)
    ensures
        st.fixes <= patch_all(st, ms).fixes <= st.fixes + ms.len(),
    decreases ms.len(),
{
    if ms.len() > 0 {
        lemma_patch_all_bounds(patch_step(st, ms[0]), ms.drop_first());
    }
}

/// At most one replacement per match is applied, and without matches the
/// text is left as it is.
pub proof fn law_lt_patch_bounds(text: Seq<char>, ms: Seq<LtMatch>)
    ensures
        lt_patched(text, ms).fixes <= ms.len(),
        ms.len() == 0 ==> lt_patched(text, ms).text == text && lt_patched(text, ms).fixes == 0,
{
    law_matches_sorted(ms);
    let sorted = sort_by_offset_desc(ms);
    assert(sorted.len() == ms.len()) by {
        vstd::seq_lib::to_multiset_len(sorted);
        vstd::seq_lib::to_multiset_len(ms);
    }
    lemma_patch_all_bounds(PatchState { text, applied_start: text.len(), fixes: 0 }, sorted);
}

proof fn lemma_sort_single(m: LtMatch)
    ensures
        sort_by_offset_desc(seq![m]) == seq![m],
{
    let one = seq![m];
    assert(one.drop_last() =~= Seq::<LtMatch>::empty());
    assert(one.last() == m);
    assert(sort_by_offset_desc(Seq::<LtMatch>::empty()) == Seq::<LtMatch>::empty());
    assert(insert_by_offset_desc(Seq::<LtMatch>::empty(), m) == one);
}

proof fn lemma_patch_single(st: PatchState, m: LtMatch)
    ensures
        patch_all(st, seq![m]) == patch_step(st, m),
{
    let one = seq![m];
    assert(one.drop_first() =~= Seq::<LtMatch>::empty());
    assert(one[0] == m);
    assert(patch_all(patch_step(st, m), Seq::<LtMatch>::empty()) == patch_step(st, m));
}

/// One match alone: when it lies within the text and has a replacement, its
/// range is replaced by its first (best) replacement and one fix is counted;
/// otherwise the text stays as it is and nothing is counted.
pub proof fn law_lt_single_match(text: Seq<char>, m: LtMatch)
    ensures
        m.offset + m.length <= text.len() && m.replacements.len() > 0 ==> {
            &&& lt_patched(text, seq![m]).text == text.take(m.offset as int) + m.replacements[0]@
                + text.skip(m.offset + m.length)
            &&& lt_patched(text, seq![m]).fixes == 1
        },
        !(m.offset + m.length <= text.len() && m.replacements.len() > 0) ==> {
            &&& lt_patched(text, seq![m]).text == text
            &&& lt_patched(text, seq![m]).fixes == 0
        },
{
    lemma_sort_single(m);
    lemma_patch_single(PatchState { text, applied_start: text.len(), fixes: 0 }, m);
}

/// Two matches that do not overlap, the first ending before the second
/// begins, both within the text and with replacements: each range is
/// replaced by its own first replacement, whatever order the matches come
/// in, and two fixes are counted.
pub proof fn law_lt_two_matches(text: Seq<char>, a: LtMatch, b: LtMatch)
    requires
        a.offset < b.offset,
        a.offset + a.length <= b.offset,
        b.offset + b.length <= text.len(),
        a.replacements.len() > 0,
        b.replacements.len() > 0,
    ensures
        lt_patched(text, seq![a, b]).text == text.take(a.offset as int) + a.replacements[0]@
            + text.subrange(a.offset + a.length, b.offset as int) + b.replacements[0]@ + text.skip(
            b.offset + b.length,
        ),
        lt_patched(text, seq![b, a]).text == lt_patched(text, seq![a, b]).text,
        lt_patched(text, seq![a, b]).fixes == 2,
        lt_patched(text, seq![b, a]).fixes == 2,
{
    let ab = seq![a, b];
    let ba = seq![b, a];
    assert(ab.drop_last() =~= seq![a]);
    assert(ba.drop_last() =~= seq![b]);
    lemma_sort_single(a);
    lemma_sort_single(b);
    assert(ab.last() == b && ba.last() == a);
    assert(seq![b] + seq![a] =~= ba);
    assert(insert_by_offset_desc(Seq::<LtMatch>::empty(), a) == seq![a]);
    assert(sort_by_offset_desc(ab) == ba);
    assert(seq![b].drop_first() =~= Seq::<LtMatch>::empty());
    assert(seq![b][0] == b);
    assert(insert_by_offset_desc(seq![b], a) == seq![b] + insert_by_offset_desc(Seq::<LtMatch>::empty(), a));
    assert(sort_by_offset_desc(ba) == ba);
    let st0 = PatchState { text, applied_start: text.len(), fixes: 0 };
    let st1 = patch_step(st0, b);
    let t1 = text.take(b.offset as int) + b.replacements[0]@ + text.skip(b.offset + b.length);
    assert(st1.text == t1);
    let st2 = patch_step(st1, a);
    assert(t1.take(a.offset as int) =~= text.take(a.offset as int));
    assert(t1.skip(a.offset + a.length) =~= text.subrange(a.offset + a.length, b.offset as int)
        + b.replacements[0]@ + text.skip(b.offset + b.length));
    assert(st2.text =~= text.take(a.offset as int) + a.replacements[0]@ + text.subrange(
        a.offset + a.length,
        b.offset as int,
    ) + b.replacements[0]@ + text.skip(b.offset + b.length));
    assert(ba.drop_first() =~= seq![a]);
    assert(ba[0] == b);
    lemma_patch_single(st1, a);
    assert(patch_all(st0, ba) == st2);
}

/// Of two overlapping matches, the later one (by offset) is applied and the
/// earlier one, which reaches into it, is skipped.
pub proof fn law_lt_overlap_skipped(text: Seq<char>, a: LtMatch, b: LtMatch)
    requires
        a.offset < b.offset < a.offset + a.length,
        b.offset + b.length <= text.len(),
        b.replacements.len() > 0,
    ensures
        lt_patched(text, seq![a, b]).text == text.take(b.offset as int) + b.replacements[0]@ + text.skip(
            b.offset + b.length,
        ),
        lt_patched(text, seq![a, b]).fixes == 1,
{
    let ab = seq![a, b];
    let ba = seq![b, a];
    assert(ab.drop_last() =~= seq![a]);
    lemma_sort_single(a);
    assert(ab.last() == b);
    assert(seq![b] + seq![a] =~= ba);
    assert(sort_by_offset_desc(ab) == ba);
    let st0 = PatchState { text, applied_start: text.len(), fixes: 0 };
    let st1 = patch_step(st0, b);
    assert(patch_step(st1, a) == st1);
    assert(ba.drop_first() =~= seq![a]);
    assert(ba[0] == b);
    lemma_patch_single(st1, a);
}

/// The outcome of the correction pipeline.
pub struct CorrectionResult {
    pub text: String,
    pub spell_fixes: usize,
    pub grammar_hints: usize,
    pub lt_fixes: usize,
}

/// The summary line of a correction, in Chinese (`is_zh`) or English.
pub open spec fn log_line_text(r: CorrectionResult, is_zh: bool) -> Seq<char> {
    let nothing = r.spell_fixes + r.lt_fixes == 0 && r.grammar_hints == 0;
    if is_zh {
        if nothing {
            "校正完成：無需修改"@
        } else {
            "校正完成 — SymSpell:"@ + decimal(r.spell_fixes as nat) + " LT:"@ + decimal(r.lt_fixes as nat)
                + " Harper提示:"@ + decimal(r.grammar_hints as nat)
        }
    } else if nothing {
        "Correction done: nothing to fix"@
    } else {
        "Corrected — SymSpell:"@ + decimal(r.spell_fixes as nat) + " LT:"@ + decimal(r.lt_fixes as nat)
            + " Harper hints:"@ + decimal(r.grammar_hints as nat)
    }
}

impl CorrectionResult {
    /// One line for the process log summarising the counts.
    pub fn log_line(&self, is_zh: bool) -> (r: String)
        requires
            self.spell_fixes + self.lt_fixes <= usize::MAX,
        ensures
            r@ == log_line_text(*self, is_zh),
    {
        let total = self.spell_fixes + self.lt_fixes;
        if is_zh {
            if total == 0 && self.grammar_hints == 0 {
                String::from_str("校正完成：無需修改")
            } else {
                let mut s = String::from_str("校正完成 — SymSpell:");
                s.append(usize_to_string(self.spell_fixes).as_str());
                s.append(" LT:");
                s.append(usize_to_string(self.lt_fixes).as_str());
                s.append(" Harper提示:");
                s.append(usize_to_string(self.grammar_hints).as_str());
                s
            }
        } else if total == 0 && self.grammar_hints == 0 {
            String::from_str("Correction done: nothing to fix")
        } else {
            let mut s = String::from_str("Corrected — SymSpell:");
            s.append(usize_to_string(self.spell_fixes).as_str());
            s.append(" LT:");
            s.append(usize_to_string(self.lt_fixes).as_str());
            s.append(" Harper hints:");
            s.append(usize_to_string(self.grammar_hints).as_str());
            s
        }
    }
}

/// Languages for which the English-only engines run.
pub open spec fn is_english_language(language: Seq<char>) -> bool {
    language == "en"@ || language == "auto"@ || language == Seq::<char>::empty()
}

/// Whether the English spelling and grammar engines run for `language`.
pub fn is_english(language: &str) -> (r: bool)
    ensures
        r == is_english_language(language@),
{
    proof {
        reveal_strlit("");
        assert(""@ =~= Seq::<char>::empty());
    }
    str_eq(language, "en") || str_eq(language, "auto") || str_eq(language, "")
}

/// The grammar server's language code for a transcription language.
pub open spec fn lt_language_code(lang: Seq<char>) -> Seq<char> {
    if lang == "zh"@ { "zh-TW"@ }
    else if lang == "en"@ { "en-US"@ }
    else if lang == "ja"@ { "ja-JP"@ }
    else if lang == "de"@ { "de-DE"@ }
    else if lang == "fr"@ { "fr-FR"@ }
    else if lang == "es"@ { "es-ES"@ }
    else if lang == "pt"@ { "pt-BR"@ }
    else if lang == "ru"@ { "ru-RU"@ }
    else if lang == "it"@ { "it-IT"@ }
    else if lang == "nl"@ { "nl-NL"@ }
    else if lang == "pl"@ { "pl-PL"@ }
    else if lang == "ar"@ { "ar"@ }
    else if lang == "ko"@ { "ko"@ }
    else if lang == "tr"@ { "tr"@ }
    else if lang == "vi"@ { "vi"@ }
    else { "auto"@ }
}

/// Maps a transcription language to the grammar server's language code;
/// unknown languages map to "auto".
pub fn map_lt_language(lang: &str) -> (r: &'static str)
    ensures
        r@ == lt_language_code(lang@),
{
    if str_eq(lang, "zh") { "zh-TW" }
    else if str_eq(lang, "en") { "en-US" }
    else if str_eq(lang, "ja") { "ja-JP" }
    else if str_eq(lang, "de") { "de-DE" }
    else if str_eq(lang, "fr") { "fr-FR" }
    else if str_eq(lang, "es") { "es-ES" }
    else if str_eq(lang, "pt") { "pt-BR" }
    else if str_eq(lang, "ru") { "ru-RU" }
    else if str_eq(lang, "it") { "it-IT" }
    else if str_eq(lang, "nl") { "nl-NL" }
    else if str_eq(lang, "pl") { "pl-PL" }
    else if str_eq(lang, "ar") { "ar" }
    else if str_eq(lang, "ko") { "ko" }
    else if str_eq(lang, "tr") { "tr" }
    else if str_eq(lang, "vi") { "vi" }
    else { "auto" }
}

/// The first stage of correction: for English (`is_english`) with a
/// dictionary, the spelling pass; otherwise the text unchanged and no fixes.
pub fn spell_stage(text: &str, language: &str, dictionary: Option<&SpellDictionary>) -> (r: (String, usize))
    ensures
        (is_english_language(language@) && dictionary is Some) ==> {
            let lines = loaded_lines(*dictionary.unwrap());
            &&& r.0@ == spelled_text(text@, text_suggestions(lines, text@))
            &&& r.1 == fix_count(split_ws(text@), text_suggestions(lines, text@))
        },
        !(is_english_language(language@) && dictionary is Some) ==> r.0@ == text@ && r.1 == 0,
{
    if is_english(language) {
        match dictionary {
            Some(c) => run_symspell(text, c),
            None => (String::from_str(text), 0),
        }
    } else {
        (String::from_str(text), 0)
    }
}

/// The last stage of correction. `spelled` is the text after the spelling
/// stage with its fix count; `grammar_lints` the number of grammar findings
/// on that text, counted only for English; `lt_matches` the grammar
/// server's matches on that text, or `None` when the server could not be
/// reached (the text then stays as it is).
pub fn finish_correction(
    language: &str,
    spelled: (String, usize),
    grammar_lints: usize,
    lt_matches: Option<Vec<LtMatch>>,
) -> (r: CorrectionResult)
    requires
        lt_matches matches Some(ms) ==> lt_matches_in_range(ms@),
    ensures
        r.spell_fixes == spelled.1,
        r.grammar_hints == if is_english_language(language@) { grammar_lints } else { 0 },
        lt_matches matches Some(ms) ==> r.text@ == lt_patched(spelled.0@, ms@).text
            && r.lt_fixes == lt_patched(spelled.0@, ms@).fixes,
        lt_matches is None ==> r.text@ == spelled.0@ && r.lt_fixes == 0,
{
    let grammar_hints = if is_english(language) { grammar_lints } else { 0 };
    let (current, spell_fixes) = spelled;
    match lt_matches {
        Some(ms) => {
            let (text, lt_fixes) = apply_lt_matches(current.as_str(), ms);
            CorrectionResult { text, spell_fixes, grammar_hints, lt_fixes }
        },
        None => CorrectionResult { text: current, spell_fixes, grammar_hints, lt_fixes: 0 },
    }
}

} // verus!
