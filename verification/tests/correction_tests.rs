use whisper_gui::correction::{
    apply_lt_matches, finish_correction, is_english, map_lt_language, spell_stage, CorrectionResult, LtMatch,
};
use whisper_gui::spelling::{correct_words, run_symspell, split_whitespace_words, SpellDictionary, SpellSuggestion};

fn m(offset: usize, length: usize, reps: &[&str]) -> LtMatch {
    LtMatch { offset, length, replacements: reps.iter().map(|s| s.to_string()).collect() }
}

#[test]
fn lt_single_replacement() {
    let (t, n) = apply_lt_matches("I has a apple", vec![m(2, 3, &["have"])]);
    assert_eq!(t, "I have a apple");
    assert_eq!(n, 1);
}

#[test]
fn lt_applies_from_the_end_whatever_the_order() {
    let (t, n) = apply_lt_matches("I has a apple", vec![m(2, 3, &["have"]), m(6, 1, &["an"])]);
    assert_eq!(t, "I have an apple");
    assert_eq!(n, 2);
}

#[test]
fn lt_skips_overlapping_match() {
    // The later match (offset 4) is applied first; the one at 2..6 overlaps it.
    let (t, n) = apply_lt_matches("abcdefgh", vec![m(2, 4, &["X"]), m(4, 2, &["Y"])]);
    assert_eq!(t, "abcdYgh");
    assert_eq!(n, 1);
}

#[test]
fn lt_skips_out_of_range_and_empty_replacements() {
    let (t, n) = apply_lt_matches("abc", vec![m(2, 5, &["X"]), m(0, 1, &[])]);
    assert_eq!(t, "abc");
    assert_eq!(n, 0);
}

#[test]
fn lt_no_matches_keeps_text() {
    let (t, n) = apply_lt_matches("unchanged text", vec![]);
    assert_eq!(t, "unchanged text");
    assert_eq!(n, 0);
}

#[test]
fn lt_counts_characters_not_bytes() {
    let (t, n) = apply_lt_matches("我們的的測試", vec![m(3, 1, &[""])]);
    assert_eq!(t, "我們的測試");
    assert_eq!(n, 1);
}

#[test]
fn lt_equal_offsets_keep_arrival_order() {
    // Both start at 0: the first one is applied, the second then overlaps it.
    let (t, n) = apply_lt_matches("ab", vec![m(0, 1, &["X"]), m(0, 2, &["Y"])]);
    assert_eq!(t, "Xb");
    assert_eq!(n, 1);
}

#[test]
fn log_line_nothing_to_fix() {
    let r = CorrectionResult { text: String::new(), spell_fixes: 0, grammar_hints: 0, lt_fixes: 0 };
    assert_eq!(r.log_line(true), "校正完成：無需修改");
    assert_eq!(r.log_line(false), "Correction done: nothing to fix");
}

#[test]
fn log_line_counts() {
    let r = CorrectionResult { text: String::new(), spell_fixes: 3, grammar_hints: 12, lt_fixes: 0 };
    assert_eq!(r.log_line(true), "校正完成 — SymSpell:3 LT:0 Harper提示:12");
    assert_eq!(r.log_line(false), "Corrected — SymSpell:3 LT:0 Harper hints:12");
}

#[test]
fn lt_language_codes() {
    assert_eq!(map_lt_language("zh"), "zh-TW");
    assert_eq!(map_lt_language("en"), "en-US");
    assert_eq!(map_lt_language("pt"), "pt-BR");
    assert_eq!(map_lt_language("vi"), "vi");
    assert_eq!(map_lt_language("auto"), "auto");
    assert_eq!(map_lt_language("xx"), "auto");
}

#[test]
fn english_languages() {
    assert!(is_english("en"));
    assert!(is_english("auto"));
    assert!(is_english(""));
    assert!(!is_english("zh"));
}

#[test]
fn finish_without_server_keeps_text() {
    let r = finish_correction("zh", ("文字".to_string(), 0), 5, None);
    assert_eq!(r.text, "文字");
    assert_eq!(r.lt_fixes, 0);
    assert_eq!(r.grammar_hints, 0);
    let r = finish_correction("en", ("text".to_string(), 2), 5, Some(vec![m(0, 4, &["Text"])]));
    assert_eq!(r.text, "Text");
    assert_eq!(r.lt_fixes, 1);
    assert_eq!(r.spell_fixes, 2);
    assert_eq!(r.grammar_hints, 5);
}

#[test]
fn spell_words_split_like_split_whitespace() {
    let chars: Vec<char> = "  a\tbc\u{3000}d  ".chars().collect();
    let words: Vec<String> = split_whitespace_words(&chars).iter().map(|w| w.iter().collect()).collect();
    assert_eq!(words, vec!["a", "bc", "d"]);
}

#[test]
fn spell_suggestions_apply_to_letter_core() {
    let s = |t: &str, d: i64| Some(SpellSuggestion { term: t.to_string(), distance: d });
    let (t, n) = correct_words(
        "(helo) wrld Teh ab",
        &vec![s("hello", 1), s("world", 2), s("teh", 1), s("abc", 1)],
    );
    // "(helo)" -> "(hello)"; distance 2 is ignored; "teh" is only the lower case of
    // "Teh"; "ab" is too short.
    assert_eq!(t, "(hello) wrld Teh ab");
    assert_eq!(n, 1);
}

#[test]
fn spell_pass_with_dictionary() {
    let lines = vec!["hello 100".to_string(), "world 80".to_string()];
    let dictionary = SpellDictionary::from_lines(&lines);
    let (t, n) = run_symspell("helo   wrld!", &dictionary);
    assert_eq!(t, "hello world!");
    assert_eq!(n, 2);
}

#[test]
fn spell_stage_skips_other_languages() {
    let lines = vec!["hello 100".to_string()];
    let dictionary = SpellDictionary::from_lines(&lines);
    let (t, n) = spell_stage("helo  there", "zh", Some(&dictionary));
    assert_eq!(t, "helo  there");
    assert_eq!(n, 0);
    let (t, n) = spell_stage("helo  there", "en", None);
    assert_eq!(t, "helo  there");
    assert_eq!(n, 0);
}
