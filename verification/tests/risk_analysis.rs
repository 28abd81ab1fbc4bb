use numa_core::risk::{analyze_risk, contains_risk_term, Lexicon};
use numa_core::text::{chars_of, matches_at, occurs, same_text};

fn terms(list: &[&str]) -> Lexicon {
    Lexicon::new(list.iter().map(|term| term.to_string()).collect())
}

#[test]
fn french_lexicon_holds_the_five_terms() {
    assert_eq!(
        Lexicon::french().terms,
        vec!["suicide", "mourir", "tuer", "pendre", "overdose"]
    );
}

#[test]
fn english_lexicon_holds_the_five_terms() {
    assert_eq!(
        Lexicon::english().terms,
        vec!["suicide", "die", "kill", "hang", "overdose"]
    );
}

#[test]
fn each_term_is_found() {
    let french = Lexicon::french();
    for term in ["suicide", "mourir", "tuer", "pendre", "overdose"] {
        assert!(analyze_risk(&format!("je pense a {} ce soir", term), &french));
        assert!(analyze_risk(term, &french));
    }
    let english = Lexicon::english();
    for term in ["suicide", "die", "kill", "hang", "overdose"] {
        assert!(analyze_risk(&format!("I think I will {} tonight", term), &english));
    }
}

#[test]
fn harmless_text_is_not_flagged() {
    assert!(!analyze_risk("Bonjour, il fait beau", &Lexicon::french()));
    assert!(!analyze_risk("", &Lexicon::french()));
    assert!(!analyze_risk("I want to die", &Lexicon::french()));
    assert!(!analyze_risk("Je veux mourir", &Lexicon::english()));
}

#[test]
fn case_is_ignored_in_the_text() {
    assert!(analyze_risk("SUICIDE", &Lexicon::french()));
    assert!(analyze_risk("Je veux MoUrIr", &Lexicon::french()));
    assert!(analyze_risk("I WANT TO DIE", &Lexicon::english()));
    // Without lowercasing the same texts hold no term.
    assert!(!contains_risk_term("SUICIDE", &Lexicon::french()));
    assert!(!contains_risk_term("I WANT TO DIE", &Lexicon::english()));
}

#[test]
fn case_is_not_ignored_in_the_terms() {
    let shouting = terms(&["DIE"]);
    assert!(!analyze_risk("I want to die", &shouting));
    assert!(!analyze_risk("I WANT TO DIE", &shouting));
    assert!(contains_risk_term("I WANT TO DIE", &shouting));
}

#[test]
fn a_term_inside_a_word_is_found() {
    let english = Lexicon::english();
    assert!(analyze_risk("my diet is fine", &english));
    assert!(analyze_risk("chang", &english));
    assert!(analyze_risk("I would never kill anyone", &english));
    assert!(analyze_risk("situer", &Lexicon::french()));
}

#[test]
fn a_broken_term_is_not_found() {
    let english = Lexicon::english();
    assert!(!analyze_risk("d i e", &english));
    assert!(!analyze_risk("di", &english));
    assert!(!analyze_risk("ki ll", &english));
}

#[test]
fn empty_lexicon_flags_nothing() {
    assert!(!analyze_risk("I want to die", &terms(&[])));
    assert!(!analyze_risk("", &terms(&[])));
}

#[test]
fn empty_term_is_part_of_every_text() {
    assert!(analyze_risk("anything", &terms(&[""])));
    assert!(analyze_risk("", &terms(&[""])));
}

#[test]
fn terms_beyond_ascii_are_matched() {
    let lexicon = terms(&["détresse"]);
    assert!(analyze_risk("Quelle DÉTRESSE !", &lexicon));
    assert!(!analyze_risk("Quelle detresse !", &lexicon));
}

#[test]
fn chars_of_gives_the_characters() {
    assert_eq!(chars_of("aé🙂"), vec!['a', 'é', '🙂']);
    assert_eq!(chars_of(""), Vec::<char>::new());
}

#[test]
fn matches_at_compares_in_place() {
    let hay = chars_of("abcabc");
    let needle = chars_of("bc");
    assert!(!matches_at(&needle, &hay, 0));
    assert!(matches_at(&needle, &hay, 1));
    assert!(!matches_at(&needle, &hay, 2));
    assert!(matches_at(&needle, &hay, 4));
    assert!(matches_at(&[], &hay, 6));
}

#[test]
fn occurs_finds_a_part_anywhere() {
    let hay = chars_of("abcabd");
    assert!(occurs(&chars_of("abc"), &hay));
    assert!(occurs(&chars_of("abd"), &hay));
    assert!(occurs(&chars_of("abcabd"), &hay));
    assert!(occurs(&chars_of(""), &hay));
    assert!(occurs(&chars_of(""), &chars_of("")));
    assert!(!occurs(&chars_of("abe"), &hay));
    assert!(!occurs(&chars_of("abcabda"), &hay));
    assert!(!occurs(&chars_of("a"), &chars_of("")));
}

#[test]
fn nothing_stands_beyond_the_end() {
    let hay = chars_of("abc");
    assert!(!matches_at(&chars_of("c"), &hay, 3));
    assert!(!matches_at(&chars_of("bc"), &hay, 2));
    assert!(!matches_at(&[], &hay, 4));
    assert!(!matches_at(&chars_of("a"), &hay, usize::MAX));
    assert!(matches_at(&[], &hay, 3));
}

#[test]
fn same_text_compares_every_character() {
    assert!(same_text("", ""));
    assert!(same_text("été", "été"));
    assert!(!same_text("été", "ete"));
    assert!(!same_text("a", "ab"));
    assert!(!same_text("ab", "a"));
    assert!(!same_text("A", "a"));
}
