//! The risk analyser: a deliberately naive search for crisis terms.
//!
//! A text is risk-bearing when, once lowercased, it contains one of the terms
//! of a lexicon. There is no stemming, no handling of negation and no sense
//! of context.

use crate::text::{chars_of, occurs, occurs_in};
use vstd::prelude::*;

verus! {

/// The terms that mark a text as risk-bearing. A term is matched as it is
/// written: one that holds an uppercase letter matches no lowercased text.
#[derive(Debug, PartialEq, Eq)]
pub struct Lexicon {
    pub terms: Vec<String>,
}

impl View for Lexicon {
    type V = Seq<Seq<char>>;

    open spec fn view(&self) -> Seq<Seq<char>> {
        self.terms.deep_view()
    }
}

impl Lexicon {
    /// A lexicon of the given terms.
    pub fn new(terms: Vec<String>) -> (lexicon: Lexicon)
        ensures
            lexicon@ == terms.deep_view(),
    {
        Lexicon { terms }
    }

    /// The French terms.
    pub fn french() -> (lexicon: Lexicon)
        ensures
            lexicon@ == seq!["suicide"@, "mourir"@, "tuer"@, "pendre"@, "overdose"@],
    {
        let mut terms: Vec<String> = Vec::new();
        terms.push("suicide".to_owned());
        terms.push("mourir".to_owned());
        terms.push("tuer".to_owned());
        terms.push("pendre".to_owned());
        terms.push("overdose".to_owned());
        let lexicon = Lexicon { terms };
        lexicon
    }

    /// The English terms.
    pub fn english() -> (lexicon: Lexicon)
        ensures
            lexicon@ == seq!["suicide"@, "die"@, "kill"@, "hang"@, "overdose"@],
    {
        let mut terms: Vec<String> = Vec::new();
        terms.push("suicide".to_owned());
        terms.push("die".to_owned());
        terms.push("kill".to_owned());
        terms.push("hang".to_owned());
        terms.push("overdose".to_owned());
        let lexicon = Lexicon { terms };
        lexicon
    }
}

/// The lowercase form of a text, as `str::to_lowercase` gives it.
pub uninterp spec fn lowercase_of(text: Seq<char>) -> Seq<char>;

/// Calls `str::to_lowercase`, which maps each character to its lowercase
/// equivalent by the Unicode tables. The contract only names the result.
#[verifier::external_body]
fn to_lowercase(text: &str) -> (lowered: String)
    ensures
        lowered@ == lowercase_of(text@),
{
    text.to_lowercase()
}

/// Some term of `lexicon` occurs in `lowered`.
pub open spec fn has_risk_term(lowered: Seq<char>, lexicon: Seq<Seq<char>>) -> bool {
    exists|k: int| 0 <= k < lexicon.len() && occurs_in(#[trigger] lexicon[k], lowered)
}

/// `text` is risk-bearing under `lexicon`.
pub open spec fn is_risky(text: Seq<char>, lexicon: Seq<Seq<char>>) -> bool {
    has_risk_term(lowercase_of(text), lexicon)
}

/// Whether some term of `lexicon` occurs in `lowered`, a text that is taken
/// as it is.
pub fn contains_risk_term(lowered: &str, lexicon: &Lexicon) -> (found: bool)
    ensures
        found == has_risk_term(lowered@, lexicon@),
{
    let hay = chars_of(lowered);
    let mut k: usize = 0;
    while k < lexicon.terms.len()
        invariant
            k <= lexicon.terms.len(),
            hay@ == lowered@,
            forall|j: int| 0 <= j < k ==> !occurs_in(#[trigger] lexicon@[j], lowered@),
        decreases lexicon.terms.len() - k,
    {
        let needle = chars_of(lexicon.terms[k].as_str());
        assert(needle@ == lexicon@[k as int]);
        if occurs(&needle, &hay) {
            return true;
        }
        k += 1;
    }
    false
}

/// Whether `content` is risk-bearing under `lexicon`: whether its lowercase
/// form contains one of the terms.
pub fn analyze_risk(content: &str, lexicon: &Lexicon) -> (risky: bool)
    ensures
        risky == is_risky(content@, lexicon@),
{
    let lowered = to_lowercase(content);
    contains_risk_term(lowered.as_str(), lexicon)
}

} // verus!
