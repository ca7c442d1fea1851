use vstd::prelude::*;

use crate::lang::Lang;

verus! {

#[verifier::external_type_specification]
#[verifier::external_body]
pub struct ExLanguageDetector(lingua::LanguageDetector);

/// What lingua's detection returns for a given candidate set and text: the
/// best-matching candidate, or `None` when no candidate reaches the engine's
/// confidence threshold. The engine is deterministic — the result is a
/// function of the candidate set and the text alone — so the result gets a
/// name here rather than a page-long description of n-gram scoring.
pub uninterp spec fn detection_of(langs: Seq<Lang>, text: Seq<char>) -> Option<Lang>;

/// A language detector configured once with a fixed candidate set, shared
/// read-only across all calls.
pub struct Detector {
    inner: lingua::LanguageDetector,
    supported: Vec<Lang>,
}

impl Detector {
    /// The candidate languages this detector was configured with.
    pub closed spec fn langs(&self) -> Seq<Lang> {
        self.supported@
    }

    /// Relies on `lingua::LanguageDetectorBuilder::from_languages` and
    /// `build`: they construct a detector for exactly the given candidate
    /// languages, and panic only when the list is empty.
    #[verifier::external_body]
    pub fn new(supported: Vec<Lang>) -> (d: Detector)
        requires
            supported@.len() > 0,
        ensures
            d.langs() == supported@,
    {
        let candidates: Vec<lingua::Language> = supported
            .iter()
            .map(|l| match l {
                Lang::English => lingua::Language::English,
                Lang::French => lingua::Language::French,
                Lang::German => lingua::Language::German,
                Lang::Spanish => lingua::Language::Spanish,
                Lang::Turkish => lingua::Language::Turkish,
            })
            .collect();
        let inner = lingua::LanguageDetectorBuilder::from_languages(&candidates).build();
        Detector { inner, supported }
    }

    /// Relies on `lingua::LanguageDetector::detect_language_of`: the result
    /// is deterministic in the text and the configured candidate set (scores
    /// are sorted with the language itself as tiebreak), and is either one of
    /// the configured languages or `None` when no candidate is confidently
    /// ahead. Safe to call concurrently; mutates nothing the caller sees.
    #[verifier::external_body]
    pub fn detect(&self, text: &str) -> (detected: Option<Lang>)
        ensures
            detected == detection_of(self.langs(), text@),
            detected matches Some(l) ==> self.langs().contains(l),
    {
        match self.inner.detect_language_of(text) {
            Some(lingua::Language::English) => Some(Lang::English),
            Some(lingua::Language::French) => Some(Lang::French),
            Some(lingua::Language::German) => Some(Lang::German),
            Some(lingua::Language::Spanish) => Some(Lang::Spanish),
            Some(lingua::Language::Turkish) => Some(Lang::Turkish),
            None => None,
        }
    }
}

} // verus!
