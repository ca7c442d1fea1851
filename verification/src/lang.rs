use vstd::prelude::*;

verus! {

/// A candidate language that the detector can be configured to distinguish.
/// Detection never returns a language outside the configured candidate set.
#[derive(Clone, Copy, PartialEq, Eq, Structural, Debug)]
pub enum Lang {
    English,
    French,
    German,
    Spanish,
    Turkish,
}

impl Lang {
    /// The canonical display name of the language, as it appears in a reply.
    pub open spec fn name_spec(self) -> Seq<char> {
        match self {
            Lang::English => "English"@,
            Lang::French => "French"@,
            Lang::German => "German"@,
            Lang::Spanish => "Spanish"@,
            Lang::Turkish => "Turkish"@,
        }
    }

    /// Returns the canonical display name of the language.
    pub fn name(self) -> (s: String)
        ensures
            s@ == self.name_spec(),
    {
        match self {
            Lang::English => "English".to_owned(),
            Lang::French => "French".to_owned(),
            Lang::German => "German".to_owned(),
            Lang::Spanish => "Spanish".to_owned(),
            Lang::Turkish => "Turkish".to_owned(),
        }
    }

    /// A canonical language name is never the empty string and never collides
    /// with the `"Unknown"` sentinel, so a reply language always tells the
    /// two outcomes apart.
    pub proof fn lemma_name_wf(self)
        ensures
            self.name_spec().len() > 0,
            self.name_spec() != unknown_sentinel(),
    {
        reveal_strlit("English");
        reveal_strlit("French");
        reveal_strlit("German");
        reveal_strlit("Spanish");
        reveal_strlit("Turkish");
        reveal_strlit("Unknown");
        assert(unknown_sentinel()[0] == 'U');
        match self {
            Lang::English => assert(self.name_spec()[0] == 'E'),
            Lang::French => assert(self.name_spec()[0] == 'F'),
            Lang::German => assert(self.name_spec()[0] == 'G'),
            Lang::Spanish => assert(self.name_spec()[0] == 'S'),
            Lang::Turkish => assert(self.name_spec()[0] == 'T'),
        }
    }
}

/// The sentinel reply value meaning the detector found no language in the
/// candidate set with sufficient confidence.
pub open spec fn unknown_sentinel() -> Seq<char> {
    "Unknown"@
}

/// The ordered candidate set of the reference configuration.
pub open spec fn reference_languages() -> Seq<Lang> {
    seq![Lang::English, Lang::French, Lang::German, Lang::Spanish, Lang::Turkish]
}

/// Returns the ordered candidate set the service is configured with.
pub fn supported_languages() -> (langs: Vec<Lang>)
    ensures
        langs@ == reference_languages(),
{
    let mut langs: Vec<Lang> = Vec::new();
    langs.push(Lang::English);
    langs.push(Lang::French);
    langs.push(Lang::German);
    langs.push(Lang::Spanish);
    langs.push(Lang::Turkish);
    proof {
        assert(langs@ =~= reference_languages());
    }
    langs
}

} // verus!
