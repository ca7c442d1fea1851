use vstd::prelude::*;

use crate::detector::{detection_of, Detector};
use crate::lang::{unknown_sentinel, Lang};
use crate::protocol::{LanguageReply, LanguageRequest, Status, StatusCode};

verus! {

/// The reply language that a candidate set and a text determine: the detected
/// language's canonical name, or the `"Unknown"` sentinel when no candidate
/// matched with confidence.
pub open spec fn reply_language_of(langs: Seq<Lang>, text: Seq<char>) -> Seq<char> {
    match detection_of(langs, text) {
        Some(l) => l.name_spec(),
        None => unknown_sentinel(),
    }
}

/// The detection service: validates each request, consults the detector, and
/// builds the reply or the error status. It holds no mutable state, so calls
/// are independent and safe to issue concurrently.
pub struct Service {
    detector: Detector,
}

impl Service {
    /// The candidate set the service's detector is configured with.
    pub closed spec fn langs(&self) -> Seq<Lang> {
        self.detector.langs()
    }

    /// Creates a service around an already-configured detector.
    pub fn new(detector: Detector) -> (service: Service)
        ensures
            service.langs() == detector.langs(),
    {
        Service { detector }
    }

    /// The one operation of the service.
    ///
    /// An empty text is rejected with an `InvalidArgument` status whose
    /// message says the text cannot be empty; the detector is not consulted
    /// on that path. A non-empty text always succeeds: the reply carries the
    /// detected candidate's canonical name, or the `"Unknown"` sentinel when
    /// no candidate matched with confidence — never a status error, and never
    /// an empty language.
    pub fn detect_language(&self, request: LanguageRequest) -> (result: Result<
        LanguageReply,
        Status,
    >)
        ensures
            request.text@.len() == 0 ==> (result matches Err(status)
                && status.code == StatusCode::InvalidArgument
                && status.message@ == "Text cannot be empty"@),
            request.text@.len() > 0 ==> (result matches Ok(reply)
                && reply.language@ == reply_language_of(self.langs(), request.text@)),
            request.text@.len() > 0 ==> (result matches Ok(reply)
                && reply.language@.len() > 0
                && (reply.language@ == unknown_sentinel()
                    || (exists|l: Lang| #[trigger] l.name_spec() == reply.language@
                        && self.langs().contains(l)))),
    {
        let text = request.text;
        if text.as_str().is_empty() {
            return Err(
                Status {
                    code: StatusCode::InvalidArgument,
                    message: "Text cannot be empty".to_owned(),
                },
            );
        }
        let detected = self.detector.detect(text.as_str());
        match detected {
            Some(l) => {
                let language = l.name();
                proof {
                    l.lemma_name_wf();
                    assert(l.name_spec() == language@ && self.langs().contains(l));
                }
                Ok(LanguageReply { language })
            },
            None => {
                proof {
                    reveal_strlit("Unknown");
                }
                Ok(LanguageReply { language: "Unknown".to_owned() })
            },
        }
    }
}

/// Idempotence: invoking the service twice with identical text against an
/// unchanged candidate set determines the identical reply language, because
/// the detector is deterministic given fixed input and configuration.
pub proof fn lemma_detect_language_idempotent(langs: Seq<Lang>, first: Seq<char>, second: Seq<char>)
    requires
        first == second,
    ensures
        reply_language_of(langs, first) == reply_language_of(langs, second),
{
}

} // verus!
