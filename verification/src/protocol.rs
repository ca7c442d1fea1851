use vstd::prelude::*;

verus! {

/// The request message of the `DetectLanguage` call: the text whose language
/// is to be identified. The service requires it to be non-empty.
pub struct LanguageRequest {
    pub text: String,
}

/// The reply message of the `DetectLanguage` call: the canonical name of the
/// identified language, or the `"Unknown"` sentinel when no candidate matched
/// with confidence.
pub struct LanguageReply {
    pub language: String,
}

/// The status code of a failed call. The service itself produces only
/// `InvalidArgument`; transport-level codes surface unmodified from the
/// transport layer and never originate here.
#[derive(Clone, Copy, PartialEq, Eq, Structural, Debug)]
pub enum StatusCode {
    InvalidArgument,
}

/// A (code, message) outcome returned instead of a reply when the call cannot
/// be satisfied.
pub struct Status {
    pub code: StatusCode,
    pub message: String,
}

} // verus!
