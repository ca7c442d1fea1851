use language_service::detector::Detector;
use language_service::lang::{supported_languages, Lang};
use language_service::protocol::{LanguageRequest, StatusCode};
use language_service::service::Service;

fn reference_service() -> Service {
    Service::new(Detector::new(supported_languages()))
}

fn detect(service: &Service, text: &str) -> Result<String, (StatusCode, String)> {
    service
        .detect_language(LanguageRequest { text: text.to_string() })
        .map(|reply| reply.language)
        .map_err(|status| (status.code, status.message))
}

#[test]
fn english_greeting_detected() {
    let service = reference_service();
    let language = detect(&service, "Hello, how are you?").unwrap();
    assert_eq!(language, "English");
}

#[test]
fn empty_text_invalid_argument() {
    let service = reference_service();
    let (code, message) = detect(&service, "").unwrap_err();
    assert_eq!(code, StatusCode::InvalidArgument);
    assert!(message.contains("cannot be empty"));
    assert_eq!(message, "Text cannot be empty");
}

#[test]
fn digits_and_punctuation_yield_unknown() {
    let service = reference_service();
    let language = detect(&service, "1234567890 ?! ... 42").unwrap();
    assert_eq!(language, "Unknown");
}

#[test]
fn identical_text_yields_identical_reply() {
    let service = reference_service();
    let first = detect(&service, "Guten Morgen, wie geht es dir?").unwrap();
    let second = detect(&service, "Guten Morgen, wie geht es dir?").unwrap();
    assert_eq!(first, second);
}

#[test]
fn distinct_texts_correlate_to_their_own_replies() {
    let service = reference_service();
    let english = detect(&service, "Hello, how are you doing today my friend?").unwrap();
    let german = detect(&service, "Guten Morgen, wie geht es dir heute?").unwrap();
    let spanish = detect(&service, "Buenos dias, como estas hoy amigo mio?").unwrap();
    assert_eq!(english, "English");
    assert_eq!(german, "German");
    assert_eq!(spanish, "Spanish");
}

#[test]
fn nonempty_text_never_errs_and_reply_is_candidate_or_unknown() {
    let service = reference_service();
    let candidates = ["English", "French", "German", "Spanish", "Turkish", "Unknown"];
    let texts = ["a", "bonjour mes amis", "???", "Merhaba nasilsin", "x y z"];
    for text in texts {
        let language = detect(&service, text).unwrap();
        assert!(!language.is_empty());
        assert!(candidates.contains(&language.as_str()), "unexpected reply: {language}");
    }
}

#[test]
fn detector_returns_only_configured_candidates() {
    let detector = Detector::new(vec![Lang::French, Lang::Turkish]);
    let detected = detector.detect("Hello, how are you?");
    assert!(matches!(detected, None | Some(Lang::French) | Some(Lang::Turkish)));
}

#[test]
fn detector_finds_english_in_reference_set() {
    let detector = Detector::new(supported_languages());
    assert_eq!(detector.detect("The quick brown fox jumps over the lazy dog"), Some(Lang::English));
}
