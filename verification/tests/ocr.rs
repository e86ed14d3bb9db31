use overlay_capture::ocr::{
    collect_lines, OcrError, OcrErrorKind, OcrPayload, OcrResult, OcrSession, OcrStep,
    FIXED_CONFIDENCE,
};

fn granted() -> Result<OcrPayload, String> {
    Ok(OcrPayload::Nothing)
}

fn refused(diagnostic: &str) -> Result<OcrPayload, String> {
    Err(diagnostic.to_string())
}

fn text(text: &str) -> Result<OcrPayload, String> {
    Ok(OcrPayload::Text(text.to_string()))
}

fn lines(lines: &[Option<&str>]) -> Result<OcrPayload, String> {
    Ok(OcrPayload::Lines(lines.iter().map(|line| line.map(|text| text.to_string())).collect()))
}

fn failure(kind: OcrErrorKind, diagnostic: &str) -> Option<Result<OcrResult, OcrError>> {
    Some(Err(OcrError { kind, diagnostic: diagnostic.to_string() }))
}

#[test]
fn recognition_without_a_language_uses_the_profile_engine() {
    let (mut session, first) = OcrSession::begin(None);
    assert_eq!(first, OcrStep::DecodeImage);
    assert_eq!(session.language(), None);
    assert_eq!(session.advance(granted()), OcrStep::AcquireProfileEngine);
    assert_eq!(session.warning(), None);
    assert_eq!(session.advance(granted()), OcrStep::Recognize);
    assert_eq!(session.advance(granted()), OcrStep::ReadText);
    assert_eq!(session.advance(text("Hello\nworld")), OcrStep::ReadLines);
    assert!(!session.is_finished());
    assert_eq!(session.advance(lines(&[Some("Hello"), Some("world")])), OcrStep::Done);
    assert!(session.is_finished());
    assert_eq!(
        session.outcome(),
        Some(Ok(OcrResult {
            text: "Hello\nworld".to_string(),
            text_lines: vec!["Hello".to_string(), "world".to_string()],
            confidence: 1,
        }))
    );
}

#[test]
fn recognition_in_a_language_that_the_platform_has() {
    let (mut session, first) = OcrSession::begin(Some("en-US".to_string()));
    assert_eq!(first, OcrStep::DecodeImage);
    assert_eq!(session.language(), Some(&"en-US".to_string()));
    assert_eq!(session.advance(granted()), OcrStep::CreateLanguage);
    assert_eq!(session.advance(granted()), OcrStep::CreateEngine);
    assert_eq!(session.advance(granted()), OcrStep::Recognize);
    assert_eq!(session.warning(), None);
    assert_eq!(session.advance(granted()), OcrStep::ReadText);
    assert_eq!(session.advance(text("abc")), OcrStep::ReadLines);
    assert_eq!(session.advance(lines(&[Some("abc")])), OcrStep::Done);
    let result = session.outcome().expect("finished").expect("recognized");
    assert_eq!(result.text, "abc");
    assert_eq!(result.text_lines, vec!["abc".to_string()]);
    assert_eq!(result.confidence, FIXED_CONFIDENCE);
}

#[test]
fn recognition_with_an_invalid_language_tag_falls_back_and_succeeds() {
    let (mut session, _) = OcrSession::begin(Some("zz-not-a-language".to_string()));
    assert_eq!(session.advance(granted()), OcrStep::CreateLanguage);
    assert_eq!(session.advance(refused("unknown language")), OcrStep::AcquireProfileEngine);
    assert!(!session.is_finished());
    assert_eq!(
        session.warning(),
        Some(
            "Warning: Invalid language code 'zz-not-a-language', falling back to user profile languages"
                .to_string()
        )
    );
    assert_eq!(session.advance(granted()), OcrStep::Recognize);
    assert_eq!(session.advance(granted()), OcrStep::ReadText);
    assert_eq!(session.advance(text("some text")), OcrStep::ReadLines);
    assert_eq!(session.advance(lines(&[Some("some text")])), OcrStep::Done);
    assert_eq!(
        session.outcome(),
        Some(Ok(OcrResult {
            text: "some text".to_string(),
            text_lines: vec!["some text".to_string()],
            confidence: 1,
        }))
    );
}

#[test]
fn recognition_without_an_engine_for_the_language_falls_back() {
    let (mut session, _) = OcrSession::begin(Some("ja".to_string()));
    assert_eq!(session.advance(granted()), OcrStep::CreateLanguage);
    assert_eq!(session.advance(granted()), OcrStep::CreateEngine);
    assert_eq!(session.advance(refused("no engine")), OcrStep::AcquireProfileEngine);
    assert_eq!(
        session.warning(),
        Some(
            "Warning: Could not create OCR engine for language 'ja', falling back to user profile languages"
                .to_string()
        )
    );
    assert_eq!(session.advance(granted()), OcrStep::Recognize);
    assert_eq!(session.advance(granted()), OcrStep::ReadText);
    assert_eq!(session.advance(text("")), OcrStep::ReadLines);
    assert_eq!(session.advance(lines(&[])), OcrStep::Done);
    let result = session.outcome().expect("finished").expect("recognized");
    assert_eq!(result.text, "");
    assert!(result.text_lines.is_empty());
    assert_eq!(result.confidence, 1);
}

#[test]
fn recognition_fails_when_the_image_cannot_be_decoded() {
    let (mut session, _) = OcrSession::begin(Some("en".to_string()));
    assert_eq!(session.advance(refused("not an image")), OcrStep::Failed);
    assert!(session.is_finished());
    assert_eq!(session.outcome(), failure(OcrErrorKind::ImageDecodeFailed, "not an image"));
}

#[test]
fn recognition_fails_when_no_language_is_installed() {
    let (mut session, _) = OcrSession::begin(None);
    session.advance(granted());
    assert_eq!(session.advance(refused("none installed")), OcrStep::Failed);
    assert_eq!(session.outcome(), failure(OcrErrorKind::NoOcrLanguageAvailable, "none installed"));
}

#[test]
fn recognition_fails_when_the_fallback_engine_is_missing_too() {
    let (mut session, _) = OcrSession::begin(Some("zz-not-a-language".to_string()));
    session.advance(granted());
    assert_eq!(session.advance(refused("unknown language")), OcrStep::AcquireProfileEngine);
    assert_eq!(session.advance(refused("none installed")), OcrStep::Failed);
    assert_eq!(session.outcome(), failure(OcrErrorKind::NoOcrLanguageAvailable, "none installed"));
}

#[test]
fn recognition_fails_when_the_engine_fails() {
    let (mut session, _) = OcrSession::begin(None);
    session.advance(granted());
    session.advance(granted());
    assert_eq!(session.advance(refused("engine error")), OcrStep::Failed);
    assert_eq!(session.outcome(), failure(OcrErrorKind::RecognitionFailed, "engine error"));
}

#[test]
fn recognition_fails_when_the_text_is_unavailable() {
    let (mut session, _) = OcrSession::begin(None);
    session.advance(granted());
    session.advance(granted());
    session.advance(granted());
    assert_eq!(session.advance(refused("no text")), OcrStep::Failed);
    assert_eq!(session.outcome(), failure(OcrErrorKind::TextExtractionFailed, "no text"));

    let (mut session, _) = OcrSession::begin(None);
    session.advance(granted());
    session.advance(granted());
    session.advance(granted());
    assert_eq!(session.advance(granted()), OcrStep::Failed);
    assert_eq!(session.outcome(), failure(OcrErrorKind::TextExtractionFailed, ""));
}

#[test]
fn recognition_fails_when_the_lines_are_unavailable() {
    let (mut session, _) = OcrSession::begin(None);
    session.advance(granted());
    session.advance(granted());
    session.advance(granted());
    session.advance(text("abc"));
    assert_eq!(session.advance(refused("no lines")), OcrStep::Failed);
    assert_eq!(session.outcome(), failure(OcrErrorKind::TextExtractionFailed, "no lines"));

    let (mut session, _) = OcrSession::begin(None);
    session.advance(granted());
    session.advance(granted());
    session.advance(granted());
    session.advance(text("abc"));
    assert_eq!(session.advance(text("again")), OcrStep::Failed);
    assert_eq!(session.outcome(), failure(OcrErrorKind::TextExtractionFailed, ""));
}

#[test]
fn lines_without_text_are_dropped_and_the_rest_keep_their_order() {
    let (mut session, _) = OcrSession::begin(None);
    session.advance(granted());
    session.advance(granted());
    session.advance(granted());
    session.advance(text("a b c d"));
    let step =
        session.advance(lines(&[None, Some("a"), Some("b"), None, None, Some("c"), Some("d"), None]));
    assert_eq!(step, OcrStep::Done);
    let result = session.outcome().expect("finished").expect("recognized");
    assert_eq!(result.text, "a b c d");
    assert_eq!(
        result.text_lines,
        vec!["a".to_string(), "b".to_string(), "c".to_string(), "d".to_string()]
    );
    assert!(result.text_lines.len() <= 8);
}

#[test]
fn collect_lines_keeps_the_lines_with_a_text() {
    let all = vec![Some("x".to_string()), None, Some("y".to_string()), Some("x".to_string())];
    assert_eq!(collect_lines(&all), vec!["x".to_string(), "y".to_string(), "x".to_string()]);
    assert_eq!(collect_lines(&vec![None, None]), Vec::<String>::new());
    assert_eq!(collect_lines(&Vec::new()), Vec::<String>::new());
    let full = vec![Some("1".to_string()), Some("2".to_string())];
    assert_eq!(collect_lines(&full), vec!["1".to_string(), "2".to_string()]);
}

#[test]
fn unfinished_session_has_no_outcome() {
    let (session, _) = OcrSession::begin(None);
    assert_eq!(session.outcome(), None);
    let (mut session, _) = OcrSession::begin(Some("en".to_string()));
    session.advance(granted());
    session.advance(granted());
    assert!(!session.is_finished());
    assert_eq!(session.outcome(), None);
}

#[test]
fn finished_recognition_stays_finished() {
    let (mut session, _) = OcrSession::begin(None);
    assert_eq!(session.advance(refused("not an image")), OcrStep::Failed);
    assert_eq!(session.advance(granted()), OcrStep::Failed);
    assert_eq!(session.advance(text("late")), OcrStep::Failed);
    assert_eq!(session.outcome(), failure(OcrErrorKind::ImageDecodeFailed, "not an image"));

    let (mut session, _) = OcrSession::begin(None);
    session.advance(granted());
    session.advance(granted());
    session.advance(granted());
    session.advance(text("abc"));
    assert_eq!(session.advance(lines(&[Some("abc")])), OcrStep::Done);
    assert_eq!(session.advance(refused("late")), OcrStep::Done);
    assert_eq!(session.advance(lines(&[Some("other")])), OcrStep::Done);
    let result = session.outcome().expect("finished").expect("recognized");
    assert_eq!(result.text_lines, vec!["abc".to_string()]);
}

#[test]
fn every_recognition_ends_within_seven_answers() {
    for bits in 0..128u32 {
        for with_language in [false, true] {
            let language = if with_language { Some("en".to_string()) } else { None };
            let (mut session, _) = OcrSession::begin(language);
            let mut count = 0;
            while !session.is_finished() {
                let answer = if bits & (1 << count) != 0 {
                    match count {
                        0..=3 => granted(),
                        _ => Ok(OcrPayload::Text("t".to_string())),
                    }
                } else if count >= 4 {
                    lines(&[Some("t"), None])
                } else {
                    refused("no")
                };
                session.advance(answer);
                count += 1;
                assert!(count <= 7);
            }
            assert!(session.outcome().is_some());
        }
    }
}
