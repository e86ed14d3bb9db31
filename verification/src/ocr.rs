//! The text-recognition adapter: which engine is asked for, what happens when
//! the platform refuses, and what is made of the text that comes back.
//!
//! The session decides; its caller talks to the platform. The caller performs
//! the step it is handed, waits for the platform, reports the answer, and gets
//! the next step back, until the session is finished.

use vstd::prelude::*;

verus! {

/// The confidence that every result reports. The platform's engine gives no
/// score of its own.
pub const FIXED_CONFIDENCE: u32 = 1;

/// What was recognized in an image.
#[derive(Debug, PartialEq, Eq)]
pub struct OcrResult {
    /// The whole text.
    pub text: String,
    /// The text line by line, in the engine's order, without the lines whose
    /// text could not be fetched.
    pub text_lines: Vec<String>,
    pub confidence: u32,
}

/// `OcrResult` with its texts as sequences of characters.
pub struct Recognized {
    pub text: Seq<char>,
    pub text_lines: Seq<Seq<char>>,
    pub confidence: u32,
}

/// The step at which recognition failed.
#[derive(Debug, Clone, Copy, PartialEq, Eq, Structural)]
pub enum OcrErrorKind {
    ImageDecodeFailed,
    NoOcrLanguageAvailable,
    RecognitionFailed,
    TextExtractionFailed,
}

/// Why there is no text: the step that failed, and what the platform said.
#[derive(Debug, PartialEq, Eq)]
pub struct OcrError {
    pub kind: OcrErrorKind,
    pub diagnostic: String,
}

/// `OcrError` with its text as a sequence of characters.
pub struct OcrFailure {
    pub kind: OcrErrorKind,
    pub diagnostic: Seq<char>,
}

/// Why the engine of the user's profile languages is used although a
/// language was asked for.
#[derive(Debug, Clone, Copy, PartialEq, Eq, Structural)]
pub enum FallbackReason {
    /// The platform knows no language by the tag.
    InvalidLanguage,
    /// The platform has no engine for the language.
    EngineUnavailable,
}

/// What the caller is to do next.
#[derive(Debug, Clone, Copy, PartialEq, Eq, Structural)]
pub enum OcrStep {
    /// Decode the image bytes into a bitmap.
    DecodeImage,
    /// Make a language identifier from the session's language tag.
    CreateLanguage,
    /// Make an engine for that language.
    CreateEngine,
    /// Take the engine of the user's profile languages. After a fallback the
    /// session has a warning to emit first.
    AcquireProfileEngine,
    /// Run the engine on the bitmap.
    Recognize,
    /// Fetch the whole text.
    ReadText,
    /// Fetch the lines, each with its text or without.
    ReadLines,
    /// The result is ready.
    Done,
    /// Recognition failed.
    Failed,
}

/// Where a session stands: the step whose answer it waits for.
#[derive(Debug, Clone, Copy, PartialEq, Eq, Structural)]
pub enum OcrPhase {
    Decoding,
    CreatingLanguage,
    CreatingEngine,
    AcquiringProfileEngine,
    Recognizing,
    ReadingText,
    ReadingLines,
    Finished,
}

/// What the platform hands over with a step that it carried out.
#[derive(Debug, PartialEq, Eq)]
pub enum OcrPayload {
    /// Nothing: the step only had to succeed.
    Nothing,
    /// The whole text.
    Text(String),
    /// The lines in the engine's order; `None` for a line whose text could
    /// not be fetched.
    Lines(Vec<Option<String>>),
}

/// `OcrPayload` with its texts as sequences of characters.
pub enum Payload {
    Nothing,
    Text(Seq<char>),
    Lines(Seq<Option<Seq<char>>>),
}

/// The texts of `lines` as sequences of characters.
pub open spec fn texts(lines: Seq<String>) -> Seq<Seq<char>> {
    Seq::new(lines.len(), |i: int| lines[i]@)
}

/// The texts of `lines`, where there are any, as sequences of characters.
pub open spec fn optional_texts(lines: Seq<Option<String>>) -> Seq<Option<Seq<char>>> {
    Seq::new(
        lines.len(),
        |i: int|
            match lines[i] {
                Some(text) => Some(text@),
                None => None,
            },
    )
}

impl View for OcrResult {
    type V = Recognized;

    open spec fn view(&self) -> Recognized {
        Recognized {
            text: self.text@,
            text_lines: texts(self.text_lines@),
            confidence: self.confidence,
        }
    }
}

impl View for OcrError {
    type V = OcrFailure;

    open spec fn view(&self) -> OcrFailure {
        OcrFailure { kind: self.kind, diagnostic: self.diagnostic@ }
    }
}

impl View for OcrPayload {
    type V = Payload;

    open spec fn view(&self) -> Payload {
        match self {
            OcrPayload::Nothing => Payload::Nothing,
            OcrPayload::Text(text) => Payload::Text(text@),
            OcrPayload::Lines(lines) => Payload::Lines(optional_texts(lines@)),
        }
    }
}

/// The places of the lines that have a text, in rising order.
pub open spec fn surviving_indices(lines: Seq<Option<Seq<char>>>) -> Seq<int>
    decreases lines.len(),
{
    if lines.len() == 0 {
        Seq::empty()
    } else if lines.last() is Some {
        surviving_indices(lines.drop_last()).push(lines.len() - 1)
    } else {
        surviving_indices(lines.drop_last())
    }
}

/// The lines that have a text, in their order; the others leave no trace.
pub open spec fn surviving_lines(lines: Seq<Option<Seq<char>>>) -> Seq<Seq<char>>
    decreases lines.len(),
{
    if lines.len() == 0 {
        Seq::empty()
    } else if lines.last() is Some {
        surviving_lines(lines.drop_last()).push(lines.last()->0)
    } else {
        surviving_lines(lines.drop_last())
    }
}

/// There are no more surviving lines than lines. Each survivor is the text of
/// the line at its place in `surviving_indices`; those places rise strictly,
/// so the survivors stand in the order of the lines they come from; and no
/// line with a text is left out.
pub proof fn survivors_keep_their_order(lines: Seq<Option<Seq<char>>>)
    ensures
        surviving_lines(lines).len() == surviving_indices(lines).len(),
        surviving_lines(lines).len() <= lines.len(),
        forall|k: int|
            0 <= k < surviving_indices(lines).len() ==> {
                &&& 0 <= #[trigger] surviving_indices(lines)[k] < lines.len()
                &&& lines[surviving_indices(lines)[k]] == Some(surviving_lines(lines)[k])
            },
        forall|j: int, k: int|
            0 <= j < k < surviving_indices(lines).len() ==> surviving_indices(lines)[j]
                < surviving_indices(lines)[k],
        forall|i: int|
            0 <= i < lines.len() && lines[i] is Some ==> surviving_indices(lines).contains(i),
    decreases lines.len(),
{
    if lines.len() > 0 {
        let front = lines.drop_last();
        survivors_keep_their_order(front);
        let indices = surviving_indices(lines);
        let before = surviving_indices(front);
        let kept = surviving_lines(lines);
        let kept_before = surviving_lines(front);
        let last = lines.len() - 1;
        assert forall|k: int| 0 <= k < before.len() implies indices[k] == before[k] && kept[k]
            == kept_before[k] && 0 <= before[k] < last && lines[before[k]] == front[before[k]] by {}
        assert forall|k: int| 0 <= k < indices.len() implies {
            &&& 0 <= #[trigger] indices[k] < lines.len()
            &&& lines[indices[k]] == Some(kept[k])
        } by {
            if k < before.len() {
                assert(0 <= before[k] < front.len());
                assert(front[before[k]] == Some(kept_before[k]));
            }
        }
        assert forall|j: int, k: int| 0 <= j < k < indices.len() implies indices[j] < indices[k] by {
            if k < before.len() {
                assert(before[j] < before[k]);
            } else {
                assert(0 <= before[j] < front.len());
            }
        }
        assert forall|i: int| 0 <= i < lines.len() && lines[i] is Some implies indices.contains(
            i,
        ) by {
            if i < last {
                assert(front[i] is Some);
                assert(before.contains(i));
                let k = choose|k: int| 0 <= k < before.len() && before[k] == i;
                assert(indices[k] == i);
            } else {
                assert(indices[indices.len() - 1] == i);
            }
        }
    }
}

/// When every line has a text, all of them survive.
pub proof fn all_lines_survive(lines: Seq<Option<Seq<char>>>)
    requires
        forall|i: int| 0 <= i < lines.len() ==> lines[i] is Some,
    ensures
        surviving_lines(lines).len() == lines.len(),
        forall|i: int| 0 <= i < lines.len() ==> lines[i] == Some(surviving_lines(lines)[i]),
    decreases lines.len(),
{
    if lines.len() > 0 {
        let front = lines.drop_last();
        assert forall|i: int| 0 <= i < front.len() implies front[i] is Some by {
            assert(front[i] == lines[i]);
        }
        all_lines_survive(front);
        assert forall|i: int| 0 <= i < lines.len() implies lines[i] == Some(
            surviving_lines(lines)[i],
        ) by {
            if i < front.len() {
                assert(front[i] == lines[i]);
                assert(surviving_lines(lines)[i] == surviving_lines(front)[i]);
            }
        }
    }
}

/// Keeps the lines that have a text, in their order.
pub fn collect_lines(lines: &Vec<Option<String>>) -> (kept: Vec<String>)
    ensures
        texts(kept@) == surviving_lines(optional_texts(lines@)),
        kept@.len() <= lines@.len(),
{
    let ghost all = optional_texts(lines@);
    let mut kept: Vec<String> = Vec::new();
    let mut i: usize = 0;
    while i < lines.len()
        invariant
            i <= lines@.len(),
            all == optional_texts(lines@),
            texts(kept@) == surviving_lines(all.take(i as int)),
        decreases lines@.len() - i,
    {
        proof {
            assert(all.take(i + 1).drop_last() =~= all.take(i as int));
        }
        match &lines[i] {
            Some(text) => {
                let copy = text.clone();
                let ghost before = kept@;
                kept.push(copy);
                assert(texts(kept@) =~= texts(before).push(text@));
            },
            None => {},
        }
        i = i + 1;
    }
    proof {
        assert(all.take(i as int) =~= all);
        survivors_keep_their_order(all);
    }
    kept
}

/// A session as a plain value.
pub struct OcrState {
    /// The language that was asked for, if one was.
    pub language: Option<Seq<char>>,
    pub phase: OcrPhase,
    /// Why the session fell back to the profile languages, if it did.
    pub fallback: Option<FallbackReason>,
    /// The whole text, once it was read.
    pub text: Seq<char>,
    /// The surviving lines, once they were read.
    pub text_lines: Seq<Seq<char>>,
    /// The failure that ended the session, if one did.
    pub failure: Option<OcrFailure>,
}

impl OcrState {
    /// The state in which a session starts: the image is to be decoded.
    pub open spec fn initial(language: Option<Seq<char>>) -> OcrState {
        OcrState {
            language,
            phase: OcrPhase::Decoding,
            fallback: None,
            text: Seq::empty(),
            text_lines: Seq::empty(),
            failure: None,
        }
    }

    /// The state and the step after a failure that ends the session.
    pub open spec fn fail(self, kind: OcrErrorKind, diagnostic: Seq<char>) -> (OcrState, OcrStep) {
        (
            OcrState {
                phase: OcrPhase::Finished,
                failure: Some(OcrFailure { kind, diagnostic }),
                ..self
            },
            OcrStep::Failed,
        )
    }

    /// The state and the step after the language or its engine was refused:
    /// the session goes on with the profile languages.
    pub open spec fn fall_back(self, reason: FallbackReason) -> (OcrState, OcrStep) {
        (
            OcrState { phase: OcrPhase::AcquiringProfileEngine, fallback: Some(reason), ..self },
            OcrStep::AcquireProfileEngine,
        )
    }

    /// The state and the step in which a session moves on.
    pub open spec fn go(self, phase: OcrPhase, step: OcrStep) -> (OcrState, OcrStep) {
        (OcrState { phase, ..self }, step)
    }

    /// The step that a finished session repeats.
    pub open spec fn verdict(self) -> OcrStep {
        if self.failure is Some {
            OcrStep::Failed
        } else {
            OcrStep::Done
        }
    }

    /// The state and the step that follow the platform's answer to the step
    /// before: `Ok` with what it handed over, or `Err` with its diagnostic.
    pub open spec fn next(self, answer: Result<Payload, Seq<char>>) -> (OcrState, OcrStep) {
        match self.phase {
            OcrPhase::Decoding => match answer {
                Ok(_) => if self.language is Some {
                    self.go(OcrPhase::CreatingLanguage, OcrStep::CreateLanguage)
                } else {
                    self.go(OcrPhase::AcquiringProfileEngine, OcrStep::AcquireProfileEngine)
                },
                Err(diagnostic) => self.fail(OcrErrorKind::ImageDecodeFailed, diagnostic),
            },
            OcrPhase::CreatingLanguage => match answer {
                Ok(_) => self.go(OcrPhase::CreatingEngine, OcrStep::CreateEngine),
                Err(_) => self.fall_back(FallbackReason::InvalidLanguage),
            },
            OcrPhase::CreatingEngine => match answer {
                Ok(_) => self.go(OcrPhase::Recognizing, OcrStep::Recognize),
                Err(_) => self.fall_back(FallbackReason::EngineUnavailable),
            },
            OcrPhase::AcquiringProfileEngine => match answer {
                Ok(_) => self.go(OcrPhase::Recognizing, OcrStep::Recognize),
                Err(diagnostic) => self.fail(OcrErrorKind::NoOcrLanguageAvailable, diagnostic),
            },
            OcrPhase::Recognizing => match answer {
                Ok(_) => self.go(OcrPhase::ReadingText, OcrStep::ReadText),
                Err(diagnostic) => self.fail(OcrErrorKind::RecognitionFailed, diagnostic),
            },
            OcrPhase::ReadingText => match answer {
                Ok(Payload::Text(text)) => (OcrState { text, ..self }).go(
                    OcrPhase::ReadingLines,
                    OcrStep::ReadLines,
                ),
                Ok(_) => self.fail(OcrErrorKind::TextExtractionFailed, Seq::empty()),
                Err(diagnostic) => self.fail(OcrErrorKind::TextExtractionFailed, diagnostic),
            },
            OcrPhase::ReadingLines => match answer {
                Ok(Payload::Lines(lines)) => (OcrState {
                    text_lines: surviving_lines(lines),
                    ..self
                }).go(OcrPhase::Finished, OcrStep::Done),
                Ok(_) => self.fail(OcrErrorKind::TextExtractionFailed, Seq::empty()),
                Err(diagnostic) => self.fail(OcrErrorKind::TextExtractionFailed, diagnostic),
            },
            OcrPhase::Finished => (self, self.verdict()),
        }
    }

    /// What a finished session returns; `None` while it is not finished.
    pub open spec fn outcome(self) -> Option<Result<Recognized, OcrFailure>> {
        if self.phase != OcrPhase::Finished {
            None
        } else {
            match self.failure {
                Some(failure) => Some(Err(failure)),
                None => Some(
                    Ok(
                        Recognized {
                            text: self.text,
                            text_lines: self.text_lines,
                            confidence: FIXED_CONFIDENCE,
                        },
                    ),
                ),
            }
        }
    }

    /// The warning that a session has to emit, once it fell back.
    pub open spec fn warning(self) -> Option<Seq<char>> {
        match (self.fallback, self.language) {
            (Some(reason), Some(language)) => Some(warning_text(reason, language)),
            _ => None,
        }
    }

    /// How many answers it takes at most to finish.
    pub open spec fn remaining(self) -> nat {
        match self.phase {
            OcrPhase::Decoding => 7,
            OcrPhase::CreatingLanguage => 6,
            OcrPhase::CreatingEngine => 5,
            OcrPhase::AcquiringProfileEngine => 4,
            OcrPhase::Recognizing => 3,
            OcrPhase::ReadingText => 2,
            OcrPhase::ReadingLines => 1,
            OcrPhase::Finished => 0,
        }
    }
}

/// The text of the warning about a language that could not be used.
pub open spec fn warning_text(reason: FallbackReason, language: Seq<char>) -> Seq<char> {
    match reason {
        FallbackReason::InvalidLanguage => "Warning: Invalid language code '"@ + language
            + "', falling back to user profile languages"@,
        FallbackReason::EngineUnavailable => "Warning: Could not create OCR engine for language '"@
            + language + "', falling back to user profile languages"@,
    }
}

/// A language that the platform does not know, or has no engine for, never
/// ends a session: the next step is to take the engine of the profile
/// languages, and the refusal is kept as the reason for a warning.
pub proof fn refused_language_falls_back(state: OcrState, diagnostic: Seq<char>)
    requires
        state.phase == OcrPhase::CreatingLanguage || state.phase == OcrPhase::CreatingEngine,
    ensures
        ({
            let (after, step) = state.next(Err(diagnostic));
            &&& step == OcrStep::AcquireProfileEngine
            &&& after.phase == OcrPhase::AcquiringProfileEngine
            &&& after.failure == state.failure
            &&& after.fallback is Some
            &&& after.language == state.language
        }),
{
}

/// With an unusable language tag a recognition still succeeds when the
/// profile engine is there and does its work: the result is the text that
/// was read, the surviving lines, and the fixed confidence.
pub proof fn recognition_succeeds_after_fallback(
    language: Seq<char>,
    diagnostic: Seq<char>,
    text: Seq<char>,
    lines: Seq<Option<Seq<char>>>,
)
    ensures
        ({
            let decoded = OcrState::initial(Some(language)).next(Ok(Payload::Nothing)).0;
            let fallen = decoded.next(Err(diagnostic)).0;
            let engine = fallen.next(Ok(Payload::Nothing)).0;
            let recognized = engine.next(Ok(Payload::Nothing)).0;
            let read = recognized.next(Ok(Payload::Text(text))).0;
            let finished = read.next(Ok(Payload::Lines(lines)));
            &&& fallen.warning() == Some(warning_text(FallbackReason::InvalidLanguage, language))
            &&& finished.1 == OcrStep::Done
            &&& finished.0.outcome() == Some(
                Ok::<Recognized, OcrFailure>(
                    Recognized {
                        text,
                        text_lines: surviving_lines(lines),
                        confidence: FIXED_CONFIDENCE,
                    },
                ),
            )
        }),
{
}

/// Every answer brings an unfinished session nearer to its end, and a
/// finished one stays as it is.
pub proof fn answer_makes_progress(state: OcrState, answer: Result<Payload, Seq<char>>)
    ensures
        state.phase != OcrPhase::Finished ==> state.next(answer).0.remaining() < state.remaining(),
        state.phase == OcrPhase::Finished ==> state.next(answer).0 == state,
        state.next(answer).0.language == state.language,
{
}

/// The platform's answer with its texts as sequences of characters.
pub open spec fn answer_view(answer: Result<OcrPayload, String>) -> Result<Payload, Seq<char>> {
    match answer {
        Ok(payload) => Ok(payload@),
        Err(diagnostic) => Err(diagnostic@),
    }
}

/// A session's outcome with its texts as sequences of characters.
pub open spec fn outcome_view(outcome: Option<Result<OcrResult, OcrError>>) -> Option<
    Result<Recognized, OcrFailure>,
> {
    match outcome {
        None => None,
        Some(Ok(result)) => Some(Ok(result@)),
        Some(Err(error)) => Some(Err(error@)),
    }
}

/// A text with its characters as a sequence, where there is one.
pub open spec fn optional_text(text: Option<String>) -> Option<Seq<char>> {
    match text {
        Some(text) => Some(text@),
        None => None,
    }
}

/// One recognition's dealings with the platform.
#[derive(Debug)]
pub struct OcrSession {
    language: Option<String>,
    phase: OcrPhase,
    fallback: Option<FallbackReason>,
    text: String,
    text_lines: Vec<String>,
    failure: Option<OcrError>,
}

impl View for OcrSession {
    type V = OcrState;

    closed spec fn view(&self) -> OcrState {
        OcrState {
            language: optional_text(self.language),
            phase: self.phase,
            fallback: self.fallback,
            text: self.text@,
            text_lines: texts(self.text_lines@),
            failure: match self.failure {
                Some(error) => Some(error@),
                None => None,
            },
        }
    }
}

impl OcrSession {
    /// Starts a recognition in the given language, or in the languages of
    /// the user's profile. The first step is to decode the image.
    pub fn begin(language: Option<String>) -> (started: (OcrSession, OcrStep))
        ensures
            started.0@ == OcrState::initial(optional_text(language)),
            started.1 == OcrStep::DecodeImage,
    {
        let session = OcrSession {
            language,
            phase: OcrPhase::Decoding,
            fallback: None,
            text: String::new(),
            text_lines: Vec::new(),
            failure: None,
        };
        assert(texts(session.text_lines@) =~= Seq::empty());
        (session, OcrStep::DecodeImage)
    }

    /// Ends the session with a failure.
    fn fail(&mut self, kind: OcrErrorKind, diagnostic: String) -> (step: OcrStep)
        ensures
            (final(self)@, step) == old(self)@.fail(kind, diagnostic@),
    {
        self.phase = OcrPhase::Finished;
        self.failure = Some(OcrError { kind, diagnostic });
        OcrStep::Failed
    }

    /// Goes on with the profile languages.
    fn fall_back(&mut self, reason: FallbackReason) -> (step: OcrStep)
        ensures
            (final(self)@, step) == old(self)@.fall_back(reason),
    {
        self.phase = OcrPhase::AcquiringProfileEngine;
        self.fallback = Some(reason);
        OcrStep::AcquireProfileEngine
    }

    /// Moves on to the next phase.
    fn go(&mut self, phase: OcrPhase, step: OcrStep) -> (next: OcrStep)
        ensures
            (final(self)@, next) == old(self)@.go(phase, step),
    {
        self.phase = phase;
        step
    }

    /// Takes the platform's answer to the step before and gives the next
    /// step. After `Done` or `Failed` the session stays as it is and repeats
    /// that step.
    pub fn advance(&mut self, answer: Result<OcrPayload, String>) -> (step: OcrStep)
        ensures
            (final(self)@, step) == old(self)@.next(answer_view(answer)),
            old(self)@.phase != OcrPhase::Finished ==> final(self)@.remaining() < old(
                self,
            )@.remaining(),
    {
        proof {
            answer_makes_progress(self@, answer_view(answer));
        }
        match self.phase {
            OcrPhase::Decoding => match answer {
                Ok(_) => {
                    if self.language.is_some() {
                        self.go(OcrPhase::CreatingLanguage, OcrStep::CreateLanguage)
                    } else {
                        self.go(OcrPhase::AcquiringProfileEngine, OcrStep::AcquireProfileEngine)
                    }
                },
                Err(diagnostic) => self.fail(OcrErrorKind::ImageDecodeFailed, diagnostic),
            },
            OcrPhase::CreatingLanguage => match answer {
                Ok(_) => self.go(OcrPhase::CreatingEngine, OcrStep::CreateEngine),
                Err(_) => self.fall_back(FallbackReason::InvalidLanguage),
            },
            OcrPhase::CreatingEngine => match answer {
                Ok(_) => self.go(OcrPhase::Recognizing, OcrStep::Recognize),
                Err(_) => self.fall_back(FallbackReason::EngineUnavailable),
            },
            OcrPhase::AcquiringProfileEngine => match answer {
                Ok(_) => self.go(OcrPhase::Recognizing, OcrStep::Recognize),
                Err(diagnostic) => self.fail(OcrErrorKind::NoOcrLanguageAvailable, diagnostic),
            },
            OcrPhase::Recognizing => match answer {
                Ok(_) => self.go(OcrPhase::ReadingText, OcrStep::ReadText),
                Err(diagnostic) => self.fail(OcrErrorKind::RecognitionFailed, diagnostic),
            },
            OcrPhase::ReadingText => match answer {
                Ok(OcrPayload::Text(text)) => {
                    self.text = text;
                    self.go(OcrPhase::ReadingLines, OcrStep::ReadLines)
                },
                Ok(_) => self.fail(OcrErrorKind::TextExtractionFailed, String::new()),
                Err(diagnostic) => self.fail(OcrErrorKind::TextExtractionFailed, diagnostic),
            },
            OcrPhase::ReadingLines => match answer {
                Ok(OcrPayload::Lines(lines)) => {
                    self.text_lines = collect_lines(&lines);
                    self.go(OcrPhase::Finished, OcrStep::Done)
                },
                Ok(_) => self.fail(OcrErrorKind::TextExtractionFailed, String::new()),
                Err(diagnostic) => self.fail(OcrErrorKind::TextExtractionFailed, diagnostic),
            },
            OcrPhase::Finished => {
                if self.failure.is_some() {
                    OcrStep::Failed
                } else {
                    OcrStep::Done
                }
            },
        }
    }

    /// Whether the session has ended.
    pub fn is_finished(&self) -> (finished: bool)
        ensures
            finished == (self@.phase == OcrPhase::Finished),
    {
        match self.phase {
            OcrPhase::Finished => true,
            _ => false,
        }
    }

    /// The language tag that the session was started with.
    pub fn language(&self) -> (language: Option<&String>)
        ensures
            match language {
                Some(tag) => self@.language == Some(tag@),
                None => self@.language is None,
            },
    {
        self.language.as_ref()
    }

    /// The warning to emit once the session has fallen back to the profile
    /// languages: it names the language and says whether its tag or its
    /// engine was refused.
    pub fn warning(&self) -> (warning: Option<String>)
        ensures
            optional_text(warning) == self@.warning(),
    {
        match (&self.fallback, &self.language) {
            (Some(reason), Some(language)) => {
                let mut text = match reason {
                    FallbackReason::InvalidLanguage => String::from_str(
                        "Warning: Invalid language code '",
                    ),
                    FallbackReason::EngineUnavailable => String::from_str(
                        "Warning: Could not create OCR engine for language '",
                    ),
                };
                text.append(language.as_str());
                text.append("', falling back to user profile languages");
                Some(text)
            },
            _ => None,
        }
    }

    /// Ends the session and hands out what it came to: the result, the
    /// failure, or `None` if the session was not finished.
    pub fn outcome(self) -> (outcome: Option<Result<OcrResult, OcrError>>)
        ensures
            outcome_view(outcome) == self@.outcome(),
    {
        match self.phase {
            OcrPhase::Finished => match self.failure {
                Some(error) => Some(Err(error)),
                None => Some(
                    Ok(
                        OcrResult {
                            text: self.text,
                            text_lines: self.text_lines,
                            confidence: FIXED_CONFIDENCE,
                        },
                    ),
                ),
            },
            _ => None,
        }
    }
}

} // verus!
