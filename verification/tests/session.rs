use overlay_capture::region::CaptureRegion;
use overlay_capture::session::{CaptureError, CaptureSession, CaptureStep, Resource};

fn region() -> CaptureRegion {
    CaptureRegion { x: 11, y: 35, width: 198, height: 124 }
}

/// Drives a session with the given answers, then with grants, and returns
/// every step it was handed, the first included.
fn trace(answers: &[bool]) -> Vec<CaptureStep> {
    let (mut session, first) = CaptureSession::begin(region()).expect("the region is fine");
    let mut steps = vec![first];
    let mut i = 0;
    while !session.is_finished() {
        let granted = if i < answers.len() { answers[i] } else { true };
        steps.push(session.advance(granted));
        i += 1;
        assert!(i <= 10);
    }
    assert_eq!(session.held_count(), 0);
    steps
}

/// Checks that releases undo acquisitions, last taken first, and that
/// nothing is held at the end. `refused` is the resource that was asked for
/// and not granted, if any.
fn assert_balanced(steps: &[CaptureStep], refused: Option<Resource>) {
    let mut held: Vec<Resource> = Vec::new();
    for step in steps {
        match step {
            CaptureStep::Acquire(resource) => held.push(*resource),
            CaptureStep::Release(resource) => {
                if held.last() == refused.as_ref() {
                    held.pop();
                }
                assert_eq!(held.pop(), Some(*resource));
            }
            _ => {}
        }
    }
    if held.last() == refused.as_ref() {
        held.pop();
    }
    assert!(held.is_empty());
}

#[test]
fn session_of_a_granted_capture() {
    let steps = trace(&[]);
    assert_eq!(
        steps,
        vec![
            CaptureStep::Acquire(Resource::ScreenContext),
            CaptureStep::Acquire(Resource::MemoryContext),
            CaptureStep::Acquire(Resource::Bitmap),
            CaptureStep::Acquire(Resource::Selection),
            CaptureStep::BlockCopy,
            CaptureStep::ExtractPixels,
            CaptureStep::Release(Resource::Selection),
            CaptureStep::Release(Resource::Bitmap),
            CaptureStep::Release(Resource::MemoryContext),
            CaptureStep::Release(Resource::ScreenContext),
            CaptureStep::Done,
        ]
    );
    assert_balanced(&steps, None);
}

#[test]
fn session_without_screen_context() {
    let steps = trace(&[false]);
    assert_eq!(
        steps,
        vec![
            CaptureStep::Acquire(Resource::ScreenContext),
            CaptureStep::Failed(CaptureError::DeviceContextUnavailable),
        ]
    );
    assert_balanced(&steps, Some(Resource::ScreenContext));
}

#[test]
fn session_without_memory_context() {
    let steps = trace(&[true, false]);
    assert_eq!(
        steps,
        vec![
            CaptureStep::Acquire(Resource::ScreenContext),
            CaptureStep::Acquire(Resource::MemoryContext),
            CaptureStep::Release(Resource::ScreenContext),
            CaptureStep::Failed(CaptureError::MemoryContextCreationFailed),
        ]
    );
    assert_balanced(&steps, Some(Resource::MemoryContext));
}

#[test]
fn session_without_bitmap() {
    let steps = trace(&[true, true, false]);
    assert_eq!(
        steps,
        vec![
            CaptureStep::Acquire(Resource::ScreenContext),
            CaptureStep::Acquire(Resource::MemoryContext),
            CaptureStep::Acquire(Resource::Bitmap),
            CaptureStep::Release(Resource::MemoryContext),
            CaptureStep::Release(Resource::ScreenContext),
            CaptureStep::Failed(CaptureError::BitmapCreationFailed),
        ]
    );
    assert_balanced(&steps, Some(Resource::Bitmap));
}

#[test]
fn session_does_not_ask_whether_selecting_succeeded() {
    assert_eq!(trace(&[true, true, true, false]), trace(&[]));
}

#[test]
fn session_with_failed_block_copy() {
    let steps = trace(&[true, true, true, true, false]);
    assert_eq!(
        steps,
        vec![
            CaptureStep::Acquire(Resource::ScreenContext),
            CaptureStep::Acquire(Resource::MemoryContext),
            CaptureStep::Acquire(Resource::Bitmap),
            CaptureStep::Acquire(Resource::Selection),
            CaptureStep::BlockCopy,
            CaptureStep::Release(Resource::Selection),
            CaptureStep::Release(Resource::Bitmap),
            CaptureStep::Release(Resource::MemoryContext),
            CaptureStep::Release(Resource::ScreenContext),
            CaptureStep::Failed(CaptureError::BlockCopyFailed),
        ]
    );
    assert_balanced(&steps, None);
}

#[test]
fn session_with_failed_extraction_cleans_up_before_it_fails() {
    let steps = trace(&[true, true, true, true, true, false]);
    assert_eq!(
        steps,
        vec![
            CaptureStep::Acquire(Resource::ScreenContext),
            CaptureStep::Acquire(Resource::MemoryContext),
            CaptureStep::Acquire(Resource::Bitmap),
            CaptureStep::Acquire(Resource::Selection),
            CaptureStep::BlockCopy,
            CaptureStep::ExtractPixels,
            CaptureStep::Release(Resource::Selection),
            CaptureStep::Release(Resource::Bitmap),
            CaptureStep::Release(Resource::MemoryContext),
            CaptureStep::Release(Resource::ScreenContext),
            CaptureStep::Failed(CaptureError::PixelExtractionFailed),
        ]
    );
    assert_balanced(&steps, None);
}

#[test]
fn session_ignores_how_releases_went() {
    let answers = [true, true, true, true, true, true, false, false, false, false];
    assert_eq!(trace(&answers), trace(&[]));
}

#[test]
fn every_session_ends_within_ten_answers_and_holds_nothing() {
    for bits in 0..1024u32 {
        let mut answers = Vec::new();
        for i in 0..10 {
            answers.push(bits & (1 << i) != 0);
        }
        let (mut session, _) = CaptureSession::begin(region()).expect("the region is fine");
        let mut count = 0;
        let mut held_most = 0;
        let mut last = None;
        while !session.is_finished() {
            last = Some(session.advance(answers[count]));
            if session.held_count() > held_most {
                held_most = session.held_count();
            }
            count += 1;
            assert!(count <= 10);
        }
        assert_eq!(session.held_count(), 0);
        assert!(held_most <= 4);
        let all_granted = answers[0] && answers[1] && answers[2] && answers[4] && answers[5];
        assert_eq!(last == Some(CaptureStep::Done), all_granted);
    }
}

#[test]
fn finished_session_repeats_its_verdict() {
    let (mut session, _) = CaptureSession::begin(region()).expect("the region is fine");
    assert_eq!(session.advance(false), CaptureStep::Failed(CaptureError::DeviceContextUnavailable));
    assert!(session.is_finished());
    assert_eq!(session.advance(true), CaptureStep::Failed(CaptureError::DeviceContextUnavailable));
    assert_eq!(session.advance(false), CaptureStep::Failed(CaptureError::DeviceContextUnavailable));
    assert!(session.is_finished());
    assert_eq!(session.held_count(), 0);
}

#[test]
fn session_holds_what_was_granted() {
    let (mut session, _) = CaptureSession::begin(region()).expect("the region is fine");
    assert_eq!(session.held_count(), 0);
    session.advance(true);
    assert_eq!(session.held_count(), 1);
    session.advance(true);
    assert_eq!(session.held_count(), 2);
    session.advance(true);
    assert_eq!(session.held_count(), 3);
    session.advance(true);
    assert_eq!(session.held_count(), 4);
    session.advance(true);
    assert_eq!(session.held_count(), 4);
    session.advance(true);
    assert_eq!(session.held_count(), 3);
}

#[test]
fn session_refuses_a_region_that_cannot_be_captured() {
    let empty = CaptureRegion { x: 0, y: 0, width: 0, height: 10 };
    assert_eq!(CaptureSession::begin(empty).err(), Some(CaptureError::InvalidRegion));
    let negative = CaptureRegion { x: 0, y: 0, width: -1, height: -26 };
    assert_eq!(CaptureSession::begin(negative).err(), Some(CaptureError::InvalidRegion));
    let huge = CaptureRegion { x: 0, y: 0, width: 536_870_912, height: 1 };
    assert_eq!(CaptureSession::begin(huge).err(), Some(CaptureError::InvalidRegion));
}

#[test]
fn layout_asks_for_rows_from_the_top_down() {
    let (session, _) = CaptureSession::begin(region()).expect("the region is fine");
    let layout = session.layout();
    assert_eq!(layout.width, 198);
    assert_eq!(layout.height, -124);
    assert_eq!(layout.planes, 1);
    assert_eq!(layout.bits_per_pixel, 32);
    assert_eq!(layout.image_bytes, 198 * 124 * 4);
    assert_eq!(session.region(), region());
}

#[test]
fn capture_error_messages() {
    assert_eq!(CaptureError::DeviceContextUnavailable.message(), "Failed to get screen DC");
    assert_eq!(
        CaptureError::MemoryContextCreationFailed.message(),
        "Failed to create compatible DC"
    );
    assert_eq!(CaptureError::BitmapCreationFailed.message(), "Failed to create bitmap");
    assert_eq!(CaptureError::BlockCopyFailed.message(), "Failed to copy screen");
    assert_eq!(CaptureError::PixelExtractionFailed.message(), "Failed to get bitmap bits");
    assert_eq!(CaptureError::InvalidRegion.message(), "Invalid capture region");
}
