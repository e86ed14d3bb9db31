//! The order in which one capture takes and gives back the resources of the
//! display subsystem.
//!
//! The session decides; its caller talks to the display. The caller performs
//! the step it is handed, reports whether the display granted it, and gets the
//! next step back, until the session is finished. Whatever the display
//! answers, every resource that was taken is given back, last taken first,
//! before the session reports its outcome.

use crate::region::CaptureRegion;
use vstd::prelude::*;

verus! {

/// A resource of the display subsystem that a capture holds for a while.
#[derive(Debug, Clone, Copy, PartialEq, Eq, Structural)]
pub enum Resource {
    /// The drawing surface of the whole screen.
    ScreenContext,
    /// An in-memory drawing surface compatible with the screen's.
    MemoryContext,
    /// The off-screen pixel grid that receives the copy.
    Bitmap,
    /// The bitmap's place in the memory context, and with it the object that
    /// was selected there before.
    Selection,
}

/// Why a capture gave no pixels.
#[derive(Debug, Clone, Copy, PartialEq, Eq, Structural)]
pub enum CaptureError {
    /// The region is empty, or its pixels do not fit in one buffer.
    InvalidRegion,
    DeviceContextUnavailable,
    MemoryContextCreationFailed,
    BitmapCreationFailed,
    BlockCopyFailed,
    PixelExtractionFailed,
}

impl CaptureError {
    /// The sentence that stands for the error.
    pub open spec fn text(self) -> Seq<char> {
        match self {
            CaptureError::InvalidRegion => "Invalid capture region"@,
            CaptureError::DeviceContextUnavailable => "Failed to get screen DC"@,
            CaptureError::MemoryContextCreationFailed => "Failed to create compatible DC"@,
            CaptureError::BitmapCreationFailed => "Failed to create bitmap"@,
            CaptureError::BlockCopyFailed => "Failed to copy screen"@,
            CaptureError::PixelExtractionFailed => "Failed to get bitmap bits"@,
        }
    }

    /// The error as a sentence for the caller.
    pub fn message(&self) -> (text: String)
        ensures
            text@ == self.text(),
    {
        match self {
            CaptureError::InvalidRegion => String::from_str("Invalid capture region"),
            CaptureError::DeviceContextUnavailable => String::from_str("Failed to get screen DC"),
            CaptureError::MemoryContextCreationFailed => String::from_str(
                "Failed to create compatible DC",
            ),
            CaptureError::BitmapCreationFailed => String::from_str("Failed to create bitmap"),
            CaptureError::BlockCopyFailed => String::from_str("Failed to copy screen"),
            CaptureError::PixelExtractionFailed => String::from_str("Failed to get bitmap bits"),
        }
    }
}

/// What the caller is to do next.
#[derive(Debug, Clone, Copy, PartialEq, Eq, Structural)]
pub enum CaptureStep {
    /// Take the resource; for the bitmap, in the size of the region.
    Acquire(Resource),
    /// Copy the region from the screen context to the origin of the memory
    /// context.
    BlockCopy,
    /// Read the bitmap's pixels into a buffer, in the session's layout.
    ExtractPixels,
    /// Give the resource back.
    Release(Resource),
    /// Nothing is held any more and the buffer is filled.
    Done,
    /// Nothing is held any more and the capture failed.
    Failed(CaptureError),
}

/// Where a session stands.
#[derive(Debug, Clone, Copy, PartialEq, Eq, Structural)]
pub enum Phase {
    /// Waiting for the answer to an `Acquire`.
    Acquiring,
    /// Waiting for the answer to the block copy.
    Copying,
    /// Waiting for the answer to the pixel extraction.
    Extracting,
    /// Waiting for a `Release` to be carried out.
    Releasing,
    Finished,
}

/// The layout in which the pixels are asked for: 32 bits per pixel,
/// uncompressed, rows from the top down.
#[derive(Debug, Clone, Copy, PartialEq, Eq, Structural)]
pub struct PixelLayout {
    pub width: i32,
    /// Negative: the display's default order is bottom-up, and a negative
    /// height asks for the opposite.
    pub height: i32,
    pub planes: u16,
    pub bits_per_pixel: u16,
    pub image_bytes: u32,
}

/// The `i`-th resource in the order of acquisition.
pub open spec fn resource_at(i: int) -> Resource {
    if i <= 0 {
        Resource::ScreenContext
    } else if i == 1 {
        Resource::MemoryContext
    } else if i == 2 {
        Resource::Bitmap
    } else {
        Resource::Selection
    }
}

/// The error that stands for the display refusing the `i`-th resource.
pub open spec fn refusal_of(i: int) -> CaptureError {
    if i <= 0 {
        CaptureError::DeviceContextUnavailable
    } else if i == 1 {
        CaptureError::MemoryContextCreationFailed
    } else {
        CaptureError::BitmapCreationFailed
    }
}

/// A session as a plain value.
pub struct SessionState {
    pub region: CaptureRegion,
    pub phase: Phase,
    /// How many resources are held: the first `held` in the order of
    /// acquisition.
    pub held: nat,
    /// The first refusal, once there was one.
    pub failure: Option<CaptureError>,
}

impl SessionState {
    /// The state in which a session starts: nothing held, the screen context
    /// asked for.
    pub open spec fn initial(region: CaptureRegion) -> SessionState {
        SessionState { region, phase: Phase::Acquiring, held: 0, failure: None }
    }

    pub open spec fn wf(self) -> bool {
        &&& self.region.is_capturable()
        &&& match self.phase {
            Phase::Acquiring => self.held <= 3 && self.failure is None,
            Phase::Copying => self.held == 4 && self.failure is None,
            Phase::Extracting => self.held == 4 && self.failure is None,
            Phase::Releasing => self.held <= 3,
            Phase::Finished => self.held == 0,
        }
    }

    /// The resources held, in the order in which they were taken.
    pub open spec fn held_resources(self) -> Seq<Resource> {
        Seq::new(self.held, |i: int| resource_at(i))
    }

    /// The step that ends the session.
    pub open spec fn verdict(self) -> CaptureStep {
        match self.failure {
            None => CaptureStep::Done,
            Some(error) => CaptureStep::Failed(error),
        }
    }

    /// One step of giving back: the resource taken last, or the verdict once
    /// nothing is held.
    pub open spec fn unwind(self) -> (SessionState, CaptureStep) {
        if self.held > 0 {
            (
                SessionState { phase: Phase::Releasing, held: (self.held - 1) as nat, ..self },
                CaptureStep::Release(resource_at(self.held - 1)),
            )
        } else {
            (SessionState { phase: Phase::Finished, ..self }, self.verdict())
        }
    }

    /// The state and the step that follow the display's answer to the step
    /// before. The answer counts for the screen context, the memory context,
    /// the bitmap, the block copy and the extraction; selecting and releasing
    /// are not asked whether they succeeded.
    pub open spec fn next(self, granted: bool) -> (SessionState, CaptureStep) {
        match self.phase {
            Phase::Acquiring => {
                if self.held == 3 {
                    (SessionState { phase: Phase::Copying, held: 4, ..self }, CaptureStep::BlockCopy)
                } else if granted {
                    (
                        SessionState { held: self.held + 1, ..self },
                        CaptureStep::Acquire(resource_at(self.held as int + 1)),
                    )
                } else {
                    (SessionState { failure: Some(refusal_of(self.held as int)), ..self }).unwind()
                }
            },
            Phase::Copying => {
                if granted {
                    (SessionState { phase: Phase::Extracting, ..self }, CaptureStep::ExtractPixels)
                } else {
                    (SessionState { failure: Some(CaptureError::BlockCopyFailed), ..self }).unwind()
                }
            },
            Phase::Extracting => {
                if granted {
                    self.unwind()
                } else {
                    (SessionState {
                        failure: Some(CaptureError::PixelExtractionFailed),
                        ..self
                    }).unwind()
                }
            },
            Phase::Releasing => self.unwind(),
            Phase::Finished => (self, self.verdict()),
        }
    }

    /// An upper bound on the answers that it takes to finish.
    pub open spec fn remaining(self) -> nat {
        match self.phase {
            Phase::Acquiring => (10 - self.held) as nat,
            Phase::Copying => 6,
            Phase::Extracting => 5,
            Phase::Releasing => self.held + 1,
            Phase::Finished => 0,
        }
    }

    /// The state after the display has given the answers in turn.
    pub open spec fn run(self, answers: Seq<bool>) -> SessionState
        decreases answers.len(),
    {
        if answers.len() == 0 {
            self
        } else {
            self.next(answers[0]).0.run(answers.skip(1))
        }
    }
}

/// A step keeps a session well formed and brings it nearer to its end.
pub proof fn step_makes_progress(state: SessionState, granted: bool)
    requires
        state.wf(),
    ensures
        state.next(granted).0.wf(),
        state.next(granted).0.region == state.region,
        state.phase != Phase::Finished ==> state.next(granted).0.remaining() < state.remaining(),
        state.phase == Phase::Finished ==> state.next(granted).0 == state,
{
}

/// Resources are given back in the reverse of the order in which they were
/// taken, and only an `Acquire` that the display granted adds one:
/// a `Release` names the resource taken last and removes exactly it, an
/// `Acquire` or the block copy follows the grant of the resource that was
/// asked for, and every other step leaves what is held as it is.
pub proof fn releases_mirror_acquisitions(state: SessionState, granted: bool)
    requires
        state.wf(),
    ensures
        ({
            let (after, step) = state.next(granted);
            let held = state.held_resources();
            match step {
                CaptureStep::Release(resource) => {
                    &&& held.len() > 0
                    &&& resource == held.last()
                    &&& after.held_resources() == held.drop_last()
                },
                CaptureStep::Acquire(resource) => {
                    &&& state.phase == Phase::Acquiring
                    &&& granted
                    &&& after.held_resources() == held.push(resource_at(held.len() as int))
                    &&& resource == resource_at(held.len() as int + 1)
                },
                CaptureStep::BlockCopy => {
                    &&& state.phase == Phase::Acquiring
                    &&& after.held_resources() == held.push(Resource::Selection)
                },
                CaptureStep::ExtractPixels => after.held_resources() == held,
                CaptureStep::Done => held.len() == 0 && after.held == 0,
                CaptureStep::Failed(_) => held.len() == 0 && after.held == 0,
            }
        }),
{
    let (after, step) = state.next(granted);
    let held = state.held_resources();
    match step {
        CaptureStep::Release(_) => {
            assert(after.held_resources() =~= held.drop_last());
        },
        CaptureStep::Acquire(_) => {
            assert(after.held_resources() =~= held.push(resource_at(held.len() as int)));
        },
        CaptureStep::BlockCopy => {
            assert(after.held_resources() =~= held.push(Resource::Selection));
        },
        _ => {},
    }
}

/// No resource outlives a capture: whatever the display answers, a session
/// that has been given as many answers as `remaining` counts is finished and
/// holds nothing.
pub proof fn every_run_ends_with_nothing_held(state: SessionState, answers: Seq<bool>)
    requires
        state.wf(),
        answers.len() >= state.remaining(),
    ensures
        state.run(answers).phase == Phase::Finished,
        state.run(answers).held == 0,
        state.run(answers).region == state.region,
    decreases answers.len(),
{
    if answers.len() > 0 {
        step_makes_progress(state, answers[0]);
        every_run_ends_with_nothing_held(state.next(answers[0]).0, answers.skip(1));
    }
}

/// A session reports success exactly when the display granted every request
/// that can be refused; otherwise it reports the first refusal.
pub proof fn verdict_names_first_refusal(region: CaptureRegion, answers: Seq<bool>)
    requires
        region.is_capturable(),
        answers.len() >= 10,
    ensures
        ({
            let finished = SessionState::initial(region).run(answers);
            if !answers[0] {
                finished.failure == Some(CaptureError::DeviceContextUnavailable)
            } else if !answers[1] {
                finished.failure == Some(CaptureError::MemoryContextCreationFailed)
            } else if !answers[2] {
                finished.failure == Some(CaptureError::BitmapCreationFailed)
            } else if !answers[4] {
                finished.failure == Some(CaptureError::BlockCopyFailed)
            } else if !answers[5] {
                finished.failure == Some(CaptureError::PixelExtractionFailed)
            } else {
                finished.failure is None
            }
        }),
{
    let s0 = SessionState::initial(region);
    let s1 = s0.next(answers[0]).0;
    let s2 = s1.next(answers[1]).0;
    let s3 = s2.next(answers[2]).0;
    let s4 = s3.next(answers[3]).0;
    let s5 = s4.next(answers[4]).0;
    let s6 = s5.next(answers[5]).0;
    let a1 = answers.skip(1);
    let a2 = a1.skip(1);
    let a3 = a2.skip(1);
    let a4 = a3.skip(1);
    let a5 = a4.skip(1);
    let a6 = a5.skip(1);
    assert(s0.run(answers) == s1.run(a1));
    assert(s1.run(a1) == s2.run(a2));
    assert(s2.run(a2) == s3.run(a3));
    assert(s3.run(a3) == s4.run(a4));
    assert(s4.run(a4) == s5.run(a5));
    assert(s5.run(a5) == s6.run(a6));
    failure_is_kept(s6, a6);
    if !answers[0] {
        failure_is_kept(s1, a1);
    } else if !answers[1] {
        failure_is_kept(s2, a2);
    } else if !answers[2] {
        failure_is_kept(s3, a3);
    } else if !answers[4] {
        failure_is_kept(s5, a5);
    }
}

/// Once a session gives back or is finished, its verdict no longer changes.
pub proof fn failure_is_kept(state: SessionState, answers: Seq<bool>)
    requires
        state.phase == Phase::Releasing || state.phase == Phase::Finished,
    ensures
        state.run(answers).failure == state.failure,
    decreases answers.len(),
{
    if answers.len() > 0 {
        failure_is_kept(state.next(answers[0]).0, answers.skip(1));
    }
}

/// One capture's dealings with the display subsystem.
#[derive(Debug)]
pub struct CaptureSession {
    region: CaptureRegion,
    phase: Phase,
    held: u8,
    failure: Option<CaptureError>,
}

impl View for CaptureSession {
    type V = SessionState;

    closed spec fn view(&self) -> SessionState {
        SessionState {
            region: self.region,
            phase: self.phase,
            held: self.held as nat,
            failure: self.failure,
        }
    }
}

/// The resource at place `i` of the order of acquisition.
fn resource_number(i: u8) -> (resource: Resource)
    ensures
        resource == resource_at(i as int),
{
    if i == 0 {
        Resource::ScreenContext
    } else if i == 1 {
        Resource::MemoryContext
    } else if i == 2 {
        Resource::Bitmap
    } else {
        Resource::Selection
    }
}

impl CaptureSession {
    #[verifier::type_invariant]
    spec fn well_formed(&self) -> bool {
        self@.wf()
    }

    /// Starts a capture of `region`. The first step is to take the screen
    /// context. A region that cannot be captured is refused at once, before
    /// anything is taken.
    pub fn begin(region: CaptureRegion) -> (started: Result<(CaptureSession, CaptureStep), CaptureError>)
        ensures
            match started {
                Ok((session, step)) => {
                    &&& region.is_capturable()
                    &&& session@ == SessionState::initial(region)
                    &&& step == CaptureStep::Acquire(Resource::ScreenContext)
                },
                Err(error) => !region.is_capturable() && error == CaptureError::InvalidRegion,
            },
    {
        match region.buffer_len() {
            Some(_) => Ok(
                (
                    CaptureSession { region, phase: Phase::Acquiring, held: 0, failure: None },
                    CaptureStep::Acquire(Resource::ScreenContext),
                ),
            ),
            None => Err(CaptureError::InvalidRegion),
        }
    }

    /// Takes the display's answer to the step before and gives the next step.
    /// After `Done` or `Failed` the session stays as it is and repeats its
    /// verdict.
    pub fn advance(&mut self, granted: bool) -> (step: CaptureStep)
        ensures
            (final(self)@, step) == old(self)@.next(granted),
            old(self)@.wf(),
            final(self)@.wf(),
            old(self)@.phase != Phase::Finished ==> final(self)@.remaining() < old(
                self,
            )@.remaining(),
    {
        proof {
            use_type_invariant(&*self);
            step_makes_progress(self@, granted);
        }
        let mut failure: Option<CaptureError> = self.failure;
        let unwinding: bool = match self.phase {
            Phase::Acquiring => {
                if self.held == 3 {
                    *self = CaptureSession {
                        region: self.region,
                        phase: Phase::Copying,
                        held: 4,
                        failure: None,
                    };
                    return CaptureStep::BlockCopy;
                } else if granted {
                    let held: u8 = self.held + 1;
                    *self = CaptureSession {
                        region: self.region,
                        phase: Phase::Acquiring,
                        held,
                        failure: None,
                    };
                    return CaptureStep::Acquire(resource_number(held));
                } else {
                    failure = Some(
                        if self.held == 0 {
                            CaptureError::DeviceContextUnavailable
                        } else if self.held == 1 {
                            CaptureError::MemoryContextCreationFailed
                        } else {
                            CaptureError::BitmapCreationFailed
                        },
                    );
                    true
                }
            },
            Phase::Copying => {
                if granted {
                    *self = CaptureSession {
                        region: self.region,
                        phase: Phase::Extracting,
                        held: 4,
                        failure: None,
                    };
                    return CaptureStep::ExtractPixels;
                } else {
                    failure = Some(CaptureError::BlockCopyFailed);
                    true
                }
            },
            Phase::Extracting => {
                if !granted {
                    failure = Some(CaptureError::PixelExtractionFailed);
                }
                true
            },
            Phase::Releasing => true,
            Phase::Finished => false,
        };
        if unwinding && self.held > 0 {
            let held: u8 = self.held - 1;
            *self = CaptureSession { region: self.region, phase: Phase::Releasing, held, failure };
            CaptureStep::Release(resource_number(held))
        } else {
            *self = CaptureSession { region: self.region, phase: Phase::Finished, held: 0, failure };
            match failure {
                None => CaptureStep::Done,
                Some(error) => CaptureStep::Failed(error),
            }
        }
    }

    /// The region that this session captures.
    pub fn region(&self) -> (region: CaptureRegion)
        ensures
            region == self@.region,
            region.is_capturable(),
    {
        proof {
            use_type_invariant(self);
        }
        self.region
    }

    /// Whether the session has given its verdict.
    pub fn is_finished(&self) -> (finished: bool)
        ensures
            finished == (self@.phase == Phase::Finished),
    {
        match self.phase {
            Phase::Finished => true,
            _ => false,
        }
    }

    /// How many resources are held at the moment.
    pub fn held_count(&self) -> (count: u8)
        ensures
            count == self@.held,
            count == self@.held_resources().len(),
    {
        self.held
    }

    /// The layout in which `ExtractPixels` reads the bitmap: the region's
    /// width, its height negated for rows from the top down, one plane, 32
    /// bits per pixel, and four bytes per pixel in all.
    pub fn layout(&self) -> (layout: PixelLayout)
        ensures
            layout.width == self@.region.width,
            layout.height == -self@.region.height,
            layout.planes == 1,
            layout.bits_per_pixel == 32,
            layout.image_bytes == self@.region.byte_len(),
    {
        proof {
            use_type_invariant(self);
        }
        let image_bytes: u32 = match self.region.buffer_len() {
            Some(len) => len,
            None => 0,
        };
        PixelLayout {
            width: self.region.width,
            height: -self.region.height,
            planes: 1,
            bits_per_pixel: 32,
            image_bytes,
        }
    }
}

} // verus!
