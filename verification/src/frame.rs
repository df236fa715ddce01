//! The frame scheduler: the per-tick protocol that orders fence waits,
//! image acquisition, the cross-frame hazard check, submission, present,
//! and the transition into swapchain recreation.
//!
//! The scheduler is a state machine over plain values. The surrounding
//! process performs the GPU calls (fence waits, acquire, submit, present)
//! and reports each observed result; the scheduler decides what happens
//! next and maintains the images-in-flight table that keeps two frame
//! slots from writing the same swapchain image concurrently.

use vstd::prelude::*;

use crate::MAX_FRAMES_IN_FLIGHT;

verus! {

/// What the acquire call reported.
#[derive(Clone, Copy, Debug, PartialEq, Eq, Structural)]
pub enum AcquireOutcome {
    /// An image index was acquired.
    Acquired(u32),
    /// The swapchain is stale; nothing was acquired.
    OutOfDate,
    /// Any other acquire error, carried as the API's error code.
    Failure(i32),
}

/// What the scheduler decides after an acquire report.
#[derive(Clone, Copy, Debug, PartialEq, Eq, Structural)]
pub enum AcquireDecision {
    /// Render into `image`; first wait the fence of slot `hazard`, if any,
    /// because that slot's submission still uses the image.
    Proceed { image: usize, hazard: Option<usize> },
    /// Run the recreation cascade; nothing is submitted or presented this
    /// tick.
    Recreate,
    /// Fatal: propagate the error code.
    Fail(i32),
}

/// What the present call reported.
#[derive(Clone, Copy, Debug, PartialEq, Eq, Structural)]
pub enum PresentOutcome {
    Success,
    /// The image was presented, but the swapchain no longer matches the
    /// surface optimally.
    Suboptimal,
    /// The swapchain is stale.
    OutOfDate,
    /// Any other present error, carried as the API's error code.
    Failure(i32),
}

/// What the scheduler decides after a present report.
#[derive(Clone, Copy, Debug, PartialEq, Eq, Structural)]
pub enum PresentDecision {
    /// The tick completes normally.
    Continue,
    /// The frame completed; run the recreation cascade before the next
    /// tick.
    Recreate,
    /// Fatal: propagate the error code.
    Fail(i32),
}

/// Where the scheduler stands inside a tick.
#[derive(Clone, Copy, Debug, PartialEq, Eq, Structural)]
pub enum Phase {
    /// Before the tick's throttle wait.
    Idle,
    /// The current slot's fence has been waited; acquire is outstanding.
    Acquiring,
    /// An image is claimed; the command buffer may be submitted.
    Recording,
    /// Work was submitted; present is outstanding.
    Presenting,
    /// Recreation triggered by a stale acquire: the tick ends afterwards
    /// without advancing the frame slot.
    RecreatingThenIdle,
    /// Recreation triggered after a completed present: the frame slot
    /// still advances afterwards.
    RecreatingThenAdvance,
    /// The tick is done; only the frame-slot advance remains.
    Advancing,
}

/// The frame scheduler's state: the round-robin frame slot, the
/// images-in-flight table, and which slots have unfinished submissions.
pub struct FrameScheduler {
    frame: usize,
    resized: bool,
    phase: Phase,
    /// Per swapchain image: the frame slot that last claimed it, if any.
    images_in_flight: Vec<Option<usize>>,
    /// Per frame slot: submitted and not yet observed complete.
    pending: Vec<bool>,
    /// Per frame slot: the image index of its latest claim.
    targets: Ghost<Seq<int>>,
}

impl FrameScheduler {
    /// The phase the scheduler is in.
    pub closed spec fn cur_phase(self) -> Phase {
        self.phase
    }

    /// The current frame slot.
    pub closed spec fn cur_frame(self) -> int {
        self.frame as int
    }

    /// How many swapchain images the scheduler tracks.
    pub closed spec fn image_count(self) -> int {
        self.images_in_flight@.len() as int
    }

    /// The frame slot recorded in the images-in-flight table for image
    /// `i`, if any.
    pub closed spec fn owner_of(self, i: int) -> Option<usize> {
        self.images_in_flight@[i]
    }

    /// Whether slot `s` has a submission not yet observed complete.
    pub closed spec fn in_flight(self, s: int) -> bool {
        self.pending@[s]
    }

    /// The image index of slot `s`'s latest claim.
    pub closed spec fn slot_image(self, s: int) -> int {
        self.targets@[s]
    }

    /// Whether the external resize flag is set.
    pub closed spec fn resize_flagged(self) -> bool {
        self.resized
    }

    /// The table and the per-slot bookkeeping agree: table entries name
    /// real slots, and every pending slot's claim is still in the table.
    spec fn table_ok(images: Seq<Option<usize>>, pending: Seq<bool>, targets: Seq<int>) -> bool {
        &&& (forall|i: int| 0 <= i < images.len()
            ==> ((#[trigger] images[i]) matches Some(s) ==> (s as int) < pending.len()))
        &&& (forall|s: int| 0 <= s < pending.len() && #[trigger] pending[s] ==> {
            &&& 0 <= targets[s] < images.len()
            &&& images[targets[s]] == Some(s as usize)
        })
    }

    /// Well-formedness: table and slot bookkeeping agree, and every
    /// in-flight slot's claim is still recorded in the table.
    pub closed spec fn wf(self) -> bool {
        &&& self.pending@.len() == MAX_FRAMES_IN_FLIGHT
        &&& self.targets@.len() == MAX_FRAMES_IN_FLIGHT
        &&& self.frame < MAX_FRAMES_IN_FLIGHT
        &&& Self::table_ok(self.images_in_flight@, self.pending@, self.targets@)
        &&& (self.phase == Phase::Acquiring ==> !self.in_flight(self.cur_frame()))
        &&& (self.phase == Phase::Recording ==> {
            &&& !self.in_flight(self.cur_frame())
            &&& 0 <= self.slot_image(self.cur_frame()) < self.image_count()
            &&& self.owner_of(self.slot_image(self.cur_frame())) == Some(self.frame)
        })
        &&& (self.phase == Phase::Presenting ==> self.in_flight(self.cur_frame()))
    }

    /// Whether `a` and `b` have the same images-in-flight table.
    pub open spec fn same_table(a: Self, b: Self) -> bool {
        &&& a.image_count() == b.image_count()
        &&& forall|i: int| 0 <= i < a.image_count()
            ==> #[trigger] a.owner_of(i) == b.owner_of(i)
    }

    /// Whether `a` and `b` agree on every slot's pending flag and claim.
    pub open spec fn same_slots(a: Self, b: Self) -> bool {
        forall|s: int| 0 <= s < MAX_FRAMES_IN_FLIGHT
            ==> #[trigger] a.in_flight(s) == b.in_flight(s) && a.slot_image(s) == b.slot_image(s)
    }

    /// A fresh scheduler for a swapchain of `image_count` images: slot 0
    /// current, nothing in flight, an empty images-in-flight table.
    pub fn new(image_count: usize) -> (r: Self)
        ensures
            r.wf(),
            r.cur_phase() == Phase::Idle,
            r.cur_frame() == 0,
            r.image_count() == image_count,
            forall|i: int| 0 <= i < image_count ==> #[trigger] r.owner_of(i) is None,
            forall|s: int| 0 <= s < MAX_FRAMES_IN_FLIGHT ==> !(#[trigger] r.in_flight(s)),
            !r.resize_flagged(),
    {
        let mut images_in_flight: Vec<Option<usize>> = Vec::new();
        while images_in_flight.len() < image_count
            invariant
                images_in_flight@.len() <= image_count,
                forall|i: int| 0 <= i < images_in_flight@.len()
                    ==> #[trigger] images_in_flight@[i] is None,
            decreases image_count - images_in_flight.len(),
        {
            images_in_flight.push(None);
        }
        let mut pending: Vec<bool> = Vec::new();
        while pending.len() < MAX_FRAMES_IN_FLIGHT
            invariant
                pending@.len() <= MAX_FRAMES_IN_FLIGHT,
                forall|s: int| 0 <= s < pending@.len() ==> !(#[trigger] pending@[s]),
            decreases MAX_FRAMES_IN_FLIGHT - pending.len(),
        {
            pending.push(false);
        }
        FrameScheduler {
            frame: 0,
            resized: false,
            phase: Phase::Idle,
            images_in_flight,
            pending,
            targets: Ghost(Seq::new(MAX_FRAMES_IN_FLIGHT as nat, |s: int| 0int)),
        }
    }

    /// The phase the scheduler is in.
    pub fn current_phase(&self) -> (r: Phase)
        ensures
            r == self.cur_phase(),
    {
        self.phase
    }

    /// The current frame slot; its fence is the one the tick's throttle
    /// wait blocks on.
    pub fn current_frame(&self) -> (r: usize)
        ensures
            r == self.cur_frame(),
    {
        self.frame
    }

    /// How many swapchain images the scheduler tracks.
    pub fn image_len(&self) -> (r: usize)
        ensures
            r == self.image_count(),
    {
        self.images_in_flight.len()
    }

    /// Records an externally observed surface-size change; the next
    /// completed present triggers the recreation cascade.
    pub fn set_resized(&mut self)
        requires
            old(self).wf(),
        ensures
            final(self).wf(),
            final(self).resize_flagged(),
            final(self).cur_phase() == old(self).cur_phase(),
            final(self).cur_frame() == old(self).cur_frame(),
            Self::same_table(*old(self), *final(self)),
            Self::same_slots(*old(self), *final(self)),
    {
        self.resized = true;
    }

    /// Marks the tick's throttle complete: the current slot's fence has
    /// been waited, so its previous submission is done.
    pub fn complete_throttle(&mut self)
        requires
            old(self).wf(),
            old(self).cur_phase() == Phase::Idle,
        ensures
            final(self).wf(),
            final(self).cur_phase() == Phase::Acquiring,
            final(self).cur_frame() == old(self).cur_frame(),
            final(self).resize_flagged() == old(self).resize_flagged(),
            Self::same_table(*old(self), *final(self)),
            !final(self).in_flight(old(self).cur_frame()),
            forall|s: int| 0 <= s < MAX_FRAMES_IN_FLIGHT && s != old(self).cur_frame()
                ==> #[trigger] final(self).in_flight(s) == old(self).in_flight(s),
            forall|s: int| 0 <= s < MAX_FRAMES_IN_FLIGHT
                ==> #[trigger] final(self).slot_image(s) == old(self).slot_image(s),
    {
        let frame = self.frame;
        self.pending.set(frame, false);
        self.phase = Phase::Acquiring;
    }

    /// Decides the tick from the acquire report. A stale swapchain sends
    /// the tick straight into recreation with nothing submitted; an
    /// acquired image is claimed in the images-in-flight table, after
    /// naming the slot whose fence must first be waited if another
    /// in-flight frame still uses that image.
    pub fn handle_acquire(&mut self, outcome: AcquireOutcome) -> (r: AcquireDecision)
        requires
            old(self).wf(),
            old(self).cur_phase() == Phase::Acquiring,
            outcome matches AcquireOutcome::Acquired(i) ==> (i as int) < old(self).image_count(),
        ensures
            final(self).wf(),
            final(self).cur_frame() == old(self).cur_frame(),
            final(self).resize_flagged() == old(self).resize_flagged(),
            match outcome {
                AcquireOutcome::OutOfDate => {
                    &&& r == AcquireDecision::Recreate
                    &&& final(self).cur_phase() == Phase::RecreatingThenIdle
                    &&& Self::same_table(*old(self), *final(self))
                    &&& Self::same_slots(*old(self), *final(self))
                },
                AcquireOutcome::Failure(c) => {
                    &&& r == AcquireDecision::Fail(c)
                    &&& final(self).cur_phase() == Phase::Idle
                    &&& Self::same_table(*old(self), *final(self))
                    &&& Self::same_slots(*old(self), *final(self))
                },
                AcquireOutcome::Acquired(i) => {
                    let im = i as int;
                    let cur = old(self).cur_frame();
                    let hazard: Option<usize> = match old(self).owner_of(im) {
                        Some(s) => if old(self).in_flight(s as int) { Some(s) } else { None },
                        None => None,
                    };
                    &&& r == (AcquireDecision::Proceed { image: i as usize, hazard })
                    &&& final(self).cur_phase() == Phase::Recording
                    &&& final(self).image_count() == old(self).image_count()
                    &&& final(self).owner_of(im) == Some(old(self).cur_frame() as usize)
                    &&& (forall|j: int| 0 <= j < old(self).image_count() && j != im
                        ==> #[trigger] final(self).owner_of(j) == old(self).owner_of(j))
                    &&& final(self).slot_image(cur) == im
                    &&& (forall|s: int| 0 <= s < MAX_FRAMES_IN_FLIGHT && s != cur
                        ==> #[trigger] final(self).slot_image(s) == old(self).slot_image(s))
                    &&& !final(self).in_flight(cur)
                    &&& (forall|s: int| 0 <= s < MAX_FRAMES_IN_FLIGHT
                        ==> #[trigger] final(self).in_flight(s)
                            == (old(self).in_flight(s) && hazard != Some(s as usize)))
                },
            },
    {
        match outcome {
            AcquireOutcome::OutOfDate => {
                self.phase = Phase::RecreatingThenIdle;
                AcquireDecision::Recreate
            },
            AcquireOutcome::Failure(c) => {
                self.phase = Phase::Idle;
                AcquireDecision::Fail(c)
            },
            AcquireOutcome::Acquired(i) => {
                let image = i as usize;
                let hazard: Option<usize> = match self.images_in_flight[image] {
                    Some(s) => if self.pending[s] { Some(s) } else { None },
                    None => None,
                };
                if let Some(s) = hazard {
                    self.pending.set(s, false);
                }
                let frame = self.frame;
                self.images_in_flight.set(image, Some(frame));
                proof {
                    self.targets@ = self.targets@.update(self.frame as int, image as int);
                }
                self.phase = Phase::Recording;
                AcquireDecision::Proceed { image, hazard }
            },
        }
    }

    /// Marks the current frame slot's command buffer as submitted: its
    /// fence was reset and will signal when the GPU finishes this work.
    pub fn complete_submit(&mut self)
        requires
            old(self).wf(),
            old(self).cur_phase() == Phase::Recording,
        ensures
            final(self).wf(),
            final(self).cur_phase() == Phase::Presenting,
            final(self).cur_frame() == old(self).cur_frame(),
            final(self).resize_flagged() == old(self).resize_flagged(),
            Self::same_table(*old(self), *final(self)),
            final(self).in_flight(old(self).cur_frame()),
            forall|s: int| 0 <= s < MAX_FRAMES_IN_FLIGHT && s != old(self).cur_frame()
                ==> #[trigger] final(self).in_flight(s) == old(self).in_flight(s),
            forall|s: int| 0 <= s < MAX_FRAMES_IN_FLIGHT
                ==> #[trigger] final(self).slot_image(s) == old(self).slot_image(s),
    {
        let frame = self.frame;
        self.pending.set(frame, true);
        self.phase = Phase::Presenting;
    }

    /// Decides the rest of the tick from the present report. A suboptimal
    /// or stale present, or a pending resize flag, sends the completed
    /// frame into recreation; any other present error is fatal unless the
    /// resize flag already forces recreation.
    pub fn handle_present(&mut self, outcome: PresentOutcome) -> (r: PresentDecision)
        requires
            old(self).wf(),
            old(self).cur_phase() == Phase::Presenting,
        ensures
            final(self).wf(),
            final(self).cur_frame() == old(self).cur_frame(),
            Self::same_table(*old(self), *final(self)),
            Self::same_slots(*old(self), *final(self)),
            ({
                let changed = outcome == PresentOutcome::Suboptimal
                    || outcome == PresentOutcome::OutOfDate;
                if old(self).resize_flagged() || changed {
                    &&& r == PresentDecision::Recreate
                    &&& final(self).cur_phase() == Phase::RecreatingThenAdvance
                    &&& !final(self).resize_flagged()
                } else {
                    &&& final(self).resize_flagged() == old(self).resize_flagged()
                    &&& match outcome {
                        PresentOutcome::Failure(c) => {
                            &&& r == PresentDecision::Fail(c)
                            &&& final(self).cur_phase() == Phase::Idle
                        },
                        _ => {
                            &&& r == PresentDecision::Continue
                            &&& final(self).cur_phase() == Phase::Advancing
                        },
                    }
                }
            }),
    {
        let changed = outcome == PresentOutcome::Suboptimal || outcome == PresentOutcome::OutOfDate;
        if self.resized || changed {
            self.resized = false;
            self.phase = Phase::RecreatingThenAdvance;
            PresentDecision::Recreate
        } else if let PresentOutcome::Failure(c) = outcome {
            self.phase = Phase::Idle;
            PresentDecision::Fail(c)
        } else {
            self.phase = Phase::Advancing;
            PresentDecision::Continue
        }
    }

    /// Marks the recreation cascade complete. The cascade begins with a
    /// full device-idle wait, so every in-flight submission is done, and
    /// the new swapchain's images carry no fences yet.
    pub fn complete_recreation(&mut self, new_image_count: usize)
        requires
            old(self).wf(),
            old(self).cur_phase() == Phase::RecreatingThenIdle
                || old(self).cur_phase() == Phase::RecreatingThenAdvance,
        ensures
            final(self).wf(),
            final(self).cur_frame() == old(self).cur_frame(),
            final(self).resize_flagged() == old(self).resize_flagged(),
            final(self).image_count() == new_image_count,
            forall|i: int| 0 <= i < new_image_count ==> #[trigger] final(self).owner_of(i) is None,
            forall|s: int| 0 <= s < MAX_FRAMES_IN_FLIGHT ==> !(#[trigger] final(self).in_flight(s)),
            final(self).cur_phase() == (if old(self).cur_phase() == Phase::RecreatingThenAdvance {
                Phase::Advancing
            } else {
                Phase::Idle
            }),
    {
        let mut images_in_flight: Vec<Option<usize>> = Vec::new();
        while images_in_flight.len() < new_image_count
            invariant
                images_in_flight@.len() <= new_image_count,
                forall|i: int| 0 <= i < images_in_flight@.len()
                    ==> #[trigger] images_in_flight@[i] is None,
            decreases new_image_count - images_in_flight.len(),
        {
            images_in_flight.push(None);
        }
        self.images_in_flight = images_in_flight;
        let mut s: usize = 0;
        while s < self.pending.len()
            invariant
                self.pending@.len() == old(self).pending@.len(),
                forall|j: int| 0 <= j < s ==> !(#[trigger] self.pending@[j]),
                self.frame == old(self).frame,
                self.resized == old(self).resized,
                self.phase == old(self).phase,
                self.targets == old(self).targets,
                self.images_in_flight@.len() == new_image_count,
                forall|i: int| 0 <= i < new_image_count
                    ==> #[trigger] self.images_in_flight@[i] is None,
            decreases self.pending@.len() - s,
        {
            self.pending.set(s, false);
            s += 1;
        }
        self.phase = if matches!(self.phase, Phase::RecreatingThenAdvance) {
            Phase::Advancing
        } else {
            Phase::Idle
        };
    }

    /// Advances to the next frame slot, round-robin over the
    /// `MAX_FRAMES_IN_FLIGHT` slots, and returns to idle.
    pub fn advance(&mut self)
        requires
            old(self).wf(),
            old(self).cur_phase() == Phase::Advancing,
        ensures
            final(self).wf(),
            final(self).cur_phase() == Phase::Idle,
            final(self).cur_frame() == (old(self).cur_frame() + 1) % (MAX_FRAMES_IN_FLIGHT as int),
            final(self).resize_flagged() == old(self).resize_flagged(),
            Self::same_table(*old(self), *final(self)),
            Self::same_slots(*old(self), *final(self)),
    {
        self.frame = (self.frame + 1) % MAX_FRAMES_IN_FLIGHT;
        self.phase = Phase::Idle;
    }

    /// The images-in-flight invariant: no two distinct in-flight frame
    /// slots target the same swapchain image. Two unfinished submissions
    /// therefore never write the same presentable image.
    pub proof fn lemma_images_in_flight_exclusive(self, s1: int, s2: int)
        requires
            self.wf(),
            0 <= s1 < MAX_FRAMES_IN_FLIGHT,
            0 <= s2 < MAX_FRAMES_IN_FLIGHT,
            s1 != s2,
            self.in_flight(s1),
            self.in_flight(s2),
        ensures
            self.slot_image(s1) != self.slot_image(s2),
    {
        assert(self.owner_of(self.slot_image(s1)) == Some(s1 as usize));
        assert(self.owner_of(self.slot_image(s2)) == Some(s2 as usize));
    }
}

} // verus!
