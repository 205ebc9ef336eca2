//! The control loop: frame in, colour out, lamps told only when it matters.
//!
//! [`DriveLoop`] holds what the loop remembers between ticks and decides what
//! happens next; the caller captures frames, talks to the lamps and reports
//! back. Every tick begins with `Capture`: the caller asks whether to stop,
//! and reports `StopRequested`, the captured frame or the failure to capture.
//! A frame whose colour differs enough from the one that the lamps show is
//! dispatched, at full brightness and with the lamps switched on. On a stop
//! request the lamps are restored and the loop ends. A lamp that fails during
//! a dispatch ends the loop too; the lamps that can be reached are restored
//! first, and the loop reports that it failed.

use vstd::prelude::*;
use crate::color::{
    exceeds_threshold, sample_color, sampled_color, variation, Pixel, Rgb, COVERAGE_PERCENT,
    PIXEL_SKIPPING,
};

verus! {

/// The variation above which a colour is sent to the lamps.
pub const COLOR_VARIATION_THRESHOLD: u64 = 20;

/// The brightness with which colours are dispatched.
pub const FULL_BRIGHTNESS: u64 = 100;

/// What the loop is set up with.
#[derive(Clone, Copy, Debug, PartialEq, Eq, Structural)]
pub struct DriveConfig {
    /// A colour is dispatched where its variation is above this.
    pub variation_threshold: u64,
    /// The share of pixels, in percent, that must not be black.
    pub coverage_percent: u64,
    /// Of the pixels that are not black every `stride`-th is summed.
    pub stride: usize,
}

impl Default for DriveConfig {
    fn default() -> (config: DriveConfig)
        ensures
            config.variation_threshold == COLOR_VARIATION_THRESHOLD,
            config.coverage_percent == COVERAGE_PERCENT,
            config.stride == PIXEL_SKIPPING,
    {
        DriveConfig {
            variation_threshold: COLOR_VARIATION_THRESHOLD,
            coverage_percent: COVERAGE_PERCENT,
            stride: PIXEL_SKIPPING,
        }
    }
}

/// Where the loop stands.
#[derive(Clone, Copy, Debug, PartialEq, Eq)]
pub enum Phase {
    /// The next frame is awaited.
    AwaitingFrame,
    /// The lamps are being told this colour.
    Dispatching { color: Rgb },
    /// The lamps are being put back into their captured states.
    Restoring,
    /// The loop has ended.
    Stopped,
}

/// What the caller reports.
#[derive(Debug, PartialEq, Eq)]
pub enum LoopEvent {
    /// A frame was captured.
    Frame(Vec<Pixel>),
    /// No frame could be captured this time.
    CaptureFailed,
    /// The user asked to stop.
    StopRequested,
    /// All lamps took the colour.
    Dispatched,
    /// A lamp failed while the colour was sent.
    DispatchFailed,
    /// All lamps were restored.
    Restored,
    /// A lamp failed while the lamps were restored.
    RestoreFailed,
}

/// A report as the contracts see it.
pub enum LoopEventView {
    Frame(Seq<Pixel>),
    CaptureFailed,
    StopRequested,
    Dispatched,
    DispatchFailed,
    Restored,
    RestoreFailed,
}

impl View for LoopEvent {
    type V = LoopEventView;

    open spec fn view(&self) -> LoopEventView {
        match self {
            LoopEvent::Frame(pixels) => LoopEventView::Frame(pixels@),
            LoopEvent::CaptureFailed => LoopEventView::CaptureFailed,
            LoopEvent::StopRequested => LoopEventView::StopRequested,
            LoopEvent::Dispatched => LoopEventView::Dispatched,
            LoopEvent::DispatchFailed => LoopEventView::DispatchFailed,
            LoopEvent::Restored => LoopEventView::Restored,
            LoopEvent::RestoreFailed => LoopEventView::RestoreFailed,
        }
    }
}

/// What the caller has to do next.
#[derive(Clone, Copy, Debug, PartialEq, Eq)]
pub enum LoopAction {
    /// Ask whether to stop; if not, capture a frame.
    Capture,
    /// Make every lamp show `color`.
    Dispatch { color: Rgb, dimming: u64, power_on: bool },
    /// Put every lamp back into its captured state.
    Restore,
    /// Leave the loop. `failed` says whether a lamp failed on the way.
    Exit { failed: bool },
}

/// The loop as the contracts see it.
pub struct DriveModel {
    pub config: DriveConfig,
    pub phase: Phase,
    /// The frame that was captured last, if any was.
    pub previous_frame: Option<Seq<Pixel>>,
    /// The colour that the lamps were told last.
    pub last_dispatched: Rgb,
    /// Whether a lamp failed.
    pub failed: bool,
}

impl DriveModel {
    /// What the caller has to do in this state.
    pub open spec fn action(self) -> LoopAction {
        match self.phase {
            Phase::AwaitingFrame => LoopAction::Capture,
            Phase::Dispatching { color } => LoopAction::Dispatch {
                color,
                dimming: FULL_BRIGHTNESS,
                power_on: true,
            },
            Phase::Restoring => LoopAction::Restore,
            Phase::Stopped => LoopAction::Exit { failed: self.failed },
        }
    }

    /// The colour of a frame under this configuration.
    pub open spec fn sample(self, frame: Seq<Pixel>) -> Rgb {
        sampled_color(frame, self.config.coverage_percent as nat, self.config.stride as nat)
    }

    /// Whether a colour is far enough from the one that the lamps show.
    pub open spec fn changed(self, color: Rgb) -> bool {
        variation(color, self.last_dispatched) > self.config.variation_threshold
    }

    /// The state after a frame was sampled: its colour is dispatched where
    /// it changed enough, and the next frame is awaited otherwise.
    pub open spec fn decide(self, frame: Seq<Pixel>) -> DriveModel {
        if self.changed(self.sample(frame)) {
            DriveModel { phase: Phase::Dispatching { color: self.sample(frame) }, ..self }
        } else {
            self
        }
    }

    /// The state after the caller's report. A report that does not belong to
    /// the phase changes nothing. Where no frame could be captured the one
    /// before is sampled again; where there is none nothing happens.
    pub open spec fn step(self, event: LoopEventView) -> DriveModel {
        match (self.phase, event) {
            (Phase::AwaitingFrame, LoopEventView::Frame(frame)) => (DriveModel {
                previous_frame: Some(frame),
                ..self
            }).decide(frame),
            (Phase::AwaitingFrame, LoopEventView::CaptureFailed) => match self.previous_frame {
                Some(frame) => self.decide(frame),
                None => self,
            },
            (Phase::AwaitingFrame, LoopEventView::StopRequested) => DriveModel { phase: Phase::Restoring, ..self },
            (Phase::Dispatching { color }, LoopEventView::Dispatched) => DriveModel {
                phase: Phase::AwaitingFrame,
                last_dispatched: color,
                ..self
            },
            (Phase::Dispatching { .. }, LoopEventView::DispatchFailed) => DriveModel {
                phase: Phase::Restoring,
                failed: true,
                ..self
            },
            (Phase::Restoring, LoopEventView::Restored) => DriveModel { phase: Phase::Stopped, ..self },
            (Phase::Restoring, LoopEventView::RestoreFailed) => DriveModel {
                phase: Phase::Stopped,
                failed: true,
                ..self
            },
            _ => self,
        }
    }
}

/// What the loop remembers between ticks.
#[derive(Debug)]
pub struct DriveLoop {
    config: DriveConfig,
    phase: Phase,
    previous_frame: Option<Vec<Pixel>>,
    last_dispatched: Rgb,
    failed: bool,
}

/// Whether each channel is at most 255.
pub open spec fn in_range(color: Rgb) -> bool {
    color.0 <= 255 && color.1 <= 255 && color.2 <= 255
}

impl View for DriveLoop {
    type V = DriveModel;

    closed spec fn view(&self) -> DriveModel {
        DriveModel {
            config: self.config,
            phase: self.phase,
            previous_frame: match self.previous_frame {
                Some(frame) => Some(frame@),
                None => None,
            },
            last_dispatched: self.last_dispatched,
            failed: self.failed,
        }
    }
}

impl DriveLoop {
    #[verifier::type_invariant]
    spec fn colors_in_range(self) -> bool {
        &&& self.config.stride >= 1
        &&& in_range(self.last_dispatched)
        &&& self.phase matches Phase::Dispatching { color } ==> in_range(color)
    }

    /// A loop that awaits its first frame. The lamps are taken to show
    /// black, so that any frame with content is dispatched.
    pub fn new(config: DriveConfig) -> (drive: DriveLoop)
        requires
            config.stride >= 1,
        ensures
            drive@ == (DriveModel {
                config,
                phase: Phase::AwaitingFrame,
                previous_frame: None,
                last_dispatched: (0, 0, 0),
                failed: false,
            }),
    {
        DriveLoop {
            config,
            phase: Phase::AwaitingFrame,
            previous_frame: None,
            last_dispatched: (0, 0, 0),
            failed: false,
        }
    }

    /// What the caller has to do now.
    pub fn action(&self) -> (action: LoopAction)
        ensures
            action == self@.action(),
    {
        match self.phase {
            Phase::AwaitingFrame => LoopAction::Capture,
            Phase::Dispatching { color } => LoopAction::Dispatch { color, dimming: FULL_BRIGHTNESS, power_on: true },
            Phase::Restoring => LoopAction::Restore,
            Phase::Stopped => LoopAction::Exit { failed: self.failed },
        }
    }

    /// The colour that the lamps were told last.
    pub fn last_dispatched(&self) -> (color: Rgb)
        ensures
            color == self@.last_dispatched,
            in_range(color),
    {
        proof {
            use_type_invariant(self);
        }
        self.last_dispatched
    }

    fn changed_color(&self, frame: &Vec<Pixel>) -> (color: Option<Rgb>)
        ensures
            color == if self@.changed(self@.sample(frame@)) {
                Some(self@.sample(frame@))
            } else {
                None
            },
            color matches Some(c) ==> in_range(c),
    {
        proof {
            use_type_invariant(self);
        }
        let sample = sample_color(frame, self.config.coverage_percent, self.config.stride);
        if exceeds_threshold(sample.color, self.last_dispatched, self.config.variation_threshold) {
            Some(sample.color)
        } else {
            None
        }
    }

    /// Takes the caller's report and says what to do next.
    pub fn step(&mut self, event: LoopEvent) -> (action: LoopAction)
        ensures
            final(self)@ == old(self)@.step(event@),
            action == final(self)@.action(),
    {
        proof {
            use_type_invariant(&*self);
        }
        match (self.phase, event) {
            (Phase::AwaitingFrame, LoopEvent::Frame(frame)) => {
                let color = self.changed_color(&frame);
                self.previous_frame = Some(frame);
                if let Some(color) = color {
                    self.phase = Phase::Dispatching { color };
                }
            },
            (Phase::AwaitingFrame, LoopEvent::CaptureFailed) => {
                let color = match &self.previous_frame {
                    Some(frame) => self.changed_color(frame),
                    None => None,
                };
                if let Some(color) = color {
                    self.phase = Phase::Dispatching { color };
                }
            },
            (Phase::AwaitingFrame, LoopEvent::StopRequested) => {
                self.phase = Phase::Restoring;
            },
            (Phase::Dispatching { color }, LoopEvent::Dispatched) => {
                self.last_dispatched = color;
                self.phase = Phase::AwaitingFrame;
            },
            (Phase::Dispatching { .. }, LoopEvent::DispatchFailed) => {
                self.failed = true;
                self.phase = Phase::Restoring;
            },
            (Phase::Restoring, LoopEvent::Restored) => {
                self.phase = Phase::Stopped;
            },
            (Phase::Restoring, LoopEvent::RestoreFailed) => {
                self.failed = true;
                self.phase = Phase::Stopped;
            },
            _ => {},
        }
        self.action()
    }
}

/// A frame whose colour is within the threshold of the colour that the
/// lamps show changes nothing but the frame that is remembered: the lamps are
/// told nothing, and the next frame is awaited. A frame whose colour is
/// further off is dispatched, and becomes the colour that the lamps show once
/// all of them took it.
pub proof fn lemma_change_gate(drive: DriveModel, frame: Seq<Pixel>)
    requires
        drive.phase is AwaitingFrame,
    ensures
        ({
            let after = drive.step(LoopEventView::Frame(frame));
            let color = drive.sample(frame);
            &&& after.last_dispatched == drive.last_dispatched
            &&& after.previous_frame == Some(frame)
            &&& variation(color, drive.last_dispatched) <= drive.config.variation_threshold ==> after.action()
                == LoopAction::Capture
            &&& variation(color, drive.last_dispatched) > drive.config.variation_threshold ==> {
                &&& after.action() == (LoopAction::Dispatch { color, dimming: FULL_BRIGHTNESS, power_on: true })
                &&& after.step(LoopEventView::Dispatched).last_dispatched == color
                &&& after.step(LoopEventView::Dispatched).action() == LoopAction::Capture
            }
        }),
{
}

/// The loop ends only by way of restoring the lamps: from every phase but
/// the last, no report leads to `Stopped` unless the phase is `Restoring`.
pub proof fn lemma_stops_after_restore(drive: DriveModel, event: LoopEventView)
    requires
        !(drive.phase is Stopped),
        drive.step(event).phase is Stopped,
    ensures
        drive.phase is Restoring,
        event is Restored || event is RestoreFailed,
{
}

} // verus!
