//! The display: the configuration currently applied to a surface, and the
//! decisions taken when the window is resized or a frame cannot be acquired.
//!
//! The display never touches the surface itself. Each operation answers with
//! what the caller has to do on the surface next.

use vstd::prelude::*;
use crate::surface::{chosen_configuration, configure, ConfigureError, SurfaceCapabilities, SurfaceConfiguration};

verus! {

/// Where a display stands between frames.
#[derive(Clone, Copy, Debug, PartialEq, Eq, Structural)]
pub enum Phase {
    /// The surface is configured and frames can be acquired.
    Ready,
    /// An acquisition failed; the surface is being configured again and the
    /// acquisition will be tried once more.
    Recovering,
    /// The display cannot go on; the render loop has to stop.
    Fatal,
}

/// What the surface answered to a request for the next frame.
#[derive(Clone, Copy, Debug, PartialEq, Eq, Structural)]
pub enum AcquireOutcome {
    /// A frame was handed out.
    Acquired,
    /// No frame arrived in time.
    Timeout,
    /// The surface changed and has to be configured again.
    Outdated,
    /// The surface was lost and has to be configured again.
    Lost,
    /// No memory is left for a frame.
    OutOfMemory,
}

/// What the caller does after reporting an acquisition.
#[derive(Clone, Copy, Debug, PartialEq, Eq)]
pub enum FrameAction {
    /// Render into the acquired frame and present it.
    Render,
    /// Apply this configuration to the surface, then acquire again.
    Reconfigure(SurfaceConfiguration),
    /// Stop the render loop.
    Stop,
}

/// The phase that follows when `outcome` is reported in `phase`. A first
/// failure other than exhausted memory leads to one recovery; any failure of
/// the retry is fatal, and nothing leaves the fatal phase.
pub open spec fn next_phase(phase: Phase, outcome: AcquireOutcome) -> Phase {
    match (phase, outcome) {
        (Phase::Fatal, _) => Phase::Fatal,
        (_, AcquireOutcome::Acquired) => Phase::Ready,
        (Phase::Ready, AcquireOutcome::OutOfMemory) => Phase::Fatal,
        (Phase::Ready, _) => Phase::Recovering,
        (Phase::Recovering, _) => Phase::Fatal,
    }
}

/// The action that goes with entering `next` while `config` is stored.
pub open spec fn action_on_entering(next: Phase, config: SurfaceConfiguration) -> FrameAction {
    match next {
        Phase::Ready => FrameAction::Render,
        Phase::Recovering => FrameAction::Reconfigure(config),
        Phase::Fatal => FrameAction::Stop,
    }
}

/// The stored configuration after a resize request: unchanged when a
/// dimension is zero, else the same record with the new dimensions.
pub open spec fn resized(config: SurfaceConfiguration, width: u32, height: u32) -> SurfaceConfiguration {
    if width == 0 || height == 0 {
        config
    } else {
        SurfaceConfiguration { width, height, ..config }
    }
}

/// The configuration of a surface together with the phase of its frame cycle.
pub struct Display {
    config: SurfaceConfiguration,
    phase: Phase,
}

impl Display {
    #[verifier::type_invariant]
    spec fn size_is_positive(self) -> bool {
        self.config.width > 0 && self.config.height > 0
    }

    /// The stored configuration.
    pub closed spec fn stored_config(self) -> SurfaceConfiguration {
        self.config
    }

    /// The current phase.
    pub closed spec fn current_phase(self) -> Phase {
        self.phase
    }

    /// Creates a display for a surface of the given size from what the
    /// adapter reports for it. The display starts out ready; the caller
    /// applies the stored configuration to the surface.
    pub fn new(caps: &SurfaceCapabilities, width: u32, height: u32) -> (outcome: Result<
        Display,
        ConfigureError,
    >)
        ensures
            (match chosen_configuration(*caps, width, height) {
                Ok(config) => outcome is Ok && outcome->Ok_0.stored_config() == config
                    && outcome->Ok_0.current_phase() == Phase::Ready,
                Err(reason) => outcome is Err && outcome->Err_0 == reason,
            }),
    {
        match configure(caps, width, height) {
            Ok(config) => Ok(Display { config, phase: Phase::Ready }),
            Err(reason) => Err(reason),
        }
    }

    /// The stored configuration. Its dimensions are never zero.
    pub fn config(&self) -> (config: SurfaceConfiguration)
        ensures
            config == self.stored_config(),
            config.width > 0,
            config.height > 0,
    {
        proof {
            use_type_invariant(self);
        }
        self.config
    }

    /// The current phase.
    pub fn phase(&self) -> (phase: Phase)
        ensures
            phase == self.current_phase(),
    {
        self.phase
    }

    /// Takes a resize request. A request with a zero dimension changes
    /// nothing and asks for nothing. Any other request stores the new
    /// dimensions and returns the record to apply to the surface.
    pub fn resize(&mut self, width: u32, height: u32) -> (apply: Option<SurfaceConfiguration>)
        ensures
            final(self).stored_config() == resized(old(self).stored_config(), width, height),
            final(self).current_phase() == old(self).current_phase(),
            width == 0 || height == 0 ==> apply is None && *final(self) == *old(self),
            width > 0 && height > 0 ==> apply == Some(final(self).stored_config())
                && final(self).stored_config().width == width
                && final(self).stored_config().height == height,
    {
        if width > 0 && height > 0 {
            let config = SurfaceConfiguration { width, height, ..self.config };
            self.config = config;
            Some(config)
        } else {
            None
        }
    }

    /// Takes what the surface answered to a request for the next frame and
    /// says what to do next. After `Reconfigure` the caller applies the
    /// record, acquires once more and reports that outcome too.
    pub fn acquired(&mut self, outcome: AcquireOutcome) -> (action: FrameAction)
        ensures
            final(self).stored_config() == old(self).stored_config(),
            final(self).current_phase() == next_phase(old(self).current_phase(), outcome),
            action == action_on_entering(
                next_phase(old(self).current_phase(), outcome),
                old(self).stored_config(),
            ),
    {
        let next = match self.phase {
            Phase::Fatal => Phase::Fatal,
            Phase::Ready => match outcome {
                AcquireOutcome::Acquired => Phase::Ready,
                AcquireOutcome::OutOfMemory => Phase::Fatal,
                _ => Phase::Recovering,
            },
            Phase::Recovering => match outcome {
                AcquireOutcome::Acquired => Phase::Ready,
                _ => Phase::Fatal,
            },
        };
        proof {
            use_type_invariant(&*self);
        }
        self.phase = next;
        match next {
            Phase::Ready => FrameAction::Render,
            Phase::Recovering => FrameAction::Reconfigure(self.config),
            Phase::Fatal => FrameAction::Stop,
        }
    }
}

/// Repeating a resize request changes nothing further.
pub proof fn resize_is_idempotent(config: SurfaceConfiguration, width: u32, height: u32)
    ensures
        resized(resized(config, width, height), width, height) == resized(config, width, height),
{
}

/// One acquisition leads to at most one reconfiguration: whatever the retry
/// reports, the display is ready or has given up, and asks for no second
/// reconfiguration.
pub proof fn recovery_is_tried_once(first: AcquireOutcome, retry: AcquireOutcome, config: SurfaceConfiguration)
    requires
        next_phase(Phase::Ready, first) == Phase::Recovering,
    ensures
        next_phase(Phase::Recovering, retry) != Phase::Recovering,
        retry == AcquireOutcome::Acquired ==> action_on_entering(
            next_phase(Phase::Recovering, retry),
            config,
        ) == FrameAction::Render,
        retry != AcquireOutcome::Acquired ==> action_on_entering(
            next_phase(Phase::Recovering, retry),
            config,
        ) == FrameAction::Stop,
{
}

/// Exhausted memory is fatal in every phase, and nothing leaves the fatal
/// phase.
pub proof fn fatal_is_final(phase: Phase, outcome: AcquireOutcome)
    ensures
        next_phase(phase, AcquireOutcome::OutOfMemory) == Phase::Fatal,
        next_phase(Phase::Fatal, outcome) == Phase::Fatal,
{
}

} // verus!
