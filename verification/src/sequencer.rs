//! The course of an animation: render the frames in order, write the frame
//! log, run the encoder, remove the frames once the video is there.
//!
//! The sequencer decides; its caller does the work. It asks for the next
//! action, performs it, and reports what came of it.

use vstd::prelude::*;

verus! {

/// How a sequence ended.
#[derive(Clone, Copy, Debug, PartialEq, Eq)]
pub enum Outcome {
    /// The encoder made the video and the frame files were removed.
    VideoCreated,
    /// No encoder was found: the frames and the log are there, the video is
    /// left to be made by hand.
    EncoderUnavailable,
    /// The encoder ran and failed. The frames are kept.
    EncoderFailed,
    /// The frame with this index could not be made: no frame after it was.
    FrameFailed { index: u32 },
    /// The frame log could not be written.
    LogFailed,
}

/// Where a sequence stands.
#[derive(Clone, Copy, Debug, PartialEq, Eq)]
pub enum Phase {
    /// The frames below `next` are rendered, frame `next` is due.
    Rendering { next: u32 },
    /// All frames are rendered, the log is due.
    Logging,
    /// The log is written, the encoder is due.
    Encoding,
    /// The video is made, the frame files are due to be removed.
    Removing,
    /// Nothing is left to do.
    Finished { outcome: Outcome },
}

/// What the caller reports back.
#[derive(Clone, Copy, Debug, PartialEq, Eq)]
pub enum Event {
    /// The frame that was due is rendered and written.
    FrameRendered,
    /// The frame that was due could not be rendered or written.
    FrameFailed,
    /// The frame log is written.
    LogWritten,
    /// The frame log could not be written.
    LogFailed,
    /// The encoder ran and made the video.
    EncoderSucceeded,
    /// The encoder ran and reported failure.
    EncoderFailed,
    /// The encoder could not be started.
    EncoderUnavailable,
    /// The frame files are removed.
    FramesRemoved,
}

/// What the caller is asked to do next.
#[derive(Clone, Copy, Debug, PartialEq, Eq)]
pub enum Action {
    /// Render the frame with this index and write it to its file.
    RenderFrame { index: u32 },
    /// Write the frame log.
    WriteLog,
    /// Run the encoder on the frame files.
    RunEncoder,
    /// Remove the frame files.
    RemoveFrames,
    /// Stop and report the outcome.
    Finish { outcome: Outcome },
}

/// Where a sequence of `total` frames starts.
pub open spec fn first_phase(total: u32) -> Phase {
    if total > 0 {
        Phase::Rendering { next: 0 }
    } else {
        Phase::Logging
    }
}

/// The phase that follows `phase` on `event`. An event that does not
/// answer what the phase asked for changes nothing.
pub open spec fn next_phase(total: u32, phase: Phase, event: Event) -> Phase {
    match (phase, event) {
        (Phase::Rendering { next }, Event::FrameRendered) => if next + 1 < total {
            Phase::Rendering { next: (next + 1) as u32 }
        } else {
            Phase::Logging
        },
        (Phase::Rendering { next }, Event::FrameFailed) => Phase::Finished {
            outcome: Outcome::FrameFailed { index: next },
        },
        (Phase::Logging, Event::LogWritten) => Phase::Encoding,
        (Phase::Logging, Event::LogFailed) => Phase::Finished { outcome: Outcome::LogFailed },
        (Phase::Encoding, Event::EncoderSucceeded) => Phase::Removing,
        (Phase::Encoding, Event::EncoderFailed) => Phase::Finished {
            outcome: Outcome::EncoderFailed,
        },
        (Phase::Encoding, Event::EncoderUnavailable) => Phase::Finished {
            outcome: Outcome::EncoderUnavailable,
        },
        (Phase::Removing, Event::FramesRemoved) => Phase::Finished {
            outcome: Outcome::VideoCreated,
        },
        _ => phase,
    }
}

/// What a phase asks for.
pub open spec fn action_of(phase: Phase) -> Action {
    match phase {
        Phase::Rendering { next } => Action::RenderFrame { index: next },
        Phase::Logging => Action::WriteLog,
        Phase::Encoding => Action::RunEncoder,
        Phase::Removing => Action::RemoveFrames,
        Phase::Finished { outcome } => Action::Finish { outcome },
    }
}

/// Whether an event answers what a phase asked for.
pub open spec fn answers(phase: Phase, event: Event) -> bool {
    match (phase, event) {
        (Phase::Rendering { .. }, Event::FrameRendered) => true,
        (Phase::Rendering { .. }, Event::FrameFailed) => true,
        (Phase::Logging, Event::LogWritten) => true,
        (Phase::Logging, Event::LogFailed) => true,
        (Phase::Encoding, Event::EncoderSucceeded) => true,
        (Phase::Encoding, Event::EncoderFailed) => true,
        (Phase::Encoding, Event::EncoderUnavailable) => true,
        (Phase::Removing, Event::FramesRemoved) => true,
        _ => false,
    }
}

/// The phase reached from the start after the events, in order.
pub open spec fn phase_after(total: u32, events: Seq<Event>) -> Phase
    decreases events.len(),
{
    if events.len() == 0 {
        first_phase(total)
    } else {
        next_phase(total, phase_after(total, events.drop_last()), events.last())
    }
}

/// How many of the events are `wanted`.
pub open spec fn count_of(events: Seq<Event>, wanted: Event) -> nat
    decreases events.len(),
{
    if events.len() == 0 {
        0
    } else {
        count_of(events.drop_last(), wanted) + if events.last() == wanted {
            1nat
        } else {
            0nat
        }
    }
}

/// Whether the process that ran the sequence reports success: it does where
/// the frames were made, with or without an encoder to make the video of
/// them, and not where the encoder failed.
pub open spec fn succeeded(outcome: Outcome) -> bool {
    outcome == Outcome::VideoCreated || outcome == Outcome::EncoderUnavailable
}

/// Whether the run was cut short: a frame or the log that cannot be written
/// ends it at once, whereas a sequence runs to its end with or without a
/// working encoder.
pub open spec fn fatal(outcome: Outcome) -> bool {
    outcome is FrameFailed || outcome is LogFailed
}

/// Whether the frame files are still there at the end: they are removed
/// only once the video is made.
pub open spec fn frames_kept(outcome: Outcome) -> bool {
    outcome != Outcome::VideoCreated
}

/// What holds of a phase after any events: how many frames were reported
/// rendered, and which reports must have come for the phase to be reached.
pub open spec fn consistent(total: u32, events: Seq<Event>, phase: Phase) -> bool {
    let rendered = count_of(events, Event::FrameRendered);
    let logged = count_of(events, Event::LogWritten);
    let encoded = count_of(events, Event::EncoderSucceeded);
    let removed = count_of(events, Event::FramesRemoved);
    match phase {
        Phase::Rendering { next } => next < total && rendered >= next,
        Phase::Logging => rendered >= total,
        Phase::Encoding => rendered >= total && logged >= 1,
        Phase::Removing => rendered >= total && logged >= 1 && encoded >= 1,
        Phase::Finished { outcome } => match outcome {
            Outcome::VideoCreated => rendered >= total && logged >= 1 && encoded >= 1 && removed
                >= 1,
            Outcome::EncoderUnavailable => rendered >= total && logged >= 1,
            Outcome::EncoderFailed => rendered >= total && logged >= 1,
            Outcome::FrameFailed { index } => index < total && rendered >= index,
            Outcome::LogFailed => rendered >= total,
        },
    }
}

/// Whatever is reported and in whatever order, the sequencer asks for the
/// log only after every frame was reported rendered, for the encoder only
/// after the log was reported written, and for the removal of the frames
/// only after the encoder was reported to have made the video; and it ends
/// with the video made only after the frames were reported removed.
pub proof fn lemma_order(total: u32, events: Seq<Event>)
    ensures
        consistent(total, events, phase_after(total, events)),
        action_of(phase_after(total, events)) == Action::WriteLog ==> count_of(
            events,
            Event::FrameRendered,
        ) >= total,
        action_of(phase_after(total, events)) == Action::RunEncoder ==> count_of(
            events,
            Event::FrameRendered,
        ) >= total && count_of(events, Event::LogWritten) >= 1,
        action_of(phase_after(total, events)) == Action::RemoveFrames ==> count_of(
            events,
            Event::EncoderSucceeded,
        ) >= 1,
        phase_after(total, events) == (Phase::Finished { outcome: Outcome::VideoCreated })
            ==> count_of(events, Event::EncoderSucceeded) >= 1 && count_of(
            events,
            Event::FramesRemoved,
        ) >= 1,
    decreases events.len(),
{
    if events.len() > 0 {
        lemma_order(total, events.drop_last());
    }
}

/// A sequence that is finished stays finished, with the same outcome,
/// whatever is reported after.
pub proof fn lemma_finished_stays(total: u32, outcome: Outcome, event: Event)
    ensures
        next_phase(total, Phase::Finished { outcome }, event) == (Phase::Finished { outcome }),
{
}

/// While every frame succeeds, a sequence of `total` frames asks for the
/// frames 0 to `total - 1` in order, and for the log after the last.
pub proof fn lemma_rendering_in_order(total: u32, done: u32)
    requires
        done <= total,
    ensures
        phase_after(total, Seq::new(done as nat, |i: int| Event::FrameRendered)) == if done
            < total {
            Phase::Rendering { next: done }
        } else {
            Phase::Logging
        },
    decreases done,
{
    let events = Seq::new(done as nat, |i: int| Event::FrameRendered);
    if done > 0 {
        lemma_rendering_in_order(total, (done - 1) as u32);
        assert(events.drop_last() =~= Seq::new((done - 1) as nat, |i: int| Event::FrameRendered));
    }
}

/// The reports of a run in which everything succeeds: every frame rendered,
/// the log written, the video made, the frames removed.
pub open spec fn all_succeed(total: u32) -> Seq<Event> {
    Seq::new(total as nat, |i: int| Event::FrameRendered) + seq![
        Event::LogWritten,
        Event::EncoderSucceeded,
        Event::FramesRemoved,
    ]
}

/// A run in which everything succeeds ends with the video made.
pub proof fn lemma_success(total: u32)
    ensures
        phase_after(total, all_succeed(total)) == (Phase::Finished {
            outcome: Outcome::VideoCreated,
        }),
{
    let frames = Seq::new(total as nat, |i: int| Event::FrameRendered);
    let logged = frames.push(Event::LogWritten);
    let encoded = logged.push(Event::EncoderSucceeded);
    let removed = encoded.push(Event::FramesRemoved);
    lemma_rendering_in_order(total, total);
    assert(logged.drop_last() =~= frames);
    assert(phase_after(total, logged) == Phase::Encoding);
    assert(encoded.drop_last() =~= logged);
    assert(phase_after(total, encoded) == Phase::Removing);
    assert(removed.drop_last() =~= encoded);
    assert(all_succeed(total) =~= removed);
}

/// The course of one animation.
#[derive(Clone, Copy, Debug, PartialEq, Eq)]
pub struct Sequencer {
    total_frames: u32,
    phase: Phase,
}

impl Sequencer {
    /// The number of frames of the sequence.
    pub closed spec fn total(&self) -> u32 {
        self.total_frames
    }

    /// Where the sequence stands.
    pub closed spec fn phase(&self) -> Phase {
        self.phase
    }

    /// Starts a sequence of `total_frames` frames.
    pub fn new(total_frames: u32) -> (sequencer: Sequencer)
        ensures
            sequencer.total() == total_frames,
            sequencer.phase() == first_phase(total_frames),
    {
        let phase = if total_frames > 0 {
            Phase::Rendering { next: 0 }
        } else {
            Phase::Logging
        };
        Sequencer { total_frames, phase }
    }

    /// The number of frames of the sequence.
    pub fn total_frames(&self) -> (total: u32)
        ensures
            total == self.total(),
    {
        self.total_frames
    }

    /// Where the sequence stands.
    pub fn current_phase(&self) -> (phase: Phase)
        ensures
            phase == self.phase(),
    {
        self.phase
    }

    /// What is to be done next.
    pub fn action(&self) -> (action: Action)
        ensures
            action == action_of(self.phase()),
    {
        match self.phase {
            Phase::Rendering { next } => Action::RenderFrame { index: next },
            Phase::Logging => Action::WriteLog,
            Phase::Encoding => Action::RunEncoder,
            Phase::Removing => Action::RemoveFrames,
            Phase::Finished { outcome } => Action::Finish { outcome },
        }
    }

    /// Takes the report of what came of the action that was due, and moves
    /// on. A report that does not answer that action changes nothing; the
    /// result says whether it did.
    pub fn record(&mut self, event: Event) -> (accepted: bool)
        ensures
            final(self).total() == old(self).total(),
            final(self).phase() == next_phase(old(self).total(), old(self).phase(), event),
            accepted == answers(old(self).phase(), event),
    {
        let total = self.total_frames;
        match (self.phase, event) {
            (Phase::Rendering { next }, Event::FrameRendered) => {
                if (next as u64) + 1 < total as u64 {
                    self.phase = Phase::Rendering { next: next + 1 };
                } else {
                    self.phase = Phase::Logging;
                }
                true
            },
            (Phase::Rendering { next }, Event::FrameFailed) => {
                self.phase = Phase::Finished { outcome: Outcome::FrameFailed { index: next } };
                true
            },
            (Phase::Logging, Event::LogWritten) => {
                self.phase = Phase::Encoding;
                true
            },
            (Phase::Logging, Event::LogFailed) => {
                self.phase = Phase::Finished { outcome: Outcome::LogFailed };
                true
            },
            (Phase::Encoding, Event::EncoderSucceeded) => {
                self.phase = Phase::Removing;
                true
            },
            (Phase::Encoding, Event::EncoderFailed) => {
                self.phase = Phase::Finished { outcome: Outcome::EncoderFailed };
                true
            },
            (Phase::Encoding, Event::EncoderUnavailable) => {
                self.phase = Phase::Finished { outcome: Outcome::EncoderUnavailable };
                true
            },
            (Phase::Removing, Event::FramesRemoved) => {
                self.phase = Phase::Finished { outcome: Outcome::VideoCreated };
                true
            },
            _ => false,
        }
    }
}

impl Outcome {
    /// Whether the run counts as a success.
    pub fn is_success(&self) -> (success: bool)
        ensures
            success == succeeded(*self),
    {
        match self {
            Outcome::VideoCreated => true,
            Outcome::EncoderUnavailable => true,
            _ => false,
        }
    }

    /// Whether the run was cut short by a failure.
    pub fn is_fatal(&self) -> (cut_short: bool)
        ensures
            cut_short == fatal(*self),
            cut_short ==> !succeeded(*self),
    {
        match self {
            Outcome::FrameFailed { .. } => true,
            Outcome::LogFailed => true,
            _ => false,
        }
    }

    /// Whether the frame files are still there.
    pub fn keeps_frames(&self) -> (kept: bool)
        ensures
            kept == frames_kept(*self),
    {
        match self {
            Outcome::VideoCreated => false,
            _ => true,
        }
    }

    /// The status with which the process ends: 0 for a success, 1 otherwise.
    pub fn exit_status(&self) -> (status: u8)
        ensures
            status == if succeeded(*self) {
                0u8
            } else {
                1u8
            },
    {
        if self.is_success() {
            0
        } else {
            1
        }
    }
}

} // verus!
