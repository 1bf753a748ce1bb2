use vstd::prelude::*;

verus! {

/// Whether the frame rate is printed at all.
pub const PRINT_FPS: bool = true;

/// How long to wait between two prints of the frame rate.
pub const MILLIS_BETWEEN_FPS_PRINTS: u64 = 1500;

/// How long drawing pauses after the window was moved. Moving or resizing a
/// window makes the renderer rebuild some of its objects, which takes time;
/// drawing waits until the user is likely to be done.
pub const MILLIS_BETWEEN_MOVING: u64 = 200;

/// How long drawing pauses after the window was resized.
pub const MILLIS_BETWEEN_RESIZING: u64 = 50;

/// Nanoseconds in a millisecond.
pub const NANOS_PER_MILLI: u64 = 1_000_000;

/// What happens in a tick of the event loop.
#[derive(Clone, Copy, Debug, PartialEq, Eq, Structural)]
pub struct Tick {
    /// A frame is drawn.
    pub draw: bool,
    /// The frame rate is printed.
    pub print_fps: bool,
}

/// Decides in which ticks of the event loop a frame is drawn and the frame
/// rate printed. All times are in nanoseconds.
#[derive(Clone, Copy, Debug, PartialEq, Eq, Structural)]
pub struct FramePacer {
    pub draw_next_frame: bool,
    pub time_to_resume_drawing: u128,
    pub time_until_next_fps_print: u128,
}

impl FramePacer {
    /// This pacer after the window was resized: drawing pauses for
    /// [`MILLIS_BETWEEN_RESIZING`].
    pub open spec fn spec_resized(self) -> Self {
        FramePacer {
            draw_next_frame: false,
            time_to_resume_drawing: (MILLIS_BETWEEN_RESIZING * NANOS_PER_MILLI) as u128,
            ..self
        }
    }

    /// This pacer after the window was moved: drawing pauses for
    /// [`MILLIS_BETWEEN_MOVING`].
    pub open spec fn spec_moved(self) -> Self {
        FramePacer {
            draw_next_frame: false,
            time_to_resume_drawing: (MILLIS_BETWEEN_MOVING * NANOS_PER_MILLI) as u128,
            ..self
        }
    }

    /// This pacer after a tick that came `delta_time` after the one before.
    ///
    /// While drawing is paused the pause runs down; the tick in which it
    /// runs out draws nothing yet, and the next one does. The time to the
    /// next print runs down in every tick, and when it runs out it starts
    /// over.
    pub open spec fn spec_tick(self, delta_time: u128) -> Self {
        FramePacer {
            draw_next_frame: self.draw_next_frame || self.time_to_resume_drawing <= delta_time,
            time_to_resume_drawing: if !self.draw_next_frame && self.time_to_resume_drawing
                > delta_time {
                (self.time_to_resume_drawing - delta_time) as u128
            } else {
                self.time_to_resume_drawing
            },
            time_until_next_fps_print: if !PRINT_FPS {
                self.time_until_next_fps_print
            } else if self.time_until_next_fps_print > delta_time {
                (self.time_until_next_fps_print - delta_time) as u128
            } else {
                (MILLIS_BETWEEN_FPS_PRINTS * NANOS_PER_MILLI) as u128
            },
        }
    }

    /// What happens in a tick that comes `delta_time` after the one before.
    pub open spec fn spec_tick_outcome(self, delta_time: u128) -> Tick {
        Tick {
            draw: self.draw_next_frame,
            print_fps: PRINT_FPS && self.time_until_next_fps_print <= delta_time,
        }
    }

    /// A pacer that draws at once and prints the frame rate after
    /// [`MILLIS_BETWEEN_FPS_PRINTS`].
    pub fn new() -> (pacer: Self)
        ensures
            pacer == (FramePacer {
                draw_next_frame: true,
                time_to_resume_drawing: 0,
                time_until_next_fps_print: (MILLIS_BETWEEN_FPS_PRINTS * NANOS_PER_MILLI) as u128,
            }),
    {
        FramePacer {
            draw_next_frame: true,
            time_to_resume_drawing: 0,
            time_until_next_fps_print: (MILLIS_BETWEEN_FPS_PRINTS * NANOS_PER_MILLI) as u128,
        }
    }

    /// The window was resized.
    pub fn resized(&mut self)
        ensures
            *final(self) == old(self).spec_resized(),
    {
        self.draw_next_frame = false;
        self.time_to_resume_drawing = (MILLIS_BETWEEN_RESIZING * NANOS_PER_MILLI) as u128;
    }

    /// The window was moved.
    pub fn moved(&mut self)
        ensures
            *final(self) == old(self).spec_moved(),
    {
        self.time_to_resume_drawing = (MILLIS_BETWEEN_MOVING * NANOS_PER_MILLI) as u128;
        self.draw_next_frame = false;
    }

    /// All events of a tick have been handled, `delta_time` after those of
    /// the tick before. Says whether a frame is drawn now and whether the
    /// frame rate is printed.
    pub fn tick(&mut self, delta_time: u128) -> (outcome: Tick)
        ensures
            *final(self) == old(self).spec_tick(delta_time),
            outcome == old(self).spec_tick_outcome(delta_time),
    {
        let draw = self.draw_next_frame;
        if !self.draw_next_frame {
            if self.time_to_resume_drawing > delta_time {
                self.time_to_resume_drawing = self.time_to_resume_drawing - delta_time;
            } else {
                self.draw_next_frame = true;
            }
        }
        let mut print_fps = false;
        if PRINT_FPS {
            if self.time_until_next_fps_print > delta_time {
                self.time_until_next_fps_print = self.time_until_next_fps_print - delta_time;
            } else {
                self.time_until_next_fps_print = (MILLIS_BETWEEN_FPS_PRINTS * NANOS_PER_MILLI) as u128;
                print_fps = true;
            }
        }
        Tick { draw, print_fps }
    }
}

/// After a resize, drawing is back once ticks worth the pause have gone by,
/// and not before: a tick shorter than what is left of the pause leaves
/// drawing paused, any other ends the pause, and the tick after that draws.
pub proof fn lemma_pause_runs_out(pacer: FramePacer, delta_time: u128)
    ensures
        !pacer.spec_resized().spec_tick_outcome(delta_time).draw,
        pacer.spec_resized().spec_tick(delta_time).draw_next_frame <==> delta_time
            >= MILLIS_BETWEEN_RESIZING * NANOS_PER_MILLI,
        !pacer.spec_moved().spec_tick_outcome(delta_time).draw,
        pacer.spec_moved().spec_tick(delta_time).draw_next_frame <==> delta_time
            >= MILLIS_BETWEEN_MOVING * NANOS_PER_MILLI,
        pacer.draw_next_frame ==> pacer.spec_tick(delta_time).draw_next_frame
            && pacer.spec_tick_outcome(delta_time).draw,
{
}

} // verus!
