use vstd::prelude::*;
use crate::timecode::delay_of;
use crate::timecode::duration_sub;

verus! {

/// Bound on capture retries: a round makes at most `MAX_TRIES + 1` attempts.
pub const MAX_TRIES: u32 = 3;

/// Settle delay before the first capture attempt, in nanoseconds: both
/// peers' readouts must be on screen by then.
pub const SCREENSHOT_DELAY_NS: u32 = 2000000000;

/// Whether the annotated diagnostic screenshot is written at all.
pub const CREATE_DEBUG_IMAGE: bool = true;

/// The rectangle, relative to a located reference glyph's top-left corner,
/// where the time readout is expected to be drawn.
pub struct CaptureBox {
    pub width: i32,
    pub height: i32,
    pub x_offset: i32,
    pub y_offset: i32,
}

impl CaptureBox {
    pub fn new(width: i32, height: i32, x_offset: i32, y_offset: i32) -> (r: CaptureBox)
        ensures
            r.width == width,
            r.height == height,
            r.x_offset == x_offset,
            r.y_offset == y_offset,
    {
        CaptureBox { width, height, x_offset, y_offset }
    }
}

/// The terminal event of a capture round: the measured delay, or nothing
/// when every attempt within the bound failed.
#[derive(Clone, Copy, PartialEq, Eq, Structural, Debug)]
pub enum RoundEvent {
    DelayMeasured(Option<u64>),
}

/// One capture round's retry state: how many attempts have run and whether
/// a terminal event has been emitted.
#[derive(Clone, Copy, Debug)]
pub struct Round {
    pub max_tries: u32,
    pub tries_done: u32,
    pub finished: bool,
}

impl Round {
    /// A round that has not finished has attempts left within its bound.
    pub open spec fn inv(self) -> bool {
        !self.finished ==> self.tries_done <= self.max_tries && self.max_tries < u32::MAX
    }
}

/// Transition of the retry loop on one attempt's outcome. A successful
/// attempt ends the round with its delay; a failed attempt is retried
/// until `max_tries + 1` attempts have run, and then ends the round with an
/// explicit "no measurement". A finished round reacts to nothing.
pub open spec fn round_step(r: Round, attempt: Option<u64>) -> (Round, Option<RoundEvent>) {
    if r.finished {
        (r, None)
    } else {
        let stepped = Round { tries_done: (r.tries_done + 1) as u32, ..r };
        match attempt {
            Some(d) => (
                Round { finished: true, ..stepped },
                Some(RoundEvent::DelayMeasured(Some(d))),
            ),
            None => {
                if r.tries_done >= r.max_tries {
                    (Round { finished: true, ..stepped }, Some(RoundEvent::DelayMeasured(None)))
                } else {
                    (stepped, None)
                }
            },
        }
    }
}

impl Round {
    /// A fresh round with `max_tries + 1` attempts allowed.
    pub fn new_round(max_tries: u32) -> (r: Round)
        requires
            max_tries < u32::MAX,
        ensures
            r == (Round { max_tries, tries_done: 0, finished: false }),
            r.inv(),
    {
        Round { max_tries, tries_done: 0, finished: false }
    }

    /// Feeds one attempt's outcome to the round and returns the event to
    /// emit, if any: the terminal event exactly when the round ends here.
    pub fn on_attempt(&mut self, attempt: Option<u64>) -> (ev: Option<RoundEvent>)
        requires
            old(self).inv(),
        ensures
            final(self).inv(),
            *final(self) == round_step(*old(self), attempt).0,
            ev == round_step(*old(self), attempt).1,
    {
        if self.finished {
            return None;
        }
        self.tries_done = self.tries_done + 1;
        match attempt {
            Some(d) => {
                self.finished = true;
                Some(RoundEvent::DelayMeasured(Some(d)))
            },
            None => {
                if self.tries_done > self.max_tries {
                    self.finished = true;
                    Some(RoundEvent::DelayMeasured(None))
                } else {
                    None
                }
            },
        }
    }

    /// Whether the attempt about to run is the last one of the bound; the
    /// diagnostic image is written on that attempt alone, and only when
    /// writing is enabled at all.
    pub fn should_write_debug(&self, enabled: bool) -> (b: bool)
        ensures
            b == (enabled && self.tries_done == self.max_tries && !self.finished),
    {
        enabled && self.tries_done == self.max_tries && !self.finished
    }
}

/// What one capture attempt yields from its two extracted readouts: the
/// measured delay when both readouts were located, extracted, and nonzero
/// (a zero readout means the timer was not rendered yet); otherwise nothing,
/// and the attempt counts as failed.
pub open spec fn attempt_outcome(duration_self: Option<u64>, duration_peer: Option<u64>) -> Option<
    u64,
> {
    match (duration_self, duration_peer) {
        (Some(a), Some(b)) => {
            if a != 0 && b != 0 {
                Some(delay_of(a, b))
            } else {
                None
            }
        },
        _ => None,
    }
}

/// Combines the two readouts of one capture attempt into its outcome.
pub fn evaluate_attempt(duration_self: Option<u64>, duration_peer: Option<u64>) -> (r: Option<u64>)
    ensures
        r == attempt_outcome(duration_self, duration_peer),
{
    match (duration_self, duration_peer) {
        (Some(a), Some(b)) => {
            if a != 0 && b != 0 {
                Some(duration_sub(a, b))
            } else {
                None
            }
        },
        _ => None,
    }
}

/// Top-left corner of the readout crop region for a glyph located at
/// `(found_x, found_y)`: the capture box offsets applied, rejected when the
/// result leaves the coordinate range.
pub fn crop_origin(found_x: u32, found_y: u32, cb: &CaptureBox) -> (r: Option<(u32, u32)>)
    ensures
        match r {
            Some(t) => t.0 == found_x + cb.x_offset && t.1 == found_y + cb.y_offset,
            None => found_x + cb.x_offset < 0 || found_x + cb.x_offset > u32::MAX || found_y
                + cb.y_offset < 0 || found_y + cb.y_offset > u32::MAX,
        },
{
    let cx: i64 = found_x as i64 + cb.x_offset as i64;
    let cy: i64 = found_y as i64 + cb.y_offset as i64;
    if cx < 0 || cx > u32::MAX as i64 || cy < 0 || cy > u32::MAX as i64 {
        None
    } else {
        Some((cx as u32, cy as u32))
    }
}

/// Retry bound: a round with the default bound of three retries that never
/// yields a reading runs exactly four attempts, emits no event on the first
/// three, and ends with exactly one terminal "no measurement" event on the
/// fourth.
pub proof fn lemma_retry_bound()
    ensures
        ({
            let r0 = Round { max_tries: MAX_TRIES as u32, tries_done: 0, finished: false };
            let (r1, e1) = round_step(r0, None);
            let (r2, e2) = round_step(r1, None);
            let (r3, e3) = round_step(r2, None);
            let (r4, e4) = round_step(r3, None);
            e1 == None::<RoundEvent> && e2 == None::<RoundEvent> && e3 == None::<RoundEvent> && e4
                == Some(RoundEvent::DelayMeasured(None)) && !r3.finished && r4.finished
                && r4.tries_done == 4
        }),
{
}

} // verus!
