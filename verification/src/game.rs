//! The game around the renderer: its options, its input events and the
//! pacing of its frames.

use std::collections::VecDeque;
use vstd::prelude::*;

verus! {

/// What a game is started with.
pub struct GameOpts {
    pub title: &'static str,
    pub screen_width: u32,
    pub screen_height: u32,
}

/// The keys that the game knows; every other key is `Other`.
#[derive(Clone, Copy, Debug, PartialEq, Eq, Structural)]
pub enum Key {
    W,
    A,
    S,
    D,
    Q,
    E,
    Escape,
    Other,
}

/// An input event, as far as the game reads it.
#[derive(Clone, Copy, Debug, PartialEq, Eq, Structural)]
pub enum InputEvent {
    /// The window was asked to close.
    Quit,
    /// A key went down.
    KeyDown(Key),
    /// A key came up.
    KeyUp(Key),
    /// Anything else.
    Other,
}

/// Whether an event asks the game to end.
pub open spec fn asks_to_exit(event: InputEvent) -> bool {
    event == InputEvent::Quit || event == InputEvent::KeyDown(Key::Escape)
}

/// Whether the events of one frame ask the game to end. Only the first event
/// of a frame is looked at.
pub fn exit_requested(events: &Vec<InputEvent>) -> (exit: bool)
    ensures
        exit == (events@.len() > 0 && asks_to_exit(events@[0])),
{
    if events.len() == 0 {
        return false;
    }
    match events[0] {
        InputEvent::Quit => true,
        InputEvent::KeyDown(Key::Escape) => true,
        _ => false,
    }
}

/// The time that a frame is meant to take, in microseconds.
pub const TARGET_FRAMETIME_US: u64 = 16_000;

/// The number of frame times that are kept for the average.
pub const FRAME_TIMES_KEPT: usize = 200;

/// The sum of the given times.
pub open spec fn total_time(times: Seq<u64>) -> int
    decreases times.len(),
{
    if times.len() == 0 {
        0
    } else {
        total_time(times.drop_last()) + times.last()
    }
}

/// The kept frame times, latest first, after a frame that took `dt`: `dt`
/// comes first, and the oldest time leaves once more than 200 are kept.
pub open spec fn recorded(times: Seq<u64>, dt: u64) -> Seq<u64> {
    let longer = seq![dt] + times;
    if longer.len() > FRAME_TIMES_KEPT {
        longer.drop_last()
    } else {
        longer
    }
}

/// The time to sleep after a frame that took `dt`: what is left of the
/// target time, and nothing where the frame took that long or longer.
pub open spec fn sleep_after(dt: u64) -> Option<u64> {
    if dt < TARGET_FRAMETIME_US {
        Some((TARGET_FRAMETIME_US - dt) as u64)
    } else {
        None
    }
}

/// The latest frame comes first, and no more than 200 times are kept: a
/// list of at most 200 times is one of at most 200 times after a frame, with
/// the time of that frame at its head.
pub proof fn lemma_recorded_keeps_the_latest(times: Seq<u64>, dt: u64)
    requires
        times.len() <= FRAME_TIMES_KEPT,
    ensures
        0 < recorded(times, dt).len() <= FRAME_TIMES_KEPT,
        recorded(times, dt)[0] == dt,
        forall|i: int|
            1 <= i < recorded(times, dt).len() ==> #[trigger] recorded(times, dt)[i] == times[i - 1],
{
}

/// What the game does with the time of a frame.
#[derive(Clone, Copy, Debug, PartialEq, Eq, Structural)]
pub struct FramePlan {
    /// The sum of the kept frame times, in microseconds.
    pub total_us: u128,
    /// The number of kept frame times.
    pub frames: usize,
    /// The time to sleep before the next frame, in microseconds, if any.
    pub sleep_us: Option<u64>,
}

/// The times of the latest frames, in microseconds, latest first.
pub struct FrameTimes {
    frame_times: VecDeque<u64>,
}

impl View for FrameTimes {
    type V = Seq<u64>;

    closed spec fn view(&self) -> Seq<u64> {
        self.frame_times@
    }
}

impl FrameTimes {
    /// No frame has been timed yet.
    pub fn new() -> (times: FrameTimes)
        ensures
            times@ == Seq::<u64>::empty(),
    {
        FrameTimes { frame_times: VecDeque::new() }
    }

    /// Sums the kept frame times.
    fn total(&self) -> (total: u128)
        ensures
            total == total_time(self@),
    {
        let mut total: u128 = 0;
        let mut i: usize = 0;
        while i < self.frame_times.len()
            invariant
                i <= self.frame_times.len(),
                total == total_time(self.frame_times@.take(i as int)),
                total <= i * u64::MAX,
            decreases self.frame_times@.len() - i,
        {
            proof {
                let next = self.frame_times@.take(i + 1);
                assert(next.drop_last() =~= self.frame_times@.take(i as int));
                assert(next.last() == self.frame_times@[i as int]);
            }
            assert((i + 1) * u64::MAX <= usize::MAX * u64::MAX <= u128::MAX) by (nonlinear_arith)
                requires
                    i + 1 <= usize::MAX <= u64::MAX,
            ;
            assert((i + 1) * u64::MAX == i * u64::MAX + u64::MAX) by (nonlinear_arith);
            total = total + self.frame_times[i] as u128;
            i = i + 1;
        }
        assert(self.frame_times@.take(i as int) =~= self.frame_times@);
        total
    }

    /// Records that a frame took `dt` microseconds, and says what follows
    /// from it: the sum and the number of the kept times, for the average,
    /// and how long to sleep.
    pub fn record(&mut self, dt: u64) -> (plan: FramePlan)
        ensures
            final(self)@ == recorded(old(self)@, dt),
            plan.total_us == total_time(final(self)@),
            plan.frames == final(self)@.len(),
            plan.sleep_us == sleep_after(dt),
    {
        self.frame_times.push_front(dt);
        if self.frame_times.len() > FRAME_TIMES_KEPT {
            let _ = self.frame_times.pop_back();
        }
        let sleep_us: Option<u64> = if dt < TARGET_FRAMETIME_US {
            Some(TARGET_FRAMETIME_US - dt)
        } else {
            None
        };
        FramePlan { total_us: self.total(), frames: self.frame_times.len(), sleep_us }
    }
}

} // verus!
