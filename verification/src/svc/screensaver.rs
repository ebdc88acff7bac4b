use vstd::prelude::*;
use vstd::arithmetic::div_mod::lemma_mod_self_0;
use vstd::arithmetic::div_mod::lemma_small_mod;
use crate::models::DisplayFormat;
use crate::models::Upload;

verus! {

/// The interval between two pictures that a fresh slideshow starts with, in seconds.
pub const DEFAULT_INTERVAL_SECONDS: u64 = 120;

/// A snapshot of the slideshow: whether it runs, which picture of the eligible ones is
/// shown, how many there were when the position was last set, and how long each one stays.
#[derive(Debug, Clone, Copy, PartialEq, Eq, Structural)]
pub struct ScreensaverState {
    pub is_running: bool,
    pub current_index: usize,
    pub upload_count: usize,
    pub interval_seconds: u64,
}

/// Why a command to the slideshow was refused.
#[derive(Debug, Clone, Copy, PartialEq, Eq, Structural)]
pub enum ScreensaverError {
    /// The interval asked for is zero or negative.
    IntervalNotPositive,
}

/// What made the slideshow's wait end.
#[derive(Debug, Clone, Copy, PartialEq, Eq, Structural)]
pub enum Signal {
    /// The interval has passed.
    Expired,
    /// A command or a new picture has asked for a fresh interval.
    Reset,
}

/// What the slideshow's loop does next.
#[derive(Debug, Clone, Copy, PartialEq, Eq, Structural)]
pub struct Step {
    /// Whether to move on to the next picture before waiting again.
    pub advance: bool,
    /// How long to wait then, in seconds.
    pub wait_seconds: u64,
}

/// The position after `current` among `count` pictures, going round.
pub open spec fn next_index(current: int, count: int) -> int {
    (current + 1) % count
}

/// The position before `current` among `count` pictures, going round.
pub open spec fn previous_index(current: int, count: int) -> int {
    if current == 0 {
        count - 1
    } else {
        current - 1
    }
}

impl ScreensaverState {
    /// What every snapshot of a slideshow satisfies: the position lies within the count
    /// wherever there is anything to count, it is zero where there is nothing, and the
    /// interval is at least a second.
    pub open spec fn wf(self) -> bool {
        &&& self.upload_count > 0 ==> self.current_index < self.upload_count
        &&& self.upload_count == 0 ==> self.current_index == 0
        &&& self.interval_seconds >= 1
    }

    /// The state of a slideshow that has just been made: running, at the first picture,
    /// with nothing counted yet and two minutes for each picture.
    pub open spec fn initial() -> Self {
        ScreensaverState {
            is_running: true,
            current_index: 0,
            upload_count: 0,
            interval_seconds: 120,
        }
    }

    /// The state once the stored interval and the number of eligible pictures have been
    /// loaded. An interval that could not be had, or of zero, leaves the last good one; a
    /// count that could not be had counts as zero; a position that the count no longer
    /// covers falls back to the first picture.
    pub open spec fn started(self, interval: Option<u64>, count: Option<usize>) -> Self {
        let upload_count = match count {
            Some(c) => c,
            None => 0usize,
        };
        ScreensaverState {
            is_running: self.is_running,
            current_index: if self.current_index < upload_count {
                self.current_index
            } else {
                0
            },
            upload_count,
            interval_seconds: match interval {
                Some(seconds) => if seconds >= 1 {
                    seconds
                } else {
                    self.interval_seconds
                },
                None => self.interval_seconds,
            },
        }
    }

    /// The state after a step forward among `count` eligible pictures. With none, nothing
    /// changes.
    pub open spec fn advanced(self, count: usize) -> Self {
        if count == 0 {
            self
        } else {
            ScreensaverState {
                is_running: self.is_running,
                current_index: next_index(self.current_index as int, count as int) as usize,
                upload_count: count,
                interval_seconds: self.interval_seconds,
            }
        }
    }

    /// The state after a step back among `count` eligible pictures. With none, nothing
    /// changes; nor where the position before the current one lies beyond the pictures
    /// that are left.
    pub open spec fn rewound(self, count: usize) -> Self {
        if count == 0 || previous_index(self.current_index as int, count as int) >= count {
            self
        } else {
            ScreensaverState {
                is_running: self.is_running,
                current_index: previous_index(self.current_index as int, count as int) as usize,
                upload_count: count,
                interval_seconds: self.interval_seconds,
            }
        }
    }

    /// The position of the picture to show after a step forward, if one is shown.
    pub open spec fn shown_after_advance(self, count: usize) -> Option<usize> {
        if count == 0 {
            None
        } else {
            Some(self.advanced(count).current_index)
        }
    }

    /// The position of the picture to show after a step back, if one is shown.
    pub open spec fn shown_after_rewind(self, count: usize) -> Option<usize> {
        if count == 0 || previous_index(self.current_index as int, count as int) >= count {
            None
        } else {
            Some(self.rewound(count).current_index)
        }
    }

    /// The state after `times` steps forward among `count` eligible pictures.
    pub open spec fn advanced_times(self, count: usize, times: nat) -> Self
        decreases times,
    {
        if times == 0 {
            self
        } else {
            self.advanced_times(count, (times - 1) as nat).advanced(count)
        }
    }

    /// The state with the slideshow halted or set going.
    pub open spec fn with_running(self, is_running: bool) -> Self {
        ScreensaverState {
            is_running,
            current_index: self.current_index,
            upload_count: self.upload_count,
            interval_seconds: self.interval_seconds,
        }
    }

    /// The state with another interval.
    pub open spec fn with_interval(self, seconds: u64) -> Self {
        ScreensaverState {
            is_running: self.is_running,
            current_index: self.current_index,
            upload_count: self.upload_count,
            interval_seconds: seconds,
        }
    }

    /// The state once a new picture for the slideshow's display has arrived: it is the
    /// first of `count` pictures, and it is the one shown.
    pub open spec fn restarted(self, count: usize) -> Self {
        ScreensaverState {
            is_running: self.is_running,
            current_index: 0,
            upload_count: count,
            interval_seconds: self.interval_seconds,
        }
    }
}

/// The slideshow: the one owner and writer of its state. It decides; whoever drives it loads
/// the pictures, pushes them to the display and keeps the time.
pub struct ScreensaverSvc {
    state: ScreensaverState,
}

impl View for ScreensaverSvc {
    type V = ScreensaverState;

    closed spec fn view(&self) -> ScreensaverState {
        self.state
    }
}

impl ScreensaverSvc {
    #[verifier::type_invariant]
    spec fn well_formed(self) -> bool {
        self.state.wf()
    }

    /// The display that the slideshow feeds.
    pub open spec fn target() -> DisplayFormat {
        DisplayFormat::RGB320x240
    }

    /// A slideshow in its initial state.
    pub fn new() -> (svc: Self)
        ensures
            svc@ == ScreensaverState::initial(),
            svc@.wf(),
    {
        ScreensaverSvc {
            state: ScreensaverState {
                is_running: true,
                current_index: 0,
                upload_count: 0,
                interval_seconds: DEFAULT_INTERVAL_SECONDS,
            },
        }
    }

    /// Takes in what was loaded when the service starts: the stored interval and the number
    /// of eligible pictures, each `None` where loading failed.
    pub fn start(&mut self, interval: Option<u64>, upload_count: Option<usize>)
        ensures
            final(self)@ == old(self)@.started(interval, upload_count),
            final(self)@.wf(),
    {
        proof {
            use_type_invariant(&*self);
        }
        let count: usize = match upload_count {
            Some(c) => c,
            None => 0,
        };
        let seconds: u64 = match interval {
            Some(s) => if s >= 1 {
                s
            } else {
                self.state.interval_seconds
            },
            None => self.state.interval_seconds,
        };
        let index: usize = if self.state.current_index < count {
            self.state.current_index
        } else {
            0
        };
        self.state = ScreensaverState {
            is_running: self.state.is_running,
            current_index: index,
            upload_count: count,
            interval_seconds: seconds,
        };
    }

    /// What the loop does when its wait has ended, and how long it waits next. Only an
    /// interval that has passed while the slideshow runs moves it on; a reset only starts a
    /// fresh wait. The interval is read anew each time.
    pub fn run_slideshow(&self, signal: Signal) -> (step: Step)
        ensures
            step.advance == (signal == Signal::Expired && self@.is_running),
            step.wait_seconds == self@.interval_seconds,
            step.wait_seconds >= 1,
    {
        proof {
            use_type_invariant(self);
        }
        let advance: bool = match signal {
            Signal::Expired => self.state.is_running,
            Signal::Reset => false,
        };
        Step { advance, wait_seconds: self.state.interval_seconds }
    }

    /// Steps forward among the `count` pictures that are eligible now. Gives the position
    /// of the picture to show, after which the wait starts afresh; with no picture there
    /// is nothing to show and nothing changes.
    pub fn advance_to_next_image(&mut self, count: usize) -> (shown: Option<usize>)
        ensures
            final(self)@ == old(self)@.advanced(count),
            final(self)@.wf(),
            shown == old(self)@.shown_after_advance(count),
            count > 0 ==> final(self)@.current_index < count,
            final(self)@.is_running == old(self)@.is_running,
            final(self)@.interval_seconds == old(self)@.interval_seconds,
    {
        proof {
            use_type_invariant(&*self);
        }
        if count == 0 {
            return None;
        }
        let next: usize = (self.state.current_index + 1) % count;
        self.state = ScreensaverState {
            is_running: self.state.is_running,
            current_index: next,
            upload_count: count,
            interval_seconds: self.state.interval_seconds,
        };
        Some(next)
    }

    /// Steps back among the `count` pictures that are eligible now: from the first picture
    /// to the last. Gives the position of the picture to show, after which the wait starts
    /// afresh. With no picture, or where the step would lead beyond the pictures that are
    /// left, there is nothing to show and nothing changes.
    pub fn go_to_previous_image(&mut self, count: usize) -> (shown: Option<usize>)
        ensures
            final(self)@ == old(self)@.rewound(count),
            final(self)@.wf(),
            shown == old(self)@.shown_after_rewind(count),
            count > 0 && old(self)@.current_index == 0 ==> shown == Some((count - 1) as usize),
            final(self)@.is_running == old(self)@.is_running,
            final(self)@.interval_seconds == old(self)@.interval_seconds,
    {
        proof {
            use_type_invariant(&*self);
        }
        if count == 0 {
            return None;
        }
        let previous: usize = if self.state.current_index == 0 {
            count - 1
        } else {
            self.state.current_index - 1
        };
        if previous >= count {
            return None;
        }
        self.state = ScreensaverState {
            is_running: self.state.is_running,
            current_index: previous,
            upload_count: count,
            interval_seconds: self.state.interval_seconds,
        };
        Some(previous)
    }

    /// Halts the slideshow. The timer goes on; its ticks are passed over.
    pub fn pause(&mut self)
        ensures
            final(self)@ == old(self)@.with_running(false),
            final(self)@.wf(),
    {
        proof {
            use_type_invariant(&*self);
        }
        self.state = ScreensaverState {
            is_running: false,
            current_index: self.state.current_index,
            upload_count: self.state.upload_count,
            interval_seconds: self.state.interval_seconds,
        };
    }

    /// Sets the slideshow going again.
    pub fn resume(&mut self)
        ensures
            final(self)@ == old(self)@.with_running(true),
            final(self)@.wf(),
    {
        proof {
            use_type_invariant(&*self);
        }
        self.state = ScreensaverState {
            is_running: true,
            current_index: self.state.current_index,
            upload_count: self.state.upload_count,
            interval_seconds: self.state.interval_seconds,
        };
    }

    /// Sets how long each picture stays, in seconds. Zero and negative values are refused
    /// and change nothing. The wait that is under way is not cut short: the next one has
    /// the new length.
    pub fn set_interval(&mut self, seconds: i64) -> (r: Result<(), ScreensaverError>)
        ensures
            seconds <= 0 ==> r == Err::<(), ScreensaverError>(
                ScreensaverError::IntervalNotPositive,
            ) && final(self)@ == old(self)@,
            seconds > 0 ==> r.is_ok() && final(self)@ == old(self)@.with_interval(seconds as u64),
            final(self)@.wf(),
    {
        proof {
            use_type_invariant(&*self);
        }
        if seconds <= 0 {
            return Err(ScreensaverError::IntervalNotPositive);
        }
        self.state = ScreensaverState {
            is_running: self.state.is_running,
            current_index: self.state.current_index,
            upload_count: self.state.upload_count,
            interval_seconds: seconds as u64,
        };
        Ok(())
    }

    /// A snapshot of the state as it was last committed.
    pub fn get_state(&self) -> (state: ScreensaverState)
        ensures
            state == self@,
            state.wf(),
            state.upload_count > 0 ==> state.current_index < state.upload_count,
    {
        proof {
            use_type_invariant(self);
        }
        self.state
    }

    /// Takes in a picture that has just been uploaded, and the number of eligible pictures
    /// that there are with it. A picture for the slideshow's display is to be shown at once
    /// (the answer is true): the slideshow stands at the first picture again and the wait
    /// starts afresh. Any other picture changes nothing. Running or halted, the slideshow
    /// stays as it was.
    pub fn on_new_upload(&mut self, upload: &Upload, upload_count: usize) -> (show: bool)
        ensures
            show == upload.is_for(Self::target()),
            show ==> final(self)@ == old(self)@.restarted(upload_count),
            !show ==> final(self)@ == old(self)@,
            show ==> final(self)@.current_index == 0,
            final(self)@.is_running == old(self)@.is_running,
            final(self)@.wf(),
    {
        proof {
            use_type_invariant(&*self);
        }
        if !upload.targets(DisplayFormat::RGB320x240) {
            return false;
        }
        self.state = ScreensaverState {
            is_running: self.state.is_running,
            current_index: 0,
            upload_count,
            interval_seconds: self.state.interval_seconds,
        };
        true
    }
}

/// Each of the transitions keeps a well-formed state well formed.
pub proof fn lemma_transitions_keep_wf(
    state: ScreensaverState,
    count: usize,
    interval: Option<u64>,
    loaded: Option<usize>,
)
    requires
        state.wf(),
    ensures
        state.advanced(count).wf(),
        state.rewound(count).wf(),
        state.started(interval, loaded).wf(),
        state.restarted(count).wf(),
        state.with_running(true).wf(),
        state.with_running(false).wf(),
        ScreensaverState::initial().wf(),
{
    if count > 0 {
        assert(0 <= next_index(state.current_index as int, count as int) < count) by {
            lemma_next_index(state.current_index as int, count as int);
        }
    }
}

/// Within range, the next position is the one after, and after the last comes the first.
pub proof fn lemma_next_index(current: int, count: int)
    requires
        count > 0,
        0 <= current,
    ensures
        0 <= next_index(current, count) < count,
        current + 1 < count ==> next_index(current, count) == current + 1,
        current + 1 == count ==> next_index(current, count) == 0,
{
    if current + 1 < count {
        lemma_small_mod((current + 1) as nat, count as nat);
    } else if current + 1 == count {
        lemma_mod_self_0(count);
    } else {
        vstd::arithmetic::div_mod::lemma_mod_pos_bound(current + 1, count);
    }
}

/// After `times` steps forward among `count` pictures, from a position within them, the
/// position is `times` further on, counted round.
pub proof fn lemma_advanced_times(state: ScreensaverState, count: usize, times: nat)
    requires
        count > 0,
        state.current_index < count,
        times <= count,
    ensures
        state.advanced_times(count, times).current_index == if state.current_index + times
            < count {
            state.current_index + times
        } else {
            state.current_index + times - count
        },
        state.advanced_times(count, times).is_running == state.is_running,
        state.advanced_times(count, times).interval_seconds == state.interval_seconds,
    decreases times,
{
    if times > 0 {
        lemma_advanced_times(state, count, (times - 1) as nat);
        let before = state.advanced_times(count, (times - 1) as nat);
        lemma_next_index(before.current_index as int, count as int);
    }
}

/// Going forward as many times as there are pictures leads back to where one was.
pub proof fn lemma_advance_cycle(state: ScreensaverState, count: usize)
    requires
        count > 0,
        state.current_index < count,
    ensures
        state.advanced_times(count, count as nat).current_index == state.current_index,
{
    lemma_advanced_times(state, count, count as nat);
}

/// A step forward and then a step back, among the same pictures, leads back to where one
/// was.
pub proof fn lemma_advance_then_rewind(state: ScreensaverState, count: usize)
    requires
        count > 0,
        state.current_index < count,
    ensures
        state.advanced(count).rewound(count).current_index == state.current_index,
{
    lemma_next_index(state.current_index as int, count as int);
}

/// A step back and then a step forward, among the same pictures, leads back to where one
/// was.
pub proof fn lemma_rewind_then_advance(state: ScreensaverState, count: usize)
    requires
        count > 0,
        state.current_index < count,
    ensures
        state.rewound(count).advanced(count).current_index == state.current_index,
{
    lemma_next_index(state.rewound(count).current_index as int, count as int);
}

/// A step back from the first picture leads to the last.
pub proof fn lemma_rewind_from_first(state: ScreensaverState, count: usize)
    requires
        count > 0,
        state.current_index == 0,
    ensures
        state.rewound(count).current_index == count - 1,
{
}

} // verus!
