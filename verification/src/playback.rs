use vstd::prelude::*;

use crate::chain::{spec_step_backward, spec_step_forward, StepAction, TransformChain};

verus! {

/// Which way the animation is running or last ran.
#[derive(Clone, Copy, Debug, PartialEq, Eq, Structural)]
pub enum Direction {
    Forward,
    Reverse,
}

/// The controller's state: either no timer exists and the last direction is
/// remembered for a later resume, or exactly one repeating timer is live and
/// its cancellation handle is owned here. Handle ownership being tied to the
/// `Playing` variant is what rules out both leaked timers and double
/// cancellation structurally.
#[derive(Clone, Copy, Debug, PartialEq, Eq, Structural)]
pub enum PlaybackState {
    Stopped { last_direction: Direction },
    Playing { direction: Direction, handle: u64 },
}

/// The injected timer capability the controller drives playback through.
/// The host's real timer binding implements this outside the library; the
/// in-memory `FakeScheduler` implements it here for tests.
pub trait Scheduler {
    /// The handles of repeating timers scheduled and not yet cancelled.
    /// A verified scheduler overrides this ghost view; one outside the
    /// verifier can leave the default, which promises nothing.
    open spec fn live(&self) -> Set<u64> {
        Set::empty()
    }

    /// How many timers have been cancelled so far; a ghost view like
    /// `live`.
    open spec fn cancels(&self) -> nat {
        0
    }

    /// Starts a repeating timer with the given period and hands back its
    /// cancellation handle.
    fn schedule_repeating(&mut self, interval_ms: u32) -> (h: u64)
        ensures
            final(self).live() == old(self).live().insert(h),
            final(self).cancels() == old(self).cancels(),
    ;

    /// Cancels the timer `h`. Only a live handle may be cancelled, which is
    /// what makes cancelling one handle twice impossible for verified
    /// callers.
    fn cancel(&mut self, h: u64)
        requires
            old(self).live().contains(h),
        ensures
            final(self).live() == old(self).live().remove(h),
            final(self).cancels() == old(self).cancels() + 1,
    ;
}

/// The playback state machine: it owns at most one repeating timer at a
/// time, steps the chain on every tick, and stops itself at the chain's
/// boundaries. Every transition out of a `Playing` state cancels the owned
/// handle exactly once.
#[derive(Clone, Copy, Debug, PartialEq, Eq, Structural)]
pub struct PlaybackController {
    pub state: PlaybackState,
}

/// What starting auto-play in direction `dir` does. Stopped, a fresh timer
/// is scheduled and nothing is cancelled; playing the other way, the old
/// timer is cancelled exactly once and a new one scheduled; already playing
/// the same way, controller and scheduler stay untouched.
pub open spec fn play_transition<S: Scheduler>(
    pre: PlaybackController,
    pre_s: S,
    post: PlaybackController,
    post_s: S,
    dir: Direction,
) -> bool {
    &&& pre.state is Stopped ==> {
        &&& post.state is Playing
        &&& post.state->direction == dir
        &&& post_s.live() == pre_s.live().insert(post.state->handle)
        &&& post_s.cancels() == pre_s.cancels()
    }
    &&& pre.state is Playing && pre.state->direction != dir ==> {
        &&& post.state is Playing
        &&& post.state->direction == dir
        &&& post_s.live() == pre_s.live().remove(pre.state->handle).insert(post.state->handle)
        &&& post_s.cancels() == pre_s.cancels() + 1
    }
    &&& pre.state is Playing && pre.state->direction == dir ==> {
        &&& post == pre
        &&& post_s == pre_s
    }
}

impl PlaybackController {
    /// The handle the controller owns, if any, is live at its scheduler.
    pub open spec fn wf<S: Scheduler>(self, s: S) -> bool {
        self.state is Playing ==> s.live().contains(self.state->handle)
    }

    /// A controller starts stopped, resuming forward by default.
    pub fn new() -> (c: PlaybackController)
        ensures
            c.state == (PlaybackState::Stopped { last_direction: Direction::Forward }),
    {
        PlaybackController { state: PlaybackState::Stopped { last_direction: Direction::Forward } }
    }

    /// Starts auto-play in direction `dir`.
    pub fn play<S: Scheduler>(&mut self, s: &mut S, dir: Direction, interval_ms: u32)
        requires
            old(self).wf(*old(s)),
        ensures
            final(self).wf(*final(s)),
            play_transition(*old(self), *old(s), *final(self), *final(s), dir),
    {
        match self.state {
            PlaybackState::Stopped { .. } => {
                let h = s.schedule_repeating(interval_ms);
                self.state = PlaybackState::Playing { direction: dir, handle: h };
            },
            PlaybackState::Playing { direction, handle } => {
                if direction != dir {
                    s.cancel(handle);
                    let h = s.schedule_repeating(interval_ms);
                    self.state = PlaybackState::Playing { direction: dir, handle: h };
                }
            },
        }
    }

    /// Starts forward auto-play.
    pub fn play_forward<S: Scheduler>(&mut self, s: &mut S, interval_ms: u32)
        requires
            old(self).wf(*old(s)),
        ensures
            final(self).wf(*final(s)),
            play_transition(*old(self), *old(s), *final(self), *final(s), Direction::Forward),
    {
        self.play(s, Direction::Forward, interval_ms)
    }

    /// Starts reverse auto-play.
    pub fn play_reverse<S: Scheduler>(&mut self, s: &mut S, interval_ms: u32)
        requires
            old(self).wf(*old(s)),
        ensures
            final(self).wf(*final(s)),
            play_transition(*old(self), *old(s), *final(self), *final(s), Direction::Reverse),
    {
        self.play(s, Direction::Reverse, interval_ms)
    }

    /// Stops playback. Playing, it cancels the owned timer exactly once and
    /// remembers the direction for a later resume; already stopped, it is a
    /// no-op and in particular touches the scheduler not at all.
    pub fn pause<S: Scheduler>(&mut self, s: &mut S)
        requires
            old(self).wf(*old(s)),
        ensures
            final(self).wf(*final(s)),
            final(self).state is Stopped,
            old(self).state is Playing ==> (final(self).state == (PlaybackState::Stopped {
                last_direction: old(self).state->direction,
            }) && final(s).live() == old(s).live().remove(old(self).state->handle) && final(s).cancels() == old(s).cancels() + 1),
            old(self).state is Stopped ==> (*final(self) == *old(self) && *final(s) == *old(s)),
    {
        match self.state {
            PlaybackState::Stopped { .. } => {},
            PlaybackState::Playing { direction, handle } => {
                s.cancel(handle);
                self.state = PlaybackState::Stopped { last_direction: direction };
            },
        }
    }

    /// One timer tick. Stopped, nothing happens. Playing, the chain takes
    /// one step in the playing direction and the returned action tells the
    /// caller which key to apply or invert; when that tick leaves the chain
    /// at the boundary the playback was running toward, the controller
    /// cancels its own timer and stops, so no further tick is delivered.
    pub fn tick<S: Scheduler>(&mut self, s: &mut S, chain: &mut TransformChain) -> (a: StepAction)
        requires
            old(self).wf(*old(s)),
            old(chain).wf(),
        ensures
            final(self).wf(*final(s)),
            final(chain).wf(),
            old(self).state is Stopped ==> (*final(self) == *old(self) && *final(s) == *old(s)
                && *final(chain) == *old(chain) && a is Stay),
            old(self).state is Playing && old(self).state->direction == Direction::Forward ==> {
                &&& (*final(chain), a) == spec_step_forward(*old(chain))
                &&& final(chain).index == final(chain).series.spec_len() ==> (final(self).state
                    == (PlaybackState::Stopped { last_direction: Direction::Forward }) && final(s).live() == old(s).live().remove(old(self).state->handle) && final(s).cancels()
                    == old(s).cancels() + 1)
                &&& final(chain).index < final(chain).series.spec_len() ==> (*final(self) == *old(self) && *final(s) == *old(s))
            },
            old(self).state is Playing && old(self).state->direction == Direction::Reverse ==> {
                &&& (*final(chain), a) == spec_step_backward(*old(chain))
                &&& final(chain).index == 0 ==> (final(self).state == (PlaybackState::Stopped {
                    last_direction: Direction::Reverse,
                }) && final(s).live() == old(s).live().remove(old(self).state->handle) && final(s).cancels() == old(s).cancels() + 1)
                &&& final(chain).index > 0 ==> (*final(self) == *old(self) && *final(s) == *old(s))
            },
    {
        match self.state {
            PlaybackState::Stopped { .. } => StepAction::Stay,
            PlaybackState::Playing { direction, handle } => {
                match direction {
                    Direction::Forward => {
                        let a = chain.step_forward();
                        if chain.index == chain.series.len() {
                            s.cancel(handle);
                            self.state = PlaybackState::Stopped {
                                last_direction: Direction::Forward,
                            };
                        }
                        a
                    },
                    Direction::Reverse => {
                        let a = chain.step_backward();
                        if chain.index == 0 {
                            s.cancel(handle);
                            self.state = PlaybackState::Stopped {
                                last_direction: Direction::Reverse,
                            };
                        }
                        a
                    },
                }
            },
        }
    }
}

/// An in-memory scheduler for tests: it hands out handles from a counter
/// and records which are live and how many cancellations it has seen. The
/// ghost cancellation count is exact; the executable counter mirrors it for
/// tests to observe and saturates instead of overflowing.
pub struct FakeScheduler {
    /// The next handle to hand out.
    pub next_handle: u64,
    /// The handles scheduled and not yet cancelled.
    pub active: Vec<u64>,
    /// Executable mirror of the cancellation count.
    pub cancel_calls: u64,
    /// The exact cancellation count.
    pub cancel_count: Ghost<nat>,
}

impl FakeScheduler {
    /// A fresh scheduler: no timer live, nothing cancelled yet.
    pub fn new() -> (s: FakeScheduler)
        ensures
            s.live() == Set::<u64>::empty(),
            s.cancels() == 0,
            s.cancel_calls == 0,
            s.active@.len() == 0,
    {
        let s = FakeScheduler {
            next_handle: 0,
            active: Vec::new(),
            cancel_calls: 0,
            cancel_count: Ghost(0),
        };
        proof {
            assert(s.live() =~= Set::<u64>::empty());
        }
        s
    }

    /// How many timers are currently live.
    pub fn live_count(&self) -> (n: usize)
        ensures
            n == self.active@.len(),
    {
        self.active.len()
    }
}

impl Scheduler for FakeScheduler {
    open spec fn live(&self) -> Set<u64> {
        Set::new(|h: u64| self.active@.contains(h))
    }

    open spec fn cancels(&self) -> nat {
        self.cancel_count@
    }

    fn schedule_repeating(&mut self, interval_ms: u32) -> (h: u64) {
        let h = self.next_handle;
        if self.next_handle < u64::MAX {
            self.next_handle = self.next_handle + 1;
        } else {
            self.next_handle = 0;
        }
        self.active.push(h);
        proof {
            let prev = old(self).active@;
            let cur = self.active@;
            assert forall|x: u64| cur.contains(x) implies (prev.contains(x) || x == h) by {
                let j = choose|j: int| 0 <= j < cur.len() && cur[j] == x;
                if j < prev.len() {
                    assert(prev[j] == x);
                }
            }
            assert forall|x: u64| prev.contains(x) implies cur.contains(x) by {
                let j = choose|j: int| 0 <= j < prev.len() && prev[j] == x;
                assert(cur[j] == x);
            }
            assert(cur[prev.len() as int] == h);
            assert(self.live() =~= old(self).live().insert(h));
        }
        h
    }

    fn cancel(&mut self, h: u64) {
        let mut i: usize = 0;
        while i < self.active.len()
            invariant
                i <= self.active@.len(),
                forall|j: int| 0 <= j < i ==> self.active@[j] != h,
                forall|x: u64|
                    x != h ==> (self.active@.contains(x) == old(self).active@.contains(x)),
                self.next_handle == old(self).next_handle,
                self.cancel_calls == old(self).cancel_calls,
                self.cancel_count == old(self).cancel_count,
            decreases self.active@.len() - i,
        {
            if self.active[i] == h {
                let ghost pre = self.active@;
                self.active.remove(i);
                proof {
                    let cur = self.active@;
                    assert forall|x: u64| x != h && cur.contains(x) implies pre.contains(x) by {
                        let j = choose|j: int| 0 <= j < cur.len() && cur[j] == x;
                        if j < i {
                            assert(pre[j] == x);
                        } else {
                            assert(pre[j + 1] == x);
                        }
                    }
                    assert forall|x: u64| x != h && pre.contains(x) implies cur.contains(x) by {
                        let j = choose|j: int| 0 <= j < pre.len() && pre[j] == x;
                        if j < i {
                            assert(cur[j] == x);
                        } else {
                            assert(cur[j - 1] == x);
                        }
                    }
                }
            } else {
                i = i + 1;
            }
        }
        if self.cancel_calls < u64::MAX {
            self.cancel_calls = self.cancel_calls + 1;
        }
        proof {
            self.cancel_count@ = old(self).cancel_count@ + 1;
            assert(!self.active@.contains(h));
            assert(self.live() =~= old(self).live().remove(h));
        }
    }
}

} // verus!
