use hegp_anim::chain::{StepAction, TransformChain};
use hegp_anim::keys::{KeyPlan, KeySeries};
use hegp_anim::playback::{Direction, FakeScheduler, PlaybackController, PlaybackState};

fn three_key_chain() -> TransformChain {
    let series = KeySeries {
        dim: 2,
        plans: vec![
            KeyPlan { a: 0, b: 1 },
            KeyPlan { a: 1, b: 0 },
            KeyPlan { a: 0, b: 1 },
        ],
    };
    TransformChain::new(2, 2, series).unwrap()
}

#[test]
fn play_forward_ticks_then_auto_stops() {
    // a chain with three keys ticks exactly three times, then the
    // controller cancels its own timer and stops; no further tick steps
    let mut chain = three_key_chain();
    let mut sched = FakeScheduler::new();
    let mut ctl = PlaybackController::new();

    ctl.play_forward(&mut sched, 40);
    assert_eq!(sched.live_count(), 1);
    assert_eq!(sched.cancel_calls, 0);

    for step in 0..3u64 {
        assert!(matches!(ctl.state, PlaybackState::Playing { .. }));
        let action = ctl.tick(&mut sched, &mut chain);
        assert!(matches!(action, StepAction::Apply { key } if key as u64 == step));
    }
    assert_eq!(chain.index, 3);
    assert_eq!(
        ctl.state,
        PlaybackState::Stopped {
            last_direction: Direction::Forward
        }
    );
    assert_eq!(sched.cancel_calls, 1);
    assert_eq!(sched.live_count(), 0);

    // the timer is gone: a stray tick changes nothing
    let action = ctl.tick(&mut sched, &mut chain);
    assert!(matches!(action, StepAction::Stay));
    assert_eq!(chain.index, 3);
    assert_eq!(sched.cancel_calls, 1);
}

#[test]
fn play_reverse_ticks_then_auto_stops() {
    let mut chain = three_key_chain();
    chain.goto_end();
    let mut sched = FakeScheduler::new();
    let mut ctl = PlaybackController::new();

    ctl.play_reverse(&mut sched, 40);
    for step in (0..3u64).rev() {
        let action = ctl.tick(&mut sched, &mut chain);
        assert!(matches!(action, StepAction::ApplyInverse { key } if key as u64 == step));
    }
    assert_eq!(chain.index, 0);
    assert_eq!(
        ctl.state,
        PlaybackState::Stopped {
            last_direction: Direction::Reverse
        }
    );
    assert_eq!(sched.cancel_calls, 1);
    assert_eq!(sched.live_count(), 0);
}

#[test]
fn pause_twice_cancels_once() {
    // the second pause is a no-op: exactly one cancel reaches the scheduler
    let mut sched = FakeScheduler::new();
    let mut ctl = PlaybackController::new();

    ctl.play_forward(&mut sched, 25);
    assert_eq!(sched.live_count(), 1);

    ctl.pause(&mut sched);
    assert_eq!(sched.cancel_calls, 1);
    assert_eq!(sched.live_count(), 0);
    assert_eq!(
        ctl.state,
        PlaybackState::Stopped {
            last_direction: Direction::Forward
        }
    );

    ctl.pause(&mut sched);
    assert_eq!(sched.cancel_calls, 1);
    assert_eq!(sched.live_count(), 0);
}

#[test]
fn pause_before_any_play_is_noop() {
    let mut sched = FakeScheduler::new();
    let mut ctl = PlaybackController::new();
    ctl.pause(&mut sched);
    assert_eq!(sched.cancel_calls, 0);
    assert_eq!(sched.live_count(), 0);
}

#[test]
fn direction_switch_cancels_old_timer_first() {
    let mut sched = FakeScheduler::new();
    let mut ctl = PlaybackController::new();

    ctl.play_forward(&mut sched, 30);
    ctl.play_reverse(&mut sched, 30);
    assert_eq!(sched.cancel_calls, 1);
    assert_eq!(sched.live_count(), 1);
    assert!(matches!(
        ctl.state,
        PlaybackState::Playing {
            direction: Direction::Reverse,
            ..
        }
    ));

    // same direction again: nothing scheduled, nothing cancelled
    ctl.play_reverse(&mut sched, 30);
    assert_eq!(sched.cancel_calls, 1);
    assert_eq!(sched.live_count(), 1);

    // pause remembers the direction for a later resume
    ctl.pause(&mut sched);
    assert_eq!(
        ctl.state,
        PlaybackState::Stopped {
            last_direction: Direction::Reverse
        }
    );
    assert_eq!(sched.cancel_calls, 2);
    assert_eq!(sched.live_count(), 0);
}
