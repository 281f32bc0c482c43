use kv6view::eventutil::{
    action_after, dispatch, flow, Dispatch, Flow, FrameClock, LoopAction, LoopEvent, StartCause,
};

#[test]
fn a_frame_runs_at_start_and_when_the_time_has_come() {
    assert_eq!(dispatch(LoopEvent::NewEvents(StartCause::Init)), Dispatch::RunFrame);
    assert_eq!(dispatch(LoopEvent::NewEvents(StartCause::ResumeTimeReached)), Dispatch::RunFrame);
}

#[test]
fn other_wake_ups_are_passed_over() {
    assert_eq!(dispatch(LoopEvent::NewEvents(StartCause::WaitCancelled)), Dispatch::Skip);
    assert_eq!(dispatch(LoopEvent::NewEvents(StartCause::Poll)), Dispatch::Skip);
}

#[test]
fn other_events_are_kept() {
    assert_eq!(dispatch(LoopEvent::Other), Dispatch::Keep);
}

#[test]
fn only_a_frame_can_stop_the_loop() {
    assert_eq!(action_after(Dispatch::RunFrame, LoopAction::Stop), LoopAction::Stop);
    assert_eq!(action_after(Dispatch::RunFrame, LoopAction::Continue), LoopAction::Continue);
    assert_eq!(action_after(Dispatch::Keep, LoopAction::Stop), LoopAction::Continue);
    assert_eq!(action_after(Dispatch::Skip, LoopAction::Stop), LoopAction::Continue);
    assert_eq!(action_after(Dispatch::Keep, LoopAction::Continue), LoopAction::Continue);
}

#[test]
fn stop_leaves_and_continue_waits() {
    assert_eq!(flow(LoopAction::Stop), Flow::Exit);
    assert_eq!(flow(LoopAction::Continue), Flow::WaitUntilNextFrame);
}

#[test]
fn a_step_of_no_length_has_no_clock() {
    assert_eq!(FrameClock::new(0), None);
}

#[test]
fn a_new_clock_holds_nothing() {
    let c = FrameClock::new(16_666_667).unwrap();
    assert_eq!(c.step_ns(), 16_666_667);
    assert_eq!(c.lag_ns(), 0);
}

#[test]
fn no_time_no_tick() {
    let mut c = FrameClock::new(10).unwrap();
    assert_eq!(c.advance(0), 0);
    assert_eq!(c.lag_ns(), 0);
}

#[test]
fn time_short_of_a_step_is_kept() {
    let mut c = FrameClock::new(16_666_667).unwrap();
    assert_eq!(c.advance(16_666_666), 0);
    assert_eq!(c.lag_ns(), 16_666_666);
    assert_eq!(c.advance(1), 1);
    assert_eq!(c.lag_ns(), 0);
}

#[test]
fn whole_steps_are_taken_out() {
    let mut c = FrameClock::new(16_666_667).unwrap();
    assert_eq!(c.advance(50_000_000), 2);
    assert_eq!(c.lag_ns(), 16_666_666);
    assert_eq!(c.advance(16_666_669), 2);
    assert_eq!(c.lag_ns(), 1);
    assert_eq!(c.step_ns(), 16_666_667);
}

#[test]
fn an_exact_step_is_one_tick() {
    let mut c = FrameClock::new(10).unwrap();
    assert_eq!(c.advance(10), 1);
    assert_eq!(c.lag_ns(), 0);
    assert_eq!(c.advance(25), 2);
    assert_eq!(c.lag_ns(), 5);
    assert_eq!(c.advance(5), 1);
    assert_eq!(c.lag_ns(), 0);
}

#[test]
fn ticks_add_up_like_one_long_wait() {
    let mut a = FrameClock::new(7).unwrap();
    let mut b = FrameClock::new(7).unwrap();
    let waits = [3u64, 0, 11, 6, 1, 100, 7, 13];
    let mut ticks = 0;
    for w in waits {
        ticks += a.advance(w);
        assert!(a.lag_ns() < 7);
    }
    let total: u64 = waits.iter().sum();
    assert_eq!(ticks, b.advance(total));
    assert_eq!(ticks, total / 7);
    assert_eq!(a.lag_ns(), b.lag_ns());
    assert_eq!(a.lag_ns(), total % 7);
}

#[test]
fn the_longest_wait_does_not_overflow() {
    let mut c = FrameClock::new(1).unwrap();
    assert_eq!(c.advance(u64::MAX), u64::MAX);
    assert_eq!(c.lag_ns(), 0);
    let mut c = FrameClock::new(u64::MAX).unwrap();
    assert_eq!(c.advance(u64::MAX - 1), 0);
    assert_eq!(c.lag_ns(), u64::MAX - 1);
    assert_eq!(c.advance(u64::MAX), 1);
    assert_eq!(c.lag_ns(), u64::MAX - 1);
    assert_eq!(c.advance(1), 1);
    assert_eq!(c.lag_ns(), 0);
}
