use chip8::scheduler::{
    due_time, pace, FrameStep, Pace, Scheduler, CHIP8_CYCLE_NS, CHIP8_TARGET_FREQ_NS,
};

#[test]
fn frame_and_cycle_lengths() {
    assert_eq!(CHIP8_TARGET_FREQ_NS, 16_666_666);
    assert_eq!(CHIP8_CYCLE_NS, 4540);
}

#[test]
fn due_time_counts_cycles_and_what_was_carried() {
    assert_eq!(due_time(0, 0, 0), Some(0));
    assert_eq!(due_time(1_000, 1, 0), Some(5_540));
    // an interrupt with the general timer running, and 7 ns carried over
    assert_eq!(due_time(1_000_000, 1839, 7), Some(1_000_000 + 1839 * 4540 + 7));
    assert_eq!(due_time(u64::MAX - 4540, 1, 0), Some(u64::MAX));
    assert_eq!(due_time(u64::MAX - 4540, 1, 1), None);
    assert_eq!(due_time(u64::MAX - 4539, 1, 0), None);
    assert_eq!(due_time(0, usize::MAX, 0), None);
}

#[test]
fn pace_sleeps_or_warns() {
    assert_eq!(pace(100, 40), Pace::Sleep(60));
    assert_eq!(pace(100, 100), Pace::Sleep(0));
    assert_eq!(pace(100, 130), Pace::Late(30));
}

#[test]
fn frame_goes_on_until_a_step_reaches_its_end() {
    let mut s = Scheduler::new(2);
    assert!(!s.finished());
    assert!(s.begin_frame(1_000));
    assert_eq!(s.frame_end, 1_000 + 16_666_666);
    assert_eq!(s.interrupt_due(1_000, 1831), Some(1_000 + 1831 * 4540));

    // a step that ends inside the frame is paced on its own
    assert_eq!(s.after_cycle(5_000_000, 4_000_000), FrameStep::Continue(Pace::Sleep(1_000_000)));
    assert_eq!(s.after_cycle(5_000_000, 5_000_100), FrameStep::Continue(Pace::Late(100)));
    assert_eq!(s.frame, 0);
    assert_eq!(s.remaining_sleep, 0);

    // a step that runs 300 ns past the end of the frame ends it
    let end = s.frame_end;
    assert_eq!(s.after_cycle(end + 300, end - 50), FrameStep::EndFrame { sleep: Some(50) });
    assert_eq!(s.frame, 1);
    assert_eq!(s.remaining_sleep, 300);
    assert!(!s.finished());

    // the next interrupt sleeps the remainder off
    assert!(s.begin_frame(end));
    assert_eq!(s.interrupt_due(end, 1831), Some(end + 1831 * 4540 + 300));

    // a step that is over only after the frame has ended does not sleep
    let end = s.frame_end;
    assert_eq!(s.after_cycle(end, end + 1), FrameStep::EndFrame { sleep: None });
    assert_eq!(s.remaining_sleep, 0);
    assert_eq!(s.frame, 2);
    assert!(s.finished());
}

#[test]
fn frame_cannot_start_at_the_end_of_time() {
    let mut s = Scheduler::new(1);
    assert!(!s.begin_frame(u64::MAX - 16_666_665));
    assert_eq!(s.frame_end, 0);
    assert!(s.begin_frame(u64::MAX - 16_666_666));
    assert_eq!(s.frame_end, u64::MAX);
}

#[test]
fn run_of_no_frames_is_finished() {
    assert!(Scheduler::new(0).finished());
}
