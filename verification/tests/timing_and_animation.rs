use surreal::animation::{Animation, AnimationStatus};
use surreal::timing::{frame_wait, Timer};

#[test]
fn a_new_timer_is_paused_and_has_counted_nothing() {
    let timer = Timer::new();
    assert!(timer.paused);
    assert_eq!(timer.elapsed, 0);
}

#[test]
fn a_paused_timer_does_not_count() {
    let mut timer = Timer::new();
    let delta = timer.record(25);
    assert_eq!(delta, 25);
    assert_eq!(timer.elapsed, 0);
    timer.resume();
    assert!(!timer.paused);
    let delta = timer.record(40);
    assert_eq!(delta, 15);
    assert_eq!(timer.elapsed, 15);
    timer.pause();
    assert!(timer.paused);
    let delta = timer.record(100);
    assert_eq!(delta, 60);
    assert_eq!(timer.elapsed, 15);
    timer.reset_elapsed();
    assert_eq!(timer.elapsed, 0);
}

#[test]
fn start_lets_the_timer_run() {
    let mut timer = Timer::new();
    timer.start();
    assert!(!timer.paused);
    assert_eq!(timer.elapsed, 0);
    let first = timer.tick();
    let second = timer.tick();
    assert_eq!(timer.elapsed, first + second);
}

#[test]
fn frame_wait_is_one_less_than_what_is_left_of_the_frame() {
    assert_eq!(frame_wait(60, 5, 5), Some(10));
    assert_eq!(frame_wait(60, 11, 5), None);
    assert_eq!(frame_wait(60, 10, 5), Some(5));
    assert_eq!(frame_wait(60, 16, 0), None);
    assert_eq!(frame_wait(60, 15, 0), Some(0));
    assert_eq!(frame_wait(1000, 0, 0), Some(0));
    assert_eq!(frame_wait(2000, 0, 0), None);
}

#[test]
fn timer_frame_wait_never_exceeds_the_frame() {
    let mut timer = Timer::new();
    timer.start();
    match timer.frame_wait(10, 0) {
        Some(wait) => assert!(wait < 100),
        None => {},
    }
}

#[test]
fn an_animation_runs_for_its_duration() {
    let mut animation = Animation::new(|target: u32, elapsed: u32| target + elapsed, 100);
    let (target, status) = animation.animate(1, 40);
    assert_eq!(target, 41);
    assert_eq!(status, AnimationStatus::InProgress);
    let (target, status) = animation.animate(target, 60);
    assert_eq!(target, 141);
    assert_eq!(status, AnimationStatus::InProgress);
    let (target, status) = animation.animate(target, 1);
    assert_eq!(target, 141);
    assert_eq!(status, AnimationStatus::Complete);
    assert_eq!(animation.elapsed, 101);
}
