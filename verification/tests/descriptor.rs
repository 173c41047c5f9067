use bevy_easings::{
    CustomComponentEase, EaseValue, EasingComponent, EasingDirection, EasingProgress, EasingState,
    EasingType,
};
use std::time::Duration;

fn ms(n: u64) -> Duration {
    Duration::from_millis(n)
}

fn elapsed_of(progress: &Option<EasingProgress>) -> Option<Duration> {
    progress.as_ref().map(|p| p.timer.elapsed())
}

fn once(duration: Duration) -> EasingComponent<u32, ()> {
    EasingComponent::new(Some(0), 100, (), EasingType::Once { duration })
}

#[test]
fn new_easing_plays_forward_and_keeps_its_ends() {
    let easing = EasingComponent::new(Some(3u32), 9u32, 'm', EasingType::Once { duration: ms(10) });
    assert_eq!(easing.state(), EasingState::Play);
    assert_eq!(easing.direction(), EasingDirection::Forward);
    assert_eq!(easing.start(), Some(&3));
    assert_eq!(*easing.end(), 9);
    assert_eq!(*easing.ease_function(), 'm');
    assert!(matches!(easing.easing_type(), EasingType::Once { duration } if duration == ms(10)));
}

#[test]
fn new_easing_without_start_has_none() {
    let easing = EasingComponent::<u32, ()>::new(None, 9, (), EasingType::Once { duration: ms(10) });
    assert_eq!(easing.start(), None);
}

#[test]
fn once_detaches_on_the_frame_that_completes_it() {
    let mut easing = once(Duration::from_secs(1));
    for frame in 1..=3u32 {
        let step = easing.tick(ms(250));
        assert!(!step.detach);
        assert_eq!(elapsed_of(&step.progress), Some(ms(250) * frame));
    }
    let step = easing.tick(ms(250));
    assert!(step.detach);
    let progress = step.progress.unwrap();
    assert_eq!(progress.timer.elapsed(), Duration::from_secs(1));
    assert_eq!(progress.timer.duration(), Duration::from_secs(1));
    assert_eq!(progress.timer.fraction(), 1.0);
    assert_eq!(progress.direction, EasingDirection::Forward);
}

#[test]
fn once_with_uneven_frames_detaches_when_the_sum_reaches_the_duration() {
    let mut easing = once(ms(1000));
    let frames = [1u64, 499, 300, 199, 1];
    let mut sum = 0;
    for (i, frame) in frames.iter().enumerate() {
        let step = easing.tick(ms(*frame));
        sum += frame;
        assert_eq!(step.detach, i == frames.len() - 1);
        assert_eq!(step.detach, sum >= 1000);
        assert_eq!(elapsed_of(&step.progress), Some(ms(sum)));
    }
}

#[test]
fn once_overshooting_frame_stops_at_the_duration() {
    let mut easing = once(ms(1000));
    assert!(!easing.tick(ms(700)).detach);
    let step = easing.tick(ms(700));
    assert!(step.detach);
    assert_eq!(elapsed_of(&step.progress), Some(ms(1000)));
}

#[test]
fn once_left_attached_asks_for_detachment_again() {
    let mut easing = once(ms(10));
    assert!(easing.tick(ms(10)).detach);
    let step = easing.tick(ms(10));
    assert!(step.detach);
    assert_eq!(elapsed_of(&step.progress), Some(ms(10)));
}

#[test]
fn frame_without_time_does_not_finish_a_run() {
    let mut easing = once(ms(10));
    let step = easing.tick(Duration::ZERO);
    assert!(!step.detach);
    assert_eq!(elapsed_of(&step.progress), Some(Duration::ZERO));
    assert_eq!(step.progress.unwrap().timer.fraction(), 0.0);
}

#[test]
fn zero_duration_never_writes_but_completes() {
    let mut easing = once(Duration::ZERO);
    let step = easing.tick(ms(16));
    assert!(step.progress.is_none());
    assert!(step.detach);

    let mut looping: EasingComponent<u32, ()> =
        EasingComponent::new(Some(0), 1, (), EasingType::Loop { duration: Duration::ZERO, pause: None });
    for _ in 0..3 {
        let step = looping.tick(ms(16));
        assert!(step.progress.is_none());
        assert!(!step.detach);
    }
}

#[test]
fn one_nanosecond_is_a_duration() {
    let mut easing = once(Duration::from_nanos(1));
    let step = easing.tick(Duration::from_nanos(1));
    assert!(step.progress.is_some());
    assert!(step.detach);
}

#[test]
fn suspended_easing_does_nothing() {
    let mut easing = once(ms(100));
    easing.tick(ms(30));
    easing.set_state(EasingState::Paused);
    assert_eq!(easing.state(), EasingState::Paused);
    for _ in 0..5 {
        let step = easing.tick(ms(1000));
        assert!(step.progress.is_none());
        assert!(!step.detach);
    }
    easing.set_state(EasingState::Play);
    let step = easing.tick(ms(30));
    assert!(!step.detach);
    assert_eq!(elapsed_of(&step.progress), Some(ms(60)));
}

#[test]
fn even_number_of_toggles_leaves_the_easing_as_it_was() {
    let mut toggled = once(ms(100));
    let mut plain = once(ms(100));
    toggled.tick(ms(37));
    plain.tick(ms(37));
    for _ in 0..4 {
        let state = toggled.state();
        toggled.set_state(!state);
    }
    assert_eq!(toggled.state(), plain.state());
    assert_eq!(toggled.direction(), plain.direction());
    let a = toggled.tick(ms(1));
    let b = plain.tick(ms(1));
    assert_eq!(a.detach, b.detach);
    assert_eq!(a.progress.unwrap().timer, b.progress.unwrap().timer);
}

#[test]
fn odd_number_of_toggles_suspends() {
    let mut easing = once(ms(100));
    for _ in 0..3 {
        let state = easing.state();
        easing.set_state(!state);
    }
    assert_eq!(easing.state(), EasingState::Paused);
}

#[test]
fn loop_without_pause_restarts_at_once() {
    let mut easing: EasingComponent<u32, ()> =
        EasingComponent::new(Some(0), 1, (), EasingType::Loop { duration: ms(100), pause: None });
    let step = easing.tick(ms(100));
    assert!(!step.detach);
    assert_eq!(elapsed_of(&step.progress), Some(ms(100)));
    let step = easing.tick(ms(40));
    assert_eq!(elapsed_of(&step.progress), Some(ms(40)));
    assert_eq!(step.progress.unwrap().direction, EasingDirection::Forward);
    assert_eq!(easing.direction(), EasingDirection::Forward);
}

#[test]
fn loop_with_pause_waits_without_writing() {
    let mut easing: EasingComponent<u32, ()> = EasingComponent::new(
        Some(0),
        1,
        (),
        EasingType::Loop { duration: ms(100), pause: Some(ms(50)) },
    );
    assert!(easing.tick(ms(100)).progress.is_some());
    assert!(easing.tick(ms(20)).progress.is_none());
    assert!(easing.tick(ms(20)).progress.is_none());
    // this frame ends the pause and writes nothing
    assert!(easing.tick(ms(20)).progress.is_none());
    let step = easing.tick(ms(30));
    let progress = step.progress.unwrap();
    assert_eq!(progress.timer.elapsed(), ms(30));
    assert_eq!(progress.timer.duration(), ms(100));
    assert_eq!(easing.direction(), EasingDirection::Forward);
}

#[test]
fn zero_pause_costs_one_frame() {
    let mut easing: EasingComponent<u32, ()> = EasingComponent::new(
        Some(0),
        1,
        (),
        EasingType::Loop { duration: ms(100), pause: Some(Duration::ZERO) },
    );
    assert!(easing.tick(ms(100)).progress.is_some());
    assert!(easing.tick(ms(10)).progress.is_none());
    assert_eq!(elapsed_of(&easing.tick(ms(10)).progress), Some(ms(10)));
}

#[test]
fn ping_pong_reverses_after_each_cycle() {
    let mut easing: EasingComponent<u32, ()> = EasingComponent::new(
        Some(0),
        1,
        (),
        EasingType::PingPong { duration: ms(500), pause: Some(ms(100)) },
    );
    assert_eq!(easing.direction(), EasingDirection::Forward);
    for _ in 0..5 {
        easing.tick(ms(100));
    }
    easing.tick(ms(100));
    assert_eq!(easing.direction(), EasingDirection::Backward);
    for _ in 0..5 {
        let step = easing.tick(ms(100));
        assert_eq!(step.progress.unwrap().direction, EasingDirection::Backward);
    }
    easing.tick(ms(100));
    assert_eq!(easing.direction(), EasingDirection::Forward);
}

#[test]
fn ping_pong_without_pause_turns_on_the_completing_frame() {
    let mut easing: EasingComponent<u32, ()> =
        EasingComponent::new(Some(0), 1, (), EasingType::PingPong { duration: ms(10), pause: None });
    let step = easing.tick(ms(10));
    assert_eq!(step.progress.unwrap().direction, EasingDirection::Forward);
    assert_eq!(easing.direction(), EasingDirection::Backward);
    let step = easing.tick(ms(4));
    let progress = step.progress.unwrap();
    assert_eq!(progress.direction, EasingDirection::Backward);
    assert_eq!(progress.timer.elapsed(), ms(4));
    easing.tick(ms(6));
    assert_eq!(easing.direction(), EasingDirection::Forward);
}

#[test]
fn suspending_during_a_pause_delays_its_end() {
    let mut easing: EasingComponent<u32, ()> = EasingComponent::new(
        Some(0),
        1,
        (),
        EasingType::Loop { duration: ms(100), pause: Some(ms(50)) },
    );
    easing.tick(ms(100));
    easing.tick(ms(30));
    easing.set_state(EasingState::Paused);
    assert!(easing.tick(ms(500)).progress.is_none());
    easing.set_state(EasingState::Play);
    assert!(easing.tick(ms(10)).progress.is_none());
    assert!(easing.tick(ms(10)).progress.is_none());
    assert_eq!(elapsed_of(&easing.tick(ms(5)).progress), Some(ms(5)));
}

#[test]
fn delay_waits_before_the_first_run() {
    let mut easing = once(ms(100)).delay(ms(40));
    assert!(easing.tick(ms(30)).progress.is_none());
    let step = easing.tick(ms(10));
    assert!(step.progress.is_none());
    assert!(!step.detach);
    let step = easing.tick(ms(25));
    let progress = step.progress.unwrap();
    assert_eq!(progress.timer.elapsed(), ms(25));
    assert_eq!(progress.timer.duration(), ms(100));
    assert!(easing.tick(ms(75)).detach);
}

#[test]
fn with_original_value_hands_out_the_start() {
    let easing = EasingComponent::new(Some(7u32), 9u32, (), EasingType::Once { duration: ms(10) });
    let (value, easing) = easing.with_original_value();
    assert_eq!(value, 7);
    assert_eq!(easing.start(), Some(&7));
    assert_eq!(*easing.end(), 9);
}

#[test]
fn clone_keeps_the_motion() {
    let mut easing = once(ms(100));
    easing.tick(ms(30));
    let mut copy = easing.clone();
    assert_eq!(copy.start(), Some(&0));
    assert_eq!(*copy.end(), 100);
    assert_eq!(elapsed_of(&copy.tick(ms(10)).progress), Some(ms(40)));
    assert_eq!(elapsed_of(&easing.tick(ms(20)).progress), Some(ms(50)));
}

#[test]
fn capture_start_takes_the_live_value_once() {
    let mut easing = EasingComponent::<u32, ()>::new(None, 9, (), EasingType::Once { duration: ms(10) });
    let mut live = 5u32;
    easing.capture_start(&mut live);
    assert_eq!(easing.start(), Some(&5));
    assert_eq!(live, 0);
    live = 8;
    easing.capture_start(&mut live);
    assert_eq!(easing.start(), Some(&5));
    assert_eq!(live, 8);
}

#[test]
fn custom_component_ease_builds_the_same_easing() {
    let easing = 4u32.ease_to(8, 'x', EasingType::Once { duration: ms(10) });
    assert_eq!(easing.start(), Some(&4));
    assert_eq!(*easing.end(), 8);
    let easing = <u32 as CustomComponentEase>::ease(None, 8, 'x', EasingType::Once { duration: ms(10) });
    assert_eq!(easing.start(), None);
    let easing = 4u32.ease_to_fn(|v| v * 3, 'x', EasingType::Once { duration: ms(10) });
    assert_eq!(easing.start(), Some(&4));
    assert_eq!(*easing.end(), 12);
}

#[test]
fn ease_value_default_wraps_the_default() {
    let value: EaseValue<u32> = EaseValue::default();
    assert_eq!(value.0, 0);
    let copy = EaseValue(5u8).clone();
    assert_eq!(copy.0, 5);
}
