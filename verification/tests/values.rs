use bevy_easings::{
    drive, Driven, Ease, EasingChainComponent, EasingComponent, EasingDirection, EasingProgress,
    EasingType,
};
use bevy_math::Vec2;
use interpolation::{EaseFunction, Lerp};
use std::time::Duration;

#[derive(Clone, Copy)]
enum Method {
    Curve(EaseFunction),
    Linear,
}

fn ms(n: u64) -> Duration {
    Duration::from_millis(n)
}

/// The factor at which the two ends are blended for this progress.
fn factor(progress: &EasingProgress, method: Method) -> f32 {
    let position = match progress.direction {
        EasingDirection::Forward => progress.timer.fraction(),
        EasingDirection::Backward => progress.timer.fraction_remaining(),
    };
    match method {
        Method::Curve(function) => interpolation::Ease::calc(position, function),
        Method::Linear => {
            if position < 0.01 {
                0.
            } else if position > 0.99 {
                1.
            } else {
                position
            }
        }
    }
}

fn close(a: f32, b: f32) -> bool {
    (a - b).abs() < 1e-3
}

#[test]
fn linear_once_in_four_steps_passes_the_quarters() {
    let mut easing = 0.0f32.ease_to(
        100.0,
        Method::Linear,
        EasingType::Once { duration: Duration::from_secs(1) },
    );
    let mut live = 0.0f32;
    let expected = [25.0f32, 50.0, 75.0, 100.0];
    for (i, want) in expected.iter().enumerate() {
        let step = easing.tick(ms(250));
        let progress = step.progress.unwrap();
        let t = factor(&progress, *easing.ease_function());
        live = interpolation::lerp(easing.start().unwrap(), easing.end(), &t);
        assert!(close(live, *want), "step {}: {} is not {}", i, live, want);
        assert_eq!(step.detach, i == 3);
    }
    assert_eq!(live, 100.0);
}

#[test]
fn ping_pong_reaches_the_end_holds_and_returns() {
    let start = Vec2::new(-500., 0.);
    let end = Vec2::new(500., 0.);
    let method = Method::Curve(EaseFunction::QuadraticInOut);
    let mut easing = start.ease_to(
        end,
        method,
        EasingType::PingPong { duration: ms(500), pause: Some(ms(100)) },
    );
    let mut live = start;
    let mut last_x = live.x;
    for _ in 0..10 {
        let step = easing.tick(ms(50));
        assert!(!step.detach);
        let progress = step.progress.unwrap();
        live = start.lerp(end, factor(&progress, method));
        assert!(live.x >= last_x);
        last_x = live.x;
    }
    assert_eq!(live, end);
    assert_eq!(easing.direction(), EasingDirection::Backward);

    // the pause: nothing is written, the value holds
    for _ in 0..2 {
        let step = easing.tick(ms(50));
        assert!(step.progress.is_none());
        assert!(!step.detach);
    }
    assert_eq!(live, end);

    // then it moves back towards the start
    for _ in 0..10 {
        let step = easing.tick(ms(50));
        let progress = step.progress.unwrap();
        assert_eq!(progress.direction, EasingDirection::Backward);
        live = start.lerp(end, factor(&progress, method));
        assert!(live.x < last_x);
        last_x = live.x;
    }
    assert_eq!(live, start);
    assert_eq!(easing.direction(), EasingDirection::Forward);
}

struct Entity {
    live: f32,
    easing: Option<EasingComponent<f32, Method>>,
    chain: Option<EasingChainComponent<f32, Method>>,
}

impl Entity {
    fn frame(&mut self, delta: Duration) {
        match drive(self.easing.as_mut(), self.chain.as_mut(), &mut self.live, delta) {
            Driven::Idle => {}
            Driven::Eased(step) => {
                let easing = self.easing.as_ref().unwrap();
                if let Some(progress) = step.progress {
                    let t = factor(&progress, *easing.ease_function());
                    let start = easing.start().copied().unwrap_or_default();
                    self.live = interpolation::lerp(&start, easing.end(), &t);
                }
                if step.detach {
                    self.easing = None;
                }
            }
            Driven::Chained(step) => {
                if let Some(next) = step.next {
                    self.live = interpolation::lerp(next.start().unwrap(), next.end(), &0.);
                    self.easing = Some(next);
                }
                if step.drained {
                    self.chain = None;
                }
            }
        }
    }
}

#[test]
fn chain_links_capture_their_start_from_the_live_value() {
    let b = 20.0f32;
    let c = -5.0f32;
    let once = EasingType::Once { duration: ms(100) };
    let first: EasingComponent<f32, Method> = f32::ease(None, b, Method::Linear, once);
    let chain = first.ease_to(c, Method::Curve(EaseFunction::CubicOut), once);
    let mut entity = Entity { live: 7.5, easing: None, chain: Some(chain) };

    entity.frame(ms(50));
    assert_eq!(entity.easing.as_ref().unwrap().start(), Some(&7.5));
    assert_eq!(*entity.easing.as_ref().unwrap().end(), b);
    assert_eq!(entity.live, 7.5);
    assert_eq!(entity.chain.as_ref().unwrap().len(), 1);

    entity.frame(ms(50));
    assert!(close(entity.live, 13.75));
    entity.frame(ms(50));
    assert_eq!(entity.live, b);
    assert!(entity.easing.is_none());

    entity.frame(ms(50));
    assert_eq!(entity.easing.as_ref().unwrap().start(), Some(&b));
    assert_eq!(*entity.easing.as_ref().unwrap().end(), c);
    assert_eq!(entity.live, b);
    assert!(entity.chain.is_none());

    entity.frame(ms(100));
    assert_eq!(entity.live, c);
    assert!(entity.easing.is_none());
    assert!(entity.chain.is_none());
}

#[test]
fn easing_without_start_falls_back_to_the_default() {
    let mut entity = Entity {
        live: 3.0,
        easing: Some(f32::ease(None, 10.0, Method::Linear, EasingType::Once { duration: ms(100) })),
        chain: None,
    };
    entity.frame(ms(50));
    assert!(close(entity.live, 5.0));
    entity.frame(ms(50));
    assert_eq!(entity.live, 10.0);
    assert!(entity.easing.is_none());
}

#[test]
fn named_curves_start_at_zero_and_end_at_one() {
    let curves = [
        EaseFunction::QuadraticIn,
        EaseFunction::QuadraticOut,
        EaseFunction::QuadraticInOut,
        EaseFunction::CubicIn,
        EaseFunction::CubicOut,
        EaseFunction::CubicInOut,
        EaseFunction::QuarticIn,
        EaseFunction::QuarticOut,
        EaseFunction::QuarticInOut,
        EaseFunction::QuinticIn,
        EaseFunction::QuinticOut,
        EaseFunction::QuinticInOut,
        EaseFunction::CircularIn,
        EaseFunction::CircularOut,
        EaseFunction::CircularInOut,
        EaseFunction::BounceIn,
        EaseFunction::BounceOut,
        EaseFunction::BounceInOut,
    ];
    let mut easing = 2.0f32.ease_to(6.0, (), EasingType::Loop { duration: ms(10), pause: None });
    let at_start = easing.tick(Duration::ZERO).progress.unwrap();
    let at_end = easing.tick(ms(10)).progress.unwrap();
    for curve in curves {
        let t0 = factor(&at_start, Method::Curve(curve));
        let t1 = factor(&at_end, Method::Curve(curve));
        assert_eq!(2.0f32.lerp(&6.0, &t0), 2.0);
        assert_eq!(2.0f32.lerp(&6.0, &t1), 6.0);
    }
}
