use pathtracer::collide::Collidable;
use pathtracer::trace::{PathAction, PathState, SurfaceEvent, MAX_DEPTH};

#[test]
fn new_path_traces_its_camera_ray() {
    let p = PathState::new();
    assert_eq!(p.action(), PathAction::Trace);
    assert_eq!(p.depth(), 0);
}

#[test]
fn miss_ends_with_the_sky() {
    let mut p = PathState::new();
    p.record(SurfaceEvent::Missed);
    assert_eq!(p.action(), PathAction::ShadeSky);
    assert_eq!(p.depth(), 0);
}

#[test]
fn absorption_ends_with_black() {
    let mut p = PathState::new();
    p.record(SurfaceEvent::Scattered);
    p.record(SurfaceEvent::Absorbed);
    assert_eq!(p.action(), PathAction::ShadeBlack);
    assert_eq!(p.depth(), 1);
}

#[test]
fn scatter_bounces_once_more() {
    let mut p = PathState::new();
    p.record(SurfaceEvent::Scattered);
    assert_eq!(p.action(), PathAction::Trace);
    assert_eq!(p.depth(), 1);
}

#[test]
fn depth_cap_ends_with_black() {
    let mut p = PathState::new();
    let mut traces = 0u32;
    while p.action() == PathAction::Trace {
        traces += 1;
        p.record(SurfaceEvent::Scattered);
    }
    assert_eq!(MAX_DEPTH, 50);
    assert_eq!(traces, 50);
    assert_eq!(p.depth(), 50);
    assert_eq!(p.action(), PathAction::ShadeBlack);
}

#[test]
fn last_bounce_below_the_cap_may_still_miss() {
    let mut p = PathState::new();
    for _ in 0..49 {
        p.record(SurfaceEvent::Scattered);
    }
    assert_eq!(p.action(), PathAction::Trace);
    p.record(SurfaceEvent::Missed);
    assert_eq!(p.action(), PathAction::ShadeSky);
}

struct Interval {
    low: i64,
    high: i64,
}

impl Collidable<i64> for Interval {
    type Output = Option<i64>;

    fn hit(&self, r: i64) -> Option<i64> {
        if self.low <= r && r < self.high {
            Some(r - self.low)
        } else {
            None
        }
    }
}

#[test]
fn collidable_is_implementable_outside_the_library() {
    let i = Interval { low: 3, high: 6 };
    assert_eq!(i.hit(4), Some(1));
    assert_eq!(i.hit(6), None);
}
